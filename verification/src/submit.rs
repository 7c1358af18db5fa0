use vstd::prelude::*;

use crate::error::RutabagaError;
use crate::error::RutabagaResult;

verus! {

/// One extension structure of a submission's chain, as read from the command
/// stream; `p_next` is the link to the structure after it (0: none).
pub enum ExtRecord<X, Y> {
    /// An address-space info structure.
    AddressSpaceInfo { info: X, p_next: u64 },
    /// A buffer info structure.
    BufferInfo { info: Y, p_next: u64 },
    /// A structure of any other type.
    Unrecognized,
}

/// The extension that the host submission links to: the address-space info
/// when the chain had one, else the buffer info when it had one.
pub enum LinkedExtension<X, Y> {
    AddressSpaceInfo(X),
    BufferInfo(Y),
    NoExtension,
}

/// Walks the extension chain of a submission: it holds the link still to
/// follow and the last structure of each known kind met so far.
pub struct SubmitExtChain<X, Y> {
    next: u64,
    address_space_info: Option<X>,
    buffer_info: Option<Y>,
}

impl<X, Y> SubmitExtChain<X, Y> {
    /// The link still to follow (0: the chain is finished).
    pub closed spec fn spec_next(&self) -> u64 {
        self.next
    }

    /// The last address-space info met, if any.
    pub closed spec fn spec_address_space_info(&self) -> Option<X> {
        self.address_space_info
    }

    /// The last buffer info met, if any.
    pub closed spec fn spec_buffer_info(&self) -> Option<Y> {
        self.buffer_info
    }

    /// Starts a walk at the submission's first link.
    pub fn new(first: u64) -> (r: Self)
        ensures
            r.spec_next() == first,
            r.spec_address_space_info() is None,
            r.spec_buffer_info() is None,
    {
        SubmitExtChain { next: first, address_space_info: None, buffer_info: None }
    }

    /// Whether another structure must be read.
    pub fn has_next(&self) -> (r: bool)
        ensures
            r == (self.spec_next() != 0),
    {
        self.next != 0
    }

    /// Takes in the structure read at the current link. A structure that could
    /// not be read (`None`) or of an unknown type fails the submission with
    /// `InvalidCommandBuffer` and changes nothing; a known one replaces the
    /// last of its kind and moves the walk to its own link.
    pub fn accept(&mut self, record: Option<ExtRecord<X, Y>>) -> (r: RutabagaResult<()>)
        ensures
            r matches Err(e) ==> e is InvalidCommandBuffer,
            match record {
                Some(ExtRecord::AddressSpaceInfo { info, p_next }) => {
                    &&& r is Ok
                    &&& final(self).spec_next() == p_next
                    &&& final(self).spec_address_space_info() == Some(info)
                    &&& final(self).spec_buffer_info() == old(self).spec_buffer_info()
                },
                Some(ExtRecord::BufferInfo { info, p_next }) => {
                    &&& r is Ok
                    &&& final(self).spec_next() == p_next
                    &&& final(self).spec_address_space_info() == old(
                        self,
                    ).spec_address_space_info()
                    &&& final(self).spec_buffer_info() == Some(info)
                },
                _ => {
                    &&& r is Err
                    &&& final(self).spec_next() == old(self).spec_next()
                    &&& final(self).spec_address_space_info() == old(
                        self,
                    ).spec_address_space_info()
                    &&& final(self).spec_buffer_info() == old(self).spec_buffer_info()
                },
            },
    {
        match record {
            Some(ExtRecord::AddressSpaceInfo { info, p_next }) => {
                self.next = p_next;
                self.address_space_info = Some(info);
                Ok(())
            },
            Some(ExtRecord::BufferInfo { info, p_next }) => {
                self.next = p_next;
                self.buffer_info = Some(info);
                Ok(())
            },
            _ => Err(RutabagaError::InvalidCommandBuffer),
        }
    }

    /// Ends the walk: the extension the host submission links to.
    pub fn into_linked(self) -> (r: LinkedExtension<X, Y>)
        ensures
            match self.spec_address_space_info() {
                Some(a) => r == LinkedExtension::<X, Y>::AddressSpaceInfo(a),
                None => match self.spec_buffer_info() {
                    Some(b) => r == LinkedExtension::<X, Y>::BufferInfo(b),
                    None => r is NoExtension,
                },
            },
    {
        match self.address_space_info {
            Some(a) => LinkedExtension::AddressSpaceInfo(a),
            None => match self.buffer_info {
                Some(b) => LinkedExtension::BufferInfo(b),
                None => LinkedExtension::NoExtension,
            },
        }
    }
}

} // verus!
