//! Host-side logic of the Magma virtio-gpu component: the per-context device
//! state, the dispatcher of guest Magma commands, fence bookkeeping and the
//! capability set, with contracts proved by Verus.

pub mod component;
pub mod context;
pub mod device_state;
pub mod dispatcher;
pub mod error;
pub mod fences;
pub mod handle;
pub mod laws;
pub mod seqno;
pub mod submit;
