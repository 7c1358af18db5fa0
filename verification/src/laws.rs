use vstd::prelude::*;

use crate::component::capability_set;
use crate::component::CapabilityRecord;
use crate::component::DeviceCapabilities;
use crate::component::VirtCapabilities;
use crate::context::spec_blob_source;
use crate::context::BlobSource;
use crate::device_state::lookup;
use crate::dispatcher::spec_submit_queue_id;
use crate::fences::after_take;
use crate::fences::pending_on;
use crate::fences::taken;
use crate::seqno::spec_after_update;
use crate::seqno::spec_slot_index;
use crate::seqno::RING_SLOT_COUNT;

verus! {

/// An object registered under `id` is what a later lookup of `id` finds, and
/// registering it leaves every other id as it was.
pub proof fn law_registered_object_is_found<V>(table: Map<u32, V>, id: u32, object: V)
    ensures
        lookup(table.insert(id, object), id) == Some(object),
        forall|other: u32| other != id ==> #[trigger] lookup(table.insert(id, object), other)
            == lookup(table, other),
{
}

/// After an object is closed no lookup of its id finds anything, and closing
/// it leaves every other id as it was.
pub proof fn law_closed_object_is_gone<V>(table: Map<u32, V>, id: u32)
    ensures
        lookup(table.remove(id), id) is None,
        forall|other: u32| other != id ==> #[trigger] lookup(table.remove(id), other) == lookup(
            table,
            other,
        ),
{
}

/// Recording a completion never moves any ring backwards, and afterwards every
/// waiter on that ring for a sequence number up to the recorded one may
/// proceed.
pub proof fn law_completion_releases_waiters(
    slots: Seq<u64>,
    ring_idx: u32,
    seqno: u64,
    target: u64,
)
    requires
        slots.len() == RING_SLOT_COUNT,
        target <= seqno,
    ensures
        spec_after_update(slots, ring_idx, seqno).len() == RING_SLOT_COUNT,
        spec_after_update(slots, ring_idx, seqno)[spec_slot_index(ring_idx)] >= target,
        forall|i: int|
            0 <= i < RING_SLOT_COUNT ==> #[trigger] spec_after_update(slots, ring_idx, seqno)[i]
                >= slots[i],
{
}

/// A completion recorded for one ring leaves the rings of every other slot
/// unchanged.
pub proof fn law_completion_is_per_slot(slots: Seq<u64>, ring_idx: u32, seqno: u64, other: u32)
    requires
        slots.len() == RING_SLOT_COUNT,
        spec_slot_index(other) != spec_slot_index(ring_idx),
    ensures
        spec_after_update(slots, ring_idx, seqno)[spec_slot_index(other)]
            == slots[spec_slot_index(other)],
{
}

/// Ring indices that differ by a multiple of the slot count share a slot.
pub proof fn law_rings_fold_onto_slots(ring_idx: u32, k: u32)
    requires
        ring_idx as int + (k as int) * (RING_SLOT_COUNT as int) <= u32::MAX,
    ensures
        spec_slot_index((ring_idx as int + (k as int) * (RING_SLOT_COUNT as int)) as u32)
            == spec_slot_index(ring_idx),
{
    let n: int = ring_idx as int + (k as int) * 64;
    assert(n % 64 == (ring_idx as int) % 64) by (nonlinear_arith)
        requires
            n == ring_idx as int + (k as int) * 64,
            k >= 0,
    ;
}

/// The pending fences after exporting `fences` on `ring` one after another.
pub open spec fn push_all<H>(m: Map<u32, Seq<H>>, ring: u32, fences: Seq<H>) -> Map<u32, Seq<H>>
    decreases fences.len(),
{
    if fences.len() == 0 {
        m
    } else {
        let before = push_all(m, ring, fences.drop_last());
        before.insert(ring, pending_on(before, ring).push(fences.last()))
    }
}

/// Fences exported on a ring are pending on it in the order they were
/// exported, behind those already pending, and exporting on one ring leaves
/// every other ring as it was.
pub proof fn law_fences_queue_in_order<H>(m: Map<u32, Seq<H>>, ring: u32, fences: Seq<H>)
    ensures
        pending_on(push_all(m, ring, fences), ring) == pending_on(m, ring) + fences,
        forall|other: u32|
            other != ring ==> #[trigger] pending_on(push_all(m, ring, fences), other)
                == pending_on(m, other),
    decreases fences.len(),
{
    if fences.len() > 0 {
        law_fences_queue_in_order(m, ring, fences.drop_last());
        let before = push_all(m, ring, fences.drop_last());
        assert forall|other: u32| other != ring implies #[trigger] pending_on(
            push_all(m, ring, fences),
            other,
        ) == pending_on(m, other) by {
            assert(pending_on(before, other) == pending_on(m, other));
        }
        assert(pending_on(m, ring) + fences =~= (pending_on(m, ring) + fences.drop_last()).push(
            fences.last(),
        ));
    } else {
        assert(pending_on(m, ring) + fences =~= pending_on(m, ring));
    }
}

/// Taking a fence from a ring yields the oldest one, and the rest stay pending
/// in order: so fences come out in the order they were exported.
pub proof fn law_fences_leave_in_order<H>(pending: Seq<H>, fence: H)
    ensures
        pending.push(fence)[0] == if pending.len() == 0 {
            fence
        } else {
            pending[0]
        },
        pending.len() > 0 ==> pending.push(fence).drop_first() == pending.drop_first().push(fence),
{
    if pending.len() > 0 {
        assert(pending.push(fence).drop_first() =~= pending.drop_first().push(fence));
    }
}

/// The pending fences and the fences handed out after `k` takes from `ring`,
/// in the order they were handed out.
pub open spec fn take_run<H>(m: Map<u32, Seq<H>>, ring: u32, k: nat) -> (Map<u32, Seq<H>>, Seq<H>)
    decreases k,
{
    if k == 0 {
        (m, Seq::empty())
    } else {
        let (before, out) = take_run(m, ring, (k - 1) as nat);
        (
            after_take(before, ring),
            match taken(before, ring) {
                Some(h) => out.push(h),
                None => out,
            },
        )
    }
}

/// Takes from a ring hand out its pending fences oldest first, one per take,
/// and leave every other ring as it was.
pub proof fn law_takes_hand_out_oldest_first<H>(m: Map<u32, Seq<H>>, ring: u32, k: nat)
    requires
        k <= pending_on(m, ring).len(),
    ensures
        take_run(m, ring, k).1 == pending_on(m, ring).take(k as int),
        pending_on(take_run(m, ring, k).0, ring) == pending_on(m, ring).skip(k as int),
        forall|other: u32|
            other != ring ==> #[trigger] pending_on(take_run(m, ring, k).0, other) == pending_on(
                m,
                other,
            ),
    decreases k,
{
    let q = pending_on(m, ring);
    if k == 0 {
        assert(q.take(0) =~= Seq::<H>::empty());
        assert(q.skip(0) =~= q);
    } else {
        let k1 = (k - 1) as nat;
        law_takes_hand_out_oldest_first(m, ring, k1);
        let (before, out) = take_run(m, ring, k1);
        assert(pending_on(before, ring) == q.skip(k1 as int));
        assert(pending_on(before, ring)[0] == q[k1 as int]);
        assert(q.take(k as int) =~= q.take(k1 as int).push(q[k1 as int]));
        assert(q.skip(k as int) =~= q.skip(k1 as int).drop_first());
        assert forall|other: u32| other != ring implies #[trigger] pending_on(
            take_run(m, ring, k).0,
            other,
        ) == pending_on(m, other) by {
            assert(pending_on(before, other) == pending_on(m, other));
        }
    }
}

/// First in, first out: when fences are exported on a ring with none pending,
/// as many takes hand them out in the order they were exported, one per take,
/// after which a further take finds nothing; other rings are unaffected.
pub proof fn law_fences_first_in_first_out<H>(m: Map<u32, Seq<H>>, ring: u32, fences: Seq<H>)
    requires
        pending_on(m, ring).len() == 0,
    ensures
        take_run(push_all(m, ring, fences), ring, fences.len()).1 == fences,
        taken(take_run(push_all(m, ring, fences), ring, fences.len()).0, ring) is None,
        forall|other: u32|
            other != ring ==> #[trigger] pending_on(
                take_run(push_all(m, ring, fences), ring, fences.len()).0,
                other,
            ) == pending_on(m, other),
{
    law_fences_queue_in_order(m, ring, fences);
    let pushed = push_all(m, ring, fences);
    assert(pending_on(m, ring) + fences =~= fences);
    law_takes_hand_out_oldest_first(pushed, ring, fences.len());
    assert(fences.take(fences.len() as int) =~= fences);
    assert(fences.skip(fences.len() as int).len() == 0);
    assert forall|other: u32| other != ring implies #[trigger] pending_on(
        take_run(pushed, ring, fences.len()).0,
        other,
    ) == pending_on(m, other) by {
        assert(pending_on(pushed, other) == pending_on(m, other));
    }
}

/// Recording a completion sets the ring's slot to exactly the larger of its
/// old value and the recorded number, and leaves every other slot as it was.
pub proof fn law_completion_takes_the_larger(slots: Seq<u64>, ring_idx: u32, seqno: u64)
    requires
        slots.len() == RING_SLOT_COUNT,
    ensures
        seqno > slots[spec_slot_index(ring_idx)] ==> spec_after_update(slots, ring_idx, seqno)[
            spec_slot_index(ring_idx)
        ] == seqno,
        seqno <= slots[spec_slot_index(ring_idx)] ==> spec_after_update(slots, ring_idx, seqno)
            == slots,
        forall|i: int|
            0 <= i < RING_SLOT_COUNT && i != spec_slot_index(ring_idx) ==> #[trigger] spec_after_update(
                slots,
                ring_idx,
                seqno,
            )[i] == slots[i],
{
}

/// A submission goes to the queue it names; only a submission naming queue 0
/// goes to the default queue.
pub proof fn law_submission_goes_to_named_queue(queue: u32, default_queue_id: u32)
    ensures
        queue != 0 ==> spec_submit_queue_id(queue, default_queue_id) == queue,
        spec_submit_queue_id(0, default_queue_id) == default_queue_id,
{
}

/// A blob with a non-zero blob id exports the buffer with that id (its low 32
/// bits); only blob id 0 takes fresh shared memory.
pub proof fn law_blob_id_names_the_buffer(blob_id: u64)
    ensures
        blob_id != 0 ==> spec_blob_source(blob_id) == BlobSource::Buffer(blob_id as u32),
        spec_blob_source(0) == BlobSource::SharedMemory,
{
}

/// How many memory types a device lists (none when they could not be listed).
pub open spec fn type_count<I, M, H>(dev: DeviceCapabilities<I, M, H>) -> nat {
    match dev.memory_types {
        Some(v) => v@.len(),
        None => 0,
    }
}

/// How many memory heaps a device lists (none when they could not be listed).
pub open spec fn heap_count<I, M, H>(dev: DeviceCapabilities<I, M, H>) -> nat {
    match dev.memory_heaps {
        Some(v) => v@.len(),
        None => 0,
    }
}

/// How many device records come before device `k`: one info record and one
/// record per memory type and heap of each earlier device.
pub open spec fn records_before<I, M, H>(devs: Seq<DeviceCapabilities<I, M, H>>, k: int) -> nat
    decreases k,
{
    if k <= 0 {
        0
    } else {
        records_before(devs, k - 1) + 1 + type_count(devs[k - 1]) + heap_count(devs[k - 1])
    }
}

/// Device `k`'s records sit where the earlier devices' records end: its info,
/// then every one of its memory types in order, then every one of its heaps
/// in order.
pub open spec fn device_laid_out_at<I, M, H>(
    recs: Seq<CapabilityRecord<I, M, H>>,
    dev: DeviceCapabilities<I, M, H>,
    at: int,
) -> bool {
    &&& 0 <= at
    &&& at + 1 + type_count(dev) + heap_count(dev) <= recs.len()
    &&& recs[at] == CapabilityRecord::<I, M, H>::PhysicalDeviceInfo(dev.info)
    &&& forall|t: int|
        0 <= t < type_count(dev) ==> #[trigger] recs[at + 1 + t]
            == CapabilityRecord::<I, M, H>::PhysicalDeviceMemoryType(dev.memory_types->Some_0@[t])
    &&& forall|t: int|
        0 <= t < heap_count(dev) ==> #[trigger] recs[at + 1 + type_count(dev) + t]
            == CapabilityRecord::<I, M, H>::PhysicalDeviceMemoryHeap(dev.memory_heaps->Some_0@[t])
}

proof fn lemma_device_records_prefix<I, M, H>(devs: Seq<DeviceCapabilities<I, M, H>>, n: int)
    requires
        0 <= n <= devs.len(),
    ensures
        crate::component::devices_records(devs.take(n)).len() == records_before(devs, n),
        forall|k: int|
            0 <= k < n ==> #[trigger] device_laid_out_at(
                crate::component::devices_records(devs.take(n)),
                devs[k],
                records_before(devs, k) as int,
            ),
    decreases n,
{
    let recs = crate::component::devices_records(devs.take(n));
    if n == 0 {
        assert(devs.take(0) =~= Seq::<DeviceCapabilities<I, M, H>>::empty());
    } else {
        lemma_device_records_prefix(devs, n - 1);
        let prev = crate::component::devices_records(devs.take(n - 1));
        let d = devs[n - 1];
        assert(devs.take(n).drop_last() =~= devs.take(n - 1));
        assert(devs.take(n).last() == d);
        let mine = crate::component::device_records(d);
        assert(recs == prev + mine);
        let types = crate::component::memory_type_records::<I, M, H>(d.memory_types);
        let heaps = crate::component::memory_heap_records::<I, M, H>(d.memory_heaps);
        assert(types.len() == type_count(d));
        assert(heaps.len() == heap_count(d));
        assert(mine.len() == 1 + type_count(d) + heap_count(d));
        let base = records_before(devs, n - 1) as int;
        assert forall|k: int| 0 <= k < n implies #[trigger] device_laid_out_at(
            recs,
            devs[k],
            records_before(devs, k) as int,
        ) by {
            if k < n - 1 {
                assert(device_laid_out_at(prev, devs[k], records_before(devs, k) as int));
                assert(recs.len() == prev.len() + mine.len());
                lemma_records_before_mono(devs, k + 1, n - 1);
                let at = records_before(devs, k) as int;
                assert(recs[at] == prev[at]);
                assert forall|t: int| 0 <= t < type_count(devs[k]) implies #[trigger] recs[at
                    + 1 + t] == CapabilityRecord::<I, M, H>::PhysicalDeviceMemoryType(
                    devs[k].memory_types->Some_0@[t],
                ) by {
                    assert(recs[at + 1 + t] == prev[at + 1 + t]);
                }
                assert forall|t: int| 0 <= t < heap_count(devs[k]) implies #[trigger] recs[at
                    + 1 + type_count(devs[k]) + t]
                    == CapabilityRecord::<I, M, H>::PhysicalDeviceMemoryHeap(
                    devs[k].memory_heaps->Some_0@[t],
                ) by {
                    assert(recs[at + 1 + type_count(devs[k]) + t] == prev[at + 1 + type_count(
                        devs[k],
                    ) + t]);
                }
            } else {
                assert(k == n - 1);
                assert(recs[base] == mine[0]);
                assert forall|t: int| 0 <= t < type_count(d) implies #[trigger] recs[base + 1
                    + t] == CapabilityRecord::<I, M, H>::PhysicalDeviceMemoryType(
                    d.memory_types->Some_0@[t],
                ) by {
                    assert(recs[base + 1 + t] == mine[1 + t]);
                    assert(mine[1 + t] == types[t]);
                }
                assert forall|t: int| 0 <= t < heap_count(d) implies #[trigger] recs[base + 1
                    + type_count(d) + t] == CapabilityRecord::<I, M, H>::PhysicalDeviceMemoryHeap(
                    d.memory_heaps->Some_0@[t],
                ) by {
                    assert(recs[base + 1 + type_count(d) + t] == mine[1 + type_count(d) + t]);
                    assert(mine[1 + type_count(d) + t] == heaps[t]);
                }
            }
        }
    }
}

proof fn lemma_records_before_mono<I, M, H>(devs: Seq<DeviceCapabilities<I, M, H>>, j: int, n: int)
    requires
        0 <= j <= n,
    ensures
        records_before(devs, j) <= records_before(devs, n),
    decreases n - j,
{
    if j < n {
        lemma_records_before_mono(devs, j, n - 1);
    }
}

/// The capability set is the header followed, device by device and for every
/// device, by its info, all of its memory types in order and all of its
/// memory heaps in order; nothing else is in it.
pub proof fn law_capability_set_layout<I, M, H>(
    caps: VirtCapabilities,
    devs: Seq<DeviceCapabilities<I, M, H>>,
)
    ensures
        capability_set(caps, devs).len() == 1 + records_before(devs, devs.len() as int),
        capability_set(caps, devs)[0] == CapabilityRecord::<I, M, H>::VirtCapabilities(caps),
        forall|k: int|
            0 <= k < devs.len() ==> #[trigger] device_laid_out_at(
                capability_set(caps, devs),
                devs[k],
                (1 + records_before(devs, k)) as int,
            ),
{
    lemma_device_records_prefix(devs, devs.len() as int);
    assert(devs.take(devs.len() as int) =~= devs);
    let body = crate::component::devices_records(devs);
    let set = capability_set(caps, devs);
    assert forall|k: int| 0 <= k < devs.len() implies #[trigger] device_laid_out_at(
        set,
        devs[k],
        (1 + records_before(devs, k)) as int,
    ) by {
        let at = records_before(devs, k) as int;
        assert(device_laid_out_at(body, devs[k], at));
        assert(set.len() == 1 + body.len());
        assert(set[1 + at] == body[at]);
        assert forall|t: int| 0 <= t < type_count(devs[k]) implies #[trigger] set[(1 + at) + 1
            + t] == CapabilityRecord::<I, M, H>::PhysicalDeviceMemoryType(
            devs[k].memory_types->Some_0@[t],
        ) by {
            assert(set[(1 + at) + 1 + t] == body[at + 1 + t]);
        }
        assert forall|t: int| 0 <= t < heap_count(devs[k]) implies #[trigger] set[(1 + at) + 1
            + type_count(devs[k]) + t] == CapabilityRecord::<I, M, H>::PhysicalDeviceMemoryHeap(
            devs[k].memory_heaps->Some_0@[t],
        ) by {
            assert(set[(1 + at) + 1 + type_count(devs[k]) + t] == body[at + 1 + type_count(
                devs[k],
            ) + t]);
        }
    }
}

} // verus!
