//! Device queues and queue-family discovery.
//!
//! Queues are not created or destroyed: the native driver owns them, and a
//! `Queue` only pairs the retrieved handle with the device and the indices
//! that identify it.  Queue-family discovery scans the property records a
//! physical device reports and filters them by required capability flags
//! and presentation support.

use vstd::prelude::*;

use crate::device::Device;
use crate::device::PhysicalDevice;
use crate::error::Error;
use crate::error::VooResult;
use crate::flags::QueueFlags;
use crate::handle::Handle;
use crate::small_vec::IndexVec;
use crate::small_vec::idx_contents;

verus! {

/// Raw native identifier of a device queue.
#[derive(Clone, Copy, Debug, PartialEq, Eq, Structural)]
pub struct QueueHandle(pub(crate) u64);

impl QueueHandle {
    /// The raw identifier as a mathematical value.
    pub closed spec fn spec_raw(&self) -> u64 {
        self.0
    }

    /// Returns the raw native queue identifier.
    pub fn to_raw(&self) -> (r: u64)
        ensures
            r == self.spec_raw(),
    {
        self.0
    }
}

impl Handle for QueueHandle {
    type Target = QueueHandle;

    open spec fn spec_handle(&self) -> QueueHandle {
        *self
    }

    fn handle(&self) -> (h: QueueHandle)
        ensures
            h == self.spec_handle(),
    {
        *self
    }
}

/// One queue family as the scan sees it: the property record the native
/// enumeration returned for the family, together with the answer of the
/// native presentation-support query for it.
#[derive(Clone, Copy, Debug, PartialEq, Eq, Structural)]
pub struct QueueFamilyRecord {
    /// Number of queues in this family.
    pub queue_count: u32,
    /// Capabilities of the queues in this family.
    pub queue_flags: QueueFlags,
    /// Whether this family can present to the surface that was queried.
    pub presentation_support: bool,
}

/// The family has at least one queue and its capabilities are a superset of
/// the required flags.
pub open spec fn family_matches(r: QueueFamilyRecord, required: QueueFlags) -> bool {
    r.queue_count > 0 && r.queue_flags.spec_contains(required)
}

/// The family has at least one queue and supports presentation.
pub open spec fn family_presents(r: QueueFamilyRecord) -> bool {
    r.queue_count > 0 && r.presentation_support
}

/// Index of the first capability match at or after `i`, or the length of
/// the list if there is none.
pub open spec fn first_match_from(
    records: Seq<QueueFamilyRecord>,
    required: QueueFlags,
    i: int,
) -> int
    decreases records.len() - i,
{
    if i < 0 || i >= records.len() {
        records.len() as int
    } else if family_matches(records[i], required) {
        i
    } else {
        first_match_from(records, required, i + 1)
    }
}

/// Index of the first capability match, or the length of the list if there
/// is none.
pub open spec fn first_match(records: Seq<QueueFamilyRecord>, required: QueueFlags) -> int {
    first_match_from(records, required, 0)
}

/// At least one family matches the required flags.
pub open spec fn has_match(records: Seq<QueueFamilyRecord>, required: QueueFlags) -> bool {
    first_match(records, required) < records.len()
}

/// Index one past the last family the scan visits: the scan halts right
/// after the first capability match, and otherwise runs over the whole
/// list.
pub open spec fn scan_limit(records: Seq<QueueFamilyRecord>, required: QueueFlags) -> int {
    if has_match(records, required) {
        first_match(records, required) + 1
    } else {
        records.len() as int
    }
}

/// The capability-match indices the scan collects: exactly the first
/// matching index, or nothing when no family matches.
pub open spec fn flag_idxs_of_scan(records: Seq<QueueFamilyRecord>, required: QueueFlags) -> Seq<
    i32,
> {
    if has_match(records, required) {
        seq![first_match(records, required) as i32]
    } else {
        Seq::<i32>::empty()
    }
}

/// The presentation-capable indices among the first `n` families, in
/// increasing order.
pub open spec fn present_idxs_upto(records: Seq<QueueFamilyRecord>, n: int) -> Seq<i32>
    decreases n,
{
    if n <= 0 {
        Seq::<i32>::empty()
    } else if family_presents(records[n - 1]) {
        present_idxs_upto(records, n - 1).push((n - 1) as i32)
    } else {
        present_idxs_upto(records, n - 1)
    }
}

/// Result of one queue-family scan: which physical device was scanned with
/// which required flags, the capability-match indices, and the
/// presentation-capable indices.  Built once per scan and not mutated
/// afterwards.
pub struct QueueFamilyIndices {
    /// The physical device this scan result belongs to.
    pub physical_device: PhysicalDevice,
    /// The capability flags the scan required.
    pub flags: QueueFlags,
    /// Indices of families matching the required capability flags.
    pub flag_idxs: IndexVec,
    /// Indices of families that can present to the queried surface.
    pub presentation_support_idxs: IndexVec,
}

impl QueueFamilyIndices {
    /// An empty result for a scan of the given physical device with the
    /// given required flags.
    pub fn new(physical_device: PhysicalDevice, flags: QueueFlags) -> (q: QueueFamilyIndices)
        ensures
            q.physical_device == physical_device,
            q.flags == flags,
            idx_contents(q.flag_idxs) == Seq::<i32>::empty(),
            idx_contents(q.presentation_support_idxs) == Seq::<i32>::empty(),
    {
        QueueFamilyIndices {
            flag_idxs: IndexVec::new(),
            presentation_support_idxs: IndexVec::new(),
            physical_device,
            flags,
        }
    }

    /// Whether at least one capability-matching family was found.
    pub fn is_complete(&self) -> (r: bool)
        ensures
            r <==> idx_contents(self.flag_idxs).len() > 0,
    {
        self.flag_idxs.len() > 0
    }

    /// The indices of the capability-matching families.
    pub fn family_idxs(&self) -> (s: &[i32])
        ensures
            s@ == idx_contents(self.flag_idxs),
    {
        self.flag_idxs.as_slice()
    }
}

/// Scans a physical device's queue families for the required capability
/// flags and for presentation support.
///
/// `records` holds, in family-index order, the property record the native
/// enumeration returned for each family, together with the native
/// presentation-support answer for it.  The scan visits families from index
/// zero upward; a family with a positive queue count whose flags are a
/// superset of `queue_flags` joins the capability-match sequence, and a
/// family with a positive queue count and presentation support joins the
/// presentation sequence.  The scan halts right after the first capability
/// match, so the presentation sequence covers only the families up to and
/// including that match.
pub fn queue_families(
    physical_device: PhysicalDevice,
    queue_flags: QueueFlags,
    records: &Vec<QueueFamilyRecord>,
) -> (indices: QueueFamilyIndices)
    requires
        records@.len() <= 0x7fff_ffff,
    ensures
        indices.physical_device == physical_device,
        indices.flags == queue_flags,
        idx_contents(indices.flag_idxs) == flag_idxs_of_scan(records@, queue_flags),
        idx_contents(indices.presentation_support_idxs) == present_idxs_upto(
            records@,
            scan_limit(records@, queue_flags),
        ),
{
    let mut indices = QueueFamilyIndices::new(physical_device, queue_flags);
    let mut i: usize = 0;
    while i < records.len()
        invariant_except_break
            i <= records@.len(),
            records@.len() <= 0x7fff_ffff,
            indices.physical_device == physical_device,
            indices.flags == queue_flags,
            first_match(records@, queue_flags) == first_match_from(records@, queue_flags, i as int),
            idx_contents(indices.flag_idxs) == Seq::<i32>::empty(),
            idx_contents(indices.presentation_support_idxs) == present_idxs_upto(
                records@,
                i as int,
            ),
        ensures
            indices.physical_device == physical_device,
            indices.flags == queue_flags,
            idx_contents(indices.flag_idxs) == flag_idxs_of_scan(records@, queue_flags),
            idx_contents(indices.presentation_support_idxs) == present_idxs_upto(
                records@,
                scan_limit(records@, queue_flags),
            ),
        decreases records@.len() - i,
    {
        let record = records[i];
        if record.queue_count > 0 && record.queue_flags.contains(queue_flags) {
            indices.flag_idxs.push(i as i32);
        }
        if record.queue_count > 0 && record.presentation_support {
            indices.presentation_support_idxs.push(i as i32);
        }
        if indices.is_complete() {
            proof {
                assert(family_matches(records@[i as int], queue_flags));
                assert(first_match(records@, queue_flags) == i as int);
                assert(idx_contents(indices.flag_idxs) =~= flag_idxs_of_scan(
                    records@,
                    queue_flags,
                ));
                assert(scan_limit(records@, queue_flags) == i + 1);
            }
            break ;
        }
        proof {
            assert(!family_matches(records@[i as int], queue_flags));
        }
        i += 1;
    }
    indices
}

/// One logical queue, identified by its owning device, a family index and a
/// queue index within that family.  The native handle is retrieved from the
/// device, never created or destroyed by this layer: the queue's lifetime
/// is tied entirely to the device's.
pub struct Queue {
    handle: QueueHandle,
    device: Device,
    family_idx: u32,
    idx: u32,
}

impl Queue {
    /// The device this queue belongs to.
    pub closed spec fn spec_device(&self) -> Device {
        self.device
    }

    /// The queue-family index this queue was retrieved with.
    pub closed spec fn spec_family_idx(&self) -> u32 {
        self.family_idx
    }

    /// The queue index within its family.
    pub closed spec fn spec_idx(&self) -> u32 {
        self.idx
    }

    /// Pairs the queue handle the device retrieval returned with the device
    /// and the indices that identify the queue.
    ///
    /// `retrieved` is the outcome of the native device-queue retrieval for
    /// this family/index pair: the raw queue handle, or the native status
    /// code of a failed retrieval, which is propagated unchanged.
    pub fn new(
        device: Device,
        queue_family_index: u32,
        queue_index: u32,
        retrieved: Result<u64, i32>,
    ) -> (q: VooResult<Queue>)
        ensures
            retrieved matches Ok(raw) ==> (q matches Ok(queue) && queue.spec_handle().spec_raw()
                == raw && queue.spec_device() == device && queue.spec_family_idx()
                == queue_family_index && queue.spec_idx() == queue_index),
            retrieved matches Err(code) ==> (q matches Err(e) && e.code == code),
    {
        match retrieved {
            Ok(raw) => Ok(
                Queue {
                    handle: QueueHandle(raw),
                    device,
                    family_idx: queue_family_index,
                    idx: queue_index,
                },
            ),
            Err(code) => Err(Error::api_call(code)),
        }
    }

    /// The device this queue belongs to.
    pub fn device(&self) -> (d: &Device)
        ensures
            *d == self.spec_device(),
    {
        &self.device
    }

    /// The queue-family index this queue was retrieved with.
    pub fn family_idx(&self) -> (f: u32)
        ensures
            f == self.spec_family_idx(),
    {
        self.family_idx
    }

    /// The queue index within its family.
    pub fn idx(&self) -> (x: u32)
        ensures
            x == self.spec_idx(),
    {
        self.idx
    }
}

impl Handle for Queue {
    type Target = QueueHandle;

    closed spec fn spec_handle(&self) -> QueueHandle {
        self.handle
    }

    fn handle(&self) -> (h: QueueHandle)
        ensures
            h == self.spec_handle(),
    {
        self.handle
    }
}

} // verus!

