//! The physical device: one enumerable adapter over the shared
//! context, its capability queries, and the single `open` transition
//! that promotes it into a logical device plus queues.

use vstd::prelude::*;

use crate::device::Device;
use crate::info::Info;
use crate::info::Limits;
use crate::info::PrivateCaps;
use crate::info::SRGB_COLOR;
use crate::info::contains_bits;
use crate::info::spec_contains_bits;
use crate::memory::HEAP_SIZE_UNKNOWN;
use crate::memory::MemoryProperties;
use crate::memory::memory_properties_from_caps;
use crate::memory::spec_heap_count;
use crate::memory::spec_memory_types;
use crate::queue::CommandQueue;
use crate::share::GlContainer;
use crate::share::Share;
use crate::share::ShareCell;
use crate::share::Starc;

verus! {

/// What kinds of work a queue family accepts.
#[derive(Copy, Clone, Debug, PartialEq, Eq, Structural)]
pub enum QueueType {
    General,
    Graphics,
    Compute,
    Transfer,
}

/// Identifies a queue family of an adapter.
#[derive(Copy, Clone, Debug, PartialEq, Eq, Structural)]
pub struct QueueFamilyId(pub usize);

/// The one queue family this adapter offers.  The legacy context is a
/// single execution stream, so no family can offer more than one
/// usable queue.
#[derive(Copy, Clone, Debug, PartialEq, Eq, Structural)]
pub struct QueueFamily;

impl QueueFamily {
    /// The family accepts every kind of work.
    pub fn queue_type(&self) -> (r: QueueType)
        ensures
            r == QueueType::General,
    {
        QueueType::General
    }

    /// Exactly one usable queue: there is exactly one execution stream
    /// to dispatch.
    pub fn max_queues(&self) -> (r: usize)
        ensures
            r == 1,
    {
        1
    }

    /// The single family has id zero.
    pub fn id(&self) -> (r: QueueFamilyId)
        ensures
            r == QueueFamilyId(0),
    {
        QueueFamilyId(0)
    }
}

/// Why `open` can refuse: negotiation failures the caller may correct
/// and retry.
#[derive(Copy, Clone, Debug, PartialEq, Eq, Structural)]
pub enum DeviceCreationError {
    /// A logical device is already open over this context.
    TooManyObjects,
    /// The requested feature set is not contained in the supported one.
    MissingFeature,
}

/// Broad class of the adapter's hardware.
#[derive(Copy, Clone, Debug, PartialEq, Eq, Structural)]
pub enum DeviceType {
    Other,
    IntegratedGpu,
    DiscreteGpu,
    VirtualGpu,
    Cpu,
}

/// The description under which an adapter is enumerated.
#[derive(Clone, Debug)]
pub struct AdapterInfo {
    pub name: String,
    pub vendor: u64,
    pub device: u64,
    pub device_type: DeviceType,
}

/// The one-time baseline context state an accepted `open` prescribes.
/// The embedding program applies these actions natively, in this
/// order, on the owning thread, and then checks the native error flag;
/// an error there is fatal, since the baseline state itself would be
/// broken.
#[derive(Copy, Clone, Debug, PartialEq, Eq, Structural)]
pub struct OpenPlan {
    /// Enable sRGB framebuffer emulation (owed exactly when the legacy
    /// feature set has the sRGB bit).
    pub enable_srgb: bool,
    /// Unpack alignment to set: always one, byte-granular transfers.
    pub unpack_alignment: u32,
    /// Enable point size from the shader (owed exactly on
    /// non-embedded profiles).
    pub enable_point_size: bool,
    /// Allocate and bind one baseline vertex-array object, whose id is
    /// then threaded into every queue of the session.
    pub create_vao: bool,
}

/// One queue family's queues after an open.
#[derive(Debug)]
pub struct QueueGroup {
    pub family: QueueFamily,
    pub queues: Vec<CommandQueue>,
}

/// A fresh logical device and its queues.
#[derive(Debug)]
pub struct Gpu {
    pub device: Device,
    pub queue_groups: Vec<QueueGroup>,
}

/// One enumerated adapter: its description, its physical device and
/// its queue families.
#[derive(Debug)]
pub struct Adapter {
    pub info: AdapterInfo,
    pub physical_device: PhysicalDevice,
    pub queue_families: Vec<QueueFamily>,
}

/// The baseline actions owed for a `Share`'s capabilities.
pub open spec fn spec_open_plan(share: Share) -> OpenPlan {
    OpenPlan {
        enable_srgb: share.legacy_features & SRGB_COLOR == SRGB_COLOR,
        unpack_alignment: 1u32,
        enable_point_size: !share.info.version.is_embedded,
        create_vao: share.private_caps.vertex_array,
    }
}

/// What `open` decides on a context in state `share`: refuse a second
/// simultaneous device, refuse a feature set the registry does not
/// contain, accept anything else with the baseline plan.
pub open spec fn spec_open_outcome(share: Share, requested_features: u64) -> Result<
    OpenPlan,
    DeviceCreationError,
> {
    if share.open {
        Err(DeviceCreationError::TooManyObjects)
    } else if !spec_contains_bits(share.features, requested_features) {
        Err(DeviceCreationError::MissingFeature)
    } else {
        Ok(spec_open_plan(share))
    }
}

/// The context state after `open`: the open flag goes up on
/// acceptance, and nothing changes on refusal.
pub open spec fn spec_open_next(share: Share, requested_features: u64) -> Share {
    if spec_open_outcome(share, requested_features) is Ok {
        Share { open: true, ..share }
    } else {
        share
    }
}

/// One adapter, holding a strong handle to its shared context.
#[derive(Debug)]
pub struct PhysicalDevice {
    starc: Starc,
}

impl PhysicalDevice {
    /// Which cell this adapter's context handle refers to.
    pub closed spec fn share_id(&self) -> u64 {
        self.starc.share_id()
    }

    /// The owning thread captured by this adapter's context handle.
    pub closed spec fn thread_id(&self) -> u64 {
        self.starc.thread_id()
    }

    /// This adapter's handle refers to `cell`.
    pub open spec fn refers_to(&self, cell: ShareCell) -> bool {
        self.share_id() == cell.cell_id() && self.thread_id() == cell.owner_thread()
    }

    /// Enumerate one adapter.  The embedding program loads the native
    /// function table, queries version, extensions, features and
    /// limits once (aborting if the native error flag went up during
    /// the query, since a broken capability query would make every
    /// later decision unsound), and hands the answers in here.  The
    /// shared context is created closed, with one strong handle held
    /// by the physical device; `id` distinguishes the new cell and
    /// `thread` is the identity of the creating thread.
    pub fn new_adapter(
        context: GlContainer,
        info: Info,
        features: u64,
        legacy_features: u32,
        limits: Limits,
        private_caps: PrivateCaps,
        id: u64,
        thread: u64,
    ) -> (r: (ShareCell, Adapter))
        ensures
            r.0.cell_id() == id,
            r.0.owner_thread() == thread,
            r.0.strong_count() == 1,
            r.0.weak_count() == 0,
            r.0.contents() == Some(
                Share {
                    context,
                    info,
                    features,
                    legacy_features,
                    limits,
                    private_caps,
                    open: false,
                },
            ),
            r.0.wf(),
            r.1.physical_device.refers_to(r.0),
            r.1.queue_families@.len() == 1,
            r.1.info.name == info.platform_name.renderer,
            r.1.info.vendor == 0 && r.1.info.device == 0,
            r.1.info.device_type == DeviceType::DiscreteGpu,
    {
        let name = info.platform_name.renderer.clone();
        let share = Share {
            context,
            info,
            features,
            legacy_features,
            limits,
            private_caps,
            open: false,
        };
        let (cell, starc) = Starc::new(share, id, thread);
        let mut queue_families: Vec<QueueFamily> = Vec::new();
        queue_families.push(QueueFamily);
        let adapter = Adapter {
            info: AdapterInfo {
                name,
                vendor: 0,
                device: 0,
                device_type: DeviceType::DiscreteGpu,
            },
            physical_device: PhysicalDevice { starc },
            queue_families,
        };
        (cell, adapter)
    }

    /// Checked access to the shared state: the registry on the owning
    /// thread, nothing on any other thread.
    pub fn try_share<'a>(&self, cell: &'a ShareCell, current_thread: u64) -> (r: Option<&'a Share>)
        requires
            self.refers_to(*cell),
            cell.wf(),
            cell.strong_count() >= 1,
        ensures
            current_thread == self.thread_id() <==> r is Some,
            r matches Some(v) ==> Some(*v) == cell.contents(),
    {
        self.starc.try_deref(cell, current_thread)
    }

    /// The legacy feature bits the registry reports.
    pub fn legacy_features(&self, cell: &ShareCell, current_thread: u64) -> (r: u32)
        requires
            self.refers_to(*cell),
            cell.wf(),
            cell.strong_count() >= 1,
            current_thread == self.thread_id(),
        ensures
            r == cell.contents()->Some_0.legacy_features,
    {
        let share = self.starc.deref_on(cell, current_thread);
        share.legacy_features
    }

    /// The feature bits the registry reports.
    pub fn features(&self, cell: &ShareCell, current_thread: u64) -> (r: u64)
        requires
            self.refers_to(*cell),
            cell.wf(),
            cell.strong_count() >= 1,
            current_thread == self.thread_id(),
        ensures
            r == cell.contents()->Some_0.features,
    {
        let share = self.starc.deref_on(cell, current_thread);
        share.features
    }

    /// The numeric limits the registry reports.
    pub fn limits(&self, cell: &ShareCell, current_thread: u64) -> (r: Limits)
        requires
            self.refers_to(*cell),
            cell.wf(),
            cell.strong_count() >= 1,
            current_thread == self.thread_id(),
        ensures
            r == cell.contents()->Some_0.limits,
    {
        let share = self.starc.deref_on(cell, current_thread);
        share.limits
    }

    /// The memory model of this adapter: a pure function of the one
    /// capability flag that decides it, whether buffer mapping is
    /// supported.
    pub fn memory_properties(&self, cell: &ShareCell, current_thread: u64) -> (r: MemoryProperties)
        requires
            self.refers_to(*cell),
            cell.wf(),
            cell.strong_count() >= 1,
            current_thread == self.thread_id(),
        ensures
            r.memory_types@ == spec_memory_types(cell.contents()->Some_0.private_caps.map),
            r.memory_heaps@.len() == spec_heap_count(cell.contents()->Some_0.private_caps.map),
            forall|i: int|
                0 <= i < r.memory_heaps@.len() ==> r.memory_heaps@[i] == HEAP_SIZE_UNKNOWN,
    {
        let share = self.starc.deref_on(cell, current_thread);
        memory_properties_from_caps(share.private_caps.map)
    }

    /// The single state transition from physical device to open
    /// session.  It refuses a second simultaneous device with
    /// `TooManyObjects`, refuses a feature set the registry does not
    /// contain with `MissingFeature` — both refusals leave the context
    /// untouched, so the caller can correct and retry — and otherwise
    /// sets the open flag and returns the baseline plan the embedding
    /// program must apply natively before building the session's
    /// objects with `build_gpu`.  Each requested family must request
    /// exactly one queue: `max_queues` is one.
    pub fn open(
        &self,
        cell: &mut ShareCell,
        families: &Vec<(QueueFamily, usize)>,
        requested_features: u64,
        current_thread: u64,
    ) -> (r: Result<OpenPlan, DeviceCreationError>)
        requires
            self.refers_to(*old(cell)),
            old(cell).wf(),
            old(cell).strong_count() >= 1,
            current_thread == self.thread_id(),
            forall|i: int| 0 <= i < families@.len() ==> families@[i].1 == 1,
        ensures
            final(cell).cell_id() == old(cell).cell_id(),
            final(cell).owner_thread() == old(cell).owner_thread(),
            final(cell).strong_count() == old(cell).strong_count(),
            final(cell).weak_count() == old(cell).weak_count(),
            final(cell).contents() == Some(
                spec_open_next(old(cell).contents()->Some_0, requested_features),
            ),
            r == spec_open_outcome(old(cell).contents()->Some_0, requested_features),
            final(cell).wf(),
    {
        let share = self.starc.deref_on(cell, current_thread);
        if share.open {
            return Err(DeviceCreationError::TooManyObjects);
        }
        if !contains_bits(share.features, requested_features) {
            return Err(DeviceCreationError::MissingFeature);
        }
        let enable_srgb = share.legacy_features & SRGB_COLOR == SRGB_COLOR;
        let enable_point_size = !share.info.version.is_embedded;
        let create_vao = share.private_caps.vertex_array;
        cell.set_open(true);
        Ok(OpenPlan { enable_srgb, unpack_alignment: 1, enable_point_size, create_vao })
    }

    /// Build the open session's objects after an accepted `open`: one
    /// device sharing the context handle, and for every requested
    /// family exactly one queue carrying `vao`, the baseline
    /// vertex-array object id the embedding program allocated while
    /// applying the plan (zero when the plan created none).
    pub fn build_gpu(
        &self,
        cell: &mut ShareCell,
        families: &Vec<(QueueFamily, usize)>,
        vao: u64,
    ) -> (r: Gpu)
        requires
            self.refers_to(*old(cell)),
            old(cell).wf(),
            old(cell).strong_count() >= 1,
            old(cell).contents()->Some_0.open,
            old(cell).strong_count() + 1 + families@.len() <= u64::MAX,
            forall|i: int| 0 <= i < families@.len() ==> families@[i].1 == 1,
        ensures
            final(cell).cell_id() == old(cell).cell_id(),
            final(cell).owner_thread() == old(cell).owner_thread(),
            final(cell).contents() == old(cell).contents(),
            final(cell).strong_count() == old(cell).strong_count() + 1 + families@.len(),
            final(cell).weak_count() == old(cell).weak_count(),
            final(cell).wf(),
            r.device.refers_to(*final(cell)),
            r.queue_groups@.len() == families@.len(),
            forall|i: int|
                0 <= i < families@.len() ==> {
                    &&& r.queue_groups@[i].family == families@[i].0
                    &&& r.queue_groups@[i].queues@.len() == 1
                    &&& r.queue_groups@[i].queues@[0].refers_to(*final(cell))
                    &&& r.queue_groups@[i].queues@[0].vao() == vao
                },
    {
        let ghost old_cell = *old(cell);
        let device_starc = self.starc.duplicate(cell);
        let device = Device::new(device_starc);
        let mut queue_groups: Vec<QueueGroup> = Vec::new();
        let n = families.len();
        let mut i: usize = 0;
        while i < n
            invariant
                n == families@.len(),
                i <= n,
                self.refers_to(*cell),
                cell.wf(),
                cell.cell_id() == old_cell.cell_id(),
                cell.owner_thread() == old_cell.owner_thread(),
                cell.contents() == old_cell.contents(),
                old_cell.strong_count() + 1 + n <= u64::MAX,
                cell.strong_count() == old_cell.strong_count() + 1 + i,
                cell.weak_count() == old_cell.weak_count(),
                queue_groups@.len() == i,
                forall|j: int|
                    0 <= j < i ==> {
                        &&& queue_groups@[j].family == families@[j].0
                        &&& queue_groups@[j].queues@.len() == 1
                        &&& queue_groups@[j].queues@[0].share_id() == cell.cell_id()
                        &&& queue_groups@[j].queues@[0].thread_id() == cell.owner_thread()
                        &&& queue_groups@[j].queues@[0].vao() == vao
                    },
            decreases n - i,
        {
            let queue_starc = self.starc.duplicate(cell);
            let queue = CommandQueue::new(queue_starc, vao);
            let mut queues: Vec<CommandQueue> = Vec::new();
            queues.push(queue);
            let family = families[i].0;
            queue_groups.push(QueueGroup { family, queues });
            i = i + 1;
        }
        Gpu { device, queue_groups }
    }

    /// Retire this adapter's context handle; the last handle to go
    /// drops the shared value.
    pub fn dispose(self, cell: &mut ShareCell)
        requires
            self.refers_to(*old(cell)),
            old(cell).wf(),
            old(cell).strong_count() >= 1,
        ensures
            final(cell).cell_id() == old(cell).cell_id(),
            final(cell).owner_thread() == old(cell).owner_thread(),
            final(cell).strong_count() == old(cell).strong_count() - 1,
            final(cell).weak_count() == old(cell).weak_count(),
            old(cell).strong_count() > 1 ==> final(cell).contents() == old(cell).contents(),
            old(cell).strong_count() == 1 ==> final(cell).contents() is None,
            final(cell).wf(),
    {
        self.starc.release(cell);
    }
}

/// A second `open` over the same context without closing the first
/// refuses with `TooManyObjects` and leaves the context state exactly
/// as the first open left it, whatever features either call requests.
pub proof fn lemma_open_is_exclusive(share: Share, first_features: u64, second_features: u64)
    requires
        spec_open_outcome(share, first_features) is Ok,
    ensures
        spec_open_outcome(spec_open_next(share, first_features), second_features) == Result::<
            OpenPlan,
            DeviceCreationError,
        >::Err(DeviceCreationError::TooManyObjects),
        spec_open_next(spec_open_next(share, first_features), second_features) == spec_open_next(
            share,
            first_features,
        ),
{
}

/// A refused `open` leaves the context state untouched, and after a
/// `MissingFeature` refusal a retry whose features the registry does
/// contain is accepted.
pub proof fn lemma_failed_open_allows_retry(share: Share, first_features: u64, second_features: u64)
    requires
        spec_open_outcome(share, first_features) is Err,
    ensures
        spec_open_next(share, first_features) == share,
        spec_open_outcome(share, first_features) == Result::<
            OpenPlan,
            DeviceCreationError,
        >::Err(DeviceCreationError::MissingFeature) && spec_contains_bits(
            share.features,
            second_features,
        ) ==> spec_open_outcome(share, second_features) == Result::<
            OpenPlan,
            DeviceCreationError,
        >::Ok(spec_open_plan(share)),
{
}

} // verus!
