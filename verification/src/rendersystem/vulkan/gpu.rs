//! Choosing the graphics device: which devices can be used at all, how each is
//! scored, and in which order they are offered.

use crate::rendersystem::vulkan::api;
use vstd::prelude::*;

verus! {

/// The factor that a device's type contributes to its score.
pub open spec fn type_factor(device_type: i32) -> int {
    if device_type == api::DEVICE_TYPE_DISCRETE_GPU || device_type == api::DEVICE_TYPE_VIRTUAL_GPU {
        10
    } else if device_type == api::DEVICE_TYPE_INTEGRATED_GPU {
        2
    } else {
        1
    }
}

/// The score of a device before its type is taken into account: the size of
/// its first memory heap in units of 1000 bytes, plus a thousandth of the
/// largest viewport's area.
pub open spec fn base_score(heap_size: u64, viewport: [u32; 2]) -> int {
    heap_size / 1000 + (viewport[0] * viewport[1]) / 1000
}

/// The performance score of a device.
pub open spec fn performance_score(heap_size: u64, viewport: [u32; 2], device_type: i32) -> int {
    base_score(heap_size, viewport) * type_factor(device_type)
}

/// A performance score fits into 64 bits.
pub proof fn performance_score_bound(heap_size: u64, viewport: [u32; 2], device_type: i32)
    ensures
        0 <= performance_score(heap_size, viewport, device_type) <= u64::MAX,
{
    let width = viewport[0] as int;
    let height = viewport[1] as int;
    assert(0 <= width * height <= 0xffff_ffff * 0xffff_ffff) by (nonlinear_arith)
        requires
            0 <= width <= 0xffff_ffff,
            0 <= height <= 0xffff_ffff,
    ;
}

/// Computes the performance score of a device from the size of its first
/// memory heap, its largest viewport and its type.
pub fn score(heap_size: u64, viewport: [u32; 2], device_type: i32) -> (points: u64)
    ensures
        points == performance_score(heap_size, viewport, device_type),
        device_type == api::DEVICE_TYPE_DISCRETE_GPU || device_type == api::DEVICE_TYPE_VIRTUAL_GPU
            ==> points == 10 * base_score(heap_size, viewport),
        device_type == api::DEVICE_TYPE_INTEGRATED_GPU ==> points == 2 * base_score(heap_size, viewport),
        device_type != api::DEVICE_TYPE_DISCRETE_GPU && device_type != api::DEVICE_TYPE_VIRTUAL_GPU
            && device_type != api::DEVICE_TYPE_INTEGRATED_GPU ==> points == base_score(
            heap_size,
            viewport,
        ),
{
    let width: u64 = viewport[0] as u64;
    let height: u64 = viewport[1] as u64;
    assert(width * height <= 0xffff_ffff * 0xffff_ffff) by (nonlinear_arith)
        requires
            width <= 0xffff_ffff,
            height <= 0xffff_ffff,
    ;
    let area: u64 = width * height;
    let base: u64 = heap_size / 1000 + area / 1000;
    if device_type == api::DEVICE_TYPE_DISCRETE_GPU || device_type == api::DEVICE_TYPE_VIRTUAL_GPU {
        base * 10
    } else if device_type == api::DEVICE_TYPE_INTEGRATED_GPU {
        base * 2
    } else {
        base
    }
}

/// The number of device extensions that a usable device must at least expose.
pub const REQUIRED_DEVICE_EXTENSION_COUNT: usize = 1;

/// The device extensions that the backend enables: the swapchain extension.
pub fn get_required_device_exts() -> (names: [&'static str; 1])
    ensures
        names.len() == REQUIRED_DEVICE_EXTENSION_COUNT,
        names[0]@ == "VK_KHR_swapchain"@,
{
    ["VK_KHR_swapchain"]
}

/// One queue family of a device.
#[derive(Clone, Copy, Debug, PartialEq, Eq)]
pub struct QueueFamily {
    /// The capability bits of the family's queues.
    pub queue_flags: u32,
    /// How many queues the family has.
    pub queue_count: u32,
}

impl QueueFamily {
    /// Whether the family has a queue, and its queues have every capability
    /// in `capability`.
    pub open spec fn supports(self, capability: u32) -> bool {
        self.queue_count >= 1 && self.queue_flags & capability == capability
    }

    /// Whether the family has a queue with every capability in `capability`.
    pub fn has(&self, capability: u32) -> (yes: bool)
        ensures
            yes == self.supports(capability),
    {
        self.queue_count >= 1 && self.queue_flags & capability == capability
    }
}

/// Whether `index` is the first family of `families` that supports
/// `capability`, and can be written as a family index.
pub open spec fn is_first_family(families: Seq<QueueFamily>, capability: u32, index: int) -> bool {
    &&& 0 <= index < families.len()
    &&& index <= u32::MAX
    &&& families[index].supports(capability)
    &&& forall|j: int| 0 <= j < index ==> !(#[trigger] families[j]).supports(capability)
}

/// Whether none of the families that a family index can name supports
/// `capability`.
pub open spec fn no_family(families: Seq<QueueFamily>, capability: u32) -> bool {
    forall|j: int|
        0 <= j < families.len() && j <= u32::MAX ==> !(#[trigger] families[j]).supports(capability)
}

/// The index of the first family that supports `capability`.
pub open spec fn first_family(families: Seq<QueueFamily>, capability: u32) -> Option<u32> {
    if exists|i: int| is_first_family(families, capability, i) {
        Some((choose|i: int| is_first_family(families, capability, i)) as u32)
    } else {
        None
    }
}

/// Two first families are the same one.
pub proof fn first_family_unique(families: Seq<QueueFamily>, capability: u32, a: int, b: int)
    requires
        is_first_family(families, capability, a),
        is_first_family(families, capability, b),
    ensures
        a == b,
{
    if a < b {
        assert(!families[a].supports(capability));
    } else if b < a {
        assert(!families[b].supports(capability));
    }
}

/// Finds the first queue family that has a queue with every capability in
/// `capability`.
pub fn find_queue_family(families: &Vec<QueueFamily>, capability: u32) -> (found: Option<u32>)
    ensures
        found == first_family(families@, capability),
        match found {
            Some(index) => is_first_family(families@, capability, index as int),
            None => no_family(families@, capability),
        },
{
    let mut i: usize = 0;
    while i < families.len() && i <= u32::MAX as usize
        invariant
            i <= families.len(),
            forall|j: int| 0 <= j < i ==> !(#[trigger] families@[j]).supports(capability),
        decreases families.len() - i,
    {
        if families[i].has(capability) {
            proof {
                assert(is_first_family(families@, capability, i as int));
                let chosen = choose|k: int| is_first_family(families@, capability, k);
                first_family_unique(families@, capability, i as int, chosen);
            }
            return Some(i as u32);
        }
        i += 1;
    }
    proof {
        assert forall|k: int| !is_first_family(families@, capability, k) by {
            if is_first_family(families@, capability, k) {
                assert(!families@[k].supports(capability));
            }
        }
    }
    None
}

/// What a surface can hold, as far as the backend keeps it.
#[derive(Clone, Copy, Debug, PartialEq, Eq)]
pub struct SurfaceCapabilities {
    /// The least number of images a swapchain for the surface has.
    pub min_image_count: u32,
    /// The greatest number, or 0 where there is no limit.
    pub max_image_count: u32,
}

/// A pixel format together with the colour space it is shown in.
#[derive(Clone, Copy, Debug, PartialEq, Eq)]
pub struct SurfaceFormat {
    pub format: i32,
    pub color_space: i32,
}

/// What a device can do with images of one format.
#[derive(Clone, Copy, Debug, PartialEq, Eq)]
pub struct FormatProperties {
    pub format: i32,
    /// The feature bits for images with linear tiling.
    pub linear_tiling_features: u32,
    /// The feature bits for images with optimal tiling.
    pub optimal_tiling_features: u32,
}

/// What the enumeration found out about one device. A query that failed is
/// `None`.
#[derive(Clone, Debug, PartialEq, Eq)]
pub struct DeviceProbe {
    /// The driver's handle of the device.
    pub device: u64,
    pub queue_families: Vec<QueueFamily>,
    /// How many device extensions the device exposes.
    pub extension_count: Option<usize>,
    pub surface_capabilities: Option<SurfaceCapabilities>,
    pub surface_formats: Option<Vec<SurfaceFormat>>,
    pub present_modes: Option<Vec<i32>>,
    /// The size in bytes of the device's first memory heap.
    pub memory_heap_size: u64,
    /// The width and height of the largest viewport.
    pub max_viewport_dimensions: [u32; 2],
    pub device_type: i32,
    /// The properties of the formats that the backend may ask for.
    pub format_properties: Vec<FormatProperties>,
}

/// Why a device cannot be used.
#[derive(Clone, Copy, Debug, PartialEq, Eq)]
pub enum Rejection {
    /// The device has no queue family.
    NoQueueFamilies,
    /// No family does graphics, or none does compute.
    MissingQueueFamily,
    /// The extensions could not be listed, or are fewer than required.
    MissingExtensions,
    /// The surface capabilities could not be had.
    NoSurfaceCapabilities,
    /// The surface formats could not be listed, or there is none.
    NoSurfaceFormats,
    /// The present modes could not be listed, or there is none.
    NoPresentModes,
}

/// A device that can be used, with what the backend needs to know of it.
#[derive(Clone, Debug, PartialEq, Eq)]
pub struct GpuInfo {
    /// The driver's handle of the device.
    pub device: u64,
    pub memory_heap_size: u64,
    pub max_viewport_dimensions: [u32; 2],
    pub device_type: i32,
    pub surface_capabilities: SurfaceCapabilities,
    pub surface_formats: Vec<SurfaceFormat>,
    pub present_modes: Vec<i32>,
    pub format_properties: Vec<FormatProperties>,
    pub graphics_family_index: u32,
    pub compute_family_index: u32,
    /// A rough guess at how powerful the device is.
    pub performance_score: u64,
}

impl GpuInfo {
    /// What every device that was found usable has: a surface format, a
    /// present mode, and the score that its properties give.
    pub open spec fn well_formed(self) -> bool {
        &&& self.surface_formats@.len() >= 1
        &&& self.present_modes@.len() >= 1
        &&& self.performance_score == performance_score(
            self.memory_heap_size,
            self.max_viewport_dimensions,
            self.device_type,
        )
    }
}

impl DeviceProbe {
    /// The first reason, in the order of the checks, for which the device
    /// cannot be used; `None` if it can.
    pub open spec fn rejection(self) -> Option<Rejection> {
        if self.queue_families@.len() == 0 {
            Some(Rejection::NoQueueFamilies)
        } else if first_family(self.queue_families@, api::QUEUE_GRAPHICS) is None || first_family(
            self.queue_families@,
            api::QUEUE_COMPUTE,
        ) is None {
            Some(Rejection::MissingQueueFamily)
        } else if !(self.extension_count matches Some(n) && n >= REQUIRED_DEVICE_EXTENSION_COUNT) {
            Some(Rejection::MissingExtensions)
        } else if self.surface_capabilities is None {
            Some(Rejection::NoSurfaceCapabilities)
        } else if !(self.surface_formats matches Some(formats) && formats@.len() >= 1) {
            Some(Rejection::NoSurfaceFormats)
        } else if !(self.present_modes matches Some(modes) && modes@.len() >= 1) {
            Some(Rejection::NoPresentModes)
        } else {
            None
        }
    }

    /// Whether the device passes every check.
    pub open spec fn usable(self) -> bool {
        self.rejection() is None
    }

    /// The candidate that a usable device becomes.
    pub open spec fn candidate(self) -> GpuInfo {
        GpuInfo {
            device: self.device,
            memory_heap_size: self.memory_heap_size,
            max_viewport_dimensions: self.max_viewport_dimensions,
            device_type: self.device_type,
            surface_capabilities: self.surface_capabilities->0,
            surface_formats: self.surface_formats->0,
            present_modes: self.present_modes->0,
            format_properties: self.format_properties,
            graphics_family_index: first_family(self.queue_families@, api::QUEUE_GRAPHICS)->0,
            compute_family_index: first_family(self.queue_families@, api::QUEUE_COMPUTE)->0,
            performance_score: performance_score(
                self.memory_heap_size,
                self.max_viewport_dimensions,
                self.device_type,
            ) as u64,
        }
    }

    /// Whether the device passes every check.
    pub fn is_usable(&self) -> (yes: bool)
        ensures
            yes == self.usable(),
    {
        if self.queue_families.len() == 0 {
            return false;
        }
        if find_queue_family(&self.queue_families, api::QUEUE_GRAPHICS).is_none() {
            return false;
        }
        if find_queue_family(&self.queue_families, api::QUEUE_COMPUTE).is_none() {
            return false;
        }
        match self.extension_count {
            Some(n) => {
                if n < REQUIRED_DEVICE_EXTENSION_COUNT {
                    return false;
                }
            },
            None => {
                return false;
            },
        }
        if self.surface_capabilities.is_none() {
            return false;
        }
        match &self.surface_formats {
            Some(formats) => {
                if formats.len() == 0 {
                    return false;
                }
            },
            None => {
                return false;
            },
        }
        match &self.present_modes {
            Some(modes) => modes.len() != 0,
            None => false,
        }
    }

    /// Runs the checks on one device, in their order: queue families, a
    /// graphics and a compute family, the extensions, the surface
    /// capabilities, the surface formats, the present modes. A device that
    /// passes them all becomes a candidate with its families and its score.
    pub fn examine(self) -> (outcome: Result<GpuInfo, Rejection>)
        ensures
            outcome == match self.rejection() {
                Some(reason) => Err::<GpuInfo, Rejection>(reason),
                None => Ok(self.candidate()),
            },
            outcome matches Ok(gpu) ==> gpu.well_formed(),
    {
        if self.queue_families.len() == 0 {
            return Err(Rejection::NoQueueFamilies);
        }
        let graphics_family_index = match find_queue_family(&self.queue_families, api::QUEUE_GRAPHICS) {
            Some(index) => index,
            None => {
                return Err(Rejection::MissingQueueFamily);
            },
        };
        let compute_family_index = match find_queue_family(&self.queue_families, api::QUEUE_COMPUTE) {
            Some(index) => index,
            None => {
                return Err(Rejection::MissingQueueFamily);
            },
        };
        match self.extension_count {
            Some(n) => {
                if n < REQUIRED_DEVICE_EXTENSION_COUNT {
                    return Err(Rejection::MissingExtensions);
                }
            },
            None => {
                return Err(Rejection::MissingExtensions);
            },
        }
        let surface_capabilities = match self.surface_capabilities {
            Some(capabilities) => capabilities,
            None => {
                return Err(Rejection::NoSurfaceCapabilities);
            },
        };
        let surface_formats = match self.surface_formats {
            Some(formats) => formats,
            None => {
                return Err(Rejection::NoSurfaceFormats);
            },
        };
        if surface_formats.len() == 0 {
            return Err(Rejection::NoSurfaceFormats);
        }
        let present_modes = match self.present_modes {
            Some(modes) => modes,
            None => {
                return Err(Rejection::NoPresentModes);
            },
        };
        if present_modes.len() == 0 {
            return Err(Rejection::NoPresentModes);
        }
        let performance_score = score(
            self.memory_heap_size,
            self.max_viewport_dimensions,
            self.device_type,
        );
        Ok(
            GpuInfo {
                device: self.device,
                memory_heap_size: self.memory_heap_size,
                max_viewport_dimensions: self.max_viewport_dimensions,
                device_type: self.device_type,
                surface_capabilities,
                surface_formats,
                present_modes,
                format_properties: self.format_properties,
                graphics_family_index,
                compute_family_index,
                performance_score,
            },
        )
    }
}

/// The candidates that the usable devices of an enumeration become, in the
/// order of the enumeration.
pub open spec fn candidates(probes: Seq<DeviceProbe>) -> Seq<GpuInfo>
    decreases probes.len(),
{
    if probes.len() == 0 {
        Seq::empty()
    } else if probes.last().usable() {
        candidates(probes.drop_last()).push(probes.last().candidate())
    } else {
        candidates(probes.drop_last())
    }
}

/// Whether the scores never rise from one candidate to the next.
pub open spec fn is_ranked(gpus: Seq<GpuInfo>) -> bool {
    forall|i: int, j: int|
        0 <= i <= j < gpus.len() ==> gpus[i].performance_score >= gpus[j].performance_score
}

/// How many candidates at the head of `gpus` score at least `points`.
pub open spec fn rank_position(gpus: Seq<GpuInfo>, points: u64) -> int
    decreases gpus.len(),
{
    if gpus.len() == 0 {
        0
    } else if gpus.first().performance_score >= points {
        1 + rank_position(gpus.drop_first(), points)
    } else {
        0
    }
}

/// The candidates in the order in which they are offered: by falling score,
/// and among equal scores in the order in which they came.
pub open spec fn ranked(gpus: Seq<GpuInfo>) -> Seq<GpuInfo>
    decreases gpus.len(),
{
    if gpus.len() == 0 {
        Seq::empty()
    } else {
        let head = ranked(gpus.drop_last());
        head.insert(rank_position(head, gpus.last().performance_score), gpus.last())
    }
}

/// The position that [`rank_position`] names is the one before which every
/// score is at least `points` and at which the score is lower.
pub proof fn rank_position_is(gpus: Seq<GpuInfo>, points: u64, position: int)
    requires
        0 <= position <= gpus.len(),
        forall|j: int| 0 <= j < position ==> (#[trigger] gpus[j]).performance_score >= points,
        position < gpus.len() ==> gpus[position].performance_score < points,
    ensures
        rank_position(gpus, points) == position,
    decreases position,
{
    if position > 0 {
        let tail = gpus.drop_first();
        assert(gpus[0].performance_score >= points);
        assert forall|j: int| 0 <= j < position - 1 implies (#[trigger] tail[j]).performance_score
            >= points by {
            assert(tail[j] == gpus[j + 1]);
        }
        rank_position_is(tail, points, position - 1);
    }
}

/// [`rank_position`] lies within the sequence, behind scores that are at
/// least `points` and before a lower one.
pub proof fn rank_position_bounds(gpus: Seq<GpuInfo>, points: u64)
    ensures
        0 <= rank_position(gpus, points) <= gpus.len(),
        forall|j: int|
            0 <= j < rank_position(gpus, points) ==> (#[trigger] gpus[j]).performance_score
                >= points,
        rank_position(gpus, points) < gpus.len() ==> gpus[rank_position(
            gpus,
            points,
        )].performance_score < points,
    decreases gpus.len(),
{
    if gpus.len() > 0 && gpus.first().performance_score >= points {
        let tail = gpus.drop_first();
        rank_position_bounds(tail, points);
        let p = rank_position(tail, points);
        assert forall|j: int| 0 <= j < p + 1 implies (#[trigger] gpus[j]).performance_score
            >= points by {
            if j > 0 {
                assert(gpus[j] == tail[j - 1]);
            }
        }
        if p + 1 < gpus.len() {
            assert(gpus[p + 1] == tail[p]);
        }
    }
}

/// Ranking orders by falling score, keeps every candidate as often as it
/// came, and adds none.
pub proof fn ranked_properties(gpus: Seq<GpuInfo>)
    ensures
        is_ranked(ranked(gpus)),
        ranked(gpus).len() == gpus.len(),
        ranked(gpus).to_multiset() == gpus.to_multiset(),
    decreases gpus.len(),
{
    broadcast use vstd::seq_lib::group_to_multiset_ensures;

    if gpus.len() == 0 {
        assert(ranked(gpus) =~= gpus);
    } else {
        let head = ranked(gpus.drop_last());
        let last = gpus.last();
        let p = rank_position(head, last.performance_score);
        ranked_properties(gpus.drop_last());
        rank_position_bounds(head, last.performance_score);
        let all = head.insert(p, last);
        head.insert_ensures(p, last);
        assert forall|i: int, j: int| 0 <= i <= j < all.len() implies all[i].performance_score
            >= all[j].performance_score by {
            if j < p {
            } else if i < p && j == p {
            } else if i < p && j > p {
                assert(all[j] == head[j - 1]);
                assert(head[p].performance_score >= head[j - 1].performance_score);
            } else if i == p && j > p {
                assert(all[j] == head[j - 1]);
                assert(head[p].performance_score >= head[j - 1].performance_score);
            } else if i > p {
                assert(all[i] == head[i - 1]);
                assert(all[j] == head[j - 1]);
            }
        }
        vstd::seq_lib::to_multiset_insert(head, p, last);
        assert(gpus =~= gpus.drop_last().push(last));
        vstd::seq_lib::to_multiset_build(gpus.drop_last(), last);
    }
}

/// Every candidate comes from a usable device of the enumeration, and is
/// well formed.
pub proof fn candidates_properties(probes: Seq<DeviceProbe>)
    ensures
        candidates(probes).len() <= probes.len(),
        forall|k: int|
            0 <= k < candidates(probes).len() ==> {
                &&& (#[trigger] candidates(probes)[k]).well_formed()
                &&& exists|i: int|
                    0 <= i < probes.len() && (#[trigger] probes[i]).usable() && candidates(
                        probes,
                    )[k] == probes[i].candidate()
            },
        forall|i: int|
            0 <= i < probes.len() && (#[trigger] probes[i]).usable() ==> candidates(
                probes,
            ).contains(probes[i].candidate()),
    decreases probes.len(),
{
    if probes.len() > 0 {
        let init = probes.drop_last();
        let last = probes.last();
        candidates_properties(init);
        let all = candidates(probes);
        assert forall|k: int| 0 <= k < all.len() implies {
            &&& (#[trigger] all[k]).well_formed()
            &&& exists|i: int|
                0 <= i < probes.len() && (#[trigger] probes[i]).usable() && all[k]
                    == probes[i].candidate()
        } by {
            if k < candidates(init).len() {
                assert(all[k] == candidates(init)[k]);
                let i = choose|i: int|
                    0 <= i < init.len() && (#[trigger] init[i]).usable() && candidates(init)[k]
                        == init[i].candidate();
                assert(probes[i] == init[i]);
            } else {
                assert(all[k] == last.candidate());
                assert(probes[probes.len() - 1] == last);
                performance_score_bound(
                    last.memory_heap_size,
                    last.max_viewport_dimensions,
                    last.device_type,
                );
            }
        }
        assert forall|i: int| 0 <= i < probes.len() && (#[trigger] probes[i]).usable() implies all.contains(
            probes[i].candidate(),
        ) by {
            if i < init.len() {
                assert(init[i] == probes[i]);
                let k = choose|k: int|
                    0 <= k < candidates(init).len() && candidates(init)[k] == init[i].candidate();
                assert(all[k] == init[i].candidate());
            } else {
                assert(all[all.len() - 1] == last.candidate());
            }
        }
    }
}

/// Puts `gpu` into a ranked list, behind every candidate that scores at least
/// as much.
fn insert_ranked(gpus: &mut Vec<GpuInfo>, gpu: GpuInfo)
    ensures
        final(gpus)@ == old(gpus)@.insert(
            rank_position(old(gpus)@, gpu.performance_score),
            gpu,
        ),
{
    let mut position: usize = 0;
    while position < gpus.len() && gpus[position].performance_score >= gpu.performance_score
        invariant
            position <= gpus.len(),
            forall|j: int|
                0 <= j < position ==> (#[trigger] gpus@[j]).performance_score
                    >= gpu.performance_score,
        decreases gpus.len() - position,
    {
        position += 1;
    }
    proof {
        rank_position_is(gpus@, gpu.performance_score, position as int);
    }
    gpus.insert(position, gpu);
}

/// Selects the devices that can be used and ranks them.
///
/// Each device of the enumeration is examined; one that fails a check is left
/// out. The others are scored and returned with the highest score first, and
/// among equal scores in the order of the enumeration. At least one device of
/// the enumeration must be usable: without one there is nothing to render
/// with.
pub fn get_gpus(probes: Vec<DeviceProbe>) -> (gpus: Vec<GpuInfo>)
    requires
        exists|i: int| 0 <= i < probes@.len() && (#[trigger] probes@[i]).usable(),
    ensures
        gpus@ == ranked(candidates(probes@)),
        gpus@.len() >= 1,
        is_ranked(gpus@),
        gpus@.to_multiset() == candidates(probes@).to_multiset(),
        forall|k: int|
            0 <= k < gpus@.len() ==> {
                &&& (#[trigger] gpus@[k]).well_formed()
                &&& exists|i: int|
                    0 <= i < probes@.len() && (#[trigger] probes@[i]).usable() && gpus@[k]
                        == probes@[i].candidate()
            },
{
    let ghost all = probes@;
    let mut gpus: Vec<GpuInfo> = Vec::new();
    for probe in it: probes
        invariant
            it.seq() == all,
            gpus@ == ranked(candidates(all.take(it.index() as int))),
    {
        proof {
            let before = all.take(it.index() as int);
            let now = all.take(it.index() + 1);
            assert(now.drop_last() =~= before);
            assert(now.last() == probe);
        }
        match probe.examine() {
            Ok(gpu) => {
                proof {
                    let found = candidates(all.take(it.index() + 1));
                    assert(found.drop_last() =~= candidates(all.take(it.index() as int)));
                }
                insert_ranked(&mut gpus, gpu);
            },
            Err(_) => {},
        }
    }
    proof {
        assert(all.take(all.len() as int) =~= all);
        selection_properties(all);
    }
    gpus
}

/// What holds of the devices that are offered for any enumeration: the
/// scores never rise along the list; every device in it passed all checks,
/// so one that failed a check is not in it; and every device that passed is
/// in it as often as it was enumerated.
pub proof fn selection_properties(probes: Seq<DeviceProbe>)
    ensures
        is_ranked(ranked(candidates(probes))),
        ranked(candidates(probes)).to_multiset() == candidates(probes).to_multiset(),
        forall|k: int|
            0 <= k < ranked(candidates(probes)).len() ==> {
                &&& (#[trigger] ranked(candidates(probes))[k]).well_formed()
                &&& exists|i: int|
                    0 <= i < probes.len() && (#[trigger] probes[i]).usable() && ranked(
                        candidates(probes),
                    )[k] == probes[i].candidate()
            },
        forall|i: int|
            0 <= i < probes.len() && (#[trigger] probes[i]).usable() ==> ranked(
                candidates(probes),
            ).contains(probes[i].candidate()),
        (exists|i: int| 0 <= i < probes.len() && (#[trigger] probes[i]).usable()) ==> ranked(
            candidates(probes),
        ).len() >= 1,
{
    broadcast use vstd::seq_lib::group_to_multiset_ensures;

    let found = candidates(probes);
    let offered = ranked(found);
    candidates_properties(probes);
    ranked_properties(found);
    assert forall|k: int| 0 <= k < offered.len() implies {
        &&& (#[trigger] offered[k]).well_formed()
        &&& exists|i: int|
            0 <= i < probes.len() && (#[trigger] probes[i]).usable() && offered[k]
                == probes[i].candidate()
    } by {
        assert(offered.to_multiset().count(offered[k]) > 0);
        assert(found.contains(offered[k]));
        let at = choose|at: int| 0 <= at < found.len() && found[at] == offered[k];
        assert(found[at].well_formed());
    }
    assert forall|i: int| 0 <= i < probes.len() && (#[trigger] probes[i]).usable() implies offered.contains(
        probes[i].candidate(),
    ) by {
        assert(found.contains(probes[i].candidate()));
        assert(found.to_multiset().count(probes[i].candidate()) > 0);
    }
    if exists|i: int| 0 <= i < probes.len() && (#[trigger] probes[i]).usable() {
        let i = choose|i: int| 0 <= i < probes.len() && (#[trigger] probes[i]).usable();
        assert(offered.contains(probes[i].candidate()));
    }
}

} // verus!
