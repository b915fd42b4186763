//! Device selection: which GPU to render with, and through which queue.

use crate::render_system::{ApiVersion, DeviceExtensions, PhysicalDeviceCandidate, RenderSystem};
use vstd::prelude::*;

verus! {

/// The device features that this renderer knows about.
#[derive(Clone, Copy, Debug, PartialEq, Eq, Structural)]
pub struct Features {
    pub dynamic_rendering: bool,
}

/// No enumerated device meets the version, extension and queue requirements.
#[derive(Clone, Copy, Debug, PartialEq, Eq, Structural)]
pub struct NoSuitableDeviceError;

/// The logical device to open: which physical device, with what enabled, and
/// the one queue that all drawing and presenting goes through.
#[derive(Clone, Copy, Debug, PartialEq, Eq, Structural)]
pub struct RenderDevice {
    /// Index of the chosen device among the system's physical devices.
    pub physical_device: usize,
    pub enabled_extensions: DeviceExtensions,
    pub enabled_features: Features,
    /// Index of the queue family that the present queue is taken from.
    pub queue_family_index: usize,
    /// How many queues are requested from that family.
    pub queue_count: u32,
}

/// The oldest API version that a device may report.
pub open spec fn minimum_api_version() -> ApiVersion {
    ApiVersion { major: 1, minor: 2, patch: 0 }
}

/// The extensions that a device must support, and that are enabled on it:
/// presenting to a swapchain, and rendering to attachments without a render
/// pass object.
pub open spec fn required_extensions() -> DeviceExtensions {
    DeviceExtensions { khr_swapchain: true, khr_dynamic_rendering: true }
}

/// The features that are enabled on the device.
pub open spec fn required_features() -> Features {
    Features { dynamic_rendering: true }
}

/// The candidate passes every filter: version, extensions, and a queue family
/// that can draw and present.
pub open spec fn suitable(candidate: PhysicalDeviceCandidate) -> bool {
    &&& candidate.api_version.at_least(minimum_api_version())
    &&& candidate.supported_extensions.contains(required_extensions())
    &&& candidate.has_presentable_family()
}

/// Candidate `chosen` is the one that selection picks from `candidates`: it is
/// suitable, no suitable candidate has a better class, and none before it has
/// one as good.
pub open spec fn selects(candidates: Seq<PhysicalDeviceCandidate>, chosen: int) -> bool {
    &&& 0 <= chosen < candidates.len()
    &&& suitable(candidates[chosen])
    &&& forall|j: int|
        0 <= j < candidates.len() && suitable(#[trigger] candidates[j])
            ==> candidates[chosen].device_type.rank_value()
            <= candidates[j].device_type.rank_value()
    &&& forall|j: int|
        0 <= j < chosen && suitable(#[trigger] candidates[j])
            ==> candidates[chosen].device_type.rank_value()
            < candidates[j].device_type.rank_value()
}

/// `vulkano::Version`'s `>=`: the derived ordering of its three fields, which
/// ranks by major, then minor, then patch number.
#[verifier::external_body]
fn version_at_least(version: ApiVersion, minimum: ApiVersion) -> (r: bool)
    ensures
        r == version.at_least(minimum),
{
    let have =
        vulkano::Version { major: version.major, minor: version.minor, patch: version.patch };
    let need =
        vulkano::Version { major: minimum.major, minor: minimum.minor, patch: minimum.patch };
    have >= need
}

/// `vulkano::device::DeviceExtensions::contains`: whether every member set in
/// `required` is set in `supported`. Members that this crate does not carry
/// are unset on both sides.
#[verifier::external_body]
fn extensions_contain(supported: DeviceExtensions, required: DeviceExtensions) -> (r: bool)
    ensures
        r == supported.contains(required),
{
    let have = vulkano::device::DeviceExtensions {
        khr_swapchain: supported.khr_swapchain,
        khr_dynamic_rendering: supported.khr_dynamic_rendering,
        ..vulkano::device::DeviceExtensions::empty()
    };
    let need = vulkano::device::DeviceExtensions {
        khr_swapchain: required.khr_swapchain,
        khr_dynamic_rendering: required.khr_dynamic_rendering,
        ..vulkano::device::DeviceExtensions::empty()
    };
    have.contains(&need)
}

impl RenderDevice {
    /// Picks the device to render with.
    ///
    /// Candidates that report too old an API version, lack a required
    /// extension, or have no queue family that can both draw and present to
    /// the target surface are dropped. Of the rest the one with the best
    /// device class wins, the first enumerated among equals. The present
    /// queue comes from the first presentable family of the winner.
    pub fn new(system: &RenderSystem) -> (r: Result<RenderDevice, NoSuitableDeviceError>)
        ensures
            match r {
                Ok(device) => {
                    &&& selects(system.physical_devices@, device.physical_device as int)
                    &&& system.physical_devices@[device.physical_device as int]
                        .first_presentable_family(device.queue_family_index as int)
                    &&& device.enabled_extensions == required_extensions()
                    &&& device.enabled_features == required_features()
                    &&& device.queue_count == 1
                },
                Err(_) => forall|j: int|
                    0 <= j < system.physical_devices@.len() ==> !suitable(
                        #[trigger] system.physical_devices@[j],
                    ),
            },
    {
        let minimum = ApiVersion { major: 1, minor: 2, patch: 0 };
        let device_extensions = DeviceExtensions { khr_swapchain: true, khr_dynamic_rendering: true };
        let candidates = &system.physical_devices;
        let mut best: Option<(usize, usize)> = None;
        let mut best_rank: u8 = 0;
        let mut i: usize = 0;
        while i < candidates.len()
            invariant
                i <= candidates@.len(),
                minimum == minimum_api_version(),
                device_extensions == required_extensions(),
                match best {
                    Some((chosen, family)) => {
                        &&& selects(candidates@.take(i as int), chosen as int)
                        &&& candidates@[chosen as int].first_presentable_family(family as int)
                        &&& best_rank == candidates@[chosen as int].device_type.rank_value()
                    },
                    None => forall|j: int| 0 <= j < i ==> !suitable(#[trigger] candidates@[j]),
                },
            decreases candidates@.len() - i,
        {
            let candidate = &candidates[i];
            let mut found: Option<usize> = None;
            if version_at_least(candidate.api_version, minimum) && extensions_contain(
                candidate.supported_extensions,
                device_extensions,
            ) {
                found = candidate.find_queue_family();
            }
            let ghost before = candidates@.take(i as int);
            let ghost after = candidates@.take(i as int + 1);
            proof {
                assert(forall|j: int| 0 <= j < i ==> before[j] == after[j]);
                assert(after[i as int] == candidates@[i as int]);
                assert(found is Some <==> suitable(candidates@[i as int]));
            }
            match found {
                Some(family) => {
                    let rank = candidate.device_type.rank();
                    let better = match best {
                        Some(_) => rank < best_rank,
                        None => true,
                    };
                    if better {
                        best = Some((i, family));
                        best_rank = rank;
                    }
                },
                None => {},
            }
            i += 1;
        }
        proof {
            assert(candidates@.take(i as int) =~= candidates@);
        }
        match best {
            Some((chosen, family)) => Ok(
                RenderDevice {
                    physical_device: chosen,
                    enabled_extensions: device_extensions,
                    enabled_features: Features { dynamic_rendering: true },
                    queue_family_index: family,
                    queue_count: 1,
                },
            ),
            None => Err(NoSuitableDeviceError),
        }
    }
}

/// Selection has one answer: two candidates that both fit the description of
/// the chosen one are the same candidate.
pub proof fn lemma_selection_is_unique(
    candidates: Seq<PhysicalDeviceCandidate>,
    first: int,
    second: int,
)
    requires
        selects(candidates, first),
        selects(candidates, second),
    ensures
        first == second,
{
}

/// Where some candidate is suitable, one is selected.
pub proof fn lemma_selection_exists(candidates: Seq<PhysicalDeviceCandidate>, witness: int)
    requires
        0 <= witness < candidates.len(),
        suitable(candidates[witness]),
    ensures
        exists|chosen: int| selects(candidates, chosen),
    decreases candidates.len(),
{
    let shorter = candidates.drop_last();
    let last = candidates.len() - 1;
    if exists|k: int| 0 <= k < last && suitable(candidates[k]) {
        let k = choose|k: int| 0 <= k < last && suitable(candidates[k]);
        assert(forall|j: int| 0 <= j < last ==> shorter[j] == candidates[j]);
        lemma_selection_exists(shorter, k);
        let earlier = choose|chosen: int| selects(shorter, chosen);
        if suitable(candidates[last]) && candidates[last].device_type.rank_value()
            < candidates[earlier].device_type.rank_value() {
            assert(selects(candidates, last));
        } else {
            assert(selects(candidates, earlier));
        }
    } else {
        assert(selects(candidates, last));
    }
}

} // verus!
