//! The render system: what the Vulkan instance reports of the machine's GPUs.

use vstd::prelude::*;

verus! {

/// A Vulkan API version.
#[derive(Clone, Copy, Debug, PartialEq, Eq, Structural)]
pub struct ApiVersion {
    pub major: u32,
    pub minor: u32,
    pub patch: u32,
}

impl ApiVersion {
    /// `self` is `minimum` or newer: versions are ranked by major, then
    /// minor, then patch number.
    pub open spec fn at_least(self, minimum: ApiVersion) -> bool {
        ||| self.major > minimum.major
        ||| self.major == minimum.major && self.minor > minimum.minor
        ||| self.major == minimum.major && self.minor == minimum.minor && self.patch
            >= minimum.patch
    }
}

/// The kind of hardware behind a physical device.
#[derive(Clone, Copy, Debug, PartialEq, Eq, Structural)]
pub enum DeviceClass {
    DiscreteGpu,
    IntegratedGpu,
    VirtualGpu,
    Cpu,
    Other,
}

impl DeviceClass {
    /// Position in the fixed preference order; lower is better.
    pub open spec fn rank_value(self) -> int {
        match self {
            DeviceClass::DiscreteGpu => 0,
            DeviceClass::IntegratedGpu => 1,
            DeviceClass::VirtualGpu => 2,
            DeviceClass::Cpu => 3,
            DeviceClass::Other => 4,
        }
    }

    pub fn rank(&self) -> (r: u8)
        ensures
            r == self.rank_value(),
    {
        match self {
            DeviceClass::DiscreteGpu => 0,
            DeviceClass::IntegratedGpu => 1,
            DeviceClass::VirtualGpu => 2,
            DeviceClass::Cpu => 3,
            DeviceClass::Other => 4,
        }
    }
}

/// The device extensions that this renderer knows about.
#[derive(Clone, Copy, Debug, PartialEq, Eq, Structural)]
pub struct DeviceExtensions {
    pub khr_swapchain: bool,
    pub khr_dynamic_rendering: bool,
}

impl DeviceExtensions {
    /// Every extension set in `other` is set in `self`.
    pub open spec fn contains(self, other: DeviceExtensions) -> bool {
        &&& self.khr_swapchain || !other.khr_swapchain
        &&& self.khr_dynamic_rendering || !other.khr_dynamic_rendering
    }
}

/// One queue family of a physical device.
#[derive(Clone, Copy, Debug, PartialEq, Eq, Structural)]
pub struct QueueFamily {
    /// The family advertises graphics operations.
    pub graphics: bool,
    /// What the device answered when asked whether the family can present to
    /// the target surface; `None` when the query failed or was not made.
    pub surface_support: Option<bool>,
}

impl QueueFamily {
    /// The family can both draw and present to the target surface.
    pub open spec fn presentable(self) -> bool {
        self.graphics && self.surface_support == Some(true)
    }

    pub fn is_presentable(&self) -> (r: bool)
        ensures
            r == self.presentable(),
    {
        self.graphics && match self.surface_support {
            Some(supported) => supported,
            None => false,
        }
    }
}

/// A GPU as the instance enumerated it, with the properties that selection
/// reads.
#[derive(Clone, Debug, PartialEq, Eq)]
pub struct PhysicalDeviceCandidate {
    pub api_version: ApiVersion,
    pub supported_extensions: DeviceExtensions,
    pub queue_families: Vec<QueueFamily>,
    pub device_type: DeviceClass,
}

impl PhysicalDeviceCandidate {
    /// Family `i` exists and is presentable.
    pub open spec fn presentable_family(self, i: int) -> bool {
        0 <= i < self.queue_families@.len() && self.queue_families@[i].presentable()
    }

    /// Family `i` is the presentable family with the lowest index.
    pub open spec fn first_presentable_family(self, i: int) -> bool {
        &&& self.presentable_family(i)
        &&& forall|j: int| 0 <= j < i ==> !self.presentable_family(j)
    }

    /// Some family of the device is presentable.
    pub open spec fn has_presentable_family(self) -> bool {
        exists|i: int| self.presentable_family(i)
    }

    /// The index of the first queue family that can draw and present, if any.
    pub fn find_queue_family(&self) -> (r: Option<usize>)
        ensures
            match r {
                Some(i) => self.first_presentable_family(i as int),
                None => !self.has_presentable_family(),
            },
    {
        let mut i: usize = 0;
        while i < self.queue_families.len()
            invariant
                i <= self.queue_families@.len(),
                forall|j: int| 0 <= j < i ==> !self.presentable_family(j),
            decreases self.queue_families@.len() - i,
        {
            if self.queue_families[i].is_presentable() {
                return Some(i);
            }
            i += 1;
        }
        None
    }
}

/// A basic, single-device render system: the physical devices that the
/// instance exposes, in enumeration order.
#[derive(Clone, Debug, PartialEq, Eq)]
pub struct RenderSystem {
    pub physical_devices: Vec<PhysicalDeviceCandidate>,
}

impl RenderSystem {
    pub fn new(physical_devices: Vec<PhysicalDeviceCandidate>) -> (system: RenderSystem)
        ensures
            system.physical_devices == physical_devices,
    {
        RenderSystem { physical_devices }
    }
}

/// The severities that a debug message carries.
#[derive(Clone, Copy, Debug, PartialEq, Eq, Structural)]
pub struct DebugUtilsMessageSeverity {
    pub error: bool,
    pub warning: bool,
    pub information: bool,
    pub verbose: bool,
}

impl DebugUtilsMessageSeverity {
    /// Some severity is set.
    pub open spec fn any(self) -> bool {
        self.error || self.warning || self.information || self.verbose
    }

    /// The name of the gravest severity that is set.
    pub open spec fn label(self) -> Seq<char> {
        if self.error {
            "ERROR"@
        } else if self.warning {
            "WARN"@
        } else if self.information {
            "INFO"@
        } else {
            "VERBOSE"@
        }
    }

    /// The name that a message of this severity is logged under.
    pub fn name(&self) -> (r: &'static str)
        requires
            self.any(),
        ensures
            r@ == self.label(),
    {
        if self.error {
            "ERROR"
        } else if self.warning {
            "WARN"
        } else if self.information {
            "INFO"
        } else {
            "VERBOSE"
        }
    }
}

/// The kinds of event that a debug message reports.
#[derive(Clone, Copy, Debug, PartialEq, Eq, Structural)]
pub struct DebugUtilsMessageType {
    pub general: bool,
    pub validation: bool,
    pub performance: bool,
}

impl DebugUtilsMessageType {
    /// Some kind is set.
    pub open spec fn any(self) -> bool {
        self.general || self.validation || self.performance
    }

    /// The name of the first kind that is set.
    pub open spec fn label(self) -> Seq<char> {
        if self.general {
            "General"@
        } else if self.validation {
            "Validation"@
        } else {
            "Performance"@
        }
    }

    /// The name that a message of this kind is logged under.
    pub fn name(&self) -> (r: &'static str)
        requires
            self.any(),
        ensures
            r@ == self.label(),
    {
        if self.general {
            "General"
        } else if self.validation {
            "Validation"
        } else {
            "Performance"
        }
    }
}

} // verus!
