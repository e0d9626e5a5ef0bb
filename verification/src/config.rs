//! The values that the hotplug API takes and returns.

use vstd::prelude::*;

verus! {

/// The largest number of vCPUs that a machine can have.
pub const MAX_SUPPORTED_VCPUS: u8 = 32;

/// Configuration of CPU hotplug, set before boot.
#[derive(Clone, Copy, Debug, PartialEq, Eq, Structural)]
pub struct CpuHotplugConfig {
    /// Largest number of vCPUs the machine can have: more than it boots with, at most
    /// [`MAX_SUPPORTED_VCPUS`].
    pub max_vcpus: u8,
}

/// Request to change the number of active vCPUs of a running machine.
#[derive(Clone, Copy, Debug, PartialEq, Eq, Structural)]
pub struct CpuHotplugUpdate {
    /// Desired number of active vCPUs.
    pub desired_vcpus: u8,
}

/// Status of the CPU hotplug device.
#[derive(Clone, Copy, Debug, PartialEq, Eq, Structural)]
pub struct CpuHotplugStatus {
    /// Number of vCPUs the machine booted with.
    pub boot_vcpus: u8,
    /// Largest number of vCPUs the machine can have.
    pub max_vcpus: u8,
    /// Number of vCPUs that are active now.
    pub active_vcpus: u8,
}

} // verus!
