//! Requests of the hotplug API: what they ask the monitor to do, and how they are counted.

use vstd::prelude::*;

use crate::config::{CpuHotplugConfig, CpuHotplugUpdate};

verus! {

/// What a hotplug request asks the monitor to do.
#[derive(Clone, Copy, Debug, PartialEq, Eq, Structural)]
pub enum VmmAction {
    /// Configure CPU hotplug, before boot.
    SetCpuHotplugConfig(CpuHotplugConfig),
    /// Change the number of active vCPUs.
    HotplugVcpu(CpuHotplugUpdate),
}

/// A request that was understood.
#[derive(Clone, Copy, Debug, PartialEq, Eq, Structural)]
pub enum ParsedRequest {
    /// To be answered when the action is done.
    Sync(VmmAction),
}

impl ParsedRequest {
    /// A request to be answered when `action` is done.
    pub fn new_sync(action: VmmAction) -> (r: Self)
        ensures
            r == ParsedRequest::Sync(action),
    {
        ParsedRequest::Sync(action)
    }
}

/// Counters of one kind of hotplug request. They start anew after the largest number.
#[derive(Clone, Copy, Debug, PartialEq, Eq, Structural)]
pub struct HotplugRequestMetrics {
    /// Successful requests.
    pub hotplug_cpu_count: u64,
    /// Failed requests.
    pub hotplug_cpu_fails: u64,
}

/// A counter after one more.
pub open spec fn counted(n: u64) -> u64 {
    if n == u64::MAX {
        0
    } else {
        (n + 1) as u64
    }
}

impl HotplugRequestMetrics {
    /// The counters after a request that succeeded or failed.
    pub open spec fn after(self, success: bool) -> HotplugRequestMetrics {
        if success {
            HotplugRequestMetrics { hotplug_cpu_count: counted(self.hotplug_cpu_count), ..self }
        } else {
            HotplugRequestMetrics { hotplug_cpu_fails: counted(self.hotplug_cpu_fails), ..self }
        }
    }

    /// Counts a request.
    fn count(&mut self, success: bool)
        ensures
            *final(self) == old(self).after(success),
    {
        if success {
            self.hotplug_cpu_count = self.hotplug_cpu_count.wrapping_add(1);
        } else {
            self.hotplug_cpu_fails = self.hotplug_cpu_fails.wrapping_add(1);
        }
    }
}

/// The request of a `PUT` on `/hotplug/cpu` whose body reads as `config`, or the error of a body
/// that does not.
pub fn parse_put_cpu_hotplug<E>(
    metrics: &mut HotplugRequestMetrics,
    config: Result<CpuHotplugConfig, E>,
) -> (r: Result<ParsedRequest, E>)
    ensures
        *final(metrics) == old(metrics).after(config is Ok),
        r == (match config {
            Ok(config) => Ok::<ParsedRequest, E>(
                ParsedRequest::Sync(VmmAction::SetCpuHotplugConfig(config)),
            ),
            Err(e) => Err::<ParsedRequest, E>(e),
        }),
{
    metrics.count(config.is_ok());
    match config {
        Ok(config) => Ok(ParsedRequest::new_sync(VmmAction::SetCpuHotplugConfig(config))),
        Err(e) => Err(e),
    }
}

/// The request of a `PATCH` on `/hotplug/cpu` whose body reads as `update`, or the error of a
/// body that does not.
pub fn parse_patch_cpu_hotplug<E>(
    metrics: &mut HotplugRequestMetrics,
    update: Result<CpuHotplugUpdate, E>,
) -> (r: Result<ParsedRequest, E>)
    ensures
        *final(metrics) == old(metrics).after(update is Ok),
        r == (match update {
            Ok(update) => Ok::<ParsedRequest, E>(
                ParsedRequest::Sync(VmmAction::HotplugVcpu(update)),
            ),
            Err(e) => Err::<ParsedRequest, E>(e),
        }),
{
    metrics.count(update.is_ok());
    match update {
        Ok(update) => Ok(ParsedRequest::new_sync(VmmAction::HotplugVcpu(update))),
        Err(e) => Err(e),
    }
}

/// A `PUT` that is understood asks for exactly the configuration of its body, and counts as one
/// success; one that is not gives back the error, and counts as one failure. The counters start
/// anew after the largest number.
pub proof fn put_carries_its_body<E>(
    metrics: &mut HotplugRequestMetrics,
    config: Result<CpuHotplugConfig, E>,
    r: Result<ParsedRequest, E>,
)
    requires
        call_ensures(parse_put_cpu_hotplug::<E>, (metrics, config), r),
    ensures
        match config {
            Ok(config) => r is Ok && r->Ok_0 == ParsedRequest::Sync(
                VmmAction::SetCpuHotplugConfig(CpuHotplugConfig { max_vcpus: config.max_vcpus }),
            ),
            Err(e) => r is Err && r->Err_0 == e,
        },
        counts_one(*old(metrics), *final(metrics), config is Ok),
{
}

/// A `PATCH` that is understood asks for exactly the number of vCPUs of its body, and counts as
/// one success; one that is not gives back the error, and counts as one failure.
pub proof fn patch_carries_its_body<E>(
    metrics: &mut HotplugRequestMetrics,
    update: Result<CpuHotplugUpdate, E>,
    r: Result<ParsedRequest, E>,
)
    requires
        call_ensures(parse_patch_cpu_hotplug::<E>, (metrics, update), r),
    ensures
        match update {
            Ok(update) => r is Ok && r->Ok_0 == ParsedRequest::Sync(
                VmmAction::HotplugVcpu(CpuHotplugUpdate { desired_vcpus: update.desired_vcpus }),
            ),
            Err(e) => r is Err && r->Err_0 == e,
        },
        counts_one(*old(metrics), *final(metrics), update is Ok),
{
}

/// One of the two counters is one more, modulo 2 to the 64, and the other is as it was.
pub open spec fn counts_one(
    before: HotplugRequestMetrics,
    after: HotplugRequestMetrics,
    success: bool,
) -> bool {
    let modulus = 0x1_0000_0000_0000_0000int;
    &&& after.hotplug_cpu_count == (before.hotplug_cpu_count + if success {
        1int
    } else {
        0
    }) % modulus
    &&& after.hotplug_cpu_fails == (before.hotplug_cpu_fails + if success {
        0int
    } else {
        1
    }) % modulus
}

/// A request to be answered later is one for the action.
pub proof fn sync_carries_its_action(action: VmmAction, r: ParsedRequest)
    requires
        call_ensures(ParsedRequest::new_sync, (action,), r),
    ensures
        r matches ParsedRequest::Sync(carried) && carried == action,
{
}

} // verus!
