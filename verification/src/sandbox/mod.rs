pub mod cgroup;
pub mod monitor;
pub mod resource;

pub use cgroup::{CpuControllerExt, CpuStat, MemControllerExt, MemoryStat};
pub use monitor::{Monitor, Outcome, Poll, Step, POLL_NANOS};
pub use resource::{GroupSettings, Resource};

use crate::time::Span;
use resource::{fresh_group_name, is_group_name};
use vstd::prelude::*;

verus! {

/// Slack, in nanoseconds, that the wall clock is given over a short time
/// limit: two seconds.
pub const WALL_TIME_GRACE_NANOS: u128 = 2_000_000_000;

/// One resource group together with the two limits derived from a time
/// limit. A sandbox serves a single run: the group's CPU counter only grows.
#[derive(Debug, Clone)]
pub struct Sandbox {
    pub group: GroupSettings,
    pub cpu_usage_limit: Span,
    pub wall_time_limit: Span,
    /// How long the monitor pauses between two polls.
    pub poll_interval: Span,
}

/// Why no sandbox could be set up.
#[derive(Debug, Clone, Copy, PartialEq, Eq, Structural)]
pub enum SandboxError {
    /// The resource is not valid.
    InvalidResource,
    /// The wall-clock limit that belongs to the time limit is too long to be
    /// written down.
    TimeLimitOverflow,
}

/// The wall-clock ceiling of a run with CPU limit `time_limit`: twice the
/// limit, but never less than two seconds on top of it.
pub open spec fn wall_time_limit_of(time_limit: Span) -> int {
    if 2 * time_limit.nanos >= time_limit.nanos + WALL_TIME_GRACE_NANOS {
        2 * time_limit.nanos
    } else {
        time_limit.nanos + WALL_TIME_GRACE_NANOS
    }
}

/// Why no sandbox can be set up for `resource` and `time_limit`, if it cannot.
pub open spec fn setup_error(resource: Resource, time_limit: Span) -> Option<SandboxError> {
    if !resource.valid() {
        Some(SandboxError::InvalidResource)
    } else if wall_time_limit_of(time_limit) > u128::MAX {
        Some(SandboxError::TimeLimitOverflow)
    } else {
        None
    }
}

impl Sandbox {
    /// Whether this is a sandbox for `resource` and `time_limit`: its group
    /// has a well-formed name and carries the resource, the CPU limit is the
    /// time limit, the wall-clock limit is the one derived from it, and the
    /// monitor polls every `POLL_NANOS`.
    pub open spec fn enforces(&self, resource: Resource, time_limit: Span) -> bool {
        &&& is_group_name(self.group.name@)
        &&& resource.configures(&self.group)
        &&& self.cpu_usage_limit == time_limit
        &&& self.wall_time_limit.nanos == wall_time_limit_of(time_limit)
        &&& self.poll_interval.nanos == POLL_NANOS
    }

    /// Plans a sandbox for `resource` and `time_limit`, with a group under a
    /// fresh name. The group itself is the caller's to create from
    /// `group`, and to kill and delete when the sandbox goes.
    pub fn new(resource: Resource, time_limit: Span) -> (sandbox: Result<Sandbox, SandboxError>)
        ensures
            match sandbox {
                Ok(s) => setup_error(resource, time_limit) is None && s.enforces(
                    resource,
                    time_limit,
                ),
                Err(e) => setup_error(resource, time_limit) == Some(e),
            },
    {
        let group = match resource.settings(fresh_group_name()) {
            Some(group) => group,
            None => return Err(SandboxError::InvalidResource),
        };
        if time_limit.nanos > u128::MAX / 2 {
            return Err(SandboxError::TimeLimitOverflow);
        }
        let doubled: u128 = time_limit.nanos * 2;
        let padded: u128 = time_limit.nanos + WALL_TIME_GRACE_NANOS;
        let wall: u128 = if doubled >= padded {
            doubled
        } else {
            padded
        };
        Ok(
            Sandbox {
                group,
                cpu_usage_limit: time_limit,
                wall_time_limit: Span { nanos: wall },
                poll_interval: Span { nanos: POLL_NANOS },
            },
        )
    }
}

} // verus!
