use crate::time::{Span, NANOS_PER_MICRO};
use vstd::prelude::*;
use vstd::string::StringExecFns;

verus! {

/// One gibibyte, the memory a submission gets unless told otherwise.
pub const DEFAULT_MEMORY: u64 = 1_073_741_824;

/// 100 ms, the default CPU quota and the default period it is granted over.
pub const DEFAULT_CPU_NANOS: u128 = 100_000_000;

/// Root of the private hierarchy that every resource group lives in.
pub const PREFIX: &'static str = "judge";

/// What a submission may use: resident memory in bytes, and a CPU quota
/// granted anew in every period.
///
/// A quota above the period is allowed.
#[derive(Debug, Clone, Copy, PartialEq, Eq, Structural)]
pub struct Resource {
    pub memory: u64,
    pub cpu_quota: Span,
    pub cpu_period: Span,
}

/// The kernel-level settings of one resource group: its name below the
/// hierarchy root, the memory controller's three limits in bytes, and the
/// CPU controller's quota and period in microseconds.
#[derive(Debug, Clone)]
pub struct GroupSettings {
    pub name: String,
    pub memory_hard_limit: i64,
    pub memory_soft_limit: i64,
    pub memory_swap_limit: i64,
    pub cpu_quota: i64,
    pub cpu_period: u64,
}

/// Whether `c` is a hexadecimal digit in lower case.
pub open spec fn is_lower_hex(c: char) -> bool {
    ('0' <= c && c <= '9') || ('a' <= c && c <= 'f')
}

/// Whether a hyphen stands at position `i` of a hyphenated UUID.
pub open spec fn is_hyphen_position(i: int) -> bool {
    i == 8 || i == 13 || i == 18 || i == 23
}

/// The hyphenated lower-case rendering of a version-4, RFC-variant UUID:
/// `xxxxxxxx-xxxx-4xxx-yxxx-xxxxxxxxxxxx` with `y` one of `8 9 a b`.
pub open spec fn is_uuid_v4_text(s: Seq<char>) -> bool {
    &&& s.len() == 36
    &&& forall|i: int|
        0 <= i < 36 ==> if is_hyphen_position(i) {
            s[i] == '-'
        } else {
            is_lower_hex(#[trigger] s[i])
        }
    &&& s[14] == '4'
    &&& (s[19] == '8' || s[19] == '9' || s[19] == 'a' || s[19] == 'b')
}

/// `judge/` followed by `id`.
pub open spec fn group_name_of(id: Seq<char>) -> Seq<char> {
    PREFIX@ + seq!['/'] + id
}

/// `judge/` followed by a version-4 UUID.
pub open spec fn is_group_name(s: Seq<char>) -> bool {
    exists|id: Seq<char>| is_uuid_v4_text(id) && s == group_name_of(id)
}

impl Resource {
    /// All three quantities are strictly positive, and each fits the
    /// integer the kernel interface takes it in.
    pub open spec fn valid(&self) -> bool {
        &&& 0 < self.memory <= i64::MAX
        &&& 0 < self.cpu_quota.nanos
        &&& self.cpu_quota.nanos / NANOS_PER_MICRO <= i64::MAX
        &&& 0 < self.cpu_period.nanos
        &&& self.cpu_period.nanos / NANOS_PER_MICRO <= u64::MAX
    }

    pub fn is_valid(&self) -> (ok: bool)
        ensures
            ok == self.valid(),
    {
        0 < self.memory && self.memory <= i64::MAX as u64 && 0 < self.cpu_quota.nanos
            && self.cpu_quota.nanos / NANOS_PER_MICRO <= i64::MAX as u128 && 0
            < self.cpu_period.nanos && self.cpu_period.nanos / NANOS_PER_MICRO
            <= u64::MAX as u128
    }

    /// Whether `settings` carries this resource to the kernel: hard and soft
    /// memory limit both equal to `memory`, no swap, quota and period in
    /// whole microseconds.
    pub open spec fn configures(&self, settings: &GroupSettings) -> bool {
        &&& settings.memory_hard_limit == self.memory
        &&& settings.memory_soft_limit == self.memory
        &&& settings.memory_swap_limit == 0
        &&& settings.cpu_quota == self.cpu_quota.nanos / NANOS_PER_MICRO
        &&& settings.cpu_period == self.cpu_period.nanos / NANOS_PER_MICRO
    }

    /// Settings of a group called `name` that enforces this resource, or
    /// `None` when the resource is not valid.
    pub fn settings(&self, name: String) -> (settings: Option<GroupSettings>)
        ensures
            settings is Some <==> self.valid(),
            settings matches Some(s) ==> s.name == name && self.configures(&s),
    {
        if !self.is_valid() {
            return None;
        }
        Some(
            GroupSettings {
                name,
                memory_hard_limit: self.memory as i64,
                memory_soft_limit: self.memory as i64,
                memory_swap_limit: 0,
                cpu_quota: (self.cpu_quota.nanos / NANOS_PER_MICRO) as i64,
                cpu_period: (self.cpu_period.nanos / NANOS_PER_MICRO) as u64,
            },
        )
    }
}

impl Default for Resource {
    fn default() -> (resource: Resource)
        ensures
            resource.memory == DEFAULT_MEMORY,
            resource.cpu_quota.nanos == DEFAULT_CPU_NANOS,
            resource.cpu_period.nanos == DEFAULT_CPU_NANOS,
            resource.valid(),
    {
        Resource {
            memory: DEFAULT_MEMORY,
            cpu_quota: Span { nanos: DEFAULT_CPU_NANOS },
            cpu_period: Span { nanos: DEFAULT_CPU_NANOS },
        }
    }
}

/// Draws a random UUID with `uuid::Uuid::new_v4` and renders it through the
/// crate's `Display`. Trusted: the text is the 36-character hyphenated
/// lower-case form, and the version and variant digits are the ones
/// `new_v4` forces onto its random bits.
#[verifier::external_body]
fn fresh_uuid() -> (id: String)
    ensures
        is_uuid_v4_text(id@),
{
    uuid::Uuid::new_v4().to_string()
}

/// The name of the group that `id` tells apart from all others: the
/// hierarchy root, a slash, and the id.
pub fn group_name(id: &str) -> (name: String)
    ensures
        name@ == group_name_of(id@),
{
    let mut name = String::from_str(PREFIX);
    name.append("/");
    name.append(id);
    proof {
        reveal_strlit("/");
        assert("/"@ =~= seq!['/']);
    }
    name
}

/// The name of a new group, told apart by a fresh UUID.
pub fn fresh_group_name() -> (name: String)
    ensures
        is_group_name(name@),
{
    let id = fresh_uuid();
    group_name(id.as_str())
}

} // verus!
