use crate::time::{Span, NANOS_PER_MICRO};
use vstd::prelude::*;
use vstd::string::StrSliceExecFns;

verus! {

/// What the line that reports the CPU time starts with.
pub const CPU_USAGE_PREFIX: &'static str = "usage_usec ";

/// One reading of a group's CPU controller: the text of its `cpu.stat`.
#[derive(Debug)]
pub struct CpuStat {
    pub stat: String,
}

/// One reading of a group's memory controller: bytes in use, and the hard
/// limit as the kernel reports it; a negative limit means none is set.
#[derive(Debug, Clone, Copy, PartialEq, Eq, Structural)]
pub struct MemoryStat {
    pub usage_in_bytes: u64,
    pub limit_in_bytes: i64,
}

/// The CPU probe of a resource group.
pub trait CpuControllerExt {
    /// The CPU time that the reading reports, if it reports one.
    spec fn cpu_time(&self) -> Option<Span>;

    /// Cumulative CPU time of all tasks in the group, or `None` where the
    /// reading does not tell.
    fn usage(&self) -> (usage: Option<Span>)
        ensures
            usage == self.cpu_time(),
    ;
}

/// The two memory probes of a resource group.
pub trait MemControllerExt {
    /// The bytes that the reading reports as in use.
    spec fn bytes_in_use(&self) -> u64;

    /// The hard limit that the reading reports, zero where none is set.
    spec fn hard_limit(&self) -> u64;

    /// Resident bytes of the group at the reading.
    fn usage(&self) -> (usage: u64)
        ensures
            usage == self.bytes_in_use(),
    ;

    /// The group's hard limit in bytes, zero where none is set.
    fn limit(&self) -> (limit: u64)
        ensures
            limit == self.hard_limit(),
    ;
}

/// Where the line that starts at `from` ends: at its line feed, or at the
/// end of the text.
pub open spec fn line_end(text: Seq<char>, from: int) -> int
    decreases text.len() - from,
{
    if from >= text.len() {
        text.len() as int
    } else if text[from] == '\n' {
        from
    } else {
        line_end(text, from + 1)
    }
}

/// The line that starts at `from`, without its terminator: a line feed, or a
/// carriage return and a line feed.
pub open spec fn line_at(text: Seq<char>, from: int) -> Seq<char> {
    let end = line_end(text, from);
    if from < end < text.len() && text[end - 1] == '\r' {
        text.subrange(from, end - 1)
    } else {
        text.subrange(from, end)
    }
}

/// What follows `prefix` on the first line, from `from` on, that starts with
/// it.
pub open spec fn field_after(text: Seq<char>, prefix: Seq<char>, from: int) -> Option<Seq<char>>
    decreases text.len() + 1 - from,
    via field_after_terminates
{
    if from < 0 || from >= text.len() {
        None
    } else if prefix.is_prefix_of(line_at(text, from)) {
        Some(line_at(text, from).skip(prefix.len() as int))
    } else {
        field_after(text, prefix, line_end(text, from) + 1)
    }
}

#[via_fn]
proof fn field_after_terminates(text: Seq<char>, prefix: Seq<char>, from: int) {
    if 0 <= from < text.len() {
        lemma_line_end_in_line(text, from);
    }
}

/// A line ends at or after its start, and within the text.
pub proof fn lemma_line_end_in_line(text: Seq<char>, from: int)
    requires
        0 <= from <= text.len(),
    ensures
        from <= line_end(text, from) <= text.len(),
    decreases text.len() - from,
{
    if from < text.len() && text[from] != '\n' {
        lemma_line_end_in_line(text, from + 1);
    }
}

/// Whether `c` is one of the ten decimal digits.
pub open spec fn is_digit(c: char) -> bool {
    '0' <= c && c <= '9'
}

/// The number that a string of decimal digits writes.
pub open spec fn decimal(digits: Seq<char>) -> nat
    decreases digits.len(),
{
    if digits.len() == 0 {
        0
    } else {
        (decimal(digits.drop_last()) * 10 + (digits.last() as int - '0' as int)) as nat
    }
}

/// Whether `text` holds decimal digits only.
pub open spec fn all_digits(text: Seq<char>) -> bool {
    forall|i: int| 0 <= i < text.len() ==> is_digit(#[trigger] text[i])
}

/// `text` without the plus sign that it may start with.
pub open spec fn without_sign(text: Seq<char>) -> Seq<char> {
    if text.len() > 0 && text[0] == '+' {
        text.skip(1)
    } else {
        text
    }
}

/// The unsigned number that `text` writes: decimal digits, at least one,
/// after an optional plus sign, with a value that fits 64 bits.
pub open spec fn parse_u64(text: Seq<char>) -> Option<u64> {
    let digits = without_sign(text);
    if digits.len() > 0 && all_digits(digits) && decimal(digits) <= u64::MAX {
        Some(decimal(digits) as u64)
    } else {
        None
    }
}

/// The CPU time that the text of a `cpu.stat` reports: the number of
/// microseconds on its first `usage_usec` line.
pub open spec fn cpu_time_of(stat: Seq<char>) -> Option<Span> {
    match field_after(stat, CPU_USAGE_PREFIX@, 0) {
        Some(field) => match parse_u64(field) {
            Some(micros) => Some(Span { nanos: (micros * NANOS_PER_MICRO) as u128 }),
            None => None,
        },
        None => None,
    }
}

/// A number written in digits is at least the number that any of its
/// beginnings writes.
pub proof fn lemma_decimal_grows(digits: Seq<char>, n: int)
    requires
        0 <= n <= digits.len(),
        all_digits(digits),
    ensures
        decimal(digits.take(n)) <= decimal(digits),
    decreases digits.len() - n,
{
    if n == digits.len() {
        assert(digits.take(n) =~= digits);
    } else {
        lemma_decimal_grows(digits, n + 1);
        let longer = digits.take(n + 1);
        assert(longer.drop_last() =~= digits.take(n));
        assert(is_digit(digits[n]));
        assert(longer.last() == digits[n]);
    }
}

fn digit_of(c: char) -> (digit: Option<u8>)
    ensures
        digit is Some <==> is_digit(c),
        digit matches Some(d) ==> d == c as int - '0' as int,
{
    match c {
        '0' => Some(0),
        '1' => Some(1),
        '2' => Some(2),
        '3' => Some(3),
        '4' => Some(4),
        '5' => Some(5),
        '6' => Some(6),
        '7' => Some(7),
        '8' => Some(8),
        '9' => Some(9),
        _ => None,
    }
}

fn find_line_end(text: &str, from: usize, len: usize) -> (end: usize)
    requires
        len == text@.len(),
        from <= len,
    ensures
        end == line_end(text@, from as int),
        from <= end <= len,
{
    let mut end = from;
    while end < len && text.get_char(end) != '\n'
        invariant
            len == text@.len(),
            from <= end <= len,
            line_end(text@, end as int) == line_end(text@, from as int),
        decreases len - end,
    {
        end += 1;
    }
    end
}

fn has_prefix(text: &str, from: usize, to: usize, prefix: &str) -> (found: bool)
    requires
        from <= to <= text@.len(),
    ensures
        found == prefix@.is_prefix_of(text@.subrange(from as int, to as int)),
{
    let width = prefix.unicode_len();
    if to - from < width {
        return false;
    }
    let ghost line = text@.subrange(from as int, to as int);
    let mut at: usize = 0;
    while at < width
        invariant
            from <= to <= text@.len(),
            width == prefix@.len(),
            width <= to - from,
            at <= width,
            line == text@.subrange(from as int, to as int),
            prefix@.take(at as int) =~= line.take(at as int),
        decreases width - at,
    {
        if text.get_char(from + at) != prefix.get_char(at) {
            proof {
                if prefix@.is_prefix_of(line) {
                    assert(line.subrange(0, width as int)[at as int] == prefix@[at as int]);
                }
            }
            return false;
        }
        at += 1;
        assert(prefix@.take(at as int) =~= prefix@.take(at - 1).push(prefix@[at - 1]));
        assert(line.take(at as int) =~= line.take(at - 1).push(line[at - 1]));
    }
    assert(prefix@.take(width as int) =~= prefix@);
    true
}

fn parse_number(text: &str, from: usize, to: usize) -> (value: Option<u64>)
    requires
        from <= to <= text@.len(),
    ensures
        value == parse_u64(text@.subrange(from as int, to as int)),
{
    let ghost field = text@.subrange(from as int, to as int);
    let mut at = from;
    if at < to && text.get_char(at) == '+' {
        at += 1;
    }
    let first = at;
    let ghost digits = text@.subrange(first as int, to as int);
    assert(digits =~= without_sign(field));
    if at == to {
        return None;
    }
    let mut value: u64 = 0;
    while at < to
        invariant
            first <= at <= to <= text@.len(),
            digits == text@.subrange(first as int, to as int),
            digits == without_sign(text@.subrange(from as int, to as int)),
            all_digits(digits.take(at - first)),
            value == decimal(digits.take(at - first)),
        decreases to - at,
    {
        let ghost seen = digits.take(at - first);
        let ghost next = digits.take(at - first + 1);
        assert(next.drop_last() =~= seen);
        assert(next.last() == digits[at - first]);
        let digit = match digit_of(text.get_char(at)) {
            Some(digit) => digit as u64,
            None => {
                assert(!is_digit(digits[at - first]));
                return None;
            },
        };
        assert forall|i: int| 0 <= i < next.len() implies is_digit(#[trigger] next[i]) by {
            if i < seen.len() {
                assert(is_digit(seen[i]));
            }
        }
        if value > (u64::MAX - digit) / 10 {
            proof {
                assert(decimal(next) > u64::MAX);
                if all_digits(digits) {
                    lemma_decimal_grows(digits, at - first + 1);
                }
            }
            return None;
        }
        value = value * 10 + digit;
        at += 1;
    }
    assert(digits.take(to - first) =~= digits);
    Some(value)
}

impl CpuControllerExt for CpuStat {
    open spec fn cpu_time(&self) -> Option<Span> {
        cpu_time_of(self.stat@)
    }

    fn usage(&self) -> (usage: Option<Span>) {
        let text = self.stat.as_str();
        let len = text.unicode_len();
        let width = CPU_USAGE_PREFIX.unicode_len();
        let mut from: usize = 0;
        while from < len
            invariant
                text@ == self.stat@,
                len == text@.len(),
                width == CPU_USAGE_PREFIX@.len(),
                from <= len,
                field_after(text@, CPU_USAGE_PREFIX@, from as int) == field_after(
                    text@,
                    CPU_USAGE_PREFIX@,
                    0,
                ),
            decreases len - from,
        {
            let end = find_line_end(text, from, len);
            proof {
                lemma_line_end_in_line(text@, from as int);
            }
            let stop = if from < end && end < len && text.get_char(end - 1) == '\r' {
                end - 1
            } else {
                end
            };
            if has_prefix(text, from, stop, CPU_USAGE_PREFIX) {
                assert(text@.subrange(from as int, stop as int).skip(width as int)
                    =~= text@.subrange(from + width, stop as int));
                return match parse_number(text, from + width, stop) {
                    Some(micros) => Some(Span { nanos: micros as u128 * NANOS_PER_MICRO }),
                    None => None,
                };
            }
            assert(field_after(text@, CPU_USAGE_PREFIX@, len as int) == field_after(
                text@,
                CPU_USAGE_PREFIX@,
                len + 1,
            ));
            from = if end < len {
                end + 1
            } else {
                len
            };
        }
        None
    }
}

impl MemControllerExt for MemoryStat {
    open spec fn bytes_in_use(&self) -> u64 {
        self.usage_in_bytes
    }

    open spec fn hard_limit(&self) -> u64 {
        if self.limit_in_bytes > 0 {
            self.limit_in_bytes as u64
        } else {
            0
        }
    }

    fn usage(&self) -> (usage: u64) {
        self.usage_in_bytes
    }

    fn limit(&self) -> (limit: u64) {
        if self.limit_in_bytes > 0 {
            self.limit_in_bytes as u64
        } else {
            0
        }
    }
}

} // verus!
