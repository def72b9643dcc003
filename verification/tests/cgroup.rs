use judge_runner::sandbox::cgroup::CPU_USAGE_PREFIX;
use judge_runner::sandbox::{CpuControllerExt, CpuStat, MemControllerExt, MemoryStat};
use judge_runner::Span;

fn cpu_usage_of(stat: &str) -> Option<Span> {
    CpuStat { stat: stat.to_string() }.usage()
}

fn micros(value: u64) -> Option<Span> {
    Some(Span { nanos: value as u128 * 1_000 })
}

#[test]
fn prefix_of_the_usage_line() {
    assert_eq!(CPU_USAGE_PREFIX, "usage_usec ");
}

#[test]
fn usage_of_a_kernel_report() {
    let stat = "usage_usec 1234567\nuser_usec 1000000\nsystem_usec 234567\n\
                nr_periods 12\nnr_throttled 3\nthrottled_usec 4500\n";
    assert_eq!(cpu_usage_of(stat), micros(1_234_567));
    assert_eq!(cpu_usage_of(stat), Some(Span { nanos: 1_234_567_000 }));
}

#[test]
fn usage_line_need_not_come_first() {
    assert_eq!(cpu_usage_of("user_usec 5\nusage_usec 42\nsystem_usec 7\n"), micros(42));
    assert_eq!(cpu_usage_of("\n\nusage_usec 42"), micros(42));
}

#[test]
fn last_line_need_not_end() {
    assert_eq!(cpu_usage_of("usage_usec 42"), micros(42));
    assert_eq!(cpu_usage_of("user_usec 1\nusage_usec 0"), micros(0));
}

#[test]
fn carriage_return_before_line_feed_belongs_to_the_terminator() {
    assert_eq!(cpu_usage_of("usage_usec 42\r\nuser_usec 1\r\n"), micros(42));
    assert_eq!(cpu_usage_of("user_usec 1\r\nusage_usec 42\r\n"), micros(42));
    assert_eq!(cpu_usage_of("usage_usec 42\r"), None);
    assert_eq!(cpu_usage_of("usage_usec 42\r\r\n"), None);
    assert_eq!(cpu_usage_of("usage_usec 4\r2\n"), None);
}

#[test]
fn report_without_usage_line() {
    assert_eq!(cpu_usage_of(""), None);
    assert_eq!(cpu_usage_of("\n"), None);
    assert_eq!(cpu_usage_of("user_usec 5\nsystem_usec 7\n"), None);
    assert_eq!(cpu_usage_of("usage_usec"), None);
    assert_eq!(cpu_usage_of("usage_usec\n"), None);
    assert_eq!(cpu_usage_of("usage_usec\t42\n"), None);
    assert_eq!(cpu_usage_of("Usage_usec 42\n"), None);
    assert_eq!(cpu_usage_of(" usage_usec 42\n"), None);
    assert_eq!(cpu_usage_of("total usage_usec 42\n"), None);
}

#[test]
fn the_first_usage_line_decides() {
    assert_eq!(cpu_usage_of("usage_usec 1\nusage_usec 2\n"), micros(1));
    assert_eq!(cpu_usage_of("usage_usec x\nusage_usec 2\n"), None);
    assert_eq!(cpu_usage_of("usage_usec \nusage_usec 2\n"), None);
}

#[test]
fn usage_must_be_a_number() {
    assert_eq!(cpu_usage_of("usage_usec \n"), None);
    assert_eq!(cpu_usage_of("usage_usec  42\n"), None);
    assert_eq!(cpu_usage_of("usage_usec 42 \n"), None);
    assert_eq!(cpu_usage_of("usage_usec 4 2\n"), None);
    assert_eq!(cpu_usage_of("usage_usec -42\n"), None);
    assert_eq!(cpu_usage_of("usage_usec 4.2\n"), None);
    assert_eq!(cpu_usage_of("usage_usec 0x2a\n"), None);
    assert_eq!(cpu_usage_of("usage_usec 42us\n"), None);
    assert_eq!(cpu_usage_of("usage_usec ٤٢\n"), None);
}

#[test]
fn a_plus_sign_may_lead() {
    assert_eq!(cpu_usage_of("usage_usec +42\n"), micros(42));
    assert_eq!(cpu_usage_of("usage_usec +\n"), None);
    assert_eq!(cpu_usage_of("usage_usec ++42\n"), None);
    assert_eq!(cpu_usage_of("usage_usec 4+2\n"), None);
}

#[test]
fn leading_zeros_are_read() {
    assert_eq!(cpu_usage_of("usage_usec 0\n"), micros(0));
    assert_eq!(cpu_usage_of("usage_usec 000\n"), micros(0));
    assert_eq!(cpu_usage_of("usage_usec 0042\n"), micros(42));
    assert_eq!(
        cpu_usage_of("usage_usec 000000000000000000000000000000000007\n"),
        micros(7)
    );
}

#[test]
fn usage_must_fit_sixty_four_bits() {
    assert_eq!(cpu_usage_of("usage_usec 18446744073709551615\n"), micros(u64::MAX));
    assert_eq!(
        cpu_usage_of("usage_usec 18446744073709551615\n"),
        Some(Span { nanos: 18_446_744_073_709_551_615_000 })
    );
    assert_eq!(cpu_usage_of("usage_usec 18446744073709551616\n"), None);
    assert_eq!(cpu_usage_of("usage_usec 18446744073709551620\n"), None);
    assert_eq!(cpu_usage_of("usage_usec 99999999999999999999\n"), None);
    assert_eq!(cpu_usage_of("usage_usec 184467440737095516150\n"), None);
    assert_eq!(cpu_usage_of("usage_usec 18446744073709551616x\n"), None);
}

#[test]
fn usage_agrees_with_the_standard_parser() {
    for field in [
        "0", "7", "10", "+10", "-1", "", "+", " 1", "1 ", "1_000", "18446744073709551615",
        "18446744073709551616", "00018446744073709551615", "12a", "a12", "１２",
    ] {
        let expected = field.parse::<u64>().ok().and_then(micros);
        assert_eq!(cpu_usage_of(&format!("usage_usec {field}\n")), expected, "{field:?}");
    }
}

#[test]
fn memory_usage_is_the_reading() {
    let stat = MemoryStat { usage_in_bytes: 123_456, limit_in_bytes: 268_435_456 };
    assert_eq!(stat.usage(), 123_456);
    assert_eq!(MemoryStat { usage_in_bytes: u64::MAX, limit_in_bytes: 1 }.usage(), u64::MAX);
}

#[test]
fn memory_limit_is_never_negative() {
    let with = |limit_in_bytes| MemoryStat { usage_in_bytes: 5, limit_in_bytes };
    assert_eq!(with(268_435_456).limit(), 268_435_456);
    assert_eq!(with(1).limit(), 1);
    assert_eq!(with(0).limit(), 0);
    assert_eq!(with(-1).limit(), 0);
    assert_eq!(with(i64::MIN).limit(), 0);
    assert_eq!(with(i64::MAX).limit(), i64::MAX as u64);
}
