use judge_runner::sandbox::resource::{
    fresh_group_name, group_name, DEFAULT_CPU_NANOS, DEFAULT_MEMORY, PREFIX,
};
use judge_runner::sandbox::{SandboxError, WALL_TIME_GRACE_NANOS};
use judge_runner::{Resource, Sandbox, Span};

const MIB: u64 = 1024 * 1024;

fn is_group_name(name: &str) -> bool {
    let Some(id) = name.strip_prefix("judge/") else {
        return false;
    };
    let id: Vec<char> = id.chars().collect();
    id.len() == 36
        && id.iter().enumerate().all(|(i, c)| match i {
            8 | 13 | 18 | 23 => *c == '-',
            _ => matches!(c, '0'..='9' | 'a'..='f'),
        })
        && id[14] == '4'
        && matches!(id[19], '8' | '9' | 'a' | 'b')
}

#[test]
fn default_resource() {
    let resource = Resource::default();
    assert_eq!(resource.memory, 1024 * MIB);
    assert_eq!(resource.memory, DEFAULT_MEMORY);
    assert_eq!(resource.cpu_quota, Span::from_millis(100));
    assert_eq!(resource.cpu_period, Span::from_millis(100));
    assert_eq!(DEFAULT_CPU_NANOS, 100_000_000);
    assert!(resource.is_valid());
}

#[test]
fn settings_carry_the_resource() {
    let resource = Resource {
        memory: 256 * MIB,
        cpu_quota: Span::from_millis(50),
        cpu_period: Span::from_secs(1),
    };
    let settings = resource.settings("judge/test".to_string()).unwrap();
    assert_eq!(settings.name, "judge/test");
    assert_eq!(settings.memory_hard_limit, 268_435_456);
    assert_eq!(settings.memory_soft_limit, 268_435_456);
    assert_eq!(settings.memory_swap_limit, 0);
    assert_eq!(settings.cpu_quota, 50_000);
    assert_eq!(settings.cpu_period, 1_000_000);
}

#[test]
fn quota_may_exceed_period() {
    let resource = Resource {
        memory: MIB,
        cpu_quota: Span::from_millis(400),
        cpu_period: Span::from_millis(100),
    };
    let settings = resource.settings(String::new()).unwrap();
    assert_eq!(settings.cpu_quota, 400_000);
    assert_eq!(settings.cpu_period, 100_000);
}

#[test]
fn microseconds_are_rounded_down() {
    let resource = Resource {
        memory: 1,
        cpu_quota: Span { nanos: 1_999 },
        cpu_period: Span { nanos: 999 },
    };
    assert!(resource.is_valid());
    let settings = resource.settings(String::new()).unwrap();
    assert_eq!(settings.memory_hard_limit, 1);
    assert_eq!(settings.cpu_quota, 1);
    assert_eq!(settings.cpu_period, 0);
}

#[test]
fn zero_is_not_a_valid_quantity() {
    let good = Resource::default();
    for bad in [
        Resource { memory: 0, ..good },
        Resource { cpu_quota: Span { nanos: 0 }, ..good },
        Resource { cpu_period: Span { nanos: 0 }, ..good },
    ] {
        assert!(!bad.is_valid());
        assert!(bad.settings("judge/x".to_string()).is_none());
        assert_eq!(
            Sandbox::new(bad, Span::from_secs(1)).unwrap_err(),
            SandboxError::InvalidResource
        );
    }
}

#[test]
fn quantities_must_fit_the_kernel_interface() {
    let good = Resource::default();
    let most = Resource {
        memory: i64::MAX as u64,
        cpu_quota: Span { nanos: i64::MAX as u128 * 1_000 + 999 },
        cpu_period: Span { nanos: u64::MAX as u128 * 1_000 + 999 },
    };
    let settings = most.settings(String::new()).unwrap();
    assert_eq!(settings.memory_hard_limit, i64::MAX);
    assert_eq!(settings.memory_soft_limit, i64::MAX);
    assert_eq!(settings.cpu_quota, i64::MAX);
    assert_eq!(settings.cpu_period, u64::MAX);
    for bad in [
        Resource { memory: i64::MAX as u64 + 1, ..good },
        Resource { memory: u64::MAX, ..good },
        Resource { cpu_quota: Span { nanos: (i64::MAX as u128 + 1) * 1_000 }, ..good },
        Resource { cpu_period: Span { nanos: (u64::MAX as u128 + 1) * 1_000 }, ..good },
    ] {
        assert!(!bad.is_valid());
        assert!(bad.settings(String::new()).is_none());
    }
}

#[test]
fn wall_time_limit_is_twice_the_limit_or_two_seconds_more() {
    let cases: [(Span, u128); 7] = [
        (Span { nanos: 0 }, 2_000_000_000),
        (Span::from_millis(200), 2_200_000_000),
        (Span::from_secs(1), 3_000_000_000),
        (Span { nanos: 1_999_999_999 }, 3_999_999_999),
        (Span::from_secs(2), 4_000_000_000),
        (Span { nanos: 2_000_000_001 }, 4_000_000_002),
        (Span::from_secs(5), 10_000_000_000),
    ];
    for (time_limit, wall) in cases {
        let sandbox = Sandbox::new(Resource::default(), time_limit).unwrap();
        assert_eq!(sandbox.cpu_usage_limit, time_limit);
        assert_eq!(sandbox.wall_time_limit, Span { nanos: wall });
    }
    assert_eq!(WALL_TIME_GRACE_NANOS, 2_000_000_000);
}

#[test]
fn a_time_limit_too_long_to_double_is_refused() {
    let longest = Span { nanos: u128::MAX / 2 };
    let sandbox = Sandbox::new(Resource::default(), longest).unwrap();
    assert_eq!(sandbox.wall_time_limit, Span { nanos: u128::MAX - 1 });
    for nanos in [u128::MAX / 2 + 1, u128::MAX] {
        assert_eq!(
            Sandbox::new(Resource::default(), Span { nanos }).unwrap_err(),
            SandboxError::TimeLimitOverflow
        );
    }
}

#[test]
fn an_invalid_resource_is_reported_before_the_time_limit() {
    let bad = Resource { memory: 0, ..Resource::default() };
    assert_eq!(
        Sandbox::new(bad, Span { nanos: u128::MAX }).unwrap_err(),
        SandboxError::InvalidResource
    );
}

#[test]
fn sandbox_group_carries_the_resource() {
    let resource = Resource {
        memory: 256 * MIB,
        cpu_quota: Span::from_millis(100),
        cpu_period: Span::from_millis(100),
    };
    let sandbox = Sandbox::new(resource, Span::from_secs(1)).unwrap();
    assert_eq!(sandbox.group.memory_hard_limit, 268_435_456);
    assert_eq!(sandbox.group.memory_soft_limit, 268_435_456);
    assert_eq!(sandbox.group.memory_swap_limit, 0);
    assert_eq!(sandbox.group.cpu_quota, 100_000);
    assert_eq!(sandbox.group.cpu_period, 100_000);
    assert!(is_group_name(&sandbox.group.name), "{}", sandbox.group.name);
    assert_eq!(sandbox.poll_interval, Span { nanos: 10_000_000 });
}

#[test]
fn group_name_is_the_id_under_judge() {
    assert_eq!(PREFIX, "judge");
    assert_eq!(group_name("abc"), "judge/abc");
    assert_eq!(group_name(""), "judge/");
    assert_eq!(
        group_name("67e55044-10b1-426f-9247-bb680e5fe0c8"),
        "judge/67e55044-10b1-426f-9247-bb680e5fe0c8"
    );
    assert!(is_group_name(&group_name("67e55044-10b1-426f-9247-bb680e5fe0c8")));
    assert!(!is_group_name(&group_name("67e55044-10b1-126f-9247-bb680e5fe0c8")));
    assert!(!is_group_name(&group_name("67e55044-10b1-426f-c247-bb680e5fe0c8")));
    assert!(!is_group_name(&group_name("67E55044-10B1-426F-9247-BB680E5FE0C8")));
    assert!(!is_group_name(&group_name("67e5504410b1426f9247bb680e5fe0c8")));
}

#[test]
fn group_names_are_fresh_uuids_under_judge() {
    let first = fresh_group_name();
    let second = fresh_group_name();
    assert!(is_group_name(&first), "{first}");
    assert!(is_group_name(&second), "{second}");
    assert_eq!(first.len(), 42);
    assert_ne!(first, second);
}

#[test]
fn every_sandbox_has_a_group_of_its_own() {
    let first = Sandbox::new(Resource::default(), Span::from_secs(1)).unwrap();
    let second = Sandbox::new(Resource::default(), Span::from_secs(1)).unwrap();
    assert_ne!(first.group.name, second.group.name);
}

#[test]
fn span_constructors() {
    assert_eq!(Span::from_nanos(7), Span { nanos: 7 });
    assert_eq!(Span::from_micros(7), Span { nanos: 7_000 });
    assert_eq!(Span::from_millis(7), Span { nanos: 7_000_000 });
    assert_eq!(Span::from_secs(7), Span { nanos: 7_000_000_000 });
    assert_eq!(
        Span::from_secs(u64::MAX),
        Span { nanos: u64::MAX as u128 * 1_000_000_000 }
    );
    assert_eq!(Span { nanos: 2_999_999_999 }.as_secs(), 2);
    assert_eq!(Span { nanos: 2_999_999_999 }.subsec_nanos(), 999_999_999);
    assert_eq!(Span::from_millis(1500).as_secs(), 1);
    assert_eq!(Span::from_millis(1500).subsec_nanos(), 500_000_000);
    assert_eq!(Span { nanos: u128::MAX }.as_secs(), 340_282_366_920_938_463_463_374_607_431);
    assert_eq!(Span { nanos: u128::MAX }.subsec_nanos(), 768_211_455);
    assert_eq!(Span { nanos: 1_999 }.as_micros(), 1);
    assert_eq!(Span { nanos: 999 }.as_micros(), 0);
    assert_eq!(Span::from_secs(3).as_micros(), 3_000_000);
}
