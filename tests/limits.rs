use envicutor::limits::{GetLimits, InvalidLimit, LimitField, Limits, MandatoryLimits};

fn ceiling() -> MandatoryLimits {
    MandatoryLimits {
        wall_time: 10_000,
        cpu_time: 5_000,
        memory: 256_000,
        extra_time: 1_000,
        max_open_files: 64,
        max_file_size: 1_024,
        max_number_of_processes: 32,
    }
}

fn empty_request() -> Limits {
    Limits {
        wall_time: None,
        cpu_time: None,
        memory: None,
        extra_time: None,
        max_open_files: None,
        max_file_size: None,
        max_number_of_processes: None,
    }
}

#[test]
fn absent_request_gives_ceiling() {
    let none: Option<Limits> = None;
    assert_eq!(none.get(&ceiling()), Ok(ceiling()));
}

#[test]
fn empty_request_inherits_every_ceiling() {
    assert_eq!(Some(empty_request()).get(&ceiling()), Ok(ceiling()));
}

#[test]
fn requested_fields_are_kept_and_others_inherited() {
    let mut req = empty_request();
    req.cpu_time = Some(1_000);
    req.memory = Some(128_000);
    let got = Some(req).get(&ceiling()).unwrap();
    let mut expected = ceiling();
    expected.cpu_time = 1_000;
    expected.memory = 128_000;
    assert_eq!(got, expected);
}

#[test]
fn value_equal_to_ceiling_is_accepted() {
    let mut req = empty_request();
    req.max_number_of_processes = Some(32);
    assert_eq!(Some(req).get(&ceiling()), Ok(ceiling()));
}

#[test]
fn exceeding_field_is_rejected_with_its_ceiling() {
    let mut req = empty_request();
    req.memory = Some(256_001);
    assert_eq!(
        Some(req).get(&ceiling()),
        Err(InvalidLimit { field: LimitField::Memory, ceiling: 256_000 })
    );
}

#[test]
fn first_exceeding_field_in_order_is_reported() {
    let mut req = empty_request();
    req.max_file_size = Some(2_000);
    req.cpu_time = Some(6_000);
    assert_eq!(
        Some(req).get(&ceiling()),
        Err(InvalidLimit { field: LimitField::CpuTime, ceiling: 5_000 })
    );
}

#[test]
fn negotiated_limits_never_exceed_ceiling() {
    let mut req = empty_request();
    req.wall_time = Some(9_999);
    req.extra_time = Some(0);
    req.max_open_files = Some(1);
    let got = Some(req).get(&ceiling()).unwrap();
    let c = ceiling();
    assert!(got.wall_time <= c.wall_time && got.wall_time == 9_999);
    assert!(got.extra_time <= c.extra_time && got.extra_time == 0);
    assert!(got.max_open_files <= c.max_open_files && got.max_open_files == 1);
    assert_eq!(got.max_number_of_processes, c.max_number_of_processes);
}

#[test]
fn each_field_can_be_rejected() {
    let fields = [
        LimitField::WallTime,
        LimitField::CpuTime,
        LimitField::Memory,
        LimitField::ExtraTime,
        LimitField::MaxOpenFiles,
        LimitField::MaxFileSize,
        LimitField::MaxNumberOfProcesses,
    ];
    for f in fields {
        let mut req = empty_request();
        let c = ceiling();
        let ceil = match f {
            LimitField::WallTime => { req.wall_time = Some(c.wall_time + 1); c.wall_time }
            LimitField::CpuTime => { req.cpu_time = Some(c.cpu_time + 1); c.cpu_time }
            LimitField::Memory => { req.memory = Some(c.memory + 1); c.memory }
            LimitField::ExtraTime => { req.extra_time = Some(c.extra_time + 1); c.extra_time }
            LimitField::MaxOpenFiles => { req.max_open_files = Some(c.max_open_files + 1); c.max_open_files }
            LimitField::MaxFileSize => { req.max_file_size = Some(c.max_file_size + 1); c.max_file_size }
            LimitField::MaxNumberOfProcesses => {
                req.max_number_of_processes = Some(c.max_number_of_processes + 1);
                c.max_number_of_processes
            }
        };
        assert_eq!(Some(req).get(&c), Err(InvalidLimit { field: f, ceiling: ceil }));
    }
}
