use kv_bench::config::{plan_run, total_requests, ConfigError, RunPlan, REQUEST_TIMEOUT_SECS};
use kv_bench::mode::{
    draw_from_word, parse_mode, random_draw, select_operation, Mode, Operation, DRAW_RANGE,
};

#[test]
fn parse_mode_knows_three_words() {
    assert_eq!(parse_mode("write"), Some(Mode::Write));
    assert_eq!(parse_mode("read"), Some(Mode::Read));
    assert_eq!(parse_mode("mixed"), Some(Mode::Mixed));
    assert_eq!(parse_mode("Write"), None);
    assert_eq!(parse_mode(""), None);
    assert_eq!(parse_mode("delete"), None);
    assert_eq!(parse_mode("write "), None);
}

#[test]
fn draw_is_the_upper_bits() {
    assert_eq!(draw_from_word(0), 0);
    assert_eq!(draw_from_word(2047), 0);
    assert_eq!(draw_from_word(2048), 1);
    assert_eq!(draw_from_word(u64::MAX), DRAW_RANGE - 1);
    assert_eq!(DRAW_RANGE, 1u64 << 53);
}

#[test]
fn random_draws_are_in_range_and_vary() {
    let first = random_draw();
    let mut differs = false;
    let mut k = 0;
    while k < 64 {
        let d = random_draw();
        assert!(d < DRAW_RANGE);
        if d != first {
            differs = true;
        }
        k += 1;
    }
    assert!(differs);
}

#[test]
fn fixed_modes_ignore_the_draw() {
    assert_eq!(select_operation(Mode::Write, 0, 0), Operation::Write);
    assert_eq!(select_operation(Mode::Write, DRAW_RANGE - 1, 0), Operation::Write);
    assert_eq!(select_operation(Mode::Read, 0, DRAW_RANGE), Operation::Read);
    assert_eq!(select_operation(Mode::Read, 5, 10), Operation::Read);
}

#[test]
fn mixed_mode_compares_draw_and_threshold() {
    assert_eq!(select_operation(Mode::Mixed, 4, 5), Operation::Write);
    assert_eq!(select_operation(Mode::Mixed, 5, 5), Operation::Read);
    assert_eq!(select_operation(Mode::Mixed, 6, 5), Operation::Read);
    assert_eq!(select_operation(Mode::Mixed, 0, 0), Operation::Read);
    assert_eq!(
        select_operation(Mode::Mixed, DRAW_RANGE - 1, DRAW_RANGE),
        Operation::Write
    );
}

#[test]
fn request_timeout_is_ten_seconds() {
    assert_eq!(REQUEST_TIMEOUT_SECS, 10);
}

#[test]
fn total_requests_is_the_product() {
    assert_eq!(total_requests(4, 10), Some(40));
    assert_eq!(total_requests(0, 10), Some(0));
    assert_eq!(total_requests(128, 10000), Some(1_280_000));
    assert_eq!(total_requests(usize::MAX, 2), None);
    assert_eq!(total_requests(usize::MAX, 1), Some(usize::MAX));
}

#[test]
fn plan_run_accepts_a_valid_configuration() {
    assert_eq!(
        plan_run(4, 10, "write", 0),
        Ok(RunPlan {
            clients: 4,
            requests: 10,
            total_requests: 40,
            gate_parties: 5,
            worker_threads: 8,
            mode: Mode::Write,
            threshold: 0,
        })
    );
    assert_eq!(
        plan_run(1, 100, "mixed", DRAW_RANGE / 2),
        Ok(RunPlan {
            clients: 1,
            requests: 100,
            total_requests: 100,
            gate_parties: 2,
            worker_threads: 2,
            mode: Mode::Mixed,
            threshold: DRAW_RANGE / 2,
        })
    );
    assert_eq!(
        plan_run(0, 0, "read", DRAW_RANGE),
        Ok(RunPlan {
            clients: 0,
            requests: 0,
            total_requests: 0,
            gate_parties: 1,
            worker_threads: 1,
            mode: Mode::Read,
            threshold: DRAW_RANGE,
        })
    );
}

#[test]
fn plan_run_refuses_an_unknown_mode() {
    assert_eq!(plan_run(4, 10, "scan", 0), Err(ConfigError::UnknownMode));
    assert_eq!(plan_run(usize::MAX, 2, "scan", u64::MAX), Err(ConfigError::UnknownMode));
}

#[test]
fn plan_run_refuses_a_ratio_above_one() {
    assert_eq!(plan_run(4, 10, "mixed", DRAW_RANGE + 1), Err(ConfigError::RatioOutOfRange));
    assert_eq!(plan_run(usize::MAX, 2, "write", u64::MAX), Err(ConfigError::RatioOutOfRange));
}

#[test]
fn plan_run_refuses_a_run_too_large() {
    assert_eq!(plan_run(usize::MAX, 2, "write", 0), Err(ConfigError::RunTooLarge));
    assert_eq!(plan_run(usize::MAX, 0, "write", 0), Err(ConfigError::RunTooLarge));
    assert_eq!(plan_run(2, usize::MAX, "read", 0), Err(ConfigError::RunTooLarge));
    assert_eq!(plan_run(usize::MAX / 2 + 1, 1, "read", 0), Err(ConfigError::RunTooLarge));
    assert_eq!(
        plan_run(usize::MAX / 2, 1, "read", 0).map(|plan| plan.worker_threads),
        Ok(usize::MAX - 1)
    );
}
