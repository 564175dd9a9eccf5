use aimd_semaphore::aimd::{Aimd, AimdConfig, ConfigError};
use aimd_semaphore::gate::State;

fn config(min: u64, max: u64, inc: u64, dec_num: u64, dec_den: u64) -> AimdConfig {
    AimdConfig { min, max, inc, dec_num, dec_den }
}

fn control(c: AimdConfig) -> Aimd {
    match Aimd::new(c) {
        Ok(a) => a,
        Err(e) => panic!("configuration refused: {:?}", e),
    }
}

#[test]
fn validate_accepts_consistent_configuration() {
    assert_eq!(config(1, 10, 1, 1, 2).validate(), Ok(()));
    assert_eq!(config(3, 3, 0, 1, 2).validate(), Ok(()));
    assert_eq!(config(0, u64::MAX, u64::MAX, u64::MAX - 1, u64::MAX).validate(), Ok(()));
}

#[test]
fn validate_refuses_inverted_bounds() {
    assert_eq!(config(11, 10, 1, 1, 2).validate(), Err(ConfigError::InvertedBounds));
}

#[test]
fn validate_refuses_factor_outside_unit_interval() {
    assert_eq!(config(1, 10, 1, 0, 2).validate(), Err(ConfigError::FactorOutOfRange));
    assert_eq!(config(1, 10, 1, 2, 2).validate(), Err(ConfigError::FactorOutOfRange));
    assert_eq!(config(1, 10, 1, 3, 2).validate(), Err(ConfigError::FactorOutOfRange));
    assert_eq!(config(1, 10, 1, 1, 0).validate(), Err(ConfigError::FactorOutOfRange));
    assert_eq!(config(1, 10, 1, 0, 0).validate(), Err(ConfigError::FactorOutOfRange));
}

#[test]
fn validate_looks_at_bounds_first() {
    assert_eq!(config(11, 10, 1, 0, 0).validate(), Err(ConfigError::InvertedBounds));
}

#[test]
fn new_control_state_starts_at_max() {
    assert_eq!(control(config(1, 10, 1, 1, 2)).limit(), 10);
    assert!(matches!(Aimd::new(config(2, 1, 1, 1, 2)), Err(ConfigError::InvertedBounds)));
    assert!(matches!(Aimd::new(config(1, 2, 1, 5, 4)), Err(ConfigError::FactorOutOfRange)));
}

#[test]
fn failure_scales_and_rounds_down() {
    let mut a = control(config(1, 10, 1, 1, 2));
    a.failure();
    assert_eq!(a.limit(), 5);
    a.failure();
    assert_eq!(a.limit(), 2);
    a.failure();
    assert_eq!(a.limit(), 1);
    a.failure();
    assert_eq!(a.limit(), 1);

    let mut b = control(config(0, 100, 1, 2, 3));
    b.failure();
    assert_eq!(b.limit(), 66);
    b.failure();
    assert_eq!(b.limit(), 44);

    let mut c = control(config(3, 7, 1, 1, 3));
    c.failure();
    assert_eq!(c.limit(), 3);
}

#[test]
fn failure_on_largest_values_does_not_overflow() {
    let mut a = control(config(0, u64::MAX, 1, u64::MAX - 1, u64::MAX));
    a.failure();
    assert_eq!(a.limit(), u64::MAX - 1);
    let mut b = control(config(0, u64::MAX, 1, 1, 2));
    b.failure();
    assert_eq!(b.limit(), u64::MAX / 2);
}

#[test]
fn success_adds_and_caps() {
    let mut a = control(config(1, 10, 3, 1, 2));
    a.failure();
    assert_eq!(a.limit(), 5);
    a.success();
    assert_eq!(a.limit(), 8);
    a.success();
    assert_eq!(a.limit(), 10);
    a.success();
    assert_eq!(a.limit(), 10);

    let mut b = control(config(1, 10, u64::MAX, 1, 2));
    b.failure();
    b.success();
    assert_eq!(b.limit(), 10);
}

#[test]
fn limit_stays_within_bounds_and_moves_one_way() {
    let c = config(2, 9, 2, 3, 5);
    let mut a = control(c);
    for round in 0..40u32 {
        let before = a.limit();
        if round % 3 == 0 {
            a.success();
            assert!(a.limit() >= before);
        } else {
            a.failure();
            assert!(a.limit() <= before);
        }
        assert!(c.min <= a.limit() && a.limit() <= c.max);
    }
}

#[test]
fn gate_follows_a_worked_trace() {
    let mut s = State::new(control(config(1, 10, 1, 1, 2)));
    assert_eq!(s.available(), 10);
    assert_eq!(s.acquired(), 0);
    assert!(s.try_acquire());
    assert_eq!(s.available(), 9);
    s.failure();
    assert_eq!(s.limit(), 5);
    assert_eq!(s.available(), 4);
    assert!(s.success());
    assert_eq!(s.limit(), 6);
    assert_eq!(s.available(), 5);
    s.failure();
    assert_eq!(s.limit(), 3);
    assert_eq!(s.available(), 2);
    assert!(s.try_acquire());
    assert!(s.try_acquire());
    assert_eq!(s.acquired(), 3);
    assert_eq!(s.available(), 0);
    assert!(!s.try_acquire());
    assert_eq!(s.acquired(), 3);
    assert!(s.release());
    assert_eq!(s.available(), 1);
}

#[test]
fn gate_available_saturates_after_shrink() {
    let mut s = State::new(control(config(1, 8, 1, 1, 4)));
    for _ in 0..6 {
        assert!(s.try_acquire());
    }
    s.failure();
    assert_eq!(s.limit(), 2);
    assert_eq!(s.acquired(), 6);
    assert_eq!(s.available(), 0);
    assert!(!s.try_acquire());
    assert!(!s.success());
    assert_eq!(s.limit(), 3);
    assert!(!s.release());
    assert!(!s.release());
    assert!(!s.release());
    assert_eq!(s.acquired(), 3);
    assert!(s.release());
    assert_eq!(s.available(), 1);
}

#[test]
fn gate_never_admits_beyond_limit() {
    let mut s = State::new(control(config(1, 5, 1, 1, 2)));
    let mut granted: u64 = 0;
    for _ in 0..12 {
        let limit = s.limit();
        if s.try_acquire() {
            granted += 1;
            assert!(s.acquired() <= limit);
        }
    }
    assert_eq!(granted, 5);
    assert_eq!(s.acquired(), 5);
}

#[test]
fn gate_count_returns_after_all_releases() {
    let mut s = State::new(control(config(1, 6, 1, 1, 2)));
    assert!(s.try_acquire());
    let before = s.acquired();
    let mut taken: u32 = 0;
    for round in 0..5u32 {
        if s.try_acquire() {
            taken += 1;
        }
        if round == 1 {
            s.failure();
        }
        if round == 3 {
            s.success();
        }
    }
    assert_eq!(taken, 3);
    for _ in 0..taken {
        s.release();
    }
    assert_eq!(s.acquired(), before);
}
