use trap_core::drivers::clint::{rearm, MTIME, MTIMECMP, TICK};
use trap_core::mmio::Store;

#[test]
fn timer_register_map() {
    assert_eq!(MTIMECMP, 0x0200_4000);
    assert_eq!(MTIME, 0x0200_bff8);
    assert_eq!(TICK, 10_000_000);
}

#[test]
fn rearm_is_one_tick_after_now() {
    assert_eq!(rearm(1000), Store::Double { addr: 0x0200_4000, value: 10_001_000 });
    assert_eq!(rearm(0), Store::Double { addr: 0x0200_4000, value: 10_000_000 });
    assert_eq!(
        rearm(123_456_789_012),
        Store::Double { addr: 0x0200_4000, value: 123_466_789_012 }
    );
}

#[test]
fn rearm_at_the_last_counter_value_that_has_a_next_tick() {
    assert_eq!(
        rearm(u64::MAX - 10_000_000),
        Store::Double { addr: 0x0200_4000, value: u64::MAX }
    );
}
