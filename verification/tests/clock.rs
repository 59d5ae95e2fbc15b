use nrf_esb::clock;

#[test]
fn it_works() {
    let result = clock::add(2, 2);
    assert_eq!(result, 4);
}

#[test]
fn microseconds_round_up_to_ticks() {
    assert_eq!(clock::from_micros(0), 0);
    assert_eq!(clock::from_micros(1), 1);
    assert_eq!(clock::from_micros(600), 20);
    assert_eq!(clock::from_micros(1_000_000), 32_768);
    assert_eq!(clock::from_micros(1_000_001), 32_769);
}

#[test]
fn the_clock_runs_at_the_rate_of_the_rtc() {
    assert_eq!(embassy_time::TICK_HZ, 32_768);
}

#[test]
fn instants_add_up_to_the_end_of_time() {
    assert_eq!(clock::add(u64::MAX - 20, 20), u64::MAX);
    assert_eq!(clock::add(7, 0), 7);
}
