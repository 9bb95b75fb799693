use lib::apu::timer::Timer;

#[test]
fn timer_test() {
    let count = 512;
    let mut timer = Timer::new(count);
    let mut counter = 0;

    for _ in 0..(count / 4) - 1 {
        counter += 1;
        assert!(timer.cycle() == false);
    }

    counter += 1;
    assert!(timer.cycle() == true);
    assert!(counter == 512 / 4)
}

#[test]
fn timer_with_zero_period_never_ticks_and_update_restarts() {
    let mut timer = Timer::new(3);
    for _ in 0..10 {
        assert!(!timer.cycle());
    }
    timer.update_cycles_to_tick(8);
    assert!(!timer.cycle());
    assert!(timer.cycle());
    assert!(!timer.cycle());
    assert!(timer.cycle());
}
