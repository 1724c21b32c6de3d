use spacecan::timer::Timer;

#[test]
fn test_timer_execution() {
    let mut timer = Timer::new(50);
    timer.start();

    let mut executed = false;
    if timer.poll(50) {
        executed = true;
    }

    assert!(executed);
}

#[test]
fn test_timer_stop() {
    let mut timer = Timer::new(50);
    timer.start();

    let mut executed: u32 = 0;
    if timer.poll(60) {
        executed += 1;
    }
    if timer.poll(120) {
        executed += 1;
    }
    timer.stop();
    let count_after_stop = executed;
    if timer.poll(220) {
        executed += 1;
    }

    assert_eq!(executed, count_after_stop);
}

#[test]
fn test_timer_period_respected() {
    let mut timer = Timer::new(100);
    timer.start();
    // First poll fires and records the time.
    assert!(timer.poll(10));
    assert_eq!(timer.last_execution_time(), Some(10));
    // A poll within the period does not fire.
    assert!(!timer.poll(109));
    // A poll one full period later fires.
    assert!(timer.poll(110));
    assert!(timer.is_running());
}

#[test]
fn test_timer_stop_idempotent() {
    let mut timer = Timer::new(10);
    timer.start();
    timer.stop();
    timer.stop();
    assert!(!timer.is_running());
    assert!(!timer.poll(100));
}
