use mandelbrot_explorer::escape::EscapeCounter;
use mandelbrot_explorer::frame::FrameGate;

fn count_of(escapes: &[bool], max_iter: u32) -> u32 {
    let mut counter = EscapeCounter::new(max_iter);
    let mut k: usize = 0;
    while counter.advance(escapes[k]) {
        k += 1;
    }
    counter.count()
}

#[test]
fn bounded_orbit_reaches_the_cap() {
    assert_eq!(count_of(&[false; 11], 10), 10);
}

#[test]
fn escape_at_first_step_counts_one() {
    assert_eq!(count_of(&[false, true], 1000), 1);
}

#[test]
fn escape_at_third_step_counts_three() {
    assert_eq!(count_of(&[false, false, false, true], 1000), 3);
}

#[test]
fn zero_cap_counts_nothing() {
    assert_eq!(count_of(&[false], 0), 0);
}

#[test]
fn escape_at_the_cap_still_gives_the_cap() {
    assert_eq!(count_of(&[false, false, false, true], 3), 3);
}

#[test]
fn frame_gate_waits_past_the_interval() {
    let mut gate = FrameGate::new(100, 16);
    assert!(!gate.poll(100));
    assert!(!gate.poll(116));
    assert!(gate.poll(117));
    assert!(!gate.poll(130));
    assert!(gate.poll(134));
}

#[test]
fn frame_gate_ignores_an_earlier_reading() {
    let mut gate = FrameGate::new(1000, 16);
    assert!(!gate.poll(10));
    assert!(gate.poll(1017));
}
