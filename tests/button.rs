use led_rtic::Button;

#[test]
fn first_sample_gives_no_edge() {
    let mut b = Button::new();
    assert!(!b.check_rising_edge(true));
    let mut b = Button::new();
    assert!(!b.check_rising_edge(false));
}

#[test]
fn edge_fires_on_release_only() {
    let mut b = Button::new();
    assert!(!b.check_rising_edge(true));
    assert!(!b.check_rising_edge(true));
    assert!(b.check_rising_edge(false));
    assert!(!b.check_rising_edge(false));
    assert!(!b.check_rising_edge(true));
    assert!(b.check_rising_edge(false));
}

#[test]
fn edge_keeps_one_sample() {
    let mut b = Button::new();
    b.check_rising_edge(true);
    assert!(b.was_pressed);
    b.check_rising_edge(false);
    assert!(!b.was_pressed);
}
