use led_rtic::images::{heart_image, rust_image};
use led_rtic::{timer1, FrameSlot};

#[test]
fn empty_slot_gives_nothing() {
    let mut slot = FrameSlot::new();
    assert!(timer1(&mut slot).is_none());
    assert_eq!(slot.frame.cells, [[0u8; 5]; 5]);
}

#[test]
fn published_frame_is_taken_once_and_whole() {
    let mut slot = FrameSlot::new();
    let f = heart_image(3);
    slot.show_frame(&f);
    let got = timer1(&mut slot).unwrap();
    assert_eq!(got.cells, f.cells);
    assert!(timer1(&mut slot).is_none());
    assert_eq!(slot.frame.cells, f.cells);
}

#[test]
fn latest_published_frame_wins() {
    let mut slot = FrameSlot::new();
    slot.show_frame(&heart_image(3));
    slot.show_frame(&rust_image());
    assert_eq!(timer1(&mut slot).unwrap().cells, rust_image().cells);
}
