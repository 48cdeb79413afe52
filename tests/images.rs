use led_rtic::images::{author_image, heart_image, rust_image};
use led_rtic::Images;

#[test]
fn heart_uses_inner_brightness() {
    let f = heart_image(4);
    assert_eq!(
        f.cells,
        [
            [0, 7, 0, 7, 0],
            [7, 4, 7, 4, 7],
            [7, 4, 4, 4, 7],
            [0, 7, 4, 7, 0],
            [0, 0, 7, 0, 0],
        ]
    );
}

#[test]
fn rust_logo_is_static() {
    let f = rust_image();
    assert_eq!(
        f.cells,
        [
            [0, 7, 7, 0, 0],
            [0, 7, 0, 7, 0],
            [0, 7, 7, 0, 0],
            [0, 7, 0, 7, 0],
            [0, 7, 0, 7, 0],
        ]
    );
}

const AUTHOR_OFFSET_0: [[u8; 5]; 5] = [
    [0, 0, 7, 0, 0],
    [0, 7, 0, 7, 0],
    [0, 7, 7, 7, 0],
    [0, 7, 0, 7, 0],
    [0, 7, 0, 7, 0],
];

#[test]
fn author_slide_starts_unscrolled() {
    assert_eq!(author_image(0).cells, AUTHOR_OFFSET_0);
    assert_eq!(author_image(2).cells, AUTHOR_OFFSET_0);
}

#[test]
fn author_slide_scrolls_every_three_steps() {
    assert_eq!(
        author_image(3).cells,
        [
            [0, 7, 0, 0, 7],
            [7, 0, 7, 0, 7],
            [7, 7, 7, 0, 7],
            [7, 0, 7, 0, 7],
            [7, 0, 7, 0, 7],
        ]
    );
}

#[test]
fn author_slide_wraps_around_the_bitmap() {
    let last = [
        [7, 0, 0, 7, 0],
        [7, 0, 7, 0, 7],
        [7, 0, 7, 7, 7],
        [7, 0, 7, 0, 7],
        [7, 0, 7, 0, 7],
    ];
    assert_eq!(author_image(21).cells, last);
    assert_eq!(author_image(23).cells, last);
    assert_eq!(author_image(24).cells, AUTHOR_OFFSET_0);
}

#[test]
fn images_cycle_in_order() {
    assert_eq!(Images::Heart.toggle(), Images::Rust);
    assert_eq!(Images::Rust.toggle(), Images::Author);
    assert_eq!(Images::Author.toggle(), Images::Heart);
    let mut image = Images::Rust;
    for _ in 0..7 {
        image = image.toggle();
    }
    assert_eq!(image, Images::Author);
}
