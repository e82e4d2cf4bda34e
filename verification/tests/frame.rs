use nes_core::{Color, SharedFrameState, TV_HEIGHT, TV_PIXELS, TV_WIDTH};

const BLACK: Color = Color { r: 0, g: 0, b: 0 };
const RED: Color = Color { r: 0xF8, g: 0x38, b: 0x00 };
const BLUE: Color = Color { r: 0x00, g: 0x00, b: 0xFC };

#[test]
fn display_is_256_by_240() {
    assert_eq!(TV_WIDTH, 256);
    assert_eq!(TV_HEIGHT, 240);
    assert_eq!(TV_PIXELS, 256 * 240);
}

#[test]
fn new_frame_is_blank() {
    let state = SharedFrameState::new();
    let image = state.read_image();
    assert_eq!(image.len(), TV_PIXELS);
    assert!(image.iter().all(|pixel| *pixel == BLACK));
    assert_eq!(state.controller(), 0);
}

#[test]
fn pixel_is_stored_row_by_row() {
    let mut state = SharedFrameState::new();
    assert!(state.set_pixel(3, 2, RED));
    let image = state.read_image();
    assert_eq!(image[2 * 256 + 3], RED);
    assert_eq!(image.iter().filter(|pixel| **pixel != BLACK).count(), 1);
    assert_eq!(state.pixel(3, 2), Some(RED));
    assert_eq!(state.pixel(2, 3), Some(BLACK));
}

#[test]
fn corners_are_on_the_display() {
    let mut state = SharedFrameState::new();
    assert!(state.set_pixel(0, 0, RED));
    assert!(state.set_pixel(255, 239, BLUE));
    let image = state.read_image();
    assert_eq!(image[0], RED);
    assert_eq!(image[TV_PIXELS - 1], BLUE);
}

#[test]
fn pixel_outside_the_display_is_refused() {
    let mut state = SharedFrameState::new();
    assert!(!state.set_pixel(256, 0, RED));
    assert!(!state.set_pixel(0, 240, RED));
    assert!(!state.set_pixel(u32::MAX, u32::MAX, RED));
    assert_eq!(state.pixel(256, 0), None);
    assert_eq!(state.pixel(0, 240), None);
    assert!(state.read_image().iter().all(|pixel| *pixel == BLACK));
}

#[test]
fn whole_image_is_replaced_at_once() {
    let mut state = SharedFrameState::new();
    state.set_pixel(1, 1, RED);
    let mut frame = vec![BLUE; TV_PIXELS];
    frame[TV_PIXELS - 1] = RED;
    assert!(state.write_image(&frame));
    assert_eq!(state.read_image(), frame);
    assert_eq!(state.pixel(1, 1), Some(BLUE));
    assert_eq!(state.pixel(255, 239), Some(RED));
}

#[test]
fn image_of_another_size_is_refused() {
    let mut state = SharedFrameState::new();
    state.set_pixel(0, 0, RED);
    assert!(!state.write_image(&vec![BLUE; TV_PIXELS - 1]));
    assert!(!state.write_image(&vec![BLUE; TV_PIXELS + 1]));
    assert!(!state.write_image(&Vec::new()));
    assert_eq!(state.pixel(0, 0), Some(RED));
    assert_eq!(state.pixel(1, 0), Some(BLACK));
}

#[test]
fn copy_of_the_image_is_independent() {
    let mut state = SharedFrameState::new();
    let before = state.read_image();
    state.set_pixel(0, 0, RED);
    assert_eq!(before[0], BLACK);
    assert_eq!(state.read_image()[0], RED);
}

#[test]
fn controller_state_is_the_one_stored_last() {
    let mut state = SharedFrameState::new();
    state.set_controller(0b1000_0001);
    assert_eq!(state.controller(), 0b1000_0001);
    state.set_controller(0);
    assert_eq!(state.controller(), 0);
}

#[test]
fn controller_and_image_do_not_touch_each_other() {
    let mut state = SharedFrameState::new();
    state.set_controller(0x5A);
    state.set_pixel(10, 10, BLUE);
    assert_eq!(state.controller(), 0x5A);
    state.set_controller(0xA5);
    assert_eq!(state.pixel(10, 10), Some(BLUE));
    assert!(state.write_image(&vec![RED; TV_PIXELS]));
    assert_eq!(state.controller(), 0xA5);
}

#[test]
fn color_is_copied_by_value() {
    let color = Color { r: 1, g: 2, b: 3 };
    let copy = color;
    assert_eq!(color, copy);
    assert_eq!((copy.r, copy.g, copy.b), (1, 2, 3));
}
