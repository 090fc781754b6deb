use rusty_engine::camera::Camera;
use rusty_engine::camera::SCROLL_STEP;

#[test]
fn new_camera_starts_at_world_top_left() {
    let cam = Camera::new(300, 300, 640, 640);
    assert_eq!(cam.get_x(), 150);
    assert_eq!(cam.get_y(), 150);
    assert_eq!(cam.get_left(), 0);
    assert_eq!(cam.get_right(), 300);
    assert_eq!(cam.get_top(), 0);
    assert_eq!(cam.get_bottom(), 300);
}

#[test]
fn new_camera_centers_on_a_world_smaller_than_the_viewport() {
    let cam = Camera::new(768, 1024, 640, 640);
    assert_eq!(cam.get_x(), 320);
    assert_eq!(cam.get_y(), 320);
    assert_eq!(cam.get_left(), 320 - 512);
    assert_eq!(cam.get_right(), 320 + 512);
}

#[test]
fn move_right_steps_and_updates_edges() {
    let mut cam = Camera::new(300, 300, 640, 640);
    cam.move_right();
    assert_eq!(cam.get_x(), 150 + SCROLL_STEP);
    assert_eq!(cam.get_left(), SCROLL_STEP);
    assert_eq!(cam.get_right(), 300 + SCROLL_STEP);
    assert_eq!(cam.get_top(), 0);
}

#[test]
fn move_left_at_the_low_bound_is_idempotent() {
    let mut cam = Camera::new(300, 300, 640, 640);
    assert_eq!(cam.get_left(), 0);
    cam.move_left();
    assert_eq!(cam.get_x(), 150);
    assert_eq!(cam.get_left(), 0);
    cam.move_left();
    cam.move_left();
    assert_eq!(cam.get_x(), 150);
    assert_eq!(cam.get_left(), 0);
}

#[test]
fn move_right_clamps_at_the_high_bound() {
    let mut cam = Camera::new(300, 300, 640, 640);
    for _ in 0..100 {
        cam.move_right();
    }
    assert_eq!(cam.get_right(), 640);
    assert_eq!(cam.get_x(), 640 - 150);
    cam.move_right();
    assert_eq!(cam.get_right(), 640);
}

#[test]
fn move_down_then_up_returns_to_the_top_edge() {
    let mut cam = Camera::new(300, 300, 640, 640);
    cam.move_down();
    assert_eq!(cam.get_top(), SCROLL_STEP);
    cam.move_up();
    assert_eq!(cam.get_top(), 0);
    cam.move_up();
    assert_eq!(cam.get_top(), 0);
}

#[test]
fn moves_keep_the_viewport_inside_the_world() {
    let mut cam = Camera::new(300, 300, 640, 640);
    for step in 0..200 {
        match step % 4 {
            0 => cam.move_right(),
            1 => cam.move_down(),
            2 => cam.move_right(),
            _ => cam.move_up(),
        }
        assert!(cam.get_left() >= 0);
        assert!(cam.get_right() <= 640);
        assert!(cam.get_top() >= 0);
        assert!(cam.get_bottom() <= 640);
    }
}

#[test]
fn small_world_camera_stays_centered_under_moves() {
    let mut cam = Camera::new(768, 1024, 640, 640);
    cam.move_left();
    cam.move_up();
    cam.move_right();
    assert_eq!(cam.get_x(), 320);
    assert_eq!(cam.get_y(), 320);
}
