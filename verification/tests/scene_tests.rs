use mouse_scene::rational::Rat;
use mouse_scene::scene::{
    count_n_players, create_app, get_player_position, get_player_rotation, get_player_size, App,
    MouseButton, MouseMotion, MouseScrollUnit, MouseWheel, Vec2,
};

fn rat(n: i128) -> Rat {
    Rat::from_int(n)
}

fn motion(dx: i128, dy: i128) -> MouseMotion {
    MouseMotion { delta: Vec2 { x: rat(dx), y: rat(dy) } }
}

fn wheel(x: i128, y: i128) -> MouseWheel {
    MouseWheel { unit: MouseScrollUnit::Line, x: rat(x), y: rat(y) }
}

#[test]
fn test_empty_app_has_no_players() {
    let mut app = App::new();
    app.update();
    assert_eq!(count_n_players(&app), 0);
}

#[test]
fn test_can_create_app() {
    create_app();
}

#[test]
fn test_create_app_has_a_player() {
    let mut app = create_app();
    app.update();
    assert_eq!(count_n_players(&app), 1);
}

#[test]
fn test_player_is_at_origin() {
    let mut app = create_app();
    app.update();
    assert_eq!(get_player_position(&app), Vec2::new(rat(0), rat(0)));
}

#[test]
fn test_player_responds_to_mouse_move() {
    let mut app = create_app();
    app.update();
    assert_eq!(get_player_position(&app), Vec2::new(rat(0), rat(0)));

    // Move the mouse
    app.send_motion_event(motion(100, 100));

    app.update();
    assert_ne!(get_player_position(&app), Vec2::new(rat(0), rat(0)));
}

#[test]
fn test_player_is_not_rotated_at_start() {
    let mut app = create_app();
    app.update();
    assert_eq!(get_player_rotation(&app), rat(0));
}

#[test]
fn test_player_responds_to_left_mouse_button_press() {
    let mut app = create_app();
    app.update();
    assert_eq!(count_n_players(&app), 1);

    // Not moved yet
    assert_eq!(get_player_rotation(&app), rat(0));

    // Press the left mouse button
    app.press(MouseButton::Left);

    app.update();

    // Rotation must have changed now
    assert_ne!(get_player_rotation(&app), rat(0));
}

#[test]
fn test_player_responds_to_right_mouse_button_press() {
    let mut app = create_app();
    app.update();
    assert_eq!(count_n_players(&app), 1);

    // Not moved yet
    assert_eq!(get_player_rotation(&app), rat(0));

    // Press the right mouse button
    app.press(MouseButton::Right);

    app.update();

    // Rotation must have changed now
    assert_ne!(get_player_rotation(&app), rat(0));
}

#[test]
fn test_player_has_a_custom_size() {
    let mut app = create_app();
    app.update();
    assert_eq!(get_player_size(&app), Vec2::new(rat(64), rat(32)));
}

#[test]
fn test_player_responds_to_mouse_wheel_turn() {
    let mut app = create_app();
    app.update();

    // Not resized yet
    assert_eq!(get_player_size(&app), Vec2::new(rat(64), rat(32)));

    // Scroll the mouse
    app.send_wheel_event(wheel(10, 10));
    app.update();

    // Resized now
    assert_ne!(get_player_size(&app), Vec2::new(rat(64), rat(32)));
}

#[test]
fn test_left_button_rotation_is_exactly_a_tenth() {
    let mut app = create_app();
    app.update();
    app.press(MouseButton::Left);
    app.update();
    assert!(get_player_rotation(&app).eq_value(Rat::new(1, 10)));
}

#[test]
fn test_right_button_rotation_is_exactly_minus_a_tenth() {
    let mut app = create_app();
    app.update();
    app.press(MouseButton::Right);
    app.update();
    assert!(get_player_rotation(&app).eq_value(Rat::new(-1, 10)));
}

#[test]
fn test_held_button_keeps_rotating_every_frame() {
    let mut app = create_app();
    app.update();
    app.press(MouseButton::Left);
    app.update();
    app.update();
    assert!(get_player_rotation(&app).eq_value(Rat::new(2, 10)));
}

#[test]
fn test_released_button_stops_rotating() {
    let mut app = create_app();
    app.update();
    app.press(MouseButton::Left);
    app.update();
    app.release(MouseButton::Left);
    app.update();
    assert!(get_player_rotation(&app).eq_value(Rat::new(1, 10)));
}

#[test]
fn test_both_buttons_give_no_net_rotation() {
    let mut app = create_app();
    app.update();
    app.press(MouseButton::Left);
    app.press(MouseButton::Right);
    app.update();
    assert!(get_player_rotation(&app).eq_value(rat(0)));
}

#[test]
fn test_motion_delta_is_scaled_and_y_inverted() {
    let mut app = create_app();
    app.update();
    app.send_motion_event(motion(100, 100));
    app.update();
    let p = get_player_position(&app);
    assert!(p.x.eq_value(rat(5)));
    assert!(p.y.eq_value(rat(-5)));
}

#[test]
fn test_two_motion_events_in_one_frame_add_up() {
    let mut app = create_app();
    app.update();
    app.send_motion_event(motion(20, 40));
    app.send_motion_event(motion(60, -20));
    app.update();
    let p = get_player_position(&app);
    // (20 + 60) / 20 = 4; -(40 - 20) / 20 = -1
    assert!(p.x.eq_value(rat(4)));
    assert!(p.y.eq_value(rat(-1)));
}

#[test]
fn test_motion_event_order_does_not_change_the_position() {
    let a = motion(35, -10);
    let b = motion(-15, 90);

    let mut app_ab = create_app();
    app_ab.update();
    app_ab.send_motion_event(a);
    app_ab.send_motion_event(b);
    app_ab.update();

    let mut app_ba = create_app();
    app_ba.update();
    app_ba.send_motion_event(b);
    app_ba.send_motion_event(a);
    app_ba.update();

    let p_ab = get_player_position(&app_ab);
    let p_ba = get_player_position(&app_ba);
    assert!(p_ab.x.eq_value(p_ba.x));
    assert!(p_ab.y.eq_value(p_ba.y));
}

#[test]
fn test_wheel_turn_triples_the_size() {
    let mut app = create_app();
    app.update();
    // factor = 1 + (10 + 10) / 10 = 3
    app.send_wheel_event(wheel(10, 10));
    app.update();
    let s = get_player_size(&app);
    assert!(s.x.eq_value(rat(192)));
    assert!(s.y.eq_value(rat(96)));
}

#[test]
fn test_wheel_events_compound_in_one_frame() {
    let mut app = create_app();
    app.update();
    // Each event doubles the size: 1 + (10 + 0) / 10 = 2.
    app.send_wheel_event(wheel(10, 0));
    app.send_wheel_event(wheel(10, 0));
    app.update();
    let s = get_player_size(&app);
    assert!(s.x.eq_value(rat(256)));
    assert!(s.y.eq_value(rat(128)));
}

#[test]
fn test_wheel_turn_can_drive_the_size_negative() {
    let mut app = create_app();
    app.update();
    // factor = 1 + (-10 - 10) / 10 = -1: the size is not clamped.
    app.send_wheel_event(wheel(-10, -10));
    app.update();
    let s = get_player_size(&app);
    assert!(s.x.eq_value(rat(-64)));
    assert!(s.y.eq_value(rat(-32)));
}

#[test]
fn test_frame_without_input_leaves_the_transform_unchanged() {
    let mut app = create_app();
    app.update();
    let p = get_player_position(&app);
    let r = get_player_rotation(&app);
    let s = get_player_size(&app);
    app.update();
    assert_eq!(get_player_position(&app), p);
    assert_eq!(get_player_rotation(&app), r);
    assert_eq!(get_player_size(&app), s);
}

#[test]
fn test_no_player_before_first_update() {
    let app = create_app();
    assert_eq!(count_n_players(&app), 0);
}
