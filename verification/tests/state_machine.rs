use frameloop::color::{Channel, Rgba, UnitFrac};
use frameloop::frame::{InputEvent, LoopAction, Shape, Size, State};

fn fresh() -> State {
    State::new(Size { width: 800, height: 600 })
}

#[test]
fn initial_state_matches_startup_values() {
    let s = fresh();
    assert_eq!(s.hue, 0);
    assert_eq!(s.sat, UnitFrac { num: 1, den: 2 });
    assert_eq!(s.val, UnitFrac { num: 1, den: 2 });
    assert_eq!(s.toggle, Shape::Pentagon);
    assert_eq!(s.size, Size { width: 800, height: 600 });
    let outside = Rgba {
        r: Channel { num: 3, den: 10 },
        g: Channel { num: 2, den: 10 },
        b: Channel { num: 1, den: 10 },
        a: Channel { num: 1, den: 1 },
    };
    assert_eq!(s.clear_color, outside);
}

#[test]
fn hue_increments_and_wraps() {
    let mut s = fresh();
    s.update();
    assert_eq!(s.hue, 1);
    s.hue = 359;
    s.update();
    assert_eq!(s.hue, 0);
    for _ in 0..720 {
        s.update();
        assert!(s.hue < 360);
    }
}

#[test]
fn toggle_flips_once_per_event() {
    let mut s = fresh();
    let pass_on = s.input(&InputEvent::ToggleReleased);
    assert!(!pass_on);
    assert_eq!(s.toggle, Shape::Star);
    let pass_on = s.input(&InputEvent::ToggleReleased);
    assert!(!pass_on);
    assert_eq!(s.toggle, Shape::Pentagon);
}

#[test]
fn double_toggle_restores_whole_state() {
    let mut s = fresh();
    let before = s;
    s.input(&InputEvent::ToggleReleased);
    s.input(&InputEvent::ToggleReleased);
    assert_eq!(s, before);
}

#[test]
fn pointer_enter_and_leave_set_fixed_colors() {
    let mut s = fresh();
    // Animation state must not influence the override colors.
    s.input(&InputEvent::CursorMoved { x: 123, y: 456 });
    s.update();
    let pass_on = s.input(&InputEvent::CursorEntered);
    assert!(!pass_on);
    let inside = Rgba {
        r: Channel { num: 1, den: 10 },
        g: Channel { num: 2, den: 10 },
        b: Channel { num: 3, den: 10 },
        a: Channel { num: 1, den: 1 },
    };
    assert_eq!(s.clear_color, inside);
    let pass_on = s.input(&InputEvent::CursorLeft);
    assert!(!pass_on);
    let outside = Rgba {
        r: Channel { num: 3, den: 10 },
        g: Channel { num: 2, den: 10 },
        b: Channel { num: 1, den: 10 },
        a: Channel { num: 1, den: 1 },
    };
    assert_eq!(s.clear_color, outside);
}

#[test]
fn pointer_move_maps_position_to_sat_and_val() {
    let mut s = fresh();
    let pass_on = s.input(&InputEvent::CursorMoved { x: 200, y: 150 });
    assert!(pass_on);
    assert_eq!(s.sat, UnitFrac { num: 200, den: 800 });
    assert_eq!(s.val, UnitFrac { num: 150, den: 600 });
}

#[test]
fn pointer_move_clamps_outside_the_window() {
    let mut s = fresh();
    s.input(&InputEvent::CursorMoved { x: -50, y: 1000 });
    assert_eq!(s.sat, UnitFrac { num: 0, den: 800 });
    assert_eq!(s.val, UnitFrac { num: 600, den: 600 });
}

#[test]
fn other_events_leave_state_alone_and_pass_on() {
    let mut s = fresh();
    let before = s;
    assert!(s.input(&InputEvent::Other));
    assert!(s.input(&InputEvent::CloseRequested));
    assert!(s.input(&InputEvent::QuitPressed));
    assert_eq!(s, before);
}

#[test]
fn close_and_quit_exit_the_loop() {
    let mut s = fresh();
    assert_eq!(s.handle_window_event(&InputEvent::CloseRequested), LoopAction::Exit);
    assert_eq!(s.handle_window_event(&InputEvent::QuitPressed), LoopAction::Exit);
    assert_eq!(s.handle_window_event(&InputEvent::Other), LoopAction::Continue);
    assert_eq!(s.handle_window_event(&InputEvent::ToggleReleased), LoopAction::Continue);
}

#[test]
fn resize_updates_size_and_empty_resize_is_ignored() {
    let mut s = fresh();
    let action = s.handle_window_event(&InputEvent::Resized { width: 1024, height: 768 });
    assert_eq!(action, LoopAction::Continue);
    assert_eq!(s.size, Size { width: 1024, height: 768 });
    s.handle_window_event(&InputEvent::Resized { width: 0, height: 768 });
    assert_eq!(s.size, Size { width: 1024, height: 768 });
}

#[test]
fn end_to_end_toggle_then_two_moves() {
    let mut s = fresh();
    assert_eq!(s.toggle, Shape::Pentagon);
    assert_eq!(s.sat, UnitFrac { num: 1, den: 2 });
    assert_eq!(s.val, UnitFrac { num: 1, den: 2 });

    s.handle_window_event(&InputEvent::ToggleReleased);
    assert_eq!(s.toggle, Shape::Star);

    s.handle_window_event(&InputEvent::CursorMoved { x: 0, y: 0 });
    assert_eq!(s.sat, UnitFrac { num: 0, den: 800 });
    assert_eq!(s.val, UnitFrac { num: 0, den: 600 });

    s.handle_window_event(&InputEvent::CursorMoved { x: 800, y: 600 });
    assert_eq!(s.sat, UnitFrac { num: 800, den: 800 });
    assert_eq!(s.val, UnitFrac { num: 600, den: 600 });

    let plan = s.render_plan();
    assert_eq!(plan.shape, Shape::Star);
    assert_eq!(plan.index_count, 24);
}

#[test]
fn render_plan_converts_current_animation_state() {
    let mut s = fresh();
    s.hue = 90;
    s.sat = UnitFrac { num: 1, den: 2 };
    s.val = UnitFrac { num: 1, den: 1 };
    let plan = s.render_plan();
    assert_eq!(plan.shape, Shape::Pentagon);
    assert_eq!(plan.index_count, 9);
    assert_eq!(plan.clear.r, Channel { num: 90, den: 120 });
    assert_eq!(plan.clear.g, Channel { num: 120, den: 120 });
    assert_eq!(plan.clear.b, Channel { num: 60, den: 120 });
    assert_eq!(plan.clear.a, Channel { num: 1, den: 1 });
}
