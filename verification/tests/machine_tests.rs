use life_sandbox::{InputEvent, MenuTab, Mode, Session, GRID_HEIGHT, GRID_WIDTH};

/// Open the menu, select the Run tab, confirm, and close the menu.
fn start_running(s: &mut Session) {
    s.handle_input(InputEvent::ToggleMenu);
    s.handle_input(InputEvent::Right);
    s.handle_input(InputEvent::Confirm);
    s.handle_input(InputEvent::ToggleMenu);
}

#[test]
fn initial_state() {
    let s = Session::new();
    assert_eq!(s.cursor_x(), 40);
    assert_eq!(s.cursor_y(), 25);
    assert_eq!(s.mode(), Mode::Editing);
    assert_eq!(s.menu(), None);
    let g = s.grid();
    assert_eq!(g.width(), GRID_WIDTH);
    assert_eq!(g.height(), GRID_HEIGHT);
    for x in 0..GRID_WIDTH {
        for y in 0..GRID_HEIGHT {
            assert!(!g.is_live(x, y));
        }
    }
}

#[test]
fn cursor_moves_and_clamps_in_edit_mode() {
    let mut s = Session::new();
    s.handle_input(InputEvent::Up);
    assert_eq!(s.cursor_y(), 24);
    s.handle_input(InputEvent::Left);
    assert_eq!(s.cursor_x(), 39);
    for _ in 0..100 {
        s.handle_input(InputEvent::Up);
        s.handle_input(InputEvent::Left);
    }
    assert_eq!(s.cursor_x(), 1);
    assert_eq!(s.cursor_y(), 1);
    for _ in 0..200 {
        s.handle_input(InputEvent::Down);
        s.handle_input(InputEvent::Right);
    }
    assert_eq!(s.cursor_x(), GRID_WIDTH - 2);
    assert_eq!(s.cursor_y(), GRID_HEIGHT - 2);
}

#[test]
fn confirm_toggles_cell_under_cursor() {
    let mut s = Session::new();
    assert!(!s.grid().is_live(40, 25));
    let quit = s.handle_input(InputEvent::Confirm);
    assert!(!quit);
    assert!(s.grid().is_live(40, 25));
    s.handle_input(InputEvent::Confirm);
    assert!(!s.grid().is_live(40, 25));
}

#[test]
fn menu_navigation_clamps_at_both_ends() {
    let mut s = Session::new();
    s.handle_input(InputEvent::ToggleMenu);
    assert_eq!(s.menu(), Some(MenuTab::Edit));
    for _ in 0..5 {
        s.handle_input(InputEvent::Left);
        assert_eq!(s.menu(), Some(MenuTab::Edit));
    }
    s.handle_input(InputEvent::Right);
    assert_eq!(s.menu(), Some(MenuTab::Run));
    s.handle_input(InputEvent::Right);
    assert_eq!(s.menu(), Some(MenuTab::Clear));
    s.handle_input(InputEvent::Right);
    assert_eq!(s.menu(), Some(MenuTab::Quit));
    for _ in 0..5 {
        s.handle_input(InputEvent::Right);
        assert_eq!(s.menu(), Some(MenuTab::Quit));
    }
}

#[test]
fn toggle_menu_flips_between_closed_and_leftmost() {
    let mut s = Session::new();
    s.handle_input(InputEvent::ToggleMenu);
    s.handle_input(InputEvent::Right);
    assert_eq!(s.menu(), Some(MenuTab::Run));
    s.handle_input(InputEvent::ToggleMenu);
    assert_eq!(s.menu(), None);
    s.handle_input(InputEvent::ToggleMenu);
    assert_eq!(s.menu(), Some(MenuTab::Edit));
    assert_eq!(s.mode(), Mode::Editing);
}

#[test]
fn menu_open_suspends_cursor_movement() {
    let mut s = Session::new();
    s.handle_input(InputEvent::ToggleMenu);
    s.handle_input(InputEvent::Up);
    s.handle_input(InputEvent::Down);
    assert_eq!(s.cursor_y(), 25);
    s.handle_input(InputEvent::Left);
    assert_eq!(s.cursor_x(), 40);
    assert_eq!(s.menu(), Some(MenuTab::Edit));
}

#[test]
fn running_ignores_directional_input() {
    let mut s = Session::new();
    s.handle_input(InputEvent::Confirm);
    start_running(&mut s);
    assert_eq!(s.mode(), Mode::Running);
    assert_eq!(s.menu(), None);
    for ev in [InputEvent::Up, InputEvent::Down, InputEvent::Left, InputEvent::Right] {
        s.handle_input(ev);
        assert_eq!(s.cursor_x(), 40);
        assert_eq!(s.cursor_y(), 25);
        assert!(s.grid().is_live(40, 25));
    }
}

#[test]
fn clear_while_running_returns_to_editing() {
    let mut s = Session::new();
    s.handle_input(InputEvent::Confirm);
    start_running(&mut s);
    s.handle_input(InputEvent::ToggleMenu);
    s.handle_input(InputEvent::Right);
    s.handle_input(InputEvent::Right);
    assert_eq!(s.menu(), Some(MenuTab::Clear));
    let quit = s.handle_input(InputEvent::Confirm);
    assert!(!quit);
    assert_eq!(s.mode(), Mode::Editing);
    assert_eq!(s.menu(), None);
    let g = s.grid();
    for x in 0..GRID_WIDTH {
        for y in 0..GRID_HEIGHT {
            assert!(!g.is_live(x, y));
        }
    }
}

#[test]
fn clear_while_editing_keeps_menu_open() {
    let mut s = Session::new();
    s.handle_input(InputEvent::Confirm);
    s.handle_input(InputEvent::ToggleMenu);
    s.handle_input(InputEvent::Right);
    s.handle_input(InputEvent::Right);
    s.handle_input(InputEvent::Confirm);
    assert_eq!(s.mode(), Mode::Editing);
    assert_eq!(s.menu(), Some(MenuTab::Clear));
    assert!(!s.grid().is_live(40, 25));
}

#[test]
fn confirm_edit_tab_closes_menu_and_edits() {
    let mut s = Session::new();
    start_running(&mut s);
    assert_eq!(s.mode(), Mode::Running);
    s.handle_input(InputEvent::ToggleMenu);
    let quit = s.handle_input(InputEvent::Confirm);
    assert!(!quit);
    assert_eq!(s.mode(), Mode::Editing);
    assert_eq!(s.menu(), None);
}

#[test]
fn quit_and_cancel_end_the_session() {
    let mut s = Session::new();
    assert!(s.handle_input(InputEvent::Cancel));

    let mut s2 = Session::new();
    s2.handle_input(InputEvent::ToggleMenu);
    s2.handle_input(InputEvent::Right);
    s2.handle_input(InputEvent::Right);
    s2.handle_input(InputEvent::Right);
    assert_eq!(s2.menu(), Some(MenuTab::Quit));
    assert!(s2.handle_input(InputEvent::Confirm));

    let mut s3 = Session::new();
    assert!(!s3.handle_input(InputEvent::Confirm));
}
