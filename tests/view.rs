use life::{frame_delay, next_tick, Action, Game, Input, TickAction, ViewError, Viewport};

#[test]
fn new_view_is_centred() {
    let v = Viewport::new(1000, 1000, 500, 500).unwrap();
    assert_eq!(v.cell_size(), 5);
    assert_eq!(v.columns(), 100);
    assert_eq!(v.rows(), 100);
    assert_eq!(v.x_offset(), 450);
    assert_eq!(v.y_offset(), 450);
    assert!(!v.shows_grid_lines());
}

#[test]
fn new_view_rejects_window_that_cannot_show_grid() {
    assert_eq!(Viewport::new(1000, 1000, 19, 500).err(), Some(ViewError::WindowTooSmall));
    assert_eq!(Viewport::new(1000, 1000, 500, 10).err(), Some(ViewError::WindowTooSmall));
    assert_eq!(Viewport::new(99, 1000, 500, 500).err(), Some(ViewError::WindowTooWide));
    assert_eq!(Viewport::new(1000, 99, 500, 500).err(), Some(ViewError::WindowTooTall));
    assert_eq!(Viewport::new(0, 0, 500, 500).err(), Some(ViewError::WindowTooWide));
    assert!(Viewport::new(100, 100, 500, 500).is_ok());
}

#[test]
fn zoom_keeps_centre() {
    let mut v = Viewport::new(1000, 1000, 500, 500).unwrap();
    v.zoom_in();
    assert_eq!(v.cell_size(), 6);
    assert_eq!(v.x_offset(), 459);
    assert_eq!(v.y_offset(), 459);
    assert!(!v.shows_grid_lines());
    v.zoom_in();
    assert!(v.shows_grid_lines());
}

#[test]
fn zoom_in_then_out_restores_view() {
    let mut v = Viewport::new(1000, 1000, 500, 500).unwrap();
    for _ in 0..7 {
        v.zoom_in();
    }
    assert_eq!(v.cell_size(), 12);
    for _ in 0..7 {
        v.zoom_out();
    }
    assert_eq!(v.cell_size(), 5);
    assert_eq!(v.x_offset(), 450);
    assert_eq!(v.y_offset(), 450);
}

#[test]
fn zoom_stays_within_bounds() {
    let mut v = Viewport::new(1000, 1000, 500, 500).unwrap();
    for _ in 0..30 {
        v.zoom_in();
    }
    assert_eq!(v.cell_size(), 20);
    for _ in 0..30 {
        v.zoom_out();
    }
    assert_eq!(v.cell_size(), 1);
    assert_eq!(v.columns(), 500);
    assert!(v.x_offset() + v.columns() <= 1000);
    assert!(v.y_offset() + v.rows() <= 1000);
}

#[test]
fn zoom_out_refused_when_window_would_exceed_grid() {
    let mut v = Viewport::new(120, 120, 500, 500).unwrap();
    v.zoom_out();
    assert_eq!(v.cell_size(), 5);
    assert_eq!(v.x_offset(), 10);
}

#[test]
fn zoom_in_near_edge_stays_in_grid() {
    let mut v = Viewport::new(100, 100, 500, 500).unwrap();
    assert_eq!(v.x_offset(), 0);
    v.zoom_in();
    assert_eq!(v.cell_size(), 6);
    assert_eq!(v.x_offset(), 9);
    assert_eq!(v.columns(), 83);
    assert!(v.x_offset() + v.columns() <= 100);
}

#[test]
fn pan_is_clamped_to_grid() {
    let mut v = Viewport::new(110, 110, 500, 500).unwrap();
    assert_eq!(v.x_offset(), 5);
    v.pan_right();
    assert_eq!(v.x_offset(), 7);
    v.pan_right();
    assert_eq!(v.x_offset(), 9);
    v.pan_right();
    assert_eq!(v.x_offset(), 10);
    v.pan_right();
    assert_eq!(v.x_offset(), 10);
    for _ in 0..10 {
        v.pan_left();
    }
    assert_eq!(v.x_offset(), 0);
    v.pan_down();
    v.pan_down();
    v.pan_down();
    assert_eq!(v.y_offset(), 10);
    v.pan_up();
    assert_eq!(v.y_offset(), 8);
    for _ in 0..10 {
        v.pan_up();
    }
    assert_eq!(v.y_offset(), 0);
}

#[test]
fn any_inputs_keep_view_in_grid() {
    let mut v = Viewport::new(130, 150, 500, 600).unwrap();
    let inputs = [
        Input::ZoomOut,
        Input::PanRight,
        Input::ZoomIn,
        Input::PanDown,
        Input::PanDown,
        Input::ZoomOut,
        Input::PanLeft,
        Input::ZoomIn,
        Input::ZoomIn,
        Input::PanRight,
        Input::PanRight,
        Input::ZoomOut,
        Input::PanUp,
        Input::ZoomOut,
        Input::ZoomOut,
    ];
    for _ in 0..20 {
        for &i in &inputs {
            v.handle(i);
            assert!(v.x_offset() + v.columns() <= 130);
            assert!(v.y_offset() + v.rows() <= 150);
            assert!((1..=20).contains(&v.cell_size()));
        }
    }
}

#[test]
fn pixel_maps_to_cell() {
    let v = Viewport::new(1000, 1000, 500, 500).unwrap();
    assert_eq!(v.cell_at_pixel(12, 7), Some((451, 452)));
    assert_eq!(v.cell_at_pixel(0, 0), Some((450, 450)));
    assert_eq!(v.cell_at_pixel(499, 499), Some((549, 549)));
}

#[test]
fn pixel_outside_grid_maps_to_nothing() {
    let v = Viewport::new(110, 110, 500, 500).unwrap();
    assert_eq!(v.cell_at_pixel(600, 0), None);
    assert_eq!(v.cell_at_pixel(0, 600), None);
    assert_eq!(v.cell_at_pixel(524, 0), Some((5, 109)));
}

#[test]
fn inputs_give_actions() {
    let mut v = Viewport::new(1000, 1000, 500, 500).unwrap();
    assert_eq!(v.handle(Input::Quit), Action::Quit);
    assert_eq!(v.handle(Input::TogglePause), Action::TogglePause);
    assert_eq!(v.handle(Input::Click { x: 12, y: 7 }), Action::ToggleCell { row: 451, col: 452 });
    assert_eq!(v.handle(Input::PanLeft), Action::Nothing);
    assert_eq!(v.x_offset(), 448);
    assert_eq!(v.handle(Input::PanUp), Action::Nothing);
    assert_eq!(v.y_offset(), 448);
    assert_eq!(v.handle(Input::ZoomIn), Action::Nothing);
    assert_eq!(v.cell_size(), 6);
}

#[test]
fn click_toggles_cell_twice_restores() {
    let mut v = Viewport::new(110, 110, 500, 500).unwrap();
    let mut g = Game::dead(110, 110, 500, 500);
    g.toggle(7, 10);
    for expect_alive in [true, false] {
        match v.handle(Input::Click { x: 23, y: 11 }) {
            Action::ToggleCell { row, col } => {
                assert_eq!((row, col), (7, 9));
                g.toggle(row, col);
            }
            other => panic!("unexpected {:?}", other),
        }
        assert_eq!(g.is_alive(7, 9), expect_alive);
        assert!(g.is_alive(7, 10));
        assert!(!g.is_alive(6, 9));
    }
}

#[test]
fn visible_cells_follow_offset() {
    let v = Viewport::new(110, 110, 500, 500).unwrap();
    let mut g = Game::dead(110, 110, 500, 500);
    g.toggle(5, 5);
    g.toggle(6, 7);
    g.toggle(4, 4);
    let cells = v.visible_cells(&g);
    assert_eq!(cells.len(), 100);
    assert!(cells.iter().all(|r| r.len() == 100));
    assert!(cells[0][0]);
    assert!(cells[1][2]);
    let live: usize = cells.iter().map(|r| r.iter().filter(|&&b| b).count()).sum();
    assert_eq!(live, 2);
}

#[test]
fn quit_stops_ticks_whatever_running_says() {
    assert_eq!(next_tick(true, true), TickAction::Stop);
    assert_eq!(next_tick(true, false), TickAction::Stop);
    assert_eq!(next_tick(false, true), TickAction::Advance);
    assert_eq!(next_tick(false, false), TickAction::Wait);
}

#[test]
fn no_mutation_after_quit() {
    let mut g = Game::dead(5, 5, 100, 100);
    g.toggle(2, 1);
    g.toggle(2, 2);
    g.toggle(2, 3);
    let mut quit = false;
    let mut generations = 0;
    for tick in 0..10 {
        if tick == 3 {
            quit = true;
        }
        match next_tick(quit, true) {
            TickAction::Stop => break,
            TickAction::Advance => {
                g.update();
                generations += 1;
            }
            TickAction::Wait => {}
        }
    }
    assert_eq!(generations, 3);
    assert!(g.is_alive(1, 2));
    assert!(!g.is_alive(2, 1));
}

#[test]
fn frame_delay_never_negative() {
    assert_eq!(frame_delay(4000, 16666), 12666);
    assert_eq!(frame_delay(0, 16666), 16666);
    assert_eq!(frame_delay(16666, 16666), 0);
    assert_eq!(frame_delay(40000, 16666), 0);
}

#[test]
fn zoom_round_trip_at_grid_corner_is_exact() {
    let mut v = Viewport::new(137, 100, 500, 500).unwrap();
    for _ in 0..20 {
        v.pan_right();
    }
    assert_eq!(v.x_offset(), 37);
    assert_eq!(v.y_offset(), 0);
    for steps in 1..=15 {
        for _ in 0..steps {
            v.zoom_in();
        }
        assert!(v.x_offset() + v.columns() <= 137);
        for _ in 0..steps {
            v.zoom_out();
        }
        assert_eq!((v.cell_size(), v.x_offset(), v.y_offset()), (5, 37, 0));
    }
}
