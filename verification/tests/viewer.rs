use tileview::control::{clamp_offset, ControlState, Key};
use tileview::dialog::Dialog;
use tileview::frame::{compose_frame, dialog_region, Region, DIALOG_HEIGHT};
use tileview::input_handler::InputHandler;
use tileview::level::Level;
use tileview::tile::{Tile, TileColor, TileStyle};

/// A 4x4 level of the sixteen distinct symbols 0..f, row-major.
fn hex_level() -> Level {
    let symbols: Vec<char> = "0123456789abcdef".chars().collect();
    let tiles: Vec<Tile> = symbols.iter().map(|c| Tile::new(*c, None)).collect();
    Level::new(tiles, 4, 4)
}

fn symbols_of(tiles: &[Tile]) -> String {
    tiles.iter().map(|t| t.symbol).collect()
}

#[test]
fn window_scenario_2x2_at_1_1() {
    let level = hex_level();
    let w = level.window(1, 1, 2, 2);
    assert_eq!(symbols_of(&w), "569a");
}

#[test]
fn window_full_grid_is_identity() {
    let level = hex_level();
    let w = level.window(0, 0, 4, 4);
    assert_eq!(symbols_of(&w), "0123456789abcdef");
}

#[test]
fn window_single_row_and_column() {
    let level = hex_level();
    assert_eq!(symbols_of(&level.window(0, 2, 4, 1)), "89ab");
    assert_eq!(symbols_of(&level.window(3, 0, 1, 4)), "37bf");
    assert_eq!(symbols_of(&level.window(2, 3, 2, 1)), "ef");
}

#[test]
fn window_preserves_styles() {
    let red = TileStyle { fg: TileColor::Red };
    let tiles = vec![
        Tile::new('x', Some(red)),
        Tile::new('y', None),
        Tile::new('z', None),
        Tile::new('q', Some(red)),
    ];
    let level = Level::new(tiles, 2, 2);
    let w = level.window(0, 0, 2, 2);
    assert_eq!(w[0].style, red);
    assert_eq!(w[1].style, TileStyle { fg: TileColor::White });
    assert_eq!(w[3].style, red);
}

#[test]
fn clamp_in_range_is_noop() {
    assert_eq!(clamp_offset(0, 10, 2), 0);
    assert_eq!(clamp_offset(3, 10, 2), 3);
    assert_eq!(clamp_offset(8, 10, 2), 8);
}

#[test]
fn clamp_out_of_range_snaps_to_nearest_edge() {
    assert_eq!(clamp_offset(-1, 10, 2), 0);
    assert_eq!(clamp_offset(-100, 10, 2), 0);
    assert_eq!(clamp_offset(9, 10, 2), 8);
    assert_eq!(clamp_offset(1000, 10, 2), 8);
}

#[test]
fn clamp_is_a_fixed_point() {
    for off in [-7i64, 0, 5, 8, 9, 50] {
        let once = clamp_offset(off, 10, 2);
        assert_eq!(clamp_offset(once, 10, 2), once);
    }
}

#[test]
fn clamp_degenerate_range() {
    // A viewport exactly as wide as the level admits only offset 0.
    assert_eq!(clamp_offset(5, 4, 4), 0);
    assert_eq!(clamp_offset(-5, 4, 4), 0);
}

#[test]
fn fresh_state_is_running_at_origin() {
    let s = ControlState::new();
    assert!(s.running);
    assert!(!s.dialog_visible);
    assert_eq!(s.x_offset, 0);
    assert_eq!(s.y_offset, 0);
}

#[test]
fn enter_toggles_dialog_visibility() {
    let h = InputHandler::new();
    let mut s = ControlState::new();
    h.handle_key(&mut s, Key::Enter, 200, 100, 80, 24);
    assert!(s.dialog_visible);
    assert!(s.running);
    h.handle_key(&mut s, Key::Enter, 200, 100, 80, 24);
    assert!(!s.dialog_visible);
    assert_eq!(s, ControlState::new());
}

#[test]
fn right_then_left_is_net_zero() {
    let h = InputHandler::new();
    let mut s = ControlState::new();
    h.handle_key(&mut s, Key::Char('d'), 200, 100, 80, 24);
    assert_eq!(s.x_offset, 1);
    h.handle_key(&mut s, Key::Char('a'), 200, 100, 80, 24);
    assert_eq!(s.x_offset, 0);
}

#[test]
fn movement_never_goes_negative() {
    let h = InputHandler::new();
    let mut s = ControlState::new();
    h.handle_key(&mut s, Key::Char('a'), 200, 100, 80, 24);
    assert_eq!(s.x_offset, 0);
    h.handle_key(&mut s, Key::Char('w'), 200, 100, 80, 24);
    assert_eq!(s.y_offset, 0);
}

#[test]
fn movement_clamps_at_far_edge() {
    let h = InputHandler::new();
    let mut s = ControlState::new();
    // Level 4 wide, viewport 2 wide: offsets stop at 2.
    for _ in 0..5 {
        h.handle_key(&mut s, Key::Char('d'), 4, 4, 2, 2);
    }
    assert_eq!(s.x_offset, 2);
    // Level 4 tall, viewport 4 tall: vertical scrolling is pinned at 0.
    h.handle_key(&mut s, Key::Char('s'), 4, 4, 2, 4);
    assert_eq!(s.y_offset, 0);
}

#[test]
fn escape_stops_and_nothing_restarts() {
    let h = InputHandler::new();
    let mut s = ControlState::new();
    h.handle_key(&mut s, Key::Escape, 200, 100, 80, 24);
    assert!(!s.running);
    for key in [Key::Enter, Key::Char('d'), Key::Char('w'), Key::Other, Key::Escape] {
        h.handle_key(&mut s, key, 200, 100, 80, 24);
        assert!(!s.running);
    }
}

#[test]
fn unrecognized_keys_change_nothing() {
    let h = InputHandler::new();
    let mut s = ControlState::new();
    h.handle_key(&mut s, Key::Char('x'), 200, 100, 80, 24);
    h.handle_key(&mut s, Key::Other, 200, 100, 80, 24);
    assert_eq!(s, ControlState::new());
}

#[test]
fn tile_default_style_is_white_foreground() {
    let t = Tile::new('k', None);
    assert_eq!(t.symbol, 'k');
    assert_eq!(t.style, TileStyle { fg: TileColor::White });
    assert_eq!(t.style, TileStyle::default());
}

#[test]
fn tile_keeps_given_style() {
    let style = TileStyle { fg: TileColor::Green };
    let t = Tile::new('g', Some(style));
    assert_eq!(t.symbol, 'g');
    assert_eq!(t.style, style);
}

#[test]
fn dialog_starts_with_age_zero() {
    let d = Dialog::new(String::from("Hi, there yea 0:0"));
    assert_eq!(d.contents, "Hi, there yea 0:0");
    assert_eq!(d.age_milliseconds, 0);
}

#[test]
fn level_reports_its_shape() {
    let level = hex_level();
    assert_eq!(level.get_width(), 4);
    assert_eq!(level.get_height(), 4);
    assert_eq!(level.get_tiles().len(), 16);
    assert_eq!(level.get_tiles()[5].symbol, '5');
}

#[test]
fn dialog_region_is_bottom_strip() {
    let r = dialog_region(80, 24);
    assert_eq!(
        r,
        Region { x: 0, y: 20, width: 80, height: DIALOG_HEIGHT }
    );
    let r = dialog_region(10, 4);
    assert_eq!(r, Region { x: 0, y: 0, width: 10, height: 4 });
}

#[test]
fn compose_frame_windows_and_overlays() {
    let level = hex_level();
    let d = Dialog::new(String::from("hello"));
    let f = compose_frame(&level, 1, 1, 2, 2, Some(d));
    assert_eq!(f.width, 2);
    assert_eq!(f.height, 2);
    assert_eq!(symbols_of(&f.tiles), "569a");
    // A 2-row viewport cannot hold the 4-row dialog strip.
    assert!(f.overlay.is_none());

    let d = Dialog::new(String::from("hello"));
    let f = compose_frame(&level, 0, 0, 4, 4, Some(d));
    let (dialog, region) = f.overlay.expect("dialog fits a 4-row viewport");
    assert_eq!(dialog.contents, "hello");
    assert_eq!(region, Region { x: 0, y: 0, width: 4, height: 4 });
}

#[test]
fn compose_frame_without_dialog_has_no_overlay() {
    let level = hex_level();
    let f = compose_frame(&level, 0, 0, 4, 4, None);
    assert!(f.overlay.is_none());
    assert_eq!(symbols_of(&f.tiles), "0123456789abcdef");
}

#[test]
fn compose_frame_clamps_wild_offsets() {
    let level = hex_level();
    // (-3, 100) clamps to (0, 2): the bottom-left 2x2 block.
    let f = compose_frame(&level, -3, 100, 2, 2, None);
    assert_eq!(symbols_of(&f.tiles), "89cd");
}
