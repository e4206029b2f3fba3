use player_motion::climbing::{show_hold as show_hold_marker, HOLD_MARKER_HEIGHT};
use player_motion::holds::{
    hold_key, show_hold, HoldKey, HoldsVisibility, ShowHolds, WallHold, HOLD_KEY_FRAMES,
};
use player_motion::player::{Player, PlayerState};
use player_motion::units::Vector;
use player_motion::world::{
    level_tiles, tile_index, tile_position, Tile, LEVEL_TRAINING, SHEET_COLUMNS, SHEET_STYLE,
    TILE_SCALED, TILE_SCALER, TILE_SIZE, WORLD_BOTTOM, WORLD_HEIGHT, WORLD_LEFT, WORLD_RIGHT,
    WORLD_TOP, WORLD_WIDTH,
};

#[test]
fn world_measures() {
    assert_eq!(TILE_SCALED, TILE_SIZE * TILE_SCALER * 1_000);
    assert_eq!(WORLD_HEIGHT, 600_000);
    assert_eq!(WORLD_TOP, WORLD_HEIGHT / 2);
    assert_eq!(WORLD_BOTTOM, -WORLD_TOP);
    assert_eq!(WORLD_WIDTH, WORLD_HEIGHT * 1_618 / 1_000);
    assert_eq!(WORLD_RIGHT, WORLD_WIDTH / 2);
    assert_eq!(WORLD_LEFT, -WORLD_RIGHT);
    assert_eq!((SHEET_COLUMNS, SHEET_STYLE), (4, 3));
}

#[test]
fn letters_stand_for_tiles() {
    assert_eq!(tile_index(b'B'), Some(12));
    assert_eq!(tile_index(b'R'), Some(13));
    assert_eq!(tile_index(b'G'), Some(14));
    assert_eq!(tile_index(b'D'), Some(15));
    assert_eq!(tile_index(b'b'), Some(16));
    assert_eq!(tile_index(b'r'), Some(17));
    assert_eq!(tile_index(b'g'), Some(18));
    assert_eq!(tile_index(b'd'), Some(19));
}

#[test]
fn other_bytes_are_empty_space() {
    for byte in 0..=255u8 {
        if !b"BRGDbrgd".contains(&byte) {
            assert_eq!(tile_index(byte), None);
        }
    }
}

#[test]
fn empty_level_has_no_tiles() {
    assert!(level_tiles(b"").is_empty());
    assert!(level_tiles(b"\n\n..\n").is_empty());
}

#[test]
fn tiles_carry_column_and_row() {
    let tiles = level_tiles(b"\nB.R\n.g\n\nd");
    assert_eq!(
        tiles,
        vec![
            Tile { index: 12, column: 0, row: 1 },
            Tile { index: 13, column: 2, row: 1 },
            Tile { index: 18, column: 1, row: 2 },
            Tile { index: 19, column: 0, row: 4 },
        ]
    );
}

#[test]
fn columns_count_characters_not_bytes() {
    let level = "\u{e9}\u{2192}B\r\nxR";
    let tiles = level_tiles(level.as_bytes());
    assert_eq!(
        tiles,
        vec![Tile { index: 12, column: 2, row: 0 }, Tile { index: 13, column: 1, row: 1 }]
    );
    let mut expected = Vec::new();
    for (y, line) in level.lines().enumerate() {
        for (x, c) in line.chars().enumerate() {
            if c == 'B' {
                expected.push(Tile { index: 12, column: x as u32, row: y as u32 });
            } else if c == 'R' {
                expected.push(Tile { index: 13, column: x as u32, row: y as u32 });
            }
        }
    }
    assert_eq!(tiles, expected);
}

#[test]
fn training_level_is_a_walled_room() {
    let tiles = level_tiles(LEVEL_TRAINING.as_bytes());
    let floor: Vec<&Tile> = tiles.iter().filter(|t| t.index == 15).collect();
    let roof: Vec<&Tile> = tiles.iter().filter(|t| t.index == 12).collect();
    let walls: Vec<&Tile> = tiles.iter().filter(|t| t.index == 14).collect();
    let ledges: Vec<&Tile> = tiles.iter().filter(|t| t.index == 13).collect();
    assert_eq!(roof.len(), 32);
    assert!(roof.iter().all(|t| t.row == 1));
    assert_eq!(floor.len(), 32);
    assert!(floor.iter().all(|t| t.row == 17));
    assert_eq!(walls.len(), 30);
    assert!(walls.iter().all(|t| t.column == 0 || t.column == 31));
    assert_eq!(ledges.len(), 4 + 7 + 1 + 1 + 5 + 1 + 2 + 5);
    assert_eq!(tiles.len(), 32 + 32 + 30 + 26);
    assert_eq!(tiles[0], Tile { index: 12, column: 0, row: 1 });
    assert_eq!(tiles[32], Tile { index: 14, column: 0, row: 2 });
}

#[test]
fn training_level_matches_lines_and_chars() {
    let tiles = level_tiles(LEVEL_TRAINING.as_bytes());
    let mut expected = Vec::new();
    for (y, line) in LEVEL_TRAINING.lines().enumerate() {
        for (x, c) in line.chars().enumerate() {
            if c.is_ascii() {
                if let Some(index) = tile_index(c as u8) {
                    expected.push(Tile { index, column: x as u32, row: y as u32 });
                }
            }
        }
    }
    assert_eq!(tiles, expected);
}

#[test]
fn tiles_are_placed_from_the_top_left() {
    assert_eq!(tile_position(&Tile { index: 12, column: 0, row: 0 }), (-485_400, 300_000));
    assert_eq!(tile_position(&Tile { index: 12, column: 3, row: 2 }), (-389_400, 236_000));
    assert_eq!(
        tile_position(&Tile { index: 12, column: u32::MAX, row: u32::MAX }),
        (-485_400 + 4_294_967_295 * 32_000, 300_000 - 4_294_967_295 * 32_000)
    );
}

#[test]
fn draws_map_to_keys() {
    assert_eq!(hold_key(0), HoldKey::A);
    assert_eq!(hold_key(1), HoldKey::S);
    assert_eq!(hold_key(2), HoldKey::D);
    assert_eq!(hold_key(3), HoldKey::W);
    assert_eq!(hold_key(4), HoldKey::W);
    assert_eq!(hold_key(u32::MAX), HoldKey::W);
}

#[test]
fn hold_marker_floats_above_a_climbing_player() {
    let mut p = Player::new();
    assert_eq!(show_hold_marker(&p), None);
    p.state = PlayerState::Climbing;
    assert_eq!(show_hold_marker(&p), Some(Vector { x: 0, y: 48_000 }));
    assert_eq!(HOLD_MARKER_HEIGHT, 48_000);
    p.state = PlayerState::OnWall;
    assert_eq!(show_hold_marker(&p), None);
}

#[test]
fn holds_show_their_key_or_their_wall() {
    assert_eq!(HOLD_KEY_FRAMES, 6 * 4);
    let hold = WallHold { key: HoldKey::D, wall_index: 13 };
    let mut index = 13;
    show_hold(&[], &hold, &mut index);
    assert_eq!(index, 13);
    show_hold(&[ShowHolds(HoldsVisibility::Visible)], &hold, &mut index);
    assert_eq!(index, 26);
    show_hold(&[], &hold, &mut index);
    assert_eq!(index, 26);
    show_hold(&[ShowHolds(HoldsVisibility::Hidden)], &hold, &mut index);
    assert_eq!(index, 13);
    for (key, frame) in [(HoldKey::A, 24), (HoldKey::S, 25), (HoldKey::D, 26), (HoldKey::W, 27)] {
        let mut index = 0;
        show_hold(&[ShowHolds::default(), ShowHolds(HoldsVisibility::Visible)], &WallHold { key, wall_index: 14 }, &mut index);
        assert_eq!(index, frame);
    }
}

#[test]
fn last_request_decides() {
    let hold = WallHold { key: HoldKey::S, wall_index: 17 };
    let mut index = 0;
    show_hold(
        &[ShowHolds(HoldsVisibility::Visible), ShowHolds(HoldsVisibility::Hidden)],
        &hold,
        &mut index,
    );
    assert_eq!(index, 17);
}
