use milk_and_cookies::board::{Board, BoardError, TileState};

fn tiles(s: &str) -> Vec<TileState> {
    s.chars()
        .map(|c| match c {
            'C' => TileState::Cookie,
            'M' => TileState::Milk,
            _ => TileState::Empty,
        })
        .collect()
}

#[test]
fn new_board_is_empty_and_in_progress() {
    let b = Board::new();
    for r in 0..4 {
        for c in 0..4 {
            assert_eq!(b.tile(r, c), TileState::Empty);
        }
    }
    assert!(b.get_winner().is_none());
}

#[test]
fn placement_fills_column_bottom_to_top() {
    let mut b = Board::new();
    assert!(matches!(b.place_item("cookie".to_string(), 1), Ok(None)));
    assert_eq!(b.tile(3, 0), TileState::Cookie);
    assert_eq!(b.tile(2, 0), TileState::Empty);
    assert!(matches!(b.place_item("cookie".to_string(), 1), Ok(None)));
    assert_eq!(b.tile(2, 0), TileState::Cookie);
    assert!(matches!(b.place_item("cookie".to_string(), 1), Ok(None)));
    assert_eq!(b.tile(1, 0), TileState::Cookie);
    // the fourth placement completes the column, which also wins the game
    let r = b.place_item("cookie".to_string(), 1);
    assert_eq!(r.unwrap(), Some("Cookie wins!\n".to_string()));
    assert_eq!(b.tile(0, 0), TileState::Cookie);
}

#[test]
fn full_column_is_rejected() {
    let mut b = Board::new();
    // alternate markers so the column fills without a win
    assert!(matches!(b.place_item("cookie".to_string(), 2), Ok(None)));
    assert!(matches!(b.place_item("milk".to_string(), 2), Ok(None)));
    assert!(matches!(b.place_item("cookie".to_string(), 2), Ok(None)));
    assert!(matches!(b.place_item("milk".to_string(), 2), Ok(None)));
    assert!(matches!(
        b.place_item("cookie".to_string(), 2),
        Err(BoardError::ColumnIsFull)
    ));
    // the rejected move changed nothing
    assert_eq!(b.tile(0, 1), TileState::Milk);
    assert!(b.get_winner().is_none());
}

#[test]
fn placement_after_win_is_rejected() {
    let mut b = Board::new();
    for _ in 0..3 {
        assert!(matches!(b.place_item("milk".to_string(), 4), Ok(None)));
    }
    let r = b.place_item("milk".to_string(), 4);
    assert_eq!(r.unwrap(), Some("Milk wins!\n".to_string()));
    assert!(matches!(
        b.place_item("cookie".to_string(), 1),
        Err(BoardError::GameIsOver)
    ));
}

#[test]
fn invalid_team_and_column_are_rejected() {
    let mut b = Board::new();
    assert!(matches!(
        b.place_item("dog".to_string(), 1),
        Err(BoardError::InvalidTeam)
    ));
    assert!(matches!(
        b.place_item("cookie".to_string(), 0),
        Err(BoardError::InvalidColumn)
    ));
    assert!(matches!(
        b.place_item("cookie".to_string(), 5),
        Err(BoardError::InvalidColumn)
    ));
    // team validity is checked before the column
    assert!(matches!(
        b.place_item("dog".to_string(), 0),
        Err(BoardError::InvalidTeam)
    ));
}

#[test]
fn error_statuses_distinguish_blocked_from_malformed() {
    assert_eq!(BoardError::ColumnIsFull.http_status(), 503);
    assert_eq!(BoardError::GameIsOver.http_status(), 503);
    assert_eq!(BoardError::InvalidTeam.http_status(), 400);
    assert_eq!(BoardError::InvalidColumn.http_status(), 400);
}

#[test]
fn row_beats_later_lines_in_scan_order() {
    // two winning rows of different markers: the top row is scanned first
    let b = Board::from_tiles(tiles("CCCCMMCMCCMMMMMM")).unwrap();
    assert_eq!(b.get_winner(), Some("Cookie wins!\n".to_string()));
}

#[test]
fn first_column_beats_second_in_scan_order() {
    // column 0 is all cookie and column 1 all milk; no row or diagonal wins
    let b = Board::from_tiles(tiles("CMCMCMCMCMMCCMMC")).unwrap();
    assert_eq!(b.get_winner(), Some("Cookie wins!\n".to_string()));
}

#[test]
fn diagonal_win_is_detected() {
    let b = Board::from_tiles(tiles("CMMMMC....C....C")).unwrap();
    assert_eq!(b.get_winner(), Some("Cookie wins!\n".to_string()));
}

#[test]
fn anti_diagonal_win_is_detected() {
    let b = Board::from_tiles(tiles("...M..M..M..M...")).unwrap();
    assert_eq!(b.get_winner(), Some("Milk wins!\n".to_string()));
}

#[test]
fn full_board_without_line_is_a_draw() {
    let b = Board::from_tiles(tiles("CCMMMMCCCCMMMMCC")).unwrap();
    assert_eq!(b.get_winner(), Some("No winner.\n".to_string()));
}

#[test]
fn wrong_tile_count_gives_no_board() {
    assert!(Board::from_tiles(tiles("CM")).is_none());
}

#[test]
fn reset_empties_the_board() {
    let mut b = Board::new();
    assert!(matches!(b.place_item("cookie".to_string(), 1), Ok(None)));
    assert!(matches!(b.place_item("milk".to_string(), 3), Ok(None)));
    b.reset();
    for r in 0..4 {
        for c in 0..4 {
            assert_eq!(b.tile(r, c), TileState::Empty);
        }
    }
    assert_eq!(b.render(), Board::new().render());
    assert!(matches!(b.place_item("milk".to_string(), 1), Ok(None)));
}

#[test]
fn empty_board_renders_exactly() {
    let b = Board::new();
    assert_eq!(b.render(), "#....#\n#....#\n#....#\n#....#\n######\n");
    // no terminal text while the game is in progress
    assert_eq!(b.show(), b.render());
}

#[test]
fn show_appends_terminal_text() {
    let b = Board::from_tiles(tiles("CCCCMMCMCCMMMMMM")).unwrap();
    assert_eq!(b.show(), format!("{}Cookie wins!\n", b.render()));
}

#[test]
fn show_twice_is_identical() {
    let mut b = Board::new();
    assert!(matches!(b.place_item("milk".to_string(), 2), Ok(None)));
    assert_eq!(b.show(), b.show());
    assert_eq!(b.render(), b.render());
}
