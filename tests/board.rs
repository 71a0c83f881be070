use tetris::board::Board;
use tetris::bricks::{Brick, BrickView, Dot};
use tetris::consts::{BOARD_X, BOARD_Y, BOARD_Y_VALID};

fn fill_row(board: &mut Board, y: i8) {
    for x in 0..BOARD_X {
        board.occupy_dot(&Dot(x, y));
    }
}

fn occupied_count(board: &Board) -> usize {
    let mut n = 0;
    for x in 0..BOARD_X {
        for y in 0..BOARD_Y {
            if board.occupied_dot(&Dot(x, y)) {
                n += 1;
            }
        }
    }
    n
}

#[test]
fn new_board_is_empty() {
    let board = Board::default();
    assert_eq!(occupied_count(&board), 0);
}

#[test]
fn occupy_and_read_back() {
    let mut board = Board::default();
    board.occupy_dot(&Dot(3, 5));
    assert!(board.occupied_dot(&Dot(3, 5)));
    assert!(!board.occupied_dot(&Dot(5, 3)));
    assert_eq!(occupied_count(&board), 1);
}

#[test]
fn off_board_cells_read_empty_and_ignore_writes() {
    let mut board = Board::default();
    for d in [Dot(-1, 0), Dot(BOARD_X, 0), Dot(0, -1), Dot(0, BOARD_Y), Dot(-5, 30), Dot(127, 127)] {
        board.occupy_dot(&d);
        assert!(!board.occupied_dot(&d));
    }
    assert_eq!(occupied_count(&board), 0);
}

#[test]
fn column_past_the_edge_does_not_wrap_to_next_row() {
    let mut board = Board::default();
    board.occupy_dot(&Dot(0, 1));
    assert!(!board.occupied_dot(&Dot(BOARD_X, 0)));
    board.occupy_dot(&Dot(BOARD_X, 2));
    assert!(!board.occupied_dot(&Dot(0, 3)));
}

#[test]
fn clear_empties_every_cell() {
    let mut board = Board::default();
    fill_row(&mut board, 0);
    board.occupy_dot(&Dot(2, 23));
    board.clear();
    assert_eq!(occupied_count(&board), 0);
}

#[test]
fn can_clean_line_needs_a_full_row() {
    let mut board = Board::default();
    for x in 0..BOARD_X - 1 {
        board.occupy_dot(&Dot(x, 0));
    }
    assert!(!board.can_clean_line(0));
    board.occupy_dot(&Dot(BOARD_X - 1, 0));
    assert!(board.can_clean_line(0));
    assert!(!board.can_clean_line(1));
}

#[test]
fn get_clean_lines_lists_full_rows_top_down() {
    let mut board = Board::default();
    fill_row(&mut board, 0);
    fill_row(&mut board, 3);
    fill_row(&mut board, 19);
    assert_eq!(board.get_clean_lines(), vec![19, 3, 0]);
}

#[test]
fn full_row_above_playable_area_is_not_listed() {
    let mut board = Board::default();
    fill_row(&mut board, BOARD_Y_VALID);
    assert!(board.get_clean_lines().is_empty());
    assert_eq!(board.clean_lines(), 0);
    assert!(board.occupied_dot(&Dot(0, BOARD_Y_VALID)));
}

#[test]
fn clean_line_shifts_rows_above_down() {
    let mut board = Board::default();
    fill_row(&mut board, 2);
    board.occupy_dot(&Dot(1, 1));
    board.occupy_dot(&Dot(4, 3));
    board.occupy_dot(&Dot(7, 23));
    board.clean_line(2);
    assert!(board.occupied_dot(&Dot(1, 1)));
    assert!(board.occupied_dot(&Dot(4, 2)));
    assert!(!board.occupied_dot(&Dot(4, 3)));
    assert!(board.occupied_dot(&Dot(7, 22)));
    assert!(!board.occupied_dot(&Dot(7, 23)));
    assert_eq!(occupied_count(&board), 3);
}

#[test]
fn clean_lines_on_empty_board_is_a_no_op() {
    let mut board = Board::default();
    assert_eq!(board.clean_lines(), 0);
    assert_eq!(occupied_count(&board), 0);
}

#[test]
fn clean_lines_removes_contiguous_full_rows() {
    let mut board = Board::default();
    board.occupy_dot(&Dot(5, 0));
    fill_row(&mut board, 1);
    fill_row(&mut board, 2);
    fill_row(&mut board, 3);
    board.occupy_dot(&Dot(2, 4));
    board.occupy_dot(&Dot(8, 5));
    board.occupy_dot(&Dot(9, 23));
    assert_eq!(board.clean_lines(), 3);
    assert!(board.occupied_dot(&Dot(5, 0)));
    assert!(board.occupied_dot(&Dot(2, 1)));
    assert!(board.occupied_dot(&Dot(8, 2)));
    assert!(board.occupied_dot(&Dot(9, 20)));
    for y in 21..BOARD_Y {
        for x in 0..BOARD_X {
            assert!(!board.occupied_dot(&Dot(x, y)));
        }
    }
    assert_eq!(occupied_count(&board), 4);
}

#[test]
fn clean_lines_removes_separate_full_rows() {
    let mut board = Board::default();
    fill_row(&mut board, 0);
    board.occupy_dot(&Dot(3, 1));
    fill_row(&mut board, 2);
    board.occupy_dot(&Dot(6, 3));
    assert_eq!(board.clean_lines(), 2);
    assert!(board.occupied_dot(&Dot(3, 0)));
    assert!(board.occupied_dot(&Dot(6, 1)));
    assert_eq!(occupied_count(&board), 2);
}

#[test]
fn clean_lines_takes_four_rows_at_once() {
    let mut board = Board::default();
    for y in 0..4 {
        fill_row(&mut board, y);
    }
    assert_eq!(board.clean_lines(), 4);
    assert_eq!(occupied_count(&board), 0);
}

#[test]
fn piece_in_bounds_on_empty_board_is_valid() {
    let board = Board::default();
    for ty in 0..7 {
        let brick = Brick { ty, rotation: 0 };
        assert!(board.valid_brick(&brick, &Dot(4, 5)));
    }
}

#[test]
fn piece_on_occupied_cell_is_invalid() {
    let mut board = Board::default();
    board.occupy_dot(&Dot(5, 5));
    let square = Brick { ty: 1, rotation: 0 };
    assert!(!board.valid_brick(&square, &Dot(4, 4)));
    assert!(!board.valid_brick(&square, &Dot(5, 5)));
    assert!(board.valid_brick(&square, &Dot(6, 5)));
}

#[test]
fn piece_past_a_side_is_invalid() {
    let board = Board::default();
    let square = Brick { ty: 1, rotation: 0 };
    assert!(!board.valid_brick(&square, &Dot(-1, 5)));
    assert!(!board.valid_brick(&square, &Dot(BOARD_X - 1, 5)));
    assert!(board.valid_brick(&square, &Dot(0, 5)));
    assert!(board.valid_brick(&square, &Dot(BOARD_X - 2, 5)));
}

#[test]
fn piece_below_floor_is_invalid_but_any_height_is_allowed() {
    let board = Board::default();
    let square = Brick { ty: 1, rotation: 0 };
    assert!(!board.valid_brick(&square, &Dot(4, -1)));
    assert!(board.valid_brick(&square, &Dot(4, 0)));
    assert!(board.valid_brick(&square, &Dot(4, 60)));
}

#[test]
fn conflict_brick_sees_only_occupied_cells() {
    let mut board = Board::default();
    let view = BrickView { dots: [Dot(0, 0), Dot(1, 0), Dot(2, 0), Dot(3, 0)] };
    assert!(!board.conflict_brick(&view, &Dot(0, 0)));
    board.occupy_dot(&Dot(3, 0));
    assert!(board.conflict_brick(&view, &Dot(0, 0)));
    assert!(!board.conflict_brick(&view, &Dot(0, 1)));
    assert!(board.valid_brick_view(&view, &Dot(0, 1)));
    assert!(!board.valid_brick_view(&view, &Dot(0, 0)));
}

#[test]
fn occupy_brick_marks_its_four_cells() {
    let mut board = Board::default();
    let line = Brick { ty: 0, rotation: 0 };
    board.occupy_brick(&line, &Dot(1, 0));
    for x in 0..4 {
        assert!(board.occupied_dot(&Dot(x, 0)));
    }
    assert_eq!(occupied_count(&board), 4);
}

#[test]
fn occupy_brick_view_drops_cells_off_the_board() {
    let mut board = Board::default();
    let view = BrickView { dots: [Dot(-1, 0), Dot(0, 0), Dot(1, 0), Dot(2, 0)] };
    board.occupy_brick_view(&view, &Dot(0, 0));
    assert_eq!(occupied_count(&board), 3);
}

#[test]
fn occupied_dots_lists_exactly_the_occupied_cells() {
    let mut board = Board::default();
    assert!(board.occupied_dots().is_empty());
    board.occupy_dot(&Dot(7, 2));
    board.occupy_dot(&Dot(0, 23));
    board.occupy_dot(&Dot(0, 4));
    board.occupy_dot(&Dot(11, 4));
    assert_eq!(board.occupied_dots(), vec![Dot(0, 4), Dot(0, 23), Dot(7, 2)]);
}

#[test]
fn occupy_dot_chains() {
    let mut board = Board::default();
    board.occupy_dot(&Dot(1, 1)).occupy_dot(&Dot(2, 1)).occupy_dot(&Dot(-3, 1));
    assert_eq!(board.occupied_dots(), vec![Dot(1, 1), Dot(2, 1)]);
}
