use tetris::bricks::{rotation_count, Brick, BrickView, Dot};
use tetris::consts::BRICKS_TYPES;
use tetris::rules::{get_level, get_score};

#[test]
fn score_at_level_zero() {
    assert_eq!(get_score(0, 1), 40);
    assert_eq!(get_score(0, 2), 100);
    assert_eq!(get_score(0, 3), 300);
    assert_eq!(get_score(0, 4), 1200);
}

#[test]
fn score_scales_with_level() {
    for level in [1u32, 5, 42, 99] {
        for n in 1..=4 {
            assert_eq!(get_score(level, n), get_score(0, n) * (level + 1));
        }
    }
    assert_eq!(get_score(9, 4), 12000);
}

#[test]
fn level_from_lines() {
    assert_eq!(get_level(0), 0);
    assert_eq!(get_level(9), 0);
    assert_eq!(get_level(10), 1);
    assert_eq!(get_level(19), 1);
    assert_eq!(get_level(999), 99);
    assert_eq!(get_level(1000), 99);
    assert_eq!(get_level(u32::MAX), 99);
    for n in 0..2000u32 {
        assert_eq!(get_level(n), (n / 10).min(99));
    }
}

#[test]
fn rotating_four_state_piece_four_times_returns_to_start() {
    for ty in 0..BRICKS_TYPES {
        if rotation_count(ty) == 4 {
            let b = Brick { ty, rotation: 0 };
            let r = b.rotate().rotate().rotate().rotate();
            assert_eq!(r, b);
            assert_eq!(b.rotate().rotation, 1);
        }
    }
}

#[test]
fn rotating_single_state_piece_changes_nothing() {
    let square = Brick { ty: 1, rotation: 0 };
    assert_eq!(rotation_count(1), 1);
    assert_eq!(square.rotate(), square);
}

#[test]
fn rotating_two_state_piece_alternates() {
    let line = Brick { ty: 0, rotation: 0 };
    assert_eq!(line.rotate().rotation, 1);
    assert_eq!(line.rotate().rotate(), line);
}

#[test]
fn catalog_shapes_have_distinct_cells() {
    for ty in 0..BRICKS_TYPES {
        for rotation in 0..rotation_count(ty) {
            let v = BrickView::from(Brick { ty, rotation });
            for i in 0..4 {
                for j in (i + 1)..4 {
                    assert!(v.dots[i] != v.dots[j]);
                }
            }
        }
    }
}

#[test]
fn random_piece_is_in_catalog() {
    for _ in 0..200 {
        let b = Brick::rand();
        assert!(b.ty < BRICKS_TYPES);
        assert_eq!(b.rotation, 0);
    }
}

#[test]
fn dot_moves() {
    let d = Dot(3, 4);
    assert_eq!(d.left(), Dot(2, 4));
    assert_eq!(d.right(), Dot(4, 4));
    assert_eq!(d.down(), Dot(3, 3));
    assert_eq!(Dot(1, -1).with_original_dot(&d), Dot(4, 3));
    let mut m = d;
    m.move_left();
    assert_eq!(m, Dot(2, 4));
    m.move_right();
    m.move_right();
    assert_eq!(m, Dot(4, 4));
    m.move_down();
    assert_eq!(m, Dot(4, 3));
}
