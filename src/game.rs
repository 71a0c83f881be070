use crate::board::{after_clear, cleared_from, empty_cells, occupy_shape, shape_valid, Board};
use crate::bricks::{lemma_catalog_offsets, Brick, Dot};
use crate::consts::{BOARD_X, BOARD_X_Y, BRICK_START_X, BRICK_START_Y, MAX_LEVEL, SCORE_PER_DROP};
use crate::rules::{get_level, get_score, lemma_level_monotonic, level_for, score_for};
use vstd::prelude::*;

verus! {

/// Whether a game is running or over.
#[derive(Copy, Clone, Debug, PartialEq, Eq, Structural)]
pub enum GameState {
    Playing,
    GameOver,
}

/// What a score update did, so that the caller can adjust its timers.
#[derive(Copy, Clone, Debug, PartialEq, Eq, Structural)]
pub struct ScoreUpdate {
    /// The level changed, so the fall interval must follow.
    pub level_changed: bool,
    /// A new piece appeared at the start position.
    pub spawned: bool,
}

/// Whether a sideways move is due this step: at once on a fresh press, and
/// for a held key only when the repeat timer has gone off.
pub fn sideways_move_due(just_pressed: bool, repeat_ticked: bool) -> (r: bool)
    ensures
        r == (just_pressed || repeat_ticked),
{
    just_pressed || repeat_ticked
}

/// Where a new piece's origin is placed.
pub open spec fn start_dot() -> Dot {
    Dot(BRICK_START_X, BRICK_START_Y)
}

/// Where the origin of a piece in play can be: a valid placement keeps it
/// within these bounds, and it never climbs above the start row.
pub open spec fn pos_in_range(p: Dot) -> bool {
    -2 <= p.0 <= BOARD_X && -2 <= p.1 <= BRICK_START_Y
}

/// A valid placement of a catalog piece puts its origin within range,
/// provided it is not above the start row.
pub proof fn lemma_valid_pos_in_range(s: Seq<bool>, b: Brick, p: Dot)
    requires
        b.wf(),
        shape_valid(s, b.shape(), p),
        p.1 <= BRICK_START_Y,
    ensures
        pos_in_range(p),
{
    lemma_catalog_offsets(b.ty, b.rotation, 0);
    assert(crate::board::dot_in_board(
        crate::board::placed_x(b.shape(), p, 0),
        crate::board::placed_y(b.shape(), p, 0),
    ));
}

/// The state of one game: the board, the piece in play and the next one,
/// and the counters.
pub struct GameData {
    pub board: Board,
    pub moving_brick: Brick,
    pub moving_pos: Dot,
    pub next_brick: Brick,
    /// The piece in play has landed and its cells are on the board.
    pub freeze: bool,
    /// Rows removed by the last landing, not yet scored.
    pub deleted_lines: u32,
    pub score: u32,
    pub lines: u32,
    pub level: u32,
    pub state: GameState,
}

impl Default for GameData {
    /// A new game with two random pieces.
    fn default() -> (r: Self)
        ensures
            r.wf(),
            r.is_fresh(r.moving_brick, r.next_brick),
            r.moving_brick.rotation == 0,
            r.next_brick.rotation == 0,
    {
        let moving = Brick::rand();
        let next = Brick::rand();
        GameData::new(moving, next)
    }
}

impl GameData {
    /// The pieces are from the catalog, the origin is in range, and the
    /// level follows from the lines cleared.
    pub open spec fn wf(&self) -> bool {
        &&& self.board.wf()
        &&& self.moving_brick.wf()
        &&& self.next_brick.wf()
        &&& pos_in_range(self.moving_pos)
        &&& self.level == level_for(self.lines as int)
    }

    /// Whether the piece in play may stand at `pos`.
    pub open spec fn fits_at(&self, pos: Dot) -> bool {
        shape_valid(self.board@, self.moving_brick.shape(), pos)
    }

    /// This game at its start, with `moving` in play and `next` to follow.
    pub open spec fn is_fresh(&self, moving: Brick, next: Brick) -> bool {
        &&& self.board@ == empty_cells(BOARD_X_Y as int)
        &&& self.moving_brick == moving
        &&& self.next_brick == next
        &&& self.moving_pos == start_dot()
        &&& !self.freeze
        &&& self.deleted_lines == 0
        &&& self.score == 0
        &&& self.lines == 0
        &&& self.level == 0
        &&& self.state == GameState::Playing
    }

    /// This game with the piece in play at `pos`.
    pub open spec fn moved_to(&self, pos: Dot) -> GameData {
        GameData { moving_pos: pos, ..*self }
    }

    /// A new game with `moving_brick` in play and `next_brick` to follow.
    pub fn new(moving_brick: Brick, next_brick: Brick) -> (r: Self)
        requires
            moving_brick.wf(),
            next_brick.wf(),
        ensures
            r.wf(),
            r.is_fresh(moving_brick, next_brick),
    {
        GameData {
            board: Board::default(),
            moving_brick,
            moving_pos: Dot(BRICK_START_X, BRICK_START_Y),
            next_brick,
            freeze: false,
            deleted_lines: 0,
            score: 0,
            lines: 0,
            level: 0,
            state: GameState::Playing,
        }
    }

    /// Starts this game over with `moving_brick` in play and `next_brick` to
    /// follow.
    pub fn restart(&mut self, moving_brick: Brick, next_brick: Brick)
        requires
            old(self).wf(),
            moving_brick.wf(),
            next_brick.wf(),
        ensures
            final(self).wf(),
            final(self).is_fresh(moving_brick, next_brick),
    {
        self.board.clear();
        self.moving_brick = moving_brick;
        self.moving_pos = Dot(BRICK_START_X, BRICK_START_Y);
        self.next_brick = next_brick;
        self.freeze = false;
        self.deleted_lines = 0;
        self.score = 0;
        self.lines = 0;
        self.level = 0;
        self.state = GameState::Playing;
    }

    /// Starts this game over with two random pieces.
    pub fn reset(&mut self)
        requires
            old(self).wf(),
        ensures
            final(self).wf(),
            final(self).is_fresh(final(self).moving_brick, final(self).next_brick),
            final(self).moving_brick.rotation == 0,
            final(self).next_brick.rotation == 0,
    {
        let moving = Brick::rand();
        let next = Brick::rand();
        self.restart(moving, next);
    }

    /// Turns the piece in play to its next rotation state, if the game is
    /// running and the turned piece fits where it is; reports whether it
    /// turned.
    pub fn rotate(&mut self) -> (r: bool)
        requires
            old(self).wf(),
        ensures
            final(self).wf(),
            r == (old(self).state == GameState::Playing && shape_valid(
                old(self).board@,
                old(self).moving_brick.rotated().shape(),
                old(self).moving_pos,
            )),
            *final(self) == if r {
                GameData { moving_brick: old(self).moving_brick.rotated(), ..*old(self) }
            } else {
                *old(self)
            },
    {
        if self.state != GameState::Playing {
            return false;
        }
        let rotated = self.moving_brick.rotate();
        if self.board.valid_brick(&rotated, &self.moving_pos) {
            self.moving_brick = rotated;
            true
        } else {
            false
        }
    }

    /// Drops the piece in play straight down as far as it fits, if the game
    /// is running; reports whether it moved at all.
    pub fn hard_drop(&mut self) -> (r: bool)
        requires
            old(self).wf(),
        ensures
            final(self).wf(),
            *final(self) == old(self).moved_to(final(self).moving_pos),
            final(self).moving_pos.0 == old(self).moving_pos.0,
            final(self).moving_pos.1 <= old(self).moving_pos.1,
            forall|y: i8|
                final(self).moving_pos.1 <= y < old(self).moving_pos.1 ==> #[trigger] old(self).fits_at(
                    Dot(old(self).moving_pos.0, y),
                ),
            old(self).state == GameState::Playing ==> !old(self).fits_at(
                Dot(old(self).moving_pos.0, (final(self).moving_pos.1 - 1) as i8),
            ),
            old(self).state != GameState::Playing ==> final(self).moving_pos == old(self).moving_pos,
            r == (final(self).moving_pos.1 < old(self).moving_pos.1),
    {
        if self.state != GameState::Playing {
            return false;
        }
        let ghost start = *self;
        let mut moved = false;
        loop
            invariant
                self.wf(),
                *self == start.moved_to(self.moving_pos),
                self.moving_pos.0 == start.moving_pos.0,
                self.moving_pos.1 <= start.moving_pos.1,
                forall|y: i8|
                    self.moving_pos.1 <= y < start.moving_pos.1 ==> #[trigger] start.fits_at(
                        Dot(start.moving_pos.0, y),
                    ),
                moved == (self.moving_pos.1 < start.moving_pos.1),
            ensures
                self.wf(),
                *self == start.moved_to(self.moving_pos),
                self.moving_pos.0 == start.moving_pos.0,
                self.moving_pos.1 <= start.moving_pos.1,
                forall|y: i8|
                    self.moving_pos.1 <= y < start.moving_pos.1 ==> #[trigger] start.fits_at(
                        Dot(start.moving_pos.0, y),
                    ),
                !start.fits_at(Dot(start.moving_pos.0, (self.moving_pos.1 - 1) as i8)),
                moved == (self.moving_pos.1 < start.moving_pos.1),
            decreases self.moving_pos.1 + 3,
        {
            let target = self.moving_pos.down();
            if !self.board.valid_brick(&self.moving_brick, &target) {
                break;
            }
            proof {
                lemma_valid_pos_in_range(self.board@, self.moving_brick, target);
            }
            self.moving_pos.move_down();
            moved = true;
        }
        moved
    }

    /// One step of gravity: the piece in play moves one row down if it fits
    /// there; otherwise it lands, its cells are put on the board and the
    /// game is marked frozen. Nothing happens once the game is over.
    /// Reports whether the piece moved.
    pub fn fall(&mut self) -> (r: bool)
        requires
            old(self).wf(),
        ensures
            final(self).wf(),
            r == (old(self).state == GameState::Playing && old(self).fits_at(
                Dot(old(self).moving_pos.0, (old(self).moving_pos.1 - 1) as i8),
            )),
            r ==> *final(self) == old(self).moved_to(
                Dot(old(self).moving_pos.0, (old(self).moving_pos.1 - 1) as i8),
            ),
            !r && old(self).state == GameState::Playing ==> {
                &&& final(self).board@ == occupy_shape(
                    old(self).board@,
                    old(self).moving_brick.shape(),
                    old(self).moving_pos,
                )
                &&& final(self).freeze
                &&& *final(self) == (GameData { board: final(self).board, freeze: true, ..*old(self) })
            },
            old(self).state != GameState::Playing ==> *final(self) == *old(self),
    {
        if self.state != GameState::Playing {
            return false;
        }
        let target = self.moving_pos.down();
        if self.board.valid_brick(&self.moving_brick, &target) {
            proof {
                lemma_valid_pos_in_range(self.board@, self.moving_brick, target);
            }
            self.moving_pos.move_down();
            true
        } else {
            let frozen_brick = self.moving_brick;
            let frozen_pos = self.moving_pos;
            self.board.occupy_brick(&frozen_brick, &frozen_pos);
            self.freeze = true;
            false
        }
    }

    /// Once a piece has landed, removes the full rows and records how many
    /// went; does nothing otherwise.
    pub fn freeze_brick(&mut self)
        requires
            old(self).wf(),
        ensures
            final(self).wf(),
            old(self).freeze ==> {
                &&& final(self).board@ == after_clear(old(self).board@)
                &&& final(self).deleted_lines == cleared_from(old(self).board@, 0)
                &&& *final(self) == (GameData {
                    board: final(self).board,
                    deleted_lines: final(self).deleted_lines,
                    ..*old(self)
                })
            },
            !old(self).freeze ==> *final(self) == *old(self),
    {
        if self.freeze {
            self.deleted_lines = self.board.clean_lines();
        }
    }

    /// The score once the rows of the last landing are counted.
    pub open spec fn scored(&self) -> u32 {
        if self.deleted_lines > 0 {
            self.score.saturating_add(score_for(self.level as int, self.deleted_lines as int) as u32)
        } else {
            self.score
        }
    }

    /// The lines cleared once the rows of the last landing are counted.
    pub open spec fn counted_lines(&self) -> u32 {
        self.lines.saturating_add(self.deleted_lines)
    }

    /// Scores the rows of the last landing, and once a piece has landed
    /// awards the drop bonus and brings the next piece into play at the
    /// start position, with `next` to follow it; the game is over when that
    /// piece does not fit there. Score and lines stop at `u32::MAX`.
    pub fn update_score(&mut self, next: Brick) -> (r: ScoreUpdate)
        requires
            old(self).wf(),
            next.wf(),
            old(self).deleted_lines <= 4,
        ensures
            final(self).wf(),
            final(self).board == old(self).board,
            final(self).deleted_lines == 0,
            final(self).lines == old(self).counted_lines(),
            final(self).level == level_for(old(self).counted_lines() as int),
            r.level_changed == (final(self).level != old(self).level),
            final(self).level >= old(self).level,
            final(self).score >= old(self).score,
            !final(self).freeze,
            old(self).freeze ==> {
                let spawned = shape_valid(old(self).board@, old(self).next_brick.shape(), start_dot());
                &&& final(self).score == old(self).scored().saturating_add(SCORE_PER_DROP)
                &&& final(self).moving_brick == old(self).next_brick
                &&& final(self).moving_pos == start_dot()
                &&& final(self).next_brick == next
                &&& final(self).state == if spawned {
                    old(self).state
                } else {
                    GameState::GameOver
                }
                &&& r.spawned == spawned
            },
            !old(self).freeze ==> {
                &&& final(self).score == old(self).scored()
                &&& final(self).moving_brick == old(self).moving_brick
                &&& final(self).moving_pos == old(self).moving_pos
                &&& final(self).next_brick == old(self).next_brick
                &&& final(self).state == old(self).state
                &&& !r.spawned
            },
    {
        proof {
            lemma_level_monotonic(self.lines as int, self.counted_lines() as int);
        }
        let mut level_changed = false;
        if self.deleted_lines > 0 {
            self.score = self.score.saturating_add(get_score(self.level, self.deleted_lines));
            self.lines = self.lines.saturating_add(self.deleted_lines);
            self.deleted_lines = 0;
            let level = get_level(self.lines);
            if self.level != level {
                self.level = level;
                level_changed = true;
            }
        }
        if !self.freeze {
            return ScoreUpdate { level_changed, spawned: false };
        }
        self.freeze = false;
        self.score = self.score.saturating_add(SCORE_PER_DROP);
        self.moving_pos = Dot(BRICK_START_X, BRICK_START_Y);
        self.moving_brick = self.next_brick;
        self.next_brick = next;
        let spawned = self.board.valid_brick(&self.moving_brick, &self.moving_pos);
        if !spawned {
            self.state = GameState::GameOver;
        }
        ScoreUpdate { level_changed, spawned }
    }

    /// Moves the piece in play one column left, if the game is running and
    /// it fits there; reports whether it moved.
    pub fn move_left(&mut self) -> (r: bool)
        requires
            old(self).wf(),
        ensures
            final(self).wf(),
            r == (old(self).state == GameState::Playing && old(self).fits_at(
                Dot((old(self).moving_pos.0 - 1) as i8, old(self).moving_pos.1),
            )),
            *final(self) == if r {
                old(self).moved_to(Dot((old(self).moving_pos.0 - 1) as i8, old(self).moving_pos.1))
            } else {
                *old(self)
            },
    {
        if self.state != GameState::Playing {
            return false;
        }
        let target = self.moving_pos.left();
        if self.board.valid_brick(&self.moving_brick, &target) {
            proof {
                lemma_valid_pos_in_range(self.board@, self.moving_brick, target);
            }
            self.moving_pos.move_left();
            true
        } else {
            false
        }
    }

    /// Moves the piece in play one column right, if the game is running and
    /// it fits there; reports whether it moved.
    pub fn move_right(&mut self) -> (r: bool)
        requires
            old(self).wf(),
        ensures
            final(self).wf(),
            r == (old(self).state == GameState::Playing && old(self).fits_at(
                Dot((old(self).moving_pos.0 + 1) as i8, old(self).moving_pos.1),
            )),
            *final(self) == if r {
                old(self).moved_to(Dot((old(self).moving_pos.0 + 1) as i8, old(self).moving_pos.1))
            } else {
                *old(self)
            },
    {
        if self.state != GameState::Playing {
            return false;
        }
        let target = self.moving_pos.right();
        if self.board.valid_brick(&self.moving_brick, &target) {
            proof {
                lemma_valid_pos_in_range(self.board@, self.moving_brick, target);
            }
            self.moving_pos.move_right();
            true
        } else {
            false
        }
    }
}

} // verus!
