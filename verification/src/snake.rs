//! The snake engine: the body as an ordered sequence of cells (head
//! first), the current heading, and the per-tick movement, growth and
//! collision rules. Every rendering decision is returned as a list of
//! draw commands; putting glyphs on the screen happens outside the
//! library.

use vstd::assert_seqs_equal;
use vstd::prelude::*;

use crate::commands::{opposite, Command, Direction};
use crate::registry::{CandyRegistry, SharedRegistry};
use crate::{Coord, DrawCmd, TerminalSize};

verus! {

/// How long one tick lasts when a run starts, in milliseconds.
pub const INITIAL_TICK_DELAY_MS: u64 = 150;

/// The shortest a tick may get: the speed-up on growth never drives the
/// delay below this floor.
pub const TICK_DELAY_FLOOR_MS: u64 = 1;

/// The glyph drawn at the snake's head.
pub const HEAD_GLYPH: char = 'O';

/// The glyph drawn when a vacated tail cell is cleared.
pub const EMPTY_GLYPH: char = ' ';

/// The terminal state a run ends in: a run keeps ticking while the
/// outcome is `Running`.
#[derive(Clone, Copy, PartialEq, Eq, Structural, Debug)]
pub enum Outcome {
    Running,
    Collided,
    Quit,
}

/// The connector glyph for the cell the head vacates, keyed by the pair
/// of previous and new heading: straight segments for straight-through
/// moves, corners for turns.
pub open spec fn connector_glyph(prev_dir: Direction, curr_dir: Direction) -> char {
    match prev_dir {
        Direction::Up => match curr_dir {
            Direction::Up => '║',
            Direction::Down => '║',
            Direction::Right => '╔',
            Direction::Left => '╗',
        },
        Direction::Down => match curr_dir {
            Direction::Up => '║',
            Direction::Down => '║',
            Direction::Right => '╚',
            Direction::Left => '╝',
        },
        Direction::Left => match curr_dir {
            Direction::Up => '╚',
            Direction::Down => '╔',
            Direction::Right => '═',
            Direction::Left => '═',
        },
        Direction::Right => match curr_dir {
            Direction::Up => '╝',
            Direction::Down => '╗',
            Direction::Right => '═',
            Direction::Left => '═',
        },
    }
}

/// The heading actually taken when `requested` arrives while moving in
/// `cur`: a request opposite to the current heading is rejected and the
/// current heading retained.
pub open spec fn resolved_heading(cur: Direction, requested: Direction) -> Direction {
    if requested == opposite(cur) {
        cur
    } else {
        requested
    }
}

/// Whether one step from `c` in heading `d` stays on the `u16` grid.
/// Horizontal steps are two columns wide, so each body cell sits on an
/// even column boundary.
pub open spec fn step_in_bounds(d: Direction, c: Coord) -> bool {
    match d {
        Direction::Up => c.row >= 1,
        Direction::Right => c.col + 2 <= u16::MAX,
        Direction::Down => c.row + 1 <= u16::MAX,
        Direction::Left => c.col >= 2,
    }
}

/// The cell one step from `c` in heading `d`: one row vertically, two
/// columns horizontally.
pub open spec fn step_of(d: Direction, c: Coord) -> Coord {
    match d {
        Direction::Up => Coord { col: c.col, row: (c.row - 1) as u16 },
        Direction::Right => Coord { col: (c.col + 2) as u16, row: c.row },
        Direction::Down => Coord { col: c.col, row: (c.row + 1) as u16 },
        Direction::Left => Coord { col: (c.col - 2) as u16, row: c.row },
    }
}

/// The draw commands of a successful move: the connector over the
/// vacated head cell, for a leftward move the filler over the skipped
/// odd column, then the head glyph at the new head.
pub open spec fn move_draws(prev_dir: Direction, eff: Direction, old_head: Coord, new_head: Coord) -> Seq<
    DrawCmd,
> {
    let connector = DrawCmd { at: old_head, glyph: connector_glyph(prev_dir, eff) };
    let head = DrawCmd { at: new_head, glyph: HEAD_GLYPH };
    if eff is Left {
        seq![
            connector,
            DrawCmd { at: Coord { col: (old_head.col - 1) as u16, row: old_head.row }, glyph: '═' },
            head,
        ]
    } else {
        seq![connector, head]
    }
}

/// The per-tick delay after a growth speed-up: one millisecond shorter,
/// floored so the interval never reaches zero or reverses.
pub open spec fn sped_up(delay_ms: u64) -> u64 {
    if delay_ms > TICK_DELAY_FLOOR_MS {
        (delay_ms - 1) as u64
    } else {
        delay_ms
    }
}

/// A move the grid has no room for: the step would leave the board.
#[derive(Clone, Copy, PartialEq, Eq, Structural, Debug)]
pub struct InvalidMoveError;

/// The snake: its cells head first, and the heading its next step takes.
pub struct Snake {
    cells: Vec<Coord>,
    dir: Direction,
}

impl Snake {
    /// The body as a sequence of cells, head at index zero.
    pub closed spec fn view(&self) -> Seq<Coord> {
        self.cells@
    }

    /// The current heading.
    pub closed spec fn heading(&self) -> Direction {
        self.dir
    }

    /// Well-formedness: at least one cell, and no two cells on the same
    /// coordinate.
    pub open spec fn wf(&self) -> bool {
        self@.len() >= 1 && self@.no_duplicates()
    }

    /// A snake of length four, centered on the playing field, heading
    /// up, head at the top of a downward column of cells.
    pub fn new(size: TerminalSize) -> (s: Snake)
        ensures
            s.wf(),
            s.heading() == Direction::Up,
            s@.len() == 4,
            forall|k: int|
                0 <= k < 4 ==> s@[k] == (Coord {
                    col: ((size.n_cols / 4) * 2) as u16,
                    row: (size.n_rows / 2 + k) as u16,
                }),
    {
        let row_center = size.n_rows / 2;
        let col_center = (size.n_cols / 4) * 2;
        let mut cells: Vec<Coord> = Vec::new();
        cells.push(Coord { col: col_center, row: row_center });
        cells.push(Coord { col: col_center, row: row_center + 1 });
        cells.push(Coord { col: col_center, row: row_center + 2 });
        cells.push(Coord { col: col_center, row: row_center + 3 });
        Snake { cells, dir: Direction::Up }
    }

    /// A snake laid out by the caller, for driving the engine from a
    /// known position.
    pub fn with_body(cells: Vec<Coord>, dir: Direction) -> (s: Snake)
        requires
            cells@.len() >= 1,
            cells@.no_duplicates(),
        ensures
            s@ == cells@,
            s.heading() == dir,
            s.wf(),
    {
        Snake { cells, dir }
    }

    /// How many cells the body holds.
    pub fn length(&self) -> (n: usize)
        ensures
            n == self@.len(),
    {
        self.cells.len()
    }

    /// The head cell.
    pub fn head(&self) -> (c: Coord)
        requires
            self@.len() >= 1,
        ensures
            c == self@[0],
    {
        self.cells[0]
    }

    /// The body cell at index `i`, head first.
    pub fn cell_at(&self, i: usize) -> (c: Coord)
        requires
            i < self@.len(),
        ensures
            c == self@[i as int],
    {
        self.cells[i]
    }

    /// The current heading.
    pub fn current_heading(&self) -> (d: Direction)
        ensures
            d == self.heading(),
    {
        self.dir
    }

    /// Whether some body cell sits on `c`.
    fn body_contains(&self, c: Coord) -> (r: bool)
        ensures
            r == self@.contains(c),
    {
        let mut i: usize = 0;
        while i < self.cells.len()
            invariant
                0 <= i <= self.cells@.len(),
                forall|j: int| 0 <= j < i ==> self.cells@[j] != c,
            decreases self.cells@.len() - i,
        {
            if self.cells[i] == c {
                assert(self.cells@.contains(c));
                return true;
            }
            i += 1;
        }
        false
    }

    /// The connector glyph drawn over the vacated head cell for the move
    /// from `prev_dir` to `curr_dir`.
    pub fn render_snake(prev_dir: Direction, curr_dir: Direction) -> (r: char)
        ensures
            r == connector_glyph(prev_dir, curr_dir),
    {
        match prev_dir {
            Direction::Up => match curr_dir {
                Direction::Up => '║',
                Direction::Down => '║',
                Direction::Right => '╔',
                Direction::Left => '╗',
            },
            Direction::Down => match curr_dir {
                Direction::Up => '║',
                Direction::Down => '║',
                Direction::Right => '╚',
                Direction::Left => '╝',
            },
            Direction::Left => match curr_dir {
                Direction::Up => '╚',
                Direction::Down => '╔',
                Direction::Right => '═',
                Direction::Left => '═',
            },
            Direction::Right => match curr_dir {
                Direction::Up => '╝',
                Direction::Down => '╗',
                Direction::Right => '═',
                Direction::Left => '═',
            },
        }
    }

    /// Whether the step a command asks for stays on the grid: a quit
    /// always may proceed, any other command only when stepping the
    /// head in the resolved heading stays within `u16` coordinates.
    /// Callers outside the library test this before ticking.
    pub fn can_advance(&self, cmd: Option<Command>) -> (r: bool)
        requires
            self@.len() >= 1,
        ensures
            r == (cmd == Some(Command::Quit) || step_in_bounds(
                resolved_heading(self.heading(), requested_of(cmd, self.heading())),
                self@[0],
            )),
    {
        let requested = match cmd {
            Some(Command::Quit) => {
                return true;
            },
            Some(Command::Move(d)) => d,
            None => self.dir,
        };
        let mut cur = self.dir;
        let eff = if cur.is_opposite(&requested) {
            self.dir
        } else {
            requested
        };
        let head = self.cells[0];
        match eff {
            Direction::Up => head.row >= 1,
            Direction::Right => head.col <= u16::MAX - 2,
            Direction::Down => head.row <= u16::MAX - 1,
            Direction::Left => head.col >= 2,
        }
    }

    /// One movement step: resolve the requested heading against the
    /// opposite-heading rule, step the head one unit, and either stop on
    /// a self-collision (body untouched, nothing drawn) or push the new
    /// head and report what to draw. The tail is not popped here.
    pub fn move_to(&mut self, direction: Direction) -> (r: (Outcome, Vec<DrawCmd>))
        requires
            old(self).wf(),
            step_in_bounds(resolved_heading(old(self).heading(), direction), old(self)@[0]),
        ensures
            final(self).wf(),
            final(self).heading() == resolved_heading(old(self).heading(), direction),
            ({
                let eff = resolved_heading(old(self).heading(), direction);
                let new_head = step_of(eff, old(self)@[0]);
                if old(self)@.contains(new_head) {
                    &&& r.0 == Outcome::Collided
                    &&& final(self)@ == old(self)@
                    &&& r.1@ == Seq::<DrawCmd>::empty()
                } else {
                    &&& r.0 == Outcome::Running
                    &&& final(self)@ == seq![new_head] + old(self)@
                    &&& r.1@ == move_draws(old(self).heading(), eff, old(self)@[0], new_head)
                }
            }),
    {
        let start = self.cells[0];
        let prev_dir = self.dir;
        let mut cur = self.dir;
        let eff = if cur.is_opposite(&direction) {
            prev_dir
        } else {
            direction
        };
        let new_head = match eff {
            Direction::Up => Coord { col: start.col, row: start.row - 1 },
            Direction::Right => Coord { col: start.col + 2, row: start.row },
            Direction::Down => Coord { col: start.col, row: start.row + 1 },
            Direction::Left => Coord { col: start.col - 2, row: start.row },
        };
        self.dir = eff;
        if self.body_contains(new_head) {
            return (Outcome::Collided, Vec::new());
        }
        let mut draws: Vec<DrawCmd> = Vec::new();
        draws.push(DrawCmd { at: start, glyph: Snake::render_snake(prev_dir, eff) });
        if let Direction::Left = eff {
            draws.push(DrawCmd { at: Coord { col: start.col - 1, row: start.row }, glyph: '═' });
        }
        self.cells.insert(0, new_head);
        draws.push(DrawCmd { at: new_head, glyph: HEAD_GLYPH });
        proof {
            assert_seqs_equal!(self.cells@ == seq![new_head] + old(self)@);
            assert forall|a: int, b: int|
                0 <= a < self.cells@.len() && 0 <= b < self.cells@.len() && a != b implies self
                .cells@[a] != self.cells@[b] by {
                if a != 0 && b != 0 {
                    assert(self.cells@[a] == old(self)@[a - 1]);
                    assert(self.cells@[b] == old(self)@[b - 1]);
                } else if a == 0 {
                    assert(old(self)@.contains(old(self)@[b - 1]));
                } else {
                    assert(old(self)@.contains(old(self)@[a - 1]));
                }
            }
            assert_seqs_equal!(draws@ == move_draws(old(self).heading(), eff, old(self)@[0],
                step_of(eff, old(self)@[0])));
        }
        (Outcome::Running, draws)
    }

    /// Pop the tail cell and report the draw command that clears it.
    pub fn cut_tail_of(&mut self) -> (r: DrawCmd)
        requires
            old(self)@.len() >= 1,
        ensures
            final(self)@ == old(self)@.drop_last(),
            final(self).heading() == old(self).heading(),
            r == (DrawCmd { at: old(self)@.last(), glyph: EMPTY_GLYPH }),
    {
        let last = self.cells.pop().unwrap();
        DrawCmd { at: last, glyph: EMPTY_GLYPH }
    }

    /// One full tick of the engine on a registry this caller holds
    /// exclusively. A quit command ends the run untouched and undrawn;
    /// otherwise the snake steps under the opposite-heading rule, stops
    /// on self-collision, and on reaching a candy consumes it — growing
    /// by one and speeding the tick up — or else drops its tail.
    pub fn advance(
        &mut self,
        cmd: Option<Command>,
        candy_list: &mut CandyRegistry,
        delay_ms: &mut u64,
    ) -> (r: (Outcome, Vec<DrawCmd>))
        requires
            old(self).wf(),
            old(candy_list).wf(),
            cmd != Some(Command::Quit) ==> step_in_bounds(
                resolved_heading(old(self).heading(), requested_of(cmd, old(self).heading())),
                old(self)@[0],
            ),
        ensures
            final(self).wf(),
            final(candy_list).wf(),
            cmd == Some(Command::Quit) ==> {
                &&& r.0 == Outcome::Quit
                &&& r.1@ == Seq::<DrawCmd>::empty()
                &&& final(self)@ == old(self)@
                &&& final(self).heading() == old(self).heading()
                &&& final(candy_list)@ == old(candy_list)@
                &&& *final(delay_ms) == *old(delay_ms)
            },
            cmd != Some(Command::Quit) ==> ({
                let eff = resolved_heading(old(self).heading(), requested_of(cmd, old(self).heading()));
                let new_head = step_of(eff, old(self)@[0]);
                &&& final(self).heading() == eff
                &&& (if old(self)@.contains(new_head) {
                    &&& r.0 == Outcome::Collided
                    &&& r.1@ == Seq::<DrawCmd>::empty()
                    &&& final(self)@ == old(self)@
                    &&& final(candy_list)@ == old(candy_list)@
                    &&& *final(delay_ms) == *old(delay_ms)
                } else {
                    let draws = move_draws(old(self).heading(), eff, old(self)@[0], new_head);
                    &&& r.0 == Outcome::Running
                    &&& (if old(candy_list)@.contains(new_head) {
                        &&& final(self)@ == seq![new_head] + old(self)@
                        &&& final(self)@.len() == old(self)@.len() + 1
                        &&& final(candy_list)@ == old(candy_list)@.remove(new_head)
                        &&& !final(candy_list)@.contains(new_head)
                        &&& *final(delay_ms) == sped_up(*old(delay_ms))
                        &&& r.1@ == draws
                    } else {
                        &&& final(self)@ == (seq![new_head] + old(self)@).drop_last()
                        &&& final(self)@.len() == old(self)@.len()
                        &&& final(candy_list)@ == old(candy_list)@
                        &&& *final(delay_ms) == *old(delay_ms)
                        &&& r.1@ == draws.push(
                            DrawCmd { at: old(self)@.last(), glyph: EMPTY_GLYPH },
                        )
                    })
                })
            }),
    {
        let requested = match cmd {
            Some(Command::Quit) => {
                return (Outcome::Quit, Vec::new());
            },
            Some(Command::Move(d)) => d,
            None => self.dir,
        };
        let (outcome, mut draws) = self.move_to(requested);
        if let Outcome::Collided = outcome {
            return (Outcome::Collided, draws);
        }
        let head = self.cells[0];
        if candy_list.remove(head) {
            *delay_ms = if *delay_ms > TICK_DELAY_FLOOR_MS {
                *delay_ms - 1
            } else {
                *delay_ms
            };
        } else {
            proof {
                assert(old(candy_list)@.remove(head) =~= old(candy_list)@);
            }
            let clear = self.cut_tail_of();
            draws.push(clear);
        }
        (Outcome::Running, draws)
    }
}

impl Snake {
    /// One full tick of the engine against the registry the spawner
    /// shares: the whole check-then-consume runs under one exclusive
    /// acquisition of the registry lock, so the spawner can never
    /// observe a candy both eaten and present. What the registry held
    /// at that instant decides which of the two `Running` outcomes
    /// below happened: growth with a speed-up, or a dropped tail.
    pub fn advance_shared(
        &mut self,
        cmd: Option<Command>,
        candy_list: &SharedRegistry,
        delay_ms: &mut u64,
    ) -> (r: (Outcome, Vec<DrawCmd>))
        requires
            old(self).wf(),
            cmd != Some(Command::Quit) ==> step_in_bounds(
                resolved_heading(old(self).heading(), requested_of(cmd, old(self).heading())),
                old(self)@[0],
            ),
        ensures
            final(self).wf(),
            cmd == Some(Command::Quit) ==> {
                &&& r.0 == Outcome::Quit
                &&& r.1@ == Seq::<DrawCmd>::empty()
                &&& final(self)@ == old(self)@
                &&& final(self).heading() == old(self).heading()
                &&& *final(delay_ms) == *old(delay_ms)
            },
            cmd != Some(Command::Quit) ==> ({
                let eff = resolved_heading(old(self).heading(), requested_of(cmd, old(self).heading()));
                let new_head = step_of(eff, old(self)@[0]);
                &&& final(self).heading() == eff
                &&& (old(self)@.contains(new_head) ==> {
                    &&& r.0 == Outcome::Collided
                    &&& r.1@ == Seq::<DrawCmd>::empty()
                    &&& final(self)@ == old(self)@
                    &&& *final(delay_ms) == *old(delay_ms)
                })
                &&& (!old(self)@.contains(new_head) ==> {
                    let draws = move_draws(old(self).heading(), eff, old(self)@[0], new_head);
                    &&& r.0 == Outcome::Running
                    &&& ({
                        ||| {
                            &&& final(self)@ == seq![new_head] + old(self)@
                            &&& *final(delay_ms) == sped_up(*old(delay_ms))
                            &&& r.1@ == draws
                        }
                        ||| {
                            &&& final(self)@ == (seq![new_head] + old(self)@).drop_last()
                            &&& *final(delay_ms) == *old(delay_ms)
                            &&& r.1@ == draws.push(
                                DrawCmd { at: old(self)@.last(), glyph: EMPTY_GLYPH },
                            )
                        }
                    })
                })
            }),
    {
        let (mut registry, handle) = candy_list.lock.acquire_write();
        let r = self.advance(cmd, &mut registry, delay_ms);
        handle.release_write(registry);
        r
    }
}

/// The heading a command requests; no command, or a quit, repeats the
/// current heading.
pub open spec fn requested_of(cmd: Option<Command>, cur: Direction) -> Direction {
    match cmd {
        Some(Command::Move(d)) => d,
        _ => cur,
    }
}

/// Law: requesting the heading opposite to the current one leaves the
/// heading unchanged — `advance` and `move_to` set the heading to
/// `resolved_heading`, which rejects the reversal.
pub proof fn lemma_opposite_request_keeps_heading(cur: Direction, requested: Direction)
    requires
        requested == opposite(cur),
    ensures
        resolved_heading(cur, requested) == cur,
{
}

/// Law: any non-opposite request is taken — after `advance` or
/// `move_to` the heading equals the requested one.
pub proof fn lemma_non_opposite_request_taken(cur: Direction, requested: Direction)
    requires
        requested != opposite(cur),
    ensures
        resolved_heading(cur, requested) == requested,
{
}

} // verus!
