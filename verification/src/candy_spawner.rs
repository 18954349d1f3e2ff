//! The candy spawner: picks a random free coordinate in the playable
//! interior and records it in the shared item registry. The background
//! loop that paces spawns and polls the stop notification lives outside
//! the library; the sampling, the interior bounds and the atomic
//! check-then-insert are all here.

use rand::Rng;
use vstd::prelude::*;

use crate::registry::{CandyRegistry, SharedRegistry};
use crate::{Coord, DrawCmd, TerminalSize};

verus! {

/// The glyph drawn where a candy appears.
pub const CANDY_GLYPH: char = '\u{e712}';

/// How long the spawner dwells between spawns, in milliseconds.
pub const SPAWN_DWELL_MS: u64 = 4000;

/// How many random cells are tried before falling back to a scan of the
/// interior, which settles whether any free cell is left at all.
const SPAWN_SAMPLE_ATTEMPTS: u64 = 64;

/// Where a candy may appear: on an even column inside the playable
/// interior, two cells clear of the border on every side.
pub open spec fn in_spawn_range(size: TerminalSize, c: Coord) -> bool {
    &&& c.col % 2 == 0
    &&& 2 <= c.col / 2 < (size.n_cols - 2) / 2
    &&& 2 <= c.row < size.n_rows - 2
}

/// Relies on `rand::Rng::gen_range` on `rand::thread_rng()`: a value
/// sampled from `[lo, hi)`; it panics when `lo >= hi`, which the
/// precondition rules out. Nothing more is assumed of which value comes
/// back.
#[verifier::external_body]
fn random_in_range(lo: u16, hi: u16) -> (r: u16)
    requires
        lo < hi,
    ensures
        lo <= r < hi,
{
    rand::thread_rng().gen_range(lo, hi)
}

/// The spawner: knows the playing field, so it can keep its candies in
/// the interior. The registry it fills is handed in per call, since the
/// engine holds the other reference to it.
pub struct CandySpawner {
    term_size: TerminalSize,
}

impl CandySpawner {
    /// The playing field this spawner was made for.
    pub closed spec fn size(&self) -> TerminalSize {
        self.term_size
    }

    /// Well-formedness: the interior must be non-empty, else there is
    /// nowhere to spawn and the random sampler's range would be empty.
    pub open spec fn wf(&self) -> bool {
        self.size().n_cols >= 8 && self.size().n_rows >= 5
    }

    /// A spawner for the given playing field.
    pub fn new(term_size: TerminalSize) -> (s: CandySpawner)
        requires
            term_size.n_cols >= 8,
            term_size.n_rows >= 5,
        ensures
            s.wf(),
            s.size() == term_size,
    {
        CandySpawner { term_size }
    }

    /// One random draw from the interior.
    fn sample_candidate(&self) -> (c: Coord)
        requires
            self.wf(),
        ensures
            in_spawn_range(self.size(), c),
    {
        let half = (self.term_size.n_cols - 2) / 2;
        let k = random_in_range(2, half);
        let row = random_in_range(2, self.term_size.n_rows - 2);
        Coord { col: k * 2, row }
    }

    /// A free interior coordinate: random draws first, then — if the
    /// randomness keeps hitting occupied cells — a scan of the whole
    /// interior. `None` only when every interior cell holds a candy.
    fn get_new_candy(&self, candy_list: &CandyRegistry) -> (r: Option<Coord>)
        requires
            self.wf(),
        ensures
            r matches Some(c) ==> in_spawn_range(self.size(), c) && !candy_list@.contains(c),
            r is None ==> forall|c: Coord|
                in_spawn_range(self.size(), c) ==> candy_list@.contains(c),
    {
        let mut attempts: u64 = SPAWN_SAMPLE_ATTEMPTS;
        while attempts > 0
            invariant
                self.wf(),
            decreases attempts,
        {
            let c = self.sample_candidate();
            if !candy_list.contains(c) {
                return Some(c);
            }
            attempts = attempts - 1;
        }
        let n_rows = self.term_size.n_rows;
        let half = (self.term_size.n_cols - 2) / 2;
        let mut row: u16 = 2;
        while row < n_rows - 2
            invariant
                self.wf(),
                n_rows == self.size().n_rows,
                half == (self.size().n_cols - 2) / 2,
                2 <= row <= n_rows - 2,
                forall|c: Coord|
                    in_spawn_range(self.size(), c) && c.row < row ==> candy_list@.contains(c),
            decreases n_rows - 2 - row,
        {
            let mut k: u16 = 2;
            while k < half
                invariant
                    self.wf(),
                    n_rows == self.size().n_rows,
                    half == (self.size().n_cols - 2) / 2,
                    2 <= row < n_rows - 2,
                    2 <= k <= half,
                    forall|c: Coord|
                        in_spawn_range(self.size(), c) && c.row < row ==> candy_list@.contains(c),
                    forall|c: Coord|
                        in_spawn_range(self.size(), c) && c.row == row && c.col / 2 < k
                            ==> candy_list@.contains(c),
                decreases half - k,
            {
                let c = Coord { col: k * 2, row };
                if !candy_list.contains(c) {
                    return Some(c);
                }
                k = k + 1;
            }
            assert forall|c: Coord|
                in_spawn_range(self.size(), c) && c.row <= row implies candy_list@.contains(
                c,
            ) by {
                if c.row == row {
                    assert(c.col == 2 * (c.col / 2));
                }
            }
            row = row + 1;
        }
        assert forall|c: Coord| in_spawn_range(self.size(), c) implies candy_list@.contains(
            c,
        ) by {
            assert(c.row < row);
        }
        None
    }

    /// Pick a free interior coordinate and record it, the whole
    /// check-then-insert as one compound operation on a registry this
    /// caller holds exclusively. Returns the draw command that puts the
    /// candy glyph there, or `None` exactly when the interior is full.
    pub fn add_new_candy(&self, candy_list: &mut CandyRegistry) -> (r: Option<DrawCmd>)
        requires
            self.wf(),
            old(candy_list).wf(),
        ensures
            final(candy_list).wf(),
            r matches Some(d) ==> {
                &&& d.glyph == CANDY_GLYPH
                &&& in_spawn_range(self.size(), d.at)
                &&& !old(candy_list)@.contains(d.at)
                &&& final(candy_list)@ == old(candy_list)@.insert(d.at)
            },
            r is None ==> {
                &&& final(candy_list)@ == old(candy_list)@
                &&& forall|c: Coord|
                    in_spawn_range(self.size(), c) ==> old(candy_list)@.contains(c)
            },
    {
        match self.get_new_candy(candy_list) {
            Some(c) => {
                candy_list.insert(c);
                Some(DrawCmd { at: c, glyph: CANDY_GLYPH })
            },
            None => None,
        }
    }

    /// Like `add_new_candy`, against the registry the engine shares:
    /// the pick and the insert run under one exclusive acquisition of
    /// the registry lock, so a concurrent consumption can never slip in
    /// between the check and the insert.
    pub fn add_new_candy_shared(&self, candy_list: &SharedRegistry) -> (r: Option<DrawCmd>)
        requires
            self.wf(),
        ensures
            r matches Some(d) ==> d.glyph == CANDY_GLYPH && in_spawn_range(self.size(), d.at),
    {
        let (mut registry, handle) = candy_list.lock.acquire_write();
        let r = self.add_new_candy(&mut registry);
        handle.release_write(registry);
        r
    }
}

/// The spawner's pacing rule: a new candy is due once at least the
/// dwell time has passed since the last spawn.
pub fn dwell_elapsed(elapsed_ms: u64) -> (r: bool)
    ensures
        r == (elapsed_ms >= SPAWN_DWELL_MS),
{
    elapsed_ms >= SPAWN_DWELL_MS
}

} // verus!
