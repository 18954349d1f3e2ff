//! The shared item registry: the set of active candy coordinates. Its
//! compound operations (check-then-insert, check-then-remove) are each a
//! single call, so that the two concurrent actors — the spawner inserting
//! and the engine removing — can run them under one lock acquisition.

use vstd::assert_sets_equal;
use vstd::prelude::*;
use vstd::rwlock::RwLock;
use vstd::rwlock::RwLockPredicate;

use crate::Coord;

verus! {

/// The set of coordinates that currently hold a candy. Uniqueness is the
/// only invariant: the set carries no ordering requirement.
pub struct CandyRegistry {
    locs: Vec<Coord>,
}

impl CandyRegistry {
    /// The registry as the mathematical set of its coordinates.
    pub closed spec fn view(&self) -> Set<Coord> {
        self.locs@.to_set()
    }

    /// Well-formedness: no coordinate is recorded twice.
    pub closed spec fn wf(&self) -> bool {
        self.locs@.no_duplicates()
    }

    /// An empty registry, created once per game run.
    pub fn new() -> (r: CandyRegistry)
        ensures
            r@ == Set::<Coord>::empty(),
            r.wf(),
    {
        let r = CandyRegistry { locs: Vec::new() };
        proof {
            assert_sets_equal!(r@ == Set::<Coord>::empty(), c => {
                if r@.contains(c) {
                    let i = choose|i: int| 0 <= i < r.locs@.len() && r.locs@[i] == c;
                }
            });
        }
        r
    }

    /// Whether `c` currently holds a candy.
    pub fn contains(&self, c: Coord) -> (r: bool)
        ensures
            r == self@.contains(c),
    {
        let mut i: usize = 0;
        while i < self.locs.len()
            invariant
                0 <= i <= self.locs@.len(),
                forall|j: int| 0 <= j < i ==> self.locs@[j] != c,
            decreases self.locs@.len() - i,
        {
            if self.locs[i] == c {
                assert(self.locs@.contains(c));
                return true;
            }
            i += 1;
        }
        assert(!self.locs@.contains(c));
        false
    }

    /// Record a candy at `c` unless one is already there; the whole
    /// check-then-insert is one compound operation. Returns whether the
    /// coordinate was newly recorded.
    pub fn insert(&mut self, c: Coord) -> (r: bool)
        requires
            old(self).wf(),
        ensures
            final(self).wf(),
            final(self)@ == old(self)@.insert(c),
            r == !old(self)@.contains(c),
    {
        if self.contains(c) {
            proof {
                assert_sets_equal!(self@ == old(self)@.insert(c));
            }
            false
        } else {
            let ghost pre = self.locs@;
            self.locs.push(c);
            proof {
                assert forall|i: int, j: int|
                    0 <= i < self.locs@.len() && 0 <= j < self.locs@.len() && i != j implies self
                    .locs@[i] != self.locs@[j] by {
                    if i < pre.len() && j < pre.len() {
                        assert(pre[i] == self.locs@[i] && pre[j] == self.locs@[j]);
                    } else if i < pre.len() {
                        assert(pre.contains(pre[i]));
                    } else if j < pre.len() {
                        assert(pre.contains(pre[j]));
                    }
                }
                assert_sets_equal!(self@ == old(self)@.insert(c), x => {
                    if self@.contains(x) {
                        let i = choose|i: int| 0 <= i < self.locs@.len() && self.locs@[i] == x;
                        if i < pre.len() {
                            assert(pre.contains(x));
                        }
                    }
                    if old(self)@.insert(c).contains(x) {
                        if x == c {
                            assert(self.locs@[pre.len() as int] == c);
                            assert(self.locs@.contains(x));
                        } else {
                            let i = choose|i: int| 0 <= i < pre.len() && pre[i] == x;
                            assert(self.locs@[i] == x);
                            assert(self.locs@.contains(x));
                        }
                    }
                });
            }
            true
        }
    }

    /// Take the candy at `c` out of the registry if one is there; the
    /// whole check-then-remove is one compound operation. Returns whether
    /// a candy was present.
    pub fn remove(&mut self, c: Coord) -> (r: bool)
        requires
            old(self).wf(),
        ensures
            final(self).wf(),
            final(self)@ == old(self)@.remove(c),
            r == old(self)@.contains(c),
    {
        let ghost pre = self.locs@;
        let mut i: usize = 0;
        while i < self.locs.len()
            invariant
                0 <= i <= self.locs@.len(),
                self.locs@ == pre,
                pre == old(self).locs@,
                pre.no_duplicates(),
                forall|j: int| 0 <= j < i ==> self.locs@[j] != c,
            decreases self.locs@.len() - i,
        {
            if self.locs[i] == c {
                self.locs.remove(i);
                proof {
                    assert(pre.contains(c));
                    assert(pre[i as int] == c);
                    assert(self.locs@ == pre.remove(i as int));
                    pre.remove_ensures(i as int);
                    assert forall|a: int, b: int|
                        0 <= a < self.locs@.len() && 0 <= b < self.locs@.len() && a != b implies
                        self.locs@[a] != self.locs@[b] by {
                        let a0: int = if a < i { a } else { a + 1 };
                        let b0: int = if b < i { b } else { b + 1 };
                        assert(self.locs@[a] == pre[a0] && self.locs@[b] == pre[b0]);
                    }
                    assert_sets_equal!(self@ == old(self)@.remove(c), x => {
                        if self@.contains(x) {
                            let a = choose|a: int|
                                0 <= a < self.locs@.len() && self.locs@[a] == x;
                            let a0: int = if a < i { a } else { a + 1 };
                            assert(pre[a0] == x);
                            assert(pre.contains(x));
                            assert(a0 != i);
                        }
                        if old(self)@.remove(c).contains(x) {
                            assert(x != c);
                            assert(pre.to_set().contains(x));
                            let a0 = choose|a0: int| 0 <= a0 < pre.len() && pre[a0] == x;
                            assert(a0 != i);
                            let a: int = if a0 < i { a0 } else { a0 - 1 };
                            assert(0 <= a < self.locs@.len());
                            assert(self.locs@[a] == x);
                            assert(self.locs@.contains(x));
                        }
                    });
                }
                return true;
            }
            i += 1;
        }
        proof {
            assert(!pre.contains(c));
            assert_sets_equal!(self@ == old(self)@.remove(c));
        }
        false
    }
}

/// The lock invariant of the shared registry: every state any actor may
/// observe or store is a well-formed registry.
pub struct RegistryPred;

impl RwLockPredicate<CandyRegistry> for RegistryPred {
    open spec fn inv(self, v: CandyRegistry) -> bool {
        v.wf()
    }
}

/// The registry behind a mutual-exclusion lock, shared by reference
/// between the snake engine (remover) and the candy spawner (inserter).
/// Each compound check-then-mutate operation runs under one exclusive
/// acquisition, so at any instant a coordinate is either present or
/// absent — never in a torn in-between state.
pub struct SharedRegistry {
    pub(crate) lock: RwLock<CandyRegistry, RegistryPred>,
}

impl SharedRegistry {
    /// An empty shared registry.
    pub fn new() -> SharedRegistry {
        SharedRegistry { lock: RwLock::new(CandyRegistry::new(), Ghost(RegistryPred)) }
    }

    /// Whether `c` held a candy at the instant of the read acquisition.
    pub fn contains(&self, c: Coord) -> bool {
        let handle = self.lock.acquire_read();
        let r = handle.borrow().contains(c);
        handle.release_read();
        r
    }

    /// Atomically record a candy at `c` unless one is already there,
    /// under one exclusive acquisition. Returns whether it was newly
    /// recorded.
    pub fn insert(&self, c: Coord) -> bool {
        let (mut registry, handle) = self.lock.acquire_write();
        let r = registry.insert(c);
        handle.release_write(registry);
        r
    }

    /// Atomically take the candy at `c` out if one is there, under one
    /// exclusive acquisition. Returns whether one was present.
    pub fn remove(&self, c: Coord) -> bool {
        let (mut registry, handle) = self.lock.acquire_write();
        let r = registry.remove(c);
        handle.release_write(registry);
        r
    }
}

} // verus!
