use snake_game::candy_spawner::{dwell_elapsed, CandySpawner, CANDY_GLYPH, SPAWN_DWELL_MS};
use snake_game::registry::{CandyRegistry, SharedRegistry};
use snake_game::{Coord, TerminalSize};

#[test]
fn smallest_interior_has_exactly_one_spawn_cell() {
    // n_cols = 8 and n_rows = 5 leave a single interior cell: (4, 2).
    let spawner = CandySpawner::new(TerminalSize {
        n_cols: 8,
        n_rows: 5,
    });
    let mut registry = CandyRegistry::new();
    let draw = spawner.add_new_candy(&mut registry).unwrap();
    assert_eq!(draw.at, Coord { col: 4, row: 2 });
    assert_eq!(draw.glyph, CANDY_GLYPH);
    assert!(registry.contains(Coord { col: 4, row: 2 }));
}

#[test]
fn full_interior_yields_no_candy() {
    let spawner = CandySpawner::new(TerminalSize {
        n_cols: 8,
        n_rows: 5,
    });
    let mut registry = CandyRegistry::new();
    assert!(spawner.add_new_candy(&mut registry).is_some());
    assert!(spawner.add_new_candy(&mut registry).is_none());
    assert!(registry.contains(Coord { col: 4, row: 2 }));
}

#[test]
fn spawned_candy_lies_in_the_interior() {
    let spawner = CandySpawner::new(TerminalSize {
        n_cols: 40,
        n_rows: 20,
    });
    let mut registry = CandyRegistry::new();
    for _ in 0..50 {
        if let Some(draw) = spawner.add_new_candy(&mut registry) {
            assert_eq!(draw.at.col % 2, 0);
            assert!((2..19).contains(&(draw.at.col / 2)));
            assert!((2..18).contains(&draw.at.row));
            assert!(registry.contains(draw.at));
        }
    }
}

#[test]
fn shared_spawning_fills_the_shared_registry() {
    let spawner = CandySpawner::new(TerminalSize {
        n_cols: 8,
        n_rows: 5,
    });
    let shared = SharedRegistry::new();
    let draw = spawner.add_new_candy_shared(&shared).unwrap();
    assert_eq!(draw.at, Coord { col: 4, row: 2 });
    assert!(shared.contains(draw.at));
    assert!(spawner.add_new_candy_shared(&shared).is_none());
}

#[test]
fn dwell_threshold_is_four_seconds() {
    assert_eq!(SPAWN_DWELL_MS, 4000);
    assert!(dwell_elapsed(4000));
    assert!(dwell_elapsed(9001));
    assert!(!dwell_elapsed(3999));
    assert!(!dwell_elapsed(0));
}
