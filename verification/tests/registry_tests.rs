use snake_game::registry::{CandyRegistry, SharedRegistry};
use snake_game::Coord;

fn coord(col: u16, row: u16) -> Coord {
    Coord { col, row }
}

#[test]
fn insert_then_contains_then_remove() {
    let mut registry = CandyRegistry::new();
    assert!(!registry.contains(coord(4, 2)));
    assert!(registry.insert(coord(4, 2)));
    assert!(registry.contains(coord(4, 2)));
    assert!(!registry.contains(coord(4, 3)));
    assert!(registry.remove(coord(4, 2)));
    assert!(!registry.contains(coord(4, 2)));
}

#[test]
fn double_insert_reports_already_present() {
    let mut registry = CandyRegistry::new();
    assert!(registry.insert(coord(6, 3)));
    assert!(!registry.insert(coord(6, 3)));
    assert!(registry.remove(coord(6, 3)));
    assert!(!registry.contains(coord(6, 3)));
}

#[test]
fn removing_an_absent_coordinate_reports_absence() {
    let mut registry = CandyRegistry::new();
    assert!(!registry.remove(coord(8, 8)));
    assert!(registry.insert(coord(8, 8)));
    assert!(registry.insert(coord(10, 8)));
    assert!(registry.remove(coord(8, 8)));
    assert!(!registry.remove(coord(8, 8)));
    assert!(registry.contains(coord(10, 8)));
}

#[test]
fn shared_registry_serializes_check_then_mutate() {
    let shared = SharedRegistry::new();
    assert!(!shared.contains(coord(4, 2)));
    assert!(shared.insert(coord(4, 2)));
    assert!(!shared.insert(coord(4, 2)));
    assert!(shared.contains(coord(4, 2)));
    assert!(shared.remove(coord(4, 2)));
    assert!(!shared.remove(coord(4, 2)));
    assert!(!shared.contains(coord(4, 2)));
}
