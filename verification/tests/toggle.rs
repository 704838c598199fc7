use game_of_life::{Cell, World};

#[test]
fn cell_toggle_flips_both_ways() {
    let mut cell = Cell::Dead;
    cell.toggle();
    assert_eq!(cell, Cell::Alive);
    cell.toggle();
    assert_eq!(cell, Cell::Dead);
}

#[test]
fn toggle_changes_only_its_own_index() {
    let mut world = World::new();
    let before = world.cells().clone();
    let (row, col) = (5u32, 11u32);
    let idx = (row * world.width() + col) as usize;
    assert_eq!(before[idx], Cell::Dead);

    world.toggle_cell(row, col);

    let after = world.cells();
    assert_eq!(after.len(), before.len());
    for i in 0..before.len() {
        if i == idx {
            assert_eq!(after[i], Cell::Alive);
        } else {
            assert_eq!(after[i], before[i], "index {}", i);
        }
    }
}

#[test]
fn toggle_turns_a_live_cell_dead() {
    let mut world = World::new();
    assert_eq!(world.cells()[0], Cell::Alive);
    world.toggle_cell(0, 0);
    assert_eq!(world.cells()[0], Cell::Dead);
    assert_eq!(world.cells()[1], Cell::Dead);
    assert_eq!(world.cells()[2], Cell::Alive);
}

#[test]
fn toggle_twice_restores_the_grid() {
    let mut world = World::new();
    let before = world.cells().clone();
    world.toggle_cell(63, 63);
    assert_ne!(world.cells(), &before);
    world.toggle_cell(63, 63);
    assert_eq!(world.cells(), &before);
}

#[test]
fn toggle_keeps_the_dimensions() {
    let mut world = World::from_cells(3, 2, vec![Cell::Dead; 6]).unwrap();
    world.toggle_cell(1, 2);
    assert_eq!(world.width(), 3);
    assert_eq!(world.height(), 2);
    assert_eq!(
        world.cells(),
        &vec![Cell::Dead, Cell::Dead, Cell::Dead, Cell::Dead, Cell::Dead, Cell::Alive]
    );
}

#[test]
fn toggle_at_every_position_of_a_small_grid() {
    for row in 0..4u32 {
        for col in 0..3u32 {
            let mut world = World::from_cells(3, 4, vec![Cell::Dead; 12]).unwrap();
            world.toggle_cell(row, col);
            let mut expected = vec![Cell::Dead; 12];
            expected[(row * 3 + col) as usize] = Cell::Alive;
            assert_eq!(world.cells(), &expected);
        }
    }
}

#[test]
fn toggled_cells_take_part_in_the_next_generation() {
    let mut world = World::from_cells(5, 5, vec![Cell::Dead; 25]).unwrap();
    world.toggle_cell(2, 1);
    world.toggle_cell(2, 2);
    world.toggle_cell(2, 3);
    world.tick();
    let mut expected = vec![Cell::Dead; 25];
    expected[7] = Cell::Alive;
    expected[12] = Cell::Alive;
    expected[17] = Cell::Alive;
    assert_eq!(world.cells(), &expected);
}
