use morphoid::cell_state::{CellState, CellStateStorage};
use morphoid::direction::Direction;
use morphoid::genes::GenomeId;
use morphoid::settings::{Settings, SettingsBuilder};
use morphoid::world::World;

#[test]
fn cell_state_storage_it_can_read_and_write_cell_states() {
    let mut storage = CellStateStorage::new();
    let cell_state = CellState::default();
    let hash: GenomeId = 1;
    storage.put(hash, cell_state);
    {
        let state = storage.get_mut(hash);
        assert_eq!(state.health, 10);
        state.health -= 5;
    }

    assert_eq!(storage.get(hash).health, 5);
}

#[test]
fn direction_test_rotate() {
    assert_eq!(Direction::NorthEast, Direction::North.rotate(1));
    assert_eq!(Direction::East, Direction::North.rotate(2));
    assert_eq!(Direction::SouthEast, Direction::NorthEast.rotate(1).rotate(1));
    assert_eq!(Direction::South, Direction::North.rotate(12));
}

#[test]
fn rotation_is_cyclic_of_order_eight() {
    let all = [
        Direction::North,
        Direction::NorthEast,
        Direction::East,
        Direction::SouthEast,
        Direction::South,
        Direction::SouthWest,
        Direction::West,
        Direction::NorthWest,
    ];
    for (i, d) in all.iter().enumerate() {
        assert_eq!(*d, d.rotate(8));
        assert_eq!(d.rotate(1).rotate(1), d.rotate(2));
        assert_eq!(d.rotate(5).rotate(7), d.rotate(12));
        assert_eq!(i, d.index());
        assert_eq!(*d, Direction::by_value(i + 16));
        assert_eq!(all[(i + 1) % 8], d.rotate(1));
    }
    assert_eq!(Direction::North.rotate(12), Direction::North.rotate(4));
    assert_eq!(Direction::NorthWest, Direction::North.rotate(usize::MAX));
}

#[test]
fn shifts_follow_the_compass() {
    assert_eq!((0, -1), Direction::North.shift());
    assert_eq!((1, -1), Direction::NorthEast.shift());
    assert_eq!((1, 0), Direction::East.shift());
    assert_eq!((1, 1), Direction::SouthEast.shift());
    assert_eq!((0, 1), Direction::South.shift());
    assert_eq!((-1, 1), Direction::SouthWest.shift());
    assert_eq!((-1, 0), Direction::West.shift());
    assert_eq!((-1, -1), Direction::NorthWest.shift());
}

#[test]
fn test_builder() {
    let settings = SettingsBuilder::prod()
        .with_reproduce_cost(1)
        .with_reproduce_threshold(2)
        .with_photosynthesis_adds(3)
        .with_attack_damage(4)
        .with_attack_cost(5)
        .with_move_cost(6)
        .with_turn_cost(7)
        .with_sense_cost(8)
        .with_defile_damage(9)
        .with_corpse_decay(10)
        .with_corpse_initial(11)
        .with_defile_cost(12)
        .build();

    assert_eq!(1, settings.reproduce_cost());
    assert_eq!(2, settings.reproduce_threshold());
    assert_eq!(3, settings.photosynthesis_adds());
    assert_eq!(4, settings.attack_damage());
    assert_eq!(5, settings.attack_cost());
    assert_eq!(6, settings.move_cost());
    assert_eq!(7, settings.turn_cost());
    assert_eq!(8, settings.sense_cost());
    assert_eq!(9, settings.defile_damage());
    assert_eq!(10, settings.corpse_decay());
    assert_eq!(11, settings.corpse_initial());
    assert_eq!(12, settings.defile_cost());
}

#[test]
fn can_build2() {
    let settings = SettingsBuilder::prod().with_steps_per_turn(666).build();
    assert_eq!(settings.steps_per_turn(), 666);

    let _world = World::new(1, 1, settings);
}

#[test]
fn prod_and_zero_settings() {
    let prod = Settings::prod();
    assert_eq!(1, prod.steps_per_turn());
    assert_eq!(-10, prod.reproduce_cost());
    assert_eq!(20, prod.reproduce_threshold());
    assert_eq!(5, prod.photosynthesis_adds());
    assert_eq!(10, prod.initial_cell_health());
    assert_eq!(100, prod.attack_damage());
    assert_eq!(-5, prod.attack_cost());
    assert_eq!(-1, prod.defile_cost());
    assert_eq!(20, prod.corpse_initial());
    assert_eq!(500000, prod.mutation_probability());

    let zero = SettingsBuilder::zero();
    assert_eq!(0, zero.reproduce_cost());
    assert_eq!(0, zero.attack_damage());
    assert_eq!(0, zero.corpse_initial());
    assert_eq!(0, zero.mutation_probability());
    assert_eq!(10, zero.initial_cell_health());
    assert_eq!(1, zero.steps_per_turn());

    let custom = SettingsBuilder::prod().with_mutation_probability(7).with_move_cost(-2).build();
    assert_eq!(7, custom.mutation_probability());
    assert_eq!(-2, custom.move_cost());
    assert_eq!(prod.turn_cost(), custom.turn_cost());
}
