use morphoid::action::{Action, AttackAction, ReproduceAction};
use morphoid::cell_state::CellState;
use morphoid::direction::Direction;
use morphoid::entity::Entity;
use morphoid::genes::{ATTACK, GENOME_LENGTH, REPRODUCE, TURN};
use morphoid::genome::{Genome, GenomeIds};
use morphoid::info::EntityProjection;
use morphoid::processor::Processor;
use morphoid::settings::{Settings, SettingsBuilder};
use morphoid::world::World;

#[test]
fn test_get_index() {
    let world = World::prod(2, 1);

    assert_eq!(world.get_index(-2, 0), 0);
    assert_eq!(world.get_index(-1, 0), 1);
    assert_eq!(world.get_index(0, 0), 0);
    assert_eq!(world.get_index(1, 0), 1);
    assert_eq!(world.get_index(2, 0), 0);

    assert_eq!(world.get_index(0, 0), 0);
    assert_eq!(world.get_index(0, 1), 0);
    assert_eq!(world.get_index(0, 2), 0);
    assert_eq!(world.get_index(0, -2), 0);
    assert_eq!(world.get_index(0, -1), 0);

    assert_eq!(world.get_index(1, 0), 1);
    assert_eq!(world.get_index(1, 1), 1);
    assert_eq!(world.get_index(1, 2), 1);
    assert_eq!(world.get_index(1, -2), 1);
    assert_eq!(world.get_index(1, -1), 1);
}

#[test]
fn test_looking_at() {
    let mut ids = GenomeIds::new();
    let mut world = World::prod(1, 1);
    let plant = Genome::new_plant(&mut ids);

    world.set_entity(
        1,
        0,
        Entity::Cell(plant.id()),
        Some(plant),
        Some(CellState { health: 10, direction: Direction::North }),
    );

    assert_eq!(Some((0, -1)), world.looking_at(0, 0));

    world.rotate_cell(0, 0, 1);
    assert_eq!(Some((1, -1)), world.looking_at(0, 0));

    world.rotate_cell(0, 0, 1);
    assert_eq!(Some((1, 0)), world.looking_at(0, 0));

    world.rotate_cell(0, 0, 1);
    assert_eq!(Some((1, 1)), world.looking_at(0, 0));

    world.rotate_cell(0, 0, 2);
    assert_eq!(Some((-1, 1)), world.looking_at(0, 0));
}

#[test]
fn test_find_target_around() {
    let mut ids = GenomeIds::new();
    let mut world = World::prod(3, 3);
    for x in 0..3 {
        for y in 0..3 {
            let genome = Genome::new_predator(&mut ids);
            world.set_cell(x, y, genome);
        }
    }

    assert_eq!(world.find_target_around(1, 1), Some((0, 0)));

    world.set_nothing(0, 0);
    assert_eq!(world.find_target_around(1, 1), Some((1, 0)));

    world.set_nothing(1, 0);
    assert_eq!(world.find_target_around(1, 1), Some((2, 0)));

    world.set_nothing(2, 0);
    assert_eq!(world.find_target_around(1, 1), Some((0, 1)));
}

#[test]
fn test_update_health_addition() {
    let mut ids = GenomeIds::new();
    let settings = Settings::prod();
    let initial_cell_health = settings.initial_cell_health();

    let mut world = World::new(1, 1, settings);
    world.set_cell(0, 0, Genome::new_plant(&mut ids));

    assert_eq!(world.update_health(0, 0, 10), -10);

    assert_eq!(
        world.get_state_by_pos(0, 0).expect("There should be cell here").health,
        initial_cell_health + 10
    );
}

#[test]
fn test_update_health_small_damage() {
    let mut ids = GenomeIds::new();
    let settings = Settings::prod();
    let initial_cell_health = settings.initial_cell_health();

    let mut world = World::new(1, 1, settings);
    world.set_cell(0, 0, Genome::new_plant(&mut ids));

    assert_eq!(world.update_health(0, 0, -initial_cell_health + 5), initial_cell_health - 5);

    assert_eq!(world.get_state_by_pos(0, 0).expect("There should be cell here").health, 5);
}

#[test]
fn test_update_health_big_damage() {
    let mut ids = GenomeIds::new();
    let settings = Settings::prod();
    let initial_cell_health = settings.initial_cell_health();

    let mut world = World::new(1, 1, settings);
    world.set_cell(0, 0, Genome::new_plant(&mut ids));

    assert_eq!(world.update_health(0, 0, -initial_cell_health - 1), initial_cell_health);

    match world.get_entity(0, 0) {
        Entity::Cell(_) => panic!("Cell should be dead!"),
        _ => {}
    }
}

#[test]
fn integration_test_it_reproduces() {
    let mut ids = GenomeIds::new();
    let settings = SettingsBuilder::prod()
        .with_reproduce_threshold(9)
        .with_photosynthesis_adds(5)
        .with_initial_cell_health(10)
        .with_reproduce_cost(6)
        .build();

    let initial_cell_health = settings.initial_cell_health();

    let new_value = settings.initial_cell_health() + settings.reproduce_cost();

    let mut world = World::new(2, 1, settings);

    let plant = Genome::new_yeast(&mut ids);
    let genome_id = plant.id();

    world.set_nothing(0, 0);
    world.set_entity(
        1,
        0,
        Entity::Cell(genome_id),
        Some(plant),
        Some(CellState { health: initial_cell_health, direction: Direction::West }),
    );

    world.tick(&mut Processor::new());

    let current_health = world.get_state_by_pos(1, 0).unwrap().health;

    println!("TEST: curent_health: {:?} expected: {:?}", current_health, new_value);
    assert_eq!(new_value, current_health);

    match world.get_entity(0, 0) {
        Entity::Cell(another) => assert_ne!(*another, genome_id),
        _ => panic!("New cell was not reproduced!"),
    }

    assert_eq!(world.get_state_by_pos(0, 0).unwrap().health, initial_cell_health);
}

#[test]
fn integration_test_and_then_there_were_none() {
    let mut ids = GenomeIds::new();
    let settings = SettingsBuilder::prod().with_attack_cost(1).with_attack_damage(100).build();
    let mut processor = Processor::new();
    let mut world = World::new(3, 3, settings);

    for x in 0..3 {
        for y in 0..3 {
            if x != 1 || y != 1 {
                let genome = Genome::new_plant(&mut ids);
                world.set_cell(x, y, genome);
            }
        }
    }

    let mut genome = Genome::new_predator(&mut ids);
    for i in (0..27).step_by(3) {
        genome.mutate(i, ATTACK);
        genome.mutate(i + 1, TURN);
        genome.mutate(i + 2, 1);
    }

    world.set_cell_ext(1, 1, genome, Direction::North);

    for _ in 0..(2 * 9) {
        world.tick(&mut processor)
    }

    for x in 0..2 {
        for y in 0..2 {
            if x != y {
                match world.get_entity(x, y) {
                    Entity::Corpse(_) => {}
                    _ => panic!("{}", format!("This guys is not dead! x = {:?}, y = {:?}", x, y)),
                }
            }
        }
    }

    match world.get_entity(1, 1) {
        Entity::Cell(_) => {}
        _ => panic!("The killer must survive!"),
    }
}

#[test]
fn integration_test_plant_reproduce_if_have_enough() {
    let mut ids = GenomeIds::new();
    let settings = SettingsBuilder::prod().with_reproduce_cost(0).with_reproduce_threshold(4).build();

    let mut processor = Processor::new();
    let mut world = World::new(2, 1, settings);
    let mut plant = Genome::new_plant(&mut ids);
    plant.mutate(1, REPRODUCE);
    let hash = plant.id();

    world.set_cell_ext(0, 0, plant, Direction::East);
    world.set_nothing(1, 0);

    world.tick(&mut processor);

    match world.get_entity(1, 0) {
        Entity::Nothing => {}
        _ => panic!("New cell was created! WTF?"),
    }

    world.tick(&mut processor);

    match world.get_entity(1, 0) {
        Entity::Cell(another_hash) => assert_ne!(*another_hash, hash),
        _ => panic!("New cell was not reproduced!"),
    }
}

#[test]
fn integration_test_order_of_execution_parent_killed() {
    let mut ids = GenomeIds::new();
    let mut world = World::new(3, 1, SettingsBuilder::zero());

    world.set_cell_ext(1, 0, Genome::new_yeast(&mut ids), Direction::West);
    world.set_cell_ext(2, 0, Genome::new_predator(&mut ids), Direction::West);

    Processor::new().apply(
        &vec![
            Action::Attack(AttackAction::new(2, 0, 100)),
            Action::Reproduce(ReproduceAction::new(1, 0)),
        ],
        &mut world,
    );

    match world.get_entity(1, 0) {
        Entity::Corpse(_) => {}
        _ => panic!("Parent should have been destroyed"),
    }

    match world.get_entity(0, 0) {
        Entity::Nothing => {}
        _ => panic!("Nothing should be born"),
    }
}

#[test]
fn integration_test_order_of_execution_parent_gives_birth() {
    let mut ids = GenomeIds::new();
    let settings = SettingsBuilder::zero();

    let mut world = World::new(3, 1, settings);
    world.set_cell_ext(1, 0, Genome::new_yeast(&mut ids), Direction::West);
    world.set_cell_ext(2, 0, Genome::new_predator(&mut ids), Direction::West);

    Processor::new().apply(
        &vec![
            Action::Reproduce(ReproduceAction::new(1, 0)),
            Action::Attack(AttackAction::new(2, 0, 100)),
        ],
        &mut world,
    );

    match world.get_entity(1, 0) {
        Entity::Corpse(_) => {}
        _ => panic!("Parent should have been destroyed"),
    }

    match world.get_entity(0, 0) {
        Entity::Cell(_) => {}
        _ => panic!("But new life survived!"),
    }
}

#[test]
fn types_test_world_info() {
    let mut ids = GenomeIds::new();
    let mut world = World::prod(3, 2);

    world.set_cell(0, 0, Genome::new_plant(&mut ids));
    world.set_corpse(1, 0, 10);
    world.set_nothing(2, 0);

    world.set_cell(0, 1, Genome::new_predator(&mut ids));
    world.set_cell(1, 1, Genome::new_yeast(&mut ids));
    world.set_cell(2, 1, Genome::new_defiler(&mut ids));

    assert_eq!(world.width, 3);
    assert_eq!(world.height, 2);

    let counts = |p: EntityProjection| match p {
        EntityProjection::Cell { desc, .. } => {
            (desc.reproduces, desc.attacks, desc.photosynthesis, desc.defiles)
        }
        _ => panic!("expected a cell"),
    };
    assert_eq!((0, 0, 64, 0), counts(world.project(0, 0)));
    assert_eq!(EntityProjection::Corpse, world.project(1, 0));
    assert_eq!(EntityProjection::Nothing, world.project(2, 0));

    assert_eq!((0, 64, 0, 0), counts(world.project(0, 1)));
    assert_eq!((64, 0, 0, 0), counts(world.project(1, 1)));
    assert_eq!((0, 0, 0, 64), counts(world.project(2, 1)));
}

#[test]
fn toroidal_index_on_a_wider_grid() {
    let world = World::prod(3, 2);
    for x in -7..7 {
        for y in -5..5 {
            let i = world.get_index(x, y);
            assert_eq!(i, world.get_index(x.rem_euclid(3), y.rem_euclid(2)));
            assert_eq!(i, world.get_index(x + 3 * 4, y - 2 * 3));
        }
    }
    assert_eq!(world.get_index(-1, -1), 5);
    assert_eq!(World::normalize(i32::MIN, 3), i32::MIN.rem_euclid(3));
    assert_eq!(World::normalize(i32::MAX, 7), i32::MAX.rem_euclid(7));
    assert_eq!(World::normalize(-6, 3), 0);
}

#[test]
fn looking_at_the_edge_of_the_coordinates() {
    let mut ids = GenomeIds::new();
    let mut world = World::new(3, 1, SettingsBuilder::zero());
    let genome = Genome::new_plant(&mut ids);
    world.set_cell_ext(i32::MAX, 0, genome, Direction::East);
    assert_eq!(Some((2, 0)), world.looking_at(i32::MAX, 0));
    assert_eq!(1, world.get_index(i32::MAX, 0));
    assert_eq!(None, world.looking_at(0, 0));
}

#[test]
fn vacant_place_scan_skips_occupied_neighbours() {
    let mut ids = GenomeIds::new();
    let mut world = World::new(3, 3, SettingsBuilder::zero());
    world.set_cell(0, 0, Genome::new_plant(&mut ids));
    world.set_corpse(1, 0, 3);
    assert_eq!(Some((2, 0)), world.find_vacant_place_around(1, 1));
    assert_eq!(Some((3, 3)), world.find_target_around(2, 2));
}

#[test]
fn lethal_update_reports_only_what_was_there() {
    let mut ids = GenomeIds::new();
    let settings = SettingsBuilder::prod().with_initial_cell_health(37).build();
    let mut world = World::new(1, 1, settings);
    world.set_cell(0, 0, Genome::new_plant(&mut ids));
    assert_eq!(37, world.update_health(0, 0, -38));
    assert_eq!(Entity::Corpse(20), *world.get_entity(0, 0));
    assert_eq!(0, world.update_health(0, 0, -5));
}

#[test]
fn child_copies_parent_without_mutation() {
    let mut ids = GenomeIds::new();
    let mut world = World::new(2, 1, SettingsBuilder::zero());
    let mut parent = Genome::new_plant(&mut ids);
    parent.mutate(3, ATTACK);
    parent.mutate(9, 5);
    let parent_id = parent.id();
    world.set_cell_ext(0, 0, parent, Direction::East);
    world.reproduce(0, 0);
    let child_id = match world.get_entity(1, 0) {
        Entity::Cell(id) => *id,
        _ => panic!("no child"),
    };
    assert_ne!(parent_id, child_id);
    assert_eq!(world.get_genome(parent_id).unwrap(), world.get_genome(child_id).unwrap());
    assert_eq!(10, world.get_state(child_id).health);
}

#[test]
fn reproduction_never_overwrites_a_living_cell() {
    let mut ids = GenomeIds::new();
    let mut world = World::new(2, 1, SettingsBuilder::zero());
    world.set_cell_ext(0, 0, Genome::new_yeast(&mut ids), Direction::East);
    let other = Genome::new_plant(&mut ids);
    let other_id = other.id();
    world.set_cell(1, 0, other);
    world.reproduce(0, 0);
    assert_eq!(Entity::Cell(other_id), *world.get_entity(1, 0));
}

#[test]
fn cell_info_describes_the_organism() {
    let mut ids = GenomeIds::new();
    let mut world = World::prod(2, 2);
    let genome = Genome::new_predator(&mut ids);
    let id = genome.id();
    world.set_cell_ext(1, 1, genome, Direction::SouthWest);
    let info = world.cell_info(1, 1).unwrap();
    assert_eq!(1, info.x);
    assert_eq!(1, info.y);
    assert_eq!(10, info.health);
    assert_eq!(5, info.direction);
    assert_eq!(id, info.genome_id);
    assert_eq!(vec![ATTACK; GENOME_LENGTH], info.genome);
    assert!(world.cell_info(0, 0).is_none());
}

#[test]
fn settings_can_be_replaced() {
    let mut world = World::prod(1, 1);
    world.update_settings(SettingsBuilder::zero());
    assert_eq!(SettingsBuilder::zero(), world.get_settings());
}
