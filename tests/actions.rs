use morphoid::action::{
    Action, AttackAction, DecayAction, DefileAction, KillAction, MoveAction, ReproduceAction,
    RotateAction, UpdateHealthAction,
};
use morphoid::cell_state::CellState;
use morphoid::direction::Direction;
use morphoid::entity::Entity;
use morphoid::genes::{MOVE, TURN};
use morphoid::genome::{Genome, GenomeIds};
use morphoid::processor::Processor;
use morphoid::settings::SettingsBuilder;
use morphoid::world::World;

#[test]
fn test_update_health() {
    let mut ids = GenomeIds::new();
    let mut world = World::prod(1, 1);
    let plant = Genome::new_plant(&mut ids);
    let hash = plant.id();
    world.set_entity(0, 0, Entity::Cell(hash), Some(plant), Some(CellState::default()));

    assert_eq!(world.get_state(hash).health, 10);

    Processor::new().apply(&vec![Action::UpdateHealth(UpdateHealthAction::new(0, 0, 5))], &mut world);

    assert_eq!(world.get_state(hash).health, 15);
}

#[test]
fn test_reproduce() {
    let mut ids = GenomeIds::new();
    let mut world = World::prod(2, 1);
    let plant = Genome::new_plant(&mut ids);
    let genome_id = plant.id();
    world.set_cell_ext(0, 0, plant, Direction::East);

    Processor::new().apply(&vec![Action::Reproduce(ReproduceAction::new(0, 0))], &mut world);

    match world.get_entity(1, 0) {
        Entity::Cell(new_hash) => {
            assert_ne!(*new_hash, genome_id);
            assert_eq!(world.get_state(*new_hash).health, 10);
        }
        _ => panic!("Cant find reproduced entity"),
    }
}

#[test]
fn test_attack() {
    let mut ids = GenomeIds::new();
    let settings = SettingsBuilder::zero();
    let new_value = settings.initial_cell_health() + settings.attack_cost();

    let mut world = World::new(2, 1, settings);
    world.set_cell_ext(0, 0, Genome::new_plant(&mut ids), Direction::East);
    world.set_cell_ext(1, 0, Genome::new_predator(&mut ids), Direction::West);

    Processor::new().apply(&vec![Action::Attack(AttackAction::new(1, 1, 100))], &mut world);

    match world.get_entity(0, 0) {
        Entity::Corpse(_) => {}
        _ => panic!("Cell survived after 100 of damage!"),
    }

    match world.get_entity(1, 0) {
        Entity::Cell(genome_id) => {
            assert!(world.get_state(*genome_id).health > new_value);
        }
        _ => panic!("Predator cell should have high health!"),
    }
}

#[test]
fn test_move() {
    let mut ids = GenomeIds::new();
    let mut world = World::prod(2, 1);
    let mut plant = Genome::new_plant(&mut ids);
    plant.mutate(0, MOVE);

    let genome_id = plant.id();

    world.set_cell_ext(0, 0, plant, Direction::East);

    Processor::new().apply(&vec![Action::Move(MoveAction::new(0, 0))], &mut world);

    match world.get_entity(0, 0) {
        Entity::Nothing => {}
        _ => panic!("Cell should have moved away"),
    }

    match world.get_entity(1, 0) {
        Entity::Cell(new_hash) => {
            assert_eq!(*new_hash, genome_id);
        }
        _ => panic!("Cell should have moved in"),
    }
}

#[test]
fn action_test_rotate() {
    let mut ids = GenomeIds::new();
    let mut world = World::prod(1, 1);
    let mut plant = Genome::new_plant(&mut ids);
    plant.mutate(0, TURN);
    plant.mutate(1, 1);

    let genome_id = plant.id();

    world.set_cell_ext(0, 0, plant, Direction::North);

    Processor::new().apply(&vec![Action::Rotate(RotateAction::new(0, 0, 1))], &mut world);

    match world.get_entity(1, 0) {
        Entity::Cell(new_genome_id) => {
            let cell_state = world.get_state(*new_genome_id);
            assert_eq!(Direction::NorthEast, cell_state.direction);
            assert_eq!(genome_id, *new_genome_id);
        }
        _ => {}
    }
}

#[test]
fn test_defile() {
    let mut ids = GenomeIds::new();
    let settings = SettingsBuilder::prod()
        .with_initial_cell_health(10)
        .with_corpse_initial(10)
        .with_defile_damage(5)
        .with_defile_cost(-3)
        .build();

    let new_health = settings.initial_cell_health() + settings.defile_cost() + settings.defile_damage();

    let mut world = World::new(2, 1, settings);
    world.set_cell_ext(0, 0, Genome::new_predator(&mut ids), Direction::East);
    world.set_corpse(1, 0, 10);

    Processor::new().apply(&vec![Action::Defile(DefileAction::new(0, 0, 5))], &mut world);

    match world.get_entity(0, 0) {
        Entity::Cell(genome_id) => {
            assert_eq!(new_health, world.get_state(*genome_id).health);
        }
        _ => panic!("There should be a predator"),
    }

    match world.get_entity(1, 0) {
        Entity::Corpse(remains) => assert_eq!(5, *remains),
        _ => panic!("Corpse should stay here"),
    }
}

#[test]
fn integration_can_do_kill_entity_action() {
    let mut ids = GenomeIds::new();
    let mut world = World::prod(1, 1);
    let plant = Genome::new_plant(&mut ids);
    let hash = plant.id();
    world.set_entity(0, 0, Entity::Cell(hash), Some(plant), Some(CellState::default()));

    match world.get_entity(0, 0) {
        Entity::Cell(old_hash) => assert_eq!(*old_hash, hash),
        _ => panic!(),
    }

    Processor::new().apply(&vec![Action::Kill(KillAction::new(0, 0))], &mut world);

    match world.get_entity(0, 0) {
        Entity::Corpse(_) => {}
        _ => panic!(),
    }
}

#[test]
fn integration_can_do_update_health() {
    let mut ids = GenomeIds::new();
    let mut world = World::prod(1, 1);
    let plant = Genome::new_plant(&mut ids);
    let hash = plant.id();
    world.set_entity(0, 0, Entity::Cell(hash), Some(plant), Some(CellState::default()));

    Processor::new().apply(&vec![Action::UpdateHealth(UpdateHealthAction::new(0, 0, -100))], &mut world);

    match world.get_entity(0, 0) {
        Entity::Corpse(_) => {}
        _ => panic!("Cell should be dead here"),
    }
}

#[test]
fn defile_eats_the_whole_corpse_and_clears_it() {
    let mut ids = GenomeIds::new();
    let mut world = World::new(2, 1, SettingsBuilder::zero());
    world.set_cell_ext(0, 0, Genome::new_defiler(&mut ids), Direction::East);
    world.set_corpse(1, 0, 4);
    world.defile(0, 0, 10);
    assert_eq!(Entity::Nothing, *world.get_entity(1, 0));
    assert_eq!(14, world.get_state_by_pos(0, 0).unwrap().health);
}

#[test]
fn decay_shrinks_and_then_clears_a_corpse() {
    let mut world = World::new(2, 1, SettingsBuilder::zero());
    world.set_corpse(1, 0, 5);
    Processor::new().apply(&vec![Action::Decay(DecayAction::new(1, 0, 2))], &mut world);
    assert_eq!(Entity::Corpse(3), *world.get_entity(1, 0));
    world.decay(1, 0, 3);
    assert_eq!(Entity::Nothing, *world.get_entity(1, 0));
}

#[test]
fn costs_are_charged_before_the_effect() {
    let mut ids = GenomeIds::new();
    let settings = SettingsBuilder::zero();
    let mut builder = SettingsBuilder::prod();
    builder.settings = settings;
    let settings = builder.with_move_cost(-15).build();
    let mut world = World::new(2, 1, settings);
    world.set_cell_ext(0, 0, Genome::new_plant(&mut ids), Direction::East);
    world.punish_for_action(0, 0, MOVE);
    match world.get_entity(0, 0) {
        Entity::Corpse(_) => {}
        _ => panic!("a charge below zero kills"),
    }
    world.move_cell(0, 0);
    assert_eq!(Entity::Nothing, *world.get_entity(1, 0));
}

#[test]
fn attack_on_nothing_gains_nothing() {
    let mut ids = GenomeIds::new();
    let mut world = World::new(2, 1, SettingsBuilder::zero());
    let predator = Genome::new_predator(&mut ids);
    let id = predator.id();
    world.set_cell_ext(0, 0, predator, Direction::East);
    world.attack(0, 0, 100);
    assert_eq!(10, world.get_state(id).health);
}
