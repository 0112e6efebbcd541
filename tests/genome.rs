use morphoid::genes::{GENOME_LENGTH, PHOTOSYNTHESIS, REPRODUCE};
use morphoid::genome::{Genome, GenomeIds};
use morphoid::genome_desc::GenomeDesc;
use morphoid::genome_storage::GenomeStorage;

#[test]
fn partial_eq_impl() {
    let mut ids = GenomeIds::new();
    let genome1 = Genome::new_plant(&mut ids);
    let genome2 = Genome::new_plant(&mut ids);
    let mut genome3 = Genome::new_plant(&mut ids);
    genome3.genes[0] = 22;

    assert_eq!(genome1, genome2);
    assert_ne!(genome2, genome3);
}

#[test]
fn debug_impl() {
    let mut ids = GenomeIds::new();
    let genome1 = Genome::new_plant(&mut ids);
    let genome2 = Genome::new_plant(&mut ids);
    assert_ne!(genome1.id(), genome2.id());
    assert_eq!("Genome genes: 31 31 31", genome1.to_debug_string().split_at(22).0);
}

#[test]
fn clone() {
    let mut ids = GenomeIds::new();
    let genome1 = Genome::new_plant(&mut ids);
    let genome2 = genome1.clone(&mut ids);
    assert_ne!(genome1.id(), genome2.id());
    assert_eq!(genome1, genome2);
}

#[test]
fn mutate() {
    let mut ids = GenomeIds::new();
    let genome1 = Genome::new_plant(&mut ids);
    let mut genome2 = genome1.clone(&mut ids);
    assert_eq!(genome1, genome2);
    genome2.mutate(0, REPRODUCE);
    assert_ne!(genome1, genome2);
}

#[test]
fn genome_desc_test_build_from() {
    let mut ids = GenomeIds::new();
    let desc = GenomeDesc::build_from(&Genome::new_plant(&mut ids));
    assert_eq!(GENOME_LENGTH, desc.photosynthesis);
    assert_eq!(0, desc.attacks);

    let desc2 = GenomeDesc::build_from(&Genome::new_predator(&mut ids));
    assert_eq!(0, desc2.photosynthesis);
    assert_eq!(GENOME_LENGTH, desc2.attacks);
}

#[test]
fn test_get_and_put() {
    let mut ids = GenomeIds::new();
    let mut storage = GenomeStorage::new();
    let genome = Genome::new_plant(&mut ids);
    let old_id = genome.id();

    let new_id = storage.put(genome);
    assert_ne!(new_id, 0);
    assert_eq!(old_id, new_id);

    let found_genome = storage.get(new_id).unwrap();
    assert_eq!(new_id, found_genome.id());
}

#[test]
fn test_describe() {
    let mut ids = GenomeIds::new();
    let mut storage = GenomeStorage::new();
    let id = storage.put(Genome::new_plant(&mut ids));

    let desc = storage.describe(id).unwrap();
    assert_eq!(0, desc.attacks);
    assert_eq!(GENOME_LENGTH, desc.photosynthesis);
}

#[test]
fn it_can_read_and_write_genomes() {
    let mut ids = GenomeIds::new();
    let mut storage = GenomeStorage::new();
    let genome = Genome::new_plant(&mut ids);
    let genome_hash = genome.id();

    let hash = storage.put(genome);
    assert_ne!(hash, 0);
    assert_eq!(genome_hash, hash);

    let found_genome = storage.get(hash).unwrap();
    assert_eq!(hash, found_genome.id());
}

#[test]
fn debug_string_lists_every_gene() {
    let mut ids = GenomeIds::new();
    let mut genome = Genome::new_plant(&mut ids);
    genome.mutate(1, 7);
    genome.mutate(GENOME_LENGTH - 1, 0);
    let text = genome.to_debug_string();
    let mut expected = String::from("Genome genes: 31 7");
    for _ in 2..GENOME_LENGTH - 1 {
        expected.push_str(" 31");
    }
    expected.push_str(" 0");
    assert_eq!(expected, text);
}

#[test]
fn reproducing_plant_alternates_genes() {
    let mut ids = GenomeIds::new();
    let genome = Genome::new_reproducing_plant(&mut ids);
    for i in 0..GENOME_LENGTH {
        let expected = if i % 2 != 0 { REPRODUCE } else { PHOTOSYNTHESIS };
        assert_eq!(expected, genome.genes[i]);
    }
    let desc = GenomeDesc::build_from(&genome);
    assert_eq!(32, desc.reproduces);
    assert_eq!(32, desc.photosynthesis);
}

#[test]
fn descriptors_count_every_category() {
    let mut ids = GenomeIds::new();
    let yeast = GenomeDesc::build_from(&Genome::new_yeast(&mut ids));
    assert_eq!(GENOME_LENGTH, yeast.reproduces);
    let defiler = GenomeDesc::build_from(&Genome::new_defiler(&mut ids));
    assert_eq!(GENOME_LENGTH, defiler.defiles);
    assert_eq!(0, defiler.attacks);
}

#[test]
fn identities_are_handed_out_once() {
    let mut ids = GenomeIds::new();
    let a = Genome::new_plant(&mut ids);
    let b = Genome::new_predator(&mut ids);
    let c = a.clone(&mut ids);
    assert_eq!(1, a.id());
    assert_eq!(2, b.id());
    assert_eq!(3, c.id());
    assert_eq!(4, ids.next);
}

#[test]
fn storage_remove_forgets_genome() {
    let mut ids = GenomeIds::new();
    let mut storage = GenomeStorage::new();
    let id = storage.put(Genome::new_plant(&mut ids));
    storage.remove(id);
    assert!(storage.get(id).is_none());
    assert!(storage.describe(id).is_none());
    storage.remove(id);
}
