use autodiff_graph::generator::IdGenerator;
use autodiff_graph::node::NodeID;

#[test]
fn fresh_generator_starts_at_zero() {
    let mut generator = IdGenerator::new();
    let id = NodeID::new(&mut generator);
    assert_eq!(id.value, 0);
}

#[test]
fn three_ids_in_sequence_increase_without_gaps() {
    let mut generator = IdGenerator::new();
    let a = NodeID::new(&mut generator);
    let b = NodeID::new(&mut generator);
    let c = NodeID::new(&mut generator);
    assert!(a.value < b.value && b.value < c.value);
    assert_eq!(a.value, 0);
    assert_eq!(b.value, 1);
    assert_eq!(c.value, 2);
}

#[test]
fn generated_ids_are_pairwise_distinct() {
    let mut generator = IdGenerator::new();
    let mut ids: Vec<NodeID> = Vec::new();
    for _ in 0..100 {
        ids.push(generator.generate());
    }
    for i in 0..ids.len() {
        for j in 0..ids.len() {
            if i != j {
                assert_ne!(ids[i], ids[j]);
            }
        }
    }
}

#[test]
fn ids_from_later_calls_are_strictly_greater() {
    let mut generator = IdGenerator::new();
    let mut previous = generator.generate();
    for _ in 0..50 {
        let next = generator.generate();
        assert!(previous.value < next.value);
        previous = next;
    }
}

#[test]
fn ids_are_totally_ordered_and_hashable() {
    let mut generator = IdGenerator::new();
    let a = NodeID::new(&mut generator);
    let b = NodeID::new(&mut generator);
    assert!(a < b);
    let mut table = std::collections::HashSet::new();
    assert!(table.insert(a));
    assert!(table.insert(b));
    assert!(!table.insert(a));
}
