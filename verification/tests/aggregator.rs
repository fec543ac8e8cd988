use portscan::aggregate::ResultTable;

#[test]
fn a_new_table_is_empty() {
    let table = ResultTable::new();
    assert_eq!(table.len(), 0);
    assert_eq!(table.snapshot(), vec![]);
}

#[test]
fn the_first_observation_inserts_a_count_of_one() {
    let mut table = ResultTable::new();
    table.increment(80);
    assert_eq!(table.snapshot(), vec![(80, 1)]);
}

#[test]
fn repeated_observations_add_up() {
    let mut table = ResultTable::new();
    table.increment(80);
    table.increment(80);
    table.increment(80);
    assert_eq!(table.snapshot(), vec![(80, 3)]);
}

#[test]
fn ports_are_counted_independently() {
    let mut table = ResultTable::new();
    table.increment(80);
    table.increment(443);
    table.increment(80);
    table.increment(22);
    assert_eq!(table.snapshot(), vec![(80, 2), (443, 1), (22, 1)]);
    assert_eq!(table.len(), 3);
}
