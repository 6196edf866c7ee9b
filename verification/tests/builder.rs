use universe::{BlackHole, Type};

#[test]
fn new_with_build() {
    let black_hole = BlackHole::new()
        .name("Gargantua")
        .discovered_by("Dr. Mann")
        .year_of_discovery(2400)
        .mass((123456789.0f64).to_bits())
        .classification(Type::SuperMassive)
        .electric_charge((2345.6f64).to_bits())
        .angular_momentum((12345.0f64).to_bits())
        .build();

    assert_eq!("Gargantua", black_hole.name);
    assert_eq!("Dr. Mann", black_hole.discovered_by);
    assert_eq!(2400, black_hole.year_of_discovery);
    assert_eq!(Some((123456789.0f64).to_bits()), black_hole.mass);
    assert_eq!(Some(Type::SuperMassive), black_hole.classification);
    assert_eq!(Some((2345.6f64).to_bits()), black_hole.electric_charge);
    assert_eq!(Some((12345.0f64).to_bits()), black_hole.angular_momentum);
}

#[test]
fn new_with_copy() {
    let builder = BlackHole::new()
        .name("Gargantua")
        .discovered_by("Dr. Mann")
        .year_of_discovery(2400)
        .mass((123456789.0f64).to_bits())
        .classification(Type::SuperMassive)
        .electric_charge((2345.6f64).to_bits())
        .angular_momentum((12345.0f64).to_bits());

    let black_hole_1 = builder.build_copy();
    let black_hole_2 = builder.build_copy();

    assert_eq!(black_hole_1.name, black_hole_2.name);
    assert_eq!(black_hole_1.discovered_by, black_hole_2.discovered_by);
    assert_eq!(black_hole_1.year_of_discovery, black_hole_2.year_of_discovery);
    assert_eq!(black_hole_1.mass, black_hole_2.mass);
    assert_eq!(black_hole_1.classification, black_hole_2.classification);
    assert_eq!(black_hole_1.electric_charge, black_hole_2.electric_charge);
    assert_eq!(black_hole_1.angular_momentum, black_hole_2.angular_momentum);
}

#[test]
fn full_chain_records_every_field() {
    let record = BlackHole::new()
        .name("Gargantua")
        .discovered_by("Dr. Mann")
        .year_of_discovery(2400)
        .mass((1.2e8f64).to_bits())
        .electric_charge((2345.6f64).to_bits())
        .angular_momentum((12345.0f64).to_bits())
        .build();

    assert_eq!("Gargantua", record.name);
    assert_eq!("Dr. Mann", record.discovered_by);
    assert_eq!(2400, record.year_of_discovery);
    assert_eq!(Some(1.2e8f64), record.mass.map(f64::from_bits));
    assert_eq!(Some(2345.6f64), record.electric_charge.map(f64::from_bits));
    assert_eq!(Some(12345.0f64), record.angular_momentum.map(f64::from_bits));
    assert_eq!(None, record.classification);
}

#[test]
fn omitted_charge_keeps_default() {
    let record = BlackHole::new()
        .name("Gargantua")
        .discovered_by("Dr. Mann")
        .year_of_discovery(2400)
        .mass((1.2e8f64).to_bits())
        .angular_momentum((12345.0f64).to_bits())
        .build();

    assert_eq!(None, record.electric_charge);
    assert_eq!("Gargantua", record.name);
    assert_eq!("Dr. Mann", record.discovered_by);
    assert_eq!(2400, record.year_of_discovery);
    assert_eq!(Some((1.2e8f64).to_bits()), record.mass);
    assert_eq!(Some((12345.0f64).to_bits()), record.angular_momentum);
    assert_eq!(None, record.classification);
}

#[test]
fn no_optional_setter_leaves_all_defaults() {
    let record = BlackHole::new()
        .name("Cygnus X-1")
        .discovered_by("Bolton")
        .year_of_discovery(1971)
        .build();

    assert_eq!("Cygnus X-1", record.name);
    assert_eq!("Bolton", record.discovered_by);
    assert_eq!(1971, record.year_of_discovery);
    assert_eq!(None, record.mass);
    assert_eq!(None, record.angular_momentum);
    assert_eq!(None, record.electric_charge);
    assert_eq!(None, record.classification);
}

#[test]
fn repeated_setter_last_write_wins() {
    let record = BlackHole::new()
        .name("Gargantua")
        .discovered_by("Dr. Mann")
        .year_of_discovery(2400)
        .mass((1.0f64).to_bits())
        .mass((2.0f64).to_bits())
        .classification(Type::Stellar)
        .classification(Type::Micro)
        .build();

    assert_eq!(Some((2.0f64).to_bits()), record.mass);
    assert_eq!(Some(Type::Micro), record.classification);
}

#[test]
fn optional_setter_order_is_free() {
    let charge_first = BlackHole::new()
        .name("Gargantua")
        .discovered_by("Dr. Mann")
        .year_of_discovery(2400)
        .electric_charge((2345.6f64).to_bits())
        .angular_momentum((12345.0f64).to_bits())
        .build();

    let spin_first = BlackHole::new()
        .name("Gargantua")
        .discovered_by("Dr. Mann")
        .year_of_discovery(2400)
        .angular_momentum((12345.0f64).to_bits())
        .electric_charge((2345.6f64).to_bits())
        .build();

    assert_eq!(charge_first.name, spin_first.name);
    assert_eq!(charge_first.discovered_by, spin_first.discovered_by);
    assert_eq!(charge_first.year_of_discovery, spin_first.year_of_discovery);
    assert_eq!(charge_first.mass, spin_first.mass);
    assert_eq!(charge_first.angular_momentum, spin_first.angular_momentum);
    assert_eq!(charge_first.electric_charge, spin_first.electric_charge);
    assert_eq!(charge_first.classification, spin_first.classification);
}

#[test]
fn snapshots_without_mutation_are_equal_and_independent() {
    let builder = BlackHole::new()
        .name("Gargantua")
        .discovered_by("Dr. Mann")
        .year_of_discovery(2400)
        .mass((1.2e8f64).to_bits());

    let mut snapshot_1 = builder.build_copy();
    let snapshot_2 = builder.build_copy();

    assert_eq!(snapshot_1.name, snapshot_2.name);
    assert_eq!(snapshot_1.discovered_by, snapshot_2.discovered_by);
    assert_eq!(snapshot_1.year_of_discovery, snapshot_2.year_of_discovery);
    assert_eq!(snapshot_1.mass, snapshot_2.mass);
    assert_eq!(snapshot_1.angular_momentum, snapshot_2.angular_momentum);
    assert_eq!(snapshot_1.electric_charge, snapshot_2.electric_charge);
    assert_eq!(snapshot_1.classification, snapshot_2.classification);

    snapshot_1.name = String::from("Pantagruel");
    snapshot_1.mass = None;
    assert_eq!("Gargantua", snapshot_2.name);
    assert_eq!(Some((1.2e8f64).to_bits()), snapshot_2.mass);

    let snapshot_3 = builder.build_copy();
    assert_eq!("Gargantua", snapshot_3.name);
    assert_eq!(Some((1.2e8f64).to_bits()), snapshot_3.mass);
}

#[test]
fn snapshots_around_a_mutation_differ_only_in_that_field() {
    let builder = BlackHole::new()
        .name("Gargantua")
        .discovered_by("Dr. Mann")
        .year_of_discovery(2400)
        .mass((1.2e8f64).to_bits());

    let before = builder.build_copy();
    let builder = builder.electric_charge((2345.6f64).to_bits());
    let after = builder.build_copy();

    assert_eq!(None, before.electric_charge);
    assert_eq!(Some((2345.6f64).to_bits()), after.electric_charge);
    assert_eq!(before.name, after.name);
    assert_eq!(before.discovered_by, after.discovered_by);
    assert_eq!(before.year_of_discovery, after.year_of_discovery);
    assert_eq!(before.mass, after.mass);
    assert_eq!(before.angular_momentum, after.angular_momentum);
    assert_eq!(before.classification, after.classification);
}

#[test]
fn snapshot_then_build_agree() {
    let builder = BlackHole::new()
        .name("Sagittarius A*")
        .discovered_by("Balick and Brown")
        .year_of_discovery(1974)
        .classification(Type::SuperMassive);

    let snapshot = builder.build_copy();
    let record = builder.build();

    assert_eq!(snapshot.name, record.name);
    assert_eq!(snapshot.discovered_by, record.discovered_by);
    assert_eq!(snapshot.year_of_discovery, record.year_of_discovery);
    assert_eq!(snapshot.mass, record.mass);
    assert_eq!(snapshot.angular_momentum, record.angular_momentum);
    assert_eq!(snapshot.electric_charge, record.electric_charge);
    assert_eq!(snapshot.classification, record.classification);
}

#[test]
fn name_getter_returns_the_name() {
    let record = BlackHole::new()
        .name("Gargantua")
        .discovered_by("Dr. Mann")
        .year_of_discovery(2400)
        .build();

    assert_eq!("Gargantua", record.name());
}
