//! The record produced by the builder, and its specification-level model.

use vstd::prelude::*;

verus! {

/// The classification of a black hole.
#[derive(Clone, Copy, Debug, PartialEq, Eq, Structural)]
pub enum Type {
    SuperMassive,
    IntermediateMassive,
    Stellar,
    Micro,
}

/// The black hole record.
///
/// The three mandatory fields (`name`, `discovered_by`, `year_of_discovery`)
/// always carry caller-supplied values once the builder's mandatory stages
/// have run. The four optional fields default to `None` when never set.
///
/// The physical quantities (`mass`, `angular_momentum`, `electric_charge`)
/// are measurements that callers usually hold as `f64`. Verus has no theory
/// of floating point, so the record carries each as its raw 64-bit encoding
/// (`f64::to_bits`); callers convert at the boundary. The builder only
/// stores and moves these values, so nothing is lost by the encoding.
pub struct BlackHole {
    /// The name of the black hole.
    pub name: String,
    /// The name of the person or institution who discovered the black hole.
    pub discovered_by: String,
    /// The year when the black hole was discovered.
    pub year_of_discovery: u16,
    /// The mass of the black hole, as the bit encoding of a 64-bit float.
    pub mass: Option<u64>,
    /// The angular momentum (how much does it spin?), encoded like `mass`.
    pub angular_momentum: Option<u64>,
    /// The electric charge, encoded like `mass`.
    pub electric_charge: Option<u64>,
    /// The classification of the black hole.
    pub classification: Option<Type>,
}

/// The mathematical model of a record: the same fields, with the strings
/// abstracted to character sequences.
#[verifier::ext_equal]
pub struct BlackHoleView {
    pub name: Seq<char>,
    pub discovered_by: Seq<char>,
    pub year_of_discovery: u16,
    pub mass: Option<u64>,
    pub angular_momentum: Option<u64>,
    pub electric_charge: Option<u64>,
    pub classification: Option<Type>,
}

impl View for BlackHole {
    type V = BlackHoleView;

    open spec fn view(&self) -> BlackHoleView {
        BlackHoleView {
            name: self.name@,
            discovered_by: self.discovered_by@,
            year_of_discovery: self.year_of_discovery,
            mass: self.mass,
            angular_momentum: self.angular_momentum,
            electric_charge: self.electric_charge,
            classification: self.classification,
        }
    }
}

/// The record a fresh builder wraps: placeholders for the mandatory fields
/// (every mandatory transition overwrites its placeholder before the
/// terminal stage can be reached), and every optional field absent.
pub open spec fn initial_record() -> BlackHoleView {
    BlackHoleView {
        name: "Unknown"@,
        discovered_by: "Unknown"@,
        year_of_discovery: 2017,
        mass: None,
        angular_momentum: None,
        electric_charge: None,
        classification: None,
    }
}

/// The record after the first mandatory transition: the name is set.
pub open spec fn with_name(v: BlackHoleView, name: Seq<char>) -> BlackHoleView {
    BlackHoleView { name, ..v }
}

/// The record after the second mandatory transition: the discoverer is set.
pub open spec fn with_discovered_by(v: BlackHoleView, discovered_by: Seq<char>) -> BlackHoleView {
    BlackHoleView { discovered_by, ..v }
}

/// The record after the third mandatory transition: the year is set.
pub open spec fn with_year_of_discovery(v: BlackHoleView, year: u16) -> BlackHoleView {
    BlackHoleView { year_of_discovery: year, ..v }
}

/// The record after the optional mass setter.
pub open spec fn with_mass(v: BlackHoleView, mass: u64) -> BlackHoleView {
    BlackHoleView { mass: Some(mass), ..v }
}

/// The record after the optional angular-momentum setter.
pub open spec fn with_angular_momentum(v: BlackHoleView, angular_momentum: u64) -> BlackHoleView {
    BlackHoleView { angular_momentum: Some(angular_momentum), ..v }
}

/// The record after the optional electric-charge setter.
pub open spec fn with_electric_charge(v: BlackHoleView, electric_charge: u64) -> BlackHoleView {
    BlackHoleView { electric_charge: Some(electric_charge), ..v }
}

/// The record after the optional classification setter.
pub open spec fn with_classification(v: BlackHoleView, classification: Type) -> BlackHoleView {
    BlackHoleView { classification: Some(classification), ..v }
}

impl BlackHole {
    /// The name of the black hole.
    pub fn name(&self) -> (r: &str)
        ensures
            r@ == self@.name,
    {
        self.name.as_str()
    }
}

} // verus!
