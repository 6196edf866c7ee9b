//! The staged builder: one marker type per stage, and a builder parameterized
//! by its current stage.
//!
//! The mandatory stages are totally ordered: name, then discoverer, then
//! year. Each mandatory transition consumes the builder and returns one at
//! the next stage, so the old handle cannot be reused and no stage can be
//! skipped. `From` is implemented exactly between adjacent stage markers, and
//! the private `transition` helper demands it, so no transition to a
//! non-adjacent stage can even be written inside this module. The terminal
//! stage (`OptionalParamsBuilder`) offers the optional setters — repeatable,
//! in any order, last write wins — and the two finalizers.

use vstd::prelude::*;

use crate::record::initial_record;
use crate::record::with_angular_momentum;
use crate::record::with_classification;
use crate::record::with_discovered_by;
use crate::record::with_electric_charge;
use crate::record::with_mass;
use crate::record::with_name;
use crate::record::with_year_of_discovery;
use crate::record::BlackHole;
use crate::record::BlackHoleView;
use crate::record::Type;
use vstd::std_specs::convert::FromSpecImpl;
use vstd::string::StringExecFns;

verus! {

/// The stages a builder of a black hole can pass through. Implementing this
/// trait admits a type as a stage marker; the markers carry no data.
pub trait State {}

/// First stage: the name is still to be supplied.
pub struct NameBuilder;

impl State for NameBuilder {}

/// Second stage: the discoverer is still to be supplied.
pub struct DiscoveredByBuilder;

impl State for DiscoveredByBuilder {}

impl From<NameBuilder> for DiscoveredByBuilder {
    fn from(_prev: NameBuilder) -> DiscoveredByBuilder {
        DiscoveredByBuilder
    }
}

impl FromSpecImpl<NameBuilder> for DiscoveredByBuilder {
    open spec fn obeys_from_spec() -> bool {
        true
    }

    open spec fn from_spec(_prev: NameBuilder) -> DiscoveredByBuilder {
        DiscoveredByBuilder
    }
}

/// Third stage: the year of discovery is still to be supplied.
pub struct YearOfDiscoveryBuilder;

impl State for YearOfDiscoveryBuilder {}

impl From<DiscoveredByBuilder> for YearOfDiscoveryBuilder {
    fn from(_prev: DiscoveredByBuilder) -> YearOfDiscoveryBuilder {
        YearOfDiscoveryBuilder
    }
}

impl FromSpecImpl<DiscoveredByBuilder> for YearOfDiscoveryBuilder {
    open spec fn obeys_from_spec() -> bool {
        true
    }

    open spec fn from_spec(_prev: DiscoveredByBuilder) -> YearOfDiscoveryBuilder {
        YearOfDiscoveryBuilder
    }
}

/// Terminal stage: every mandatory field has been supplied; the optional
/// setters and the finalizers are available.
pub struct OptionalParamsBuilder;

impl State for OptionalParamsBuilder {}

impl From<YearOfDiscoveryBuilder> for OptionalParamsBuilder {
    fn from(_prev: YearOfDiscoveryBuilder) -> OptionalParamsBuilder {
        OptionalParamsBuilder
    }
}

impl FromSpecImpl<YearOfDiscoveryBuilder> for OptionalParamsBuilder {
    open spec fn obeys_from_spec() -> bool {
        true
    }

    open spec fn from_spec(_prev: YearOfDiscoveryBuilder) -> OptionalParamsBuilder {
        OptionalParamsBuilder
    }
}

/// The builder of a black hole, at stage `S`. Its view is the view of the
/// record built so far.
pub struct BlackHoleBuilder<S: State> {
    black_hole: BlackHole,
    #[allow(dead_code)]
    state: S,
}

impl<S: State> View for BlackHoleBuilder<S> {
    type V = BlackHoleView;

    closed spec fn view(&self) -> BlackHoleView {
        self.black_hole@
    }
}

impl<T: State> BlackHoleBuilder<T> {
    /// Moves the wrapped record into a builder at the next stage. The
    /// `From<T>` bound restricts the target to the stage adjacent to `T`.
    fn transition<X: State + From<T>>(self, state: X) -> (r: BlackHoleBuilder<X>)
        ensures
            r@ == self@,
    {
        BlackHoleBuilder { black_hole: self.black_hole, state }
    }
}

impl BlackHoleBuilder<NameBuilder> {
    /// Constructs a builder at the first stage, wrapping the initial record:
    /// placeholders for the mandatory fields, every optional field absent.
    fn new() -> (r: Self)
        ensures
            r@ == initial_record(),
    {
        BlackHoleBuilder {
            black_hole: BlackHole {
                name: String::from_str("Unknown"),
                discovered_by: String::from_str("Unknown"),
                year_of_discovery: 2017,
                mass: None,
                angular_momentum: None,
                electric_charge: None,
                classification: None,
            },
            state: NameBuilder,
        }
    }

    /// Sets the name of the black hole; first mandatory transition.
    pub fn name(self, name: &str) -> (r: BlackHoleBuilder<DiscoveredByBuilder>)
        ensures
            r@ == with_name(self@, name@),
    {
        let mut b = self;
        b.black_hole.name = String::from_str(name);
        b.transition(DiscoveredByBuilder)
    }
}

impl BlackHoleBuilder<DiscoveredByBuilder> {
    /// Sets the name of the person or institution who discovered the black
    /// hole; second mandatory transition.
    pub fn discovered_by(self, discovered_by: &str) -> (r: BlackHoleBuilder<
        YearOfDiscoveryBuilder,
    >)
        ensures
            r@ == with_discovered_by(self@, discovered_by@),
    {
        let mut b = self;
        b.black_hole.discovered_by = String::from_str(discovered_by);
        b.transition(YearOfDiscoveryBuilder)
    }
}

impl BlackHoleBuilder<YearOfDiscoveryBuilder> {
    /// Sets the year of discovery; third and last mandatory transition,
    /// reaching the terminal stage.
    pub fn year_of_discovery(self, year_of_discovery: u16) -> (r: BlackHoleBuilder<
        OptionalParamsBuilder,
    >)
        ensures
            r@ == with_year_of_discovery(self@, year_of_discovery),
    {
        let mut b = self;
        b.black_hole.year_of_discovery = year_of_discovery;
        b.transition(OptionalParamsBuilder)
    }
}

impl BlackHoleBuilder<OptionalParamsBuilder> {
    /// Sets the mass of the black hole, as the bit encoding of a 64-bit
    /// float. Repeatable; the last value set wins.
    pub fn mass(self, mass: u64) -> (r: Self)
        ensures
            r@ == with_mass(self@, mass),
    {
        let mut b = self;
        b.black_hole.mass = Some(mass);
        b
    }

    /// Sets the angular momentum of the black hole, encoded like the mass.
    /// Repeatable; the last value set wins.
    pub fn angular_momentum(self, angular_momentum: u64) -> (r: Self)
        ensures
            r@ == with_angular_momentum(self@, angular_momentum),
    {
        let mut b = self;
        b.black_hole.angular_momentum = Some(angular_momentum);
        b
    }

    /// Sets the electric charge of the black hole, encoded like the mass.
    /// Repeatable; the last value set wins.
    pub fn electric_charge(self, electric_charge: u64) -> (r: Self)
        ensures
            r@ == with_electric_charge(self@, electric_charge),
    {
        let mut b = self;
        b.black_hole.electric_charge = Some(electric_charge);
        b
    }

    /// Sets the classification of the black hole. Repeatable; the last value
    /// set wins.
    pub fn classification(self, classification: Type) -> (r: Self)
        ensures
            r@ == with_classification(self@, classification),
    {
        let mut b = self;
        b.black_hole.classification = Some(classification);
        b
    }

    /// Builds the black hole, returning the wrapped record unchanged.
    /// Consumes the builder: the handle cannot be used again afterwards.
    pub fn build(self) -> (r: BlackHole)
        ensures
            r@ == self@,
    {
        self.black_hole
    }

    /// Builds a copy of the black hole built so far — a snapshot. The copy
    /// is an independent owned value, field for field equal to what `build`
    /// would return; the builder stays usable for further optional setters
    /// and further snapshots.
    pub fn build_copy(&self) -> (r: BlackHole)
        ensures
            r@ == self@,
    {
        BlackHole {
            name: self.black_hole.name.clone(),
            discovered_by: self.black_hole.discovered_by.clone(),
            year_of_discovery: self.black_hole.year_of_discovery,
            mass: self.black_hole.mass,
            angular_momentum: self.black_hole.angular_momentum,
            electric_charge: self.black_hole.electric_charge,
            classification: self.black_hole.classification,
        }
    }
}

impl BlackHole {
    /// The entry point of the construction protocol: a builder at the first
    /// stage, wrapping the initial record.
    pub fn new() -> (r: BlackHoleBuilder<NameBuilder>)
        ensures
            r@ == initial_record(),
    {
        BlackHoleBuilder::new()
    }
}

} // verus!
