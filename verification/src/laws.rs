//! The laws of the construction protocol, stated over the specification
//! model that the builder's contracts use.
//!
//! The remaining guarantee of the protocol — that a builder handle cannot be
//! used after a mandatory transition or after `build` — is not a theorem
//! about values but about the API's types: every such operation takes the
//! builder by value, so reuse of the old handle is rejected by the type
//! checker before anything runs.

use vstd::prelude::*;

use crate::record::with_angular_momentum;
use crate::record::with_classification;
use crate::record::with_discovered_by;
use crate::record::with_electric_charge;
use crate::record::with_mass;
use crate::record::with_name;
use crate::record::with_year_of_discovery;
use crate::record::initial_record;
use crate::record::BlackHoleView;
use crate::record::Type;

verus! {

/// One call of an optional setter at the terminal stage, with its argument.
pub enum OptionalCall {
    Mass(u64),
    AngularMomentum(u64),
    ElectricCharge(u64),
    Classification(Type),
}

/// The record after one optional-setter call.
pub open spec fn apply_optional_call(v: BlackHoleView, c: OptionalCall) -> BlackHoleView {
    match c {
        OptionalCall::Mass(mass) => with_mass(v, mass),
        OptionalCall::AngularMomentum(angular_momentum) => with_angular_momentum(
            v,
            angular_momentum,
        ),
        OptionalCall::ElectricCharge(electric_charge) => with_electric_charge(v, electric_charge),
        OptionalCall::Classification(classification) => with_classification(v, classification),
    }
}

/// The record after a chain of optional-setter calls, applied left to right.
pub open spec fn apply_optional_calls(v: BlackHoleView, calls: Seq<OptionalCall>) -> BlackHoleView
    decreases calls.len(),
{
    if calls.len() == 0 {
        v
    } else {
        apply_optional_call(apply_optional_calls(v, calls.drop_last()), calls.last())
    }
}

/// The last mass set by a chain of calls, or `prior` if the chain never sets
/// the mass.
pub open spec fn last_mass(calls: Seq<OptionalCall>, prior: Option<u64>) -> Option<u64>
    decreases calls.len(),
{
    if calls.len() == 0 {
        prior
    } else {
        match calls.last() {
            OptionalCall::Mass(mass) => Some(mass),
            _ => last_mass(calls.drop_last(), prior),
        }
    }
}

/// The last angular momentum set by a chain of calls, or `prior`.
pub open spec fn last_angular_momentum(calls: Seq<OptionalCall>, prior: Option<u64>) -> Option<
    u64,
>
    decreases calls.len(),
{
    if calls.len() == 0 {
        prior
    } else {
        match calls.last() {
            OptionalCall::AngularMomentum(angular_momentum) => Some(angular_momentum),
            _ => last_angular_momentum(calls.drop_last(), prior),
        }
    }
}

/// The last electric charge set by a chain of calls, or `prior`.
pub open spec fn last_electric_charge(calls: Seq<OptionalCall>, prior: Option<u64>) -> Option<u64>
    decreases calls.len(),
{
    if calls.len() == 0 {
        prior
    } else {
        match calls.last() {
            OptionalCall::ElectricCharge(electric_charge) => Some(electric_charge),
            _ => last_electric_charge(calls.drop_last(), prior),
        }
    }
}

/// The last classification set by a chain of calls, or `prior`.
pub open spec fn last_classification(calls: Seq<OptionalCall>, prior: Option<Type>) -> Option<
    Type,
>
    decreases calls.len(),
{
    if calls.len() == 0 {
        prior
    } else {
        match calls.last() {
            OptionalCall::Classification(classification) => Some(classification),
            _ => last_classification(calls.drop_last(), prior),
        }
    }
}

/// Law: the one legal ordering of the mandatory transitions records exactly
/// the supplied values — name, then discoverer, then year — and touches no
/// optional field.
pub proof fn lemma_mandatory_order_records_values(
    v0: BlackHoleView,
    name: Seq<char>,
    discovered_by: Seq<char>,
    year_of_discovery: u16,
)
    ensures
        ({
            let v = with_year_of_discovery(
                with_discovered_by(with_name(v0, name), discovered_by),
                year_of_discovery,
            );
            &&& v.name == name
            &&& v.discovered_by == discovered_by
            &&& v.year_of_discovery == year_of_discovery
            &&& v.mass == v0.mass
            &&& v.angular_momentum == v0.angular_momentum
            &&& v.electric_charge == v0.electric_charge
            &&& v.classification == v0.classification
        }),
{
}

/// Law: any subset and ordering of optional-setter calls at the terminal
/// stage leaves each optional field at the last value set for it — or at its
/// prior value when the chain never sets it — and leaves every mandatory
/// field untouched.
pub proof fn lemma_optional_calls_last_write_wins(v0: BlackHoleView, calls: Seq<OptionalCall>)
    ensures
        ({
            let v = apply_optional_calls(v0, calls);
            &&& v.mass == last_mass(calls, v0.mass)
            &&& v.angular_momentum == last_angular_momentum(calls, v0.angular_momentum)
            &&& v.electric_charge == last_electric_charge(calls, v0.electric_charge)
            &&& v.classification == last_classification(calls, v0.classification)
            &&& v.name == v0.name
            &&& v.discovered_by == v0.discovered_by
            &&& v.year_of_discovery == v0.year_of_discovery
        }),
    decreases calls.len(),
{
    if calls.len() > 0 {
        lemma_optional_calls_last_write_wins(v0, calls.drop_last());
    }
}

/// Law: an optional field that no call of the chain sets keeps its prior
/// value exactly; in particular, a field never set since the entry point
/// keeps its declared default, `None`.
pub proof fn lemma_unset_field_keeps_default(v0: BlackHoleView, calls: Seq<OptionalCall>)
    ensures
        (forall|i: int| 0 <= i < calls.len() ==> !(calls[i] is Mass)) ==> apply_optional_calls(
            v0,
            calls,
        ).mass == v0.mass,
        (forall|i: int| 0 <= i < calls.len() ==> !(calls[i] is AngularMomentum))
            ==> apply_optional_calls(v0, calls).angular_momentum == v0.angular_momentum,
        (forall|i: int| 0 <= i < calls.len() ==> !(calls[i] is ElectricCharge))
            ==> apply_optional_calls(v0, calls).electric_charge == v0.electric_charge,
        (forall|i: int| 0 <= i < calls.len() ==> !(calls[i] is Classification))
            ==> apply_optional_calls(v0, calls).classification == v0.classification,
    decreases calls.len(),
{
    if calls.len() > 0 {
        lemma_unset_field_keeps_default(v0, calls.drop_last());
    }
}

/// Law: a complete run of the protocol — the entry point, the mandatory
/// transitions in their declared order, then any subset and ordering of
/// optional-setter calls — yields exactly the supplied mandatory values and,
/// per optional field, the last value set or the declared default `None`.
pub proof fn lemma_protocol_run(
    name: Seq<char>,
    discovered_by: Seq<char>,
    year_of_discovery: u16,
    calls: Seq<OptionalCall>,
)
    ensures
        ({
            let v = apply_optional_calls(
                with_year_of_discovery(
                    with_discovered_by(with_name(initial_record(), name), discovered_by),
                    year_of_discovery,
                ),
                calls,
            );
            &&& v.name == name
            &&& v.discovered_by == discovered_by
            &&& v.year_of_discovery == year_of_discovery
            &&& v.mass == last_mass(calls, None)
            &&& v.angular_momentum == last_angular_momentum(calls, None)
            &&& v.electric_charge == last_electric_charge(calls, None)
            &&& v.classification == last_classification(calls, None)
        }),
{
    let staged = with_year_of_discovery(
        with_discovered_by(with_name(initial_record(), name), discovered_by),
        year_of_discovery,
    );
    lemma_optional_calls_last_write_wins(staged, calls);
}

/// Law: two snapshots taken from one builder state, with no mutation in
/// between, are equal records, field for field. The snapshot contract pins
/// the result's view to the builder's view, so any two results agree.
pub proof fn lemma_snapshots_agree(b: BlackHoleView, r1: BlackHoleView, r2: BlackHoleView)
    requires
        r1 == b,
        r2 == b,
    ensures
        r1 == r2,
        r1.name == r2.name,
        r1.discovered_by == r2.discovered_by,
        r1.year_of_discovery == r2.year_of_discovery,
        r1.mass == r2.mass,
        r1.angular_momentum == r2.angular_momentum,
        r1.electric_charge == r2.electric_charge,
        r1.classification == r2.classification,
{
}

} // verus!
