//! A staged ("typestate") builder for an astronomical record.
//!
//! A `BlackHole` record has three mandatory fields that must be supplied in a
//! fixed order — name, discoverer, year of discovery — and four optional
//! fields that may be supplied afterwards in any order. The builder encodes
//! the construction protocol in its type: a `BlackHoleBuilder<S>` at stage `S`
//! only offers the one transition that is legal at that stage, and every
//! transition consumes the builder, so a stage can be neither repeated nor
//! skipped. Only the terminal stage offers the optional setters and the two
//! finalizers, `build` (consuming) and `build_copy` (snapshotting).

mod builder;
mod laws;
mod record;

pub use builder::BlackHoleBuilder;
pub use builder::DiscoveredByBuilder;
pub use builder::NameBuilder;
pub use builder::OptionalParamsBuilder;
pub use builder::State;
pub use builder::YearOfDiscoveryBuilder;
pub use laws::apply_optional_call;
pub use laws::apply_optional_calls;
pub use laws::last_angular_momentum;
pub use laws::last_classification;
pub use laws::last_electric_charge;
pub use laws::last_mass;
pub use laws::lemma_mandatory_order_records_values;
pub use laws::lemma_optional_calls_last_write_wins;
pub use laws::lemma_protocol_run;
pub use laws::lemma_snapshots_agree;
pub use laws::lemma_unset_field_keeps_default;
pub use laws::OptionalCall;
pub use record::initial_record;
pub use record::with_angular_momentum;
pub use record::with_classification;
pub use record::with_discovered_by;
pub use record::with_electric_charge;
pub use record::with_mass;
pub use record::with_name;
pub use record::with_year_of_discovery;
pub use record::BlackHole;
pub use record::BlackHoleView;
pub use record::Type;
