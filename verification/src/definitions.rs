//! The service-definition contract, the uniform catalog entry, and the
//! factory adapter that erases a definition's concrete type.

use vstd::prelude::*;
use crate::categories::ServiceCategory;
use crate::patterns::{Pattern, PatternModel};

verus! {

/// The capability every pluggable service description must implement.
///
/// All operations are pure, infallible accessors over compile-time-fixed
/// data; a definition with malformed data fails at construction time, never
/// at query time. Each exec accessor is pinned to a spec-level counterpart so
/// that a definition's whole observable content has one mathematical model,
/// [`definition_model`].
pub trait ServiceDefinition {
    /// Model of [`Self::name`].
    spec fn spec_name(&self) -> Seq<char>;

    /// Model of [`Self::description`].
    spec fn spec_description(&self) -> Seq<char>;

    /// Model of [`Self::category`].
    spec fn spec_category(&self) -> ServiceCategory;

    /// Model of [`Self::discovery_pattern`].
    spec fn spec_discovery_pattern(&self) -> PatternModel;

    /// Model of [`Self::logo_url`].
    spec fn spec_logo_url(&self) -> Seq<char>;

    /// A stable display identifier. Uniqueness across definitions is not
    /// enforced: duplicate names are tolerated and consumers must cope.
    fn name(&self) -> (r: &'static str)
        ensures
            r@ == self.spec_name(),
    ;

    /// A human-readable summary of the service.
    fn description(&self) -> (r: &'static str)
        ensures
            r@ == self.spec_description(),
    ;

    /// Exactly one category.
    fn category(&self) -> (r: ServiceCategory)
        ensures
            r == self.spec_category(),
    ;

    /// Exactly one discovery pattern, constructed fresh each call.
    fn discovery_pattern(&self) -> (r: Pattern)
        ensures
            r@ == self.spec_discovery_pattern(),
    ;

    /// A location for display assets; the catalog does not validate that the
    /// resource exists.
    fn logo_url(&self) -> (r: &'static str)
        ensures
            r@ == self.spec_logo_url(),
    ;
}

/// The mathematical model of one catalog entry: every field a definition
/// exposes, as plain mathematical values.
#[verifier::ext_equal]
pub struct DefinitionModel {
    pub name: Seq<char>,
    pub description: Seq<char>,
    pub category: ServiceCategory,
    pub logo_url: Seq<char>,
    pub discovery_pattern: PatternModel,
}

/// The model of everything a [`ServiceDefinition`] exposes.
pub open spec fn definition_model<T: ServiceDefinition>(definition: &T) -> DefinitionModel {
    DefinitionModel {
        name: definition.spec_name(),
        description: definition.spec_description(),
        category: definition.spec_category(),
        logo_url: definition.spec_logo_url(),
        discovery_pattern: definition.spec_discovery_pattern(),
    }
}

/// One uniform, type-erased catalog entry: the five fields every definition
/// exposes, owned as plain values so heterogeneous definitions can live in
/// one collection.
#[derive(PartialEq, Eq, Debug)]
pub struct DefinitionRecord {
    pub name: String,
    pub description: String,
    pub category: ServiceCategory,
    pub logo_url: String,
    pub discovery_pattern: Pattern,
}

impl View for DefinitionRecord {
    type V = DefinitionModel;

    open spec fn view(&self) -> DefinitionModel {
        DefinitionModel {
            name: self.name@,
            description: self.description@,
            category: self.category,
            logo_url: self.logo_url@,
            discovery_pattern: self.discovery_pattern@,
        }
    }
}

impl Clone for DefinitionRecord {
    /// A cloned record describes exactly the same definition.
    fn clone(&self) -> (r: Self)
        ensures
            r@ == self@,
    {
        DefinitionRecord {
            name: self.name.clone(),
            description: self.description.clone(),
            category: self.category,
            logo_url: self.logo_url.clone(),
            discovery_pattern: self.discovery_pattern.clone(),
        }
    }
}

/// Reads every accessor of one definition into a uniform catalog entry,
/// erasing the definition's concrete type.
pub fn create_service<T: ServiceDefinition>(definition: &T) -> (r: DefinitionRecord)
    ensures
        r@ == definition_model(definition),
{
    let name = definition.name();
    let description = definition.description();
    let logo_url = definition.logo_url();
    DefinitionRecord {
        name: name.to_owned(),
        description: description.to_owned(),
        category: definition.category(),
        logo_url: logo_url.to_owned(),
        discovery_pattern: definition.discovery_pattern(),
    }
}

/// The factory adapter: wraps one service definition behind a uniform
/// constructor so the registry can hold heterogeneous definitions in one
/// collection.
///
/// Construction is deterministic and infallible from the registry's point of
/// view: the entry is built once, at wrap time, and every instantiation
/// replays it unchanged.
pub struct ServiceDefinitionFactory {
    record: DefinitionRecord,
}

impl View for ServiceDefinitionFactory {
    type V = DefinitionModel;

    closed spec fn view(&self) -> DefinitionModel {
        self.record@
    }
}

impl ServiceDefinitionFactory {
    /// Wraps one definition, erasing its concrete type.
    pub fn new<T: ServiceDefinition>(definition: &T) -> (f: ServiceDefinitionFactory)
        ensures
            f@ == definition_model(definition),
    {
        ServiceDefinitionFactory { record: create_service(definition) }
    }

    /// Wraps an already type-erased catalog entry.
    pub fn from_record(record: DefinitionRecord) -> (f: ServiceDefinitionFactory)
        ensures
            f@ == record@,
    {
        ServiceDefinitionFactory { record }
    }

    /// Produces one catalog entry for the wrapped definition. Repeated calls
    /// are observationally consistent: every instantiation yields the same
    /// entry.
    pub fn instantiate(&self) -> (r: DefinitionRecord)
        ensures
            r@ == self@,
    {
        self.record.clone()
    }
}

} // verus!
