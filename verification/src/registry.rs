//! The process-wide catalog accumulating every registered service definition.
//!
//! The registry has exactly two states. It starts out *registering*:
//! factories may be submitted, in any relative order, and no submission may
//! depend on another having happened first. Once application logic begins it
//! is *frozen*: submissions are ignored, and enumeration is well-defined and
//! read-only. An explicit [`Registry::freeze`] call marks the transition, and
//! [`Registry::bootstrap`] builds a frozen catalog from a complete list of
//! factories in one step.

use vstd::prelude::*;
use crate::categories::ServiceCategory;
use crate::definitions::{DefinitionModel, DefinitionRecord, ServiceDefinitionFactory};

verus! {

/// The catalog: an append-once-then-read-many collection of factory entries.
///
/// The registry owns its factories; consumers only ever receive fresh
/// instantiations. An empty registry is a valid state, not an error.
pub struct Registry {
    factories: Vec<ServiceDefinitionFactory>,
    frozen: bool,
}

/// Holds exactly when a catalog entry belongs to the given category.
pub open spec fn of_category(category: ServiceCategory) -> spec_fn(DefinitionModel) -> bool {
    |d: DefinitionModel| d.category == category
}

impl Registry {
    /// The catalog's model: the definitions of the submitted factories, in
    /// submission order.
    pub closed spec fn catalog(&self) -> Seq<DefinitionModel> {
        self.factories@.map_values(|f: ServiceDefinitionFactory| f@)
    }

    /// Whether the registry has left the registering state.
    pub closed spec fn is_frozen(&self) -> bool {
        self.frozen
    }

    /// An empty registry in the registering state.
    pub fn new() -> (r: Registry)
        ensures
            r.catalog() == Seq::<DefinitionModel>::empty(),
            !r.is_frozen(),
    {
        let r = Registry { factories: Vec::new(), frozen: false };
        proof {
            assert(r.catalog() =~= Seq::<DefinitionModel>::empty());
        }
        r
    }

    /// Appends one factory to the catalog. Safe to call from arbitrary,
    /// unordered initialization contexts: the effect of a submission never
    /// depends on which submissions came before it. Once the registry is
    /// frozen, submissions are ignored.
    pub fn submit(&mut self, factory: ServiceDefinitionFactory)
        ensures
            old(self).is_frozen() ==> final(self).catalog() == old(self).catalog(),
            !old(self).is_frozen() ==> final(self).catalog() == old(self).catalog().push(
                factory@,
            ),
            final(self).is_frozen() == old(self).is_frozen(),
    {
        if !self.frozen {
            self.factories.push(factory);
            proof {
                assert(self.catalog() =~= old(self).catalog().push(factory@));
            }
        }
    }

    /// Ends the registering state: every later submission is ignored, and
    /// enumeration is well-defined from here on.
    pub fn freeze(&mut self)
        ensures
            final(self).catalog() == old(self).catalog(),
            final(self).is_frozen(),
    {
        self.frozen = true;
    }

    /// Builds a frozen registry from a complete bootstrap list of factories:
    /// the catalog holds exactly one entry per factory, in list order.
    pub fn bootstrap(factories: Vec<ServiceDefinitionFactory>) -> (r: Registry)
        ensures
            r.catalog() == factories@.map_values(|f: ServiceDefinitionFactory| f@),
            r.catalog().len() == factories@.len(),
            r.is_frozen(),
    {
        Registry { factories, frozen: true }
    }

    /// The full catalog, read-only: one instantiated definition per
    /// submitted factory, in the registry's stable order.
    pub fn enumerate_definitions(&self) -> (r: Vec<DefinitionRecord>)
        ensures
            r@.map_values(|d: DefinitionRecord| d@) == self.catalog(),
    {
        let ghost cat = self.catalog();
        let mut out: Vec<DefinitionRecord> = Vec::new();
        let mut i: usize = 0;
        while i < self.factories.len()
            invariant
                0 <= i <= self.factories.len(),
                cat == self.catalog(),
                cat.len() == self.factories@.len(),
                out@.len() == i,
                out@.map_values(|d: DefinitionRecord| d@) == cat.take(i as int),
            decreases self.factories.len() - i,
        {
            let record = self.factories[i].instantiate();
            out.push(record);
            proof {
                assert(out@.map_values(|d: DefinitionRecord| d@) =~= cat.take(i + 1));
            }
            i = i + 1;
        }
        proof {
            assert(cat.take(cat.len() as int) =~= cat);
        }
        out
    }

    /// The full catalog, under the name the registry contract exposes to
    /// consumers. Same behaviour as [`Registry::enumerate_definitions`].
    pub fn all(&self) -> (r: Vec<DefinitionRecord>)
        ensures
            r@.map_values(|d: DefinitionRecord| d@) == self.catalog(),
    {
        self.enumerate_definitions()
    }

    /// The catalog entries of one category, in catalog order: exactly those
    /// enumerated definitions whose category equals `category`.
    pub fn filter_by_category(&self, category: ServiceCategory) -> (r: Vec<DefinitionRecord>)
        ensures
            r@.map_values(|d: DefinitionRecord| d@) == self.catalog().filter(
                of_category(category),
            ),
    {
        let ghost cat = self.catalog();
        let ghost pred = of_category(category);
        let mut out: Vec<DefinitionRecord> = Vec::new();
        let mut i: usize = 0;
        proof {
            reveal(Seq::filter);
            assert(out@.map_values(|d: DefinitionRecord| d@) =~= cat.take(0).filter(pred));
        }
        while i < self.factories.len()
            invariant
                0 <= i <= self.factories.len(),
                cat == self.catalog(),
                pred == of_category(category),
                cat.len() == self.factories@.len(),
                out@.map_values(|d: DefinitionRecord| d@) == cat.take(i as int).filter(pred),
            decreases self.factories.len() - i,
        {
            let record = self.factories[i].instantiate();
            proof {
                reveal(Seq::filter);
                let prev = cat.take(i as int);
                let cur = cat.take(i + 1);
                assert(cur.drop_last() =~= prev);
                assert(cur.last() == cat[i as int]);
                if pred(record@) {
                    assert(cur.filter(pred) == prev.filter(pred).push(record@));
                } else {
                    assert(cur.filter(pred) == prev.filter(pred));
                }
            }
            if record.category == category {
                out.push(record);
                proof {
                    assert(out@.map_values(|d: DefinitionRecord| d@) =~= cat.take(i + 1).filter(
                        pred,
                    ));
                }
            }
            i = i + 1;
        }
        proof {
            assert(cat.take(cat.len() as int) =~= cat);
        }
        out
    }
}

/// Every entry a category filter selects comes from the catalog itself.
proof fn lemma_filter_entries_come_from_catalog(
    cat: Seq<DefinitionModel>,
    pred: spec_fn(DefinitionModel) -> bool,
)
    ensures
        forall|j: int|
            0 <= j < cat.filter(pred).len() ==> cat.contains(#[trigger] cat.filter(pred)[j]),
    decreases cat.len(),
{
    reveal(Seq::filter);
    if cat.len() > 0 {
        let t = cat.drop_last();
        lemma_filter_entries_come_from_catalog(t, pred);
        let f = cat.filter(pred);
        assert forall|j: int| 0 <= j < f.len() implies cat.contains(f[j]) by {
            if pred(cat.last()) && j == f.len() - 1 {
                assert(cat[cat.len() - 1] == f[j]);
            } else {
                assert(f[j] == t.filter(pred)[j]);
                assert(t.contains(f[j]));
                let k = choose|k: int| 0 <= k < t.len() && t[k] == f[j];
                assert(cat[k] == f[j]);
            }
        }
    }
}

/// Law: filtering by a category selects a subset of the full enumeration
/// containing exactly the entries of that category: every selected entry
/// belongs to the catalog and to the category, and every catalog entry of the
/// category is selected.
pub proof fn lemma_filter_selects_exactly_category(
    cat: Seq<DefinitionModel>,
    category: ServiceCategory,
)
    ensures
        forall|j: int|
            0 <= j < cat.filter(of_category(category)).len() ==> (#[trigger] cat.filter(
                of_category(category),
            )[j]).category == category,
        forall|j: int|
            0 <= j < cat.filter(of_category(category)).len() ==> cat.contains(
                #[trigger] cat.filter(of_category(category))[j],
            ),
        forall|j: int|
            0 <= j < cat.len() && (#[trigger] cat[j]).category == category ==> cat.filter(
                of_category(category),
            ).contains(cat[j]),
{
    broadcast use vstd::seq_lib::group_filter_ensures;

    lemma_filter_entries_come_from_catalog(cat, of_category(category));
}

/// Law: the per-category filters partition the catalog: summed over every
/// category, the selected entries give back exactly the full enumeration,
/// with no entry introduced or dropped, duplicates included.
pub proof fn lemma_categories_partition_catalog(cat: Seq<DefinitionModel>)
    ensures
        cat.filter(of_category(ServiceCategory::VantageNet)).to_multiset().add(
            cat.filter(of_category(ServiceCategory::NetworkInfrastructure)).to_multiset(),
        ).add(cat.filter(of_category(ServiceCategory::Storage)).to_multiset()).add(
            cat.filter(of_category(ServiceCategory::Identity)).to_multiset(),
        ) == cat.to_multiset(),
    decreases cat.len(),
{
    broadcast use vstd::seq_lib::group_to_multiset_ensures;
    broadcast use vstd::multiset::group_multiset_axioms;
    broadcast use vstd::multiset::lemma_multiset_empty_len;

    reveal(Seq::filter);
    let p1 = of_category(ServiceCategory::VantageNet);
    let p2 = of_category(ServiceCategory::NetworkInfrastructure);
    let p3 = of_category(ServiceCategory::Storage);
    let p4 = of_category(ServiceCategory::Identity);
    if cat.len() == 0 {
        assert(cat.to_multiset().len() == 0);
        assert(cat.filter(p1).to_multiset().add(cat.filter(p2).to_multiset()).add(
            cat.filter(p3).to_multiset(),
        ).add(cat.filter(p4).to_multiset()) =~= cat.to_multiset());
    } else {
        let t = cat.drop_last();
        let d = cat.last();
        lemma_categories_partition_catalog(t);
        let a1 = t.filter(p1).to_multiset();
        let a2 = t.filter(p2).to_multiset();
        let a3 = t.filter(p3).to_multiset();
        let a4 = t.filter(p4).to_multiset();
        assert(t.push(d) =~= cat);
        assert(t.push(d).to_multiset() =~= t.to_multiset().insert(d));
        match d.category {
            ServiceCategory::VantageNet => {
                assert(cat.filter(p1) == t.filter(p1).push(d));
                assert(t.filter(p1).push(d).to_multiset() =~= a1.insert(d));
                assert(a1.insert(d).add(a2).add(a3).add(a4) =~= a1.add(a2).add(a3).add(
                    a4,
                ).insert(d));
            },
            ServiceCategory::NetworkInfrastructure => {
                assert(cat.filter(p2) == t.filter(p2).push(d));
                assert(t.filter(p2).push(d).to_multiset() =~= a2.insert(d));
                assert(a1.add(a2.insert(d)).add(a3).add(a4) =~= a1.add(a2).add(a3).add(
                    a4,
                ).insert(d));
            },
            ServiceCategory::Storage => {
                assert(cat.filter(p3) == t.filter(p3).push(d));
                assert(t.filter(p3).push(d).to_multiset() =~= a3.insert(d));
                assert(a1.add(a2).add(a3.insert(d)).add(a4) =~= a1.add(a2).add(a3).add(
                    a4,
                ).insert(d));
            },
            ServiceCategory::Identity => {
                assert(cat.filter(p4) == t.filter(p4).push(d));
                assert(t.filter(p4).push(d).to_multiset() =~= a4.insert(d));
                assert(a1.add(a2).add(a3).add(a4.insert(d)) =~= a1.add(a2).add(a3).add(
                    a4,
                ).insert(d));
            },
        }
    }
}

/// Law: the set of enumerated definitions does not depend on the order in
/// which they were registered: two registries whose catalogs hold the same
/// multiset of definitions enumerate the same multiset, and equally many
/// entries, however their submissions were interleaved.
pub proof fn lemma_enumeration_order_independent(r1: Registry, r2: Registry)
    requires
        r1.catalog().to_multiset() == r2.catalog().to_multiset(),
    ensures
        r1.catalog().len() == r2.catalog().len(),
        forall|d: DefinitionModel| r1.catalog().contains(d) <==> r2.catalog().contains(d),
{
    broadcast use vstd::seq_lib::group_to_multiset_ensures;

    let c1 = r1.catalog();
    let c2 = r2.catalog();
    assert(c1.to_multiset().len() == c1.len());
    assert(c2.to_multiset().len() == c2.len());
    assert forall|d: DefinitionModel| c1.contains(d) <==> c2.contains(d) by {
        assert(c1.contains(d) <==> c1.to_multiset().count(d) > 0);
        assert(c2.contains(d) <==> c2.to_multiset().count(d) > 0);
    }
}

/// Law: enumeration is restartable: two enumerations of one registry with no
/// submission in between see the same catalog, so they return the same
/// sequence of definitions, and in particular the same multiset.
pub proof fn lemma_enumeration_restartable(
    r: Registry,
    first: Seq<DefinitionModel>,
    second: Seq<DefinitionModel>,
)
    requires
        first == r.catalog(),
        second == r.catalog(),
    ensures
        first == second,
        first.to_multiset() == second.to_multiset(),
{
}

} // verus!
