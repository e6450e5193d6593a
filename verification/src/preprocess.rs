//! The conditional pruning pass and the tracked-name finalizer.
//!
//! A `Conditional` holds the active profile and two append-only logs. Visiting
//! a namespace filters its declaration list in place by the matcher's verdict
//! and logs the symbol of every kept or dropped callable and type definition,
//! qualified by the namespace's name. Finalizing the pass consumes it and
//! yields the dropped symbols that were never also included — the names that
//! are truly unavailable under the active profile.

use vstd::prelude::*;

use crate::ast::{is_named, symbol_name, Item, ItemKind, Namespace, TargetProfile};
use crate::matcher::{matches_target, spec_matches};
use crate::seq_util::{
    lemma_filter_all_false, lemma_filter_filter_subsumed, lemma_filter_push,
    lemma_map_values_push,
};

verus! {

/// Identifies a declaration by its simple name and its enclosing namespace's
/// name. Two tracked names are equal iff both fields are equal.
#[derive(Debug, Hash)]
pub struct TrackedName {
    pub name: String,
    pub namespace: String,
}

impl View for TrackedName {
    type V = (Seq<char>, Seq<char>);

    open spec fn view(&self) -> (Seq<char>, Seq<char>) {
        (self.name@, self.namespace@)
    }
}

impl PartialEq for TrackedName {
    fn eq(&self, other: &Self) -> (r: bool) {
        self.name == other.name && self.namespace == other.namespace
    }
}

impl vstd::std_specs::cmp::PartialEqSpecImpl for TrackedName {
    open spec fn obeys_eq_spec() -> bool {
        true
    }

    open spec fn eq_spec(&self, other: &TrackedName) -> bool {
        self@ == other@
    }
}

impl Clone for TrackedName {
    fn clone(&self) -> (r: Self)
        ensures
            r == *self,
    {
        TrackedName { name: self.name.clone(), namespace: self.namespace.clone() }
    }
}

/// The symbol identities of a log, in log order.
pub open spec fn names_view(s: Seq<TrackedName>) -> Seq<(Seq<char>, Seq<char>)> {
    s.map_values(|t: TrackedName| t@)
}

/// Whether some entry of `s` names the same symbol as `t`.
pub open spec fn tn_in(s: Seq<TrackedName>, t: TrackedName) -> bool {
    exists|i: int| 0 <= i < s.len() && s[i]@ == t@
}

/// How many entries of `s` name the same symbol as `t`.
pub open spec fn tn_count(s: Seq<TrackedName>, t: TrackedName) -> nat {
    s.filter(|x: TrackedName| x@ == t@).len()
}

/// Whether the matcher's verdict on `it` under `target` is `kept`, for a
/// declaration whose symbol the pass tracks.
pub open spec fn logged(it: Item, target: TargetProfile, kept: bool) -> bool {
    spec_matches(it.attrs@, target) == kept && is_named(it.kind)
}

/// The symbol log a namespace visit appends for the declarations of `items`
/// whose verdict is `kept`: the (name, namespace-name) pairs of its callables
/// and type definitions with that verdict, in declaration order.
pub open spec fn symbol_log(
    items: Seq<Item>,
    ns: Seq<char>,
    target: TargetProfile,
    kept: bool,
) -> Seq<(Seq<char>, Seq<char>)> {
    items.filter(|it: Item| logged(it, target, kept)).map_values(
        |it: Item| (symbol_name(it.kind), ns),
    )
}

/// The declarations of `items` that survive pruning under `target`, in their
/// original relative order.
pub open spec fn spec_pruned(items: Seq<Item>, target: TargetProfile) -> Seq<Item> {
    items.filter(|it: Item| spec_matches(it.attrs@, target))
}

/// What the finalizer returns: the dropped log without every entry whose
/// symbol also occurs anywhere in the included log. Survivors are not
/// deduplicated against each other.
pub open spec fn spec_finalized(
    dropped: Seq<TrackedName>,
    included: Seq<TrackedName>,
) -> Seq<TrackedName> {
    dropped.filter(|t: TrackedName| !tn_in(included, t))
}

/// The state of one run of the pruning pass: the active profile, bound at
/// construction, and the two append-only symbol logs.
pub struct Conditional {
    pub target: TargetProfile,
    pub dropped_names: Vec<TrackedName>,
    pub included_names: Vec<TrackedName>,
}

impl Conditional {
    /// A fresh pass for one compilation, with empty logs.
    pub fn new(target: TargetProfile) -> (r: Conditional)
        ensures
            r.target == target,
            r.dropped_names@ == Seq::<TrackedName>::empty(),
            r.included_names@ == Seq::<TrackedName>::empty(),
    {
        Conditional { target, dropped_names: Vec::new(), included_names: Vec::new() }
    }

    /// Prunes one namespace in place: its declaration list is replaced by the
    /// matching subset in original order, and the symbol of every kept or
    /// dropped callable and type definition is appended to the corresponding
    /// log, qualified by the namespace's name. Total and infallible; never
    /// recurses into declaration bodies.
    pub fn visit_namespace(&mut self, namespace: &mut Namespace)
        ensures
            final(self).target == old(self).target,
            final(namespace).name == old(namespace).name,
            final(namespace).items@ == spec_pruned(old(namespace).items@, old(self).target),
            names_view(final(self).included_names@) == names_view(old(self).included_names@)
                + symbol_log(
                old(namespace).items@,
                old(namespace).name@,
                old(self).target,
                true,
            ),
            names_view(final(self).dropped_names@) == names_view(old(self).dropped_names@)
                + symbol_log(
                old(namespace).items@,
                old(namespace).name@,
                old(self).target,
                false,
            ),
    {
        let ghost tgt = self.target;
        let ghost ns = namespace.name@;
        let ghost inc0 = self.included_names@;
        let ghost drop0 = self.dropped_names@;

        let mut remaining: Vec<Item> = Vec::new();
        core::mem::swap(&mut namespace.items, &mut remaining);
        let ghost orig: Seq<Item> = remaining@;
        let mut kept: Vec<Item> = Vec::new();
        let ghost mut done: int = 0;

        proof {
            assert(orig.skip(0) =~= orig);
            assert(orig.take(0) =~= Seq::<Item>::empty());
            lemma_log_empty(ns, tgt, true);
            lemma_log_empty(ns, tgt, false);
            assert(spec_pruned(orig.take(0), tgt) =~= Seq::<Item>::empty()) by {
                lemma_filter_all_false(orig.take(0), |it: Item| spec_matches(it.attrs@, tgt));
            }
            assert(names_view(inc0) + Seq::<(Seq<char>, Seq<char>)>::empty() =~= names_view(
                inc0,
            ));
            assert(names_view(drop0) + Seq::<(Seq<char>, Seq<char>)>::empty() =~= names_view(
                drop0,
            ));
        }
        while remaining.len() > 0
            invariant
                0 <= done <= orig.len(),
                remaining@ == orig.skip(done),
                kept@ == spec_pruned(orig.take(done), tgt),
                self.target == tgt,
                namespace.name == old(namespace).name,
                namespace.name@ == ns,
                names_view(self.included_names@) == names_view(inc0) + symbol_log(
                    orig.take(done),
                    ns,
                    tgt,
                    true,
                ),
                names_view(self.dropped_names@) == names_view(drop0) + symbol_log(
                    orig.take(done),
                    ns,
                    tgt,
                    false,
                ),
            decreases remaining@.len(),
        {
            let item = remaining.remove(0);
            proof {
                assert(item == orig[done]);
                assert(remaining@ =~= orig.skip(done + 1));
            }
            let keep = matches_target(&item.attrs, self.target);
            let ghost inc_before = self.included_names@;
            let ghost drop_before = self.dropped_names@;
            if keep {
                if let Option::Some(entry) = symbol_entry(&item.kind, &namespace.name) {
                    self.included_names.push(entry);
                }
                kept.push(item);
            } else {
                if let Option::Some(entry) = symbol_entry(&item.kind, &namespace.name) {
                    self.dropped_names.push(entry);
                }
            }
            proof {
                let prefix = orig.take(done);
                assert(orig.take(done + 1) =~= prefix.push(item));
                lemma_pruned_push(prefix, item, tgt);
                lemma_symbol_log_push(prefix, item, ns, tgt, true);
                lemma_symbol_log_push(prefix, item, ns, tgt, false);
                if logged(item, tgt, true) {
                    lemma_map_values_push(
                        inc_before,
                        |t: TrackedName| t@,
                        self.included_names@.last(),
                    );
                    Seq::push_distributes_over_add(
                        names_view(inc0),
                        symbol_log(prefix, ns, tgt, true),
                        (symbol_name(item.kind), ns),
                    );
                }
                if logged(item, tgt, false) {
                    lemma_map_values_push(
                        drop_before,
                        |t: TrackedName| t@,
                        self.dropped_names@.last(),
                    );
                    Seq::push_distributes_over_add(
                        names_view(drop0),
                        symbol_log(prefix, ns, tgt, false),
                        (symbol_name(item.kind), ns),
                    );
                }
                done = done + 1;
            }
        }
        proof {
            assert(done == orig.len());
            assert(orig.take(done) =~= orig);
        }
        namespace.items = kept;
    }

    /// Finalizes the pass, consuming it: returns the dropped symbols that
    /// were never also included, each as often as it was dropped.
    pub fn into_names(self) -> (r: Vec<TrackedName>)
        ensures
            r@ == spec_finalized(self.dropped_names@, self.included_names@),
    {
        let Conditional { target: _, dropped_names, included_names } = self;
        let ghost dropped0 = dropped_names@;
        let ghost included0 = included_names@;
        let mut result: Vec<TrackedName> = Vec::new();
        let mut i: usize = 0;
        proof {
            assert(dropped0.take(0) =~= Seq::<TrackedName>::empty());
            lemma_filter_all_false(
                dropped0.take(0),
                |t: TrackedName| !tn_in(included0, t),
            );
        }
        while i < dropped_names.len()
            invariant
                0 <= i <= dropped0.len(),
                dropped_names@ == dropped0,
                included_names@ == included0,
                result@ == spec_finalized(dropped0.take(i as int), included0),
            decreases dropped0.len() - i,
        {
            if !contains_name(&included_names, &dropped_names[i]) {
                let entry = dropped_names[i].clone();
                result.push(entry);
            }
            proof {
                let prefix = dropped0.take(i as int);
                assert(dropped0.take(i + 1) =~= prefix.push(dropped0[i as int]));
                lemma_filter_push(prefix, |t: TrackedName| !tn_in(included0, t), dropped0[i as int]);
            }
            i = i + 1;
        }
        proof {
            assert(dropped0.take(dropped0.len() as int) =~= dropped0);
        }
        result
    }
}

/// The log entry a declaration of kind `kind` inside namespace `namespace`
/// contributes: its tracked name for a callable or a type definition, and
/// nothing for any other kind.
fn symbol_entry(kind: &ItemKind, namespace: &String) -> (r: Option<TrackedName>)
    ensures
        r is Some <==> is_named(*kind),
        r matches Some(t) ==> t@ == (symbol_name(*kind), namespace@),
{
    match kind {
        ItemKind::Callable(name) => Option::Some(
            TrackedName { name: name.clone(), namespace: namespace.clone() },
        ),
        ItemKind::TypeDefinition(name) => Option::Some(
            TrackedName { name: name.clone(), namespace: namespace.clone() },
        ),
        ItemKind::Other => Option::None,
    }
}

/// Whether any entry of `haystack` names the same symbol as `needle`.
fn contains_name(haystack: &Vec<TrackedName>, needle: &TrackedName) -> (r: bool)
    ensures
        r == tn_in(haystack@, *needle),
{
    let mut i: usize = 0;
    while i < haystack.len()
        invariant
            0 <= i <= haystack@.len(),
            forall|k: int| 0 <= k < i ==> #[trigger] haystack@[k]@ != needle@,
        decreases haystack@.len() - i,
    {
        if haystack[i] == *needle {
            return true;
        }
        i = i + 1;
    }
    false
}

/// Over an empty declaration sequence a visit logs nothing.
proof fn lemma_log_empty(ns: Seq<char>, target: TargetProfile, kept: bool)
    ensures
        symbol_log(Seq::<Item>::empty(), ns, target, kept) == Seq::<(
            Seq<char>,
            Seq<char>,
        )>::empty(),
{
    lemma_filter_all_false(Seq::<Item>::empty(), |it: Item| logged(it, target, kept));
    assert(Seq::<Item>::empty().map_values(|it: Item| (symbol_name(it.kind), ns)) =~= Seq::<(
        Seq<char>,
        Seq<char>,
    )>::empty());
}

/// Pruning a declaration sequence extended by one item keeps the pruned
/// prefix and appends the item exactly when the matcher keeps it.
proof fn lemma_pruned_push(items: Seq<Item>, x: Item, target: TargetProfile)
    ensures
        spec_pruned(items.push(x), target) == (if spec_matches(x.attrs@, target) {
            spec_pruned(items, target).push(x)
        } else {
            spec_pruned(items, target)
        }),
{
    lemma_filter_push(items, |it: Item| spec_matches(it.attrs@, target), x);
}

/// The symbol log of a declaration sequence extended by one item keeps the
/// prefix's log and appends the item's symbol exactly when the item is named
/// and its verdict is `kept`.
proof fn lemma_symbol_log_push(
    items: Seq<Item>,
    x: Item,
    ns: Seq<char>,
    target: TargetProfile,
    kept: bool,
)
    ensures
        symbol_log(items.push(x), ns, target, kept) == (if logged(x, target, kept) {
            symbol_log(items, ns, target, kept).push((symbol_name(x.kind), ns))
        } else {
            symbol_log(items, ns, target, kept)
        }),
{
    lemma_filter_push(items, |it: Item| logged(it, target, kept), x);
    if logged(x, target, kept) {
        lemma_map_values_push(
            items.filter(|it: Item| logged(it, target, kept)),
            |it: Item| (symbol_name(it.kind), ns),
            x,
        );
    }
}

/// A symbol that occurs anywhere in the included log never occurs in the
/// finalized dropped set, however often it was dropped.
pub proof fn lemma_finalize_excludes_included(
    dropped: Seq<TrackedName>,
    included: Seq<TrackedName>,
    t: TrackedName,
)
    requires
        tn_in(included, t),
    ensures
        !tn_in(spec_finalized(dropped, included), t),
{
    let out = spec_finalized(dropped, included);
    assert forall|k: int| 0 <= k < out.len() implies out[k]@ != t@ by {
        dropped.lemma_filter_pred(|x: TrackedName| !tn_in(included, x), k);
        if out[k]@ == t@ {
            let i = choose|i: int| 0 <= i < included.len() && included[i]@ == t@;
            assert(included[i]@ == out[k]@);
            assert(tn_in(included, out[k]));
        }
    }
}

/// A symbol that never occurs in the included log survives finalization with
/// every one of its dropped occurrences: the finalized set holds it exactly
/// as often as the dropped log does.
pub proof fn lemma_finalize_keeps_count(
    dropped: Seq<TrackedName>,
    included: Seq<TrackedName>,
    t: TrackedName,
)
    requires
        !tn_in(included, t),
    ensures
        tn_count(spec_finalized(dropped, included), t) == tn_count(dropped, t),
{
    assert forall|x: TrackedName| #[trigger] (x@) == t@ implies !tn_in(included, x) by {
        if tn_in(included, x) {
            let i = choose|i: int| 0 <= i < included.len() && included[i]@ == x@;
            assert(included[i]@ == t@);
            assert(tn_in(included, t));
        }
    }
    lemma_filter_filter_subsumed(
        dropped,
        |x: TrackedName| !tn_in(included, x),
        |x: TrackedName| x@ == t@,
    );
}

/// Declarations that bind no symbol are never logged: a visit over items none
/// of which is a callable or a type definition contributes nothing to either
/// log, whatever each item's verdict.
pub proof fn lemma_unnamed_never_logged(
    items: Seq<Item>,
    ns: Seq<char>,
    target: TargetProfile,
    kept: bool,
)
    requires
        forall|i: int| 0 <= i < items.len() ==> !is_named(#[trigger] items[i].kind),
    ensures
        symbol_log(items, ns, target, kept) == Seq::<(Seq<char>, Seq<char>)>::empty(),
{
    lemma_filter_all_false(items, |it: Item| logged(it, target, kept));
    assert(Seq::<Item>::empty().map_values(|it: Item| (symbol_name(it.kind), ns)) =~= Seq::<(
        Seq<char>,
        Seq<char>,
    )>::empty());
}

} // verus!
