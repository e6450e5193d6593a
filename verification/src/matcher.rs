//! The attribute target matcher: a pure predicate that decides, from a
//! declaration's attribute list and the active profile, whether the
//! declaration is kept.
//!
//! Policy: the verdict is the logical AND over all attributes, and an empty
//! list yields `true`. An attribute tagged other than `Config` is vacuously
//! satisfied. A `Config` attribute whose argument is a parenthesized bare
//! identifier naming a known profile is satisfied iff that profile equals the
//! active one; every doubtful shape (a different argument shape, an unknown
//! profile name) is conservatively satisfied, deferring any diagnostic to a
//! later stage. The matcher never errors.

use vstd::prelude::*;

use crate::ast::{spec_parse_profile, Attr, AttrArg, TargetProfile};

verus! {

/// Whether a single attribute is satisfied under the active profile.
/// Only a `Config` attribute with a parenthesized bare identifier that
/// parses to a profile can be violated, and only by naming another profile.
pub open spec fn attr_satisfied(attr: Attr, target: TargetProfile) -> bool {
    if attr.name@ == "Config"@ {
        match attr.arg {
            AttrArg::ParenIdent(id) => match spec_parse_profile(id@) {
                Option::Some(p) => p == target,
                Option::None => true,
            },
            AttrArg::ParenOther => true,
            AttrArg::Other => true,
        }
    } else {
        true
    }
}

/// Whether a declaration with this attribute list is kept under `target`:
/// the conjunction of the per-attribute verdicts.
pub open spec fn spec_matches(attrs: Seq<Attr>, target: TargetProfile) -> bool {
    forall|i: int| 0 <= i < attrs.len() ==> attr_satisfied(attrs[i], target)
}

/// The per-attribute verdict, executably.
fn attr_allows(attr: &Attr, target: TargetProfile) -> (r: bool)
    ensures
        r == attr_satisfied(*attr, target),
{
    let config: String = "Config".to_owned();
    if attr.name == config {
        match &attr.arg {
            AttrArg::ParenIdent(id) => match TargetProfile::parse(id) {
                Option::Some(p) => p == target,
                Option::None => true,
            },
            AttrArg::ParenOther => true,
            AttrArg::Other => true,
        }
    } else {
        true
    }
}

/// Decides whether a declaration carrying `attrs` is kept under `target`.
/// Total and infallible: it always returns a definite boolean.
pub fn matches_target(attrs: &Vec<Attr>, target: TargetProfile) -> (r: bool)
    ensures
        r == spec_matches(attrs@, target),
{
    let mut i: usize = 0;
    while i < attrs.len()
        invariant
            0 <= i <= attrs@.len(),
            forall|k: int| 0 <= k < i ==> attr_satisfied(attrs@[k], target),
        decreases attrs@.len() - i,
    {
        if !attr_allows(&attrs[i], target) {
            return false;
        }
        i = i + 1;
    }
    true
}

/// A declaration with no `Config` attribute is kept under every profile.
pub proof fn lemma_no_config_matches(attrs: Seq<Attr>, target: TargetProfile)
    requires
        forall|i: int| 0 <= i < attrs.len() ==> #[trigger] attrs[i].name@ != "Config"@,
    ensures
        spec_matches(attrs, target),
{
}

/// A declaration whose only `Config` attribute carries a parenthesized bare
/// identifier naming the profile `p` is kept iff `p` is the active profile.
pub proof fn lemma_single_config_decides(
    attrs: Seq<Attr>,
    target: TargetProfile,
    i: int,
    p: TargetProfile,
)
    requires
        0 <= i < attrs.len(),
        attrs[i].name@ == "Config"@,
        attrs[i].arg matches AttrArg::ParenIdent(id) && spec_parse_profile(id@)
            == Option::Some(p),
        forall|j: int|
            0 <= j < attrs.len() && j != i ==> #[trigger] attrs[j].name@ != "Config"@,
    ensures
        spec_matches(attrs, target) <==> p == target,
{
    assert(attr_satisfied(attrs[i], target) <==> p == target);
}

/// A declaration whose every `Config` attribute is malformed for this pass —
/// the argument is not a parenthesized bare identifier, or the identifier
/// names no known profile — is kept under every profile.
pub proof fn lemma_malformed_config_matches(attrs: Seq<Attr>, target: TargetProfile)
    requires
        forall|i: int|
            0 <= i < attrs.len() && #[trigger] attrs[i].name@ == "Config"@ ==> (attrs[i].arg
                matches AttrArg::ParenIdent(id) ==> spec_parse_profile(id@) is None),
    ensures
        spec_matches(attrs, target),
{
}

/// A declaration tagged for two distinct profiles is never kept: no single
/// active profile can equal both.
pub proof fn lemma_conflicting_configs_never_match(
    attrs: Seq<Attr>,
    target: TargetProfile,
    i: int,
    j: int,
    p: TargetProfile,
    q: TargetProfile,
)
    requires
        0 <= i < attrs.len(),
        0 <= j < attrs.len(),
        attrs[i].name@ == "Config"@,
        attrs[j].name@ == "Config"@,
        attrs[i].arg matches AttrArg::ParenIdent(id) && spec_parse_profile(id@)
            == Option::Some(p),
        attrs[j].arg matches AttrArg::ParenIdent(id) && spec_parse_profile(id@)
            == Option::Some(q),
        p != q,
    ensures
        !spec_matches(attrs, target),
{
    if p == target {
        assert(!attr_satisfied(attrs[j], target));
    } else {
        assert(!attr_satisfied(attrs[i], target));
    }
}

} // verus!
