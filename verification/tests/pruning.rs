//! Behavioural tests for the matcher, the pruning pass and the finalizer.

use profile_prune::ast::{Attr, AttrArg, Item, ItemKind, Namespace, TargetProfile};
use profile_prune::matcher::matches_target;
use profile_prune::preprocess::{Conditional, TrackedName};

fn config_ident(name: &str) -> Attr {
    Attr {
        name: "Config".to_string(),
        arg: AttrArg::ParenIdent(name.to_string()),
    }
}

fn callable(name: &str, attrs: Vec<Attr>) -> Item {
    Item {
        attrs,
        kind: ItemKind::Callable(name.to_string()),
    }
}

fn type_definition(name: &str, attrs: Vec<Attr>) -> Item {
    Item {
        attrs,
        kind: ItemKind::TypeDefinition(name.to_string()),
    }
}

fn other_item(attrs: Vec<Attr>) -> Item {
    Item {
        attrs,
        kind: ItemKind::Other,
    }
}

fn symbol(name: &str, namespace: &str) -> TrackedName {
    TrackedName {
        name: name.to_string(),
        namespace: namespace.to_string(),
    }
}

#[test]
fn parse_profile_known_names() {
    assert_eq!(
        TargetProfile::parse(&"Base".to_string()),
        Some(TargetProfile::Base)
    );
    assert_eq!(
        TargetProfile::parse(&"Full".to_string()),
        Some(TargetProfile::Full)
    );
}

#[test]
fn parse_profile_unknown_names() {
    assert_eq!(TargetProfile::parse(&"Unrestricted".to_string()), None);
    assert_eq!(TargetProfile::parse(&"base".to_string()), None);
    assert_eq!(TargetProfile::parse(&"".to_string()), None);
}

#[test]
fn no_config_matches_any_profile() {
    let empty: Vec<Attr> = vec![];
    assert!(matches_target(&empty, TargetProfile::Base));
    assert!(matches_target(&empty, TargetProfile::Full));

    let inert = vec![Attr {
        name: "Deprecated".to_string(),
        arg: AttrArg::ParenIdent("Base".to_string()),
    }];
    assert!(matches_target(&inert, TargetProfile::Full));
    assert!(matches_target(&inert, TargetProfile::Base));
}

#[test]
fn single_config_decides_by_profile_equality() {
    let base_only = vec![config_ident("Base")];
    assert!(matches_target(&base_only, TargetProfile::Base));
    assert!(!matches_target(&base_only, TargetProfile::Full));

    let full_only = vec![config_ident("Full")];
    assert!(matches_target(&full_only, TargetProfile::Full));
    assert!(!matches_target(&full_only, TargetProfile::Base));
}

#[test]
fn malformed_config_argument_is_kept() {
    let paren_other = vec![Attr {
        name: "Config".to_string(),
        arg: AttrArg::ParenOther,
    }];
    assert!(matches_target(&paren_other, TargetProfile::Base));
    assert!(matches_target(&paren_other, TargetProfile::Full));

    let not_paren = vec![Attr {
        name: "Config".to_string(),
        arg: AttrArg::Other,
    }];
    assert!(matches_target(&not_paren, TargetProfile::Base));
    assert!(matches_target(&not_paren, TargetProfile::Full));
}

#[test]
fn unknown_profile_name_is_kept() {
    let unknown = vec![config_ident("Unrestricted")];
    assert!(matches_target(&unknown, TargetProfile::Base));
    assert!(matches_target(&unknown, TargetProfile::Full));
}

#[test]
fn several_configs_are_conjoined() {
    let agreeing = vec![config_ident("Base"), config_ident("Base")];
    assert!(matches_target(&agreeing, TargetProfile::Base));
    assert!(!matches_target(&agreeing, TargetProfile::Full));

    let conflicting = vec![config_ident("Base"), config_ident("Full")];
    assert!(!matches_target(&conflicting, TargetProfile::Base));
    assert!(!matches_target(&conflicting, TargetProfile::Full));

    let known_and_unknown = vec![config_ident("Base"), config_ident("Unrestricted")];
    assert!(matches_target(&known_and_unknown, TargetProfile::Base));
    assert!(!matches_target(&known_and_unknown, TargetProfile::Full));
}

#[test]
fn pruning_keeps_matching_items_in_order() {
    let mut ns = Namespace {
        name: "Ns".to_string(),
        items: vec![
            callable("A", vec![]),
            callable("B", vec![config_ident("Full")]),
            other_item(vec![config_ident("Full")]),
            type_definition("D", vec![config_ident("Base")]),
        ],
    };
    let mut pass = Conditional::new(TargetProfile::Base);
    pass.visit_namespace(&mut ns);

    let expected = vec![
        callable("A", vec![]),
        type_definition("D", vec![config_ident("Base")]),
    ];
    assert_eq!(ns.items, expected);
    assert_eq!(ns.name, "Ns".to_string());
}

#[test]
fn pruning_empty_namespace_logs_nothing() {
    let mut ns = Namespace {
        name: "Ns".to_string(),
        items: vec![],
    };
    let mut pass = Conditional::new(TargetProfile::Full);
    pass.visit_namespace(&mut ns);
    assert!(ns.items.is_empty());
    assert!(pass.included_names.is_empty());
    assert!(pass.dropped_names.is_empty());
}

#[test]
fn unnamed_kinds_are_never_logged() {
    let mut ns = Namespace {
        name: "Ns".to_string(),
        items: vec![
            other_item(vec![]),
            other_item(vec![config_ident("Full")]),
        ],
    };
    let mut pass = Conditional::new(TargetProfile::Base);
    pass.visit_namespace(&mut ns);

    // The matching opaque item survives, the other is removed; neither leaves
    // a trace in the logs.
    assert_eq!(ns.items, vec![other_item(vec![])]);
    assert!(pass.included_names.is_empty());
    assert!(pass.dropped_names.is_empty());
}

#[test]
fn overload_scenario_base_profile() {
    let mut ns = Namespace {
        name: "Ns".to_string(),
        items: vec![
            callable("A", vec![config_ident("Base")]),
            callable("A", vec![config_ident("Full")]),
            callable("B", vec![config_ident("Full")]),
        ],
    };
    let mut pass = Conditional::new(TargetProfile::Base);
    pass.visit_namespace(&mut ns);

    assert_eq!(ns.items, vec![callable("A", vec![config_ident("Base")])]);
    assert_eq!(pass.included_names, vec![symbol("A", "Ns")]);
    assert_eq!(
        pass.dropped_names,
        vec![symbol("A", "Ns"), symbol("B", "Ns")]
    );
    assert_eq!(pass.into_names(), vec![symbol("B", "Ns")]);
}

#[test]
fn unknown_profile_is_kept_and_logged_as_included() {
    for target in [TargetProfile::Base, TargetProfile::Full] {
        let mut ns = Namespace {
            name: "Ns".to_string(),
            items: vec![callable("C", vec![config_ident("Unrestricted")])],
        };
        let mut pass = Conditional::new(target);
        pass.visit_namespace(&mut ns);
        assert_eq!(ns.items.len(), 1);
        assert_eq!(pass.included_names, vec![symbol("C", "Ns")]);
        assert!(pass.dropped_names.is_empty());
    }
}

#[test]
fn finalize_keeps_every_occurrence_of_never_included_names() {
    let mut ns = Namespace {
        name: "Ns".to_string(),
        items: vec![
            callable("X", vec![config_ident("Full")]),
            callable("X", vec![config_ident("Full")]),
        ],
    };
    let mut pass = Conditional::new(TargetProfile::Base);
    pass.visit_namespace(&mut ns);
    assert!(ns.items.is_empty());
    // Dropped twice, never included: both occurrences survive finalization.
    assert_eq!(
        pass.into_names(),
        vec![symbol("X", "Ns"), symbol("X", "Ns")]
    );
}

#[test]
fn finalize_excludes_names_included_anywhere() {
    let mut ns = Namespace {
        name: "Ns".to_string(),
        items: vec![
            callable("X", vec![config_ident("Full")]),
            callable("X", vec![]),
            callable("X", vec![config_ident("Full")]),
        ],
    };
    let mut pass = Conditional::new(TargetProfile::Base);
    pass.visit_namespace(&mut ns);
    assert_eq!(ns.items.len(), 1);
    // X was dropped twice but included once: it is excluded entirely.
    assert_eq!(pass.into_names(), Vec::<TrackedName>::new());
}

#[test]
fn finalize_distinguishes_namespaces() {
    // The same simple name in two namespaces is two different tracked names:
    // including one does not rescue the other.
    let mut ns_one = Namespace {
        name: "One".to_string(),
        items: vec![callable("X", vec![config_ident("Full")])],
    };
    let mut ns_two = Namespace {
        name: "Two".to_string(),
        items: vec![callable("X", vec![])],
    };
    let mut pass = Conditional::new(TargetProfile::Base);
    pass.visit_namespace(&mut ns_one);
    pass.visit_namespace(&mut ns_two);
    assert_eq!(pass.included_names, vec![symbol("X", "Two")]);
    assert_eq!(pass.into_names(), vec![symbol("X", "One")]);
}

#[test]
fn tracked_name_equality_is_field_equality() {
    assert_eq!(symbol("A", "Ns"), symbol("A", "Ns"));
    assert_ne!(symbol("A", "Ns"), symbol("B", "Ns"));
    assert_ne!(symbol("A", "Ns"), symbol("A", "Other"));
    let original = symbol("A", "Ns");
    assert_eq!(original.clone(), original);
}

#[test]
fn fresh_pass_has_empty_logs() {
    let pass = Conditional::new(TargetProfile::Base);
    assert_eq!(pass.target, TargetProfile::Base);
    assert!(pass.included_names.is_empty());
    assert!(pass.dropped_names.is_empty());
    assert_eq!(pass.into_names(), Vec::<TrackedName>::new());
}
