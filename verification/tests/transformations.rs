use mfnf_export::ast::{
    Comment, Document, Element, Error, ExternalReference, Heading, InternalReference, Position,
    Span, Template, TemplateArgument, Text,
};
use mfnf_export::exclusions::remove_exclusions;
use mfnf_export::headings::normalize_heading_depths;
use mfnf_export::links::resolve_interwiki_links;
use mfnf_export::sections::{include_sections, include_sections_vec, SectionEntry, SectionStore};
use mfnf_export::settings::{
    GeneralSettings, Marker, RuntimeSettings, Settings, Subtarget, TargetMarkers,
};
use mfnf_export::templates::normalize_template_names;

fn pos(offset: usize) -> Position {
    Position { offset, line: 1, col: offset }
}

fn span(a: usize, b: usize) -> Span {
    Span { start: pos(a), end: pos(b) }
}

fn text(s: &str) -> Element {
    Element::Text(Text { position: span(0, s.len()), text: s.to_string() })
}

fn heading(depth: usize, caption: &str, content: Vec<Element>) -> Element {
    Element::Heading(Heading {
        position: span(0, 0),
        depth,
        caption: vec![text(caption)],
        content,
    })
}

fn settings() -> Settings {
    Settings {
        general: GeneralSettings {
            section_inclusion_prefix: "#lst:".to_string(),
            interwiki_link_mapping: vec![],
        },
        runtime: RuntimeSettings {
            target_name: String::new(),
            markers: TargetMarkers {
                inclusion: Marker { subtargets: vec![] },
                exclusion: Marker { subtargets: vec![] },
            },
        },
    }
}

fn settings_with_subtargets(target: &str, incl: Vec<Subtarget>, excl: Vec<Subtarget>) -> Settings {
    let mut s = settings();
    s.runtime.target_name = target.to_string();
    s.runtime.markers.inclusion.subtargets = incl;
    s.runtime.markers.exclusion.subtargets = excl;
    s
}

fn subtarget(name: &str, params: &[&str]) -> Subtarget {
    Subtarget {
        name: name.to_string(),
        parameters: params.iter().map(|p| p.to_string()).collect(),
    }
}

fn doc(content: Vec<Element>) -> Element {
    Element::Document(Document { position: span(0, 100), content })
}

// Heading depth normalization assigns nesting depth, starting at 1.

#[test]
fn heading_depths_are_renumbered_by_nesting() {
    let tree = doc(vec![heading(
        7,
        "a",
        vec![text("x"), heading(2, "b", vec![heading(9, "c", vec![])])],
    )]);
    let out = normalize_heading_depths(tree, &settings()).unwrap();
    let expected = doc(vec![heading(
        1,
        "a",
        vec![text("x"), heading(2, "b", vec![heading(3, "c", vec![])])],
    )]);
    assert_eq!(out, expected);
}

#[test]
fn sibling_headings_share_their_depth() {
    let tree = doc(vec![heading(4, "a", vec![]), heading(9, "b", vec![])]);
    let out = normalize_heading_depths(tree, &settings()).unwrap();
    let expected = doc(vec![heading(1, "a", vec![]), heading(1, "b", vec![])]);
    assert_eq!(out, expected);
}

#[test]
fn heading_depth_normalization_is_idempotent() {
    let tree = doc(vec![heading(
        5,
        "a",
        vec![heading(1, "b", vec![]), heading(8, "c", vec![heading(2, "d", vec![])])],
    )]);
    let once = normalize_heading_depths(tree, &settings()).unwrap();
    let reference = match &once {
        Element::Document(_) => normalize_heading_depths(
            doc(vec![heading(
                5,
                "a",
                vec![heading(1, "b", vec![]), heading(8, "c", vec![heading(2, "d", vec![])])],
            )]),
            &settings(),
        )
        .unwrap(),
        _ => unreachable!(),
    };
    let twice = normalize_heading_depths(once, &settings()).unwrap();
    assert_eq!(twice, reference);
}

// Template name normalization.

fn template(name: Vec<Element>, content: Vec<Element>) -> Element {
    Element::Template(Template { position: span(3, 9), name, content })
}

fn argument(name: &str, value: Vec<Element>) -> Element {
    Element::TemplateArgument(TemplateArgument {
        position: span(4, 8),
        name: name.to_string(),
        value,
    })
}

#[test]
fn template_names_are_trimmed_and_lowercased() {
    let tree = template(vec![text("  My Template  ")], vec![]);
    let out = normalize_template_names(tree, &settings()).unwrap();
    match out {
        Element::Template(t) => {
            assert_eq!(t.name.len(), 1);
            match &t.name[0] {
                Element::Text(t) => assert_eq!(t.text, "my template"),
                other => panic!("expected a text node, got {:?}", other),
            }
        }
        other => panic!("expected a template, got {:?}", other),
    }
}

#[test]
fn directive_template_names_keep_their_case() {
    let tree = template(vec![text(" #LST:Some Article ")], vec![]);
    let out = normalize_template_names(tree, &settings()).unwrap();
    match out {
        Element::Template(t) => match &t.name[0] {
            Element::Text(t) => assert_eq!(t.text, "#LST:Some Article"),
            other => panic!("expected a text node, got {:?}", other),
        },
        other => panic!("expected a template, got {:?}", other),
    }
}

#[test]
fn argument_names_are_trimmed_and_lowercased() {
    let tree = template(vec![text("t")], vec![argument("  TITLE ", vec![text("v")])]);
    let out = normalize_template_names(tree, &settings()).unwrap();
    match out {
        Element::Template(t) => match &t.content[0] {
            Element::TemplateArgument(a) => assert_eq!(a.name, "title"),
            other => panic!("expected an argument, got {:?}", other),
        },
        other => panic!("expected a template, got {:?}", other),
    }
}

#[test]
fn template_with_empty_name_list_is_a_structural_error() {
    let tree = template(vec![], vec![]);
    let err = normalize_template_names(tree, &settings()).unwrap_err();
    assert_eq!(err.cause, "MFNF template name must not be empty!");
    assert_eq!(err.transformation_name, "normalize_template_names");
}

#[test]
fn template_with_blank_name_text_is_a_structural_error() {
    let tree = template(vec![text("   ")], vec![]);
    let err = normalize_template_names(tree, &settings()).unwrap_err();
    assert_eq!(err.cause, "Template names cannot be empty!");
}

#[test]
fn template_with_non_argument_child_is_a_structural_error() {
    let tree = doc(vec![template(vec![text("t")], vec![text("stray")])]);
    let err = normalize_template_names(tree, &settings()).unwrap_err();
    assert_eq!(
        err.cause,
        "Only TemplateArguments are allowed as children of templates!"
    );
    assert_eq!(err.position, span(3, 9));
}

#[test]
fn synthesized_name_span_covers_the_original_name_nodes() {
    let first = Element::Text(Text { position: span(10, 12), text: "A".to_string() });
    let last = Element::Text(Text { position: span(14, 20), text: "b".to_string() });
    let tree = template(vec![first, last], vec![]);
    let out = normalize_template_names(tree, &settings()).unwrap();
    match out {
        Element::Template(t) => match &t.name[0] {
            Element::Text(t) => {
                assert_eq!(t.position, span(10, 20));
                assert_eq!(t.text, "ab");
            }
            other => panic!("expected a text node, got {:?}", other),
        },
        other => panic!("expected a template, got {:?}", other),
    }
}

// Interwiki link resolution.

fn internal_reference(target: &str, caption: &str) -> Element {
    Element::InternalReference(InternalReference {
        position: span(2, 5),
        target: vec![text(target)],
        caption: vec![text(caption)],
    })
}

#[test]
fn known_interwiki_prefix_becomes_an_external_reference() {
    let mut s = settings();
    s.general.interwiki_link_mapping = vec![(
        "wikipedia:".to_string(),
        "https://en.wikipedia.org/wiki/".to_string(),
    )];
    let tree = doc(vec![internal_reference("Wikipedia:Foo", "the caption")]);
    let out = resolve_interwiki_links(tree, &s).unwrap();
    let expected = doc(vec![Element::ExternalReference(ExternalReference {
        position: span(2, 5),
        target: "https://en.wikipedia.org/wiki/Foo".to_string(),
        caption: vec![text("the caption")],
    })]);
    assert_eq!(out, expected);
}

#[test]
fn unknown_prefix_keeps_the_internal_reference() {
    let mut s = settings();
    s.general.interwiki_link_mapping =
        vec![("wikipedia:".to_string(), "https://en.wikipedia.org/wiki/".to_string())];
    let tree = doc(vec![internal_reference("Wiktionary:Foo", "c")]);
    let out = resolve_interwiki_links(tree, &s).unwrap();
    let expected = doc(vec![internal_reference("Wiktionary:Foo", "c")]);
    assert_eq!(out, expected);
}

#[test]
fn target_without_colon_keeps_the_internal_reference() {
    let mut s = settings();
    s.general.interwiki_link_mapping =
        vec![("wikipedia:".to_string(), "https://en.wikipedia.org/wiki/".to_string())];
    let tree = doc(vec![internal_reference("Just a page", "c")]);
    let out = resolve_interwiki_links(tree, &s).unwrap();
    let expected = doc(vec![internal_reference("Just a page", "c")]);
    assert_eq!(out, expected);
}

// Section inclusion.

fn store(entries: Vec<SectionEntry>) -> SectionStore {
    SectionStore { entries }
}

fn directive(article_and_prefix: &str, section: &str) -> Element {
    template(
        vec![text(article_and_prefix)],
        vec![argument("1", vec![text(section)])],
    )
}

#[test]
fn missing_section_resource_truncates_the_sibling_list() {
    let s = settings();
    let tree = vec![
        directive("#lst:Some Article", "intro"),
        text("this sibling is dropped"),
        heading(1, "so is this", vec![]),
    ];
    let out = include_sections_vec(tree, &s, &store(vec![])).unwrap();
    assert_eq!(out.len(), 1);
    match &out[0] {
        Element::Error(e) => {
            assert_eq!(
                e.message,
                "section file `Some Article/intro` could not be read or parsed!"
            );
            assert_eq!(e.position, span(3, 9));
        }
        other => panic!("expected an error node, got {:?}", other),
    }
}

#[test]
fn unparsable_section_resource_counts_as_missing() {
    let s = settings();
    let st = store(vec![SectionEntry {
        path: "Some Article/intro".to_string(),
        fragment: None,
    }]);
    let tree = vec![directive("#lst:Some Article", "intro"), text("dropped")];
    let out = include_sections_vec(tree, &s, &st).unwrap();
    assert_eq!(out.len(), 1);
    assert!(matches!(&out[0], Element::Error(_)));
}

#[test]
fn stored_section_is_spliced_in_with_a_comment() {
    let s = settings();
    let st = store(vec![SectionEntry {
        path: "Some Article/intro".to_string(),
        fragment: Some(vec![text("included body")]),
    }]);
    let tree = vec![text("before"), directive("#lst:Some Article", "intro"), text("after")];
    let out = include_sections_vec(tree, &s, &st).unwrap();
    let expected = vec![
        text("before"),
        Element::Comment(Comment {
            position: span(3, 9),
            text: "included from: Some Article|intro".to_string(),
        }),
        text("included body"),
        text("after"),
    ];
    assert_eq!(out, expected);
}

#[test]
fn nested_inclusion_is_expanded_recursively() {
    let s = settings();
    let st = store(vec![
        SectionEntry {
            path: "Outer/all".to_string(),
            fragment: Some(vec![directive("#lst:Inner", "part")]),
        },
        SectionEntry {
            path: "Inner/part".to_string(),
            fragment: Some(vec![text("innermost")]),
        },
    ]);
    let tree = vec![directive("#lst:Outer", "all")];
    let out = include_sections_vec(tree, &s, &st).unwrap();
    assert_eq!(out.len(), 3);
    assert!(matches!(&out[0], Element::Comment(_)));
    assert!(matches!(&out[1], Element::Comment(_)));
    assert_eq!(out[2], text("innermost"));
}

#[test]
fn directive_without_section_argument_is_a_hard_error() {
    let s = settings();
    let tree = doc(vec![template(vec![text("#lst:Some Article")], vec![])]);
    let err = include_sections(tree, &s, &store(vec![])).unwrap_err();
    assert_eq!(
        err.cause,
        "A section inclusion must specify article name and section name!"
    );
    assert_eq!(err.transformation_name, "include_sections");
}

#[test]
fn self_inclusion_stops_at_the_depth_limit() {
    let s = settings();
    let st = store(vec![SectionEntry {
        path: "Loop/loop".to_string(),
        fragment: Some(vec![directive("#lst:Loop", "loop")]),
    }]);
    let tree = doc(vec![directive("#lst:Loop", "loop")]);
    let err = include_sections(tree, &s, &st).unwrap_err();
    assert_eq!(err.cause, "section inclusion nesting is too deep!");
}

#[test]
fn non_directive_templates_pass_through_inclusion() {
    let s = settings();
    let tree = doc(vec![template(vec![text("formula")], vec![])]);
    let out = include_sections(tree, &s, &store(vec![])).unwrap();
    assert_eq!(out, doc(vec![template(vec![text("formula")], vec![])]));
}

// Subtarget exclusion filtering.

#[test]
fn include_subtarget_keeps_only_named_headings() {
    let s = settings_with_subtargets("print", vec![subtarget("print", &["Intro"])], vec![]);
    let tree = doc(vec![
        heading(1, "Intro", vec![text("kept body")]),
        heading(1, "Details", vec![text("no heading inside")]),
    ]);
    let out = remove_exclusions(tree, &s).unwrap();
    let expected = doc(vec![heading(1, "Intro", vec![text("kept body")])]);
    assert_eq!(out, expected);
}

#[test]
fn include_subtarget_keeps_parents_of_named_headings() {
    let s = settings_with_subtargets("print", vec![subtarget("print", &["inner"])], vec![]);
    let tree = doc(vec![heading(
        1,
        "Outer",
        vec![heading(2, "Inner", vec![]), heading(2, "Other", vec![])],
    )]);
    let out = remove_exclusions(tree, &s).unwrap();
    let expected = doc(vec![heading(1, "Outer", vec![heading(2, "Inner", vec![])])]);
    assert_eq!(out, expected);
}

#[test]
fn exclude_subtarget_drops_named_headings_without_nested_survivors() {
    let s = settings_with_subtargets("web", vec![], vec![subtarget("web", &["Details"])]);
    let tree = doc(vec![
        heading(1, "Intro", vec![]),
        heading(1, "Details", vec![text("no nested heading")]),
    ]);
    let out = remove_exclusions(tree, &s).unwrap();
    let expected = doc(vec![heading(1, "Intro", vec![])]);
    assert_eq!(out, expected);
}

#[test]
fn subtarget_names_match_case_insensitively() {
    let s = settings_with_subtargets("  PRINT ", vec![subtarget("Print", &["Intro"])], vec![]);
    let tree = doc(vec![heading(1, " INTRO ", vec![]), heading(1, "Rest", vec![])]);
    let out = remove_exclusions(tree, &s).unwrap();
    let expected = doc(vec![heading(1, " INTRO ", vec![])]);
    assert_eq!(out, expected);
}

#[test]
fn subtarget_without_parameters_leaves_the_tree_unchanged() {
    let s = settings_with_subtargets("print", vec![subtarget("print", &[])], vec![]);
    let tree = doc(vec![heading(1, "Anything", vec![])]);
    let out = remove_exclusions(tree, &s).unwrap();
    assert_eq!(out, doc(vec![heading(1, "Anything", vec![])]));
}

#[test]
fn no_matching_subtarget_leaves_the_tree_unchanged() {
    let s = settings_with_subtargets("pdf", vec![subtarget("print", &["Intro"])], vec![]);
    let tree = doc(vec![heading(1, "Whatever", vec![])]);
    let out = remove_exclusions(tree, &s).unwrap();
    assert_eq!(out, doc(vec![heading(1, "Whatever", vec![])]));
}

#[test]
fn missing_parameter_heading_is_a_hard_error_naming_both() {
    let s = settings_with_subtargets("print", vec![subtarget("print", &["Nowhere"])], vec![]);
    let tree = doc(vec![heading(1, "Intro", vec![])]);
    let err = remove_exclusions(tree, &s).unwrap_err();
    assert_eq!(
        err.cause,
        "heading \"Nowhere\" in \"print\" is not present in this document!"
    );
    assert_eq!(err.transformation_name, "remove_exclusions");
}

#[test]
fn missing_heading_in_exclude_markers_also_fails() {
    let s = settings_with_subtargets("web", vec![], vec![subtarget("web", &["Ghost"])]);
    let tree = doc(vec![heading(1, "Real", vec![])]);
    let err = remove_exclusions(tree, &s).unwrap_err();
    assert_eq!(
        err.cause,
        "heading \"Ghost\" in \"web\" is not present in this document!"
    );
}

#[test]
fn exclude_subtarget_keeps_named_heading_with_nested_survivors() {
    let s = settings_with_subtargets("web", vec![], vec![subtarget("web", &["Details"])]);
    let tree = doc(vec![heading(
        1,
        "Details",
        vec![heading(2, "Inner", vec![])],
    )]);
    let out = remove_exclusions(tree, &s).unwrap();
    let expected = doc(vec![heading(1, "Details", vec![heading(2, "Inner", vec![])])]);
    assert_eq!(out, expected);
}

#[test]
fn templates_inside_argument_values_are_normalized_too() {
    let inner = template(vec![text(" INNER ")], vec![]);
    let tree = template(vec![text("outer")], vec![argument("a", vec![inner])]);
    let out = normalize_template_names(tree, &settings()).unwrap();
    match out {
        Element::Template(t) => match &t.content[0] {
            Element::TemplateArgument(a) => match &a.value[0] {
                Element::Template(inner) => match &inner.name[0] {
                    Element::Text(t) => assert_eq!(t.text, "inner"),
                    other => panic!("expected a text node, got {:?}", other),
                },
                other => panic!("expected a template, got {:?}", other),
            },
            other => panic!("expected an argument, got {:?}", other),
        },
        other => panic!("expected a template, got {:?}", other),
    }
}

#[test]
fn interwiki_prefix_matches_case_insensitively() {
    let mut s = settings();
    s.general.interwiki_link_mapping =
        vec![("wikipedia:".to_string(), "https://en.wikipedia.org/wiki/".to_string())];
    let tree = doc(vec![internal_reference("WIKIPEDIA:Bar", "c")]);
    let out = resolve_interwiki_links(tree, &s).unwrap();
    match out {
        Element::Document(d) => match &d.content[0] {
            Element::ExternalReference(r) => {
                assert_eq!(r.target, "https://en.wikipedia.org/wiki/Bar");
            }
            other => panic!("expected an external reference, got {:?}", other),
        },
        other => panic!("expected a document, got {:?}", other),
    }
}

#[test]
fn siblings_before_a_failing_directive_survive() {
    let s = settings();
    let tree = vec![
        text("kept"),
        directive("#lst:Missing", "part"),
        text("dropped"),
    ];
    let out = include_sections_vec(tree, &s, &store(vec![])).unwrap();
    assert_eq!(out.len(), 2);
    assert_eq!(out[0], text("kept"));
    assert!(matches!(&out[1], Element::Error(_)));
}
