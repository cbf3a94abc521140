use mfnf_export::ast::{Document, Element, Position, Span};
use mfnf_export::html::HTMLTarget;
use mfnf_export::settings::{
    GeneralSettings, Marker, RuntimeSettings, Settings, TargetMarkers,
};
use mfnf_export::target::Target;

fn empty_doc() -> Element {
    let p = Position { offset: 0, line: 1, col: 1 };
    Element::Document(Document { position: Span { start: p, end: p }, content: vec![] })
}

fn settings() -> Settings {
    Settings {
        general: GeneralSettings {
            section_inclusion_prefix: String::new(),
            interwiki_link_mapping: vec![],
        },
        runtime: RuntimeSettings {
            target_name: String::new(),
            markers: TargetMarkers {
                inclusion: Marker { subtargets: vec![] },
                exclusion: Marker { subtargets: vec![] },
            },
        },
    }
}

#[test]
fn html_target_describes_itself() {
    let t = HTMLTarget::default();
    assert_eq!(t.get_name(), "html");
    assert!(t.do_include_sections());
    assert!(!t.do_generate_dependencies());
    assert_eq!(t.get_target_extension(), "html");
    assert_eq!(t.extension_for("png"), "%");
}

#[test]
fn html_export_renders_the_placeholder() {
    let t = HTMLTarget::default();
    let out = t.export(&empty_doc(), &settings(), &vec![]).unwrap();
    assert_eq!(out, "Hello World!");
}
