//! Interwiki link resolution: an internal reference whose target text carries
//! a known namespace prefix (up to and including the first colon) becomes an
//! external reference to the mapped URL base followed by the text after the
//! colon; everything else is left for later passes.

use vstd::prelude::*;
use crate::ast::{
    ElemView, Element, TransformationError, Document, Heading, Template, TemplateArgument,
    InternalReference, ExternalReference, elems_view, plain_text_list, lemma_elems_view_cons,
    lemma_elems_view_cons_build, extract_plain_text,
};
use crate::settings::{Settings, SettingsView, assoc_lookup, lookup_mapping};
use crate::textops::{lower, trim, first_colon, lower_str, trim_str, find_colon};

verus! {

/// One node with every resolvable internal reference rewritten.
pub open spec fn links_elem(v: ElemView, cfg: SettingsView) -> ElemView
    decreases v,
{
    match v {
        ElemView::Document { position, content } => ElemView::Document {
            position,
            content: links_list(content, cfg),
        },
        ElemView::Heading { position, depth, caption, content } => ElemView::Heading {
            position,
            depth,
            caption: links_list(caption, cfg),
            content: links_list(content, cfg),
        },
        ElemView::Template { position, name, content } => ElemView::Template {
            position,
            name: links_list(name, cfg),
            content: links_list(content, cfg),
        },
        ElemView::TemplateArgument { position, name, value } => ElemView::TemplateArgument {
            position,
            name,
            value: links_list(value, cfg),
        },
        ElemView::Text { .. } => v,
        ElemView::Comment { .. } => v,
        ElemView::Error { .. } => v,
        ElemView::InternalReference { position, target, caption } => {
            let text = plain_text_list(target);
            match first_colon(text) {
                Some(p) => {
                    let key = trim(lower(text.take(p + 1)));
                    match assoc_lookup(cfg.interwiki_link_mapping, key) {
                        Some(base) => ElemView::ExternalReference {
                            position,
                            target: base + text.skip(p + 1),
                            caption,
                        },
                        None => ElemView::InternalReference {
                            position,
                            target: links_list(target, cfg),
                            caption: links_list(caption, cfg),
                        },
                    }
                },
                None => ElemView::InternalReference {
                    position,
                    target: links_list(target, cfg),
                    caption: links_list(caption, cfg),
                },
            }
        },
        ElemView::ExternalReference { position, target, caption } => ElemView::ExternalReference {
            position,
            target,
            caption: links_list(caption, cfg),
        },
    }
}

/// A list of siblings with every resolvable internal reference rewritten.
pub open spec fn links_list(s: Seq<ElemView>, cfg: SettingsView) -> Seq<ElemView>
    decreases s,
{
    if s.len() == 0 {
        Seq::empty()
    } else {
        seq![links_elem(s[0], cfg)] + links_list(s.drop_first(), cfg)
    }
}

fn links_elem_exec(e: Element, settings: &Settings) -> (r: Element)
    ensures
        r@ == links_elem(e@, settings@),
    decreases e,
{
    match e {
        Element::Document(d) => Element::Document(
            Document { position: d.position, content: links_vec(d.content, settings) },
        ),
        Element::Heading(h) => Element::Heading(
            Heading {
                position: h.position,
                depth: h.depth,
                caption: links_vec(h.caption, settings),
                content: links_vec(h.content, settings),
            },
        ),
        Element::Template(t) => Element::Template(
            Template {
                position: t.position,
                name: links_vec(t.name, settings),
                content: links_vec(t.content, settings),
            },
        ),
        Element::TemplateArgument(a) => Element::TemplateArgument(
            TemplateArgument {
                position: a.position,
                name: a.name,
                value: links_vec(a.value, settings),
            },
        ),
        Element::Text(t) => Element::Text(t),
        Element::Comment(c) => Element::Comment(c),
        Element::Error(er) => Element::Error(er),
        Element::InternalReference(r) => {
            let InternalReference { position, target, caption } = r;
            let text = extract_plain_text(&target);
            let len = text.unicode_len();
            let mut resolved: Option<String> = None;
            if let Some(p) = find_colon(text.as_str()) {
                let prefix = text.as_str().substring_char(0, p + 1);
                let key = trim_str(lower_str(prefix).as_str());
                if let Some(base) = lookup_mapping(
                    &settings.general.interwiki_link_mapping,
                    &key,
                ) {
                    let rem = text.as_str().substring_char(p + 1, len);
                    resolved = Some(base.concat(rem));
                }
            }
            match resolved {
                Some(new_target) => Element::ExternalReference(
                    ExternalReference { position, target: new_target, caption },
                ),
                None => Element::InternalReference(
                    InternalReference {
                        position,
                        target: links_vec(target, settings),
                        caption: links_vec(caption, settings),
                    },
                ),
            }
        },
        Element::ExternalReference(r) => Element::ExternalReference(
            ExternalReference {
                position: r.position,
                target: r.target,
                caption: links_vec(r.caption, settings),
            },
        ),
    }
}

fn links_vec(mut v: Vec<Element>, settings: &Settings) -> (r: Vec<Element>)
    ensures
        elems_view(r@) == links_list(elems_view(v@), settings@),
    decreases v@,
{
    let ghost s = v@;
    if v.len() == 0 {
        v
    } else {
        proof {
            lemma_elems_view_cons(s);
        }
        let head = v.remove(0);
        proof {
            assert(v@ =~= s.drop_first());
        }
        let h = links_elem_exec(head, settings);
        let mut rest = links_vec(v, settings);
        let ghost r0 = rest@;
        proof {
            lemma_elems_view_cons_build(h, r0);
        }
        rest.insert(0, h);
        proof {
            assert(rest@ =~= seq![h] + r0);
        }
        rest
    }
}

/// Rewrites every internal reference whose target text has a colon and whose
/// lower-cased, trimmed prefix (colon included) is in the interwiki mapping
/// into an external reference: the mapped URL base followed by the target
/// text after the colon, with position and caption unchanged.
pub fn resolve_interwiki_links(root: Element, settings: &Settings) -> (r: Result<
    Element,
    TransformationError,
>)
    ensures
        r is Ok,
        r matches Ok(t) ==> t@ == links_elem(root@, settings@),
{
    Ok(links_elem_exec(root, settings))
}

} // verus!
