//! Subtarget exclusion filtering: for the build variant named by the current
//! target, headings are kept or dropped according to the matching subtarget's
//! parameter list. Before any filtering, every parameter caption of a
//! matching subtarget must name a heading somewhere in the document, else the
//! pass fails hard with an error naming the caption and the subtarget.

use vstd::prelude::*;
use crate::ast::{
    ElemView, Element, Span, TrErrView, TransformationError, Document, Heading, Template,
    TemplateArgument, InternalReference, ExternalReference, elems_view, plain_text_list,
    lemma_elems_view_cons, lemma_elems_view_cons_build, lemma_elems_view_index,
    lemma_elems_view_len, extract_plain_text,
};
use crate::settings::{
    Settings, SettingsView, Subtarget, SubtargetView, subtargets_view, name_matches,
    find_subtarget, find_subtarget_exec,
};
use crate::textops::{lower, trim, lower_str, trim_str};

verus! {

/// Whether a flattened heading caption is named by one of the parameters:
/// both sides are compared trimmed and lower-cased.
pub open spec fn caption_in_params(params: Seq<Seq<char>>, caption: Seq<char>) -> bool
    decreases params.len(),
{
    if params.len() == 0 {
        false
    } else if lower(trim(params[0])) == lower(trim(caption)) {
        true
    } else {
        caption_in_params(params.drop_first(), caption)
    }
}

/// Whether a node is a heading or has one anywhere below it.
pub open spec fn contains_heading(v: ElemView) -> bool
    decreases v,
{
    match v {
        ElemView::Document { content, .. } => list_contains_heading(content),
        ElemView::Heading { .. } => true,
        ElemView::Template { name, content, .. } => list_contains_heading(name)
            || list_contains_heading(content),
        ElemView::TemplateArgument { value, .. } => list_contains_heading(value),
        ElemView::Text { .. } => false,
        ElemView::Comment { .. } => false,
        ElemView::Error { .. } => false,
        ElemView::InternalReference { target, caption, .. } => list_contains_heading(target)
            || list_contains_heading(caption),
        ElemView::ExternalReference { caption, .. } => list_contains_heading(caption),
    }
}

pub open spec fn list_contains_heading(s: Seq<ElemView>) -> bool
    decreases s,
{
    if s.len() == 0 {
        false
    } else {
        contains_heading(s[0]) || list_contains_heading(s.drop_first())
    }
}

/// Whether the filtered heading still holds a heading among its content.
pub open spec fn heading_content_has_heading(v: ElemView) -> bool {
    match v {
        ElemView::Heading { content, .. } => list_contains_heading(content),
        _ => false,
    }
}

/// Whether the tree holds a heading whose caption matches `title`, compared
/// trimmed and lower-cased.
pub open spec fn has_heading_with_caption(v: ElemView, title: Seq<char>) -> bool
    decreases v,
{
    match v {
        ElemView::Document { content, .. } => list_has_heading_with_caption(content, title),
        ElemView::Heading { caption, content, .. } => lower(trim(plain_text_list(caption)))
            == lower(trim(title)) || list_has_heading_with_caption(caption, title)
            || list_has_heading_with_caption(content, title),
        ElemView::Template { name, content, .. } => list_has_heading_with_caption(name, title)
            || list_has_heading_with_caption(content, title),
        ElemView::TemplateArgument { value, .. } => list_has_heading_with_caption(value, title),
        ElemView::Text { .. } => false,
        ElemView::Comment { .. } => false,
        ElemView::Error { .. } => false,
        ElemView::InternalReference { target, caption, .. } => list_has_heading_with_caption(
            target,
            title,
        ) || list_has_heading_with_caption(caption, title),
        ElemView::ExternalReference { caption, .. } => list_has_heading_with_caption(
            caption,
            title,
        ),
    }
}

pub open spec fn list_has_heading_with_caption(s: Seq<ElemView>, title: Seq<char>) -> bool
    decreases s,
{
    if s.len() == 0 {
        false
    } else {
        has_heading_with_caption(s[0], title) || list_has_heading_with_caption(
            s.drop_first(),
            title,
        )
    }
}

/// The first parameter caption that no heading of the tree carries.
pub open spec fn first_missing_param(root: ElemView, params: Seq<Seq<char>>) -> Option<Seq<char>>
    decreases params.len(),
{
    if params.len() == 0 {
        None
    } else if !has_heading_with_caption(root, params[0]) {
        Some(params[0])
    } else {
        first_missing_param(root, params.drop_first())
    }
}

/// The message of the hard error for a missing heading caption.
pub open spec fn missing_heading_message(title: Seq<char>, name: Seq<char>) -> Seq<char> {
    "heading \""@ + title + "\" in \""@ + name + "\" is not present in this document!"@
}

/// The first hard error among the subtargets that name the current target:
/// each of their parameter captions must exist in the tree.
pub open spec fn check_subtargets(
    root: ElemView,
    sts: Seq<SubtargetView>,
    target: Seq<char>,
) -> Option<TrErrView>
    decreases sts.len(),
{
    if sts.len() == 0 {
        None
    } else if name_matches(sts[0].name, target) {
        match first_missing_param(root, sts[0].parameters) {
            Some(title) => Some(
                TrErrView {
                    cause: missing_heading_message(title, sts[0].name),
                    position: root.position(),
                    transformation_name: "remove_exclusions"@,
                },
            ),
            None => check_subtargets(root, sts.drop_first(), target),
        }
    } else {
        check_subtargets(root, sts.drop_first(), target)
    }
}

/// The precondition check of the pass, evaluated only at a document root.
pub open spec fn excl_check(root: ElemView, cfg: SettingsView) -> Option<TrErrView> {
    if !(root matches ElemView::Document { .. }) {
        None
    } else {
        match check_subtargets(root, cfg.include_subtargets, cfg.target_name) {
            Some(e) => Some(e),
            None => check_subtargets(root, cfg.exclude_subtargets, cfg.target_name),
        }
    }
}

/// The subtarget that drives filtering: the first include-marker subtarget
/// naming the current target, else the first exclude-marker one; the flag is
/// true for include mode.
pub open spec fn active_subtarget(cfg: SettingsView) -> Option<(SubtargetView, bool)> {
    match find_subtarget(cfg.include_subtargets, cfg.target_name) {
        Some(st) => Some((st, true)),
        None => match find_subtarget(cfg.exclude_subtargets, cfg.target_name) {
            Some(st) => Some((st, false)),
            None => None,
        },
    }
}

/// One node with the filter applied below it.
pub open spec fn excl_elem(v: ElemView, st: SubtargetView, incl: bool) -> ElemView
    decreases v,
{
    match v {
        ElemView::Document { position, content } => ElemView::Document {
            position,
            content: excl_list(content, st, incl),
        },
        ElemView::Heading { position, depth, caption, content } => ElemView::Heading {
            position,
            depth,
            caption: excl_list(caption, st, incl),
            content: excl_list(content, st, incl),
        },
        ElemView::Template { position, name, content } => ElemView::Template {
            position,
            name: excl_list(name, st, incl),
            content: excl_list(content, st, incl),
        },
        ElemView::TemplateArgument { position, name, value } => ElemView::TemplateArgument {
            position,
            name,
            value: excl_list(value, st, incl),
        },
        ElemView::Text { .. } => v,
        ElemView::Comment { .. } => v,
        ElemView::Error { .. } => v,
        ElemView::InternalReference { position, target, caption } => ElemView::InternalReference {
            position,
            target: excl_list(target, st, incl),
            caption: excl_list(caption, st, incl),
        },
        ElemView::ExternalReference { position, target, caption } => ElemView::ExternalReference {
            position,
            target,
            caption: excl_list(caption, st, incl),
        },
    }
}

/// One sibling list with the filter applied. In include mode a heading named
/// by a parameter is kept with its whole subtree; an unnamed one survives only
/// if, after filtering, its content still holds a heading. In exclude mode an
/// unnamed heading is kept, and a named one survives only if, after
/// filtering, its content still holds a heading.
pub open spec fn excl_list(s: Seq<ElemView>, st: SubtargetView, incl: bool) -> Seq<ElemView>
    decreases s,
{
    if s.len() == 0 {
        Seq::empty()
    } else {
        let rest = excl_list(s.drop_first(), st, incl);
        match s[0] {
            ElemView::Heading { caption, .. } => {
                let matched = caption_in_params(st.parameters, plain_text_list(caption));
                if incl && matched {
                    seq![s[0]] + rest
                } else {
                    let h2 = excl_elem(s[0], st, incl);
                    let keep = if incl {
                        heading_content_has_heading(h2)
                    } else {
                        !matched || heading_content_has_heading(h2)
                    };
                    if keep {
                        seq![h2] + rest
                    } else {
                        rest
                    }
                }
            },
            _ => seq![excl_elem(s[0], st, incl)] + rest,
        }
    }
}

/// The tree the pass returns when the precondition check passes.
pub open spec fn excl_result(v: ElemView, cfg: SettingsView) -> ElemView {
    match active_subtarget(cfg) {
        None => v,
        Some((st, incl)) => if st.parameters.len() == 0 {
            v
        } else {
            excl_elem(v, st, incl)
        },
    }
}

proof fn lemma_list_contains_heading_at(s: Seq<ElemView>, k: int)
    requires
        0 <= k < s.len(),
        contains_heading(s[k]),
    ensures
        list_contains_heading(s),
    decreases s.len(),
{
    if k > 0 {
        lemma_list_contains_heading_at(s.drop_first(), k - 1);
    }
}

proof fn lemma_list_contains_heading_none(s: Seq<ElemView>)
    requires
        forall|k: int| 0 <= k < s.len() ==> !contains_heading(#[trigger] s[k]),
    ensures
        !list_contains_heading(s),
    decreases s.len(),
{
    if s.len() > 0 {
        assert(forall|k: int| 0 <= k < s.len() - 1 ==> s.drop_first()[k] == #[trigger] s[k + 1]);
        lemma_list_contains_heading_none(s.drop_first());
    }
}

/// Whether a list holds a heading anywhere below it.
fn vec_contains_heading(v: &Vec<Element>) -> (r: bool)
    ensures
        r == list_contains_heading(elems_view(v@)),
    decreases v,
{
    let ghost ev = elems_view(v@);
    proof {
        lemma_elems_view_len(v@);
    }
    let n = v.len();
    let mut j: usize = 0;
    while j < n
        invariant
            n == v@.len(),
            j <= n,
            ev == elems_view(v@),
            ev.len() == n,
            forall|k: int| 0 <= k < j ==> !contains_heading(#[trigger] ev[k]),
        decreases n - j,
    {
        proof {
            lemma_elems_view_index(v@, j as int);
        }
        let c = match &v[j] {
            Element::Document(d) => vec_contains_heading(&d.content),
            Element::Heading(_) => true,
            Element::Template(t) => vec_contains_heading(&t.name) || vec_contains_heading(
                &t.content,
            ),
            Element::TemplateArgument(a) => vec_contains_heading(&a.value),
            Element::Text(_) => false,
            Element::Comment(_) => false,
            Element::Error(_) => false,
            Element::InternalReference(r) => vec_contains_heading(&r.target)
                || vec_contains_heading(&r.caption),
            Element::ExternalReference(r) => vec_contains_heading(&r.caption),
        };
        if c {
            proof {
                lemma_list_contains_heading_at(ev, j as int);
            }
            return true;
        }
        j = j + 1;
    }
    proof {
        lemma_list_contains_heading_none(ev);
    }
    false
}

proof fn lemma_list_has_caption_at(s: Seq<ElemView>, title: Seq<char>, k: int)
    requires
        0 <= k < s.len(),
        has_heading_with_caption(s[k], title),
    ensures
        list_has_heading_with_caption(s, title),
    decreases s.len(),
{
    if k > 0 {
        lemma_list_has_caption_at(s.drop_first(), title, k - 1);
    }
}

proof fn lemma_list_has_caption_none(s: Seq<ElemView>, title: Seq<char>)
    requires
        forall|k: int| 0 <= k < s.len() ==> !has_heading_with_caption(#[trigger] s[k], title),
    ensures
        !list_has_heading_with_caption(s, title),
    decreases s.len(),
{
    if s.len() > 0 {
        assert(forall|k: int| 0 <= k < s.len() - 1 ==> s.drop_first()[k] == #[trigger] s[k + 1]);
        lemma_list_has_caption_none(s.drop_first(), title);
    }
}

/// Whether a list holds a heading whose caption matches `title`.
fn vec_has_heading_with_caption(v: &Vec<Element>, title: &String) -> (r: bool)
    ensures
        r == list_has_heading_with_caption(elems_view(v@), title@),
    decreases v,
{
    let ghost ev = elems_view(v@);
    proof {
        lemma_elems_view_len(v@);
    }
    let n = v.len();
    let mut j: usize = 0;
    while j < n
        invariant
            n == v@.len(),
            j <= n,
            ev == elems_view(v@),
            ev.len() == n,
            forall|k: int|
                0 <= k < j ==> !has_heading_with_caption(#[trigger] ev[k], title@),
        decreases n - j,
    {
        proof {
            lemma_elems_view_index(v@, j as int);
        }
        let c = match &v[j] {
            Element::Document(d) => vec_has_heading_with_caption(&d.content, title),
            Element::Heading(h) => {
                let cap = extract_plain_text(&h.caption);
                let cap_l = lower_str(trim_str(cap.as_str()).as_str());
                let title_l = lower_str(trim_str(title.as_str()).as_str());
                cap_l == title_l || vec_has_heading_with_caption(&h.caption, title)
                    || vec_has_heading_with_caption(&h.content, title)
            },
            Element::Template(t) => vec_has_heading_with_caption(&t.name, title)
                || vec_has_heading_with_caption(&t.content, title),
            Element::TemplateArgument(a) => vec_has_heading_with_caption(&a.value, title),
            Element::Text(_) => false,
            Element::Comment(_) => false,
            Element::Error(_) => false,
            Element::InternalReference(r) => vec_has_heading_with_caption(&r.target, title)
                || vec_has_heading_with_caption(&r.caption, title),
            Element::ExternalReference(r) => vec_has_heading_with_caption(&r.caption, title),
        };
        if c {
            proof {
                lemma_list_has_caption_at(ev, title@, j as int);
            }
            return true;
        }
        j = j + 1;
    }
    proof {
        lemma_list_has_caption_none(ev, title@);
    }
    false
}

/// Whether the tree holds a heading whose caption matches `title`.
fn element_has_heading_with_caption(e: &Element, title: &String) -> (r: bool)
    ensures
        r == has_heading_with_caption(e@, title@),
{
    match e {
        Element::Document(d) => vec_has_heading_with_caption(&d.content, title),
        Element::Heading(h) => {
            let cap = extract_plain_text(&h.caption);
            let cap_l = lower_str(trim_str(cap.as_str()).as_str());
            let title_l = lower_str(trim_str(title.as_str()).as_str());
            cap_l == title_l || vec_has_heading_with_caption(&h.caption, title)
                || vec_has_heading_with_caption(&h.content, title)
        },
        Element::Template(t) => vec_has_heading_with_caption(&t.name, title)
            || vec_has_heading_with_caption(&t.content, title),
        Element::TemplateArgument(a) => vec_has_heading_with_caption(&a.value, title),
        Element::Text(_) => false,
        Element::Comment(_) => false,
        Element::Error(_) => false,
        Element::InternalReference(r) => vec_has_heading_with_caption(&r.target, title)
            || vec_has_heading_with_caption(&r.caption, title),
        Element::ExternalReference(r) => vec_has_heading_with_caption(&r.caption, title),
    }
}

fn first_missing_param_from(root: &Element, params: &Vec<String>, i: usize) -> (r: Option<String>)
    requires
        i <= params@.len(),
    ensures
        match r {
            Some(t) => first_missing_param(root@, params@.map_values(|p: String| p@).skip(i as int))
                == Some(t@),
            None => first_missing_param(
                root@,
                params@.map_values(|p: String| p@).skip(i as int),
            ) is None,
        },
    decreases params@.len() - i,
{
    let ghost m = params@.map_values(|p: String| p@).skip(i as int);
    if i == params.len() {
        proof {
            assert(m.len() == 0);
        }
        None
    } else {
        proof {
            assert(m[0] == params@.map_values(|p: String| p@)[i as int]);
            assert(m.drop_first() =~= params@.map_values(|p: String| p@).skip(i as int + 1));
        }
        if !element_has_heading_with_caption(root, &params[i]) {
            Some(params[i].clone())
        } else {
            first_missing_param_from(root, params, i + 1)
        }
    }
}

fn check_subtargets_from(root: &Element, sts: &Vec<Subtarget>, target: &str, i: usize) -> (r:
    Option<TransformationError>)
    requires
        i <= sts@.len(),
    ensures
        match r {
            Some(e) => check_subtargets(root@, subtargets_view(sts@).skip(i as int), target@)
                == Some(e@),
            None => check_subtargets(root@, subtargets_view(sts@).skip(i as int), target@) is None,
        },
    decreases sts@.len() - i,
{
    let ghost m = subtargets_view(sts@).skip(i as int);
    if i == sts.len() {
        proof {
            assert(m.len() == 0);
        }
        None
    } else {
        proof {
            assert(m[0] == subtargets_view(sts@)[i as int]);
            assert(m.drop_first() =~= subtargets_view(sts@).skip(i as int + 1));
        }
        let name_l = lower_str(trim_str(sts[i].name.as_str()).as_str());
        let target_l = lower_str(trim_str(target).as_str());
        if name_l == target_l {
            match first_missing_param_from(root, &sts[i].parameters, 0) {
                Some(title) => {
                    proof {
                        assert(sts@[i as int].parameters@.map_values(|p: String| p@).skip(0)
                            =~= m[0].parameters);
                    }
                    let cause = String::from_str("heading \"").concat(title.as_str()).concat(
                        "\" in \"",
                    ).concat(sts[i].name.as_str()).concat(
                        "\" is not present in this document!",
                    );
                    let position = root.get_position();
                    Some(
                        TransformationError {
                            cause,
                            position,
                            transformation_name: String::from_str("remove_exclusions"),
                        },
                    )
                },
                None => {
                    proof {
                        assert(sts@[i as int].parameters@.map_values(|p: String| p@).skip(0)
                            =~= m[0].parameters);
                    }
                    check_subtargets_from(root, sts, target, i + 1)
                },
            }
        } else {
            check_subtargets_from(root, sts, target, i + 1)
        }
    }
}

fn caption_in_params_from(params: &Vec<String>, caption: &String, i: usize) -> (r: bool)
    requires
        i <= params@.len(),
    ensures
        r == caption_in_params(params@.map_values(|p: String| p@).skip(i as int), caption@),
    decreases params@.len() - i,
{
    let ghost m = params@.map_values(|p: String| p@).skip(i as int);
    if i == params.len() {
        proof {
            assert(m.len() == 0);
        }
        false
    } else {
        proof {
            assert(m[0] == params@.map_values(|p: String| p@)[i as int]);
            assert(m.drop_first() =~= params@.map_values(|p: String| p@).skip(i as int + 1));
        }
        let p_l = lower_str(trim_str(params[i].as_str()).as_str());
        let c_l = lower_str(trim_str(caption.as_str()).as_str());
        if p_l == c_l {
            true
        } else {
            caption_in_params_from(params, caption, i + 1)
        }
    }
}

fn excl_elem_exec(e: Element, st: &Subtarget, incl: bool) -> (r: Element)
    ensures
        r@ == excl_elem(e@, st@, incl),
    decreases e,
{
    match e {
        Element::Document(d) => Element::Document(
            Document { position: d.position, content: excl_vec(d.content, st, incl) },
        ),
        Element::Heading(h) => Element::Heading(
            Heading {
                position: h.position,
                depth: h.depth,
                caption: excl_vec(h.caption, st, incl),
                content: excl_vec(h.content, st, incl),
            },
        ),
        Element::Template(t) => Element::Template(
            Template {
                position: t.position,
                name: excl_vec(t.name, st, incl),
                content: excl_vec(t.content, st, incl),
            },
        ),
        Element::TemplateArgument(a) => Element::TemplateArgument(
            TemplateArgument {
                position: a.position,
                name: a.name,
                value: excl_vec(a.value, st, incl),
            },
        ),
        Element::Text(t) => Element::Text(t),
        Element::Comment(c) => Element::Comment(c),
        Element::Error(er) => Element::Error(er),
        Element::InternalReference(r) => Element::InternalReference(
            InternalReference {
                position: r.position,
                target: excl_vec(r.target, st, incl),
                caption: excl_vec(r.caption, st, incl),
            },
        ),
        Element::ExternalReference(r) => Element::ExternalReference(
            ExternalReference {
                position: r.position,
                target: r.target,
                caption: excl_vec(r.caption, st, incl),
            },
        ),
    }
}

fn excl_vec(mut v: Vec<Element>, st: &Subtarget, incl: bool) -> (r: Vec<Element>)
    ensures
        elems_view(r@) == excl_list(elems_view(v@), st@, incl),
    decreases v@,
{
    let ghost s = v@;
    if v.len() == 0 {
        proof {
            assert(elems_view(v@) =~= Seq::<ElemView>::empty());
        }
        return Vec::new();
    }
    proof {
        lemma_elems_view_cons(s);
    }
    let head = v.remove(0);
    let ghost hv = head@;
    proof {
        assert(v@ =~= s.drop_first());
        assert(hv == elems_view(s)[0]);
    }
    match head {
        Element::Heading(h) => {
            let cap = extract_plain_text(&h.caption);
            let matched = caption_in_params_from(&st.parameters, &cap, 0);
            proof {
                assert(st.parameters@.map_values(|p: String| p@).skip(0) =~= st@.parameters);
            }
            if incl && matched {
                let mut rest = excl_vec(v, st, incl);
                let ghost r0 = rest@;
                proof {
                    lemma_elems_view_cons_build(Element::Heading(h), r0);
                }
                let kept = Element::Heading(h);
                rest.insert(0, kept);
                proof {
                    assert(rest@ =~= seq![kept] + r0);
                }
                rest
            } else {
                let h2 = excl_elem_exec(Element::Heading(h), st, incl);
                let has = match &h2 {
                    Element::Heading(hh) => vec_contains_heading(&hh.content),
                    _ => false,
                };
                proof {
                    assert(has == heading_content_has_heading(h2@));
                }
                let keep = if incl {
                    has
                } else {
                    !matched || has
                };
                let mut rest = excl_vec(v, st, incl);
                if keep {
                    let ghost r0 = rest@;
                    proof {
                        lemma_elems_view_cons_build(h2, r0);
                    }
                    rest.insert(0, h2);
                    proof {
                        assert(rest@ =~= seq![h2] + r0);
                    }
                    rest
                } else {
                    rest
                }
            }
        },
        other => {
            let h2 = excl_elem_exec(other, st, incl);
            let mut rest = excl_vec(v, st, incl);
            let ghost r0 = rest@;
            proof {
                lemma_elems_view_cons_build(h2, r0);
            }
            rest.insert(0, h2);
            proof {
                assert(rest@ =~= seq![h2] + r0);
            }
            rest
        },
    }
}

/// Filters headings by the subtarget that names the current target, after
/// checking that every parameter caption of every subtarget naming the target
/// exists in the document; a missing caption is a hard error naming the
/// caption and the subtarget.
pub fn remove_exclusions(root: Element, settings: &Settings) -> (r: Result<
    Element,
    TransformationError,
>)
    ensures
        match excl_check(root@, settings@) {
            Some(e) => r matches Err(t) && t@ == e,
            None => r matches Ok(t) && t@ == excl_result(root@, settings@),
        },
{
    let is_doc = match &root {
        Element::Document(_) => true,
        _ => false,
    };
    if is_doc {
        proof {
            assert(subtargets_view(settings.runtime.markers.inclusion.subtargets@).skip(0)
                =~= settings@.include_subtargets);
            assert(subtargets_view(settings.runtime.markers.exclusion.subtargets@).skip(0)
                =~= settings@.exclude_subtargets);
        }
        if let Some(e) = check_subtargets_from(
            &root,
            &settings.runtime.markers.inclusion.subtargets,
            settings.runtime.target_name.as_str(),
            0,
        ) {
            return Err(e);
        }
        if let Some(e) = check_subtargets_from(
            &root,
            &settings.runtime.markers.exclusion.subtargets,
            settings.runtime.target_name.as_str(),
            0,
        ) {
            return Err(e);
        }
    }
    match find_subtarget_exec(
        &settings.runtime.markers.inclusion.subtargets,
        settings.runtime.target_name.as_str(),
    ) {
        Some(st) => {
            if st.parameters.len() == 0 {
                Ok(root)
            } else {
                Ok(excl_elem_exec(root, st, true))
            }
        },
        None => {
            match find_subtarget_exec(
                &settings.runtime.markers.exclusion.subtargets,
                settings.runtime.target_name.as_str(),
            ) {
                Some(st) => {
                    if st.parameters.len() == 0 {
                        Ok(root)
                    } else {
                        Ok(excl_elem_exec(root, st, false))
                    }
                },
                None => Ok(root),
            }
        },
    }
}

/// A parameter list has a missing caption exactly when its first missing
/// caption exists; that caption is one of the parameters and is missing.
pub proof fn lemma_first_missing_param(root: ElemView, params: Seq<Seq<char>>)
    ensures
        first_missing_param(root, params) is Some <==> exists|j: int|
            0 <= j < params.len() && !has_heading_with_caption(root, #[trigger] params[j]),
        first_missing_param(root, params) matches Some(t) ==> exists|j: int|
            0 <= j < params.len() && #[trigger] params[j] == t && !has_heading_with_caption(
                root,
                t,
            ),
    decreases params.len(),
{
    if params.len() > 0 {
        lemma_first_missing_param(root, params.drop_first());
        if !has_heading_with_caption(root, params[0]) {
            assert(params[0] == params[0]);
        } else {
            if first_missing_param(root, params.drop_first()) is Some {
                let j = choose|j: int|
                    0 <= j < params.drop_first().len() && !has_heading_with_caption(
                        root,
                        #[trigger] params.drop_first()[j],
                    );
                assert(params[j + 1] == params.drop_first()[j]);
            }
            if exists|j: int|
                0 <= j < params.len() && !has_heading_with_caption(root, #[trigger] params[j]) {
                let j = choose|j: int|
                    0 <= j < params.len() && !has_heading_with_caption(root, #[trigger] params[j]);
                assert(params.drop_first()[j - 1] == params[j]);
            }
        }
    }
}

/// A subtarget naming the current target with a parameter caption that no
/// heading of the tree carries makes the check fail.
pub proof fn lemma_missing_caption_check_fails(
    root: ElemView,
    sts: Seq<SubtargetView>,
    target: Seq<char>,
    i: int,
    j: int,
)
    requires
        0 <= i < sts.len(),
        name_matches(sts[i].name, target),
        0 <= j < sts[i].parameters.len(),
        !has_heading_with_caption(root, sts[i].parameters[j]),
    ensures
        check_subtargets(root, sts, target) is Some,
    decreases sts.len(),
{
    if i == 0 {
        lemma_first_missing_param(root, sts[0].parameters);
    } else {
        if name_matches(sts[0].name, target) && first_missing_param(
            root,
            sts[0].parameters,
        ) is Some {
        } else {
            lemma_missing_caption_check_fails(root, sts.drop_first(), target, i - 1, j);
        }
    }
}

/// A document whose include markers name the current target through a
/// subtarget with a caption that no heading carries makes the pass fail hard.
pub proof fn lemma_missing_inclusion_caption_fails_pass(
    root: ElemView,
    cfg: SettingsView,
    i: int,
    j: int,
)
    requires
        root matches ElemView::Document { .. },
        0 <= i < cfg.include_subtargets.len(),
        name_matches(cfg.include_subtargets[i].name, cfg.target_name),
        0 <= j < cfg.include_subtargets[i].parameters.len(),
        !has_heading_with_caption(root, cfg.include_subtargets[i].parameters[j]),
    ensures
        excl_check(root, cfg) is Some,
{
    lemma_missing_caption_check_fails(root, cfg.include_subtargets, cfg.target_name, i, j);
}

/// The same, for a subtarget of the exclude markers.
pub proof fn lemma_missing_exclusion_caption_fails_pass(
    root: ElemView,
    cfg: SettingsView,
    i: int,
    j: int,
)
    requires
        root matches ElemView::Document { .. },
        0 <= i < cfg.exclude_subtargets.len(),
        name_matches(cfg.exclude_subtargets[i].name, cfg.target_name),
        0 <= j < cfg.exclude_subtargets[i].parameters.len(),
        !has_heading_with_caption(root, cfg.exclude_subtargets[i].parameters[j]),
    ensures
        excl_check(root, cfg) is Some,
{
    lemma_missing_caption_check_fails(root, cfg.exclude_subtargets, cfg.target_name, i, j);
}

/// Whether `e` is the hard error for some caption of a target-naming
/// subtarget of `sts` that no heading of `root` carries.
pub open spec fn names_missing_caption(
    e: TrErrView,
    root: ElemView,
    sts: Seq<SubtargetView>,
    target: Seq<char>,
) -> bool {
    exists|i: int, j: int|
        0 <= i < sts.len() && name_matches(sts[i].name, target) && 0 <= j < sts[i].parameters.len()
            && !has_heading_with_caption(root, #[trigger] sts[i].parameters[j]) && e == (TrErrView {
            cause: missing_heading_message(sts[i].parameters[j], sts[i].name),
            position: root.position(),
            transformation_name: "remove_exclusions"@,
        })
}

/// When the pass fails its precondition check, the error names a caption
/// missing from the document and the subtarget that lists it, and carries the
/// root's position.
pub proof fn lemma_excl_check_error_names_caption(root: ElemView, cfg: SettingsView)
    ensures
        excl_check(root, cfg) matches Some(e) ==> names_missing_caption(
            e,
            root,
            cfg.include_subtargets,
            cfg.target_name,
        ) || names_missing_caption(e, root, cfg.exclude_subtargets, cfg.target_name),
{
    lemma_check_error_names_caption(root, cfg.include_subtargets, cfg.target_name);
    lemma_check_error_names_caption(root, cfg.exclude_subtargets, cfg.target_name);
}

/// When the check fails, the error names a missing caption and the subtarget
/// that lists it, and carries the root's position.
pub proof fn lemma_check_error_names_caption(
    root: ElemView,
    sts: Seq<SubtargetView>,
    target: Seq<char>,
)
    ensures
        check_subtargets(root, sts, target) matches Some(e) ==> exists|i: int, j: int|
            0 <= i < sts.len() && name_matches(sts[i].name, target) && 0 <= j < sts[i]
                .parameters.len() && !has_heading_with_caption(
                root,
                #[trigger] sts[i].parameters[j],
            ) && e == (TrErrView {
                cause: missing_heading_message(sts[i].parameters[j], sts[i].name),
                position: root.position(),
                transformation_name: "remove_exclusions"@,
            }),
    decreases sts.len(),
{
    if sts.len() > 0 {
        if name_matches(sts[0].name, target) && first_missing_param(
            root,
            sts[0].parameters,
        ) is Some {
            lemma_first_missing_param(root, sts[0].parameters);
            let t = first_missing_param(root, sts[0].parameters)->Some_0;
            let j = choose|j: int|
                0 <= j < sts[0].parameters.len() && #[trigger] sts[0].parameters[j] == t
                    && !has_heading_with_caption(root, t);
            assert(0 <= 0 < sts.len() && name_matches(sts[0].name, target) && 0 <= j < sts[0]
                .parameters.len() && !has_heading_with_caption(root, sts[0].parameters[j])
                && check_subtargets(root, sts, target)->Some_0 == (TrErrView {
                cause: missing_heading_message(sts[0].parameters[j], sts[0].name),
                position: root.position(),
                transformation_name: "remove_exclusions"@,
            }));
        } else {
            lemma_check_error_names_caption(root, sts.drop_first(), target);
            if check_subtargets(root, sts.drop_first(), target) is Some {
                let e = check_subtargets(root, sts.drop_first(), target)->Some_0;
                let (i, j) = choose|i: int, j: int|
                    0 <= i < sts.drop_first().len() && name_matches(
                        sts.drop_first()[i].name,
                        target,
                    ) && 0 <= j < sts.drop_first()[i].parameters.len()
                        && !has_heading_with_caption(
                        root,
                        #[trigger] sts.drop_first()[i].parameters[j],
                    ) && e == (TrErrView {
                        cause: missing_heading_message(
                            sts.drop_first()[i].parameters[j],
                            sts.drop_first()[i].name,
                        ),
                        position: root.position(),
                        transformation_name: "remove_exclusions"@,
                    });
                assert(sts[i + 1] == sts.drop_first()[i]);
            }
        }
    }
}

} // verus!
