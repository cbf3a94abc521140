//! Template invocation normalization: argument names are trimmed and
//! lower-cased, the template name is flattened into one text node (trimmed,
//! and lower-cased unless it starts with the directive marker `#`), and any
//! template with a missing name or a child that is not a template argument is
//! a structural error that aborts the pass.

use vstd::prelude::*;
use crate::ast::{
    ElemView, Element, Span, TrErrView, TransformationError, Document, Heading, Template,
    TemplateArgument, Text, InternalReference, ExternalReference, elems_view, plain_text_list,
    lemma_elems_view_cons, lemma_elems_view_cons_build, lemma_elems_view_index, extract_plain_text,
    singleton_vec,
};
use crate::settings::Settings;
use crate::textops::{lower, trim, lower_str, trim_str};

verus! {

/// A structural error of this pass.
pub open spec fn template_error(cause: Seq<char>, position: Span) -> TrErrView {
    TrErrView { cause, position, transformation_name: "normalize_template_names"@ }
}

/// The normalized form of a flattened template name: trimmed, and lower-cased
/// unless the trimmed text starts with `#`.
pub open spec fn norm_template_name_text(raw: Seq<char>) -> Seq<char> {
    let t = trim(raw);
    if t.len() > 0 && t[0] == '#' {
        t
    } else {
        lower(t)
    }
}

/// The span of the synthesized name node: from the first name node's start to
/// the last one's end, with the template's own span as the fallback.
pub open spec fn name_span(name: Seq<ElemView>, fallback: Span) -> Span {
    if name.len() == 0 {
        fallback
    } else {
        Span { start: name[0].position().start, end: name.last().position().end }
    }
}

/// One node with every template it holds normalized, or the first structural
/// error found.
pub open spec fn templ_elem(v: ElemView) -> Result<ElemView, TrErrView>
    decreases v,
{
    match v {
        ElemView::Document { position, content } => match templ_list(content) {
            Ok(c) => Ok(ElemView::Document { position, content: c }),
            Err(e) => Err(e),
        },
        ElemView::Heading { position, depth, caption, content } => match templ_list(caption) {
            Ok(cap) => match templ_list(content) {
                Ok(c) => Ok(ElemView::Heading { position, depth, caption: cap, content: c }),
                Err(e) => Err(e),
            },
            Err(e) => Err(e),
        },
        ElemView::Template { position, name, content } => {
            if name.len() == 0 {
                Err(template_error("MFNF template name must not be empty!"@, position))
            } else {
                match templ_args(content, position) {
                    Ok(args) => {
                        let newname = norm_template_name_text(plain_text_list(name));
                        if newname.len() == 0 {
                            Err(template_error("Template names cannot be empty!"@, position))
                        } else {
                            Ok(ElemView::Template {
                                position,
                                name: seq![
                                    ElemView::Text {
                                        position: name_span(name, position),
                                        text: newname,
                                    },
                                ],
                                content: args,
                            })
                        }
                    },
                    Err(e) => Err(e),
                }
            }
        },
        ElemView::TemplateArgument { position, name, value } => match templ_list(value) {
            Ok(val) => Ok(ElemView::TemplateArgument { position, name, value: val }),
            Err(e) => Err(e),
        },
        ElemView::Text { .. } => Ok(v),
        ElemView::Comment { .. } => Ok(v),
        ElemView::Error { .. } => Ok(v),
        ElemView::InternalReference { position, target, caption } => match templ_list(target) {
            Ok(t) => match templ_list(caption) {
                Ok(cap) => Ok(ElemView::InternalReference { position, target: t, caption: cap }),
                Err(e) => Err(e),
            },
            Err(e) => Err(e),
        },
        ElemView::ExternalReference { position, target, caption } => match templ_list(caption) {
            Ok(cap) => Ok(ElemView::ExternalReference { position, target, caption: cap }),
            Err(e) => Err(e),
        },
    }
}

/// The content children of a template: each must be a template argument; its
/// name is trimmed and lower-cased and its value normalized recursively.
pub open spec fn templ_args(s: Seq<ElemView>, tpos: Span) -> Result<Seq<ElemView>, TrErrView>
    decreases s,
{
    if s.len() == 0 {
        Ok(Seq::empty())
    } else {
        match s[0] {
            ElemView::TemplateArgument { position, name, value } => match templ_list(value) {
                Ok(val) => match templ_args(s.drop_first(), tpos) {
                    Ok(rest) => Ok(
                        seq![
                            ElemView::TemplateArgument {
                                position,
                                name: lower(trim(name)),
                                value: val,
                            },
                        ] + rest,
                    ),
                    Err(e) => Err(e),
                },
                Err(e) => Err(e),
            },
            _ => Err(
                template_error(
                    "Only TemplateArguments are allowed as children of templates!"@,
                    tpos,
                ),
            ),
        }
    }
}

/// A list of siblings with every template normalized.
pub open spec fn templ_list(s: Seq<ElemView>) -> Result<Seq<ElemView>, TrErrView>
    decreases s,
{
    if s.len() == 0 {
        Ok(Seq::empty())
    } else {
        match templ_elem(s[0]) {
            Ok(h) => match templ_list(s.drop_first()) {
                Ok(rest) => Ok(seq![h] + rest),
                Err(e) => Err(e),
            },
            Err(e) => Err(e),
        }
    }
}

fn templ_elem_exec(e: Element) -> (r: Result<Element, TransformationError>)
    ensures
        match templ_elem(e@) {
            Ok(w) => r matches Ok(t) && t@ == w,
            Err(er) => r matches Err(t) && t@ == er,
        },
    decreases e,
{
    match e {
        Element::Document(d) => {
            let content = match templ_vec(d.content) {
                Ok(c) => c,
                Err(er) => return Err(er),
            };
            Ok(Element::Document(Document { position: d.position, content }))
        },
        Element::Heading(h) => {
            let caption = match templ_vec(h.caption) {
                Ok(c) => c,
                Err(er) => return Err(er),
            };
            let content = match templ_vec(h.content) {
                Ok(c) => c,
                Err(er) => return Err(er),
            };
            Ok(
                Element::Heading(
                    Heading { position: h.position, depth: h.depth, caption, content },
                ),
            )
        },
        Element::Template(t) => {
            let Template { position, name, content } = t;
            if name.len() == 0 {
                return Err(
                    TransformationError::new(
                        "MFNF template name must not be empty!",
                        position,
                        "normalize_template_names",
                    ),
                );
            }
            let args = match templ_args_exec(content, position) {
                Ok(a) => a,
                Err(er) => return Err(er),
            };
            let raw = extract_plain_text(&name);
            let trimmed = trim_str(raw.as_str());
            let newname: String = if trimmed.unicode_len() > 0 && trimmed.as_str().get_char(0)
                == '#' {
                trimmed
            } else {
                lower_str(trimmed.as_str())
            };
            if newname.unicode_len() == 0 {
                return Err(
                    TransformationError::new(
                        "Template names cannot be empty!",
                        position,
                        "normalize_template_names",
                    ),
                );
            }
            proof {
                lemma_elems_view_index(name@, 0);
                lemma_elems_view_index(name@, name@.len() - 1);
            }
            let first_span = name[0].get_position();
            let last_span = name[name.len() - 1].get_position();
            let text_span = Span { start: first_span.start, end: last_span.end };
            let new_name = singleton_vec(
                Element::Text(Text { position: text_span, text: newname }),
            );
            Ok(Element::Template(Template { position, name: new_name, content: args }))
        },
        Element::TemplateArgument(a) => {
            let value = match templ_vec(a.value) {
                Ok(c) => c,
                Err(er) => return Err(er),
            };
            Ok(
                Element::TemplateArgument(
                    TemplateArgument { position: a.position, name: a.name, value },
                ),
            )
        },
        Element::Text(t) => Ok(Element::Text(t)),
        Element::Comment(c) => Ok(Element::Comment(c)),
        Element::Error(er) => Ok(Element::Error(er)),
        Element::InternalReference(r) => {
            let target = match templ_vec(r.target) {
                Ok(c) => c,
                Err(er) => return Err(er),
            };
            let caption = match templ_vec(r.caption) {
                Ok(c) => c,
                Err(er) => return Err(er),
            };
            Ok(
                Element::InternalReference(
                    InternalReference { position: r.position, target, caption },
                ),
            )
        },
        Element::ExternalReference(r) => {
            let caption = match templ_vec(r.caption) {
                Ok(c) => c,
                Err(er) => return Err(er),
            };
            Ok(
                Element::ExternalReference(
                    ExternalReference { position: r.position, target: r.target, caption },
                ),
            )
        },
    }
}

fn templ_args_exec(mut v: Vec<Element>, tpos: Span) -> (r: Result<
    Vec<Element>,
    TransformationError,
>)
    ensures
        match templ_args(elems_view(v@), tpos) {
            Ok(w) => r matches Ok(t) && elems_view(t@) == w,
            Err(er) => r matches Err(t) && t@ == er,
        },
    decreases v@,
{
    let ghost s = v@;
    if v.len() == 0 {
        proof {
            assert(elems_view(v@) =~= Seq::<ElemView>::empty());
        }
        Ok(Vec::new())
    } else {
        proof {
            lemma_elems_view_cons(s);
        }
        let head = v.remove(0);
        proof {
            assert(v@ =~= s.drop_first());
        }
        match head {
            Element::TemplateArgument(a) => {
                let TemplateArgument { position, name, value } = a;
                let val = match templ_vec(value) {
                    Ok(x) => x,
                    Err(er) => return Err(er),
                };
                let lowered = lower_str(trim_str(name.as_str()).as_str());
                let mut rest = match templ_args_exec(v, tpos) {
                    Ok(x) => x,
                    Err(er) => return Err(er),
                };
                let arg = Element::TemplateArgument(
                    TemplateArgument { position, name: lowered, value: val },
                );
                let ghost r0 = rest@;
                proof {
                    lemma_elems_view_cons_build(arg, r0);
                }
                rest.insert(0, arg);
                proof {
                    assert(rest@ =~= seq![arg] + r0);
                }
                Ok(rest)
            },
            _ => Err(
                TransformationError::new(
                    "Only TemplateArguments are allowed as children of templates!",
                    tpos,
                    "normalize_template_names",
                ),
            ),
        }
    }
}

fn templ_vec(mut v: Vec<Element>) -> (r: Result<Vec<Element>, TransformationError>)
    ensures
        match templ_list(elems_view(v@)) {
            Ok(w) => r matches Ok(t) && elems_view(t@) == w,
            Err(er) => r matches Err(t) && t@ == er,
        },
    decreases v@,
{
    let ghost s = v@;
    if v.len() == 0 {
        proof {
            assert(elems_view(v@) =~= Seq::<ElemView>::empty());
        }
        Ok(Vec::new())
    } else {
        proof {
            lemma_elems_view_cons(s);
        }
        let head = v.remove(0);
        proof {
            assert(v@ =~= s.drop_first());
        }
        let h = match templ_elem_exec(head) {
            Ok(x) => x,
            Err(er) => return Err(er),
        };
        let mut rest = match templ_vec(v) {
            Ok(x) => x,
            Err(er) => return Err(er),
        };
        let ghost r0 = rest@;
        proof {
            lemma_elems_view_cons_build(h, r0);
        }
        rest.insert(0, h);
        proof {
            assert(rest@ =~= seq![h] + r0);
        }
        Ok(rest)
    }
}

/// Normalizes every template of the tree, or reports the first structural
/// error: an empty template name, or a template child that is not a template
/// argument.
pub fn normalize_template_names(root: Element, _settings: &Settings) -> (r: Result<
    Element,
    TransformationError,
>)
    ensures
        match templ_elem(root@) {
            Ok(w) => r matches Ok(t) && t@ == w,
            Err(er) => r matches Err(t) && t@ == er,
        },
{
    templ_elem_exec(root)
}

/// A normalized template carries exactly one name node: the flattened
/// original name, trimmed, and lower-cased unless it starts with `#`.
pub proof fn lemma_template_name_normalized(position: Span, name: Seq<ElemView>, content: Seq<
    ElemView,
>)
    ensures
        templ_elem(ElemView::Template { position, name, content }) matches Ok(w) ==> w
            == (ElemView::Template {
            position,
            name: seq![
                ElemView::Text {
                    position: name_span(name, position),
                    text: norm_template_name_text(plain_text_list(name)),
                },
            ],
            content: templ_args(content, position)->Ok_0,
        }),
{
}

/// The normalized name text is the trimmed original when that starts with
/// `#`, and the trimmed, lower-cased original otherwise.
pub proof fn lemma_norm_template_name_cases(raw: Seq<char>)
    ensures
        trim(raw).len() > 0 && trim(raw)[0] == '#' ==> norm_template_name_text(raw) == trim(raw),
        !(trim(raw).len() > 0 && trim(raw)[0] == '#') ==> norm_template_name_text(raw) == lower(
            trim(raw),
        ),
{
}

proof fn lemma_templ_args_non_argument(s: Seq<ElemView>, tpos: Span, i: int)
    requires
        0 <= i < s.len(),
        !(s[i] matches ElemView::TemplateArgument { .. }),
    ensures
        templ_args(s, tpos) is Err,
    decreases s.len(),
{
    if i > 0 {
        lemma_templ_args_non_argument(s.drop_first(), tpos, i - 1);
    }
}

/// A template holding a child that is not a template argument is always a
/// structural error of this pass, never a silently dropped child.
pub proof fn lemma_template_non_argument_child_errors(
    position: Span,
    name: Seq<ElemView>,
    content: Seq<ElemView>,
    i: int,
)
    requires
        0 <= i < content.len(),
        !(content[i] matches ElemView::TemplateArgument { .. }),
    ensures
        templ_elem(ElemView::Template { position, name, content }) is Err,
{
    lemma_templ_args_non_argument(content, position, i);
}

} // verus!
