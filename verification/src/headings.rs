//! Heading depth normalization: a depth-first walk that assigns each heading
//! the nesting depth of headings above it, starting at 1; siblings share the
//! depth at which their list is entered.

use vstd::prelude::*;
use crate::ast::{
    Document, ElemView, Element, ExternalReference, Heading, InternalReference, Template,
    TemplateArgument, Text, TransformationError, elems_view, lemma_elems_view_cons,
    lemma_elems_view_cons_build,
};
use crate::settings::Settings;

verus! {

/// The depth handed to the children of a heading entered at `depth`.
pub open spec fn next_depth(depth: usize) -> usize {
    if depth < usize::MAX {
        (depth + 1) as usize
    } else {
        depth
    }
}

/// One node with its headings renumbered, entered at `depth`.
pub open spec fn heads_elem(v: ElemView, depth: usize) -> ElemView
    decreases v,
{
    match v {
        ElemView::Document { position, content } => ElemView::Document {
            position,
            content: heads_list(content, depth),
        },
        ElemView::Heading { position, depth: _, caption, content } => ElemView::Heading {
            position,
            depth,
            caption: heads_list(caption, next_depth(depth)),
            content: heads_list(content, next_depth(depth)),
        },
        ElemView::Template { position, name, content } => ElemView::Template {
            position,
            name: heads_list(name, depth),
            content: heads_list(content, depth),
        },
        ElemView::TemplateArgument { position, name, value } => ElemView::TemplateArgument {
            position,
            name,
            value: heads_list(value, depth),
        },
        ElemView::Text { .. } => v,
        ElemView::Comment { .. } => v,
        ElemView::Error { .. } => v,
        ElemView::InternalReference { position, target, caption } => ElemView::InternalReference {
            position,
            target: heads_list(target, depth),
            caption: heads_list(caption, depth),
        },
        ElemView::ExternalReference { position, target, caption } => ElemView::ExternalReference {
            position,
            target,
            caption: heads_list(caption, depth),
        },
    }
}

/// A list of siblings with their headings renumbered, entered at `depth`.
pub open spec fn heads_list(s: Seq<ElemView>, depth: usize) -> Seq<ElemView>
    decreases s,
{
    if s.len() == 0 {
        Seq::empty()
    } else {
        seq![heads_elem(s[0], depth)] + heads_list(s.drop_first(), depth)
    }
}

fn heads_elem_exec(e: Element, depth: usize) -> (r: Element)
    ensures
        r@ == heads_elem(e@, depth),
    decreases e,
{
    match e {
        Element::Document(d) => Element::Document(
            Document { position: d.position, content: heads_vec(d.content, depth) },
        ),
        Element::Heading(h) => {
            let child_depth: usize = if depth < usize::MAX {
                depth + 1
            } else {
                depth
            };
            Element::Heading(
                Heading {
                    position: h.position,
                    depth,
                    caption: heads_vec(h.caption, child_depth),
                    content: heads_vec(h.content, child_depth),
                },
            )
        },
        Element::Template(t) => Element::Template(
            Template {
                position: t.position,
                name: heads_vec(t.name, depth),
                content: heads_vec(t.content, depth),
            },
        ),
        Element::TemplateArgument(a) => Element::TemplateArgument(
            TemplateArgument {
                position: a.position,
                name: a.name,
                value: heads_vec(a.value, depth),
            },
        ),
        Element::Text(t) => Element::Text(t),
        Element::Comment(c) => Element::Comment(c),
        Element::Error(er) => Element::Error(er),
        Element::InternalReference(r) => Element::InternalReference(
            InternalReference {
                position: r.position,
                target: heads_vec(r.target, depth),
                caption: heads_vec(r.caption, depth),
            },
        ),
        Element::ExternalReference(r) => Element::ExternalReference(
            ExternalReference {
                position: r.position,
                target: r.target,
                caption: heads_vec(r.caption, depth),
            },
        ),
    }
}

fn heads_vec(mut v: Vec<Element>, depth: usize) -> (r: Vec<Element>)
    ensures
        elems_view(r@) == heads_list(elems_view(v@), depth),
    decreases v@,
{
    let ghost s = v@;
    if v.len() == 0 {
        v
    } else {
        proof {
            lemma_elems_view_cons(s);
        }
        let head = v.remove(0);
        proof {
            assert(v@ =~= s.drop_first());
        }
        let h2 = heads_elem_exec(head, depth);
        let mut rest = heads_vec(v, depth);
        let ghost r0 = rest@;
        proof {
            lemma_elems_view_cons_build(h2, r0);
        }
        rest.insert(0, h2);
        proof {
            assert(rest@ =~= seq![h2] + r0);
        }
        rest
    }
}

/// Renumbers all heading depths so that the outermost headings have depth 1
/// and every heading nested below a heading is one level deeper.
pub fn normalize_heading_depths(root: Element, _settings: &Settings) -> (r: Result<
    Element,
    TransformationError,
>)
    ensures
        r is Ok,
        r matches Ok(t) ==> t@ == heads_elem(root@, 1),
{
    Ok(heads_elem_exec(root, 1))
}

/// Renumbering heading depths twice, from the same entry depth, yields the
/// same tree as renumbering once: the pass is idempotent.
pub proof fn lemma_heads_elem_idempotent(v: ElemView, depth: usize)
    ensures
        heads_elem(heads_elem(v, depth), depth) == heads_elem(v, depth),
    decreases v,
{
    match v {
        ElemView::Document { position, content } => {
            lemma_heads_list_idempotent(content, depth);
        },
        ElemView::Heading { position, depth: _, caption, content } => {
            lemma_heads_list_idempotent(caption, next_depth(depth));
            lemma_heads_list_idempotent(content, next_depth(depth));
        },
        ElemView::Template { position, name, content } => {
            lemma_heads_list_idempotent(name, depth);
            lemma_heads_list_idempotent(content, depth);
        },
        ElemView::TemplateArgument { position, name, value } => {
            lemma_heads_list_idempotent(value, depth);
        },
        ElemView::Text { .. } => {},
        ElemView::Comment { .. } => {},
        ElemView::Error { .. } => {},
        ElemView::InternalReference { position, target, caption } => {
            lemma_heads_list_idempotent(target, depth);
            lemma_heads_list_idempotent(caption, depth);
        },
        ElemView::ExternalReference { position, target, caption } => {
            lemma_heads_list_idempotent(caption, depth);
        },
    }
}

/// List form of the idempotence law.
pub proof fn lemma_heads_list_idempotent(s: Seq<ElemView>, depth: usize)
    ensures
        heads_list(heads_list(s, depth), depth) == heads_list(s, depth),
    decreases s,
{
    if s.len() == 0 {
        assert(heads_list(heads_list(s, depth), depth) =~= heads_list(s, depth));
    } else {
        let m = heads_list(s, depth);
        assert(m[0] == heads_elem(s[0], depth));
        assert(m.drop_first() =~= heads_list(s.drop_first(), depth));
        lemma_heads_elem_idempotent(s[0], depth);
        lemma_heads_list_idempotent(s.drop_first(), depth);
        assert(heads_list(m, depth) =~= seq![heads_elem(m[0], depth)] + heads_list(
            m.drop_first(),
            depth,
        ));
        assert(heads_list(m, depth) =~= m);
    }
}

} // verus!

