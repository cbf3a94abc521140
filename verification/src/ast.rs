//! The document tree model: node types, their mathematical views, and the
//! spec-level text flattening that several rewrite passes share.

use vstd::prelude::*;

verus! {

/// A coordinate into the original wiki source.
#[derive(Clone, Copy, PartialEq, Eq, Structural, Debug)]
pub struct Position {
    pub offset: usize,
    pub line: usize,
    pub col: usize,
}

/// A source span, from `start` to `end`.
#[derive(Clone, Copy, PartialEq, Eq, Structural, Debug)]
pub struct Span {
    pub start: Position,
    pub end: Position,
}

/// The root node of a document.
#[derive(PartialEq, Debug)]
pub struct Document {
    pub position: Span,
    pub content: Vec<Element>,
}

/// A section heading: a caption and the content nested below it.
#[derive(PartialEq, Debug)]
pub struct Heading {
    pub position: Span,
    pub depth: usize,
    pub caption: Vec<Element>,
    pub content: Vec<Element>,
}

/// A template invocation. Its name is itself a list of inline nodes, and its
/// content children are expected to be `TemplateArgument`s.
#[derive(PartialEq, Debug)]
pub struct Template {
    pub position: Span,
    pub name: Vec<Element>,
    pub content: Vec<Element>,
}

/// One named argument of a template.
#[derive(PartialEq, Debug)]
pub struct TemplateArgument {
    pub position: Span,
    pub name: String,
    pub value: Vec<Element>,
}

/// A literal text node.
#[derive(PartialEq, Debug)]
pub struct Text {
    pub position: Span,
    pub text: String,
}

/// A comment node; it carries no rendered content.
#[derive(PartialEq, Debug)]
pub struct Comment {
    pub position: Span,
    pub text: String,
}

/// An inline error marker embedded into the tree for recoverable conditions.
#[derive(PartialEq, Debug)]
pub struct Error {
    pub position: Span,
    pub message: String,
}

/// A reference to another place of the same wiki; its target is a list of
/// inline nodes.
#[derive(PartialEq, Debug)]
pub struct InternalReference {
    pub position: Span,
    pub target: Vec<Element>,
    pub caption: Vec<Element>,
}

/// A reference to an external URL.
#[derive(PartialEq, Debug)]
pub struct ExternalReference {
    pub position: Span,
    pub target: String,
    pub caption: Vec<Element>,
}

/// One node of the document tree.
#[derive(PartialEq, Debug)]
pub enum Element {
    Document(Document),
    Heading(Heading),
    Template(Template),
    TemplateArgument(TemplateArgument),
    Text(Text),
    Comment(Comment),
    Error(Error),
    InternalReference(InternalReference),
    ExternalReference(ExternalReference),
}

/// The mathematical shape of one tree node: strings become sequences of
/// characters and child vectors become sequences of views.
pub enum ElemView {
    Document { position: Span, content: Seq<ElemView> },
    Heading { position: Span, depth: usize, caption: Seq<ElemView>, content: Seq<ElemView> },
    Template { position: Span, name: Seq<ElemView>, content: Seq<ElemView> },
    TemplateArgument { position: Span, name: Seq<char>, value: Seq<ElemView> },
    Text { position: Span, text: Seq<char> },
    Comment { position: Span, text: Seq<char> },
    Error { position: Span, message: Seq<char> },
    InternalReference { position: Span, target: Seq<ElemView>, caption: Seq<ElemView> },
    ExternalReference { position: Span, target: Seq<char>, caption: Seq<ElemView> },
}

pub open spec fn elem_view(e: Element) -> ElemView
    decreases e,
{
    match e {
        Element::Document(d) => ElemView::Document {
            position: d.position,
            content: elems_view(d.content@),
        },
        Element::Heading(h) => ElemView::Heading {
            position: h.position,
            depth: h.depth,
            caption: elems_view(h.caption@),
            content: elems_view(h.content@),
        },
        Element::Template(t) => ElemView::Template {
            position: t.position,
            name: elems_view(t.name@),
            content: elems_view(t.content@),
        },
        Element::TemplateArgument(a) => ElemView::TemplateArgument {
            position: a.position,
            name: a.name@,
            value: elems_view(a.value@),
        },
        Element::Text(t) => ElemView::Text { position: t.position, text: t.text@ },
        Element::Comment(c) => ElemView::Comment { position: c.position, text: c.text@ },
        Element::Error(e) => ElemView::Error { position: e.position, message: e.message@ },
        Element::InternalReference(r) => ElemView::InternalReference {
            position: r.position,
            target: elems_view(r.target@),
            caption: elems_view(r.caption@),
        },
        Element::ExternalReference(r) => ElemView::ExternalReference {
            position: r.position,
            target: r.target@,
            caption: elems_view(r.caption@),
        },
    }
}

pub open spec fn elems_view(s: Seq<Element>) -> Seq<ElemView>
    decreases s,
{
    if s.len() == 0 {
        Seq::empty()
    } else {
        seq![elem_view(s[0])] + elems_view(s.drop_first())
    }
}

pub proof fn lemma_elems_view_len(s: Seq<Element>)
    ensures
        elems_view(s).len() == s.len(),
    decreases s.len(),
{
    if s.len() > 0 {
        lemma_elems_view_len(s.drop_first());
    }
}

pub proof fn lemma_elems_view_index(s: Seq<Element>, i: int)
    requires
        0 <= i < s.len(),
    ensures
        elems_view(s).len() == s.len(),
        elems_view(s)[i] == elem_view(s[i]),
    decreases s.len(),
{
    lemma_elems_view_len(s);
    if i > 0 {
        lemma_elems_view_index(s.drop_first(), i - 1);
    }
}

/// Decomposing the view of a non-empty list at its head.
pub proof fn lemma_elems_view_cons(s: Seq<Element>)
    requires
        s.len() > 0,
    ensures
        elems_view(s).len() == s.len(),
        elems_view(s)[0] == elem_view(s[0]),
        elems_view(s).drop_first() == elems_view(s.drop_first()),
{
    lemma_elems_view_len(s);
    lemma_elems_view_index(s, 0);
    assert(elems_view(s).drop_first() =~= elems_view(s.drop_first()));
}

/// Building the view of a list from a new head and a tail.
pub proof fn lemma_elems_view_cons_build(h: Element, t: Seq<Element>)
    ensures
        elems_view(seq![h] + t) == seq![elem_view(h)] + elems_view(t),
{
    let s = seq![h] + t;
    assert(s[0] == h);
    assert(s.drop_first() =~= t);
}

/// The view of a concatenation is the concatenation of the views.
pub proof fn lemma_elems_view_concat(a: Seq<Element>, b: Seq<Element>)
    ensures
        elems_view(a + b) == elems_view(a) + elems_view(b),
    decreases a.len(),
{
    if a.len() == 0 {
        assert(a + b =~= b);
        assert(elems_view(Seq::<Element>::empty()) == Seq::<ElemView>::empty());
        assert(elems_view(a) + elems_view(b) =~= elems_view(b));
    } else {
        assert((a + b)[0] == a[0]);
        assert((a + b).drop_first() =~= a.drop_first() + b);
        lemma_elems_view_concat(a.drop_first(), b);
        assert((a + b).len() > 0);
        assert(elems_view(a + b) == seq![elem_view(a[0])] + (elems_view(a.drop_first()) + elems_view(
            b,
        )));
        assert(elems_view(a) + elems_view(b) =~= seq![elem_view(a[0])] + (elems_view(a.drop_first())
            + elems_view(b)));
    }
}

/// Appending one element on the right side of a list view.
pub proof fn lemma_elems_view_push(s: Seq<Element>, x: Element)
    ensures
        elems_view(s.push(x)) == elems_view(s).push(elem_view(x)),
    decreases s.len(),
{
    if s.len() == 0 {
        assert(s.push(x)[0] == x);
        assert(s.push(x).drop_first() =~= Seq::<Element>::empty());
        assert(elems_view(Seq::<Element>::empty()) == Seq::<ElemView>::empty());
        assert(elems_view(s.push(x)) =~= elems_view(s).push(elem_view(x)));
    } else {
        assert(s.push(x)[0] == s[0]);
        assert(s.push(x).drop_first() =~= s.drop_first().push(x));
        lemma_elems_view_push(s.drop_first(), x);
        assert(elems_view(s.push(x)) =~= elems_view(s).push(elem_view(x)));
    }
}

impl View for Element {
    type V = ElemView;

    open spec fn view(&self) -> ElemView {
        elem_view(*self)
    }
}

impl ElemView {
    /// The source span a node carries.
    pub open spec fn position(self) -> Span {
        match self {
            ElemView::Document { position, .. } => position,
            ElemView::Heading { position, .. } => position,
            ElemView::Template { position, .. } => position,
            ElemView::TemplateArgument { position, .. } => position,
            ElemView::Text { position, .. } => position,
            ElemView::Comment { position, .. } => position,
            ElemView::Error { position, .. } => position,
            ElemView::InternalReference { position, .. } => position,
            ElemView::ExternalReference { position, .. } => position,
        }
    }
}

impl Element {
    /// The source span a node carries.
    pub fn get_position(&self) -> (r: Span)
        ensures
            r == self@.position(),
    {
        match self {
            Element::Document(d) => d.position,
            Element::Heading(h) => h.position,
            Element::Template(t) => t.position,
            Element::TemplateArgument(a) => a.position,
            Element::Text(t) => t.position,
            Element::Comment(c) => c.position,
            Element::Error(e) => e.position,
            Element::InternalReference(r) => r.position,
            Element::ExternalReference(r) => r.position,
        }
    }
}

/// The literal text a list of nodes flattens to: the concatenation, in
/// document order, of the text carried by `Text` nodes and argument values;
/// comments and error markers contribute nothing.
pub open spec fn plain_text(v: ElemView) -> Seq<char>
    decreases v,
{
    match v {
        ElemView::Document { content, .. } => plain_text_list(content),
        ElemView::Heading { caption, content, .. } => plain_text_list(caption) + plain_text_list(
            content,
        ),
        ElemView::Template { name, content, .. } => plain_text_list(name) + plain_text_list(
            content,
        ),
        ElemView::TemplateArgument { value, .. } => plain_text_list(value),
        ElemView::Text { text, .. } => text,
        ElemView::Comment { .. } => Seq::empty(),
        ElemView::Error { .. } => Seq::empty(),
        ElemView::InternalReference { target, caption, .. } => plain_text_list(target)
            + plain_text_list(caption),
        ElemView::ExternalReference { caption, .. } => plain_text_list(caption),
    }
}

pub open spec fn plain_text_list(s: Seq<ElemView>) -> Seq<char>
    decreases s,
{
    if s.len() == 0 {
        Seq::empty()
    } else {
        plain_text(s[0]) + plain_text_list(s.drop_first())
    }
}

/// A hard failure of a rewrite pass: a cause, the span of the offending node,
/// and the name of the failing pass.
#[derive(PartialEq, Debug)]
pub struct TransformationError {
    pub cause: String,
    pub position: Span,
    pub transformation_name: String,
}

/// The mathematical shape of a hard failure.
pub struct TrErrView {
    pub cause: Seq<char>,
    pub position: Span,
    pub transformation_name: Seq<char>,
}

impl View for TransformationError {
    type V = TrErrView;

    open spec fn view(&self) -> TrErrView {
        TrErrView {
            cause: self.cause@,
            position: self.position,
            transformation_name: self.transformation_name@,
        }
    }
}

impl TransformationError {
    /// Builds a hard failure from its parts.
    pub fn new(cause: &str, position: Span, transformation_name: &str) -> (r: TransformationError)
        ensures
            r@ == (TrErrView {
                cause: cause@,
                position,
                transformation_name: transformation_name@,
            }),
    {
        TransformationError {
            cause: cause.to_owned(),
            position,
            transformation_name: transformation_name.to_owned(),
        }
    }
}

/// A vector holding exactly one node.
pub fn singleton_vec(e: Element) -> (r: Vec<Element>)
    ensures
        elems_view(r@) == seq![elem_view(e)],
{
    let ghost v = elem_view(e);
    let mut out: Vec<Element> = Vec::new();
    proof {
        lemma_elems_view_cons_build(e, Seq::<Element>::empty());
        assert(seq![e] + Seq::<Element>::empty() =~= seq![e]);
        assert(elems_view(Seq::<Element>::empty()) == Seq::<ElemView>::empty());
        assert(seq![v] + Seq::<ElemView>::empty() =~= seq![v]);
    }
    out.push(e);
    proof {
        assert(out@ =~= seq![out@[0]]);
    }
    out
}

/// Extending a flattening by one element on the right.
pub proof fn lemma_plain_text_list_take(s: Seq<ElemView>, i: int)
    requires
        0 <= i < s.len(),
    ensures
        plain_text_list(s.take(i + 1)) == plain_text_list(s.take(i)) + plain_text(s[i]),
    decreases i,
{
    if i == 0 {
        assert(s.take(1)[0] == s[0]);
        assert(s.take(1).drop_first() =~= Seq::<ElemView>::empty());
        assert(plain_text_list(Seq::<ElemView>::empty()) == Seq::<char>::empty());
        assert(plain_text_list(s.take(0)) =~= Seq::<char>::empty());
        assert(plain_text_list(s.take(1)) =~= plain_text_list(s.take(0)) + plain_text(s[0]));
    } else {
        let t = s.drop_first();
        lemma_plain_text_list_take(t, i - 1);
        assert(s.take(i + 1)[0] == s[0]);
        assert(s.take(i + 1).drop_first() =~= t.take(i));
        assert(s.take(i)[0] == s[0]);
        assert(s.take(i).drop_first() =~= t.take(i - 1));
        assert(t[i - 1] == s[i]);
        assert((plain_text(s[0]) + plain_text_list(t.take(i - 1))) + plain_text(s[i]) =~= plain_text(
            s[0],
        ) + (plain_text_list(t.take(i - 1)) + plain_text(s[i])));
    }
}

/// Appends to `acc` the flattened plain text of `v`, walking the whole forest.
fn append_plain_text(v: &Vec<Element>, acc: &mut String)
    ensures
        final(acc)@ == old(acc)@ + plain_text_list(elems_view(v@)),
    decreases v,
{
    let ghost entry = acc@;
    let ghost ev = elems_view(v@);
    proof {
        lemma_elems_view_len(v@);
    }
    let n = v.len();
    let mut j: usize = 0;
    while j < n
        invariant
            n == v@.len(),
            j <= n,
            ev == elems_view(v@),
            ev.len() == n,
            acc@ == entry + plain_text_list(ev.take(j as int)),
        decreases n - j,
    {
        proof {
            lemma_elems_view_index(v@, j as int);
        }
        let ghost before = acc@;
        match &v[j] {
            Element::Document(d) => {
                append_plain_text(&d.content, acc);
            },
            Element::Heading(h) => {
                append_plain_text(&h.caption, acc);
                append_plain_text(&h.content, acc);
            },
            Element::Template(t) => {
                append_plain_text(&t.name, acc);
                append_plain_text(&t.content, acc);
            },
            Element::TemplateArgument(a) => {
                append_plain_text(&a.value, acc);
            },
            Element::Text(t) => {
                acc.append(t.text.as_str());
            },
            Element::Comment(_) => {},
            Element::Error(_) => {},
            Element::InternalReference(r) => {
                append_plain_text(&r.target, acc);
                append_plain_text(&r.caption, acc);
            },
            Element::ExternalReference(r) => {
                append_plain_text(&r.caption, acc);
            },
        }
        proof {
            assert(acc@ =~= before + plain_text(ev[j as int]));
            lemma_plain_text_list_take(ev, j as int);
            assert(acc@ =~= entry + plain_text_list(ev.take(j as int + 1)));
        }
        j = j + 1;
    }
    proof {
        assert(ev.take(n as int) =~= ev);
    }
}

/// The flattened plain text of a list of nodes.
pub fn extract_plain_text(elements: &Vec<Element>) -> (r: String)
    ensures
        r@ == plain_text_list(elems_view(elements@)),
{
    let mut acc = String::new();
    append_plain_text(elements, &mut acc);
    proof {
        assert(acc@ =~= plain_text_list(elems_view(elements@)));
    }
    acc
}

/// The flattened plain text of a single node.
pub fn element_plain_text(e: &Element) -> (r: String)
    ensures
        r@ == plain_text(e@),
{
    let mut acc = String::new();
    match e {
        Element::Document(d) => {
            append_plain_text(&d.content, &mut acc);
        },
        Element::Heading(h) => {
            append_plain_text(&h.caption, &mut acc);
            append_plain_text(&h.content, &mut acc);
        },
        Element::Template(t) => {
            append_plain_text(&t.name, &mut acc);
            append_plain_text(&t.content, &mut acc);
        },
        Element::TemplateArgument(a) => {
            append_plain_text(&a.value, &mut acc);
        },
        Element::Text(t) => {
            acc.append(t.text.as_str());
        },
        Element::Comment(_) => {},
        Element::Error(_) => {},
        Element::InternalReference(r) => {
            append_plain_text(&r.target, &mut acc);
            append_plain_text(&r.caption, &mut acc);
        },
        Element::ExternalReference(r) => {
            append_plain_text(&r.caption, &mut acc);
        },
    }
    proof {
        assert(acc@ =~= plain_text(e@));
    }
    acc
}

/// A deep copy of a list of nodes, equal to the original in view.
pub fn clone_elements(v: &Vec<Element>) -> (r: Vec<Element>)
    ensures
        elems_view(r@) == elems_view(v@),
    decreases v,
{
    let ghost ev = elems_view(v@);
    proof {
        lemma_elems_view_len(v@);
    }
    let n = v.len();
    let mut out: Vec<Element> = Vec::new();
    let mut j: usize = 0;
    while j < n
        invariant
            n == v@.len(),
            j <= n,
            ev == elems_view(v@),
            ev.len() == n,
            elems_view(out@) == ev.take(j as int),
        decreases n - j,
    {
        proof {
            lemma_elems_view_index(v@, j as int);
        }
        let copy = match &v[j] {
            Element::Document(d) => Element::Document(
                Document { position: d.position, content: clone_elements(&d.content) },
            ),
            Element::Heading(h) => Element::Heading(
                Heading {
                    position: h.position,
                    depth: h.depth,
                    caption: clone_elements(&h.caption),
                    content: clone_elements(&h.content),
                },
            ),
            Element::Template(t) => Element::Template(
                Template {
                    position: t.position,
                    name: clone_elements(&t.name),
                    content: clone_elements(&t.content),
                },
            ),
            Element::TemplateArgument(a) => Element::TemplateArgument(
                TemplateArgument {
                    position: a.position,
                    name: a.name.clone(),
                    value: clone_elements(&a.value),
                },
            ),
            Element::Text(t) => Element::Text(
                Text { position: t.position, text: t.text.clone() },
            ),
            Element::Comment(c) => Element::Comment(
                Comment { position: c.position, text: c.text.clone() },
            ),
            Element::Error(e) => Element::Error(
                Error { position: e.position, message: e.message.clone() },
            ),
            Element::InternalReference(r) => Element::InternalReference(
                InternalReference {
                    position: r.position,
                    target: clone_elements(&r.target),
                    caption: clone_elements(&r.caption),
                },
            ),
            Element::ExternalReference(r) => Element::ExternalReference(
                ExternalReference {
                    position: r.position,
                    target: r.target.clone(),
                    caption: clone_elements(&r.caption),
                },
            ),
        };
        proof {
            assert(elem_view(copy) == ev[j as int]);
            lemma_elems_view_push(out@, copy);
            assert(ev.take(j as int).push(ev[j as int]) =~= ev.take(j as int + 1));
        }
        out.push(copy);
        j = j + 1;
    }
    proof {
        assert(ev.take(n as int) =~= ev);
    }
    out
}

} // verus!
