//! Section inclusion: a template whose flattened, lower-cased, trimmed name
//! starts with the configured inclusion prefix is replaced by the externally
//! stored section it names. The section store hands the pass each fragment as
//! plain data; a missing or unreadable fragment becomes one inline error node
//! that replaces the directive and everything after it at that list level.
//! Fragments are expanded recursively, up to a fixed nesting depth.

use vstd::prelude::*;
use crate::ast::{
    ElemView, Element, Span, TrErrView, TransformationError, Document, Heading, Template,
    TemplateArgument, InternalReference, ExternalReference, Comment, Error, elems_view, plain_text,
    plain_text_list, lemma_elems_view_cons, lemma_elems_view_cons_build, lemma_elems_view_concat,
    lemma_elems_view_index, lemma_elems_view_len, extract_plain_text, element_plain_text,
    clone_elements, singleton_vec,
};
use crate::settings::{Settings, SettingsView};
use crate::textops::{
    lower, trim, starts_with, strip_prefix, lower_str, trim_str, starts_with_str, strip_prefix_str,
};

verus! {

/// How deep section inclusion may nest before the pass stops with a hard
/// error; inclusion chains have no cycle detection, so the depth is bounded.
pub const INCLUSION_DEPTH_LIMIT: usize = 64;

/// One stored section fragment: the resource it was resolved from, and its
/// nodes, or nothing when the resource could not be read or parsed.
#[derive(PartialEq, Debug)]
pub struct SectionEntry {
    pub path: String,
    pub fragment: Option<Vec<Element>>,
}

/// The section fragments available to the pass, keyed by resource path; the
/// first entry of a path wins.
#[derive(PartialEq, Debug)]
pub struct SectionStore {
    pub entries: Vec<SectionEntry>,
}

pub open spec fn store_entry_view(e: SectionEntry) -> (Seq<char>, Option<Seq<ElemView>>) {
    (
        e.path@,
        match e.fragment {
            Some(f) => Some(elems_view(f@)),
            None => None,
        },
    )
}

pub open spec fn store_view(s: Seq<SectionEntry>) -> Seq<(Seq<char>, Option<Seq<ElemView>>)> {
    s.map_values(|e: SectionEntry| store_entry_view(e))
}

impl View for SectionStore {
    type V = Seq<(Seq<char>, Option<Seq<ElemView>>)>;

    open spec fn view(&self) -> Seq<(Seq<char>, Option<Seq<ElemView>>)> {
        store_view(self.entries@)
    }
}

/// First-match lookup of a resource path; an entry without a fragment counts
/// as a failed resource, exactly like an absent path.
pub open spec fn store_lookup(
    m: Seq<(Seq<char>, Option<Seq<ElemView>>)>,
    path: Seq<char>,
) -> Option<Seq<ElemView>>
    decreases m.len(),
{
    if m.len() == 0 {
        None
    } else if m[0].0 == path {
        m[0].1
    } else {
        store_lookup(m.drop_first(), path)
    }
}

impl SectionStore {
    fn get_fragment_from(&self, path: &String, i: usize) -> (r: Option<Vec<Element>>)
        requires
            i <= self.entries@.len(),
        ensures
            match r {
                Some(f) => store_lookup(self@.skip(i as int), path@) == Some(elems_view(f@)),
                None => store_lookup(self@.skip(i as int), path@) is None,
            },
        decreases self.entries@.len() - i,
    {
        let ghost m = self@.skip(i as int);
        if i == self.entries.len() {
            proof {
                assert(m.len() == 0);
            }
            None
        } else {
            proof {
                assert(m[0] == self@[i as int]);
                assert(m.drop_first() =~= self@.skip(i as int + 1));
            }
            if self.entries[i].path == *path {
                match &self.entries[i].fragment {
                    Some(f) => Some(clone_elements(f)),
                    None => None,
                }
            } else {
                self.get_fragment_from(path, i + 1)
            }
        }
    }

    /// A deep copy of the fragment stored under `path`, if one is there.
    pub fn get_fragment(&self, path: &String) -> (r: Option<Vec<Element>>)
        ensures
            match r {
                Some(f) => store_lookup(self@, path@) == Some(elems_view(f@)),
                None => store_lookup(self@, path@) is None,
            },
    {
        proof {
            assert(self@.skip(0) =~= self@);
        }
        self.get_fragment_from(path, 0)
    }
}

/// Whether a node is a section inclusion directive: a template whose
/// flattened, lower-cased, trimmed name starts with the inclusion prefix.
pub open spec fn is_inclusion_directive(v: ElemView, cfg: SettingsView) -> bool {
    match v {
        ElemView::Template { name, .. } => starts_with(
            trim(lower(plain_text_list(name))),
            cfg.section_inclusion_prefix,
        ),
        _ => false,
    }
}

/// The article a directive names: its trimmed name text after the prefix.
pub open spec fn directive_article(name: Seq<ElemView>, cfg: SettingsView) -> Seq<char> {
    strip_prefix(trim(plain_text_list(name)), cfg.section_inclusion_prefix)
}

/// The resource path of a section of an article.
pub open spec fn section_path(article: Seq<char>, section: Seq<char>) -> Seq<char> {
    article + "/"@ + section
}

/// The message of the inline error node for a failed resource.
pub open spec fn missing_section_message(path: Seq<char>) -> Seq<char> {
    "section file `"@ + path + "` could not be read or parsed!"@
}

/// The text of the comment that records a successful inclusion.
pub open spec fn inclusion_comment_text(article: Seq<char>, section: Seq<char>) -> Seq<char> {
    "included from: "@ + article + "|"@ + section
}

/// A hard failure of this pass.
pub open spec fn section_error(cause: Seq<char>, position: Span) -> TrErrView {
    TrErrView { cause, position, transformation_name: "include_sections"@ }
}

/// A list of siblings with every inclusion directive expanded. A failed
/// resource replaces the directive and all following siblings of this level
/// with one error node.
pub open spec fn sect_list(
    s: Seq<ElemView>,
    cfg: SettingsView,
    store: Seq<(Seq<char>, Option<Seq<ElemView>>)>,
    fuel: nat,
) -> Result<Seq<ElemView>, TrErrView>
    decreases fuel, s, 1int,
{
    if s.len() == 0 {
        Ok(Seq::empty())
    } else {
        match s[0] {
            ElemView::Template { position, name, content } => {
                if starts_with(trim(lower(plain_text_list(name))), cfg.section_inclusion_prefix) {
                    if content.len() == 0 {
                        Err(
                            section_error(
                                "A section inclusion must specify article name and section name!"@,
                                position,
                            ),
                        )
                    } else {
                        let article = directive_article(name, cfg);
                        let section = plain_text(content[0]);
                        let path = section_path(article, section);
                        match store_lookup(store, path) {
                            None => Ok(
                                seq![
                                    ElemView::Error {
                                        position,
                                        message: missing_section_message(path),
                                    },
                                ],
                            ),
                            Some(fragment) => {
                                if fuel == 0 {
                                    Err(
                                        section_error(
                                            "section inclusion nesting is too deep!"@,
                                            position,
                                        ),
                                    )
                                } else {
                                    match sect_list(fragment, cfg, store, (fuel - 1) as nat) {
                                        Err(e) => Err(e),
                                        Ok(frag) => match sect_list(
                                            s.drop_first(),
                                            cfg,
                                            store,
                                            fuel,
                                        ) {
                                            Err(e) => Err(e),
                                            Ok(rest) => Ok(
                                                seq![
                                                    ElemView::Comment {
                                                        position,
                                                        text: inclusion_comment_text(
                                                            article,
                                                            section,
                                                        ),
                                                    },
                                                ] + frag + rest,
                                            ),
                                        },
                                    }
                                }
                            },
                        }
                    }
                } else {
                    sect_default(s, cfg, store, fuel)
                }
            },
            _ => sect_default(s, cfg, store, fuel),
        }
    }
}

/// The default handling of a list head: the node is rewritten recursively and
/// the rest of the list follows.
pub open spec fn sect_default(
    s: Seq<ElemView>,
    cfg: SettingsView,
    store: Seq<(Seq<char>, Option<Seq<ElemView>>)>,
    fuel: nat,
) -> Result<Seq<ElemView>, TrErrView>
    decreases fuel, s, 0int,
{
    if s.len() == 0 {
        Ok(Seq::empty())
    } else {
        match sect_elem(s[0], cfg, store, fuel) {
            Err(e) => Err(e),
            Ok(h) => match sect_list(s.drop_first(), cfg, store, fuel) {
                Err(e) => Err(e),
                Ok(rest) => Ok(seq![h] + rest),
            },
        }
    }
}

/// One node with every inclusion directive among its descendants expanded.
pub open spec fn sect_elem(
    v: ElemView,
    cfg: SettingsView,
    store: Seq<(Seq<char>, Option<Seq<ElemView>>)>,
    fuel: nat,
) -> Result<ElemView, TrErrView>
    decreases fuel, v, 0int,
{
    match v {
        ElemView::Document { position, content } => match sect_list(content, cfg, store, fuel) {
            Ok(c) => Ok(ElemView::Document { position, content: c }),
            Err(e) => Err(e),
        },
        ElemView::Heading { position, depth, caption, content } => match sect_list(
            caption,
            cfg,
            store,
            fuel,
        ) {
            Ok(cap) => match sect_list(content, cfg, store, fuel) {
                Ok(c) => Ok(ElemView::Heading { position, depth, caption: cap, content: c }),
                Err(e) => Err(e),
            },
            Err(e) => Err(e),
        },
        ElemView::Template { position, name, content } => match sect_list(name, cfg, store, fuel) {
            Ok(n) => match sect_list(content, cfg, store, fuel) {
                Ok(c) => Ok(ElemView::Template { position, name: n, content: c }),
                Err(e) => Err(e),
            },
            Err(e) => Err(e),
        },
        ElemView::TemplateArgument { position, name, value } => match sect_list(
            value,
            cfg,
            store,
            fuel,
        ) {
            Ok(val) => Ok(ElemView::TemplateArgument { position, name, value: val }),
            Err(e) => Err(e),
        },
        ElemView::Text { .. } => Ok(v),
        ElemView::Comment { .. } => Ok(v),
        ElemView::Error { .. } => Ok(v),
        ElemView::InternalReference { position, target, caption } => match sect_list(
            target,
            cfg,
            store,
            fuel,
        ) {
            Ok(t) => match sect_list(caption, cfg, store, fuel) {
                Ok(cap) => Ok(ElemView::InternalReference { position, target: t, caption: cap }),
                Err(e) => Err(e),
            },
            Err(e) => Err(e),
        },
        ElemView::ExternalReference { position, target, caption } => match sect_list(
            caption,
            cfg,
            store,
            fuel,
        ) {
            Ok(cap) => Ok(ElemView::ExternalReference { position, target, caption: cap }),
            Err(e) => Err(e),
        },
    }
}

fn sect_elem_exec(e: Element, settings: &Settings, store: &SectionStore, fuel: usize) -> (r: Result<
    Element,
    TransformationError,
>)
    ensures
        match sect_elem(e@, settings@, store@, fuel as nat) {
            Ok(w) => r matches Ok(t) && t@ == w,
            Err(er) => r matches Err(t) && t@ == er,
        },
    decreases fuel, e, 0int,
{
    match e {
        Element::Document(d) => {
            let content = match sect_vec_exec(d.content, settings, store, fuel) {
                Ok(c) => c,
                Err(er) => return Err(er),
            };
            Ok(Element::Document(Document { position: d.position, content }))
        },
        Element::Heading(h) => {
            let caption = match sect_vec_exec(h.caption, settings, store, fuel) {
                Ok(c) => c,
                Err(er) => return Err(er),
            };
            let content = match sect_vec_exec(h.content, settings, store, fuel) {
                Ok(c) => c,
                Err(er) => return Err(er),
            };
            Ok(
                Element::Heading(
                    Heading { position: h.position, depth: h.depth, caption, content },
                ),
            )
        },
        Element::Template(t) => {
            let name = match sect_vec_exec(t.name, settings, store, fuel) {
                Ok(c) => c,
                Err(er) => return Err(er),
            };
            let content = match sect_vec_exec(t.content, settings, store, fuel) {
                Ok(c) => c,
                Err(er) => return Err(er),
            };
            Ok(Element::Template(Template { position: t.position, name, content }))
        },
        Element::TemplateArgument(a) => {
            let value = match sect_vec_exec(a.value, settings, store, fuel) {
                Ok(c) => c,
                Err(er) => return Err(er),
            };
            Ok(
                Element::TemplateArgument(
                    TemplateArgument { position: a.position, name: a.name, value },
                ),
            )
        },
        Element::Text(t) => Ok(Element::Text(t)),
        Element::Comment(c) => Ok(Element::Comment(c)),
        Element::Error(er) => Ok(Element::Error(er)),
        Element::InternalReference(r) => {
            let target = match sect_vec_exec(r.target, settings, store, fuel) {
                Ok(c) => c,
                Err(er) => return Err(er),
            };
            let caption = match sect_vec_exec(r.caption, settings, store, fuel) {
                Ok(c) => c,
                Err(er) => return Err(er),
            };
            Ok(
                Element::InternalReference(
                    InternalReference { position: r.position, target, caption },
                ),
            )
        },
        Element::ExternalReference(r) => {
            let caption = match sect_vec_exec(r.caption, settings, store, fuel) {
                Ok(c) => c,
                Err(er) => return Err(er),
            };
            Ok(
                Element::ExternalReference(
                    ExternalReference { position: r.position, target: r.target, caption },
                ),
            )
        },
    }
}

fn sect_vec_exec(mut v: Vec<Element>, settings: &Settings, store: &SectionStore, fuel: usize) -> (r:
    Result<Vec<Element>, TransformationError>)
    ensures
        match sect_list(elems_view(v@), settings@, store@, fuel as nat) {
            Ok(w) => r matches Ok(t) && elems_view(t@) == w,
            Err(er) => r matches Err(t) && t@ == er,
        },
    decreases fuel, v@, 1int,
{
    let ghost s = v@;
    if v.len() == 0 {
        proof {
            assert(elems_view(v@) =~= Seq::<ElemView>::empty());
        }
        return Ok(Vec::new());
    }
    proof {
        lemma_elems_view_cons(s);
    }
    let head = v.remove(0);
    let ghost hv = head@;
    proof {
        assert(v@ =~= s.drop_first());
        assert(hv == elems_view(s)[0]);
    }
    let ghost full = sect_list(elems_view(s), settings@, store@, fuel as nat);
    let is_directive = match &head {
        Element::Template(t) => {
            let tn = extract_plain_text(&t.name);
            let tn_norm = trim_str(lower_str(tn.as_str()).as_str());
            starts_with_str(
                tn_norm.as_str(),
                settings.general.section_inclusion_prefix.as_str(),
            )
        },
        _ => false,
    };
    proof {
        assert(is_directive == is_inclusion_directive(hv, settings@));
    }
    if is_directive {
        let t = match head {
            Element::Template(t) => t,
            _ => vstd::pervasive::unreached(),
        };
        let Template { position, name, content } = t;
        let ghost nv = elems_view(name@);
        let ghost cv = elems_view(content@);
        proof {
            lemma_elems_view_len(content@);
            assert(hv == (ElemView::Template { position, name: nv, content: cv }));
        }
        if content.len() == 0 {
            proof {
                assert(full == Err::<Seq<ElemView>, TrErrView>(
                    section_error(
                        "A section inclusion must specify article name and section name!"@,
                        position,
                    ),
                ));
            }
            return Err(
                TransformationError::new(
                    "A section inclusion must specify article name and section name!",
                    position,
                    "include_sections",
                ),
            );
        }
        let raw_name = extract_plain_text(&name);
        let article = strip_prefix_str(
            trim_str(raw_name.as_str()).as_str(),
            settings.general.section_inclusion_prefix.as_str(),
        );
        proof {
            lemma_elems_view_index(content@, 0);
        }
        let section = element_plain_text(&content[0]);
        let path = article.clone().concat("/").concat(section.as_str());
        proof {
            assert(article@ == directive_article(nv, settings@));
            assert(section@ == plain_text(cv[0]));
            assert(path@ == section_path(directive_article(nv, settings@), plain_text(cv[0])));
        }
        match store.get_fragment(&path) {
            None => {
                let msg = String::from_str("section file `").concat(path.as_str()).concat(
                    "` could not be read or parsed!",
                );
                Ok(singleton_vec(Element::Error(Error { position, message: msg })))
            },
            Some(fragment) => {
                if fuel == 0 {
                    return Err(
                        TransformationError::new(
                            "section inclusion nesting is too deep!",
                            position,
                            "include_sections",
                        ),
                    );
                }
                let ghost fragv = elems_view(fragment@);
                proof {
                    assert(store_lookup(store@, path@) == Some(fragv));
                }
                let mut frag = match sect_vec_exec(fragment, settings, store, fuel - 1) {
                    Ok(f) => f,
                    Err(er) => {
                        proof {
                            assert(sect_list(fragv, settings@, store@, (fuel - 1) as nat)
                                == Err::<Seq<ElemView>, TrErrView>(er@));
                            assert(full == Err::<Seq<ElemView>, TrErrView>(er@));
                        }
                        return Err(er);
                    },
                };
                let mut rest = match sect_vec_exec(v, settings, store, fuel) {
                    Ok(f) => f,
                    Err(er) => {
                        proof {
                            assert(sect_list(
                                elems_view(s).drop_first(),
                                settings@,
                                store@,
                                fuel as nat,
                            ) == Err::<Seq<ElemView>, TrErrView>(er@));
                            assert(full == Err::<Seq<ElemView>, TrErrView>(er@));
                        }
                        return Err(er);
                    },
                };
                let comment_text = String::from_str("included from: ").concat(
                    article.as_str(),
                ).concat("|").concat(section.as_str());
                let comment = Element::Comment(Comment { position, text: comment_text });
                let ghost f0 = frag@;
                let ghost r0 = rest@;
                let mut out: Vec<Element> = Vec::new();
                out.push(comment);
                out.append(&mut frag);
                out.append(&mut rest);
                proof {
                    assert(out@ =~= (seq![comment] + f0) + r0);
                    lemma_elems_view_concat(seq![comment] + f0, r0);
                    lemma_elems_view_concat(seq![comment], f0);
                    lemma_elems_view_cons_build(comment, Seq::<Element>::empty());
                    assert(seq![comment] + Seq::<Element>::empty() =~= seq![comment]);
                    assert(elems_view(Seq::<Element>::empty()) == Seq::<ElemView>::empty());
                    assert(seq![comment@] + Seq::<ElemView>::empty() =~= seq![
                        comment@,
                    ]);
                    assert(elems_view(out@) =~= (seq![comment@] + elems_view(f0))
                        + elems_view(r0));
                }
                Ok(out)
            },
        }
    } else {
        proof {
            assert(full == sect_default(elems_view(s), settings@, store@, fuel as nat));
        }
        let h = match sect_elem_exec(head, settings, store, fuel) {
            Ok(x) => x,
            Err(er) => return Err(er),
        };
        let mut rest = match sect_vec_exec(v, settings, store, fuel) {
            Ok(x) => x,
            Err(er) => return Err(er),
        };
        let ghost r0 = rest@;
        proof {
            lemma_elems_view_cons_build(h, r0);
        }
        rest.insert(0, h);
        proof {
            assert(rest@ =~= seq![h] + r0);
        }
        Ok(rest)
    }
}

/// Expands every section inclusion directive of the tree against the given
/// store, or reports a hard error: a directive without a section-name child,
/// or inclusion nested deeper than `INCLUSION_DEPTH_LIMIT`.
pub fn include_sections(root: Element, settings: &Settings, store: &SectionStore) -> (r: Result<
    Element,
    TransformationError,
>)
    ensures
        match sect_elem(root@, settings@, store@, INCLUSION_DEPTH_LIMIT as nat) {
            Ok(w) => r matches Ok(t) && t@ == w,
            Err(er) => r matches Err(t) && t@ == er,
        },
{
    sect_elem_exec(root, settings, store, INCLUSION_DEPTH_LIMIT)
}

/// Expands every section inclusion directive of one sibling list against the
/// given store; see `include_sections`.
pub fn include_sections_vec(
    root_content: Vec<Element>,
    settings: &Settings,
    store: &SectionStore,
) -> (r: Result<Vec<Element>, TransformationError>)
    ensures
        match sect_list(elems_view(root_content@), settings@, store@, INCLUSION_DEPTH_LIMIT as nat) {
            Ok(w) => r matches Ok(t) && elems_view(t@) == w,
            Err(er) => r matches Err(t) && t@ == er,
        },
{
    sect_vec_exec(root_content, settings, store, INCLUSION_DEPTH_LIMIT)
}

/// A directive whose resource is missing from the store turns its whole list
/// level into exactly one error node naming the resolved path: the directive
/// and all following siblings are gone.
pub proof fn lemma_missing_section_truncates(
    position: Span,
    name: Seq<ElemView>,
    content: Seq<ElemView>,
    rest: Seq<ElemView>,
    cfg: SettingsView,
    store: Seq<(Seq<char>, Option<Seq<ElemView>>)>,
    fuel: nat,
)
    requires
        starts_with(trim(lower(plain_text_list(name))), cfg.section_inclusion_prefix),
        content.len() > 0,
        store_lookup(
            store,
            section_path(directive_article(name, cfg), plain_text(content[0])),
        ) is None,
    ensures
        sect_list(seq![ElemView::Template { position, name, content }] + rest, cfg, store, fuel)
            == Ok::<Seq<ElemView>, TrErrView>(
            seq![
                ElemView::Error {
                    position,
                    message: missing_section_message(
                        section_path(directive_article(name, cfg), plain_text(content[0])),
                    ),
                },
            ],
        ),
{
    let s = seq![ElemView::Template { position, name, content }] + rest;
    assert(s[0] == ElemView::Template { position, name, content });
}

} // verus!
