//! Link directives: `[kind=]library`, where the kind is one of `static`,
//! `dynamic` and `framework` and defaults to `dynamic`.

use vstd::prelude::*;
use crate::text::{split_str, split_seq, views, lemma_split_nonempty, lemma_split_single, lemma_split_pair};

verus! {

/// How a library is linked.
#[derive(Clone, Copy, Debug, PartialEq, Eq, Structural)]
pub enum LinkKind {
    Static,
    Dynamic,
    Framework,
}

/// A library to link, and how.
#[derive(Clone, Debug)]
pub struct LinkDirective {
    pub library: String,
    pub kind: LinkKind,
}

/// Why a link directive was refused.
#[derive(Clone, Debug)]
pub enum LinkParseError {
    /// The directive is empty or holds more than one `=`; the whole text is kept.
    Malformed(String),
    /// The text before `=` names no kind of linking; that token is kept.
    UnknownKind(String),
}

/// The characters that a refused directive is reported with.
pub enum LinkFault {
    Malformed(Seq<char>),
    UnknownKind(Seq<char>),
}

impl View for LinkDirective {
    type V = (Seq<char>, LinkKind);

    open spec fn view(&self) -> (Seq<char>, LinkKind) {
        (self.library@, self.kind)
    }
}

impl View for LinkParseError {
    type V = LinkFault;

    open spec fn view(&self) -> LinkFault {
        match self {
            LinkParseError::Malformed(s) => LinkFault::Malformed(s@),
            LinkParseError::UnknownKind(s) => LinkFault::UnknownKind(s@),
        }
    }
}

/// The kind that a token names, matched case-sensitively.
pub open spec fn kind_named(tok: Seq<char>) -> Option<LinkKind> {
    if tok == "static"@ {
        Some(LinkKind::Static)
    } else if tok == "dynamic"@ {
        Some(LinkKind::Dynamic)
    } else if tok == "framework"@ {
        Some(LinkKind::Framework)
    } else {
        None
    }
}

/// What a directive denotes: with no `=` the whole text is the library,
/// linked dynamically; with one `=` the left side is the kind and the
/// right side the library; an empty text or more than one `=` is malformed.
pub open spec fn link_outcome(s: Seq<char>) -> Result<(Seq<char>, LinkKind), LinkFault> {
    let parts = split_seq(s, seq!['=']);
    if s.len() == 0 || parts.len() > 2 {
        Err(LinkFault::Malformed(s))
    } else if parts.len() == 1 {
        Ok((parts[0], LinkKind::Dynamic))
    } else {
        match kind_named(parts[0]) {
            Some(k) => Ok((parts[1], k)),
            None => Err(LinkFault::UnknownKind(parts[0])),
        }
    }
}

/// The model of a parse result.
pub open spec fn parsed_view(r: Result<LinkDirective, LinkParseError>) -> Result<(Seq<char>, LinkKind), LinkFault> {
    match r {
        Ok(d) => Ok(d@),
        Err(e) => Err(e@),
    }
}

/// Parses a link directive of the form `[kind=]library`.
pub fn parse_link(spec: &str) -> (r: Result<LinkDirective, LinkParseError>)
    ensures
        parsed_view(r) == link_outcome(spec@),
{
    proof {
        reveal_strlit("=");
    }
    let parts = split_str(spec, "=");
    assert("="@ =~= seq!['=']);
    proof {
        lemma_split_nonempty(Seq::empty(), spec@, seq!['=']);
    }
    assert(views(parts@)[0] == parts@[0]@);
    if spec.is_empty() || parts.len() > 2 {
        return Err(LinkParseError::Malformed(spec.to_owned()));
    }
    if parts.len() == 1 {
        return Ok(LinkDirective { library: parts[0].clone(), kind: LinkKind::Dynamic });
    }
    assert(views(parts@)[1] == parts@[1]@);
    let token = parts[0].clone();
    let kind = if token == "static".to_owned() {
        LinkKind::Static
    } else if token == "dynamic".to_owned() {
        LinkKind::Dynamic
    } else if token == "framework".to_owned() {
        LinkKind::Framework
    } else {
        return Err(LinkParseError::UnknownKind(token));
    };
    Ok(LinkDirective { library: parts[1].clone(), kind })
}

impl LinkParseError {
    /// The diagnostic that names what was refused.
    pub fn message(&self) -> (r: String)
        ensures
            r@ == match self@ {
                LinkFault::Malformed(s) => "Wrong link format: "@ + s,
                LinkFault::UnknownKind(k) => "Link type unknown: "@ + k,
            },
    {
        match self {
            LinkParseError::Malformed(s) => {
                let mut m = "Wrong link format: ".to_owned();
                m.append(s.as_str());
                m
            },
            LinkParseError::UnknownKind(k) => {
                let mut m = "Link type unknown: ".to_owned();
                m.append(k.as_str());
                m
            },
        }
    }
}

/// A directive without `=` names a library linked dynamically, and the
/// whole text is its name.
pub proof fn lemma_bare_name_is_dynamic(s: Seq<char>)
    requires
        s.len() > 0,
        !s.contains('='),
    ensures
        link_outcome(s) == Ok::<(Seq<char>, LinkKind), LinkFault>((s, LinkKind::Dynamic)),
{
    lemma_split_single(s, '=');
}

/// `kind=lib` gives `lib` linked as `kind` names, when `kind` is `static`,
/// `dynamic` or `framework`; any other kind token is refused by name.
pub proof fn lemma_kind_then_name(kind: Seq<char>, lib: Seq<char>)
    requires
        !kind.contains('='),
        !lib.contains('='),
    ensures
        link_outcome(kind + seq!['='] + lib) == match kind_named(kind) {
            Some(k) => Ok::<(Seq<char>, LinkKind), LinkFault>((lib, k)),
            None => Err(LinkFault::UnknownKind(kind)),
        },
{
    lemma_split_pair(kind, lib, '=');
    assert((kind + seq!['='] + lib).len() > 0);
}

} // verus!
