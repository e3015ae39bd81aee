//! The decoded command line and the generation configuration compiled
//! from it.

use vstd::prelude::*;
use crate::link::{LinkDirective, LinkParseError, LinkKind, LinkFault, link_outcome, parse_link};
use crate::text::{split_str, split_seq, split_from, views, lemma_split_skip};

verus! {

/// The options of one invocation, as the command line gave them.
#[derive(Clone, Debug)]
pub struct RawArguments {
    /// The header to generate bindings for.
    pub file: String,
    /// Arguments handed to clang unchanged, in order.
    pub clang_args: Vec<String>,
    /// `--link`: a directive of the form `[kind=]library`.
    pub link: Option<String>,
    /// `--output`: a path, or `-` for standard output.
    pub output: String,
    /// `--match`, once per occurrence.
    pub matches: Vec<String>,
    pub builtins: bool,
    pub emit_clang_ast: bool,
    /// `--override-enum-type`, passed on as it stands.
    pub override_enum_type: String,
    /// `--ctypes-prefix`: a path whose segments are separated by `::`.
    pub ctypes_prefix: Option<String>,
    pub use_core: bool,
    /// `--remove-prefix`: a prefix to strip from symbols.
    pub remove_prefix: Option<String>,
    pub no_derive_debug: bool,
    pub no_rust_enums: bool,
    pub dont_convert_floats: bool,
    pub convert_macros: bool,
    /// `--macro-int-types`: type names separated by `,`.
    pub macro_int_types: Option<String>,
    pub allow_unknown_types: bool,
}

/// What the generation engine is asked to do.
#[derive(Clone, Debug)]
pub struct GenerationConfig {
    pub input: String,
    pub clang_args: Vec<String>,
    /// Files whose name contains any of these are bound; order is immaterial.
    pub match_patterns: Vec<String>,
    pub emit_ast: bool,
    pub builtins: bool,
    pub use_core: bool,
    pub derive_debug: bool,
    pub rust_enums: bool,
    pub dont_convert_floats: bool,
    pub convert_macros: bool,
    pub allow_unknown_types: bool,
    pub override_enum_type: String,
    /// The path of the C types, one segment per entry.
    pub ctypes_prefix: Vec<String>,
    /// A prefix stripped from symbols, compared without regard to case.
    pub remove_prefix: Option<String>,
    /// `None`: macros keep their integer types; `Some`: the eligible type names.
    pub macro_int_types: Option<Vec<String>>,
    pub link: Option<LinkDirective>,
}

/// The path of the C types when none is given.
pub open spec fn default_ctypes_prefix() -> Seq<char> {
    "std::os::raw"@
}

/// The segments of the C types' path that the arguments ask for.
pub open spec fn ctypes_segments(a: RawArguments) -> Seq<Seq<char>> {
    let path = match a.ctypes_prefix {
        Some(p) => p@,
        None => default_ctypes_prefix(),
    };
    split_seq(path, "::"@)
}

/// The integer type names for macros: absent turns the feature off, an
/// empty list turns it on with no eligible type.
pub open spec fn macro_types(a: RawArguments) -> Option<Seq<Seq<char>>> {
    match a.macro_int_types {
        None => None,
        Some(s) => if s@.len() == 0 {
            Some(Seq::empty())
        } else {
            Some(split_seq(s@, ","@))
        },
    }
}

/// The characters of an optional string.
pub open spec fn opt_view(o: Option<String>) -> Option<Seq<char>> {
    match o {
        Some(s) => Some(s@),
        None => None,
    }
}

/// The characters of each string of an optional list.
pub open spec fn opt_views(o: Option<Vec<String>>) -> Option<Seq<Seq<char>>> {
    match o {
        Some(v) => Some(views(v@)),
        None => None,
    }
}

/// Whether the `--link` value, if any, is accepted.
pub open spec fn link_accepted(a: RawArguments) -> bool {
    match a.link {
        Some(l) => link_outcome(l@) is Ok,
        None => true,
    }
}

/// The directive that the arguments ask for, where it is accepted.
pub open spec fn link_wanted(a: RawArguments) -> Option<(Seq<char>, LinkKind)> {
    match a.link {
        Some(l) => Some(link_outcome(l@)->Ok_0),
        None => None,
    }
}

/// The model of an optional directive.
pub open spec fn link_view(o: Option<LinkDirective>) -> Option<(Seq<char>, LinkKind)> {
    match o {
        Some(d) => Some(d@),
        None => None,
    }
}

/// The configuration that the arguments denote: every field taken from
/// its option, the two negated switches inverted.
pub open spec fn compiled_from(c: GenerationConfig, a: RawArguments) -> bool {
    &&& c.input@ == a.file@
    &&& views(c.clang_args@) == views(a.clang_args@)
    &&& views(c.match_patterns@) == views(a.matches@)
    &&& c.emit_ast == a.emit_clang_ast
    &&& c.builtins == a.builtins
    &&& c.use_core == a.use_core
    &&& c.derive_debug == !a.no_derive_debug
    &&& c.rust_enums == !a.no_rust_enums
    &&& c.dont_convert_floats == a.dont_convert_floats
    &&& c.convert_macros == a.convert_macros
    &&& c.allow_unknown_types == a.allow_unknown_types
    &&& c.override_enum_type@ == a.override_enum_type@
    &&& views(c.ctypes_prefix@) == ctypes_segments(a)
    &&& opt_view(c.remove_prefix) == opt_view(a.remove_prefix)
    &&& opt_views(c.macro_int_types) == macro_types(a)
    &&& link_view(c.link) == link_wanted(a)
}

/// Every `--match` pattern is among the compiled filters, whatever their
/// number and order.
pub proof fn lemma_every_match_kept(c: GenerationConfig, a: RawArguments, i: int)
    requires
        compiled_from(c, a),
        0 <= i < a.matches@.len(),
    ensures
        views(c.match_patterns@).contains(a.matches@[i]@),
{
    assert(views(a.matches@)[i] == a.matches@[i]@);
}

/// Without `--ctypes-prefix` the C types are looked up under `std`, `os`
/// and `raw`.
pub proof fn lemma_default_ctypes_segments(a: RawArguments)
    requires
        a.ctypes_prefix is None,
    ensures
        ctypes_segments(a) == seq!["std"@, "os"@, "raw"@],
{
    reveal_strlit("std::os::raw");
    reveal_strlit("::");
    reveal_strlit("std");
    reveal_strlit("os");
    reveal_strlit("raw");
    let sep = seq![':', ':'];
    let w0 = seq!['s', 't', 'd', ':', ':', 'o', 's', ':', ':', 'r', 'a', 'w'];
    assert("std::os::raw"@ =~= w0);
    assert("::"@ =~= sep);
    assert forall|i: int|
        0 <= i < 3 implies !(0 < sep.len() && i + sep.len() <= w0.len() && #[trigger] w0.subrange(
            i,
            i + sep.len(),
        ) == sep) by {
        assert(w0.subrange(i, i + 2)[0] == w0[i]);
    }
    lemma_split_skip(Seq::empty(), w0, 3, sep);
    let w1 = seq![':', ':', 'o', 's', ':', ':', 'r', 'a', 'w'];
    let w2 = seq!['o', 's', ':', ':', 'r', 'a', 'w'];
    assert(w0.subrange(3, 12) =~= w1);
    assert(Seq::<char>::empty() + w0.subrange(0, 3) =~= "std"@);
    assert(w1.subrange(0, 2) =~= sep);
    assert(w1.subrange(2, 9) =~= w2);
    assert forall|i: int|
        0 <= i < 2 implies !(0 < sep.len() && i + sep.len() <= w2.len() && #[trigger] w2.subrange(
            i,
            i + sep.len(),
        ) == sep) by {
        assert(w2.subrange(i, i + 2)[0] == w2[i]);
    }
    lemma_split_skip(Seq::empty(), w2, 2, sep);
    let w3 = seq![':', ':', 'r', 'a', 'w'];
    let w4 = seq!['r', 'a', 'w'];
    assert(w2.subrange(2, 7) =~= w3);
    assert(Seq::<char>::empty() + w2.subrange(0, 2) =~= "os"@);
    assert(w3.subrange(0, 2) =~= sep);
    assert(w3.subrange(2, 5) =~= w4);
    assert forall|i: int|
        0 <= i < 3 implies !(0 < sep.len() && i + sep.len() <= w4.len() && #[trigger] w4.subrange(
            i,
            i + sep.len(),
        ) == sep) by {
    }
    lemma_split_skip(Seq::empty(), w4, 3, sep);
    assert(Seq::<char>::empty() + w4.subrange(0, 3) =~= "raw"@);
    assert(w4.subrange(3, 3) =~= Seq::<char>::empty());
    assert(split_from("raw"@, Seq::empty(), sep) == seq!["raw"@]);
    assert(split_from(Seq::empty(), w2, sep) =~= seq!["os"@, "raw"@]);
    assert(split_from(Seq::empty(), w0, sep) =~= seq!["std"@, "os"@, "raw"@]);
}

/// Compiles the decoded arguments into a generation configuration; the
/// one way to fail is a `--link` value that is refused.
pub fn compile(args: RawArguments) -> (r: Result<GenerationConfig, LinkParseError>)
    ensures
        r is Ok <==> link_accepted(args),
        r matches Ok(c) ==> compiled_from(c, args),
        r matches Err(e) ==> args.link matches Some(l) && link_outcome(l@) == Err::<
            (Seq<char>, LinkKind),
            LinkFault,
        >(e@),
{
    let link = match &args.link {
        None => None,
        Some(l) => match parse_link(l.as_str()) {
            Ok(d) => Some(d),
            Err(e) => {
                return Err(e);
            },
        },
    };
    proof {
        reveal_strlit("::");
        reveal_strlit(",");
    }
    let ctypes_prefix = match &args.ctypes_prefix {
        Some(p) => split_str(p.as_str(), "::"),
        None => split_str("std::os::raw", "::"),
    };
    let macro_int_types = match &args.macro_int_types {
        None => None,
        Some(s) => if s.as_str().is_empty() {
            Some(Vec::new())
        } else {
            Some(split_str(s.as_str(), ","))
        },
    };
    let c = GenerationConfig {
        input: args.file,
        clang_args: args.clang_args,
        match_patterns: args.matches,
        emit_ast: args.emit_clang_ast,
        builtins: args.builtins,
        use_core: args.use_core,
        derive_debug: !args.no_derive_debug,
        rust_enums: !args.no_rust_enums,
        dont_convert_floats: args.dont_convert_floats,
        convert_macros: args.convert_macros,
        allow_unknown_types: args.allow_unknown_types,
        override_enum_type: args.override_enum_type,
        ctypes_prefix,
        remove_prefix: args.remove_prefix,
        macro_int_types,
        link,
    };
    assert(views(Seq::<String>::empty()) =~= Seq::<Seq<char>>::empty());
    Ok(c)
}

} // verus!
