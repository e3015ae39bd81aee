use bindgen_cli::config::{compile, GenerationConfig, RawArguments};
use bindgen_cli::driver::{
    fits, next_step, Action, Event, Notice, Stage, FAILURE_STATUS, LINK_ERROR_STATUS,
    SUCCESS_STATUS,
};
use bindgen_cli::link::{parse_link, LinkKind, LinkParseError};
use bindgen_cli::output::{select_output, OutputSink};
use bindgen_cli::text::{chars_of, split_str, string_of};

fn args(file: &str) -> RawArguments {
    RawArguments {
        file: file.to_string(),
        clang_args: Vec::new(),
        link: None,
        output: "-".to_string(),
        matches: Vec::new(),
        builtins: false,
        emit_clang_ast: false,
        override_enum_type: String::new(),
        ctypes_prefix: None,
        use_core: false,
        remove_prefix: None,
        no_derive_debug: false,
        no_rust_enums: false,
        dont_convert_floats: false,
        convert_macros: false,
        macro_int_types: None,
        allow_unknown_types: false,
    }
}

fn compiled(a: RawArguments) -> GenerationConfig {
    match compile(a) {
        Ok(c) => c,
        Err(e) => panic!("refused: {}", e.message()),
    }
}

fn strings(v: &[&str]) -> Vec<String> {
    v.iter().map(|s| s.to_string()).collect()
}

#[test]
fn bare_name_links_dynamically() {
    for name in ["foo", "c++", "libz.so", "a b"] {
        let d = parse_link(name).unwrap();
        assert_eq!(d.library, name);
        assert_eq!(d.kind, LinkKind::Dynamic);
    }
}

#[test]
fn kind_prefix_selects_kind() {
    let cases = [
        ("static=foo", LinkKind::Static),
        ("dynamic=foo", LinkKind::Dynamic),
        ("framework=foo", LinkKind::Framework),
    ];
    for (text, kind) in cases {
        let d = parse_link(text).unwrap();
        assert_eq!(d.library, "foo");
        assert_eq!(d.kind, kind);
    }
}

#[test]
fn kind_is_case_sensitive() {
    match parse_link("Static=foo") {
        Err(LinkParseError::UnknownKind(k)) => assert_eq!(k, "Static"),
        other => panic!("unexpected {:?}", other),
    }
}

#[test]
fn unknown_kind_is_named() {
    let e = parse_link("weird=foo").unwrap_err();
    match &e {
        LinkParseError::UnknownKind(k) => assert_eq!(k, "weird"),
        other => panic!("unexpected {:?}", other),
    }
    assert_eq!(e.message(), "Link type unknown: weird");
}

#[test]
fn empty_kind_is_unknown() {
    match parse_link("=foo") {
        Err(LinkParseError::UnknownKind(k)) => assert_eq!(k, ""),
        other => panic!("unexpected {:?}", other),
    }
}

#[test]
fn empty_directive_is_malformed() {
    match parse_link("") {
        Err(LinkParseError::Malformed(s)) => assert_eq!(s, ""),
        other => panic!("unexpected {:?}", other),
    }
}

#[test]
fn two_equals_signs_are_malformed() {
    let e = parse_link("a=b=c").unwrap_err();
    match &e {
        LinkParseError::Malformed(s) => assert_eq!(s, "a=b=c"),
        other => panic!("unexpected {:?}", other),
    }
    assert_eq!(e.message(), "Wrong link format: a=b=c");
    assert!(matches!(parse_link("static=a="), Err(LinkParseError::Malformed(_))));
}

#[test]
fn dash_selects_stdout() {
    assert!(matches!(select_output("-"), OutputSink::Stdout));
}

#[test]
fn other_token_selects_file() {
    match select_output("some/path") {
        OutputSink::File(p) => assert_eq!(p, "some/path"),
        other => panic!("unexpected {:?}", other),
    }
    match select_output("--") {
        OutputSink::File(p) => assert_eq!(p, "--"),
        other => panic!("unexpected {:?}", other),
    }
}

#[test]
fn repeated_match_keeps_both_patterns() {
    let mut a = args("foo.h");
    a.matches = strings(&["a", "b"]);
    let c = compiled(a);
    assert!(c.match_patterns.contains(&"a".to_string()));
    assert!(c.match_patterns.contains(&"b".to_string()));
    assert_eq!(c.match_patterns.len(), 2);
}

#[test]
fn ctypes_prefix_defaults_to_std_os_raw() {
    let c = compiled(args("foo.h"));
    assert_eq!(c.ctypes_prefix, strings(&["std", "os", "raw"]));
}

#[test]
fn ctypes_prefix_is_split_on_path_separator() {
    let mut a = args("foo.h");
    a.ctypes_prefix = Some("a::b::c".to_string());
    assert_eq!(compiled(a).ctypes_prefix, strings(&["a", "b", "c"]));
    let mut a = args("foo.h");
    a.ctypes_prefix = Some("libc".to_string());
    assert_eq!(compiled(a).ctypes_prefix, strings(&["libc"]));
}

#[test]
fn no_derive_debug_turns_debug_off() {
    let mut a = args("foo.h");
    a.no_derive_debug = true;
    assert!(!compiled(a).derive_debug);
    assert!(compiled(args("foo.h")).derive_debug);
}

#[test]
fn no_rust_enums_turns_enums_off() {
    let mut a = args("foo.h");
    a.no_rust_enums = true;
    assert!(!compiled(a).rust_enums);
    assert!(compiled(args("foo.h")).rust_enums);
}

#[test]
fn switches_map_one_to_one() {
    let mut a = args("foo.h");
    a.builtins = true;
    a.emit_clang_ast = true;
    a.use_core = true;
    a.dont_convert_floats = true;
    a.convert_macros = true;
    a.allow_unknown_types = true;
    a.override_enum_type = "uchar".to_string();
    a.remove_prefix = Some("libfoo_".to_string());
    let c = compiled(a);
    assert!(c.builtins && c.emit_ast && c.use_core);
    assert!(c.dont_convert_floats && c.convert_macros && c.allow_unknown_types);
    assert_eq!(c.override_enum_type, "uchar");
    assert_eq!(c.remove_prefix.as_deref(), Some("libfoo_"));
    assert_eq!(c.input, "foo.h");
    assert!(c.link.is_none());
    assert!(c.macro_int_types.is_none());
}

#[test]
fn clang_args_keep_their_order() {
    let mut a = args("foo.h");
    a.clang_args = strings(&["-I", "inc", "-DX=1", "-x", "c++"]);
    assert_eq!(compiled(a).clang_args, strings(&["-I", "inc", "-DX=1", "-x", "c++"]));
}

#[test]
fn macro_int_types_are_split_on_commas() {
    let mut a = args("foo.h");
    a.macro_int_types = Some("uchar,sint,ulonglong".to_string());
    assert_eq!(compiled(a).macro_int_types, Some(strings(&["uchar", "sint", "ulonglong"])));
}

#[test]
fn empty_macro_int_types_enable_no_type() {
    let mut a = args("foo.h");
    a.macro_int_types = Some(String::new());
    assert_eq!(compiled(a).macro_int_types, Some(Vec::new()));
}

#[test]
fn static_link_directive_is_compiled() {
    let mut a = args("foo.h");
    a.link = Some("static=foo".to_string());
    let d = compiled(a).link.unwrap();
    assert_eq!(d.library, "foo");
    assert_eq!(d.kind, LinkKind::Static);
}

#[test]
fn weird_link_kind_stops_before_generation() {
    let mut a = args("foo.h");
    a.link = Some("weird=foo".to_string());
    let e = compile(a).unwrap_err();
    assert_eq!(e.message(), "Link type unknown: weird");
    let (stage, action) = next_step(Stage::Compiling, Event::LinkRejected);
    assert_eq!(stage, Stage::Finished);
    assert_eq!(
        action,
        Action::Exit { status: LINK_ERROR_STATUS, notice: Notice::LinkDiagnostic }
    );
    assert_ne!(LINK_ERROR_STATUS, 0);
    assert!(!fits(stage, Event::Compiled));
}

#[test]
fn successful_run_exits_zero() {
    assert!(matches!(select_output("-"), OutputSink::Stdout));
    let (s1, a1) = next_step(Stage::Compiling, Event::Compiled);
    assert_eq!((s1, a1), (Stage::Generating, Action::Generate));
    let (s2, a2) = next_step(s1, Event::Generated);
    assert_eq!((s2, a2), (Stage::Writing, Action::Write));
    let (s3, a3) = next_step(s2, Event::Written);
    assert_eq!(s3, Stage::Finished);
    assert_eq!(a3, Action::Exit { status: SUCCESS_STATUS, notice: Notice::Silent });
    assert_eq!(SUCCESS_STATUS, 0);
}

#[test]
fn failed_generation_exits_nonzero_silently() {
    let (s, a) = next_step(Stage::Generating, Event::GenerationFailed);
    assert_eq!(s, Stage::Finished);
    assert_eq!(a, Action::Exit { status: FAILURE_STATUS, notice: Notice::Silent });
    assert_ne!(FAILURE_STATUS, 0);
}

#[test]
fn failed_write_is_reported() {
    let (s, a) = next_step(Stage::Writing, Event::WriteFailed);
    assert_eq!(s, Stage::Finished);
    assert_eq!(a, Action::Exit { status: FAILURE_STATUS, notice: Notice::WriteDiagnostic });
}

#[test]
fn events_fit_only_their_stage() {
    assert!(fits(Stage::Compiling, Event::Compiled));
    assert!(fits(Stage::Compiling, Event::LinkRejected));
    assert!(!fits(Stage::Compiling, Event::Generated));
    assert!(fits(Stage::Generating, Event::GenerationFailed));
    assert!(!fits(Stage::Generating, Event::Written));
    assert!(fits(Stage::Writing, Event::WriteFailed));
    assert!(!fits(Stage::Finished, Event::Written));
}

#[test]
fn split_keeps_empty_pieces() {
    assert_eq!(split_str("a::::b", "::"), strings(&["a", "", "b"]));
    assert_eq!(split_str("", ","), strings(&[""]));
    assert_eq!(split_str(":::", "::"), strings(&["", ":"]));
    assert_eq!(split_str(",x,", ","), strings(&["", "x", ""]));
}

#[test]
fn strings_are_built_from_characters() {
    let cs = chars_of("héllo");
    assert_eq!(cs, vec!['h', 'é', 'l', 'l', 'o']);
    assert_eq!(string_of(&cs, 1, 4), "éll");
    assert_eq!(string_of(&cs, 2, 2), "");
}
