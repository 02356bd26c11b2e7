use ref_struct::args::{append_paths, parse_derive, parse_name, Args, IgnoreArgs};
use ref_struct::general::{Cmd, CmdScope, Parse, ParseError, UnnamedIdents};
use ref_struct::tokens::{Delim, Spacing, Tok};
use ref_struct::{ref_struct_text, RefStructError};

fn id(s: &str) -> Tok {
    Tok::Ident(s.to_string())
}

fn p(c: char) -> Tok {
    Tok::Punct(c, Spacing::Alone)
}

fn paren(v: Vec<Tok>) -> Tok {
    Tok::Group(Delim::Paren, v)
}

fn args_error(args: &str) -> ParseError {
    match ref_struct_text(args, "struct S { a: u8 }") {
        Err(RefStructError::Args(e)) => e,
        other => panic!("unexpected result {:?}", other),
    }
}

#[test]
fn all_commands_parse() {
    let toks = vec![
        id("name"), paren(vec![id("Out")]), p(','),
        id("clone"), paren(vec![id("c"), p(','), id("d"), p(',')]), p(','),
        id("ignore"), paren(vec![id("i")]), p(','),
        id("derive"), paren(vec![id("Debug"), p(','), id("serde"), Tok::Punct(':', Spacing::Joint), p(':'), id("Serialize")]), p(','),
        id("public"), p(','),
        id("use_cow"), p(','),
        id("ignore_struct"), paren(vec![id("name"), paren(vec![id("Ign")]), p(','), id("derive"), paren(vec![id("Clone")])]),
    ];
    let (a, end) = Args::parse(&toks, 0).unwrap();
    assert_eq!(end, toks.len());
    assert_eq!(a.name.as_deref(), Some("Out"));
    assert_eq!(a.clone, vec!["c".to_string(), "d".to_string()]);
    assert_eq!(a.ignore, vec!["i".to_string()]);
    assert_eq!(a.derive.len(), 2);
    assert_eq!(a.derive[1].len(), 4);
    assert!(a.is_pub);
    assert!(a.use_cow);
    let ia = a.ignore_struct_args.unwrap();
    assert_eq!(ia.name.as_deref(), Some("Ign"));
    assert_eq!(ia.derive.len(), 1);
}

#[test]
fn defaults_when_commands_are_absent() {
    let toks = vec![id("public")];
    let (a, _) = Args::parse(&toks, 0).unwrap();
    assert!(a.name.is_none());
    assert!(a.clone.is_empty());
    assert!(a.ignore.is_empty());
    assert!(a.derive.is_empty());
    assert!(a.is_pub);
    assert!(!a.use_cow);
    assert!(a.ignore_struct_args.is_none());
}

#[test]
fn ignore_args_parse() {
    let toks = vec![id("derive"), paren(vec![id("A")]), p(','), id("derive"), paren(vec![id("B")]), p(','), id("name"), paren(vec![id("N")])];
    let (ia, end) = IgnoreArgs::parse(&toks, 0).unwrap();
    assert_eq!(end, toks.len());
    assert_eq!(ia.name.as_deref(), Some("N"));
    assert_eq!(ia.derive.len(), 2);
    assert!(matches!(IgnoreArgs::parse(&vec![id("public")], 0), Err(ParseError::UnknownCmd(CmdScope::IgnoreStruct))));
    assert!(matches!(IgnoreArgs::parse(&vec![], 0), Err(ParseError::ExpectedIdent(_))));
}

#[test]
fn parse_derive_appends() {
    let toks = vec![paren(vec![id("B"), p(','), id("C")])];
    let mut derive = vec![vec![id("A")]];
    assert_eq!(parse_derive(&toks, 0, &mut derive).unwrap(), 1);
    assert_eq!(derive.len(), 3);
    let bad = vec![id("B")];
    assert!(matches!(parse_derive(&bad, 0, &mut derive), Err(ParseError::ExpectedParens(_))));
    assert_eq!(derive.len(), 3);
}

#[test]
fn parse_name_sets_once() {
    let one = UnnamedIdents::parse(&vec![paren(vec![id("N")])], 0).unwrap().0;
    let mut name = None;
    parse_name(one, &mut name).unwrap();
    assert_eq!(name.as_deref(), Some("N"));
    let again = UnnamedIdents::parse(&vec![paren(vec![id("M")])], 0).unwrap().0;
    assert!(matches!(parse_name(again, &mut name), Err(ParseError::Twiced(Cmd::Name))));
    assert_eq!(name.as_deref(), Some("N"));
    let two = UnnamedIdents::parse(&vec![paren(vec![id("A"), p(','), id("B")])], 0).unwrap().0;
    let mut empty = None;
    assert!(matches!(parse_name(two, &mut empty), Err(ParseError::ExpectedName)));
    assert!(empty.is_none());
}

#[test]
fn error_expected_ident() {
    assert!(matches!(args_error(""), ParseError::ExpectedIdent(_)));
    assert!(matches!(args_error("1"), ParseError::ExpectedIdent(_)));
    assert!(matches!(args_error("public,,"), ParseError::ExpectedIdent(false)));
    assert_eq!(args_error("").message(), "unexpected end of input, expected identifier");
    assert_eq!(args_error("1").message(), "expected identifier");
    assert!(matches!(args_error("1"), ParseError::ExpectedIdent(false)));
    assert!(matches!(args_error("public, ignore_struct(name(A),,)"), ParseError::ExpectedIdent(false)));
}

#[test]
fn error_keyword() {
    match args_error("pub") {
        ParseError::Keyword(k) => assert_eq!(k, "pub"),
        e => panic!("{:?}", e),
    }
    assert_eq!(args_error("ignore(type)").message(), "expected identifier, found keyword `type`");
}

#[test]
fn error_expected_comma() {
    assert!(matches!(args_error("public use_cow"), ParseError::ExpectedComma));
    assert!(matches!(args_error("ignore(a b)"), ParseError::ExpectedComma));
    assert_eq!(args_error("public use_cow").message(), "expected `,`");
}

#[test]
fn error_expected_parens() {
    assert!(matches!(args_error("name"), ParseError::ExpectedParens(_)));
    assert!(matches!(args_error("derive[A]"), ParseError::ExpectedParens(_)));
    assert_eq!(args_error("name").message(), "unexpected end of input, expected parentheses");
    assert_eq!(args_error("derive[A]").message(), "expected parentheses");
}

#[test]
fn derive_paths_as_syn_reads_them() {
    let out = ref_struct_text("derive(Foo<T>, a::B::<C, D>, crate::E, try_it, ::f::G,)", "struct S { a: u8 }").unwrap();
    assert!(out.contains("# [derive (Foo < T > , a :: B :: < C , D > , crate :: E , try_it , :: f :: G ,)]"), "{}", out);
    match args_error("derive(a <= b)") {
        ParseError::Paths(m) => assert_eq!(m, "expected `,`"),
        e => panic!("{:?}", e),
    }
    assert!(matches!(args_error("derive(1)"), ParseError::Paths(_)));
}

#[test]
fn trailing_comma_after_the_last_command() {
    let toks = vec![id("public"), p(',')];
    let (a, end) = Args::parse(&toks, 0).unwrap();
    assert!(a.is_pub);
    assert_eq!(end, 2);
    let with_ignore_struct = vec![id("ignore_struct"), paren(vec![id("name"), paren(vec![id("N")])]), p(',')];
    let (b, _) = Args::parse(&with_ignore_struct, 0).unwrap();
    assert_eq!(b.ignore_struct_args.unwrap().name.as_deref(), Some("N"));
    let readme = ref_struct_text(
        "ignore(lets_ignore_a, lets_ignore_b), derive(Clone, Debug, PartialEq, Eq), name(TwoVecAndClone), clone(lets_clone_a),",
        "struct InputStruct { lets_ignore_a: u32, lets_ref_a: Vec<u8>, lets_ref_b: Vec<u32>, lets_clone_a: u64, lets_ignore_b: Vec<Vec<u16>>, }",
    );
    assert!(readme.unwrap().contains("struct TwoVecAndClone < 'x >"));
}

#[test]
fn error_repeated() {
    match args_error("ignore(a, a)") {
        ParseError::Repeated(what, n) => {
            assert_eq!(what, "ident");
            assert_eq!(n, "a");
        }
        e => panic!("{:?}", e),
    }
    assert_eq!(args_error("clone(a, b, b, a)").message(), "repeated ident: `b`");
}

#[test]
fn error_twiced() {
    assert!(matches!(args_error("name(A), name(B)"), ParseError::Twiced(Cmd::Name)));
    assert!(matches!(args_error("ignore(a), ignore(b)"), ParseError::Twiced(Cmd::Ignore)));
    assert!(matches!(args_error("clone(a), clone(b)"), ParseError::Twiced(Cmd::Clone)));
    assert!(matches!(args_error("ignore_struct(name(A)), ignore_struct(name(B))"), ParseError::Twiced(Cmd::IgnoreStruct)));
    assert!(matches!(args_error("ignore_struct(name(A)), ignore_struct"), ParseError::Twiced(Cmd::IgnoreStruct)));
    assert_eq!(args_error("name(A), name(B)").message(), "twiced `name(..)` cmd");
}

#[test]
fn error_expected_name() {
    assert!(matches!(args_error("name(A, B)"), ParseError::ExpectedName));
    assert!(matches!(args_error("name()"), ParseError::ExpectedName));
    assert_eq!(args_error("name()").message(), "expected `name(struct_name)`");
}

#[test]
fn error_unknown_command() {
    assert!(matches!(args_error("foo"), ParseError::UnknownCmd(CmdScope::Args)));
    assert_eq!(
        args_error("foo").message(),
        "expected `cmd(..)` where cmd is one of [\"name\", \"clone\", \"ignore\", \"derive\", \"public\", \"use_cow\", \"ignore_struct\"]"
    );
    assert!(matches!(args_error("ignore_struct(public)"), ParseError::UnknownCmd(CmdScope::IgnoreStruct)));
    assert_eq!(
        args_error("ignore_struct(foo)").message(),
        "expected `cmd(..)` where cmd is one of [\"name\", \"derive\"]"
    );
}

#[test]
fn cmd_words() {
    assert_eq!(Cmd::Name.as_str(), "name");
    assert_eq!(Cmd::Clone.as_str(), "clone");
    assert_eq!(Cmd::Ignore.as_str(), "ignore");
    assert_eq!(Cmd::Derive.as_str(), "derive");
    assert_eq!(Cmd::Public.as_str(), "public");
    assert_eq!(Cmd::UseCow.as_str(), "use_cow");
    assert_eq!(Cmd::IgnoreStruct.as_str(), "ignore_struct");
}

#[test]
fn derive_with_generic_arguments_on_tokens() {
    let generic = || vec![id("A"), p('<'), id("B"), p('>')];
    let expected: Vec<Vec<Tok>> = vec![generic()];

    let alone = vec![id("derive"), paren(generic())];
    let (a, end) = Args::parse(&alone, 0).unwrap();
    assert_eq!(format!("{:?}", a.derive), format!("{:?}", expected));
    assert_eq!(end, 2);

    let after_public = vec![id("public"), p(','), id("derive"), paren(generic())];
    let (b, _) = Args::parse(&after_public, 0).unwrap();
    assert!(b.is_pub);
    assert_eq!(format!("{:?}", b.derive), format!("{:?}", expected));

    let group = vec![paren(generic())];
    let mut derive: Vec<Vec<Tok>> = vec![vec![id("Clone")]];
    assert_eq!(parse_derive(&group, 0, &mut derive).unwrap(), 1);
    assert_eq!(format!("{:?}", derive), format!("{:?}", vec![vec![id("Clone")], generic()]));
}

#[test]
fn no_comma_after_the_last_command_inside_ignore_struct() {
    let inner = vec![id("name"), paren(vec![id("N")]), p(',')];
    match IgnoreArgs::parse(&inner, 0) {
        Err(e) => assert_eq!(e.message(), "unexpected end of input, expected identifier"),
        Ok(_) => panic!("a comma after the last command of ignore_struct is refused"),
    }
    let outer = vec![id("ignore_struct"), paren(inner), p(',')];
    assert!(matches!(Args::parse(&outer, 0), Err(ParseError::ExpectedIdent(true))));
}

#[test]
fn append_paths_adds_or_refuses() {
    let mut derive: Vec<Vec<Tok>> = vec![vec![id("A")]];
    append_paths(Ok(vec![vec![id("B")], vec![id("C")]]), &mut derive).unwrap();
    assert_eq!(format!("{:?}", derive), format!("{:?}", vec![vec![id("A")], vec![id("B")], vec![id("C")]]));
    match append_paths(Err("expected `,`".to_string()), &mut derive) {
        Err(ParseError::Paths(m)) => assert_eq!(m, "expected `,`"),
        other => panic!("{:?}", other),
    }
    assert_eq!(derive.len(), 3);
}
