use ref_struct::args::Args;
use ref_struct::expand::{expand, field_kind, FieldKind};
use ref_struct::struct_info::{Data, DeriveInput, Field, StructError, StructInfo};
use ref_struct::tokens::{render, Spacing, Tok};
use ref_struct::{expand_item, ref_struct, ref_struct_text, RefStructError};

fn field(name: Option<&str>, ty: Vec<Tok>) -> Field {
    Field { ident: name.map(|n| n.to_string()), ty }
}

fn ty(words: &[&str]) -> Vec<Tok> {
    words.iter().map(|w| if w.len() == 1 && !w.chars().all(char::is_alphanumeric) {
        Tok::Punct(w.chars().next().unwrap(), Spacing::Alone)
    } else {
        Tok::Ident(w.to_string())
    }).collect()
}

fn plain_args() -> Args {
    Args {
        name: None,
        clone: vec![],
        ignore: vec![],
        derive: vec![],
        is_pub: false,
        use_cow: false,
        ignore_struct_args: None,
    }
}

#[test]
fn item_errors() {
    assert!(matches!(ref_struct_text("public", "enum E { A }"), Err(RefStructError::Struct(StructError::NotStruct))));
    assert!(matches!(ref_struct_text("public", "union U { a: u8 }"), Err(RefStructError::Struct(StructError::NotStruct))));
    assert!(matches!(ref_struct_text("public", "struct T(u8);"), Err(RefStructError::Struct(StructError::UnnamedField))));
    assert!(matches!(ref_struct_text("public", "fn f() {}"), Err(RefStructError::ItemSyntax)));
    assert!(matches!(ref_struct_text("\"abc", "struct S { a: u8 }"), Err(RefStructError::ArgsLex)));
    assert!(matches!(ref_struct_text("public", "struct S { a: u8 } \""), Err(RefStructError::ItemLex)));
    assert_eq!(ref_struct_text("public", "enum E { A }").unwrap_err().message(), "not implemented: non struct case");
    assert_eq!(ref_struct_text("public", "struct T(u8);").unwrap_err().message(), "not implemented: unnamed field case");
    assert_eq!(ref_struct_text("public", "fn f() {}").unwrap_err().message(), "cannot parse the item");
    assert_eq!(ref_struct_text("\"abc", "struct S {}").unwrap_err().message(), "cannot lex the attribute's arguments");
    assert_eq!(ref_struct_text("public", "\"").unwrap_err().message(), "cannot lex the item");
    assert_eq!(ref_struct_text("foo(", "struct S {}").unwrap_err().message(), "cannot lex the attribute's arguments");
    assert_eq!(ref_struct_text("name", "struct S {}").unwrap_err().message(), "unexpected end of input, expected parentheses");
}

#[test]
fn empty_tuple_struct_is_accepted() {
    assert!(ref_struct_text("public", "struct T();").is_ok());
}

#[test]
fn struct_info_of_input() {
    let input = DeriveInput {
        ident: "S".to_string(),
        data: Data::Struct(vec![
            field(Some("a"), ty(&["u8"])),
            field(Some("b"), ty(&["Vec", "<", "u8", ">"])),
            field(Some("a"), ty(&["u16"])),
        ]),
    };
    let info = StructInfo::from_derive_input(&input).unwrap();
    assert_eq!(info.name, "S");
    assert_eq!(info.field_names, vec!["a".to_string(), "b".to_string(), "a".to_string()]);
    assert_eq!(info.field_names_set, vec!["a".to_string(), "b".to_string()]);
    assert_eq!(info.field_types.len(), 3);
    assert_eq!(render(&info.field_types[1]), "Vec < u8 >");
}

#[test]
fn struct_info_errors() {
    let unnamed = DeriveInput { ident: "S".to_string(), data: Data::Struct(vec![field(Some("a"), ty(&["u8"])), field(None, ty(&["u8"]))]) };
    assert!(matches!(StructInfo::from_derive_input(&unnamed), Err(StructError::UnnamedField)));
    let en = DeriveInput { ident: "E".to_string(), data: Data::Enum };
    assert!(matches!(StructInfo::from_derive_input(&en), Err(StructError::NotStruct)));
    let un = DeriveInput { ident: "U".to_string(), data: Data::Union };
    assert!(matches!(StructInfo::from_derive_input(&un), Err(StructError::NotStruct)));
}

#[test]
fn expand_directly() {
    let info = StructInfo {
        name: "S".to_string(),
        field_names_set: vec!["a".to_string(), "b".to_string()],
        field_names: vec!["a".to_string(), "b".to_string()],
        field_types: vec![vec![Tok::Ident("u8".to_string())], vec![Tok::Ident("u16".to_string())]],
    };
    let mut args = plain_args();
    args.clone = vec!["b".to_string()];
    args.name = Some("Out".to_string());
    let item = vec![Tok::Ident("item".to_string()), Tok::Punct(';', Spacing::Alone)];
    let out = expand(&args, &info, &item);
    assert_eq!(
        render(&out),
        "item ; # [derive ()] struct Out < 'x > {a : & 'x u8 , b : u16 ,} \
         impl < 'x > Out < 'x > {pub fn new (x : & 'x S) -> Self {Self {a : & x . a , b : x . b . clone () ,}}}"
    );
}

#[test]
fn kinds_of_fields() {
    let mut args = plain_args();
    args.clone = vec!["c".to_string(), "both".to_string()];
    args.ignore = vec!["i".to_string(), "both".to_string()];
    assert_eq!(field_kind(&args, &"c".to_string()), FieldKind::Clone);
    assert_eq!(field_kind(&args, &"i".to_string()), FieldKind::Ignored);
    assert_eq!(field_kind(&args, &"both".to_string()), FieldKind::Ignored);
    assert_eq!(field_kind(&args, &"r".to_string()), FieldKind::Ref);
}

#[test]
fn ref_struct_on_tokens() {
    let args = vec![Tok::Ident("public".to_string())];
    let item = vec![
        Tok::Ident("struct".to_string()),
        Tok::Ident("S".to_string()),
        Tok::Group(ref_struct::tokens::Delim::Brace, vec![Tok::Ident("a".to_string()), Tok::Punct(':', Spacing::Alone), Tok::Ident("u8".to_string())]),
    ];
    let out = ref_struct(&args, &item).unwrap();
    assert_eq!(
        render(&out),
        "struct S {a : u8} # [derive ()] pub struct RefS < 'x > {a : & 'x u8 ,} \
         impl < 'x > RefS < 'x > {pub fn new (x : & 'x S) -> Self {Self {a : & x . a ,}}}"
    );
    let bad = vec![Tok::Ident("foo".to_string())];
    assert!(matches!(ref_struct(&bad, &item), Err(RefStructError::Args(_))));
}

#[test]
fn expand_item_on_what_syn_gave() {
    let item = vec![Tok::Ident("struct".to_string()), Tok::Ident("S".to_string())];
    assert!(matches!(expand_item(&plain_args(), None, &item), Err(RefStructError::ItemSyntax)));
    let union = DeriveInput { ident: "U".to_string(), data: Data::Union };
    assert!(matches!(expand_item(&plain_args(), Some(union), &item), Err(RefStructError::Struct(StructError::NotStruct))));
    let unnamed = DeriveInput { ident: "T".to_string(), data: Data::Struct(vec![field(None, ty(&["u8"]))]) };
    assert!(matches!(expand_item(&plain_args(), Some(unnamed), &item), Err(RefStructError::Struct(StructError::UnnamedField))));
    let input = DeriveInput { ident: "S".to_string(), data: Data::Struct(vec![field(Some("a"), ty(&["u8"]))]) };
    let out = expand_item(&plain_args(), Some(input), &item).unwrap();
    assert_eq!(
        render(&out),
        "struct S # [derive ()] struct RefS < 'x > {a : & 'x u8 ,} impl < 'x > RefS < 'x > {pub fn new (x : & 'x S) -> Self {Self {a : & x . a ,}}}"
    );
}
