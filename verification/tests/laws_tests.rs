use ref_struct::ref_struct_text;

const ITEM: &str = "struct S { a: u8, b: u16, c: u32 }";

#[test]
fn item_is_kept_first() {
    let out = ref_struct_text("ignore(b)", ITEM).unwrap();
    assert!(out.starts_with("struct S {a : u8 , b : u16 , c : u32}"));
}

#[test]
fn each_field_in_one_place() {
    let out = ref_struct_text("clone(a), ignore(b), ignore_struct()", ITEM);
    assert!(out.is_err());
    let out = ref_struct_text("clone(a), ignore(b), ignore_struct(name(I))", ITEM).unwrap();
    assert!(out.contains("{c : std :: borrow :: Cow < 'x , u32 > , a : u8 ,}"));
    assert!(out.contains("struct I {b : u16 ,}"));
    assert!(out.contains("{a : self . a , b : ignored . b , c : self . c . into_owned () ,}"));
}

#[test]
fn default_names_follow_the_item() {
    let out = ref_struct_text("ignore_struct(derive(Debug))", ITEM).unwrap();
    assert!(out.contains("struct RefS < 'x >"));
    assert!(out.contains("struct IgnoreS {}"));
    let named = ref_struct_text("name(R), ignore_struct(name(G))", ITEM).unwrap();
    assert!(named.contains("struct R < 'x >"));
    assert!(named.contains("struct G {}"));
}

#[test]
fn fields_keep_their_order() {
    let out = ref_struct_text("", ITEM);
    assert!(out.is_err());
    let out = ref_struct_text("public", "struct S { z: u8, y: u8, x: u8 }").unwrap();
    assert!(out.contains("pub struct RefS < 'x > {z : & 'x u8 , y : & 'x u8 , x : & 'x u8 ,}"));
}

#[test]
fn once_only_commands() {
    assert!(ref_struct_text("name(A), name(B)", ITEM).is_err());
    assert!(ref_struct_text("public, public, use_cow, use_cow", ITEM).is_ok());
}

#[test]
fn derives_accumulate() {
    let split = ref_struct_text("derive(A), derive(B)", ITEM).unwrap();
    let joined = ref_struct_text("derive(A, B)", ITEM).unwrap();
    assert_eq!(split, joined);
}

#[test]
fn names_of_no_field_have_no_effect() {
    let with = ref_struct_text("clone(a, clone_a), ignore(b, nothing)", ITEM).unwrap();
    let without = ref_struct_text("clone(a), ignore(b)", ITEM).unwrap();
    assert_eq!(with, without);
    let only_unknown = ref_struct_text("clone(clone_a)", ITEM).unwrap();
    assert_eq!(only_unknown, ref_struct_text("clone()", ITEM).unwrap());
}
