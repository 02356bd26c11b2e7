use ref_struct::ref_struct_text;

#[test]
fn default_name_and_references() {
    assert_eq!(
        ref_struct_text("derive(Debug)", "struct S { a: u8, b: String }").unwrap(),
        "struct S {a : u8 , b : String} # [derive (Debug ,)] struct RefS < 'x > {a : & 'x u8 , b : & 'x String ,} \
         impl < 'x > RefS < 'x > {pub fn new (x : & 'x S) -> Self {Self {a : & x . a , b : & x . b ,}}}"
    );
}

#[test]
fn public_and_cow() {
    assert_eq!(
        ref_struct_text("public, use_cow", "struct S { a: u8 }").unwrap(),
        "struct S {a : u8} # [derive ()] pub struct RefS < 'x > {a : std :: borrow :: Cow < 'x , u8 > ,} \
         impl < 'x > RefS < 'x > {pub fn new (x : & 'x S) -> Self {Self {a : std :: borrow :: Cow :: Borrowed (& x . a) ,}}}"
    );
}

#[test]
fn ignore_struct_implies_cow_and_writes_merge() {
    assert_eq!(
        ref_struct_text("ignore(b), ignore_struct(derive(Debug))", "struct S { a: u8, b: u16 }").unwrap(),
        "struct S {a : u8 , b : u16} # [derive ()] struct RefS < 'x > {a : std :: borrow :: Cow < 'x , u8 > ,} \
         impl < 'x > RefS < 'x > {pub fn new (x : & 'x S) -> Self {Self {a : std :: borrow :: Cow :: Borrowed (& x . a) ,}}} \
         # [derive (Debug ,)] struct IgnoreS {b : u16 ,} \
         impl < 'x > RefS < 'x > {pub fn merge (self , ignored : IgnoreS) -> S {S {a : self . a . into_owned () , b : ignored . b ,}}}"
    );
}

#[test]
fn ignore_wins_over_clone() {
    assert_eq!(
        ref_struct_text("clone(a), ignore(a)", "struct S { a: u8, b: u16 }").unwrap(),
        "struct S {a : u8 , b : u16} # [derive ()] struct RefS < 'x > {b : & 'x u16 ,} \
         impl < 'x > RefS < 'x > {pub fn new (x : & 'x S) -> Self {Self {b : & x . b ,}}}"
    );
}

#[test]
fn derives_accumulate_with_paths() {
    assert_eq!(
        ref_struct_text("derive(A), derive(B, ::c::D,)", "struct S { }").unwrap(),
        "struct S {} # [derive (A , B , :: c :: D ,)] struct RefS < 'x > {} \
         impl < 'x > RefS < 'x > {pub fn new (x : & 'x S) -> Self {Self {}}}"
    );
}

#[test]
fn unit_struct_has_no_fields() {
    assert_eq!(
        ref_struct_text("name(N)", "struct S;").unwrap(),
        "struct S ; # [derive ()] struct N < 'x > {} impl < 'x > N < 'x > {pub fn new (x : & 'x S) -> Self {Self {}}}"
    );
}

#[test]
fn cloned_fields_follow_referenced_ones() {
    assert_eq!(
        ref_struct_text("clone(a)", "struct S { a: u8, b: u16, c: u32 }").unwrap(),
        "struct S {a : u8 , b : u16 , c : u32} # [derive ()] struct RefS < 'x > {b : & 'x u16 , c : & 'x u32 , a : u8 ,} \
         impl < 'x > RefS < 'x > {pub fn new (x : & 'x S) -> Self {Self {b : & x . b , c : & x . c , a : x . a . clone () ,}}}"
    );
}

#[test]
fn serde_example_expansion() {
    let out = ref_struct_text(
        "use_cow, name(Cowed), ignore(named_object_ignore), clone(some_inner_info_clone), \
         derive(Debug, serde::Serialize, serde::Deserialize), ignore_struct(name(Ignore), derive(Debug))",
        "#[derive(Debug, PartialEq, Eq)] struct SplitedSerDeser { named_object_ignore: HashMap<String, Object>, \
         some_inner_info_ref: Vec<u8>, some_inner_info_clone: u32, }",
    )
    .unwrap();
    assert_eq!(
        out,
        "# [derive (Debug , PartialEq , Eq)] struct SplitedSerDeser {named_object_ignore : HashMap < String , Object >, \
         some_inner_info_ref : Vec < u8 >, some_inner_info_clone : u32 ,} \
         # [derive (Debug , serde :: Serialize , serde :: Deserialize ,)] struct Cowed < 'x > \
         {some_inner_info_ref : std :: borrow :: Cow < 'x , Vec < u8 > > , some_inner_info_clone : u32 ,} \
         impl < 'x > Cowed < 'x > {pub fn new (x : & 'x SplitedSerDeser) -> Self {Self \
         {some_inner_info_ref : std :: borrow :: Cow :: Borrowed (& x . some_inner_info_ref) , \
         some_inner_info_clone : x . some_inner_info_clone . clone () ,}}} \
         # [derive (Debug ,)] struct Ignore {named_object_ignore : HashMap < String , Object > ,} \
         impl < 'x > Cowed < 'x > {pub fn merge (self , ignored : Ignore) -> SplitedSerDeser {SplitedSerDeser \
         {named_object_ignore : ignored . named_object_ignore , some_inner_info_ref : self . some_inner_info_ref . into_owned () , \
         some_inner_info_clone : self . some_inner_info_clone ,}}}"
    );
}

#[test]
fn readme_simple_example() {
    let out = ref_struct_text(
        "ignore(lets_ignore_a, lets_ignore_b), derive(Clone, Debug, PartialEq, Eq), name(TwoVecAndClone), clone(lets_clone_a)",
        "struct InputStruct { lets_ignore_a: u32, lets_ref_a: Vec<u8>, lets_ref_b: Vec<u32>, lets_clone_a: u64, lets_ignore_b: Vec<Vec<u16>>, }",
    )
    .unwrap();
    assert!(out.contains(
        "# [derive (Clone , Debug , PartialEq , Eq ,)] struct TwoVecAndClone < 'x > \
         {lets_ref_a : & 'x Vec < u8 > , lets_ref_b : & 'x Vec < u32 > , lets_clone_a : u64 ,}"
    ));
    assert!(out.contains("impl < 'x > TwoVecAndClone < 'x > {pub fn new (x : & 'x InputStruct) -> Self"));
    assert!(!out.contains("struct TwoVecAndClone < 'x > {lets_ignore_a"));
}

#[test]
fn raw_item_name_gives_plain_default_names() {
    let out = ref_struct_text("ignore_struct(derive(Debug)), ignore(a)", "struct r#Foo { a: u8, b: u8 }").unwrap();
    assert!(out.contains("struct RefFoo < 'x >"), "{}", out);
    assert!(out.contains("struct IgnoreFoo"), "{}", out);
    assert!(out.contains("pub fn new (x : & 'x r#Foo)"), "{}", out);
    let named = ref_struct_text("name(Out)", "struct r#Foo { a: u8 }").unwrap();
    assert!(named.contains("struct Out < 'x >"), "{}", named);
}
