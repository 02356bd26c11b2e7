// The example that led to the attribute: a struct split into a serialized part (as `Cow`s)
// and the ignored part, each written to bytes and read back, then merged.

use ref_struct::ref_struct_text;
use serde::de::{Deserialize, Deserializer};
use serde::ser::{Serialize, Serializer};
use std::borrow::Cow;
use std::collections::HashMap;

const ARGS: &str = "use_cow, name(Cowed), ignore(named_object_ignore), clone(some_inner_info_clone), \
    derive(Debug, serde::Serialize, serde::Deserialize), ignore_struct(name(Ignore), derive(Debug))";

const ITEM: &str = "#[derive(Debug, PartialEq, Eq)]
struct SplitedSerDeser {
    named_object_ignore: HashMap<String, Object>,
    some_inner_info_ref: Vec<u8>,
    some_inner_info_clone: u32,
}";

#[derive(Debug, Clone, PartialEq, Eq)]
struct Object {
    some_values: Vec<u32>,
}

impl Serialize for Object {
    fn serialize<S: Serializer>(&self, s: S) -> Result<S::Ok, S::Error> {
        (&self.some_values,).serialize(s)
    }
}

impl<'de> Deserialize<'de> for Object {
    fn deserialize<D: Deserializer<'de>>(d: D) -> Result<Self, D::Error> {
        let (some_values,) = <(Vec<u32>,)>::deserialize(d)?;
        Ok(Object { some_values })
    }
}

// What the attribute writes for ARGS and ITEM (checked below), as Rust; the serde derives are
// written out by hand as impls that encode the fields in order.
#[derive(Debug, PartialEq, Eq)]
struct SplitedSerDeser {
    named_object_ignore: HashMap<String, Object>,
    some_inner_info_ref: Vec<u8>,
    some_inner_info_clone: u32,
}

#[derive(Debug)]
struct Cowed<'x> {
    some_inner_info_ref: Cow<'x, Vec<u8>>,
    some_inner_info_clone: u32,
}

impl<'x> Cowed<'x> {
    pub fn new(x: &'x SplitedSerDeser) -> Self {
        Self {
            some_inner_info_ref: Cow::Borrowed(&x.some_inner_info_ref),
            some_inner_info_clone: x.some_inner_info_clone.clone(),
        }
    }
}

#[derive(Debug)]
struct Ignore {
    named_object_ignore: HashMap<String, Object>,
}

impl<'x> Cowed<'x> {
    pub fn merge(self, ignored: Ignore) -> SplitedSerDeser {
        SplitedSerDeser {
            named_object_ignore: ignored.named_object_ignore,
            some_inner_info_ref: self.some_inner_info_ref.into_owned(),
            some_inner_info_clone: self.some_inner_info_clone,
        }
    }
}

impl<'x> Serialize for Cowed<'x> {
    fn serialize<S: Serializer>(&self, s: S) -> Result<S::Ok, S::Error> {
        (&*self.some_inner_info_ref, self.some_inner_info_clone).serialize(s)
    }
}

impl<'de, 'x> Deserialize<'de> for Cowed<'x> {
    fn deserialize<D: Deserializer<'de>>(d: D) -> Result<Self, D::Error> {
        let (r, c) = <(Vec<u8>, u32)>::deserialize(d)?;
        Ok(Cowed { some_inner_info_ref: Cow::Owned(r), some_inner_info_clone: c })
    }
}

fn test_helper_init() -> SplitedSerDeser {
    let mut named_object_ignore = HashMap::new();
    named_object_ignore.insert("power_of_2".into(), Object { some_values: vec![2, 4, 32, 128] });
    named_object_ignore.insert("random".into(), Object { some_values: vec![12, 24, 48] });
    named_object_ignore.insert("11111".into(), Object { some_values: vec![1, 1, 1, 1, 1] });
    named_object_ignore.insert("dead".into(), Object { some_values: vec![0xD, 0xE, 0xA, 0xD] });

    SplitedSerDeser {
        named_object_ignore,
        some_inner_info_ref: vec![2, 3, 4, 6, 7],
        some_inner_info_clone: 0xA115E,
    }
}

#[test]
pub fn test_ser_deser() {
    assert_eq!(
        ref_struct_text(ARGS, ITEM).unwrap(),
        "# [derive (Debug , PartialEq , Eq)] struct SplitedSerDeser {named_object_ignore : HashMap < String , Object >, \
         some_inner_info_ref : Vec < u8 >, some_inner_info_clone : u32 ,} \
         # [derive (Debug , serde :: Serialize , serde :: Deserialize ,)] struct Cowed < 'x > \
         {some_inner_info_ref : std :: borrow :: Cow < 'x , Vec < u8 > > , some_inner_info_clone : u32 ,} \
         impl < 'x > Cowed < 'x > {pub fn new (x : & 'x SplitedSerDeser) -> Self {Self \
         {some_inner_info_ref : std :: borrow :: Cow :: Borrowed (& x . some_inner_info_ref) , \
         some_inner_info_clone : x . some_inner_info_clone . clone () ,}}} \
         # [derive (Debug ,)] struct Ignore {named_object_ignore : HashMap < String , Object > ,} \
         impl < 'x > Cowed < 'x > {pub fn merge (self , ignored : Ignore) -> SplitedSerDeser {SplitedSerDeser \
         {named_object_ignore : ignored . named_object_ignore , some_inner_info_ref : self . some_inner_info_ref . into_owned () , \
         some_inner_info_clone : self . some_inner_info_clone ,}}}"
    );

    let splited = test_helper_init();
    let cowed = Cowed::new(&splited);

    let mut bytes = Vec::<u8>::new();
    let mut serializer = rmp_serde::Serializer::new(&mut bytes);
    cowed.serialize(&mut serializer).unwrap();

    let mut object_bytes = HashMap::new();
    for (name, obj) in &splited.named_object_ignore {
        let mut bytes = Vec::<u8>::new();
        let mut serializer = rmp_serde::Serializer::new(&mut bytes);
        obj.serialize(&mut serializer).unwrap();
        object_bytes.insert(name.to_owned(), bytes);
    }

    drop(cowed);
    drop(splited);

    let named_object_ignore = {
        let mut named_object_ignore = HashMap::new();
        for (name, bytes) in object_bytes {
            let mut deserializer = rmp_serde::Deserializer::new(bytes.as_slice());
            let obj: Object = Deserialize::deserialize(&mut deserializer).unwrap();
            named_object_ignore.insert(name, obj);
        }
        named_object_ignore
    };
    let ignore = Ignore { named_object_ignore };

    let owned = {
        let mut deserializer = rmp_serde::Deserializer::new(bytes.as_slice());
        let cowed: Cowed = Deserialize::deserialize(&mut deserializer).unwrap();
        cowed
    };

    let loaded_value = owned.merge(ignore);
    let initial_value = test_helper_init();

    assert_eq!(loaded_value, initial_value);
}
