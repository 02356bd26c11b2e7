//! The struct that the attribute stands on: its name, and the names and types of its fields.
use vstd::prelude::*;
use quote::ToTokens;
use crate::tokens::{
    convert_stream, copy_toks, is_blank, is_word_char, render_seq, toks_view, unblanked, Tok, TokV,
};
use crate::general::{contains_text, dedup, vals};

verus! {

/// A field of the item, as `syn` reads it: its name, if it has one, and the tokens of its type.
pub struct Field {
    pub ident: Option<String>,
    pub ty: Vec<Tok>,
}

/// What kind of item the attribute stands on; a struct with its fields.
pub enum Data {
    Struct(Vec<Field>),
    Enum,
    Union,
}

/// The item that the attribute stands on, as `syn` reads it.
pub struct DeriveInput {
    pub ident: String,
    pub data: Data,
}

/// The value of a field.
pub struct FieldV {
    pub ident: Option<Seq<char>>,
    pub ty: Seq<TokV>,
}

/// The value of an item's kind.
pub enum DataV {
    Struct(Seq<FieldV>),
    Enum,
    Union,
}

/// The value of an item.
pub struct DeriveInputV {
    pub ident: Seq<char>,
    pub data: DataV,
}

impl View for Field {
    type V = FieldV;

    open spec fn view(&self) -> FieldV {
        FieldV {
            ident: match self.ident {
                Some(s) => Some(s@),
                None => None,
            },
            ty: toks_view(self.ty@),
        }
    }
}

impl View for DeriveInput {
    type V = DeriveInputV;

    open spec fn view(&self) -> DeriveInputV {
        DeriveInputV {
            ident: self.ident@,
            data: match self.data {
                Data::Struct(fs) => DataV::Struct(vals(fs@)),
                Data::Enum => DataV::Enum,
                Data::Union => DataV::Union,
            },
        }
    }
}

/// Reads an item with `syn::parse_str::<syn::DeriveInput>`, or gives `None` where `syn` refuses
/// the text, and converts, one for one, its name, its kind and, for a struct, each field's name
/// and the tokens of its type (those that `quote::ToTokens` gives, converted by
/// `convert_stream`). Nothing is promised of the result: `syn` reads the text through
/// `proc_macro2`'s lexer, which is the compiler's inside a procedural macro and its own
/// elsewhere, so what comes out depends on the process as well as on the text.
///
/// One thing holds whichever lexer is used, for a text made only of ASCII letters, digits, `_`,
/// `:`, `,`, braces and blanks (where both lexers give the same trees, and `syn` prints a type
/// as the words and `::` it read): where `syn` reads a struct, its fields are the comma-separated
/// parts between the text's only pair of braces, each, without blanks, an optional `pub`, the
/// field's name, `:` and the text of its type.
#[verifier::external_body]
pub(crate) fn parse_derive_input(src: &str) -> (r: Option<DeriveInput>)
    ensures
        match r {
            Some(d) => input_fits_text(src@, Some(d@)),
            None => true,
        },
{
    let input = syn::parse_str::<syn::DeriveInput>(src).ok()?;
    let data = match input.data {
        syn::Data::Struct(ds) => Data::Struct(ds.fields.into_iter().map(|f| Field {
            ident: f.ident.map(|i| i.to_string()),
            ty: convert_stream(f.ty.to_token_stream()),
        }).collect()),
        syn::Data::Enum(_) => Data::Enum,
        syn::Data::Union(_) => Data::Union,
    };
    Some(DeriveInput { ident: input.ident.to_string(), data })
}

/// A character of a plain item: a word character, `:`, `,`, a brace or a blank.
pub open spec fn plain_item_char(c: char) -> bool {
    is_word_char(c) || c == ':' || c == ',' || c == '{' || c == '}' || is_blank(c)
}

/// A text made only of the characters of a plain item.
pub open spec fn plain_item_text(t: Seq<char>) -> bool {
    forall|i: int| 0 <= i < t.len() ==> plain_item_char(#[trigger] t[i])
}

/// A text without braces.
pub open spec fn no_brace(t: Seq<char>) -> bool {
    forall|i: int| 0 <= i < t.len() ==> #[trigger] t[i] != '{' && t[i] != '}'
}

/// The text, without blanks, of a named field: `pub` where `p` says so, its name, `:` and its
/// type's text.
pub open spec fn field_text(f: FieldV, p: bool) -> Seq<char> {
    match f.ident {
        Some(n) => (if p {
            "pub"@
        } else {
            seq![]
        }) + n + seq![':'] + unblanked(render_seq(f.ty)),
        None => seq!['#'],
    }
}

/// The texts of fields, separated by commas.
pub open spec fn fields_text(fs: Seq<FieldV>, pubs: Seq<bool>) -> Seq<char>
    decreases fs.len(),
{
    if fs.len() == 0 {
        seq![]
    } else if fs.len() == 1 {
        field_text(fs[0], pubs[0])
    } else {
        fields_text(fs.drop_last(), pubs.drop_last()) + seq![','] + field_text(fs.last(), pubs.last())
    }
}

/// The fields `fs` are those written between the only pair of braces of the text `t`.
pub open spec fn fields_fit_text(t: Seq<char>, fs: Seq<FieldV>) -> bool {
    exists|i: int, j: int, pubs: Seq<bool>|
        #![trigger t[i], t[j], fields_text(fs, pubs)]
        0 <= i < j < t.len() && t[i] == '{' && t[j] == '}' && no_brace(
            t.subrange(0, i),
        ) && no_brace(t.subrange(i + 1, j)) && no_brace(t.subrange(j + 1, t.len() as int))
            && pubs.len() == fs.len() && (unblanked(t.subrange(i + 1, j)) == fields_text(fs, pubs)
            || (fs.len() > 0 && unblanked(t.subrange(i + 1, j)) == fields_text(fs, pubs).push(
            ',',
        )))
}

/// What `syn` gave for the text `t` of an item fits the text: for a plain text, a struct's
/// fields are those written between its braces.
pub open spec fn input_fits_text(t: Seq<char>, d: Option<DeriveInputV>) -> bool {
    plain_item_text(t) ==> (d matches Some(dv) ==> (dv.data matches DataV::Struct(fs)
        ==> fields_fit_text(t, fs)))
}

/// Why an item gives no struct information.
#[derive(Clone, Copy, Debug, PartialEq, Eq, Structural)]
pub enum StructError {
    /// the item is an enum or a union
    NotStruct,
    /// a field of the struct has no name
    UnnamedField,
}

/// The struct that the attribute stands on: its name, the set of its field names, and its
/// fields' names and types in order.
pub struct StructInfo {
    pub name: String,
    pub field_names_set: Vec<String>,
    pub field_names: Vec<String>,
    pub field_types: Vec<Vec<Tok>>,
}

/// The value of struct information.
pub struct StructInfoV {
    pub name: Seq<char>,
    pub field_names_set: Seq<Seq<char>>,
    pub field_names: Seq<Seq<char>>,
    pub field_types: Seq<Seq<TokV>>,
}

/// The values of a list of types.
pub open spec fn types_view(v: Seq<Vec<Tok>>) -> Seq<Seq<TokV>> {
    Seq::new(v.len(), |i: int| toks_view(v[i]@))
}

impl View for StructInfo {
    type V = StructInfoV;

    open spec fn view(&self) -> StructInfoV {
        StructInfoV {
            name: self.name@,
            field_names_set: vals(self.field_names_set@),
            field_names: vals(self.field_names@),
            field_types: types_view(self.field_types@),
        }
    }
}

/// Whether every field has a name.
pub open spec fn all_named(fs: Seq<FieldV>) -> bool {
    forall|i: int| 0 <= i < fs.len() ==> (#[trigger] fs[i]).ident is Some
}

/// The struct information of an item: an error for an enum or a union, and for a field without
/// a name.
pub open spec fn spec_struct_info(d: DeriveInputV) -> Result<StructInfoV, StructError> {
    match d.data {
        DataV::Struct(fs) => {
            if !all_named(fs) {
                Err(StructError::UnnamedField)
            } else {
                let names = Seq::new(fs.len(), |i: int| fs[i].ident->0);
                Ok(
                    StructInfoV {
                        name: d.ident,
                        field_names_set: dedup(names, names.len() as int),
                        field_names: names,
                        field_types: Seq::new(fs.len(), |i: int| fs[i].ty),
                    },
                )
            }
        },
        _ => Err(StructError::NotStruct),
    }
}

impl StructInfo {
    /// Each field has a name and a type.
    pub open spec fn wf(&self) -> bool {
        self.field_names@.len() == self.field_types@.len()
    }

    /// The struct information of an item.
    pub fn from_derive_input(input: &DeriveInput) -> (r: Result<StructInfo, StructError>)
        ensures
            match r {
                Ok(info) => spec_struct_info(input@) == Ok::<StructInfoV, StructError>(info@),
                Err(e) => spec_struct_info(input@) == Err::<StructInfoV, StructError>(e),
            },
            r matches Ok(info) ==> info.wf(),
    {
        let fields = match &input.data {
            Data::Struct(fs) => fs,
            _ => {
                return Err(StructError::NotStruct);
            },
        };
        let ghost fs = vals(fields@);
        assert(input@.data == DataV::Struct(fs));
        let n = fields.len();
        let mut field_names: Vec<String> = Vec::new();
        let mut i: usize = 0;
        while i < n
            invariant
                n == fields@.len(),
                fs == vals(fields@),
                input@.data == DataV::Struct(fs),
                i <= n,
                field_names@.len() == i,
                forall|k: int| 0 <= k < i ==> (#[trigger] fs[k]).ident == Some(field_names@[k]@),
            decreases n - i,
        {
            match &fields[i].ident {
                Some(name) => {
                    field_names.push(name.clone());
                },
                None => {
                    assert(fs[i as int].ident is None);
                    assert(!all_named(fs));
                    return Err(StructError::UnnamedField);
                },
            }
            i = i + 1;
        }
        let mut field_types: Vec<Vec<Tok>> = Vec::new();
        let mut i: usize = 0;
        while i < n
            invariant
                n == fields@.len(),
                fs == vals(fields@),
                input@.data == DataV::Struct(fs),
                i <= n,
                field_types@.len() == i,
                all_named(fs),
                forall|k: int|
                    0 <= k < i ==> (#[trigger] fs[k]).ty == toks_view(field_types@[k]@),
            decreases n - i,
        {
            let t = copy_toks(&fields[i].ty);
            field_types.push(t);
            i = i + 1;
        }
        let ghost names = vals(field_names@);
        let mut field_names_set: Vec<String> = Vec::new();
        let mut i: usize = 0;
        while i < n
            invariant
                n == field_names@.len(),
                names == vals(field_names@),
                i <= n,
                vals(field_names_set@) == dedup(names, i as int),
            decreases n - i,
        {
            if !contains_text(&field_names_set, &field_names[i]) {
                field_names_set.push(field_names[i].clone());
                assert(vals(field_names_set@) =~= dedup(names, i as int).push(names[i as int]));
            }
            i = i + 1;
        }
        let info = StructInfo {
            name: input.ident.clone(),
            field_names_set,
            field_names,
            field_types,
        };
        assert(names =~= Seq::new(fs.len(), |k: int| fs[k].ident->0));
        assert(types_view(info.field_types@) =~= Seq::new(fs.len(), |k: int| fs[k].ty));
        Ok(info)
    }
}

} // verus!
