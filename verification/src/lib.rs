//! `ref_struct`: from a struct and a list of commands, the code of a struct that holds
//! references to (or clones of) the struct's fields, with its constructor, and, on request, a
//! struct of the fields left out with a method that puts the struct back together.
pub mod tokens;
pub mod general;
pub mod args;
pub mod struct_info;
pub mod expand;
pub mod laws;

use vstd::prelude::*;
use crate::tokens::{lex, render, render_seq, toks_view, Tok, TokV};
use crate::general::{err_text, parsed_as, ErrV, ParseError};
use crate::args::{fits_derive, fits_inside, ird_at, Args, ArgsV, GroupReads, Reads};
use crate::struct_info::{
    input_fits_text, parse_derive_input, spec_struct_info, DeriveInput, DeriveInputV, StructError,
    StructInfo,
};
use crate::expand::{expand, expansion};

verus! {

/// Why the attribute wrote no code.
#[derive(Debug)]
pub enum RefStructError {
    /// the text of the arguments does not lex
    ArgsLex,
    /// the text of the item does not lex
    ItemLex,
    /// the arguments were refused
    Args(ParseError),
    /// `syn` does not read the item as an item
    ItemSyntax,
    /// the item is not a struct with named fields
    Struct(StructError),
}

/// The value of a `RefStructError`.
pub enum RefStructErrorV {
    ArgsLex,
    ItemLex,
    Args(ErrV),
    ItemSyntax,
    Struct(StructError),
}

impl View for RefStructError {
    type V = RefStructErrorV;

    open spec fn view(&self) -> RefStructErrorV {
        match self {
            RefStructError::ArgsLex => RefStructErrorV::ArgsLex,
            RefStructError::ItemLex => RefStructErrorV::ItemLex,
            RefStructError::Args(e) => RefStructErrorV::Args(e@),
            RefStructError::ItemSyntax => RefStructErrorV::ItemSyntax,
            RefStructError::Struct(e) => RefStructErrorV::Struct(*e),
        }
    }
}

/// The message of a failure of the attribute.
pub open spec fn failure_text(e: RefStructErrorV) -> Seq<char> {
    match e {
        RefStructErrorV::ArgsLex => "cannot lex the attribute's arguments"@,
        RefStructErrorV::ItemLex => "cannot lex the item"@,
        RefStructErrorV::Args(a) => err_text(a),
        RefStructErrorV::ItemSyntax => "cannot parse the item"@,
        RefStructErrorV::Struct(StructError::NotStruct) => "not implemented: non struct case"@,
        RefStructErrorV::Struct(StructError::UnnamedField) => "not implemented: unnamed field case"@,
    }
}

impl RefStructError {
    /// The message of the failure.
    pub fn message(&self) -> (m: String)
        ensures
            m@ == failure_text(self@),
    {
        match self {
            RefStructError::ArgsLex => "cannot lex the attribute's arguments".to_owned(),
            RefStructError::ItemLex => "cannot lex the item".to_owned(),
            RefStructError::Args(a) => a.message(),
            RefStructError::ItemSyntax => "cannot parse the item".to_owned(),
            RefStructError::Struct(StructError::NotStruct) => "not implemented: non struct case".to_owned(),
            RefStructError::Struct(StructError::UnnamedField) => "not implemented: unnamed field case".to_owned(),
        }
    }
}

/// The value of an outcome of the attribute on token trees.
pub open spec fn toks_result(r: Result<Vec<Tok>, RefStructError>) -> Result<Seq<TokV>, RefStructErrorV> {
    match r {
        Ok(out) => Ok(toks_view(out@)),
        Err(e) => Err(e@),
    }
}

/// The value of an outcome of the attribute on texts.
pub open spec fn text_result(r: Result<String, RefStructError>) -> Result<Seq<char>, RefStructErrorV> {
    match r {
        Ok(out) => Ok(out@),
        Err(e) => Err(e@),
    }
}

/// The value of what `syn` gave for the item, if anything.
pub open spec fn input_view(d: Option<DeriveInput>) -> Option<DeriveInputV> {
    match d {
        Some(d) => Some(d@),
        None => None,
    }
}

/// What the attribute writes with the arguments `a` for the item tokens `item`, where `syn`
/// gave `d` for the item's text (`None`: it refused the text): the struct information of the
/// item decides, with the arguments, the expansion.
pub open spec fn spec_expand_item(a: ArgsV, d: Option<DeriveInputV>, item: Seq<TokV>) -> Result<
    Seq<TokV>,
    RefStructErrorV,
> {
    match d {
        None => Err(RefStructErrorV::ItemSyntax),
        Some(d) => match spec_struct_info(d) {
            Err(e) => Err(RefStructErrorV::Struct(e)),
            Ok(info) => Ok(expansion(a, info, item)),
        },
    }
}

/// What the attribute writes for the argument tokens `args` and the item tokens `item`, where
/// `syn` gave `rd` and `ird` for the texts of the `derive(..)` groups and `d` for the text of
/// the item: the arguments are read first, then the item.
pub open spec fn spec_ref_struct(args: Seq<TokV>, item: Seq<TokV>, rd: Reads, ird: GroupReads, d: Option<DeriveInputV>) -> Result<
    Seq<TokV>,
    RefStructErrorV,
> {
    match Args::spec_parse_with(args, 0, rd, ird) {
        Err(e) => Err(RefStructErrorV::Args(e)),
        Ok((a, _)) => spec_expand_item(a, d, item),
    }
}

/// The code written with the arguments `a` for the item tokens `item`, given what `syn` gave
/// for the item's text.
pub fn expand_item(a: &Args, input: Option<DeriveInput>, item: &Vec<Tok>) -> (r: Result<
    Vec<Tok>,
    RefStructError,
>)
    ensures
        toks_result(r) == spec_expand_item(a@, input_view(input), toks_view(item@)),
{
    let input = match input {
        Some(d) => d,
        None => {
            return Err(RefStructError::ItemSyntax);
        },
    };
    let info = match StructInfo::from_derive_input(&input) {
        Ok(info) => info,
        Err(e) => {
            return Err(RefStructError::Struct(e));
        },
    };
    Ok(expand(a, &info, item))
}

/// The attribute: the code written for the item tokens `item` with the argument tokens `args`.
/// Whatever `syn` gave for the texts it reads, the outcome is the one stated for it.
pub fn ref_struct(args: &Vec<Tok>, item: &Vec<Tok>) -> (r: Result<Vec<Tok>, RefStructError>)
    ensures
        exists|rd: Reads, ird: GroupReads, d: Option<DeriveInputV>|
            toks_result(r) == spec_ref_struct(toks_view(args@), toks_view(item@), rd, ird, d)
                && input_fits_text(render_seq(toks_view(item@)), d) && (forall|k: int|
                fits_derive(toks_view(args@), k, #[trigger] rd(k))) && (forall|j: int|
                fits_inside(toks_view(args@), j, #[trigger] ird_at(ird, j))),
{
    let parsed = Args::parse(args, 0);
    let ghost (rd, ird) = choose|rd: Reads, ird: GroupReads|
        parsed_as(parsed, Args::spec_parse_with(toks_view(args@), 0, rd, ird)) && (forall|k: int|
            fits_derive(toks_view(args@), k, #[trigger] rd(k))) && (forall|j: int|
            fits_inside(toks_view(args@), j, #[trigger] ird_at(ird, j)));
    let (a, _) = match parsed {
        Ok(x) => x,
        Err(e) => {
            let r = Err(RefStructError::Args(e));
            assert(toks_result(r) == spec_ref_struct(toks_view(args@), toks_view(item@), rd, ird, None));
            assert(input_fits_text(render_seq(toks_view(item@)), None));
            return r;
        },
    };
    let text = render(item);
    let input = parse_derive_input(text.as_str());
    let ghost d = input_view(input);
    let r = expand_item(&a, input, item);
    assert(toks_result(r) == spec_ref_struct(toks_view(args@), toks_view(item@), rd, ird, d));
    assert(input_fits_text(render_seq(toks_view(item@)), d));
    r
}

/// What the attribute writes, as text, where lexing gave `a` for the text of its arguments and
/// `i` for the text of its item (`None`: the text does not lex), and `syn` gave `rd`, `ird`
/// and `d` for the texts it reads.
pub open spec fn spec_ref_struct_text(
    a: Option<Seq<TokV>>,
    i: Option<Seq<TokV>>,
    rd: Reads,
    ird: GroupReads,
    d: Option<DeriveInputV>,
) -> Result<Seq<char>, RefStructErrorV> {
    match a {
        None => Err(RefStructErrorV::ArgsLex),
        Some(a) => match i {
            None => Err(RefStructErrorV::ItemLex),
            Some(i) => match spec_ref_struct(a, i, rd, ird, d) {
                Err(e) => Err(e),
                Ok(out) => Ok(render_seq(out)),
            },
        },
    }
}

/// The attribute on texts: lexes the arguments and the item, and gives the text of the code
/// written. Whatever lexing and `syn` gave, the outcome is the one stated for it.
pub fn ref_struct_text(args: &str, item: &str) -> (r: Result<String, RefStructError>)
    ensures
        exists|a: Option<Seq<TokV>>, i: Option<Seq<TokV>>, rd: Reads, ird: GroupReads, d: Option<DeriveInputV>|
            text_result(r) == spec_ref_struct_text(a, i, rd, ird, d) && (a matches Some(av) ==> forall|
                k: int,
            | fits_derive(av, k, #[trigger] rd(k))) && (a matches Some(av) ==> forall|j: int|
                fits_inside(av, j, #[trigger] ird_at(ird, j))) && (i matches Some(iv) ==> input_fits_text(
                render_seq(iv),
                d,
            )),
{
    let a = match lex(args) {
        Some(a) => a,
        None => {
            let r = Err(RefStructError::ArgsLex);
            assert(text_result(r) == spec_ref_struct_text(None, None, |k: int| Ok::<Seq<Seq<TokV>>, Seq<char>>(seq![]), |j: int, k: int| Ok::<Seq<Seq<TokV>>, Seq<char>>(seq![]), None));
            return r;
        },
    };
    let i = match lex(item) {
        Some(i) => i,
        None => {
            let r = Err(RefStructError::ItemLex);
            let ghost refused = |k: int| Err::<Seq<Seq<TokV>>, Seq<char>>(seq![]);
            let ghost refused2 = |j: int, k: int| Err::<Seq<Seq<TokV>>, Seq<char>>(seq![]);
            assert(text_result(r) == spec_ref_struct_text(Some(toks_view(a@)), None, refused, refused2, None));
            assert(forall|k: int| fits_derive(toks_view(a@), k, #[trigger] refused(k)));
            assert forall|j: int| fits_inside(toks_view(a@), j, #[trigger] ird_at(refused2, j)) by {
                assert(ird_at(refused2, j) =~= refused);
            }
            return r;
        },
    };
    let out = ref_struct(&a, &i);
    let ghost (rd, ird, d) = choose|rd: Reads, ird: GroupReads, d: Option<DeriveInputV>|
        toks_result(out) == spec_ref_struct(toks_view(a@), toks_view(i@), rd, ird, d)
            && input_fits_text(render_seq(toks_view(i@)), d) && (forall|k: int|
            fits_derive(toks_view(a@), k, #[trigger] rd(k))) && (forall|j: int|
            fits_inside(toks_view(a@), j, #[trigger] ird_at(ird, j)));
    let r = match out {
        Ok(out) => Ok(render(&out)),
        Err(e) => Err(e),
    };
    assert(text_result(r) == spec_ref_struct_text(Some(toks_view(a@)), Some(toks_view(i@)), rd, ird, d));
    assert(forall|k: int| fits_derive(toks_view(a@), k, #[trigger] rd(k)));
    assert(forall|j: int| fits_inside(toks_view(a@), j, #[trigger] ird_at(ird, j)));
    assert(input_fits_text(render_seq(toks_view(i@)), d));
    r
}

} // verus!
