//! The code that the attribute writes: the item itself, the struct of references (or of
//! `Cow`s) with its constructor `new`, and, with `ignore_struct(..)`, the struct of the ignored
//! fields with the method `merge` that puts the item back together.
use vstd::prelude::*;
use crate::tokens::{
    copy_toks, lemma_group_view, lemma_toks_view_push, toks_view, Delim, Spacing, Tok, TokV,
};
use crate::args::{Args, ArgsV, IgnoreArgs, IgnoreArgsV};
use crate::general::contains_text;
use crate::struct_info::{StructInfo, StructInfoV};

verus! {

/// What becomes of a field of the item in the struct of references.
#[derive(Clone, Copy, Debug, PartialEq, Eq, Structural)]
pub enum FieldKind {
    /// held as a reference (or a `Cow`)
    Ref,
    /// held as a clone
    Clone,
    /// left out
    Ignored,
}

/// The kind of the field named `f`: a field named in `ignore(..)` is left out, even where
/// `clone(..)` names it too; one named in `clone(..)` is cloned; any other is referenced.
pub open spec fn kind_of(a: ArgsV, f: Seq<char>) -> FieldKind {
    if a.ignore.contains(f) {
        FieldKind::Ignored
    } else if a.clone.contains(f) {
        FieldKind::Clone
    } else {
        FieldKind::Ref
    }
}

/// Whether the struct of references holds `Cow`s: with `use_cow`, and with `ignore_struct(..)`,
/// which implies it.
pub open spec fn uses_cow(a: ArgsV) -> bool {
    a.use_cow || a.ignore_struct_args is Some
}

/// A name without the `r#` that marks a raw identifier.
pub open spec fn unraw(n: Seq<char>) -> Seq<char> {
    if n.len() >= 2 && n[0] == 'r' && n[1] == '#' {
        n.subrange(2, n.len() as int)
    } else {
        n
    }
}

/// The name of the struct of references: the one `name(..)` gives, else `Ref` and the item's
/// name (without the `r#` of a raw identifier).
pub open spec fn out_name(a: ArgsV, info: StructInfoV) -> Seq<char> {
    match a.name {
        Some(n) => n,
        None => "Ref"@ + unraw(info.name),
    }
}

/// The name of the struct of ignored fields: the one `ignore_struct(name(..))` gives, else
/// `Ignore` and the item's name (without the `r#` of a raw identifier).
pub open spec fn ignore_name(ia: IgnoreArgsV, info: StructInfoV) -> Seq<char> {
    match ia.name {
        Some(n) => n,
        None => "Ignore"@ + unraw(info.name),
    }
}

/// An identifier token.
pub open spec fn ident(s: Seq<char>) -> TokV {
    TokV::Ident(s)
}

/// A punctuation token that stands alone.
pub open spec fn alone(c: char) -> TokV {
    TokV::Punct(c, Spacing::Alone)
}

/// A punctuation token joined to the next one.
pub open spec fn joint(c: char) -> TokV {
    TokV::Punct(c, Spacing::Joint)
}

/// The lifetime `'x`.
pub open spec fn lifetime_x() -> Seq<TokV> {
    seq![joint('\''), ident("x"@)]
}

/// `::`.
pub open spec fn colon2() -> Seq<TokV> {
    seq![joint(':'), alone(':')]
}

/// `std::borrow::Cow`.
pub open spec fn cow_path() -> Seq<TokV> {
    seq![ident("std"@)] + colon2() + seq![ident("borrow"@)] + colon2() + seq![ident("Cow"@)]
}

/// `<'x>`.
pub open spec fn generics_x() -> Seq<TokV> {
    seq![alone('<')] + lifetime_x() + seq![alone('>')]
}

/// The field `f` of the struct of references: `f: &'x T,` or `f: std::borrow::Cow<'x, T>,`.
pub open spec fn ref_def(f: Seq<char>, ty: Seq<TokV>, cow: bool) -> Seq<TokV> {
    if cow {
        seq![ident(f), alone(':')] + cow_path() + seq![alone('<')] + lifetime_x() + seq![alone(',')]
            + ty + seq![alone('>'), alone(',')]
    } else {
        seq![ident(f), alone(':'), alone('&')] + lifetime_x() + ty + seq![alone(',')]
    }
}

/// A field with its own type: `f: T,`.
pub open spec fn typed_def(f: Seq<char>, ty: Seq<TokV>) -> Seq<TokV> {
    seq![ident(f), alone(':')] + ty + seq![alone(',')]
}

/// The initializer of a referenced field in `new`: `f: &x.f,` or
/// `f: std::borrow::Cow::Borrowed(&x.f),`.
pub open spec fn ref_init(f: Seq<char>, cow: bool) -> Seq<TokV> {
    if cow {
        seq![ident(f), alone(':')] + cow_path() + colon2() + seq![
            ident("Borrowed"@),
            TokV::Group(Delim::Paren, seq![alone('&'), ident("x"@), alone('.'), ident(f)]),
            alone(','),
        ]
    } else {
        seq![ident(f), alone(':'), alone('&'), ident("x"@), alone('.'), ident(f), alone(',')]
    }
}

/// The initializer of a cloned field in `new`: `f: x.f.clone(),`.
pub open spec fn clone_init(f: Seq<char>) -> Seq<TokV> {
    seq![
        ident(f),
        alone(':'),
        ident("x"@),
        alone('.'),
        ident(f),
        alone('.'),
        ident("clone"@),
        TokV::Group(Delim::Paren, seq![]),
        alone(','),
    ]
}

/// The initializer of a field of the item in `merge`: `f: self.f.into_owned(),` for a
/// referenced field, `f: self.f,` for a cloned one, `f: ignored.f,` for an ignored one.
pub open spec fn merge_init(f: Seq<char>, k: FieldKind) -> Seq<TokV> {
    match k {
        FieldKind::Ref => seq![
            ident(f),
            alone(':'),
            ident("self"@),
            alone('.'),
            ident(f),
            alone('.'),
            ident("into_owned"@),
            TokV::Group(Delim::Paren, seq![]),
            alone(','),
        ],
        FieldKind::Clone => seq![ident(f), alone(':'), ident("self"@), alone('.'), ident(f), alone(',')],
        FieldKind::Ignored => seq![
            ident(f),
            alone(':'),
            ident("ignored"@),
            alone('.'),
            ident(f),
            alone(','),
        ],
    }
}

/// A per-field part of the expansion.
#[derive(Clone, Copy, Debug, PartialEq, Eq, Structural)]
pub enum Piece {
    /// the definitions of the referenced fields
    RefDef,
    /// the definitions of the cloned fields
    CloneDef,
    /// the initializers of the referenced fields in `new`
    RefInit,
    /// the initializers of the cloned fields in `new`
    CloneInit,
    /// the definitions of the ignored fields
    IgnoreDef,
    /// the initializers of all fields in `merge`
    MergeInit,
}

/// The tokens that field `i` of the item adds to a per-field part.
pub open spec fn piece(a: ArgsV, info: StructInfoV, p: Piece, i: int) -> Seq<TokV> {
    let f = info.field_names[i];
    let ty = info.field_types[i];
    let k = kind_of(a, f);
    match p {
        Piece::RefDef => if k == FieldKind::Ref {
            ref_def(f, ty, uses_cow(a))
        } else {
            seq![]
        },
        Piece::CloneDef => if k == FieldKind::Clone {
            typed_def(f, ty)
        } else {
            seq![]
        },
        Piece::RefInit => if k == FieldKind::Ref {
            ref_init(f, uses_cow(a))
        } else {
            seq![]
        },
        Piece::CloneInit => if k == FieldKind::Clone {
            clone_init(f)
        } else {
            seq![]
        },
        Piece::IgnoreDef => if k == FieldKind::Ignored {
            typed_def(f, ty)
        } else {
            seq![]
        },
        Piece::MergeInit => merge_init(f, k),
    }
}

/// A per-field part over the first `n` fields, in their order.
pub open spec fn gather(a: ArgsV, info: StructInfoV, p: Piece, n: int) -> Seq<TokV>
    decreases n,
{
    if n <= 0 {
        seq![]
    } else {
        gather(a, info, p, n - 1) + piece(a, info, p, n - 1)
    }
}

/// The first `n` derive paths, each followed by a comma.
pub open spec fn derive_list(ds: Seq<Seq<TokV>>, n: int) -> Seq<TokV>
    decreases n,
{
    if n <= 0 {
        seq![]
    } else {
        derive_list(ds, n - 1) + ds[n - 1] + seq![alone(',')]
    }
}

/// `#[derive(D1, .., Dk,)]`.
pub open spec fn derive_attr(ds: Seq<Seq<TokV>>) -> Seq<TokV> {
    seq![
        alone('#'),
        TokV::Group(
            Delim::Bracket,
            seq![ident("derive"@), TokV::Group(Delim::Paren, derive_list(ds, ds.len() as int))],
        ),
    ]
}

/// `pub` where the arguments ask for it.
pub open spec fn vis(is_pub: bool) -> Seq<TokV> {
    if is_pub {
        seq![ident("pub"@)]
    } else {
        seq![]
    }
}

/// The number of fields of the item.
pub open spec fn nfields(info: StructInfoV) -> int {
    info.field_names.len() as int
}

/// The struct of references: its derives, its visibility, its name with the lifetime `'x`, the
/// referenced fields and then the cloned fields.
pub open spec fn out_struct(a: ArgsV, info: StructInfoV) -> Seq<TokV> {
    derive_attr(a.derive) + vis(a.is_pub) + seq![ident("struct"@), ident(out_name(a, info))]
        + generics_x() + seq![
        TokV::Group(
            Delim::Brace,
            gather(a, info, Piece::RefDef, nfields(info)) + gather(
                a,
                info,
                Piece::CloneDef,
                nfields(info),
            ),
        ),
    ]
}

/// `impl<'x> Out<'x>`.
pub open spec fn impl_head(a: ArgsV, info: StructInfoV) -> Seq<TokV> {
    seq![ident("impl"@)] + generics_x() + seq![ident(out_name(a, info))] + generics_x()
}

/// The body of `new`: `Self { .. }`.
pub open spec fn new_body(a: ArgsV, info: StructInfoV) -> Seq<TokV> {
    seq![
        ident("Self"@),
        TokV::Group(
            Delim::Brace,
            gather(a, info, Piece::RefInit, nfields(info)) + gather(
                a,
                info,
                Piece::CloneInit,
                nfields(info),
            ),
        ),
    ]
}

/// `impl<'x> Out<'x> { pub fn new(x: &'x In) -> Self { Self { .. } } }`.
pub open spec fn new_impl(a: ArgsV, info: StructInfoV) -> Seq<TokV> {
    impl_head(a, info) + seq![
        TokV::Group(
            Delim::Brace,
            seq![
                ident("pub"@),
                ident("fn"@),
                ident("new"@),
                TokV::Group(
                    Delim::Paren,
                    seq![ident("x"@), alone(':'), alone('&')] + lifetime_x() + seq![ident(info.name)],
                ),
                joint('-'),
                alone('>'),
                ident("Self"@),
                TokV::Group(Delim::Brace, new_body(a, info)),
            ],
        ),
    ]
}

/// The struct of ignored fields: its derives, its visibility, its name and the ignored fields.
pub open spec fn ignore_struct(a: ArgsV, ia: IgnoreArgsV, info: StructInfoV) -> Seq<TokV> {
    derive_attr(ia.derive) + vis(a.is_pub) + seq![
        ident("struct"@),
        ident(ignore_name(ia, info)),
        TokV::Group(Delim::Brace, gather(a, info, Piece::IgnoreDef, nfields(info))),
    ]
}

/// `impl<'x> Out<'x> { pub fn merge(self, ignored: Ignore) -> In { In { .. } } }`.
pub open spec fn merge_impl(a: ArgsV, ia: IgnoreArgsV, info: StructInfoV) -> Seq<TokV> {
    impl_head(a, info) + seq![
        TokV::Group(
            Delim::Brace,
            seq![
                ident("pub"@),
                ident("fn"@),
                ident("merge"@),
                TokV::Group(
                    Delim::Paren,
                    seq![
                        ident("self"@),
                        alone(','),
                        ident("ignored"@),
                        alone(':'),
                        ident(ignore_name(ia, info)),
                    ],
                ),
                joint('-'),
                alone('>'),
                ident(info.name),
                TokV::Group(
                    Delim::Brace,
                    seq![
                        ident(info.name),
                        TokV::Group(
                            Delim::Brace,
                            gather(a, info, Piece::MergeInit, nfields(info)),
                        ),
                    ],
                ),
            ],
        ),
    ]
}

/// The whole expansion: the item, the struct of references and its `new`, and, with
/// `ignore_struct(..)`, the struct of ignored fields and `merge`.
pub open spec fn expansion(a: ArgsV, info: StructInfoV, item: Seq<TokV>) -> Seq<TokV> {
    item + out_struct(a, info) + new_impl(a, info) + match a.ignore_struct_args {
        Some(ia) => ignore_struct(a, ia, info) + merge_impl(a, ia, info),
        None => seq![],
    }
}

fn push_tok(out: &mut Vec<Tok>, t: Tok)
    ensures
        toks_view(final(out)@) == toks_view(old(out)@) + seq![t@],
{
    proof {
        lemma_toks_view_push(out@, t);
    }
    out.push(t);
    assert(toks_view(out@) =~= toks_view(old(out)@) + seq![t@]);
}

fn push_ident(out: &mut Vec<Tok>, s: &str)
    ensures
        toks_view(final(out)@) == toks_view(old(out)@) + seq![ident(s@)],
{
    push_tok(out, Tok::Ident(s.to_owned()));
}

fn push_name(out: &mut Vec<Tok>, s: &String)
    ensures
        toks_view(final(out)@) == toks_view(old(out)@) + seq![ident(s@)],
{
    push_tok(out, Tok::Ident(s.clone()));
}

fn push_alone(out: &mut Vec<Tok>, c: char)
    ensures
        toks_view(final(out)@) == toks_view(old(out)@) + seq![alone(c)],
{
    push_tok(out, Tok::Punct(c, Spacing::Alone));
}

fn push_joint(out: &mut Vec<Tok>, c: char)
    ensures
        toks_view(final(out)@) == toks_view(old(out)@) + seq![joint(c)],
{
    push_tok(out, Tok::Punct(c, Spacing::Joint));
}

fn push_group(out: &mut Vec<Tok>, d: Delim, inner: Vec<Tok>)
    ensures
        toks_view(final(out)@) == toks_view(old(out)@) + seq![TokV::Group(d, toks_view(inner@))],
{
    proof {
        lemma_group_view(d, inner);
    }
    push_tok(out, Tok::Group(d, inner));
}

fn push_toks(out: &mut Vec<Tok>, ts: &Vec<Tok>)
    ensures
        toks_view(final(out)@) == toks_view(old(out)@) + toks_view(ts@),
{
    let mut copy = copy_toks(ts);
    let ghost a = out@;
    let ghost b = copy@;
    out.append(&mut copy);
    assert(toks_view(out@) =~= toks_view(a) + toks_view(b));
}

fn push_lifetime_x(out: &mut Vec<Tok>)
    ensures
        toks_view(final(out)@) == toks_view(old(out)@) + lifetime_x(),
{
    let ghost start = toks_view(out@);
    push_joint(out, '\'');
    push_ident(out, "x");
    assert(toks_view(out@) =~= start + lifetime_x());
}

fn push_generics_x(out: &mut Vec<Tok>)
    ensures
        toks_view(final(out)@) == toks_view(old(out)@) + generics_x(),
{
    let ghost start = toks_view(out@);
    push_alone(out, '<');
    push_lifetime_x(out);
    push_alone(out, '>');
    assert(toks_view(out@) =~= start + generics_x());
}

fn push_colon2(out: &mut Vec<Tok>)
    ensures
        toks_view(final(out)@) == toks_view(old(out)@) + colon2(),
{
    let ghost start = toks_view(out@);
    push_joint(out, ':');
    push_alone(out, ':');
    assert(toks_view(out@) =~= start + colon2());
}

fn push_cow_path(out: &mut Vec<Tok>)
    ensures
        toks_view(final(out)@) == toks_view(old(out)@) + cow_path(),
{
    let ghost start = toks_view(out@);
    push_ident(out, "std");
    push_colon2(out);
    push_ident(out, "borrow");
    push_colon2(out);
    push_ident(out, "Cow");
    assert(toks_view(out@) =~= start + cow_path());
}

fn push_ref_def(out: &mut Vec<Tok>, f: &String, ty: &Vec<Tok>, cow: bool)
    ensures
        toks_view(final(out)@) == toks_view(old(out)@) + ref_def(f@, toks_view(ty@), cow),
{
    let ghost start = toks_view(out@);
    push_name(out, f);
    push_alone(out, ':');
    if cow {
        push_cow_path(out);
        push_alone(out, '<');
        push_lifetime_x(out);
        push_alone(out, ',');
        push_toks(out, ty);
        push_alone(out, '>');
        push_alone(out, ',');
    } else {
        push_alone(out, '&');
        push_lifetime_x(out);
        push_toks(out, ty);
        push_alone(out, ',');
    }
    assert(toks_view(out@) =~= start + ref_def(f@, toks_view(ty@), cow));
}

fn push_typed_def(out: &mut Vec<Tok>, f: &String, ty: &Vec<Tok>)
    ensures
        toks_view(final(out)@) == toks_view(old(out)@) + typed_def(f@, toks_view(ty@)),
{
    let ghost start = toks_view(out@);
    push_name(out, f);
    push_alone(out, ':');
    push_toks(out, ty);
    push_alone(out, ',');
    assert(toks_view(out@) =~= start + typed_def(f@, toks_view(ty@)));
}

fn push_ref_init(out: &mut Vec<Tok>, f: &String, cow: bool)
    ensures
        toks_view(final(out)@) == toks_view(old(out)@) + ref_init(f@, cow),
{
    let ghost start = toks_view(out@);
    push_name(out, f);
    push_alone(out, ':');
    if cow {
        push_cow_path(out);
        push_colon2(out);
        push_ident(out, "Borrowed");
        let mut inner: Vec<Tok> = Vec::new();
        push_alone(&mut inner, '&');
        push_ident(&mut inner, "x");
        push_alone(&mut inner, '.');
        push_name(&mut inner, f);
        assert(toks_view(inner@) =~= seq![alone('&'), ident("x"@), alone('.'), ident(f@)]);
        push_group(out, Delim::Paren, inner);
        push_alone(out, ',');
    } else {
        push_alone(out, '&');
        push_ident(out, "x");
        push_alone(out, '.');
        push_name(out, f);
        push_alone(out, ',');
    }
    assert(toks_view(out@) =~= start + ref_init(f@, cow));
}

fn push_empty_parens(out: &mut Vec<Tok>)
    ensures
        toks_view(final(out)@) == toks_view(old(out)@) + seq![TokV::Group(Delim::Paren, seq![])],
{
    let inner: Vec<Tok> = Vec::new();
    assert(toks_view(inner@) =~= Seq::<TokV>::empty());
    push_group(out, Delim::Paren, inner);
}

fn push_clone_init(out: &mut Vec<Tok>, f: &String)
    ensures
        toks_view(final(out)@) == toks_view(old(out)@) + clone_init(f@),
{
    let ghost start = toks_view(out@);
    push_name(out, f);
    push_alone(out, ':');
    push_ident(out, "x");
    push_alone(out, '.');
    push_name(out, f);
    push_alone(out, '.');
    push_ident(out, "clone");
    push_empty_parens(out);
    push_alone(out, ',');
    assert(toks_view(out@) =~= start + clone_init(f@));
}

fn push_merge_init(out: &mut Vec<Tok>, f: &String, k: FieldKind)
    ensures
        toks_view(final(out)@) == toks_view(old(out)@) + merge_init(f@, k),
{
    let ghost start = toks_view(out@);
    push_name(out, f);
    push_alone(out, ':');
    match k {
        FieldKind::Ref => {
            push_ident(out, "self");
            push_alone(out, '.');
            push_name(out, f);
            push_alone(out, '.');
            push_ident(out, "into_owned");
            push_empty_parens(out);
        },
        FieldKind::Clone => {
            push_ident(out, "self");
            push_alone(out, '.');
            push_name(out, f);
        },
        FieldKind::Ignored => {
            push_ident(out, "ignored");
            push_alone(out, '.');
            push_name(out, f);
        },
    }
    push_alone(out, ',');
    assert(toks_view(out@) =~= start + merge_init(f@, k));
}

/// The kind of the field named `f`.
pub fn field_kind(args: &Args, f: &String) -> (k: FieldKind)
    ensures
        k == kind_of(args@, f@),
{
    if contains_text(&args.ignore, f) {
        FieldKind::Ignored
    } else if contains_text(&args.clone, f) {
        FieldKind::Clone
    } else {
        FieldKind::Ref
    }
}

fn push_piece(out: &mut Vec<Tok>, args: &Args, info: &StructInfo, p: Piece, i: usize)
    requires
        info.wf(),
        i < info.field_names@.len(),
    ensures
        toks_view(final(out)@) == toks_view(old(out)@) + piece(args@, info@, p, i as int),
{
    let f = &info.field_names[i];
    let ty = &info.field_types[i];
    let cow = args.use_cow || args.ignore_struct_args.is_some();
    let k = field_kind(args, f);
    assert(info@.field_names[i as int] == f@);
    assert(info@.field_types[i as int] == toks_view(ty@));
    match p {
        Piece::RefDef => {
            if k == FieldKind::Ref {
                push_ref_def(out, f, ty, cow);
            } else {
                assert(toks_view(out@) =~= toks_view(out@) + Seq::<TokV>::empty());
            }
        },
        Piece::CloneDef => {
            if k == FieldKind::Clone {
                push_typed_def(out, f, ty);
            } else {
                assert(toks_view(out@) =~= toks_view(out@) + Seq::<TokV>::empty());
            }
        },
        Piece::RefInit => {
            if k == FieldKind::Ref {
                push_ref_init(out, f, cow);
            } else {
                assert(toks_view(out@) =~= toks_view(out@) + Seq::<TokV>::empty());
            }
        },
        Piece::CloneInit => {
            if k == FieldKind::Clone {
                push_clone_init(out, f);
            } else {
                assert(toks_view(out@) =~= toks_view(out@) + Seq::<TokV>::empty());
            }
        },
        Piece::IgnoreDef => {
            if k == FieldKind::Ignored {
                push_typed_def(out, f, ty);
            } else {
                assert(toks_view(out@) =~= toks_view(out@) + Seq::<TokV>::empty());
            }
        },
        Piece::MergeInit => {
            push_merge_init(out, f, k);
        },
    }
}

fn push_gather(out: &mut Vec<Tok>, args: &Args, info: &StructInfo, p: Piece)
    requires
        info.wf(),
    ensures
        toks_view(final(out)@) == toks_view(old(out)@) + gather(args@, info@, p, nfields(info@)),
{
    let ghost start = toks_view(out@);
    let n = info.field_names.len();
    let mut i: usize = 0;
    assert(start =~= start + Seq::<TokV>::empty());
    while i < n
        invariant
            info.wf(),
            n == info.field_names@.len(),
            i <= n,
            toks_view(out@) == start + gather(args@, info@, p, i as int),
        decreases n - i,
    {
        push_piece(out, args, info, p, i);
        assert(toks_view(out@) =~= start + gather(args@, info@, p, i + 1));
        i = i + 1;
    }
}

fn push_derive_attr(out: &mut Vec<Tok>, ds: &Vec<Vec<Tok>>)
    ensures
        toks_view(final(out)@) == toks_view(old(out)@) + derive_attr(
            crate::args::paths_view(ds@),
        ),
{
    let ghost dv = crate::args::paths_view(ds@);
    let mut list: Vec<Tok> = Vec::new();
    let mut i: usize = 0;
    assert(toks_view(list@) =~= Seq::<TokV>::empty());
    while i < ds.len()
        invariant
            dv == crate::args::paths_view(ds@),
            i <= ds@.len(),
            toks_view(list@) == derive_list(dv, i as int),
        decreases ds@.len() - i,
    {
        push_toks(&mut list, &ds[i]);
        push_alone(&mut list, ',');
        assert(toks_view(list@) =~= derive_list(dv, i + 1));
        i = i + 1;
    }
    let mut bracket: Vec<Tok> = Vec::new();
    push_ident(&mut bracket, "derive");
    push_group(&mut bracket, Delim::Paren, list);
    let ghost start = toks_view(out@);
    push_alone(out, '#');
    assert(toks_view(bracket@) =~= seq![
        ident("derive"@),
        TokV::Group(Delim::Paren, derive_list(dv, dv.len() as int)),
    ]);
    push_group(out, Delim::Bracket, bracket);
    assert(toks_view(out@) =~= start + derive_attr(dv));
}

fn push_vis(out: &mut Vec<Tok>, is_pub: bool)
    ensures
        toks_view(final(out)@) == toks_view(old(out)@) + vis(is_pub),
{
    if is_pub {
        push_ident(out, "pub");
    } else {
        assert(toks_view(out@) =~= toks_view(out@) + Seq::<TokV>::empty());
    }
}

/// The name `n` without the `r#` of a raw identifier.
fn unraw_str(n: &String) -> (r: &str)
    ensures
        r@ == unraw(n@),
{
    let s = n.as_str();
    let len = s.unicode_len();
    if len >= 2 && s.get_char(0) == 'r' && s.get_char(1) == '#' {
        s.substring_char(2, len)
    } else {
        s
    }
}

fn push_out_name(out: &mut Vec<Tok>, args: &Args, info: &StructInfo)
    ensures
        toks_view(final(out)@) == toks_view(old(out)@) + seq![ident(out_name(args@, info@))],
{
    match &args.name {
        Some(n) => push_name(out, n),
        None => {
            let mut s = String::new();
            s.append("Ref");
            s.append(unraw_str(&info.name));
            push_tok(out, Tok::Ident(s));
        },
    }
}

fn push_ignore_name(out: &mut Vec<Tok>, ia: &IgnoreArgs, info: &StructInfo)
    ensures
        toks_view(final(out)@) == toks_view(old(out)@) + seq![ident(ignore_name(ia@, info@))],
{
    match &ia.name {
        Some(n) => push_name(out, n),
        None => {
            let mut s = String::new();
            s.append("Ignore");
            s.append(unraw_str(&info.name));
            push_tok(out, Tok::Ident(s));
        },
    }
}

fn push_out_struct(out: &mut Vec<Tok>, args: &Args, info: &StructInfo)
    requires
        info.wf(),
    ensures
        toks_view(final(out)@) == toks_view(old(out)@) + out_struct(args@, info@),
{
    let ghost start = toks_view(out@);
    push_derive_attr(out, &args.derive);
    push_vis(out, args.is_pub);
    push_ident(out, "struct");
    push_out_name(out, args, info);
    push_generics_x(out);
    let mut fields: Vec<Tok> = Vec::new();
    let ghost e = toks_view(fields@);
    assert(e =~= Seq::<TokV>::empty());
    push_gather(&mut fields, args, info, Piece::RefDef);
    push_gather(&mut fields, args, info, Piece::CloneDef);
    assert(toks_view(fields@) =~= gather(args@, info@, Piece::RefDef, nfields(info@)) + gather(
        args@,
        info@,
        Piece::CloneDef,
        nfields(info@),
    ));
    push_group(out, Delim::Brace, fields);
    assert(toks_view(out@) =~= start + out_struct(args@, info@));
}

fn push_impl_head(out: &mut Vec<Tok>, args: &Args, info: &StructInfo)
    ensures
        toks_view(final(out)@) == toks_view(old(out)@) + impl_head(args@, info@),
{
    let ghost start = toks_view(out@);
    push_ident(out, "impl");
    push_generics_x(out);
    push_out_name(out, args, info);
    push_generics_x(out);
    assert(toks_view(out@) =~= start + impl_head(args@, info@));
}

fn push_new_impl(out: &mut Vec<Tok>, args: &Args, info: &StructInfo)
    requires
        info.wf(),
    ensures
        toks_view(final(out)@) == toks_view(old(out)@) + new_impl(args@, info@),
{
    let ghost start = toks_view(out@);
    push_impl_head(out, args, info);
    let mut inits: Vec<Tok> = Vec::new();
    assert(toks_view(inits@) =~= Seq::<TokV>::empty());
    push_gather(&mut inits, args, info, Piece::RefInit);
    push_gather(&mut inits, args, info, Piece::CloneInit);
    assert(toks_view(inits@) =~= gather(args@, info@, Piece::RefInit, nfields(info@)) + gather(
        args@,
        info@,
        Piece::CloneInit,
        nfields(info@),
    ));
    let mut body: Vec<Tok> = Vec::new();
    push_ident(&mut body, "Self");
    push_group(&mut body, Delim::Brace, inits);
    assert(toks_view(body@) =~= new_body(args@, info@));
    let mut params: Vec<Tok> = Vec::new();
    push_ident(&mut params, "x");
    push_alone(&mut params, ':');
    push_alone(&mut params, '&');
    push_lifetime_x(&mut params);
    push_name(&mut params, &info.name);
    assert(toks_view(params@) =~= seq![ident("x"@), alone(':'), alone('&')] + lifetime_x() + seq![
        ident(info@.name),
    ]);
    let mut block: Vec<Tok> = Vec::new();
    push_ident(&mut block, "pub");
    push_ident(&mut block, "fn");
    push_ident(&mut block, "new");
    push_group(&mut block, Delim::Paren, params);
    push_joint(&mut block, '-');
    push_alone(&mut block, '>');
    push_ident(&mut block, "Self");
    let ghost bodyv = toks_view(body@);
    let ghost paramsv = toks_view(params@);
    push_group(&mut block, Delim::Brace, body);
    assert(toks_view(block@) =~= seq![
        ident("pub"@),
        ident("fn"@),
        ident("new"@),
        TokV::Group(Delim::Paren, paramsv),
        joint('-'),
        alone('>'),
        ident("Self"@),
        TokV::Group(Delim::Brace, bodyv),
    ]);
    push_group(out, Delim::Brace, block);
    assert(toks_view(out@) =~= start + new_impl(args@, info@));
}

fn push_ignore_struct(out: &mut Vec<Tok>, args: &Args, ia: &IgnoreArgs, info: &StructInfo)
    requires
        info.wf(),
    ensures
        toks_view(final(out)@) == toks_view(old(out)@) + ignore_struct(args@, ia@, info@),
{
    let ghost start = toks_view(out@);
    push_derive_attr(out, &ia.derive);
    push_vis(out, args.is_pub);
    push_ident(out, "struct");
    push_ignore_name(out, ia, info);
    let mut fields: Vec<Tok> = Vec::new();
    assert(toks_view(fields@) =~= Seq::<TokV>::empty());
    push_gather(&mut fields, args, info, Piece::IgnoreDef);
    assert(toks_view(fields@) =~= gather(args@, info@, Piece::IgnoreDef, nfields(info@)));
    push_group(out, Delim::Brace, fields);
    assert(toks_view(out@) =~= start + ignore_struct(args@, ia@, info@));
}

fn push_merge_impl(out: &mut Vec<Tok>, args: &Args, ia: &IgnoreArgs, info: &StructInfo)
    requires
        info.wf(),
    ensures
        toks_view(final(out)@) == toks_view(old(out)@) + merge_impl(args@, ia@, info@),
{
    let ghost start = toks_view(out@);
    push_impl_head(out, args, info);
    let mut inits: Vec<Tok> = Vec::new();
    assert(toks_view(inits@) =~= Seq::<TokV>::empty());
    push_gather(&mut inits, args, info, Piece::MergeInit);
    assert(toks_view(inits@) =~= gather(args@, info@, Piece::MergeInit, nfields(info@)));
    let mut body: Vec<Tok> = Vec::new();
    push_name(&mut body, &info.name);
    push_group(&mut body, Delim::Brace, inits);
    let mut params: Vec<Tok> = Vec::new();
    push_ident(&mut params, "self");
    push_alone(&mut params, ',');
    push_ident(&mut params, "ignored");
    push_alone(&mut params, ':');
    push_ignore_name(&mut params, ia, info);
    let mut block: Vec<Tok> = Vec::new();
    push_ident(&mut block, "pub");
    push_ident(&mut block, "fn");
    push_ident(&mut block, "merge");
    push_group(&mut block, Delim::Paren, params);
    push_joint(&mut block, '-');
    push_alone(&mut block, '>');
    push_name(&mut block, &info.name);
    let ghost bodyv = toks_view(body@);
    let ghost paramsv = toks_view(params@);
    assert(paramsv =~= seq![
        ident("self"@),
        alone(','),
        ident("ignored"@),
        alone(':'),
        ident(ignore_name(ia@, info@)),
    ]);
    assert(bodyv =~= seq![
        ident(info@.name),
        TokV::Group(Delim::Brace, gather(args@, info@, Piece::MergeInit, nfields(info@))),
    ]);
    push_group(&mut block, Delim::Brace, body);
    assert(toks_view(block@) =~= seq![
        ident("pub"@),
        ident("fn"@),
        ident("merge"@),
        TokV::Group(Delim::Paren, paramsv),
        joint('-'),
        alone('>'),
        ident(info@.name),
        TokV::Group(Delim::Brace, bodyv),
    ]);
    push_group(out, Delim::Brace, block);
    assert(toks_view(out@) =~= start + merge_impl(args@, ia@, info@));
}

/// The code that the attribute writes for `item`, read as `info`, with the arguments `args`.
pub fn expand(args: &Args, info: &StructInfo, item: &Vec<Tok>) -> (out: Vec<Tok>)
    requires
        info.wf(),
    ensures
        toks_view(out@) == expansion(args@, info@, toks_view(item@)),
{
    let mut out: Vec<Tok> = Vec::new();
    assert(toks_view(out@) =~= Seq::<TokV>::empty());
    push_toks(&mut out, item);
    push_out_struct(&mut out, args, info);
    push_new_impl(&mut out, args, info);
    let ghost mid = toks_view(out@);
    match &args.ignore_struct_args {
        Some(ia) => {
            push_ignore_struct(&mut out, args, ia, info);
            push_merge_impl(&mut out, args, ia, info);
        },
        None => {},
    }
    assert(toks_view(out@) =~= expansion(args@, info@, toks_view(item@)));
    out
}

} // verus!
