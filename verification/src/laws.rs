//! Properties of the library as a whole.
use vstd::prelude::*;
use crate::tokens::TokV;
use crate::general::{
    dedup, first_repeat, spec_parens, spec_punctuated, Cmd, CmdScope, ErrV, NamedList, Parse, RepeatAllowStd,
    UnnamedIdents,
};
use crate::args::{spec_args_step, ArgsState, ArgsV, GroupReads, IgnoreArgsV, Reads};
use crate::struct_info::{
    field_text, fields_fit_text, fields_text, input_fits_text, no_brace, plain_item_text,
    spec_struct_info, DataV, DeriveInputV, FieldV,
};
use crate::args::{fits_derive, paths_text, plain_path_text};
use crate::tokens::{render_seq, unblanked};
use crate::struct_info::StructInfoV;
use crate::expand::{
    gather, ident, ignore_name, unraw, kind_of, merge_init, out_name, piece, ref_def, uses_cow, FieldKind,
    Piece,
};
use crate::spec_ref_struct;
use crate::expand::{
    derive_list, expansion, ignore_struct, impl_head, joint, new_impl, nfields, out_struct, vis,
};
use crate::general::spec_comma;
use crate::tokens::Delim;

verus! {

/// The item itself stands unchanged at the start of what the attribute writes.
pub proof fn law_item_kept(
    args: Seq<TokV>,
    item: Seq<TokV>,
    rd: Reads,
    ird: GroupReads,
    d: Option<DeriveInputV>,
    out: Seq<TokV>,
)
    requires
        spec_ref_struct(args, item, rd, ird, d) == Ok::<Seq<TokV>, crate::RefStructErrorV>(out),
    ensures
        item.len() <= out.len(),
        out.subrange(0, item.len() as int) == item,
{
    assert(out.subrange(0, item.len() as int) =~= item);
}

/// Every field of the item lands in exactly one of the three places: the references (or
/// `Cow`s), the clones, and the ignored fields.
pub proof fn law_each_field_in_one_place(a: ArgsV, info: StructInfoV, i: int)
    requires
        0 <= i < info.field_names.len(),
        info.field_names.len() == info.field_types.len(),
    ensures
        (piece(a, info, Piece::RefDef, i).len() > 0) as int + (piece(
            a,
            info,
            Piece::CloneDef,
            i,
        ).len() > 0) as int + (piece(a, info, Piece::IgnoreDef, i).len() > 0) as int == 1,
        piece(a, info, Piece::RefDef, i).len() > 0 <==> piece(a, info, Piece::RefInit, i).len()
            > 0,
        piece(a, info, Piece::CloneDef, i).len() > 0 <==> piece(a, info, Piece::CloneInit, i).len()
            > 0,
{
}

/// A field named both in `ignore(..)` and in `clone(..)` is ignored.
pub proof fn law_ignore_wins(a: ArgsV, f: Seq<char>)
    requires
        a.ignore.contains(f),
    ensures
        kind_of(a, f) == FieldKind::Ignored,
{
}

/// A field named in `clone(..)` and not in `ignore(..)` is cloned, and any other field that
/// `ignore(..)` does not name is referenced.
pub proof fn law_clone_and_ref(a: ArgsV, f: Seq<char>)
    requires
        !a.ignore.contains(f),
    ensures
        a.clone.contains(f) ==> kind_of(a, f) == FieldKind::Clone,
        !a.clone.contains(f) ==> kind_of(a, f) == FieldKind::Ref,
{
}

/// Without `name(..)` the struct of references is named `Ref` and the item's name; without
/// `ignore_struct(name(..))` the struct of ignored fields is named `Ignore` and the item's name;
/// the `r#` of a raw identifier is dropped from the item's name there.
pub proof fn law_default_names(a: ArgsV, ia: IgnoreArgsV, info: StructInfoV)
    ensures
        a.name is None ==> out_name(a, info) == "Ref"@ + unraw(info.name),
        a.name matches Some(n) ==> out_name(a, info) == n,
        ia.name is None ==> ignore_name(ia, info) == "Ignore"@ + unraw(info.name),
        ia.name matches Some(n) ==> ignore_name(ia, info) == n,
{
}

/// `ignore_struct(..)` implies `use_cow`: each referenced field is held as a `Cow`.
pub proof fn law_ignore_struct_implies_cow(a: ArgsV, info: StructInfoV, i: int)
    requires
        a.ignore_struct_args is Some,
        0 <= i < info.field_names.len(),
        kind_of(a, info.field_names[i]) == FieldKind::Ref,
    ensures
        uses_cow(a),
        piece(a, info, Piece::RefDef, i) == ref_def(
            info.field_names[i],
            info.field_types[i],
            true,
        ),
{
}

/// `merge` gives every field of the item, in the item's order, an initializer that takes the
/// field from the ignored struct exactly when the field is ignored.
pub proof fn law_merge_takes_every_field(a: ArgsV, info: StructInfoV, i: int)
    requires
        0 <= i < info.field_names.len(),
    ensures
        piece(a, info, Piece::MergeInit, i) == merge_init(
            info.field_names[i],
            kind_of(a, info.field_names[i]),
        ),
        piece(a, info, Piece::MergeInit, i)[0] == ident(info.field_names[i]),
        piece(a, info, Piece::MergeInit, i)[2] == ident(
            if kind_of(a, info.field_names[i]) == FieldKind::Ignored {
                "ignored"@
            } else {
                "self"@
            },
        ),
{
}

/// Each per-field part holds the parts of the fields in the item's order: the part over the
/// first `n + 1` fields is the part over the first `n` followed by field `n`'s.
pub proof fn law_fields_in_order(a: ArgsV, info: StructInfoV, p: Piece, n: int)
    requires
        0 <= n,
    ensures
        gather(a, info, p, n + 1) == gather(a, info, p, n) + piece(a, info, p, n),
{
}

/// `name(..)`, `clone(..)`, `ignore(..)` and `ignore_struct(..)` may each stand once: a
/// second one is refused.
pub proof fn law_once_only(s: Seq<TokV>, j: int, st: ArgsState, rd: Reads, ird: GroupReads)
    ensures
        st.ignore is Some ==> spec_args_step(s, j, "ignore"@, st, rd, ird) is Err,
        st.clone is Some ==> spec_args_step(s, j, "clone"@, st, rd, ird) is Err,
        st.name is Some ==> spec_args_step(s, j, "name"@, st, rd, ird) is Err,
        st.ignore_struct_args is Some ==> spec_args_step(s, j, "ignore_struct"@, st, rd, ird) == Err::<
            (ArgsState, int),
            ErrV,
        >(ErrV::Twiced(Cmd::IgnoreStruct)),
{
    reveal_strlit("ignore");
    reveal_strlit("clone");
    reveal_strlit("name");
    reveal_strlit("derive");
    reveal_strlit("public");
    reveal_strlit("use_cow");
    reveal_strlit("ignore_struct");
    assert("ignore"@[0] != "derive"@[0]);
    assert("ignore"@[0] != "public"@[0]);
    assert("ignore"@.len() != "use_cow"@.len());
    assert("clone"@.len() != "derive"@.len());
    assert("clone"@.len() != "public"@.len());
    assert("clone"@.len() != "use_cow"@.len());
    assert("clone"@.len() != "ignore"@.len());
    assert("name"@.len() != "derive"@.len());
    assert("name"@.len() != "public"@.len());
    assert("name"@.len() != "use_cow"@.len());
    assert("name"@.len() != "ignore"@.len());
    assert("name"@.len() != "clone"@.len());
    assert("ignore_struct"@.len() != "derive"@.len());
    assert("ignore_struct"@.len() != "public"@.len());
    assert("ignore_struct"@.len() != "use_cow"@.len());
    assert("ignore_struct"@.len() != "ignore"@.len());
    assert("ignore_struct"@.len() != "clone"@.len());
    assert("ignore_struct"@.len() != "name"@.len());
}

/// `public` and `use_cow` may stand any number of times; each sets its flag and reads nothing
/// more.
pub proof fn law_flags_repeat(s: Seq<TokV>, j: int, st: ArgsState, rd: Reads, ird: GroupReads)
    ensures
        spec_args_step(s, j, "public"@, st, rd, ird) == Ok::<(ArgsState, int), ErrV>(
            (ArgsState { is_pub: true, ..st }, j),
        ),
        spec_args_step(s, j, "use_cow"@, st, rd, ird) == Ok::<(ArgsState, int), ErrV>(
            (ArgsState { use_cow: true, ..st }, j),
        ),
{
    reveal_strlit("derive");
    reveal_strlit("public");
    reveal_strlit("use_cow");
    assert("public"@[0] != "derive"@[0]);
    assert("use_cow"@.len() != "derive"@.len());
    assert("use_cow"@.len() != "public"@.len());
}

/// `derive(..)` may stand any number of times: each adds the paths that `syn` read from its
/// group after the earlier ones, and a group that `syn` refuses is refused with its message.
pub proof fn law_derives_accumulate(s: Seq<TokV>, j: int, st: ArgsState, rd: Reads, ird: GroupReads)
    ensures
        spec_args_step(s, j, "derive"@, st, rd, ird) matches Ok((st2, _)) ==> (rd(j) matches Ok(ps)
            && st2.derive == st.derive + ps),
        spec_parens(s, j) is Ok ==> (rd(j) matches Err(m) ==> spec_args_step(s, j, "derive"@, st, rd, ird)
            == Err::<(ArgsState, int), ErrV>(ErrV::Paths(m))),
{
}

/// A word that names no command is refused.
pub proof fn law_unknown_command(s: Seq<TokV>, j: int, w: Seq<char>, st: ArgsState, rd: Reads, ird: GroupReads)
    requires
        w != "derive"@,
        w != "public"@,
        w != "use_cow"@,
        w != "ignore"@,
        w != "clone"@,
        w != "name"@,
        w != "ignore_struct"@,
    ensures
        spec_args_step(s, j, w, st, rd, ird) == Err::<(ArgsState, int), ErrV>(ErrV::UnknownCmd(CmdScope::Args)),
{
}

/// A list of identifiers names each thing once: a list that names something twice is refused,
/// and an accepted list holds no repeat.
pub proof fn law_no_repeats(s: Seq<TokV>, i: int)
    ensures
        UnnamedIdents::<RepeatAllowStd>::spec_parse(s, i) matches Ok((m, _)) ==> (forall|
            x: int,
            y: int,
        | 0 <= x < y < m.len() ==> m[x] != m[y]),
{
    if let Ok((m, _)) = UnnamedIdents::<RepeatAllowStd>::spec_parse(s, i) {
        let c = spec_parens(s, i)->Ok_0.0;
        let l = spec_punctuated::<String>(c, 0)->Ok_0;
        lemma_dedup_distinct(l, l.len() as int);
    }
}

/// No named list is ever read: reading one goes on through identifiers until it fails.
pub proof fn law_named_list_never_read(s: Seq<TokV>, i: int)
    ensures
        NamedList::<String>::spec_parse(s, i) is Err,
{
}

/// Only what `clone(..)` and `ignore(..)` say of the item's own fields matters: arguments that
/// agree on everything else, and on which of the item's field names each of the two lists
/// holds, give the same expansion; names of no field have no effect.
pub proof fn law_only_field_names_matter(a: ArgsV, b: ArgsV, info: StructInfoV, item: Seq<TokV>)
    requires
        a.name == b.name,
        a.derive == b.derive,
        a.is_pub == b.is_pub,
        a.use_cow == b.use_cow,
        a.ignore_struct_args == b.ignore_struct_args,
        forall|i: int|
            0 <= i < info.field_names.len() ==> (a.clone.contains(#[trigger] info.field_names[i])
                == b.clone.contains(info.field_names[i]) && a.ignore.contains(info.field_names[i])
                == b.ignore.contains(info.field_names[i])),
    ensures
        expansion(a, info, item) == expansion(b, info, item),
{
    assert forall|p: Piece| gather(a, info, p, info.field_names.len() as int) == gather(
        b,
        info,
        p,
        info.field_names.len() as int,
    ) by {
        lemma_gather_agrees(a, b, info, p, info.field_names.len() as int);
    }
}

proof fn lemma_gather_agrees(a: ArgsV, b: ArgsV, info: StructInfoV, p: Piece, n: int)
    requires
        0 <= n <= info.field_names.len(),
        a.use_cow == b.use_cow,
        a.ignore_struct_args == b.ignore_struct_args,
        forall|i: int|
            0 <= i < info.field_names.len() ==> (a.clone.contains(#[trigger] info.field_names[i])
                == b.clone.contains(info.field_names[i]) && a.ignore.contains(info.field_names[i])
                == b.ignore.contains(info.field_names[i])),
    ensures
        gather(a, info, p, n) == gather(b, info, p, n),
    decreases n,
{
    if n > 0 {
        lemma_gather_agrees(a, b, info, p, n - 1);
        let f = info.field_names[n - 1];
        assert(kind_of(a, f) == kind_of(b, f));
        assert(piece(a, info, p, n - 1) == piece(b, info, p, n - 1));
    }
}

proof fn lemma_dedup_distinct(l: Seq<Seq<char>>, n: int)
    ensures
        forall|x: int, y: int|
            0 <= x < y < dedup(l, n).len() ==> dedup(l, n)[x] != dedup(l, n)[y],
    decreases n,
{
    if n > 0 {
        lemma_dedup_distinct(l, n - 1);
        let d = dedup(l, n - 1);
        if !d.contains(l[n - 1]) {
            let e = d.push(l[n - 1]);
            assert forall|x: int, y: int| 0 <= x < y < e.len() implies e[x] != e[y] by {
                if y == d.len() {
                    assert(e[x] == d[x]);
                    if d[x] == l[n - 1] {
                        assert(d.contains(l[n - 1]));
                    }
                } else {
                    assert(e[x] == d[x]);
                    assert(e[y] == d[y]);
                }
            }
        }
    }
}

/// `small` stands somewhere in `big`, as a run of consecutive trees.
pub open spec fn occurs(big: Seq<TokV>, small: Seq<TokV>) -> bool {
    exists|p: int| 0 <= p && p + small.len() <= big.len() && #[trigger] big.subrange(p, p + small.len()) == small
}

/// `f: std::borrow::Cow<'x, T>,`, written out.
pub open spec fn cow_field(f: Seq<char>, ty: Seq<TokV>) -> Seq<TokV> {
    seq![
        TokV::Ident(f),
        alone_tok(':'),
        TokV::Ident("std"@),
        TokV::Punct(':', crate::tokens::Spacing::Joint),
        alone_tok(':'),
        TokV::Ident("borrow"@),
        TokV::Punct(':', crate::tokens::Spacing::Joint),
        alone_tok(':'),
        TokV::Ident("Cow"@),
        alone_tok('<'),
        TokV::Punct('\'', crate::tokens::Spacing::Joint),
        TokV::Ident("x"@),
        alone_tok(','),
    ] + ty + seq![alone_tok('>'), alone_tok(',')]
}

/// `f: &'x T,`, written out.
pub open spec fn borrowed_field(f: Seq<char>, ty: Seq<TokV>) -> Seq<TokV> {
    seq![
        TokV::Ident(f),
        alone_tok(':'),
        alone_tok('&'),
        TokV::Punct('\'', crate::tokens::Spacing::Joint),
        TokV::Ident("x"@),
    ] + ty + seq![alone_tok(',')]
}

/// `f: std::borrow::Cow::Borrowed(&x.f),`, written out.
pub open spec fn cow_init(f: Seq<char>) -> Seq<TokV> {
    seq![
        TokV::Ident(f),
        alone_tok(':'),
        TokV::Ident("std"@),
        TokV::Punct(':', crate::tokens::Spacing::Joint),
        alone_tok(':'),
        TokV::Ident("borrow"@),
        TokV::Punct(':', crate::tokens::Spacing::Joint),
        alone_tok(':'),
        TokV::Ident("Cow"@),
        TokV::Punct(':', crate::tokens::Spacing::Joint),
        alone_tok(':'),
        TokV::Ident("Borrowed"@),
        TokV::Group(
            Delim::Paren,
            seq![alone_tok('&'), TokV::Ident("x"@), alone_tok('.'), TokV::Ident(f)],
        ),
        alone_tok(','),
    ]
}

/// `f: &x.f,`, written out.
pub open spec fn borrowed_init(f: Seq<char>) -> Seq<TokV> {
    seq![
        TokV::Ident(f),
        alone_tok(':'),
        alone_tok('&'),
        TokV::Ident("x"@),
        alone_tok('.'),
        TokV::Ident(f),
        alone_tok(','),
    ]
}

/// The initializers in a tree `{ .. { Self { inits } } }` at position `k`, as `new`'s body has
/// them, if the tree there has that shape.
pub open spec fn inits_of(out: Seq<TokV>, k: int) -> Option<Seq<TokV>> {
    if 0 <= k < out.len() {
        match out[k] {
            TokV::Group(Delim::Brace, g) => if g.len() > 0 {
                match g[g.len() - 1] {
                    TokV::Group(Delim::Brace, nb) => if nb.len() == 2 {
                        match nb[1] {
                            TokV::Group(Delim::Brace, inits) => Some(inits),
                            _ => None,
                        }
                    } else {
                        None
                    },
                    _ => None,
                }
            } else {
                None
            },
            _ => None,
        }
    } else {
        None
    }
}

/// A punctuation character that stands alone.
pub open spec fn alone_tok(c: char) -> TokV {
    TokV::Punct(c, crate::tokens::Spacing::Alone)
}

/// The part over the first `m` fields begins the part over the first `n`, for `m <= n`.
proof fn lemma_gather_prefix(a: ArgsV, info: StructInfoV, p: Piece, m: int, n: int)
    requires
        0 <= m <= n,
    ensures
        gather(a, info, p, m).len() <= gather(a, info, p, n).len(),
        gather(a, info, p, n).subrange(0, gather(a, info, p, m).len() as int) == gather(a, info, p, m),
    decreases n,
{
    if m < n {
        lemma_gather_prefix(a, info, p, m, n - 1);
        let g = gather(a, info, p, n - 1);
        assert(gather(a, info, p, n).subrange(0, g.len() as int) =~= g);
        assert(gather(a, info, p, n).subrange(0, gather(a, info, p, m).len() as int) =~= g.subrange(
            0,
            gather(a, info, p, m).len() as int,
        ));
    } else {
        assert(gather(a, info, p, n).subrange(0, gather(a, info, p, n).len() as int) =~= gather(
            a,
            info,
            p,
            n,
        ));
    }
}

/// Field `i`'s part stands in the part over the first `n` fields, for `i < n`, and so in
/// anything that begins with that part.
proof fn lemma_piece_occurs(a: ArgsV, info: StructInfoV, p: Piece, i: int, n: int, rest: Seq<TokV>)
    requires
        0 <= i < n,
    ensures
        occurs(gather(a, info, p, n) + rest, piece(a, info, p, i)),
{
    lemma_gather_prefix(a, info, p, i + 1, n);
    let g = gather(a, info, p, n) + rest;
    let at = gather(a, info, p, i).len() as int;
    let pc = piece(a, info, p, i);
    assert(gather(a, info, p, i + 1) == gather(a, info, p, i) + pc);
    assert(g.subrange(at, at + pc.len()) =~= pc) by {
        assert forall|t: int| 0 <= t < pc.len() implies g[at + t] == pc[t] by {
            assert(gather(a, info, p, n)[at + t] == gather(a, info, p, i + 1)[at + t]);
        }
    }
}

/// With `use_cow`, or with `ignore_struct(..)`, which implies it, every referenced field is held
/// as `std::borrow::Cow<'x, T>`, whatever its type `T`, and `new` sets it to
/// `std::borrow::Cow::Borrowed(&x.f)`; without either, it is held as `&'x T` and `new` sets it to
/// `&x.f`. Both stand in the written code: the definition in the braces of the struct of
/// references, the initializer in the braces of `Self { .. }` in `new`.
pub proof fn law_referenced_field_is_cow_with_use_cow(a: ArgsV, info: StructInfoV, item: Seq<TokV>, i: int)
    requires
        0 <= i < info.field_names.len(),
        info.field_names.len() == info.field_types.len(),
        !a.ignore.contains(info.field_names[i]),
        !a.clone.contains(info.field_names[i]),
    ensures
        ({
            let out = expansion(a, info, item);
            let f = info.field_names[i];
            let ty = info.field_types[i];
            let cow = a.use_cow || a.ignore_struct_args is Some;
            exists|k: int|
                #[trigger] out[k] matches TokV::Group(Delim::Brace, body) && 0 <= k < out.len() && occurs(
                    body,
                    if cow {
                        cow_field(f, ty)
                    } else {
                        borrowed_field(f, ty)
                    },
                )
        }),
        ({
            let out = expansion(a, info, item);
            let f = info.field_names[i];
            let cow = a.use_cow || a.ignore_struct_args is Some;
            exists|k: int|
                #[trigger] inits_of(out, k) matches Some(inits) && occurs(
                    inits,
                    if cow {
                        cow_init(f)
                    } else {
                        borrowed_init(f)
                    },
                )
        }),
{
    let out = expansion(a, info, item);
    let f = info.field_names[i];
    let ty = info.field_types[i];
    let n = nfields(info);
    let cow = a.use_cow || a.ignore_struct_args is Some;
    reveal_strlit("std");
    reveal_strlit("borrow");
    reveal_strlit("Cow");
    reveal_strlit("Borrowed");
    reveal_strlit("x");
    let defs = gather(a, info, Piece::RefDef, n);
    let clones = gather(a, info, Piece::CloneDef, n);
    lemma_piece_occurs(a, info, Piece::RefDef, i, n, clones);
    assert(piece(a, info, Piece::RefDef, i) =~= (if cow {
        cow_field(f, ty)
    } else {
        borrowed_field(f, ty)
    }));
    let os = out_struct(a, info);
    let k1 = item.len() + os.len() - 1;
    assert(out[k1] == os[os.len() - 1]);
    assert(os[os.len() - 1] == TokV::Group(Delim::Brace, defs + clones));
    let inits = gather(a, info, Piece::RefInit, n);
    let cinits = gather(a, info, Piece::CloneInit, n);
    lemma_piece_occurs(a, info, Piece::RefInit, i, n, cinits);
    assert(piece(a, info, Piece::RefInit, i) =~= (if cow {
        cow_init(f)
    } else {
        borrowed_init(f)
    }));
    let ni = new_impl(a, info);
    let k2 = item.len() + os.len() + ni.len() - 1;
    assert(out[k2] == ni[ni.len() - 1]);
    let expected_def = if cow {
        cow_field(f, ty)
    } else {
        borrowed_field(f, ty)
    };
    let expected_init = if cow {
        cow_init(f)
    } else {
        borrowed_init(f)
    };
    assert(occurs(defs + clones, expected_def));
    assert(out[k1] matches TokV::Group(Delim::Brace, body) && 0 <= k1 < out.len() && occurs(
        body,
        expected_def,
    ));
    assert(inits_of(out, k2) == Some(inits + cinits));
    assert(occurs(inits + cinits, expected_init));
    assert(inits_of(out, k2) matches Some(x) && occurs(x, expected_init));
}

/// The struct of ignored fields derives exactly the paths that `ignore_struct(derive(..))`
/// lists, in their order, each followed by a comma: after the struct of references and its
/// `new` stand `#[derive(D1, .., Dk,)]`, then `pub` where the arguments ask for it, then
/// `struct` and the name of the struct of ignored fields.
pub proof fn law_ignore_struct_derives_every_path(a: ArgsV, ia: IgnoreArgsV, info: StructInfoV, item: Seq<TokV>)
    requires
        a.ignore_struct_args == Some(ia),
    ensures
        ({
            let out = expansion(a, info, item);
            let v: int = if a.is_pub { 1 } else { 0 };
            exists|k: int|
                0 <= k && k + 3 + v < out.len() && #[trigger] out[k] == alone_tok('#') && out[k + 1]
                    == TokV::Group(
                    Delim::Bracket,
                    seq![
                        TokV::Ident("derive"@),
                        TokV::Group(Delim::Paren, comma_list(ia.derive)),
                    ],
                ) && out[k + 2 + v] == TokV::Ident("struct"@) && out[k + 3 + v] == TokV::Ident(
                    ignore_name(ia, info),
                )
        }),
{
    let out = expansion(a, info, item);
    let v: int = if a.is_pub { 1 } else { 0 };
    lemma_derive_list_is_comma_list(ia.derive, ia.derive.len() as int);
    assert(ia.derive.take(ia.derive.len() as int) =~= ia.derive);
    let k: int = (item.len() + out_struct(a, info).len() + new_impl(a, info).len()) as int;
    let is = ignore_struct(a, ia, info);
    assert(out[k] == is[0]);
    assert(out[k + 1] == is[1]);
    assert(out[k + 2 + v] == is[2 + v]);
    assert(out[k + 3 + v] == is[3 + v]);
}

/// Paths, each followed by a comma, from the first on.
pub open spec fn comma_list(ds: Seq<Seq<TokV>>) -> Seq<TokV>
    decreases ds.len(),
{
    if ds.len() == 0 {
        seq![]
    } else {
        ds[0] + seq![alone_tok(',')] + comma_list(ds.drop_first())
    }
}

proof fn lemma_comma_list_push(ds: Seq<Seq<TokV>>, d: Seq<TokV>)
    ensures
        comma_list(ds.push(d)) == comma_list(ds) + d + seq![alone_tok(',')],
    decreases ds.len(),
{
    if ds.len() == 0 {
        assert(ds.push(d).drop_first() =~= Seq::<Seq<TokV>>::empty());
        assert(comma_list(ds.push(d).drop_first()) == Seq::<TokV>::empty());
        assert(ds.push(d)[0] == d);
        assert(comma_list(ds) == Seq::<TokV>::empty());
        assert(comma_list(ds.push(d)) =~= comma_list(ds) + d + seq![alone_tok(',')]);
    } else {
        lemma_comma_list_push(ds.drop_first(), d);
        assert(ds.push(d).drop_first() =~= ds.drop_first().push(d));
        assert(comma_list(ds.push(d)) =~= comma_list(ds) + d + seq![alone_tok(',')]);
    }
}

proof fn lemma_derive_list_is_comma_list(ds: Seq<Seq<TokV>>, n: int)
    requires
        0 <= n <= ds.len(),
    ensures
        derive_list(ds, n) == comma_list(ds.take(n)),
    decreases n,
{
    if n == 0 {
        assert(ds.take(0) =~= Seq::<Seq<TokV>>::empty());
    } else {
        lemma_derive_list_is_comma_list(ds, n - 1);
        assert(ds.take(n) =~= ds.take(n - 1).push(ds[n - 1]));
        lemma_comma_list_push(ds.take(n - 1), ds[n - 1]);
    }
}

/// A list of identifiers that is accepted holds every identifier written in it, in the order
/// written: reading drops none.
pub proof fn law_identifier_list_whole(s: Seq<TokV>, i: int)
    ensures
        UnnamedIdents::<RepeatAllowStd>::spec_parse(s, i) matches Ok((m, _)) ==> (spec_parens(s, i) matches Ok((c, _))
            && spec_punctuated::<String>(c, 0) == Ok::<Seq<Seq<char>>, ErrV>(m)),
{
    if let Ok((m, _)) = UnnamedIdents::<RepeatAllowStd>::spec_parse(s, i) {
        let c = spec_parens(s, i)->Ok_0.0;
        let l = spec_punctuated::<String>(c, 0)->Ok_0;
        lemma_no_repeat_dedup(l, l.len() as int);
        assert(l.take(l.len() as int) =~= l);
    }
}

proof fn lemma_no_repeat_dedup(l: Seq<Seq<char>>, n: int)
    requires
        0 <= n <= l.len(),
        first_repeat(l, n) is None,
    ensures
        dedup(l, n) == l.take(n),
    decreases n,
{
    if n > 0 {
        lemma_no_repeat_dedup(l, n - 1);
        assert(l.take(n - 1) =~= l.subrange(0, n - 1));
        assert(l.take(n) =~= l.take(n - 1).push(l[n - 1]));
    }
}

/// `ignore(..)` and `clone(..)` keep their whole list: after either, the list set is exactly
/// the identifiers written in its parentheses, in order, and reading goes on after them.
pub proof fn law_lists_kept_whole(s: Seq<TokV>, j: int, st: ArgsState, rd: Reads, ird: GroupReads)
    ensures
        spec_args_step(s, j, "ignore"@, st, rd, ird) matches Ok((st2, k)) ==> (spec_parens(s, j) matches Ok((c, k2))
            && k == k2 && st2.ignore == Some(spec_punctuated::<String>(c, 0)->Ok_0)
            && spec_punctuated::<String>(c, 0) is Ok),
        spec_args_step(s, j, "clone"@, st, rd, ird) matches Ok((st2, k)) ==> (spec_parens(s, j) matches Ok((c, k2))
            && k == k2 && st2.clone == Some(spec_punctuated::<String>(c, 0)->Ok_0)
            && spec_punctuated::<String>(c, 0) is Ok),
{
    reveal_strlit("ignore");
    reveal_strlit("clone");
    reveal_strlit("derive");
    reveal_strlit("public");
    reveal_strlit("use_cow");
    assert("ignore"@[0] != "derive"@[0]);
    assert("ignore"@[0] != "public"@[0]);
    assert("ignore"@.len() != "use_cow"@.len());
    assert("clone"@.len() != "derive"@.len());
    assert("clone"@.len() != "public"@.len());
    assert("clone"@.len() != "use_cow"@.len());
    assert("clone"@.len() != "ignore"@.len());
    law_identifier_list_whole(s, j);
}

/// For a list of paths made of plain characters, `derive(..)` adds exactly the paths written in
/// it, in order: the added paths' texts, without blanks and separated by commas, spell the
/// group's text without blanks (with or without its last comma). A path is neither dropped nor
/// made up.
pub proof fn law_derive_takes_every_written_path(s: Seq<TokV>, j: int, st: ArgsState, rd: Reads, ird: GroupReads)
    requires
        fits_derive(s, j, rd(j)),
    ensures
        spec_args_step(s, j, "derive"@, st, rd, ird) matches Ok((st2, _)) ==> (spec_parens(s, j) matches Ok((c, _))
            && st2.derive.len() >= st.derive.len() && st2.derive.subrange(0, st.derive.len() as int)
            == st.derive && (plain_path_text(render_seq(c)) ==> (unblanked(render_seq(c))
            == paths_text(st2.derive.subrange(st.derive.len() as int, st2.derive.len() as int))
            || unblanked(render_seq(c)) == paths_text(
            st2.derive.subrange(st.derive.len() as int, st2.derive.len() as int),
        ).push(',')))),
{
    if let Ok((st2, _)) = spec_args_step(s, j, "derive"@, st, rd, ird) {
        let ps = rd(j)->Ok_0;
        assert(st2.derive == st.derive + ps);
        assert(st2.derive.subrange(0, st.derive.len() as int) =~= st.derive);
        assert(st2.derive.subrange(st.derive.len() as int, st2.derive.len() as int) =~= ps);
    }
}

/// The text, without blanks, of the fields named `names` with types `types`, each preceded by
/// `pub` where `pubs` says so, and separated by commas.
pub open spec fn written_fields(names: Seq<Seq<char>>, types: Seq<Seq<TokV>>, pubs: Seq<bool>) -> Seq<char>
    decreases names.len(),
{
    if names.len() == 0 {
        seq![]
    } else {
        let last = (if pubs.last() {
            "pub"@
        } else {
            seq![]
        }) + names.last() + seq![':'] + unblanked(render_seq(types.last()));
        if names.len() == 1 {
            last
        } else {
            written_fields(names.drop_last(), types.drop_last(), pubs.drop_last()) + seq![','] + last
        }
    }
}

proof fn lemma_written_fields(fs: Seq<FieldV>, pubs: Seq<bool>)
    requires
        pubs.len() == fs.len(),
        forall|i: int| 0 <= i < fs.len() ==> (#[trigger] fs[i]).ident is Some,
    ensures
        fields_text(fs, pubs) == written_fields(
            Seq::new(fs.len(), |i: int| fs[i].ident->0),
            Seq::new(fs.len(), |i: int| fs[i].ty),
            pubs,
        ),
    decreases fs.len(),
{
    let names = Seq::new(fs.len(), |i: int| fs[i].ident->0);
    let types = Seq::new(fs.len(), |i: int| fs[i].ty);
    if fs.len() > 0 {
        let f = fs.last();
        assert(fs[fs.len() - 1].ident is Some);
        assert(field_text(f, pubs.last()) == (if pubs.last() {
            "pub"@
        } else {
            seq![]
        }) + names.last() + seq![':'] + unblanked(render_seq(types.last())));
        if fs.len() > 1 {
            let fs2 = fs.drop_last();
            assert forall|i: int| 0 <= i < fs2.len() implies (#[trigger] fs2[i]).ident is Some by {
                assert(fs2[i] == fs[i]);
            }
            lemma_written_fields(fs2, pubs.drop_last());
            assert(Seq::new(fs2.len(), |i: int| fs2[i].ident->0) =~= names.drop_last());
            assert(Seq::new(fs2.len(), |i: int| fs2[i].ty) =~= types.drop_last());
        }
    }
}

/// For an item made of plain characters, every field written between the struct's braces is
/// read, in order, and no other: the struct information holds exactly the names and types of
/// the written fields (so, with the laws on the expansion, each written field stands in exactly
/// one place of the code written).
pub proof fn law_every_written_field_read(t: Seq<char>, d: DeriveInputV, info: StructInfoV)
    requires
        plain_item_text(t),
        input_fits_text(t, Some(d)),
        spec_struct_info(d) == Ok::<StructInfoV, crate::struct_info::StructError>(info),
    ensures
        exists|i: int, j: int, pubs: Seq<bool>|
            #![trigger t[i], t[j], written_fields(info.field_names, info.field_types, pubs)]
            0 <= i < j < t.len() && t[i] == '{' && t[j] == '}' && no_brace(t.subrange(0, i))
                && no_brace(t.subrange(i + 1, j)) && no_brace(t.subrange(j + 1, t.len() as int))
                && pubs.len() == info.field_names.len() && (unblanked(t.subrange(i + 1, j))
                == written_fields(info.field_names, info.field_types, pubs) || (info.field_names.len()
                > 0 && unblanked(t.subrange(i + 1, j)) == written_fields(
                info.field_names,
                info.field_types,
                pubs,
            ).push(','))),
{
    let fs = d.data->Struct_0;
    assert(fields_fit_text(t, fs));
    let (i, j, pubs) = choose|i: int, j: int, pubs: Seq<bool>|
        #![trigger t[i], t[j], fields_text(fs, pubs)]
        0 <= i < j < t.len() && t[i] == '{' && t[j] == '}' && no_brace(t.subrange(0, i)) && no_brace(
            t.subrange(i + 1, j),
        ) && no_brace(t.subrange(j + 1, t.len() as int)) && pubs.len() == fs.len() && (unblanked(
            t.subrange(i + 1, j),
        ) == fields_text(fs, pubs) || (fs.len() > 0 && unblanked(t.subrange(i + 1, j))
            == fields_text(fs, pubs).push(',')));
    assert forall|k: int| 0 <= k < fs.len() implies (#[trigger] fs[k]).ident is Some by {
    }
    lemma_written_fields(fs, pubs);
    assert(info.field_names == Seq::new(fs.len(), |k: int| fs[k].ident->0));
    assert(info.field_types == Seq::new(fs.len(), |k: int| fs[k].ty));
    assert(written_fields(info.field_names, info.field_types, pubs) == fields_text(fs, pubs));
}

} // verus!
