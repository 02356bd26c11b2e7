//! The attribute's arguments: `name(..)`, `clone(..)`, `ignore(..)`, `derive(..)`, `public`,
//! `use_cow` and `ignore_struct(..)`, separated by commas.
use vstd::prelude::*;
use quote::ToTokens;
use syn::parse::Parser;
use syn::punctuated::Punctuated;
use crate::tokens::{convert_stream, is_blank, is_word_char, render, render_seq, toks_view, unblanked, Tok, TokV};
use crate::general::{
    parse_comma, parse_ident, parse_parens, spec_comma, spec_ident, spec_parens, text_eq, vals,
    parsed_as, Cmd, CmdScope, ErrV, Parse, ParseError, RepeatAllowStd, UnnamedIdents,
};

verus! {

/// The text of an optional name.
pub open spec fn opt_text(o: Option<String>) -> Option<Seq<char>> {
    match o {
        Some(s) => Some(s@),
        None => None,
    }
}

/// The values of a list of token sequences.
pub open spec fn paths_view(v: Seq<Vec<Tok>>) -> Seq<Seq<TokV>> {
    Seq::new(v.len(), |i: int| toks_view(v[i]@))
}

/// The value of the arguments of `ignore_struct(..)`.
pub struct IgnoreArgsV {
    pub name: Option<Seq<char>>,
    pub derive: Seq<Seq<TokV>>,
}

/// The value of the attribute's arguments.
pub struct ArgsV {
    pub name: Option<Seq<char>>,
    pub clone: Seq<Seq<char>>,
    pub ignore: Seq<Seq<char>>,
    pub derive: Seq<Seq<TokV>>,
    pub is_pub: bool,
    pub use_cow: bool,
    pub ignore_struct_args: Option<IgnoreArgsV>,
}

/// The arguments of `ignore_struct(..)`: the name and the derives of the struct that holds the
/// ignored fields.
#[derive(Debug)]
pub struct IgnoreArgs {
    pub name: Option<String>,
    pub derive: Vec<Vec<Tok>>,
}

impl View for IgnoreArgs {
    type V = IgnoreArgsV;

    open spec fn view(&self) -> IgnoreArgsV {
        IgnoreArgsV { name: opt_text(self.name), derive: paths_view(self.derive@) }
    }
}

/// The attribute's arguments.
#[derive(Debug)]
pub struct Args {
    pub name: Option<String>,
    pub clone: Vec<String>,
    pub ignore: Vec<String>,
    pub derive: Vec<Vec<Tok>>,
    pub is_pub: bool,
    pub use_cow: bool,
    pub ignore_struct_args: Option<IgnoreArgs>,
}

/// The value of optional `ignore_struct(..)` arguments.
pub open spec fn opt_ignore_args(o: Option<IgnoreArgs>) -> Option<IgnoreArgsV> {
    match o {
        Some(a) => Some(a@),
        None => None,
    }
}

impl View for Args {
    type V = ArgsV;

    open spec fn view(&self) -> ArgsV {
        ArgsV {
            name: opt_text(self.name),
            clone: vals(self.clone@),
            ignore: vals(self.ignore@),
            derive: paths_view(self.derive@),
            is_pub: self.is_pub,
            use_cow: self.use_cow,
            ignore_struct_args: opt_ignore_args(self.ignore_struct_args),
        }
    }
}

/// What `syn` gave for the text of one `derive(..)` group: the paths it holds, each as its
/// tokens, or the message with which `syn` refused the text.
pub type PathsRead = Result<Seq<Seq<TokV>>, Seq<char>>;

/// What `syn` gave for each `derive(..)` group, by the position of the group.
pub type Reads = spec_fn(int) -> PathsRead;

/// What `syn` gave for each `derive(..)` group inside a group: `g(j, k)` for the one at
/// position `k` inside the group at position `j`.
pub type GroupReads = spec_fn(int, int) -> PathsRead;

/// Reads a text with `syn::punctuated::Punctuated::<syn::Path, syn::token::Comma>::parse_terminated`
/// and converts each path, one for one, into the tokens that `quote::ToTokens` gives for it (by
/// `convert_stream`), or `syn`'s refusal into its message. Nothing is promised of the result:
/// `syn` reads the text through `proc_macro2`'s lexer, which is the compiler's inside a
/// procedural macro and its own elsewhere, so what comes out depends on the process as well as
/// on the text.
///
/// One thing holds whichever lexer is used, for a text made only of ASCII letters, digits, `_`,
/// `:`, `,` and blanks (where both lexers give the same trees, and `syn` prints each path as
/// the words and `::` it read): where `syn` accepts it, the text without its blanks is the
/// paths' texts without blanks, separated by commas, with or without a last comma.
#[verifier::external_body]
pub(crate) fn parse_path_list(src: &str) -> (r: Result<Vec<Vec<Tok>>, String>)
    ensures
        reading_fits_text(src@, read_view(r)),
{
    let parser = Punctuated::<syn::Path, syn::token::Comma>::parse_terminated;
    let list = parser.parse_str(src).map_err(|e| e.to_string())?;
    Ok(list.iter().map(|p| convert_stream(p.to_token_stream())).collect())
}

/// A character of a plain list of paths: a word character, `:`, `,` or a blank.
pub open spec fn plain_path_char(c: char) -> bool {
    is_word_char(c) || c == ':' || c == ',' || is_blank(c)
}

/// A text made only of the characters of a plain list of paths.
pub open spec fn plain_path_text(t: Seq<char>) -> bool {
    forall|i: int| 0 <= i < t.len() ==> plain_path_char(#[trigger] t[i])
}

/// The texts of paths without blanks, separated by commas.
pub open spec fn paths_text(ps: Seq<Seq<TokV>>) -> Seq<char>
    decreases ps.len(),
{
    if ps.len() == 0 {
        seq![]
    } else if ps.len() == 1 {
        unblanked(render_seq(ps[0]))
    } else {
        paths_text(ps.drop_last()) + seq![','] + unblanked(render_seq(ps.last()))
    }
}

/// What `syn` gave for the text `t` of a group fits the text: for a plain text that `syn`
/// accepts, the text without blanks is the paths' texts separated by commas, with or without a
/// last comma.
pub open spec fn reading_fits_text(t: Seq<char>, x: PathsRead) -> bool {
    plain_path_text(t) ==> (x matches Ok(ps) ==> (unblanked(t) == paths_text(ps) || unblanked(t)
        == paths_text(ps).push(',')))
}

/// What `syn` gave for the group at position `i` fits the group's text.
pub open spec fn fits_derive(s: Seq<TokV>, i: int, x: PathsRead) -> bool {
    spec_parens(s, i) matches Ok((c, _)) ==> reading_fits_text(render_seq(c), x)
}

/// The value of what reading the paths of a group gave.
pub open spec fn read_view(r: Result<Vec<Vec<Tok>>, String>) -> PathsRead {
    match r {
        Ok(v) => Ok(paths_view(v@)),
        Err(m) => Err(m@),
    }
}

/// The derive paths after one group was read as `x`: the earlier ones followed by the group's,
/// or the refusal.
pub open spec fn spec_append_paths(derive: Seq<Seq<TokV>>, x: PathsRead) -> Result<
    Seq<Seq<TokV>>,
    ErrV,
> {
    match x {
        Ok(ps) => Ok(derive + ps),
        Err(m) => Err(ErrV::Paths(m)),
    }
}

/// Appends the paths that reading a group gave to `derive`, or turns a refusal into an error.
pub fn append_paths(read: Result<Vec<Vec<Tok>>, String>, derive: &mut Vec<Vec<Tok>>) -> (r: Result<
    (),
    ParseError,
>)
    ensures
        match r {
            Ok(_) => spec_append_paths(paths_view(old(derive)@), read_view(read)) == Ok::<
                Seq<Seq<TokV>>,
                ErrV,
            >(paths_view(final(derive)@)),
            Err(e) => spec_append_paths(paths_view(old(derive)@), read_view(read)) == Err::<
                Seq<Seq<TokV>>,
                ErrV,
            >(e@) && final(derive)@ == old(derive)@,
        },
{
    match read {
        Ok(v) => {
            let mut paths = v;
            let ghost before = derive@;
            let ghost added = paths@;
            derive.append(&mut paths);
            assert(derive@ == before + added);
            assert(paths_view(derive@) =~= paths_view(before) + paths_view(added));
            Ok(())
        },
        Err(m) => Err(ParseError::Paths(m)),
    }
}

/// `derive(..)` at position `i`, where `syn` gave `x` for the text of the group: the derive
/// paths so far followed by the group's, and the position after the group.
pub open spec fn spec_parse_derive(s: Seq<TokV>, i: int, derive: Seq<Seq<TokV>>, x: PathsRead) -> Result<
    (Seq<Seq<TokV>>, int),
    ErrV,
> {
    match spec_parens(s, i) {
        Err(e) => Err(e),
        Ok((_, j)) => match spec_append_paths(derive, x) {
            Err(e) => Err(e),
            Ok(d) => Ok((d, j)),
        },
    }
}

/// What a call of `parse_derive` gave, where `syn` gave `x` for the text of the group.
pub open spec fn derive_outcome(
    s: Seq<TokV>,
    pos: int,
    before: Seq<Vec<Tok>>,
    after: Seq<Vec<Tok>>,
    r: Result<usize, ParseError>,
    x: PathsRead,
) -> bool {
    match r {
        Ok(p) => spec_parse_derive(s, pos, paths_view(before), x) == Ok::<
            (Seq<Seq<TokV>>, int),
            ErrV,
        >((paths_view(after), p as int)),
        Err(e) => spec_parse_derive(s, pos, paths_view(before), x) == Err::<
            (Seq<Seq<TokV>>, int),
            ErrV,
        >(e@) && after == before,
    }
}

/// Reads `(..)` after `derive` at `pos`, has `syn` read the paths in the text of the group, and
/// appends them to `derive`. Whatever `syn` gave, the outcome is the grammar's for it.
pub fn parse_derive(toks: &Vec<Tok>, pos: usize, derive: &mut Vec<Vec<Tok>>) -> (r: Result<
    usize,
    ParseError,
>)
    requires
        pos <= toks@.len(),
    ensures
        exists|x: PathsRead|
            derive_outcome(toks_view(toks@), pos as int, old(derive)@, final(derive)@, r, x)
                && fits_derive(toks_view(toks@), pos as int, x),
{
    let (content, next) = match parse_parens(toks, pos) {
        Ok(x) => x,
        Err(e) => {
            assert(derive_outcome(toks_view(toks@), pos as int, derive@, derive@, Err(e), Ok(seq![])));
            assert(fits_derive(toks_view(toks@), pos as int, Ok(seq![])));
            return Err(e);
        },
    };
    let text = render(content);
    let read = parse_path_list(text.as_str());
    let ghost x = read_view(read);
    match append_paths(read, derive) {
        Ok(_) => {
            assert(derive_outcome(toks_view(toks@), pos as int, old(derive)@, derive@, Ok(next), x));
            assert(fits_derive(toks_view(toks@), pos as int, x));
            Ok(next)
        },
        Err(e) => {
            assert(derive_outcome(toks_view(toks@), pos as int, old(derive)@, derive@, Err(e), x));
            assert(fits_derive(toks_view(toks@), pos as int, x));
            Err(e)
        },
    }
}

/// A choice of readings agrees with those already made, position by position.
pub open spec fn agrees(rd: Reads, known: Map<int, PathsRead>) -> bool {
    forall|k: int| #[trigger] known.contains_key(k) ==> rd(k) == known[k]
}

/// The readings already made, and a refusal with an empty message at every other position.
pub open spec fn fill(known: Map<int, PathsRead>) -> Reads {
    |k: int|
        if known.contains_key(k) {
            known[k]
        } else {
            Err::<Seq<Seq<TokV>>, Seq<char>>(seq![])
        }
}

/// `name(..)`: its one identifier, unless a name is set already or the list does not hold
/// exactly one identifier.
pub open spec fn spec_parse_name(map: Seq<Seq<char>>, name: Option<Seq<char>>) -> Result<
    Seq<char>,
    ErrV,
> {
    if name is Some {
        Err(ErrV::Twiced(Cmd::Name))
    } else if map.len() != 1 {
        Err(ErrV::ExpectedName)
    } else {
        Ok(map[0])
    }
}

/// Sets `name` to the one identifier of `name(..)`.
pub fn parse_name(unnamed_map: UnnamedIdents, name: &mut Option<String>) -> (r: Result<
    (),
    ParseError,
>)
    ensures
        match r {
            Ok(_) => spec_parse_name(unnamed_map@, opt_text(*old(name))) == Ok::<Seq<char>, ErrV>(
                opt_text(*final(name))->0,
            ) && *final(name) is Some,
            Err(e) => spec_parse_name(unnamed_map@, opt_text(*old(name))) == Err::<
                Seq<char>,
                ErrV,
            >(e@) && *final(name) == *old(name),
        },
{
    if name.is_some() {
        return Err(ParseError::Twiced(Cmd::Name));
    }
    if unnamed_map.map.len() != 1 {
        return Err(ParseError::ExpectedName);
    }
    let mut map = unnamed_map.map;
    let only = map.pop();
    match only {
        Some(n) => {
            *name = Some(n);
            Ok(())
        },
        None => Err(ParseError::ExpectedName),
    }
}

/// The error for an identifier that names no command of `scope`.
pub fn err_unkn_cmd(scope: CmdScope) -> (e: ParseError)
    ensures
        e@ == ErrV::UnknownCmd(scope),
{
    ParseError::UnknownCmd(scope)
}

/// What the commands of `ignore_struct(..)` have set so far.
pub struct IgnoreState {
    pub name: Option<Seq<char>>,
    pub derive: Seq<Seq<TokV>>,
}

/// One command of `ignore_struct(..)`, named `w`, whose own tokens begin at `j`, where `syn`
/// gave `rd(k)` for the text of a `derive(..)` group at position `k`.
pub open spec fn spec_ignore_step(s: Seq<TokV>, j: int, w: Seq<char>, st: IgnoreState, rd: Reads) -> Result<
    (IgnoreState, int),
    ErrV,
> {
    if w == "derive"@ {
        match spec_parse_derive(s, j, st.derive, rd(j)) {
            Err(e) => Err(e),
            Ok((d, k)) => Ok((IgnoreState { name: st.name, derive: d }, k)),
        }
    } else if w == "name"@ {
        match UnnamedIdents::<RepeatAllowStd>::spec_parse(s, j) {
            Err(e) => Err(e),
            Ok((m, k)) => match spec_parse_name(m, st.name) {
                Err(e) => Err(e),
                Ok(n) => Ok((IgnoreState { name: Some(n), derive: st.derive }, k)),
            },
        }
    } else {
        Err(ErrV::UnknownCmd(CmdScope::IgnoreStruct))
    }
}

/// A command of `ignore_struct(..)` ends past the word that names it.
pub proof fn lemma_ignore_step_advances(s: Seq<TokV>, j: int, w: Seq<char>, st: IgnoreState, rd: Reads)
    requires
        0 <= j <= s.len(),
    ensures
        spec_ignore_step(s, j, w, st, rd) matches Ok((_, k)) ==> j <= k <= s.len(),
{
}

/// The commands of `ignore_struct(..)` from position `i` on, given what the earlier ones set.
pub open spec fn spec_ignore_loop(s: Seq<TokV>, i: int, st: IgnoreState, rd: Reads) -> Result<
    IgnoreState,
    ErrV,
>
    decreases s.len() - i,
{
    match spec_ident(s, i) {
        Err(e) => Err(e),
        Ok((w, j)) => match spec_ignore_step(s, j, w, st, rd) {
            Err(e) => Err(e),
            Ok((st2, k)) => {
                if k >= s.len() {
                    Ok(st2)
                } else {
                    match spec_comma(s, k) {
                        Err(e) => Err(e),
                        Ok(m) => {
                            proof {
                                lemma_ignore_step_advances(s, j, w, st, rd);
                            }
                            spec_ignore_loop(s, m, st2, rd)
                        },
                    }
                }
            },
        },
    }
}

impl IgnoreArgs {
    /// What reading `ignore_struct(..)` has set before the first command.
    pub open spec fn initial() -> IgnoreState {
        IgnoreState { name: None, derive: seq![] }
    }

    /// The arguments of `ignore_struct(..)` read from position `i` to the end, where `syn` gave
    /// `rd(k)` for the text of a `derive(..)` group at position `k`.
    pub open spec fn spec_parse_with(s: Seq<TokV>, i: int, rd: Reads) -> Result<(IgnoreArgsV, int), ErrV> {
        match spec_ignore_loop(s, i, IgnoreArgs::initial(), rd) {
            Err(e) => Err(e),
            Ok(st) => Ok((IgnoreArgsV { name: st.name, derive: st.derive }, s.len() as int)),
        }
    }

    /// Reads the arguments of `ignore_struct(..)` from `pos` to the end. Whatever `syn` gave for
    /// the `derive(..)` groups, the outcome is the grammar's for it.
    pub fn parse(toks: &Vec<Tok>, pos: usize) -> (r: Result<(IgnoreArgs, usize), ParseError>)
        requires
            pos <= toks@.len(),
        ensures
            exists|rd: Reads|
                parsed_as(r, IgnoreArgs::spec_parse_with(toks_view(toks@), pos as int, rd)) && forall|k: int|
                    fits_derive(toks_view(toks@), k, #[trigger] rd(k)),
    {
        let (r, Ghost(known)) = ignore_loop(toks, pos);
        proof {
            let rd = fill(known);
            assert(agrees(rd, known));
            assert(parsed_as(r, IgnoreArgs::spec_parse_with(toks_view(toks@), pos as int, rd)));
            assert forall|k: int| fits_derive(toks_view(toks@), k, #[trigger] rd(k)) by {
                if known.contains_key(k) {
                }
            }
        }
        r
    }
}

fn ignore_loop(toks: &Vec<Tok>, pos: usize) -> (r: (
    Result<(IgnoreArgs, usize), ParseError>,
    Ghost<Map<int, PathsRead>>,
))
    requires
        pos <= toks@.len(),
    ensures
        forall|rd: Reads|
            #[trigger] agrees(rd, r.1@) ==> parsed_as(
                r.0,
                IgnoreArgs::spec_parse_with(toks_view(toks@), pos as int, rd),
            ),
        forall|k: int| #[trigger] r.1@.contains_key(k) ==> fits_derive(toks_view(toks@), k, r.1@[k]),
{
    let ghost s = toks_view(toks@);
    let mut name: Option<String> = None;
    let mut derive: Vec<Vec<Tok>> = Vec::new();
    let mut p = pos;
    let ghost mut known: Map<int, PathsRead> = Map::empty();
    assert(paths_view(derive@) =~= Seq::<Seq<TokV>>::empty());
    loop
        invariant
            s == toks_view(toks@),
            pos <= p <= toks@.len(),
            forall|k: int| #[trigger] known.contains_key(k) ==> k < p,
            forall|k: int| #[trigger] known.contains_key(k) ==> fits_derive(s, k, known[k]),
            forall|rd: Reads|
                #[trigger] agrees(rd, known) ==> spec_ignore_loop(s, pos as int, IgnoreArgs::initial(), rd)
                    == spec_ignore_loop(
                    s,
                    p as int,
                    IgnoreState { name: opt_text(name), derive: paths_view(derive@) },
                    rd,
                ),
        decreases toks@.len() - p,
    {
        let ghost st = IgnoreState { name: opt_text(name), derive: paths_view(derive@) };
        let ghost before = derive@;
        let (cmd, j) = match parse_ident(toks, p) {
            Ok(x) => x,
            Err(e) => {
                return (Err(e), Ghost(known));
            },
        };
        let ghost mut known2 = known;
        let step: Result<usize, ParseError> = if text_eq(&cmd, "derive") {
            let r = parse_derive(toks, j, &mut derive);
            proof {
                let x = choose|x: PathsRead|
                    derive_outcome(s, j as int, before, derive@, r, x) && fits_derive(s, j as int, x);
                known2 = known.insert(j as int, x);
            }
            r
        } else if text_eq(&cmd, "name") {
            match UnnamedIdents::<RepeatAllowStd>::parse(toks, j) {
                Ok((unnamed_map, k)) => match parse_name(unnamed_map, &mut name) {
                    Ok(_) => Ok(k),
                    Err(e) => Err(e),
                },
                Err(e) => Err(e),
            }
        } else {
            Err(err_unkn_cmd(CmdScope::IgnoreStruct))
        };
        let ghost st2 = IgnoreState { name: opt_text(name), derive: paths_view(derive@) };
        assert forall|rd: Reads| #[trigger] agrees(rd, known2) implies agrees(rd, known)
            && match step {
            Ok(k) => spec_ignore_step(s, j as int, cmd@, st, rd) == Ok::<(IgnoreState, int), ErrV>(
                (st2, k as int),
            ),
            Err(e) => spec_ignore_step(s, j as int, cmd@, st, rd) == Err::<(IgnoreState, int), ErrV>(
                e@,
            ),
        } by {
            assert forall|k: int| #[trigger] known.contains_key(k) implies rd(k) == known[k] by {
                assert(known2.contains_key(k));
            }
            if cmd@ == "derive"@ {
                assert(known2.contains_key(j as int));
            }
        }
        let k = match step {
            Ok(k) => k,
            Err(e) => {
                return (Err(e), Ghost(known2));
            },
        };
        proof {
            assert(agrees(fill(known2), known2));
            lemma_ignore_step_advances(s, j as int, cmd@, st, fill(known2));
            known = known2;
        }
        if k < toks.len() {
            let m = match parse_comma(toks, k) {
                Ok(m) => m,
                Err(e) => {
                    return (Err(e), Ghost(known));
                },
            };
            p = m;
            continue;
        }
        return (Ok((IgnoreArgs { name, derive }, toks.len())), Ghost(known));
    }
}

/// What the attribute's commands have set so far.
pub struct ArgsState {
    pub name: Option<Seq<char>>,
    pub clone: Option<Seq<Seq<char>>>,
    pub ignore: Option<Seq<Seq<char>>>,
    pub derive: Seq<Seq<TokV>>,
    pub is_pub: bool,
    pub use_cow: bool,
    pub ignore_struct_args: Option<IgnoreArgsV>,
}

/// One command of the attribute, named `w`, whose own tokens begin at `j`, where `syn` gave
/// `rd(k)` for the text of a `derive(..)` group at position `k`, and `ird(j, k)` for the one at
/// position `k` inside the group of `ignore_struct(..)` at position `j`.
pub open spec fn spec_args_step(s: Seq<TokV>, j: int, w: Seq<char>, st: ArgsState, rd: Reads, ird: GroupReads) -> Result<
    (ArgsState, int),
    ErrV,
> {
    if w == "derive"@ {
        match spec_parse_derive(s, j, st.derive, rd(j)) {
            Err(e) => Err(e),
            Ok((d, k)) => Ok((ArgsState { derive: d, ..st }, k)),
        }
    } else if w == "public"@ {
        Ok((ArgsState { is_pub: true, ..st }, j))
    } else if w == "use_cow"@ {
        Ok((ArgsState { use_cow: true, ..st }, j))
    } else if w == "ignore"@ || w == "clone"@ || w == "name"@ {
        match UnnamedIdents::<RepeatAllowStd>::spec_parse(s, j) {
            Err(e) => Err(e),
            Ok((m, k)) => {
                if w == "ignore"@ {
                    if st.ignore is Some {
                        Err(ErrV::Twiced(Cmd::Ignore))
                    } else {
                        Ok((ArgsState { ignore: Some(m), ..st }, k))
                    }
                } else if w == "clone"@ {
                    if st.clone is Some {
                        Err(ErrV::Twiced(Cmd::Clone))
                    } else {
                        Ok((ArgsState { clone: Some(m), ..st }, k))
                    }
                } else {
                    match spec_parse_name(m, st.name) {
                        Err(e) => Err(e),
                        Ok(n) => Ok((ArgsState { name: Some(n), ..st }, k)),
                    }
                }
            },
        }
    } else if w == "ignore_struct"@ {
        if st.ignore_struct_args is Some {
            Err(ErrV::Twiced(Cmd::IgnoreStruct))
        } else {
            match spec_parens(s, j) {
                Err(e) => Err(e),
                Ok((c, k)) => match IgnoreArgs::spec_parse_with(c, 0, ird_at(ird, j)) {
                    Err(e) => Err(e),
                    Ok((ia, _)) => Ok((ArgsState { ignore_struct_args: Some(ia), ..st }, k)),
                },
            }
        }
    } else {
        Err(ErrV::UnknownCmd(CmdScope::Args))
    }
}

/// A command of the attribute ends past the word that names it.
pub proof fn lemma_args_step_advances(s: Seq<TokV>, j: int, w: Seq<char>, st: ArgsState, rd: Reads, ird: GroupReads)
    requires
        0 <= j <= s.len(),
    ensures
        spec_args_step(s, j, w, st, rd, ird) matches Ok((_, k)) ==> j <= k <= s.len(),
{
}

/// The attribute's commands from position `i` on, given what the earlier ones set.
pub open spec fn spec_args_loop(s: Seq<TokV>, i: int, st: ArgsState, rd: Reads, ird: GroupReads) -> Result<ArgsState, ErrV>
    decreases s.len() - i,
{
    match spec_ident(s, i) {
        Err(e) => Err(e),
        Ok((w, j)) => match spec_args_step(s, j, w, st, rd, ird) {
            Err(e) => Err(e),
            Ok((st2, k)) => {
                if k >= s.len() {
                    Ok(st2)
                } else {
                    match spec_comma(s, k) {
                        Err(e) => Err(e),
                        Ok(m) => {
                            if m >= s.len() {
                                Ok(st2)
                            } else {
                                proof {
                                    lemma_args_step_advances(s, j, w, st, rd, ird);
                                }
                                spec_args_loop(s, m, st2, rd, ird)
                            }
                        },
                    }
                }
            },
        },
    }
}

impl Args {
    /// What reading the attribute has set before the first command.
    pub open spec fn initial() -> ArgsState {
        ArgsState {
            name: None,
            clone: None,
            ignore: None,
            derive: seq![],
            is_pub: false,
            use_cow: false,
            ignore_struct_args: None,
        }
    }

    /// The arguments that the commands have set: lists that no command set are empty.
    pub open spec fn finish(st: ArgsState) -> ArgsV {
        ArgsV {
            name: st.name,
            clone: match st.clone {
                Some(c) => c,
                None => seq![],
            },
            ignore: match st.ignore {
                Some(c) => c,
                None => seq![],
            },
            derive: st.derive,
            is_pub: st.is_pub,
            use_cow: st.use_cow,
            ignore_struct_args: st.ignore_struct_args,
        }
    }
}

/// What the executable reading of the attribute has set so far.
struct ArgsBuilder {
    name: Option<String>,
    clone: Option<Vec<String>>,
    ignore: Option<Vec<String>>,
    derive: Vec<Vec<Tok>>,
    is_pub: bool,
    use_cow: bool,
    ignore_struct_args: Option<IgnoreArgs>,
}

spec fn opt_names(o: Option<Vec<String>>) -> Option<Seq<Seq<char>>> {
    match o {
        Some(v) => Some(vals(v@)),
        None => None,
    }
}

impl ArgsBuilder {
    spec fn state(&self) -> ArgsState {
        ArgsState {
            name: opt_text(self.name),
            clone: opt_names(self.clone),
            ignore: opt_names(self.ignore),
            derive: paths_view(self.derive@),
            is_pub: self.is_pub,
            use_cow: self.use_cow,
            ignore_struct_args: opt_ignore_args(self.ignore_struct_args),
        }
    }
}

/// A choice of readings for the attribute agrees with the `derive(..)` readings already made
/// and, once `ignore_struct(..)` was read, with the readings made inside it.
pub open spec fn fits(rd: Reads, ird: GroupReads, known: Map<int, PathsRead>, iw: Option<(int, Reads)>) -> bool {
    agrees(rd, known) && (iw matches Some((jg, f)) ==> forall|q: int| #[trigger] ird(jg, q) == f(q))
}

/// What `syn` gave for the groups inside the group at position `j`, by their position in it.
pub open spec fn ird_at(ird: GroupReads, j: int) -> Reads {
    |q: int| ird(j, q)
}

/// What `syn` gave for the groups inside the group at position `j` fits their texts.
pub open spec fn fits_inside(s: Seq<TokV>, j: int, f: Reads) -> bool {
    spec_parens(s, j) matches Ok((c, _)) ==> forall|k: int| fits_derive(c, k, #[trigger] f(k))
}

/// What a step of the attribute's reading gave, against the grammar's step.
pub open spec fn step_as(r: Result<usize, ParseError>, g: Result<(ArgsState, int), ErrV>, st2: ArgsState) -> bool {
    match r {
        Ok(k) => g == Ok::<(ArgsState, int), ErrV>((st2, k as int)),
        Err(e) => g == Err::<(ArgsState, int), ErrV>(e@),
    }
}

fn args_step(toks: &Vec<Tok>, j: usize, cmd: &String, b: &mut ArgsBuilder) -> (r: (
    Result<usize, ParseError>,
    Ghost<Option<PathsRead>>,
    Ghost<Option<Reads>>,
))
    requires
        j <= toks@.len(),
    ensures
        forall|rd: Reads, ird: GroupReads|
            #![trigger spec_args_step(toks_view(toks@), j as int, cmd@, old(b).state(), rd, ird)]
            (r.1@ matches Some(x) ==> rd(j as int) == x) && (r.2@ matches Some(f) ==> forall|q: int|
                #[trigger] ird(j as int, q) == f(q))
                ==> step_as(
                r.0,
                spec_args_step(toks_view(toks@), j as int, cmd@, old(b).state(), rd, ird),
                final(b).state(),
            ),
        r.1@ matches Some(x) ==> fits_derive(toks_view(toks@), j as int, x),
        r.2@ matches Some(f) ==> fits_inside(toks_view(toks@), j as int, f),
        r.2@ is Some ==> old(b).ignore_struct_args is None,
        r.0 is Ok && r.2@ is Some ==> final(b).ignore_struct_args is Some,
        old(b).ignore_struct_args is Some ==> final(b).ignore_struct_args is Some,
{
    let ghost s = toks_view(toks@);
    if text_eq(cmd, "derive") {
        let ghost before = b.derive@;
        let r = parse_derive(toks, j, &mut b.derive);
        let ghost x = choose|x: PathsRead|
            derive_outcome(s, j as int, before, b.derive@, r, x) && fits_derive(s, j as int, x);
        (r, Ghost(Some(x)), Ghost(None))
    } else if text_eq(cmd, "public") {
        b.is_pub = true;
        (Ok(j), Ghost(None), Ghost(None))
    } else if text_eq(cmd, "use_cow") {
        b.use_cow = true;
        (Ok(j), Ghost(None), Ghost(None))
    } else if text_eq(cmd, "ignore") || text_eq(cmd, "clone") || text_eq(cmd, "name") {
        let (unnamed_map, k) = match UnnamedIdents::<RepeatAllowStd>::parse(toks, j) {
            Ok(x) => x,
            Err(e) => {
                return (Err(e), Ghost(None), Ghost(None));
            },
        };
        if text_eq(cmd, "ignore") {
            if b.ignore.is_some() {
                return (Err(ParseError::Twiced(Cmd::Ignore)), Ghost(None), Ghost(None));
            }
            b.ignore = Some(unnamed_map.map);
        } else if text_eq(cmd, "clone") {
            if b.clone.is_some() {
                return (Err(ParseError::Twiced(Cmd::Clone)), Ghost(None), Ghost(None));
            }
            b.clone = Some(unnamed_map.map);
        } else {
            match parse_name(unnamed_map, &mut b.name) {
                Ok(_) => {},
                Err(e) => {
                    return (Err(e), Ghost(None), Ghost(None));
                },
            }
        }
        (Ok(k), Ghost(None), Ghost(None))
    } else if text_eq(cmd, "ignore_struct") {
        if b.ignore_struct_args.is_some() {
            return (Err(ParseError::Twiced(Cmd::IgnoreStruct)), Ghost(None), Ghost(None));
        }
        let (content, k) = match parse_parens(toks, j) {
            Ok(x) => x,
            Err(e) => {
                return (Err(e), Ghost(None), Ghost(None));
            },
        };
        let r = IgnoreArgs::parse(content, 0);
        let ghost f = choose|rd: Reads|
            parsed_as(r, IgnoreArgs::spec_parse_with(toks_view(content@), 0, rd)) && forall|k: int|
                fits_derive(toks_view(content@), k, #[trigger] rd(k));
        proof {
            assert forall|ird: GroupReads|
                (forall|q: int| #[trigger] ird(j as int, q) == f(q)) implies #[trigger] ird_at(ird, j as int)
                == f by {
                assert(ird_at(ird, j as int) =~= f);
            }
        }
        match r {
            Ok((ia, _)) => {
                b.ignore_struct_args = Some(ia);
                (Ok(k), Ghost(None), Ghost(Some(f)))
            },
            Err(e) => (Err(e), Ghost(None), Ghost(Some(f))),
        }
    } else {
        (Err(err_unkn_cmd(CmdScope::Args)), Ghost(None), Ghost(None))
    }
}

impl Args {
    /// The attribute's arguments read from position `i` to the end, where `syn` gave `rd(k)` for
    /// the text of a `derive(..)` group at position `k`, and `ird` for those inside
    /// `ignore_struct(..)`.
    pub open spec fn spec_parse_with(s: Seq<TokV>, i: int, rd: Reads, ird: GroupReads) -> Result<(ArgsV, int), ErrV> {
        match spec_args_loop(s, i, Args::initial(), rd, ird) {
            Err(e) => Err(e),
            Ok(st) => Ok((Args::finish(st), s.len() as int)),
        }
    }

    /// Reads the attribute's arguments from `pos` to the end. Whatever `syn` gave for the
    /// `derive(..)` groups, the outcome is the grammar's for it.
    pub fn parse(toks: &Vec<Tok>, pos: usize) -> (r: Result<(Args, usize), ParseError>)
        requires
            pos <= toks@.len(),
        ensures
            exists|rd: Reads, ird: GroupReads|
                parsed_as(r, Args::spec_parse_with(toks_view(toks@), pos as int, rd, ird)) && (forall|
                    k: int,
                | fits_derive(toks_view(toks@), k, #[trigger] rd(k))) && (forall|j: int|
                    fits_inside(toks_view(toks@), j, #[trigger] ird_at(ird, j))),
    {
        let (r, Ghost(known), Ghost(iw)) = args_loop(toks, pos);
        proof {
            let rd = fill(known);
            let ird = |j0: int, q: int|
                match iw {
                    Some((jg, f)) => if j0 == jg {
                        f(q)
                    } else {
                        Err::<Seq<Seq<TokV>>, Seq<char>>(seq![])
                    },
                    None => Err::<Seq<Seq<TokV>>, Seq<char>>(seq![]),
                };
            assert(agrees(rd, known));
            assert(fits(rd, ird, known, iw));
            assert(parsed_as(r, Args::spec_parse_with(toks_view(toks@), pos as int, rd, ird)));
            assert forall|k: int| fits_derive(toks_view(toks@), k, #[trigger] rd(k)) by {
                if known.contains_key(k) {
                }
            }
            assert forall|j: int| fits_inside(toks_view(toks@), j, #[trigger] ird_at(ird, j)) by {
                if let Some((jg, f)) = iw {
                    if j == jg {
                        assert(ird_at(ird, j) =~= f);
                    }
                }
            }
        }
        r
    }
}

fn args_loop(toks: &Vec<Tok>, pos: usize) -> (r: (
    Result<(Args, usize), ParseError>,
    Ghost<Map<int, PathsRead>>,
    Ghost<Option<(int, Reads)>>,
))
    requires
        pos <= toks@.len(),
    ensures
        r.2@ matches Some((jg, f)) ==> fits_inside(toks_view(toks@), jg, f),
        forall|rd: Reads, ird: GroupReads|
            #[trigger] fits(rd, ird, r.1@, r.2@) ==> parsed_as(
                r.0,
                Args::spec_parse_with(toks_view(toks@), pos as int, rd, ird),
            ),
        forall|k: int| #[trigger] r.1@.contains_key(k) ==> fits_derive(toks_view(toks@), k, r.1@[k]),
{
    let ghost s = toks_view(toks@);
    let mut b = ArgsBuilder {
        name: None,
        clone: None,
        ignore: None,
        derive: Vec::new(),
        is_pub: false,
        use_cow: false,
        ignore_struct_args: None,
    };
    assert(b.state() == Args::initial()) by {
        assert(paths_view(b.derive@) =~= Seq::<Seq<TokV>>::empty());
    }
    let mut p = pos;
    let ghost mut known: Map<int, PathsRead> = Map::empty();
    let ghost mut iw: Option<(int, Reads)> = None;
    loop
        invariant
            s == toks_view(toks@),
            pos <= p <= toks@.len(),
            forall|k: int| #[trigger] known.contains_key(k) ==> k < p,
            iw is Some ==> b.ignore_struct_args is Some,
            iw matches Some((jg, f)) ==> fits_inside(s, jg, f),
            forall|k: int| #[trigger] known.contains_key(k) ==> fits_derive(s, k, known[k]),
            forall|rd: Reads, ird: GroupReads|
                #[trigger] fits(rd, ird, known, iw) ==> spec_args_loop(
                    s,
                    pos as int,
                    Args::initial(),
                    rd,
                    ird,
                ) == spec_args_loop(s, p as int, b.state(), rd, ird),
        decreases toks@.len() - p,
    {
        let ghost st = b.state();
        let (cmd, j) = match parse_ident(toks, p) {
            Ok(x) => x,
            Err(e) => {
                return (Err(e), Ghost(known), Ghost(iw));
            },
        };
        let (step, Ghost(x), Ghost(f)) = args_step(toks, j, &cmd, &mut b);
        let ghost known2 = match x {
            Some(x) => known.insert(j as int, x),
            None => known,
        };
        let ghost iw2 = match f {
            Some(f) => Some((j as int, f)),
            None => iw,
        };
        assert forall|rd: Reads, ird: GroupReads| #[trigger] fits(rd, ird, known2, iw2) implies fits(
            rd,
            ird,
            known,
            iw,
        ) && step_as(step, spec_args_step(s, j as int, cmd@, st, rd, ird), b.state()) by {
            assert forall|k: int| #[trigger] known.contains_key(k) implies rd(k) == known[k] by {
                assert(known2.contains_key(k));
            }
            if x is Some {
                assert(known2.contains_key(j as int));
            }
            if let Some(g) = f {
                assert(iw is None);
                assert(iw2 == Some((j as int, g)));
                assert(fits(rd, ird, known2, iw2));
                assert forall|q: int| #[trigger] ird(j as int, q) == g(q) by {
                    assert(iw2 matches Some((jg, ff)) && jg == j as int && ff == g);
                }
            } else {
                assert(iw2 == iw);
            }
            assert(spec_args_step(s, j as int, cmd@, st, rd, ird) == spec_args_step(
                toks_view(toks@),
                j as int,
                cmd@,
                st,
                rd,
                ird,
            ));
        }
        let k = match step {
            Ok(k) => k,
            Err(e) => {
                return (Err(e), Ghost(known2), Ghost(iw2));
            },
        };
        proof {
            let rd0 = fill(known2);
            let ird0 = |j0: int, q: int|
                match iw2 {
                    Some((jg, g)) => if j0 == jg {
                        g(q)
                    } else {
                        Err::<Seq<Seq<TokV>>, Seq<char>>(seq![])
                    },
                    None => Err::<Seq<Seq<TokV>>, Seq<char>>(seq![]),
                };
            assert(agrees(rd0, known2));
            assert(fits(rd0, ird0, known2, iw2));
            lemma_args_step_advances(s, j as int, cmd@, st, rd0, ird0);
            known = known2;
            iw = iw2;
        }
        if k < toks.len() {
            let m = match parse_comma(toks, k) {
                Ok(m) => m,
                Err(e) => {
                    return (Err(e), Ghost(known), Ghost(iw));
                },
            };
            if m < toks.len() {
                p = m;
                continue;
            }
        }
        let ghost fin = b.state();
        let args = Args {
            name: b.name,
            clone: match b.clone {
                Some(c) => c,
                None => Vec::new(),
            },
            ignore: match b.ignore {
                Some(c) => c,
                None => Vec::new(),
            },
            derive: b.derive,
            is_pub: b.is_pub,
            use_cow: b.use_cow,
            ignore_struct_args: b.ignore_struct_args,
        };
        assert(args@.clone =~= Args::finish(fin).clone);
        assert(args@.ignore =~= Args::finish(fin).ignore);
        return (Ok((args, toks.len())), Ghost(known), Ghost(iw));
    }
}

} // verus!
