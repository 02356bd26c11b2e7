//! Parsing token trees: identifiers, punctuation, parenthesized lists, paths, and the generic
//! lists of identifiers and of parsed values that the attribute's commands take.
use vstd::prelude::*;
use std::marker::PhantomData;
use crate::tokens::{lemma_group_view, toks_view, Delim, Tok, TokV};

verus! {

/// A command of the attribute.
#[derive(Clone, Copy, Debug, PartialEq, Eq, Structural)]
pub enum Cmd {
    Name,
    Clone,
    Ignore,
    Derive,
    Public,
    UseCow,
    IgnoreStruct,
}

impl Cmd {
    /// The word that names the command.
    pub open spec fn word(self) -> Seq<char> {
        match self {
            Cmd::Name => "name"@,
            Cmd::Clone => "clone"@,
            Cmd::Ignore => "ignore"@,
            Cmd::Derive => "derive"@,
            Cmd::Public => "public"@,
            Cmd::UseCow => "use_cow"@,
            Cmd::IgnoreStruct => "ignore_struct"@,
        }
    }

    /// The word that names the command.
    pub fn as_str(self) -> (s: &'static str)
        ensures
            s@ == self.word(),
    {
        match self {
            Cmd::Name => "name",
            Cmd::Clone => "clone",
            Cmd::Ignore => "ignore",
            Cmd::Derive => "derive",
            Cmd::Public => "public",
            Cmd::UseCow => "use_cow",
            Cmd::IgnoreStruct => "ignore_struct",
        }
    }
}

/// Where a command was met: among the attribute's commands, or inside `ignore_struct(..)`.
#[derive(Clone, Copy, Debug, PartialEq, Eq, Structural)]
pub enum CmdScope {
    Args,
    IgnoreStruct,
}

/// Why the attribute's tokens were refused.
#[derive(Debug)]
pub enum ParseError {
    /// an identifier was expected; whether the input had ended there
    ExpectedIdent(bool),
    /// an identifier was expected, and this keyword stands there
    Keyword(String),
    /// a `,` was expected
    ExpectedComma,
    /// a parenthesized group was expected; whether the input had ended there
    ExpectedParens(bool),
    /// `syn` does not read the list of `derive(..)` as paths: its message
    Paths(String),
    /// an identifier list names something twice: what kind of name, and the name
    Repeated(String, String),
    /// a command that may stand once stands twice
    Twiced(Cmd),
    /// `name(..)` does not hold exactly one identifier
    ExpectedName,
    /// an identifier that names no command of the scope stands where a command was expected
    UnknownCmd(CmdScope),
}

/// The value of a `ParseError`.
pub enum ErrV {
    ExpectedIdent(bool),
    Keyword(Seq<char>),
    ExpectedComma,
    ExpectedParens(bool),
    Paths(Seq<char>),
    Repeated(Seq<char>, Seq<char>),
    Twiced(Cmd),
    ExpectedName,
    UnknownCmd(CmdScope),
}

impl View for ParseError {
    type V = ErrV;

    open spec fn view(&self) -> ErrV {
        match self {
            ParseError::ExpectedIdent(e) => ErrV::ExpectedIdent(*e),
            ParseError::Keyword(k) => ErrV::Keyword(k@),
            ParseError::ExpectedComma => ErrV::ExpectedComma,
            ParseError::ExpectedParens(e) => ErrV::ExpectedParens(*e),
            ParseError::Paths(m) => ErrV::Paths(m@),
            ParseError::Repeated(w, n) => ErrV::Repeated(w@, n@),
            ParseError::Twiced(c) => ErrV::Twiced(*c),
            ParseError::ExpectedName => ErrV::ExpectedName,
            ParseError::UnknownCmd(s) => ErrV::UnknownCmd(*s),
        }
    }
}

/// What a message begins with where the input had ended.
pub open spec fn end_prefix(end: bool) -> Seq<char> {
    if end {
        "unexpected end of input, "@
    } else {
        seq![]
    }
}

/// The message of a refusal.
pub open spec fn err_text(e: ErrV) -> Seq<char> {
    match e {
        ErrV::ExpectedIdent(end) => end_prefix(end) + "expected identifier"@,
        ErrV::Keyword(k) => "expected identifier, found keyword `"@ + k + "`"@,
        ErrV::ExpectedComma => "expected `,`"@,
        ErrV::ExpectedParens(end) => end_prefix(end) + "expected parentheses"@,
        ErrV::Paths(m) => m,
        ErrV::Repeated(w, n) => "repeated "@ + w + ": `"@ + n + "`"@,
        ErrV::Twiced(c) => "twiced `"@ + c.word() + "(..)` cmd"@,
        ErrV::ExpectedName => "expected `name(struct_name)`"@,
        ErrV::UnknownCmd(CmdScope::Args) =>
            "expected `cmd(..)` where cmd is one of [\"name\", \"clone\", \"ignore\", \"derive\", \"public\", \"use_cow\", \"ignore_struct\"]"@,
        ErrV::UnknownCmd(CmdScope::IgnoreStruct) =>
            "expected `cmd(..)` where cmd is one of [\"name\", \"derive\"]"@,
    }
}

impl ParseError {
    /// The message of the refusal.
    pub fn message(&self) -> (m: String)
        ensures
            m@ == err_text(self@),
    {
        let mut m = String::new();
        match self {
            ParseError::ExpectedIdent(end) => {
                if *end {
                    m.append("unexpected end of input, ");
                }
                m.append("expected identifier");
            },
            ParseError::Keyword(k) => {
                m.append("expected identifier, found keyword `");
                m.append(k.as_str());
                m.append("`");
            },
            ParseError::ExpectedComma => m.append("expected `,`"),
            ParseError::ExpectedParens(end) => {
                if *end {
                    m.append("unexpected end of input, ");
                }
                m.append("expected parentheses");
            },
            ParseError::Paths(t) => m.append(t.as_str()),
            ParseError::Repeated(w, n) => {
                m.append("repeated ");
                m.append(w.as_str());
                m.append(": `");
                m.append(n.as_str());
                m.append("`");
            },
            ParseError::Twiced(c) => {
                m.append("twiced `");
                m.append(c.as_str());
                m.append("(..)` cmd");
            },
            ParseError::ExpectedName => m.append("expected `name(struct_name)`"),
            ParseError::UnknownCmd(CmdScope::Args) => m.append(
                "expected `cmd(..)` where cmd is one of [\"name\", \"clone\", \"ignore\", \"derive\", \"public\", \"use_cow\", \"ignore_struct\"]",
            ),
            ParseError::UnknownCmd(CmdScope::IgnoreStruct) => m.append(
                "expected `cmd(..)` where cmd is one of [\"name\", \"derive\"]",
            ),
        }
        m
    }
}

/// The values of a sequence.
pub open spec fn vals<T: View>(v: Seq<T>) -> Seq<T::V> {
    Seq::new(v.len(), |i: int| v[i]@)
}

/// An executable parse result `r` is the value `s` that the grammar gives.
pub open spec fn parsed_as<T: View>(
    r: Result<(T, usize), ParseError>,
    s: Result<(T::V, int), ErrV>,
) -> bool {
    match r {
        Ok((v, p)) => s == Ok::<(T::V, int), ErrV>((v@, p as int)),
        Err(e) => s == Err::<(T::V, int), ErrV>(e@),
    }
}

/// An executable position result `r` is the position `s` that the grammar gives.
pub open spec fn pos_as(r: Result<usize, ParseError>, s: Result<int, ErrV>) -> bool {
    match r {
        Ok(p) => s == Ok::<int, ErrV>(p as int),
        Err(e) => s == Err::<int, ErrV>(e@),
    }
}

/// The words that Rust reserves, which an identifier cannot be.
pub open spec fn is_keyword(s: Seq<char>) -> bool {
    ||| s == "_"@ ||| s == "abstract"@ ||| s == "as"@ ||| s == "async"@ ||| s == "await"@
    ||| s == "become"@ ||| s == "box"@ ||| s == "break"@ ||| s == "const"@ ||| s == "continue"@
    ||| s == "crate"@ ||| s == "do"@ ||| s == "dyn"@ ||| s == "else"@ ||| s == "enum"@
    ||| s == "extern"@ ||| s == "false"@ ||| s == "final"@ ||| s == "fn"@ ||| s == "for"@
    ||| s == "if"@ ||| s == "impl"@ ||| s == "in"@ ||| s == "let"@ ||| s == "loop"@
    ||| s == "macro"@ ||| s == "match"@ ||| s == "mod"@ ||| s == "move"@ ||| s == "mut"@
    ||| s == "override"@ ||| s == "priv"@ ||| s == "pub"@ ||| s == "ref"@ ||| s == "return"@
    ||| s == "Self"@ ||| s == "self"@ ||| s == "static"@ ||| s == "struct"@ ||| s == "super"@
    ||| s == "trait"@ ||| s == "true"@ ||| s == "try"@ ||| s == "type"@ ||| s == "typeof"@
    ||| s == "unsafe"@ ||| s == "unsized"@ ||| s == "use"@ ||| s == "virtual"@ ||| s == "where"@
    ||| s == "while"@ ||| s == "yield"@
}

/// Whether a string holds the text of a string literal.
pub fn text_eq(a: &String, b: &str) -> (r: bool)
    ensures
        r == (a@ == b@),
{
    let bs = b.to_owned();
    a.eq(&bs)
}

/// Whether a word is a keyword.
pub fn keyword(s: &String) -> (r: bool)
    ensures
        r == is_keyword(s@),
{
    text_eq(s, "_") || text_eq(s, "abstract") || text_eq(s, "as") || text_eq(s, "async")
        || text_eq(s, "await") || text_eq(s, "become") || text_eq(s, "box") || text_eq(
        s,
        "break",
    ) || text_eq(s, "const") || text_eq(s, "continue") || text_eq(s, "crate") || text_eq(
        s,
        "do",
    ) || text_eq(s, "dyn") || text_eq(s, "else") || text_eq(s, "enum") || text_eq(s, "extern")
        || text_eq(s, "false") || text_eq(s, "final") || text_eq(s, "fn") || text_eq(s, "for")
        || text_eq(s, "if") || text_eq(s, "impl") || text_eq(s, "in") || text_eq(s, "let")
        || text_eq(s, "loop") || text_eq(s, "macro") || text_eq(s, "match") || text_eq(s, "mod")
        || text_eq(s, "move") || text_eq(s, "mut") || text_eq(s, "override") || text_eq(
        s,
        "priv",
    ) || text_eq(s, "pub") || text_eq(s, "ref") || text_eq(s, "return") || text_eq(s, "Self")
        || text_eq(s, "self") || text_eq(s, "static") || text_eq(s, "struct") || text_eq(
        s,
        "super",
    ) || text_eq(s, "trait") || text_eq(s, "true") || text_eq(s, "try") || text_eq(s, "type")
        || text_eq(s, "typeof") || text_eq(s, "unsafe") || text_eq(s, "unsized") || text_eq(
        s,
        "use",
    ) || text_eq(s, "virtual") || text_eq(s, "where") || text_eq(s, "while") || text_eq(
        s,
        "yield",
    )
}

/// An identifier at position `i`: a token that is an identifier and no keyword.
pub open spec fn spec_ident(s: Seq<TokV>, i: int) -> Result<(Seq<char>, int), ErrV> {
    if 0 <= i < s.len() && s[i] is Ident {
        if is_keyword(s[i]->Ident_0) {
            Err(ErrV::Keyword(s[i]->Ident_0))
        } else {
            Ok((s[i]->Ident_0, i + 1))
        }
    } else {
        Err(ErrV::ExpectedIdent(i >= s.len()))
    }
}

/// Whether a token is the punctuation character `c`.
pub open spec fn is_punct(t: TokV, c: char) -> bool {
    t is Punct && t->Punct_0 == c
}

/// A `,` at position `i`.
pub open spec fn spec_comma(s: Seq<TokV>, i: int) -> Result<int, ErrV> {
    if 0 <= i < s.len() && is_punct(s[i], ',') {
        Ok(i + 1)
    } else {
        Err(ErrV::ExpectedComma)
    }
}

/// A parenthesized group at position `i`: its inner trees.
pub open spec fn spec_parens(s: Seq<TokV>, i: int) -> Result<(Seq<TokV>, int), ErrV> {
    if 0 <= i < s.len() && s[i] is Group && s[i]->Group_0 == Delim::Paren {
        Ok((s[i]->Group_1, i + 1))
    } else {
        Err(ErrV::ExpectedParens(i >= s.len()))
    }
}

/// The identifier at `pos`.
pub fn parse_ident(toks: &Vec<Tok>, pos: usize) -> (r: Result<(String, usize), ParseError>)
    requires
        pos <= toks@.len(),
    ensures
        parsed_as(r, spec_ident(toks_view(toks@), pos as int)),
{
    if pos < toks.len() {
        match &toks[pos] {
            Tok::Ident(n) => {
                if keyword(n) {
                    Err(ParseError::Keyword(n.clone()))
                } else {
                    Ok((n.clone(), pos + 1))
                }
            },
            _ => Err(ParseError::ExpectedIdent(false)),
        }
    } else {
        Err(ParseError::ExpectedIdent(true))
    }
}

/// The `,` at `pos`.
pub fn parse_comma(toks: &Vec<Tok>, pos: usize) -> (r: Result<usize, ParseError>)
    requires
        pos <= toks@.len(),
    ensures
        pos_as(r, spec_comma(toks_view(toks@), pos as int)),
{
    if pos < toks.len() {
        match &toks[pos] {
            Tok::Punct(c, _) => {
                if *c == ',' {
                    Ok(pos + 1)
                } else {
                    Err(ParseError::ExpectedComma)
                }
            },
            _ => Err(ParseError::ExpectedComma),
        }
    } else {
        Err(ParseError::ExpectedComma)
    }
}

/// The parenthesized group at `pos`: its inner trees.
pub fn parse_parens(toks: &Vec<Tok>, pos: usize) -> (r: Result<(&Vec<Tok>, usize), ParseError>)
    requires
        pos <= toks@.len(),
    ensures
        match r {
            Ok((c, p)) => spec_parens(toks_view(toks@), pos as int) == Ok::<
                (Seq<TokV>, int),
                ErrV,
            >((toks_view(c@), p as int)),
            Err(e) => spec_parens(toks_view(toks@), pos as int) == Err::<(Seq<TokV>, int), ErrV>(
                e@,
            ),
        },
{
    if pos < toks.len() {
        match &toks[pos] {
            Tok::Group(Delim::Paren, inner) => {
                proof {
                    lemma_group_view(Delim::Paren, *inner);
                }
                Ok((inner, pos + 1))
            },
            _ => Err(ParseError::ExpectedParens(false)),
        }
    } else {
        Err(ParseError::ExpectedParens(true))
    }
}

/// A value that is read from token trees, as `syn` reads one from a parse stream.
pub trait Parse: Sized + View {
    /// The value read at position `i` and the position after it, or why none is there.
    spec fn spec_parse(s: Seq<TokV>, i: int) -> Result<(Self::V, int), ErrV>;

    /// Reading never goes backwards nor past the end.
    proof fn lemma_parse_advances(s: Seq<TokV>, i: int)
        requires
            0 <= i <= s.len(),
        ensures
            Self::spec_parse(s, i) matches Ok((_, j)) ==> i <= j <= s.len(),
    ;

    /// Reads the value at `pos`.
    fn parse(toks: &Vec<Tok>, pos: usize) -> (r: Result<(Self, usize), ParseError>)
        requires
            pos <= toks@.len(),
        ensures
            parsed_as(r, Self::spec_parse(toks_view(toks@), pos as int)),
    ;
}

/// An identifier is read as its text.
impl Parse for String {
    open spec fn spec_parse(s: Seq<TokV>, i: int) -> Result<(Seq<char>, int), ErrV> {
        spec_ident(s, i)
    }

    proof fn lemma_parse_advances(s: Seq<TokV>, i: int) {
    }

    fn parse(toks: &Vec<Tok>, pos: usize) -> (r: Result<(String, usize), ParseError>) {
        parse_ident(toks, pos)
    }
}

/// Values separated by commas, with an optional trailing comma, up to the end of the trees.
pub open spec fn spec_punctuated<T: Parse>(s: Seq<TokV>, i: int) -> Result<Seq<T::V>, ErrV>
    decreases s.len() - i,
{
    if i < 0 || i >= s.len() {
        Ok(seq![])
    } else {
        match T::spec_parse(s, i) {
            Err(e) => Err(e),
            Ok((v, j)) => {
                if j >= s.len() {
                    Ok(seq![v])
                } else {
                    match spec_comma(s, j) {
                        Err(e) => Err(e),
                        Ok(k) => {
                            proof {
                                T::lemma_parse_advances(s, i);
                            }
                            match spec_punctuated::<T>(s, k) {
                                Ok(vs) => Ok(seq![v] + vs),
                                Err(e) => Err(e),
                            }
                        },
                    }
                }
            },
        }
    }
}

/// Reads values separated by commas, with an optional trailing comma, up to the end of `toks`.
pub fn parse_terminated<T: Parse>(toks: &Vec<Tok>) -> (r: Result<Vec<T>, ParseError>)
    ensures
        match r {
            Ok(v) => spec_punctuated::<T>(toks_view(toks@), 0) == Ok::<Seq<T::V>, ErrV>(vals(v@)),
            Err(e) => spec_punctuated::<T>(toks_view(toks@), 0) == Err::<Seq<T::V>, ErrV>(e@),
        },
{
    let ghost s = toks_view(toks@);
    let mut out: Vec<T> = Vec::new();
    let mut pos: usize = 0;
    while pos < toks.len()
        invariant
            s == toks_view(toks@),
            pos <= toks@.len(),
            spec_punctuated::<T>(s, 0) == (match spec_punctuated::<T>(s, pos as int) {
                Ok(vs) => Ok::<Seq<T::V>, ErrV>(vals(out@) + vs),
                Err(e) => Err(e),
            }),
        decreases toks@.len() - pos,
    {
        let ghost before = out@;
        match T::parse(toks, pos) {
            Err(e) => {
                return Err(e);
            },
            Ok((v, j)) => {
                proof {
                    T::lemma_parse_advances(s, pos as int);
                }
                out.push(v);
                assert(vals(out@) =~= vals(before) + seq![out@[before.len() as int]@]);
                if j >= toks.len() {
                    return Ok(out);
                }
                match parse_comma(toks, j) {
                    Err(e) => {
                        return Err(e);
                    },
                    Ok(k) => {
                        proof {
                            let v = out@[before.len() as int]@;
                            match spec_punctuated::<T>(s, k as int) {
                                Ok(vs) => {
                                    assert(vals(out@) + vs =~= vals(before) + (seq![v] + vs));
                                },
                                Err(e) => {},
                            }
                        }
                        pos = k;
                    },
                }
            },
        }
    }
    assert(vals(out@) + seq![] =~= vals(out@));
    Ok(out)
}

/// A parenthesized list of values separated by commas.
#[derive(Debug)]
pub struct UnnamedList<T> {
    pub list: Vec<T>,
}

impl<T: View> View for UnnamedList<T> {
    type V = Seq<T::V>;

    open spec fn view(&self) -> Seq<T::V> {
        vals(self.list@)
    }
}

impl<T: Parse> Parse for UnnamedList<T> {
    open spec fn spec_parse(s: Seq<TokV>, i: int) -> Result<(Seq<T::V>, int), ErrV> {
        match spec_parens(s, i) {
            Err(e) => Err(e),
            Ok((c, j)) => match spec_punctuated::<T>(c, 0) {
                Ok(vs) => Ok((vs, j)),
                Err(e) => Err(e),
            },
        }
    }

    proof fn lemma_parse_advances(s: Seq<TokV>, i: int) {
    }

    fn parse(toks: &Vec<Tok>, pos: usize) -> (r: Result<(UnnamedList<T>, usize), ParseError>) {
        let (content, next) = match parse_parens(toks, pos) {
            Ok(x) => x,
            Err(e) => {
                return Err(e);
            },
        };
        match parse_terminated::<T>(content) {
            Ok(list) => Ok((UnnamedList { list }, next)),
            Err(e) => Err(e),
        }
    }
}

/// A name followed by a named list. Reading one reads an identifier and then a named list after
/// it, so reading goes through all the identifiers that follow one another and fails where the
/// first token that is no identifier (or the end) stands.
#[derive(Debug)]
pub struct NamedList<T> {
    pub name: String,
    pub list: Vec<T>,
}

impl<T: View> View for NamedList<T> {
    type V = (Seq<char>, Seq<T::V>);

    open spec fn view(&self) -> (Seq<char>, Seq<T::V>) {
        (self.name@, vals(self.list@))
    }
}

/// Why reading a named list at position `i` fails: the refusal of the first token from `i` on
/// that is no identifier.
pub open spec fn named_list_error(s: Seq<TokV>, i: int) -> ErrV
    decreases s.len() - i,
{
    match spec_ident(s, i) {
        Err(e) => e,
        Ok((_, j)) => named_list_error(s, j),
    }
}

impl<T: Parse> Parse for NamedList<T> {
    open spec fn spec_parse(s: Seq<TokV>, i: int) -> Result<((Seq<char>, Seq<T::V>), int), ErrV> {
        Err(named_list_error(s, i))
    }

    proof fn lemma_parse_advances(s: Seq<TokV>, i: int) {
    }

    fn parse(toks: &Vec<Tok>, pos: usize) -> (r: Result<(NamedList<T>, usize), ParseError>) {
        let ghost s = toks_view(toks@);
        let mut p = pos;
        loop
            invariant
                s == toks_view(toks@),
                p <= toks@.len(),
                named_list_error(s, pos as int) == named_list_error(s, p as int),
            decreases toks@.len() - p,
        {
            match parse_ident(toks, p) {
                Err(e) => {
                    return Err(e);
                },
                Ok((_, next)) => {
                    p = next;
                },
            }
        }
    }
}

/// Whether a list of identifiers may name one thing twice, and what an error calls its items.
pub trait RepeatAllow {
    /// Whether a list may name one thing twice.
    spec fn repeats_allowed() -> bool;

    /// What an error calls the items of a list.
    spec fn repeat_noun() -> Seq<char>;

    /// Whether a list may name one thing twice.
    fn repeat_allowed() -> (b: bool)
        ensures
            b == Self::repeats_allowed(),
    ;

    /// What an error calls the items of a list.
    fn repeat_msg() -> (s: &'static str)
        ensures
            s@ == Self::repeat_noun(),
    ;
}

/// Lists of identifiers name each thing once; their items are called "ident".
pub struct RepeatAllowStd;

impl RepeatAllow for RepeatAllowStd {
    open spec fn repeats_allowed() -> bool {
        false
    }

    open spec fn repeat_noun() -> Seq<char> {
        "ident"@
    }

    fn repeat_allowed() -> (b: bool) {
        false
    }

    fn repeat_msg() -> (s: &'static str) {
        "ident"
    }
}

/// The first item of `l[0..n]` that an earlier item equals, if there is one.
pub open spec fn first_repeat(l: Seq<Seq<char>>, n: int) -> Option<Seq<char>>
    decreases n,
{
    if n <= 0 {
        None
    } else {
        match first_repeat(l, n - 1) {
            Some(x) => Some(x),
            None => if l.subrange(0, n - 1).contains(l[n - 1]) {
                Some(l[n - 1])
            } else {
                None
            },
        }
    }
}

/// The items of `l[0..n]`, each at its first place, without later repeats.
pub open spec fn dedup(l: Seq<Seq<char>>, n: int) -> Seq<Seq<char>>
    decreases n,
{
    if n <= 0 {
        seq![]
    } else if dedup(l, n - 1).contains(l[n - 1]) {
        dedup(l, n - 1)
    } else {
        dedup(l, n - 1).push(l[n - 1])
    }
}

/// A parenthesized list of identifiers, held as the set of their texts.
#[derive(Debug)]
pub struct UnnamedIdents<R: RepeatAllow = RepeatAllowStd> {
    pub map: Vec<String>,
    pub phantom: PhantomData<R>,
}

impl<R: RepeatAllow> View for UnnamedIdents<R> {
    type V = Seq<Seq<char>>;

    open spec fn view(&self) -> Seq<Seq<char>> {
        vals(self.map@)
    }
}

/// The identifiers of a list, as a list of distinct texts, or the repeat that the list may not
/// hold.
pub open spec fn ident_set<R: RepeatAllow>(l: Seq<Seq<char>>) -> Result<Seq<Seq<char>>, ErrV> {
    if !R::repeats_allowed() && first_repeat(l, l.len() as int) is Some {
        Err(ErrV::Repeated(R::repeat_noun(), first_repeat(l, l.len() as int)->0))
    } else {
        Ok(dedup(l, l.len() as int))
    }
}

pub fn contains_text(v: &Vec<String>, s: &String) -> (r: bool)
    ensures
        r == vals(v@).contains(s@),
{
    let mut i: usize = 0;
    while i < v.len()
        invariant
            i <= v@.len(),
            forall|k: int| 0 <= k < i ==> vals(v@)[k] != s@,
        decreases v@.len() - i,
    {
        if v[i].eq(s) {
            assert(vals(v@)[i as int] == s@);
            return true;
        }
        i = i + 1;
    }
    false
}

fn collect_idents<R: RepeatAllow>(list: Vec<String>) -> (r: Result<Vec<String>, ParseError>)
    ensures
        match r {
            Ok(m) => ident_set::<R>(vals(list@)) == Ok::<Seq<Seq<char>>, ErrV>(vals(m@)),
            Err(e) => ident_set::<R>(vals(list@)) == Err::<Seq<Seq<char>>, ErrV>(e@),
        },
{
    let ghost l = vals(list@);
    let allowed = R::repeat_allowed();
    let mut map: Vec<String> = Vec::new();
    let mut i: usize = 0;
    while i < list.len()
        invariant
            l == vals(list@),
            allowed == R::repeats_allowed(),
            i <= list@.len(),
            vals(map@) == dedup(l, i as int),
            !allowed ==> first_repeat(l, i as int) is None,
        decreases list@.len() - i,
    {
        let name = &list[i];
        if contains_text(&map, name) {
            proof {
                lemma_dedup_contains(l, i as int);
            }
            if !allowed {
                proof {
                    assert(first_repeat(l, i + 1) == Some(l[i as int]));
                    lemma_first_repeat_stays(l, i + 1, l.len() as int);
                }
                let what = R::repeat_msg();
                return Err(ParseError::Repeated(what.to_owned(), name.clone()));
            }
        } else {
            proof {
                lemma_dedup_contains(l, i as int);
            }
            map.push(name.clone());
            assert(vals(map@) =~= dedup(l, i as int).push(l[i as int]));
        }
        i = i + 1;
    }
    assert(l.len() == list@.len());
    Ok(map)
}

/// An item is in the repeat-free list of a prefix exactly when it is in the prefix.
proof fn lemma_dedup_contains(l: Seq<Seq<char>>, n: int)
    requires
        0 <= n <= l.len(),
    ensures
        forall|x: Seq<char>| #[trigger] dedup(l, n).contains(x) <==> l.subrange(0, n).contains(x),
    decreases n,
{
    if n > 0 {
        lemma_dedup_contains(l, n - 1);
        let prev = l.subrange(0, n - 1);
        let cur = l.subrange(0, n);
        assert(cur =~= prev.push(l[n - 1]));
        assert forall|x: Seq<char>| #[trigger] dedup(l, n).contains(x) <==> cur.contains(x) by {
            if cur.contains(x) {
                let k = choose|k: int| 0 <= k < cur.len() && cur[k] == x;
                if k < n - 1 {
                    assert(prev[k] == x);
                    assert(prev.contains(x));
                    assert(dedup(l, n - 1).contains(x));
                    if !dedup(l, n - 1).contains(l[n - 1]) {
                        let d = dedup(l, n - 1);
                        let m = choose|m: int| 0 <= m < d.len() && d[m] == x;
                        assert(d.push(l[n - 1])[m] == x);
                    }
                } else {
                    if !dedup(l, n - 1).contains(l[n - 1]) {
                        let d = dedup(l, n - 1);
                        assert(d.push(l[n - 1])[d.len() as int] == x);
                    }
                }
            }
            if dedup(l, n).contains(x) {
                let d = dedup(l, n - 1);
                if d.contains(l[n - 1]) {
                    assert(d.contains(x));
                    assert(prev.contains(x));
                    let k = choose|k: int| 0 <= k < prev.len() && prev[k] == x;
                    assert(cur[k] == x);
                } else {
                    let dp = d.push(l[n - 1]);
                    assert(dedup(l, n) == dp);
                    let m = choose|m: int| 0 <= m < dp.len() && dp[m] == x;
                    if m < d.len() {
                        assert(dp[m] == d[m]);
                        assert(d[m] == x);
                        assert(d.contains(x));
                        assert(prev.contains(x));
                        let k = choose|k: int| 0 <= k < prev.len() && prev[k] == x;
                        assert(cur[k] == x);
                    } else {
                        assert(cur[n - 1] == x);
                    }
                }
            }
        }
    } else {
        assert forall|x: Seq<char>| #[trigger] dedup(l, n).contains(x) <==> l.subrange(0, n).contains(x) by {
            assert(l.subrange(0, n) =~= Seq::<Seq<char>>::empty());
        }
    }
}

/// Once a list has a repeat, each longer prefix has the same first repeat.
proof fn lemma_first_repeat_stays(l: Seq<Seq<char>>, n: int, m: int)
    requires
        0 <= n <= m,
        first_repeat(l, n) is Some,
    ensures
        first_repeat(l, m) == first_repeat(l, n),
    decreases m - n,
{
    if m > n {
        lemma_first_repeat_stays(l, n, m - 1);
    }
}

impl<R: RepeatAllow> Parse for UnnamedIdents<R> {
    open spec fn spec_parse(s: Seq<TokV>, i: int) -> Result<(Seq<Seq<char>>, int), ErrV> {
        match spec_parens(s, i) {
            Err(e) => Err(e),
            Ok((c, j)) => match spec_punctuated::<String>(c, 0) {
                Err(e) => Err(e),
                Ok(l) => match ident_set::<R>(l) {
                    Err(e) => Err(e),
                    Ok(m) => Ok((m, j)),
                },
            },
        }
    }

    proof fn lemma_parse_advances(s: Seq<TokV>, i: int) {
    }

    fn parse(toks: &Vec<Tok>, pos: usize) -> (r: Result<(UnnamedIdents<R>, usize), ParseError>) {
        let (content, next) = match parse_parens(toks, pos) {
            Ok(x) => x,
            Err(e) => {
                return Err(e);
            },
        };
        let list = match parse_terminated::<String>(content) {
            Ok(l) => l,
            Err(e) => {
                return Err(e);
            },
        };
        match collect_idents::<R>(list) {
            Ok(map) => Ok((UnnamedIdents { map, phantom: PhantomData }, next)),
            Err(e) => Err(e),
        }
    }
}

/// A name followed by a parenthesized list of identifiers.
#[derive(Debug)]
pub struct NamedIdents<R: RepeatAllow = RepeatAllowStd> {
    pub name: String,
    pub map: Vec<String>,
    pub phantom: PhantomData<R>,
}

impl<R: RepeatAllow> View for NamedIdents<R> {
    type V = (Seq<char>, Seq<Seq<char>>);

    open spec fn view(&self) -> (Seq<char>, Seq<Seq<char>>) {
        (self.name@, vals(self.map@))
    }
}

impl<R: RepeatAllow> Parse for NamedIdents<R> {
    open spec fn spec_parse(s: Seq<TokV>, i: int) -> Result<((Seq<char>, Seq<Seq<char>>), int), ErrV> {
        match spec_ident(s, i) {
            Err(e) => Err(e),
            Ok((n, j)) => match UnnamedIdents::<R>::spec_parse(s, j) {
                Err(e) => Err(e),
                Ok((m, k)) => Ok(((n, m), k)),
            },
        }
    }

    proof fn lemma_parse_advances(s: Seq<TokV>, i: int) {
    }

    fn parse(toks: &Vec<Tok>, pos: usize) -> (r: Result<(NamedIdents<R>, usize), ParseError>) {
        let (name, next) = match parse_ident(toks, pos) {
            Ok(x) => x,
            Err(e) => {
                return Err(e);
            },
        };
        match UnnamedIdents::<R>::parse(toks, next) {
            Ok((m, end)) => Ok((NamedIdents { name, map: m.map, phantom: PhantomData }, end)),
            Err(e) => Err(e),
        }
    }
}

} // verus!
