//! Token trees: the input and the output of the attribute.
use vstd::prelude::*;
use proc_macro2::Delimiter as Pm2Delimiter;
use proc_macro2::Spacing as Pm2Spacing;
use proc_macro2::TokenTree as Pm2Tree;

verus! {

/// The delimiter of a token group.
#[derive(Clone, Copy, Debug, PartialEq, Eq, Structural)]
pub enum Delim {
    Paren,
    Brace,
    Bracket,
    /// no delimiters: a group that only keeps its trees together
    Invisible,
}

/// Whether a punctuation character is joined to the punctuation character after it.
#[derive(Clone, Copy, Debug, PartialEq, Eq, Structural)]
pub enum Spacing {
    Alone,
    Joint,
}

/// A token tree: an identifier, a punctuation character, a literal, or a delimited group.
#[derive(Debug)]
pub enum Tok {
    Ident(String),
    Punct(char, Spacing),
    Lit(String),
    Group(Delim, Vec<Tok>),
}

/// The mathematical value of a token tree.
pub enum TokV {
    Ident(Seq<char>),
    Punct(char, Spacing),
    Lit(Seq<char>),
    Group(Delim, Seq<TokV>),
}

impl View for Tok {
    type V = TokV;

    open spec fn view(&self) -> TokV
        decreases self,
    {
        match self {
            Tok::Ident(s) => TokV::Ident(s@),
            Tok::Punct(c, sp) => TokV::Punct(*c, *sp),
            Tok::Lit(s) => TokV::Lit(s@),
            Tok::Group(d, ts) => TokV::Group(
                *d,
                Seq::new(
                    ts@.len(),
                    |i: int|
                        if 0 <= i < ts@.len() {
                            ts@[i].view()
                        } else {
                            TokV::Lit(Seq::empty())
                        },
                ),
            ),
        }
    }
}

/// The values of a sequence of token trees.
pub open spec fn toks_view(ts: Seq<Tok>) -> Seq<TokV> {
    Seq::new(ts.len(), |i: int| ts[i]@)
}

/// The value of a group is its delimiter and the values of its trees.
pub proof fn lemma_group_view(d: Delim, ts: Vec<Tok>)
    ensures
        Tok::Group(d, ts)@ == TokV::Group(d, toks_view(ts@)),
{
    reveal_with_fuel(<Tok as View>::view, 2);
    let g = Tok::Group(d, ts);
    assert(g@->Group_1 =~= toks_view(ts@));
}

/// Pushing a tree pushes its value.
pub proof fn lemma_toks_view_push(ts: Seq<Tok>, t: Tok)
    ensures
        toks_view(ts.push(t)) == toks_view(ts).push(t@),
{
    assert(toks_view(ts.push(t)) =~= toks_view(ts).push(t@));
}

/// The opening character of a delimiter.
pub open spec fn open_char(d: Delim) -> char {
    match d {
        Delim::Paren => '(',
        Delim::Brace => '{',
        Delim::Bracket => '[',
        Delim::Invisible => ' ',
    }
}

/// The closing character of a delimiter.
pub open spec fn close_char(d: Delim) -> char {
    match d {
        Delim::Paren => ')',
        Delim::Brace => '}',
        Delim::Bracket => ']',
        Delim::Invisible => ' ',
    }
}

/// The text of a token tree: a group without delimiters is the text of its trees.
pub open spec fn render_tok(t: TokV) -> Seq<char>
    decreases t,
{
    match t {
        TokV::Ident(s) => s,
        TokV::Lit(s) => s,
        TokV::Punct(c, _) => seq![c],
        TokV::Group(d, ts) => if d == Delim::Invisible {
            render_seq(ts)
        } else {
            seq![open_char(d)] + render_seq(ts) + seq![close_char(d)]
        },
    }
}

/// What separates the text of a tree from the text of the trees before it: nothing after a
/// joint punctuation character or at the start, one space otherwise.
pub open spec fn gap(before: Seq<TokV>) -> Seq<char> {
    if before.len() == 0 {
        seq![]
    } else if before[before.len() - 1] matches TokV::Punct(_, Spacing::Joint) {
        seq![]
    } else {
        seq![' ']
    }
}

/// The text of a sequence of token trees.
pub open spec fn render_seq(ts: Seq<TokV>) -> Seq<char>
    decreases ts,
{
    if ts.len() == 0 {
        seq![]
    } else {
        let before = ts.subrange(0, ts.len() - 1);
        render_seq(before) + gap(before) + render_tok(ts[ts.len() - 1])
    }
}

/// Appends a character to a string.
#[verifier::external_body]
fn push_char(s: &mut String, c: char)
    ensures
        final(s)@ == old(s)@.push(c),
{
    s.push(c);
}

fn delim_open(d: Delim) -> (c: char)
    ensures
        c == open_char(d),
{
    match d {
        Delim::Paren => '(',
        Delim::Brace => '{',
        Delim::Bracket => '[',
        Delim::Invisible => ' ',
    }
}

fn delim_close(d: Delim) -> (c: char)
    ensures
        c == close_char(d),
{
    match d {
        Delim::Paren => ')',
        Delim::Brace => '}',
        Delim::Bracket => ']',
        Delim::Invisible => ' ',
    }
}

fn render_tok_into(out: &mut String, t: &Tok)
    ensures
        final(out)@ == old(out)@ + render_tok(t@),
    decreases t,
{
    match t {
        Tok::Ident(s) => {
            out.append(s.as_str());
        },
        Tok::Lit(s) => {
            out.append(s.as_str());
        },
        Tok::Punct(c, _) => {
            push_char(out, *c);
            assert(out@ =~= old(out)@ + seq![*c]);
        },
        Tok::Group(d, ts) => {
            proof {
                lemma_group_view(*d, *ts);
            }
            if *d == Delim::Invisible {
                render_seq_into(out, ts);
            } else {
                push_char(out, delim_open(*d));
                render_seq_into(out, ts);
                push_char(out, delim_close(*d));
                assert(out@ =~= old(out)@ + (seq![open_char(*d)] + render_seq(toks_view(ts@))
                    + seq![close_char(*d)]));
            }
        },
    }
}

fn render_seq_into(out: &mut String, ts: &Vec<Tok>)
    ensures
        final(out)@ == old(out)@ + render_seq(toks_view(ts@)),
    decreases ts,
{
    let ghost start = out@;
    let ghost all = toks_view(ts@);
    let mut i: usize = 0;
    assert(all.subrange(0, 0) =~= Seq::<TokV>::empty());
    while i < ts.len()
        invariant
            i <= ts@.len(),
            all == toks_view(ts@),
            out@ == start + render_seq(all.subrange(0, i as int)),
        decreases ts@.len() - i,
    {
        let ghost before = all.subrange(0, i as int);
        if i > 0 {
            match &ts[i - 1] {
                Tok::Punct(_, Spacing::Joint) => {},
                _ => {
                    push_char(out, ' ');
                },
            }
        }
        assert(out@ =~= start + render_seq(before) + gap(before));
        proof {
            assert(decreases_to!(ts => ts@[i as int]));
        }
        render_tok_into(out, &ts[i]);
        assert(all.subrange(0, i + 1).subrange(0, i as int) =~= before);
        assert(out@ =~= start + render_seq(all.subrange(0, i + 1)));
        i = i + 1;
    }
    assert(all.subrange(0, ts@.len() as int) =~= all);
}

/// The text of a sequence of token trees.
pub fn render(ts: &Vec<Tok>) -> (s: String)
    ensures
        s@ == render_seq(toks_view(ts@)),
{
    let mut s = String::new();
    render_seq_into(&mut s, ts);
    assert(s@ =~= render_seq(toks_view(ts@)));
    s
}

/// A copy of a token tree.
pub fn copy_tok(t: &Tok) -> (r: Tok)
    ensures
        r@ == t@,
    decreases t,
{
    match t {
        Tok::Ident(s) => Tok::Ident(s.clone()),
        Tok::Punct(c, sp) => Tok::Punct(*c, *sp),
        Tok::Lit(s) => Tok::Lit(s.clone()),
        Tok::Group(d, ts) => {
            let inner = copy_toks(ts);
            proof {
                lemma_group_view(*d, inner);
                lemma_group_view(*d, *ts);
            }
            Tok::Group(*d, inner)
        },
    }
}

/// A copy of a sequence of token trees.
pub fn copy_toks(ts: &Vec<Tok>) -> (r: Vec<Tok>)
    ensures
        toks_view(r@) == toks_view(ts@),
    decreases ts,
{
    let mut r: Vec<Tok> = Vec::new();
    let mut i: usize = 0;
    while i < ts.len()
        invariant
            i <= ts@.len(),
            toks_view(r@) == toks_view(ts@).subrange(0, i as int),
        decreases ts@.len() - i,
    {
        proof {
            assert(decreases_to!(ts => ts@[i as int]));
        }
        let t = copy_tok(&ts[i]);
        proof {
            lemma_toks_view_push(r@, t);
        }
        r.push(t);
        assert(toks_view(r@) =~= toks_view(ts@).subrange(0, i + 1));
        i = i + 1;
    }
    assert(toks_view(r@) =~= toks_view(ts@));
    r
}

/// A blank between tokens in a plain text: a space, a tab, a line feed or a carriage return.
pub open spec fn is_blank(c: char) -> bool {
    c == ' ' || c == '\t' || c == '\n' || c == '\r'
}

/// A text without its blanks.
pub open spec fn unblanked(t: Seq<char>) -> Seq<char>
    decreases t.len(),
{
    if t.len() == 0 {
        seq![]
    } else if is_blank(t.last()) {
        unblanked(t.drop_last())
    } else {
        unblanked(t.drop_last()).push(t.last())
    }
}

/// A character of a word: an ASCII letter, an ASCII digit or `_`.
pub open spec fn is_word_char(c: char) -> bool {
    let n = c as u32;
    (97 <= n <= 122) || (65 <= n <= 90) || (48 <= n <= 57) || c == '_'
}

/// `proc_macro2`'s token stream, carried through the library without being looked into.
#[verifier::external_type_specification]
#[verifier::external_body]
pub struct ExTokenStream(proc_macro2::TokenStream);

/// Converts the token trees of a `proc_macro2` stream, one for one, into `Tok` values: an
/// identifier, a literal and a punctuation character by their text (and spacing), a group by its
/// delimiter and its converted trees. Nothing is promised of the result.
#[verifier::external_body]
pub(crate) fn convert_stream(stream: proc_macro2::TokenStream) -> Vec<Tok> {
    stream.into_iter().map(|tree| match tree {
        Pm2Tree::Ident(i) => Tok::Ident(i.to_string()),
        Pm2Tree::Literal(l) => Tok::Lit(l.to_string()),
        Pm2Tree::Punct(p) => Tok::Punct(p.as_char(), match p.spacing() { Pm2Spacing::Joint => Spacing::Joint, Pm2Spacing::Alone => Spacing::Alone }),
        Pm2Tree::Group(g) => Tok::Group(match g.delimiter() { Pm2Delimiter::Parenthesis => Delim::Paren, Pm2Delimiter::Brace => Delim::Brace, Pm2Delimiter::Bracket => Delim::Bracket, Pm2Delimiter::None => Delim::Invisible }, convert_stream(g.stream())),
    }).collect()
}

/// Lexes a text with `proc_macro2`'s `TokenStream::from_str`, or gives `None` where it refuses
/// the text, and converts the trees with `convert_stream`. Nothing is promised of the result:
/// `proc_macro2` lexes with the compiler's lexer inside a procedural macro and with its own
/// elsewhere, and the two need not agree, so what comes out depends on the process as well as
/// on the text.
#[verifier::external_body]
pub(crate) fn lex(src: &str) -> Option<Vec<Tok>> {
    Some(convert_stream(src.parse::<proc_macro2::TokenStream>().ok()?))
}

} // verus!
