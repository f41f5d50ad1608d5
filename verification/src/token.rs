//! The lexical token tree that the whole crate works on.
//!
//! A source item is represented as a flat sequence of [`Token`]s; nesting
//! comes only from [`Token::Group`], whose children are again a sequence of
//! tokens.  The mathematical model of a token is [`TokenModel`], where every
//! piece of text is a `Seq<char>` and every child list is a `Seq<TokenModel>`.

use vstd::prelude::*;

verus! {

/// The delimiter of a token group.
#[derive(Clone, Copy, Debug, PartialEq, Eq, Structural)]
pub enum Delim {
    /// `( ... )`
    Parenthesis,
    /// `[ ... ]`
    Bracket,
    /// `{ ... }`
    Brace,
    /// An invisible delimiter.
    NoDelim,
}

/// Whether a punctuation character is followed immediately by another
/// punctuation character of the same compound operator.
#[derive(Clone, Copy, Debug, PartialEq, Eq, Structural)]
pub enum Spacing {
    /// The character stands on its own.
    Alone,
    /// The character is joined with the next one.
    Joint,
}

/// One node of the token tree.
#[derive(Debug, PartialEq, Eq)]
pub enum Token {
    /// An identifier or keyword, stored as its text.
    Ident(String),
    /// A single punctuation character with its spacing hint.
    Punct(char, Spacing),
    /// A literal, stored as its source text (quotes included for strings).
    Lit(String),
    /// A delimited group of child tokens.
    Group(Delim, Vec<Token>),
}

/// The mathematical value of a [`Token`]: text becomes `Seq<char>`,
/// child vectors become `Seq<TokenModel>`.
#[verifier::ext_equal]
pub enum TokenModel {
    /// Model of [`Token::Ident`].
    Ident(Seq<char>),
    /// Model of [`Token::Punct`].
    Punct(char, Spacing),
    /// Model of [`Token::Lit`].
    Lit(Seq<char>),
    /// Model of [`Token::Group`].
    Group(Delim, Seq<TokenModel>),
}

/// The model of a single token.
pub open spec fn token_model(t: Token) -> TokenModel
    decreases t,
{
    match t {
        Token::Ident(s) => TokenModel::Ident(s@),
        Token::Punct(c, sp) => TokenModel::Punct(c, sp),
        Token::Lit(s) => TokenModel::Lit(s@),
        Token::Group(d, ts) => TokenModel::Group(d, seq_model(ts@)),
    }
}

/// The model of a token sequence, element by element.
pub open spec fn seq_model(ts: Seq<Token>) -> Seq<TokenModel>
    decreases ts,
{
    if ts.len() == 0 {
        Seq::empty()
    } else {
        seq![token_model(ts[0])] + seq_model(ts.skip(1))
    }
}

/// `seq_model` is the element-wise image of `token_model`.
pub broadcast proof fn lemma_seq_model(ts: Seq<Token>)
    ensures
        (#[trigger] seq_model(ts)).len() == ts.len(),
        forall|i: int| 0 <= i < ts.len() ==> seq_model(ts)[i] == token_model(ts[i]),
    decreases ts,
{
    if ts.len() > 0 {
        lemma_seq_model(ts.skip(1));
    }
}

impl View for Token {
    type V = TokenModel;

    open spec fn view(&self) -> TokenModel {
        token_model(*self)
    }
}

impl Clone for Token {
    /// A clone has the same model as the original.
    fn clone(&self) -> (res: Token)
        ensures
            res@ == self@,
        decreases *self,
    {
        match self {
            Token::Ident(s) => Token::Ident(s.clone()),
            Token::Punct(c, sp) => Token::Punct(*c, *sp),
            Token::Lit(s) => Token::Lit(s.clone()),
            Token::Group(d, ts) => {
                let mut children: Vec<Token> = Vec::new();
                let mut i: usize = 0;
                #[verifier::loop_isolation(false)]
                while i < ts.len()
                    invariant
                        i <= ts.len(),
                        children.len() == i,
                        forall|j: int| 0 <= j < i ==> children@[j]@ == ts@[j]@,
                    decreases ts.len() - i,
                {
                    children.push(ts[i].clone());
                    i = i + 1;
                }
                proof {
                    lemma_seq_model(children@);
                    lemma_seq_model(ts@);
                    assert(seq_model(children@) =~= seq_model(ts@));
                }
                Token::Group(*d, children)
            },
        }
    }
}

/// Clones a token sequence; the result has the same model.
pub fn clone_tokens(ts: &Vec<Token>) -> (res: Vec<Token>)
    ensures
        seq_model(res@) == seq_model(ts@),
{
    let mut out: Vec<Token> = Vec::new();
    let mut i: usize = 0;
    while i < ts.len()
        invariant
            i <= ts.len(),
            out.len() == i,
            forall|j: int| 0 <= j < i ==> out@[j]@ == ts@[j]@,
        decreases ts.len() - i,
    {
        out.push(ts[i].clone());
        i = i + 1;
    }
    proof {
        lemma_seq_model(out@);
        lemma_seq_model(ts@);
        assert(seq_model(out@) =~= seq_model(ts@));
    }
    out
}

} // verus!
