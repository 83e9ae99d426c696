//! Token trees: the syntax that a flag declaration and its annotation are made of.
//!
//! A token is an identifier, a punctuation character, a literal or a delimited
//! group of further tokens. Spans are not modelled: nothing here depends on
//! where a token came from.

use vstd::prelude::*;

verus! {

/// How a punctuation character sits next to the token that follows it.
#[derive(Clone, Copy, Debug, PartialEq, Eq, Structural)]
pub enum Spacing {
    /// Followed by something that is not punctuation, or by nothing.
    Alone,
    /// Glued to the punctuation character that follows, as the first `:` of `::`.
    Joint,
}

/// The brackets around a group of tokens.
#[derive(Clone, Copy, Debug, PartialEq, Eq, Structural)]
pub enum Delimiter {
    /// `( ... )`
    Parenthesis,
    /// `{ ... }`
    Brace,
    /// `[ ... ]`
    Bracket,
    /// No visible bracket; keeps the inner tokens together.
    Invisible,
}

/// One node of a token tree.
#[derive(Debug, PartialEq, Eq)]
pub enum Token {
    /// An identifier or keyword, by its text.
    Ident(String),
    /// One punctuation character.
    Punct(char, Spacing),
    /// A literal exactly as it is spelled in the source, such as `42` or `"XYZ"`.
    Literal(String),
    /// The string literal that denotes the given text. How the text is escaped
    /// is left to whoever renders the token.
    Quoted(String),
    /// A delimited run of tokens.
    Group(Delimiter, Vec<Token>),
}

/// The mathematical value of a [`Token`].
pub enum TokenView {
    Ident(Seq<char>),
    Punct(char, Spacing),
    Literal(Seq<char>),
    Quoted(Seq<char>),
    Group(Delimiter, Seq<TokenView>),
}

/// The value of a token: texts by their characters, a group by the values of
/// its inner tokens.
pub open spec fn token_view(t: Token) -> TokenView
    decreases t,
{
    match t {
        Token::Ident(name) => TokenView::Ident(name@),
        Token::Punct(ch, spacing) => TokenView::Punct(ch, spacing),
        Token::Literal(spelling) => TokenView::Literal(spelling@),
        Token::Quoted(text) => TokenView::Quoted(text@),
        Token::Group(delimiter, inner) => TokenView::Group(
            delimiter,
            Seq::new(
                inner@.len(),
                |i: int|
                    if 0 <= i < inner@.len() {
                        token_view(inner@[i])
                    } else {
                        TokenView::Punct(' ', Spacing::Alone)
                    },
            ),
        ),
    }
}

impl View for Token {
    type V = TokenView;

    open spec fn view(&self) -> TokenView {
        token_view(*self)
    }
}

impl DeepView for Token {
    type V = TokenView;

    open spec fn deep_view(&self) -> TokenView {
        token_view(*self)
    }
}

/// The value of a group is its delimiter and the values of its inner tokens.
pub proof fn lemma_group_view(delimiter: Delimiter, inner: Vec<Token>)
    ensures
        Token::Group(delimiter, inner)@ == TokenView::Group(delimiter, inner.deep_view()),
{
    assert(Token::Group(delimiter, inner)@->Group_1 =~= inner.deep_view());
}

impl TokenView {
    /// Is this the punctuation character `ch`, whatever its spacing?
    pub open spec fn is_punct(self, ch: char) -> bool {
        self matches TokenView::Punct(c, _) && c == ch
    }

    /// Is this the identifier spelled `name`?
    pub open spec fn is_ident(self, name: Seq<char>) -> bool {
        self matches TokenView::Ident(n) && n == name
    }

    /// Is this an identifier with at least one character?
    pub open spec fn is_name(self) -> bool {
        self matches TokenView::Ident(n) && n.len() > 0
    }

    /// Is this a literal that denotes text? A literal taken from the source
    /// does when its spelling opens with a double quote, or with `r` and then
    /// a double quote or `#` (a raw string).
    pub open spec fn is_string_literal(self) -> bool {
        match self {
            TokenView::Quoted(_) => true,
            TokenView::Literal(spelling) => spelling_opens_string(spelling),
            _ => false,
        }
    }
}

/// Does a literal's spelling open as a string literal does?
pub open spec fn spelling_opens_string(spelling: Seq<char>) -> bool {
    ||| spelling.len() >= 1 && spelling[0] == '"'
    ||| spelling.len() >= 2 && spelling[0] == 'r' && (spelling[1] == '"' || spelling[1] == '#')
}

impl Token {
    /// The identifier spelled `name`.
    pub fn ident(name: &str) -> (r: Token)
        ensures
            r@ == TokenView::Ident(name@),
    {
        Token::Ident(name.to_owned())
    }

    /// The string literal that denotes `text`.
    pub fn quoted(text: &str) -> (r: Token)
        ensures
            r@ == TokenView::Quoted(text@),
    {
        Token::Quoted(text.to_owned())
    }

    /// Is this token the punctuation character `ch`?
    pub fn is_punct(&self, ch: char) -> (r: bool)
        ensures
            r == self@.is_punct(ch),
    {
        match self {
            Token::Punct(c, _) => *c == ch,
            _ => false,
        }
    }

    /// Is this token the identifier spelled `name`?
    pub fn is_ident(&self, name: &str) -> (r: bool)
        ensures
            r == self@.is_ident(name@),
    {
        match self {
            Token::Ident(text) => {
                let wanted = name.to_owned();
                *text == wanted
            },
            _ => false,
        }
    }

    /// Is this token a literal that denotes text?
    pub fn is_string_literal(&self) -> (r: bool)
        ensures
            r == self@.is_string_literal(),
    {
        match self {
            Token::Quoted(_) => true,
            Token::Literal(spelling) => {
                let mut rest = spelling.as_str().chars();
                let first = rest.next();
                let second = rest.next();
                match (first, second) {
                    (Some('"'), _) => true,
                    (Some('r'), Some('"')) => true,
                    (Some('r'), Some('#')) => true,
                    _ => false,
                }
            },
            _ => false,
        }
    }

    /// A copy of this token, with copies of all the tokens inside it.
    pub fn duplicate(&self) -> (r: Token)
        ensures
            r@ == self@,
        decreases self,
    {
        match self {
            Token::Ident(name) => Token::Ident(name.clone()),
            Token::Punct(ch, spacing) => Token::Punct(*ch, *spacing),
            Token::Literal(spelling) => Token::Literal(spelling.clone()),
            Token::Quoted(text) => Token::Quoted(text.clone()),
            Token::Group(delimiter, inner) => {
                let copy = duplicate_all(inner);
                proof {
                    lemma_group_view(*delimiter, copy);
                    lemma_group_view(*delimiter, *inner);
                }
                Token::Group(*delimiter, copy)
            },
        }
    }
}

impl Clone for Token {
    fn clone(&self) -> (r: Self)
        ensures
            r@ == self@,
    {
        self.duplicate()
    }
}

/// Copies of the tokens of `ts`, in the same order.
pub fn duplicate_all(ts: &Vec<Token>) -> (r: Vec<Token>)
    ensures
        r.deep_view() == ts.deep_view(),
    decreases ts,
{
    let mut copy: Vec<Token> = Vec::new();
    let mut i: usize = 0;
    while i < ts.len()
        invariant
            i <= ts.len(),
            copy.len() == i,
            forall|j: int| 0 <= j < i ==> copy@[j]@ == ts@[j]@,
        decreases ts.len() - i,
    {
        copy.push(ts[i].duplicate());
        i += 1;
    }
    assert(copy.deep_view() =~= ts.deep_view());
    copy
}

/// Appends one token to `out`.
pub fn emit(out: &mut Vec<Token>, t: Token)
    ensures
        final(out).deep_view() == old(out).deep_view().push(t@),
{
    out.push(t);
    assert(out.deep_view() =~= old(out).deep_view().push(t@));
}

/// Appends copies of the tokens of `ts` to `out`.
pub fn emit_all(out: &mut Vec<Token>, ts: &Vec<Token>)
    ensures
        final(out).deep_view() == old(out).deep_view() + ts.deep_view(),
{
    let mut i: usize = 0;
    while i < ts.len()
        invariant
            i <= ts.len(),
            out.deep_view() == old(out).deep_view() + ts.deep_view().take(i as int),
        decreases ts.len() - i,
    {
        emit(out, ts[i].duplicate());
        assert(ts.deep_view().take(i + 1) =~= ts.deep_view().take(i as int).push(ts@[i as int]@));
        assert(out.deep_view() =~= old(out).deep_view() + ts.deep_view().take(i + 1));
        i += 1;
    }
    assert(ts.deep_view().take(ts.len() as int) =~= ts.deep_view());
}

} // verus!
