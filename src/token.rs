//! Tokens as delivered by the lexer, and the clamped view of a token
//! sequence that the parser reads from.
use vstd::prelude::*;

verus! {

/// The kind of a token; tokens that carry text (names, literals) keep it in
/// `Token::text`.
#[derive(Clone, Copy, PartialEq, Eq, Structural, Debug)]
pub enum TokenKind {
    Eof,
    Newline,
    Identifier,
    Variable,
    String,
    Integer,
    Float,
    True,
    False,
    Nothing,
    Use,
    Let,
    Print,
    Return,
    Throw,
    If,
    Else,
    While,
    Try,
    Catch,
    Finally,
    Function,
    And,
    Or,
    Not,
    Is,
    Dot,
    Comma,
    Equals,
    EqualsEquals,
    BangEquals,
    LeftAngleBracket,
    RightAngleBracket,
    LeftAngleBracketEquals,
    RightAngleBracketEquals,
    LeftParenthesis,
    RightParenthesis,
    LeftCurlyBracket,
    RightCurlyBracket,
    Plus,
    Dash,
    Asterisk,
    Slash,
    VerticalBar,
}

/// A token with its payload text (empty for punctuation and keywords) and the
/// byte offset in the source where it starts.
pub struct Token {
    pub kind: TokenKind,
    pub text: String,
    pub offset: usize,
}

impl Token {
    pub fn new(kind: TokenKind, text: String, offset: usize) -> (r: Token)
        ensures
            r.kind == kind,
            r.text == text,
            r.offset == offset,
    {
        Token { kind, text, offset }
    }

    pub fn duplicate(&self) -> (r: Token)
        ensures
            r == *self,
    {
        Token { kind: self.kind, text: self.text.clone(), offset: self.offset }
    }
}

/// A token sequence the parser can read: non-empty, closed by `Eof`, and
/// with no `Eof` before the end.
pub open spec fn well_formed(t: Seq<Token>) -> bool {
    &&& t.len() > 0
    &&& t.last().kind == TokenKind::Eof
    &&& forall|i: int| 0 <= i < t.len() - 1 ==> #[trigger] t[i].kind != TokenKind::Eof
}

/// Token `i` of the stream; reading past the end keeps yielding the closing
/// `Eof`.
pub open spec fn tok(t: Seq<Token>, i: int) -> Token {
    if i < t.len() - 1 {
        t[i]
    } else {
        t[t.len() - 1]
    }
}

pub open spec fn kind_at(t: Seq<Token>, i: int) -> TokenKind {
    tok(t, i).kind
}

/// The position after consuming token `i`; the closing `Eof` is never left.
pub open spec fn step(t: Seq<Token>, i: int) -> int {
    if i < t.len() - 1 {
        i + 1
    } else {
        i
    }
}

/// The first position at or after `i` that does not hold a newline.
pub open spec fn skip_nl(t: Seq<Token>, i: int) -> int
    decreases t.len() - i,
{
    if 0 <= i < t.len() - 1 && t[i].kind == TokenKind::Newline {
        skip_nl(t, i + 1)
    } else {
        i
    }
}

pub proof fn lemma_skip_nl(t: Seq<Token>, i: int)
    requires
        well_formed(t),
        0 <= i,
    ensures
        i <= skip_nl(t, i),
        i < t.len() ==> skip_nl(t, i) < t.len(),
        kind_at(t, skip_nl(t, i)) != TokenKind::Newline,
        forall|j: int| i <= j < skip_nl(t, i) ==> #[trigger] kind_at(t, j) == TokenKind::Newline,
        skip_nl(t, skip_nl(t, i)) == skip_nl(t, i),
    decreases t.len() - i,
{
    if 0 <= i < t.len() - 1 && t[i].kind == TokenKind::Newline {
        lemma_skip_nl(t, i + 1);
    }
}

/// A source of tokens read one at a time, in order; past its end it keeps
/// delivering its closing `Eof`.
pub struct TokenSource {
    tokens: Vec<Token>,
    next: usize,
}

impl TokenSource {
    pub closed spec fn tokens(&self) -> Seq<Token> {
        self.tokens@
    }

    /// Index of the next token to be delivered.
    pub closed spec fn next_index(&self) -> int {
        self.next as int
    }

    pub closed spec fn wf(&self) -> bool {
        well_formed(self.tokens@) && self.next < self.tokens@.len()
    }

    pub fn new(tokens: Vec<Token>) -> (r: TokenSource)
        requires
            well_formed(tokens@),
        ensures
            r.wf(),
            r.tokens() == tokens@,
            r.next_index() == 0,
    {
        TokenSource { tokens, next: 0 }
    }

    pub fn next_token(&mut self) -> (r: Token)
        requires
            old(self).wf(),
        ensures
            final(self).wf(),
            final(self).tokens() == old(self).tokens(),
            r == tok(old(self).tokens(), old(self).next_index()),
            final(self).next_index() == step(old(self).tokens(), old(self).next_index()),
    {
        let r = self.tokens[self.next].duplicate();
        if self.next < self.tokens.len() - 1 {
            self.next = self.next + 1;
        }
        r
    }
}

} // verus!
