//! The lookahead buffer: a queue of tokens pulled on demand from a token
//! source, read under a newline policy.
use vstd::prelude::*;
use std::collections::VecDeque;
use crate::grammar::{
    advance, error_at, next_token, nth_visible, peek, peek_nth, peek_second, skip_lines, visible, ErrorKind, NewlinePolicy,
    ParseError,
};
use crate::token::{lemma_skip_nl, skip_nl, step, tok, well_formed, Token, TokenKind, TokenSource};

verus! {

pub struct Parsing {
    source: TokenSource,
    buffer: VecDeque<Token>,
    newline_policy: NewlinePolicy,
    pos: Ghost<int>,
}
impl Parsing {
    /// The whole token sequence being parsed.
    pub closed spec fn toks(&self) -> Seq<Token> {
        self.source.tokens()
    }

    /// Index of the next token not yet consumed.
    pub closed spec fn pos(&self) -> int {
        self.pos@
    }

    pub closed spec fn policy(&self) -> NewlinePolicy {
        self.newline_policy
    }

    pub closed spec fn wf(&self) -> bool {
        let t = self.toks();
        &&& self.source.wf()
        &&& well_formed(t)
        &&& t.len() < usize::MAX
        &&& 0 <= self.pos@ < t.len()
        &&& forall|k: int|
            0 <= k < self.buffer@.len() ==> #[trigger] self.buffer@[k] == tok(t, self.pos@ + k)
        &&& self.source.next_index() == if self.pos@ + self.buffer@.len() < t.len() - 1 {
            self.pos@ + self.buffer@.len()
        } else {
            t.len() - 1
        }
    }

    /// What the invariant gives a reader outside this module.
    pub proof fn lemma_wf(&self)
        requires
            self.wf(),
        ensures
            well_formed(self.toks()),
            0 <= self.pos() < self.toks().len(),
            self.toks().len() < usize::MAX,
    {
    }

    pub fn new(tokens: Vec<Token>) -> (r: Parsing)
        requires
            well_formed(tokens@),
            tokens@.len() < usize::MAX,
        ensures
            r.wf(),
            r.toks() == tokens@,
            r.pos() == 0,
            r.policy() == NewlinePolicy::Heed,
    {
        Parsing {
            source: TokenSource::new(tokens),
            buffer: VecDeque::new(),
            newline_policy: NewlinePolicy::Heed,
            pos: Ghost(0),
        }
    }

    fn fill_buffer(&mut self, length: usize)
        requires
            old(self).wf(),
        ensures
            final(self).wf(),
            final(self).toks() == old(self).toks(),
            final(self).pos() == old(self).pos(),
            final(self).policy() == old(self).policy(),
            final(self).buffer@.len() >= length,
    {
        while self.buffer.len() < length
            invariant
                self.wf(),
                self.toks() == old(self).toks(),
                self.pos() == old(self).pos(),
                self.policy() == old(self).policy(),
            decreases length - self.buffer@.len(),
        {
            let t = self.source.next_token();
            self.buffer.push_back(t);
        }
    }

    /// Index into the buffer of the first token at or after index `from` that
    /// the newline policy lets through.
    fn visible_index(&mut self, from: usize) -> (r: usize)
        requires
            old(self).wf(),
            from < usize::MAX,
        ensures
            final(self).wf(),
            final(self).toks() == old(self).toks(),
            final(self).pos() == old(self).pos(),
            final(self).policy() == old(self).policy(),
            old(self).pos() + r == visible(old(self).toks(), old(self).policy(), old(self).pos() + from),
            r < final(self).buffer@.len(),
            from <= r,
            r == from || old(self).pos() + r < old(self).toks().len(),
    {
        let ghost t = self.toks();
        let ghost p = self.pos();
        if self.newline_policy == NewlinePolicy::Heed {
            self.fill_buffer(from + 1);
            return from;
        }
        proof {
            lemma_skip_nl(t, p + from);
        }
        let mut j: usize = from;
        loop
            invariant
                self.wf(),
                t == old(self).toks(),
                p == old(self).pos(),
                old(self).policy() == NewlinePolicy::Ignore,
                from < usize::MAX,
                self.toks() == t,
                self.pos() == p,
                self.policy() == NewlinePolicy::Ignore,
                from <= j,
                j == from || p + j < t.len(),
                skip_nl(t, p + j) == skip_nl(t, p + from),
            decreases if p + j < t.len() {
                t.len() - p - j
            } else {
                0
            },
        {
            self.fill_buffer(j + 1);
            if self.buffer[j].kind != TokenKind::Newline {
                assert(tok(t, p + j).kind != TokenKind::Newline);
                return j;
            }
            assert(p + j < t.len() - 1);
            j = j + 1;
        }
    }

    /// The kind of the token `n` places ahead among those the newline
    /// policy lets through, without consuming anything.
    pub(crate) fn peek_n(&mut self, n: usize) -> (r: TokenKind)
        requires
            old(self).wf(),
            old(self).toks().len() + n < usize::MAX,
        ensures
            final(self).wf(),
            final(self).toks() == old(self).toks(),
            final(self).pos() == old(self).pos(),
            final(self).policy() == old(self).policy(),
            r == peek_nth(old(self).toks(), old(self).policy(), old(self).pos(), n as nat),
            n == 0 ==> r == peek(old(self).toks(), old(self).policy(), old(self).pos()),
            n == 1 ==> r == peek_second(old(self).toks(), old(self).policy(), old(self).pos()),
    {
        let ghost t = self.toks();
        let ghost p = self.pos();
        proof {
            Self::lemma_advance(t, self.newline_policy, p);
            reveal_with_fuel(nth_visible, 2);
        }
        let mut index = self.visible_index(0);
        let mut i: usize = 0;
        while i < n
            invariant
                self.wf(),
                t == old(self).toks(),
                p == old(self).pos(),
                self.toks() == t,
                self.pos() == p,
                self.policy() == old(self).policy(),
                t.len() + n < usize::MAX,
                i <= n,
                p + index == nth_visible(t, self.policy(), p, i as nat),
                index < self.buffer@.len(),
                index <= i + t.len(),
            decreases n - i,
        {
            index = self.visible_index(index + 1);
            i = i + 1;
        }
        self.buffer[index].kind
    }

    pub(crate) fn peek(&mut self) -> (r: TokenKind)
        requires
            old(self).wf(),
        ensures
            final(self).wf(),
            final(self).toks() == old(self).toks(),
            final(self).pos() == old(self).pos(),
            final(self).policy() == old(self).policy(),
            r == peek(old(self).toks(), old(self).policy(), old(self).pos()),
    {
        self.peek_n(0)
    }

    pub(crate) proof fn lemma_advance(t: Seq<Token>, pol: NewlinePolicy, i: int)
        requires
            well_formed(t),
            0 <= i < t.len(),
        ensures
            i <= visible(t, pol, i) < t.len(),
            i <= advance(t, pol, i) < t.len(),
            peek(t, pol, i) != TokenKind::Eof ==> i < advance(t, pol, i),
            i <= skip_lines(t, pol, i) < t.len(),
    {
        lemma_skip_nl(t, i);
    }

    /// Consumes and returns the next token that the newline policy lets
    /// through.
    pub(crate) fn read(&mut self) -> (r: Token)
        requires
            old(self).wf(),
        ensures
            final(self).wf(),
            final(self).toks() == old(self).toks(),
            final(self).policy() == old(self).policy(),
            r == next_token(old(self).toks(), old(self).policy(), old(self).pos()),
            final(self).pos() == advance(old(self).toks(), old(self).policy(), old(self).pos()),
            old(self).pos() <= final(self).pos(),
            r.kind != TokenKind::Eof ==> old(self).pos() < final(self).pos(),
    {
        let ghost t = self.toks();
        let ghost p0 = self.pos();
        proof {
            lemma_skip_nl(t, p0);
            Self::lemma_advance(t, self.newline_policy, p0);
        }
        if self.newline_policy == NewlinePolicy::Ignore {
            loop
                invariant
                    self.wf(),
                    self.toks() == t,
                    self.policy() == NewlinePolicy::Ignore,
                    well_formed(t),
                    0 <= p0 < t.len(),
                    p0 <= self.pos() <= skip_nl(t, p0),
                    skip_nl(t, self.pos()) == skip_nl(t, p0),
                ensures
                    self.wf(),
                    self.toks() == t,
                    self.policy() == NewlinePolicy::Ignore,
                    self.pos() == skip_nl(t, p0),
                decreases t.len() - self.pos(),
            {
                self.fill_buffer(1);
                if self.buffer[0].kind == TokenKind::Newline {
                    assert(self.pos() < t.len() - 1);
                    proof {
                        lemma_skip_nl(t, self.pos() + 1);
                    }
                    let ghost b = self.buffer@;
                    self.buffer.pop_front();
                    self.pos = Ghost(self.pos@ + 1);
                    assert forall|k: int| 0 <= k < self.buffer@.len() implies #[trigger] self.buffer@[k]
                        == tok(t, self.pos@ + k) by {
                        assert(self.buffer@[k] == b[k + 1]);
                    }
                } else {
                    break;
                }
            }
        }
        self.fill_buffer(1);
        let ghost b = self.buffer@;
        let r = self.buffer.pop_front().unwrap();
        assert forall|k: int| 0 <= k < self.buffer@.len() implies #[trigger] self.buffer@[k] == tok(
            t,
            step(t, self.pos@) + k,
        ) by {
            assert(self.buffer@[k] == b[k + 1]);
        }
        self.pos = Ghost(step(t, self.pos@));
        r
    }

    /// This state continues `before`: same tokens and policy, nothing
    /// un-read.
    pub closed spec fn moved_on(&self, before: &Parsing) -> bool {
        &&& self.wf()
        &&& self.toks() == before.toks()
        &&& self.policy() == before.policy()
        &&& before.pos() <= self.pos()
    }

    pub(crate) fn get_offset(&mut self) -> (r: usize)
        requires
            old(self).wf(),
        ensures
            final(self).moved_on(old(self)),
            final(self).pos() == old(self).pos(),
            r == next_token(old(self).toks(), old(self).policy(), old(self).pos()).offset,
    {
        proof {
            lemma_skip_nl(self.toks(), self.pos());
        }
        let i = self.visible_index(0);
        self.buffer[i].offset
    }

    pub(crate) fn err(&mut self, kind: ErrorKind) -> (r: ParseError)
        requires
            old(self).wf(),
        ensures
            final(self).moved_on(old(self)),
            final(self).pos() == old(self).pos(),
            r == error_at(old(self).toks(), old(self).policy(), old(self).pos(), kind),
    {
        ParseError { source_offset: self.get_offset(), kind }
    }

    pub(crate) fn skip_newlines(&mut self)
        requires
            old(self).wf(),
        ensures
            final(self).moved_on(old(self)),
            final(self).pos() == skip_lines(old(self).toks(), old(self).policy(), old(self).pos()),
    {
        let ghost t = self.toks();
        let ghost p0 = self.pos();
        proof {
            lemma_skip_nl(t, p0);
        }
        loop
            invariant
                self.moved_on(old(self)),
                t == old(self).toks(),
                p0 == old(self).pos(),
                self.policy() == NewlinePolicy::Heed ==> skip_nl(t, self.pos()) == skip_nl(t, p0),
                self.policy() == NewlinePolicy::Ignore ==> self.pos() == p0,
            ensures
                self.moved_on(old(self)),
                self.pos() == skip_lines(t, self.policy(), p0),
            decreases t.len() - self.pos(),
        {
            proof {
                lemma_skip_nl(t, self.pos());
            }
            if self.peek() != TokenKind::Newline {
                break;
            }
            self.read();
        }
    }
}

} // verus!
