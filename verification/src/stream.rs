//! The parser's view of the tokenizer: a stream of classified tokens
//! with lookahead, `expect`, `skip`, and span-capture operations.
//!
//! The stream always holds one final [`Token::End`]; consuming it is a
//! no-op, so a position into the stream is always valid.

use vstd::prelude::*;
use vstd::string::StringSliceAdditionalSpecFns;

use crate::arena::Span;
use crate::error::{Error, ExpectedToken};
use crate::token::{clone_token, token_eq, token_eq_spec, Token};

verus! {

/// The token stream one parse runs over.
pub struct TokenStream {
    toks: Vec<Token>,
    spans: Vec<Span>,
    pos: usize,
}

impl TokenStream {
    /// The tokens, in source order, ending with `End`.
    pub closed spec fn tokens(&self) -> Seq<Token> {
        self.toks@
    }

    /// The span of each token, parallel to the tokens.
    pub closed spec fn spans(&self) -> Seq<Span> {
        self.spans@
    }

    /// The current position: the index of the next unconsumed token.
    pub closed spec fn pos(&self) -> int {
        self.pos as int
    }

    /// The stream is well formed: spans run parallel to tokens, exactly
    /// the last token is `End`, and the position is in range.
    pub open spec fn wf(&self) -> bool {
        &&& self.tokens().len() == self.spans().len()
        &&& self.tokens().len() >= 1
        &&& self.tokens().last() is End
        &&& (forall|j: int| 0 <= j < self.tokens().len() - 1 ==> !(#[trigger] self.tokens()[j] is End))
        &&& 0 <= self.pos() < self.tokens().len()
    }

    /// The next unconsumed token.
    pub open spec fn cur(&self) -> Token {
        self.tokens()[self.pos()]
    }

    /// The next unconsumed token's span.
    pub open spec fn cur_span(&self) -> Span {
        self.spans()[self.pos()]
    }

    /// The token after the next one; at the end of the stream this is
    /// the final `End` itself.
    pub open spec fn second(&self) -> Token {
        if self.pos() + 1 < self.tokens().len() {
            self.tokens()[self.pos() + 1]
        } else {
            self.tokens()[self.pos()]
        }
    }

    /// How many tokens are left; decreases whenever a non-`End` token is
    /// consumed, which bounds the parser's recursion.
    pub open spec fn remaining(&self) -> int {
        self.tokens().len() - self.pos()
    }

    /// Position and end of the token just before the current one; zero
    /// at the start.
    pub open spec fn last_end_spec(&self) -> int {
        if self.pos() == 0 {
            0
        } else {
            self.spans()[self.pos() - 1].end as int
        }
    }

    /// The stream `b` is `a` after consuming tokens only: same tokens,
    /// same spans, position moved forward.
    pub open spec fn advanced_from(b: Self, a: Self) -> bool {
        &&& b.tokens() == a.tokens()
        &&& b.spans() == a.spans()
        &&& b.pos() >= a.pos()
    }

    /// Like [`TokenStream::advanced_from`], except that one `>>` token
    /// at `b`'s position may have been rewritten in place when a generic
    /// argument list was closed inside another.
    pub open spec fn stepped_from(b: Self, a: Self) -> bool {
        &&& b.tokens().len() == a.tokens().len()
        &&& b.spans().len() == a.spans().len()
        &&& b.pos() >= a.pos()
    }

    pub fn new(toks: Vec<Token>, spans: Vec<Span>) -> (r: TokenStream)
        requires
            toks@.len() == spans@.len(),
            toks@.len() >= 1,
            toks@.last() is End,
            forall|j: int| 0 <= j < toks@.len() - 1 ==> !(#[trigger] toks@[j] is End),
        ensures
            r.wf(),
            r.tokens() == toks@,
            r.spans() == spans@,
            r.pos() == 0,
    {
        TokenStream { toks, spans, pos: 0 }
    }

    /// A look at the next token without consuming it.
    pub fn peek(&self) -> (r: &Token)
        requires
            self.wf(),
        ensures
            *r == self.cur(),
    {
        &self.toks[self.pos]
    }

    /// The next token's span.
    pub fn peek_span(&self) -> (r: Span)
        requires
            self.wf(),
        ensures
            r == self.cur_span(),
    {
        self.spans[self.pos]
    }

    /// Two-token lookahead, used to tell a call statement from an
    /// assignment.
    pub fn peek_second(&self) -> (r: &Token)
        requires
            self.wf(),
        ensures
            *r == self.second(),
    {
        let n = self.toks.len();
        if self.pos + 1 < n {
            &self.toks[self.pos + 1]
        } else {
            &self.toks[self.pos]
        }
    }

    /// Consumes and returns the next token with its span.  The final
    /// `End` is returned without moving.
    pub fn next(&mut self) -> (r: (Token, Span))
        requires
            old(self).wf(),
        ensures
            final(self).wf(),
            TokenStream::advanced_from(*final(self), *old(self)),
            token_eq_spec(r.0, old(self).cur()),
            r.1 == old(self).cur_span(),
            final(self).pos() == if old(self).cur() is End {
                old(self).pos()
            } else {
                old(self).pos() + 1
            },
    {
        let n = self.toks.len();
        let t = clone_token(&self.toks[self.pos]);
        let span = self.spans[self.pos];
        let is_end = match &t {
            Token::End => true,
            _ => false,
        };
        if !is_end {
            self.pos = self.pos + 1;
        }
        (t, span)
    }

    /// Consumes the next token if it equals `expected`; otherwise
    /// consumes nothing and reports what was expected.
    pub fn expect(&mut self, expected: &Token) -> (r: Result<(), Error>)
        requires
            old(self).wf(),
            !(*expected is End),
        ensures
            final(self).wf(),
            TokenStream::advanced_from(*final(self), *old(self)),
            match r {
                Ok(()) => token_eq_spec(old(self).cur(), *expected) && final(self).pos() == old(self).pos() + 1,
                Err(e) => !token_eq_spec(old(self).cur(), *expected) && *final(self) == *old(self)
                    && (e matches Error::Unexpected(s, _) && s == old(self).cur_span()),
            },
    {
        let n = self.toks.len();
        if token_eq(&self.toks[self.pos], expected) {
            self.pos = self.pos + 1;
            Ok(())
        } else {
            Err(Error::Unexpected(self.spans[self.pos], ExpectedToken::Token(clone_token(expected))))
        }
    }

    /// Like [`TokenStream::expect`], returning the consumed token's
    /// span.
    pub fn expect_span(&mut self, expected: &Token) -> (r: Result<Span, Error>)
        requires
            old(self).wf(),
            !(*expected is End),
        ensures
            final(self).wf(),
            TokenStream::advanced_from(*final(self), *old(self)),
            match r {
                Ok(span) => token_eq_spec(old(self).cur(), *expected) && final(self).pos() == old(self).pos() + 1 && span == old(self).cur_span(),
                Err(e) => !token_eq_spec(old(self).cur(), *expected) && *final(self) == *old(self)
                    && (e matches Error::Unexpected(s, _) && s == old(self).cur_span()),
            },
    {
        let span = self.spans[self.pos];
        match self.expect(expected) {
            Ok(()) => Ok(span),
            Err(e) => Err(e),
        }
    }

    /// Consumes the next token if it equals `t`, saying whether it did.
    pub fn skip(&mut self, t: &Token) -> (r: bool)
        requires
            old(self).wf(),
            !(*t is End),
        ensures
            final(self).wf(),
            TokenStream::advanced_from(*final(self), *old(self)),
            r == token_eq_spec(old(self).cur(), *t),
            if r {
                final(self).pos() == old(self).pos() + 1
            } else {
                *final(self) == *old(self)
            },
    {
        let n = self.toks.len();
        if token_eq(&self.toks[self.pos], t) {
            self.pos = self.pos + 1;
            true
        } else {
            false
        }
    }

    /// Consumes the next token if it is a word, returning its text and
    /// span.
    pub fn next_ident_with_span(&mut self) -> (r: Result<(Vec<u8>, Span), Error>)
        requires
            old(self).wf(),
        ensures
            final(self).wf(),
            TokenStream::advanced_from(*final(self), *old(self)),
            match r {
                Ok(p) => (old(self).cur() matches Token::Word(w) && p.0@ =~= w@) && final(self).pos() == old(self).pos() + 1 && p.1 == old(self).cur_span(),
                Err(e) => !(old(self).cur() is Word) && *final(self) == *old(self) && (
                e matches Error::Unexpected(s, k) && s == old(self).cur_span() && k
                    == ExpectedToken::Identifier),
            },
    {
        let n = self.toks.len();
        match &self.toks[self.pos] {
            Token::Word(w) => {
                let name = crate::token::clone_bytes(w.as_slice());
                let span = self.spans[self.pos];
                self.pos = self.pos + 1;
                Ok((name, span))
            },
            _ => Err(Error::Unexpected(self.spans[self.pos], ExpectedToken::Identifier)),
        }
    }

    /// The byte offset where the next token starts; trivia before it has
    /// already been skipped by the tokenizer.
    pub fn start_byte_offset(&self) -> (r: usize)
        requires
            self.wf(),
        ensures
            r == self.cur_span().start,
    {
        self.spans[self.pos].start
    }

    /// The span from `start` to the end of the last consumed token.
    pub fn span_from(&self, start: usize) -> (r: Span)
        requires
            self.wf(),
        ensures
            r.start == start,
            r.end == self.last_end_spec(),
    {
        let end = if self.pos == 0 {
            0
        } else {
            self.spans[self.pos - 1].end
        };
        Span { start, end }
    }

    /// Consumes the `<` opening a generic argument list.
    pub fn expect_generic_open(&mut self) -> (r: Result<(), Error>)
        requires
            old(self).wf(),
        ensures
            final(self).wf(),
            TokenStream::advanced_from(*final(self), *old(self)),
            match r {
                Ok(()) => (old(self).cur() matches Token::Paren(c) && c == 60) && final(self).pos()
                    == old(self).pos() + 1,
                Err(e) => !(old(self).cur() matches Token::Paren(c) && c == 60) && *final(self)
                    == *old(self) && (e matches Error::Unexpected(s, _) && s == old(self).cur_span()),
            },
    {
        let n = self.toks.len();
        let is_open = match &self.toks[self.pos] {
            Token::Paren(c) => *c == 60,
            _ => false,
        };
        if is_open {
            proof {
                if self.pos as int == self.toks@.len() - 1 {
                    assert(self.toks@[self.pos as int] is End);
                }
            }
            self.pos = self.pos + 1;
            Ok(())
        } else {
            Err(Error::Unexpected(self.spans[self.pos], ExpectedToken::GenericOpen))
        }
    }

    /// Consumes the `>` closing a generic argument list.  A `>>` token,
    /// which the tokenizer produced where two generic lists close back
    /// to back, is split in place: its first half is consumed and a `>`
    /// remains.
    pub fn expect_generic_close(&mut self) -> (r: Result<(), Error>)
        requires
            old(self).wf(),
        ensures
            final(self).wf(),
            TokenStream::stepped_from(*final(self), *old(self)),
            match r {
                Ok(()) => if old(self).cur() matches Token::Paren(c) && c == 62 {
                    final(self).pos() == old(self).pos() + 1 && final(self).tokens() == old(self).tokens() && final(self).spans() == old(self).spans()
                } else {
                    (old(self).cur() matches Token::ShiftOperation(c) && c == 62) && final(self).pos() == old(self).pos() && final(self).tokens() == old(self).tokens().update(
                        old(self).pos(),
                        Token::Paren(62),
                    )
                },
                Err(e) => !(old(self).cur() matches Token::Paren(c) && c == 62) && !(old(self).cur() matches Token::ShiftOperation(c) && c == 62) && *final(self) == *old(self)
                    && (e matches Error::Unexpected(s, _) && s == old(self).cur_span()),
            },
    {
        let n = self.toks.len();
        let is_paren = match &self.toks[self.pos] {
            Token::Paren(c) => *c == 62,
            _ => false,
        };
        if is_paren {
            self.pos = self.pos + 1;
            return Ok(());
        }
        let is_shift = match &self.toks[self.pos] {
            Token::ShiftOperation(c) => *c == 62,
            _ => false,
        };
        if is_shift {
            let old_span = self.spans[self.pos];
            let new_start = if old_span.start < old_span.end {
                old_span.start + 1
            } else {
                old_span.start
            };
            self.toks.set(self.pos, Token::Paren(62));
            self.spans.set(self.pos, Span { start: new_start, end: old_span.end });
            return Ok(());
        }
        Err(Error::Unexpected(self.spans[self.pos], ExpectedToken::GenericClose))
    }

    /// Consumes the next token if it is the word `w`, saying whether it
    /// did.
    pub fn skip_word(&mut self, w: &str) -> (r: bool)
        requires
            old(self).wf(),
        ensures
            final(self).wf(),
            TokenStream::advanced_from(*final(self), *old(self)),
            r == (old(self).cur() matches Token::Word(t) && t@ == w.spec_bytes()),
            if r {
                final(self).pos() == old(self).pos() + 1
            } else {
                *final(self) == *old(self)
            },
    {
        let n = self.toks.len();
        let hit = match &self.toks[self.pos] {
            Token::Word(t) => crate::token::bytes_eq(t.as_slice(), w.as_bytes()),
            _ => false,
        };
        if hit {
            proof {
                if self.pos as int == self.toks@.len() - 1 {
                    assert(self.toks@[self.pos as int] is End);
                }
            }
            self.pos = self.pos + 1;
            true
        } else {
            false
        }
    }

    /// Consumes the next token, which must be the word `w`.
    pub fn expect_word(&mut self, w: &str) -> (r: Result<(), Error>)
        requires
            old(self).wf(),
        ensures
            final(self).wf(),
            TokenStream::advanced_from(*final(self), *old(self)),
            match r {
                Ok(()) => (old(self).cur() matches Token::Word(t) && t@ == w.spec_bytes()) && final(self).pos() == old(self).pos() + 1,
                Err(e) => !(old(self).cur() matches Token::Word(t) && t@ == w.spec_bytes())
                    && *final(self) == *old(self) && (e matches Error::Unexpected(s, _) && s == old(self).cur_span()),
            },
    {
        if self.skip_word(w) {
            Ok(())
        } else {
            Err(
                Error::Unexpected(
                    self.spans[self.pos],
                    ExpectedToken::Token(Token::Word(crate::token::clone_bytes(w.as_bytes()))),
                ),
            )
        }
    }
}

} // verus!
