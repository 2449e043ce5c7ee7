use crate::diag::{Diagnostic, SyntaxError};
use crate::span::Span;
use crate::token::{Kw, Punct, Token, TokenAndSpan, Word};
use vstd::prelude::*;

verus! {

/// The scoped context flags consulted throughout the grammar.
#[derive(Clone, Copy, PartialEq, Eq, Structural, Debug)]
pub struct Flags {
    /// Tokens are being read in a type position.
    pub in_type: bool,
    /// An `extends` type is being parsed, so a bare `?` must be left for the
    /// enclosing conditional type.
    pub disallow_conditional_types: bool,
    /// Diagnostics are suppressed; set for the whole of every speculative
    /// attempt.
    pub ignore_errors: bool,
    /// Parsing happens inside an ambient `declare` context.
    pub in_declare: bool,
    /// Import/export declarations are syntactically legal here.
    pub top_level: bool,
}

impl Flags {
    pub fn new() -> (r: Flags)
        ensures
            r == (Flags {
                in_type: false,
                disallow_conditional_types: false,
                ignore_errors: false,
                in_declare: false,
                top_level: true,
            }),
    {
        Flags {
            in_type: false,
            disallow_conditional_types: false,
            ignore_errors: false,
            in_declare: false,
            top_level: true,
        }
    }
}

pub open spec fn tokens_wf(toks: Seq<TokenAndSpan>) -> bool {
    forall|i: int| 0 <= i < toks.len() ==> (#[trigger] toks[i]).wf()
}

/// A saved cursor-and-flags state; restoring it discards everything a
/// speculative attempt did.
#[derive(Clone, Copy, Debug)]
pub struct Mark {
    pub pos: usize,
    pub flags: Flags,
}

/// The parser state: an immutable token buffer, a cursor into it, the
/// context flags and the diagnostics sink.
#[derive(Debug)]
pub struct Parser {
    pub tokens: Vec<TokenAndSpan>,
    pub pos: usize,
    pub flags: Flags,
    pub diags: Vec<Diagnostic>,
}

/// What every parsing step preserves: the buffer is untouched, the flags are
/// restored, the cursor never moves backwards, the diagnostics sink is
/// append-only, and with `ignore_errors` set it is not touched at all.
pub open spec fn parse_step(pre: Parser, post: Parser) -> bool {
    &&& post.tokens@ == pre.tokens@
    &&& post.flags == pre.flags
    &&& pre.pos <= post.pos
    &&& post.pos <= post.tokens@.len()
    &&& pre.diags@.len() <= post.diags@.len()
    &&& forall|i: int| 0 <= i < pre.diags@.len() ==> post.diags@[i] == pre.diags@[i]
    &&& pre.flags.ignore_errors ==> post.diags@ == pre.diags@
}

impl Parser {
    pub open spec fn wf(self) -> bool {
        &&& self.pos <= self.tokens@.len()
        &&& tokens_wf(self.tokens@)
    }

    /// The current token, if the cursor has not reached the end.
    pub open spec fn spec_cur(self) -> Option<Token> {
        if self.pos < self.tokens@.len() {
            Some(self.tokens@[self.pos as int].token)
        } else {
            None
        }
    }

    /// The one-token lookahead.
    pub open spec fn spec_peek(self) -> Option<Token> {
        if self.pos + 1 < self.tokens@.len() {
            Some(self.tokens@[self.pos + 1].token)
        } else {
            None
        }
    }

    pub open spec fn cur_is_punct(self, p: Punct) -> bool {
        self.spec_cur() matches Some(t) && t matches Token::Punct(q) && q == p
    }

    pub open spec fn cur_is_kw(self, k: Kw) -> bool {
        self.spec_cur() matches Some(t) && t matches Token::Word(w) && w matches Word::Kw(q)
            && q == k
    }

    pub open spec fn cur_is_word(self) -> bool {
        self.spec_cur() matches Some(t) && t is Word
    }

    /// An identifier reference: any word except the reserved ones.
    pub open spec fn spec_cur_is_ident_ref(self) -> bool {
        self.spec_cur() matches Some(t) && t matches Token::Word(w) && match w {
            Word::Kw(k) => !crate::token::spec_is_reserved_word(k),
            Word::Other(_) => true,
        }
    }

    pub open spec fn spec_peek_is_ident_ref(self) -> bool {
        self.spec_peek() matches Some(t) && t matches Token::Word(w) && match w {
            Word::Kw(k) => !crate::token::spec_is_reserved_word(k),
            Word::Other(_) => true,
        }
    }

    pub open spec fn spec_at_eof(self) -> bool {
        self.pos >= self.tokens@.len()
    }

    /// The byte position where the current token starts, or the end of the
    /// previous token at the end of the buffer.
    pub open spec fn spec_cur_pos(self) -> u32 {
        if self.pos < self.tokens@.len() {
            self.tokens@[self.pos as int].span.lo
        } else {
            self.spec_last_hi()
        }
    }

    /// The byte position where the most recently consumed token ends.
    pub open spec fn spec_last_hi(self) -> u32 {
        if self.pos == 0 {
            0
        } else {
            self.tokens@[self.pos - 1].span.hi
        }
    }

    /// Line-break predicate for the current token; the end of the buffer
    /// counts as broken.
    pub open spec fn spec_had_line_break(self) -> bool {
        if self.pos < self.tokens@.len() {
            self.tokens@[self.pos as int].had_line_break
        } else {
            true
        }
    }

    pub fn new(tokens: Vec<TokenAndSpan>) -> (r: Parser)
        requires
            tokens_wf(tokens@),
        ensures
            r.wf(),
            r.tokens@ == tokens@,
            r.pos == 0,
            r.flags == (Flags {
                in_type: false,
                disallow_conditional_types: false,
                ignore_errors: false,
                in_declare: false,
                top_level: true,
            }),
            r.diags@.len() == 0,
    {
        Parser { tokens, pos: 0, flags: Flags::new(), diags: Vec::new() }
    }

    pub fn at_eof(&self) -> (r: bool)
        ensures
            r == self.spec_at_eof(),
    {
        self.pos >= self.tokens.len()
    }

    pub fn had_line_break_before_cur(&self) -> (r: bool)
        requires
            self.wf(),
        ensures
            r == self.spec_had_line_break(),
    {
        if self.pos < self.tokens.len() {
            self.tokens[self.pos].had_line_break
        } else {
            true
        }
    }

    pub fn cur_pos(&self) -> (r: u32)
        requires
            self.wf(),
        ensures
            r == self.spec_cur_pos(),
    {
        if self.pos < self.tokens.len() {
            self.tokens[self.pos].span.lo
        } else {
            self.last_hi()
        }
    }

    pub fn last_hi(&self) -> (r: u32)
        requires
            self.wf(),
        ensures
            r == self.spec_last_hi(),
    {
        if self.pos == 0 {
            0
        } else {
            self.tokens[self.pos - 1].span.hi
        }
    }

    /// The span of the current token, or an empty span at the end.
    pub fn cur_span(&self) -> (r: Span)
        requires
            self.wf(),
        ensures
            !self.spec_at_eof() ==> r == self.tokens@[self.pos as int].span,
    {
        if self.pos < self.tokens.len() {
            self.tokens[self.pos].span
        } else {
            let hi = self.last_hi();
            Span { lo: hi, hi }
        }
    }

    /// The span of the most recently consumed token.
    pub fn prev_span(&self) -> (r: Span)
        requires
            self.wf(),
    {
        if self.pos > 0 && self.pos <= self.tokens.len() {
            self.tokens[self.pos - 1].span
        } else {
            Span { lo: 0, hi: 0 }
        }
    }

    /// A span from `start` to the end of the last consumed token.
    pub fn finish_span(&self, start: u32) -> (r: Span)
        requires
            self.wf(),
        ensures
            r == (Span { lo: start, hi: self.spec_last_hi() }),
    {
        Span { lo: start, hi: self.last_hi() }
    }

    pub fn is_punct(&self, p: Punct) -> (r: bool)
        requires
            self.wf(),
        ensures
            r == self.cur_is_punct(p),
    {
        if self.pos < self.tokens.len() {
            match &self.tokens[self.pos].token {
                Token::Punct(q) => *q == p,
                _ => false,
            }
        } else {
            false
        }
    }

    pub fn is_kw(&self, k: Kw) -> (r: bool)
        requires
            self.wf(),
        ensures
            r == self.cur_is_kw(k),
    {
        if self.pos < self.tokens.len() {
            match &self.tokens[self.pos].token {
                Token::Word(Word::Kw(q)) => *q == k,
                _ => false,
            }
        } else {
            false
        }
    }

    pub fn is_word(&self) -> (r: bool)
        requires
            self.wf(),
        ensures
            r == self.cur_is_word(),
    {
        if self.pos < self.tokens.len() {
            match &self.tokens[self.pos].token {
                Token::Word(_) => true,
                _ => false,
            }
        } else {
            false
        }
    }

    /// An identifier reference: any word except the reserved ones.
    pub fn is_ident_ref(&self) -> (r: bool)
        requires
            self.wf(),
        ensures
            r == self.spec_cur_is_ident_ref(),
            r ==> self.cur_is_word(),
    {
        if self.pos < self.tokens.len() {
            match &self.tokens[self.pos].token {
                Token::Word(Word::Kw(q)) => !q.is_reserved_word(),
                Token::Word(Word::Other(_)) => true,
                _ => false,
            }
        } else {
            false
        }
    }

    pub fn is_str_lit(&self) -> (r: bool)
        requires
            self.wf(),
        ensures
            r == (self.spec_cur() matches Some(t) && t is Str),
    {
        if self.pos < self.tokens.len() {
            match &self.tokens[self.pos].token {
                Token::Str { .. } => true,
                _ => false,
            }
        } else {
            false
        }
    }

    pub fn is_num_lit(&self) -> (r: bool)
        requires
            self.wf(),
        ensures
            r == (self.spec_cur() matches Some(t) && t is Num),
    {
        if self.pos < self.tokens.len() {
            match &self.tokens[self.pos].token {
                Token::Num { .. } => true,
                _ => false,
            }
        } else {
            false
        }
    }

    pub fn is_bigint_lit(&self) -> (r: bool)
        requires
            self.wf(),
        ensures
            r == (self.spec_cur() matches Some(t) && t is BigInt),
    {
        if self.pos < self.tokens.len() {
            match &self.tokens[self.pos].token {
                Token::BigInt { .. } => true,
                _ => false,
            }
        } else {
            false
        }
    }

    pub fn peek_is_punct(&self, p: Punct) -> (r: bool)
        requires
            self.wf(),
        ensures
            r == (self.spec_peek() matches Some(t) && t matches Token::Punct(q) && q == p),
    {
        if self.tokens.len() - self.pos > 1 {
            match &self.tokens[self.pos + 1].token {
                Token::Punct(q) => *q == p,
                _ => false,
            }
        } else {
            false
        }
    }

    pub fn peek_is_kw(&self, k: Kw) -> (r: bool)
        requires
            self.wf(),
        ensures
            r == (self.spec_peek() matches Some(t) && t matches Token::Word(w) && w matches Word::Kw(
                q,
            ) && q == k),
    {
        if self.tokens.len() - self.pos > 1 {
            match &self.tokens[self.pos + 1].token {
                Token::Word(Word::Kw(q)) => *q == k,
                _ => false,
            }
        } else {
            false
        }
    }

    pub fn peek_is_word(&self) -> (r: bool)
        requires
            self.wf(),
        ensures
            r == (self.spec_peek() matches Some(t) && t is Word),
    {
        if self.tokens.len() - self.pos > 1 {
            match &self.tokens[self.pos + 1].token {
                Token::Word(_) => true,
                _ => false,
            }
        } else {
            false
        }
    }

    /// An identifier reference in lookahead position.
    pub fn peek_is_ident_ref(&self) -> (r: bool)
        requires
            self.wf(),
        ensures
            r == self.spec_peek_is_ident_ref(),
            r ==> (self.spec_peek() matches Some(t) && t is Word),
    {
        if self.tokens.len() - self.pos > 1 {
            match &self.tokens[self.pos + 1].token {
                Token::Word(Word::Kw(q)) => !q.is_reserved_word(),
                Token::Word(Word::Other(_)) => true,
                _ => false,
            }
        } else {
            false
        }
    }

    /// Advance over the current token.
    pub fn bump(&mut self)
        requires
            old(self).wf(),
            !old(self).spec_at_eof(),
        ensures
            final (self).wf(),
            final (self).tokens@ == old(self).tokens@,
            final (self).flags == old(self).flags,
            final (self).diags@ == old(self).diags@,
            final (self).pos == old(self).pos + 1,
    {
        let n = self.tokens.len();
        self.pos = self.pos + 1;
    }

    pub fn eat_punct(&mut self, p: Punct) -> (r: bool)
        requires
            old(self).wf(),
        ensures
            final (self).wf(),
            final (self).tokens@ == old(self).tokens@,
            final (self).flags == old(self).flags,
            final (self).diags@ == old(self).diags@,
            r == old(self).cur_is_punct(p),
            r ==> final (self).pos == old(self).pos + 1,
            !r ==> final (self).pos == old(self).pos,
    {
        if self.is_punct(p) {
            self.bump();
            true
        } else {
            false
        }
    }

    pub fn eat_kw(&mut self, k: Kw) -> (r: bool)
        requires
            old(self).wf(),
        ensures
            final (self).wf(),
            final (self).tokens@ == old(self).tokens@,
            final (self).flags == old(self).flags,
            final (self).diags@ == old(self).diags@,
            r == old(self).cur_is_kw(k),
            r ==> final (self).pos == old(self).pos + 1,
            !r ==> final (self).pos == old(self).pos,
    {
        if self.is_kw(k) {
            self.bump();
            true
        } else {
            false
        }
    }

    /// Require and consume a punctuation token; a miss is a hard failure.
    pub fn expect_punct(&mut self, p: Punct) -> (r: Result<(), Diagnostic>)
        requires
            old(self).wf(),
        ensures
            parse_step(*old(self), *final (self)),
            final (self).diags@ == old(self).diags@,
            r is Ok ==> old(self).cur_is_punct(p) && final (self).pos == old(self).pos + 1,
            r is Err ==> !old(self).cur_is_punct(p) && final (self).pos == old(self).pos,
    {
        if self.is_punct(p) {
            self.bump();
            Ok(())
        } else {
            Err(Diagnostic { span: self.cur_span(), error: SyntaxError::Expected(p) })
        }
    }

    /// Require and consume a keyword; a miss is a hard failure.
    pub fn expect_kw(&mut self, k: Kw) -> (r: Result<(), Diagnostic>)
        requires
            old(self).wf(),
        ensures
            parse_step(*old(self), *final (self)),
            final (self).diags@ == old(self).diags@,
            r is Ok ==> old(self).cur_is_kw(k) && final (self).pos == old(self).pos + 1,
            r is Err ==> !old(self).cur_is_kw(k) && final (self).pos == old(self).pos,
    {
        if self.is_kw(k) {
            self.bump();
            Ok(())
        } else {
            Err(Diagnostic { span: self.cur_span(), error: SyntaxError::ExpectedKeyword(k) })
        }
    }

    /// Record a recoverable defect, unless diagnostics are suppressed.
    pub fn emit_err(&mut self, span: Span, error: SyntaxError)
        requires
            old(self).wf(),
        ensures
            final (self).wf(),
            final (self).tokens@ == old(self).tokens@,
            final (self).flags == old(self).flags,
            final (self).pos == old(self).pos,
            parse_step(*old(self), *final (self)),
            !old(self).flags.ignore_errors ==> final (self).diags@ == old(self).diags@.push(
                Diagnostic { span, error },
            ),
    {
        if !self.flags.ignore_errors {
            self.diags.push(Diagnostic { span, error });
        }
    }

    /// Open a speculative attempt: remember the state and suppress
    /// diagnostics for everything the attempt does.
    pub fn begin_speculation(&mut self) -> (m: Mark)
        requires
            old(self).wf(),
        ensures
            final (self).wf(),
            final (self).tokens@ == old(self).tokens@,
            final (self).diags@ == old(self).diags@,
            final (self).pos == old(self).pos,
            m.pos == old(self).pos,
            m.flags == old(self).flags,
            final (self).flags == (Flags { ignore_errors: true, ..old(self).flags }),
            final (self).flags.ignore_errors,
    {
        let m = Mark { pos: self.pos, flags: self.flags };
        self.flags.ignore_errors = true;
        m
    }

    /// Discard a speculative attempt: no cursor movement, no flag change and
    /// no diagnostics remain observable.
    pub fn rollback(&mut self, m: Mark)
        requires
            old(self).wf(),
            m.pos <= old(self).tokens@.len(),
        ensures
            final (self).wf(),
            final (self).tokens@ == old(self).tokens@,
            final (self).diags@ == old(self).diags@,
            final (self).pos == m.pos,
            final (self).flags == m.flags,
    {
        self.pos = m.pos;
        self.flags = m.flags;
    }

    /// Keep a speculative attempt's cursor and flags, restoring only the
    /// diagnostics-suppression bit to its prior value.
    pub fn commit(&mut self, m: Mark)
        requires
            old(self).wf(),
        ensures
            final (self).wf(),
            final (self).tokens@ == old(self).tokens@,
            final (self).diags@ == old(self).diags@,
            final (self).pos == old(self).pos,
            final (self).flags == (Flags { ignore_errors: m.flags.ignore_errors, ..old(self).flags }),
    {
        self.flags.ignore_errors = m.flags.ignore_errors;
    }

    /// Whether a line break stands between the current token and the
    /// lookahead token.
    pub fn peek_had_line_break(&self) -> (r: bool)
        requires
            self.wf(),
    {
        if self.tokens.len() - self.pos > 1 {
            self.tokens[self.pos + 1].had_line_break
        } else {
            false
        }
    }

    /// Automatic semicolon insertion: a `;` is consumed, or is taken as
    /// implied at the end of the buffer, before `}`, or after a line break.
    pub fn eat_semi(&mut self) -> (r: bool)
        requires
            old(self).wf(),
        ensures
            final (self).wf(),
            final (self).tokens@ == old(self).tokens@,
            final (self).flags == old(self).flags,
            final (self).diags@ == old(self).diags@,
            old(self).pos <= final (self).pos,
            final (self).pos <= final (self).tokens@.len(),
            r == (old(self).cur_is_punct(Punct::Semi) || old(self).spec_at_eof() || old(
                self,
            ).cur_is_punct(Punct::RBrace) || old(self).spec_had_line_break()),
            old(self).cur_is_punct(Punct::Semi) ==> final (self).pos == old(self).pos + 1,
            !old(self).cur_is_punct(Punct::Semi) ==> final (self).pos == old(self).pos,
    {
        if self.eat_punct(Punct::Semi) {
            true
        } else {
            self.at_eof() || self.is_punct(Punct::RBrace) || self.had_line_break_before_cur()
        }
    }

    /// Require a (possibly inserted) semicolon; a miss is a hard failure.
    pub fn expect_semi(&mut self) -> (r: Result<(), Diagnostic>)
        requires
            old(self).wf(),
        ensures
            parse_step(*old(self), *final (self)),
            final (self).diags@ == old(self).diags@,
            r is Err ==> final (self).pos == old(self).pos,
            r is Ok <==> (old(self).cur_is_punct(Punct::Semi) || old(self).spec_at_eof() || old(
                self,
            ).cur_is_punct(Punct::RBrace) || old(self).spec_had_line_break()),
            old(self).cur_is_punct(Punct::Semi) ==> final (self).pos == old(self).pos + 1,
            !old(self).cur_is_punct(Punct::Semi) ==> final (self).pos == old(self).pos,
    {
        if self.eat_semi() {
            Ok(())
        } else {
            Err(Diagnostic { span: self.cur_span(), error: SyntaxError::Expected(Punct::Semi) })
        }
    }
}

} // verus!
