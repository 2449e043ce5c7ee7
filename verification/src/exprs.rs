use crate::ast::{
    BigIntLit, BoolLit, Expr, Ident, Lit, NumLit, ObjectLit, PropEntry, PropKey, StrLit,
};
use crate::diag::{Diagnostic, SyntaxError};
use crate::state::{parse_step, Parser};
use crate::token::{Kw, Punct, Token, Word};
use vstd::prelude::*;

verus! {

/// A numeric literal not followed by a member access.
pub open spec fn num_expr_at(toks: Seq<crate::token::TokenAndSpan>, pos: int) -> bool {
    &&& 0 <= pos < toks.len()
    &&& toks[pos].token is Num
    &&& (pos + 1 < toks.len() ==> !(toks[pos + 1].token matches Token::Punct(p) && p
        == Punct::Dot))
}

impl Parser {
    /// The hard failure raised when the depth counter runs out.
    pub fn nesting_err(&self) -> (r: Diagnostic)
        requires
            self.wf(),
        ensures
            r.error == SyntaxError::NestingTooDeep,
    {
        Diagnostic { span: self.cur_span(), error: SyntaxError::NestingTooDeep }
    }

    /// A copy of the current token's word, if it is one.
    pub fn cur_word_dup(&self) -> (r: Option<Word>)
        requires
            self.wf(),
        ensures
            r is Some <==> self.cur_is_word(),
            r matches Some(w) ==> (self.spec_cur() matches Some(t) && t matches Token::Word(w0)
                && w@ == w0@),
    {
        if self.pos < self.tokens.len() {
            match &self.tokens[self.pos].token {
                Token::Word(w) => Some(w.dup()),
                _ => None,
            }
        } else {
            None
        }
    }

    /// Any identifier-shaped word, keywords included, consumed as a name.
    pub fn parse_ident_name(&mut self) -> (r: Result<Ident, Diagnostic>)
        requires
            old(self).wf(),
        ensures
            parse_step(*old(self), *final (self)),
            final (self).diags@ == old(self).diags@,
            r is Ok ==> old(self).cur_is_word() && final (self).pos == old(self).pos + 1,
            r is Err ==> !old(self).cur_is_word() && final (self).pos == old(self).pos,
            old(self).spec_cur() matches Some(Token::Word(w0)) ==> (r matches Ok(i) && i.sym@
                == w0@ && i.span == old(self).tokens@[old(self).pos as int].span),
    {
        let span = self.cur_span();
        match self.cur_word_dup() {
            Some(w) => {
                self.bump();
                Ok(Ident { span, sym: w })
            },
            None => Err(Diagnostic { span, error: SyntaxError::IdentifierExpected }),
        }
    }

    /// An identifier reference: reserved words are a hard failure.
    pub fn parse_ident_ref(&mut self) -> (r: Result<Ident, Diagnostic>)
        requires
            old(self).wf(),
        ensures
            parse_step(*old(self), *final (self)),
            final (self).diags@ == old(self).diags@,
            r is Ok <==> old(self).spec_cur_is_ident_ref(),
            r is Ok ==> old(self).cur_is_word() && final (self).pos == old(self).pos + 1,
            r is Err ==> final (self).pos == old(self).pos,
            old(self).spec_cur_is_ident_ref() ==> (old(self).spec_cur() matches Some(
                Token::Word(w0),
            ) && r matches Ok(i) && i.sym@ == w0@ && i.span == old(self).tokens@[old(
                self,
            ).pos as int].span),
    {
        let span = self.cur_span();
        match self.cur_word_dup() {
            Some(w) => {
                let reserved = match w.as_kw() {
                    Some(k) => k.is_reserved_word(),
                    None => false,
                };
                if reserved {
                    Err(Diagnostic { span, error: SyntaxError::IdentifierExpected })
                } else {
                    self.bump();
                    Ok(Ident { span, sym: w })
                }
            },
            None => Err(Diagnostic { span, error: SyntaxError::IdentifierExpected }),
        }
    }

    /// One literal token: string, number, bigint, `true` or `false`.
    pub fn parse_lit(&mut self) -> (r: Result<Lit, Diagnostic>)
        requires
            old(self).wf(),
        ensures
            parse_step(*old(self), *final (self)),
            final (self).diags@ == old(self).diags@,
            r is Ok ==> final (self).pos == old(self).pos + 1,
            r matches Ok(l) ==> (l matches Lit::Num(n) ==> n.value >= 0),
            r is Err ==> final (self).pos == old(self).pos,
            old(self).spec_cur() matches Some(Token::Num { value, raw }) ==> (r matches Ok(l)
                && l matches Lit::Num(n) && n.value == value && n.raw@ == raw@ && n.span == old(
                self,
            ).tokens@[old(self).pos as int].span),
            old(self).spec_cur() matches Some(Token::Str { value, raw }) ==> (r matches Ok(l)
                && l matches Lit::Str(sl) && sl.value@ == value@ && sl.raw@ == raw@ && sl.span
                == old(self).tokens@[old(self).pos as int].span),
    {
        let span = self.cur_span();
        if self.pos < self.tokens.len() {
            let lit = match &self.tokens[self.pos].token {
                Token::Str { value, raw } => Some(
                    Lit::Str(StrLit { span, value: value.clone(), raw: raw.clone() }),
                ),
                Token::Num { value, raw } => Some(
                    Lit::Num(NumLit { span, value: *value, raw: raw.clone() }),
                ),
                Token::BigInt { raw } => Some(
                    Lit::BigInt(BigIntLit { span, negative: false, raw: raw.clone() }),
                ),
                Token::Word(Word::Kw(Kw::True)) => Some(Lit::Bool(BoolLit { span, value: true })),
                Token::Word(Word::Kw(Kw::False)) => Some(
                    Lit::Bool(BoolLit { span, value: false }),
                ),
                _ => None,
            };
            match lit {
                Some(l) => {
                    self.bump();
                    Ok(l)
                },
                None => Err(Diagnostic { span, error: SyntaxError::ExpressionExpected }),
            }
        } else {
            Err(Diagnostic { span, error: SyntaxError::Eof })
        }
    }

    /// An expression, in the subset the type grammar's expression positions
    /// use: literals, names with `.`-chains, unary minus, parentheses and
    /// object literals.  The full host expression grammar is a collaborator
    /// and stays outside this parser.
    pub fn parse_assignment_expr(&mut self, depth: u32) -> (r: Result<Box<Expr>, Diagnostic>)
        requires
            old(self).wf(),
        ensures
            parse_step(*old(self), *final (self)),
            r is Ok ==> old(self).pos < final (self).pos,
            final (self).diags@ == old(self).diags@,
            depth >= 2 && num_expr_at(old(self).tokens@, old(self).pos as int) ==> (r matches Ok(
                e,
            ) && ((*e) matches Expr::Lit(l) && (l matches Lit::Num(n) && (old(
                self,
            ).tokens@[old(self).pos as int].token matches Token::Num { value, raw } && n.value
                == value && n.raw@ == raw@))) && final (self).pos == old(self).pos + 1),
        decreases depth,
    {
        if depth == 0 {
            return Err(self.nesting_err());
        }
        if self.is_punct(Punct::Minus) {
            let start = self.cur_pos();
            self.bump();
            let arg = match self.parse_assignment_expr(depth - 1) {
                Ok(e) => e,
                Err(d) => {
                    return Err(d);
                },
            };
            let span = self.finish_span(start);
            return Ok(Box::new(Expr::UnaryMinus { span, arg }));
        }
        let base = match self.parse_primary_expr(depth - 1) {
            Ok(e) => e,
            Err(d) => {
                return Err(d);
            },
        };
        self.parse_member_chain(base)
    }

    fn parse_primary_expr(&mut self, depth: u32) -> (r: Result<Box<Expr>, Diagnostic>)
        requires
            old(self).wf(),
        ensures
            parse_step(*old(self), *final (self)),
            r is Ok ==> old(self).pos < final (self).pos,
            final (self).diags@ == old(self).diags@,
            depth >= 1 && num_expr_at(old(self).tokens@, old(self).pos as int) ==> (r matches Ok(
                e,
            ) && ((*e) matches Expr::Lit(l) && (l matches Lit::Num(n) && (old(
                self,
            ).tokens@[old(self).pos as int].token matches Token::Num { value, raw } && n.value
                == value && n.raw@ == raw@))) && final (self).pos == old(self).pos + 1),
        decreases depth,
    {
        if depth == 0 {
            return Err(self.nesting_err());
        }
        if self.is_punct(Punct::LParen) {
            let start = self.cur_pos();
            self.bump();
            let inner = match self.parse_assignment_expr(depth - 1) {
                Ok(e) => e,
                Err(d) => {
                    return Err(d);
                },
            };
            match self.expect_punct(Punct::RParen) {
                Ok(_) => {},
                Err(d) => {
                    return Err(d);
                },
            }
            let span = self.finish_span(start);
            return Ok(Box::new(Expr::Paren { span, expr: inner }));
        }
        if self.is_punct(Punct::LBrace) {
            let obj = match self.parse_object_lit(depth - 1) {
                Ok(o) => o,
                Err(d) => {
                    return Err(d);
                },
            };
            return Ok(Box::new(Expr::Object(obj)));
        }
        if self.is_word() {
            let id = match self.parse_ident_name() {
                Ok(i) => i,
                Err(d) => {
                    return Err(d);
                },
            };
            return Ok(Box::new(Expr::Ident(id)));
        }
        match self.parse_lit() {
            Ok(l) => Ok(Box::new(Expr::Lit(l))),
            Err(d) => Err(d),
        }
    }

    /// Trailing `.name` accesses after a primary expression.
    fn parse_member_chain(&mut self, base: Box<Expr>) -> (r: Result<Box<Expr>, Diagnostic>)
        requires
            old(self).wf(),
        ensures
            parse_step(*old(self), *final (self)),
            final (self).diags@ == old(self).diags@,
            !old(self).cur_is_punct(Punct::Dot) ==> (r matches Ok(e) && e == base && final (self).pos == old(self).pos),
    {
        let mut expr = base;
        loop
            invariant
                self.wf(),
                parse_step(*old(self), *self),
                self.diags@ == old(self).diags@,
                self.flags == old(self).flags,
                !old(self).cur_is_punct(Punct::Dot) ==> (expr == base && self.pos == old(
                    self,
                ).pos),
            decreases self.tokens@.len() - self.pos,
        {
            if !self.is_punct(Punct::Dot) {
                return Ok(expr);
            }
            let start = self.cur_pos();
            self.bump();
            let prop = match self.parse_ident_name() {
                Ok(i) => i,
                Err(d) => {
                    return Err(d);
                },
            };
            let span = self.finish_span(start);
            expr = Box::new(Expr::Member { span, obj: expr, prop });
        }
    }

    /// An object literal of plain `key: value` properties.
    pub fn parse_object_lit(&mut self, depth: u32) -> (r: Result<ObjectLit, Diagnostic>)
        requires
            old(self).wf(),
        ensures
            parse_step(*old(self), *final (self)),
            r is Ok ==> old(self).pos < final (self).pos,
            final (self).diags@ == old(self).diags@,
        decreases depth,
    {
        if depth == 0 {
            return Err(self.nesting_err());
        }
        let start = self.cur_pos();
        match self.expect_punct(Punct::LBrace) {
            Ok(_) => {},
            Err(d) => {
                return Err(d);
            },
        }
        let mut props: Vec<PropEntry> = Vec::new();
        loop
            invariant
                self.wf(),
                parse_step(*old(self), *self),
                self.diags@ == old(self).diags@,
                self.flags == old(self).flags,
                old(self).pos < self.pos,
                depth >= 1,
            decreases self.tokens@.len() - self.pos,
        {
            if self.eat_punct(Punct::RBrace) {
                let span = self.finish_span(start);
                return Ok(ObjectLit { span, props });
            }
            let entry = match self.parse_prop_entry(depth - 1) {
                Ok(p) => p,
                Err(d) => {
                    return Err(d);
                },
            };
            props.push(entry);
            if !self.eat_punct(Punct::Comma) {
                match self.expect_punct(Punct::RBrace) {
                    Ok(_) => {},
                    Err(d) => {
                        return Err(d);
                    },
                }
                let span = self.finish_span(start);
                return Ok(ObjectLit { span, props });
            }
        }
    }

    fn parse_prop_entry(&mut self, depth: u32) -> (r: Result<PropEntry, Diagnostic>)
        requires
            old(self).wf(),
        ensures
            parse_step(*old(self), *final (self)),
            r is Ok ==> old(self).pos < final (self).pos,
            final (self).diags@ == old(self).diags@,
        decreases depth,
    {
        if depth == 0 {
            return Err(self.nesting_err());
        }
        let start = self.cur_pos();
        let key = if self.is_word() {
            match self.parse_ident_name() {
                Ok(i) => PropKey::Ident(i),
                Err(d) => {
                    return Err(d);
                },
            }
        } else {
            match self.parse_lit() {
                Ok(Lit::Str(s)) => PropKey::Str(s),
                Ok(Lit::Num(n)) => PropKey::Num(n),
                Ok(_) => {
                    return Err(
                        Diagnostic { span: self.prev_span(), error: SyntaxError::ExpressionExpected },
                    );
                },
                Err(d) => {
                    return Err(d);
                },
            }
        };
        match self.expect_punct(Punct::Colon) {
            Ok(_) => {},
            Err(d) => {
                return Err(d);
            },
        }
        let value = match self.parse_assignment_expr(depth - 1) {
            Ok(e) => e,
            Err(d) => {
                return Err(d);
            },
        };
        let span = self.finish_span(start);
        Ok(PropEntry { span, key, value })
    }
}

} // verus!
