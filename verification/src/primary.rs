use crate::ast::{
    kw_type_kind, wf_inst_opt, wf_ty, BigIntLit, Ident, Lit, NumLit, StrLit, TplElement,
    TsEntityName, TsImportCallOptions, TsImportType, TsKeywordType, TsLit, TsLitType,
    TsParenthesizedType, TsQualifiedName, TsThisType, TsThisTypeOrIdent, TsTplLitType, TsType,
    TsTypePredicate, TsTypeQuery, TsTypeQueryExpr, TsTypeRef,
};
use crate::diag::{Diagnostic, SyntaxError};
use crate::props::{
    neg_num_at, neg_num_fold_result, pipe_pair_at, pipe_pair_end, pipe_pair_node,
    stops_below_intersection, stops_non_cond, stops_type, ty_atom_at, ty_atom_len, ty_atom_node,
    ty_atom_ok_result,
};
use crate::span::Span;
use crate::state::{parse_step, Parser};
use crate::token::{Kw, Punct, Token, Word};
use vstd::prelude::*;

verus! {

impl Parser {
    /// A copy of the current string token's cooked value and raw text.
    fn cur_str_parts(&self) -> (r: Option<(String, String)>)
        requires
            self.wf(),
        ensures
            r is Some <==> (self.spec_cur() matches Some(t) && t is Str),
            self.spec_cur() matches Some(Token::Str { value, raw }) ==> (r matches Some(pq)
                && pq.0@ == value@ && pq.1@ == raw@),
    {
        if self.pos < self.tokens.len() {
            match &self.tokens[self.pos].token {
                Token::Str { value, raw } => Some((value.clone(), raw.clone())),
                _ => None,
            }
        } else {
            None
        }
    }

    /// A copy of the current template-chunk token's text and tail flag.
    fn cur_quasi_parts(&self) -> (r: Option<(String, bool)>)
        requires
            self.wf(),
        ensures
            r is Some <==> (self.spec_cur() matches Some(t) && t is Quasi),
            self.spec_cur() matches Some(Token::Quasi { raw, tail }) ==> (r matches Some(pq)
                && pq.0@ == raw@ && pq.1 == tail),
    {
        if self.pos < self.tokens.len() {
            match &self.tokens[self.pos].token {
                Token::Quasi { raw, tail } => Some((raw.clone(), *tail)),
                _ => None,
            }
        } else {
            None
        }
    }

    /// The primary (non-array) type dispatch over the current token.
    pub fn parse_ts_non_array_type(&mut self, depth: u32) -> (r: Result<Box<TsType>, Diagnostic>)
        requires
            old(self).wf(),
        ensures
            parse_step(*old(self), *final (self)),
            r is Ok ==> old(self).pos < final (self).pos,
            r matches Ok(t) ==> wf_ty(*t),
            r matches Ok(t) ==> !((*t) is TsUnionOrIntersectionType),
            depth >= 2 && ty_atom_at(old(self).tokens@, old(self).pos as int)
                && stops_below_intersection(
                old(self).tokens@,
                old(self).pos + ty_atom_len(old(self).tokens@, old(self).pos as int),
            ) ==> ty_atom_ok_result(
                old(self).tokens@,
                old(self).pos as int,
                r,
                final (self).pos as int,
            ),
            depth >= 1 && neg_num_at(old(self).tokens@, old(self).pos as int)
                ==> neg_num_fold_result(
                old(self).tokens@,
                old(self).pos as int,
                r,
                final (self).pos as int,
            ),
        decreases depth, 1int,
    {
        if depth == 0 {
            return Err(self.nesting_err());
        }
        let start = self.cur_pos();
        if self.is_kw(Kw::Import) {
            let i = match self.parse_ts_import_type(depth - 1) {
                Ok(i) => i,
                Err(d) => {
                    return Err(d);
                },
            };
            return Ok(Box::new(TsType::TsImportType(i)));
        }
        if self.is_kw(Kw::This) {
            let this_keyword = match self.parse_ts_this_type_node() {
                Ok(t) => t,
                Err(d) => {
                    return Err(d);
                },
            };
            if !self.had_line_break_before_cur() && self.is_kw(Kw::Is) {
                let p = match self.parse_ts_this_type_predicate(
                    start,
                    false,
                    this_keyword,
                    depth - 1,
                ) {
                    Ok(p) => p,
                    Err(d) => {
                        return Err(d);
                    },
                };
                return Ok(Box::new(TsType::TsTypePredicate(p)));
            }
            return Ok(Box::new(TsType::TsThisType(this_keyword)));
        }
        if self.is_kw(Kw::Typeof) {
            let q = match self.parse_ts_type_query(depth - 1) {
                Ok(q) => q,
                Err(d) => {
                    return Err(d);
                },
            };
            return Ok(Box::new(TsType::TsTypeQuery(q)));
        }
        if self.is_kw(Kw::True) || self.is_kw(Kw::False) {
            let l = match self.parse_ts_lit_type_node(depth - 1) {
                Ok(l) => l,
                Err(d) => {
                    return Err(d);
                },
            };
            return Ok(Box::new(TsType::TsLitType(l)));
        }
        if self.is_word() {
            if self.is_kw(Kw::Asserts) && self.peek_is_kw(Kw::This) {
                self.bump();
                let this_keyword = match self.parse_ts_this_type_node() {
                    Ok(t) => t,
                    Err(d) => {
                        return Err(d);
                    },
                };
                let p = match self.parse_ts_this_type_predicate(
                    start,
                    true,
                    this_keyword,
                    depth - 1,
                ) {
                    Ok(p) => p,
                    Err(d) => {
                        return Err(d);
                    },
                };
                return Ok(Box::new(TsType::TsTypePredicate(p)));
            }
            let kind = match self.cur_word_dup() {
                Some(w) => match w.as_kw() {
                    Some(k) => kw_type_kind(k),
                    None => None,
                },
                None => None,
            };
            let peeked_is_dot = self.peek_is_punct(Punct::Dot);
            match kind {
                Some(kind) if !peeked_is_dot => {
                    self.bump();
                    let span = self.finish_span(start);
                    return Ok(Box::new(TsType::TsKeywordType(TsKeywordType { span, kind })));
                },
                _ => {
                    // Only unreserved words (plus `void`, `null` and `break`)
                    // may open a type reference; other reserved words cannot
                    // start a type.
                    let blocked = match self.cur_word_dup() {
                        Some(w) => match w.as_kw() {
                            Some(k) => !k.can_start_type_ref(),
                            None => false,
                        },
                        None => false,
                    };
                    if blocked {
                        return Err(
                            Diagnostic { span: self.cur_span(), error: SyntaxError::TypeExpected },
                        );
                    }
                    let tref = match self.parse_ts_type_ref(depth - 1) {
                        Ok(t) => t,
                        Err(d) => {
                            return Err(d);
                        },
                    };
                    return Ok(Box::new(TsType::TsTypeRef(tref)));
                },
            }
        }
        if self.is_str_lit() || self.is_num_lit() || self.is_bigint_lit() || self.is_punct(
            Punct::BackQuote,
        ) {
            let l = match self.parse_ts_lit_type_node(depth - 1) {
                Ok(l) => l,
                Err(d) => {
                    return Err(d);
                },
            };
            return Ok(Box::new(TsType::TsLitType(l)));
        }
        if self.is_punct(Punct::Minus) {
            // A leading `-` folds into the numeric or bigint literal itself:
            // a single literal node, not a unary-minus wrapper.
            self.bump();
            if !self.is_num_lit() && !self.is_bigint_lit() {
                return Err(
                    Diagnostic { span: self.cur_span(), error: SyntaxError::TypeExpected },
                );
            }
            let lit = match self.parse_lit() {
                Ok(l) => l,
                Err(d) => {
                    return Err(d);
                },
            };
            let folded = match lit {
                Lit::Num(n) => {
                    proof {
                        reveal_strlit("-");
                        assert("-"@ =~= seq!['-']);
                    }
                    let raw = String::from_str("-").concat(n.raw.as_str());
                    TsLit::Number(NumLit { span: n.span, value: -n.value, raw })
                },
                Lit::BigInt(b) => {
                    let raw = String::from_str("-").concat(b.raw.as_str());
                    TsLit::BigInt(BigIntLit { span: b.span, negative: true, raw })
                },
                _ => {
                    return Err(
                        Diagnostic { span: self.prev_span(), error: SyntaxError::TypeExpected },
                    );
                },
            };
            let span = self.finish_span(start);
            return Ok(Box::new(TsType::TsLitType(TsLitType { span, lit: folded })));
        }
        if self.is_punct(Punct::LBrace) {
            let m = self.begin_speculation();
            let mapped = self.is_ts_start_of_mapped_type();
            self.rollback(m);
            if mapped {
                let t = match self.parse_ts_mapped_type(depth - 1) {
                    Ok(t) => t,
                    Err(d) => {
                        return Err(d);
                    },
                };
                return Ok(Box::new(TsType::TsMappedType(t)));
            } else {
                let t = match self.parse_ts_type_lit(depth - 1) {
                    Ok(t) => t,
                    Err(d) => {
                        return Err(d);
                    },
                };
                return Ok(Box::new(TsType::TsTypeLit(t)));
            }
        }
        if self.is_punct(Punct::LBracket) {
            let t = match self.parse_ts_tuple_type(depth - 1) {
                Ok(t) => t,
                Err(d) => {
                    return Err(d);
                },
            };
            return Ok(Box::new(TsType::TsTupleType(t)));
        }
        if self.is_punct(Punct::LParen) {
            let t = match self.parse_ts_parenthesized_type(depth - 1) {
                Ok(t) => t,
                Err(d) => {
                    return Err(d);
                },
            };
            return Ok(Box::new(TsType::TsParenthesizedType(t)));
        }
        Err(Diagnostic { span: self.cur_span(), error: SyntaxError::TypeExpected })
    }

    /// A dotted entity name.  After `void` or a trailing `.` without a name
    /// a recoverable diagnostic is recorded.
    pub fn parse_ts_entity_name(&mut self, allow_reserved_words: bool) -> (r: Result<
        TsEntityName,
        Diagnostic,
    >)
        requires
            old(self).wf(),
        ensures
            parse_step(*old(self), *final (self)),
            r is Ok ==> old(self).pos < final (self).pos,
            old(self).cur_is_word() && !(old(self).spec_peek() matches Some(Token::Punct(
                Punct::Dot,
            ))) ==> (old(self).spec_cur() matches Some(Token::Word(w0)) && r matches Ok(e)
                && (e matches TsEntityName::Ident(i) && i.sym@ == w0@ && i.span == old(
                self,
            ).tokens@[old(self).pos as int].span) && final (self).pos == old(self).pos + 1),
    {
        let start = self.cur_pos();
        let init = match self.parse_ident_name() {
            Ok(i) => i,
            Err(d) => {
                return Err(d);
            },
        };
        let init_is_void = match &init.sym {
            Word::Kw(k) => *k == Kw::Void,
            _ => false,
        };
        if init_is_void {
            let dot_start = self.cur_pos();
            let dot_span = self.finish_span(dot_start);
            self.emit_err(dot_span, SyntaxError::UnexpectedDotAfterVoid);
        }
        let mut entity = TsEntityName::Ident(init);
        loop
            invariant
                self.wf(),
                parse_step(*old(self), *self),
                old(self).pos < self.pos,
                old(self).cur_is_word() && !(old(self).spec_peek() matches Some(Token::Punct(
                    Punct::Dot,
                ))) ==> (self.pos == old(self).pos + 1 && (entity matches TsEntityName::Ident(i)
                    && (old(self).spec_cur() matches Some(Token::Word(w0)) && i.sym@ == w0@
                    && i.span == old(self).tokens@[old(self).pos as int].span))),
            decreases self.tokens@.len() - self.pos,
        {
            if !self.eat_punct(Punct::Dot) {
                break ;
            }
            let dot_start = self.cur_pos();
            if !self.is_punct(Punct::Hash) && !self.is_word() {
                self.emit_err(
                    Span { lo: dot_start, hi: dot_start },
                    SyntaxError::IdentifierExpected,
                );
                return Ok(entity);
            }
            let right = if allow_reserved_words {
                match self.parse_ident_name() {
                    Ok(i) => i,
                    Err(d) => {
                        return Err(d);
                    },
                }
            } else {
                match self.parse_ident_ref() {
                    Ok(i) => i,
                    Err(d) => {
                        return Err(d);
                    },
                }
            };
            let span = self.finish_span(start);
            entity = TsEntityName::Qualified(Box::new(TsQualifiedName { span, left: entity, right }));
        }
        Ok(entity)
    }

    /// A type reference: an entity name with an optional generic
    /// instantiation on the same line.
    pub fn parse_ts_type_ref(&mut self, depth: u32) -> (r: Result<TsTypeRef, Diagnostic>)
        requires
            old(self).wf(),
        ensures
            parse_step(*old(self), *final (self)),
            r is Ok ==> old(self).pos < final (self).pos,
            r matches Ok(t) ==> wf_inst_opt(t.type_params),
            depth >= 1 && (old(self).spec_cur() matches Some(Token::Word(w0)) && w0 is Other)
                && stops_below_intersection(old(self).tokens@, old(self).pos + 1) ==> (r
                matches Ok(t) && (
            t.name matches TsEntityName::Ident(i) && i.sym@ == (old(
                self,
            ).spec_cur()->0 -> Word_0)@ && i.span == old(self).tokens@[old(
                self,
            ).pos as int].span) && t.type_params is None && t.span == old(
                self,
            ).tokens@[old(self).pos as int].span && final (self).pos == old(self).pos + 1),
        decreases depth, 1int,
    {
        if depth == 0 {
            return Err(self.nesting_err());
        }
        let start = self.cur_pos();
        let has_modifier = self.eat_any_ts_modifier();
        let name = match self.parse_ts_entity_name(true) {
            Ok(n) => n,
            Err(d) => {
                return Err(d);
            },
        };
        let type_params = if !self.had_line_break_before_cur() && self.is_punct(Punct::Lt) {
            match self.parse_ts_type_args_with(depth - 1) {
                Ok(a) => Some(a),
                Err(d) => {
                    return Err(d);
                },
            }
        } else {
            None
        };
        if has_modifier {
            let sp = self.finish_span(start);
            self.emit_err(sp, SyntaxError::ModifierOnTypeRef);
        }
        let span = self.finish_span(start);
        Ok(TsTypeRef { span, name, type_params })
    }

    pub fn parse_ts_this_type_node(&mut self) -> (r: Result<TsThisType, Diagnostic>)
        requires
            old(self).wf(),
        ensures
            parse_step(*old(self), *final (self)),
            final (self).diags@ == old(self).diags@,
            r is Ok <==> old(self).cur_is_kw(Kw::This),
            r is Ok ==> final (self).pos == old(self).pos + 1,
            r is Err ==> final (self).pos == old(self).pos,
    {
        match self.expect_kw(Kw::This) {
            Ok(_) => {},
            Err(d) => {
                return Err(d);
            },
        }
        Ok(TsThisType { span: self.prev_span() })
    }

    /// `this is T`, or `asserts this is T`, or a bare `this` predicate.
    pub fn parse_ts_this_type_predicate(
        &mut self,
        start: u32,
        has_asserts_keyword: bool,
        lhs: TsThisType,
        depth: u32,
    ) -> (r: Result<TsTypePredicate, Diagnostic>)
        requires
            old(self).wf(),
        ensures
            parse_step(*old(self), *final (self)),
            r matches Ok(p) ==> crate::ast::wf_ann_opt(p.type_ann),
        decreases depth, 1int,
    {
        if depth == 0 {
            return Err(self.nesting_err());
        }
        let param_name = TsThisTypeOrIdent::TsThisType(lhs);
        let type_ann = if self.eat_kw(Kw::Is) {
            let cur = self.cur_pos();
            match self.parse_ts_type_ann(false, cur, depth - 1) {
                Ok(a) => Some(a),
                Err(d) => {
                    return Err(d);
                },
            }
        } else {
            None
        };
        let span = self.finish_span(start);
        Ok(TsTypePredicate { span, asserts: has_asserts_keyword, param_name, type_ann })
    }

    /// `typeof` over an import type or an entity name.
    pub fn parse_ts_type_query(&mut self, depth: u32) -> (r: Result<TsTypeQuery, Diagnostic>)
        requires
            old(self).wf(),
        ensures
            parse_step(*old(self), *final (self)),
            r is Ok ==> old(self).pos < final (self).pos,
            r matches Ok(q) ==> (match q.expr_name {
                TsTypeQueryExpr::TsEntityName(_) => true,
                TsTypeQueryExpr::Import(i) => wf_inst_opt(i.type_args),
            } && wf_inst_opt(q.type_args)),
            depth >= 1 && old(self).cur_is_kw(Kw::Typeof) && (old(self).spec_peek() matches Some(
                Token::Word(w0),
            ) && w0 is Other) && stops_type(old(self).tokens@, old(self).pos + 2) ==> (r
                matches Ok(q) && (q.expr_name matches TsTypeQueryExpr::TsEntityName(
                TsEntityName::Ident(i),
            ) && i.sym@ == (old(self).tokens@[old(self).pos + 1].token->Word_0)@)
                && q.type_args is None && final (self).pos == old(self).pos + 2),
        decreases depth, 1int,
    {
        if depth == 0 {
            return Err(self.nesting_err());
        }
        let start = self.cur_pos();
        match self.expect_kw(Kw::Typeof) {
            Ok(_) => {},
            Err(d) => {
                return Err(d);
            },
        }
        let expr_name = if self.is_kw(Kw::Import) {
            match self.parse_ts_import_type(depth - 1) {
                Ok(i) => TsTypeQueryExpr::Import(i),
                Err(d) => {
                    return Err(d);
                },
            }
        } else {
            match self.parse_ts_entity_name(true) {
                Ok(n) => TsTypeQueryExpr::TsEntityName(n),
                Err(d) => {
                    return Err(d);
                },
            }
        };
        let type_args = if !self.had_line_break_before_cur() && self.is_punct(Punct::Lt) {
            match self.parse_ts_type_args_with(depth - 1) {
                Ok(a) => Some(a),
                Err(d) => {
                    return Err(d);
                },
            }
        } else {
            None
        };
        let span = self.finish_span(start);
        Ok(TsTypeQuery { span, expr_name, type_args })
    }

    /// `import("spec")` with optional attributes, qualifier and type
    /// arguments.  A non-string specifier is a recoverable error producing
    /// an empty placeholder string.
    pub fn parse_ts_import_type(&mut self, depth: u32) -> (r: Result<TsImportType, Diagnostic>)
        requires
            old(self).wf(),
        ensures
            parse_step(*old(self), *final (self)),
            r is Ok ==> old(self).pos < final (self).pos,
            r matches Ok(i) ==> wf_inst_opt(i.type_args),
            depth >= 1 && old(self).cur_is_kw(Kw::Import) && (old(self).spec_peek()
                matches Some(Token::Punct(pl)) && pl == Punct::LParen) && old(self).pos + 3 < old(
                self,
            ).tokens@.len() && old(self).tokens@[old(self).pos + 2].token is Str && (old(
                self,
            ).tokens@[old(self).pos + 3].token matches Token::Punct(pr) && pr == Punct::RParen)
                && !(old(self).pos + 4 < old(self).tokens@.len() && (old(self).tokens@[old(
                self,
            ).pos + 4].token matches Token::Punct(px) && (px == Punct::Dot || px == Punct::Lt)))
                ==> (r matches Ok(i) && (old(self).tokens@[old(
                self,
            ).pos + 2].token matches Token::Str { value, raw } && i.arg.value@ == value@
                && i.arg.raw@ == raw@) && i.qualifier is None && i.type_args is None
                && i.attributes is None && final (self).pos == old(self).pos + 4),
        decreases depth, 1int,
    {
        if depth == 0 {
            return Err(self.nesting_err());
        }
        let start = self.cur_pos();
        match self.expect_kw(Kw::Import) {
            Ok(_) => {},
            Err(d) => {
                return Err(d);
            },
        }
        match self.expect_punct(Punct::LParen) {
            Ok(_) => {},
            Err(d) => {
                return Err(d);
            },
        }
        let arg_span = self.cur_span();
        let arg = match self.cur_str_parts() {
            Some((value, raw)) => {
                self.bump();
                StrLit { span: arg_span, value, raw }
            },
            None => {
                if self.at_eof() {
                    return Err(Diagnostic { span: arg_span, error: SyntaxError::Eof });
                }
                self.bump();
                self.emit_err(arg_span, SyntaxError::ImportArgNotString);
                StrLit {
                    span: arg_span,
                    value: String::new(),
                    raw: String::from_str("\"\""),
                }
            },
        };
        let attributes = if self.eat_punct(Punct::Comma) && self.is_punct(Punct::LBrace) {
            match self.parse_ts_call_options(depth - 1) {
                Ok(o) => Some(o),
                Err(d) => {
                    return Err(d);
                },
            }
        } else {
            None
        };
        match self.expect_punct(Punct::RParen) {
            Ok(_) => {},
            Err(d) => {
                return Err(d);
            },
        }
        let qualifier = if self.eat_punct(Punct::Dot) {
            match self.parse_ts_entity_name(false) {
                Ok(n) => Some(n),
                Err(d) => {
                    return Err(d);
                },
            }
        } else {
            None
        };
        let type_args = if self.is_punct(Punct::Lt) {
            match self.parse_ts_type_args_with(depth - 1) {
                Ok(a) => Some(a),
                Err(d) => {
                    return Err(d);
                },
            }
        } else {
            None
        };
        let span = self.finish_span(start);
        Ok(TsImportType { span, arg, qualifier, type_args, attributes })
    }

    /// The `with`-attributes object of an import type.
    pub fn parse_ts_call_options(&mut self, depth: u32) -> (r: Result<
        TsImportCallOptions,
        Diagnostic,
    >)
        requires
            old(self).wf(),
        ensures
            parse_step(*old(self), *final (self)),
            r is Ok ==> old(self).pos < final (self).pos,
        decreases depth, 1int,
    {
        if depth == 0 {
            return Err(self.nesting_err());
        }
        let start = self.cur_pos();
        match self.expect_punct(Punct::LBrace) {
            Ok(_) => {},
            Err(d) => {
                return Err(d);
            },
        }
        match self.expect_kw(Kw::With) {
            Ok(_) => {},
            Err(d) => {
                return Err(d);
            },
        }
        match self.expect_punct(Punct::Colon) {
            Ok(_) => {},
            Err(d) => {
                return Err(d);
            },
        }
        let with_object = match self.parse_object_lit(depth - 1) {
            Ok(o) => o,
            Err(d) => {
                return Err(d);
            },
        };
        let _ = self.eat_punct(Punct::Comma);
        match self.expect_punct(Punct::RBrace) {
            Ok(_) => {},
            Err(d) => {
                return Err(d);
            },
        }
        let span = self.finish_span(start);
        Ok(TsImportCallOptions { span, with_object })
    }

    /// A literal type: string, number, bigint, boolean or template literal.
    pub fn parse_ts_lit_type_node(&mut self, depth: u32) -> (r: Result<TsLitType, Diagnostic>)
        requires
            old(self).wf(),
        ensures
            parse_step(*old(self), *final (self)),
            r is Ok ==> old(self).pos < final (self).pos,
            r matches Ok(l) ==> wf_ty(TsType::TsLitType(l)),
            old(self).spec_cur() matches Some(Token::Num { value, raw }) ==> (depth >= 1 ==> (r
                matches Ok(l) && (l.lit matches TsLit::Number(n) && n.value == value && n.raw@
                == raw@) && final (self).pos == old(self).pos + 1)),
            old(self).spec_cur() matches Some(Token::Str { value, raw }) ==> (depth >= 1 ==> (r
                matches Ok(l) && (l.lit matches TsLit::Str(sl) && sl.value@ == value@ && sl.raw@
                == raw@) && final (self).pos == old(self).pos + 1)),
        decreases depth, 1int,
    {
        if depth == 0 {
            return Err(self.nesting_err());
        }
        let start = self.cur_pos();
        let lit = if self.is_punct(Punct::BackQuote) {
            match self.parse_ts_tpl_lit_type(depth - 1) {
                Ok(t) => TsLit::Tpl(t),
                Err(d) => {
                    return Err(d);
                },
            }
        } else {
            match self.parse_lit() {
                Ok(Lit::Num(n)) => TsLit::Number(n),
                Ok(Lit::Str(s)) => TsLit::Str(s),
                Ok(Lit::Bool(b)) => TsLit::Bool(b),
                Ok(Lit::BigInt(b)) => TsLit::BigInt(b),
                Err(d) => {
                    return Err(d);
                },
            }
        };
        let span = self.finish_span(start);
        Ok(TsLitType { span, lit })
    }

    /// A template-literal type, interleaving cooked chunks and types.
    pub fn parse_ts_tpl_lit_type(&mut self, depth: u32) -> (r: Result<TsTplLitType, Diagnostic>)
        requires
            old(self).wf(),
        ensures
            parse_step(*old(self), *final (self)),
            r is Ok ==> old(self).pos < final (self).pos,
            r matches Ok(t) ==> forall|i: int|
                0 <= i < t.types.len() ==> wf_ty(*(#[trigger] t.types@[i])),
            depth >= 2 && old(self).cur_is_punct(Punct::BackQuote) && (old(self).spec_peek()
                matches Some(Token::Quasi { raw, tail }) && tail) && (old(self).pos + 2 < old(
                self,
            ).tokens@.len() && (old(self).tokens@[old(self).pos + 2].token
                matches Token::Punct(pb) && pb == Punct::BackQuote)) ==> (r matches Ok(t)
                && t.types.len() == 0 && t.quasis.len() == 1 && t.quasis@[0].raw@ == (old(
                self,
            ).tokens@[old(self).pos + 1].token->Quasi_raw)@ && final (self).pos == old(self).pos
                + 3),
        decreases depth, 1int,
    {
        if depth == 0 {
            return Err(self.nesting_err());
        }
        let start = self.cur_pos();
        match self.expect_punct(Punct::BackQuote) {
            Ok(_) => {},
            Err(d) => {
                return Err(d);
            },
        }
        let (types, quasis) = match self.parse_ts_tpl_type_elements(depth - 1) {
            Ok(p) => p,
            Err(d) => {
                return Err(d);
            },
        };
        match self.expect_punct(Punct::BackQuote) {
            Ok(_) => {},
            Err(d) => {
                return Err(d);
            },
        }
        let span = self.finish_span(start);
        Ok(TsTplLitType { span, types, quasis })
    }

    /// The alternating chunk/`${`type`}` sequence of a template type.
    pub fn parse_ts_tpl_type_elements(&mut self, depth: u32) -> (r: Result<
        (Vec<Box<TsType>>, Vec<TplElement>),
        Diagnostic,
    >)
        requires
            old(self).wf(),
        ensures
            parse_step(*old(self), *final (self)),
            r matches Ok(p) ==> forall|i: int|
                0 <= i < p.0.len() ==> wf_ty(*(#[trigger] p.0@[i])),
            depth >= 1 && (old(self).spec_cur() matches Some(Token::Quasi { raw, tail }) && tail)
                ==> (r matches Ok(p) && p.0.len() == 0 && p.1.len() == 1 && p.1@[0].raw@ == (old(
                self,
            ).tokens@[old(self).pos as int].token->Quasi_raw)@ && p.1@[0].tail && final (self).pos == old(self).pos + 1),
        decreases depth, 0int,
    {
        if depth == 0 {
            return Err(self.nesting_err());
        }
        let mut types: Vec<Box<TsType>> = Vec::new();
        let first = match self.parse_tpl_element() {
            Ok(e) => e,
            Err(d) => {
                return Err(d);
            },
        };
        let mut is_tail = first.tail;
        let mut quasis: Vec<TplElement> = Vec::new();
        quasis.push(first);
        loop
            invariant
                self.wf(),
                parse_step(*old(self), *self),
                depth >= 1,
                forall|i: int| 0 <= i < types.len() ==> wf_ty(*(#[trigger] types@[i])),
                (old(self).spec_cur() matches Some(Token::Quasi { raw, tail }) && tail) ==> (
                types.len() == 0 && quasis.len() == 1 && quasis@[0].raw@ == (old(
                    self,
                ).tokens@[old(self).pos as int].token->Quasi_raw)@ && quasis@[0].tail && is_tail
                    && self.pos == old(self).pos + 1),
            decreases self.tokens@.len() - self.pos,
        {
            if is_tail {
                break ;
            }
            match self.expect_punct(Punct::DollarLBrace) {
                Ok(_) => {},
                Err(d) => {
                    return Err(d);
                },
            }
            let t = match self.parse_ts_type(depth - 1) {
                Ok(t) => t,
                Err(d) => {
                    return Err(d);
                },
            };
            types.push(t);
            match self.expect_punct(Punct::RBrace) {
                Ok(_) => {},
                Err(d) => {
                    return Err(d);
                },
            }
            let e = match self.parse_tpl_element() {
                Ok(e) => e,
                Err(d) => {
                    return Err(d);
                },
            };
            is_tail = e.tail;
            quasis.push(e);
        }
        Ok((types, quasis))
    }

    /// One cooked template chunk.
    pub fn parse_tpl_element(&mut self) -> (r: Result<TplElement, Diagnostic>)
        requires
            old(self).wf(),
        ensures
            parse_step(*old(self), *final (self)),
            final (self).diags@ == old(self).diags@,
            r is Ok ==> final (self).pos == old(self).pos + 1,
            old(self).spec_cur() matches Some(Token::Quasi { raw, tail }) ==> (r matches Ok(e)
                && e.raw@ == raw@ && e.tail == tail),
            r is Ok <==> (old(self).spec_cur() matches Some(t) && t is Quasi),
    {
        let span = self.cur_span();
        match self.cur_quasi_parts() {
            Some((raw, tail)) => {
                self.bump();
                Ok(TplElement { span, raw, tail })
            },
            None => Err(Diagnostic { span, error: SyntaxError::TypeExpected }),
        }
    }

    /// `( T )`.
    pub fn parse_ts_parenthesized_type(&mut self, depth: u32) -> (r: Result<
        TsParenthesizedType,
        Diagnostic,
    >)
        requires
            old(self).wf(),
        ensures
            parse_step(*old(self), *final (self)),
            r is Ok ==> old(self).pos < final (self).pos,
            r matches Ok(t) ==> wf_ty(*t.type_ann),
            depth >= 12 && old(self).cur_is_punct(Punct::LParen) && ty_atom_at(
                old(self).tokens@,
                old(self).pos + 1,
            ) && stops_type(
                old(self).tokens@,
                old(self).pos + 1 + ty_atom_len(old(self).tokens@, old(self).pos + 1),
            ) && (old(self).pos + 1 + ty_atom_len(old(self).tokens@, old(self).pos + 1) < old(
                self,
            ).tokens@.len() && (old(self).tokens@[old(self).pos + 1 + ty_atom_len(
                old(self).tokens@,
                old(self).pos + 1,
            )].token matches Token::Punct(pr) && pr == Punct::RParen)) ==> (r matches Ok(t)
                && ty_atom_node(old(self).tokens@, old(self).pos + 1, *t.type_ann) && final (self).pos == old(self).pos + 2 + ty_atom_len(old(self).tokens@, old(self).pos + 1)),
            depth >= 14 && old(self).cur_is_punct(Punct::LParen) && pipe_pair_at(
                old(self).tokens@,
                old(self).pos + 1,
            ) && (pipe_pair_end(old(self).tokens@, old(self).pos + 1) < old(self).tokens@.len()
                && (old(self).tokens@[pipe_pair_end(old(self).tokens@, old(
                self,
            ).pos + 1)].token matches Token::Punct(pr2) && pr2 == Punct::RParen)) ==> (r
                matches Ok(t) && pipe_pair_node(old(self).tokens@, old(self).pos + 1, *t.type_ann)
                && final (self).pos == pipe_pair_end(old(self).tokens@, old(self).pos + 1) + 1),
        decreases depth, 1int,
    {
        if depth == 0 {
            return Err(self.nesting_err());
        }
        let start = self.cur_pos();
        match self.expect_punct(Punct::LParen) {
            Ok(_) => {},
            Err(d) => {
                return Err(d);
            },
        }
        let type_ann = match self.parse_ts_type(depth - 1) {
            Ok(t) => t,
            Err(d) => {
                return Err(d);
            },
        };
        match self.expect_punct(Punct::RParen) {
            Ok(_) => {},
            Err(d) => {
                return Err(d);
            },
        }
        let span = self.finish_span(start);
        Ok(TsParenthesizedType { span, type_ann })
    }
}

} // verus!
