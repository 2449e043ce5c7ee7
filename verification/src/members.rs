use crate::ast::{
    wf_member, wf_members, wf_ty, wf_type_param, Expr, TsCallSignatureDecl,
    TsConstructSignatureDecl, TsGetterSignature, TsIndexSignature, TsMappedType,
    TsMethodSignature, TsPropertySignature, TsSetterSignature, TsType, TsTypeElement, TsTypeLit,
    TsTypeParam, BindingIdent, TsFnParam,
};
use crate::diag::{Diagnostic, SyntaxError};
use crate::lists::ParsingContext;
use crate::props::{mapped_tail_at, mapped_tail_result, stops_type, ty_atom_at, ty_atom_len, ty_atom_node};
use crate::state::{parse_step, Parser};
use crate::token::{Kw, Punct, Token, Word};
use vstd::prelude::*;

verus! {

#[derive(Clone, Copy, PartialEq, Eq, Structural, Debug)]
pub enum SignatureParsingMode {
    TSCallSignatureDeclaration,
    TSConstructSignatureDeclaration,
}

impl Parser {
    /// `{` members `}` as a type literal.
    pub fn parse_ts_type_lit(&mut self, depth: u32) -> (r: Result<TsTypeLit, Diagnostic>)
        requires
            old(self).wf(),
        ensures
            parse_step(*old(self), *final (self)),
            r is Ok ==> old(self).pos < final (self).pos,
            r matches Ok(t) ==> wf_members(t.members@),
        decreases depth, 2int,
    {
        if depth == 0 {
            return Err(self.nesting_err());
        }
        let start = self.cur_pos();
        let members = match self.parse_ts_object_type_members(depth) {
            Ok(m) => m,
            Err(d) => {
                return Err(d);
            },
        };
        let span = self.finish_span(start);
        Ok(TsTypeLit { span, members })
    }

    /// `{` + member list terminated at `}`.
    pub fn parse_ts_object_type_members(&mut self, depth: u32) -> (r: Result<
        Vec<TsTypeElement>,
        Diagnostic,
    >)
        requires
            old(self).wf(),
        ensures
            parse_step(*old(self), *final (self)),
            r is Ok ==> old(self).pos < final (self).pos,
            r matches Ok(ms) ==> wf_members(ms@),
            old(self).cur_is_punct(Punct::LBrace) && !(old(self).spec_peek() matches Some(
                Token::Punct(p),
            ) && p == Punct::RBrace) ==> (r matches Ok(ms) ==> ms.len() >= 1),
        decreases depth, 1int,
    {
        if depth == 0 {
            return Err(self.nesting_err());
        }
        match self.expect_punct(Punct::LBrace) {
            Ok(_) => {},
            Err(d) => {
                return Err(d);
            },
        }
        let mut members: Vec<TsTypeElement> = Vec::new();
        loop
            invariant
                self.wf(),
                parse_step(*old(self), *self),
                depth >= 1,
                old(self).pos < self.pos,
                wf_members(members@),
                members.len() == 0 ==> self.pos == old(self).pos + 1,
            ensures
                self.wf(),
                parse_step(*old(self), *self),
                old(self).pos < self.pos,
                wf_members(members@),
                members.len() == 0 ==> (self.pos == old(self).pos + 1 && self.cur_is_punct(
                    Punct::RBrace,
                )),
            decreases self.tokens@.len() - self.pos,
        {
            if self.is_ts_list_terminator(ParsingContext::TypeMembers) {
                break ;
            }
            let m = match self.parse_ts_type_member(depth - 1) {
                Ok(m) => m,
                Err(d) => {
                    return Err(d);
                },
            };
            members.push(m);
        }
        match self.expect_punct(Punct::RBrace) {
            Ok(_) => {},
            Err(d) => {
                return Err(d);
            },
        }
        Ok(members)
    }

    /// Each member ends with `;` or `,` (either satisfies), with automatic
    /// insertion before `}` and at line ends.
    pub fn parse_ts_type_member_semicolon(&mut self) -> (r: Result<(), Diagnostic>)
        requires
            old(self).wf(),
        ensures
            parse_step(*old(self), *final (self)),
            final (self).diags@ == old(self).diags@,
    {
        if self.eat_punct(Punct::Comma) {
            return Ok(());
        }
        self.expect_semi()
    }

    /// The consuming scan after `new`: does a call-signature shape follow?
    pub fn is_ts_start_of_construct_signature(&mut self) -> (r: bool)
        requires
            old(self).wf(),
            !old(self).spec_at_eof(),
        ensures
            parse_step(*old(self), *final (self)),
            final (self).diags@ == old(self).diags@,
            r == (old(self).spec_peek() matches Some(Token::Punct(p)) && (p == Punct::LParen || p
                == Punct::Lt)),
    {
        self.bump();
        self.is_punct(Punct::LParen) || self.is_punct(Punct::Lt)
    }

    /// A call or construct signature member.
    pub fn parse_ts_signature_member(&mut self, kind: SignatureParsingMode, depth: u32) -> (r:
        Result<TsTypeElement, Diagnostic>)
        requires
            old(self).wf(),
        ensures
            parse_step(*old(self), *final (self)),
            r is Ok ==> old(self).pos < final (self).pos,
            r matches Ok(m) ==> wf_member(m),
            r matches Ok(m) ==> ((kind == SignatureParsingMode::TSCallSignatureDeclaration)
                <==> m is TsCallSignatureDecl),
            r matches Ok(m) ==> ((kind == SignatureParsingMode::TSConstructSignatureDeclaration)
                <==> m is TsConstructSignatureDecl),
            kind == SignatureParsingMode::TSConstructSignatureDeclaration && r is Ok ==> old(
                self,
            ).cur_is_kw(Kw::New),
        decreases depth, 1int,
    {
        if depth == 0 {
            return Err(self.nesting_err());
        }
        let start = self.cur_pos();
        if kind == SignatureParsingMode::TSConstructSignatureDeclaration {
            match self.expect_kw(Kw::New) {
                Ok(_) => {},
                Err(d) => {
                    return Err(d);
                },
            }
        }
        let type_params = match self.try_parse_ts_type_params(false, true, depth - 1) {
            Ok(p) => p,
            Err(d) => {
                return Err(d);
            },
        };
        match self.expect_punct(Punct::LParen) {
            Ok(_) => {},
            Err(d) => {
                return Err(d);
            },
        }
        let params = match self.parse_ts_binding_list_for_signature(depth - 1) {
            Ok(p) => p,
            Err(d) => {
                return Err(d);
            },
        };
        let type_ann = if self.is_punct(Punct::Colon) {
            match self.parse_ts_type_or_type_predicate_ann(Punct::Colon, depth - 1) {
                Ok(a) => Some(a),
                Err(d) => {
                    return Err(d);
                },
            }
        } else {
            None
        };
        match self.parse_ts_type_member_semicolon() {
            Ok(_) => {},
            Err(d) => {
                return Err(d);
            },
        }
        let span = self.finish_span(start);
        if kind == SignatureParsingMode::TSCallSignatureDeclaration {
            Ok(
                TsTypeElement::TsCallSignatureDecl(
                    TsCallSignatureDecl { span, params, type_ann, type_params },
                ),
            )
        } else {
            Ok(
                TsTypeElement::TsConstructSignatureDecl(
                    TsConstructSignatureDecl { span, params, type_ann, type_params },
                ),
            )
        }
    }

    /// The consuming scan after `[`: an index signature is unambiguous when
    /// a name followed by `:` (or, for recovery, `,`) stands inside.
    pub fn is_ts_unambiguously_index_signature(&mut self) -> (r: bool)
        requires
            old(self).wf(),
            old(self).cur_is_punct(Punct::LBracket),
        ensures
            parse_step(*old(self), *final (self)),
            final (self).diags@ == old(self).diags@,
            r == (old(self).spec_peek_is_ident_ref() && old(self).pos + 2 < old(
                self,
            ).tokens@.len() && (old(self).tokens@[old(self).pos + 2].token
                matches Token::Punct(p) && (p == Punct::Colon || p == Punct::Comma))),
    {
        self.bump();
        if !self.is_ident_ref() {
            return false;
        }
        self.bump();
        self.is_punct(Punct::Colon) || self.is_punct(Punct::Comma)
    }

    /// An index signature, committed to only after the lookahead matches.
    pub fn try_parse_ts_index_signature(
        &mut self,
        index_signature_start: u32,
        readonly: bool,
        is_static: bool,
        depth: u32,
    ) -> (r: Result<Option<TsIndexSignature>, Diagnostic>)
        requires
            old(self).wf(),
        ensures
            parse_step(*old(self), *final (self)),
            r matches Ok(Some(s)) ==> old(self).pos < final (self).pos && wf_member(
                TsTypeElement::TsIndexSignature(s),
            ),
            r matches Ok(Some(s)) ==> (s.readonly == readonly && s.is_static == is_static && old(
                self,
            ).cur_is_punct(Punct::LBracket)),
            r matches Ok(None) ==> final (self).pos == old(self).pos && final (self).flags == old(
                self,
            ).flags && final (self).diags@ == old(self).diags@,
        decreases depth, 1int,
    {
        if depth == 0 {
            return Err(self.nesting_err());
        }
        let applies = if self.is_punct(Punct::LBracket) {
            let m = self.begin_speculation();
            let ok = self.is_ts_unambiguously_index_signature();
            self.rollback(m);
            ok
        } else {
            false
        };
        if !applies {
            return Ok(None);
        }
        match self.expect_punct(Punct::LBracket) {
            Ok(_) => {},
            Err(d) => {
                return Err(d);
            },
        }
        let ident_start = self.cur_pos();
        let id = match self.parse_ident_name() {
            Ok(i) => i,
            Err(d) => {
                return Err(d);
            },
        };
        let type_ann_start = self.cur_pos();
        if self.eat_punct(Punct::Comma) {
            let sp = id.span;
            self.emit_err(sp, SyntaxError::IndexSignatureOneParameter);
        } else {
            match self.expect_punct(Punct::Colon) {
                Ok(_) => {},
                Err(d) => {
                    return Err(d);
                },
            }
        }
        let indexer_ann = match self.parse_ts_type_ann(false, type_ann_start, depth - 1) {
            Ok(a) => a,
            Err(d) => {
                return Err(d);
            },
        };
        let binding = BindingIdent {
            span: self.finish_span(ident_start),
            id,
            optional: false,
            type_ann: Some(indexer_ann),
        };
        match self.expect_punct(Punct::RBracket) {
            Ok(_) => {},
            Err(d) => {
                return Err(d);
            },
        }
        let mut params: Vec<TsFnParam> = Vec::new();
        params.push(TsFnParam::Ident(binding));
        let type_ann = match self.try_parse_ts_type_ann(depth - 1) {
            Ok(a) => a,
            Err(d) => {
                return Err(d);
            },
        };
        match self.parse_ts_type_member_semicolon() {
            Ok(_) => {},
            Err(d) => {
                return Err(d);
            },
        }
        let span = self.finish_span(index_signature_start);
        Ok(Some(TsIndexSignature { span, readonly, is_static, params, type_ann }))
    }

    /// A member key: computed `[expr]`, a literal, a private `#name`
    /// (rejected with a recoverable diagnostic but kept in the tree), or a
    /// plain name.
    pub fn parse_ts_property_name(&mut self, depth: u32) -> (r: Result<
        (bool, Box<Expr>),
        Diagnostic,
    >)
        requires
            old(self).wf(),
        ensures
            parse_step(*old(self), *final (self)),
            r is Ok ==> old(self).pos < final (self).pos,
            depth >= 1 && old(self).cur_is_word() ==> (old(self).spec_cur() matches Some(
                Token::Word(w0),
            ) && r matches Ok(kp) && kp.0 == false && ((*kp.1) matches Expr::Ident(i) && i.sym@
                == w0@) && final (self).pos == old(self).pos + 1),
        decreases depth, 1int,
    {
        if depth == 0 {
            return Err(self.nesting_err());
        }
        if self.eat_punct(Punct::LBracket) {
            let key = match self.parse_assignment_expr(depth - 1) {
                Ok(e) => e,
                Err(d) => {
                    return Err(d);
                },
            };
            match self.expect_punct(Punct::RBracket) {
                Ok(_) => {},
                Err(d) => {
                    return Err(d);
                },
            }
            return Ok((true, key));
        }
        if self.is_num_lit() || self.is_str_lit() {
            let l = match self.parse_lit() {
                Ok(l) => l,
                Err(d) => {
                    return Err(d);
                },
            };
            return Ok((false, Box::new(Expr::Lit(l))));
        }
        if self.is_punct(Punct::Hash) {
            let start = self.cur_pos();
            self.bump();
            let id = match self.parse_ident_name() {
                Ok(i) => i,
                Err(d) => {
                    return Err(d);
                },
            };
            let span = self.finish_span(start);
            self.emit_err(span, SyntaxError::PrivateNameInInterface);
            return Ok((false, Box::new(Expr::PrivateName { span, id })));
        }
        let id = match self.parse_ident_name() {
            Ok(i) => i,
            Err(d) => {
                return Err(d);
            },
        };
        Ok((false, Box::new(Expr::Ident(id))))
    }

    /// A property or method signature, after modifiers and lookaheads have
    /// settled everything else.
    pub fn parse_ts_property_or_method_signature(
        &mut self,
        start: u32,
        readonly: bool,
        depth: u32,
    ) -> (r: Result<TsTypeElement, Diagnostic>)
        requires
            old(self).wf(),
        ensures
            parse_step(*old(self), *final (self)),
            r is Ok ==> old(self).pos < final (self).pos,
            r matches Ok(m) ==> wf_member(m),
            depth >= 2 && readonly && old(self).cur_is_word() && (old(self).spec_peek()
                matches Some(Token::Punct(p)) && (p == Punct::LParen || p == Punct::Lt)) ==> (r
                matches Err(d) && d.error == SyntaxError::ReadOnlyMethod),
            depth >= 15 && old(self).cur_is_word() && (old(self).spec_peek() matches Some(
                Token::Punct(pc),
            ) && pc == Punct::Colon) && ty_atom_at(old(self).tokens@, old(self).pos + 2)
                && stops_type(
                old(self).tokens@,
                old(self).pos + 2 + ty_atom_len(old(self).tokens@, old(self).pos + 2),
            ) ==> (old(self).spec_cur() matches Some(Token::Word(w0)) && (r matches Ok(m) ==> (
            m matches TsTypeElement::TsPropertySignature(sg) && sg.readonly == readonly
                && !sg.computed && !sg.optional && ((*sg.key) matches Expr::Ident(i) && i.sym@
                == w0@) && (sg.type_ann matches Some(a) && ty_atom_node(
                old(self).tokens@,
                old(self).pos + 2,
                *a.type_ann,
            ))))),
        decreases depth, 1int,
    {
        if depth == 0 {
            return Err(self.nesting_err());
        }
        let key_pair = match self.parse_ts_property_name(depth - 1) {
            Ok(p) => p,
            Err(d) => {
                return Err(d);
            },
        };
        let (computed, key) = key_pair;
        let optional = self.eat_punct(Punct::Question);
        if self.is_punct(Punct::LParen) || self.is_punct(Punct::Lt) {
            if readonly {
                return Err(
                    Diagnostic { span: self.cur_span(), error: SyntaxError::ReadOnlyMethod },
                );
            }
            let type_params = match self.try_parse_ts_type_params(false, true, depth - 1) {
                Ok(p) => p,
                Err(d) => {
                    return Err(d);
                },
            };
            match self.expect_punct(Punct::LParen) {
                Ok(_) => {},
                Err(d) => {
                    return Err(d);
                },
            }
            let params = match self.parse_ts_binding_list_for_signature(depth - 1) {
                Ok(p) => p,
                Err(d) => {
                    return Err(d);
                },
            };
            let type_ann = if self.is_punct(Punct::Colon) {
                match self.parse_ts_type_or_type_predicate_ann(Punct::Colon, depth - 1) {
                    Ok(a) => Some(a),
                    Err(d) => {
                        return Err(d);
                    },
                }
            } else {
                None
            };
            match self.parse_ts_type_member_semicolon() {
                Ok(_) => {},
                Err(d) => {
                    return Err(d);
                },
            }
            let span = self.finish_span(start);
            Ok(
                TsTypeElement::TsMethodSignature(
                    TsMethodSignature { span, key, computed, optional, params, type_ann, type_params },
                ),
            )
        } else {
            let type_ann = match self.try_parse_ts_type_ann(depth - 1) {
                Ok(a) => a,
                Err(d) => {
                    return Err(d);
                },
            };
            match self.parse_ts_type_member_semicolon() {
                Ok(_) => {},
                Err(d) => {
                    return Err(d);
                },
            }
            let span = self.finish_span(start);
            Ok(
                TsTypeElement::TsPropertySignature(
                    TsPropertySignature { span, readonly, key, computed, optional, type_ann },
                ),
            )
        }
    }

    /// The speculative getter/setter attempt inside the member dispatch.
    fn try_parse_ts_accessor_member(&mut self, readonly: bool, depth: u32) -> (r: Result<
        Option<TsTypeElement>,
        Diagnostic,
    >)
        requires
            old(self).wf(),
        ensures
            parse_step(*old(self), *final (self)),
            r matches Ok(Some(m)) ==> old(self).pos < final (self).pos && wf_member(m),
            r matches Ok(Some(m)) ==> (m is TsGetterSignature || m is TsSetterSignature),
            old(self).cur_is_kw(Kw::Get) ==> (r matches Ok(Some(m)) ==> m is TsGetterSignature),
        decreases depth, 1int,
    {
        if depth == 0 {
            return Err(self.nesting_err());
        }
        let start = self.cur_pos();
        if readonly {
            return Err(
                Diagnostic {
                    span: self.cur_span(),
                    error: SyntaxError::GetterSetterCannotBeReadonly,
                },
            );
        }
        let is_get = if self.eat_kw(Kw::Get) {
            true
        } else {
            match self.expect_kw(Kw::SetKw) {
                Ok(_) => {},
                Err(d) => {
                    return Err(d);
                },
            }
            false
        };
        let key_pair = match self.parse_ts_property_name(depth - 1) {
            Ok(p) => p,
            Err(d) => {
                return Err(d);
            },
        };
        let (computed, key) = key_pair;
        if is_get {
            match self.expect_punct(Punct::LParen) {
                Ok(_) => {},
                Err(d) => {
                    return Err(d);
                },
            }
            match self.expect_punct(Punct::RParen) {
                Ok(_) => {},
                Err(d) => {
                    return Err(d);
                },
            }
            let type_ann = match self.try_parse_ts_type_ann(depth - 1) {
                Ok(a) => a,
                Err(d) => {
                    return Err(d);
                },
            };
            match self.parse_ts_type_member_semicolon() {
                Ok(_) => {},
                Err(d) => {
                    return Err(d);
                },
            }
            let span = self.finish_span(start);
            Ok(
                Some(
                    TsTypeElement::TsGetterSignature(
                        TsGetterSignature { span, key, computed, type_ann },
                    ),
                ),
            )
        } else {
            match self.expect_punct(Punct::LParen) {
                Ok(_) => {},
                Err(d) => {
                    return Err(d);
                },
            }
            let mut params = match self.parse_ts_binding_list_for_signature(depth - 1) {
                Ok(p) => p,
                Err(d) => {
                    return Err(d);
                },
            };
            if params.len() == 0 {
                return Err(
                    Diagnostic { span: self.cur_span(), error: SyntaxError::SetterParamRequired },
                );
            }
            let param = params.remove(0);
            match self.parse_ts_type_member_semicolon() {
                Ok(_) => {},
                Err(d) => {
                    return Err(d);
                },
            }
            let span = self.finish_span(start);
            Ok(
                Some(
                    TsTypeElement::TsSetterSignature(
                        TsSetterSignature { span, key, computed, param },
                    ),
                ),
            )
        }
    }

    /// One interface or type-literal member, dispatched in priority order:
    /// call signature, construct signature, index signature, speculative
    /// accessor, then property or method.
    pub fn parse_ts_type_member(&mut self, depth: u32) -> (r: Result<TsTypeElement, Diagnostic>)
        requires
            old(self).wf(),
        ensures
            parse_step(*old(self), *final (self)),
            r is Ok ==> old(self).pos < final (self).pos,
            r matches Ok(m) ==> wf_member(m),
            old(self).cur_is_punct(Punct::LParen) || old(self).cur_is_punct(Punct::Lt) ==> (r
                matches Ok(m) ==> m is TsCallSignatureDecl),
            old(self).cur_is_kw(Kw::New) && (old(self).spec_peek() matches Some(Token::Punct(
                p,
            )) && (p == Punct::LParen || p == Punct::Lt)) ==> (r matches Ok(m)
                ==> m is TsConstructSignatureDecl),
        decreases depth, 2int,
    {
        if depth == 0 {
            return Err(self.nesting_err());
        }
        if self.is_punct(Punct::LParen) || self.is_punct(Punct::Lt) {
            return self.parse_ts_signature_member(
                SignatureParsingMode::TSCallSignatureDeclaration,
                depth - 1,
            );
        }
        if self.is_kw(Kw::New) {
            let m = self.begin_speculation();
            let ctor = self.is_ts_start_of_construct_signature();
            self.rollback(m);
            if ctor {
                return self.parse_ts_signature_member(
                    SignatureParsingMode::TSConstructSignatureDeclaration,
                    depth - 1,
                );
            }
        }
        let start = self.cur_pos();
        let readonly = self.parse_ts_modifier_readonly();
        let idx = match self.try_parse_ts_index_signature(start, readonly, false, depth - 1) {
            Ok(i) => i,
            Err(d) => {
                return Err(d);
            },
        };
        match idx {
            Some(i) => {
                return Ok(TsTypeElement::TsIndexSignature(i));
            },
            None => {},
        }
        if self.is_kw(Kw::Get) || self.is_kw(Kw::SetKw) {
            let m = self.begin_speculation();
            let attempt = self.try_parse_ts_accessor_member(readonly, depth - 1);
            match attempt {
                Ok(Some(v)) => {
                    self.commit(m);
                    return Ok(v);
                },
                _ => {
                    self.rollback(m);
                },
            }
        }
        self.parse_ts_property_or_method_signature(start, readonly, depth - 1)
    }

    /// The consuming scan that recognizes a mapped type behind `{`.
    pub fn is_ts_start_of_mapped_type(&mut self) -> (r: bool)
        requires
            old(self).wf(),
            old(self).cur_is_punct(Punct::LBrace),
        ensures
            parse_step(*old(self), *final (self)),
            final (self).diags@ == old(self).diags@,
            (old(self).spec_peek() matches Some(Token::Punct(p)) && (p == Punct::Plus || p
                == Punct::Minus)) ==> r == (old(self).pos + 2 < old(self).tokens@.len() && (old(
                self,
            ).tokens@[old(self).pos + 2].token matches Token::Word(w) && w == Word::Kw(
                Kw::Readonly,
            ))),
    {
        self.bump();
        if self.eat_punct(Punct::Plus) || self.eat_punct(Punct::Minus) {
            return self.is_kw(Kw::Readonly);
        }
        if self.is_kw(Kw::Readonly) {
            self.bump();
        }
        if !self.is_punct(Punct::LBracket) {
            return false;
        }
        self.bump();
        if !self.is_ident_ref() {
            return false;
        }
        self.bump();
        self.is_kw(Kw::In)
    }

    /// The `K in T (as U)` binder of a mapped type.
    pub fn parse_ts_mapped_type_param(&mut self, depth: u32) -> (r: Result<
        TsTypeParam,
        Diagnostic,
    >)
        requires
            old(self).wf(),
        ensures
            parse_step(*old(self), *final (self)),
            r is Ok ==> old(self).pos < final (self).pos,
            r matches Ok(p) ==> wf_type_param(p),
            depth >= 13 && (old(self).spec_cur() matches Some(Token::Word(w0)) && w0 is Other)
                && (old(self).spec_peek() matches Some(Token::Word(wi)) && wi == Word::Kw(
                Kw::In,
            )) && ty_atom_at(old(self).tokens@, old(self).pos + 2) && stops_type(
                old(self).tokens@,
                old(self).pos + 2 + ty_atom_len(old(self).tokens@, old(self).pos + 2),
            ) ==> (r matches Ok(p) && p.name.sym@ == (old(self).tokens@[old(
                self,
            ).pos as int].token->Word_0)@ && (p.constraint matches Some(con) && ty_atom_node(
                old(self).tokens@,
                old(self).pos + 2,
                *con,
            )) && p.default is None && final (self).pos == old(self).pos + 2 + ty_atom_len(
                old(self).tokens@,
                old(self).pos + 2,
            )),
        decreases depth, 1int,
    {
        if depth == 0 {
            return Err(self.nesting_err());
        }
        let start = self.cur_pos();
        let name = match self.parse_ident_name() {
            Ok(i) => i,
            Err(d) => {
                return Err(d);
            },
        };
        let constraint = match self.expect_kw_then_parse_ts_type(Kw::In, depth - 1) {
            Ok(t) => Some(t),
            Err(d) => {
                return Err(d);
            },
        };
        let span = self.finish_span(start);
        Ok(
            TsTypeParam {
                span,
                name,
                is_in: false,
                is_out: false,
                is_const: false,
                constraint,
                default: None,
            },
        )
    }

    /// A mapped type with tri-state `readonly` and `?` modifiers.
    #[verifier::rlimit(60)]
    pub fn parse_ts_mapped_type(&mut self, depth: u32) -> (r: Result<TsMappedType, Diagnostic>)
        requires
            old(self).wf(),
        ensures
            parse_step(*old(self), *final (self)),
            r is Ok ==> old(self).pos < final (self).pos,
            r matches Ok(t) ==> wf_ty(TsType::TsMappedType(t)),
            old(self).spec_peek() matches Some(Token::Punct(pp)) && pp == Punct::Plus ==> (r
                matches Ok(t) ==> t.readonly == Some(crate::ast::TruePlusMinus::Plus)),
            old(self).spec_peek() matches Some(Token::Punct(pm)) && pm == Punct::Minus ==> (r
                matches Ok(t) ==> t.readonly == Some(crate::ast::TruePlusMinus::Minus)),
            old(self).spec_peek() matches Some(Token::Word(wr)) && wr == Word::Kw(Kw::Readonly)
                ==> (r matches Ok(t) ==> t.readonly == Some(crate::ast::TruePlusMinus::True)),
            old(self).cur_is_punct(Punct::LBrace) && !(old(self).spec_peek() matches Some(tn)
                && ((tn matches Token::Punct(pz) && (pz == Punct::Plus || pz == Punct::Minus))
                || (tn matches Token::Word(wz) && wz == Word::Kw(Kw::Readonly)))) ==> (r
                matches Ok(t) ==> t.readonly is None),
            depth >= 15 && old(self).cur_is_punct(Punct::LBrace) && (old(self).spec_peek()
                matches Some(Token::Punct(pa)) && (pa == Punct::Plus || pa == Punct::Minus))
                && (old(self).pos + 2 < old(self).tokens@.len() && (old(self).tokens@[old(
                self,
            ).pos + 2].token matches Token::Word(wa) && wa == Word::Kw(Kw::Readonly)))
                && mapped_tail_at(old(self).tokens@, old(self).pos + 3) ==> (r matches Ok(t)
                && mapped_tail_result(
                old(self).tokens@,
                old(self).pos + 3,
                t,
                final (self).pos as int,
            )),
            depth >= 15 && old(self).cur_is_punct(Punct::LBrace) && (old(self).spec_peek()
                matches Some(Token::Word(wb)) && wb == Word::Kw(Kw::Readonly)) && mapped_tail_at(
                old(self).tokens@,
                old(self).pos + 2,
            ) ==> (r matches Ok(t) && mapped_tail_result(
                old(self).tokens@,
                old(self).pos + 2,
                t,
                final (self).pos as int,
            )),
            depth >= 15 && old(self).cur_is_punct(Punct::LBrace) && (old(self).spec_peek()
                matches Some(Token::Punct(pb)) && pb == Punct::LBracket) && mapped_tail_at(
                old(self).tokens@,
                old(self).pos + 1,
            ) ==> (r matches Ok(t) && t.readonly is None && mapped_tail_result(
                old(self).tokens@,
                old(self).pos + 1,
                t,
                final (self).pos as int,
            )),
        decreases depth, 1int,
    {
        if depth == 0 {
            return Err(self.nesting_err());
        }
        let start = self.cur_pos();
        match self.expect_punct(Punct::LBrace) {
            Ok(_) => {},
            Err(d) => {
                return Err(d);
            },
        }
        let mut readonly: Option<crate::ast::TruePlusMinus> = None;
        if self.is_punct(Punct::Plus) || self.is_punct(Punct::Minus) {
            readonly = Some(
                if self.is_punct(Punct::Plus) {
                    crate::ast::TruePlusMinus::Plus
                } else {
                    crate::ast::TruePlusMinus::Minus
                },
            );
            self.bump();
            match self.expect_kw(Kw::Readonly) {
                Ok(_) => {},
                Err(d) => {
                    return Err(d);
                },
            }
        } else if self.eat_kw(Kw::Readonly) {
            readonly = Some(crate::ast::TruePlusMinus::True);
        }
        match self.expect_punct(Punct::LBracket) {
            Ok(_) => {},
            Err(d) => {
                return Err(d);
            },
        }
        let type_param = match self.parse_ts_mapped_type_param(depth - 1) {
            Ok(p) => p,
            Err(d) => {
                return Err(d);
            },
        };
        let name_type = if self.eat_kw(Kw::As) {
            match self.parse_ts_type(depth - 1) {
                Ok(t) => Some(t),
                Err(d) => {
                    return Err(d);
                },
            }
        } else {
            None
        };
        match self.expect_punct(Punct::RBracket) {
            Ok(_) => {},
            Err(d) => {
                return Err(d);
            },
        }
        let mut optional: Option<crate::ast::TruePlusMinus> = None;
        if self.is_punct(Punct::Plus) || self.is_punct(Punct::Minus) {
            optional = Some(
                if self.is_punct(Punct::Plus) {
                    crate::ast::TruePlusMinus::Plus
                } else {
                    crate::ast::TruePlusMinus::Minus
                },
            );
            self.bump();
            match self.expect_punct(Punct::Question) {
                Ok(_) => {},
                Err(d) => {
                    return Err(d);
                },
            }
        } else if self.eat_punct(Punct::Question) {
            optional = Some(crate::ast::TruePlusMinus::True);
        }
        let type_ann = match self.try_parse_ts_type(depth - 1) {
            Ok(t) => t,
            Err(d) => {
                return Err(d);
            },
        };
        match self.expect_semi() {
            Ok(_) => {},
            Err(d) => {
                return Err(d);
            },
        }
        match self.expect_punct(Punct::RBrace) {
            Ok(_) => {},
            Err(d) => {
                return Err(d);
            },
        }
        proof {
            reveal_with_fuel(crate::ast::wf_ty, 4);
        }
        let span = self.finish_span(start);
        Ok(TsMappedType { span, readonly, type_param, name_type, optional, type_ann })
    }
}

} // verus!
