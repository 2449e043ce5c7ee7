use crate::ast::{
    wf_ann, wf_ann_opt, wf_fn_param, wf_fn_params, wf_inst, wf_param_decl, wf_param_decl_opt,
    wf_ty, wf_type_param, BindingIdent, RestParam, TsConstructorType, TsFnOrConstructorType,
    TsFnParam, TsFnType, TsType, TsTypeAnn, TsTypeParam, TsTypeParamDecl,
    TsTypeParamInstantiation, TsTypePredicate, TsThisTypeOrIdent,
};
use crate::chain::MAX_TYPE_NESTING;
use crate::diag::{Diagnostic, SyntaxError};
use crate::props::{
    empty_type_args_at_last, nullary_fn_ty_at, stops_type, ty_atom_at, ty_atom_len, ty_atom_node,
};
use crate::lists::ParsingContext;
use crate::state::{parse_step, Parser};
use crate::token::{Kw, Punct, Token, Word};
use vstd::prelude::*;

verus! {

impl Parser {
    /// `( ... ) => T` or `new ( ... ) => T` or `abstract new ( ... ) => T`.
    pub fn parse_ts_fn_or_constructor_type(&mut self, is_fn_type: bool, depth: u32) -> (r: Result<
        TsFnOrConstructorType,
        Diagnostic,
    >)
        requires
            old(self).wf(),
        ensures
            parse_step(*old(self), *final (self)),
            r is Ok ==> old(self).pos < final (self).pos,
            r matches Ok(f) ==> wf_ty(TsType::TsFnOrConstructorType(f)),
            r matches Ok(f) ==> (is_fn_type <==> f is TsFnType),
            depth >= 14 && is_fn_type && nullary_fn_ty_at(old(self).tokens@, old(self).pos as int)
                ==> (r matches Ok(f) && (f matches TsFnOrConstructorType::TsFnType(g)
                && g.type_params is None && g.params.len() == 0 && ty_atom_node(
                old(self).tokens@,
                old(self).pos + 3,
                *g.type_ann.type_ann,
            )) && final (self).pos == old(self).pos + 3 + ty_atom_len(
                old(self).tokens@,
                old(self).pos + 3,
            )),
        decreases depth, 1int,
    {
        if depth == 0 {
            return Err(self.nesting_err());
        }
        let start = self.cur_pos();
        let is_abstract = if !is_fn_type {
            self.eat_kw(Kw::Abstract)
        } else {
            false
        };
        if !is_fn_type {
            match self.expect_kw(Kw::New) {
                Ok(_) => {},
                Err(d) => {
                    return Err(d);
                },
            }
        }
        let type_params = match self.try_parse_ts_type_params(false, true, depth - 1) {
            Ok(p) => p,
            Err(d) => {
                return Err(d);
            },
        };
        match self.expect_punct(Punct::LParen) {
            Ok(_) => {},
            Err(d) => {
                return Err(d);
            },
        }
        let params = match self.parse_ts_binding_list_for_signature(depth - 1) {
            Ok(p) => p,
            Err(d) => {
                return Err(d);
            },
        };
        let type_ann = match self.parse_ts_type_or_type_predicate_ann(Punct::Arrow, depth - 1) {
            Ok(a) => a,
            Err(d) => {
                return Err(d);
            },
        };
        let span = self.finish_span(start);
        if is_fn_type {
            Ok(
                TsFnOrConstructorType::TsFnType(
                    TsFnType { span, type_params, params, type_ann },
                ),
            )
        } else {
            Ok(
                TsFnOrConstructorType::TsConstructorType(
                    TsConstructorType { span, is_abstract, type_params, params, type_ann },
                ),
            )
        }
    }

    /// The parameter list of a signature; consumes the closing `)` but not
    /// the opening `(`.  Only plain names, `this` and rest parameters are
    /// parsed here; destructuring patterns belong to the host parser and
    /// are refused with a hard failure.
    pub fn parse_ts_binding_list_for_signature(&mut self, depth: u32) -> (r: Result<
        Vec<TsFnParam>,
        Diagnostic,
    >)
        requires
            old(self).wf(),
        ensures
            parse_step(*old(self), *final (self)),
            r is Ok ==> old(self).pos < final (self).pos,
            r matches Ok(ps) ==> wf_fn_params(ps@),
            depth >= 1 && old(self).cur_is_punct(Punct::RParen) ==> (r matches Ok(ps)
                && ps.len() == 0 && final (self).pos == old(self).pos + 1),
            !old(self).cur_is_punct(Punct::RParen) ==> (r matches Ok(ps) ==> ps.len() >= 1),
        decreases depth, 1int,
    {
        if depth == 0 {
            return Err(self.nesting_err());
        }
        let mut list: Vec<TsFnParam> = Vec::new();
        loop
            invariant
                self.wf(),
                parse_step(*old(self), *self),
                depth >= 1,
                wf_fn_params(list@),
                list.len() == 0 <==> self.pos == old(self).pos,
                old(self).cur_is_punct(Punct::RParen) ==> list.len() == 0,
            decreases self.tokens@.len() - self.pos,
        {
            if self.eat_punct(Punct::RParen) {
                return Ok(list);
            }
            let param = match self.parse_ts_fn_param(depth - 1) {
                Ok(p) => p,
                Err(d) => {
                    return Err(d);
                },
            };
            list.push(param);
            if self.eat_punct(Punct::Comma) {
                continue ;
            }
            match self.expect_punct(Punct::RParen) {
                Ok(_) => {},
                Err(d) => {
                    return Err(d);
                },
            }
            return Ok(list);
        }
    }

    /// One signature parameter.
    fn parse_ts_fn_param(&mut self, depth: u32) -> (r: Result<TsFnParam, Diagnostic>)
        requires
            old(self).wf(),
        ensures
            parse_step(*old(self), *final (self)),
            r is Ok ==> old(self).pos < final (self).pos,
            r matches Ok(p) ==> wf_fn_param(p),
        decreases depth, 1int,
    {
        if depth == 0 {
            return Err(self.nesting_err());
        }
        let start = self.cur_pos();
        let _ = self.eat_any_ts_modifier();
        if self.eat_punct(Punct::DotDotDot) {
            let arg = match self.parse_ts_binding_ident(depth - 1) {
                Ok(b) => b,
                Err(d) => {
                    return Err(d);
                },
            };
            let span = self.finish_span(start);
            return Ok(TsFnParam::Rest(RestParam { span, arg }));
        }
        if self.is_punct(Punct::LBrace) || self.is_punct(Punct::LBracket) {
            return Err(
                Diagnostic {
                    span: self.cur_span(),
                    error: SyntaxError::UnsupportedBindingPattern,
                },
            );
        }
        let b = match self.parse_ts_binding_ident(depth - 1) {
            Ok(b) => b,
            Err(d) => {
                return Err(d);
            },
        };
        Ok(TsFnParam::Ident(b))
    }

    /// A named binding with optional `?` and type annotation.
    fn parse_ts_binding_ident(&mut self, depth: u32) -> (r: Result<BindingIdent, Diagnostic>)
        requires
            old(self).wf(),
        ensures
            parse_step(*old(self), *final (self)),
            r is Ok ==> old(self).pos < final (self).pos,
            r matches Ok(b) ==> wf_ann_opt(b.type_ann),
        decreases depth, 0int,
    {
        if depth == 0 {
            return Err(self.nesting_err());
        }
        let start = self.cur_pos();
        let id = match self.parse_ident_name() {
            Ok(i) => i,
            Err(d) => {
                return Err(d);
            },
        };
        let optional = self.eat_punct(Punct::Question);
        let type_ann = match self.try_parse_ts_type_ann(depth - 1) {
            Ok(a) => a,
            Err(d) => {
                return Err(d);
            },
        };
        let span = self.finish_span(start);
        Ok(BindingIdent { span, id, optional, type_ann })
    }

    /// One type-parameter declaration with variance modifiers, constraint
    /// and default.
    pub fn parse_ts_type_param(
        &mut self,
        permit_in_out: bool,
        permit_const: bool,
        depth: u32,
    ) -> (r: Result<TsTypeParam, Diagnostic>)
        requires
            old(self).wf(),
        ensures
            parse_step(*old(self), *final (self)),
            r is Ok ==> old(self).pos < final (self).pos,
            r matches Ok(p) ==> wf_type_param(p),
            depth >= 2 && (old(self).spec_cur() matches Some(Token::Word(w0)) && w0 is Other)
                && (old(self).spec_peek() matches Some(Token::Punct(ps)) && (ps == Punct::Comma
                || ps == Punct::Gt)) ==> (old(self).spec_cur() matches Some(Token::Word(w1)) && r
                matches Ok(p) && p.name.sym@ == w1@ && !p.is_in && !p.is_out && !p.is_const
                && p.constraint is None && p.default is None && final (self).pos == old(self).pos
                + 1),
        decreases depth, 1int,
    {
        if depth == 0 {
            return Err(self.nesting_err());
        }
        let start = self.cur_pos();
        let mut is_in = false;
        let mut is_out = false;
        let mut is_const = false;
        loop
            invariant
                self.wf(),
                parse_step(*old(self), *self),
                (old(self).spec_cur() matches Some(Token::Word(wv)) && wv is Other) ==> (self.pos
                    == old(self).pos && is_in == false && is_out == false && is_const == false),
            decreases self.tokens@.len() - self.pos,
        {
            let modifier = self.parse_ts_type_param_modifier();
            match modifier {
                None => {
                    break ;
                },
                Some(Kw::Const) => {
                    is_const = true;
                    if !permit_const {
                        let sp = self.prev_span();
                        self.emit_err(sp, SyntaxError::ConstModifierNotPermitted);
                    }
                },
                Some(Kw::In) => {
                    let sp = self.prev_span();
                    if !permit_in_out {
                        self.emit_err(sp, SyntaxError::ModifierNotPermitted(Kw::In));
                    } else if is_in {
                        self.emit_err(sp, SyntaxError::DuplicateModifier(Kw::In));
                    } else if is_out {
                        self.emit_err(sp, SyntaxError::InMustPrecedeOut);
                    }
                    is_in = true;
                },
                Some(Kw::Out) => {
                    let sp = self.prev_span();
                    if !permit_in_out {
                        self.emit_err(sp, SyntaxError::ModifierNotPermitted(Kw::Out));
                    } else if is_out {
                        self.emit_err(sp, SyntaxError::DuplicateModifier(Kw::Out));
                    }
                    is_out = true;
                },
                Some(other) => {
                    let sp = self.prev_span();
                    self.emit_err(sp, SyntaxError::InvalidTypeParamModifier(other));
                },
            }
        }
        let saved = self.flags;
        self.flags.in_type = true;
        let name_res = self.parse_ident_name();
        self.flags = saved;
        let name = match name_res {
            Ok(i) => i,
            Err(d) => {
                return Err(d);
            },
        };
        let constraint = match self.eat_kw_then_parse_ts_type(Kw::Extends, depth - 1) {
            Ok(c) => c,
            Err(d) => {
                return Err(d);
            },
        };
        let default = match self.eat_punct_then_parse_ts_type(Punct::Assign, depth - 1) {
            Ok(c) => c,
            Err(d) => {
                return Err(d);
            },
        };
        let span = self.finish_span(start);
        Ok(TsTypeParam { span, name, is_in, is_out, is_const, constraint, default })
    }

    /// `< T, U extends V = W, ... >`.
    pub fn parse_ts_type_params(
        &mut self,
        permit_in_out: bool,
        permit_const: bool,
        depth: u32,
    ) -> (r: Result<TsTypeParamDecl, Diagnostic>)
        requires
            old(self).wf(),
        ensures
            parse_step(*old(self), *final (self)),
            r is Ok ==> old(self).pos < final (self).pos,
            r matches Ok(d) ==> wf_param_decl(d),
        decreases depth, 2int,
    {
        if depth == 0 {
            return Err(self.nesting_err());
        }
        let saved = self.flags;
        self.flags.in_type = true;
        let r = self.parse_ts_type_params_body(permit_in_out, permit_const, depth);
        self.flags = saved;
        r
    }

    fn parse_ts_type_params_body(
        &mut self,
        permit_in_out: bool,
        permit_const: bool,
        depth: u32,
    ) -> (r: Result<TsTypeParamDecl, Diagnostic>)
        requires
            old(self).wf(),
            depth >= 1,
        ensures
            parse_step(*old(self), *final (self)),
            r is Ok ==> old(self).pos < final (self).pos,
            r matches Ok(d) ==> wf_param_decl(d),
        decreases depth, 1int,
    {
        let start = self.cur_pos();
        match self.expect_punct(Punct::Lt) {
            Ok(_) => {},
            Err(d) => {
                return Err(d);
            },
        }
        let mut params: Vec<TsTypeParam> = Vec::new();
        loop
            invariant
                self.wf(),
                parse_step(*old(self), *self),
                depth >= 1,
                old(self).pos < self.pos,
                forall|i: int| 0 <= i < params.len() ==> wf_type_param(#[trigger] params@[i]),
            decreases self.tokens@.len() - self.pos,
        {
            if self.is_ts_list_terminator(ParsingContext::TypeParametersOrArguments) {
                break ;
            }
            let p = match self.parse_ts_type_param(permit_in_out, permit_const, depth - 1) {
                Ok(p) => p,
                Err(d) => {
                    return Err(d);
                },
            };
            params.push(p);
            if self.eat_punct(Punct::Comma) {
                continue ;
            }
            if self.is_ts_list_terminator(ParsingContext::TypeParametersOrArguments) {
                break ;
            }
            match self.expect_punct(Punct::Comma) {
                Ok(_) => {},
                Err(d) => {
                    return Err(d);
                },
            }
        }
        match self.expect_punct(Punct::Gt) {
            Ok(_) => {},
            Err(d) => {
                return Err(d);
            },
        }
        let span = self.finish_span(start);
        Ok(TsTypeParamDecl { span, params })
    }

    /// A type-parameter list if one opens here.
    pub fn try_parse_ts_type_params(
        &mut self,
        permit_in_out: bool,
        permit_const: bool,
        depth: u32,
    ) -> (r: Result<Option<TsTypeParamDecl>, Diagnostic>)
        requires
            old(self).wf(),
        ensures
            parse_step(*old(self), *final (self)),
            r matches Ok(Some(_)) ==> old(self).pos < final (self).pos,
            r matches Ok(d) ==> wf_param_decl_opt(d),
            depth >= 1 && !old(self).cur_is_punct(Punct::Lt) ==> (r matches Ok(None) && final (self).pos
                == old(self).pos),
        decreases depth, 3int,
    {
        if depth == 0 {
            return Err(self.nesting_err());
        }
        if self.is_punct(Punct::Lt) {
            match self.parse_ts_type_params(permit_in_out, permit_const, depth - 1) {
                Ok(d) => Ok(Some(d)),
                Err(d) => Err(d),
            }
        } else {
            Ok(None)
        }
    }

    /// A generic type-argument list `< T, ... >`.
    pub fn parse_ts_type_args(&mut self) -> (r: Result<
        Box<TsTypeParamInstantiation>,
        Diagnostic,
    >)
        requires
            old(self).wf(),
        ensures
            parse_step(*old(self), *final (self)),
            r is Ok ==> old(self).pos < final (self).pos,
            r matches Ok(i) ==> wf_inst(*i),
            empty_type_args_at_last(old(self).tokens@, old(self).pos as int) ==> (r matches Ok(i)
                && i.params.len() == 0 && final (self).pos == old(self).pos + 2),
    {
        match self.parse_ts_type_args_with(MAX_TYPE_NESTING) {
            Ok(i) => Ok(Box::new(i)),
            Err(d) => Err(d),
        }
    }

    pub fn parse_ts_type_args_with(&mut self, depth: u32) -> (r: Result<
        TsTypeParamInstantiation,
        Diagnostic,
    >)
        requires
            old(self).wf(),
        ensures
            parse_step(*old(self), *final (self)),
            r is Ok ==> old(self).pos < final (self).pos,
            r matches Ok(i) ==> wf_inst(i),
            depth >= 1 && empty_type_args_at_last(old(self).tokens@, old(self).pos as int) ==> (
            r matches Ok(i) && i.params.len() == 0 && final (self).pos == old(self).pos + 2),
        decreases depth, 2int,
    {
        if depth == 0 {
            return Err(self.nesting_err());
        }
        let start = self.cur_pos();
        let saved = self.flags;
        self.flags.in_type = true;
        let r = self.parse_ts_type_args_body(depth);
        self.flags = saved;
        let params = match r {
            Ok(p) => p,
            Err(d) => {
                return Err(d);
            },
        };
        // The token after `>` is read in the enclosing context.
        match self.expect_punct(Punct::Gt) {
            Ok(_) => {},
            Err(d) => {
                return Err(d);
            },
        }
        let span = self.finish_span(start);
        Ok(TsTypeParamInstantiation { span, params })
    }

    fn parse_ts_type_args_body(&mut self, depth: u32) -> (r: Result<
        Vec<Box<TsType>>,
        Diagnostic,
    >)
        requires
            old(self).wf(),
            depth >= 1,
        ensures
            parse_step(*old(self), *final (self)),
            r is Ok ==> old(self).pos < final (self).pos,
            r matches Ok(v) ==> forall|i: int| 0 <= i < v.len() ==> wf_ty(*(#[trigger] v@[i])),
            empty_type_args_at_last(old(self).tokens@, old(self).pos as int) ==> (r matches Ok(v)
                && v.len() == 0 && final (self).pos == old(self).pos + 1),
        decreases depth, 1int,
    {
        let start = self.cur_pos();
        match self.expect_punct(Punct::Lt) {
            Ok(_) => {},
            Err(d) => {
                return Err(d);
            },
        }
        let mut params: Vec<Box<TsType>> = Vec::new();
        loop
            invariant
                self.wf(),
                parse_step(*old(self), *self),
                depth >= 1,
                old(self).pos < self.pos,
                forall|i: int| 0 <= i < params.len() ==> wf_ty(*(#[trigger] params@[i])),
                empty_type_args_at_last(old(self).tokens@, old(self).pos as int) ==> (params.len()
                    == 0 && self.pos == old(self).pos + 1),
            decreases self.tokens@.len() - self.pos,
        {
            if self.is_ts_list_terminator(ParsingContext::TypeParametersOrArguments) {
                break ;
            }
            let t = match self.parse_ts_type(depth - 1) {
                Ok(t) => t,
                Err(d) => {
                    return Err(d);
                },
            };
            params.push(t);
            if self.eat_punct(Punct::Comma) {
                continue ;
            }
            if self.is_ts_list_terminator(ParsingContext::TypeParametersOrArguments) {
                break ;
            }
            match self.expect_punct(Punct::Comma) {
                Ok(_) => {},
                Err(d) => {
                    return Err(d);
                },
            }
        }
        Ok(params)
    }

    /// Whether the current token can start an expression; consulted when an
    /// instantiation expression must be told apart from a comparison.
    pub fn is_start_of_expr(&self) -> (r: bool)
        requires
            self.wf(),
    {
        if self.pos >= self.tokens.len() {
            return false;
        }
        if self.is_word() || self.is_str_lit() || self.is_num_lit() || self.is_bigint_lit() {
            return true;
        }
        self.is_punct(Punct::LParen) || self.is_punct(Punct::LBracket) || self.is_punct(
            Punct::LBrace,
        ) || self.is_punct(Punct::Plus) || self.is_punct(Punct::Minus) || self.is_punct(
            Punct::BackQuote,
        ) || self.is_punct(Punct::Lt) || self.is_punct(Punct::Hash)
    }

    /// Speculatively parse a type-argument list where one would make the
    /// enclosing expression a generic instantiation; reject it where the
    /// following token says it must have been a comparison instead.
    pub fn try_parse_ts_type_args(&mut self, depth: u32) -> (r: Option<
        Box<TsTypeParamInstantiation>,
    >)
        requires
            old(self).wf(),
        ensures
            final (self).wf(),
            final (self).tokens@ == old(self).tokens@,
            final (self).flags == old(self).flags,
            final (self).diags@ == old(self).diags@,
            old(self).pos <= final (self).pos,
            r is None ==> final (self).pos == old(self).pos,
            r matches Some(i) ==> wf_inst(*i),
        decreases depth,
    {
        let m = self.begin_speculation();
        match self.parse_ts_type_args_with(depth) {
            Err(_) => {
                self.rollback(m);
                None
            },
            Ok(args) => {
                if self.is_punct(Punct::Lt) || self.is_punct(Punct::Gt) || self.is_punct(
                    Punct::Assign,
                ) || self.is_punct(Punct::Plus) || self.is_punct(Punct::Minus) || self.is_punct(
                    Punct::LParen,
                ) || self.is_punct(Punct::BackQuote) {
                    // Invalid syntax, a relational expression, or type
                    // arguments of a call or template: not an instantiation.
                    self.rollback(m);
                    None
                } else if self.had_line_break_before_cur() || self.is_punct(Punct::Star)
                    || self.is_punct(Punct::Amp) || self.is_punct(Punct::Pipe)
                    || !self.is_start_of_expr() {
                    self.commit(m);
                    Some(Box::new(args))
                } else {
                    self.rollback(m);
                    None
                }
            },
        }
    }

    /// `: T` (or another introducing token), producing an annotation node.
    pub fn parse_ts_type_ann(&mut self, eat_colon: bool, start: u32, depth: u32) -> (r: Result<
        TsTypeAnn,
        Diagnostic,
    >)
        requires
            old(self).wf(),
        ensures
            parse_step(*old(self), *final (self)),
            r matches Ok(a) ==> wf_ann(a),
            depth >= 12 && !eat_colon && ty_atom_at(old(self).tokens@, old(self).pos as int)
                && stops_type(
                old(self).tokens@,
                old(self).pos + ty_atom_len(old(self).tokens@, old(self).pos as int),
            ) ==> (r matches Ok(a) && ty_atom_node(
                old(self).tokens@,
                old(self).pos as int,
                *a.type_ann,
            ) && final (self).pos == old(self).pos + ty_atom_len(
                old(self).tokens@,
                old(self).pos as int,
            )),
            depth >= 12 && eat_colon && old(self).cur_is_punct(Punct::Colon) && ty_atom_at(
                old(self).tokens@,
                old(self).pos + 1,
            ) && stops_type(
                old(self).tokens@,
                old(self).pos + 1 + ty_atom_len(old(self).tokens@, old(self).pos + 1),
            ) ==> (r matches Ok(a) && ty_atom_node(
                old(self).tokens@,
                old(self).pos + 1,
                *a.type_ann,
            ) && final (self).pos == old(self).pos + 1 + ty_atom_len(
                old(self).tokens@,
                old(self).pos + 1,
            )),
        decreases depth, 2int,
    {
        if depth == 0 {
            return Err(self.nesting_err());
        }
        let saved = self.flags;
        self.flags.in_type = true;
        let r = self.parse_ts_type_ann_body(eat_colon, start, depth);
        self.flags = saved;
        r
    }

    fn parse_ts_type_ann_body(&mut self, eat_colon: bool, start: u32, depth: u32) -> (r: Result<
        TsTypeAnn,
        Diagnostic,
    >)
        requires
            old(self).wf(),
            depth >= 1,
        ensures
            parse_step(*old(self), *final (self)),
            r matches Ok(a) ==> wf_ann(a),
            depth >= 12 && !eat_colon && ty_atom_at(old(self).tokens@, old(self).pos as int)
                && stops_type(
                old(self).tokens@,
                old(self).pos + ty_atom_len(old(self).tokens@, old(self).pos as int),
            ) ==> (r matches Ok(a) && ty_atom_node(
                old(self).tokens@,
                old(self).pos as int,
                *a.type_ann,
            ) && final (self).pos == old(self).pos + ty_atom_len(
                old(self).tokens@,
                old(self).pos as int,
            )),
            depth >= 12 && eat_colon && old(self).cur_is_punct(Punct::Colon) && ty_atom_at(
                old(self).tokens@,
                old(self).pos + 1,
            ) && stops_type(
                old(self).tokens@,
                old(self).pos + 1 + ty_atom_len(old(self).tokens@, old(self).pos + 1),
            ) ==> (r matches Ok(a) && ty_atom_node(
                old(self).tokens@,
                old(self).pos + 1,
                *a.type_ann,
            ) && final (self).pos == old(self).pos + 1 + ty_atom_len(
                old(self).tokens@,
                old(self).pos + 1,
            )),
        decreases depth, 1int,
    {
        if eat_colon {
            match self.expect_punct(Punct::Colon) {
                Ok(_) => {},
                Err(d) => {
                    return Err(d);
                },
            }
        }
        let type_ann = match self.parse_ts_type(depth - 1) {
            Ok(t) => t,
            Err(d) => {
                return Err(d);
            },
        };
        let span = self.finish_span(start);
        Ok(TsTypeAnn { span, type_ann })
    }

    /// A `:`-introduced annotation if one stands here.
    pub fn try_parse_ts_type_ann(&mut self, depth: u32) -> (r: Result<
        Option<TsTypeAnn>,
        Diagnostic,
    >)
        requires
            old(self).wf(),
        ensures
            parse_step(*old(self), *final (self)),
            r matches Ok(a) ==> wf_ann_opt(a),
            depth >= 1 && !old(self).cur_is_punct(Punct::Colon) ==> (r matches Ok(None) && final (self).pos
                == old(self).pos),
            depth >= 13 && old(self).cur_is_punct(Punct::Colon) && ty_atom_at(
                old(self).tokens@,
                old(self).pos + 1,
            ) && stops_type(
                old(self).tokens@,
                old(self).pos + 1 + ty_atom_len(old(self).tokens@, old(self).pos + 1),
            ) ==> (r matches Ok(Some(a)) && ty_atom_node(
                old(self).tokens@,
                old(self).pos + 1,
                *a.type_ann,
            ) && final (self).pos == old(self).pos + 1 + ty_atom_len(
                old(self).tokens@,
                old(self).pos + 1,
            )),
        decreases depth, 3int,
    {
        if depth == 0 {
            return Err(self.nesting_err());
        }
        if self.is_punct(Punct::Colon) {
            let pos = self.cur_pos();
            match self.parse_ts_type_ann(true, pos, depth - 1) {
                Ok(a) => Ok(Some(a)),
                Err(d) => Err(d),
            }
        } else {
            Ok(None)
        }
    }

    /// Consume the keyword and parse a type, or return nothing.
    pub fn eat_kw_then_parse_ts_type(&mut self, k: Kw, depth: u32) -> (r: Result<
        Option<Box<TsType>>,
        Diagnostic,
    >)
        requires
            old(self).wf(),
        ensures
            parse_step(*old(self), *final (self)),
            r matches Ok(t) ==> crate::ast::wf_ty_opt(t),
            depth >= 1 && !old(self).cur_is_kw(k) ==> (r matches Ok(None) && final (self).pos
                == old(self).pos),
            depth >= 12 && old(self).cur_is_kw(k) && ty_atom_at(
                old(self).tokens@,
                old(self).pos + 1,
            ) && stops_type(
                old(self).tokens@,
                old(self).pos + 1 + ty_atom_len(old(self).tokens@, old(self).pos + 1),
            ) ==> (r matches Ok(Some(t)) && ty_atom_node(
                old(self).tokens@,
                old(self).pos + 1,
                *t,
            ) && final (self).pos == old(self).pos + 1 + ty_atom_len(
                old(self).tokens@,
                old(self).pos + 1,
            )),
        decreases depth, 2int,
    {
        if depth == 0 {
            return Err(self.nesting_err());
        }
        let saved = self.flags;
        self.flags.in_type = true;
        let r = self.eat_kw_then_parse_ts_type_body(k, depth);
        self.flags = saved;
        r
    }

    fn eat_kw_then_parse_ts_type_body(&mut self, k: Kw, depth: u32) -> (r: Result<
        Option<Box<TsType>>,
        Diagnostic,
    >)
        requires
            old(self).wf(),
            depth >= 1,
        ensures
            parse_step(*old(self), *final (self)),
            r matches Ok(t) ==> crate::ast::wf_ty_opt(t),
            depth >= 1 && !old(self).cur_is_kw(k) ==> (r matches Ok(None) && final (self).pos
                == old(self).pos),
            depth >= 12 && old(self).cur_is_kw(k) && ty_atom_at(
                old(self).tokens@,
                old(self).pos + 1,
            ) && stops_type(
                old(self).tokens@,
                old(self).pos + 1 + ty_atom_len(old(self).tokens@, old(self).pos + 1),
            ) ==> (r matches Ok(Some(t)) && ty_atom_node(
                old(self).tokens@,
                old(self).pos + 1,
                *t,
            ) && final (self).pos == old(self).pos + 1 + ty_atom_len(
                old(self).tokens@,
                old(self).pos + 1,
            )),
        decreases depth, 1int,
    {
        if !self.eat_kw(k) {
            return Ok(None);
        }
        match self.parse_ts_type(depth - 1) {
            Ok(t) => Ok(Some(t)),
            Err(d) => Err(d),
        }
    }

    /// Consume the punctuation token and parse a type, or return nothing.
    pub fn eat_punct_then_parse_ts_type(&mut self, p: Punct, depth: u32) -> (r: Result<
        Option<Box<TsType>>,
        Diagnostic,
    >)
        requires
            old(self).wf(),
        ensures
            parse_step(*old(self), *final (self)),
            r matches Ok(t) ==> crate::ast::wf_ty_opt(t),
            depth >= 1 && !old(self).cur_is_punct(p) ==> (r matches Ok(None) && final (self).pos == old(self).pos),
            depth >= 12 && old(self).cur_is_punct(p) && ty_atom_at(
                old(self).tokens@,
                old(self).pos + 1,
            ) && stops_type(
                old(self).tokens@,
                old(self).pos + 1 + ty_atom_len(old(self).tokens@, old(self).pos + 1),
            ) ==> (r matches Ok(Some(t)) && ty_atom_node(
                old(self).tokens@,
                old(self).pos + 1,
                *t,
            ) && final (self).pos == old(self).pos + 1 + ty_atom_len(
                old(self).tokens@,
                old(self).pos + 1,
            )),
        decreases depth, 2int,
    {
        if depth == 0 {
            return Err(self.nesting_err());
        }
        let saved = self.flags;
        self.flags.in_type = true;
        let r = self.eat_punct_then_parse_ts_type_body(p, depth);
        self.flags = saved;
        r
    }

    fn eat_punct_then_parse_ts_type_body(&mut self, p: Punct, depth: u32) -> (r: Result<
        Option<Box<TsType>>,
        Diagnostic,
    >)
        requires
            old(self).wf(),
            depth >= 1,
        ensures
            parse_step(*old(self), *final (self)),
            r matches Ok(t) ==> crate::ast::wf_ty_opt(t),
            depth >= 1 && !old(self).cur_is_punct(p) ==> (r matches Ok(None) && final (self).pos == old(self).pos),
            depth >= 12 && old(self).cur_is_punct(p) && ty_atom_at(
                old(self).tokens@,
                old(self).pos + 1,
            ) && stops_type(
                old(self).tokens@,
                old(self).pos + 1 + ty_atom_len(old(self).tokens@, old(self).pos + 1),
            ) ==> (r matches Ok(Some(t)) && ty_atom_node(
                old(self).tokens@,
                old(self).pos + 1,
                *t,
            ) && final (self).pos == old(self).pos + 1 + ty_atom_len(
                old(self).tokens@,
                old(self).pos + 1,
            )),
        decreases depth, 1int,
    {
        if !self.eat_punct(p) {
            return Ok(None);
        }
        match self.parse_ts_type(depth - 1) {
            Ok(t) => Ok(Some(t)),
            Err(d) => Err(d),
        }
    }

    /// Require the keyword, then parse a type.
    pub fn expect_kw_then_parse_ts_type(&mut self, k: Kw, depth: u32) -> (r: Result<
        Box<TsType>,
        Diagnostic,
    >)
        requires
            old(self).wf(),
        ensures
            parse_step(*old(self), *final (self)),
            r is Ok ==> old(self).pos < final (self).pos,
            r matches Ok(t) ==> wf_ty(*t),
            !old(self).cur_is_kw(k) ==> (r is Err && final (self).pos == old(self).pos),
            depth >= 12 && old(self).cur_is_kw(k) && ty_atom_at(
                old(self).tokens@,
                old(self).pos + 1,
            ) && stops_type(
                old(self).tokens@,
                old(self).pos + 1 + ty_atom_len(old(self).tokens@, old(self).pos + 1),
            ) ==> (r matches Ok(t) && ty_atom_node(
                old(self).tokens@,
                old(self).pos + 1,
                *t,
            ) && final (self).pos == old(self).pos + 1 + ty_atom_len(
                old(self).tokens@,
                old(self).pos + 1,
            )),
        decreases depth, 2int,
    {
        if depth == 0 {
            return Err(self.nesting_err());
        }
        let saved = self.flags;
        self.flags.in_type = true;
        let r = self.expect_kw_then_parse_ts_type_body(k, depth);
        self.flags = saved;
        r
    }

    fn expect_kw_then_parse_ts_type_body(&mut self, k: Kw, depth: u32) -> (r: Result<
        Box<TsType>,
        Diagnostic,
    >)
        requires
            old(self).wf(),
            depth >= 1,
        ensures
            parse_step(*old(self), *final (self)),
            r is Ok ==> old(self).pos < final (self).pos,
            r matches Ok(t) ==> wf_ty(*t),
            !old(self).cur_is_kw(k) ==> (r is Err && final (self).pos == old(self).pos),
            depth >= 12 && old(self).cur_is_kw(k) && ty_atom_at(
                old(self).tokens@,
                old(self).pos + 1,
            ) && stops_type(
                old(self).tokens@,
                old(self).pos + 1 + ty_atom_len(old(self).tokens@, old(self).pos + 1),
            ) ==> (r matches Ok(t) && ty_atom_node(
                old(self).tokens@,
                old(self).pos + 1,
                *t,
            ) && final (self).pos == old(self).pos + 1 + ty_atom_len(
                old(self).tokens@,
                old(self).pos + 1,
            )),
        decreases depth, 1int,
    {
        match self.expect_kw(k) {
            Ok(_) => {},
            Err(d) => {
                return Err(d);
            },
        }
        self.parse_ts_type(depth - 1)
    }

    /// Require the punctuation token, then parse a type.
    pub fn expect_punct_then_parse_ts_type(&mut self, p: Punct, depth: u32) -> (r: Result<
        Box<TsType>,
        Diagnostic,
    >)
        requires
            old(self).wf(),
        ensures
            parse_step(*old(self), *final (self)),
            r is Ok ==> old(self).pos < final (self).pos,
            r matches Ok(t) ==> wf_ty(*t),
            !old(self).cur_is_punct(p) ==> (r is Err && final (self).pos == old(self).pos),
            depth >= 12 && old(self).cur_is_punct(p) && ty_atom_at(
                old(self).tokens@,
                old(self).pos + 1,
            ) && stops_type(
                old(self).tokens@,
                old(self).pos + 1 + ty_atom_len(old(self).tokens@, old(self).pos + 1),
            ) ==> (r matches Ok(t) && ty_atom_node(
                old(self).tokens@,
                old(self).pos + 1,
                *t,
            ) && final (self).pos == old(self).pos + 1 + ty_atom_len(
                old(self).tokens@,
                old(self).pos + 1,
            )),
        decreases depth, 2int,
    {
        if depth == 0 {
            return Err(self.nesting_err());
        }
        let saved = self.flags;
        self.flags.in_type = true;
        let r = self.expect_punct_then_parse_ts_type_body(p, depth);
        self.flags = saved;
        r
    }

    fn expect_punct_then_parse_ts_type_body(&mut self, p: Punct, depth: u32) -> (r: Result<
        Box<TsType>,
        Diagnostic,
    >)
        requires
            old(self).wf(),
            depth >= 1,
        ensures
            parse_step(*old(self), *final (self)),
            r is Ok ==> old(self).pos < final (self).pos,
            r matches Ok(t) ==> wf_ty(*t),
            !old(self).cur_is_punct(p) ==> (r is Err && final (self).pos == old(self).pos),
            depth >= 12 && old(self).cur_is_punct(p) && ty_atom_at(
                old(self).tokens@,
                old(self).pos + 1,
            ) && stops_type(
                old(self).tokens@,
                old(self).pos + 1 + ty_atom_len(old(self).tokens@, old(self).pos + 1),
            ) ==> (r matches Ok(t) && ty_atom_node(
                old(self).tokens@,
                old(self).pos + 1,
                *t,
            ) && final (self).pos == old(self).pos + 1 + ty_atom_len(
                old(self).tokens@,
                old(self).pos + 1,
            )),
        decreases depth, 1int,
    {
        match self.expect_punct(p) {
            Ok(_) => {},
            Err(d) => {
                return Err(d);
            },
        }
        self.parse_ts_type(depth - 1)
    }

    /// Step over the current token, then parse a type.
    pub fn next_then_parse_ts_type(&mut self, depth: u32) -> (r: Result<Box<TsType>, Diagnostic>)
        requires
            old(self).wf(),
        ensures
            parse_step(*old(self), *final (self)),
            r is Ok ==> old(self).pos < final (self).pos,
            r matches Ok(t) ==> wf_ty(*t),
        decreases depth, 2int,
    {
        if depth == 0 {
            return Err(self.nesting_err());
        }
        let saved = self.flags;
        self.flags.in_type = true;
        let r = self.next_then_parse_ts_type_body(depth);
        self.flags = saved;
        r
    }

    fn next_then_parse_ts_type_body(&mut self, depth: u32) -> (r: Result<Box<TsType>, Diagnostic>)
        requires
            old(self).wf(),
            depth >= 1,
        ensures
            parse_step(*old(self), *final (self)),
            r is Ok ==> old(self).pos < final (self).pos,
            r matches Ok(t) ==> wf_ty(*t),
        decreases depth, 1int,
    {
        if self.at_eof() {
            return Err(Diagnostic { span: self.cur_span(), error: SyntaxError::Eof });
        }
        self.bump();
        self.parse_ts_type(depth - 1)
    }

    /// A return-position annotation that may be a type predicate
    /// (`asserts x`, `x is T`) instead of a plain type.
    pub fn parse_ts_type_or_type_predicate_ann(&mut self, return_token: Punct, depth: u32) -> (r:
        Result<TsTypeAnn, Diagnostic>)
        requires
            old(self).wf(),
        ensures
            parse_step(*old(self), *final (self)),
            r is Ok ==> old(self).pos < final (self).pos,
            r matches Ok(a) ==> wf_ann(a),
            depth >= 13 && old(self).cur_is_punct(return_token) && ty_atom_at(
                old(self).tokens@,
                old(self).pos + 1,
            ) && stops_type(
                old(self).tokens@,
                old(self).pos + 1 + ty_atom_len(old(self).tokens@, old(self).pos + 1),
            ) && !(old(self).pos + 2 < old(self).tokens@.len() && (old(self).tokens@[old(
                self,
            ).pos + 2].token matches Token::Word(w) && w matches Word::Kw(kk) && kk == Kw::Is))
                ==> (r matches Ok(a) && ty_atom_node(
                old(self).tokens@,
                old(self).pos + 1,
                *a.type_ann,
            ) && final (self).pos == old(self).pos + 1 + ty_atom_len(
                old(self).tokens@,
                old(self).pos + 1,
            )),
        decreases depth, 2int,
    {
        if depth == 0 {
            return Err(self.nesting_err());
        }
        let saved = self.flags;
        self.flags.in_type = true;
        let r = self.parse_ts_type_or_type_predicate_ann_body(return_token, depth);
        self.flags = saved;
        r
    }

    fn parse_ts_type_or_type_predicate_ann_body(
        &mut self,
        return_token: Punct,
        depth: u32,
    ) -> (r: Result<TsTypeAnn, Diagnostic>)
        requires
            old(self).wf(),
            depth >= 1,
        ensures
            parse_step(*old(self), *final (self)),
            r is Ok ==> old(self).pos < final (self).pos,
            r matches Ok(a) ==> wf_ann(a),
            depth >= 13 && old(self).cur_is_punct(return_token) && ty_atom_at(
                old(self).tokens@,
                old(self).pos + 1,
            ) && stops_type(
                old(self).tokens@,
                old(self).pos + 1 + ty_atom_len(old(self).tokens@, old(self).pos + 1),
            ) && !(old(self).pos + 2 < old(self).tokens@.len() && (old(self).tokens@[old(
                self,
            ).pos + 2].token matches Token::Word(w) && w matches Word::Kw(kk) && kk == Kw::Is))
                ==> (r matches Ok(a) && ty_atom_node(
                old(self).tokens@,
                old(self).pos + 1,
                *a.type_ann,
            ) && final (self).pos == old(self).pos + 1 + ty_atom_len(
                old(self).tokens@,
                old(self).pos + 1,
            )),
        decreases depth, 1int,
    {
        let return_token_start = self.cur_pos();
        match self.expect_punct(return_token) {
            Ok(_) => {},
            Err(d) => {
                return Err(d);
            },
        }
        let type_pred_start = self.cur_pos();
        let has_type_pred_asserts = self.is_kw(Kw::Asserts) && self.peek_is_ident_ref();
        if has_type_pred_asserts {
            self.bump();
        }
        let has_type_pred_is = self.is_ident_ref() && self.peek_is_kw(Kw::Is)
            && !self.peek_had_line_break();
        let is_type_predicate = has_type_pred_asserts || has_type_pred_is;
        if !is_type_predicate {
            return self.parse_ts_type_ann(false, return_token_start, depth - 1);
        }
        let type_pred_var = match self.parse_ident_name() {
            Ok(i) => i,
            Err(d) => {
                return Err(d);
            },
        };
        let type_ann = if has_type_pred_is {
            match self.expect_kw(Kw::Is) {
                Ok(_) => {},
                Err(d) => {
                    return Err(d);
                },
            }
            let pos = self.cur_pos();
            match self.parse_ts_type_ann(false, pos, depth - 1) {
                Ok(a) => Some(a),
                Err(d) => {
                    return Err(d);
                },
            }
        } else {
            None
        };
        proof {
            reveal_with_fuel(crate::ast::wf_ty, 4);
            reveal_with_fuel(crate::ast::wf_ann, 4);
            reveal_with_fuel(crate::ast::wf_ann_opt, 4);
        }
        let pred_span = self.finish_span(type_pred_start);
        let node = Box::new(
            TsType::TsTypePredicate(
                TsTypePredicate {
                    span: pred_span,
                    asserts: has_type_pred_asserts,
                    param_name: TsThisTypeOrIdent::Ident(type_pred_var),
                    type_ann,
                },
            ),
        );
        let span = self.finish_span(return_token_start);
        Ok(TsTypeAnn { span, type_ann: node })
    }

    /// A return-position annotation if a `:` stands here.
    pub fn try_parse_ts_type_or_type_predicate_ann(&mut self, depth: u32) -> (r: Result<
        Option<TsTypeAnn>,
        Diagnostic,
    >)
        requires
            old(self).wf(),
        ensures
            parse_step(*old(self), *final (self)),
            r matches Ok(a) ==> wf_ann_opt(a),
            depth >= 1 && !old(self).cur_is_punct(Punct::Colon) ==> (r matches Ok(None)
                && final (self).pos == old(self).pos),
        decreases depth, 3int,
    {
        if depth == 0 {
            return Err(self.nesting_err());
        }
        if self.is_punct(Punct::Colon) {
            match self.parse_ts_type_or_type_predicate_ann(Punct::Colon, depth - 1) {
                Ok(a) => Ok(Some(a)),
                Err(d) => Err(d),
            }
        } else {
            Ok(None)
        }
    }

    /// `: T` treated as an optional whole-type annotation.
    pub fn try_parse_ts_type(&mut self, depth: u32) -> (r: Result<
        Option<Box<TsType>>,
        Diagnostic,
    >)
        requires
            old(self).wf(),
        ensures
            parse_step(*old(self), *final (self)),
            r matches Ok(t) ==> crate::ast::wf_ty_opt(t),
            depth >= 2 && !old(self).cur_is_punct(Punct::Colon) ==> (r matches Ok(None)
                && final (self).pos == old(self).pos),
            depth >= 13 && old(self).cur_is_punct(Punct::Colon) && ty_atom_at(
                old(self).tokens@,
                old(self).pos + 1,
            ) && stops_type(
                old(self).tokens@,
                old(self).pos + 1 + ty_atom_len(old(self).tokens@, old(self).pos + 1),
            ) ==> (r matches Ok(Some(t)) && ty_atom_node(
                old(self).tokens@,
                old(self).pos + 1,
                *t,
            ) && final (self).pos == old(self).pos + 1 + ty_atom_len(
                old(self).tokens@,
                old(self).pos + 1,
            )),
        decreases depth, 3int,
    {
        if depth == 0 {
            return Err(self.nesting_err());
        }
        self.eat_punct_then_parse_ts_type(Punct::Colon, depth - 1)
    }
}

} // verus!
