use crate::ast::{
    wf_ty, TsArrayType, TsConditionalType, TsIndexedAccessType, TsInferType, TsIntersectionType,
    TsType, TsTypeOperator, TsTypeOperatorOp, TsTypeParam, TsUnionOrIntersectionType, TsUnionType,
};
use crate::diag::Diagnostic;
use crate::props::{
    amp_pair_at, amp_pair_end, amp_pair_node, cond_atoms_at, cond_atoms_result, nullary_fn_ty_at,
    nullary_fn_ty_result, pipe_pair_at, pipe_pair_end, pipe_pair_node, stops_below_intersection,
    ty_atom_node,
    stops_below_union, stops_non_cond, stops_type, ty_atom_at, ty_atom_len, ty_atom_ok_result,
};
use crate::state::{parse_step, Parser};
use crate::token::{Kw, Punct, Token};
use vstd::prelude::*;

verus! {

/// The nesting budget of one top-level parse; each grammar step consumes
/// one unit, so deep but realistic inputs stay well inside it while
/// adversarial nesting fails with a dedicated diagnostic instead of
/// exhausting the native stack.
pub const MAX_TYPE_NESTING: u32 = 4096;

#[derive(Clone, Copy, PartialEq, Eq, Structural, Debug)]
pub enum UnionOrIntersection {
    Union,
    Intersection,
}

impl Parser {
    /// Parse one complete type in a fresh in-type context.
    pub fn parse_type(&mut self) -> (r: Result<Box<TsType>, Diagnostic>)
        requires
            old(self).wf(),
        ensures
            parse_step(*old(self), *final (self)),
            r is Ok ==> old(self).pos < final (self).pos,
            r matches Ok(t) ==> wf_ty(*t),
            ty_atom_at(old(self).tokens@, old(self).pos as int) && stops_type(
                old(self).tokens@,
                old(self).pos + ty_atom_len(old(self).tokens@, old(self).pos as int),
            ) ==> ty_atom_ok_result(
                old(self).tokens@,
                old(self).pos as int,
                r,
                final (self).pos as int,
            ),
            nullary_fn_ty_at(old(self).tokens@, old(self).pos as int)
                ==> nullary_fn_ty_result(
                old(self).tokens@,
                old(self).pos as int,
                r,
                final (self).pos as int,
            ),
            pipe_pair_at(old(self).tokens@, old(self).pos as int) && stops_type(
                old(self).tokens@,
                pipe_pair_end(old(self).tokens@, old(self).pos as int),
            ) ==> (r matches Ok(t) && pipe_pair_node(old(self).tokens@, old(self).pos as int, *t)
                && final (self).pos == pipe_pair_end(old(self).tokens@, old(self).pos as int)),
            amp_pair_at(old(self).tokens@, old(self).pos as int) && stops_type(
                old(self).tokens@,
                amp_pair_end(old(self).tokens@, old(self).pos as int),
            ) ==> (r matches Ok(t) && amp_pair_node(old(self).tokens@, old(self).pos as int, *t)
                && final (self).pos == amp_pair_end(old(self).tokens@, old(self).pos as int)),
            cond_atoms_at(old(self).tokens@, old(self).pos as int)
                ==> cond_atoms_result(
                old(self).tokens@,
                old(self).pos as int,
                r,
                final (self).pos as int,
            ),
    {
        let saved = self.flags;
        self.flags.in_type = true;
        let r = self.parse_ts_type(MAX_TYPE_NESTING);
        self.flags = saved;
        r
    }

    /// The conditional-type level: the top of the precedence chain.
    pub fn parse_ts_type(&mut self, depth: u32) -> (r: Result<Box<TsType>, Diagnostic>)
        requires
            old(self).wf(),
        ensures
            parse_step(*old(self), *final (self)),
            r is Ok ==> old(self).pos < final (self).pos,
            r matches Ok(t) ==> wf_ty(*t),
            depth >= 11 && ty_atom_at(old(self).tokens@, old(self).pos as int) && stops_type(
                old(self).tokens@,
                old(self).pos + ty_atom_len(old(self).tokens@, old(self).pos as int),
            ) ==> ty_atom_ok_result(
                old(self).tokens@,
                old(self).pos as int,
                r,
                final (self).pos as int,
            ),
            depth >= 17 && nullary_fn_ty_at(old(self).tokens@, old(self).pos as int)
                ==> nullary_fn_ty_result(
                old(self).tokens@,
                old(self).pos as int,
                r,
                final (self).pos as int,
            ),
            depth >= 13 && pipe_pair_at(old(self).tokens@, old(self).pos as int) && stops_type(
                old(self).tokens@,
                pipe_pair_end(old(self).tokens@, old(self).pos as int),
            ) ==> (r matches Ok(t) && pipe_pair_node(old(self).tokens@, old(self).pos as int, *t)
                && final (self).pos == pipe_pair_end(old(self).tokens@, old(self).pos as int)),
            depth >= 13 && amp_pair_at(old(self).tokens@, old(self).pos as int) && stops_type(
                old(self).tokens@,
                amp_pair_end(old(self).tokens@, old(self).pos as int),
            ) ==> (r matches Ok(t) && amp_pair_node(old(self).tokens@, old(self).pos as int, *t)
                && final (self).pos == amp_pair_end(old(self).tokens@, old(self).pos as int)),
            depth >= 13 && cond_atoms_at(old(self).tokens@, old(self).pos as int)
                ==> cond_atoms_result(
                old(self).tokens@,
                old(self).pos as int,
                r,
                final (self).pos as int,
            ),
        decreases depth, 1int,
    {
        if depth == 0 {
            return Err(self.nesting_err());
        }
        let start = self.cur_pos();
        let saved = self.flags;
        self.flags.disallow_conditional_types = false;
        let r = self.parse_ts_type_inner(start, depth);
        self.flags = saved;
        r
    }

    /// Body of the conditional level, run with conditional types permitted.
    fn parse_ts_type_inner(&mut self, start: u32, depth: u32) -> (r: Result<
        Box<TsType>,
        Diagnostic,
    >)
        requires
            old(self).wf(),
            depth >= 1,
        ensures
            parse_step(*old(self), *final (self)),
            r is Ok ==> old(self).pos < final (self).pos,
            r matches Ok(t) ==> wf_ty(*t),
            depth >= 10 && ty_atom_at(old(self).tokens@, old(self).pos as int) && stops_type(
                old(self).tokens@,
                old(self).pos + ty_atom_len(old(self).tokens@, old(self).pos as int),
            ) ==> ty_atom_ok_result(
                old(self).tokens@,
                old(self).pos as int,
                r,
                final (self).pos as int,
            ),
            depth >= 16 && nullary_fn_ty_at(old(self).tokens@, old(self).pos as int)
                ==> nullary_fn_ty_result(
                old(self).tokens@,
                old(self).pos as int,
                r,
                final (self).pos as int,
            ),
            depth >= 12 && pipe_pair_at(old(self).tokens@, old(self).pos as int) && stops_type(
                old(self).tokens@,
                pipe_pair_end(old(self).tokens@, old(self).pos as int),
            ) ==> (r matches Ok(t) && pipe_pair_node(old(self).tokens@, old(self).pos as int, *t)
                && final (self).pos == pipe_pair_end(old(self).tokens@, old(self).pos as int)),
            depth >= 12 && amp_pair_at(old(self).tokens@, old(self).pos as int) && stops_type(
                old(self).tokens@,
                amp_pair_end(old(self).tokens@, old(self).pos as int),
            ) ==> (r matches Ok(t) && amp_pair_node(old(self).tokens@, old(self).pos as int, *t)
                && final (self).pos == amp_pair_end(old(self).tokens@, old(self).pos as int)),
            depth >= 12 && cond_atoms_at(old(self).tokens@, old(self).pos as int)
                ==> cond_atoms_result(
                old(self).tokens@,
                old(self).pos as int,
                r,
                final (self).pos as int,
            ),
        decreases depth, 0int,
    {
        let check_type = match self.parse_ts_non_conditional_type(depth - 1) {
            Ok(t) => t,
            Err(d) => {
                return Err(d);
            },
        };
        if self.had_line_break_before_cur() || !self.eat_kw(Kw::Extends) {
            return Ok(check_type);
        }
        // The extends type must not absorb a bare `?`, which belongs to this
        // conditional.
        let saved = self.flags;
        self.flags.disallow_conditional_types = true;
        let ext = self.parse_ts_non_conditional_type(depth - 1);
        self.flags = saved;
        let extends_type = match ext {
            Ok(t) => t,
            Err(d) => {
                return Err(d);
            },
        };
        match self.expect_punct(Punct::Question) {
            Ok(_) => {},
            Err(d) => {
                return Err(d);
            },
        }
        let true_type = match self.parse_ts_type(depth - 1) {
            Ok(t) => t,
            Err(d) => {
                return Err(d);
            },
        };
        match self.expect_punct(Punct::Colon) {
            Ok(_) => {},
            Err(d) => {
                return Err(d);
            },
        }
        let false_type = match self.parse_ts_type(depth - 1) {
            Ok(t) => t,
            Err(d) => {
                return Err(d);
            },
        };
        let span = self.finish_span(start);
        Ok(
            Box::new(
                TsType::TsConditionalType(
                    TsConditionalType { span, check_type, extends_type, true_type, false_type },
                ),
            ),
        )
    }

    /// Everything below the conditional level, with function and constructor
    /// types detected up front.
    pub fn parse_ts_non_conditional_type(&mut self, depth: u32) -> (r: Result<
        Box<TsType>,
        Diagnostic,
    >)
        requires
            old(self).wf(),
        ensures
            parse_step(*old(self), *final (self)),
            r is Ok ==> old(self).pos < final (self).pos,
            r matches Ok(t) ==> wf_ty(*t),
            depth >= 9 && ty_atom_at(old(self).tokens@, old(self).pos as int)
                && stops_non_cond(
                old(self).tokens@,
                old(self).pos + ty_atom_len(old(self).tokens@, old(self).pos as int),
            ) ==> ty_atom_ok_result(
                old(self).tokens@,
                old(self).pos as int,
                r,
                final (self).pos as int,
            ),
            depth >= 15 && nullary_fn_ty_at(old(self).tokens@, old(self).pos as int)
                ==> nullary_fn_ty_result(
                old(self).tokens@,
                old(self).pos as int,
                r,
                final (self).pos as int,
            ),
            depth >= 11 && pipe_pair_at(old(self).tokens@, old(self).pos as int) && stops_type(
                old(self).tokens@,
                pipe_pair_end(old(self).tokens@, old(self).pos as int),
            ) ==> (r matches Ok(t) && pipe_pair_node(old(self).tokens@, old(self).pos as int, *t)
                && final (self).pos == pipe_pair_end(old(self).tokens@, old(self).pos as int)),
            depth >= 11 && amp_pair_at(old(self).tokens@, old(self).pos as int) && stops_type(
                old(self).tokens@,
                amp_pair_end(old(self).tokens@, old(self).pos as int),
            ) ==> (r matches Ok(t) && amp_pair_node(old(self).tokens@, old(self).pos as int, *t)
                && final (self).pos == amp_pair_end(old(self).tokens@, old(self).pos as int)),
        decreases depth, 0int,
    {
        if depth == 0 {
            return Err(self.nesting_err());
        }
        if self.is_ts_start_of_fn_type() {
            let f = match self.parse_ts_fn_or_constructor_type(true, depth - 1) {
                Ok(f) => f,
                Err(d) => {
                    return Err(d);
                },
            };
            return Ok(Box::new(TsType::TsFnOrConstructorType(f)));
        }
        if (self.is_kw(Kw::Abstract) && self.peek_is_kw(Kw::New)) || self.is_kw(Kw::New) {
            // As in `new () => Date`.
            let f = match self.parse_ts_fn_or_constructor_type(false, depth - 1) {
                Ok(f) => f,
                Err(d) => {
                    return Err(d);
                },
            };
            return Ok(Box::new(TsType::TsFnOrConstructorType(f)));
        }
        self.parse_ts_union_type_or_higher(depth - 1)
    }

    /// `<` always opens a generic function type; `(` needs the bounded
    /// speculative scan.  A pure peek: the cursor never moves.
    pub fn is_ts_start_of_fn_type(&mut self) -> (r: bool)
        requires
            old(self).wf(),
        ensures
            final (self).wf(),
            final (self).tokens@ == old(self).tokens@,
            final (self).flags == old(self).flags,
            final (self).diags@ == old(self).diags@,
            final (self).pos == old(self).pos,
            r ==> (old(self).cur_is_punct(Punct::Lt) || old(self).cur_is_punct(Punct::LParen)),
            old(self).cur_is_punct(Punct::Lt) ==> r,
            old(self).cur_is_punct(Punct::LParen) && (old(self).spec_peek() matches Some(
                Token::Punct(p),
            ) && (p == Punct::RParen || p == Punct::DotDotDot)) ==> r,
    {
        if self.is_punct(Punct::Lt) {
            return true;
        }
        if !self.is_punct(Punct::LParen) {
            return false;
        }
        let m = self.begin_speculation();
        let r = self.is_ts_unambiguously_start_of_fn_type();
        self.rollback(m);
        r
    }

    /// The consuming scan behind the `(`-disambiguation: `()`, `(...`,
    /// `(name :`/`,`/`?`/`=`, or `(name) =>` confirm a function type.
    pub fn is_ts_unambiguously_start_of_fn_type(&mut self) -> (r: bool)
        requires
            old(self).wf(),
            old(self).cur_is_punct(Punct::LParen),
        ensures
            parse_step(*old(self), *final (self)),
            final (self).diags@ == old(self).diags@,
            (old(self).spec_peek() matches Some(Token::Punct(p)) && (p == Punct::RParen || p
                == Punct::DotDotDot)) ==> r,
    {
        self.bump();  // '('
        if self.is_punct(Punct::RParen) || self.is_punct(Punct::DotDotDot) {
            return true;
        }
        if self.skip_ts_parameter_start() {
            if self.is_punct(Punct::Colon) || self.is_punct(Punct::Comma) || self.is_punct(
                Punct::Question,
            ) || self.is_punct(Punct::Assign) {
                return true;
            }
            if self.eat_punct(Punct::RParen) && self.is_punct(Punct::Arrow) {
                return true;
            }
        }
        false
    }

    /// Skip over one parameter start: a modifier, then a plain name or a
    /// destructuring pattern (skipped structurally by bracket balance).
    pub fn skip_ts_parameter_start(&mut self) -> (r: bool)
        requires
            old(self).wf(),
        ensures
            parse_step(*old(self), *final (self)),
            final (self).diags@ == old(self).diags@,
    {
        let _ = self.eat_any_ts_modifier();
        if self.is_word() {
            self.bump();
            return true;
        }
        if self.is_punct(Punct::LBrace) || self.is_punct(Punct::LBracket) {
            return self.skip_balanced_pattern();
        }
        false
    }

    /// Skip a `{`/`[` bracketed region by nesting balance.
    fn skip_balanced_pattern(&mut self) -> (r: bool)
        requires
            old(self).wf(),
            old(self).cur_is_punct(Punct::LBrace) || old(self).cur_is_punct(Punct::LBracket),
        ensures
            parse_step(*old(self), *final (self)),
            final (self).diags@ == old(self).diags@,
    {
        let mut nesting: usize = 0;
        loop
            invariant
                self.wf(),
                parse_step(*old(self), *self),
                self.diags@ == old(self).diags@,
                self.flags == old(self).flags,
            decreases self.tokens@.len() - self.pos,
        {
            if self.at_eof() {
                return false;
            }
            if self.is_punct(Punct::LBrace) || self.is_punct(Punct::LBracket) {
                if nesting == usize::MAX {
                    return false;
                }
                nesting = nesting + 1;
                self.bump();
            } else if self.is_punct(Punct::RBrace) || self.is_punct(Punct::RBracket) {
                self.bump();
                if nesting == 0 {
                    return false;
                }
                nesting = nesting - 1;
                if nesting == 0 {
                    return true;
                }
            } else {
                self.bump();
            }
        }
    }

    pub fn parse_ts_union_type_or_higher(&mut self, depth: u32) -> (r: Result<
        Box<TsType>,
        Diagnostic,
    >)
        requires
            old(self).wf(),
        ensures
            parse_step(*old(self), *final (self)),
            r is Ok ==> old(self).pos < final (self).pos,
            r matches Ok(t) ==> wf_ty(*t),
            depth >= 8 && pipe_pair_at(old(self).tokens@, old(self).pos as int) ==> (r
                matches Ok(t) && pipe_pair_node(old(self).tokens@, old(self).pos as int, *t)
                && final (self).pos == pipe_pair_end(old(self).tokens@, old(self).pos as int)),
            depth >= 8 && amp_pair_at(old(self).tokens@, old(self).pos as int)
                && stops_non_cond(
                old(self).tokens@,
                amp_pair_end(old(self).tokens@, old(self).pos as int),
            ) ==> (r matches Ok(t) && amp_pair_node(old(self).tokens@, old(self).pos as int, *t)
                && final (self).pos == amp_pair_end(old(self).tokens@, old(self).pos as int)),
            depth >= 8 && ty_atom_at(old(self).tokens@, old(self).pos as int)
                && stops_non_cond(
                old(self).tokens@,
                old(self).pos + ty_atom_len(old(self).tokens@, old(self).pos as int),
            ) ==> ty_atom_ok_result(
                old(self).tokens@,
                old(self).pos as int,
                r,
                final (self).pos as int,
            ),
        decreases depth, 1int,
    {
        if depth == 0 {
            return Err(self.nesting_err());
        }
        self.parse_ts_union_or_intersection_type(UnionOrIntersection::Union, depth - 1)
    }

    pub fn parse_ts_intersection_type_or_higher(&mut self, depth: u32) -> (r: Result<
        Box<TsType>,
        Diagnostic,
    >)
        requires
            old(self).wf(),
        ensures
            parse_step(*old(self), *final (self)),
            r is Ok ==> old(self).pos < final (self).pos,
            r matches Ok(t) ==> wf_ty(*t),
            r matches Ok(t) ==> ((*t) matches TsType::TsUnionOrIntersectionType(u)
                ==> u is TsIntersectionType),
            depth >= 6 && amp_pair_at(old(self).tokens@, old(self).pos as int) ==> (r
                matches Ok(t) && amp_pair_node(old(self).tokens@, old(self).pos as int, *t)
                && final (self).pos == amp_pair_end(old(self).tokens@, old(self).pos as int)),
            depth >= 6 && ty_atom_at(old(self).tokens@, old(self).pos as int)
                && stops_below_union(
                old(self).tokens@,
                old(self).pos + ty_atom_len(old(self).tokens@, old(self).pos as int),
            ) ==> ty_atom_ok_result(
                old(self).tokens@,
                old(self).pos as int,
                r,
                final (self).pos as int,
            ),
        decreases depth, 1int,
    {
        if depth == 0 {
            return Err(self.nesting_err());
        }
        self.parse_ts_union_or_intersection_type(UnionOrIntersection::Intersection, depth - 1)
    }

    /// The shared n-ary binary-operator routine: an optional leading
    /// operator, one constituent, then all further constituents collected
    /// into one flat node.  A single constituent is returned bare.
    fn parse_ts_union_or_intersection_type(&mut self, kind: UnionOrIntersection, depth: u32) -> (r:
        Result<Box<TsType>, Diagnostic>)
        requires
            old(self).wf(),
        ensures
            parse_step(*old(self), *final (self)),
            r is Ok ==> old(self).pos < final (self).pos,
            r matches Ok(t) ==> wf_ty(*t),
            kind == UnionOrIntersection::Intersection ==> (r matches Ok(t) ==> ((*t)
                matches TsType::TsUnionOrIntersectionType(u) ==> u is TsIntersectionType)),
            kind == UnionOrIntersection::Union && depth >= 7 && ty_atom_at(
                old(self).tokens@,
                old(self).pos as int,
            ) && stops_non_cond(
                old(self).tokens@,
                old(self).pos + ty_atom_len(old(self).tokens@, old(self).pos as int),
            ) ==> ty_atom_ok_result(
                old(self).tokens@,
                old(self).pos as int,
                r,
                final (self).pos as int,
            ),
            kind == UnionOrIntersection::Intersection && depth >= 5 && ty_atom_at(
                old(self).tokens@,
                old(self).pos as int,
            ) && stops_below_union(
                old(self).tokens@,
                old(self).pos + ty_atom_len(old(self).tokens@, old(self).pos as int),
            ) ==> ty_atom_ok_result(
                old(self).tokens@,
                old(self).pos as int,
                r,
                final (self).pos as int,
            ),
            kind == UnionOrIntersection::Intersection && depth >= 5 && amp_pair_at(
                old(self).tokens@,
                old(self).pos as int,
            ) ==> (r matches Ok(t) && amp_pair_node(old(self).tokens@, old(self).pos as int, *t)
                && final (self).pos == amp_pair_end(old(self).tokens@, old(self).pos as int)),
            kind == UnionOrIntersection::Union && depth >= 7 && pipe_pair_at(
                old(self).tokens@,
                old(self).pos as int,
            ) ==> (r matches Ok(t) && pipe_pair_node(old(self).tokens@, old(self).pos as int, *t)
                && final (self).pos == pipe_pair_end(old(self).tokens@, old(self).pos as int)),
            kind == UnionOrIntersection::Union && depth >= 7 && amp_pair_at(
                old(self).tokens@,
                old(self).pos as int,
            ) && stops_non_cond(old(self).tokens@, amp_pair_end(old(self).tokens@, old(self).pos as int))
                ==> (r matches Ok(t) && amp_pair_node(old(self).tokens@, old(self).pos as int, *t)
                && final (self).pos == amp_pair_end(old(self).tokens@, old(self).pos as int)),
        decreases depth, 0int,
    {
        if depth == 0 {
            return Err(self.nesting_err());
        }
        let op = if kind == UnionOrIntersection::Union {
            Punct::Pipe
        } else {
            Punct::Amp
        };
        // Include a leading line-leading operator in the node's span.
        let start = self.cur_pos();
        let _ = self.eat_punct(op);
        let first = if kind == UnionOrIntersection::Union {
            self.parse_ts_intersection_type_or_higher(depth - 1)
        } else {
            self.parse_ts_type_operator_or_higher(depth - 1)
        };
        let first_ty = match first {
            Ok(t) => t,
            Err(d) => {
                return Err(d);
            },
        };
        if !self.is_punct(op) {
            return Ok(first_ty);
        }
        let mut types: Vec<Box<TsType>> = Vec::new();
        types.push(first_ty);
        loop
            invariant
                self.wf(),
                parse_step(*old(self), *self),
                depth >= 1,
                old(self).pos < self.pos,
                types.len() >= 1,
                types.len() >= 2 || self.cur_is_punct(op),
                op == (if kind == UnionOrIntersection::Union {
                    Punct::Pipe
                } else {
                    Punct::Amp
                }),
                forall|i: int| 0 <= i < types.len() ==> wf_ty(*(#[trigger] types@[i])),
                !(kind == UnionOrIntersection::Union && depth >= 7 && ty_atom_at(
                    old(self).tokens@,
                    old(self).pos as int,
                ) && stops_non_cond(
                    old(self).tokens@,
                    old(self).pos + ty_atom_len(old(self).tokens@, old(self).pos as int),
                )),
                !(kind == UnionOrIntersection::Intersection && depth >= 5 && ty_atom_at(
                    old(self).tokens@,
                    old(self).pos as int,
                ) && stops_below_union(
                    old(self).tokens@,
                    old(self).pos + ty_atom_len(old(self).tokens@, old(self).pos as int),
                )),
                !(kind == UnionOrIntersection::Union && depth >= 7 && amp_pair_at(
                    old(self).tokens@,
                    old(self).pos as int,
                ) && stops_non_cond(
                    old(self).tokens@,
                    amp_pair_end(old(self).tokens@, old(self).pos as int),
                )),
                kind == UnionOrIntersection::Intersection && depth >= 5 && amp_pair_at(
                    old(self).tokens@,
                    old(self).pos as int,
                ) ==> ((types@.len() == 1 && self.pos == old(self).pos + ty_atom_len(
                    old(self).tokens@,
                    old(self).pos as int,
                ) && ty_atom_node(old(self).tokens@, old(self).pos as int, *types@[0])) || (
                types@.len() == 2 && self.pos == amp_pair_end(
                    old(self).tokens@,
                    old(self).pos as int,
                ) && ty_atom_node(old(self).tokens@, old(self).pos as int, *types@[0])
                    && ty_atom_node(
                    old(self).tokens@,
                    old(self).pos + ty_atom_len(old(self).tokens@, old(self).pos as int) + 1,
                    *types@[1],
                ))),
                kind == UnionOrIntersection::Union && depth >= 7 && pipe_pair_at(
                    old(self).tokens@,
                    old(self).pos as int,
                ) ==> ((types@.len() == 1 && self.pos == old(self).pos + ty_atom_len(
                    old(self).tokens@,
                    old(self).pos as int,
                ) && ty_atom_node(old(self).tokens@, old(self).pos as int, *types@[0])) || (
                types@.len() == 2 && self.pos == pipe_pair_end(
                    old(self).tokens@,
                    old(self).pos as int,
                ) && ty_atom_node(old(self).tokens@, old(self).pos as int, *types@[0]) && (if
                amp_pair_at(
                    old(self).tokens@,
                    old(self).pos + ty_atom_len(old(self).tokens@, old(self).pos as int) + 1,
                ) {
                    amp_pair_node(
                        old(self).tokens@,
                        old(self).pos + ty_atom_len(old(self).tokens@, old(self).pos as int) + 1,
                        *types@[1],
                    )
                } else {
                    ty_atom_node(
                        old(self).tokens@,
                        old(self).pos + ty_atom_len(old(self).tokens@, old(self).pos as int) + 1,
                        *types@[1],
                    )
                }))),
            ensures
                self.wf(),
                parse_step(*old(self), *self),
                old(self).pos < self.pos,
                types.len() >= 2,
                forall|i: int| 0 <= i < types.len() ==> wf_ty(*(#[trigger] types@[i])),
                kind == UnionOrIntersection::Intersection && depth >= 5 && amp_pair_at(
                    old(self).tokens@,
                    old(self).pos as int,
                ) ==> (types@.len() == 2 && self.pos == amp_pair_end(
                    old(self).tokens@,
                    old(self).pos as int,
                ) && ty_atom_node(old(self).tokens@, old(self).pos as int, *types@[0])
                    && ty_atom_node(
                    old(self).tokens@,
                    old(self).pos + ty_atom_len(old(self).tokens@, old(self).pos as int) + 1,
                    *types@[1],
                )),
                kind == UnionOrIntersection::Union && depth >= 7 && pipe_pair_at(
                    old(self).tokens@,
                    old(self).pos as int,
                ) ==> (types@.len() == 2 && self.pos == pipe_pair_end(
                    old(self).tokens@,
                    old(self).pos as int,
                ) && ty_atom_node(old(self).tokens@, old(self).pos as int, *types@[0]) && (if
                amp_pair_at(
                    old(self).tokens@,
                    old(self).pos + ty_atom_len(old(self).tokens@, old(self).pos as int) + 1,
                ) {
                    amp_pair_node(
                        old(self).tokens@,
                        old(self).pos + ty_atom_len(old(self).tokens@, old(self).pos as int) + 1,
                        *types@[1],
                    )
                } else {
                    ty_atom_node(
                        old(self).tokens@,
                        old(self).pos + ty_atom_len(old(self).tokens@, old(self).pos as int) + 1,
                        *types@[1],
                    )
                })),
            decreases self.tokens@.len() - self.pos,
        {
            if !self.eat_punct(op) {
                break ;
            }
            let next = if kind == UnionOrIntersection::Union {
                self.parse_ts_intersection_type_or_higher(depth - 1)
            } else {
                self.parse_ts_type_operator_or_higher(depth - 1)
            };
            let next_ty = match next {
                Ok(t) => t,
                Err(d) => {
                    return Err(d);
                },
            };
            types.push(next_ty);
        }
        let span = self.finish_span(start);
        let node = if kind == UnionOrIntersection::Union {
            TsUnionOrIntersectionType::TsUnionType(TsUnionType { span, types })
        } else {
            TsUnionOrIntersectionType::TsIntersectionType(TsIntersectionType { span, types })
        };
        Ok(Box::new(TsType::TsUnionOrIntersectionType(node)))
    }

    /// `keyof`/`unique`/`readonly` operators, `infer`, or the array level.
    pub fn parse_ts_type_operator_or_higher(&mut self, depth: u32) -> (r: Result<
        Box<TsType>,
        Diagnostic,
    >)
        requires
            old(self).wf(),
        ensures
            parse_step(*old(self), *final (self)),
            r is Ok ==> old(self).pos < final (self).pos,
            r matches Ok(t) ==> wf_ty(*t),
            r matches Ok(t) ==> !((*t) is TsUnionOrIntersectionType),
            depth >= 4 && ty_atom_at(old(self).tokens@, old(self).pos as int)
                && stops_below_intersection(
                old(self).tokens@,
                old(self).pos + ty_atom_len(old(self).tokens@, old(self).pos as int),
            ) ==> ty_atom_ok_result(
                old(self).tokens@,
                old(self).pos as int,
                r,
                final (self).pos as int,
            ),
        decreases depth, 1int,
    {
        if depth == 0 {
            return Err(self.nesting_err());
        }
        let op = if self.is_kw(Kw::Keyof) {
            Some(TsTypeOperatorOp::KeyOf)
        } else if self.is_kw(Kw::Unique) {
            Some(TsTypeOperatorOp::Unique)
        } else if self.is_kw(Kw::Readonly) {
            Some(TsTypeOperatorOp::ReadOnly)
        } else {
            None
        };
        match op {
            Some(op) => {
                let o = match self.parse_ts_type_operator(op, depth - 1) {
                    Ok(o) => o,
                    Err(d) => {
                        return Err(d);
                    },
                };
                Ok(Box::new(TsType::TsTypeOperator(o)))
            },
            None => {
                if self.is_kw(Kw::Infer) {
                    let i = match self.parse_ts_infer_type(depth - 1) {
                        Ok(i) => i,
                        Err(d) => {
                            return Err(d);
                        },
                    };
                    Ok(Box::new(TsType::TsInferType(i)))
                } else {
                    let readonly = self.parse_ts_modifier_readonly();
                    self.parse_ts_array_type_or_higher(readonly, depth - 1)
                }
            },
        }
    }

    /// One tagged unary operator node.
    fn parse_ts_type_operator(&mut self, op: TsTypeOperatorOp, depth: u32) -> (r: Result<
        TsTypeOperator,
        Diagnostic,
    >)
        requires
            old(self).wf(),
        ensures
            parse_step(*old(self), *final (self)),
            r is Ok ==> old(self).pos < final (self).pos,
            r matches Ok(o) ==> wf_ty(*o.type_ann),
        decreases depth, 0int,
    {
        if depth == 0 {
            return Err(self.nesting_err());
        }
        let start = self.cur_pos();
        let expected = match op {
            TsTypeOperatorOp::Unique => self.expect_kw(Kw::Unique),
            TsTypeOperatorOp::KeyOf => self.expect_kw(Kw::Keyof),
            TsTypeOperatorOp::ReadOnly => self.expect_kw(Kw::Readonly),
        };
        match expected {
            Ok(_) => {},
            Err(d) => {
                return Err(d);
            },
        }
        let type_ann = match self.parse_ts_type_operator_or_higher(depth - 1) {
            Ok(t) => t,
            Err(d) => {
                return Err(d);
            },
        };
        let span = self.finish_span(start);
        Ok(TsTypeOperator { span, op, type_ann })
    }

    /// `infer Name`, with an optional speculative `extends` constraint that
    /// is abandoned when a bare `?` must be left to an enclosing
    /// conditional.
    fn parse_ts_infer_type(&mut self, depth: u32) -> (r: Result<TsInferType, Diagnostic>)
        requires
            old(self).wf(),
        ensures
            parse_step(*old(self), *final (self)),
            r is Ok ==> old(self).pos < final (self).pos,
            r matches Ok(i) ==> crate::ast::wf_type_param(i.type_param),
        decreases depth, 0int,
    {
        if depth == 0 {
            return Err(self.nesting_err());
        }
        let start = self.cur_pos();
        match self.expect_kw(Kw::Infer) {
            Ok(_) => {},
            Err(d) => {
                return Err(d);
            },
        }
        let name = match self.parse_ident_name() {
            Ok(i) => i,
            Err(d) => {
                return Err(d);
            },
        };
        let m = self.begin_speculation();
        let constraint: Option<Box<TsType>> = if !self.eat_kw(Kw::Extends) {
            self.rollback(m);
            None
        } else {
            match self.parse_ts_non_conditional_type(depth - 1) {
                Err(_) => {
                    self.rollback(m);
                    None
                },
                Ok(con) => {
                    if self.flags.disallow_conditional_types || !self.is_punct(Punct::Question) {
                        self.commit(m);
                        Some(con)
                    } else {
                        self.rollback(m);
                        None
                    }
                },
            }
        };
        let name_span = name.span;
        let type_param = TsTypeParam {
            span: name_span,
            name,
            is_in: false,
            is_out: false,
            is_const: false,
            constraint,
            default: None,
        };
        let span = self.finish_span(start);
        Ok(TsInferType { span, type_param })
    }

    /// Postfix `[]` array and `[K]` indexed-access layers.
    pub fn parse_ts_array_type_or_higher(&mut self, readonly: bool, depth: u32) -> (r: Result<
        Box<TsType>,
        Diagnostic,
    >)
        requires
            old(self).wf(),
        ensures
            parse_step(*old(self), *final (self)),
            r is Ok ==> old(self).pos < final (self).pos,
            r matches Ok(t) ==> wf_ty(*t),
            r matches Ok(t) ==> !((*t) is TsUnionOrIntersectionType),
            depth >= 3 && ty_atom_at(old(self).tokens@, old(self).pos as int)
                && stops_below_intersection(
                old(self).tokens@,
                old(self).pos + ty_atom_len(old(self).tokens@, old(self).pos as int),
            ) ==> ty_atom_ok_result(
                old(self).tokens@,
                old(self).pos as int,
                r,
                final (self).pos as int,
            ),
        decreases depth, 1int,
    {
        if depth == 0 {
            return Err(self.nesting_err());
        }
        let start = self.cur_pos();
        let mut ty = match self.parse_ts_non_array_type(depth - 1) {
            Ok(t) => t,
            Err(d) => {
                return Err(d);
            },
        };
        loop
            invariant
                self.wf(),
                parse_step(*old(self), *self),
                depth >= 1,
                old(self).pos < self.pos,
                wf_ty(*ty),
                !((*ty) is TsUnionOrIntersectionType),
                depth >= 3 && ty_atom_at(old(self).tokens@, old(self).pos as int)
                    && stops_below_intersection(
                    old(self).tokens@,
                    old(self).pos + ty_atom_len(old(self).tokens@, old(self).pos as int),
                ) ==> (self.pos == old(self).pos + ty_atom_len(
                    old(self).tokens@,
                    old(self).pos as int,
                ) && ty_atom_ok_result(
                    old(self).tokens@,
                    old(self).pos as int,
                    Ok(ty),
                    self.pos as int,
                )),
            decreases self.tokens@.len() - self.pos,
        {
            if self.had_line_break_before_cur() {
                break ;
            }
            if !self.eat_punct(Punct::LBracket) {
                break ;
            }
            if self.eat_punct(Punct::RBracket) {
                let span = self.finish_span(start);
                ty = Box::new(TsType::TsArrayType(TsArrayType { span, elem_type: ty }));
            } else {
                let index_type = match self.parse_ts_type(depth - 1) {
                    Ok(t) => t,
                    Err(d) => {
                        return Err(d);
                    },
                };
                match self.expect_punct(Punct::RBracket) {
                    Ok(_) => {},
                    Err(d) => {
                        return Err(d);
                    },
                }
                let span = self.finish_span(start);
                ty = Box::new(
                    TsType::TsIndexedAccessType(
                        TsIndexedAccessType { span, readonly, obj_type: ty, index_type },
                    ),
                );
            }
        }
        Ok(ty)
    }

    /// The raw modifier-shape check: step over the candidate modifier word
    /// and see whether what follows can belong to a modified member.
    pub fn ts_next_token_can_follow_modifier(&mut self) -> (r: bool)
        requires
            old(self).wf(),
            !old(self).spec_at_eof(),
        ensures
            final (self).wf(),
            final (self).tokens@ == old(self).tokens@,
            final (self).flags == old(self).flags,
            final (self).diags@ == old(self).diags@,
            final (self).pos == old(self).pos + 1,
    {
        self.bump();
        !self.had_line_break_before_cur() && (self.is_punct(Punct::LBracket) || self.is_punct(
            Punct::LBrace,
        ) || self.is_punct(Punct::Star) || self.is_punct(Punct::DotDotDot) || self.is_punct(
            Punct::Hash,
        ) || self.is_word() || self.is_str_lit() || self.is_num_lit() || self.is_bigint_lit())
    }

    /// Speculatively consume the current word as a modifier; on failure
    /// nothing is consumed.
    fn try_modifier_can_follow(&mut self) -> (r: bool)
        requires
            old(self).wf(),
            old(self).cur_is_word(),
        ensures
            final (self).wf(),
            final (self).tokens@ == old(self).tokens@,
            final (self).flags == old(self).flags,
            final (self).diags@ == old(self).diags@,
            r ==> final (self).pos == old(self).pos + 1,
            !r ==> final (self).pos == old(self).pos,
    {
        let m = self.begin_speculation();
        let ok = self.ts_next_token_can_follow_modifier();
        if ok {
            self.commit(m);
        } else {
            self.rollback(m);
        }
        ok
    }

    /// A bare `readonly` modifier, accepted only when a member can follow.
    pub fn parse_ts_modifier_readonly(&mut self) -> (r: bool)
        requires
            old(self).wf(),
        ensures
            final (self).wf(),
            final (self).tokens@ == old(self).tokens@,
            final (self).flags == old(self).flags,
            final (self).diags@ == old(self).diags@,
            r ==> old(self).cur_is_kw(Kw::Readonly) && final (self).pos == old(self).pos + 1,
            !r ==> final (self).pos == old(self).pos,
    {
        if self.is_kw(Kw::Readonly) {
            self.try_modifier_can_follow()
        } else {
            false
        }
    }

    /// An accessibility or mutability modifier before a parameter or type
    /// reference.
    pub fn eat_any_ts_modifier(&mut self) -> (r: bool)
        requires
            old(self).wf(),
        ensures
            final (self).wf(),
            final (self).tokens@ == old(self).tokens@,
            final (self).flags == old(self).flags,
            final (self).diags@ == old(self).diags@,
            r ==> final (self).pos == old(self).pos + 1,
            !r ==> final (self).pos == old(self).pos,
            r ==> (old(self).cur_is_kw(Kw::Public) || old(self).cur_is_kw(Kw::Private) || old(
                self,
            ).cur_is_kw(Kw::Protected) || old(self).cur_is_kw(Kw::Readonly)),
    {
        if self.is_kw(Kw::Public) || self.is_kw(Kw::Private) || self.is_kw(Kw::Protected)
            || self.is_kw(Kw::Readonly) {
            self.try_modifier_can_follow()
        } else {
            false
        }
    }

    /// One modifier of a type-parameter declaration, if the current word is
    /// one and can act as one here.
    pub fn parse_ts_type_param_modifier(&mut self) -> (r: Option<Kw>)
        requires
            old(self).wf(),
        ensures
            final (self).wf(),
            final (self).tokens@ == old(self).tokens@,
            final (self).flags == old(self).flags,
            final (self).diags@ == old(self).diags@,
            r is Some ==> final (self).pos == old(self).pos + 1,
            r is None ==> final (self).pos == old(self).pos,
            r matches Some(k) ==> old(self).cur_is_kw(k),
    {
        let k = if self.is_kw(Kw::Public) {
            Some(Kw::Public)
        } else if self.is_kw(Kw::Private) {
            Some(Kw::Private)
        } else if self.is_kw(Kw::Protected) {
            Some(Kw::Protected)
        } else if self.is_kw(Kw::Readonly) {
            Some(Kw::Readonly)
        } else if self.is_kw(Kw::Abstract) {
            Some(Kw::Abstract)
        } else if self.is_kw(Kw::Const) {
            Some(Kw::Const)
        } else if self.is_kw(Kw::Override) {
            Some(Kw::Override)
        } else if self.is_kw(Kw::In) {
            Some(Kw::In)
        } else if self.is_kw(Kw::Out) {
            Some(Kw::Out)
        } else {
            None
        };
        match k {
            Some(kw) => {
                if self.try_modifier_can_follow() {
                    Some(kw)
                } else {
                    None
                }
            },
            None => None,
        }
    }
}

} // verus!
