use crate::ast::{
    tuple_elem_is_optional, tuple_elem_is_rest, tuple_order_ok, wf_tuple_elem, wf_ty,
    TsOptionalType, TsRestType, TsTupleElement, TsTupleType, TsType, TupleLabel,
};
use crate::diag::{Diagnostic, SyntaxError};
use crate::lists::ParsingContext;
use crate::props::{stops_type, ty_atom_at, ty_atom_len, ty_atom_node};
use crate::state::{parse_step, Parser};
use crate::token::{Punct, Token};
use vstd::prelude::*;

verus! {

impl Parser {
    /// A bracketed tuple type, with post-parse ordering validation: a
    /// required element after an optional one is a hard failure, while rest
    /// elements are exempt wherever they stand.
    pub fn parse_ts_tuple_type(&mut self, depth: u32) -> (r: Result<TsTupleType, Diagnostic>)
        requires
            old(self).wf(),
        ensures
            parse_step(*old(self), *final (self)),
            r is Ok ==> old(self).pos < final (self).pos,
            r matches Ok(t) ==> wf_ty(TsType::TsTupleType(t)),
        decreases depth, 1int,
    {
        if depth == 0 {
            return Err(self.nesting_err());
        }
        let start = self.cur_pos();
        match self.expect_punct(Punct::LBracket) {
            Ok(_) => {},
            Err(d) => {
                return Err(d);
            },
        }
        let mut elems: Vec<TsTupleElement> = Vec::new();
        loop
            invariant
                self.wf(),
                parse_step(*old(self), *self),
                depth >= 1,
                old(self).pos < self.pos,
                forall|i: int| 0 <= i < elems.len() ==> wf_tuple_elem(#[trigger] elems@[i]),
            decreases self.tokens@.len() - self.pos,
        {
            if self.is_ts_list_terminator(ParsingContext::TupleElementTypes) {
                break ;
            }
            let e = match self.parse_ts_tuple_element_type(depth - 1) {
                Ok(e) => e,
                Err(d) => {
                    return Err(d);
                },
            };
            elems.push(e);
            if self.eat_punct(Punct::Comma) {
                continue ;
            }
            if self.is_ts_list_terminator(ParsingContext::TupleElementTypes) {
                break ;
            }
            match self.expect_punct(Punct::Comma) {
                Ok(_) => {},
                Err(d) => {
                    return Err(d);
                },
            }
        }
        match self.expect_punct(Punct::RBracket) {
            Ok(_) => {},
            Err(d) => {
                return Err(d);
            },
        }
        let whole = self.finish_span(start);
        let mut seen_optional_element = false;
        let mut i: usize = 0;
        while i < elems.len()
            invariant
                self.wf(),
                parse_step(*old(self), *self),
                old(self).pos < self.pos,
                i <= elems.len(),
                forall|k: int| 0 <= k < elems.len() ==> wf_tuple_elem(#[trigger] elems@[k]),
                seen_optional_element == exists|j: int|
                    0 <= j < i && tuple_elem_is_optional(#[trigger] elems@[j]),
                forall|m: int, n: int|
                    0 <= m < n < i && tuple_elem_is_optional(elems@[m]) && !tuple_elem_is_rest(
                        elems@[n],
                    ) ==> tuple_elem_is_optional(elems@[n]),
            decreases elems.len() - i,
        {
            let label_rest = match &elems[i].label {
                Some(l) => l.rest,
                None => false,
            };
            let label_opt = match &elems[i].label {
                Some(l) => l.optional,
                None => false,
            };
            let is_rest = label_rest || match &*elems[i].ty {
                TsType::TsRestType(_) => true,
                _ => false,
            };
            let is_opt = label_opt || match &*elems[i].ty {
                TsType::TsOptionalType(_) => true,
                _ => false,
            };
            if is_opt {
                seen_optional_element = true;
            } else if !is_rest && seen_optional_element {
                return Err(Diagnostic { span: whole, error: SyntaxError::RequiredAfterOptional });
            }
            i = i + 1;
        }
        proof {
            reveal_with_fuel(crate::ast::wf_ty, 4);
        }
        Ok(TsTupleType { span: whole, elem_types: elems })
    }

    /// The speculative `name:` / `...name?:` label of a tuple element;
    /// abandoned with no consumption when the pattern does not match.
    pub fn try_parse_ts_tuple_element_name(&mut self) -> (r: Option<TupleLabel>)
        requires
            old(self).wf(),
        ensures
            final (self).wf(),
            final (self).tokens@ == old(self).tokens@,
            final (self).flags == old(self).flags,
            final (self).diags@ == old(self).diags@,
            old(self).pos <= final (self).pos,
            r is None ==> final (self).pos == old(self).pos,
            old(self).cur_is_word() && (old(self).spec_peek() matches Some(Token::Punct(pc))
                && pc == Punct::Colon) ==> (old(self).spec_cur() matches Some(Token::Word(w0))
                && r matches Some(l) && !l.rest && !l.optional && l.id.sym@ == w0@ && final (self).pos == old(self).pos + 2),
            old(self).cur_is_word() && (old(self).spec_peek() matches Some(Token::Punct(pq))
                && pq == Punct::Question) && (old(self).pos + 2 < old(self).tokens@.len() && (old(
                self,
            ).tokens@[old(self).pos + 2].token matches Token::Punct(pc2) && pc2 == Punct::Colon))
                ==> (old(self).spec_cur() matches Some(Token::Word(w0)) && r matches Some(l)
                && !l.rest && l.optional && l.id.sym@ == w0@ && final (self).pos == old(self).pos
                + 3),
            !old(self).cur_is_word() && !old(self).cur_is_punct(Punct::DotDotDot) ==> r is None,
    {
        let m = self.begin_speculation();
        let start = self.cur_pos();
        let rest = self.eat_punct(Punct::DotDotDot);
        let id = match self.parse_ident_name() {
            Ok(i) => i,
            Err(_) => {
                self.rollback(m);
                return None;
            },
        };
        let optional = self.eat_punct(Punct::Question);
        if self.eat_punct(Punct::Colon) {
            self.commit(m);
            let span = self.finish_span(start);
            Some(TupleLabel { span, id, optional, rest })
        } else {
            self.rollback(m);
            None
        }
    }

    /// One tuple element: optional label, then `...T`, `T?` or `T`.
    pub fn parse_ts_tuple_element_type(&mut self, depth: u32) -> (r: Result<
        TsTupleElement,
        Diagnostic,
    >)
        requires
            old(self).wf(),
        ensures
            parse_step(*old(self), *final (self)),
            r is Ok ==> old(self).pos < final (self).pos,
            r matches Ok(e) ==> wf_tuple_elem(e),
            depth >= 12 && old(self).cur_is_word() && (old(self).spec_peek() matches Some(
                Token::Punct(pc),
            ) && pc == Punct::Colon) && ty_atom_at(old(self).tokens@, old(self).pos + 2)
                && stops_type(
                old(self).tokens@,
                old(self).pos + 2 + ty_atom_len(old(self).tokens@, old(self).pos + 2),
            ) && !(old(self).pos + 2 + ty_atom_len(old(self).tokens@, old(self).pos + 2) < old(
                self,
            ).tokens@.len() && (old(self).tokens@[old(self).pos + 2 + ty_atom_len(
                old(self).tokens@,
                old(self).pos + 2,
            )].token matches Token::Punct(pz) && pz == Punct::Question)) ==> (old(
                self,
            ).spec_cur() matches Some(Token::Word(w0)) && r matches Ok(e) && (
            e.label matches Some(l) && !l.rest && !l.optional && l.id.sym@ == w0@)
                && ty_atom_node(old(self).tokens@, old(self).pos + 2, *e.ty) && final (self).pos
                == old(self).pos + 2 + ty_atom_len(old(self).tokens@, old(self).pos + 2)),
        decreases depth, 1int,
    {
        if depth == 0 {
            return Err(self.nesting_err());
        }
        let start = self.cur_pos();
        let label = self.try_parse_ts_tuple_element_name();
        if self.eat_punct(Punct::DotDotDot) {
            let type_ann = match self.parse_ts_type(depth - 1) {
                Ok(t) => t,
                Err(d) => {
                    return Err(d);
                },
            };
            let span = self.finish_span(start);
            return Ok(
                TsTupleElement {
                    span,
                    label,
                    ty: Box::new(TsType::TsRestType(TsRestType { span, type_ann })),
                },
            );
        }
        let ty = match self.parse_ts_type(depth - 1) {
            Ok(t) => t,
            Err(d) => {
                return Err(d);
            },
        };
        if self.eat_punct(Punct::Question) {
            let span = self.finish_span(start);
            return Ok(
                TsTupleElement {
                    span,
                    label,
                    ty: Box::new(TsType::TsOptionalType(TsOptionalType { span, type_ann: ty })),
                },
            );
        }
        let span = self.finish_span(start);
        Ok(TsTupleElement { span, label, ty })
    }
}

} // verus!
