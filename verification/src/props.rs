use crate::ast::{
    spec_kw_type_kind, TruePlusMinus, TsEntityName, TsLit, TsMappedType, TsType, TsTypeAliasDecl,
    TsUnionOrIntersectionType,
};
use crate::diag::Diagnostic;
use crate::span::Span;
use crate::token::{spec_is_keyword_type_name, Kw, Punct, Token, TokenAndSpan, Word, WordV};
use vstd::prelude::*;

verus! {

/// The buffer ends in an empty type-argument list: `<` `>` and nothing
/// after it.
pub open spec fn empty_type_args_at_last(toks: Seq<TokenAndSpan>, pos: int) -> bool {
    &&& 0 <= pos
    &&& pos + 2 == toks.len()
    &&& (toks[pos].token matches Token::Punct(p) && p == Punct::Lt)
    &&& (toks[pos + 1].token matches Token::Punct(q) && q == Punct::Gt)
}

/// No level of the precedence chain continues a finished type at this
/// token: it is not `.`, `<`, `[`, `|`, `&` or the keyword `extends` (the
/// end of the buffer stops everything).
pub open spec fn stops_type(toks: Seq<TokenAndSpan>, pos: int) -> bool {
    pos >= toks.len() || (!(toks[pos].token matches Token::Punct(p) && (p == Punct::Dot || p
        == Punct::Lt || p == Punct::LBracket || p == Punct::Pipe || p == Punct::Amp)) && !(
    toks[pos].token matches Token::Word(w) && w matches Word::Kw(k) && k == Kw::Extends))
}

/// A `-` token immediately followed by a numeric literal stands at the
/// cursor.
pub open spec fn neg_num_at(toks: Seq<TokenAndSpan>, pos: int) -> bool {
    &&& 0 <= pos
    &&& pos + 1 < toks.len()
    &&& (toks[pos].token matches Token::Punct(p) && p == Punct::Minus)
    &&& toks[pos + 1].token is Num
}

/// On such an input the leading minus is folded into the literal itself:
/// one literal-number node whose value is negated and whose raw text is the
/// literal's, re-prefixed with `-` — never a unary-minus wrapper.
pub open spec fn neg_num_fold_result(
    toks: Seq<TokenAndSpan>,
    pos: int,
    r: Result<Box<TsType>, Diagnostic>,
    post_pos: int,
) -> bool {
    &&& r is Ok
    &&& post_pos == pos + 2
    &&& ((*r->Ok_0) matches TsType::TsLitType(l) && (l.lit matches TsLit::Number(n) && (
    toks[pos + 1].token matches Token::Num { value, raw } && n.value == -value && n.raw@ == seq![
        '-',
    ] + raw@ && n.span == toks[pos + 1].span)) && l.span == (Span {
        lo: toks[pos].span.lo,
        hi: toks[pos + 1].span.hi,
    }))
}

/// A single-node type at the cursor: a built-in keyword-type name, a plain
/// (unclassified) name, or a `-`-prefixed numeric literal.
pub open spec fn ty_atom_at(toks: Seq<TokenAndSpan>, pos: int) -> bool {
    &&& 0 <= pos < toks.len()
    &&& {
        ||| (toks[pos].token matches Token::Word(w) && w matches Word::Kw(k)
            && spec_is_keyword_type_name(k))
        ||| (toks[pos].token matches Token::Word(w) && w is Other)
        ||| neg_num_at(toks, pos)
    }
}

/// How many tokens the atom occupies.
pub open spec fn ty_atom_len(toks: Seq<TokenAndSpan>, pos: int) -> int {
    if neg_num_at(toks, pos) {
        2
    } else {
        1
    }
}

/// The exact node such an atom denotes: the keyword-type node, a bare type
/// reference to the name, or the folded negative literal.
pub open spec fn ty_atom_node(toks: Seq<TokenAndSpan>, pos: int, t: TsType) -> bool {
    match toks[pos].token {
        Token::Word(Word::Kw(k)) => t matches TsType::TsKeywordType(n) && n.span
            == toks[pos].span && n.kind == spec_kw_type_kind(k),
        Token::Word(Word::Other(s)) => t matches TsType::TsTypeRef(rf) && rf.span
            == toks[pos].span && rf.type_params is None && (rf.name
            matches TsEntityName::Ident(i) && i.span == toks[pos].span && i.sym@ == WordV::Other(
            s@,
        )),
        _ => {
        t matches TsType::TsLitType(l) && (l.lit matches TsLit::Number(n) && (toks[pos
            + 1].token matches Token::Num { value, raw } && n.value == -value && n.raw@ == seq![
            '-',
        ] + raw@ && n.span == toks[pos + 1].span)) && l.span == (Span {
            lo: toks[pos].span.lo,
            hi: toks[pos + 1].span.hi,
        })
        },
    }
}

/// `Name = <atom> ;`: the tail of a type alias declaration whose aliased
/// type is a single-node type, the keyword itself already consumed.
pub open spec fn alias_tail_at(toks: Seq<TokenAndSpan>, pos: int) -> bool {
    &&& 0 <= pos < toks.len()
    &&& (toks[pos].token matches Token::Word(w) && w is Other)
    &&& pos + 1 < toks.len()
    &&& (toks[pos + 1].token matches Token::Punct(p) && p == Punct::Assign)
    &&& ty_atom_at(toks, pos + 2)
    &&& pos + 2 + ty_atom_len(toks, pos + 2) < toks.len()
    &&& (toks[pos + 2 + ty_atom_len(toks, pos + 2)].token matches Token::Punct(q) && q
        == Punct::Semi)
}

/// The exact alias such a tail denotes: the name and the single-node type,
/// no type parameters, not ambient, with the `;` consumed.
pub open spec fn alias_tail_result(
    toks: Seq<TokenAndSpan>,
    pos: int,
    a: TsTypeAliasDecl,
    post_pos: int,
) -> bool {
    &&& post_pos == pos + 3 + ty_atom_len(toks, pos + 2)
    &&& !a.declare
    &&& (toks[pos].token matches Token::Word(w) && a.id.sym@ == w@)
    &&& a.type_params is None
    &&& ty_atom_node(toks, pos + 2, *a.type_ann)
}

/// `[ Name in <atom> ] <opt-mods> : <atom> }`: the binder-and-value tail of
/// a mapped type whose constraint and value are single-node types, starting
/// at the `[`.  The optionality modifier group may be empty, `+?`/`-?` or a
/// bare `?`.
pub open spec fn mapped_opt_mods_len(toks: Seq<TokenAndSpan>, c: int) -> int {
    if c < toks.len() && (toks[c].token matches Token::Punct(p) && (p == Punct::Plus || p
        == Punct::Minus)) {
        2
    } else if c < toks.len() && (toks[c].token matches Token::Punct(p) && p == Punct::Question) {
        1
    } else {
        0
    }
}

pub open spec fn mapped_opt_mods_value(toks: Seq<TokenAndSpan>, c: int) -> Option<TruePlusMinus> {
    if c < toks.len() && (toks[c].token matches Token::Punct(p) && p == Punct::Plus) {
        Some(TruePlusMinus::Plus)
    } else if c < toks.len() && (toks[c].token matches Token::Punct(p) && p == Punct::Minus) {
        Some(TruePlusMinus::Minus)
    } else if c < toks.len() && (toks[c].token matches Token::Punct(p) && p == Punct::Question) {
        Some(TruePlusMinus::True)
    } else {
        None
    }
}

pub open spec fn mapped_tail_at(toks: Seq<TokenAndSpan>, b: int) -> bool {
    let a1 = ty_atom_len(toks, b + 3);
    let c = b + 4 + a1;
    let m = mapped_opt_mods_len(toks, c);
    &&& 0 <= b
    &&& b + 3 < toks.len()
    &&& (toks[b].token matches Token::Punct(p) && p == Punct::LBracket)
    &&& (toks[b + 1].token matches Token::Word(w) && w is Other)
    &&& (toks[b + 2].token matches Token::Word(w) && w == Word::Kw(Kw::In))
    &&& ty_atom_at(toks, b + 3)
    &&& b + 3 + a1 < toks.len()
    &&& (toks[b + 3 + a1].token matches Token::Punct(p) && p == Punct::RBracket)
    &&& (mapped_opt_mods_len(toks, c) == 2 ==> c + 1 < toks.len() && (toks[c
        + 1].token matches Token::Punct(p) && p == Punct::Question))
    &&& c + m < toks.len()
    &&& (toks[c + m].token matches Token::Punct(p) && p == Punct::Colon)
    &&& ty_atom_at(toks, c + m + 1)
    &&& c + m + 1 + ty_atom_len(toks, c + m + 1) < toks.len()
    &&& (toks[c + m + 1 + ty_atom_len(toks, c + m + 1)].token matches Token::Punct(p) && p
        == Punct::RBrace)
}

/// The binder name, constraint, optionality and value such a tail denotes,
/// with the closing `}` consumed.
pub open spec fn mapped_tail_result(
    toks: Seq<TokenAndSpan>,
    b: int,
    t: TsMappedType,
    post_pos: int,
) -> bool {
    let a1 = ty_atom_len(toks, b + 3);
    let c = b + 4 + a1;
    let m = mapped_opt_mods_len(toks, c);
    &&& (toks[b + 1].token matches Token::Word(w) && t.type_param.name.sym@ == w@)
    &&& (t.type_param.constraint matches Some(con) && ty_atom_node(toks, b + 3, *con))
    &&& t.type_param.default is None
    &&& t.name_type is None
    &&& t.optional == mapped_opt_mods_value(toks, c)
    &&& (t.type_ann matches Some(v) && ty_atom_node(toks, c + m + 1, *v))
    &&& post_pos == c + m + 2 + ty_atom_len(toks, c + m + 1)
}

/// `( ) => <atom>`: the simplest function type, an empty parameter list
/// with a single-node return type.
pub open spec fn nullary_fn_ty_at(toks: Seq<TokenAndSpan>, pos: int) -> bool {
    &&& 0 <= pos
    &&& (toks[pos].token matches Token::Punct(p) && p == Punct::LParen)
    &&& pos + 2 < toks.len()
    &&& (toks[pos + 1].token matches Token::Punct(p) && p == Punct::RParen)
    &&& (toks[pos + 2].token matches Token::Punct(p) && p == Punct::Arrow)
    &&& ty_atom_at(toks, pos + 3)
    &&& stops_type(toks, pos + 3 + ty_atom_len(toks, pos + 3))
    &&& !(pos + 4 < toks.len() && (toks[pos + 4].token matches Token::Word(w) && w == Word::Kw(
        Kw::Is,
    )))
}

/// The type such a header denotes: a function type with no parameters and
/// the atom as its return annotation.
pub open spec fn nullary_fn_ty_result(
    toks: Seq<TokenAndSpan>,
    pos: int,
    r: Result<Box<TsType>, Diagnostic>,
    post_pos: int,
) -> bool {
    &&& r is Ok
    &&& post_pos == pos + 3 + ty_atom_len(toks, pos + 3)
    &&& ((*r->Ok_0) matches TsType::TsFnOrConstructorType(f) && (
    f matches crate::ast::TsFnOrConstructorType::TsFnType(g) && g.type_params is None
        && g.params.len() == 0 && ty_atom_node(toks, pos + 3, *g.type_ann.type_ann)))
}

/// As `stops_type`, for the levels below the conditional: those also stop
/// before `extends`, leaving it to the conditional level above them.
pub open spec fn stops_non_cond(toks: Seq<TokenAndSpan>, pos: int) -> bool {
    ||| stops_type(toks, pos)
    ||| (pos < toks.len() && (toks[pos].token matches Token::Word(w) && w == Word::Kw(
        Kw::Extends,
    )))
}

/// As `stops_non_cond`, below the union level: `|` stops these levels too.
pub open spec fn stops_below_union(toks: Seq<TokenAndSpan>, pos: int) -> bool {
    ||| stops_non_cond(toks, pos)
    ||| (pos < toks.len() && (toks[pos].token matches Token::Punct(p) && p == Punct::Pipe))
}

/// As `stops_below_union`, below the intersection level: `&` stops here too.
pub open spec fn stops_below_intersection(toks: Seq<TokenAndSpan>, pos: int) -> bool {
    ||| stops_below_union(toks, pos)
    ||| (pos < toks.len() && (toks[pos].token matches Token::Punct(p) && p == Punct::Amp))
}

/// `<atom> & <atom>`: an intersection of exactly two single-node types.
pub open spec fn amp_pair_at(toks: Seq<TokenAndSpan>, pos: int) -> bool {
    let p0 = pos + ty_atom_len(toks, pos);
    &&& ty_atom_at(toks, pos)
    &&& p0 < toks.len()
    &&& (toks[p0].token matches Token::Punct(p) && p == Punct::Amp)
    &&& ty_atom_at(toks, p0 + 1)
    &&& stops_below_union(toks, p0 + 1 + ty_atom_len(toks, p0 + 1))
}

pub open spec fn amp_pair_end(toks: Seq<TokenAndSpan>, pos: int) -> int {
    pos + ty_atom_len(toks, pos) + 1 + ty_atom_len(toks, pos + ty_atom_len(toks, pos) + 1)
}

/// The node an `<atom> & <atom>` input denotes: a flat 2-ary intersection
/// of the two atoms.
pub open spec fn amp_pair_node(toks: Seq<TokenAndSpan>, pos: int, t: TsType) -> bool {
    t matches TsType::TsUnionOrIntersectionType(u) && (
    u matches TsUnionOrIntersectionType::TsIntersectionType(v) && v.types.len() == 2
        && ty_atom_node(toks, pos, *v.types@[0]) && ty_atom_node(
        toks,
        pos + ty_atom_len(toks, pos) + 1,
        *v.types@[1],
    ))
}

/// `<atom> | <constituent>` where the constituent is a single atom or an
/// `<atom> & <atom>` pair: a flat 2-ary union whose second constituent, for
/// the pair form, is the 2-ary intersection — `&` binds tighter than `|`.
pub open spec fn pipe_pair_at(toks: Seq<TokenAndSpan>, pos: int) -> bool {
    let p0 = pos + ty_atom_len(toks, pos);
    &&& ty_atom_at(toks, pos)
    &&& p0 < toks.len()
    &&& (toks[p0].token matches Token::Punct(p) && p == Punct::Pipe)
    &&& {
        ||| (ty_atom_at(toks, p0 + 1) && stops_non_cond(
            toks,
            p0 + 1 + ty_atom_len(toks, p0 + 1),
        ) && !amp_pair_at(toks, p0 + 1))
        ||| (amp_pair_at(toks, p0 + 1) && stops_non_cond(toks, amp_pair_end(toks, p0 + 1)))
    }
}

pub open spec fn pipe_pair_end(toks: Seq<TokenAndSpan>, pos: int) -> int {
    let p0 = pos + ty_atom_len(toks, pos);
    if amp_pair_at(toks, p0 + 1) {
        amp_pair_end(toks, p0 + 1)
    } else {
        p0 + 1 + ty_atom_len(toks, p0 + 1)
    }
}

pub open spec fn pipe_pair_node(toks: Seq<TokenAndSpan>, pos: int, t: TsType) -> bool {
    let p0 = pos + ty_atom_len(toks, pos);
    t matches TsType::TsUnionOrIntersectionType(u) && (
    u matches TsUnionOrIntersectionType::TsUnionType(v) && v.types.len() == 2 && ty_atom_node(
        toks,
        pos,
        *v.types@[0],
    ) && (if amp_pair_at(toks, p0 + 1) {
        amp_pair_node(toks, p0 + 1, *v.types@[1])
    } else {
        ty_atom_node(toks, p0 + 1, *v.types@[1])
    }))
}

/// `<atom> extends <atom> ? <atom> : <atom>`: a conditional type whose four
/// constituents are all single-node types, with no line break before
/// `extends`.
pub open spec fn cond_atoms_at(toks: Seq<TokenAndSpan>, pos: int) -> bool {
    let p1 = pos + ty_atom_len(toks, pos);
    let p2 = p1 + 1 + ty_atom_len(toks, p1 + 1);
    let p3 = p2 + 1 + ty_atom_len(toks, p2 + 1);
    &&& ty_atom_at(toks, pos)
    &&& p1 < toks.len()
    &&& (toks[p1].token matches Token::Word(w) && w == Word::Kw(Kw::Extends))
    &&& !toks[p1].had_line_break
    &&& ty_atom_at(toks, p1 + 1)
    &&& p2 < toks.len()
    &&& (toks[p2].token matches Token::Punct(p) && p == Punct::Question)
    &&& ty_atom_at(toks, p2 + 1)
    &&& p3 < toks.len()
    &&& (toks[p3].token matches Token::Punct(p) && p == Punct::Colon)
    &&& ty_atom_at(toks, p3 + 1)
    &&& stops_type(toks, p3 + 1 + ty_atom_len(toks, p3 + 1))
}

/// The exact conditional node such an input denotes.
pub open spec fn cond_atoms_result(
    toks: Seq<TokenAndSpan>,
    pos: int,
    r: Result<Box<TsType>, Diagnostic>,
    post_pos: int,
) -> bool {
    let p1 = pos + ty_atom_len(toks, pos);
    let p2 = p1 + 1 + ty_atom_len(toks, p1 + 1);
    let p3 = p2 + 1 + ty_atom_len(toks, p2 + 1);
    &&& r is Ok
    &&& post_pos == p3 + 1 + ty_atom_len(toks, p3 + 1)
    &&& ((*r->Ok_0) matches TsType::TsConditionalType(c) && ty_atom_node(toks, pos, *c.check_type)
        && ty_atom_node(toks, p1 + 1, *c.extends_type) && ty_atom_node(toks, p2 + 1, *c.true_type)
        && ty_atom_node(toks, p3 + 1, *c.false_type))
}

/// The success-owed form: on an atom whose successor stops the chain, the
/// parse returns exactly the atom's node and consumes exactly the atom.
pub open spec fn ty_atom_ok_result(
    toks: Seq<TokenAndSpan>,
    pos: int,
    r: Result<Box<TsType>, Diagnostic>,
    post_pos: int,
) -> bool {
    &&& r is Ok
    &&& post_pos == pos + ty_atom_len(toks, pos)
    &&& ty_atom_node(toks, pos, *r->Ok_0)
}

} // verus!
