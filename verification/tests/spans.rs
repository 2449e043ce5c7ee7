//! The monotonic nesting of spans: every composite node's span contains the
//! spans of all of its children.  A recursive walk checks the whole tree for
//! a set of representative parses.

use ts_type_parser::{
    Kw, Parser, Punct, Span, Token, TokenAndSpan, TsEntityName, TsFnOrConstructorType, TsFnParam,
    TsLit, TsType, TsTypeElement, TsTypeQueryExpr, TsUnionOrIntersectionType, Word,
};

fn lex(tokens: Vec<Token>) -> Parser {
    let mut v: Vec<TokenAndSpan> = Vec::new();
    for (i, token) in tokens.into_iter().enumerate() {
        let lo = (i as u32) * 10;
        v.push(TokenAndSpan {
            token,
            span: Span::new(lo, lo + 5),
            had_line_break: false,
        });
    }
    Parser::new(v)
}

fn name(s: &str) -> Token {
    Token::Word(Word::Other(s.to_string()))
}

fn keyword(k: Kw) -> Token {
    Token::Word(Word::Kw(k))
}

fn sign(x: Punct) -> Token {
    Token::Punct(x)
}

fn contains(outer: Span, inner: Span) {
    assert!(
        outer.lo <= inner.lo && inner.hi <= outer.hi,
        "span {:?} does not contain {:?}",
        outer,
        inner
    );
}

fn walk_entity(parent: Span, e: &TsEntityName) {
    match e {
        TsEntityName::Ident(i) => contains(parent, i.span),
        TsEntityName::Qualified(q) => {
            contains(parent, q.span);
            walk_entity(q.span, &q.left);
            contains(q.span, q.right.span);
        }
    }
}

fn walk_params(parent: Span, params: &[TsFnParam]) {
    for p in params {
        match p {
            TsFnParam::Ident(b) => {
                contains(parent, b.span);
                if let Some(a) = &b.type_ann {
                    contains(b.span, a.span);
                    walk(a.span, &a.type_ann);
                }
            }
            TsFnParam::Rest(r) => {
                contains(parent, r.span);
                if let Some(a) = &r.arg.type_ann {
                    contains(r.span, a.span);
                    walk(a.span, &a.type_ann);
                }
            }
        }
    }
}

fn walk_member(parent: Span, m: &TsTypeElement) {
    match m {
        TsTypeElement::TsCallSignatureDecl(s) => {
            contains(parent, s.span);
            walk_params(s.span, &s.params);
            if let Some(a) = &s.type_ann {
                contains(s.span, a.span);
                walk(a.span, &a.type_ann);
            }
        }
        TsTypeElement::TsConstructSignatureDecl(s) => {
            contains(parent, s.span);
            walk_params(s.span, &s.params);
        }
        TsTypeElement::TsPropertySignature(s) => {
            contains(parent, s.span);
            if let Some(a) = &s.type_ann {
                contains(s.span, a.span);
                walk(a.span, &a.type_ann);
            }
        }
        TsTypeElement::TsGetterSignature(s) => contains(parent, s.span),
        TsTypeElement::TsSetterSignature(s) => contains(parent, s.span),
        TsTypeElement::TsMethodSignature(s) => {
            contains(parent, s.span);
            walk_params(s.span, &s.params);
        }
        TsTypeElement::TsIndexSignature(s) => {
            contains(parent, s.span);
            walk_params(s.span, &s.params);
        }
    }
}

fn walk(parent: Span, t: &TsType) {
    let own = match t {
        TsType::TsKeywordType(n) => n.span,
        TsType::TsThisType(n) => n.span,
        TsType::TsFnOrConstructorType(f) => match f {
            TsFnOrConstructorType::TsFnType(g) => {
                walk_params(g.span, &g.params);
                contains(g.span, g.type_ann.span);
                walk(g.type_ann.span, &g.type_ann.type_ann);
                g.span
            }
            TsFnOrConstructorType::TsConstructorType(g) => {
                walk_params(g.span, &g.params);
                contains(g.span, g.type_ann.span);
                g.span
            }
        },
        TsType::TsTypeRef(r) => {
            walk_entity(r.span, &r.name);
            if let Some(args) = &r.type_params {
                contains(r.span, args.span);
                for a in &args.params {
                    walk(args.span, a);
                }
            }
            r.span
        }
        TsType::TsTypeQuery(q) => {
            match &q.expr_name {
                TsTypeQueryExpr::TsEntityName(e) => walk_entity(q.span, e),
                TsTypeQueryExpr::Import(i) => contains(q.span, i.span),
            }
            q.span
        }
        TsType::TsTypeLit(l) => {
            for m in &l.members {
                walk_member(l.span, m);
            }
            l.span
        }
        TsType::TsArrayType(a) => {
            walk(a.span, &a.elem_type);
            a.span
        }
        TsType::TsTupleType(tt) => {
            for e in &tt.elem_types {
                contains(tt.span, e.span);
                walk(e.span, &e.ty);
                if let Some(l) = &e.label {
                    contains(e.span, l.span);
                }
            }
            tt.span
        }
        TsType::TsOptionalType(o) => {
            walk(o.span, &o.type_ann);
            o.span
        }
        TsType::TsRestType(r) => {
            walk(r.span, &r.type_ann);
            r.span
        }
        TsType::TsUnionOrIntersectionType(u) => match u {
            TsUnionOrIntersectionType::TsUnionType(v) => {
                for c in &v.types {
                    walk(v.span, c);
                }
                v.span
            }
            TsUnionOrIntersectionType::TsIntersectionType(v) => {
                for c in &v.types {
                    walk(v.span, c);
                }
                v.span
            }
        },
        TsType::TsConditionalType(c) => {
            walk(c.span, &c.check_type);
            walk(c.span, &c.extends_type);
            walk(c.span, &c.true_type);
            walk(c.span, &c.false_type);
            c.span
        }
        TsType::TsInferType(i) => {
            contains(i.span, i.type_param.span);
            if let Some(con) = &i.type_param.constraint {
                walk(i.span, con);
            }
            i.span
        }
        TsType::TsParenthesizedType(pn) => {
            walk(pn.span, &pn.type_ann);
            pn.span
        }
        TsType::TsTypeOperator(o) => {
            walk(o.span, &o.type_ann);
            o.span
        }
        TsType::TsIndexedAccessType(ix) => {
            walk(ix.span, &ix.obj_type);
            walk(ix.span, &ix.index_type);
            ix.span
        }
        TsType::TsMappedType(m) => {
            contains(m.span, m.type_param.span);
            if let Some(n) = &m.name_type {
                walk(m.span, n);
            }
            if let Some(v) = &m.type_ann {
                walk(m.span, v);
            }
            m.span
        }
        TsType::TsLitType(l) => {
            if let TsLit::Tpl(tpl) = &l.lit {
                for ty in &tpl.types {
                    walk(tpl.span, ty);
                }
            }
            l.span
        }
        TsType::TsTypePredicate(pred) => {
            if let Some(a) = &pred.type_ann {
                contains(pred.span, a.span);
                walk(a.span, &a.type_ann);
            }
            pred.span
        }
        TsType::TsImportType(i) => {
            contains(i.span, i.arg.span);
            i.span
        }
    };
    contains(parent, own);
}

fn assert_nested(tokens: Vec<Token>) {
    let mut p = lex(tokens);
    let whole = Span::new(0, u32::MAX);
    let t = p.parse_type().unwrap();
    walk(whole, &t);
}

#[test]
fn spans_nest_in_conditional_union_chain() {
    assert_nested(vec![
        name("A"),
        sign(Punct::Pipe),
        name("B"),
        sign(Punct::Amp),
        name("C"),
        keyword(Kw::Extends),
        name("D"),
        sign(Punct::Question),
        name("E"),
        sign(Punct::Colon),
        name("F"),
    ]);
}

#[test]
fn spans_nest_in_tuple_and_literal_members() {
    assert_nested(vec![
        sign(Punct::LBracket),
        name("a"),
        sign(Punct::Colon),
        sign(Punct::LBrace),
        name("x"),
        sign(Punct::Question),
        sign(Punct::Colon),
        keyword(Kw::NumberTy),
        sign(Punct::RBrace),
        sign(Punct::Comma),
        sign(Punct::DotDotDot),
        name("r"),
        sign(Punct::Colon),
        name("T"),
        sign(Punct::LBracket),
        sign(Punct::RBracket),
        sign(Punct::RBracket),
    ]);
}

#[test]
fn spans_nest_in_function_and_reference_types() {
    assert_nested(vec![
        sign(Punct::LParen),
        name("x"),
        sign(Punct::Colon),
        name("A"),
        sign(Punct::Dot),
        name("B"),
        sign(Punct::Lt),
        name("C"),
        sign(Punct::Gt),
        sign(Punct::RParen),
        sign(Punct::Arrow),
        keyword(Kw::Keyof),
        name("D"),
    ]);
}

#[test]
fn spans_nest_in_mapped_and_import_types() {
    assert_nested(vec![
        sign(Punct::LBrace),
        sign(Punct::Plus),
        keyword(Kw::Readonly),
        sign(Punct::LBracket),
        name("K"),
        keyword(Kw::In),
        keyword(Kw::Typeof),
        name("T"),
        sign(Punct::RBracket),
        sign(Punct::Colon),
        keyword(Kw::Import),
        sign(Punct::LParen),
        Token::Str {
            value: "m".to_string(),
            raw: "\"m\"".to_string(),
        },
        sign(Punct::RParen),
        sign(Punct::RBrace),
    ]);
}
