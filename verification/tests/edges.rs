use ts_type_parser::{
    Kw, Parser, Punct, Span, Token, TokenAndSpan, TsThisTypeOrIdent, TsType, TsTypeElement,
    TsTypeQueryExpr, Word,
};

fn with_breaks(tokens: Vec<(Token, bool)>) -> Parser {
    let mut v: Vec<TokenAndSpan> = Vec::new();
    for (i, (token, had_line_break)) in tokens.into_iter().enumerate() {
        let lo = (i as u32) * 10;
        v.push(TokenAndSpan {
            token,
            span: Span::new(lo, lo + 5),
            had_line_break,
        });
    }
    Parser::new(v)
}

fn plain(tokens: Vec<Token>) -> Parser {
    with_breaks(tokens.into_iter().map(|t| (t, false)).collect())
}

fn id(s: &str) -> Token {
    Token::Word(Word::Other(s.to_string()))
}

fn reserved(k: Kw) -> Token {
    Token::Word(Word::Kw(k))
}

fn op(x: Punct) -> Token {
    Token::Punct(x)
}

#[test]
fn line_break_before_extends_stops_the_conditional() {
    // `A \n extends B ? C : D` leaves the `extends` to the caller.
    let mut p = with_breaks(vec![
        (id("A"), false),
        (reserved(Kw::Extends), true),
        (id("B"), false),
        (op(Punct::Question), false),
        (id("C"), false),
        (op(Punct::Colon), false),
        (id("D"), false),
    ]);
    let t = p.parse_type().unwrap();
    assert!(matches!(&*t, TsType::TsTypeRef(_)));
    assert_eq!(p.pos, 1);
}

#[test]
fn line_break_before_is_keeps_a_plain_this_type() {
    let mut p = with_breaks(vec![
        (reserved(Kw::This), false),
        (reserved(Kw::Is), true),
        (id("T"), false),
    ]);
    let t = p.parse_type().unwrap();
    assert!(matches!(&*t, TsType::TsThisType(_)));
    assert_eq!(p.pos, 1);
}

#[test]
fn asserts_this_predicate() {
    // `asserts this is T`
    let mut p = plain(vec![
        reserved(Kw::Asserts),
        reserved(Kw::This),
        reserved(Kw::Is),
        id("T"),
    ]);
    let t = p.parse_type().unwrap();
    match &*t {
        TsType::TsTypePredicate(pred) => {
            assert!(pred.asserts);
            assert!(matches!(
                pred.param_name,
                TsThisTypeOrIdent::TsThisType(_)
            ));
            assert!(pred.type_ann.is_some());
        }
        other => panic!("expected type predicate, got {:?}", other),
    }
}

#[test]
fn asserts_as_a_plain_reference() {
    // `asserts` alone is an ordinary type reference.
    let mut p = plain(vec![reserved(Kw::Asserts)]);
    let t = p.parse_type().unwrap();
    assert!(matches!(&*t, TsType::TsTypeRef(_)));
}

#[test]
fn typeof_import_query() {
    // `typeof import("m")`
    let mut p = plain(vec![
        reserved(Kw::Typeof),
        reserved(Kw::Import),
        op(Punct::LParen),
        Token::Str {
            value: "m".to_string(),
            raw: "\"m\"".to_string(),
        },
        op(Punct::RParen),
    ]);
    let t = p.parse_type().unwrap();
    match &*t {
        TsType::TsTypeQuery(q) => {
            assert!(matches!(&q.expr_name, TsTypeQueryExpr::Import(i) if i.arg.value == "m"));
        }
        other => panic!("expected type query, got {:?}", other),
    }
}

#[test]
fn generic_call_signature_member() {
    // `{ <T>(x: T): U }`
    let mut p = plain(vec![
        op(Punct::LBrace),
        op(Punct::Lt),
        id("T"),
        op(Punct::Gt),
        op(Punct::LParen),
        id("x"),
        op(Punct::Colon),
        id("T"),
        op(Punct::RParen),
        op(Punct::Colon),
        id("U"),
        op(Punct::RBrace),
    ]);
    let t = p.parse_type().unwrap();
    match &*t {
        TsType::TsTypeLit(l) => match &l.members[0] {
            TsTypeElement::TsCallSignatureDecl(s) => {
                assert_eq!(s.type_params.as_ref().unwrap().params.len(), 1);
                assert_eq!(s.params.len(), 1);
                assert!(s.type_ann.is_some());
            }
            other => panic!("expected call signature, got {:?}", other),
        },
        other => panic!("expected type literal, got {:?}", other),
    }
    assert!(p.diags.is_empty());
}

#[test]
fn readonly_operator_wraps_array() {
    // `readonly A[]`
    let mut p = plain(vec![
        reserved(Kw::Readonly),
        id("A"),
        op(Punct::LBracket),
        op(Punct::RBracket),
    ]);
    let t = p.parse_type().unwrap();
    match &*t {
        TsType::TsTypeOperator(o) => {
            assert_eq!(o.op, ts_type_parser::TsTypeOperatorOp::ReadOnly);
            assert!(matches!(&*o.type_ann, TsType::TsArrayType(_)));
        }
        other => panic!("expected type operator, got {:?}", other),
    }
}

#[test]
fn negative_bigint_literal_folds() {
    // `-1n`
    let mut p = plain(vec![op(Punct::Minus), Token::BigInt { raw: "1".to_string() }]);
    let t = p.parse_type().unwrap();
    match &*t {
        TsType::TsLitType(l) => match &l.lit {
            ts_type_parser::TsLit::BigInt(b) => {
                assert!(b.negative);
                assert_eq!(b.raw, "-1");
            }
            other => panic!("expected bigint literal, got {:?}", other),
        },
        other => panic!("expected literal type, got {:?}", other),
    }
}
