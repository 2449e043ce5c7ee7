use ts_type_parser::{
    Decl, Expr, Ident, Kw, Lit, Parser, Punct, Span, SyntaxError, Token, TokenAndSpan,
    TruePlusMinus, TsEntityName, TsFnOrConstructorType, TsKeywordTypeKind, TsLit, TsType,
    TsTypeQueryExpr, TsUnionOrIntersectionType, Word, MAX_TYPE_NESTING,
};

fn build(tokens: Vec<(Token, bool)>) -> Parser {
    let mut v: Vec<TokenAndSpan> = Vec::new();
    for (i, (token, had_line_break)) in tokens.into_iter().enumerate() {
        let lo = (i as u32) * 10;
        v.push(TokenAndSpan {
            token,
            span: Span::new(lo, lo + 5),
            had_line_break,
        });
    }
    Parser::new(v)
}

fn parser_for(tokens: Vec<Token>) -> Parser {
    build(tokens.into_iter().map(|t| (t, false)).collect())
}

fn w(s: &str) -> Token {
    Token::Word(Word::Other(s.to_string()))
}

fn kw(k: Kw) -> Token {
    Token::Word(Word::Kw(k))
}

fn pu(x: Punct) -> Token {
    Token::Punct(x)
}

fn num(value: i64, raw: &str) -> Token {
    Token::Num {
        value,
        raw: raw.to_string(),
    }
}

fn ident_named(i: &Ident, name: &str) -> bool {
    matches!(&i.sym, Word::Other(s) if s == name)
}

fn ref_named(t: &TsType, name: &str) -> bool {
    match t {
        TsType::TsTypeRef(r) => {
            r.type_params.is_none()
                && matches!(&r.name, TsEntityName::Ident(i) if ident_named(i, name))
        }
        _ => false,
    }
}

#[test]
fn keyword_type_single_token() {
    let mut p = parser_for(vec![kw(Kw::Void)]);
    let t = p.parse_type().unwrap();
    match &*t {
        TsType::TsKeywordType(k) => {
            assert_eq!(k.kind, TsKeywordTypeKind::Void);
            assert_eq!(k.span, Span::new(0, 5));
        }
        other => panic!("expected keyword type, got {:?}", other),
    }
    assert_eq!(p.pos, 1);
    assert!(p.diags.is_empty());
}

#[test]
fn keyword_name_before_dot_is_reference() {
    // `void.Foo` resolves the keyword name as an entity-name qualifier.
    let mut p = parser_for(vec![kw(Kw::Void), pu(Punct::Dot), w("Foo")]);
    let t = p.parse_type().unwrap();
    match &*t {
        TsType::TsTypeRef(r) => match &r.name {
            TsEntityName::Qualified(q) => {
                assert!(matches!(&q.left, TsEntityName::Ident(i) if matches!(i.sym, Word::Kw(Kw::Void))));
                assert!(ident_named(&q.right, "Foo"));
            }
            other => panic!("expected qualified name, got {:?}", other),
        },
        other => panic!("expected type reference, got {:?}", other),
    }
    // The `void`-as-name defect is recorded, parsing continues.
    assert_eq!(p.diags.len(), 1);
    assert_eq!(p.diags[0].error, SyntaxError::UnexpectedDotAfterVoid);
}

#[test]
fn union_binds_looser_than_intersection() {
    // `A | B & C` is a 2-ary union whose second constituent is a 2-ary
    // intersection of B and C.
    let mut p = parser_for(vec![w("A"), pu(Punct::Pipe), w("B"), pu(Punct::Amp), w("C")]);
    let t = p.parse_type().unwrap();
    match &*t {
        TsType::TsUnionOrIntersectionType(TsUnionOrIntersectionType::TsUnionType(u)) => {
            assert_eq!(u.types.len(), 2);
            assert!(ref_named(&u.types[0], "A"));
            match &*u.types[1] {
                TsType::TsUnionOrIntersectionType(
                    TsUnionOrIntersectionType::TsIntersectionType(i),
                ) => {
                    assert_eq!(i.types.len(), 2);
                    assert!(ref_named(&i.types[0], "B"));
                    assert!(ref_named(&i.types[1], "C"));
                }
                other => panic!("expected intersection, got {:?}", other),
            }
        }
        other => panic!("expected union, got {:?}", other),
    }
    assert!(p.diags.is_empty());
}

#[test]
fn single_constituent_stays_bare() {
    let mut p = parser_for(vec![w("A")]);
    let t = p.parse_type().unwrap();
    assert!(ref_named(&t, "A"));
}

#[test]
fn leading_line_operator_is_allowed() {
    let mut p = parser_for(vec![pu(Punct::Pipe), w("A"), pu(Punct::Pipe), w("B")]);
    let t = p.parse_type().unwrap();
    match &*t {
        TsType::TsUnionOrIntersectionType(TsUnionOrIntersectionType::TsUnionType(u)) => {
            assert_eq!(u.types.len(), 2);
        }
        other => panic!("expected union, got {:?}", other),
    }
}

#[test]
fn nested_conditional_in_true_branch() {
    // `A extends B ? C extends D ? E : F : G`
    let mut p = parser_for(vec![
        w("A"),
        kw(Kw::Extends),
        w("B"),
        pu(Punct::Question),
        w("C"),
        kw(Kw::Extends),
        w("D"),
        pu(Punct::Question),
        w("E"),
        pu(Punct::Colon),
        w("F"),
        pu(Punct::Colon),
        w("G"),
    ]);
    let t = p.parse_type().unwrap();
    match &*t {
        TsType::TsConditionalType(c) => {
            assert!(ref_named(&c.check_type, "A"));
            assert!(ref_named(&c.extends_type, "B"));
            match &*c.true_type {
                TsType::TsConditionalType(inner) => {
                    assert!(ref_named(&inner.check_type, "C"));
                    assert!(ref_named(&inner.extends_type, "D"));
                    assert!(ref_named(&inner.true_type, "E"));
                    assert!(ref_named(&inner.false_type, "F"));
                }
                other => panic!("expected nested conditional, got {:?}", other),
            }
            assert!(ref_named(&c.false_type, "G"));
        }
        other => panic!("expected conditional, got {:?}", other),
    }
    assert!(p.diags.is_empty());
}

#[test]
fn tuple_required_after_optional_fails() {
    // `[a: string, b?: number, c: boolean]`
    let mut p = parser_for(vec![
        pu(Punct::LBracket),
        w("a"),
        pu(Punct::Colon),
        kw(Kw::StringTy),
        pu(Punct::Comma),
        w("b"),
        pu(Punct::Question),
        pu(Punct::Colon),
        kw(Kw::NumberTy),
        pu(Punct::Comma),
        w("c"),
        pu(Punct::Colon),
        kw(Kw::Boolean),
        pu(Punct::RBracket),
    ]);
    let r = p.parse_type();
    match r {
        Err(d) => assert_eq!(d.error, SyntaxError::RequiredAfterOptional),
        Ok(t) => panic!("expected a hard failure, got {:?}", t),
    }
}

#[test]
fn tuple_rest_after_optional_is_allowed() {
    // `[a: string, ...rest: number[]]`
    let mut p = parser_for(vec![
        pu(Punct::LBracket),
        w("a"),
        pu(Punct::Colon),
        kw(Kw::StringTy),
        pu(Punct::Comma),
        pu(Punct::DotDotDot),
        w("rest"),
        pu(Punct::Colon),
        kw(Kw::NumberTy),
        pu(Punct::LBracket),
        pu(Punct::RBracket),
        pu(Punct::RBracket),
    ]);
    let t = p.parse_type().unwrap();
    match &*t {
        TsType::TsTupleType(tt) => {
            assert_eq!(tt.elem_types.len(), 2);
            let second = &tt.elem_types[1];
            let label = second.label.as_ref().expect("second element is labeled");
            assert!(label.rest);
            assert!(ident_named(&label.id, "rest"));
            match &*second.ty {
                TsType::TsArrayType(a) => match &*a.elem_type {
                    TsType::TsKeywordType(k) => {
                        assert_eq!(k.kind, TsKeywordTypeKind::Number)
                    }
                    other => panic!("expected number keyword, got {:?}", other),
                },
                other => panic!("expected array element type, got {:?}", other),
            }
        }
        other => panic!("expected tuple, got {:?}", other),
    }
    assert!(p.diags.is_empty());
}

#[test]
fn mapped_type_plus_readonly() {
    // `{ +readonly [K in T]: V }`
    let mut p = parser_for(vec![
        pu(Punct::LBrace),
        pu(Punct::Plus),
        kw(Kw::Readonly),
        pu(Punct::LBracket),
        w("K"),
        kw(Kw::In),
        w("T"),
        pu(Punct::RBracket),
        pu(Punct::Colon),
        w("V"),
        pu(Punct::RBrace),
    ]);
    let t = p.parse_type().unwrap();
    match &*t {
        TsType::TsMappedType(m) => {
            assert_eq!(m.readonly, Some(TruePlusMinus::Plus));
            assert_eq!(m.optional, None);
            assert!(ident_named(&m.type_param.name, "K"));
            assert!(ref_named(m.type_param.constraint.as_ref().unwrap(), "T"));
            assert!(ref_named(m.type_ann.as_ref().unwrap(), "V"));
        }
        other => panic!("expected mapped type, got {:?}", other),
    }
}

#[test]
fn mapped_type_minus_readonly_optional() {
    // `{ -readonly [K in T]?: V }`
    let mut p = parser_for(vec![
        pu(Punct::LBrace),
        pu(Punct::Minus),
        kw(Kw::Readonly),
        pu(Punct::LBracket),
        w("K"),
        kw(Kw::In),
        w("T"),
        pu(Punct::RBracket),
        pu(Punct::Question),
        pu(Punct::Colon),
        w("V"),
        pu(Punct::RBrace),
    ]);
    let t = p.parse_type().unwrap();
    match &*t {
        TsType::TsMappedType(m) => {
            assert_eq!(m.readonly, Some(TruePlusMinus::Minus));
            assert_eq!(m.optional, Some(TruePlusMinus::True));
        }
        other => panic!("expected mapped type, got {:?}", other),
    }
}

#[test]
fn mapped_type_bare_readonly_minus_optional() {
    // `{ readonly [K in T]-?: V }`
    let mut p = parser_for(vec![
        pu(Punct::LBrace),
        kw(Kw::Readonly),
        pu(Punct::LBracket),
        w("K"),
        kw(Kw::In),
        w("T"),
        pu(Punct::RBracket),
        pu(Punct::Minus),
        pu(Punct::Question),
        pu(Punct::Colon),
        w("V"),
        pu(Punct::RBrace),
    ]);
    let t = p.parse_type().unwrap();
    match &*t {
        TsType::TsMappedType(m) => {
            assert_eq!(m.readonly, Some(TruePlusMinus::True));
            assert_eq!(m.optional, Some(TruePlusMinus::Minus));
        }
        other => panic!("expected mapped type, got {:?}", other),
    }
}

#[test]
fn mapped_type_as_clause() {
    // `{ [K in T as U]: V }`
    let mut p = parser_for(vec![
        pu(Punct::LBrace),
        pu(Punct::LBracket),
        w("K"),
        kw(Kw::In),
        w("T"),
        kw(Kw::As),
        w("U"),
        pu(Punct::RBracket),
        pu(Punct::Colon),
        w("V"),
        pu(Punct::RBrace),
    ]);
    let t = p.parse_type().unwrap();
    match &*t {
        TsType::TsMappedType(m) => {
            assert_eq!(m.readonly, None);
            assert!(ref_named(m.name_type.as_ref().unwrap(), "U"));
        }
        other => panic!("expected mapped type, got {:?}", other),
    }
}

#[test]
fn array_and_indexed_access() {
    // `A[][B]`
    let mut p = parser_for(vec![
        w("A"),
        pu(Punct::LBracket),
        pu(Punct::RBracket),
        pu(Punct::LBracket),
        w("B"),
        pu(Punct::RBracket),
    ]);
    let t = p.parse_type().unwrap();
    match &*t {
        TsType::TsIndexedAccessType(ix) => {
            assert!(!ix.readonly);
            assert!(matches!(&*ix.obj_type, TsType::TsArrayType(_)));
            assert!(ref_named(&ix.index_type, "B"));
        }
        other => panic!("expected indexed access, got {:?}", other),
    }
}

#[test]
fn keyof_binds_over_array_suffix() {
    // `keyof T[]` wraps the array type.
    let mut p = parser_for(vec![
        kw(Kw::Keyof),
        w("T"),
        pu(Punct::LBracket),
        pu(Punct::RBracket),
    ]);
    let t = p.parse_type().unwrap();
    match &*t {
        TsType::TsTypeOperator(o) => {
            assert_eq!(o.op, ts_type_parser::TsTypeOperatorOp::KeyOf);
            assert!(matches!(&*o.type_ann, TsType::TsArrayType(_)));
        }
        other => panic!("expected type operator, got {:?}", other),
    }
}

#[test]
fn infer_without_constraint_leaves_question_to_conditional() {
    // `A extends infer U ? U : B`
    let mut p = parser_for(vec![
        w("A"),
        kw(Kw::Extends),
        kw(Kw::Infer),
        w("U"),
        pu(Punct::Question),
        w("U"),
        pu(Punct::Colon),
        w("B"),
    ]);
    let t = p.parse_type().unwrap();
    match &*t {
        TsType::TsConditionalType(c) => match &*c.extends_type {
            TsType::TsInferType(i) => {
                assert!(ident_named(&i.type_param.name, "U"));
                assert!(i.type_param.constraint.is_none());
            }
            other => panic!("expected infer, got {:?}", other),
        },
        other => panic!("expected conditional, got {:?}", other),
    }
    assert!(p.diags.is_empty());
}

#[test]
fn infer_with_constraint_inside_extends_position() {
    // `A extends infer U extends B ? C : D`: the inner `extends B` binds to
    // the `infer`, because the bare `?` is reserved for the outer
    // conditional only one level up.
    let mut p = parser_for(vec![
        w("A"),
        kw(Kw::Extends),
        kw(Kw::Infer),
        w("U"),
        kw(Kw::Extends),
        w("B"),
        pu(Punct::Question),
        w("C"),
        pu(Punct::Colon),
        w("D"),
    ]);
    let t = p.parse_type().unwrap();
    match &*t {
        TsType::TsConditionalType(c) => match &*c.extends_type {
            TsType::TsInferType(i) => {
                let con = i.type_param.constraint.as_ref().expect("constraint kept");
                assert!(ref_named(con, "B"));
            }
            other => panic!("expected infer, got {:?}", other),
        },
        other => panic!("expected conditional, got {:?}", other),
    }
}

#[test]
fn function_type_with_params() {
    // `(x: A, ...rest: B) => C`
    let mut p = parser_for(vec![
        pu(Punct::LParen),
        w("x"),
        pu(Punct::Colon),
        w("A"),
        pu(Punct::Comma),
        pu(Punct::DotDotDot),
        w("rest"),
        pu(Punct::Colon),
        w("B"),
        pu(Punct::RParen),
        pu(Punct::Arrow),
        w("C"),
    ]);
    let t = p.parse_type().unwrap();
    match &*t {
        TsType::TsFnOrConstructorType(TsFnOrConstructorType::TsFnType(f)) => {
            assert_eq!(f.params.len(), 2);
            assert!(ref_named(&f.type_ann.type_ann, "C"));
        }
        other => panic!("expected function type, got {:?}", other),
    }
    assert!(p.diags.is_empty());
}

#[test]
fn abstract_constructor_type() {
    // `abstract new () => C`
    let mut p = parser_for(vec![
        kw(Kw::Abstract),
        kw(Kw::New),
        pu(Punct::LParen),
        pu(Punct::RParen),
        pu(Punct::Arrow),
        w("C"),
    ]);
    let t = p.parse_type().unwrap();
    match &*t {
        TsType::TsFnOrConstructorType(TsFnOrConstructorType::TsConstructorType(c)) => {
            assert!(c.is_abstract);
            assert!(c.params.is_empty());
        }
        other => panic!("expected constructor type, got {:?}", other),
    }
}

#[test]
fn parenthesized_union_is_not_a_function_type() {
    // `(A | B)` falls through the `(`-disambiguation to a parenthesized
    // type, and the discarded speculative scan records no diagnostics.
    let mut p = parser_for(vec![
        pu(Punct::LParen),
        w("A"),
        pu(Punct::Pipe),
        w("B"),
        pu(Punct::RParen),
    ]);
    let t = p.parse_type().unwrap();
    match &*t {
        TsType::TsParenthesizedType(inner) => match &*inner.type_ann {
            TsType::TsUnionOrIntersectionType(TsUnionOrIntersectionType::TsUnionType(u)) => {
                assert_eq!(u.types.len(), 2);
            }
            other => panic!("expected union, got {:?}", other),
        },
        other => panic!("expected parenthesized type, got {:?}", other),
    }
    assert!(p.diags.is_empty());
}

#[test]
fn type_literal_members() {
    // `{ x?: A; m(a: B): C, [k: string]: D }`
    let mut p = parser_for(vec![
        pu(Punct::LBrace),
        w("x"),
        pu(Punct::Question),
        pu(Punct::Colon),
        w("A"),
        pu(Punct::Semi),
        w("m"),
        pu(Punct::LParen),
        w("a"),
        pu(Punct::Colon),
        w("B"),
        pu(Punct::RParen),
        pu(Punct::Colon),
        w("C"),
        pu(Punct::Comma),
        pu(Punct::LBracket),
        w("k"),
        pu(Punct::Colon),
        kw(Kw::StringTy),
        pu(Punct::RBracket),
        pu(Punct::Colon),
        w("D"),
        pu(Punct::RBrace),
    ]);
    let t = p.parse_type().unwrap();
    match &*t {
        TsType::TsTypeLit(l) => {
            assert_eq!(l.members.len(), 3);
            match &l.members[0] {
                ts_type_parser::TsTypeElement::TsPropertySignature(s) => {
                    assert!(s.optional);
                    assert!(!s.readonly);
                }
                other => panic!("expected property, got {:?}", other),
            }
            assert!(matches!(
                &l.members[1],
                ts_type_parser::TsTypeElement::TsMethodSignature(_)
            ));
            assert!(matches!(
                &l.members[2],
                ts_type_parser::TsTypeElement::TsIndexSignature(_)
            ));
        }
        other => panic!("expected type literal, got {:?}", other),
    }
    assert!(p.diags.is_empty());
}

#[test]
fn getter_and_setter_members() {
    // `{ get p(): A; set p(v); }`
    let mut p = parser_for(vec![
        pu(Punct::LBrace),
        kw(Kw::Get),
        w("p"),
        pu(Punct::LParen),
        pu(Punct::RParen),
        pu(Punct::Colon),
        w("A"),
        pu(Punct::Semi),
        kw(Kw::SetKw),
        w("p"),
        pu(Punct::LParen),
        w("v"),
        pu(Punct::RParen),
        pu(Punct::Semi),
        pu(Punct::RBrace),
    ]);
    let t = p.parse_type().unwrap();
    match &*t {
        TsType::TsTypeLit(l) => {
            assert_eq!(l.members.len(), 2);
            assert!(matches!(
                &l.members[0],
                ts_type_parser::TsTypeElement::TsGetterSignature(_)
            ));
            assert!(matches!(
                &l.members[1],
                ts_type_parser::TsTypeElement::TsSetterSignature(_)
            ));
        }
        other => panic!("expected type literal, got {:?}", other),
    }
    assert!(p.diags.is_empty());
}

#[test]
fn readonly_method_is_a_hard_failure() {
    // `{ readonly m(): A }`
    let mut p = parser_for(vec![
        pu(Punct::LBrace),
        kw(Kw::Readonly),
        w("m"),
        pu(Punct::LParen),
        pu(Punct::RParen),
        pu(Punct::Colon),
        w("A"),
        pu(Punct::RBrace),
    ]);
    match p.parse_type() {
        Err(d) => assert_eq!(d.error, SyntaxError::ReadOnlyMethod),
        Ok(t) => panic!("expected a hard failure, got {:?}", t),
    }
}

#[test]
fn construct_signature_member() {
    // `{ new (): A }`
    let mut p = parser_for(vec![
        pu(Punct::LBrace),
        kw(Kw::New),
        pu(Punct::LParen),
        pu(Punct::RParen),
        pu(Punct::Colon),
        w("A"),
        pu(Punct::RBrace),
    ]);
    let t = p.parse_type().unwrap();
    match &*t {
        TsType::TsTypeLit(l) => {
            assert!(matches!(
                &l.members[0],
                ts_type_parser::TsTypeElement::TsConstructSignatureDecl(_)
            ));
        }
        other => panic!("expected type literal, got {:?}", other),
    }
}

#[test]
fn typeof_entity_query() {
    // `typeof A.B`
    let mut p = parser_for(vec![kw(Kw::Typeof), w("A"), pu(Punct::Dot), w("B")]);
    let t = p.parse_type().unwrap();
    match &*t {
        TsType::TsTypeQuery(q) => match &q.expr_name {
            TsTypeQueryExpr::TsEntityName(TsEntityName::Qualified(qn)) => {
                assert!(ident_named(&qn.right, "B"));
            }
            other => panic!("expected qualified entity name, got {:?}", other),
        },
        other => panic!("expected type query, got {:?}", other),
    }
}

#[test]
fn import_type_with_qualifier_and_args() {
    // `import("mod").Foo<T>`
    let mut p = parser_for(vec![
        kw(Kw::Import),
        pu(Punct::LParen),
        Token::Str {
            value: "mod".to_string(),
            raw: "\"mod\"".to_string(),
        },
        pu(Punct::RParen),
        pu(Punct::Dot),
        w("Foo"),
        pu(Punct::Lt),
        w("T"),
        pu(Punct::Gt),
    ]);
    let t = p.parse_type().unwrap();
    match &*t {
        TsType::TsImportType(i) => {
            assert_eq!(i.arg.value, "mod");
            assert!(i.qualifier.is_some());
            assert_eq!(i.type_args.as_ref().unwrap().params.len(), 1);
        }
        other => panic!("expected import type, got {:?}", other),
    }
    assert!(p.diags.is_empty());
}

#[test]
fn import_type_non_string_argument_recovers() {
    // `import(1)` records a defect and yields an empty placeholder string.
    let mut p = parser_for(vec![
        kw(Kw::Import),
        pu(Punct::LParen),
        num(1, "1"),
        pu(Punct::RParen),
    ]);
    let t = p.parse_type().unwrap();
    match &*t {
        TsType::TsImportType(i) => {
            assert_eq!(i.arg.value, "");
            assert_eq!(i.arg.raw, "\"\"");
        }
        other => panic!("expected import type, got {:?}", other),
    }
    assert_eq!(p.diags.len(), 1);
    assert_eq!(p.diags[0].error, SyntaxError::ImportArgNotString);
}

#[test]
fn literal_types_in_union() {
    // `"a" | 1 | true`
    let mut p = parser_for(vec![
        Token::Str {
            value: "a".to_string(),
            raw: "\"a\"".to_string(),
        },
        pu(Punct::Pipe),
        num(1, "1"),
        pu(Punct::Pipe),
        kw(Kw::True),
    ]);
    let t = p.parse_type().unwrap();
    match &*t {
        TsType::TsUnionOrIntersectionType(TsUnionOrIntersectionType::TsUnionType(u)) => {
            assert_eq!(u.types.len(), 3);
            assert!(matches!(
                &*u.types[0],
                TsType::TsLitType(l) if matches!(&l.lit, TsLit::Str(s) if s.value == "a")
            ));
            assert!(matches!(
                &*u.types[1],
                TsType::TsLitType(l) if matches!(&l.lit, TsLit::Number(n) if n.value == 1)
            ));
            assert!(matches!(
                &*u.types[2],
                TsType::TsLitType(l) if matches!(&l.lit, TsLit::Bool(b) if b.value)
            ));
        }
        other => panic!("expected union, got {:?}", other),
    }
}

#[test]
fn template_literal_type() {
    // `` `a${B}c` ``
    let mut p = parser_for(vec![
        pu(Punct::BackQuote),
        Token::Quasi {
            raw: "a".to_string(),
            tail: false,
        },
        pu(Punct::DollarLBrace),
        w("B"),
        pu(Punct::RBrace),
        Token::Quasi {
            raw: "c".to_string(),
            tail: true,
        },
        pu(Punct::BackQuote),
    ]);
    let t = p.parse_type().unwrap();
    match &*t {
        TsType::TsLitType(l) => match &l.lit {
            TsLit::Tpl(tpl) => {
                assert_eq!(tpl.types.len(), 1);
                assert_eq!(tpl.quasis.len(), 2);
                assert_eq!(tpl.quasis[0].raw, "a");
                assert!(tpl.quasis[1].tail);
            }
            other => panic!("expected template literal type, got {:?}", other),
        },
        other => panic!("expected literal type, got {:?}", other),
    }
}

#[test]
fn this_type_predicate() {
    // `this is T`
    let mut p = parser_for(vec![kw(Kw::This), kw(Kw::Is), w("T")]);
    let t = p.parse_type().unwrap();
    match &*t {
        TsType::TsTypePredicate(pred) => {
            assert!(!pred.asserts);
            assert!(matches!(
                pred.param_name,
                ts_type_parser::TsThisTypeOrIdent::TsThisType(_)
            ));
            assert!(ref_named(
                &pred.type_ann.as_ref().unwrap().type_ann,
                "T"
            ));
        }
        other => panic!("expected type predicate, got {:?}", other),
    }
}

#[test]
fn type_args_list() {
    let mut p = parser_for(vec![
        pu(Punct::Lt),
        w("A"),
        pu(Punct::Comma),
        w("B"),
        pu(Punct::Gt),
    ]);
    let args = p.parse_ts_type_args().unwrap();
    assert_eq!(args.params.len(), 2);
    assert!(ref_named(&args.params[0], "A"));
    assert!(ref_named(&args.params[1], "B"));
    assert_eq!(p.pos, 5);
}

#[test]
fn try_type_args_rejected_before_call_shape() {
    // `<A>(` reads as type arguments of a call, not an instantiation.
    let mut p = parser_for(vec![pu(Punct::Lt), w("A"), pu(Punct::Gt), pu(Punct::LParen)]);
    let r = p.try_parse_ts_type_args(MAX_TYPE_NESTING);
    assert!(r.is_none());
    assert_eq!(p.pos, 0);
    assert!(p.diags.is_empty());
}

#[test]
fn try_type_args_accepted_at_end_of_input() {
    let mut p = parser_for(vec![pu(Punct::Lt), w("A"), pu(Punct::Gt)]);
    let r = p.try_parse_ts_type_args(MAX_TYPE_NESTING);
    assert!(r.is_some());
    assert_eq!(p.pos, 3);
}

#[test]
fn empty_type_args_list() {
    let mut p = parser_for(vec![pu(Punct::Lt), pu(Punct::Gt)]);
    let args = p.parse_ts_type_args().unwrap();
    assert!(args.params.is_empty());
    assert_eq!(p.pos, 2);
    assert!(p.diags.is_empty());
}

#[test]
fn type_params_variance_modifiers() {
    // `<in T, out U>`
    let mut p = parser_for(vec![
        pu(Punct::Lt),
        kw(Kw::In),
        w("T"),
        pu(Punct::Comma),
        kw(Kw::Out),
        w("U"),
        pu(Punct::Gt),
    ]);
    let d = p.parse_ts_type_params(true, false, MAX_TYPE_NESTING).unwrap();
    assert_eq!(d.params.len(), 2);
    assert!(d.params[0].is_in && !d.params[0].is_out);
    assert!(d.params[1].is_out && !d.params[1].is_in);
    assert!(p.diags.is_empty());
}

#[test]
fn type_param_variance_where_not_permitted() {
    let mut p = parser_for(vec![pu(Punct::Lt), kw(Kw::In), w("T"), pu(Punct::Gt)]);
    let d = p.parse_ts_type_params(false, false, MAX_TYPE_NESTING).unwrap();
    assert_eq!(d.params.len(), 1);
    assert_eq!(p.diags.len(), 1);
    assert_eq!(
        p.diags[0].error,
        SyntaxError::ModifierNotPermitted(Kw::In)
    );
}

#[test]
fn type_param_constraint_and_default() {
    // `<T extends A = B>`
    let mut p = parser_for(vec![
        pu(Punct::Lt),
        w("T"),
        kw(Kw::Extends),
        w("A"),
        pu(Punct::Assign),
        w("B"),
        pu(Punct::Gt),
    ]);
    let d = p.parse_ts_type_params(true, false, MAX_TYPE_NESTING).unwrap();
    assert_eq!(d.params.len(), 1);
    assert!(ref_named(d.params[0].constraint.as_ref().unwrap(), "A"));
    assert!(ref_named(d.params[0].default.as_ref().unwrap(), "B"));
}

#[test]
fn nesting_budget_exhaustion_is_reported() {
    let mut p = parser_for(vec![w("A")]);
    match p.parse_ts_type(0) {
        Err(d) => assert_eq!(d.error, SyntaxError::NestingTooDeep),
        Ok(t) => panic!("expected a nesting failure, got {:?}", t),
    }
}

#[test]
fn type_expected_on_bad_start_token() {
    let mut p = parser_for(vec![pu(Punct::Comma)]);
    match p.parse_type() {
        Err(d) => assert_eq!(d.error, SyntaxError::TypeExpected),
        Ok(t) => panic!("expected a hard failure, got {:?}", t),
    }
}

#[test]
fn generic_reference_with_line_break_stops_args() {
    // A line break before `<` leaves the reference plain.
    let mut p = build(vec![
        (w("A"), false),
        (pu(Punct::Lt), true),
        (w("B"), false),
        (pu(Punct::Gt), false),
    ]);
    let t = p.parse_type().unwrap();
    assert!(ref_named(&t, "A"));
    assert_eq!(p.pos, 1);
}

#[test]
fn minus_must_precede_a_numeric_literal() {
    let mut p = parser_for(vec![pu(Punct::Minus), w("A")]);
    match p.parse_type() {
        Err(d) => assert_eq!(d.error, SyntaxError::TypeExpected),
        Ok(t) => panic!("expected a hard failure, got {:?}", t),
    }
}

#[test]
fn computed_key_and_private_name_members() {
    // `{ [x]: A; #p: B }`: the private name is kept in the tree with a
    // recoverable diagnostic.
    let mut p = parser_for(vec![
        pu(Punct::LBrace),
        pu(Punct::LBracket),
        w("x"),
        pu(Punct::RBracket),
        pu(Punct::Colon),
        w("A"),
        pu(Punct::Semi),
        pu(Punct::Hash),
        w("p"),
        pu(Punct::Colon),
        w("B"),
        pu(Punct::RBrace),
    ]);
    let t = p.parse_type().unwrap();
    match &*t {
        TsType::TsTypeLit(l) => {
            assert_eq!(l.members.len(), 2);
            match &l.members[0] {
                ts_type_parser::TsTypeElement::TsPropertySignature(s) => {
                    assert!(s.computed);
                    assert!(matches!(&*s.key, Expr::Ident(i) if ident_named(i, "x")));
                }
                other => panic!("expected property, got {:?}", other),
            }
            match &l.members[1] {
                ts_type_parser::TsTypeElement::TsPropertySignature(s) => {
                    assert!(matches!(&*s.key, Expr::PrivateName { .. }));
                }
                other => panic!("expected property, got {:?}", other),
            }
        }
        other => panic!("expected type literal, got {:?}", other),
    }
    assert_eq!(p.diags.len(), 1);
    assert_eq!(p.diags[0].error, SyntaxError::PrivateNameInInterface);
}

#[test]
fn index_signature_comma_recovery() {
    // `{ [k, string]: A }` tolerates the comma with a recorded defect.
    let mut p = parser_for(vec![
        pu(Punct::LBrace),
        pu(Punct::LBracket),
        w("k"),
        pu(Punct::Comma),
        kw(Kw::StringTy),
        pu(Punct::RBracket),
        pu(Punct::Colon),
        w("A"),
        pu(Punct::RBrace),
    ]);
    let t = p.parse_type().unwrap();
    match &*t {
        TsType::TsTypeLit(l) => {
            assert!(matches!(
                &l.members[0],
                ts_type_parser::TsTypeElement::TsIndexSignature(_)
            ));
        }
        other => panic!("expected type literal, got {:?}", other),
    }
    assert_eq!(p.diags.len(), 1);
    assert_eq!(p.diags[0].error, SyntaxError::IndexSignatureOneParameter);
}

#[test]
fn discarded_speculation_is_diagnostic_silent() {
    // A failed function-type scan, a failed tuple-label attempt and a failed
    // mapped-type lookahead all leave the sink untouched; the only recorded
    // defect is the one on the committed path.
    let mut p = parser_for(vec![
        pu(Punct::LBracket),
        pu(Punct::LParen),
        w("A"),
        pu(Punct::RParen),
        pu(Punct::Comma),
        pu(Punct::LBrace),
        w("x"),
        pu(Punct::Colon),
        w("B"),
        pu(Punct::RBrace),
        pu(Punct::RBracket),
    ]);
    let t = p.parse_type().unwrap();
    assert!(matches!(&*t, TsType::TsTupleType(tt) if tt.elem_types.len() == 2));
    assert!(p.diags.is_empty());
}

#[test]
fn function_type_keeps_parameter_shapes() {
    // `(this: A, b?: B) => C`
    let mut p = parser_for(vec![
        pu(Punct::LParen),
        kw(Kw::This),
        pu(Punct::Colon),
        w("A"),
        pu(Punct::Comma),
        w("b"),
        pu(Punct::Question),
        pu(Punct::Colon),
        w("B"),
        pu(Punct::RParen),
        pu(Punct::Arrow),
        w("C"),
    ]);
    let t = p.parse_type().unwrap();
    match &*t {
        TsType::TsFnOrConstructorType(TsFnOrConstructorType::TsFnType(f)) => {
            assert_eq!(f.params.len(), 2);
            match &f.params[1] {
                ts_type_parser::TsFnParam::Ident(b) => assert!(b.optional),
                other => panic!("expected plain parameter, got {:?}", other),
            }
        }
        other => panic!("expected function type, got {:?}", other),
    }
}

#[test]
fn return_position_asserts_predicate() {
    // `: asserts x` as a return annotation.
    let mut p = parser_for(vec![pu(Punct::Colon), kw(Kw::Asserts), w("x")]);
    let ann = p
        .parse_ts_type_or_type_predicate_ann(Punct::Colon, MAX_TYPE_NESTING)
        .unwrap();
    match &*ann.type_ann {
        TsType::TsTypePredicate(pred) => {
            assert!(pred.asserts);
            assert!(pred.type_ann.is_none());
        }
        other => panic!("expected predicate, got {:?}", other),
    }
}

#[test]
fn expression_minus_stays_a_unary_wrapper() {
    // In expression position `-1` keeps the explicit unary operator.
    let mut p = parser_for(vec![pu(Punct::Minus), num(1, "1")]);
    let e = p.parse_assignment_expr(MAX_TYPE_NESTING).unwrap();
    match &*e {
        Expr::UnaryMinus { arg, .. } => match &**arg {
            Expr::Lit(Lit::Num(n)) => {
                assert_eq!(n.value, 1);
                assert_eq!(n.raw, "1");
            }
            other => panic!("expected literal, got {:?}", other),
        },
        other => panic!("expected unary minus, got {:?}", other),
    }
}

#[test]
fn declaration_keyword_used_as_plain_reference() {
    // A bare `type` not followed by an identifier is no declaration.
    let mut p = parser_for(vec![kw(Kw::TypeKw), pu(Punct::Semi)]);
    let start = p.cur_pos();
    let id = p.parse_ident_name().unwrap();
    let r = p.parse_ts_expr_stmt(start, id, MAX_TYPE_NESTING).unwrap();
    assert!(r.is_none());
}

#[test]
fn decl_dispatch_helper_matches_original_shapes() {
    // `make_decl_declare` sets the ambient flag on a parsed alias.
    let mut p = parser_for(vec![
        kw(Kw::TypeKw),
        w("T"),
        pu(Punct::Assign),
        w("A"),
        pu(Punct::Semi),
    ]);
    let d = p.parse_ts_module_item(MAX_TYPE_NESTING).unwrap();
    let d = ts_type_parser::make_decl_declare(d);
    match d {
        Decl::TsTypeAlias(a) => assert!(a.declare),
        other => panic!("expected alias, got {:?}", other),
    }
}
