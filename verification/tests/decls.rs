use ts_type_parser::{
    Decl, Expr, Ident, Kw, Lit, Parser, Punct, Span, SyntaxError, Token, TokenAndSpan,
    TsEntityName, TsEnumMemberId, TsLit, TsModuleName, TsModuleRef, TsNamespaceBody, TsType,
    TsTypeElement, TsUnionOrIntersectionType, VarDeclKind, Word, MAX_TYPE_NESTING,
};

fn assemble(tokens: Vec<(Token, bool)>) -> Parser {
    let mut v: Vec<TokenAndSpan> = Vec::new();
    for (i, (token, had_line_break)) in tokens.into_iter().enumerate() {
        let lo = (i as u32) * 10;
        v.push(TokenAndSpan {
            token,
            span: Span::new(lo, lo + 5),
            had_line_break,
        });
    }
    Parser::new(v)
}

fn parser_of(tokens: Vec<Token>) -> Parser {
    assemble(tokens.into_iter().map(|t| (t, false)).collect())
}

fn word(s: &str) -> Token {
    Token::Word(Word::Other(s.to_string()))
}

fn key(k: Kw) -> Token {
    Token::Word(Word::Kw(k))
}

fn punct(x: Punct) -> Token {
    Token::Punct(x)
}

fn number(value: i64, raw: &str) -> Token {
    Token::Num {
        value,
        raw: raw.to_string(),
    }
}

fn strlit(v: &str) -> Token {
    Token::Str {
        value: v.to_string(),
        raw: format!("\"{}\"", v),
    }
}

fn named(i: &Ident, name: &str) -> bool {
    matches!(&i.sym, Word::Other(s) if s == name)
}

/// `type test = -1;` parses to a type alias whose aliased type is a single
/// negative literal-number node, not a unary-minus wrapper.
#[test]
fn issue_708_1() {
    let mut p = parser_of(vec![
        key(Kw::TypeKw),
        word("test"),
        punct(Punct::Assign),
        punct(Punct::Minus),
        number(1, "1"),
        punct(Punct::Semi),
    ]);
    let d = p.parse_ts_module_item(MAX_TYPE_NESTING).unwrap();
    match d {
        Decl::TsTypeAlias(a) => {
            assert!(!a.declare);
            assert!(named(&a.id, "test"));
            assert!(a.type_params.is_none());
            match &*a.type_ann {
                TsType::TsLitType(l) => match &l.lit {
                    TsLit::Number(n) => {
                        assert_eq!(n.value, -1);
                        assert_eq!(n.raw, "-1");
                    }
                    other => panic!("expected a number literal, got {:?}", other),
                },
                other => panic!("expected a literal type, got {:?}", other),
            }
        }
        other => panic!("expected a type alias, got {:?}", other),
    }
    assert!(p.diags.is_empty());
}

/// `const t = -1;` in expression position keeps the explicit unary minus
/// over the literal `1`.
#[test]
fn issue_708_2() {
    let mut p = parser_of(vec![
        key(Kw::Const),
        word("t"),
        punct(Punct::Assign),
        punct(Punct::Minus),
        number(1, "1"),
        punct(Punct::Semi),
    ]);
    let start = p.cur_pos();
    let v = p.parse_var_decl(start, MAX_TYPE_NESTING).unwrap();
    assert_eq!(v.kind, VarDeclKind::Const);
    assert!(!v.declare);
    assert_eq!(v.decls.len(), 1);
    assert!(named(&v.decls[0].name.id, "t"));
    match v.decls[0].init.as_deref() {
        Some(Expr::UnaryMinus { arg, .. }) => match &**arg {
            Expr::Lit(Lit::Num(n)) => {
                assert_eq!(n.value, 1);
                assert_eq!(n.raw, "1");
            }
            other => panic!("expected the literal 1, got {:?}", other),
        },
        other => panic!("expected a unary minus, got {:?}", other),
    }
}

/// `type Test = (\n    string | number);` lexes to nine tokens and parses
/// as a parenthesized type wrapping a union of two keyword types.
#[test]
fn issue_726() {
    let tokens = vec![
        (key(Kw::TypeKw), false),
        (word("Test"), false),
        (punct(Punct::Assign), false),
        (punct(Punct::LParen), false),
        (key(Kw::StringTy), true),
        (punct(Punct::Pipe), false),
        (key(Kw::NumberTy), false),
        (punct(Punct::RParen), false),
        (punct(Punct::Semi), false),
    ];
    assert_eq!(tokens.len(), 9, "Tokens: {:#?}", tokens);
    let mut p = assemble(tokens);
    let d = p.parse_ts_module_item(MAX_TYPE_NESTING).unwrap();
    match d {
        Decl::TsTypeAlias(a) => match &*a.type_ann {
            TsType::TsParenthesizedType(inner) => match &*inner.type_ann {
                TsType::TsUnionOrIntersectionType(TsUnionOrIntersectionType::TsUnionType(u)) => {
                    assert_eq!(u.types.len(), 2);
                    assert!(matches!(&*u.types[0], TsType::TsKeywordType(_)));
                    assert!(matches!(&*u.types[1], TsType::TsKeywordType(_)));
                }
                other => panic!("expected a union, got {:?}", other),
            },
            other => panic!("expected a parenthesized type, got {:?}", other),
        },
        other => panic!("expected a type alias, got {:?}", other),
    }
    assert!(p.diags.is_empty());
}

#[test]
fn enum_with_members_and_initializer() {
    // `enum Color { Red, Green = 2 }`
    let mut p = parser_of(vec![
        key(Kw::Enum),
        word("Color"),
        punct(Punct::LBrace),
        word("Red"),
        punct(Punct::Comma),
        word("Green"),
        punct(Punct::Assign),
        number(2, "2"),
        punct(Punct::RBrace),
    ]);
    let d = p.parse_ts_module_item(MAX_TYPE_NESTING).unwrap();
    match d {
        Decl::TsEnum(e) => {
            assert!(!e.is_const);
            assert!(named(&e.id, "Color"));
            assert_eq!(e.members.len(), 2);
            assert!(e.members[0].init.is_none());
            match e.members[1].init.as_deref() {
                Some(Expr::Lit(Lit::Num(n))) => assert_eq!(n.value, 2),
                other => panic!("expected a numeric initializer, got {:?}", other),
            }
        }
        other => panic!("expected an enum, got {:?}", other),
    }
    assert!(p.diags.is_empty());
}

#[test]
fn enum_missing_comma_is_recovered() {
    // `enum E { a = 1 b }` records the missing separator and keeps both
    // members.
    let mut p = parser_of(vec![
        key(Kw::Enum),
        word("E"),
        punct(Punct::LBrace),
        word("a"),
        punct(Punct::Assign),
        number(1, "1"),
        word("b"),
        punct(Punct::RBrace),
    ]);
    let d = p.parse_ts_module_item(MAX_TYPE_NESTING).unwrap();
    match d {
        Decl::TsEnum(e) => assert_eq!(e.members.len(), 2),
        other => panic!("expected an enum, got {:?}", other),
    }
    assert!(p
        .diags
        .iter()
        .any(|d| d.error == SyntaxError::Expected(Punct::Comma)));
}

#[test]
fn enum_numeric_member_name_is_recovered() {
    // `enum E { 1 }` recovers the numeric name into a string-literal name.
    let mut p = parser_of(vec![
        key(Kw::Enum),
        word("E"),
        punct(Punct::LBrace),
        number(1, "1"),
        punct(Punct::RBrace),
    ]);
    let d = p.parse_ts_module_item(MAX_TYPE_NESTING).unwrap();
    match d {
        Decl::TsEnum(e) => {
            assert_eq!(e.members.len(), 1);
            assert!(matches!(&e.members[0].id, TsEnumMemberId::Str(_)));
        }
        other => panic!("expected an enum, got {:?}", other),
    }
    assert_eq!(p.diags.len(), 1);
    assert_eq!(p.diags[0].error, SyntaxError::EnumNumericName);
}

#[test]
fn enum_numeric_name_value_is_the_stringified_number() {
    // `enum E { 0x10 }`: the recovered name's value is the stringified
    // numeric value, while the raw text quotes the source spelling.
    let mut p = parser_of(vec![
        key(Kw::Enum),
        word("E"),
        punct(Punct::LBrace),
        number(16, "0x10"),
        punct(Punct::RBrace),
    ]);
    let d = p.parse_ts_module_item(MAX_TYPE_NESTING).unwrap();
    match d {
        Decl::TsEnum(e) => match &e.members[0].id {
            TsEnumMemberId::Str(s) => {
                assert_eq!(s.value, "16");
                assert_eq!(s.raw, "\"0x10\"");
            }
            other => panic!("expected a string name, got {:?}", other),
        },
        other => panic!("expected an enum, got {:?}", other),
    }
}

#[test]
fn export_alias_dispatch_commits() {
    // After `export`, `type X = A;` commits as a type alias.
    let mut p = parser_of(vec![
        key(Kw::TypeKw),
        word("X"),
        punct(Punct::Assign),
        word("A"),
        punct(Punct::Semi),
    ]);
    let r = p.try_parse_ts_export_decl(Word::Kw(Kw::TypeKw), MAX_TYPE_NESTING);
    match r {
        Some(Decl::TsTypeAlias(a)) => assert!(named(&a.id, "X")),
        other => panic!("expected a type alias, got {:?}", other),
    }
    assert_eq!(p.pos, 5);
}

#[test]
fn enum_computed_name_is_rejected_but_recovered() {
    // `enum E { [x] }`
    let mut p = parser_of(vec![
        key(Kw::Enum),
        word("E"),
        punct(Punct::LBrace),
        punct(Punct::LBracket),
        word("x"),
        punct(Punct::RBracket),
        punct(Punct::RBrace),
    ]);
    let d = p.parse_ts_module_item(MAX_TYPE_NESTING).unwrap();
    match d {
        Decl::TsEnum(e) => assert_eq!(e.members.len(), 1),
        other => panic!("expected an enum, got {:?}", other),
    }
    assert!(p
        .diags
        .iter()
        .any(|d| d.error == SyntaxError::EnumComputedName));
}

#[test]
fn interface_with_heritage_and_body() {
    // `interface I extends A<T>, B.C { x: number; }`
    let mut p = parser_of(vec![
        key(Kw::Interface),
        word("I"),
        key(Kw::Extends),
        word("A"),
        punct(Punct::Lt),
        word("T"),
        punct(Punct::Gt),
        punct(Punct::Comma),
        word("B"),
        punct(Punct::Dot),
        word("C"),
        punct(Punct::LBrace),
        word("x"),
        punct(Punct::Colon),
        key(Kw::NumberTy),
        punct(Punct::Semi),
        punct(Punct::RBrace),
    ]);
    let d = p.parse_ts_module_item(MAX_TYPE_NESTING).unwrap();
    match d {
        Decl::TsInterface(i) => {
            assert!(named(&i.id, "I"));
            assert_eq!(i.extends.len(), 2);
            assert_eq!(i.extends[0].type_args.as_ref().unwrap().params.len(), 1);
            assert!(matches!(&*i.extends[1].expr, Expr::Member { .. }));
            assert_eq!(i.body.body.len(), 1);
            assert!(matches!(
                &i.body.body[0],
                TsTypeElement::TsPropertySignature(_)
            ));
        }
        other => panic!("expected an interface, got {:?}", other),
    }
    assert!(p.diags.is_empty());
}

#[test]
fn interface_reserved_name_is_recovered() {
    // `interface string { }`
    let mut p = parser_of(vec![
        key(Kw::Interface),
        key(Kw::StringTy),
        punct(Punct::LBrace),
        punct(Punct::RBrace),
    ]);
    let d = p.parse_ts_module_item(MAX_TYPE_NESTING).unwrap();
    assert!(matches!(d, Decl::TsInterface(_)));
    assert_eq!(p.diags.len(), 1);
    assert_eq!(p.diags[0].error, SyntaxError::InterfaceNameReserved);
}

#[test]
fn interface_repeated_extends_is_recovered() {
    // `interface I extends A extends B { }`
    let mut p = parser_of(vec![
        key(Kw::Interface),
        word("I"),
        key(Kw::Extends),
        word("A"),
        key(Kw::Extends),
        word("B"),
        punct(Punct::LBrace),
        punct(Punct::RBrace),
    ]);
    let d = p.parse_ts_module_item(MAX_TYPE_NESTING).unwrap();
    match d {
        Decl::TsInterface(i) => assert_eq!(i.extends.len(), 1),
        other => panic!("expected an interface, got {:?}", other),
    }
    assert!(p
        .diags
        .iter()
        .any(|d| d.error == SyntaxError::ExtendsRepeated));
}

#[test]
fn namespace_dotted_chain_collapses() {
    // `namespace A.B { type X = string; }`
    let mut p = parser_of(vec![
        key(Kw::Namespace),
        word("A"),
        punct(Punct::Dot),
        word("B"),
        punct(Punct::LBrace),
        key(Kw::TypeKw),
        word("X"),
        punct(Punct::Assign),
        key(Kw::StringTy),
        punct(Punct::Semi),
        punct(Punct::RBrace),
    ]);
    let d = p.parse_ts_module_item(MAX_TYPE_NESTING).unwrap();
    match d {
        Decl::TsModule(m) => {
            assert!(m.namespace);
            assert!(matches!(&m.id, TsModuleName::Ident(i) if named(i, "A")));
            match m.body.as_ref().unwrap() {
                TsNamespaceBody::TsNamespaceDecl(inner) => {
                    assert!(named(&inner.id, "B"));
                    match &*inner.body {
                        TsNamespaceBody::TsModuleBlock(blk) => {
                            assert_eq!(blk.body.len(), 1);
                        }
                        other => panic!("expected a block, got {:?}", other),
                    }
                }
                other => panic!("expected a nested namespace, got {:?}", other),
            }
        }
        other => panic!("expected a module declaration, got {:?}", other),
    }
}

#[test]
fn declare_function_signature() {
    // `declare function f(x: number): void;`
    let mut p = parser_of(vec![
        key(Kw::Declare),
        key(Kw::Function),
        word("f"),
        punct(Punct::LParen),
        word("x"),
        punct(Punct::Colon),
        key(Kw::NumberTy),
        punct(Punct::RParen),
        punct(Punct::Colon),
        key(Kw::Void),
        punct(Punct::Semi),
    ]);
    let d = p.parse_ts_module_item(MAX_TYPE_NESTING).unwrap();
    match d {
        Decl::Fn(f) => {
            assert!(f.declare);
            assert!(named(&f.id, "f"));
            assert_eq!(f.params.len(), 1);
            assert!(f.return_type.is_some());
        }
        other => panic!("expected a function signature, got {:?}", other),
    }
    assert!(p.diags.is_empty());
}

#[test]
fn declare_const_enum() {
    // `declare const enum E { A }`
    let mut p = parser_of(vec![
        key(Kw::Declare),
        key(Kw::Const),
        key(Kw::Enum),
        word("E"),
        punct(Punct::LBrace),
        word("A"),
        punct(Punct::RBrace),
    ]);
    let d = p.parse_ts_module_item(MAX_TYPE_NESTING).unwrap();
    match d {
        Decl::TsEnum(e) => {
            assert!(e.declare);
            assert!(e.is_const);
        }
        other => panic!("expected an enum, got {:?}", other),
    }
}

#[test]
fn declare_var_with_annotation() {
    // `declare var a: number, b;`
    let mut p = parser_of(vec![
        key(Kw::Declare),
        key(Kw::Var),
        word("a"),
        punct(Punct::Colon),
        key(Kw::NumberTy),
        punct(Punct::Comma),
        word("b"),
        punct(Punct::Semi),
    ]);
    let d = p.parse_ts_module_item(MAX_TYPE_NESTING).unwrap();
    match d {
        Decl::Var(v) => {
            assert!(v.declare);
            assert_eq!(v.kind, VarDeclKind::Var);
            assert_eq!(v.decls.len(), 2);
            assert!(v.decls[0].name.type_ann.is_some());
            assert!(v.decls[1].name.type_ann.is_none());
        }
        other => panic!("expected a var statement, got {:?}", other),
    }
}

#[test]
fn declare_module_with_string_name() {
    // `declare module "m" { }`
    let mut p = parser_of(vec![
        key(Kw::Declare),
        key(Kw::Module),
        strlit("m"),
        punct(Punct::LBrace),
        punct(Punct::RBrace),
    ]);
    let d = p.parse_ts_module_item(MAX_TYPE_NESTING).unwrap();
    match d {
        Decl::TsModule(m) => {
            assert!(m.declare);
            assert!(!m.global);
            assert!(matches!(&m.id, TsModuleName::Str(s) if s.value == "m"));
        }
        other => panic!("expected a module declaration, got {:?}", other),
    }
}

#[test]
fn declare_global_block() {
    // `declare global { }`
    let mut p = parser_of(vec![
        key(Kw::Declare),
        key(Kw::Global),
        punct(Punct::LBrace),
        punct(Punct::RBrace),
    ]);
    let d = p.parse_ts_module_item(MAX_TYPE_NESTING).unwrap();
    match d {
        Decl::TsModule(m) => {
            assert!(m.declare);
            assert!(m.global);
        }
        other => panic!("expected a module declaration, got {:?}", other),
    }
}

#[test]
fn nested_declare_is_recovered() {
    // `declare module "m" { declare var x; }`
    let mut p = parser_of(vec![
        key(Kw::Declare),
        key(Kw::Module),
        strlit("m"),
        punct(Punct::LBrace),
        key(Kw::Declare),
        key(Kw::Var),
        word("x"),
        punct(Punct::Semi),
        punct(Punct::RBrace),
    ]);
    let d = p.parse_ts_module_item(MAX_TYPE_NESTING).unwrap();
    assert!(matches!(d, Decl::TsModule(_)));
    assert!(p.diags.iter().any(|d| d.error == SyntaxError::NestedDeclare));
}

#[test]
fn import_equals_external_reference() {
    // `import x = require("m");`, with the leading `import x` supplied by
    // the statement-level caller.
    let mut p = parser_of(vec![
        punct(Punct::Assign),
        key(Kw::Require),
        punct(Punct::LParen),
        strlit("m"),
        punct(Punct::RParen),
        punct(Punct::Semi),
    ]);
    let id = Ident {
        span: Span::new(0, 0),
        sym: Word::Other("x".to_string()),
    };
    let d = p.parse_ts_import_equals_decl(0, id, false, false).unwrap();
    assert!(!d.is_export);
    match &d.module_ref {
        TsModuleRef::TsExternalModuleRef(e) => assert_eq!(e.expr.value, "m"),
        other => panic!("expected an external reference, got {:?}", other),
    }
}

#[test]
fn import_equals_entity_reference() {
    // `import x = A.B;`
    let mut p = parser_of(vec![
        punct(Punct::Assign),
        word("A"),
        punct(Punct::Dot),
        word("B"),
        punct(Punct::Semi),
    ]);
    let id = Ident {
        span: Span::new(0, 0),
        sym: Word::Other("x".to_string()),
    };
    let d = p.parse_ts_import_equals_decl(0, id, true, false).unwrap();
    assert!(d.is_export);
    match &d.module_ref {
        TsModuleRef::TsEntityName(TsEntityName::Qualified(q)) => {
            assert!(named(&q.right, "B"));
        }
        other => panic!("expected an entity name, got {:?}", other),
    }
}

#[test]
fn require_argument_must_be_string() {
    let mut p = parser_of(vec![
        punct(Punct::Assign),
        key(Kw::Require),
        punct(Punct::LParen),
        number(1, "1"),
        punct(Punct::RParen),
        punct(Punct::Semi),
    ]);
    let id = Ident {
        span: Span::new(0, 0),
        sym: Word::Other("x".to_string()),
    };
    match p.parse_ts_import_equals_decl(0, id, false, false) {
        Err(d) => assert_eq!(d.error, SyntaxError::ImportArgNotString),
        Ok(d) => panic!("expected a hard failure, got {:?}", d),
    }
}

#[test]
fn global_block_without_declare() {
    // A bare `global { }` inside an ambient module body.
    let mut p = parser_of(vec![
        key(Kw::Global),
        punct(Punct::LBrace),
        punct(Punct::RBrace),
    ]);
    let start = p.cur_pos();
    let id = p.parse_ident_name().unwrap();
    let d = p.parse_ts_expr_stmt(start, id, MAX_TYPE_NESTING).unwrap();
    match d {
        Some(Decl::TsModule(m)) => {
            assert!(m.global);
            assert!(!m.declare);
        }
        other => panic!("expected a global module, got {:?}", other),
    }
}

#[test]
fn export_dispatch_is_speculative() {
    // After `export`, a non-declaration keyword shape rolls back cleanly.
    let mut p = parser_of(vec![key(Kw::Module), punct(Punct::Dot)]);
    let r = p.try_parse_ts_export_decl(Word::Kw(Kw::Module), MAX_TYPE_NESTING);
    assert!(r.is_none());
    assert_eq!(p.pos, 0);
    assert!(p.diags.is_empty());
}
