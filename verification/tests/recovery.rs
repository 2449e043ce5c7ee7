use ts_type_parser::{
    Kw, Parser, Punct, Span, SyntaxError, Token, TokenAndSpan, TsType, Word, MAX_TYPE_NESTING,
};

fn tokens_of(tokens: Vec<Token>) -> Parser {
    let mut v: Vec<TokenAndSpan> = Vec::new();
    for (i, token) in tokens.into_iter().enumerate() {
        let lo = (i as u32) * 10;
        v.push(TokenAndSpan {
            token,
            span: Span::new(lo, lo + 5),
            had_line_break: false,
        });
    }
    Parser::new(v)
}

fn ww(s: &str) -> Token {
    Token::Word(Word::Other(s.to_string()))
}

fn kk(k: Kw) -> Token {
    Token::Word(Word::Kw(k))
}

fn pp(x: Punct) -> Token {
    Token::Punct(x)
}

#[test]
fn trailing_tokens_are_left_for_the_caller() {
    let mut p = tokens_of(vec![ww("A"), pp(Punct::Semi)]);
    let t = p.parse_type().unwrap();
    assert!(matches!(&*t, TsType::TsTypeRef(_)));
    assert_eq!(p.pos, 1);
}

#[test]
fn dot_without_name_stops_the_entity_chain() {
    // `A.` records a defect and returns the chain parsed so far.
    let mut p = tokens_of(vec![ww("A"), pp(Punct::Dot)]);
    let t = p.parse_type().unwrap();
    assert!(matches!(&*t, TsType::TsTypeRef(_)));
    assert_eq!(p.diags.len(), 1);
    assert_eq!(p.diags[0].error, SyntaxError::IdentifierExpected);
}

#[test]
fn modifier_on_type_reference_is_recovered() {
    // `public A` keeps the reference but records the stray modifier.
    let mut p = tokens_of(vec![kk(Kw::Public), ww("A")]);
    let t = p.parse_type().unwrap();
    assert!(matches!(&*t, TsType::TsTypeRef(_)));
    assert_eq!(p.diags.len(), 1);
    assert_eq!(p.diags[0].error, SyntaxError::ModifierOnTypeRef);
}

#[test]
fn mapped_plus_without_readonly_is_a_hard_failure() {
    // `{ +x ... }`
    let mut p = tokens_of(vec![
        pp(Punct::LBrace),
        pp(Punct::Plus),
        kk(Kw::Readonly),
        pp(Punct::LBracket),
        ww("K"),
        kk(Kw::In),
        ww("T"),
        pp(Punct::RBracket),
        pp(Punct::Question),
        pp(Punct::Question),
        pp(Punct::RBrace),
    ]);
    // The second bare `?` cannot follow the optionality modifier: the value
    // type is missing and the required `;`/`}` pair fails.
    assert!(p.parse_type().is_err());
}

#[test]
fn invalid_type_param_modifier_is_recovered() {
    // `<public T>`
    let mut p = tokens_of(vec![pp(Punct::Lt), kk(Kw::Public), ww("T"), pp(Punct::Gt)]);
    let d = p.parse_ts_type_params(true, false, MAX_TYPE_NESTING).unwrap();
    assert_eq!(d.params.len(), 1);
    assert_eq!(p.diags.len(), 1);
    assert_eq!(
        p.diags[0].error,
        SyntaxError::InvalidTypeParamModifier(Kw::Public)
    );
}

#[test]
fn const_type_param_modifier_where_not_permitted() {
    // `<const T>` on a declaration that forbids `const`.
    let mut p = tokens_of(vec![pp(Punct::Lt), kk(Kw::Const), ww("T"), pp(Punct::Gt)]);
    let d = p.parse_ts_type_params(true, false, MAX_TYPE_NESTING).unwrap();
    assert!(d.params[0].is_const);
    assert_eq!(p.diags.len(), 1);
    assert_eq!(p.diags[0].error, SyntaxError::ConstModifierNotPermitted);
}

#[test]
fn const_type_param_modifier_where_permitted() {
    let mut p = tokens_of(vec![pp(Punct::Lt), kk(Kw::Const), ww("T"), pp(Punct::Gt)]);
    let d = p.parse_ts_type_params(false, true, MAX_TYPE_NESTING).unwrap();
    assert!(d.params[0].is_const);
    assert!(p.diags.is_empty());
}

#[test]
fn out_before_in_is_recovered() {
    // `<out in T>`
    let mut p = tokens_of(vec![
        pp(Punct::Lt),
        kk(Kw::Out),
        kk(Kw::In),
        ww("T"),
        pp(Punct::Gt),
    ]);
    let d = p.parse_ts_type_params(true, false, MAX_TYPE_NESTING).unwrap();
    assert!(d.params[0].is_in && d.params[0].is_out);
    assert_eq!(p.diags.len(), 1);
    assert_eq!(p.diags[0].error, SyntaxError::InMustPrecedeOut);
}

#[test]
fn duplicate_variance_modifier_is_recovered() {
    // `<in in T>`
    let mut p = tokens_of(vec![
        pp(Punct::Lt),
        kk(Kw::In),
        kk(Kw::In),
        ww("T"),
        pp(Punct::Gt),
    ]);
    let d = p.parse_ts_type_params(true, false, MAX_TYPE_NESTING).unwrap();
    assert!(d.params[0].is_in);
    assert_eq!(p.diags.len(), 1);
    assert_eq!(p.diags[0].error, SyntaxError::DuplicateModifier(Kw::In));
}

#[test]
fn destructuring_parameter_is_refused() {
    // `({ a }) => B`: the pattern scan accepts the shape, but this parser
    // only binds plain names; the host grammar owns destructuring.
    let mut p = tokens_of(vec![
        pp(Punct::LParen),
        pp(Punct::LBrace),
        ww("a"),
        pp(Punct::RBrace),
        pp(Punct::RParen),
        pp(Punct::Arrow),
        ww("B"),
    ]);
    match p.parse_type() {
        Err(d) => assert_eq!(d.error, SyntaxError::UnsupportedBindingPattern),
        Ok(t) => panic!("expected a hard failure, got {:?}", t),
    }
}

#[test]
fn enum_initializer_must_be_an_expression() {
    // `enum E { a = }`
    let mut p = tokens_of(vec![
        kk(Kw::Enum),
        ww("E"),
        pp(Punct::LBrace),
        ww("a"),
        pp(Punct::Assign),
        pp(Punct::RBrace),
    ]);
    match p.parse_ts_module_item(MAX_TYPE_NESTING) {
        Err(d) => assert_eq!(d.error, SyntaxError::ExpressionExpected),
        Ok(t) => panic!("expected a hard failure, got {:?}", t),
    }
}

#[test]
fn ambient_module_body_takes_declarations_only() {
    // `declare module "m" { [ }` is no declaration statement.
    let mut p = tokens_of(vec![
        kk(Kw::Declare),
        kk(Kw::Module),
        Token::Str {
            value: "m".to_string(),
            raw: "\"m\"".to_string(),
        },
        pp(Punct::LBrace),
        pp(Punct::LBracket),
        pp(Punct::RBrace),
    ]);
    match p.parse_ts_module_item(MAX_TYPE_NESTING) {
        Err(d) => assert_eq!(d.error, SyntaxError::DeclarationExpected),
        Ok(t) => panic!("expected a hard failure, got {:?}", t),
    }
}

#[test]
fn reserved_word_cannot_open_a_type_reference() {
    // `type A = function;` fails: `function` cannot start a type.
    let mut p = tokens_of(vec![kk(Kw::Function)]);
    match p.parse_type() {
        Err(d) => assert_eq!(d.error, SyntaxError::TypeExpected),
        Ok(t) => panic!("expected a hard failure, got {:?}", t),
    }
}

#[test]
fn unreserved_keyword_still_opens_a_reference() {
    // Contextual words such as `declare` stay usable as type names.
    let mut p = tokens_of(vec![kk(Kw::Declare)]);
    let t = p.parse_type().unwrap();
    assert!(matches!(&*t, TsType::TsTypeRef(_)));
}

#[test]
fn enum_bad_initializer_token_is_skipped_once() {
    // `enum E { a ! b }`: the bad token is skipped with one recorded
    // defect, and the next member still parses.
    let mut p = tokens_of(vec![
        kk(Kw::Enum),
        ww("E"),
        pp(Punct::LBrace),
        ww("a"),
        pp(Punct::Hash),
        ww("b"),
        pp(Punct::RBrace),
    ]);
    let d = p.parse_ts_module_item(ts_type_parser::MAX_TYPE_NESTING).unwrap();
    match d {
        ts_type_parser::Decl::TsEnum(e) => assert_eq!(e.members.len(), 2),
        other => panic!("expected an enum, got {:?}", other),
    }
    assert_eq!(p.diags.len(), 1);
    assert_eq!(p.diags[0].error, SyntaxError::Expected(Punct::Comma));
}

#[test]
fn lookahead_never_moves_the_cursor() {
    // `new` inside a type literal that is not a construct signature falls
    // through to a property named `new`.
    let mut p = tokens_of(vec![
        pp(Punct::LBrace),
        kk(Kw::New),
        pp(Punct::Colon),
        ww("A"),
        pp(Punct::RBrace),
    ]);
    let t = p.parse_type().unwrap();
    match &*t {
        TsType::TsTypeLit(l) => {
            assert_eq!(l.members.len(), 1);
            assert!(matches!(
                &l.members[0],
                ts_type_parser::TsTypeElement::TsPropertySignature(_)
            ));
        }
        other => panic!("expected type literal, got {:?}", other),
    }
    assert!(p.diags.is_empty());
}
