use crate::span::Span;
use crate::token::{Kw, Word};
use vstd::prelude::*;

verus! {

/// An identifier in the produced tree.  The word keeps its tokenizer
/// classification, so a keyword used as a name stays recognizable.
#[derive(Debug)]
pub struct Ident {
    pub span: Span,
    pub sym: Word,
}

/// A dotted chain naming a type or namespace.
#[derive(Debug)]
pub enum TsEntityName {
    Ident(Ident),
    Qualified(Box<TsQualifiedName>),
}

#[derive(Debug)]
pub struct TsQualifiedName {
    pub span: Span,
    pub left: TsEntityName,
    pub right: Ident,
}

/// A string literal with its cooked value and raw source text.
#[derive(Debug)]
pub struct StrLit {
    pub span: Span,
    pub value: String,
    pub raw: String,
}

/// A numeric literal; the sign is part of the value and of the raw text.
#[derive(Debug)]
pub struct NumLit {
    pub span: Span,
    pub value: i64,
    pub raw: String,
}

/// A bigint literal, kept as a sign and raw digits.
#[derive(Debug)]
pub struct BigIntLit {
    pub span: Span,
    pub negative: bool,
    pub raw: String,
}

#[derive(Debug)]
pub struct BoolLit {
    pub span: Span,
    pub value: bool,
}

// ---------------------------------------------------------------------------
// Expressions.  The host expression grammar is a collaborator of this parser;
// the subset below covers the expression positions the type grammar owns:
// enum initializers, computed member keys, heritage-clause elements and
// import-attribute objects.
// ---------------------------------------------------------------------------

#[derive(Debug)]
pub enum Lit {
    Str(StrLit),
    Num(NumLit),
    BigInt(BigIntLit),
    Bool(BoolLit),
}

#[derive(Debug)]
pub enum Expr {
    Ident(Ident),
    PrivateName { span: Span, id: Ident },
    Lit(Lit),
    UnaryMinus { span: Span, arg: Box<Expr> },
    Paren { span: Span, expr: Box<Expr> },
    Member { span: Span, obj: Box<Expr>, prop: Ident },
    Object(ObjectLit),
}

#[derive(Debug)]
pub struct ObjectLit {
    pub span: Span,
    pub props: Vec<PropEntry>,
}

#[derive(Debug)]
pub struct PropEntry {
    pub span: Span,
    pub key: PropKey,
    pub value: Box<Expr>,
}

#[derive(Debug)]
pub enum PropKey {
    Ident(Ident),
    Str(StrLit),
    Num(NumLit),
}

// ---------------------------------------------------------------------------
// Type parameters, arguments and annotations.
// ---------------------------------------------------------------------------

#[derive(Debug)]
pub struct TsTypeParam {
    pub span: Span,
    pub name: Ident,
    pub is_in: bool,
    pub is_out: bool,
    pub is_const: bool,
    pub constraint: Option<Box<TsType>>,
    pub default: Option<Box<TsType>>,
}

#[derive(Debug)]
pub struct TsTypeParamDecl {
    pub span: Span,
    pub params: Vec<TsTypeParam>,
}

#[derive(Debug)]
pub struct TsTypeParamInstantiation {
    pub span: Span,
    pub params: Vec<Box<TsType>>,
}

#[derive(Debug)]
pub struct TsTypeAnn {
    pub span: Span,
    pub type_ann: Box<TsType>,
}

/// A plain named parameter of a signature, with optionality and annotation.
#[derive(Debug)]
pub struct BindingIdent {
    pub span: Span,
    pub id: Ident,
    pub optional: bool,
    pub type_ann: Option<TsTypeAnn>,
}

#[derive(Debug)]
pub struct RestParam {
    pub span: Span,
    pub arg: BindingIdent,
}

#[derive(Debug)]
pub enum TsFnParam {
    Ident(BindingIdent),
    Rest(RestParam),
}

// ---------------------------------------------------------------------------
// Types.
// ---------------------------------------------------------------------------

#[derive(Clone, Copy, PartialEq, Eq, Structural, Debug)]
pub enum TsKeywordTypeKind {
    Any,
    Unknown,
    Number,
    Object,
    Boolean,
    BigInt,
    String,
    Symbol,
    Void,
    Undefined,
    Null,
    Never,
    Intrinsic,
}

#[derive(Debug)]
pub struct TsKeywordType {
    pub span: Span,
    pub kind: TsKeywordTypeKind,
}

#[derive(Debug)]
pub struct TsThisType {
    pub span: Span,
}

#[derive(Debug)]
pub struct TsFnType {
    pub span: Span,
    pub type_params: Option<TsTypeParamDecl>,
    pub params: Vec<TsFnParam>,
    pub type_ann: TsTypeAnn,
}

#[derive(Debug)]
pub struct TsConstructorType {
    pub span: Span,
    pub is_abstract: bool,
    pub type_params: Option<TsTypeParamDecl>,
    pub params: Vec<TsFnParam>,
    pub type_ann: TsTypeAnn,
}

#[derive(Debug)]
pub enum TsFnOrConstructorType {
    TsFnType(TsFnType),
    TsConstructorType(TsConstructorType),
}

#[derive(Debug)]
pub struct TsTypeRef {
    pub span: Span,
    pub name: TsEntityName,
    pub type_params: Option<TsTypeParamInstantiation>,
}

#[derive(Debug)]
pub enum TsTypeQueryExpr {
    TsEntityName(TsEntityName),
    Import(TsImportType),
}

#[derive(Debug)]
pub struct TsTypeQuery {
    pub span: Span,
    pub expr_name: TsTypeQueryExpr,
    pub type_args: Option<TsTypeParamInstantiation>,
}

#[derive(Debug)]
pub struct TsImportCallOptions {
    pub span: Span,
    pub with_object: ObjectLit,
}

#[derive(Debug)]
pub struct TsImportType {
    pub span: Span,
    pub arg: StrLit,
    pub qualifier: Option<TsEntityName>,
    pub type_args: Option<TsTypeParamInstantiation>,
    pub attributes: Option<TsImportCallOptions>,
}

#[derive(Debug)]
pub struct TsTypeLit {
    pub span: Span,
    pub members: Vec<TsTypeElement>,
}

#[derive(Debug)]
pub struct TsArrayType {
    pub span: Span,
    pub elem_type: Box<TsType>,
}

/// The optional label of a tuple element (`name:` or `...name:`).
#[derive(Debug)]
pub struct TupleLabel {
    pub span: Span,
    pub id: Ident,
    pub optional: bool,
    pub rest: bool,
}

#[derive(Debug)]
pub struct TsTupleElement {
    pub span: Span,
    pub label: Option<TupleLabel>,
    pub ty: Box<TsType>,
}

#[derive(Debug)]
pub struct TsTupleType {
    pub span: Span,
    pub elem_types: Vec<TsTupleElement>,
}

#[derive(Debug)]
pub struct TsOptionalType {
    pub span: Span,
    pub type_ann: Box<TsType>,
}

#[derive(Debug)]
pub struct TsRestType {
    pub span: Span,
    pub type_ann: Box<TsType>,
}

#[derive(Debug)]
pub struct TsUnionType {
    pub span: Span,
    pub types: Vec<Box<TsType>>,
}

#[derive(Debug)]
pub struct TsIntersectionType {
    pub span: Span,
    pub types: Vec<Box<TsType>>,
}

#[derive(Debug)]
pub enum TsUnionOrIntersectionType {
    TsUnionType(TsUnionType),
    TsIntersectionType(TsIntersectionType),
}

#[derive(Debug)]
pub struct TsConditionalType {
    pub span: Span,
    pub check_type: Box<TsType>,
    pub extends_type: Box<TsType>,
    pub true_type: Box<TsType>,
    pub false_type: Box<TsType>,
}

#[derive(Debug)]
pub struct TsInferType {
    pub span: Span,
    pub type_param: TsTypeParam,
}

#[derive(Debug)]
pub struct TsParenthesizedType {
    pub span: Span,
    pub type_ann: Box<TsType>,
}

#[derive(Clone, Copy, PartialEq, Eq, Structural, Debug)]
pub enum TsTypeOperatorOp {
    KeyOf,
    Unique,
    ReadOnly,
}

#[derive(Debug)]
pub struct TsTypeOperator {
    pub span: Span,
    pub op: TsTypeOperatorOp,
    pub type_ann: Box<TsType>,
}

#[derive(Debug)]
pub struct TsIndexedAccessType {
    pub span: Span,
    pub readonly: bool,
    pub obj_type: Box<TsType>,
    pub index_type: Box<TsType>,
}

/// Tri-state value of a mapped-type modifier: bare, `+`-prefixed or
/// `-`-prefixed.
#[derive(Clone, Copy, PartialEq, Eq, Structural, Debug)]
pub enum TruePlusMinus {
    True,
    Plus,
    Minus,
}

#[derive(Debug)]
pub struct TsMappedType {
    pub span: Span,
    pub readonly: Option<TruePlusMinus>,
    pub type_param: TsTypeParam,
    pub name_type: Option<Box<TsType>>,
    pub optional: Option<TruePlusMinus>,
    pub type_ann: Option<Box<TsType>>,
}

#[derive(Debug)]
pub struct TplElement {
    pub span: Span,
    pub raw: String,
    pub tail: bool,
}

#[derive(Debug)]
pub struct TsTplLitType {
    pub span: Span,
    pub types: Vec<Box<TsType>>,
    pub quasis: Vec<TplElement>,
}

#[derive(Debug)]
pub enum TsLit {
    Number(NumLit),
    Str(StrLit),
    Bool(BoolLit),
    BigInt(BigIntLit),
    Tpl(TsTplLitType),
}

#[derive(Debug)]
pub struct TsLitType {
    pub span: Span,
    pub lit: TsLit,
}

#[derive(Debug)]
pub enum TsThisTypeOrIdent {
    TsThisType(TsThisType),
    Ident(Ident),
}

#[derive(Debug)]
pub struct TsTypePredicate {
    pub span: Span,
    pub asserts: bool,
    pub param_name: TsThisTypeOrIdent,
    pub type_ann: Option<TsTypeAnn>,
}

/// The closed set of type nodes.
#[derive(Debug)]
pub enum TsType {
    TsKeywordType(TsKeywordType),
    TsThisType(TsThisType),
    TsFnOrConstructorType(TsFnOrConstructorType),
    TsTypeRef(TsTypeRef),
    TsTypeQuery(TsTypeQuery),
    TsTypeLit(TsTypeLit),
    TsArrayType(TsArrayType),
    TsTupleType(TsTupleType),
    TsOptionalType(TsOptionalType),
    TsRestType(TsRestType),
    TsUnionOrIntersectionType(TsUnionOrIntersectionType),
    TsConditionalType(TsConditionalType),
    TsInferType(TsInferType),
    TsParenthesizedType(TsParenthesizedType),
    TsTypeOperator(TsTypeOperator),
    TsIndexedAccessType(TsIndexedAccessType),
    TsMappedType(TsMappedType),
    TsLitType(TsLitType),
    TsTypePredicate(TsTypePredicate),
    TsImportType(TsImportType),
}

// ---------------------------------------------------------------------------
// Interface and type-literal members.
// ---------------------------------------------------------------------------

#[derive(Debug)]
pub struct TsCallSignatureDecl {
    pub span: Span,
    pub params: Vec<TsFnParam>,
    pub type_ann: Option<TsTypeAnn>,
    pub type_params: Option<TsTypeParamDecl>,
}

#[derive(Debug)]
pub struct TsConstructSignatureDecl {
    pub span: Span,
    pub params: Vec<TsFnParam>,
    pub type_ann: Option<TsTypeAnn>,
    pub type_params: Option<TsTypeParamDecl>,
}

#[derive(Debug)]
pub struct TsPropertySignature {
    pub span: Span,
    pub readonly: bool,
    pub key: Box<Expr>,
    pub computed: bool,
    pub optional: bool,
    pub type_ann: Option<TsTypeAnn>,
}

#[derive(Debug)]
pub struct TsGetterSignature {
    pub span: Span,
    pub key: Box<Expr>,
    pub computed: bool,
    pub type_ann: Option<TsTypeAnn>,
}

#[derive(Debug)]
pub struct TsSetterSignature {
    pub span: Span,
    pub key: Box<Expr>,
    pub computed: bool,
    pub param: TsFnParam,
}

#[derive(Debug)]
pub struct TsMethodSignature {
    pub span: Span,
    pub key: Box<Expr>,
    pub computed: bool,
    pub optional: bool,
    pub params: Vec<TsFnParam>,
    pub type_ann: Option<TsTypeAnn>,
    pub type_params: Option<TsTypeParamDecl>,
}

#[derive(Debug)]
pub struct TsIndexSignature {
    pub span: Span,
    pub readonly: bool,
    pub is_static: bool,
    pub params: Vec<TsFnParam>,
    pub type_ann: Option<TsTypeAnn>,
}

#[derive(Debug)]
pub enum TsTypeElement {
    TsCallSignatureDecl(TsCallSignatureDecl),
    TsConstructSignatureDecl(TsConstructSignatureDecl),
    TsPropertySignature(TsPropertySignature),
    TsGetterSignature(TsGetterSignature),
    TsSetterSignature(TsSetterSignature),
    TsMethodSignature(TsMethodSignature),
    TsIndexSignature(TsIndexSignature),
}

// ---------------------------------------------------------------------------
// Declarations.
// ---------------------------------------------------------------------------

#[derive(Debug)]
pub enum TsEnumMemberId {
    Ident(Ident),
    Str(StrLit),
}

#[derive(Debug)]
pub struct TsEnumMember {
    pub span: Span,
    pub id: TsEnumMemberId,
    pub init: Option<Box<Expr>>,
}

#[derive(Debug)]
pub struct TsEnumDecl {
    pub span: Span,
    pub declare: bool,
    pub is_const: bool,
    pub id: Ident,
    pub members: Vec<TsEnumMember>,
}

#[derive(Debug)]
pub enum TsModuleName {
    Ident(Ident),
    Str(StrLit),
}

/// An ambient module body: the statement subset this parser owns, namely
/// type-level declarations.
#[derive(Debug)]
pub struct TsModuleBlock {
    pub span: Span,
    pub body: Vec<Decl>,
}

#[derive(Debug)]
pub enum TsNamespaceBody {
    TsModuleBlock(TsModuleBlock),
    TsNamespaceDecl(TsNamespaceDecl),
}

#[derive(Debug)]
pub struct TsNamespaceDecl {
    pub span: Span,
    pub declare: bool,
    pub global: bool,
    pub id: Ident,
    pub body: Box<TsNamespaceBody>,
}

#[derive(Debug)]
pub struct TsModuleDecl {
    pub span: Span,
    pub declare: bool,
    pub global: bool,
    pub namespace: bool,
    pub id: TsModuleName,
    pub body: Option<TsNamespaceBody>,
}

#[derive(Debug)]
pub struct TsExprWithTypeArgs {
    pub span: Span,
    pub expr: Box<Expr>,
    pub type_args: Option<TsTypeParamInstantiation>,
}

#[derive(Debug)]
pub struct TsInterfaceBody {
    pub span: Span,
    pub body: Vec<TsTypeElement>,
}

#[derive(Debug)]
pub struct TsInterfaceDecl {
    pub span: Span,
    pub declare: bool,
    pub id: Ident,
    pub type_params: Option<TsTypeParamDecl>,
    pub extends: Vec<TsExprWithTypeArgs>,
    pub body: TsInterfaceBody,
}

#[derive(Debug)]
pub struct TsTypeAliasDecl {
    pub span: Span,
    pub declare: bool,
    pub id: Ident,
    pub type_params: Option<TsTypeParamDecl>,
    pub type_ann: Box<TsType>,
}

#[derive(Debug)]
pub struct TsExternalModuleRef {
    pub span: Span,
    pub expr: StrLit,
}

#[derive(Debug)]
pub enum TsModuleRef {
    TsEntityName(TsEntityName),
    TsExternalModuleRef(TsExternalModuleRef),
}

#[derive(Debug)]
pub struct TsImportEqualsDecl {
    pub span: Span,
    pub is_export: bool,
    pub is_type_only: bool,
    pub id: Ident,
    pub module_ref: TsModuleRef,
}

#[derive(Clone, Copy, PartialEq, Eq, Structural, Debug)]
pub enum VarDeclKind {
    Var,
    Let,
    Const,
}

#[derive(Debug)]
pub struct VarDeclarator {
    pub span: Span,
    pub name: BindingIdent,
    pub init: Option<Box<Expr>>,
}

#[derive(Debug)]
pub struct VarDecl {
    pub span: Span,
    pub kind: VarDeclKind,
    pub declare: bool,
    pub decls: Vec<VarDeclarator>,
}

/// An ambient function declaration: signature only, as `declare` bodies have
/// no code.
#[derive(Debug)]
pub struct FnDeclSig {
    pub span: Span,
    pub declare: bool,
    pub id: Ident,
    pub type_params: Option<TsTypeParamDecl>,
    pub params: Vec<TsFnParam>,
    pub return_type: Option<TsTypeAnn>,
}

/// The declarations this parser can produce.
#[derive(Debug)]
pub enum Decl {
    TsInterface(Box<TsInterfaceDecl>),
    TsTypeAlias(Box<TsTypeAliasDecl>),
    TsEnum(Box<TsEnumDecl>),
    TsModule(Box<TsModuleDecl>),
    TsImportEquals(Box<TsImportEqualsDecl>),
    Var(Box<VarDecl>),
    Fn(Box<FnDeclSig>),
}

// ---------------------------------------------------------------------------
// Structural spec functions used by the parser's contracts.
// ---------------------------------------------------------------------------

pub open spec fn tuple_elem_is_optional(e: TsTupleElement) -> bool {
    ||| *e.ty is TsOptionalType
    ||| (e.label matches Some(l) && l.optional)
}

pub open spec fn tuple_elem_is_rest(e: TsTupleElement) -> bool {
    ||| *e.ty is TsRestType
    ||| (e.label matches Some(l) && l.rest)
}

/// No required element may follow an optional element; rest elements are
/// exempt wherever they stand.
pub open spec fn tuple_order_ok(elems: Seq<TsTupleElement>) -> bool {
    forall|i: int, j: int|
        0 <= i < j < elems.len() && tuple_elem_is_optional(elems[i]) && !tuple_elem_is_rest(
            elems[j],
        ) ==> tuple_elem_is_optional(elems[j])
}

/// A union or intersection node is only ever built for two or more
/// constituents; a single constituent is returned bare.
pub open spec fn union_or_intersection_arity_ok(t: TsType) -> bool {
    t matches TsType::TsUnionOrIntersectionType(u) ==> match u {
        TsUnionOrIntersectionType::TsUnionType(v) => v.types.len() >= 2,
        TsUnionOrIntersectionType::TsIntersectionType(v) => v.types.len() >= 2,
    }
}

// ---------------------------------------------------------------------------
// Shape invariant of every tree this parser produces: union and intersection
// nodes are n-ary with at least two constituents (never a single-element
// wrapper), and tuple element lists obey the required/optional ordering rule.
// ---------------------------------------------------------------------------

pub open spec fn wf_ty_opt(t: Option<Box<TsType>>) -> bool
    decreases t,
{
    t matches Some(b) ==> wf_ty(*b)
}

pub open spec fn wf_ann(a: TsTypeAnn) -> bool
    decreases a,
{
    wf_ty(*a.type_ann)
}

pub open spec fn wf_ann_opt(a: Option<TsTypeAnn>) -> bool
    decreases a,
{
    a matches Some(x) ==> wf_ann(x)
}

pub open spec fn wf_type_param(p: TsTypeParam) -> bool
    decreases p,
{
    wf_ty_opt(p.constraint) && wf_ty_opt(p.default)
}

pub open spec fn wf_param_decl(d: TsTypeParamDecl) -> bool
    decreases d,
{
    forall|i: int| 0 <= i < d.params.len() ==> wf_type_param(#[trigger] d.params@[i])
}

pub open spec fn wf_param_decl_opt(d: Option<TsTypeParamDecl>) -> bool
    decreases d,
{
    d matches Some(x) ==> wf_param_decl(x)
}

pub open spec fn wf_inst(i: TsTypeParamInstantiation) -> bool
    decreases i,
{
    forall|j: int| 0 <= j < i.params.len() ==> wf_ty(*(#[trigger] i.params@[j]))
}

pub open spec fn wf_inst_opt(i: Option<TsTypeParamInstantiation>) -> bool
    decreases i,
{
    i matches Some(x) ==> wf_inst(x)
}

pub open spec fn wf_fn_param(p: TsFnParam) -> bool
    decreases p,
{
    match p {
        TsFnParam::Ident(b) => wf_ann_opt(b.type_ann),
        TsFnParam::Rest(r) => wf_ann_opt(r.arg.type_ann),
    }
}

pub open spec fn wf_fn_params(ps: Seq<TsFnParam>) -> bool
    decreases ps,
{
    forall|i: int| 0 <= i < ps.len() ==> wf_fn_param(#[trigger] ps[i])
}

pub open spec fn wf_member(m: TsTypeElement) -> bool
    decreases m,
{
    match m {
        TsTypeElement::TsCallSignatureDecl(s) => wf_fn_params(s.params@) && wf_ann_opt(s.type_ann)
            && wf_param_decl_opt(s.type_params),
        TsTypeElement::TsConstructSignatureDecl(s) => wf_fn_params(s.params@) && wf_ann_opt(
            s.type_ann,
        ) && wf_param_decl_opt(s.type_params),
        TsTypeElement::TsPropertySignature(s) => wf_ann_opt(s.type_ann),
        TsTypeElement::TsGetterSignature(s) => wf_ann_opt(s.type_ann),
        TsTypeElement::TsSetterSignature(s) => wf_fn_param(s.param),
        TsTypeElement::TsMethodSignature(s) => wf_fn_params(s.params@) && wf_ann_opt(s.type_ann)
            && wf_param_decl_opt(s.type_params),
        TsTypeElement::TsIndexSignature(s) => wf_fn_params(s.params@) && wf_ann_opt(s.type_ann),
    }
}

pub open spec fn wf_members(ms: Seq<TsTypeElement>) -> bool
    decreases ms,
{
    forall|i: int| 0 <= i < ms.len() ==> wf_member(#[trigger] ms[i])
}

pub open spec fn wf_tuple_elem(e: TsTupleElement) -> bool
    decreases e,
{
    wf_ty(*e.ty)
}

pub open spec fn wf_ty(t: TsType) -> bool
    decreases t,
{
    match t {
        TsType::TsKeywordType(_) => true,
        TsType::TsThisType(_) => true,
        TsType::TsFnOrConstructorType(f) => match f {
            TsFnOrConstructorType::TsFnType(g) => wf_param_decl_opt(g.type_params) && wf_fn_params(
                g.params@,
            ) && wf_ann(g.type_ann),
            TsFnOrConstructorType::TsConstructorType(g) => wf_param_decl_opt(g.type_params)
                && wf_fn_params(g.params@) && wf_ann(g.type_ann),
        },
        TsType::TsTypeRef(r) => wf_inst_opt(r.type_params),
        TsType::TsTypeQuery(q) => {
            &&& match q.expr_name {
                TsTypeQueryExpr::TsEntityName(_) => true,
                TsTypeQueryExpr::Import(i) => wf_inst_opt(i.type_args),
            }
            &&& wf_inst_opt(q.type_args)
        },
        TsType::TsTypeLit(l) => wf_members(l.members@),
        TsType::TsArrayType(a) => wf_ty(*a.elem_type),
        TsType::TsTupleType(tt) => {
            &&& forall|i: int|
                0 <= i < tt.elem_types.len() ==> wf_tuple_elem(#[trigger] tt.elem_types@[i])
            &&& tuple_order_ok(tt.elem_types@)
        },
        TsType::TsOptionalType(o) => wf_ty(*o.type_ann),
        TsType::TsRestType(r) => wf_ty(*r.type_ann),
        TsType::TsUnionOrIntersectionType(u) => match u {
            TsUnionOrIntersectionType::TsUnionType(v) => {
                &&& v.types.len() >= 2
                &&& forall|i: int| 0 <= i < v.types.len() ==> wf_ty(*(#[trigger] v.types@[i]))
            },
            TsUnionOrIntersectionType::TsIntersectionType(v) => {
                &&& v.types.len() >= 2
                &&& forall|i: int| 0 <= i < v.types.len() ==> wf_ty(*(#[trigger] v.types@[i]))
            },
        },
        TsType::TsConditionalType(c) => wf_ty(*c.check_type) && wf_ty(*c.extends_type) && wf_ty(
            *c.true_type,
        ) && wf_ty(*c.false_type),
        TsType::TsInferType(i) => wf_type_param(i.type_param),
        TsType::TsParenthesizedType(p) => wf_ty(*p.type_ann),
        TsType::TsTypeOperator(o) => wf_ty(*o.type_ann),
        TsType::TsIndexedAccessType(a) => wf_ty(*a.obj_type) && wf_ty(*a.index_type),
        TsType::TsMappedType(m) => wf_type_param(m.type_param) && wf_ty_opt(m.name_type)
            && wf_ty_opt(m.type_ann),
        TsType::TsLitType(l) => match l.lit {
            TsLit::Tpl(tpl) => forall|i: int|
                0 <= i < tpl.types.len() ==> wf_ty(*(#[trigger] tpl.types@[i])),
            _ => true,
        },
        TsType::TsTypePredicate(p) => wf_ann_opt(p.type_ann),
        TsType::TsImportType(i) => wf_inst_opt(i.type_args),
    }
}

/// The keyword-type kind a built-in keyword-type name denotes.  Only
/// meaningful for names satisfying `spec_is_keyword_type_name`.
pub open spec fn spec_kw_type_kind(k: Kw) -> TsKeywordTypeKind {
    if k == Kw::Void {
        TsKeywordTypeKind::Void
    } else if k == Kw::Null {
        TsKeywordTypeKind::Null
    } else if k == Kw::Any {
        TsKeywordTypeKind::Any
    } else if k == Kw::Boolean {
        TsKeywordTypeKind::Boolean
    } else if k == Kw::Bigint {
        TsKeywordTypeKind::BigInt
    } else if k == Kw::Never {
        TsKeywordTypeKind::Never
    } else if k == Kw::NumberTy {
        TsKeywordTypeKind::Number
    } else if k == Kw::ObjectTy {
        TsKeywordTypeKind::Object
    } else if k == Kw::StringTy {
        TsKeywordTypeKind::String
    } else if k == Kw::SymbolTy {
        TsKeywordTypeKind::Symbol
    } else if k == Kw::Unknown {
        TsKeywordTypeKind::Unknown
    } else if k == Kw::Undefined {
        TsKeywordTypeKind::Undefined
    } else {
        TsKeywordTypeKind::Intrinsic
    }
}

/// The static lookup from identifier text (already classified by the
/// tokenizer) to a keyword-type tag.
pub fn kw_type_kind(k: Kw) -> (r: Option<TsKeywordTypeKind>)
    ensures
        r is Some <==> crate::token::spec_is_keyword_type_name(k),
        r matches Some(kind) ==> kind == spec_kw_type_kind(k),
{
    match k {
        Kw::Void => Some(TsKeywordTypeKind::Void),
        Kw::Null => Some(TsKeywordTypeKind::Null),
        Kw::Any => Some(TsKeywordTypeKind::Any),
        Kw::Boolean => Some(TsKeywordTypeKind::Boolean),
        Kw::Bigint => Some(TsKeywordTypeKind::BigInt),
        Kw::Never => Some(TsKeywordTypeKind::Never),
        Kw::NumberTy => Some(TsKeywordTypeKind::Number),
        Kw::ObjectTy => Some(TsKeywordTypeKind::Object),
        Kw::StringTy => Some(TsKeywordTypeKind::String),
        Kw::SymbolTy => Some(TsKeywordTypeKind::Symbol),
        Kw::Unknown => Some(TsKeywordTypeKind::Unknown),
        Kw::Undefined => Some(TsKeywordTypeKind::Undefined),
        Kw::Intrinsic => Some(TsKeywordTypeKind::Intrinsic),
        _ => None,
    }
}

// ---------------------------------------------------------------------------
// Shape invariant of produced declarations.
// ---------------------------------------------------------------------------

pub open spec fn wf_heritage(h: TsExprWithTypeArgs) -> bool {
    wf_inst_opt(h.type_args)
}

pub open spec fn wf_var_decl(v: VarDecl) -> bool {
    forall|i: int|
        0 <= i < v.decls.len() ==> wf_ann_opt((#[trigger] v.decls@[i]).name.type_ann)
}

pub open spec fn wf_decl(d: Decl) -> bool
    decreases d,
{
    match d {
        Decl::TsInterface(i) => {
            &&& wf_param_decl_opt(i.type_params)
            &&& forall|j: int| 0 <= j < i.extends.len() ==> wf_heritage(#[trigger] i.extends@[j])
            &&& wf_members(i.body.body@)
        },
        Decl::TsTypeAlias(a) => wf_param_decl_opt(a.type_params) && wf_ty(*a.type_ann),
        Decl::TsEnum(_) => true,
        Decl::TsModule(m) => m.body matches Some(b) ==> wf_ns_body(b),
        Decl::TsImportEquals(_) => true,
        Decl::Var(v) => wf_var_decl(*v),
        Decl::Fn(f) => wf_param_decl_opt(f.type_params) && wf_fn_params(f.params@) && wf_ann_opt(
            f.return_type,
        ),
    }
}

pub open spec fn wf_decls(ds: Seq<Decl>) -> bool
    decreases ds,
{
    forall|i: int| 0 <= i < ds.len() ==> wf_decl(#[trigger] ds[i])
}

pub open spec fn wf_ns_body(b: TsNamespaceBody) -> bool
    decreases b,
{
    match b {
        TsNamespaceBody::TsModuleBlock(blk) => wf_decls(blk.body@),
        TsNamespaceBody::TsNamespaceDecl(n) => wf_ns_body(*n.body),
    }
}

} // verus!
