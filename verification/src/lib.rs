//! Recursive-descent parser for the TypeScript type grammar.
//!
//! The parser consumes an immutable, pre-lexed token buffer through a cursor
//! and produces typed AST nodes for type expressions and type-level
//! declarations.  Ambiguous productions are resolved by speculative parsing
//! with full state rollback.
//!
//! Every parsing function carries a contract ([`state::parse_step`]): the
//! token buffer is never touched, the context flags are restored on every
//! exit path, the cursor never moves backwards, and the diagnostics sink is
//! append-only and, under the ignore-errors flag of a speculative attempt,
//! not touched at all — a discarded attempt is observationally silent.
//! Every tree a parsing function returns satisfies the shape invariant
//! ([`ast::wf_ty`]): union and intersection nodes hold at least two
//! constituents (never a single-element wrapper) and tuple element lists
//! never place a required element after an optional one.  Nesting depth is
//! bounded by an explicit counter, so adversarial inputs fail with a
//! diagnostic instead of exhausting the native stack.

mod ast;
mod chain;
mod decls;
mod diag;
mod exprs;
mod fns;
mod lists;
mod members;
mod primary;
mod props;
mod tuple;
mod span;
mod state;
mod token;

pub use ast::{
    BigIntLit, BindingIdent, BoolLit, Decl, Expr, FnDeclSig, Ident, Lit, NumLit, ObjectLit,
    PropEntry, PropKey, RestParam, StrLit, TplElement, TruePlusMinus, TsArrayType,
    TsCallSignatureDecl, TsConditionalType, TsConstructSignatureDecl, TsConstructorType,
    TsEntityName, TsEnumDecl, TsEnumMember, TsEnumMemberId, TsExprWithTypeArgs,
    TsExternalModuleRef, TsFnOrConstructorType, TsFnParam, TsFnType, TsGetterSignature,
    TsImportCallOptions, TsImportEqualsDecl, TsImportType, TsIndexSignature, TsIndexedAccessType,
    TsInferType, TsInterfaceBody, TsInterfaceDecl, TsIntersectionType, TsKeywordType,
    TsKeywordTypeKind, TsLit, TsLitType, TsMappedType, TsMethodSignature, TsModuleBlock,
    TsModuleDecl, TsModuleName, TsModuleRef, TsNamespaceBody, TsNamespaceDecl, TsOptionalType,
    TsParenthesizedType, TsPropertySignature, TsQualifiedName, TsRestType, TsSetterSignature,
    TsThisType, TsThisTypeOrIdent, TsTplLitType, TsTupleElement, TsTupleType, TsType, TsTypeAliasDecl,
    TsTypeAnn, TsTypeElement, TsTypeLit, TsTypeOperator, TsTypeOperatorOp, TsTypeParam,
    TsTypeParamDecl, TsTypeParamInstantiation, TsTypePredicate, TsTypeQuery, TsTypeQueryExpr,
    TsTypeRef, TsUnionOrIntersectionType, TsUnionType, TupleLabel, VarDecl, VarDeclKind,
    VarDeclarator, tuple_elem_is_optional, tuple_elem_is_rest, tuple_order_ok,
    union_or_intersection_arity_ok,
};
pub use chain::{UnionOrIntersection, MAX_TYPE_NESTING};
pub use decls::make_decl_declare;
pub use diag::{Diagnostic, SyntaxError};
pub use lists::ParsingContext;
pub use members::SignatureParsingMode;
pub use props::{
    empty_type_args_at_last, neg_num_at, neg_num_fold_result, stops_type, ty_atom_at,
    ty_atom_len, ty_atom_node, ty_atom_ok_result,
};
pub use span::Span;
pub use state::{Flags, Mark, Parser};
pub use token::{Kw, Punct, Token, TokenAndSpan, Word};
