use crate::ast::{
    wf_decl, wf_decls, wf_heritage, wf_ns_body, wf_var_decl, Decl, Expr, FnDeclSig, Ident, Lit,
    StrLit, TsEnumDecl, TsEnumMember, TsEnumMemberId, TsExprWithTypeArgs, TsExternalModuleRef,
    TsImportEqualsDecl, TsInterfaceBody, TsInterfaceDecl, TsModuleBlock, TsModuleDecl,
    TsModuleName, TsModuleRef, TsNamespaceBody, TsNamespaceDecl, TsTypeAliasDecl, VarDecl,
    VarDeclKind, VarDeclarator,
};
use crate::diag::{Diagnostic, SyntaxError};
use crate::lists::ParsingContext;
use crate::exprs::num_expr_at;
use crate::props::{alias_tail_at, alias_tail_result};
use crate::span::Span;
use crate::state::{parse_step, Parser};
use crate::token::{Kw, Punct, Token, Word};
use vstd::prelude::*;

verus! {

/// Mark a declaration as ambient: the declare flag is set and every other
/// part of the declaration is kept as it was.  An import-equals declaration
/// carries no ambient flag and passes through whole.
pub fn make_decl_declare(decl: Decl) -> (r: Decl)
    ensures
        wf_decl(decl) ==> wf_decl(r),
        decl matches Decl::TsInterface(a) ==> (r matches Decl::TsInterface(b) && b.declare
            && b.span == a.span && b.id == a.id && b.type_params == a.type_params && b.extends
            == a.extends && b.body == a.body),
        decl matches Decl::TsTypeAlias(a) ==> (r matches Decl::TsTypeAlias(b) && b.declare
            && b.span == a.span && b.id == a.id && b.type_params == a.type_params && b.type_ann
            == a.type_ann),
        decl matches Decl::TsEnum(a) ==> (r matches Decl::TsEnum(b) && b.declare && b.span
            == a.span && b.is_const == a.is_const && b.id == a.id && b.members == a.members),
        decl matches Decl::TsModule(a) ==> (r matches Decl::TsModule(b) && b.declare && b.span
            == a.span && b.global == a.global && b.namespace == a.namespace && b.id == a.id
            && b.body == a.body),
        decl matches Decl::TsImportEquals(a) ==> (r matches Decl::TsImportEquals(b) && b == a),
        decl matches Decl::Var(a) ==> (r matches Decl::Var(b) && b.declare && b.span == a.span
            && b.kind == a.kind && b.decls == a.decls),
        decl matches Decl::Fn(a) ==> (r matches Decl::Fn(b) && b.declare && b.span == a.span
            && b.id == a.id && b.type_params == a.type_params && b.params == a.params
            && b.return_type == a.return_type),
{
    match decl {
        Decl::TsInterface(mut i) => {
            i.declare = true;
            Decl::TsInterface(i)
        },
        Decl::TsTypeAlias(mut a) => {
            a.declare = true;
            Decl::TsTypeAlias(a)
        },
        Decl::TsEnum(mut e) => {
            e.declare = true;
            Decl::TsEnum(e)
        },
        Decl::TsModule(mut m) => {
            m.declare = true;
            Decl::TsModule(m)
        },
        Decl::TsImportEquals(d) => Decl::TsImportEquals(d),
        Decl::Var(mut v) => {
            v.declare = true;
            Decl::Var(v)
        },
        Decl::Fn(mut f) => {
            f.declare = true;
            Decl::Fn(f)
        },
    }
}


/// The character of one decimal digit.
pub open spec fn spec_digit_char(n: nat) -> char {
    if n == 0 {
        '0'
    } else if n == 1 {
        '1'
    } else if n == 2 {
        '2'
    } else if n == 3 {
        '3'
    } else if n == 4 {
        '4'
    } else if n == 5 {
        '5'
    } else if n == 6 {
        '6'
    } else if n == 7 {
        '7'
    } else if n == 8 {
        '8'
    } else {
        '9'
    }
}

/// The decimal spelling of a non-negative number.
pub open spec fn spec_dec_digits(n: nat) -> Seq<char>
    decreases n,
{
    if n < 10 {
        seq![spec_digit_char(n)]
    } else {
        spec_dec_digits(n / 10) + seq![spec_digit_char(n % 10)]
    }
}

fn digit_str(d: u64) -> (r: &'static str)
    requires
        d < 10,
    ensures
        r@ == seq![spec_digit_char(d as nat)],
{
    proof {
        reveal_strlit("0");
        reveal_strlit("1");
        reveal_strlit("2");
        reveal_strlit("3");
        reveal_strlit("4");
        reveal_strlit("5");
        reveal_strlit("6");
        reveal_strlit("7");
        reveal_strlit("8");
        reveal_strlit("9");
        assert("0"@ =~= seq!['0']);
        assert("1"@ =~= seq!['1']);
        assert("2"@ =~= seq!['2']);
        assert("3"@ =~= seq!['3']);
        assert("4"@ =~= seq!['4']);
        assert("5"@ =~= seq!['5']);
        assert("6"@ =~= seq!['6']);
        assert("7"@ =~= seq!['7']);
        assert("8"@ =~= seq!['8']);
        assert("9"@ =~= seq!['9']);
    }
    match d {
        0 => "0",
        1 => "1",
        2 => "2",
        3 => "3",
        4 => "4",
        5 => "5",
        6 => "6",
        7 => "7",
        8 => "8",
        _ => "9",
    }
}

/// The decimal spelling of a number, as the recovered name of a numeric
/// enum member uses it.
pub fn u64_dec_string(n: u64) -> (s: String)
    ensures
        s@ == spec_dec_digits(n as nat),
    decreases n,
{
    if n < 10 {
        String::from_str(digit_str(n))
    } else {
        let prefix = u64_dec_string(n / 10);
        prefix.concat(digit_str(n % 10))
    }
}

impl Parser {
    /// One enum member: a name (string literal, or recovered from a numeric
    /// or computed name) with an optional initializer expression.  The flag
    /// reports that a bad initializer token was skipped with a synthesized
    /// separator, which the member list treats as an already-seen comma.
    pub fn parse_ts_enum_member(&mut self, depth: u32) -> (r: Result<
        (TsEnumMember, bool),
        Diagnostic,
    >)
        requires
            old(self).wf(),
        ensures
            parse_step(*old(self), *final (self)),
            r is Ok ==> old(self).pos < final (self).pos,
            depth >= 1 && old(self).cur_is_word() && (old(self).spec_peek() matches Some(
                Token::Punct(p),
            ) && (p == Punct::Comma || p == Punct::RBrace)) ==> (old(self).spec_cur()
                matches Some(Token::Word(w0)) && r matches Ok(m) && (
            m.0.id matches TsEnumMemberId::Ident(i) && i.sym@ == w0@) && m.0.init is None
                && !m.1 && final (self).pos == old(self).pos + 1),
            depth >= 3 && old(self).cur_is_word() && (old(self).spec_peek() matches Some(
                Token::Punct(pq),
            ) && pq == Punct::Assign) && num_expr_at(old(self).tokens@, old(self).pos + 2) && (old(
                self,
            ).pos + 3 < old(self).tokens@.len() ==> (old(self).tokens@[old(
                self,
            ).pos + 3].token matches Token::Punct(pr) && (pr == Punct::Comma || pr
                == Punct::RBrace))) ==> (old(self).spec_cur() matches Some(Token::Word(w0)) && r
                matches Ok(m) && (m.0.id matches TsEnumMemberId::Ident(i) && i.sym@ == w0@) && (
            m.0.init matches Some(e) && ((*e) matches Expr::Lit(l) && (l matches Lit::Num(n) && (
            old(self).tokens@[old(self).pos + 2].token matches Token::Num { value, raw }
                && n.value == value && n.raw@ == raw@)))) && !m.1 && final (self).pos == old(
                self,
            ).pos + 3),
        decreases depth, 1int,
    {
        if depth == 0 {
            return Err(self.nesting_err());
        }
        let start = self.cur_pos();
        let id = if self.is_str_lit() {
            match self.parse_lit() {
                Ok(Lit::Str(s)) => TsEnumMemberId::Str(s),
                Ok(_) => {
                    return Err(
                        Diagnostic { span: self.prev_span(), error: SyntaxError::IdentifierExpected },
                    );
                },
                Err(d) => {
                    return Err(d);
                },
            }
        } else if self.is_num_lit() {
            // A numeric member name is recovered into a string-literal name.
            match self.parse_lit() {
                Ok(Lit::Num(n)) => {
                    let span = self.finish_span(start);
                    self.emit_err(span, SyntaxError::EnumNumericName);
                    let quoted = String::from_str("\"").concat(n.raw.as_str()).concat("\"");
                    let shown = u64_dec_string(n.value as u64);
                    TsEnumMemberId::Str(StrLit { span, value: shown, raw: quoted })
                },
                Ok(_) => {
                    return Err(
                        Diagnostic { span: self.prev_span(), error: SyntaxError::IdentifierExpected },
                    );
                },
                Err(d) => {
                    return Err(d);
                },
            }
        } else if self.is_punct(Punct::LBracket) {
            self.bump();
            match self.parse_assignment_expr(depth - 1) {
                Ok(_) => {},
                Err(d) => {
                    return Err(d);
                },
            }
            let sp = self.finish_span(start);
            self.emit_err(sp, SyntaxError::EnumComputedName);
            match self.expect_punct(Punct::RBracket) {
                Ok(_) => {},
                Err(d) => {
                    return Err(d);
                },
            }
            let span = self.finish_span(start);
            TsEnumMemberId::Ident(Ident { span, sym: Word::Other(String::new()) })
        } else {
            match self.parse_ident_name() {
                Ok(i) => TsEnumMemberId::Ident(i),
                Err(d) => {
                    return Err(d);
                },
            }
        };
        let mut synthetic_comma = false;
        let init = if self.eat_punct(Punct::Assign) {
            match self.parse_assignment_expr(depth - 1) {
                Ok(e) => Some(e),
                Err(d) => {
                    return Err(d);
                },
            }
        } else if self.is_punct(Punct::Comma) || self.is_punct(Punct::RBrace) {
            None
        } else {
            // Skip the bad token, record the missing separator once, and
            // hand the list a synthesized comma.
            let bad_start = self.cur_pos();
            if !self.at_eof() {
                self.bump();
            }
            self.emit_err(
                Span { lo: bad_start, hi: bad_start },
                SyntaxError::Expected(Punct::Comma),
            );
            synthetic_comma = true;
            None
        };
        let span = self.finish_span(start);
        Ok((TsEnumMember { span, id, init }, synthetic_comma))
    }

    /// `enum Name { members }`, with comma-error recovery inside the body.
    pub fn parse_ts_enum_decl(&mut self, start: u32, is_const: bool, depth: u32) -> (r: Result<
        Box<TsEnumDecl>,
        Diagnostic,
    >)
        requires
            old(self).wf(),
        ensures
            parse_step(*old(self), *final (self)),
            r is Ok ==> old(self).pos < final (self).pos,
            r matches Ok(e) ==> (!e.declare && e.is_const == is_const),
            old(self).spec_cur() matches Some(Token::Word(w0)) ==> (r matches Ok(e) ==> e.id.sym@
                == w0@),
        decreases depth, 1int,
    {
        if depth == 0 {
            return Err(self.nesting_err());
        }
        let id = match self.parse_ident_name() {
            Ok(i) => i,
            Err(d) => {
                return Err(d);
            },
        };
        match self.expect_punct(Punct::LBrace) {
            Ok(_) => {},
            Err(d) => {
                return Err(d);
            },
        }
        let mut members: Vec<TsEnumMember> = Vec::new();
        loop
            invariant
                self.wf(),
                parse_step(*old(self), *self),
                depth >= 1,
                old(self).pos < self.pos,
            decreases self.tokens@.len() - self.pos,
        {
            if self.is_ts_list_terminator(ParsingContext::EnumMembers) {
                break ;
            }
            let member = match self.parse_ts_enum_member(depth - 1) {
                Ok(m) => m,
                Err(d) => {
                    return Err(d);
                },
            };
            let (member, synthetic_comma) = member;
            members.push(member);
            if synthetic_comma || self.eat_punct(Punct::Comma) {
                continue ;
            }
            if self.is_ts_list_terminator(ParsingContext::EnumMembers) {
                break ;
            }
            // Enum bodies tolerate malformed separators: record the missing
            // comma and continue.
            let sp = self.cur_span();
            self.emit_err(sp, SyntaxError::Expected(Punct::Comma));
        }
        match self.expect_punct(Punct::RBrace) {
            Ok(_) => {},
            Err(d) => {
                return Err(d);
            },
        }
        let span = self.finish_span(start);
        Ok(Box::new(TsEnumDecl { span, declare: false, is_const, id, members }))
    }

    /// One declaration-shaped statement of an ambient module body.
    pub fn parse_ts_module_item(&mut self, depth: u32) -> (r: Result<Decl, Diagnostic>)
        requires
            old(self).wf(),
        ensures
            parse_step(*old(self), *final (self)),
            r is Ok ==> old(self).pos < final (self).pos,
            r matches Ok(d) ==> wf_decl(d),
            depth >= 16 && (old(self).spec_cur() matches Some(Token::Word(wt)) && wt == Word::Kw(
                Kw::TypeKw,
            )) && (old(self).pos + 1 < old(self).tokens@.len() && !old(self).tokens@[old(
                self,
            ).pos + 1].had_line_break) && alias_tail_at(old(self).tokens@, old(self).pos + 1)
                ==> (r matches Ok(d) && (d matches Decl::TsTypeAlias(a) && alias_tail_result(
                old(self).tokens@,
                old(self).pos + 1,
                *a,
                final (self).pos as int,
            ))),
        decreases depth, 1int,
    {
        if depth == 0 {
            return Err(self.nesting_err());
        }
        let start = self.cur_pos();
        if !self.is_word() {
            return Err(
                Diagnostic { span: self.cur_span(), error: SyntaxError::DeclarationExpected },
            );
        }
        let id = match self.parse_ident_name() {
            Ok(i) => i,
            Err(d) => {
                return Err(d);
            },
        };
        let opt = match self.parse_ts_expr_stmt(start, id, depth - 1) {
            Ok(o) => o,
            Err(d) => {
                return Err(d);
            },
        };
        match opt {
            Some(d) => Ok(d),
            None => Err(
                Diagnostic {
                    span: self.finish_span(start),
                    error: SyntaxError::DeclarationExpected,
                },
            ),
        }
    }

    /// `{` declarations `}`: the body of a namespace or ambient module.
    /// Inside it import and export declarations become legal again.
    pub fn parse_ts_module_block(&mut self, depth: u32) -> (r: Result<TsModuleBlock, Diagnostic>)
        requires
            old(self).wf(),
        ensures
            parse_step(*old(self), *final (self)),
            r is Ok ==> old(self).pos < final (self).pos,
            r matches Ok(b) ==> wf_decls(b.body@),
        decreases depth, 2int,
    {
        if depth == 0 {
            return Err(self.nesting_err());
        }
        let saved = self.flags;
        self.flags.top_level = true;
        let r = self.parse_ts_module_block_body(depth);
        self.flags = saved;
        r
    }

    fn parse_ts_module_block_body(&mut self, depth: u32) -> (r: Result<TsModuleBlock, Diagnostic>)
        requires
            old(self).wf(),
            depth >= 1,
        ensures
            parse_step(*old(self), *final (self)),
            r is Ok ==> old(self).pos < final (self).pos,
            r matches Ok(b) ==> wf_decls(b.body@),
        decreases depth, 1int,
    {
        let start = self.cur_pos();
        match self.expect_punct(Punct::LBrace) {
            Ok(_) => {},
            Err(d) => {
                return Err(d);
            },
        }
        let mut body: Vec<Decl> = Vec::new();
        loop
            invariant
                self.wf(),
                parse_step(*old(self), *self),
                depth >= 1,
                old(self).pos < self.pos,
                wf_decls(body@),
            decreases self.tokens@.len() - self.pos,
        {
            if self.is_punct(Punct::RBrace) || self.at_eof() {
                break ;
            }
            let item = match self.parse_ts_module_item(depth - 1) {
                Ok(i) => i,
                Err(d) => {
                    return Err(d);
                },
            };
            body.push(item);
        }
        match self.expect_punct(Punct::RBrace) {
            Ok(_) => {},
            Err(d) => {
                return Err(d);
            },
        }
        let span = self.finish_span(start);
        Ok(TsModuleBlock { span, body })
    }

    /// `namespace A.B.C { ... }` or `module A { ... }`: a dotted id chain
    /// collapses into nested namespace declarations.
    pub fn parse_ts_module_or_ns_decl(&mut self, start: u32, namespace: bool, depth: u32) -> (r:
        Result<Box<TsModuleDecl>, Diagnostic>)
        requires
            old(self).wf(),
        ensures
            parse_step(*old(self), *final (self)),
            r is Ok ==> old(self).pos < final (self).pos,
            r matches Ok(m) ==> (m.id is Ident && (m.body matches Some(b) && wf_ns_body(b))),
            r matches Ok(m) ==> (m.namespace == namespace && !m.declare && !m.global),
            old(self).spec_cur() matches Some(Token::Word(w0)) ==> (r matches Ok(m) ==> (
            m.id matches TsModuleName::Ident(i) && i.sym@ == w0@)),
        decreases depth, 1int,
    {
        if depth == 0 {
            return Err(self.nesting_err());
        }
        let id = match self.parse_ident_name() {
            Ok(i) => i,
            Err(d) => {
                return Err(d);
            },
        };
        let body: TsNamespaceBody = if self.eat_punct(Punct::Dot) {
            let inner_start = self.cur_pos();
            let inner = match self.parse_ts_module_or_ns_decl(inner_start, namespace, depth - 1) {
                Ok(m) => m,
                Err(d) => {
                    return Err(d);
                },
            };
            let inner_decl = *inner;
            match (inner_decl.id, inner_decl.body) {
                (TsModuleName::Ident(i), Some(b)) => TsNamespaceBody::TsNamespaceDecl(
                    TsNamespaceDecl {
                        span: inner_decl.span,
                        declare: inner_decl.declare,
                        global: inner_decl.global,
                        id: i,
                        body: Box::new(b),
                    },
                ),
                _ => {
                    return Err(
                        Diagnostic {
                            span: self.cur_span(),
                            error: SyntaxError::DeclarationExpected,
                        },
                    );
                },
            }
        } else {
            match self.parse_ts_module_block(depth - 1) {
                Ok(b) => TsNamespaceBody::TsModuleBlock(b),
                Err(d) => {
                    return Err(d);
                },
            }
        };
        let span = self.finish_span(start);
        Ok(
            Box::new(
                TsModuleDecl {
                    span,
                    declare: false,
                    global: false,
                    namespace,
                    id: TsModuleName::Ident(id),
                    body: Some(body),
                },
            ),
        )
    }

    /// `declare global { ... }` or `declare module "name" { ... }`.
    pub fn parse_ts_ambient_external_module_decl(&mut self, start: u32, depth: u32) -> (r: Result<
        Box<TsModuleDecl>,
        Diagnostic,
    >)
        requires
            old(self).wf(),
        ensures
            parse_step(*old(self), *final (self)),
            r is Ok ==> old(self).pos < final (self).pos,
            r matches Ok(m) ==> (m.body matches Some(b) ==> wf_ns_body(b)),
            r matches Ok(m) ==> (!m.declare && !m.namespace && (m.global <==> old(
                self,
            ).cur_is_kw(Kw::Global))),
        decreases depth, 1int,
    {
        if depth == 0 {
            return Err(self.nesting_err());
        }
        let global: bool;
        let id: TsModuleName;
        if self.is_kw(Kw::Global) {
            let i = match self.parse_ident_name() {
                Ok(i) => i,
                Err(d) => {
                    return Err(d);
                },
            };
            global = true;
            id = TsModuleName::Ident(i);
        } else if self.is_str_lit() {
            match self.parse_lit() {
                Ok(Lit::Str(s)) => {
                    global = false;
                    id = TsModuleName::Str(s);
                },
                Ok(_) => {
                    return Err(
                        Diagnostic { span: self.prev_span(), error: SyntaxError::IdentifierExpected },
                    );
                },
                Err(d) => {
                    return Err(d);
                },
            }
        } else {
            return Err(
                Diagnostic { span: self.cur_span(), error: SyntaxError::DeclarationExpected },
            );
        }
        let body = if self.is_punct(Punct::LBrace) {
            match self.parse_ts_module_block(depth - 1) {
                Ok(b) => Some(TsNamespaceBody::TsModuleBlock(b)),
                Err(d) => {
                    return Err(d);
                },
            }
        } else {
            match self.expect_semi() {
                Ok(_) => {},
                Err(d) => {
                    return Err(d);
                },
            }
            None
        };
        let span = self.finish_span(start);
        Ok(
            Box::new(
                TsModuleDecl { span, declare: false, global, namespace: false, id, body },
            ),
        )
    }

    /// `interface Name<T> extends A, B { members }`, with recovery for a
    /// reserved name and for a repeated `extends` clause.
    pub fn parse_ts_interface_decl(&mut self, start: u32, depth: u32) -> (r: Result<
        Box<TsInterfaceDecl>,
        Diagnostic,
    >)
        requires
            old(self).wf(),
        ensures
            parse_step(*old(self), *final (self)),
            r is Ok ==> old(self).pos < final (self).pos,
            r matches Ok(i) ==> wf_decl(Decl::TsInterface(i)),
            r matches Ok(i) ==> !i.declare,
            old(self).spec_cur() matches Some(Token::Word(w0)) ==> (r matches Ok(i) ==> i.id.sym@
                == w0@),
        decreases depth, 1int,
    {
        if depth == 0 {
            return Err(self.nesting_err());
        }
        let id = match self.parse_ident_name() {
            Ok(i) => i,
            Err(d) => {
                return Err(d);
            },
        };
        let reserved = match &id.sym {
            Word::Kw(k) => match k {
                Kw::StringTy | Kw::Null | Kw::NumberTy | Kw::ObjectTy | Kw::Any | Kw::Unknown
                    | Kw::Boolean | Kw::Bigint | Kw::SymbolTy | Kw::Void | Kw::Never
                    | Kw::Intrinsic => true,
                _ => false,
            },
            _ => false,
        };
        if reserved {
            let sp = id.span;
            self.emit_err(sp, SyntaxError::InterfaceNameReserved);
        }
        let type_params = match self.try_parse_ts_type_params(true, false, depth - 1) {
            Ok(p) => p,
            Err(d) => {
                return Err(d);
            },
        };
        let extends = if self.eat_kw(Kw::Extends) {
            match self.parse_ts_heritage_clause(depth - 1) {
                Ok(e) => e,
                Err(d) => {
                    return Err(d);
                },
            }
        } else {
            Vec::new()
        };
        if self.is_kw(Kw::Extends) {
            let sp = self.cur_span();
            self.emit_err(sp, SyntaxError::ExtendsRepeated);
            loop
                invariant
                    self.wf(),
                    parse_step(*old(self), *self),
                    old(self).pos < self.pos,
                decreases self.tokens@.len() - self.pos,
            {
                if self.at_eof() || self.is_punct(Punct::LBrace) {
                    break ;
                }
                self.bump();
            }
        }
        let body_start = self.cur_pos();
        let saved = self.flags;
        self.flags.in_type = true;
        let members_res = self.parse_ts_object_type_members(depth - 1);
        self.flags = saved;
        let members = match members_res {
            Ok(m) => m,
            Err(d) => {
                return Err(d);
            },
        };
        let body = TsInterfaceBody { span: self.finish_span(body_start), body: members };
        let span = self.finish_span(start);
        Ok(
            Box::new(
                TsInterfaceDecl { span, declare: false, id, type_params, extends, body },
            ),
        )
    }

    /// The comma list of heritage-clause elements, terminated by `{`,
    /// `implements` or `extends`.
    pub fn parse_ts_heritage_clause(&mut self, depth: u32) -> (r: Result<
        Vec<TsExprWithTypeArgs>,
        Diagnostic,
    >)
        requires
            old(self).wf(),
        ensures
            parse_step(*old(self), *final (self)),
            r matches Ok(es) ==> forall|i: int|
                0 <= i < es.len() ==> wf_heritage(#[trigger] es@[i]),
            !(old(self).cur_is_punct(Punct::LBrace) || old(self).cur_is_kw(Kw::Implements)
                || old(self).cur_is_kw(Kw::Extends)) ==> (r matches Ok(es) ==> es.len() >= 1),
        decreases depth, 2int,
    {
        if depth == 0 {
            return Err(self.nesting_err());
        }
        let mut elems: Vec<TsExprWithTypeArgs> = Vec::new();
        loop
            invariant
                self.wf(),
                parse_step(*old(self), *self),
                depth >= 1,
                forall|i: int| 0 <= i < elems.len() ==> wf_heritage(#[trigger] elems@[i]),
                elems.len() == 0 ==> self.pos == old(self).pos,
            ensures
                self.wf(),
                parse_step(*old(self), *self),
                forall|i: int| 0 <= i < elems.len() ==> wf_heritage(#[trigger] elems@[i]),
                elems.len() == 0 ==> (self.cur_is_punct(Punct::LBrace) || self.cur_is_kw(
                    Kw::Implements,
                ) || self.cur_is_kw(Kw::Extends)) && self.pos == old(self).pos,
            decreases self.tokens@.len() - self.pos,
        {
            if self.is_ts_list_terminator(ParsingContext::HeritageClauseElement) {
                break ;
            }
            let e = match self.parse_ts_heritage_clause_element(depth - 1) {
                Ok(e) => e,
                Err(d) => {
                    return Err(d);
                },
            };
            elems.push(e);
            if self.eat_punct(Punct::Comma) {
                continue ;
            }
            if self.is_ts_list_terminator(ParsingContext::HeritageClauseElement) {
                break ;
            }
            match self.expect_punct(Punct::Comma) {
                Ok(_) => {},
                Err(d) => {
                    return Err(d);
                },
            }
        }
        Ok(elems)
    }

    /// One heritage element: a dotted name with optional type arguments.
    pub fn parse_ts_heritage_clause_element(&mut self, depth: u32) -> (r: Result<
        TsExprWithTypeArgs,
        Diagnostic,
    >)
        requires
            old(self).wf(),
        ensures
            parse_step(*old(self), *final (self)),
            r is Ok ==> old(self).pos < final (self).pos,
            r matches Ok(e) ==> wf_heritage(e),
        decreases depth, 1int,
    {
        if depth == 0 {
            return Err(self.nesting_err());
        }
        let start = self.cur_pos();
        let first = match self.parse_ident_name() {
            Ok(i) => i,
            Err(d) => {
                return Err(d);
            },
        };
        let mut expr: Box<Expr> = Box::new(Expr::Ident(first));
        loop
            invariant
                self.wf(),
                parse_step(*old(self), *self),
                old(self).pos < self.pos,
            decreases self.tokens@.len() - self.pos,
        {
            if !self.eat_punct(Punct::Dot) {
                break ;
            }
            let prop = match self.parse_ident_name() {
                Ok(i) => i,
                Err(d) => {
                    return Err(d);
                },
            };
            let span = self.finish_span(start);
            expr = Box::new(Expr::Member { span, obj: expr, prop });
        }
        let type_args = if self.is_punct(Punct::Lt) {
            match self.parse_ts_type_args_with(depth - 1) {
                Ok(a) => Some(a),
                Err(d) => {
                    return Err(d);
                },
            }
        } else {
            None
        };
        let span = self.finish_span(start);
        Ok(TsExprWithTypeArgs { span, expr, type_args })
    }

    /// `type Name<T> = U;`.
    pub fn parse_ts_type_alias_decl(&mut self, start: u32, depth: u32) -> (r: Result<
        Box<TsTypeAliasDecl>,
        Diagnostic,
    >)
        requires
            old(self).wf(),
        ensures
            parse_step(*old(self), *final (self)),
            r is Ok ==> old(self).pos < final (self).pos,
            r matches Ok(a) ==> wf_decl(Decl::TsTypeAlias(a)),
            depth >= 13 && alias_tail_at(old(self).tokens@, old(self).pos as int) ==> (r
                matches Ok(a) && alias_tail_result(
                old(self).tokens@,
                old(self).pos as int,
                *a,
                final (self).pos as int,
            )),
        decreases depth, 1int,
    {
        if depth == 0 {
            return Err(self.nesting_err());
        }
        let id = match self.parse_ident_name() {
            Ok(i) => i,
            Err(d) => {
                return Err(d);
            },
        };
        let type_params = match self.try_parse_ts_type_params(true, false, depth - 1) {
            Ok(p) => p,
            Err(d) => {
                return Err(d);
            },
        };
        let type_ann = match self.expect_punct_then_parse_ts_type(Punct::Assign, depth - 1) {
            Ok(t) => t,
            Err(d) => {
                return Err(d);
            },
        };
        match self.expect_semi() {
            Ok(_) => {},
            Err(d) => {
                return Err(d);
            },
        }
        let span = self.finish_span(start);
        Ok(Box::new(TsTypeAliasDecl { span, declare: false, id, type_params, type_ann }))
    }

    /// `import Name = require("mod");` or `import Name = A.B;`.
    pub fn parse_ts_import_equals_decl(
        &mut self,
        start: u32,
        id: Ident,
        is_export: bool,
        is_type_only: bool,
    ) -> (r: Result<Box<TsImportEqualsDecl>, Diagnostic>)
        requires
            old(self).wf(),
        ensures
            parse_step(*old(self), *final (self)),
            r is Ok ==> old(self).pos < final (self).pos,
            r matches Ok(d) ==> (d.is_export == is_export && d.is_type_only == is_type_only
                && d.id == id),
            old(self).cur_is_punct(Punct::Assign) ==> (r matches Ok(d) ==> ((
            d.module_ref is TsExternalModuleRef) <==> (old(self).pos + 1 < old(
                self,
            ).tokens@.len() && (old(self).tokens@[old(self).pos + 1].token matches Token::Word(
                w,
            ) && w matches Word::Kw(kk) && kk == Kw::Require) && old(self).pos + 2 < old(
                self,
            ).tokens@.len() && (old(self).tokens@[old(self).pos + 2].token
                matches Token::Punct(pp) && pp == Punct::LParen)))),
    {
        match self.expect_punct(Punct::Assign) {
            Ok(_) => {},
            Err(d) => {
                return Err(d);
            },
        }
        let module_ref = match self.parse_ts_module_ref() {
            Ok(m) => m,
            Err(d) => {
                return Err(d);
            },
        };
        match self.expect_semi() {
            Ok(_) => {},
            Err(d) => {
                return Err(d);
            },
        }
        let span = self.finish_span(start);
        Ok(Box::new(TsImportEqualsDecl { span, is_export, is_type_only, id, module_ref }))
    }

    /// `require` followed by `(` opens an external module reference.
    pub fn is_ts_external_module_ref(&self) -> (r: bool)
        requires
            self.wf(),
        ensures
            r == (self.cur_is_kw(Kw::Require) && (self.spec_peek() matches Some(Token::Punct(
                Punct::LParen,
            )))),
    {
        self.is_kw(Kw::Require) && self.peek_is_punct(Punct::LParen)
    }

    /// An entity name or a `require("mod")` external reference.
    pub fn parse_ts_module_ref(&mut self) -> (r: Result<TsModuleRef, Diagnostic>)
        requires
            old(self).wf(),
        ensures
            parse_step(*old(self), *final (self)),
            r is Ok ==> old(self).pos < final (self).pos,
            r matches Ok(m) ==> ((m is TsExternalModuleRef) <==> (old(self).cur_is_kw(
                Kw::Require,
            ) && (old(self).spec_peek() matches Some(Token::Punct(Punct::LParen))))),
    {
        if self.is_ts_external_module_ref() {
            match self.parse_ts_external_module_ref() {
                Ok(e) => Ok(TsModuleRef::TsExternalModuleRef(e)),
                Err(d) => Err(d),
            }
        } else {
            match self.parse_ts_entity_name(false) {
                Ok(n) => Ok(TsModuleRef::TsEntityName(n)),
                Err(d) => Err(d),
            }
        }
    }

    /// `require("mod")`, whose argument must be a string literal.
    pub fn parse_ts_external_module_ref(&mut self) -> (r: Result<
        TsExternalModuleRef,
        Diagnostic,
    >)
        requires
            old(self).wf(),
        ensures
            parse_step(*old(self), *final (self)),
            r is Ok ==> old(self).pos < final (self).pos,
            r is Ok ==> old(self).cur_is_kw(Kw::Require),
            r matches Ok(e) ==> (old(self).pos + 2 < old(self).tokens@.len() && (old(
                self,
            ).tokens@[old(self).pos + 2].token matches Token::Str { value, raw } && e.expr.value@
                == value@ && e.expr.raw@ == raw@)),
    {
        let start = self.cur_pos();
        match self.expect_kw(Kw::Require) {
            Ok(_) => {},
            Err(d) => {
                return Err(d);
            },
        }
        match self.expect_punct(Punct::LParen) {
            Ok(_) => {},
            Err(d) => {
                return Err(d);
            },
        }
        if !self.is_str_lit() {
            return Err(
                Diagnostic { span: self.cur_span(), error: SyntaxError::ImportArgNotString },
            );
        }
        let expr = match self.parse_lit() {
            Ok(Lit::Str(s)) => s,
            Ok(_) => {
                return Err(
                    Diagnostic { span: self.prev_span(), error: SyntaxError::ImportArgNotString },
                );
            },
            Err(d) => {
                return Err(d);
            },
        };
        match self.expect_punct(Punct::RParen) {
            Ok(_) => {},
            Err(d) => {
                return Err(d);
            },
        }
        let span = self.finish_span(start);
        Ok(TsExternalModuleRef { span, expr })
    }

    /// A statement that began with an identifier-shaped word: `declare ...`,
    /// `global { ... }`, or a keyword-dispatched declaration.
    pub fn parse_ts_expr_stmt(&mut self, start: u32, expr: Ident, depth: u32) -> (r: Result<
        Option<Decl>,
        Diagnostic,
    >)
        requires
            old(self).wf(),
        ensures
            parse_step(*old(self), *final (self)),
            r matches Ok(Some(d)) ==> wf_decl(d),
            depth >= 2 && expr.sym is Other ==> (r matches Ok(None) && final (self).pos == old(
                self,
            ).pos),
            expr.sym == Word::Kw(Kw::Global) && old(self).cur_is_punct(Punct::LBrace) ==> (r
                matches Ok(Some(d)) ==> (d matches Decl::TsModule(m) && m.global && !m.declare
                && !m.namespace)),
            depth >= 15 && expr.sym == Word::Kw(Kw::TypeKw) && !old(self).spec_had_line_break()
                && alias_tail_at(old(self).tokens@, old(self).pos as int) ==> (r matches Ok(
                Some(d),
            ) && (d matches Decl::TsTypeAlias(a) && alias_tail_result(
                old(self).tokens@,
                old(self).pos as int,
                *a,
                final (self).pos as int,
            ))),
        decreases depth, 6int,
    {
        if depth == 0 {
            return Err(self.nesting_err());
        }
        let is_declare = match &expr.sym {
            Word::Kw(k) => *k == Kw::Declare,
            _ => false,
        };
        let is_global = match &expr.sym {
            Word::Kw(k) => *k == Kw::Global,
            _ => false,
        };
        if is_declare {
            let decl = match self.try_parse_ts_declare(start, depth - 1) {
                Ok(o) => o,
                Err(d) => {
                    return Err(d);
                },
            };
            match decl {
                Some(d) => Ok(Some(make_decl_declare(d))),
                None => Ok(None),
            }
        } else if is_global {
            // `global { }` (with no `declare`) may appear inside an ambient
            // module declaration.
            if self.is_punct(Punct::LBrace) {
                let body = match self.parse_ts_module_block(depth - 1) {
                    Ok(b) => b,
                    Err(d) => {
                        return Err(d);
                    },
                };
                let span = self.finish_span(start);
                Ok(
                    Some(
                        Decl::TsModule(
                            Box::new(
                                TsModuleDecl {
                                    span,
                                    declare: false,
                                    global: true,
                                    namespace: false,
                                    id: TsModuleName::Ident(expr),
                                    body: Some(TsNamespaceBody::TsModuleBlock(body)),
                                },
                            ),
                        ),
                    ),
                )
            } else {
                Ok(None)
            }
        } else {
            let value = expr.sym;
            self.parse_ts_decl(start, value, false, depth - 1)
        }
    }

    /// The `declare`-wrapper: in an in-declare context try, in order, an
    /// ambient function, `const enum`, `var`/`let`/`const`, `global`, then
    /// the keyword dispatch.  Class declarations belong to the host
    /// statement parser and yield no match here.
    pub fn try_parse_ts_declare(&mut self, start: u32, depth: u32) -> (r: Result<
        Option<Decl>,
        Diagnostic,
    >)
        requires
            old(self).wf(),
        ensures
            parse_step(*old(self), *final (self)),
            r matches Ok(Some(d)) ==> wf_decl(d),
            depth >= 1 && old(self).cur_is_kw(Kw::Class) ==> (r matches Ok(None) && final (self).pos == old(self).pos),
            old(self).cur_is_kw(Kw::Function) ==> (r matches Ok(Some(d)) ==> d is Fn),
            old(self).cur_is_kw(Kw::Const) && (old(self).spec_peek() matches Some(Token::Word(
                we,
            )) && we == Word::Kw(Kw::Enum)) ==> (r matches Ok(Some(d)) ==> (d matches Decl::TsEnum(e) && e.is_const)),
            old(self).cur_is_kw(Kw::Var) || old(self).cur_is_kw(Kw::Let) ==> (r matches Ok(
                Some(d),
            ) ==> d is Var),
            old(self).cur_is_kw(Kw::Global) ==> (r matches Ok(Some(d)) ==> (d matches Decl::TsModule(m) && m.global)),
        decreases depth, 5int,
    {
        if depth == 0 {
            return Err(self.nesting_err());
        }
        if self.flags.in_declare {
            let sp = self.finish_span(start);
            self.emit_err(sp, SyntaxError::NestedDeclare);
        }
        let saved = self.flags;
        self.flags.in_declare = true;
        let r = self.try_parse_ts_declare_body(start, depth);
        self.flags = saved;
        r
    }

    fn try_parse_ts_declare_body(&mut self, start: u32, depth: u32) -> (r: Result<
        Option<Decl>,
        Diagnostic,
    >)
        requires
            old(self).wf(),
            depth >= 1,
        ensures
            parse_step(*old(self), *final (self)),
            r matches Ok(Some(d)) ==> wf_decl(d),
            depth >= 1 && old(self).cur_is_kw(Kw::Class) ==> (r matches Ok(None) && final (self).pos == old(self).pos),
            old(self).cur_is_kw(Kw::Function) ==> (r matches Ok(Some(d)) ==> d is Fn),
            old(self).cur_is_kw(Kw::Const) && (old(self).spec_peek() matches Some(Token::Word(
                we,
            )) && we == Word::Kw(Kw::Enum)) ==> (r matches Ok(Some(d)) ==> (d matches Decl::TsEnum(e) && e.is_const)),
            old(self).cur_is_kw(Kw::Var) || old(self).cur_is_kw(Kw::Let) ==> (r matches Ok(
                Some(d),
            ) ==> d is Var),
            old(self).cur_is_kw(Kw::Global) ==> (r matches Ok(Some(d)) ==> (d matches Decl::TsModule(m) && m.global)),
        decreases depth, 4int,
    {
        if self.is_kw(Kw::Function) {
            let f = match self.parse_ambient_fn_decl(start, depth - 1) {
                Ok(f) => f,
                Err(d) => {
                    return Err(d);
                },
            };
            return Ok(Some(Decl::Fn(f)));
        }
        if self.is_kw(Kw::Class) {
            // Class bodies are the host statement parser's grammar.
            return Ok(None);
        }
        if self.is_kw(Kw::Const) && self.peek_is_kw(Kw::Enum) {
            self.bump();
            self.bump();
            let e = match self.parse_ts_enum_decl(start, true, depth - 1) {
                Ok(e) => e,
                Err(d) => {
                    return Err(d);
                },
            };
            return Ok(Some(Decl::TsEnum(e)));
        }
        if self.is_kw(Kw::Const) || self.is_kw(Kw::Var) || self.is_kw(Kw::Let) {
            let v = match self.parse_var_decl(start, depth - 1) {
                Ok(v) => v,
                Err(d) => {
                    return Err(d);
                },
            };
            return Ok(Some(Decl::Var(v)));
        }
        if self.is_kw(Kw::Global) {
            let m = match self.parse_ts_ambient_external_module_decl(start, depth - 1) {
                Ok(m) => m,
                Err(d) => {
                    return Err(d);
                },
            };
            return Ok(Some(Decl::TsModule(m)));
        }
        if self.is_word() {
            let value = match self.cur_word_dup() {
                Some(w) => w,
                None => {
                    return Ok(None);
                },
            };
            return self.parse_ts_decl(start, value, true, depth - 1);
        }
        Ok(None)
    }

    /// A speculative export declaration: committed only when the keyword
    /// dispatch matches.
    pub fn try_parse_ts_export_decl(&mut self, value: Word, depth: u32) -> (r: Option<Decl>)
        requires
            old(self).wf(),
        ensures
            final (self).wf(),
            final (self).tokens@ == old(self).tokens@,
            final (self).flags == old(self).flags,
            final (self).diags@ == old(self).diags@,
            old(self).pos <= final (self).pos,
            r is None ==> final (self).pos == old(self).pos,
            r matches Some(d) ==> wf_decl(d),
            depth >= 14 && value == Word::Kw(Kw::TypeKw) && !old(self).spec_at_eof()
                && alias_tail_at(old(self).tokens@, old(self).pos + 1) ==> (r matches Some(d)
                && (d matches Decl::TsTypeAlias(a) && alias_tail_result(
                old(self).tokens@,
                old(self).pos + 1,
                *a,
                final (self).pos as int,
            ))),
    {
        let m = self.begin_speculation();
        let start = self.cur_pos();
        match self.parse_ts_decl(start, value, true, depth) {
            Ok(Some(d)) => {
                self.commit(m);
                Some(d)
            },
            _ => {
                self.rollback(m);
                None
            },
        }
    }

    /// The keyword dispatch shared by the expression-statement, `declare`
    /// and export paths.  `next` says whether the keyword itself is still
    /// the current token.
    pub fn parse_ts_decl(&mut self, start: u32, value: Word, next: bool, depth: u32) -> (r: Result<
        Option<Decl>,
        Diagnostic,
    >)
        requires
            old(self).wf(),
        ensures
            parse_step(*old(self), *final (self)),
            r matches Ok(Some(d)) ==> wf_decl(d),
            depth >= 1 && value is Other ==> (r matches Ok(None) && final (self).pos == old(
                self,
            ).pos),
            value == Word::Kw(Kw::Enum) ==> (r matches Ok(Some(d)) ==> d is TsEnum),
            value == Word::Kw(Kw::Interface) ==> (r matches Ok(Some(d)) ==> d is TsInterface),
            value == Word::Kw(Kw::Module) || value == Word::Kw(Kw::Namespace) ==> (r matches Ok(
                Some(d),
            ) ==> d is TsModule),
            value == Word::Kw(Kw::Namespace) ==> (r matches Ok(Some(d)) ==> (d matches Decl::TsModule(m) && m.namespace)),
            value == Word::Kw(Kw::TypeKw) ==> (r matches Ok(Some(d)) ==> d is TsTypeAlias),
            depth >= 14 && value == Word::Kw(Kw::TypeKw) && !next && !old(
                self,
            ).spec_had_line_break() && alias_tail_at(old(self).tokens@, old(self).pos as int)
                ==> (r matches Ok(Some(d)) && (d matches Decl::TsTypeAlias(a)
                && alias_tail_result(
                old(self).tokens@,
                old(self).pos as int,
                *a,
                final (self).pos as int,
            ))),
            depth >= 14 && value == Word::Kw(Kw::TypeKw) && next && !old(self).spec_at_eof()
                && alias_tail_at(old(self).tokens@, old(self).pos + 1) ==> (r matches Ok(
                Some(d),
            ) && (d matches Decl::TsTypeAlias(a) && alias_tail_result(
                old(self).tokens@,
                old(self).pos + 1,
                *a,
                final (self).pos as int,
            ))),
        decreases depth, 3int,
    {
        if depth == 0 {
            return Err(self.nesting_err());
        }
        let k = match &value {
            Word::Kw(k) => *k,
            Word::Other(_) => {
                return Ok(None);
            },
        };
        match k {
            Kw::Enum => {
                if next || self.is_ident_ref() {
                    if next {
                        if self.at_eof() {
                            return Err(
                                Diagnostic { span: self.cur_span(), error: SyntaxError::Eof },
                            );
                        }
                        self.bump();
                    }
                    let e = match self.parse_ts_enum_decl(start, false, depth - 1) {
                        Ok(e) => e,
                        Err(d) => {
                            return Err(d);
                        },
                    };
                    return Ok(Some(Decl::TsEnum(e)));
                }
                Ok(None)
            },
            Kw::Interface => {
                if next || self.is_ident_ref() {
                    if next {
                        if self.at_eof() {
                            return Err(
                                Diagnostic { span: self.cur_span(), error: SyntaxError::Eof },
                            );
                        }
                        self.bump();
                    }
                    let i = match self.parse_ts_interface_decl(start, depth - 1) {
                        Ok(i) => i,
                        Err(d) => {
                            return Err(d);
                        },
                    };
                    return Ok(Some(Decl::TsInterface(i)));
                }
                Ok(None)
            },
            Kw::Module => {
                if self.had_line_break_before_cur() {
                    return Ok(None);
                }
                if next {
                    if self.at_eof() {
                        return Err(Diagnostic { span: self.cur_span(), error: SyntaxError::Eof });
                    }
                    self.bump();
                }
                if self.is_str_lit() {
                    let m = match self.parse_ts_ambient_external_module_decl(start, depth - 1) {
                        Ok(m) => m,
                        Err(d) => {
                            return Err(d);
                        },
                    };
                    return Ok(Some(Decl::TsModule(m)));
                }
                if next || self.is_ident_ref() {
                    let m = match self.parse_ts_module_or_ns_decl(start, false, depth - 1) {
                        Ok(m) => m,
                        Err(d) => {
                            return Err(d);
                        },
                    };
                    return Ok(Some(Decl::TsModule(m)));
                }
                Ok(None)
            },
            Kw::Namespace => {
                if next || self.is_ident_ref() {
                    if next {
                        if self.at_eof() {
                            return Err(
                                Diagnostic { span: self.cur_span(), error: SyntaxError::Eof },
                            );
                        }
                        self.bump();
                    }
                    let m = match self.parse_ts_module_or_ns_decl(start, true, depth - 1) {
                        Ok(m) => m,
                        Err(d) => {
                            return Err(d);
                        },
                    };
                    return Ok(Some(Decl::TsModule(m)));
                }
                Ok(None)
            },
            Kw::TypeKw => {
                if next || (!self.had_line_break_before_cur() && self.is_ident_ref()) {
                    if next {
                        if self.at_eof() {
                            return Err(
                                Diagnostic { span: self.cur_span(), error: SyntaxError::Eof },
                            );
                        }
                        self.bump();
                    }
                    let a = match self.parse_ts_type_alias_decl(start, depth - 1) {
                        Ok(a) => a,
                        Err(d) => {
                            return Err(d);
                        },
                    };
                    return Ok(Some(Decl::TsTypeAlias(a)));
                }
                Ok(None)
            },
            _ => Ok(None),
        }
    }

    /// An ambient `var`/`let`/`const` statement: named declarators with
    /// optional annotations and initializers.
    pub fn parse_var_decl(&mut self, start: u32, depth: u32) -> (r: Result<
        Box<VarDecl>,
        Diagnostic,
    >)
        requires
            old(self).wf(),
        ensures
            parse_step(*old(self), *final (self)),
            r is Ok ==> old(self).pos < final (self).pos,
            r matches Ok(v) ==> wf_var_decl(*v),
            r matches Ok(v) ==> (!v.declare && v.decls.len() >= 1 && (v.kind == VarDeclKind::Var
                <==> old(self).cur_is_kw(Kw::Var)) && (v.kind == VarDeclKind::Let <==> old(
                self,
            ).cur_is_kw(Kw::Let))),
        decreases depth, 1int,
    {
        if depth == 0 {
            return Err(self.nesting_err());
        }
        let kind = if self.eat_kw(Kw::Var) {
            VarDeclKind::Var
        } else if self.eat_kw(Kw::Let) {
            VarDeclKind::Let
        } else {
            match self.expect_kw(Kw::Const) {
                Ok(_) => {},
                Err(d) => {
                    return Err(d);
                },
            }
            VarDeclKind::Const
        };
        let mut decls: Vec<VarDeclarator> = Vec::new();
        loop
            invariant
                self.wf(),
                parse_step(*old(self), *self),
                depth >= 1,
                old(self).pos < self.pos,
                forall|i: int|
                    0 <= i < decls.len() ==> crate::ast::wf_ann_opt(
                        (#[trigger] decls@[i]).name.type_ann,
                    ),
            ensures
                self.wf(),
                parse_step(*old(self), *self),
                old(self).pos < self.pos,
                decls.len() >= 1,
                forall|i: int|
                    0 <= i < decls.len() ==> crate::ast::wf_ann_opt(
                        (#[trigger] decls@[i]).name.type_ann,
                    ),
            decreases self.tokens@.len() - self.pos,
        {
            let d_start = self.cur_pos();
            let name = match self.parse_ts_var_binding(depth - 1) {
                Ok(b) => b,
                Err(d) => {
                    return Err(d);
                },
            };
            let init = if self.eat_punct(Punct::Assign) {
                match self.parse_assignment_expr(depth - 1) {
                    Ok(e) => Some(e),
                    Err(d) => {
                        return Err(d);
                    },
                }
            } else {
                None
            };
            let span = self.finish_span(d_start);
            decls.push(VarDeclarator { span, name, init });
            if !self.eat_punct(Punct::Comma) {
                break ;
            }
        }
        match self.expect_semi() {
            Ok(_) => {},
            Err(d) => {
                return Err(d);
            },
        }
        let span = self.finish_span(start);
        Ok(Box::new(VarDecl { span, kind, declare: false, decls }))
    }

    /// One `name (?: T)?` binding of a var statement.
    fn parse_ts_var_binding(&mut self, depth: u32) -> (r: Result<
        crate::ast::BindingIdent,
        Diagnostic,
    >)
        requires
            old(self).wf(),
        ensures
            parse_step(*old(self), *final (self)),
            r is Ok ==> old(self).pos < final (self).pos,
            r matches Ok(b) ==> crate::ast::wf_ann_opt(b.type_ann),
        decreases depth, 0int,
    {
        if depth == 0 {
            return Err(self.nesting_err());
        }
        let start = self.cur_pos();
        let id = match self.parse_ident_ref() {
            Ok(i) => i,
            Err(d) => {
                return Err(d);
            },
        };
        let optional = self.eat_punct(Punct::Question);
        let type_ann = match self.try_parse_ts_type_ann(depth - 1) {
            Ok(a) => a,
            Err(d) => {
                return Err(d);
            },
        };
        let span = self.finish_span(start);
        Ok(crate::ast::BindingIdent { span, id, optional, type_ann })
    }

    /// An ambient function declaration: a signature ended by a semicolon,
    /// since `declare` bodies carry no code.
    pub fn parse_ambient_fn_decl(&mut self, start: u32, depth: u32) -> (r: Result<
        Box<FnDeclSig>,
        Diagnostic,
    >)
        requires
            old(self).wf(),
        ensures
            parse_step(*old(self), *final (self)),
            r is Ok ==> old(self).pos < final (self).pos,
            r matches Ok(f) ==> wf_decl(Decl::Fn(f)),
            r matches Ok(f) ==> (!f.declare && old(self).cur_is_kw(Kw::Function)),
            old(self).spec_peek() matches Some(Token::Word(w0)) ==> (r matches Ok(f) ==> f.id.sym@
                == w0@),
        decreases depth, 1int,
    {
        if depth == 0 {
            return Err(self.nesting_err());
        }
        match self.expect_kw(Kw::Function) {
            Ok(_) => {},
            Err(d) => {
                return Err(d);
            },
        }
        let id = match self.parse_ident_name() {
            Ok(i) => i,
            Err(d) => {
                return Err(d);
            },
        };
        let type_params = match self.try_parse_ts_type_params(false, true, depth - 1) {
            Ok(p) => p,
            Err(d) => {
                return Err(d);
            },
        };
        match self.expect_punct(Punct::LParen) {
            Ok(_) => {},
            Err(d) => {
                return Err(d);
            },
        }
        let params = match self.parse_ts_binding_list_for_signature(depth - 1) {
            Ok(p) => p,
            Err(d) => {
                return Err(d);
            },
        };
        let return_type = match self.try_parse_ts_type_or_type_predicate_ann(depth - 1) {
            Ok(a) => a,
            Err(d) => {
                return Err(d);
            },
        };
        match self.expect_semi() {
            Ok(_) => {},
            Err(d) => {
                return Err(d);
            },
        }
        let span = self.finish_span(start);
        Ok(
            Box::new(
                FnDeclSig { span, declare: false, id, type_params, params, return_type },
            ),
        )
    }
}

} // verus!
