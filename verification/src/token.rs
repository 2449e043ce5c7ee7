use crate::span::Span;
use vstd::prelude::*;

verus! {

/// Punctuation and operator tokens that the type grammar consults.
#[derive(Clone, Copy, PartialEq, Eq, Structural, Debug)]
pub enum Punct {
    LParen,
    RParen,
    LBrace,
    RBrace,
    LBracket,
    RBracket,
    Lt,
    Gt,
    Comma,
    Semi,
    Colon,
    Dot,
    DotDotDot,
    Question,
    Assign,
    Arrow,
    Plus,
    Minus,
    Star,
    Hash,
    Amp,
    Pipe,
    BackQuote,
    DollarLBrace,
}

/// Keyword and contextual-keyword words.  The tokenizer classifies every
/// word against this table; a `Word::Other` therefore never carries one of
/// these spellings.
#[derive(Clone, Copy, PartialEq, Eq, Structural, Debug)]
pub enum Kw {
    Abstract,
    Any,
    As,
    Asserts,
    Await,
    Bigint,
    Boolean,
    Break,
    Class,
    Const,
    Declare,
    Enum,
    Extends,
    False,
    Function,
    Get,
    Global,
    Implements,
    Import,
    In,
    Infer,
    Interface,
    Intrinsic,
    Is,
    Keyof,
    Let,
    Module,
    Namespace,
    Never,
    New,
    Null,
    NumberTy,
    ObjectTy,
    Out,
    Override,
    Private,
    Protected,
    Public,
    Readonly,
    Require,
    SetKw,
    Static,
    StringTy,
    SymbolTy,
    This,
    True,
    TypeKw,
    Typeof,
    Undefined,
    Unique,
    Unknown,
    Var,
    Void,
    With,
    Yield,
}

/// The built-in keyword-type names of the type grammar.
pub open spec fn spec_is_keyword_type_name(k: Kw) -> bool {
    ||| k == Kw::Void
    ||| k == Kw::Null
    ||| k == Kw::Any
    ||| k == Kw::Boolean
    ||| k == Kw::Bigint
    ||| k == Kw::Never
    ||| k == Kw::NumberTy
    ||| k == Kw::ObjectTy
    ||| k == Kw::StringTy
    ||| k == Kw::SymbolTy
    ||| k == Kw::Unknown
    ||| k == Kw::Undefined
    ||| k == Kw::Intrinsic
}

/// Words that may not serve as an identifier reference (`IdentRef`).
pub open spec fn spec_is_reserved_word(k: Kw) -> bool {
    ||| k == Kw::Break
    ||| k == Kw::Class
    ||| k == Kw::Const
    ||| k == Kw::Enum
    ||| k == Kw::Extends
    ||| k == Kw::False
    ||| k == Kw::Function
    ||| k == Kw::Import
    ||| k == Kw::In
    ||| k == Kw::New
    ||| k == Kw::Null
    ||| k == Kw::This
    ||| k == Kw::True
    ||| k == Kw::Typeof
    ||| k == Kw::Var
    ||| k == Kw::Void
}

/// Words that may open a type reference: every unreserved word, plus the
/// reserved `void`, `null` and `break`, which the grammar admits in type
/// position.
pub open spec fn spec_kw_can_start_type_ref(k: Kw) -> bool {
    ||| !spec_is_reserved_word(k)
    ||| k == Kw::Void
    ||| k == Kw::Null
    ||| k == Kw::Break
}

impl Kw {
    pub fn can_start_type_ref(self) -> (r: bool)
        ensures
            r == spec_kw_can_start_type_ref(self),
    {
        if self.is_reserved_word() {
            match self {
                Kw::Void | Kw::Null | Kw::Break => true,
                _ => false,
            }
        } else {
            true
        }
    }

    pub fn is_keyword_type_name(self) -> (r: bool)
        ensures
            r == spec_is_keyword_type_name(self),
    {
        match self {
            Kw::Void | Kw::Null | Kw::Any | Kw::Boolean | Kw::Bigint | Kw::Never | Kw::NumberTy
                | Kw::ObjectTy | Kw::StringTy | Kw::SymbolTy | Kw::Unknown | Kw::Undefined
                | Kw::Intrinsic => true,
            _ => false,
        }
    }

    pub fn is_reserved_word(self) -> (r: bool)
        ensures
            r == spec_is_reserved_word(self),
    {
        match self {
            Kw::Break | Kw::Class | Kw::Const | Kw::Enum | Kw::Extends | Kw::False
                | Kw::Function | Kw::Import | Kw::In | Kw::New | Kw::Null | Kw::This | Kw::True
                | Kw::Typeof | Kw::Var | Kw::Void => true,
            _ => false,
        }
    }
}

/// An identifier-shaped token: either a classified keyword or any other name.
#[derive(Debug)]
pub enum Word {
    Kw(Kw),
    Other(String),
}

/// Ghost image of a `Word`: keyword identity, or the name's characters.
pub enum WordV {
    Kw(Kw),
    Other(Seq<char>),
}

impl View for Word {
    type V = WordV;

    open spec fn view(&self) -> WordV {
        match self {
            Word::Kw(k) => WordV::Kw(*k),
            Word::Other(s) => WordV::Other(s@),
        }
    }
}

impl Word {
    /// A copy whose ghost image equals this word's.
    pub fn dup(&self) -> (r: Word)
        ensures
            r@ == self@,
    {
        match self {
            Word::Kw(k) => Word::Kw(*k),
            Word::Other(s) => Word::Other(s.clone()),
        }
    }

    pub fn as_kw(&self) -> (r: Option<Kw>)
        ensures
            match r {
                Some(k) => self@ == WordV::Kw(k),
                None => self@ is Other,
            },
    {
        match self {
            Word::Kw(k) => Some(*k),
            Word::Other(_) => None,
        }
    }
}

/// One token of the pre-lexed buffer.
#[derive(Debug)]
pub enum Token {
    Punct(Punct),
    Word(Word),
    /// A string literal with its cooked value and raw source text.
    Str { value: String, raw: String },
    /// A numeric literal.  The tokenizer only produces non-negative values;
    /// a leading `-` is a separate `Punct::Minus` token.
    Num { value: i64, raw: String },
    /// A bigint literal, kept as its raw digits (without the `n` suffix).
    BigInt { raw: String },
    /// One cooked chunk of a template literal; `tail` marks the chunk that
    /// ends at the closing backquote rather than at `${`.
    Quasi { raw: String, tail: bool },
}

impl Token {
    pub open spec fn wf(self) -> bool {
        match self {
            Token::Num { value, .. } => value >= 0,
            _ => true,
        }
    }
}

/// A token together with its source span and whether a line break
/// immediately precedes it.
#[derive(Debug)]
pub struct TokenAndSpan {
    pub token: Token,
    pub span: Span,
    pub had_line_break: bool,
}

impl TokenAndSpan {
    pub open spec fn wf(self) -> bool {
        self.token.wf()
    }
}

} // verus!
