use crate::state::Parser;
use crate::token::{Kw, Punct};
use vstd::prelude::*;

verus! {

/// The list kind decides the terminator and the separator-recovery policy.
#[derive(Clone, Copy, PartialEq, Eq, Structural, Debug)]
pub enum ParsingContext {
    EnumMembers,
    HeritageClauseElement,
    TupleElementTypes,
    TypeMembers,
    TypeParametersOrArguments,
}

impl Parser {
    /// Whether the current token terminates a list of the given kind.
    pub fn is_ts_list_terminator(&self, kind: ParsingContext) -> (r: bool)
        requires
            self.wf(),
        ensures
            r ==> !self.spec_at_eof(),
            kind == ParsingContext::TypeParametersOrArguments ==> r == self.cur_is_punct(
                Punct::Gt,
            ),
            kind == ParsingContext::TupleElementTypes ==> r == self.cur_is_punct(Punct::RBracket),
            kind == ParsingContext::EnumMembers || kind == ParsingContext::TypeMembers ==> r
                == self.cur_is_punct(Punct::RBrace),
            kind == ParsingContext::HeritageClauseElement ==> r == (self.cur_is_punct(
                Punct::LBrace,
            ) || self.cur_is_kw(Kw::Implements) || self.cur_is_kw(Kw::Extends)),
    {
        match kind {
            ParsingContext::EnumMembers => self.is_punct(Punct::RBrace),
            ParsingContext::TypeMembers => self.is_punct(Punct::RBrace),
            ParsingContext::HeritageClauseElement => self.is_punct(Punct::LBrace) || self.is_kw(
                Kw::Implements,
            ) || self.is_kw(Kw::Extends),
            ParsingContext::TupleElementTypes => self.is_punct(Punct::RBracket),
            ParsingContext::TypeParametersOrArguments => self.is_punct(Punct::Gt),
        }
    }
}

} // verus!
