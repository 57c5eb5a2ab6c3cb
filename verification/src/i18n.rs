//! Interface languages.
use vstd::prelude::*;

verus! {

/// A language the interface can be shown in.
#[derive(Debug, Clone, Copy, PartialEq, Eq, Structural)]
pub enum Language {
    EnUs,
    PtBr,
}

impl Language {
    /// Every language, in declaration order.
    pub const ALL: [Language; 2] = [Language::EnUs, Language::PtBr];

    /// The BCP 47 tag of each language.
    pub open spec fn code_of(self) -> Seq<char> {
        match self {
            Language::EnUs => "en-US"@,
            Language::PtBr => "pt-BR"@,
        }
    }

    /// The name each language is listed under.
    pub open spec fn label_of(self) -> Seq<char> {
        match self {
            Language::EnUs => "English"@,
            Language::PtBr => "Português (BR)"@,
        }
    }

    /// The language tag (`en-US`, `pt-BR`).
    pub fn code(&self) -> (r: &'static str)
        ensures
            r@ == self.code_of(),
    {
        match self {
            Language::EnUs => "en-US",
            Language::PtBr => "pt-BR",
        }
    }

    /// The label it is shown with.
    pub fn label(&self) -> (r: &'static str)
        ensures
            r@ == self.label_of(),
    {
        match self {
            Language::EnUs => "English",
            Language::PtBr => "Português (BR)",
        }
    }
}

} // verus!
