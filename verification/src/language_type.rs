//! The languages in which the texts can be shown.

use vstd::prelude::*;

verus! {

/// A language of the user interface.
#[derive(Debug, Clone, Copy, PartialEq, Eq, Structural)]
pub enum LanguageType {
    English,
    Deutsch,
}

impl LanguageType {
    /// Every language, in the order in which they are offered.
    pub const ALL: [LanguageType; 2] = [LanguageType::English, LanguageType::Deutsch];

    /// The tag under which the texts of the language are filed.
    pub open spec fn tag_text(self) -> Seq<char> {
        match self {
            LanguageType::English => "en"@,
            LanguageType::Deutsch => "de"@,
        }
    }

    /// The name by which the language is offered for choice.
    pub open spec fn name_text(self) -> Seq<char> {
        match self {
            LanguageType::English => "English"@,
            LanguageType::Deutsch => "Deutsch"@,
        }
    }

    /// The tag under which the texts of the language are filed.
    pub fn tag(&self) -> (tag: &'static str)
        ensures
            tag@ == self.tag_text(),
    {
        match self {
            LanguageType::English => "en",
            LanguageType::Deutsch => "de",
        }
    }

    /// The name by which the language is offered for choice.
    pub fn name(&self) -> (name: &'static str)
        ensures
            name@ == self.name_text(),
    {
        match self {
            LanguageType::English => "English",
            LanguageType::Deutsch => "Deutsch",
        }
    }
}

} // verus!
