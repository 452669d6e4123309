use vstd::prelude::*;

verus! {

/// The languages in which the service can index a collection.
#[derive(Clone, Copy, Debug, PartialEq, Eq, Structural)]
pub enum Language {
    Arabic,
    Bulgarian,
    Chinese,
    Danish,
    Dutch,
    English,
    Finnish,
    French,
    German,
    Greek,
    Hungarian,
    Indonesian,
    Irish,
    Italian,
    Japanese,
    Lithuanian,
    Nepali,
    Norwegian,
    Portuguese,
    Romanian,
    Russian,
    Sanskrit,
    Serbian,
    Slovenian,
    Spanish,
    Swedish,
    Tamil,
    Turkish,
    Ukrainian,
}

impl Language {
    /// The language that the service uses where a collection names none.
    pub open spec fn spec_service_default() -> Language {
        Language::English
    }

    /// The language that the service uses where a collection names none.
    pub fn service_default() -> (language: Language)
        ensures
            language == Language::spec_service_default(),
    {
        Language::English
    }

    /// The identifier by which the service knows the language: its English
    /// name in lower case.
    pub open spec fn spec_wire_name(&self) -> Seq<char> {
        match self {
            Language::Arabic => "arabic"@,
            Language::Bulgarian => "bulgarian"@,
            Language::Chinese => "chinese"@,
            Language::Danish => "danish"@,
            Language::Dutch => "dutch"@,
            Language::English => "english"@,
            Language::Finnish => "finnish"@,
            Language::French => "french"@,
            Language::German => "german"@,
            Language::Greek => "greek"@,
            Language::Hungarian => "hungarian"@,
            Language::Indonesian => "indonesian"@,
            Language::Irish => "irish"@,
            Language::Italian => "italian"@,
            Language::Japanese => "japanese"@,
            Language::Lithuanian => "lithuanian"@,
            Language::Nepali => "nepali"@,
            Language::Norwegian => "norwegian"@,
            Language::Portuguese => "portuguese"@,
            Language::Romanian => "romanian"@,
            Language::Russian => "russian"@,
            Language::Sanskrit => "sanskrit"@,
            Language::Serbian => "serbian"@,
            Language::Slovenian => "slovenian"@,
            Language::Spanish => "spanish"@,
            Language::Swedish => "swedish"@,
            Language::Tamil => "tamil"@,
            Language::Turkish => "turkish"@,
            Language::Ukrainian => "ukrainian"@,
        }
    }

    /// The identifier by which the service knows the language.
    pub fn wire_name(&self) -> (name: &'static str)
        ensures
            name@ == self.spec_wire_name(),
    {
        match self {
            Language::Arabic => "arabic",
            Language::Bulgarian => "bulgarian",
            Language::Chinese => "chinese",
            Language::Danish => "danish",
            Language::Dutch => "dutch",
            Language::English => "english",
            Language::Finnish => "finnish",
            Language::French => "french",
            Language::German => "german",
            Language::Greek => "greek",
            Language::Hungarian => "hungarian",
            Language::Indonesian => "indonesian",
            Language::Irish => "irish",
            Language::Italian => "italian",
            Language::Japanese => "japanese",
            Language::Lithuanian => "lithuanian",
            Language::Nepali => "nepali",
            Language::Norwegian => "norwegian",
            Language::Portuguese => "portuguese",
            Language::Romanian => "romanian",
            Language::Russian => "russian",
            Language::Sanskrit => "sanskrit",
            Language::Serbian => "serbian",
            Language::Slovenian => "slovenian",
            Language::Spanish => "spanish",
            Language::Swedish => "swedish",
            Language::Tamil => "tamil",
            Language::Turkish => "turkish",
            Language::Ukrainian => "ukrainian",
        }
    }
}

} // verus!
