//! The languages a submission may declare, and their numeric codes as
//! the sandbox configuration uses them.

use vstd::prelude::*;

use crate::error::Error;

verus! {

/// A submission's declared language.
#[derive(Debug, Clone, Copy, PartialEq, Eq, Structural)]
pub enum Language {
    C,
    Cpp,
    Python,
}

/// The numeric code of a language.
pub open spec fn language_code(l: Language) -> int {
    match l {
        Language::C => 0,
        Language::Cpp => 1,
        Language::Python => 2,
    }
}

/// The language a numeric code stands for; codes outside `0 ..= 2` are
/// rejected.
pub open spec fn spec_language_from_code(value: int) -> Result<Language, Error> {
    if value == 0 {
        Ok(Language::C)
    } else if value == 1 {
        Ok(Language::Cpp)
    } else if value == 2 {
        Ok(Language::Python)
    } else {
        Err(Error::InvalidLanguageCode)
    }
}

impl From<Language> for i32 {
    fn from(val: Language) -> (r: i32) {
        match val {
            Language::C => 0,
            Language::Cpp => 1,
            Language::Python => 2,
        }
    }
}

impl vstd::std_specs::convert::FromSpecImpl<Language> for i32 {
    open spec fn obeys_from_spec() -> bool {
        true
    }

    open spec fn from_spec(v: Language) -> i32 {
        language_code(v) as i32
    }
}

impl Language {
    /// The language a numeric code stands for.
    pub fn try_from(value: i32) -> (r: Result<Language, Error>)
        ensures
            r == spec_language_from_code(value as int),
    {
        match value {
            0 => Ok(Language::C),
            1 => Ok(Language::Cpp),
            2 => Ok(Language::Python),
            _ => Err(Error::InvalidLanguageCode),
        }
    }
}

/// The file name a submission's source text is stored under.
pub open spec fn spec_source_file_name(l: Language) -> Seq<char> {
    match l {
        Language::C => "main.c"@,
        Language::Cpp => "main.cpp"@,
        Language::Python => "main.py"@,
    }
}

/// The file name a submission's source text is stored under inside its
/// working directory.
pub fn source_file_name(l: Language) -> (r: &'static str)
    ensures
        r@ == spec_source_file_name(l),
{
    match l {
        Language::C => "main.c",
        Language::Cpp => "main.cpp",
        Language::Python => "main.py",
    }
}

} // verus!
