//! Configuration rules of the service.

use vstd::prelude::*;
use vstd::string::*;

verus! {

/// The project that the record store belongs to: the first setting where
/// it is given, else the second, else the development project.
pub open spec fn project_id_of(first: Option<Seq<char>>, second: Option<Seq<char>>) -> Seq<char> {
    match first {
        Some(id) => id,
        None => match second {
            Some(id) => id,
            None => "superexam-dev"@,
        },
    }
}

/// The mathematical content of an optional setting.
pub open spec fn setting_view(setting: Option<String>) -> Option<Seq<char>> {
    match setting {
        Some(text) => Some(text@),
        None => None,
    }
}

/// Chooses the project of the record store from the two settings that may
/// name it. A setting that is given is taken as it is, even if empty.
pub fn resolve_project_id(first: Option<String>, second: Option<String>) -> (id: String)
    ensures
        id@ == project_id_of(setting_view(first), setting_view(second)),
{
    match first {
        Some(id) => id,
        None => match second {
            Some(id) => id,
            None => String::from_str("superexam-dev"),
        },
    }
}

} // verus!
