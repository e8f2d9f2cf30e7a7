//! The decisions behind the folder commands: what the folder picker is
//! opened with, the name of the skins folder and the error messages.

use vstd::prelude::*;
use vstd::string::*;
use crate::text::{chars_of, trim, trim_range};

verus! {

/// How the folder picker is to be opened.
#[derive(Clone, Debug)]
pub struct DialogPlan {
    pub title: Option<String>,
    pub directory: Option<String>,
}

/// The title is used whenever one is given; the initial directory only
/// when it is not blank.
pub fn folder_dialog_plan(dialog_title: Option<String>, initial_path: Option<String>) -> (r: DialogPlan)
    ensures
        r.title == dialog_title,
        match initial_path {
            Some(p) => if trim(p@).len() > 0 {
                r.directory == Some(p)
            } else {
                r.directory is None
            },
            None => r.directory is None,
        },
{
    let directory = match initial_path {
        Some(p) => {
            let cs = chars_of(p.as_str());
            let (lo, hi) = trim_range(&cs);
            if lo < hi {
                Some(p)
            } else {
                None
            }
        },
        None => None,
    };
    DialogPlan { title: dialog_title, directory }
}

/// The folder, under the user's documents folder, that holds the skins.
pub fn skins_folder_name() -> (r: &'static str)
    ensures
        r@ == "FM Skin Builder"@,
{
    "FM Skin Builder"
}

/// "Failed to <action> <what> directory: <detail>".
pub fn directory_error(action: &str, what: &str, detail: &str) -> (r: String)
    ensures
        r@ == "Failed to "@ + action@ + " "@ + what@ + " directory: "@ + detail@,
{
    let mut m = String::from_str("Failed to ");
    m.append(action);
    m.append(" ");
    m.append(what);
    m.append(" directory: ");
    m.append(detail);
    m
}

} // verus!
