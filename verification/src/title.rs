//! Window titles and window labels, derived from document state.

use vstd::prelude::*;
use vstd::string::{StrSliceExecFns, StringExecFns};
use crate::id::NanoID;

verus! {

/// The main window's title for an unnamed package.
pub fn default_main_title() -> (t: &'static str)
    ensures
        t@ == "SexLab Scene Builder"@,
{
    "SexLab Scene Builder"
}

/// The main window's title: the default title alone for an untitled package,
/// else the default title, a dash, and the package name.
pub fn main_window_title(pack_name: &String) -> (t: String)
    ensures
        pack_name@.len() == 0 ==> t@ == "SexLab Scene Builder"@,
        pack_name@.len() > 0 ==> t@ == "SexLab Scene Builder"@ + " - "@ + pack_name@,
{
    let mut t = String::from_str(default_main_title());
    if !pack_name.as_str().is_empty() {
        t.append(" - ");
        t.append(pack_name.as_str());
    }
    t
}

/// Appends the unsaved-changes marker to a window title, unless the title
/// already ends in it.
pub fn starred_title(title: &String) -> (t: String)
    ensures
        title@.len() > 0 && title@.last() == '*' ==> t@ == title@,
        !(title@.len() > 0 && title@.last() == '*') ==> t@ == title@ + "*"@,
{
    let n = title.as_str().unicode_len();
    if n > 0 && title.as_str().get_char(n - 1) == '*' {
        title.clone()
    } else {
        let mut t = title.clone();
        t.append("*");
        t
    }
}

/// The title of a stage editor window: the stage's display name, or a
/// placeholder when it is empty.
pub fn stage_editor_title(stage_name: &String) -> (t: String)
    ensures
        stage_name@.len() == 0 ==> t@ == "Stage Editor ["@ + "Untitled"@ + "]"@,
        stage_name@.len() > 0 ==> t@ == "Stage Editor ["@ + stage_name@ + "]"@,
{
    let mut t = String::from_str("Stage Editor [");
    if stage_name.as_str().is_empty() {
        t.append("Untitled");
    } else {
        t.append(stage_name.as_str());
    }
    t.append("]");
    t
}

/// The unique label of the editor window for one stage; windows collide
/// exactly when their stages do.
pub fn stage_window_label(id: &NanoID) -> (t: String)
    ensures
        t@ == "stage_editor_"@ + id@,
{
    let mut t = String::from_str("stage_editor_");
    t.append(id.token.as_str());
    t
}

} // verus!
