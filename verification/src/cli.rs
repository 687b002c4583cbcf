//! The dispatcher's own small decisions: the tiered debug message, the
//! placeholder test-command message, and which editor to launch.

use vstd::prelude::*;

verus! {

/// The message printed for the repeatable debug flag: one tier per count,
/// with a catch-all above two.
pub fn debug_message(debug: u8) -> (m: &'static str)
    ensures
        debug == 0 ==> m@ == "Debug mode is off"@,
        debug == 1 ==> m@ == "Debug mode is kind of on"@,
        debug == 2 ==> m@ == "Debug mode is on"@,
        debug > 2 ==> m@ == "Don't be crazy"@,
{
    if debug == 0 {
        "Debug mode is off"
    } else if debug == 1 {
        "Debug mode is kind of on"
    } else if debug == 2 {
        "Debug mode is on"
    } else {
        "Don't be crazy"
    }
}

/// The fixed message of the placeholder test command, depending on its
/// list flag.
pub fn test_message(list: bool) -> (m: &'static str)
    ensures
        list ==> m@ == "Printing testing lists..."@,
        !list ==> m@ == "Not printing testing lists..."@,
{
    if list {
        "Printing testing lists..."
    } else {
        "Not printing testing lists..."
    }
}

/// Chooses the editor: the explicit flag wins, then the editor variable
/// from the environment, then the fixed fallback.
pub fn choose_editor(flag: Option<String>, env_editor: Option<String>) -> (r: String)
    ensures
        flag is Some ==> r == flag->0,
        flag is None && env_editor is Some ==> r == env_editor->0,
        flag is None && env_editor is None ==> r@ == "nvim"@,
{
    match flag {
        Some(e) => e,
        None => match env_editor {
            Some(e) => e,
            None => String::from_str("nvim"),
        },
    }
}

} // verus!
