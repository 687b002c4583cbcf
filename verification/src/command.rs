//! The shape of an external tool invocation: a program name and its
//! arguments. The library only decides which tools to run and with which
//! arguments; spawning them is the caller's business.

use vstd::prelude::*;

verus! {

/// One external tool invocation: the program to run and its argument
/// list, in order.
pub struct ToolCommand {
    pub program: String,
    pub args: Vec<String>,
}

/// The editor launch: the chosen editor applied to the selected note.
pub fn editor_command(editor: &str, path: &str) -> (c: ToolCommand)
    ensures
        c.program@ == editor@,
        c.args@.len() == 1,
        c.args@[0]@ == path@,
{
    let mut args: Vec<String> = Vec::new();
    args.push(String::from_str(path));
    ToolCommand { program: String::from_str(editor), args }
}

/// The preview command handed to the fuzzy finder: it renders the file
/// behind the finder's current line, resolved against the notes root.
pub open spec fn spec_preview_cmd(notes_dir: Seq<char>) -> Seq<char> {
    "bat "@ + notes_dir + "/{} --color=always --style=snip"@
}

/// The interactive fuzzy-finder invocation for picking a note, with the
/// preview command for the given notes root.
pub fn picker_command(notes_dir: &str) -> (c: ToolCommand)
    ensures
        c.program@ == "fzf"@,
        c.args@.len() == 2,
        c.args@[0]@ == "--preview"@,
        c.args@[1]@ == spec_preview_cmd(notes_dir@),
{
    let preview = String::from_str("bat ").concat(notes_dir).concat(
        "/{} --color=always --style=snip",
    );
    let mut args: Vec<String> = Vec::new();
    args.push(String::from_str("--preview"));
    args.push(preview);
    ToolCommand { program: String::from_str("fzf"), args }
}

} // verus!
