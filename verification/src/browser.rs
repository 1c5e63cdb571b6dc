//! How a page is opened in the user's browser.

use vstd::prelude::*;

verus! {

/// Keeps the helper process from showing a console window.
pub const CREATE_NO_WINDOW: u32 = 0x0800_0000;

/// A process to start.
pub struct CommandLine {
    pub program: String,
    pub args: Vec<String>,
    pub creation_flags: u32,
}

/// The command that opens `url`: `start`, with an empty title, in a hidden
/// shell.
pub fn open_url(url: &str) -> (command: CommandLine)
    ensures
        command.program@ == "cmd"@,
        command.args@.map_values(|s: String| s@) == seq!["/C"@, "start"@, ""@, url@],
        command.creation_flags == CREATE_NO_WINDOW,
{
    let args = vec!["/C".to_owned(), "start".to_owned(), "".to_owned(), url.to_owned()];
    assert(args@.map_values(|s: String| s@) =~= seq!["/C"@, "start"@, ""@, url@]);
    CommandLine { program: "cmd".to_owned(), args, creation_flags: CREATE_NO_WINDOW }
}

} // verus!
