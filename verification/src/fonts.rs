//! The search for a system font that covers the texts of the program.

use vstd::prelude::*;

verus! {

/// The name under which the font is known to the user interface.
pub const FONT_NAME: &'static str = "system_ui";

/// The files that may hold the font, the best one first.
pub open spec fn font_files() -> Seq<Seq<char>> {
    seq!["C:/Windows/Fonts/segoeui.ttf"@, "C:/Windows/Fonts/arial.ttf"@]
}

/// What comes next in the search for a font.
pub enum FontStep {
    /// Read this file.
    Read { path: String },
    /// Put the font that was read in front of all others, in every family.
    Install,
    /// Keep the fonts as they are.
    GiveUp,
}

/// Continues the search after `tried` files have been tried, the last of which
/// was read if `found`: the first file that can be read wins.
pub fn setup_fonts(tried: usize, found: bool) -> (step: FontStep)
    ensures
        match step {
            FontStep::Install => tried > 0 && found,
            FontStep::Read { path } => (tried == 0 || !found) && tried < font_files().len()
                && path@ == font_files()[tried as int],
            FontStep::GiveUp => (tried == 0 || !found) && tried >= font_files().len(),
        },
{
    if tried > 0 && found {
        return FontStep::Install;
    }
    match tried {
        0 => FontStep::Read { path: "C:/Windows/Fonts/segoeui.ttf".to_owned() },
        1 => FontStep::Read { path: "C:/Windows/Fonts/arial.ttf".to_owned() },
        _ => FontStep::GiveUp,
    }
}

/// Puts the font in front of the other fonts of a family.
pub fn prefer_font(family: &mut Vec<String>)
    ensures
        final(family)@.len() == old(family)@.len() + 1,
        final(family)@[0]@ == FONT_NAME@,
        final(family)@.skip(1) == old(family)@,
{
    family.insert(0, FONT_NAME.to_owned());
    assert(family@.skip(1) =~= old(family)@);
}

} // verus!
