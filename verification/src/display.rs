//! A display as the tool knows it: an identifier and a size in pixels.

use vstd::prelude::*;
use vstd::string::*;
use crate::text::{decimal, push_decimal};

verus! {

/// One monitor of the machine. The list of displays is read once, when the
/// tool starts, and an identifier names the same display until it ends.
#[derive(Clone, Copy, Debug, PartialEq, Eq, Structural)]
pub struct Display {
    pub id: u32,
    pub width: u32,
    pub height: u32,
}

/// The file a capture of display `id` goes to when the user chose none:
/// `screenshot-<id>.png`, relative to the working directory.
pub open spec fn default_filename(id: u32) -> Seq<char> {
    "screenshot-"@ + decimal(id as nat) + ".png"@
}

/// The words that stand for a display in the menu: `<id> - <width>x<height>`
/// after the given opening words.
pub open spec fn described(opening: Seq<char>, display: Display) -> Seq<char> {
    opening + decimal(display.id as nat) + " - "@ + decimal(display.width as nat) + "x"@ + decimal(
        display.height as nat,
    )
}

impl Display {
    pub fn new(id: u32, width: u32, height: u32) -> (display: Display)
        ensures
            display == (Display { id, width, height }),
    {
        Display { id, width, height }
    }

    /// The name of the file that a capture of this display is saved to by
    /// default.
    pub fn default_filename(&self) -> (name: String)
        ensures
            name@ == default_filename(self.id),
    {
        let mut name = String::from_str("screenshot-");
        push_decimal(&mut name, self.id);
        name.append(".png");
        name
    }

    fn describe(&self, opening: &str) -> (text: String)
        ensures
            text@ == described(opening@, *self),
    {
        let mut text = String::from_str(opening);
        push_decimal(&mut text, self.id);
        text.append(" - ");
        push_decimal(&mut text, self.width);
        text.append("x");
        push_decimal(&mut text, self.height);
        text
    }

    /// The text of the button that selects this display.
    pub fn label(&self) -> (text: String)
        ensures
            text@ == described("Screen "@, *self),
    {
        self.describe("Screen ")
    }

    /// The line that shows this display as the selected one.
    pub fn selected_label(&self) -> (text: String)
        ensures
            text@ == described("Selected screen: "@, *self),
    {
        self.describe("Selected screen: ")
    }
}

} // verus!
