use vstd::prelude::*;
use crate::area::Area;

verus! {

/// The dialog that asks for the name of the file to save to.
#[derive(Debug)]
pub struct FileNamePopup {
    pub input: String,
}

/// The label that stands before the typed name.
pub open spec fn prompt() -> Seq<char> {
    seq!['F', 'i', 'l', 'e', ' ', 'n', 'a', 'm', 'e', ':', ' ']
}

impl FileNamePopup {
    /// A dialog with nothing typed yet.
    pub fn new() -> (p: Self)
        ensures
            p.input@ == Seq::<char>::empty(),
    {
        Self { input: String::new() }
    }

    /// The line that the dialog shows: the label, then what was typed.
    pub fn line(&self) -> (text: String)
        ensures
            text@ == prompt() + self.input@,
    {
        proof {
            reveal_strlit("File name: ");
        }
        let mut text = String::new();
        text.append("File name: ");
        assert(text@ =~= prompt());
        text.append(self.input.as_str());
        text
    }

    /// The part of the dialog's frame that holds its line: two cells in
    /// from every side.
    pub fn inner(frame: Area) -> (inside: Area)
        requires
            frame.x + 2 <= u16::MAX,
            frame.y + 2 <= u16::MAX,
            frame.width >= 4,
            frame.height >= 4,
        ensures
            inside.x == frame.x + 2,
            inside.y == frame.y + 2,
            inside.width == frame.width - 4,
            inside.height == frame.height - 4,
    {
        Area::new(frame.x + 2, frame.y + 2, frame.width - 4, frame.height - 4)
    }
}

} // verus!
