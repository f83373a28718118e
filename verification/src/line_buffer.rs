use vstd::prelude::*;
use vstd::string::StringExecFns;

verus! {

/// A text cell that is read, overwritten and extended only as whole values.
///
/// Exclusive access is enforced by ownership: every mutation takes the cell
/// by `&mut`, so no reader can observe a partially written value — a
/// `get_string` always returns exactly the content committed by the most
/// recent `replace_string` or `append_string`.
pub struct LineBuffer {
    string: String,
}

impl View for LineBuffer {
    type V = Seq<char>;

    closed spec fn view(&self) -> Seq<char> {
        self.string@
    }
}

impl LineBuffer {
    /// Creates a cell holding `initial`.
    pub fn new(initial: String) -> (buffer: LineBuffer)
        ensures
            buffer@ == initial@,
    {
        LineBuffer { string: initial }
    }

    /// Returns a complete snapshot of the current content.
    pub fn get_string(&self) -> (content: String)
        ensures
            content@ == self@,
    {
        self.string.clone()
    }

    /// Overwrites the content with `new_string`, as one whole value.
    pub fn replace_string(&mut self, new_string: String)
        ensures
            final(self)@ == new_string@,
    {
        self.string = new_string;
    }

    /// Appends `new_string` after the existing content.
    pub fn append_string(&mut self, new_string: String)
        ensures
            final(self)@ == old(self)@ + new_string@,
    {
        self.string.append(new_string.as_str());
    }
}

} // verus!
