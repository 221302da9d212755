//! The lines that the game has to print, in order.

use vstd::prelude::*;
use vstd::string::*;

verus! {

/// The characters of each string of `v`, in order.
pub open spec fn texts(v: Seq<String>) -> Seq<Seq<char>> {
    Seq::new(v.len(), |i: int| v[i]@)
}

/// Lines of output that wait to be printed. Its view is the sequence of the
/// lines' texts; an empty text stands for a blank line.
pub struct Transcript {
    lines: Vec<String>,
}

impl View for Transcript {
    type V = Seq<Seq<char>>;

    closed spec fn view(&self) -> Seq<Seq<char>> {
        texts(self.lines@)
    }
}

impl Transcript {
    /// A transcript without lines.
    pub fn new() -> (t: Transcript)
        ensures
            t@ == Seq::<Seq<char>>::empty(),
    {
        let t = Transcript { lines: Vec::new() };
        assert(t@ =~= Seq::<Seq<char>>::empty());
        t
    }

    /// Adds `text` as the last line.
    pub fn say(&mut self, text: &str)
        ensures
            final(self)@ == old(self)@.push(text@),
    {
        self.lines.push(String::from_str(text));
        assert(self@ =~= old(self)@.push(text@));
    }

    /// Adds `text` as the last line, taking the string over.
    pub fn say_string(&mut self, text: String)
        ensures
            final(self)@ == old(self)@.push(text@),
    {
        self.lines.push(text);
        assert(self@ =~= old(self)@.push(text@));
    }

    /// Hands the lines out, first line first.
    pub fn into_lines(self) -> (v: Vec<String>)
        ensures
            texts(v@) == self@,
    {
        self.lines
    }
}

} // verus!
