use vstd::prelude::*;

verus! {

/// A half-open range of character offsets whose two ends may come in
/// either order; `end` is the end that follows the cursor. `start` is a
/// column; `end` is one past a column, so it is wider than a column to
/// reach one past the last.
#[derive(Debug, Clone, Copy, PartialEq, Eq, Structural)]
pub struct Selection {
    pub start: u16,
    pub end: u32,
}

impl Selection {
    /// The smaller of the two ends.
    pub open spec fn low(self) -> int {
        if self.start as int <= self.end as int { self.start as int } else { self.end as int }
    }

    /// The larger of the two ends.
    pub open spec fn high(self) -> int {
        if self.start as int <= self.end as int { self.end as int } else { self.start as int }
    }

    /// Returns the characters of `content` in the normalized range
    /// `[min(start, end), max(start, end))`, or `None` when that range runs
    /// past the end of `content`.
    pub fn apply<'a>(&self, content: &'a str) -> (r: Option<&'a str>)
        ensures
            r is Some <==> self.high() <= content@.len(),
            r matches Some(s) ==> s@ == content@.subrange(self.low(), self.high()),
    {
        let start: u32 = if (self.start as u32) <= self.end { self.start as u32 } else { self.end };
        let end: u32 = if (self.start as u32) <= self.end { self.end } else { self.start as u32 };
        if (end as usize) <= content.unicode_len() {
            Some(content.substring_char(start as usize, end as usize))
        } else {
            None
        }
    }
}

/// What a buffer holds, as mathematical values.
pub struct BufferView {
    pub name: Seq<char>,
    pub content: Seq<char>,
    pub dirty: bool,
    pub selection: Option<Selection>,
}

/// A named text held as a flat sequence of characters, with a flag that
/// says whether its content changed since it was last drawn, and the
/// selection of Visual mode, if any.
#[derive(Debug)]
pub struct Buffer {
    pub name: String,
    pub content: Vec<char>,
    pub dirty: bool,
    pub selection: Option<Selection>,
}

impl View for Buffer {
    type V = BufferView;

    open spec fn view(&self) -> BufferView {
        BufferView {
            name: self.name@,
            content: self.content@,
            dirty: self.dirty,
            selection: self.selection,
        }
    }
}

impl Buffer {
    /// A clean buffer without a selection, holding the characters of
    /// `content`.
    pub fn new(name: String, content: String) -> (r: Buffer)
        ensures
            r@ == (BufferView {
                name: name@,
                content: content@,
                dirty: false,
                selection: None,
            }),
    {
        let mut chars: Vec<char> = Vec::new();
        for c in it: content.as_str().chars()
            invariant
                it.seq() == content@,
                chars@ == it.seq().subrange(0, it.index() as int),
        {
            chars.push(c);
        }
        assert(chars@ =~= content@);
        Buffer { name, content: chars, selection: None, dirty: false }
    }
}

} // verus!
