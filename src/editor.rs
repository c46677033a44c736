use vstd::prelude::*;

use crate::buffer::{Buffer, BufferView, Selection};

verus! {

/// The interaction mode, which decides how keys are read and what happens
/// on entering and leaving it.
#[derive(Debug, PartialEq, Eq, Copy, Clone, Structural)]
pub enum Mode {
    Navigate,
    Insert,
    Visual,
    Command,
}

/// The shape that the terminal gives the caret.
#[derive(Debug, PartialEq, Eq, Copy, Clone, Structural)]
pub enum Caret {
    Block,
    Bar,
}

impl Mode {
    /// The caret shape of this mode: a block while navigating or
    /// selecting, a bar while typing text or a command.
    pub fn caret(&self) -> (r: Caret)
        ensures
            r == Caret::Bar <==> (*self == Mode::Insert || *self == Mode::Command),
    {
        match self {
            Mode::Navigate | Mode::Visual => Caret::Block,
            Mode::Insert | Mode::Command => Caret::Bar,
        }
    }
}

/// `x - y`, or 0 where that is negative.
pub open spec fn sat_sub(x: int, y: int) -> int {
    if x >= y { x - y } else { 0 }
}

/// One past the last column the caret may take on in mode `m`, with a
/// terminal `cols` wide and content `len` characters long: the shorter of
/// the two, and one more in Insert mode so that the caret can stand after
/// the last character.
pub open spec fn line_end_for(m: Mode, cols: u16, len: nat) -> int {
    let w = if (cols as int) <= len { cols as int } else { len as int };
    if m == Mode::Insert { w + 1 } else { w }
}

/// An editor session as mathematical values.
pub struct EditorView {
    pub mode: Mode,
    pub buffers: Seq<BufferView>,
    pub active_buffer: int,
    /// Column and row of the caret. The column is also the offset into
    /// the content at which text is edited: the engine has no notion of
    /// lines.
    pub cursor: (u16, u16),
    /// Columns and rows of the terminal.
    pub size: (u16, u16),
}

impl EditorView {
    pub open spec fn wf(self) -> bool {
        0 <= self.active_buffer < self.buffers.len()
    }

    pub open spec fn active(self) -> BufferView {
        self.buffers[self.active_buffer]
    }

    pub open spec fn with_active(self, b: BufferView) -> EditorView {
        EditorView { buffers: self.buffers.update(self.active_buffer, b), ..self }
    }

    pub open spec fn col(self) -> int {
        self.cursor.0 as int
    }

    pub open spec fn with_col(self, col: u16) -> EditorView {
        EditorView { cursor: (col, self.cursor.1), ..self }
    }

    pub open spec fn with_row(self, row: u16) -> EditorView {
        EditorView { cursor: (self.cursor.0, row), ..self }
    }

    /// One past the last column the caret may take on in this session.
    pub open spec fn line_end(self) -> int {
        line_end_for(self.mode, self.size.0, self.active().content.len())
    }

    /// Where there is a selection, its moving end follows the caret: one
    /// past the caret's column.
    pub open spec fn track(self) -> EditorView {
        let b = self.active();
        match b.selection {
            Some(s) => self.with_active(
                BufferView {
                    selection: Some(Selection { start: s.start, end: (self.cursor.0 + 1) as u32 }),
                    ..b
                },
            ),
            None => self,
        }
    }

    /// The mode change: leaving Visual drops the selection, entering Visual
    /// starts an empty one at the caret.
    pub open spec fn set_mode(self, m: Mode) -> EditorView {
        let b0 = self.active();
        let b1 = if self.mode == Mode::Visual { BufferView { selection: None, ..b0 } } else { b0 };
        let b2 = if m == Mode::Visual {
            BufferView {
                selection: Some(Selection { start: self.cursor.0, end: self.cursor.0 as u32 }),
                ..b1
            }
        } else {
            b1
        };
        EditorView { mode: m, ..self.with_active(b2) }
    }

    pub open spec fn cursor_up(self, n: u16) -> EditorView {
        if self.cursor.1 >= n { self.with_row((self.cursor.1 - n) as u16) } else { self }
    }

    pub open spec fn cursor_down(self, n: u16) -> EditorView {
        if self.cursor.1 + n < self.size.1 { self.with_row((self.cursor.1 + n) as u16) } else { self }
    }

    pub open spec fn cursor_left(self, n: u16) -> EditorView {
        self.with_col(sat_sub(self.col(), n as int) as u16).track()
    }

    /// Moves right by `n` only where the caret stays before `line_end`.
    pub open spec fn cursor_right(self, n: u16) -> EditorView {
        if self.col() + n < self.line_end() {
            self.with_col((self.col() + n) as u16).track()
        } else {
            self
        }
    }

    pub open spec fn cursor_line_end(self) -> EditorView {
        self.with_col(sat_sub(self.line_end(), 1) as u16)
    }

    /// Marks the active buffer dirty and sets its content.
    pub open spec fn with_content(self, c: Seq<char>) -> EditorView {
        self.with_active(BufferView { content: c, dirty: true, ..self.active() })
    }

    /// Removes the character under the caret, where there is one.
    pub open spec fn delete(self) -> EditorView {
        let c = self.active().content;
        if self.col() < c.len() {
            self.with_content(c.remove(self.col()))
        } else {
            self
        }
    }
}

/// The views of a sequence of buffers.
pub open spec fn views(v: Seq<Buffer>) -> Seq<BufferView> {
    v.map_values(|b: Buffer| b@)
}

/// Replacing one buffer replaces its view alone.
pub broadcast proof fn lemma_view_of_update(v: Seq<Buffer>, i: int, b: Buffer)
    requires
        0 <= i < v.len(),
    ensures
        #[trigger] views(v.update(i, b)) == views(v).update(i, b@),
{
    assert(views(v.update(i, b)) =~= views(v).update(i, b@));
}

/// An editor session: its buffers, the active one, the caret, the
/// terminal's size and the current mode.
#[derive(Debug)]
pub struct Editor {
    pub mode: Mode,
    pub buffers: Vec<Buffer>,
    pub active_buffer: usize,
    pub cursor: (u16, u16),
    pub size: (u16, u16),
}

impl View for Editor {
    type V = EditorView;

    open spec fn view(&self) -> EditorView {
        EditorView {
            mode: self.mode,
            buffers: views(self.buffers@),
            active_buffer: self.active_buffer as int,
            cursor: self.cursor,
            size: self.size,
        }
    }
}

impl Editor {
    /// A session in Navigate mode with no buffer, the caret at the origin,
    /// for a terminal of `size` columns and rows.
    pub fn new(size: (u16, u16)) -> (r: Editor)
        ensures
            r@ == (EditorView {
                mode: Mode::Navigate,
                buffers: Seq::empty(),
                active_buffer: 0,
                cursor: (0, 0),
                size,
            }),
    {
        let r = Editor {
            mode: Mode::Navigate,
            buffers: Vec::new(),
            active_buffer: 0,
            cursor: (0, 0),
            size,
        };
        assert(r@.buffers =~= Seq::empty());
        r
    }

    pub open spec fn wf(&self) -> bool {
        self.active_buffer < self.buffers.len()
    }

    pub fn get_active_buffer(&self) -> (r: &Buffer)
        requires
            self.wf(),
        ensures
            r@ == self@.active(),
    {
        &self.buffers[self.active_buffer]
    }

    pub fn get_active_buffer_mut(&mut self) -> (r: &mut Buffer)
        requires
            old(self).wf(),
        ensures
            r@ == old(self)@.active(),
            final(self)@ == old(self)@.with_active(final(r)@),
    {
        broadcast use lemma_view_of_update;

        let i = self.active_buffer;
        &mut self.buffers[i]
    }

    /// The character at offset `index` of the active buffer.
    pub fn get_char_at(&self, index: usize) -> (r: char)
        requires
            self.wf(),
            index < self@.active().content.len(),
        ensures
            r == self@.active().content[index as int],
    {
        self.buffers[self.active_buffer].content[index]
    }

    /// Appends `buffer` to the session's buffers.
    pub fn add_buffer(&mut self, buffer: Buffer) -> (r: &mut Self)
        ensures
            *r == (Editor { buffers: r.buffers, ..*old(self) }),
            r@.buffers == old(self)@.buffers.push(buffer@),
            *final(self) == *final(r),
    {
        self.buffers.push(buffer);
        self
    }

    /// Switches to mode `m`, dropping the selection on leaving Visual and
    /// starting an empty one at the caret on entering it.
    pub fn set_mode(&mut self, m: Mode)
        requires
            old(self).wf(),
        ensures
            final(self)@ == old(self)@.set_mode(m),
            final(self).wf(),
    {
        let col = self.cursor.0;
        let i = self.active_buffer;
        if self.mode == Mode::Visual {
            self.buffers[i].selection = None;
        }
        if m == Mode::Visual {
            self.buffers[i].selection = Some(Selection { start: col, end: col as u32 });
        }
        self.mode = m;
        assert(self@.buffers =~= old(self)@.set_mode(m).buffers);
    }
}

} // verus!
