use vstd::prelude::*;

use crate::buffer::{BufferView, Selection};
use crate::editor::{lemma_view_of_update, Editor, EditorView, Mode};

verus! {

broadcast use lemma_view_of_update;

/// An editing or navigation command.
#[derive(Debug, PartialEq)]
pub enum Action {
    // navigate
    CursorUp(u16),
    CursorDown(u16),
    CursorLeft(u16),
    CursorRight(u16),
    CursorLineStart,
    CursorLineEnd,
    CursorBufferStart,
    CursorBufferEnd,
    Paste,
    Delete,
    // visual
    DeleteSelection,
    YankSelection,
    // insert
    Input(char),
    Backspace,
    // generic
    SetMode(Mode),
    Chain(Vec<Action>),
    Quit,
}

/// Why a run of actions stopped before its end.
#[derive(Debug, PartialEq, Eq, Clone, Copy, Structural)]
pub enum Stop {
    /// `Quit` was reached: the session is to end.
    Quit,
    /// `YankSelection` was reached, which this engine does not provide.
    Unimplemented,
}

/// The text that `Paste` inserts; there is no yank register yet.
pub open spec fn paste_text() -> Seq<char> {
    seq!['h', 'e', 'l', 'l', 'o']
}

/// `t` put into `c` at offset `at`.
pub open spec fn splice(c: Seq<char>, at: int, t: Seq<char>) -> Seq<char> {
    c.subrange(0, at) + t + c.subrange(at, c.len() as int)
}

/// `c` without the offsets in `[lo, hi)`.
pub open spec fn cut(c: Seq<char>, lo: int, hi: int) -> Seq<char> {
    c.subrange(0, lo) + c.subrange(hi, c.len() as int)
}

/// What an action does to a session, and whether it stops the run it
/// belongs to. Offsets that fall outside the content leave it unchanged.
pub open spec fn step(s: EditorView, a: Action) -> (EditorView, Result<(), Stop>)
    decreases a, 0nat,
{
    let len = s.active().content.len() as int;
    match a {
        Action::CursorUp(n) => (s.cursor_up(n), Ok(())),
        Action::CursorDown(n) => (s.cursor_down(n), Ok(())),
        Action::CursorLeft(n) => (s.cursor_left(n), Ok(())),
        Action::CursorRight(n) => (s.cursor_right(n), Ok(())),
        Action::CursorLineStart => (s.with_col(0), Ok(())),
        Action::CursorLineEnd => (s.cursor_line_end(), Ok(())),
        Action::CursorBufferStart => (s.with_row(0), Ok(())),
        Action::CursorBufferEnd => (s.with_row(s.size.1), Ok(())),
        Action::SetMode(m) => (s.set_mode(m), Ok(())),
        Action::Paste => if s.col() <= len {
            (
                s.with_content(splice(s.active().content, s.col(), paste_text())).cursor_right(
                    paste_text().len() as u16,
                ),
                Ok(()),
            )
        } else {
            (s, Ok(()))
        },
        Action::Input(ch) => if s.col() <= len {
            (s.with_content(s.active().content.insert(s.col(), ch)).cursor_right(1), Ok(()))
        } else {
            (s, Ok(()))
        },
        Action::Backspace => if len > 0 && s.col() > 0 {
            (
                s.with_content(s.active().content).cursor_left(1).delete(),
                Ok(()),
            )
        } else {
            (s, Ok(()))
        },
        Action::Delete => (s.delete(), Ok(())),
        Action::DeleteSelection => match s.active().selection {
            Some(sel) => if sel.high() <= len {
                (
                    s.with_content(cut(s.active().content, sel.low(), sel.high())).with_col(
                        sel.start,
                    ),
                    Ok(()),
                )
            } else {
                (s, Ok(()))
            },
            None => (s, Ok(())),
        },
        Action::YankSelection => (s, Err(Stop::Unimplemented)),
        Action::Chain(v) => run(s, v@, 0),
        Action::Quit => (s, Err(Stop::Quit)),
    }
}

/// Runs `v[i..]` in order, each action on the session that the one before
/// left, up to the first that stops the run.
pub open spec fn run(s: EditorView, v: Seq<Action>, i: int) -> (EditorView, Result<(), Stop>)
    decreases v, v.len() - i,
{
    if 0 <= i < v.len() {
        let (s1, r) = step(s, v[i]);
        match r {
            Ok(()) => run(s1, v, i + 1),
            Err(_) => (s1, r),
        }
    } else {
        (s, Ok(()))
    }
}

fn line_end(e: &Editor) -> (r: u32)
    requires
        e.wf(),
    ensures
        r == e@.line_end(),
{
    let len = e.buffers[e.active_buffer].content.len();
    let w: u32 = if (e.size.0 as usize) <= len {
        e.size.0 as u32
    } else {
        len as u32
    };
    if e.mode == Mode::Insert {
        w + 1
    } else {
        w
    }
}

/// Moves the selection's following end to one past the caret.
fn track(e: &mut Editor)
    requires
        old(e).wf(),
    ensures
        final(e).wf(),
        final(e)@ == old(e)@.track(),
{
    let i = e.active_buffer;
    let col = e.cursor.0;
    if let Some(sel) = e.buffers[i].selection {
        e.buffers[i].selection = Some(Selection { start: sel.start, end: col as u32 + 1 });
    }
}

fn cursor_left(e: &mut Editor, n: u16)
    requires
        old(e).wf(),
    ensures
        final(e).wf(),
        final(e)@ == old(e)@.cursor_left(n),
{
    e.cursor.0 = e.cursor.0.saturating_sub(n);
    track(e);
}

fn cursor_right(e: &mut Editor, n: u16)
    requires
        old(e).wf(),
    ensures
        final(e).wf(),
        final(e)@ == old(e)@.cursor_right(n),
{
    let end = line_end(e);
    if (e.cursor.0 as u32) + (n as u32) < end {
        e.cursor.0 = e.cursor.0 + n;
        track(e);
    }
}

fn delete(e: &mut Editor)
    requires
        old(e).wf(),
    ensures
        final(e).wf(),
        final(e)@ == old(e)@.delete(),
{
    let i = e.active_buffer;
    let col = e.cursor.0 as usize;
    if col < e.buffers[i].content.len() {
        let b = &mut e.buffers[i];
        b.dirty = true;
        b.content.remove(col);
    }
}

/// Puts `text` into `c` at offset `at`.
fn insert_all(c: &mut Vec<char>, at: usize, text: &Vec<char>)
    requires
        at <= old(c).len(),
    ensures
        final(c)@ == splice(old(c)@, at as int, text@),
{
    let mut k: usize = 0;
    while k < text.len()
        invariant
            at <= old(c).len(),
            k <= text.len(),
            c@.len() == old(c)@.len() + k,
            c@ == splice(old(c)@, at as int, text@.subrange(0, k as int)),
        decreases text.len() - k,
    {
        assert(at + k <= c.len());
        c.insert(at + k, text[k]);
        k = k + 1;
        assert(c@ =~= splice(old(c)@, at as int, text@.subrange(0, k as int)));
    }
    assert(text@.subrange(0, k as int) =~= text@);
}

/// Takes the offsets `[lo, hi)` out of `c`.
fn remove_range(c: &mut Vec<char>, lo: usize, hi: usize)
    requires
        lo <= hi <= old(c).len(),
    ensures
        final(c)@ == cut(old(c)@, lo as int, hi as int),
{
    let mut k: usize = lo;
    while k < hi
        invariant
            lo <= k <= hi <= old(c).len(),
            c@ == cut(old(c)@, lo as int, k as int),
        decreases hi - k,
    {
        c.remove(lo);
        k = k + 1;
        assert(c@ =~= cut(old(c)@, lo as int, k as int));
    }
}

fn paste(e: &mut Editor)
    requires
        old(e).wf(),
    ensures
        final(e).wf(),
        final(e)@ == step(old(e)@, Action::Paste).0,
{
    let i = e.active_buffer;
    let col = e.cursor.0 as usize;
    if col <= e.buffers[i].content.len() {
        let text: Vec<char> = vec!['h', 'e', 'l', 'l', 'o'];
        assert(text@ =~= paste_text());
        let b = &mut e.buffers[i];
        b.dirty = true;
        insert_all(&mut b.content, col, &text);
        cursor_right(e, text.len() as u16);
    }
}

fn input(e: &mut Editor, ch: char)
    requires
        old(e).wf(),
    ensures
        final(e).wf(),
        final(e)@ == step(old(e)@, Action::Input(ch)).0,
{
    let i = e.active_buffer;
    let col = e.cursor.0 as usize;
    if col <= e.buffers[i].content.len() {
        let b = &mut e.buffers[i];
        b.dirty = true;
        b.content.insert(col, ch);
        cursor_right(e, 1);
    }
}

fn backspace(e: &mut Editor)
    requires
        old(e).wf(),
    ensures
        final(e).wf(),
        final(e)@ == step(old(e)@, Action::Backspace).0,
{
    let i = e.active_buffer;
    if e.buffers[i].content.len() > 0 && e.cursor.0 > 0 {
        e.buffers[i].dirty = true;
        cursor_left(e, 1);
        delete(e);
    }
}

fn delete_selection(e: &mut Editor)
    requires
        old(e).wf(),
    ensures
        final(e).wf(),
        final(e)@ == step(old(e)@, Action::DeleteSelection).0,
{
    let i = e.active_buffer;
    if let Some(sel) = e.buffers[i].selection {
        let lo: u32 = if (sel.start as u32) <= sel.end {
            sel.start as u32
        } else {
            sel.end
        };
        let hi: u32 = if (sel.start as u32) <= sel.end {
            sel.end
        } else {
            sel.start as u32
        };
        if (hi as usize) <= e.buffers[i].content.len() {
            let b = &mut e.buffers[i];
            b.dirty = true;
            remove_range(&mut b.content, lo as usize, hi as usize);
            e.cursor.0 = sel.start;
        }
    }
}

/// Carries out `action` on the session. Composite actions run their parts
/// in order on the same session, so each part sees what the ones before it
/// did; the first part that stops the run ends it.
pub fn exec(e: &mut Editor, action: Action) -> (r: Result<(), Stop>)
    requires
        old(e).wf(),
    ensures
        final(e).wf(),
        (final(e)@, r) == step(old(e)@, action),
    decreases action,
{
    match action {
        Action::CursorUp(n) => {
            if e.cursor.1 >= n {
                e.cursor.1 = e.cursor.1 - n;
            }
        },
        Action::CursorDown(n) => {
            if (e.cursor.1 as u32) + (n as u32) < e.size.1 as u32 {
                e.cursor.1 = e.cursor.1 + n;
            }
        },
        Action::CursorLeft(n) => {
            cursor_left(e, n);
        },
        Action::CursorRight(n) => {
            cursor_right(e, n);
        },
        Action::CursorLineStart => {
            e.cursor.0 = 0;
        },
        Action::CursorLineEnd => {
            let end = line_end(e);
            e.cursor.0 = if end >= 1 {
                (end - 1) as u16
            } else {
                0
            };
        },
        Action::CursorBufferStart => {
            e.cursor.1 = 0;
        },
        Action::CursorBufferEnd => {
            e.cursor.1 = e.size.1;
        },
        Action::SetMode(m) => {
            e.set_mode(m);
        },
        Action::Paste => {
            paste(e);
        },
        Action::Input(ch) => {
            input(e, ch);
        },
        Action::Backspace => {
            backspace(e);
        },
        Action::Delete => {
            delete(e);
        },
        Action::DeleteSelection => {
            delete_selection(e);
        },
        Action::YankSelection => {
            return Err(Stop::Unimplemented);
        },
        Action::Chain(actions) => {
            let ghost va = actions;
            let ghost v = actions@;
            let ghost s0 = e@;
            assert(decreases_to!(action => va@));
            for a in it: actions
                invariant
                    e.wf(),
                    it.seq() == v,
                    va@ == v,
                    action == Action::Chain(va),
                    decreases_to!(action => va@),
                    step(old(e)@, action) == run(s0, v, 0),
                    run(s0, v, 0) == run(e@, v, it.index() as int),
            {
                proof {
                    assert(it.index() < v.len());
                    assert(a == v[it.index() as int]);
                    assert(decreases_to!(v => v[it.index() as int]));
                    assert(decreases_to!(action => a));
                }
                match exec(e, a) {
                    Ok(()) => {},
                    Err(stop) => {
                        return Err(stop);
                    },
                }
            }
        },
        Action::Quit => {
            return Err(Stop::Quit);
        },
    }
    Ok(())
}

} // verus!
