use vstd::prelude::*;

use crate::actions::{run, step, Action, Stop};
use crate::buffer::Selection;
use crate::editor::{line_end_for, sat_sub, EditorView, Mode};
use crate::keymap::{binding, handled, is_chain, Event};

verus! {

/// Moving left never passes column 0: the caret lands `n` columns to the
/// left, or at 0, on the same row and with the same content, and a
/// selection's moving end lands one past it. Moving right never takes the
/// caret to `line_end` or beyond: it either stays where it was or lands
/// before `line_end`.
pub proof fn lemma_cursor_clamping(s: EditorView, n: u16)
    requires
        s.wf(),
    ensures
        step(s, Action::CursorLeft(n)).1 is Ok,
        step(s, Action::CursorLeft(n)).0.col() == sat_sub(s.col(), n as int),
        step(s, Action::CursorLeft(n)).0.cursor.1 == s.cursor.1,
        step(s, Action::CursorLeft(n)).0.active().content == s.active().content,
        s.active().selection matches Some(sel) ==> step(
            s,
            Action::CursorLeft(n),
        ).0.active().selection == Some(
            Selection { start: sel.start, end: (sat_sub(s.col(), n as int) + 1) as u32 },
        ),
        step(s, Action::CursorRight(n)).0.col() == s.col() || step(
            s,
            Action::CursorRight(n),
        ).0.col() < s.line_end(),
{
}

/// Typing a character and then erasing it gives back the content and the
/// column from before, wherever the caret has room to move past the typed
/// character.
pub proof fn lemma_input_then_backspace(s: EditorView, ch: char)
    requires
        s.wf(),
        s.col() + 1 < line_end_for(s.mode, s.size.0, s.active().content.len() + 1),
    ensures
        ({
            let s2 = step(step(s, Action::Input(ch)).0, Action::Backspace).0;
            s2.active().content == s.active().content && s2.col() == s.col()
        }),
{
    let c = s.active().content;
    let s1 = step(s, Action::Input(ch)).0;
    assert(s1.active().content == c.insert(s.col(), ch));
    assert(s1.col() == s.col() + 1);
    let s2 = step(s1, Action::Backspace).0;
    assert(s2.active().content == c.insert(s.col(), ch).remove(s.col()));
    assert(c.insert(s.col(), ch).remove(s.col()) =~= c);
}

/// Entering Visual mode at column `c` and moving `n` columns right leaves a
/// selection from `c` to one past the caret's new column: it normalizes to
/// `[c, c + n + 1)`.
pub proof fn lemma_visual_selection_follows_caret(s: EditorView, n: u16)
    requires
        s.wf(),
        s.col() + n < line_end_for(Mode::Visual, s.size.0, s.active().content.len()),
    ensures
        ({
            let s2 = step(step(s, Action::SetMode(Mode::Visual)).0, Action::CursorRight(n)).0;
            &&& s2.active().selection matches Some(sel)
            &&& sel.start == s.col()
            &&& sel.low() == s.col()
            &&& sel.high() == s.col() + n + 1
        }),
{
}

/// The second part of a two-part composite action runs on the session
/// that the first part left, wherever the first does not stop the run.
pub proof fn lemma_chain_sees_earlier_parts(s: EditorView, a: Action, x: Action, y: Action)
    requires
        is_chain(a, seq![x, y]),
        step(s, x).1 is Ok,
    ensures
        step(s, a) == step(step(s, x).0, y),
{
    let v = seq![x, y];
    let s1 = step(s, x).0;
    let s2 = step(s1, y).0;
    assert(step(s, a) == run(s, v, 0));
    assert(run(s, v, 0) == run(s1, v, 1));
    assert(v[0] == x && v[1] == y);
    assert(run(s2, v, 2) == (s2, Ok::<(), Stop>(())));
    if step(s1, y).1 is Ok {
        assert(step(s1, y).1->Ok_0 == ());
        assert(step(s1, y).1 == Ok::<(), Stop>(()));
        assert(run(s1, v, 1) == run(s2, v, 2));
    } else {
        assert(run(s1, v, 1) == step(s1, y));
    }
}

/// `Chain([SetMode(m), CursorLineStart])` ends in mode `m` at column 0:
/// moving to the line's start happens after the mode change.
pub proof fn lemma_mode_then_line_start(s: EditorView, a: Action, m: Mode)
    requires
        s.wf(),
        is_chain(a, seq![Action::SetMode(m), Action::CursorLineStart]),
    ensures
        step(s, a).0.mode == m,
        step(s, a).0.col() == 0,
        step(s, a).1 is Ok,
{
    lemma_chain_sees_earlier_parts(s, a, Action::SetMode(m), Action::CursorLineStart);
}

/// The active buffer has a selection exactly in Visual mode.
pub open spec fn selection_agrees(s: EditorView) -> bool {
    s.active().selection is Some <==> s.mode == Mode::Visual
}

/// Every action keeps the session well formed, with the same buffers
/// active, and keeps a selection exactly in Visual mode.
pub proof fn lemma_step_keeps_selection_agreement(s: EditorView, a: Action)
    requires
        s.wf(),
        selection_agrees(s),
    ensures
        step(s, a).0.wf(),
        step(s, a).0.buffers.len() == s.buffers.len(),
        step(s, a).0.active_buffer == s.active_buffer,
        selection_agrees(step(s, a).0),
    decreases a, 0nat,
{
    if let Action::Chain(v) = a {
        lemma_run_keeps_selection_agreement(s, v@, 0);
    }
}

/// Any sequence of actions, run in order, keeps a selection exactly in
/// Visual mode.
pub proof fn lemma_run_keeps_selection_agreement(s: EditorView, v: Seq<Action>, i: int)
    requires
        s.wf(),
        selection_agrees(s),
    ensures
        run(s, v, i).0.wf(),
        run(s, v, i).0.buffers.len() == s.buffers.len(),
        run(s, v, i).0.active_buffer == s.active_buffer,
        selection_agrees(run(s, v, i).0),
    decreases v, v.len() - i,
{
    if 0 <= i < v.len() {
        lemma_step_keeps_selection_agreement(s, v[i]);
        if step(s, v[i]).1 is Ok {
            lemma_run_keeps_selection_agreement(step(s, v[i]).0, v, i + 1);
        }
    }
}

/// Handling any event, a key or a resize, keeps a selection exactly in
/// Visual mode.
pub proof fn lemma_handle_keeps_selection_agreement(
    s: EditorView,
    ev: Event,
    s2: EditorView,
    r: Result<(), Stop>,
)
    requires
        s.wf(),
        selection_agrees(s),
        handled(s, ev, s2, r),
    ensures
        s2.wf(),
        selection_agrees(s2),
{
    if let Event::Key(k) = ev {
        let a = choose|a: Option<Action>| #[trigger]
            binding(s.mode, k, a) && match a {
                Some(a) => (s2, r) == step(s, a),
                None => s2 == s && r is Ok,
            };
        if let Some(a) = a {
            lemma_step_keeps_selection_agreement(s, a);
        }
    }
}

/// Deleting an empty selection that starts at the caret leaves the
/// content and the caret as they were.
pub proof fn lemma_delete_empty_selection(s: EditorView, sel: Selection)
    requires
        s.wf(),
        s.active().selection == Some(sel),
        sel.start == sel.end,
        s.col() == sel.start,
    ensures
        step(s, Action::DeleteSelection).0.active().content == s.active().content,
        step(s, Action::DeleteSelection).0.cursor == s.cursor,
{
    let c = s.active().content;
    if sel.high() <= c.len() {
        assert(c.subrange(0, sel.low()) + c.subrange(sel.high(), c.len() as int) =~= c);
    }
}

/// Backspace at column 0 changes nothing, whatever the content.
pub proof fn lemma_backspace_at_column_zero(s: EditorView)
    requires
        s.col() == 0,
    ensures
        step(s, Action::Backspace) == (s, Ok::<(), Stop>(())),
{
}

} // verus!
