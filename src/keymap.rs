use vstd::prelude::*;

use crate::actions::{exec, step, Action, Stop};
use crate::editor::{Editor, EditorView, Mode};

verus! {

/// A key as the engine reads it.
#[derive(Debug, PartialEq, Eq, Clone, Copy, Structural)]
pub enum Key {
    Char(char),
    Esc,
    Backspace,
    /// Any other key: none is bound.
    Other,
}

/// What the event source hands over: a key press or the terminal's new
/// size in columns and rows.
#[derive(Debug, PartialEq, Eq, Clone, Copy, Structural)]
pub enum Event {
    Key(Key),
    Resize(u16, u16),
}

/// `a` is the composite action made of `parts`, in order.
pub open spec fn is_chain(a: Action, parts: Seq<Action>) -> bool {
    a matches Action::Chain(v) && v@ == parts
}

/// `r` is `Some` composite action made of `parts`.
pub open spec fn some_chain(r: Option<Action>, parts: Seq<Action>) -> bool {
    r matches Some(a) && is_chain(a, parts)
}

/// The movement keys shared by Navigate and Visual mode.
pub open spec fn movement(c: char) -> Option<Action> {
    if c == 'k' {
        Some(Action::CursorUp(1))
    } else if c == 'j' {
        Some(Action::CursorDown(1))
    } else if c == 'h' {
        Some(Action::CursorLeft(1))
    } else if c == 'l' {
        Some(Action::CursorRight(1))
    } else if c == 'H' {
        Some(Action::CursorLineStart)
    } else if c == 'L' {
        Some(Action::CursorLineEnd)
    } else if c == 'K' {
        Some(Action::CursorBufferStart)
    } else if c == 'J' {
        Some(Action::CursorBufferEnd)
    } else {
        None
    }
}

/// The keys that enter Insert mode with a change of column, shared by
/// Navigate and Visual mode: `I` at the line's start, `a` one to the
/// right, `A` at the line's end.
pub open spec fn insert_entry(c: char) -> Option<Action> {
    if c == 'I' {
        Some(Action::CursorLineStart)
    } else if c == 'a' {
        Some(Action::CursorRight(1))
    } else if c == 'A' {
        Some(Action::CursorLineEnd)
    } else {
        None
    }
}

/// `r` is what `k` is bound to in Navigate mode.
pub open spec fn navigate_binding(k: Key, r: Option<Action>) -> bool {
    match k {
        Key::Char(c) => if movement(c) is Some {
            r == movement(c)
        } else if insert_entry(c) is Some {
            some_chain(r, seq![Action::SetMode(Mode::Insert), insert_entry(c)->0])
        } else if c == 'p' {
            r == Some(Action::Paste)
        } else if c == 'q' {
            r == Some(Action::Quit)
        } else if c == 'x' {
            r == Some(Action::Delete)
        } else if c == 'v' {
            r == Some(Action::SetMode(Mode::Visual))
        } else if c == 'i' {
            r == Some(Action::SetMode(Mode::Insert))
        } else {
            r is None
        },
        _ => r is None,
    }
}

/// `r` is what `k` is bound to in Visual mode: `Esc` and `v` leave it.
pub open spec fn visual_binding(k: Key, r: Option<Action>) -> bool {
    match k {
        Key::Esc => r == Some(Action::SetMode(Mode::Navigate)),
        Key::Char(c) => if movement(c) is Some {
            r == movement(c)
        } else if insert_entry(c) is Some {
            some_chain(r, seq![Action::SetMode(Mode::Insert), insert_entry(c)->0])
        } else if c == 'd' || c == 'x' {
            some_chain(r, seq![Action::DeleteSelection, Action::SetMode(Mode::Navigate)])
        } else if c == 'c' {
            some_chain(r, seq![Action::DeleteSelection, Action::SetMode(Mode::Insert)])
        } else if c == 'y' {
            r == Some(Action::YankSelection)
        } else if c == 'v' {
            r == Some(Action::SetMode(Mode::Navigate))
        } else {
            r is None
        },
        _ => r is None,
    }
}

/// `r` is what `k` is bound to in Insert mode: `Esc` goes back to
/// Navigate mode one column to the left, a character is typed, and
/// `Backspace` erases.
pub open spec fn insert_binding(k: Key, r: Option<Action>) -> bool {
    match k {
        Key::Esc => some_chain(r, seq![Action::SetMode(Mode::Navigate), Action::CursorLeft(1)]),
        Key::Char(c) => r == Some(Action::Input(c)),
        Key::Backspace => r == Some(Action::Backspace),
        Key::Other => r is None,
    }
}

/// `r` is what `k` is bound to in Command mode: `Esc` leaves it.
pub open spec fn command_binding(k: Key, r: Option<Action>) -> bool {
    match k {
        Key::Esc => r == Some(Action::SetMode(Mode::Navigate)),
        _ => r is None,
    }
}

/// `r` is what `k` is bound to in mode `m`.
pub open spec fn binding(m: Mode, k: Key, r: Option<Action>) -> bool {
    match m {
        Mode::Navigate => navigate_binding(k, r),
        Mode::Insert => insert_binding(k, r),
        Mode::Visual => visual_binding(k, r),
        Mode::Command => command_binding(k, r),
    }
}

fn chain2(a: Action, b: Action) -> (r: Option<Action>)
    ensures
        some_chain(r, seq![a, b]),
{
    let v = vec![a, b];
    assert(v@ =~= seq![a, b]);
    Some(Action::Chain(v))
}

fn movement_action(c: char) -> (r: Option<Action>)
    ensures
        r == movement(c),
{
    match c {
        'k' => Some(Action::CursorUp(1)),
        'j' => Some(Action::CursorDown(1)),
        'h' => Some(Action::CursorLeft(1)),
        'l' => Some(Action::CursorRight(1)),
        'H' => Some(Action::CursorLineStart),
        'L' => Some(Action::CursorLineEnd),
        'K' => Some(Action::CursorBufferStart),
        'J' => Some(Action::CursorBufferEnd),
        _ => None,
    }
}

fn insert_entry_action(c: char) -> (r: Option<Action>)
    ensures
        r == insert_entry(c),
{
    match c {
        'I' => Some(Action::CursorLineStart),
        'a' => Some(Action::CursorRight(1)),
        'A' => Some(Action::CursorLineEnd),
        _ => None,
    }
}

/// The action that key `k` stands for in mode `m`, if any.
pub fn resolve(m: Mode, k: Key) -> (r: Option<Action>)
    ensures
        binding(m, k, r),
{
    match m {
        Mode::Insert => match k {
            Key::Esc => chain2(Action::SetMode(Mode::Navigate), Action::CursorLeft(1)),
            Key::Char(c) => Some(Action::Input(c)),
            Key::Backspace => Some(Action::Backspace),
            Key::Other => None,
        },
        Mode::Command => match k {
            Key::Esc => Some(Action::SetMode(Mode::Navigate)),
            _ => None,
        },
        Mode::Navigate | Mode::Visual => match k {
            Key::Esc => if m == Mode::Visual {
                Some(Action::SetMode(Mode::Navigate))
            } else {
                None
            },
            Key::Char(c) => {
                if let Some(a) = movement_action(c) {
                    return Some(a);
                }
                if let Some(a) = insert_entry_action(c) {
                    return chain2(Action::SetMode(Mode::Insert), a);
                }
                if m == Mode::Navigate {
                    match c {
                        'p' => Some(Action::Paste),
                        'q' => Some(Action::Quit),
                        'x' => Some(Action::Delete),
                        'v' => Some(Action::SetMode(Mode::Visual)),
                        'i' => Some(Action::SetMode(Mode::Insert)),
                        _ => None,
                    }
                } else {
                    match c {
                        'd' | 'x' => chain2(Action::DeleteSelection, Action::SetMode(Mode::Navigate)),
                        'c' => chain2(Action::DeleteSelection, Action::SetMode(Mode::Insert)),
                        'y' => Some(Action::YankSelection),
                        'v' => Some(Action::SetMode(Mode::Navigate)),
                        _ => None,
                    }
                }
            },
            _ => None,
        },
    }
}

/// The session `s2` and the outcome `r` are what handling `ev` in
/// session `s` gives: a resize records the new size, a key runs the action
/// it is bound to in the current mode, and an unbound key does nothing.
pub open spec fn handled(
    s: EditorView,
    ev: Event,
    s2: EditorView,
    r: Result<(), Stop>,
) -> bool {
    match ev {
        Event::Resize(cols, rows) => s2 == (EditorView { size: (cols, rows), ..s }) && r is Ok,
        Event::Key(k) => exists|a: Option<Action>|
            #[trigger] binding(s.mode, k, a) && match a {
                Some(a) => (s2, r) == step(s, a),
                None => s2 == s && r is Ok,
            },
    }
}

impl Editor {
    /// Takes one event from the event source: a resize is recorded before
    /// any later move is clamped, a key is resolved in the current mode and
    /// its action carried out.
    pub fn handle(&mut self, ev: Event) -> (r: Result<(), Stop>)
        requires
            old(self).wf(),
        ensures
            final(self).wf(),
            handled(old(self)@, ev, final(self)@, r),
    {
        match ev {
            Event::Resize(cols, rows) => {
                self.size = (cols, rows);
                Ok(())
            },
            Event::Key(k) => {
                let a = resolve(self.mode, k);
                match a {
                    Some(action) => exec(self, action),
                    None => Ok(()),
                }
            },
        }
    }
}

} // verus!
