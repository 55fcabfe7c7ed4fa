use vstd::prelude::*;
use crate::ui::input::KeyCode;

verus! {

/// The highlighted row of a one-shot picker over `row_count` rows.
#[derive(Debug, Clone, Copy, PartialEq, Eq)]
pub struct SelectorState {
    pub selected: usize,
    pub row_count: usize,
}

/// What a key does in a picker.
#[derive(Debug, Clone, Copy, PartialEq, Eq)]
pub enum SelectionAction {
    Continue,
    Submit,
    Cancel,
}

/// How a terminal key event arrived.
#[derive(Debug, Clone, Copy, PartialEq, Eq)]
pub enum KeyKind {
    Press,
    Repeat,
    Release,
}

impl SelectorState {
    pub fn new(row_count: usize) -> (s: SelectorState)
        ensures
            s == (SelectorState { selected: 0, row_count }),
    {
        SelectorState { selected: 0, row_count }
    }
}

/// Presses and repeats are keystrokes; releases are not.
pub fn should_process_key_event(kind: KeyKind) -> (b: bool)
    ensures
        b == (kind == KeyKind::Press || kind == KeyKind::Repeat),
{
    match kind {
        KeyKind::Press | KeyKind::Repeat => true,
        KeyKind::Release => false,
    }
}

/// Height of an inline picker for `row_count` rows: four lines of chrome
/// added, kept between 6 and 12 (the count is taken as a `u16`).
pub open spec fn picker_height(row_count: usize) -> int {
    let r = (row_count as int) % 0x1_0000;
    let h = if r + 4 <= 0xFFFF {
        r + 4
    } else {
        0xFFFF
    };
    if h < 6 {
        6
    } else if h > 12 {
        12
    } else {
        h
    }
}

pub fn selector_viewport_height(row_count: usize) -> (h: u16)
    ensures
        h as int == picker_height(row_count),
        6 <= h <= 12,
{
    let r: u16 = (row_count % 0x1_0000) as u16;
    let h: u16 = if r <= 0xFFFF - 4 {
        r + 4
    } else {
        0xFFFF
    };
    if h < 6 {
        6
    } else if h > 12 {
        12
    } else {
        h
    }
}

/// A key in a picker: down and up move within the rows (nothing moves when
/// there are none), Enter submits, Esc and `q` cancel.
pub open spec fn picker_step(s: SelectorState, code: KeyCode) -> (SelectorState, SelectionAction) {
    if code == KeyCode::Down || code == KeyCode::Char('j') {
        (
            if s.row_count > 0 {
                SelectorState {
                    selected: if s.selected + 1 < s.row_count - 1 {
                        (s.selected + 1) as usize
                    } else {
                        (s.row_count - 1) as usize
                    },
                    ..s
                }
            } else {
                s
            },
            SelectionAction::Continue,
        )
    } else if code == KeyCode::Up || code == KeyCode::Char('k') {
        (
            if s.row_count > 0 {
                SelectorState {
                    selected: if s.selected > 0 {
                        (s.selected - 1) as usize
                    } else {
                        0
                    },
                    ..s
                }
            } else {
                s
            },
            SelectionAction::Continue,
        )
    } else if code == KeyCode::Enter {
        (s, SelectionAction::Submit)
    } else if code == KeyCode::Esc || code == KeyCode::Char('q') {
        (s, SelectionAction::Cancel)
    } else {
        (s, SelectionAction::Continue)
    }
}

pub fn handle_key_code(state: &mut SelectorState, code: KeyCode) -> (a: SelectionAction)
    requires
        (code == KeyCode::Down || code == KeyCode::Char('j')) && old(state).row_count > 0
            ==> old(state).selected < usize::MAX,
    ensures
        (*final(state), a) == picker_step(*old(state), code),
{
    match code {
        KeyCode::Down | KeyCode::Char('j') => {
            if state.row_count > 0 {
                let next = state.selected + 1;
                let last = state.row_count - 1;
                state.selected = if next < last {
                    next
                } else {
                    last
                };
            }
            SelectionAction::Continue
        },
        KeyCode::Up | KeyCode::Char('k') => {
            if state.row_count > 0 {
                state.selected = if state.selected > 0 {
                    state.selected - 1
                } else {
                    0
                };
            }
            SelectionAction::Continue
        },
        KeyCode::Enter => SelectionAction::Submit,
        KeyCode::Esc | KeyCode::Char('q') => SelectionAction::Cancel,
        _ => SelectionAction::Continue,
    }
}

/// A picker whose selection starts inside its rows keeps it there.
pub proof fn law_picker_selection_stays_in_rows(s: SelectorState, code: KeyCode)
    requires
        s.row_count > 0,
        s.selected < s.row_count,
    ensures
        picker_step(s, code).0.selected < s.row_count,
        picker_step(s, code).0.row_count == s.row_count,
{
}

} // verus!
