//! The modal (vim-style) editing state machine.
//!
//! A `Vim` value holds the current editing mode and the single buffered
//! pending input (used to resolve two-key sequences such as `gg`). Its
//! transition function interprets one normalized key event and decides a
//! sequence of buffer operations plus exactly one [`Transition`] telling the
//! host what to do next. The decision table is written down once, as the
//! specification function [`vim_step`]; the executable planner is proved to
//! follow it exactly.

use vstd::prelude::*;

use crate::buffer::{Register, TextBuffer, step_op, step_ops};
use crate::keys::{Input, Key, null_input};

verus! {

/// The editing mode. `Operator` carries which operator (`y`, `d` or `c`)
/// awaits a motion; it is reachable only from `Normal`.
#[derive(Clone, Copy, Debug, PartialEq, Eq, Structural)]
pub enum Mode {
    Normal,
    Insert,
    Visual,
    Operator(char),
}

/// How the editing session must react to one key event.
#[derive(Clone, Copy, Debug, PartialEq, Eq, Structural)]
pub enum Transition {
    /// Input handled, nothing for the host to do.
    Nop,
    /// The editing mode changes; the host updates mode-dependent chrome.
    Mode(Mode),
    /// The input did not complete a command; the host must keep it as the
    /// pending input for the next call.
    Pending(Input),
    /// The editing session ends.
    Quit,
}

/// One operation the state machine asks of the underlying text buffer.
///
/// The vocabulary mirrors the capability set the editor requires of its
/// buffer collaborator: cursor motions, selection control, mutation,
/// scrolling, clipboard hand-off, and verbatim forwarding (insert mode).
#[derive(Clone, Copy, Debug, PartialEq, Eq, Structural)]
pub enum EditOp {
    MoveBack,
    MoveDown,
    MoveUp,
    MoveForward,
    MoveWordForward,
    MoveWordEnd,
    MoveWordBack,
    MoveHead,
    MoveEnd,
    MoveTop,
    MoveBottom,
    DeleteLineByEnd,
    DeleteNextChar,
    InsertNewline,
    Undo,
    Redo,
    Paste,
    Cut,
    Copy,
    /// Write the buffer's current yank text to the shared clipboard register.
    YankToClipboard,
    StartSelection,
    CancelSelection,
    /// Linewise selection used by `dd`/`yy`/`cc`: head to next line head,
    /// or head to line end on the buffer's last line.
    SelectLine,
    ScrollDown,
    ScrollUp,
    ScrollHalfPageDown,
    ScrollHalfPageUp,
    ScrollPageDown,
    ScrollPageUp,
    /// Forward the input verbatim to the buffer's native insert handling.
    ForwardInput(Input),
}

/// State of the modal editor: mode plus the single pending input slot.
#[derive(Clone, Copy, Debug, PartialEq, Eq, Structural)]
pub struct Vim {
    pub mode: Mode,
    /// Pending input retained to resolve a two-key sequence such as `gg`.
    pub pending: Input,
}

/// Does the pending slot hold a plain `g` (first half of `gg`)?
pub open spec fn pending_is_g(pending: Input) -> bool {
    pending.key == Key::Char('g') && !pending.ctrl
}

/// Buffer operations appended when a motion lands while an operator is
/// pending: `y` copies (and hands the yank to the clipboard), `d` and `c` cut.
pub open spec fn resolve_ops(mode: Mode) -> Seq<EditOp> {
    match mode {
        Mode::Operator(op) => if op == 'y' {
            seq![EditOp::Copy, EditOp::YankToClipboard]
        } else if op == 'd' || op == 'c' {
            seq![EditOp::Cut]
        } else {
            seq![]
        },
        _ => seq![],
    }
}

/// Transition returned when a motion lands: resolving `y` or `d` returns to
/// `Normal`, resolving `c` enters `Insert`; with no operator pending the
/// motion alone is a no-op transition.
pub open spec fn resolve_transition(mode: Mode) -> Transition {
    match mode {
        Mode::Operator(op) => if op == 'y' || op == 'd' {
            Transition::Mode(Mode::Normal)
        } else if op == 'c' {
            Transition::Mode(Mode::Insert)
        } else {
            Transition::Nop
        },
        _ => Transition::Nop,
    }
}

/// A motion's operations followed by operator resolution.
pub open spec fn motion_step(mode: Mode, ops: Seq<EditOp>) -> (Seq<EditOp>, Transition) {
    (ops + resolve_ops(mode), resolve_transition(mode))
}

/// The decision table for `Normal`, `Visual` and `Operator` modes, in the
/// priority order of the dispatch. The result is the exact sequence of
/// buffer operations and the transition for the host.
pub open spec fn normal_step(mode: Mode, pending: Input, input: Input) -> (Seq<EditOp>, Transition) {
    let k = input.key;
    let ctrl = input.ctrl;
    if k == Key::Char('h') {
        motion_step(mode, seq![EditOp::MoveBack])
    } else if k == Key::Char('j') {
        motion_step(mode, seq![EditOp::MoveDown])
    } else if k == Key::Char('k') {
        motion_step(mode, seq![EditOp::MoveUp])
    } else if k == Key::Char('l') {
        motion_step(mode, seq![EditOp::MoveForward])
    } else if k == Key::Char('w') {
        motion_step(mode, seq![EditOp::MoveWordForward])
    } else if k == Key::Char('e') && !ctrl {
        if mode is Operator {
            // Advance once more so the operator includes the character
            // under the cursor.
            motion_step(mode, seq![EditOp::MoveWordEnd, EditOp::MoveForward])
        } else {
            motion_step(mode, seq![EditOp::MoveWordEnd])
        }
    } else if k == Key::Char('b') && !ctrl {
        motion_step(mode, seq![EditOp::MoveWordBack])
    } else if k == Key::Char('0') {
        motion_step(mode, seq![EditOp::MoveHead])
    } else if k == Key::Char('$') {
        motion_step(mode, seq![EditOp::MoveEnd])
    } else if k == Key::Char('D') {
        (seq![EditOp::DeleteLineByEnd], Transition::Mode(Mode::Normal))
    } else if k == Key::Char('C') {
        (seq![EditOp::DeleteLineByEnd, EditOp::CancelSelection], Transition::Mode(Mode::Insert))
    } else if k == Key::Char('p') {
        (seq![EditOp::Paste], Transition::Mode(Mode::Normal))
    } else if k == Key::Char('u') && !ctrl {
        (seq![EditOp::Undo], Transition::Mode(Mode::Normal))
    } else if k == Key::Char('r') && ctrl {
        (seq![EditOp::Redo], Transition::Mode(Mode::Normal))
    } else if k == Key::Char('x') {
        (seq![EditOp::DeleteNextChar], Transition::Mode(Mode::Normal))
    } else if k == Key::Char('i') {
        (seq![EditOp::CancelSelection], Transition::Mode(Mode::Insert))
    } else if k == Key::Char('a') {
        (seq![EditOp::CancelSelection, EditOp::MoveForward], Transition::Mode(Mode::Insert))
    } else if k == Key::Char('A') {
        (seq![EditOp::CancelSelection, EditOp::MoveEnd], Transition::Mode(Mode::Insert))
    } else if k == Key::Char('o') {
        (seq![EditOp::MoveEnd, EditOp::InsertNewline], Transition::Mode(Mode::Insert))
    } else if k == Key::Char('O') {
        (seq![EditOp::MoveHead, EditOp::InsertNewline, EditOp::MoveUp], Transition::Mode(Mode::Insert))
    } else if k == Key::Char('I') {
        (seq![EditOp::CancelSelection, EditOp::MoveHead], Transition::Mode(Mode::Insert))
    } else if k == Key::Char('e') && ctrl {
        motion_step(mode, seq![EditOp::ScrollDown])
    } else if k == Key::Char('y') && ctrl {
        motion_step(mode, seq![EditOp::ScrollUp])
    } else if k == Key::Char('d') && ctrl {
        motion_step(mode, seq![EditOp::ScrollHalfPageDown])
    } else if k == Key::Char('u') && ctrl {
        motion_step(mode, seq![EditOp::ScrollHalfPageUp])
    } else if k == Key::Char('f') && ctrl {
        motion_step(mode, seq![EditOp::ScrollPageDown])
    } else if k == Key::Char('b') && ctrl {
        motion_step(mode, seq![EditOp::ScrollPageUp])
    } else if k == Key::Char('v') && !ctrl && mode == Mode::Normal {
        (seq![EditOp::StartSelection], Transition::Mode(Mode::Visual))
    } else if k == Key::Char('V') && !ctrl && mode == Mode::Normal {
        (
            seq![EditOp::MoveHead, EditOp::StartSelection, EditOp::MoveEnd],
            Transition::Mode(Mode::Visual),
        )
    } else if (k == Key::Esc || (k == Key::Char('v') && !ctrl)) && mode == Mode::Visual {
        (seq![EditOp::CancelSelection], Transition::Mode(Mode::Normal))
    } else if k == Key::Char('g') && !ctrl && pending_is_g(pending) {
        motion_step(mode, seq![EditOp::MoveTop])
    } else if k == Key::Char('G') && !ctrl {
        motion_step(mode, seq![EditOp::MoveBottom])
    } else if k matches Key::Char(c) && !ctrl && mode == Mode::Operator(c) {
        // Linewise `yy` / `dd` / `cc`.
        motion_step(mode, seq![EditOp::SelectLine])
    } else if k matches Key::Char(c) && (c == 'y' || c == 'd' || c == 'c') && !ctrl && mode
        == Mode::Normal {
        (seq![EditOp::StartSelection], Transition::Mode(Mode::Operator(k->Char_0)))
    } else if k == Key::Char('y') && !ctrl && mode == Mode::Visual {
        (
            seq![EditOp::MoveForward, EditOp::Copy, EditOp::YankToClipboard],
            Transition::Mode(Mode::Normal),
        )
    } else if k == Key::Char('d') && !ctrl && mode == Mode::Visual {
        (seq![EditOp::MoveForward, EditOp::Cut], Transition::Mode(Mode::Normal))
    } else if k == Key::Char('c') && !ctrl && mode == Mode::Visual {
        (seq![EditOp::MoveForward, EditOp::Cut], Transition::Mode(Mode::Insert))
    } else {
        (seq![], Transition::Pending(input))
    }
}

/// What one key event does: the buffer operations to perform, in order, and
/// the transition to report. This is the full specification of the modal
/// editor's behaviour for every mode and every input.
pub open spec fn vim_step(mode: Mode, pending: Input, input: Input) -> (Seq<EditOp>, Transition) {
    if input.key == Key::Null {
        // The no-op key never has side effects.
        (seq![], Transition::Nop)
    } else if mode == Mode::Insert {
        if input.key == Key::Esc || (input.key == Key::Char('c') && input.ctrl) {
            (seq![], Transition::Mode(Mode::Normal))
        } else {
            // Every other key is forwarded verbatim to the buffer.
            (seq![EditOp::ForwardInput(input)], Transition::Mode(Mode::Insert))
        }
    } else {
        normal_step(mode, pending, input)
    }
}

/// Append the operator-resolution operations for `mode` to `ops`.
fn push_resolve(ops: &mut Vec<EditOp>, mode: Mode)
    ensures
        final(ops)@ == old(ops)@ + resolve_ops(mode),
{
    match mode {
        Mode::Operator(op) => {
            if op == 'y' {
                ops.push(EditOp::Copy);
                ops.push(EditOp::YankToClipboard);
            } else if op == 'd' || op == 'c' {
                ops.push(EditOp::Cut);
            }
        },
        _ => {},
    }
    assert(final(ops)@ =~= old(ops)@ + resolve_ops(mode));
}

/// The operator-resolution transition for `mode`.
fn resolve_transition_of(mode: Mode) -> (t: Transition)
    ensures
        t == resolve_transition(mode),
{
    match mode {
        Mode::Operator(op) => {
            if op == 'y' || op == 'd' {
                Transition::Mode(Mode::Normal)
            } else if op == 'c' {
                Transition::Mode(Mode::Insert)
            } else {
                Transition::Nop
            }
        },
        _ => Transition::Nop,
    }
}

/// Decide what one key event does: the planner. The result is proved to be
/// exactly what [`vim_step`] specifies.
pub fn plan(mode: Mode, pending: Input, input: Input) -> (r: (Vec<EditOp>, Transition))
    ensures
        r.0@ == vim_step(mode, pending, input).0,
        r.1 == vim_step(mode, pending, input).1,
{
    let mut ops: Vec<EditOp> = Vec::new();
    if input.key == Key::Null {
        return (ops, Transition::Nop);
    }
    if mode == Mode::Insert {
        if input.key == Key::Esc || (input.key == Key::Char('c') && input.ctrl) {
            return (ops, Transition::Mode(Mode::Normal));
        }
        ops.push(EditOp::ForwardInput(input));
        assert(ops@ =~= vim_step(mode, pending, input).0);
        return (ops, Transition::Mode(Mode::Insert));
    }
    let k = input.key;
    let ctrl = input.ctrl;
    let t: Transition;
    if k == Key::Char('h') {
        ops.push(EditOp::MoveBack);
        push_resolve(&mut ops, mode);
        t = resolve_transition_of(mode);
    } else if k == Key::Char('j') {
        ops.push(EditOp::MoveDown);
        push_resolve(&mut ops, mode);
        t = resolve_transition_of(mode);
    } else if k == Key::Char('k') {
        ops.push(EditOp::MoveUp);
        push_resolve(&mut ops, mode);
        t = resolve_transition_of(mode);
    } else if k == Key::Char('l') {
        ops.push(EditOp::MoveForward);
        push_resolve(&mut ops, mode);
        t = resolve_transition_of(mode);
    } else if k == Key::Char('w') {
        ops.push(EditOp::MoveWordForward);
        push_resolve(&mut ops, mode);
        t = resolve_transition_of(mode);
    } else if k == Key::Char('e') && !ctrl {
        ops.push(EditOp::MoveWordEnd);
        if matches!(mode, Mode::Operator(_)) {
            ops.push(EditOp::MoveForward);
        }
        push_resolve(&mut ops, mode);
        t = resolve_transition_of(mode);
    } else if k == Key::Char('b') && !ctrl {
        ops.push(EditOp::MoveWordBack);
        push_resolve(&mut ops, mode);
        t = resolve_transition_of(mode);
    } else if k == Key::Char('0') {
        ops.push(EditOp::MoveHead);
        push_resolve(&mut ops, mode);
        t = resolve_transition_of(mode);
    } else if k == Key::Char('$') {
        ops.push(EditOp::MoveEnd);
        push_resolve(&mut ops, mode);
        t = resolve_transition_of(mode);
    } else if k == Key::Char('D') {
        ops.push(EditOp::DeleteLineByEnd);
        t = Transition::Mode(Mode::Normal);
    } else if k == Key::Char('C') {
        ops.push(EditOp::DeleteLineByEnd);
        ops.push(EditOp::CancelSelection);
        t = Transition::Mode(Mode::Insert);
    } else if k == Key::Char('p') {
        ops.push(EditOp::Paste);
        t = Transition::Mode(Mode::Normal);
    } else if k == Key::Char('u') && !ctrl {
        ops.push(EditOp::Undo);
        t = Transition::Mode(Mode::Normal);
    } else if k == Key::Char('r') && ctrl {
        ops.push(EditOp::Redo);
        t = Transition::Mode(Mode::Normal);
    } else if k == Key::Char('x') {
        ops.push(EditOp::DeleteNextChar);
        t = Transition::Mode(Mode::Normal);
    } else if k == Key::Char('i') {
        ops.push(EditOp::CancelSelection);
        t = Transition::Mode(Mode::Insert);
    } else if k == Key::Char('a') {
        ops.push(EditOp::CancelSelection);
        ops.push(EditOp::MoveForward);
        t = Transition::Mode(Mode::Insert);
    } else if k == Key::Char('A') {
        ops.push(EditOp::CancelSelection);
        ops.push(EditOp::MoveEnd);
        t = Transition::Mode(Mode::Insert);
    } else if k == Key::Char('o') {
        ops.push(EditOp::MoveEnd);
        ops.push(EditOp::InsertNewline);
        t = Transition::Mode(Mode::Insert);
    } else if k == Key::Char('O') {
        ops.push(EditOp::MoveHead);
        ops.push(EditOp::InsertNewline);
        ops.push(EditOp::MoveUp);
        t = Transition::Mode(Mode::Insert);
    } else if k == Key::Char('I') {
        ops.push(EditOp::CancelSelection);
        ops.push(EditOp::MoveHead);
        t = Transition::Mode(Mode::Insert);
    } else if k == Key::Char('e') && ctrl {
        ops.push(EditOp::ScrollDown);
        push_resolve(&mut ops, mode);
        t = resolve_transition_of(mode);
    } else if k == Key::Char('y') && ctrl {
        ops.push(EditOp::ScrollUp);
        push_resolve(&mut ops, mode);
        t = resolve_transition_of(mode);
    } else if k == Key::Char('d') && ctrl {
        ops.push(EditOp::ScrollHalfPageDown);
        push_resolve(&mut ops, mode);
        t = resolve_transition_of(mode);
    } else if k == Key::Char('u') && ctrl {
        ops.push(EditOp::ScrollHalfPageUp);
        push_resolve(&mut ops, mode);
        t = resolve_transition_of(mode);
    } else if k == Key::Char('f') && ctrl {
        ops.push(EditOp::ScrollPageDown);
        push_resolve(&mut ops, mode);
        t = resolve_transition_of(mode);
    } else if k == Key::Char('b') && ctrl {
        ops.push(EditOp::ScrollPageUp);
        push_resolve(&mut ops, mode);
        t = resolve_transition_of(mode);
    } else if k == Key::Char('v') && !ctrl && mode == Mode::Normal {
        ops.push(EditOp::StartSelection);
        t = Transition::Mode(Mode::Visual);
    } else if k == Key::Char('V') && !ctrl && mode == Mode::Normal {
        ops.push(EditOp::MoveHead);
        ops.push(EditOp::StartSelection);
        ops.push(EditOp::MoveEnd);
        t = Transition::Mode(Mode::Visual);
    } else if (k == Key::Esc || (k == Key::Char('v') && !ctrl)) && mode == Mode::Visual {
        ops.push(EditOp::CancelSelection);
        t = Transition::Mode(Mode::Normal);
    } else if k == Key::Char('g') && !ctrl && pending.key == Key::Char('g') && !pending.ctrl {
        ops.push(EditOp::MoveTop);
        push_resolve(&mut ops, mode);
        t = resolve_transition_of(mode);
    } else if k == Key::Char('G') && !ctrl {
        ops.push(EditOp::MoveBottom);
        push_resolve(&mut ops, mode);
        t = resolve_transition_of(mode);
    } else {
        let c_opt: Option<char> = match k {
            Key::Char(c) => Some(c),
            _ => None,
        };
        match c_opt {
            Some(c) if !ctrl && mode == Mode::Operator(c) => {
                ops.push(EditOp::SelectLine);
                push_resolve(&mut ops, mode);
                t = resolve_transition_of(mode);
            },
            Some(c) if (c == 'y' || c == 'd' || c == 'c') && !ctrl && mode == Mode::Normal => {
                ops.push(EditOp::StartSelection);
                t = Transition::Mode(Mode::Operator(c));
            },
            Some(c) if c == 'y' && !ctrl && mode == Mode::Visual => {
                ops.push(EditOp::MoveForward);
                ops.push(EditOp::Copy);
                ops.push(EditOp::YankToClipboard);
                t = Transition::Mode(Mode::Normal);
            },
            Some(c) if c == 'd' && !ctrl && mode == Mode::Visual => {
                ops.push(EditOp::MoveForward);
                ops.push(EditOp::Cut);
                t = Transition::Mode(Mode::Normal);
            },
            Some(c) if c == 'c' && !ctrl && mode == Mode::Visual => {
                ops.push(EditOp::MoveForward);
                ops.push(EditOp::Cut);
                t = Transition::Mode(Mode::Insert);
            },
            _ => {
                t = Transition::Pending(input);
            },
        }
    }
    assert(ops@ =~= vim_step(mode, pending, input).0);
    (ops, t)
}

impl Vim {
    /// A fresh controller in the given mode with an empty pending slot.
    pub fn new(mode: Mode) -> (v: Vim)
        ensures
            v.mode == mode,
            v.pending == null_input(),
    {
        Vim { mode, pending: Input { key: Key::Null, ctrl: false } }
    }

    /// The same controller with the pending slot replaced, as the host does
    /// after receiving `Transition::Pending`.
    pub fn with_pending(self, pending: Input) -> (v: Vim)
        ensures
            v.mode == self.mode,
            v.pending == pending,
    {
        Vim { mode: self.mode, pending }
    }

    /// Interpret one key event against the terminal text-area widget the
    /// host is editing: the buffer operations [`vim_step`] decides are
    /// performed on the widget in order, a yank is handed on to the OS
    /// clipboard, and the transition — proved to be exactly what
    /// [`vim_step`] specifies — is returned.
    pub fn transition(&self, input: Input, textarea: &mut crate::textarea::TextAreaHandle) -> (t:
        Transition)
        ensures
            t == vim_step(self.mode, self.pending, input).1,
    {
        let (ops, t) = plan(self.mode, self.pending, input);
        let mut i: usize = 0;
        while i < ops.len()
            decreases ops@.len() - i,
        {
            crate::textarea::exec_op(ops[i], textarea);
            i += 1;
        }
        t
    }

    /// Interpret one key event against the buffer and the shared clipboard
    /// register: the buffer operations [`vim_step`] decides are performed in
    /// order, and its transition is returned.
    pub fn transition_buffer(&self, input: Input, buffer: &mut TextBuffer, clipboard: &mut Register) -> (t:
        Transition)
        requires
            old(buffer)@.wf(),
        ensures
            t == vim_step(self.mode, self.pending, input).1,
            (final(buffer)@, final(clipboard)@) == step_ops(
                old(buffer)@,
                old(clipboard)@,
                vim_step(self.mode, self.pending, input).0,
            ),
            final(buffer)@.wf(),
    {
        let (ops, t) = plan(self.mode, self.pending, input);
        let ghost all = ops@;
        proof {
            assert(all.subrange(0, all.len() as int) =~= all);
        }
        let mut i: usize = 0;
        while i < ops.len()
            invariant
                i <= ops@.len(),
                ops@ == all,
                buffer@.wf(),
                step_ops(old(buffer)@, old(clipboard)@, all) == step_ops(
                    buffer@,
                    clipboard@,
                    all.subrange(i as int, all.len() as int),
                ),
            decreases ops@.len() - i,
        {
            let ghost pre_b = buffer@;
            let ghost pre_c = clipboard@;
            buffer.apply(ops[i], clipboard);
            i += 1;
            proof {
                let rest_before = all.subrange(i - 1, all.len() as int);
                assert(rest_before[0] == all[i - 1]);
                assert(rest_before.drop_first() =~= all.subrange(i as int, all.len() as int));
                assert((buffer@, clipboard@) == step_op(pre_b, pre_c, all[i - 1]));
            }
        }
        proof {
            assert(all.subrange(all.len() as int, all.len() as int) =~= Seq::<EditOp>::empty());
            assert(step_ops(buffer@, clipboard@, Seq::<EditOp>::empty()) == (buffer@, clipboard@));
            assert(all == vim_step(self.mode, self.pending, input).0);
        }
        t
    }
}

} // verus!
