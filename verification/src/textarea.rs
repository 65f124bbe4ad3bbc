//! Trusted bindings to the terminal text-area widget and the OS clipboard.
//!
//! The modal editor drives a `tui_textarea::TextArea` in the running
//! application. Each function here wraps exactly one call into the widget
//! (or the clipboard); Verus believes their contracts without reading the
//! bodies, so they state nothing beyond what is needed: the decision logic
//! above them is verified against [`crate::vim::vim_step`] alone, and the
//! widget's own behaviour is the widget's.

use vstd::prelude::*;

use crate::keys::{Input, Key};
use crate::vim::EditOp;

verus! {

/// An owned handle to the terminal text-area widget. Verus treats the
/// contents as opaque; the wrappers below are the only doors to it.
#[verifier::external_body]
pub struct TextAreaHandle {
    pub inner: tui_textarea::TextArea<'static>,
}

impl TextAreaHandle {
    /// Relies on `tui_textarea::TextArea::default`: an empty widget.
    #[verifier::external_body]
    pub fn new() -> TextAreaHandle {
        TextAreaHandle { inner: tui_textarea::TextArea::default() }
    }
}

/// Relies on `tui_textarea::TextArea::move_cursor`: applies the cursor
/// motion corresponding to the given motion operation; other operations do
/// nothing.
#[verifier::external_body]
fn ta_move_cursor(ta: &mut TextAreaHandle, op: EditOp) {
    let m = match op {
        EditOp::MoveBack => tui_textarea::CursorMove::Back,
        EditOp::MoveDown => tui_textarea::CursorMove::Down,
        EditOp::MoveUp => tui_textarea::CursorMove::Up,
        EditOp::MoveForward => tui_textarea::CursorMove::Forward,
        EditOp::MoveWordForward => tui_textarea::CursorMove::WordForward,
        EditOp::MoveWordEnd => tui_textarea::CursorMove::WordEnd,
        EditOp::MoveWordBack => tui_textarea::CursorMove::WordBack,
        EditOp::MoveHead => tui_textarea::CursorMove::Head,
        EditOp::MoveEnd => tui_textarea::CursorMove::End,
        EditOp::MoveTop => tui_textarea::CursorMove::Top,
        EditOp::MoveBottom => tui_textarea::CursorMove::Bottom,
        _ => return,
    };
    ta.inner.move_cursor(m);
}

/// Relies on `tui_textarea::TextArea::scroll`: scrolls the viewport by the
/// amount corresponding to the given scroll operation; other operations do
/// nothing.
#[verifier::external_body]
fn ta_scroll(ta: &mut TextAreaHandle, op: EditOp) {
    match op {
        EditOp::ScrollDown => ta.inner.scroll((1, 0)),
        EditOp::ScrollUp => ta.inner.scroll((-1, 0)),
        EditOp::ScrollHalfPageDown => ta.inner.scroll(tui_textarea::Scrolling::HalfPageDown),
        EditOp::ScrollHalfPageUp => ta.inner.scroll(tui_textarea::Scrolling::HalfPageUp),
        EditOp::ScrollPageDown => ta.inner.scroll(tui_textarea::Scrolling::PageDown),
        EditOp::ScrollPageUp => ta.inner.scroll(tui_textarea::Scrolling::PageUp),
        _ => {},
    }
}

/// Relies on `tui_textarea::TextArea::delete_line_by_end`.
#[verifier::external_body]
fn ta_delete_line_by_end(ta: &mut TextAreaHandle) {
    let _ = ta.inner.delete_line_by_end();
}

/// Relies on `tui_textarea::TextArea::delete_next_char`.
#[verifier::external_body]
fn ta_delete_next_char(ta: &mut TextAreaHandle) {
    let _ = ta.inner.delete_next_char();
}

/// Relies on `tui_textarea::TextArea::insert_newline`.
#[verifier::external_body]
fn ta_insert_newline(ta: &mut TextAreaHandle) {
    ta.inner.insert_newline();
}

/// Relies on `tui_textarea::TextArea::undo`.
#[verifier::external_body]
fn ta_undo(ta: &mut TextAreaHandle) {
    let _ = ta.inner.undo();
}

/// Relies on `tui_textarea::TextArea::redo`.
#[verifier::external_body]
fn ta_redo(ta: &mut TextAreaHandle) {
    let _ = ta.inner.redo();
}

/// Relies on `tui_textarea::TextArea::paste`.
#[verifier::external_body]
fn ta_paste(ta: &mut TextAreaHandle) {
    let _ = ta.inner.paste();
}

/// Relies on `tui_textarea::TextArea::cut`.
#[verifier::external_body]
fn ta_cut(ta: &mut TextAreaHandle) {
    let _ = ta.inner.cut();
}

/// Relies on `tui_textarea::TextArea::copy`.
#[verifier::external_body]
fn ta_copy(ta: &mut TextAreaHandle) {
    ta.inner.copy();
}

/// Relies on `tui_textarea::TextArea::start_selection`.
#[verifier::external_body]
fn ta_start_selection(ta: &mut TextAreaHandle) {
    ta.inner.start_selection();
}

/// Relies on `tui_textarea::TextArea::cancel_selection`.
#[verifier::external_body]
fn ta_cancel_selection(ta: &mut TextAreaHandle) {
    ta.inner.cancel_selection();
}

/// Relies on `tui_textarea::TextArea::cursor`: the zero-based (row, column)
/// position of the cursor.
#[verifier::external_body]
fn ta_cursor(ta: &TextAreaHandle) -> (usize, usize) {
    ta.inner.cursor()
}

/// Relies on `tui_textarea::TextArea::yank_text`: the widget's yank buffer
/// with its pieces joined by newlines.
#[verifier::external_body]
fn ta_yank_text(ta: &TextAreaHandle) -> String {
    ta.inner.yank_text()
}

/// Relies on `tui_textarea::TextArea::input`: hands the key event to the
/// widget's native insert-mode handling.
#[verifier::external_body]
fn ta_input(ta: &mut TextAreaHandle, input: Input) {
    let key = match input.key {
        Key::Char(c) => tui_textarea::Key::Char(c),
        Key::Esc => tui_textarea::Key::Esc,
        Key::Enter => tui_textarea::Key::Enter,
        Key::Backspace => tui_textarea::Key::Backspace,
        Key::Delete => tui_textarea::Key::Delete,
        Key::Tab => tui_textarea::Key::Tab,
        Key::Left => tui_textarea::Key::Left,
        Key::Right => tui_textarea::Key::Right,
        Key::Up => tui_textarea::Key::Up,
        Key::Down => tui_textarea::Key::Down,
        _ => tui_textarea::Key::Null,
    };
    let _ = ta.inner.input(tui_textarea::Input { key, ctrl: input.ctrl, alt: false, shift: false });
}

/// Relies on `tui_textarea::TextArea::lines`: the widget's lines, copied.
#[verifier::external_body]
pub(crate) fn ta_lines(ta: &TextAreaHandle) -> Vec<String> {
    ta.inner.lines().to_vec()
}

/// Relies on `tui_textarea::TextArea::insert_str`: inserts text at the
/// widget's cursor.
#[verifier::external_body]
pub(crate) fn ta_insert_str(ta: &mut TextAreaHandle, s: &str) {
    let _ = ta.inner.insert_str(s);
}

/// Relies on `arboard::Clipboard::new` and `arboard::Clipboard::set_text`:
/// a best-effort write of the OS clipboard. A missing or failing clipboard
/// is swallowed — losing a yank must never abort interactive editing.
#[verifier::external_body]
fn clipboard_set_text(s: &str) {
    if let Ok(mut cb) = arboard::Clipboard::new() {
        let _ = cb.set_text(s);
    }
}

/// Perform one planned buffer operation against the real widget. The
/// linewise selection does the same last-line probe the verified model
/// defines: anchor at the line head, step down, and fall back to the line
/// end when the cursor could not move.
pub fn exec_op(op: EditOp, ta: &mut TextAreaHandle) {
    match op {
        EditOp::MoveBack
        | EditOp::MoveDown
        | EditOp::MoveUp
        | EditOp::MoveForward
        | EditOp::MoveWordForward
        | EditOp::MoveWordEnd
        | EditOp::MoveWordBack
        | EditOp::MoveHead
        | EditOp::MoveEnd
        | EditOp::MoveTop
        | EditOp::MoveBottom => ta_move_cursor(ta, op),
        EditOp::DeleteLineByEnd => ta_delete_line_by_end(ta),
        EditOp::DeleteNextChar => ta_delete_next_char(ta),
        EditOp::InsertNewline => ta_insert_newline(ta),
        EditOp::Undo => ta_undo(ta),
        EditOp::Redo => ta_redo(ta),
        EditOp::Paste => ta_paste(ta),
        EditOp::Cut => ta_cut(ta),
        EditOp::Copy => ta_copy(ta),
        EditOp::YankToClipboard => {
            let text = ta_yank_text(ta);
            clipboard_set_text(text.as_str());
        },
        EditOp::StartSelection => ta_start_selection(ta),
        EditOp::CancelSelection => ta_cancel_selection(ta),
        EditOp::SelectLine => {
            ta_move_cursor(ta, EditOp::MoveHead);
            ta_start_selection(ta);
            let before = ta_cursor(ta);
            ta_move_cursor(ta, EditOp::MoveDown);
            let after = ta_cursor(ta);
            if before.0 == after.0 && before.1 == after.1 {
                ta_move_cursor(ta, EditOp::MoveEnd);
            }
        },
        EditOp::ScrollDown
        | EditOp::ScrollUp
        | EditOp::ScrollHalfPageDown
        | EditOp::ScrollHalfPageUp
        | EditOp::ScrollPageDown
        | EditOp::ScrollPageUp => ta_scroll(ta, op),
        EditOp::ForwardInput(inp) => ta_input(ta, inp),
    }
}

} // verus!
