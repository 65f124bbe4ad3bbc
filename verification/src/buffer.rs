//! A verified model of the editable text buffer the modal editor drives.
//!
//! The buffer holds its text as lines of characters, a cursor, an optional
//! selection anchor, a yank register, undo/redo snapshot stacks and a scroll
//! offset. Every operation of the [`crate::vim::EditOp`] vocabulary is
//! implemented here and proved equal to a specification function over the
//! buffer's mathematical view ([`BufView`]).
//!
//! Semantics follow the conventions of common terminal text-area widgets:
//! a selection spans from its anchor to the cursor, end-exclusive; cutting
//! moves the cursor to the span's start; motions never cancel an active
//! selection. Word boundaries are decided by three character classes
//! (blank, ASCII punctuation, other), where "blank" means space or tab.

use vstd::prelude::*;

verus! {

/// A snapshot of text and cursor, the unit of the undo/redo stacks.
pub struct BufSnap {
    pub lines: Seq<Seq<char>>,
    pub row: int,
    pub col: int,
}

/// The mathematical view of a [`TextBuffer`].
pub struct BufView {
    /// The text, one sequence of characters per line; never empty.
    pub lines: Seq<Seq<char>>,
    /// Cursor row, always a valid line index.
    pub row: int,
    /// Cursor column, at most the current line's length.
    pub col: int,
    /// Selection anchor, if a selection is active.
    pub select: Option<(int, int)>,
    /// The yank register: the pieces of the last yank, joined by newlines;
    /// always at least one (possibly empty) piece.
    pub yank: Seq<Seq<char>>,
    /// Undo stack, most recent snapshot last.
    pub undo: Seq<BufSnap>,
    /// Redo stack, most recent snapshot last.
    pub redo: Seq<BufSnap>,
    /// First visible row of the viewport.
    pub scroll: int,
    /// Height of the viewport in rows, at least one.
    pub height: int,
}

/// A snapshot is well formed when its cursor points into its text.
pub open spec fn snap_wf(s: BufSnap) -> bool {
    &&& s.lines.len() >= 1
    &&& 0 <= s.row < s.lines.len()
    &&& 0 <= s.col <= s.lines[s.row].len()
}

impl BufView {
    /// Everything the operations below rely on: the cursor and the selection
    /// anchor point into the text, the yank register has at least one piece,
    /// and every stacked snapshot is itself well formed.
    pub open spec fn wf(self) -> bool {
        &&& self.lines.len() >= 1
        &&& 0 <= self.row < self.lines.len()
        &&& 0 <= self.col <= self.lines[self.row].len()
        &&& match self.select {
            Some((r, c)) => 0 <= r < self.lines.len() && 0 <= c <= self.lines[r].len(),
            None => true,
        }
        &&& self.yank.len() >= 1
        &&& forall|i: int| 0 <= i < self.undo.len() ==> snap_wf(#[trigger] self.undo[i])
        &&& forall|i: int| 0 <= i < self.redo.len() ==> snap_wf(#[trigger] self.redo[i])
        &&& self.scroll >= 0
        &&& self.height >= 1
    }
}

/// View of a sequence of character vectors as a sequence of sequences.
pub open spec fn lv(v: Seq<Vec<char>>) -> Seq<Seq<char>> {
    Seq::new(v.len(), |i: int| v[i]@)
}

/// The character classes that decide word boundaries.
#[derive(Clone, Copy, Debug, PartialEq, Eq, Structural)]
pub enum CharKind {
    Space,
    Punct,
    Other,
}

/// ASCII punctuation, the middle word class.
pub open spec fn is_punct(c: char) -> bool {
    ||| 0x21 <= (c as u32) && (c as u32) <= 0x2f
    ||| 0x3a <= (c as u32) && (c as u32) <= 0x40
    ||| 0x5b <= (c as u32) && (c as u32) <= 0x60
    ||| 0x7b <= (c as u32) && (c as u32) <= 0x7e
}

/// Class of one character: blank (space or tab), punctuation, or other.
pub open spec fn char_kind(c: char) -> CharKind {
    if c == ' ' || c == '\t' {
        CharKind::Space
    } else if is_punct(c) {
        CharKind::Punct
    } else {
        CharKind::Other
    }
}

/// Scan forward from `i` for the first start of a word: a non-blank
/// character whose class differs from its predecessor's.
pub open spec fn scan_word_start(line: Seq<char>, prev: CharKind, i: int) -> Option<int>
    decreases line.len() - i,
{
    if i < 0 || i >= line.len() {
        None
    } else {
        let k = char_kind(line[i]);
        if k != CharKind::Space && k != prev {
            Some(i)
        } else {
            scan_word_start(line, k, i + 1)
        }
    }
}

/// Column of the next word start strictly after `start`, if any.
pub open spec fn find_word_start_forward(line: Seq<char>, start: int) -> Option<int> {
    if 0 <= start < line.len() {
        scan_word_start(line, char_kind(line[start]), start + 1)
    } else {
        None
    }
}

/// Scan forward for the last column of the current word run: the column
/// just before the first class change away from a non-blank class.
pub open spec fn scan_word_incl_end(line: Seq<char>, prev: CharKind, i: int) -> Option<int>
    decreases line.len() - i,
{
    if i >= line.len() {
        if prev != CharKind::Space {
            Some(line.len() - 1)
        } else {
            None
        }
    } else {
        let k = char_kind(line[i]);
        if prev != CharKind::Space && k != prev {
            Some(i - 1)
        } else {
            scan_word_incl_end(line, k, i + 1)
        }
    }
}

/// Column of the next inclusive word end at or after `start`, if any.
pub open spec fn find_word_incl_end_forward(line: Seq<char>, start: int) -> Option<int> {
    if 0 <= start < line.len() {
        scan_word_incl_end(line, char_kind(line[start]), start + 1)
    } else {
        None
    }
}

/// Scan backward from column `j` for the start of the word run whose class
/// was seen at `j + 1`; `Some(0)` if the run reaches the line head.
pub open spec fn scan_word_back(line: Seq<char>, cur: CharKind, j: int) -> Option<int>
    decreases j + 1,
{
    if j < 0 {
        if cur != CharKind::Space {
            Some(0)
        } else {
            None
        }
    } else {
        let k = char_kind(line[j]);
        if cur != CharKind::Space && k != cur {
            Some(j + 1)
        } else {
            scan_word_back(line, k, j - 1)
        }
    }
}

/// Column of the previous word start strictly before `start`, if any.
pub open spec fn find_word_start_backward(line: Seq<char>, start: int) -> Option<int> {
    if 1 <= start <= line.len() {
        scan_word_back(line, char_kind(line[start - 1]), start - 2)
    } else {
        None
    }
}

/// Clamp a column to a line's length.
pub open spec fn fit(col: int, line: Seq<char>) -> int {
    if col <= line.len() {
        col
    } else {
        line.len() as int
    }
}

/// Where a motion takes the cursor, or `None` if it cannot move.
/// Only the `Move*` operations are meaningful here.
pub open spec fn motion_target(lines: Seq<Seq<char>>, row: int, col: int, m: crate::vim::EditOp) -> Option<
    (int, int),
> {
    match m {
        crate::vim::EditOp::MoveForward => if col < lines[row].len() {
            Some((row, col + 1))
        } else if row + 1 < lines.len() {
            Some((row + 1, 0))
        } else {
            None
        },
        crate::vim::EditOp::MoveBack => if col > 0 {
            Some((row, col - 1))
        } else if row > 0 {
            Some((row - 1, lines[row - 1].len() as int))
        } else {
            None
        },
        crate::vim::EditOp::MoveUp => if row > 0 {
            Some((row - 1, fit(col, lines[row - 1])))
        } else {
            None
        },
        crate::vim::EditOp::MoveDown => if row + 1 < lines.len() {
            Some((row + 1, fit(col, lines[row + 1])))
        } else {
            None
        },
        crate::vim::EditOp::MoveHead => Some((row, 0)),
        crate::vim::EditOp::MoveEnd => Some((row, lines[row].len() as int)),
        crate::vim::EditOp::MoveTop => Some((0, fit(col, lines[0]))),
        crate::vim::EditOp::MoveBottom => Some(
            (lines.len() - 1, fit(col, lines[lines.len() - 1])),
        ),
        crate::vim::EditOp::MoveWordForward => match find_word_start_forward(lines[row], col) {
            Some(c) => Some((row, c)),
            None => if row + 1 < lines.len() {
                Some((row + 1, 0))
            } else {
                Some((row, lines[row].len() as int))
            },
        },
        crate::vim::EditOp::MoveWordEnd => match find_word_incl_end_forward(lines[row], col + 1) {
            Some(c) => Some((row, c)),
            None => Some(word_end_rows(lines, row)),
        },
        crate::vim::EditOp::MoveWordBack => match find_word_start_backward(lines[row], col) {
            Some(c) => Some((row, c)),
            None => if row > 0 {
                Some((row - 1, lines[row - 1].len() as int))
            } else {
                Some((row, 0))
            },
        },
        _ => None,
    }
}

/// Continue a word-end search on the following lines: the first line with a
/// word end from its head, or the end of the last line.
pub open spec fn word_end_rows(lines: Seq<Seq<char>>, row: int) -> (int, int)
    decreases lines.len() - row,
{
    if row >= lines.len() - 1 {
        (lines.len() - 1, lines[lines.len() - 1].len() as int)
    } else {
        match find_word_incl_end_forward(lines[row + 1], 0) {
            Some(c) => (row + 1, c),
            None => word_end_rows(lines, row + 1),
        }
    }
}

/// Apply a motion: the cursor moves to the target if there is one; an
/// active selection is kept, and nothing else changes.
pub open spec fn bv_move(b: BufView, m: crate::vim::EditOp) -> BufView {
    match motion_target(b.lines, b.row, b.col, m) {
        Some((r, c)) => BufView { row: r, col: c, ..b },
        None => b,
    }
}

/// The buffer with no active selection.
pub open spec fn desel(b: BufView) -> BufView {
    BufView { select: None, ..b }
}

/// Strict lexicographic order on (row, column) positions.
pub open spec fn lex_lt(a: (int, int), b: (int, int)) -> bool {
    a.0 < b.0 || (a.0 == b.0 && a.1 < b.1)
}

/// The selection span, ordered and end-exclusive: from the anchor to the
/// cursor, or `None` when there is no selection or it is empty.
pub open spec fn sel_range(b: BufView) -> Option<((int, int), (int, int))> {
    match b.select {
        None => None,
        Some(s) => {
            let e = (b.row, b.col);
            if lex_lt(s, e) {
                Some((s, e))
            } else if lex_lt(e, s) {
                Some((e, s))
            } else {
                None
            }
        },
    }
}

/// The text of the span `[s, e)` as pieces: one piece per line touched.
pub open spec fn extract(lines: Seq<Seq<char>>, s: (int, int), e: (int, int)) -> Seq<Seq<char>> {
    if s.0 == e.0 {
        seq![lines[s.0].subrange(s.1, e.1)]
    } else {
        seq![lines[s.0].subrange(s.1, lines[s.0].len() as int)] + lines.subrange(s.0 + 1, e.0)
            + seq![lines[e.0].subrange(0, e.1)]
    }
}

/// The text with the span `[s, e)` removed: the kept head of the first line
/// joins the kept tail of the last.
pub open spec fn remove_range(lines: Seq<Seq<char>>, s: (int, int), e: (int, int)) -> Seq<
    Seq<char>,
> {
    if s.0 == e.0 {
        lines.update(
            s.0,
            lines[s.0].subrange(0, s.1) + lines[s.0].subrange(e.1, lines[s.0].len() as int),
        )
    } else {
        lines.subrange(0, s.0) + seq![
            lines[s.0].subrange(0, s.1) + lines[e.0].subrange(e.1, lines[e.0].len() as int),
        ] + lines.subrange(e.0 + 1, lines.len() as int)
    }
}

/// The cursor-and-text snapshot of a buffer, the unit of undo.
pub open spec fn snap_of(b: BufView) -> BufSnap {
    BufSnap { lines: b.lines, row: b.row, col: b.col }
}

/// Record one content edit: the state before it (`orig`) goes onto the undo
/// stack and the redo stack empties.
pub open spec fn push_edit(orig: BufView, nb: BufView) -> BufView {
    BufView { undo: orig.undo.push(snap_of(orig)), redo: seq![], ..nb }
}

/// Delete the span `[s, e)`: the cursor moves to `s`, and the removed text
/// replaces the yank register when `should_yank` holds. One edit is recorded.
pub open spec fn bv_delete_range(
    b: BufView,
    s: (int, int),
    e: (int, int),
    should_yank: bool,
) -> BufView {
    let nb = BufView {
        lines: remove_range(b.lines, s, e),
        row: s.0,
        col: s.1,
        yank: if should_yank {
            extract(b.lines, s, e)
        } else {
            b.yank
        },
        ..b
    };
    push_edit(b, nb)
}

/// Cut: delete the selection into the yank register. The selection is
/// cancelled even when empty.
pub open spec fn bv_cut(b: BufView) -> BufView {
    match sel_range(b) {
        Some((s, e)) => bv_delete_range(desel(b), s, e, true),
        None => desel(b),
    }
}

/// Copy: yank the selection without deleting it; the cursor stays put.
pub open spec fn bv_copy(b: BufView) -> BufView {
    match sel_range(b) {
        Some((s, e)) => BufView { yank: extract(b.lines, s, e), select: None, ..b },
        None => desel(b),
    }
}

/// Delete the selection without yanking (the implicit deletion performed
/// before an insertion); the selection is cancelled either way.
pub open spec fn bv_del_sel(b: BufView) -> BufView {
    match sel_range(b) {
        Some((s, e)) => bv_delete_range(desel(b), s, e, false),
        None => desel(b),
    }
}

/// Split the current line at the cursor; the cursor lands on the head of
/// the new line below.
pub open spec fn bv_insert_newline(b: BufView) -> BufView {
    let b1 = bv_del_sel(b);
    let line = b1.lines[b1.row];
    let nb = BufView {
        lines: b1.lines.subrange(0, b1.row) + seq![line.subrange(0, b1.col)] + seq![
            line.subrange(b1.col, line.len() as int),
        ] + b1.lines.subrange(b1.row + 1, b1.lines.len() as int),
        row: b1.row + 1,
        col: 0,
        ..b1
    };
    push_edit(b1, nb)
}

/// Insert one character at the cursor; a newline character splits the line.
pub open spec fn bv_insert_char(b: BufView, c: char) -> BufView {
    if c == '\n' || c == '\r' {
        bv_insert_newline(b)
    } else {
        let b1 = bv_del_sel(b);
        let line = b1.lines[b1.row];
        let nb = BufView {
            lines: b1.lines.update(b1.row, line.insert(b1.col, c)),
            col: b1.col + 1,
            ..b1
        };
        push_edit(b1, nb)
    }
}

/// Join the cursor line onto the line above; at the first line nothing
/// happens. A selection, if any, is deleted instead.
pub open spec fn bv_delete_newline(b: BufView) -> BufView {
    let b1 = bv_del_sel(b);
    if sel_range(b) is Some {
        b1
    } else if b1.row == 0 {
        b1
    } else {
        let nb = BufView {
            lines: b1.lines.subrange(0, b1.row - 1) + seq![b1.lines[b1.row - 1] + b1.lines[b1.row]]
                + b1.lines.subrange(b1.row + 1, b1.lines.len() as int),
            row: b1.row - 1,
            col: b1.lines[b1.row - 1].len() as int,
            ..b1
        };
        push_edit(b1, nb)
    }
}

/// Delete the character before the cursor; at a line head the newline
/// before the line goes instead. A selection, if any, is deleted instead.
pub open spec fn bv_delete_char(b: BufView) -> BufView {
    let b1 = bv_del_sel(b);
    if sel_range(b) is Some {
        b1
    } else if b1.col == 0 {
        bv_delete_newline(b1)
    } else {
        let line = b1.lines[b1.row];
        let nb = BufView {
            lines: b1.lines.update(b1.row, line.remove(b1.col - 1)),
            col: b1.col - 1,
            ..b1
        };
        push_edit(b1, nb)
    }
}

/// Delete the character under the cursor; at a line end the following line
/// is joined on; at the very end of the buffer nothing happens.
pub open spec fn bv_delete_next_char(b: BufView) -> BufView {
    let b1 = bv_del_sel(b);
    if sel_range(b) is Some {
        b1
    } else if b1.col < b1.lines[b1.row].len() {
        let line = b1.lines[b1.row];
        let nb = BufView { lines: b1.lines.update(b1.row, line.remove(b1.col)), ..b1 };
        push_edit(b1, nb)
    } else if b1.row + 1 < b1.lines.len() {
        let nb = BufView {
            lines: b1.lines.subrange(0, b1.row) + seq![b1.lines[b1.row] + b1.lines[b1.row + 1]]
                + b1.lines.subrange(b1.row + 2, b1.lines.len() as int),
            ..b1
        };
        push_edit(b1, nb)
    } else {
        b1
    }
}

/// Delete from the cursor to the end of the line into the yank register;
/// at a line end the following line is joined on instead (without yanking).
pub open spec fn bv_delete_line_by_end(b: BufView) -> BufView {
    let b1 = bv_del_sel(b);
    if sel_range(b) is Some {
        b1
    } else if b1.col < b1.lines[b1.row].len() {
        let line = b1.lines[b1.row];
        let nb = BufView {
            lines: b1.lines.update(b1.row, line.subrange(0, b1.col)),
            yank: seq![line.subrange(b1.col, line.len() as int)],
            ..b1
        };
        push_edit(b1, nb)
    } else {
        bv_delete_next_char(b1)
    }
}

/// Delete from the line head to the cursor into the yank register; at a
/// line head the newline before the line goes instead (without yanking).
pub open spec fn bv_delete_line_by_head(b: BufView) -> BufView {
    let b1 = bv_del_sel(b);
    if sel_range(b) is Some {
        b1
    } else if b1.col > 0 {
        let line = b1.lines[b1.row];
        let nb = BufView {
            lines: b1.lines.update(b1.row, line.subrange(b1.col, line.len() as int)),
            col: 0,
            yank: seq![line.subrange(0, b1.col)],
            ..b1
        };
        push_edit(b1, nb)
    } else {
        bv_delete_newline(b1)
    }
}

/// Insert the yank register at the cursor. A single piece goes into the
/// current line; several pieces splice in as lines, and the cursor lands
/// after the last piece. An empty single piece does nothing.
pub open spec fn bv_paste(b: BufView) -> BufView {
    let b1 = bv_del_sel(b);
    if b1.yank.len() == 1 {
        let piece = b1.yank[0];
        if piece.len() == 0 {
            b1
        } else {
            let line = b1.lines[b1.row];
            let nb = BufView {
                lines: b1.lines.update(
                    b1.row,
                    line.subrange(0, b1.col) + piece + line.subrange(b1.col, line.len() as int),
                ),
                col: b1.col + piece.len(),
                ..b1
            };
            push_edit(b1, nb)
        }
    } else {
        let k = b1.yank.len() as int;
        let line = b1.lines[b1.row];
        let nb = BufView {
            lines: b1.lines.subrange(0, b1.row) + seq![line.subrange(0, b1.col) + b1.yank[0]]
                + b1.yank.subrange(1, k - 1) + seq![
                b1.yank[k - 1] + line.subrange(b1.col, line.len() as int),
            ] + b1.lines.subrange(b1.row + 1, b1.lines.len() as int),
            row: b1.row + k - 1,
            col: b1.yank[k - 1].len() as int,
            ..b1
        };
        push_edit(b1, nb)
    }
}

/// Undo the most recent edit: restore its snapshot, push the current state
/// onto the redo stack, and cancel any selection.
pub open spec fn bv_undo(b: BufView) -> BufView {
    if b.undo.len() == 0 {
        b
    } else {
        let s = b.undo.last();
        BufView {
            lines: s.lines,
            row: s.row,
            col: s.col,
            select: None,
            undo: b.undo.drop_last(),
            redo: b.redo.push(snap_of(b)),
            ..b
        }
    }
}

/// Redo the most recently undone edit.
pub open spec fn bv_redo(b: BufView) -> BufView {
    if b.redo.len() == 0 {
        b
    } else {
        let s = b.redo.last();
        BufView {
            lines: s.lines,
            row: s.row,
            col: s.col,
            select: None,
            undo: b.undo.push(snap_of(b)),
            redo: b.redo.drop_last(),
            ..b
        }
    }
}

/// Linewise selection for `dd`/`yy`/`cc`: anchor at the line head, cursor on
/// the next line head, or on the line end when on the last line.
pub open spec fn bv_select_line(b: BufView) -> BufView {
    let b1 = bv_move(b, crate::vim::EditOp::MoveHead);
    let b2 = BufView { select: Some((b1.row, b1.col)), ..b1 };
    let b3 = bv_move(b2, crate::vim::EditOp::MoveDown);
    if b3.row == b2.row {
        bv_move(b3, crate::vim::EditOp::MoveEnd)
    } else {
        b3
    }
}

/// Shift the viewport by `amt` rows (positive scrolls down), clamped to the
/// text.
pub open spec fn bv_scroll(b: BufView, amt: int) -> BufView {
    let s = b.scroll + amt;
    let hi = b.lines.len() - 1;
    BufView {
        scroll: if s < 0 {
            0
        } else if s > hi {
            hi
        } else {
            s
        },
        ..b
    }
}

/// The yank register's pieces joined by newlines: the clipboard text.
pub open spec fn join_pieces(ps: Seq<Seq<char>>) -> Seq<char>
    decreases ps.len(),
{
    if ps.len() == 0 {
        seq![]
    } else if ps.len() == 1 {
        ps[0]
    } else {
        ps[0] + seq!['\n'] + join_pieces(ps.drop_first())
    }
}

/// Apply a motion with no selection retention: the native insert-mode
/// arrow keys cancel the selection when they move.
pub open spec fn bv_move_plain(b: BufView, m: crate::vim::EditOp) -> BufView {
    match motion_target(b.lines, b.row, b.col, m) {
        Some((r, c)) => BufView { row: r, col: c, select: None, ..b },
        None => b,
    }
}

/// The buffer's native handling of one verbatim insert-mode input: typed
/// characters insert, Enter breaks the line, Backspace/Delete erase, the
/// arrow keys move, and the usual control chords map to their edits.
/// Keys outside this set leave the buffer unchanged.
pub open spec fn bv_forward(b: BufView, input: crate::keys::Input) -> BufView {
    let k = input.key;
    let ctrl = input.ctrl;
    if k == crate::keys::Key::Enter || (k == crate::keys::Key::Char('m') && ctrl) {
        bv_insert_newline(b)
    } else if k is Char && !ctrl {
        bv_insert_char(b, k->Char_0)
    } else if (k == crate::keys::Key::Char('h') && ctrl) || (k == crate::keys::Key::Backspace && !ctrl) {
        bv_delete_char(b)
    } else if (k == crate::keys::Key::Char('d') && ctrl) || (k == crate::keys::Key::Delete && !ctrl) {
        bv_delete_next_char(b)
    } else if k == crate::keys::Key::Char('k') && ctrl {
        bv_delete_line_by_end(b)
    } else if k == crate::keys::Key::Char('j') && ctrl {
        bv_delete_line_by_head(b)
    } else if (k == crate::keys::Key::Char('n') && ctrl) || (k == crate::keys::Key::Down && !ctrl) {
        bv_move_plain(b, crate::vim::EditOp::MoveDown)
    } else if (k == crate::keys::Key::Char('p') && ctrl) || (k == crate::keys::Key::Up && !ctrl) {
        bv_move_plain(b, crate::vim::EditOp::MoveUp)
    } else if (k == crate::keys::Key::Char('f') && ctrl) || (k == crate::keys::Key::Right && !ctrl) {
        bv_move_plain(b, crate::vim::EditOp::MoveForward)
    } else if (k == crate::keys::Key::Char('b') && ctrl) || (k == crate::keys::Key::Left && !ctrl) {
        bv_move_plain(b, crate::vim::EditOp::MoveBack)
    } else {
        b
    }
}

/// What one buffer operation does to the buffer and the clipboard register.
pub open spec fn step_op(b: BufView, clip: Seq<char>, op: crate::vim::EditOp) -> (
    BufView,
    Seq<char>,
) {
    match op {
        crate::vim::EditOp::MoveBack
        | crate::vim::EditOp::MoveDown
        | crate::vim::EditOp::MoveUp
        | crate::vim::EditOp::MoveForward
        | crate::vim::EditOp::MoveWordForward
        | crate::vim::EditOp::MoveWordEnd
        | crate::vim::EditOp::MoveWordBack
        | crate::vim::EditOp::MoveHead
        | crate::vim::EditOp::MoveEnd
        | crate::vim::EditOp::MoveTop
        | crate::vim::EditOp::MoveBottom => (bv_move(b, op), clip),
        crate::vim::EditOp::DeleteLineByEnd => (bv_delete_line_by_end(b), clip),
        crate::vim::EditOp::DeleteNextChar => (bv_delete_next_char(b), clip),
        crate::vim::EditOp::InsertNewline => (bv_insert_newline(b), clip),
        crate::vim::EditOp::Undo => (bv_undo(b), clip),
        crate::vim::EditOp::Redo => (bv_redo(b), clip),
        crate::vim::EditOp::Paste => (bv_paste(b), clip),
        crate::vim::EditOp::Cut => (bv_cut(b), clip),
        crate::vim::EditOp::Copy => (bv_copy(b), clip),
        crate::vim::EditOp::YankToClipboard => (b, join_pieces(b.yank)),
        crate::vim::EditOp::StartSelection => (
            BufView { select: Some((b.row, b.col)), ..b },
            clip,
        ),
        crate::vim::EditOp::CancelSelection => (desel(b), clip),
        crate::vim::EditOp::SelectLine => (bv_select_line(b), clip),
        crate::vim::EditOp::ScrollDown => (bv_scroll(b, 1), clip),
        crate::vim::EditOp::ScrollUp => (bv_scroll(b, -1), clip),
        crate::vim::EditOp::ScrollHalfPageDown => (bv_scroll(b, b.height / 2), clip),
        crate::vim::EditOp::ScrollHalfPageUp => (bv_scroll(b, -(b.height / 2)), clip),
        crate::vim::EditOp::ScrollPageDown => (bv_scroll(b, b.height), clip),
        crate::vim::EditOp::ScrollPageUp => (bv_scroll(b, -b.height), clip),
        crate::vim::EditOp::ForwardInput(input) => (bv_forward(b, input), clip),
    }
}

/// What a sequence of buffer operations does, applied left to right.
pub open spec fn step_ops(b: BufView, clip: Seq<char>, ops: Seq<crate::vim::EditOp>) -> (
    BufView,
    Seq<char>,
)
    decreases ops.len(),
{
    if ops.len() == 0 {
        (b, clip)
    } else {
        let (b1, c1) = step_op(b, clip, ops[0]);
        step_ops(b1, c1, ops.drop_first())
    }
}

/// The clipboard register: the shared text slot yanks write and the host
/// may read back.
pub struct Register {
    chars: Vec<char>,
}

impl View for Register {
    type V = Seq<char>;

    closed spec fn view(&self) -> Seq<char> {
        self.chars@
    }
}

impl Register {
    /// An empty register.
    pub fn new() -> (r: Register)
        ensures
            r@ == Seq::<char>::empty(),
    {
        Register { chars: Vec::new() }
    }

    /// The register's text as characters.
    pub fn chars(&self) -> (r: &Vec<char>)
        ensures
            r@ == self@,
    {
        &self.chars
    }
}

/// An undo/redo snapshot: text plus cursor.
pub struct Snapshot {
    lines: Vec<Vec<char>>,
    row: usize,
    col: usize,
}

impl View for Snapshot {
    type V = BufSnap;

    closed spec fn view(&self) -> BufSnap {
        BufSnap { lines: lv(self.lines@), row: self.row as int, col: self.col as int }
    }
}

/// View of a sequence of snapshots.
pub open spec fn sv(v: Seq<Snapshot>) -> Seq<BufSnap> {
    Seq::new(v.len(), |i: int| v[i]@)
}

/// The editable text buffer. All operations keep [`BufView::wf`] and are
/// proved equal to their specification functions.
pub struct TextBuffer {
    lines: Vec<Vec<char>>,
    row: usize,
    col: usize,
    select: Option<(usize, usize)>,
    yank: Vec<Vec<char>>,
    undo: Vec<Snapshot>,
    redo: Vec<Snapshot>,
    scroll: usize,
    height: usize,
}

impl View for TextBuffer {
    type V = BufView;

    closed spec fn view(&self) -> BufView {
        BufView {
            lines: lv(self.lines@),
            row: self.row as int,
            col: self.col as int,
            select: match self.select {
                Some((r, c)) => Some((r as int, c as int)),
                None => None,
            },
            yank: lv(self.yank@),
            undo: sv(self.undo@),
            redo: sv(self.redo@),
            scroll: self.scroll as int,
            height: self.height as int,
        }
    }
}

/// Copy a line.
fn copy_line(l: &Vec<char>) -> (r: Vec<char>)
    ensures
        r@ == l@,
{
    let mut r: Vec<char> = Vec::new();
    let mut i: usize = 0;
    while i < l.len()
        invariant
            i <= l@.len(),
            r@ == l@.subrange(0, i as int),
        decreases l@.len() - i,
    {
        r.push(l[i]);
        assert(r@ =~= l@.subrange(0, i + 1 as int));
        i += 1;
    }
    assert(r@ =~= l@);
    r
}

/// Append `src[a..b]` onto `dst`.
fn extend_from(dst: &mut Vec<char>, src: &Vec<char>, a: usize, b: usize)
    requires
        a <= b <= src@.len(),
    ensures
        final(dst)@ == old(dst)@ + src@.subrange(a as int, b as int),
{
    let mut i: usize = a;
    while i < b
        invariant
            a <= i <= b <= src@.len(),
            dst@ == old(dst)@ + src@.subrange(a as int, i as int),
        decreases b - i,
    {
        dst.push(src[i]);
        assert(dst@ =~= old(dst)@ + src@.subrange(a as int, i + 1 as int));
        i += 1;
    }
}

/// The characters `l[a..b]` as a fresh line.
fn subline(l: &Vec<char>, a: usize, b: usize) -> (r: Vec<char>)
    requires
        a <= b <= l@.len(),
    ensures
        r@ == l@.subrange(a as int, b as int),
{
    let mut r: Vec<char> = Vec::new();
    extend_from(&mut r, l, a, b);
    assert(r@ =~= l@.subrange(a as int, b as int));
    r
}

/// Copy a whole text.
fn copy_lines(v: &Vec<Vec<char>>) -> (r: Vec<Vec<char>>)
    ensures
        lv(r@) == lv(v@),
{
    let mut r: Vec<Vec<char>> = Vec::new();
    let mut i: usize = 0;
    while i < v.len()
        invariant
            i <= v@.len(),
            r@.len() == i,
            forall|j: int| 0 <= j < i ==> #[trigger] r@[j]@ == v@[j]@,
        decreases v@.len() - i,
    {
        r.push(copy_line(&v[i]));
        i += 1;
    }
    assert(lv(r@) =~~= lv(v@));
    r
}

/// Class of one character, executable form.
fn char_kind_x(c: char) -> (k: CharKind)
    ensures
        k == char_kind(c),
{
    if c == ' ' || c == '\t' {
        CharKind::Space
    } else {
        let u = c as u32;
        if (0x21 <= u && u <= 0x2f) || (0x3a <= u && u <= 0x40) || (0x5b <= u && u <= 0x60) || (
        0x7b <= u && u <= 0x7e) {
            CharKind::Punct
        } else {
            CharKind::Other
        }
    }
}

/// Lift an optional column to the specification's integers.
pub open spec fn opt_col(r: Option<usize>) -> Option<int> {
    match r {
        Some(c) => Some(c as int),
        None => None,
    }
}

/// Executable forward word-start search.
fn word_start_fwd(line: &Vec<char>, start: usize) -> (r: Option<usize>)
    ensures
        opt_col(r) == find_word_start_forward(line@, start as int),
        r matches Some(c) ==> c < line@.len(),
{
    if start >= line.len() {
        return None;
    }
    let mut prev = char_kind_x(line[start]);
    let mut i = start + 1;
    while i < line.len()
        invariant
            start < line@.len(),
            start + 1 <= i <= line@.len(),
            find_word_start_forward(line@, start as int) == scan_word_start(line@, prev, i as int),
        decreases line@.len() - i,
    {
        let k = char_kind_x(line[i]);
        if k != CharKind::Space && k != prev {
            return Some(i);
        }
        prev = k;
        i += 1;
    }
    None
}

/// Executable forward inclusive word-end search.
fn word_incl_end_fwd(line: &Vec<char>, start: usize) -> (r: Option<usize>)
    ensures
        opt_col(r) == find_word_incl_end_forward(line@, start as int),
        r matches Some(c) ==> c < line@.len(),
{
    if start >= line.len() {
        return None;
    }
    let mut prev = char_kind_x(line[start]);
    let mut i = start + 1;
    while i < line.len()
        invariant
            start < line@.len(),
            start + 1 <= i <= line@.len(),
            find_word_incl_end_forward(line@, start as int) == scan_word_incl_end(
                line@,
                prev,
                i as int,
            ),
        decreases line@.len() - i,
    {
        let k = char_kind_x(line[i]);
        if prev != CharKind::Space && k != prev {
            return Some(i - 1);
        }
        prev = k;
        i += 1;
    }
    if prev != CharKind::Space {
        Some(line.len() - 1)
    } else {
        None
    }
}

/// Executable backward word-start search.
fn word_start_back(line: &Vec<char>, start: usize) -> (r: Option<usize>)
    requires
        start <= line@.len(),
    ensures
        opt_col(r) == find_word_start_backward(line@, start as int),
        r matches Some(c) ==> c <= line@.len(),
{
    if start == 0 {
        return None;
    }
    let mut cur = char_kind_x(line[start - 1]);
    let mut j_plus = start - 1;  // the scan index plus one, to stay nonnegative
    while j_plus > 0
        invariant
            1 <= start <= line@.len(),
            j_plus <= start - 1,
            find_word_start_backward(line@, start as int) == scan_word_back(
                line@,
                cur,
                j_plus - 1,
            ),
        decreases j_plus,
    {
        let k = char_kind_x(line[j_plus - 1]);
        if cur != CharKind::Space && k != cur {
            return Some(j_plus);
        }
        cur = k;
        j_plus -= 1;
    }
    if cur != CharKind::Space {
        Some(0)
    } else {
        None
    }
}

/// Lift an optional position to the specification's integers.
pub open spec fn opt_pos(r: Option<(usize, usize)>) -> Option<(int, int)> {
    match r {
        Some((a, b)) => Some((a as int, b as int)),
        None => None,
    }
}

impl TextBuffer {
    /// An empty buffer: one empty line, cursor at its head, empty yank,
    /// no history, a 24-row viewport.
    pub fn new() -> (b: TextBuffer)
        ensures
            b@.wf(),
            b@.lines == seq![Seq::<char>::empty()],
            b@.row == 0 && b@.col == 0,
            b@.select is None,
            b@.yank == seq![Seq::<char>::empty()],
            b@.undo == Seq::<BufSnap>::empty(),
            b@.redo == Seq::<BufSnap>::empty(),
            b@.scroll == 0,
            b@.height == 24,
    {
        let mut lines: Vec<Vec<char>> = Vec::new();
        lines.push(Vec::new());
        let mut yank: Vec<Vec<char>> = Vec::new();
        yank.push(Vec::new());
        let b = TextBuffer {
            lines,
            row: 0,
            col: 0,
            select: None,
            yank,
            undo: Vec::new(),
            redo: Vec::new(),
            scroll: 0,
            height: 24,
        };
        assert(b@.lines =~~= seq![Seq::<char>::empty()]);
        assert(b@.yank =~~= seq![Seq::<char>::empty()]);
        assert(b@.undo =~= Seq::<BufSnap>::empty());
        assert(b@.redo =~= Seq::<BufSnap>::empty());
        b
    }

    /// A buffer holding the given lines (one empty line if none are given),
    /// otherwise in the fresh state of [`TextBuffer::new`].
    pub fn from_lines(lines: Vec<Vec<char>>) -> (b: TextBuffer)
        ensures
            b@.wf(),
            b@.lines == if lines@.len() == 0 {
                seq![Seq::<char>::empty()]
            } else {
                lv(lines@)
            },
            b@.row == 0 && b@.col == 0,
            b@.select is None,
            b@.yank == seq![Seq::<char>::empty()],
            b@.undo == Seq::<BufSnap>::empty(),
            b@.redo == Seq::<BufSnap>::empty(),
            b@.scroll == 0,
            b@.height == 24,
    {
        if lines.len() == 0 {
            TextBuffer::new()
        } else {
            let mut yank: Vec<Vec<char>> = Vec::new();
            yank.push(Vec::new());
            let b = TextBuffer {
                lines,
                row: 0,
                col: 0,
                select: None,
                yank,
                undo: Vec::new(),
                redo: Vec::new(),
                scroll: 0,
                height: 24,
            };
            assert(b@.yank =~~= seq![Seq::<char>::empty()]);
            assert(b@.undo =~= Seq::<BufSnap>::empty());
            assert(b@.redo =~= Seq::<BufSnap>::empty());
            b
        }
    }

    /// The buffer's lines.
    pub fn lines(&self) -> (r: &Vec<Vec<char>>)
        ensures
            lv(r@) == self@.lines,
    {
        &self.lines
    }

    /// The cursor as (row, column).
    pub fn cursor(&self) -> (r: (usize, usize))
        ensures
            r.0 == self@.row && r.1 == self@.col,
    {
        (self.row, self.col)
    }

    /// Whether a selection is active.
    pub fn is_selecting(&self) -> (r: bool)
        ensures
            r == (self@.select is Some),
    {
        self.select.is_some()
    }

    /// The yank register's pieces.
    pub fn yank_pieces(&self) -> (r: &Vec<Vec<char>>)
        ensures
            lv(r@) == self@.yank,
    {
        &self.yank
    }

    /// The yank register joined by newlines: the text a paste would insert.
    pub fn yank_text(&self) -> (r: Vec<char>)
        ensures
            r@ == join_pieces(self@.yank),
    {
        let r = join_from(&self.yank, 0);
        proof {
            assert(lv(self.yank@).subrange(0, self.yank@.len() as int) =~= lv(self.yank@));
        }
        r
    }

    /// Record the current state as one edit: push it onto the undo stack
    /// and clear the redo stack.
    fn push_undo(&mut self)
        ensures
            final(self)@ == (BufView {
                undo: old(self)@.undo.push(snap_of(old(self)@)),
                redo: seq![],
                ..old(self)@
            }),
    {
        let snap = Snapshot { lines: copy_lines(&self.lines), row: self.row, col: self.col };
        assert(snap@ == snap_of(self@));
        self.undo.push(snap);
        self.redo.clear();
        assert(final(self)@.undo =~= old(self)@.undo.push(snap_of(old(self)@)));
        assert(final(self)@.redo =~= Seq::<BufSnap>::empty());
    }

    /// Where a motion would take the cursor.
    fn motion_pos(&self, m: crate::vim::EditOp) -> (r: Option<(usize, usize)>)
        requires
            self@.wf(),
        ensures
            opt_pos(r) == motion_target(self@.lines, self@.row, self@.col, m),
            r matches Some((rr, cc)) ==> rr < self@.lines.len() && cc <= self@.lines[rr as int].len(),
    {
        match m {
            crate::vim::EditOp::MoveForward => {
                if self.col < self.lines[self.row].len() {
                    Some((self.row, self.col + 1))
                } else if self.row < self.lines.len() - 1 {
                    Some((self.row + 1, 0))
                } else {
                    None
                }
            },
            crate::vim::EditOp::MoveBack => {
                if self.col > 0 {
                    Some((self.row, self.col - 1))
                } else if self.row > 0 {
                    Some((self.row - 1, self.lines[self.row - 1].len()))
                } else {
                    None
                }
            },
            crate::vim::EditOp::MoveUp => {
                if self.row > 0 {
                    let l = self.lines[self.row - 1].len();
                    Some((self.row - 1, if self.col <= l { self.col } else { l }))
                } else {
                    None
                }
            },
            crate::vim::EditOp::MoveDown => {
                if self.row < self.lines.len() - 1 {
                    let l = self.lines[self.row + 1].len();
                    Some((self.row + 1, if self.col <= l { self.col } else { l }))
                } else {
                    None
                }
            },
            crate::vim::EditOp::MoveHead => Some((self.row, 0)),
            crate::vim::EditOp::MoveEnd => Some((self.row, self.lines[self.row].len())),
            crate::vim::EditOp::MoveTop => {
                let l = self.lines[0].len();
                Some((0, if self.col <= l { self.col } else { l }))
            },
            crate::vim::EditOp::MoveBottom => {
                let r = self.lines.len() - 1;
                let l = self.lines[r].len();
                Some((r, if self.col <= l { self.col } else { l }))
            },
            crate::vim::EditOp::MoveWordForward => {
                match word_start_fwd(&self.lines[self.row], self.col) {
                    Some(c) => Some((self.row, c)),
                    None => {
                        if self.row < self.lines.len() - 1 {
                            Some((self.row + 1, 0))
                        } else {
                            Some((self.row, self.lines[self.row].len()))
                        }
                    },
                }
            },
            crate::vim::EditOp::MoveWordEnd => {
                let line = &self.lines[self.row];
                let first = if self.col < line.len() {
                    word_incl_end_fwd(line, self.col + 1)
                } else {
                    assert(find_word_incl_end_forward(line@, self@.col + 1) is None);
                    None
                };
                match first {
                    Some(c) => Some((self.row, c)),
                    None => {
                        let mut r = self.row;
                        assert(motion_target(self@.lines, self@.row, self@.col, m) == Some(
                            word_end_rows(self@.lines, r as int),
                        ));
                        loop
                            invariant
                                self@.wf(),
                                self@.row <= r < self@.lines.len(),
                                motion_target(self@.lines, self@.row, self@.col, m) == Some(
                                    word_end_rows(self@.lines, r as int),
                                ),
                            decreases self@.lines.len() - r,
                        {
                            if r == self.lines.len() - 1 {
                                return Some((r, self.lines[r].len()));
                            }
                            r += 1;
                            match word_incl_end_fwd(&self.lines[r], 0) {
                                Some(c) => {
                                    return Some((r, c));
                                },
                                None => {},
                            }
                        }
                    },
                }
            },
            crate::vim::EditOp::MoveWordBack => {
                match word_start_back(&self.lines[self.row], self.col) {
                    Some(c) => Some((self.row, c)),
                    None => {
                        if self.row > 0 {
                            Some((self.row - 1, self.lines[self.row - 1].len()))
                        } else {
                            Some((self.row, 0))
                        }
                    },
                }
            },
            _ => None,
        }
    }

    /// Apply a motion; an active selection is kept.
    fn do_move(&mut self, m: crate::vim::EditOp)
        requires
            old(self)@.wf(),
        ensures
            final(self)@ == bv_move(old(self)@, m),
            final(self)@.wf(),
    {
        match self.motion_pos(m) {
            Some((r, c)) => {
                self.row = r;
                self.col = c;
            },
            None => {},
        }
    }
}

impl TextBuffer {
    /// Replace line `i`.
    fn set_line(&mut self, i: usize, nl: Vec<char>)
        requires
            i < old(self)@.lines.len(),
        ensures
            final(self)@ == (BufView {
                lines: old(self)@.lines.update(i as int, nl@),
                ..old(self)@
            }),
    {
        let ghost target = old(self)@.lines.update(i as int, nl@);
        let _removed = self.lines.remove(i);
        self.lines.insert(i, nl);
        proof {
            assert(lv(self.lines@) =~~= target);
        }
    }

    /// The ordered selection span, if the selection is active and non-empty.
    fn sel_span(&self) -> (r: Option<(usize, usize, usize, usize)>)
        ensures
            match r {
                Some((a, b, c, d)) => sel_range(self@) == Some(
                    ((a as int, b as int), (c as int, d as int)),
                ),
                None => sel_range(self@) is None,
            },
    {
        match self.select {
            None => None,
            Some((sr, sc)) => {
                if sr < self.row || (sr == self.row && sc < self.col) {
                    Some((sr, sc, self.row, self.col))
                } else if self.row < sr || (self.row == sr && self.col < sc) {
                    Some((self.row, self.col, sr, sc))
                } else {
                    None
                }
            },
        }
    }

    /// The text of the span `[s, e)` as pieces.
    fn extract_span(&self, sr: usize, sc: usize, er: usize, ec: usize) -> (r: Vec<Vec<char>>)
        requires
            lex_lt((sr as int, sc as int), (er as int, ec as int)),
            er < self@.lines.len(),
            sc <= self@.lines[sr as int].len(),
            ec <= self@.lines[er as int].len(),
        ensures
            lv(r@) == extract(self@.lines, (sr as int, sc as int), (er as int, ec as int)),
            r@.len() >= 1,
    {
        let mut out: Vec<Vec<char>> = Vec::new();
        if sr == er {
            out.push(subline(&self.lines[sr], sc, ec));
            proof {
                assert(lv(out@) =~~= extract(
                    self@.lines,
                    (sr as int, sc as int),
                    (er as int, ec as int),
                ));
            }
        } else {
            out.push(subline(&self.lines[sr], sc, self.lines[sr].len()));
            let mut i = sr + 1;
            while i < er
                invariant
                    sr < er < self@.lines.len(),
                    sr + 1 <= i <= er,
                    sc <= self@.lines[sr as int].len(),
                    out@.len() == i - sr,
                    out@[0]@ == self@.lines[sr as int].subrange(
                        sc as int,
                        self@.lines[sr as int].len() as int,
                    ),
                    forall|j: int|
                        1 <= j < out@.len() ==> #[trigger] out@[j]@ == self@.lines[sr + j],
                decreases er - i,
            {
                out.push(copy_line(&self.lines[i]));
                i += 1;
            }
            out.push(subline(&self.lines[er], 0, ec));
            proof {
                assert(lv(out@) =~~= extract(
                    self@.lines,
                    (sr as int, sc as int),
                    (er as int, ec as int),
                ));
            }
        }
        out
    }

    /// Delete the span `[s, e)`, recording one edit; the removed text
    /// replaces the yank register when `should_yank` holds.
    fn delete_span(&mut self, sr: usize, sc: usize, er: usize, ec: usize, should_yank: bool)
        requires
            old(self)@.wf(),
            old(self)@.select is None,
            lex_lt((sr as int, sc as int), (er as int, ec as int)),
            er < old(self)@.lines.len(),
            sc <= old(self)@.lines[sr as int].len(),
            ec <= old(self)@.lines[er as int].len(),
        ensures
            final(self)@ == bv_delete_range(
                old(self)@,
                (sr as int, sc as int),
                (er as int, ec as int),
                should_yank,
            ),
            final(self)@.wf(),
    {
        let ghost orig = self@;
        if should_yank {
            let y = self.extract_span(sr, sc, er, ec);
            self.yank = y;
        }
        self.push_undo();
        let ghost mid = self@;
        if sr == er {
            let line = self.lines.remove(sr);
            let mut nl = subline(&line, 0, sc);
            extend_from(&mut nl, &line, ec, line.len());
            self.lines.insert(sr, nl);
            self.row = sr;
            self.col = sc;
            proof {
                assert(lv(self.lines@) =~~= remove_range(
                    orig.lines,
                    (sr as int, sc as int),
                    (er as int, ec as int),
                ));
            }
        } else {
            let ghost a = self.lines@;
            let ghost keep = self@;
            let lastline = self.lines.remove(er);
            let mut k = er - sr - 1;
            while k > 0
                invariant
                    sr < er < a.len(),
                    k <= er - sr - 1,
                    self.lines@ =~= a.subrange(0, sr + 1) + a.subrange(
                        er - k,
                        er as int,
                    ) + a.subrange(er + 1, a.len() as int),
                    self@.row == keep.row,
                    self@.col == keep.col,
                    self@.select == keep.select,
                    self@.yank == keep.yank,
                    self@.undo == keep.undo,
                    self@.redo == keep.redo,
                    self@.scroll == keep.scroll,
                    self@.height == keep.height,
                decreases k,
            {
                let _ = self.lines.remove(sr + 1);
                k -= 1;
                proof {
                    assert(self.lines@ =~= a.subrange(0, sr + 1) + a.subrange(
                        er - k,
                        er as int,
                    ) + a.subrange(er + 1, a.len() as int));
                }
            }
            let firstline = self.lines.remove(sr);
            let mut nl = subline(&firstline, 0, sc);
            extend_from(&mut nl, &lastline, ec, lastline.len());
            self.lines.insert(sr, nl);
            self.row = sr;
            self.col = sc;
            proof {
                assert(firstline@ == orig.lines[sr as int]);
                assert(lastline@ == orig.lines[er as int]);
                assert(lv(self.lines@) =~~= remove_range(
                    orig.lines,
                    (sr as int, sc as int),
                    (er as int, ec as int),
                ));
            }
        }
        proof {
            let target = bv_delete_range(
                orig,
                (sr as int, sc as int),
                (er as int, ec as int),
                should_yank,
            );
            if should_yank {
                assert(self@.yank =~~= extract(
                    orig.lines,
                    (sr as int, sc as int),
                    (er as int, ec as int),
                ));
            }
            assert(self@.lines == target.lines);
            assert(self@.row == target.row && self@.col == target.col);
            assert(self@.select == target.select);
            assert(self@.yank == target.yank);
            assert(self@.undo =~= target.undo);
            assert(self@.redo =~= target.redo);
            assert(self@ == target);
            assert forall|i: int| 0 <= i < self@.undo.len() implies snap_wf(
                #[trigger] self@.undo[i],
            ) by {
                if i < self@.undo.len() - 1 {
                    assert(snap_wf(orig.undo[i]));
                }
            }
            assert(self@.wf());
        }
    }

    /// Delete the selection without yanking; the selection is cancelled
    /// even when it is empty. Reports whether text was removed.
    fn del_sel(&mut self) -> (deleted: bool)
        requires
            old(self)@.wf(),
        ensures
            final(self)@ == bv_del_sel(old(self)@),
            deleted == (sel_range(old(self)@) is Some),
            final(self)@.wf(),
    {
        match self.sel_span() {
            Some((sr, sc, er, ec)) => {
                self.select = None;
                self.delete_span(sr, sc, er, ec, false);
                true
            },
            None => {
                self.select = None;
                false
            },
        }
    }

    /// Cut the selection into the yank register.
    fn cut_op(&mut self)
        requires
            old(self)@.wf(),
        ensures
            final(self)@ == bv_cut(old(self)@),
            final(self)@.wf(),
    {
        match self.sel_span() {
            Some((sr, sc, er, ec)) => {
                self.select = None;
                self.delete_span(sr, sc, er, ec, true);
            },
            None => {
                self.select = None;
            },
        }
    }

    /// Copy the selection into the yank register without deleting it.
    fn copy_op(&mut self)
        requires
            old(self)@.wf(),
        ensures
            final(self)@ == bv_copy(old(self)@),
            final(self)@.wf(),
    {
        match self.sel_span() {
            Some((sr, sc, er, ec)) => {
                let y = self.extract_span(sr, sc, er, ec);
                self.yank = y;
                self.select = None;
            },
            None => {
                self.select = None;
            },
        }
    }

    /// Split the current line at the cursor.
    fn insert_newline_op(&mut self)
        requires
            old(self)@.wf(),
        ensures
            final(self)@ == bv_insert_newline(old(self)@),
            final(self)@.wf(),
    {
        self.del_sel();
        let ghost b1 = self@;
        self.push_undo();
        let line = self.lines.remove(self.row);
        let head = subline(&line, 0, self.col);
        let tail = subline(&line, self.col, line.len());
        self.lines.insert(self.row, tail);
        self.lines.insert(self.row, head);
        let q = self.lines.len();
        proof {
            assert(self.row < q);
        }
        self.row = self.row + 1;
        self.col = 0;
        proof {
            assert(lv(self.lines@) =~~= bv_insert_newline(old(self)@).lines);
            assert(self@ == bv_insert_newline(old(self)@));
            assert forall|i: int| 0 <= i < self@.undo.len() implies snap_wf(
                #[trigger] self@.undo[i],
            ) by {
                if i < self@.undo.len() - 1 {
                    assert(snap_wf(b1.undo[i]));
                }
            }
            assert(self@.wf());
        }
    }

    /// Insert one character at the cursor.
    fn insert_char_op(&mut self, c: char)
        requires
            old(self)@.wf(),
        ensures
            final(self)@ == bv_insert_char(old(self)@, c),
            final(self)@.wf(),
    {
        if c == '\n' || c == '\r' {
            self.insert_newline_op();
            return;
        }
        self.del_sel();
        let ghost b1 = self@;
        self.push_undo();
        let mut line = self.lines.remove(self.row);
        line.insert(self.col, c);
        let q = line.len();
        proof {
            assert(self.col < q);
        }
        self.lines.insert(self.row, line);
        self.col = self.col + 1;
        proof {
            assert(lv(self.lines@) =~~= bv_insert_char(old(self)@, c).lines);
            assert(self@ == bv_insert_char(old(self)@, c));
            assert forall|i: int| 0 <= i < self@.undo.len() implies snap_wf(
                #[trigger] self@.undo[i],
            ) by {
                if i < self@.undo.len() - 1 {
                    assert(snap_wf(b1.undo[i]));
                }
            }
            assert(self@.wf());
        }
    }

    /// Join the cursor line onto the line above.
    fn delete_newline_op(&mut self)
        requires
            old(self)@.wf(),
        ensures
            final(self)@ == bv_delete_newline(old(self)@),
            final(self)@.wf(),
    {
        let deleted = self.del_sel();
        if deleted {
            return;
        }
        if self.row == 0 {
            return;
        }
        let ghost b1 = self@;
        self.push_undo();
        let line = self.lines.remove(self.row);
        let mut prev = self.lines.remove(self.row - 1);
        self.row = self.row - 1;
        self.col = prev.len();
        let mut moved = line;
        prev.append(&mut moved);
        self.lines.insert(self.row, prev);
        proof {
            assert(lv(self.lines@) =~~= bv_delete_newline(old(self)@).lines);
            assert(self@ == bv_delete_newline(old(self)@));
            assert forall|i: int| 0 <= i < self@.undo.len() implies snap_wf(
                #[trigger] self@.undo[i],
            ) by {
                if i < self@.undo.len() - 1 {
                    assert(snap_wf(b1.undo[i]));
                }
            }
            assert(self@.wf());
        }
    }

    /// Delete the character before the cursor.
    fn delete_char_op(&mut self)
        requires
            old(self)@.wf(),
        ensures
            final(self)@ == bv_delete_char(old(self)@),
            final(self)@.wf(),
    {
        let deleted = self.del_sel();
        if deleted {
            return;
        }
        if self.col == 0 {
            self.delete_newline_op();
            return;
        }
        let ghost b1 = self@;
        self.push_undo();
        let mut line = self.lines.remove(self.row);
        let _ = line.remove(self.col - 1);
        self.lines.insert(self.row, line);
        self.col = self.col - 1;
        proof {
            assert(lv(self.lines@) =~~= bv_delete_char(old(self)@).lines);
            assert(self@ == bv_delete_char(old(self)@));
            assert forall|i: int| 0 <= i < self@.undo.len() implies snap_wf(
                #[trigger] self@.undo[i],
            ) by {
                if i < self@.undo.len() - 1 {
                    assert(snap_wf(b1.undo[i]));
                }
            }
            assert(self@.wf());
        }
    }

    /// Delete the character under the cursor; at a line end, join the next
    /// line on.
    fn delete_next_char_op(&mut self)
        requires
            old(self)@.wf(),
        ensures
            final(self)@ == bv_delete_next_char(old(self)@),
            final(self)@.wf(),
    {
        let deleted = self.del_sel();
        if deleted {
            return;
        }
        let ghost b1 = self@;
        if self.col < self.lines[self.row].len() {
            self.push_undo();
            let mut line = self.lines.remove(self.row);
            let _ = line.remove(self.col);
            self.lines.insert(self.row, line);
            proof {
                assert(lv(self.lines@) =~~= bv_delete_next_char(old(self)@).lines);
                assert(self@ == bv_delete_next_char(old(self)@));
                assert forall|i: int| 0 <= i < self@.undo.len() implies snap_wf(
                    #[trigger] self@.undo[i],
                ) by {
                    if i < self@.undo.len() - 1 {
                        assert(snap_wf(b1.undo[i]));
                    }
                }
                assert(self@.wf());
            }
        } else if self.row < self.lines.len() - 1 {
            self.push_undo();
            let next = self.lines.remove(self.row + 1);
            let mut line = self.lines.remove(self.row);
            let mut moved = next;
            line.append(&mut moved);
            self.lines.insert(self.row, line);
            proof {
                assert(lv(self.lines@) =~~= bv_delete_next_char(old(self)@).lines);
                assert(self@ == bv_delete_next_char(old(self)@));
                assert forall|i: int| 0 <= i < self@.undo.len() implies snap_wf(
                    #[trigger] self@.undo[i],
                ) by {
                    if i < self@.undo.len() - 1 {
                        assert(snap_wf(b1.undo[i]));
                    }
                }
                assert(self@.wf());
            }
        }
    }

    /// Delete from the cursor to the end of the line into the yank register.
    fn delete_line_by_end_op(&mut self)
        requires
            old(self)@.wf(),
        ensures
            final(self)@ == bv_delete_line_by_end(old(self)@),
            final(self)@.wf(),
    {
        let deleted = self.del_sel();
        if deleted {
            return;
        }
        let ghost b1 = self@;
        if self.col < self.lines[self.row].len() {
            let removed = subline(&self.lines[self.row], self.col, self.lines[self.row].len());
            let mut y: Vec<Vec<char>> = Vec::new();
            y.push(removed);
            self.yank = y;
            self.push_undo();
            let line = self.lines.remove(self.row);
            let nl = subline(&line, 0, self.col);
            self.lines.insert(self.row, nl);
            proof {
                assert(self@.yank =~~= bv_delete_line_by_end(old(self)@).yank);
                assert(lv(self.lines@) =~~= bv_delete_line_by_end(old(self)@).lines);
                assert(self@ == bv_delete_line_by_end(old(self)@));
                assert forall|i: int| 0 <= i < self@.undo.len() implies snap_wf(
                    #[trigger] self@.undo[i],
                ) by {
                    if i < self@.undo.len() - 1 {
                        assert(snap_wf(b1.undo[i]));
                    }
                }
                assert(self@.wf());
            }
        } else {
            self.delete_next_char_op();
        }
    }

    /// Delete from the line head to the cursor into the yank register.
    fn delete_line_by_head_op(&mut self)
        requires
            old(self)@.wf(),
        ensures
            final(self)@ == bv_delete_line_by_head(old(self)@),
            final(self)@.wf(),
    {
        let deleted = self.del_sel();
        if deleted {
            return;
        }
        let ghost b1 = self@;
        if self.col > 0 {
            let removed = subline(&self.lines[self.row], 0, self.col);
            let mut y: Vec<Vec<char>> = Vec::new();
            y.push(removed);
            self.yank = y;
            self.push_undo();
            let line = self.lines.remove(self.row);
            let nl = subline(&line, self.col, line.len());
            self.lines.insert(self.row, nl);
            self.col = 0;
            proof {
                assert(self@.yank =~~= bv_delete_line_by_head(old(self)@).yank);
                assert(lv(self.lines@) =~~= bv_delete_line_by_head(old(self)@).lines);
                assert(self@ == bv_delete_line_by_head(old(self)@));
                assert forall|i: int| 0 <= i < self@.undo.len() implies snap_wf(
                    #[trigger] self@.undo[i],
                ) by {
                    if i < self@.undo.len() - 1 {
                        assert(snap_wf(b1.undo[i]));
                    }
                }
                assert(self@.wf());
            }
        } else {
            self.delete_newline_op();
        }
    }

    /// Insert the yank register at the cursor.
    fn paste_op(&mut self)
        requires
            old(self)@.wf(),
        ensures
            final(self)@ == bv_paste(old(self)@),
            final(self)@.wf(),
    {
        self.del_sel();
        let ghost b1 = self@;
        if self.yank.len() == 1 {
            if self.yank[0].len() == 0 {
                return;
            }
            self.push_undo();
            let line = self.lines.remove(self.row);
            let mut nl = subline(&line, 0, self.col);
            extend_from(&mut nl, &self.yank[0], 0, self.yank[0].len());
            let newcol = nl.len();
            extend_from(&mut nl, &line, self.col, line.len());
            self.lines.insert(self.row, nl);
            self.col = newcol;
            proof {
                assert(lv(self.lines@) =~~= bv_paste(old(self)@).lines);
                assert(self@ == bv_paste(old(self)@));
                assert forall|i: int| 0 <= i < self@.undo.len() implies snap_wf(
                    #[trigger] self@.undo[i],
                ) by {
                    if i < self@.undo.len() - 1 {
                        assert(snap_wf(b1.undo[i]));
                    }
                }
                assert(self@.wf());
            }
        } else {
            self.push_undo();
            let k = self.yank.len();
            let row = self.row;
            let col = self.col;
            let ghost g = lv(self.lines@);
            let ghost y = lv(self.yank@);
            let ghost n = g.len();
            let mut first = subline(&self.lines[row], 0, col);
            extend_from(&mut first, &self.yank[0], 0, self.yank[0].len());
            let mut last = copy_line(&self.yank[k - 1]);
            let newcol = last.len();
            extend_from(&mut last, &self.lines[row], col, self.lines[row].len());
            let ghost firstv = first@;
            let ghost lastv = last@;
            let mut out: Vec<Vec<char>> = Vec::new();
            let mut j: usize = 0;
            while j < row
                invariant
                    j <= row < n,
                    n == g.len(),
                    g == lv(self.lines@),
                    out@.len() == j,
                    forall|t: int| 0 <= t < j ==> #[trigger] out@[t]@ == g[t],
                decreases row - j,
            {
                out.push(copy_line(&self.lines[j]));
                j += 1;
            }
            out.push(first);
            let mut i: usize = 1;
            while i < k - 1
                invariant
                    1 <= i <= k - 1,
                    row < n == g.len(),
                    k == y.len(),
                    y == lv(self.yank@),
                    self.yank@.len() == k,
                    out@.len() == row + i,
                    forall|t: int| 0 <= t < row ==> #[trigger] out@[t]@ == g[t],
                    out@[row as int]@ == firstv,
                    forall|t: int| 1 <= t < i ==> #[trigger] out@[row + t]@ == y[t],
                decreases k - i,
            {
                out.push(copy_line(&self.yank[i]));
                i += 1;
            }
            out.push(last);
            let nn = self.lines.len();
            proof {
                assert(row < nn);
            }
            let mut j2: usize = row + 1;
            while j2 < self.lines.len()
                invariant
                    row + 1 <= j2 <= n,
                    row < n == g.len(),
                    2 <= k,
                    g == lv(self.lines@),
                    self.lines@.len() == n,
                    out@.len() == k + j2 - 1,
                    forall|t: int| 0 <= t < row ==> #[trigger] out@[t]@ == g[t],
                    out@[row as int]@ == firstv,
                    forall|t: int| 1 <= t < k - 1 ==> #[trigger] out@[row + t]@ == y[t],
                    out@[row + k - 1]@ == lastv,
                    forall|t: int|
                        row + k <= t < out@.len() ==> #[trigger] out@[t]@ == g[t - k + 1],
                decreases n - j2,
            {
                out.push(copy_line(&self.lines[j2]));
                j2 += 1;
            }
            let ghost outv = out@;
            self.lines = out;
            let q = self.lines.len();
            proof {
                assert(self.lines@ == outv);
                assert(q == n + k - 1);
            }
            self.row = row + (k - 1);
            self.col = newcol;
            proof {
                assert(self.lines@ == outv);
                let target = bv_paste(old(self)@);
                assert forall|t: int| 0 <= t < lv(self.lines@).len() implies lv(self.lines@)[t]
                    == target.lines[t] by {
                    if t < row {
                        assert(outv[t]@ == g[t]);
                    } else if t == row {
                        assert(outv[row as int]@ == firstv);
                    } else if t < row + k - 1 {
                        let t0 = t - row;
                        assert(outv[row + t0]@ == y[t0]);
                    } else if t == row + k - 1 {
                        assert(outv[row + k - 1]@ == lastv);
                    } else {
                        assert(outv[t]@ == g[t - k + 1]);
                    }
                }
                assert(lv(self.lines@) =~= target.lines);
                assert(self@ == target);
                assert forall|i2: int| 0 <= i2 < self@.undo.len() implies snap_wf(
                    #[trigger] self@.undo[i2],
                ) by {
                    if i2 < self@.undo.len() - 1 {
                        assert(snap_wf(b1.undo[i2]));
                    }
                }
                assert(self@.wf());
            }
        }
    }

    /// Undo the most recent edit.
    fn undo_op(&mut self)
        requires
            old(self)@.wf(),
        ensures
            final(self)@ == bv_undo(old(self)@),
            final(self)@.wf(),
    {
        match self.undo.pop() {
            None => {
                proof {
                    assert(self@ == bv_undo(old(self)@));
                }
            },
            Some(s) => {
                let now = Snapshot {
                    lines: copy_lines(&self.lines),
                    row: self.row,
                    col: self.col,
                };
                proof {
                    assert(now@ == snap_of(old(self)@));
                    assert(s@ == old(self)@.undo.last());
                    assert(snap_wf(s@));
                }
                self.redo.push(now);
                let Snapshot { lines, row, col } = s;
                self.lines = lines;
                self.row = row;
                self.col = col;
                self.select = None;
                proof {
                    assert(self@.undo =~= old(self)@.undo.drop_last());
                    assert(self@.redo =~= old(self)@.redo.push(snap_of(old(self)@)));
                    assert(self@ == bv_undo(old(self)@));
                    assert forall|i: int| 0 <= i < self@.undo.len() implies snap_wf(
                        #[trigger] self@.undo[i],
                    ) by {
                        assert(snap_wf(old(self)@.undo[i]));
                    }
                    assert forall|i: int| 0 <= i < self@.redo.len() implies snap_wf(
                        #[trigger] self@.redo[i],
                    ) by {
                        if i < self@.redo.len() - 1 {
                            assert(snap_wf(old(self)@.redo[i]));
                        }
                    }
                    assert(self@.wf());
                }
            },
        }
    }

    /// Redo the most recently undone edit.
    fn redo_op(&mut self)
        requires
            old(self)@.wf(),
        ensures
            final(self)@ == bv_redo(old(self)@),
            final(self)@.wf(),
    {
        match self.redo.pop() {
            None => {
                proof {
                    assert(self@ == bv_redo(old(self)@));
                }
            },
            Some(s) => {
                let now = Snapshot {
                    lines: copy_lines(&self.lines),
                    row: self.row,
                    col: self.col,
                };
                proof {
                    assert(now@ == snap_of(old(self)@));
                    assert(s@ == old(self)@.redo.last());
                    assert(snap_wf(s@));
                }
                self.undo.push(now);
                let Snapshot { lines, row, col } = s;
                self.lines = lines;
                self.row = row;
                self.col = col;
                self.select = None;
                proof {
                    assert(self@.redo =~= old(self)@.redo.drop_last());
                    assert(self@.undo =~= old(self)@.undo.push(snap_of(old(self)@)));
                    assert(self@ == bv_redo(old(self)@));
                    assert forall|i: int| 0 <= i < self@.redo.len() implies snap_wf(
                        #[trigger] self@.redo[i],
                    ) by {
                        assert(snap_wf(old(self)@.redo[i]));
                    }
                    assert forall|i: int| 0 <= i < self@.undo.len() implies snap_wf(
                        #[trigger] self@.undo[i],
                    ) by {
                        if i < self@.undo.len() - 1 {
                            assert(snap_wf(old(self)@.undo[i]));
                        }
                    }
                    assert(self@.wf());
                }
            },
        }
    }

    /// Linewise selection for `dd`/`yy`/`cc`.
    fn select_line_op(&mut self)
        requires
            old(self)@.wf(),
        ensures
            final(self)@ == bv_select_line(old(self)@),
            final(self)@.wf(),
    {
        self.do_move(crate::vim::EditOp::MoveHead);
        self.select = Some((self.row, self.col));
        let ghost b2 = self@;
        let before = (self.row, self.col);
        self.do_move(crate::vim::EditOp::MoveDown);
        if self.row == before.0 {
            self.do_move(crate::vim::EditOp::MoveEnd);
        }
    }

    /// Apply a motion, cancelling the selection when the cursor moves
    /// (the native insert-mode arrow behaviour).
    fn move_plain(&mut self, m: crate::vim::EditOp)
        requires
            old(self)@.wf(),
        ensures
            final(self)@ == bv_move_plain(old(self)@, m),
            final(self)@.wf(),
    {
        match self.motion_pos(m) {
            Some((r, c)) => {
                self.row = r;
                self.col = c;
                self.select = None;
            },
            None => {},
        }
    }

    /// Scroll the viewport down `amt` rows, clamped to the text.
    fn scroll_down(&mut self, amt: usize)
        requires
            old(self)@.wf(),
        ensures
            final(self)@ == bv_scroll(old(self)@, amt as int),
            final(self)@.wf(),
    {
        let hi = self.lines.len() - 1;
        if self.scroll >= hi || amt >= hi - self.scroll {
            self.scroll = hi;
        } else {
            self.scroll = self.scroll + amt;
        }
    }

    /// Scroll the viewport up `amt` rows, clamped to the text.
    fn scroll_up(&mut self, amt: usize)
        requires
            old(self)@.wf(),
        ensures
            final(self)@ == bv_scroll(old(self)@, -(amt as int)),
            final(self)@.wf(),
    {
        let s1 = if amt >= self.scroll {
            0
        } else {
            self.scroll - amt
        };
        let hi = self.lines.len() - 1;
        self.scroll = if s1 > hi {
            hi
        } else {
            s1
        };
    }

    /// The buffer's native handling of one verbatim insert-mode input.
    fn forward_op(&mut self, input: crate::keys::Input)
        requires
            old(self)@.wf(),
        ensures
            final(self)@ == bv_forward(old(self)@, input),
            final(self)@.wf(),
    {
        let k = input.key;
        let ctrl = input.ctrl;
        if k == crate::keys::Key::Enter || (k == crate::keys::Key::Char('m') && ctrl) {
            self.insert_newline_op();
            return;
        }
        let copt: Option<char> = match k {
            crate::keys::Key::Char(c) => Some(c),
            _ => None,
        };
        match copt {
            Some(c) if !ctrl => {
                self.insert_char_op(c);
            },
            _ => {
                if (k == crate::keys::Key::Char('h') && ctrl) || (k == crate::keys::Key::Backspace
                    && !ctrl) {
                    self.delete_char_op();
                } else if (k == crate::keys::Key::Char('d') && ctrl) || (k
                    == crate::keys::Key::Delete && !ctrl) {
                    self.delete_next_char_op();
                } else if k == crate::keys::Key::Char('k') && ctrl {
                    self.delete_line_by_end_op();
                } else if k == crate::keys::Key::Char('j') && ctrl {
                    self.delete_line_by_head_op();
                } else if (k == crate::keys::Key::Char('n') && ctrl) || (k == crate::keys::Key::Down
                    && !ctrl) {
                    self.move_plain(crate::vim::EditOp::MoveDown);
                } else if (k == crate::keys::Key::Char('p') && ctrl) || (k == crate::keys::Key::Up
                    && !ctrl) {
                    self.move_plain(crate::vim::EditOp::MoveUp);
                } else if (k == crate::keys::Key::Char('f') && ctrl) || (k
                    == crate::keys::Key::Right && !ctrl) {
                    self.move_plain(crate::vim::EditOp::MoveForward);
                } else if (k == crate::keys::Key::Char('b') && ctrl) || (k == crate::keys::Key::Left
                    && !ctrl) {
                    self.move_plain(crate::vim::EditOp::MoveBack);
                }
            },
        }
    }

    /// Perform one buffer operation against this buffer and the clipboard
    /// register: exactly what [`step_op`] specifies.
    pub fn apply(&mut self, op: crate::vim::EditOp, clip: &mut Register)
        requires
            old(self)@.wf(),
        ensures
            final(self)@ == step_op(old(self)@, old(clip)@, op).0,
            final(clip)@ == step_op(old(self)@, old(clip)@, op).1,
            final(self)@.wf(),
    {
        match op {
            crate::vim::EditOp::MoveBack
            | crate::vim::EditOp::MoveDown
            | crate::vim::EditOp::MoveUp
            | crate::vim::EditOp::MoveForward
            | crate::vim::EditOp::MoveWordForward
            | crate::vim::EditOp::MoveWordEnd
            | crate::vim::EditOp::MoveWordBack
            | crate::vim::EditOp::MoveHead
            | crate::vim::EditOp::MoveEnd
            | crate::vim::EditOp::MoveTop
            | crate::vim::EditOp::MoveBottom => self.do_move(op),
            crate::vim::EditOp::DeleteLineByEnd => self.delete_line_by_end_op(),
            crate::vim::EditOp::DeleteNextChar => self.delete_next_char_op(),
            crate::vim::EditOp::InsertNewline => self.insert_newline_op(),
            crate::vim::EditOp::Undo => self.undo_op(),
            crate::vim::EditOp::Redo => self.redo_op(),
            crate::vim::EditOp::Paste => self.paste_op(),
            crate::vim::EditOp::Cut => self.cut_op(),
            crate::vim::EditOp::Copy => self.copy_op(),
            crate::vim::EditOp::YankToClipboard => {
                let text = self.yank_text();
                clip.chars = text;
            },
            crate::vim::EditOp::StartSelection => {
                self.select = Some((self.row, self.col));
            },
            crate::vim::EditOp::CancelSelection => {
                self.select = None;
            },
            crate::vim::EditOp::SelectLine => self.select_line_op(),
            crate::vim::EditOp::ScrollDown => self.scroll_down(1),
            crate::vim::EditOp::ScrollUp => self.scroll_up(1),
            crate::vim::EditOp::ScrollHalfPageDown => {
                let amt = self.height / 2;
                self.scroll_down(amt);
            },
            crate::vim::EditOp::ScrollHalfPageUp => {
                let amt = self.height / 2;
                self.scroll_up(amt);
            },
            crate::vim::EditOp::ScrollPageDown => {
                let amt = self.height;
                self.scroll_down(amt);
            },
            crate::vim::EditOp::ScrollPageUp => {
                let amt = self.height;
                self.scroll_up(amt);
            },
            crate::vim::EditOp::ForwardInput(inp) => self.forward_op(inp),
        }
    }
}

/// Join pieces with newlines.
pub fn join_chars(pieces: &Vec<Vec<char>>) -> (r: Vec<char>)
    ensures
        r@ == join_pieces(lv(pieces@)),
{
    let r = join_from(pieces, 0);
    proof {
        assert(lv(pieces@).subrange(0, pieces@.len() as int) =~= lv(pieces@));
    }
    r
}

/// Join the pieces `pieces[i..]` with newlines.
fn join_from(pieces: &Vec<Vec<char>>, i: usize) -> (r: Vec<char>)
    requires
        i <= pieces@.len(),
    ensures
        r@ == join_pieces(lv(pieces@).subrange(i as int, pieces@.len() as int)),
    decreases pieces@.len() - i,
{
    let mut out: Vec<char> = Vec::new();
    if i >= pieces.len() {
        assert(lv(pieces@).subrange(i as int, pieces@.len() as int) =~= Seq::<Seq<char>>::empty());
        return out;
    }
    extend_from(&mut out, &pieces[i], 0, pieces[i].len());
    assert(out@ =~= pieces@[i as int]@);
    if i + 1 < pieces.len() {
        out.push('\n');
        let mut rest = join_from(pieces, i + 1);
        out.append(&mut rest);
        proof {
            let s = lv(pieces@).subrange(i as int, pieces@.len() as int);
            assert(s.len() >= 2);
            assert(s[0] == pieces@[i as int]@);
            assert(s.drop_first() =~= lv(pieces@).subrange(i + 1 as int, pieces@.len() as int));
            assert(out@ =~= s[0] + seq!['\n'] + join_pieces(s.drop_first()));
        }
    } else {
        proof {
            let s = lv(pieces@).subrange(i as int, pieces@.len() as int);
            assert(s.len() == 1);
            assert(out@ =~= s[0]);
        }
    }
    out
}

} // verus!
