//! The laws of the modal editor, proved once and for all inputs.
//!
//! Each proof function below states a behavioural guarantee of the state
//! machine over the same specification functions that
//! [`crate::vim::Vim::transition_buffer`] is proved against: [`run`] is one
//! key event applied to a buffer and the clipboard register, exactly as that
//! method performs it.

use vstd::prelude::*;

use crate::buffer::{
    BufView, bv_copy, bv_forward, bv_move, desel, extract, join_pieces, sel_range, step_op,
    step_ops,
};
use crate::keys::{Input, Key};
use crate::vim::{EditOp, Mode, Transition, pending_is_g, vim_step};

verus! {

/// One key event applied to buffer and clipboard: the resulting buffer,
/// clipboard text, and transition.
pub open spec fn run(mode: Mode, pending: Input, input: Input, b: BufView, clip: Seq<char>) -> (
    BufView,
    Seq<char>,
    Transition,
) {
    let s = vim_step(mode, pending, input);
    let r = step_ops(b, clip, s.0);
    (r.0, r.1, s.1)
}

/// Unfold one operation.
proof fn lemma_ops1(b: BufView, clip: Seq<char>, o1: EditOp)
    ensures
        step_ops(b, clip, seq![o1]) == step_op(b, clip, o1),
{
    assert(seq![o1].drop_first() =~= Seq::<EditOp>::empty());
    let r = step_op(b, clip, o1);
    assert(step_ops(r.0, r.1, Seq::<EditOp>::empty()) == (r.0, r.1));
}

/// Unfold two operations.
proof fn lemma_ops2(b: BufView, clip: Seq<char>, o1: EditOp, o2: EditOp)
    ensures
        step_ops(b, clip, seq![o1, o2]) == {
            let r = step_op(b, clip, o1);
            step_op(r.0, r.1, o2)
        },
{
    assert(seq![o1, o2].drop_first() =~= seq![o2]);
    let r = step_op(b, clip, o1);
    lemma_ops1(r.0, r.1, o2);
}

/// Unfold three operations.
proof fn lemma_ops3(b: BufView, clip: Seq<char>, o1: EditOp, o2: EditOp, o3: EditOp)
    ensures
        step_ops(b, clip, seq![o1, o2, o3]) == {
            let r = step_op(b, clip, o1);
            let r2 = step_op(r.0, r.1, o2);
            step_op(r2.0, r2.1, o3)
        },
{
    assert(seq![o1, o2, o3].drop_first() =~= seq![o2, o3]);
    let r = step_op(b, clip, o1);
    lemma_ops2(r.0, r.1, o2, o3);
}

/// In `Insert` mode, every input other than `Esc` and `Ctrl+c` keeps the
/// mode, performs exactly one buffer operation — forwarding the input
/// verbatim — and leaves the clipboard alone.
pub proof fn lemma_insert_forwards(
    pending: Input,
    input: Input,
    b: BufView,
    clip: Seq<char>,
)
    requires
        input.key != Key::Null,
        input.key != Key::Esc,
        !(input.key == Key::Char('c') && input.ctrl),
    ensures
        vim_step(Mode::Insert, pending, input).0 == seq![EditOp::ForwardInput(input)],
        run(Mode::Insert, pending, input, b, clip).2 == Transition::Mode(Mode::Insert),
        run(Mode::Insert, pending, input, b, clip).0 == bv_forward(b, input),
        run(Mode::Insert, pending, input, b, clip).1 == clip,
{
    lemma_ops1(b, clip, EditOp::ForwardInput(input));
}

/// `Esc` leaves `Insert` for `Normal` without touching the buffer, and
/// leaves `Visual` for `Normal` cancelling the selection and changing
/// nothing else.
pub proof fn lemma_escape(pending: Input, input: Input, b: BufView, clip: Seq<char>)
    requires
        input.key == Key::Esc,
    ensures
        run(Mode::Insert, pending, input, b, clip) == (b, clip, Transition::Mode(Mode::Normal)),
        run(Mode::Visual, pending, input, b, clip) == (
            desel(b),
            clip,
            Transition::Mode(Mode::Normal),
        ),
        run(Mode::Visual, pending, input, b, clip).0.select is None,
        run(Mode::Visual, pending, input, b, clip).0.lines == b.lines,
{
    assert(vim_step(Mode::Insert, pending, input).0 =~= Seq::<EditOp>::empty());
    lemma_ops1(b, clip, EditOp::CancelSelection);
    assert(vim_step(Mode::Visual, pending, input).0 =~= seq![EditOp::CancelSelection]);
}

/// Entering `Visual` with `v` and leaving it with `Esc` returns to `Normal`
/// with no residual selection, and neither text, cursor, yank register nor
/// clipboard have changed.
pub proof fn lemma_visual_escape_round_trip(
    pending: Input,
    pending2: Input,
    b: BufView,
    clip: Seq<char>,
)
    ensures
        ({
            let v = Input { key: Key::Char('v'), ctrl: false };
            let esc = Input { key: Key::Esc, ctrl: false };
            let r1 = run(Mode::Normal, pending, v, b, clip);
            let r2 = run(Mode::Visual, pending2, esc, r1.0, r1.1);
            &&& r1.2 == Transition::Mode(Mode::Visual)
            &&& r2.2 == Transition::Mode(Mode::Normal)
            &&& r2.0.select is None
            &&& r2.0.lines == b.lines
            &&& r2.0.row == b.row && r2.0.col == b.col
            &&& r2.0.yank == b.yank
            &&& r2.1 == clip
        }),
{
    let v = Input { key: Key::Char('v'), ctrl: false };
    let esc = Input { key: Key::Esc, ctrl: false };
    assert(vim_step(Mode::Normal, pending, v).0 =~= seq![EditOp::StartSelection]);
    lemma_ops1(b, clip, EditOp::StartSelection);
    let r1 = run(Mode::Normal, pending, v, b, clip);
    assert(vim_step(Mode::Visual, pending2, esc).0 =~= seq![EditOp::CancelSelection]);
    lemma_ops1(r1.0, r1.1, EditOp::CancelSelection);
}

/// The linewise delete `dd`: the first `d` in `Normal` starts a selection
/// and enters operator-pending; the second removes exactly one full line
/// when the cursor is not on the last line, and clears the line from head
/// to end when it is, returning to `Normal` both times. The removed text
/// lands in the yank register.
pub proof fn lemma_linewise_delete(
    pending: Input,
    pending2: Input,
    b: BufView,
    clip: Seq<char>,
)
    requires
        b.wf(),
    ensures
        ({
            let d = Input { key: Key::Char('d'), ctrl: false };
            let r1 = run(Mode::Normal, pending, d, b, clip);
            let r2 = run(Mode::Operator('d'), pending2, d, r1.0, r1.1);
            &&& r1.2 == Transition::Mode(Mode::Operator('d'))
            &&& r2.2 == Transition::Mode(Mode::Normal)
            &&& r2.0.row == b.row && r2.0.col == 0
            &&& r2.0.select is None
            &&& (if b.row < b.lines.len() - 1 {
                r2.0.lines == b.lines.remove(b.row) && r2.0.yank == seq![
                    b.lines[b.row],
                    Seq::<char>::empty(),
                ]
            } else {
                r2.0.lines == b.lines.update(b.row, Seq::<char>::empty())
            })
        }),
{
    let d = Input { key: Key::Char('d'), ctrl: false };
    assert(vim_step(Mode::Normal, pending, d).0 =~= seq![EditOp::StartSelection]);
    lemma_ops1(b, clip, EditOp::StartSelection);
    let r1 = run(Mode::Normal, pending, d, b, clip);
    let b1 = r1.0;
    assert(b1.select == Some((b.row, b.col)));
    assert(vim_step(Mode::Operator('d'), pending2, d).0 =~= seq![
        EditOp::SelectLine,
        EditOp::Cut,
    ]);
    lemma_ops2(b1, r1.1, EditOp::SelectLine, EditOp::Cut);
    let b2 = step_op(b1, r1.1, EditOp::SelectLine).0;
    assert(b2.select == Some((b.row, 0int)));
    if b.row < b.lines.len() - 1 {
        assert(b2.row == b.row + 1 && b2.col == 0);
        let b3 = step_op(b2, r1.1, EditOp::Cut).0;
        assert(sel_range(b2) == Some(((b.row, 0int), (b.row + 1, 0int))));
        assert(b3.lines =~~= b.lines.remove(b.row));
        assert(b3.yank =~~= seq![b.lines[b.row], Seq::<char>::empty()]);
    } else {
        assert(b2.row == b.row && b2.col == b.lines[b.row].len());
        let b3 = step_op(b2, r1.1, EditOp::Cut).0;
        if b.lines[b.row].len() == 0 {
            assert(sel_range(b2) is None);
            assert(b3.lines =~~= b.lines.update(b.row, Seq::<char>::empty()));
        } else {
            assert(sel_range(b2) == Some(
                ((b.row, 0int), (b.row, b.lines[b.row].len() as int)),
            ));
            assert(b3.lines =~~= b.lines.update(b.row, Seq::<char>::empty()));
        }
    }
}

/// In every mode the machine can reach outside insert — normal, visual,
/// or pending one of the operators `y`, `d`, `c` — a single plain `g`
/// with nothing matching pending completes no command: buffer and
/// clipboard are untouched and the key is handed back as pending.
pub proof fn lemma_single_g_goes_pending(
    mode: Mode,
    pending: Input,
    input: Input,
    b: BufView,
    clip: Seq<char>,
)
    requires
        mode == Mode::Normal || mode == Mode::Visual || mode == Mode::Operator('y') || mode
            == Mode::Operator('d') || mode == Mode::Operator('c'),
        input.key == Key::Char('g'),
        !input.ctrl,
        !pending_is_g(pending),
    ensures
        run(mode, pending, input, b, clip) == (b, clip, Transition::Pending(input)),
{
    assert(vim_step(mode, pending, input).0 =~= Seq::<EditOp>::empty());
}

/// A single `g` completes no command: it moves nothing, touches nothing,
/// and asks the host to keep it pending. A second `g` then moves the cursor
/// to the first line without changing the text.
pub proof fn lemma_go_top(pending: Input, input: Input, b: BufView, clip: Seq<char>)
    requires
        b.wf(),
        input.key == Key::Char('g'),
        !input.ctrl,
        !pending_is_g(pending),
    ensures
        run(Mode::Normal, pending, input, b, clip) == (b, clip, Transition::Pending(input)),
        ({
            let r2 = run(Mode::Normal, input, input, b, clip);
            &&& r2.2 == Transition::Nop
            &&& r2.0.lines == b.lines
            &&& r2.0.row == 0
            &&& r2.1 == clip
        }),
{
    assert(vim_step(Mode::Normal, pending, input).0 =~= Seq::<EditOp>::empty());
    assert(vim_step(Mode::Normal, input, input).0 =~= seq![EditOp::MoveTop]);
    lemma_ops1(b, clip, EditOp::MoveTop);
}

/// `y` in `Visual` mode: the selection is extended one position forward,
/// copied — without deleting it — into the buffer's yank register, the
/// clipboard register receives exactly that yanked text, and the editor
/// returns to `Normal` with the selection cancelled.
pub proof fn lemma_visual_yank(pending: Input, b: BufView, clip: Seq<char>)
    requires
        b.wf(),
    ensures
        ({
            let y = Input { key: Key::Char('y'), ctrl: false };
            let r = run(Mode::Visual, pending, y, b, clip);
            let b1 = bv_move(b, EditOp::MoveForward);
            &&& r.2 == Transition::Mode(Mode::Normal)
            &&& r.0.lines == b.lines
            &&& r.0.select is None
            &&& (match sel_range(b1) {
                Some((s, e)) => r.0.yank == extract(b.lines, s, e),
                None => r.0.yank == b.yank,
            })
            &&& r.1 == join_pieces(r.0.yank)
        }),
{
    let y = Input { key: Key::Char('y'), ctrl: false };
    assert(vim_step(Mode::Visual, pending, y).0 =~= seq![
        EditOp::MoveForward,
        EditOp::Copy,
        EditOp::YankToClipboard,
    ]);
    lemma_ops3(b, clip, EditOp::MoveForward, EditOp::Copy, EditOp::YankToClipboard);
    let b1 = bv_move(b, EditOp::MoveForward);
    let b2 = bv_copy(b1);
    assert(b1.lines == b.lines);
    assert(b2.lines == b.lines);
}

/// `p` after a linewise delete `dd` reinserts exactly the removed line at
/// the cursor: the buffer's text is restored.
pub proof fn lemma_paste_restores_delete(
    pending: Input,
    pending2: Input,
    pending3: Input,
    b: BufView,
    clip: Seq<char>,
)
    requires
        b.wf(),
        b.row < b.lines.len() - 1,
    ensures
        ({
            let d = Input { key: Key::Char('d'), ctrl: false };
            let p = Input { key: Key::Char('p'), ctrl: false };
            let r1 = run(Mode::Normal, pending, d, b, clip);
            let r2 = run(Mode::Operator('d'), pending2, d, r1.0, r1.1);
            let r3 = run(Mode::Normal, pending3, p, r2.0, r2.1);
            &&& r3.2 == Transition::Mode(Mode::Normal)
            &&& r3.0.lines == b.lines
        }),
{
    let d = Input { key: Key::Char('d'), ctrl: false };
    let p = Input { key: Key::Char('p'), ctrl: false };
    lemma_linewise_delete(pending, pending2, b, clip);
    let r1 = run(Mode::Normal, pending, d, b, clip);
    let r2 = run(Mode::Operator('d'), pending2, d, r1.0, r1.1);
    let b2 = r2.0;
    assert(b2.lines == b.lines.remove(b.row));
    assert(b2.yank == seq![b.lines[b.row], Seq::<char>::empty()]);
    assert(vim_step(Mode::Normal, pending3, p).0 =~= seq![EditOp::Paste]);
    lemma_ops1(b2, r2.1, EditOp::Paste);
    let b3 = step_op(b2, r2.1, EditOp::Paste).0;
    assert(b2.lines.len() == b.lines.len() - 1);
    assert(b2.row < b2.lines.len());
    assert(b3.lines =~~= b.lines);
}

/// `p` after `dd` on the buffer's last, non-empty line reinserts exactly
/// the cleared text: the buffer is restored. (On an empty last line the
/// delete removes nothing, so there is nothing for the paste to restore.)
pub proof fn lemma_paste_restores_last_line_delete(
    pending: Input,
    pending2: Input,
    pending3: Input,
    b: BufView,
    clip: Seq<char>,
)
    requires
        b.wf(),
        b.row == b.lines.len() - 1,
        b.lines[b.row].len() > 0,
    ensures
        ({
            let d = Input { key: Key::Char('d'), ctrl: false };
            let p = Input { key: Key::Char('p'), ctrl: false };
            let r1 = run(Mode::Normal, pending, d, b, clip);
            let r2 = run(Mode::Operator('d'), pending2, d, r1.0, r1.1);
            let r3 = run(Mode::Normal, pending3, p, r2.0, r2.1);
            &&& r2.0.lines == b.lines.update(b.row, Seq::<char>::empty())
            &&& r3.2 == Transition::Mode(Mode::Normal)
            &&& r3.0.lines == b.lines
        }),
{
    let d = Input { key: Key::Char('d'), ctrl: false };
    let p = Input { key: Key::Char('p'), ctrl: false };
    assert(vim_step(Mode::Normal, pending, d).0 =~= seq![EditOp::StartSelection]);
    lemma_ops1(b, clip, EditOp::StartSelection);
    let r1 = run(Mode::Normal, pending, d, b, clip);
    let b1 = r1.0;
    assert(b1.select == Some((b.row, b.col)));
    assert(vim_step(Mode::Operator('d'), pending2, d).0 =~= seq![
        EditOp::SelectLine,
        EditOp::Cut,
    ]);
    lemma_ops2(b1, r1.1, EditOp::SelectLine, EditOp::Cut);
    let b2 = step_op(b1, r1.1, EditOp::SelectLine).0;
    assert(b2.select == Some((b.row, 0int)));
    assert(b2.row == b.row && b2.col == b.lines[b.row].len());
    let b3 = step_op(b2, r1.1, EditOp::Cut).0;
    assert(sel_range(b2) == Some(((b.row, 0int), (b.row, b.lines[b.row].len() as int))));
    assert(b3.lines =~~= b.lines.update(b.row, Seq::<char>::empty()));
    assert(b3.yank =~~= seq![b.lines[b.row]]);
    assert(b3.row == b.row && b3.col == 0);
    let r2 = run(Mode::Operator('d'), pending2, d, b1, r1.1);
    assert(r2.0 == b3);
    assert(vim_step(Mode::Normal, pending3, p).0 =~= seq![EditOp::Paste]);
    lemma_ops1(b3, r2.1, EditOp::Paste);
    let b4 = step_op(b3, r2.1, EditOp::Paste).0;
    assert(b3.yank.len() == 1 && b3.yank[0].len() > 0);
    assert(b3.lines[b.row] =~= Seq::<char>::empty());
    assert(b4.lines =~~= b.lines);
}

/// `p` after a linewise yank `yy` reinserts exactly the copied line below
/// its original place: the line is duplicated, and the clipboard holds the
/// copied line followed by its newline.
#[verifier::rlimit(50)]
pub proof fn lemma_paste_after_linewise_yank(
    pending: Input,
    pending2: Input,
    pending3: Input,
    b: BufView,
    clip: Seq<char>,
)
    requires
        b.wf(),
        b.row < b.lines.len() - 1,
    ensures
        ({
            let y = Input { key: Key::Char('y'), ctrl: false };
            let p = Input { key: Key::Char('p'), ctrl: false };
            let r1 = run(Mode::Normal, pending, y, b, clip);
            let r2 = run(Mode::Operator('y'), pending2, y, r1.0, r1.1);
            let r3 = run(Mode::Normal, pending3, p, r2.0, r2.1);
            &&& r1.2 == Transition::Mode(Mode::Operator('y'))
            &&& r2.2 == Transition::Mode(Mode::Normal)
            &&& r2.0.lines == b.lines
            &&& r2.1 == b.lines[b.row] + seq!['\n']
            &&& r3.2 == Transition::Mode(Mode::Normal)
            &&& r3.0.lines == b.lines.insert(b.row + 1, b.lines[b.row])
        }),
{
    let y = Input { key: Key::Char('y'), ctrl: false };
    let p = Input { key: Key::Char('p'), ctrl: false };
    assert(vim_step(Mode::Normal, pending, y).0 =~= seq![EditOp::StartSelection]);
    lemma_ops1(b, clip, EditOp::StartSelection);
    let r1 = run(Mode::Normal, pending, y, b, clip);
    let b1 = r1.0;
    assert(b1.select == Some((b.row, b.col)));
    assert(vim_step(Mode::Operator('y'), pending2, y).0 =~= seq![
        EditOp::SelectLine,
        EditOp::Copy,
        EditOp::YankToClipboard,
    ]);
    lemma_ops3(b1, r1.1, EditOp::SelectLine, EditOp::Copy, EditOp::YankToClipboard);
    let b2 = step_op(b1, r1.1, EditOp::SelectLine).0;
    assert(b2.select == Some((b.row, 0int)));
    assert(b2.row == b.row + 1 && b2.col == 0);
    let b3 = step_op(b2, r1.1, EditOp::Copy).0;
    assert(sel_range(b2) == Some(((b.row, 0int), (b.row + 1, 0int))));
    assert(b3.yank =~~= seq![b.lines[b.row], Seq::<char>::empty()]);
    assert(b3.lines == b.lines);
    assert(b3.row == b.row + 1 && b3.col == 0);
    let r2 = run(Mode::Operator('y'), pending2, y, b1, r1.1);
    assert(r2.0 == b3);
    assert(join_pieces(seq![b.lines[b.row], Seq::<char>::empty()]) =~= b.lines[b.row]
        + seq!['\n']) by {
        let ps = seq![b.lines[b.row], Seq::<char>::empty()];
        assert(ps.drop_first() =~= seq![Seq::<char>::empty()]);
        assert(join_pieces(ps.drop_first()) =~= Seq::<char>::empty());
        assert(join_pieces(ps) =~= ps[0] + seq!['\n'] + join_pieces(ps.drop_first()));
    }
    assert(vim_step(Mode::Normal, pending3, p).0 =~= seq![EditOp::Paste]);
    lemma_ops1(b3, r2.1, EditOp::Paste);
    let b4 = step_op(b3, r2.1, EditOp::Paste).0;
    assert(b3.yank.len() == 2);
    assert(b4.lines =~~= b.lines.insert(b.row + 1, b.lines[b.row]));
}

/// `p` after a linewise yank `yy` on the buffer's last, non-empty line
/// reinserts exactly the copied text at the cursor (the line end), doubling
/// the line in place; the clipboard receives the copied line.
pub proof fn lemma_paste_after_last_line_yank(
    pending: Input,
    pending2: Input,
    pending3: Input,
    b: BufView,
    clip: Seq<char>,
)
    requires
        b.wf(),
        b.row == b.lines.len() - 1,
        b.lines[b.row].len() > 0,
    ensures
        ({
            let y = Input { key: Key::Char('y'), ctrl: false };
            let p = Input { key: Key::Char('p'), ctrl: false };
            let r1 = run(Mode::Normal, pending, y, b, clip);
            let r2 = run(Mode::Operator('y'), pending2, y, r1.0, r1.1);
            let r3 = run(Mode::Normal, pending3, p, r2.0, r2.1);
            &&& r2.2 == Transition::Mode(Mode::Normal)
            &&& r2.0.lines == b.lines
            &&& r2.1 == b.lines[b.row]
            &&& r3.2 == Transition::Mode(Mode::Normal)
            &&& r3.0.lines == b.lines.update(b.row, b.lines[b.row] + b.lines[b.row])
        }),
{
    let y = Input { key: Key::Char('y'), ctrl: false };
    let p = Input { key: Key::Char('p'), ctrl: false };
    assert(vim_step(Mode::Normal, pending, y).0 =~= seq![EditOp::StartSelection]);
    lemma_ops1(b, clip, EditOp::StartSelection);
    let r1 = run(Mode::Normal, pending, y, b, clip);
    let b1 = r1.0;
    assert(b1.select == Some((b.row, b.col)));
    assert(vim_step(Mode::Operator('y'), pending2, y).0 =~= seq![
        EditOp::SelectLine,
        EditOp::Copy,
        EditOp::YankToClipboard,
    ]);
    lemma_ops3(b1, r1.1, EditOp::SelectLine, EditOp::Copy, EditOp::YankToClipboard);
    let b2 = step_op(b1, r1.1, EditOp::SelectLine).0;
    assert(b2.select == Some((b.row, 0int)));
    assert(b2.row == b.row && b2.col == b.lines[b.row].len());
    let b3 = step_op(b2, r1.1, EditOp::Copy).0;
    assert(sel_range(b2) == Some(((b.row, 0int), (b.row, b.lines[b.row].len() as int))));
    assert(b3.yank =~~= seq![b.lines[b.row]]);
    assert(b3.lines == b.lines);
    assert(b3.row == b.row && b3.col == b.lines[b.row].len());
    let r2 = run(Mode::Operator('y'), pending2, y, b1, r1.1);
    assert(r2.0 == b3);
    assert(join_pieces(seq![b.lines[b.row]]) == b.lines[b.row]);
    assert(vim_step(Mode::Normal, pending3, p).0 =~= seq![EditOp::Paste]);
    lemma_ops1(b3, r2.1, EditOp::Paste);
    let b4 = step_op(b3, r2.1, EditOp::Paste).0;
    assert(b3.yank.len() == 1 && b3.yank[0].len() > 0);
    proof_paste_doubles(b, b3, b4);
}

/// Close the last-line yank-paste equality.
proof fn proof_paste_doubles(b: BufView, b3: BufView, b4: BufView)
    requires
        b.wf(),
        b3.lines == b.lines,
        b3.row == b.row && b3.col == b.lines[b.row].len(),
        0 <= b.row < b.lines.len(),
        b3.select is None,
        b3.yank =~~= seq![b.lines[b.row]],
        b.lines[b.row].len() > 0,
        b4 == crate::buffer::bv_paste(b3),
    ensures
        b4.lines == b.lines.update(b.row, b.lines[b.row] + b.lines[b.row]),
{
    let line = b.lines[b.row];
    assert(crate::buffer::bv_del_sel(b3) == b3);
    assert(b4.lines == b3.lines.update(
        b3.row,
        line.subrange(0, b3.col as int) + b3.yank[0] + line.subrange(
            b3.col as int,
            line.len() as int,
        ),
    ));
    assert(line.subrange(0, line.len() as int) =~= line);
    assert(line.subrange(line.len() as int, line.len() as int) =~= Seq::<char>::empty());
    assert(line.subrange(0, line.len() as int) + b3.yank[0] + line.subrange(
        line.len() as int,
        line.len() as int,
    ) =~= line + line);
    assert(b4.lines =~~= b.lines.update(b.row, line + line));
}

/// `d` in visual mode followed by `p` restores the buffer: the cut span is
/// reinserted exactly where it was removed. (A selection that is still
/// empty after the forward adjustment cuts nothing, so there is nothing to
/// restore.)
pub proof fn lemma_paste_restores_visual_delete(
    pending: Input,
    pending2: Input,
    b: BufView,
    clip: Seq<char>,
)
    requires
        b.wf(),
        b.select is Some,
        sel_range(bv_move(b, EditOp::MoveForward)) is Some,
    ensures
        ({
            let d = Input { key: Key::Char('d'), ctrl: false };
            let p = Input { key: Key::Char('p'), ctrl: false };
            let r1 = run(Mode::Visual, pending, d, b, clip);
            let r2 = run(Mode::Normal, pending2, p, r1.0, r1.1);
            &&& r1.2 == Transition::Mode(Mode::Normal)
            &&& r1.0.select is None
            &&& r2.2 == Transition::Mode(Mode::Normal)
            &&& r2.0.lines == b.lines
        }),
{
    let d = Input { key: Key::Char('d'), ctrl: false };
    let p = Input { key: Key::Char('p'), ctrl: false };
    assert(vim_step(Mode::Visual, pending, d).0 =~= seq![EditOp::MoveForward, EditOp::Cut]);
    lemma_ops2(b, clip, EditOp::MoveForward, EditOp::Cut);
    let b1 = bv_move(b, EditOp::MoveForward);
    assert(b1.lines == b.lines);
    let span = sel_range(b1)->Some_0;
    let s = span.0;
    let e = span.1;
    let b2 = step_op(b1, clip, EditOp::Cut).0;
    assert(b2.lines == crate::buffer::remove_range(b.lines, s, e));
    assert(b2.yank == extract(b.lines, s, e));
    assert(b2.row == s.0 && b2.col == s.1);
    assert(b2.select is None);
    let r1 = run(Mode::Visual, pending, d, b, clip);
    assert(r1.0 == b2);
    assert(vim_step(Mode::Normal, pending2, p).0 =~= seq![EditOp::Paste]);
    lemma_ops1(b2, r1.1, EditOp::Paste);
    let b3 = step_op(b2, r1.1, EditOp::Paste).0;
    assert(crate::buffer::bv_del_sel(b2) == b2);
    lemma_splice_back(b.lines, s, e, b2, b3);
}

/// Pasting the extracted span at the point it was removed from rebuilds
/// the original text.
proof fn lemma_splice_back(
    lines: Seq<Seq<char>>,
    s: (int, int),
    e: (int, int),
    b2: BufView,
    b3: BufView,
)
    requires
        lines.len() >= 1,
        0 <= s.0 < lines.len(),
        0 <= e.0 < lines.len(),
        0 <= s.1 <= lines[s.0].len(),
        0 <= e.1 <= lines[e.0].len(),
        crate::buffer::lex_lt(s, e),
        b2.lines == crate::buffer::remove_range(lines, s, e),
        b2.yank == extract(lines, s, e),
        b2.row == s.0 && b2.col == s.1,
        b2.select is None,
        b3 == crate::buffer::bv_paste(b2),
    ensures
        b3.lines == lines,
{
    assert(crate::buffer::bv_del_sel(b2) == b2);
    if s.0 == e.0 {
        let line = lines[s.0];
        let piece = line.subrange(s.1, e.1);
        assert(b2.yank =~= seq![piece]);
        assert(piece.len() > 0);
        let merged = line.subrange(0, s.1) + line.subrange(e.1, line.len() as int);
        assert(b2.lines[s.0] == merged);
        assert(b3.lines == b2.lines.update(
            s.0,
            merged.subrange(0, s.1) + piece + merged.subrange(s.1, merged.len() as int),
        ));
        assert(merged.subrange(0, s.1) =~= line.subrange(0, s.1));
        assert(merged.subrange(s.1, merged.len() as int) =~= line.subrange(
            e.1,
            line.len() as int,
        ));
        assert(line.subrange(0, s.1) + piece + line.subrange(e.1, line.len() as int) =~= line);
        assert(b3.lines =~~= lines);
    } else {
        let n = lines.len() as int;
        let first_keep = lines[s.0].subrange(0, s.1);
        let last_keep = lines[e.0].subrange(e.1, lines[e.0].len() as int);
        let merged = first_keep + last_keep;
        let k = b2.yank.len() as int;
        assert(k == e.0 - s.0 + 1);
        assert(k >= 2);
        assert(b2.lines[s.0] == merged);
        assert(b2.lines.len() == n - (e.0 - s.0));
        let first = merged.subrange(0, s.1) + b2.yank[0];
        let last = b2.yank[k - 1] + merged.subrange(s.1, merged.len() as int);
        assert(b3.lines == b2.lines.subrange(0, s.0) + seq![first] + b2.yank.subrange(1, k - 1)
            + seq![last] + b2.lines.subrange(s.0 + 1, b2.lines.len() as int));
        assert(merged.subrange(0, s.1) =~= first_keep);
        assert(merged.subrange(s.1, merged.len() as int) =~= last_keep);
        assert(b2.yank[0] == lines[s.0].subrange(s.1, lines[s.0].len() as int));
        assert(b2.yank[k - 1] == lines[e.0].subrange(0, e.1));
        assert(first =~= lines[s.0]);
        assert(last =~= lines[e.0]);
        assert forall|t: int| 0 <= t < b3.lines.len() implies b3.lines[t] == lines[t] by {
            if t < s.0 {
                assert(b3.lines[t] == b2.lines[t]);
                assert(b2.lines[t] == lines[t]);
            } else if t == s.0 {
                assert(b3.lines[t] == first);
            } else if t < e.0 {
                assert(b3.lines[t] == b2.yank.subrange(1, k - 1)[t - s.0 - 1]);
                assert(b2.yank[t - s.0] == lines.subrange(s.0 + 1, e.0)[t - s.0 - 1]);
            } else if t == e.0 {
                assert(b3.lines[t] == last);
            } else {
                assert(b3.lines[t] == b2.lines.subrange(s.0 + 1, b2.lines.len() as int)[t - e.0
                    - 1]);
                assert(b2.lines[t - e.0 + s.0] == lines[t]);
            }
        }
        assert(b3.lines.len() == lines.len());
        assert(b3.lines =~= lines);
    }
}

/// The no-op key: the transition is `NoOp` and neither buffer, clipboard
/// nor anything else is touched, in every mode and from every state.
pub proof fn lemma_null_input(mode: Mode, pending: Input, ctrl: bool, b: BufView, clip: Seq<char>)
    ensures
        ({
            let input = Input { key: Key::Null, ctrl };
            run(mode, pending, input, b, clip) == (b, clip, Transition::Nop)
        }),
{
    let input = Input { key: Key::Null, ctrl };
    assert(vim_step(mode, pending, input).0 =~= Seq::<EditOp>::empty());
}

} // verus!
