use resto::buffer::{Register, TextBuffer};
use resto::keys::{Input, Key};
use resto::textarea::TextAreaHandle;
use resto::vim::{Mode, Transition, Vim};

fn line(s: &str) -> Vec<char> {
    s.chars().collect()
}

fn buffer_of(lines: &[&str]) -> TextBuffer {
    TextBuffer::from_lines(lines.iter().map(|l| line(l)).collect())
}

fn lines_of(buf: &TextBuffer) -> Vec<String> {
    buf.lines().iter().map(|l| l.iter().collect()).collect()
}

/// Advance the controller exactly as the host does on each transition: a
/// handled key clears the pending slot; only an unrecognized key installs
/// one.
fn step(vim: Vim, input: Input, buf: &mut TextBuffer, reg: &mut Register) -> (Vim, Transition) {
    let t = vim.transition_buffer(input, buf, reg);
    let next = match t {
        Transition::Mode(m) => Vim::new(m),
        Transition::Nop => Vim::new(vim.mode),
        Transition::Pending(p) => vim.with_pending(p),
        Transition::Quit => Vim::new(Mode::Normal),
    };
    (next, t)
}

fn run_keys(vim: Vim, inputs: &[Input], buf: &mut TextBuffer, reg: &mut Register) -> Vim {
    let mut v = vim;
    for i in inputs {
        let (nv, _) = step(v, *i, buf, reg);
        v = nv;
    }
    v
}

#[test]
fn insert_mode_forwards_input() {
    let mut buf = TextBuffer::new();
    let mut reg = Register::new();
    let vim = Vim::new(Mode::Insert);
    let (vim, t) = step(vim, Input::ch('z'), &mut buf, &mut reg);
    assert_eq!(t, Transition::Mode(Mode::Insert));
    assert_eq!(vim.mode, Mode::Insert);
    assert_eq!(lines_of(&buf), vec!["z"]);
}

#[test]
fn escape_leaves_insert_for_normal() {
    let mut buf = TextBuffer::new();
    let mut reg = Register::new();
    let vim = Vim::new(Mode::Insert);
    let (vim, t) = step(vim, Input::of_key(Key::Esc), &mut buf, &mut reg);
    assert_eq!(t, Transition::Mode(Mode::Normal));
    assert_eq!(vim.mode, Mode::Normal);
    assert_eq!(lines_of(&buf), vec![""]);
}

#[test]
fn ctrl_c_leaves_insert_for_normal() {
    let mut buf = TextBuffer::new();
    let mut reg = Register::new();
    let vim = Vim::new(Mode::Insert);
    let (_, t) = step(vim, Input::ctrl_ch('c'), &mut buf, &mut reg);
    assert_eq!(t, Transition::Mode(Mode::Normal));
}

#[test]
fn visual_then_escape_cancels_selection() {
    let mut buf = buffer_of(&["hello"]);
    let mut reg = Register::new();
    let vim = Vim::new(Mode::Normal);
    let (vim, t) = step(vim, Input::ch('v'), &mut buf, &mut reg);
    assert_eq!(t, Transition::Mode(Mode::Visual));
    assert!(buf.is_selecting());
    let (vim, t) = step(vim, Input::of_key(Key::Esc), &mut buf, &mut reg);
    assert_eq!(t, Transition::Mode(Mode::Normal));
    assert_eq!(vim.mode, Mode::Normal);
    assert!(!buf.is_selecting());
    assert_eq!(lines_of(&buf), vec!["hello"]);
}

#[test]
fn null_key_is_a_no_op() {
    let mut buf = buffer_of(&["hello"]);
    let mut reg = Register::new();
    let vim = Vim::new(Mode::Normal);
    let before = lines_of(&buf);
    let cursor = buf.cursor();
    let (vim, t) = step(vim, Input::of_key(Key::Null), &mut buf, &mut reg);
    assert_eq!(t, Transition::Nop);
    assert_eq!(vim.mode, Mode::Normal);
    assert_eq!(lines_of(&buf), before);
    assert_eq!(buf.cursor(), cursor);
}

#[test]
fn dd_removes_exactly_one_line() {
    let mut buf = buffer_of(&["alpha", "beta", "gamma"]);
    let mut reg = Register::new();
    let vim = Vim::new(Mode::Normal);
    let (vim, t) = step(vim, Input::ch('d'), &mut buf, &mut reg);
    assert_eq!(t, Transition::Mode(Mode::Operator('d')));
    let (vim, t) = step(vim, Input::ch('d'), &mut buf, &mut reg);
    assert_eq!(t, Transition::Mode(Mode::Normal));
    assert_eq!(vim.mode, Mode::Normal);
    assert_eq!(lines_of(&buf), vec!["beta", "gamma"]);
    let yank: String = buf.yank_text().iter().collect();
    assert_eq!(yank, "alpha\n");
}

#[test]
fn dd_on_last_line_clears_it() {
    let mut buf = buffer_of(&["alpha", "beta"]);
    let mut reg = Register::new();
    let vim = run_keys(Vim::new(Mode::Normal), &[Input::ch('j')], &mut buf, &mut reg);
    let _ = run_keys(vim, &[Input::ch('d'), Input::ch('d')], &mut buf, &mut reg);
    assert_eq!(lines_of(&buf), vec!["alpha", ""]);
}

#[test]
fn paste_after_dd_restores_the_text() {
    let mut buf = buffer_of(&["alpha", "beta", "gamma"]);
    let mut reg = Register::new();
    let vim = Vim::new(Mode::Normal);
    let vim = run_keys(vim, &[Input::ch('d'), Input::ch('d')], &mut buf, &mut reg);
    assert_eq!(lines_of(&buf), vec!["beta", "gamma"]);
    let _ = run_keys(vim, &[Input::ch('p')], &mut buf, &mut reg);
    assert_eq!(lines_of(&buf), vec!["alpha", "beta", "gamma"]);
}

#[test]
fn paste_after_yy_duplicates_the_line() {
    let mut buf = buffer_of(&["alpha", "beta"]);
    let mut reg = Register::new();
    let vim = Vim::new(Mode::Normal);
    let vim = run_keys(vim, &[Input::ch('y'), Input::ch('y')], &mut buf, &mut reg);
    assert_eq!(lines_of(&buf), vec!["alpha", "beta"]);
    let clip: String = reg.chars().iter().collect();
    assert_eq!(clip, "alpha\n");
    let _ = run_keys(vim, &[Input::ch('p')], &mut buf, &mut reg);
    assert_eq!(lines_of(&buf), vec!["alpha", "alpha", "beta"]);
}

#[test]
fn paste_after_dd_on_last_line_restores_it() {
    let mut buf = buffer_of(&["alpha", "beta"]);
    let mut reg = Register::new();
    let vim = run_keys(Vim::new(Mode::Normal), &[Input::ch('j')], &mut buf, &mut reg);
    let vim = run_keys(vim, &[Input::ch('d'), Input::ch('d')], &mut buf, &mut reg);
    assert_eq!(lines_of(&buf), vec!["alpha", ""]);
    let _ = run_keys(vim, &[Input::ch('p')], &mut buf, &mut reg);
    assert_eq!(lines_of(&buf), vec!["alpha", "beta"]);
}

#[test]
fn paste_after_yy_on_last_line_doubles_it() {
    let mut buf = buffer_of(&["top", "tail"]);
    let mut reg = Register::new();
    let vim = run_keys(Vim::new(Mode::Normal), &[Input::ch('j')], &mut buf, &mut reg);
    let vim = run_keys(vim, &[Input::ch('y'), Input::ch('y')], &mut buf, &mut reg);
    assert_eq!(lines_of(&buf), vec!["top", "tail"]);
    let clip: String = reg.chars().iter().collect();
    assert_eq!(clip, "tail");
    let _ = run_keys(vim, &[Input::ch('p')], &mut buf, &mut reg);
    assert_eq!(lines_of(&buf), vec!["top", "tailtail"]);
}

#[test]
fn paste_after_visual_delete_restores_the_text() {
    // Select from inside the first line across the line break, cut the
    // span visually (inclusive of the character under the cursor), and
    // paste it back where it was cut.
    let mut buf = buffer_of(&["hello", "world"]);
    let mut reg = Register::new();
    let vim = run_keys(Vim::new(Mode::Normal), &[Input::ch('l')], &mut buf, &mut reg);
    let vim = run_keys(
        vim,
        &[Input::ch('v'), Input::ch('j'), Input::ch('l')],
        &mut buf,
        &mut reg,
    );
    let vim = run_keys(vim, &[Input::ch('d')], &mut buf, &mut reg);
    assert_eq!(lines_of(&buf), vec!["hld"]);
    let _ = run_keys(vim, &[Input::ch('p')], &mut buf, &mut reg);
    assert_eq!(lines_of(&buf), vec!["hello", "world"]);
}

#[test]
fn single_g_is_pending_and_moves_nothing() {
    let mut buf = buffer_of(&["one", "two", "three"]);
    let mut reg = Register::new();
    let vim = run_keys(Vim::new(Mode::Normal), &[Input::ch('j'), Input::ch('j')], &mut buf, &mut reg);
    assert_eq!(buf.cursor(), (2, 0));
    let (vim, t) = step(vim, Input::ch('g'), &mut buf, &mut reg);
    assert_eq!(t, Transition::Pending(Input::ch('g')));
    assert_eq!(buf.cursor(), (2, 0));
    let (_, t) = step(vim, Input::ch('g'), &mut buf, &mut reg);
    assert_eq!(t, Transition::Nop);
    assert_eq!(buf.cursor(), (0, 0));
}

#[test]
fn consumed_pending_does_not_linger() {
    // After gg completes, a third g goes pending again instead of jumping.
    let mut buf = buffer_of(&["one", "two", "three"]);
    let mut reg = Register::new();
    let vim = run_keys(Vim::new(Mode::Normal), &[Input::ch('j'), Input::ch('j')], &mut buf, &mut reg);
    let vim = run_keys(vim, &[Input::ch('g'), Input::ch('g')], &mut buf, &mut reg);
    assert_eq!(buf.cursor(), (0, 0));
    let vim = run_keys(vim, &[Input::ch('j')], &mut buf, &mut reg);
    assert_eq!(buf.cursor(), (1, 0));
    let (_, t) = step(vim, Input::ch('g'), &mut buf, &mut reg);
    assert_eq!(t, Transition::Pending(Input::ch('g')));
    assert_eq!(buf.cursor(), (1, 0));
}

#[test]
fn superseded_pending_is_discarded() {
    // A pending g followed by a handled key is discarded: the next g goes
    // pending instead of combining with the stale one.
    let mut buf = buffer_of(&["one", "two", "three"]);
    let mut reg = Register::new();
    let vim = run_keys(Vim::new(Mode::Normal), &[Input::ch('j'), Input::ch('j')], &mut buf, &mut reg);
    let vim = run_keys(vim, &[Input::ch('g'), Input::ch('j')], &mut buf, &mut reg);
    assert_eq!(buf.cursor(), (2, 0));
    let (_, t) = step(vim, Input::ch('g'), &mut buf, &mut reg);
    assert_eq!(t, Transition::Pending(Input::ch('g')));
    assert_eq!(buf.cursor(), (2, 0));
}

#[test]
fn visual_yank_copies_inclusively_into_register_and_clipboard() {
    let mut buf = buffer_of(&["hello"]);
    let mut reg = Register::new();
    let vim = Vim::new(Mode::Normal);
    let vim = run_keys(vim, &[Input::ch('v'), Input::ch('l'), Input::ch('l')], &mut buf, &mut reg);
    let (vim, t) = step(vim, Input::ch('y'), &mut buf, &mut reg);
    assert_eq!(t, Transition::Mode(Mode::Normal));
    assert_eq!(vim.mode, Mode::Normal);
    assert!(!buf.is_selecting());
    assert_eq!(lines_of(&buf), vec!["hello"]);
    let yank: String = buf.yank_text().iter().collect();
    assert_eq!(yank, "hel");
    let clip: String = reg.chars().iter().collect();
    assert_eq!(clip, "hel");
}

#[test]
fn visual_delete_cuts_inclusively() {
    let mut buf = buffer_of(&["hello"]);
    let mut reg = Register::new();
    let vim = Vim::new(Mode::Normal);
    let vim = run_keys(vim, &[Input::ch('v'), Input::ch('l')], &mut buf, &mut reg);
    let (_, t) = step(vim, Input::ch('d'), &mut buf, &mut reg);
    assert_eq!(t, Transition::Mode(Mode::Normal));
    assert_eq!(lines_of(&buf), vec!["llo"]);
}

#[test]
fn operator_with_dollar_deletes_to_line_end() {
    // Two request lines; j then 0 then d$ empties the second line.
    let mut buf = buffer_of(&["GET /foo", "Host: x"]);
    let mut reg = Register::new();
    let vim = Vim::new(Mode::Normal);
    let (vim, _) = step(vim, Input::ch('j'), &mut buf, &mut reg);
    assert_eq!(buf.cursor(), (1, 0));
    let (vim, _) = step(vim, Input::ch('0'), &mut buf, &mut reg);
    assert_eq!(buf.cursor(), (1, 0));
    let (vim, t) = step(vim, Input::ch('d'), &mut buf, &mut reg);
    assert_eq!(t, Transition::Mode(Mode::Operator('d')));
    let (vim, t) = step(vim, Input::ch('$'), &mut buf, &mut reg);
    assert_eq!(t, Transition::Mode(Mode::Normal));
    assert_eq!(vim.mode, Mode::Normal);
    assert_eq!(lines_of(&buf), vec!["GET /foo", ""]);
}

#[test]
fn typing_in_empty_buffer_then_delete_under_cursor() {
    // A fresh empty field opens in insert mode; typing lands in the buffer.
    let mut buf = TextBuffer::new();
    let mut reg = Register::new();
    let vim = Vim::new(Mode::Insert);
    let vim = run_keys(vim, &[Input::ch('a'), Input::ch('b'), Input::ch('c')], &mut buf, &mut reg);
    assert_eq!(lines_of(&buf), vec!["abc"]);
    let (vim, t) = step(vim, Input::of_key(Key::Esc), &mut buf, &mut reg);
    assert_eq!(t, Transition::Mode(Mode::Normal));
    // The cursor sits past the last typed character, so there is nothing
    // under it for `x` to delete.
    assert_eq!(buf.cursor(), (0, 3));
    let (vim, _) = step(vim, Input::ch('x'), &mut buf, &mut reg);
    assert_eq!(lines_of(&buf), vec!["abc"]);
    // One step back puts the cursor on `c`, and `x` removes it.
    let vim = run_keys(vim, &[Input::ch('h')], &mut buf, &mut reg);
    let _ = run_keys(vim, &[Input::ch('x')], &mut buf, &mut reg);
    assert_eq!(lines_of(&buf), vec!["ab"]);
}

#[test]
fn undo_and_redo_round_trip() {
    let mut buf = buffer_of(&["start"]);
    let mut reg = Register::new();
    let vim = Vim::new(Mode::Normal);
    let vim = run_keys(vim, &[Input::ch('x')], &mut buf, &mut reg);
    assert_eq!(lines_of(&buf), vec!["tart"]);
    let vim = run_keys(vim, &[Input::ch('u')], &mut buf, &mut reg);
    assert_eq!(lines_of(&buf), vec!["start"]);
    let _ = run_keys(vim, &[Input::ctrl_ch('r')], &mut buf, &mut reg);
    assert_eq!(lines_of(&buf), vec!["tart"]);
}

#[test]
fn open_line_below_enters_insert() {
    let mut buf = buffer_of(&["top", "bottom"]);
    let mut reg = Register::new();
    let vim = Vim::new(Mode::Normal);
    let (vim, t) = step(vim, Input::ch('o'), &mut buf, &mut reg);
    assert_eq!(t, Transition::Mode(Mode::Insert));
    assert_eq!(vim.mode, Mode::Insert);
    assert_eq!(lines_of(&buf), vec!["top", "", "bottom"]);
    assert_eq!(buf.cursor(), (1, 0));
}

#[test]
fn word_forward_moves_to_next_word() {
    let mut buf = buffer_of(&["aaa bbb ccc"]);
    let mut reg = Register::new();
    let vim = Vim::new(Mode::Normal);
    let (vim, _) = step(vim, Input::ch('w'), &mut buf, &mut reg);
    assert_eq!(buf.cursor(), (0, 4));
    let (_, _) = step(vim, Input::ch('w'), &mut buf, &mut reg);
    assert_eq!(buf.cursor(), (0, 8));
}

#[test]
fn delete_word_with_operator_e_is_inclusive() {
    let mut buf = buffer_of(&["abc def"]);
    let mut reg = Register::new();
    let vim = Vim::new(Mode::Normal);
    let vim = run_keys(vim, &[Input::ch('d'), Input::ch('e')], &mut buf, &mut reg);
    // `de` removes the whole first word, including the character under
    // the word-end cursor.
    assert_eq!(lines_of(&buf), vec![" def"]);
    assert_eq!(vim.mode, Mode::Normal);
}

#[test]
fn unrecognized_key_is_returned_as_pending() {
    let mut buf = buffer_of(&["text"]);
    let mut reg = Register::new();
    let vim = Vim::new(Mode::Normal);
    let (vim, t) = step(vim, Input::ch('z'), &mut buf, &mut reg);
    assert_eq!(t, Transition::Pending(Input::ch('z')));
    assert_eq!(vim.pending, Input::ch('z'));
    assert_eq!(lines_of(&buf), vec!["text"]);
}

#[test]
fn widget_path_follows_the_same_dispatch() {
    // Drive the real terminal widget through the same controller: type two
    // lines, go back to the top, and delete the first line with `dd`.
    let mut ta = TextAreaHandle::new();
    let mut vim = Vim::new(Mode::Insert);
    let keys = [
        Input::ch('a'),
        Input::ch('b'),
        Input::of_key(Key::Enter),
        Input::ch('c'),
        Input::of_key(Key::Esc),
        Input::ch('g'),
        Input::ch('g'),
        Input::ch('d'),
        Input::ch('d'),
    ];
    for key in keys {
        let t = vim.transition(key, &mut ta);
        vim = match t {
            Transition::Mode(m) => Vim::new(m),
            Transition::Nop => Vim::new(vim.mode),
            Transition::Pending(p) => vim.with_pending(p),
            Transition::Quit => Vim::new(Mode::Normal),
        };
    }
    assert_eq!(ta.inner.lines(), ["c"]);
    assert_eq!(vim.mode, Mode::Normal);
}
