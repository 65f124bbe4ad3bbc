use resto::app::{App, AppAction, AppState, EditTarget, InputMode, get_data_dir};
use resto::editor::Editor;
use resto::keys::{Input, Key};
use resto::method::HttpMethod;
use resto::response::HttpResponse;
use resto::textarea::TextAreaHandle;
use resto::ui::{MainContentTab, RequestSectionTab, ResponseSectionTab};
use resto::vim::Mode;

fn lines(v: &[&str]) -> Vec<String> {
    v.iter().map(|s| String::from(*s)).collect()
}

#[test]
fn data_dir_is_local_hidden_folder() {
    assert_eq!(get_data_dir(), "./.data");
    let _ = Editor::new();
}

#[test]
fn tab_indices_round_trip() {
    assert_eq!(MainContentTab::Request.as_index(), 0);
    assert_eq!(MainContentTab::from_index(1), Some(MainContentTab::History));
    assert_eq!(MainContentTab::from_index(2), None);
    assert_eq!(RequestSectionTab::Query.as_index(), 2);
    assert_eq!(RequestSectionTab::from_index(0), Some(RequestSectionTab::Headers));
    assert_eq!(RequestSectionTab::from_index(9), None);
    assert_eq!(ResponseSectionTab::from_index(2), Some(ResponseSectionTab::Cookies));
    assert_eq!(ResponseSectionTab::Headers.as_index(), 1);
    assert_eq!(MainContentTab::Request.as_str(), "Request");
    assert_eq!(RequestSectionTab::Body.as_str(), "Body");
    assert_eq!(ResponseSectionTab::Cookies.as_str(), "Cookies");
}

#[test]
fn tab_cycling_wraps_around() {
    let mut app = App::new();
    app.handle_normal_mode_key(Input::of_key(Key::Tab));
    assert_eq!(app.active_tab, MainContentTab::History);
    app.handle_normal_mode_key(Input::of_key(Key::Tab));
    assert_eq!(app.active_tab, MainContentTab::Request);
    app.handle_normal_mode_key(Input::ch(']'));
    assert_eq!(app.request_section_active_tab, RequestSectionTab::Body);
    app.handle_normal_mode_key(Input::ch('['));
    app.handle_normal_mode_key(Input::ch('['));
    assert_eq!(app.request_section_active_tab, RequestSectionTab::Query);
    app.handle_normal_mode_key(Input::ch('}'));
    assert_eq!(app.response_section_active_tab, ResponseSectionTab::Headers);
    app.handle_normal_mode_key(Input::ch('{'));
    assert_eq!(app.response_section_active_tab, ResponseSectionTab::Body);
}

#[test]
fn quit_key_asks_to_leave() {
    let mut app = App::new();
    assert!(matches!(app.handle_normal_mode_key(Input::ch('q')), AppAction::Quit));
}

#[test]
fn url_editor_seeds_insert_mode_when_empty() {
    let mut app = App::new();
    let action = app.handle_normal_mode_key(Input::ch('u'));
    match action {
        AppAction::OpenEditor(EditTarget::Url, text) => assert_eq!(text, ""),
        other => panic!("unexpected action: {other:?}"),
    }
    assert_eq!(app.state, AppState::EditingUrl);
    assert_eq!(app.input_mode, InputMode::Editing);
    assert_eq!(app.vim.mode, Mode::Insert);
}

#[test]
fn url_editor_seeds_normal_mode_when_filled() {
    let mut app = App::new();
    app.current_request.set_url("http://example.com");
    let action = app.handle_normal_mode_key(Input::ch('u'));
    match action {
        AppAction::OpenEditor(EditTarget::Url, text) => assert_eq!(text, "http://example.com"),
        other => panic!("unexpected action: {other:?}"),
    }
    assert_eq!(app.vim.mode, Mode::Normal);
}

#[test]
fn field_editor_opens_for_the_active_request_tab() {
    let mut app = App::new();
    app.handle_normal_mode_key(Input::ch(']'));
    let action = app.handle_normal_mode_key(Input::ch('e'));
    assert!(matches!(action, AppAction::OpenEditor(EditTarget::Body, _)));
    assert_eq!(app.state, AppState::EditingBody);
    assert_eq!(app.vim.mode, Mode::Insert);
}

#[test]
fn method_keys_cycle_the_method() {
    let mut app = App::new();
    app.handle_normal_mode_key(Input::ch('m'));
    assert_eq!(app.current_request.method, HttpMethod::Post);
    app.handle_normal_mode_key(Input::ch('M'));
    app.handle_normal_mode_key(Input::ch('M'));
    assert_eq!(app.current_request.method, HttpMethod::Options);
}

#[test]
fn enter_refuses_empty_url() {
    let mut app = App::new();
    let action = app.handle_normal_mode_key(Input::of_key(Key::Enter));
    assert!(matches!(action, AppAction::Nop));
    assert_eq!(app.error_message.as_deref(), Some("URL cannot be empty"));
    assert!(!app.loading);
}

#[test]
fn enter_dispatches_when_url_is_set() {
    let mut app = App::new();
    app.current_request.set_url("http://example.com");
    let action = app.handle_normal_mode_key(Input::of_key(Key::Enter));
    assert!(matches!(action, AppAction::Send));
    assert!(app.loading);
    assert_eq!(app.error_message, None);
    // While loading, Enter does nothing.
    let action = app.handle_normal_mode_key(Input::of_key(Key::Enter));
    assert!(matches!(action, AppAction::Nop));
}

#[test]
fn responses_join_history_and_errors_display() {
    let mut app = App::new();
    let resp = HttpResponse::new(String::from("r"), 200, String::from("OK"), Vec::new(), String::new(), 3);
    app.apply_request_result(Ok(resp));
    assert!(!app.loading);
    assert_eq!(app.responses.len(), 1);
    assert_eq!(app.selected_response, Some(0));
    assert!(app.get_current_response().is_some());

    app.apply_request_result(Err(String::from("boom")));
    assert_eq!(app.error_message.as_deref(), Some("boom"));

    app.handle_normal_mode_key(Input::ctrl_ch('c'));
    assert!(app.responses.is_empty());
    assert_eq!(app.selected_response, None);
    assert!(app.get_current_response().is_none());
}

#[test]
fn history_selection_moves_with_arrows() {
    let mut app = App::new();
    for _ in 0..3 {
        let resp = HttpResponse::new(String::from("r"), 200, String::from("OK"), Vec::new(), String::new(), 1);
        app.apply_request_result(Ok(resp));
    }
    app.selected_response = None;
    app.handle_normal_mode_key(Input::of_key(Key::Tab));
    assert_eq!(app.active_tab, MainContentTab::History);
    app.handle_normal_mode_key(Input::of_key(Key::Up));
    assert_eq!(app.selected_response, Some(2));
    app.handle_normal_mode_key(Input::of_key(Key::Up));
    assert_eq!(app.selected_response, Some(1));
    app.handle_normal_mode_key(Input::of_key(Key::Down));
    app.handle_normal_mode_key(Input::of_key(Key::Down));
    assert_eq!(app.selected_response, Some(2));
    app.handle_normal_mode_key(Input::of_key(Key::Down));
    assert_eq!(app.selected_response, Some(2));
}

#[test]
fn escape_leaves_help_and_response_views() {
    let mut app = App::new();
    app.handle_normal_mode_key(Input::ch('?'));
    assert_eq!(app.state, AppState::Help);
    app.handle_normal_mode_key(Input::of_key(Key::Esc));
    assert_eq!(app.state, AppState::Normal);
    app.handle_normal_mode_key(Input::ch('r'));
    assert_eq!(app.state, AppState::ViewingResponse);
    app.handle_normal_mode_key(Input::of_key(Key::Esc));
    assert_eq!(app.state, AppState::Normal);
}

#[test]
fn saving_the_url_editor_sets_the_url() {
    let mut app = App::new();
    app.state = AppState::EditingUrl;
    app.save_current_textarea_content(&lines(&["  http://example.com/x  "])).unwrap();
    assert_eq!(app.current_request.url, "http://example.com/x");
}

#[test]
fn saving_a_curl_command_imports_the_request() {
    let mut app = App::new();
    app.state = AppState::EditingUrl;
    app.save_current_textarea_content(&lines(&["curl -X PUT 'http://example.com/i'"])).unwrap();
    assert_eq!(app.current_request.method, HttpMethod::Put);
    assert_eq!(app.current_request.url, "http://example.com/i");
}

#[test]
fn saving_header_lines_parses_key_values() {
    let mut app = App::new();
    app.state = AppState::EditingHeaders;
    app.save_current_textarea_content(
        &lines(&["Accept: text/plain", "bad line", "Empty:   ", "Host: example.com"]),
    ).unwrap();
    assert_eq!(
        app.current_request.headers,
        vec![
            (String::from("Accept"), String::from("text/plain")),
            (String::from("Host"), String::from("example.com")),
        ]
    );
}

#[test]
fn saving_the_body_joins_lines() {
    let mut app = App::new();
    app.state = AppState::EditingBody;
    app.save_current_textarea_content(&lines(&["{", "  \"a\": 1", "}"])).unwrap();
    assert_eq!(app.current_request.body, "{\n  \"a\": 1\n}");
}

#[test]
fn editing_mode_escape_closes_the_editor() {
    let mut app = App::new();
    let mut ta = TextAreaHandle::new();
    app.state = AppState::EditingBody;
    app.input_mode = InputMode::Editing;
    let quit = app.handle_editing_mode_key(Input::of_key(Key::Esc), &mut ta).unwrap();
    assert!(!quit);
    assert_eq!(app.state, AppState::Normal);
    assert_eq!(app.input_mode, InputMode::Normal);
}

#[test]
fn editing_mode_enter_saves_the_widget_content() {
    let mut app = App::new();
    let mut ta = TextAreaHandle::new();
    app.state = AppState::EditingBody;
    app.input_mode = InputMode::Editing;
    app.vim = resto::vim::Vim::new(Mode::Insert);
    // Type "hi" through the modal editor, leave insert mode, save.
    app.handle_editing_mode_key(Input::ch('h'), &mut ta).unwrap();
    app.handle_editing_mode_key(Input::ch('i'), &mut ta).unwrap();
    app.handle_editing_mode_key(Input::of_key(Key::Esc), &mut ta).unwrap();
    assert_eq!(app.vim.mode, Mode::Normal);
    app.handle_editing_mode_key(Input::of_key(Key::Enter), &mut ta).unwrap();
    assert_eq!(app.current_request.body, "hi");
    assert_eq!(app.state, AppState::Normal);
}

#[test]
fn editing_mode_enter_saves_with_control_held() {
    // Enter and Esc close the editor on the key code alone, control or not.
    let mut app = App::new();
    let mut ta = TextAreaHandle::new();
    app.state = AppState::EditingBody;
    app.input_mode = InputMode::Editing;
    app.vim = resto::vim::Vim::new(Mode::Insert);
    app.handle_editing_mode_key(Input::ch('x'), &mut ta).unwrap();
    app.handle_editing_mode_key(Input::of_key(Key::Esc), &mut ta).unwrap();
    app.handle_editing_mode_key(Input { key: Key::Enter, ctrl: true }, &mut ta).unwrap();
    assert_eq!(app.current_request.body, "x");
    assert_eq!(app.state, AppState::Normal);

    app.state = AppState::EditingBody;
    app.input_mode = InputMode::Editing;
    app.handle_editing_mode_key(Input { key: Key::Esc, ctrl: true }, &mut ta).unwrap();
    assert_eq!(app.state, AppState::Normal);
    assert_eq!(app.input_mode, InputMode::Normal);
}

#[test]
fn editing_keys_do_not_keep_a_stale_pending() {
    // A handled key clears the pending slot; only an unrecognized key
    // installs one.
    let mut app = App::new();
    let mut ta = TextAreaHandle::new();
    app.state = AppState::EditingBody;
    app.input_mode = InputMode::Editing;
    app.handle_editing_mode_key(Input::ch('g'), &mut ta).unwrap();
    assert_eq!(app.vim.pending, Input::ch('g'));
    app.handle_editing_mode_key(Input::ch('j'), &mut ta).unwrap();
    assert_eq!(app.vim.pending, Input::of_key(Key::Null));
    app.handle_editing_mode_key(Input::ch('g'), &mut ta).unwrap();
    assert_eq!(app.vim.pending, Input::ch('g'));
    app.handle_editing_mode_key(Input::ch('g'), &mut ta).unwrap();
    assert_eq!(app.vim.pending, Input::of_key(Key::Null));
}

#[test]
fn paste_into_url_editor_saves_and_closes() {
    let mut app = App::new();
    let mut ta = TextAreaHandle::new();
    app.state = AppState::EditingUrl;
    app.input_mode = InputMode::Editing;
    app.handle_paste("http://pasted.example.com", &mut ta).unwrap();
    assert_eq!(app.current_request.url, "http://pasted.example.com");
    assert_eq!(app.state, AppState::Normal);
    assert_eq!(app.input_mode, InputMode::Normal);
}
