//! The application's state machine: which panel is active, which field is
//! being edited, the request under construction, the response history, and
//! how one key event in normal (non-editing) mode changes all of that.
//!
//! The host shell owns the terminal, the text-area widgets and the HTTP
//! transport; it feeds key events in and performs the returned
//! [`AppAction`]s (opening an editor with seed text, dispatching the
//! request).

use vstd::prelude::*;
use vstd::string::StringExecFns;

use crate::buffer::join_pieces;
use crate::curl::{CurlParseError, parse_curl};
use crate::format_key_values::{format_kv, kv_view};
use crate::keys::{Input, Key, null_input};
use crate::method::{next_method, previous_method};
use crate::request::{HttpRequest, kv_put, kv_unique};
use crate::response::HttpResponse;
use crate::strutil::{
    chars_to_string, starts_with, str_starts_with, string_chars, subchars, trim_chars, trim_view,
};
use crate::textarea::{TextAreaHandle, ta_insert_str, ta_lines};
use crate::ui::{MainContentTab, RequestSectionTab, ResponseSectionTab};
use crate::vim::{Mode, Transition, Vim};

verus! {

/// Where application data is kept.
pub fn get_data_dir() -> (r: String)
    ensures
        r@ == "./.data"@,
{
    <String as StringExecFns>::from_str("./.data")
}

/// What part of the interface currently has focus.
#[derive(Clone, Copy, Debug, PartialEq, Eq, Structural)]
pub enum AppState {
    Normal,
    EditingUrl,
    EditingHeaders,
    EditingBody,
    EditingQueries,
    ViewingResponse,
    Help,
}

/// Whether keys go to the application or to the active editor.
#[derive(Clone, Copy, Debug, PartialEq, Eq, Structural)]
pub enum InputMode {
    Normal,
    Editing,
}

/// The editable request field an editor is opened for.
#[derive(Clone, Copy, Debug, PartialEq, Eq, Structural)]
pub enum EditTarget {
    Url,
    Headers,
    Body,
    Queries,
}

/// What the host must do after a normal-mode key.
#[derive(Debug)]
pub enum AppAction {
    /// Nothing.
    Nop,
    /// Leave the application.
    Quit,
    /// Open the editor for a field, seeded with the given text.
    OpenEditor(EditTarget, String),
    /// Dispatch the current request.
    Send,
}

/// The views of a vector of lines.
pub open spec fn lsv(v: Seq<String>) -> Seq<Seq<char>> {
    Seq::new(v.len(), |i: int| v[i]@)
}

/// All lines concatenated, with no separator.
pub open spec fn concat_all(ls: Seq<Seq<char>>) -> Seq<char>
    decreases ls.len(),
{
    if ls.len() == 0 {
        Seq::empty()
    } else {
        ls[0] + concat_all(ls.drop_first())
    }
}

/// Key/value pairs read from `key: value` lines: the text before the first
/// colon and after it, both trimmed; lines without a colon, or with an
/// empty key or value, bind nothing.
pub open spec fn kv_from_lines(ls: Seq<Seq<char>>, i: int) -> Seq<(Seq<char>, Seq<char>)>
    decreases ls.len() - i,
{
    if i < 0 || i >= ls.len() {
        Seq::empty()
    } else {
        let rest = kv_from_lines(ls, i + 1);
        match crate::curl::find_char(ls[i], ':', 0) {
            Some(p) => {
                let key = trim_view(ls[i].subrange(0, p));
                let value = trim_view(ls[i].subrange(p + 1, ls[i].len() as int));
                if key.len() > 0 && value.len() > 0 {
                    kv_from_lines_put(ls, i, key, value)
                } else {
                    rest
                }
            },
            None => rest,
        }
    }
}

/// Helper for [`kv_from_lines`]: later lines are folded over the binding
/// this line makes.
pub open spec fn kv_from_lines_put(
    ls: Seq<Seq<char>>,
    i: int,
    key: Seq<char>,
    value: Seq<char>,
) -> Seq<(Seq<char>, Seq<char>)>
    decreases ls.len() - i,
{
    kv_fold(seq![(key, value)], ls, i + 1)
}

/// Fold `key: value` lines onto existing pairs, in order.
pub open spec fn kv_fold(
    acc: Seq<(Seq<char>, Seq<char>)>,
    ls: Seq<Seq<char>>,
    i: int,
) -> Seq<(Seq<char>, Seq<char>)>
    decreases ls.len() - i,
{
    if i < 0 || i >= ls.len() {
        acc
    } else {
        match crate::curl::find_char(ls[i], ':', 0) {
            Some(p) => {
                let key = trim_view(ls[i].subrange(0, p));
                let value = trim_view(ls[i].subrange(p + 1, ls[i].len() as int));
                if key.len() > 0 && value.len() > 0 {
                    kv_fold(kv_put(acc, key, value), ls, i + 1)
                } else {
                    kv_fold(acc, ls, i + 1)
                }
            },
            None => kv_fold(acc, ls, i + 1),
        }
    }
}

/// The application state the host shell drives.
#[derive(Debug)]
pub struct App {
    pub state: AppState,
    pub input_mode: InputMode,
    pub current_request: HttpRequest,
    pub responses: Vec<HttpResponse>,
    pub selected_response: Option<usize>,
    pub loading: bool,
    pub error_message: Option<String>,
    pub active_tab: MainContentTab,
    pub request_section_active_tab: RequestSectionTab,
    pub response_section_active_tab: ResponseSectionTab,
    pub vim: Vim,
}

impl App {
    /// The request's key/value collections hold no duplicate keys, and the
    /// response selection points into the history.
    pub open spec fn wf(&self) -> bool {
        &&& self.current_request.wf()
        &&& match self.selected_response {
            Some(i) => i < self.responses.len(),
            None => true,
        }
    }

    /// A fresh application: normal mode, an empty GET request, no history.
    pub fn new() -> (r: App)
        ensures
            r.wf(),
            r.state == AppState::Normal,
            r.input_mode == InputMode::Normal,
            r.responses@.len() == 0,
            r.selected_response is None,
            r.loading == false,
            r.error_message is None,
            r.active_tab == MainContentTab::Request,
            r.request_section_active_tab == RequestSectionTab::Headers,
            r.response_section_active_tab == ResponseSectionTab::Body,
            r.vim == (Vim { mode: Mode::Normal, pending: null_input() }),
            r.current_request.method == crate::method::HttpMethod::Get,
            r.current_request.url@ == Seq::<char>::empty(),
            r.current_request.headers@ == Seq::<(String, String)>::empty(),
            r.current_request.queries@ == Seq::<(String, String)>::empty(),
            r.current_request.body@ == Seq::<char>::empty(),
    {
        App {
            state: AppState::Normal,
            input_mode: InputMode::Normal,
            current_request: HttpRequest::new(),
            responses: Vec::new(),
            selected_response: None,
            loading: false,
            error_message: None,
            active_tab: MainContentTab::Request,
            request_section_active_tab: RequestSectionTab::Headers,
            response_section_active_tab: ResponseSectionTab::Body,
            vim: Vim::new(Mode::Normal),
        }
    }

    /// Decide whether to dispatch the current request: an empty URL is
    /// refused with an error message; otherwise the app enters its loading
    /// state and asks the host to send.
    pub fn send_request(&mut self) -> (dispatch: bool)
        ensures
            old(self).current_request.url@.len() == 0 ==> !dispatch && *final(self) == (App {
                error_message: final(self).error_message,
                ..*old(self)
            }) && (final(self).error_message matches Some(m) && m@ == "URL cannot be empty"@),
            old(self).current_request.url@.len() > 0 ==> dispatch && *final(self) == (App {
                loading: true,
                error_message: None,
                ..*old(self)
            }),
    {
        if self.current_request.url.as_str().is_empty() {
            self.error_message = Some(
                <String as StringExecFns>::from_str("URL cannot be empty"),
            );
            false
        } else {
            self.loading = true;
            self.error_message = None;
            true
        }
    }

    /// Fold one finished request's outcome into the state: a response joins
    /// the history and is selected; an error is displayed. Loading ends.
    pub fn apply_request_result(&mut self, result: Result<HttpResponse, String>)
        requires
            old(self).wf(),
        ensures
            final(self).wf(),
            final(self).loading == false,
            result matches Ok(resp) ==> final(self).responses@ == old(self).responses@.push(resp)
                && final(self).selected_response == Some(
                (old(self).responses@.len()) as usize,
            ) && final(self).error_message is None && *final(self) == (App {
                loading: false,
                responses: final(self).responses,
                selected_response: final(self).selected_response,
                error_message: None,
                ..*old(self)
            }),
            result matches Err(e) ==> *final(self) == (App {
                loading: false,
                error_message: Some(e),
                ..*old(self)
            }),
    {
        self.loading = false;
        match result {
            Ok(resp) => {
                self.responses.push(resp);
                self.selected_response = Some(self.responses.len() - 1);
                self.error_message = None;
            },
            Err(e) => {
                self.error_message = Some(e);
            },
        }
    }

    /// Forget the response history.
    pub fn clear_response(&mut self)
        ensures
            *final(self) == (App {
                responses: final(self).responses,
                selected_response: None,
                ..*old(self)
            }),
            final(self).responses@.len() == 0,
    {
        self.responses.clear();
        self.selected_response = None;
    }

    /// The response to display: the selected one, or the latest; a stale
    /// selection past the history gives nothing.
    pub fn get_current_response(&self) -> (r: Option<&HttpResponse>)
        ensures
            match self.selected_response {
                Some(i) => if i < self.responses@.len() {
                    r == Some(&self.responses@[i as int])
                } else {
                    r is None
                },
                None => if self.responses@.len() == 0 {
                    r is None
                } else {
                    r == Some(&self.responses@[self.responses@.len() - 1])
                },
            },
    {
        match self.selected_response {
            Some(i) => {
                if i < self.responses.len() {
                    Some(&self.responses[i])
                } else {
                    None
                }
            },
            None => {
                if self.responses.len() == 0 {
                    None
                } else {
                    Some(&self.responses[self.responses.len() - 1])
                }
            },
        }
    }

    /// Interpret one key in normal (non-editing) mode. The state changes
    /// exactly as specified per key, and the returned action tells the
    /// host what to perform.
    pub fn handle_normal_mode_key(&mut self, key: Input) -> (r: AppAction)
        requires
            old(self).wf(),
        ensures
            final(self).wf(),
            key.key == Key::Char('q') ==> *final(self) == *old(self) && r is Quit,
            key.key == Key::Tab ==> *final(self) == (App {
                active_tab: old(self).active_tab.spec_next(),
                ..*old(self)
            }) && r is Nop,
            key.key == Key::BackTab ==> *final(self) == (App {
                active_tab: old(self).active_tab.spec_previous(),
                ..*old(self)
            }) && r is Nop,
            key.key == Key::Char(']') ==> *final(self) == (App {
                request_section_active_tab: old(self).request_section_active_tab.spec_next(),
                ..*old(self)
            }) && r is Nop,
            key.key == Key::Char('[') ==> *final(self) == (App {
                request_section_active_tab: old(self).request_section_active_tab.spec_previous(),
                ..*old(self)
            }) && r is Nop,
            key.key == Key::Char('}') ==> *final(self) == (App {
                response_section_active_tab: old(self).response_section_active_tab.spec_next(),
                ..*old(self)
            }) && r is Nop,
            key.key == Key::Char('{') ==> *final(self) == (App {
                response_section_active_tab: old(
                    self,
                ).response_section_active_tab.spec_previous(),
                ..*old(self)
            }) && r is Nop,
            key.key == Key::Char('u') ==> *final(self) == (App {
                state: AppState::EditingUrl,
                input_mode: InputMode::Editing,
                vim: Vim {
                    mode: if old(self).current_request.url@.len() == 0 {
                        Mode::Insert
                    } else {
                        Mode::Normal
                    },
                    pending: null_input(),
                },
                ..*old(self)
            }) && (r matches AppAction::OpenEditor(t, s) && t == EditTarget::Url && s@ == old(
                self,
            ).current_request.url@),
            key.key == Key::Char('m') ==> *final(self) == (App {
                current_request: final(self).current_request,
                ..*old(self)
            }) && final(self).current_request == (HttpRequest {
                method: next_method(old(self).current_request.method),
                ..old(self).current_request
            }) && r is Nop,
            key.key == Key::Char('M') ==> *final(self) == (App {
                current_request: final(self).current_request,
                ..*old(self)
            }) && final(self).current_request == (HttpRequest {
                method: previous_method(old(self).current_request.method),
                ..old(self).current_request
            }) && r is Nop,
            key.key == Key::Char('r') ==> *final(self) == (App {
                state: AppState::ViewingResponse,
                ..*old(self)
            }) && r is Nop,
            key.key == Key::Char('?') ==> *final(self) == (App {
                state: AppState::Help,
                ..*old(self)
            }) && r is Nop,
            key.key == Key::Char('c') && key.ctrl ==> *final(self) == (App {
                responses: final(self).responses,
                selected_response: None,
                ..*old(self)
            }) && final(self).responses@.len() == 0 && r is Nop,
            key.key == Key::Char('c') && !key.ctrl ==> *final(self) == *old(self) && r is Nop,
            key.key == Key::Enter && old(self).loading ==> *final(self) == *old(self) && r is Nop,
            key.key == Key::Enter && !old(self).loading && old(
                self,
            ).current_request.url@.len() == 0 ==> !(r is Send) && *final(self) == (App {
                error_message: final(self).error_message,
                ..*old(self)
            }),
            key.key == Key::Enter && !old(self).loading && old(
                self,
            ).current_request.url@.len() > 0 ==> r is Send && *final(self) == (App {
                loading: true,
                error_message: None,
                ..*old(self)
            }),
            key.key == Key::Char('e') ==> (*final(self) == (App {
                state: final(self).state,
                input_mode: InputMode::Editing,
                vim: final(self).vim,
                ..*old(self)
            }) && final(self).state == (match old(self).request_section_active_tab {
                RequestSectionTab::Headers => AppState::EditingHeaders,
                RequestSectionTab::Body => AppState::EditingBody,
                RequestSectionTab::Query => AppState::EditingQueries,
            }) && final(self).vim.pending == null_input() && (r matches AppAction::OpenEditor(
                t,
                s,
            ) && t == (match old(self).request_section_active_tab {
                RequestSectionTab::Headers => EditTarget::Headers,
                RequestSectionTab::Body => EditTarget::Body,
                RequestSectionTab::Query => EditTarget::Queries,
            }) && s@ == (match old(self).request_section_active_tab {
                RequestSectionTab::Headers => format_kv(
                    kv_view(old(self).current_request.headers@),
                ),
                RequestSectionTab::Body => old(self).current_request.body@,
                RequestSectionTab::Query => format_kv(
                    kv_view(old(self).current_request.queries@),
                ),
            }) && (final(self).vim.mode == Mode::Insert <==> s@.len() == 0) && (final(self).vim.mode
                == Mode::Insert || final(self).vim.mode == Mode::Normal))),
            key.key == Key::Up ==> (r is Nop && *final(self) == (App {
                selected_response: final(self).selected_response,
                ..*old(self)
            }) && final(self).selected_response == (if old(self).active_tab
                == MainContentTab::History && old(self).responses@.len() > 0 {
                match old(self).selected_response {
                    Some(sel) => if sel > 0 {
                        Some((sel - 1) as usize)
                    } else {
                        Some(sel)
                    },
                    None => Some((old(self).responses@.len() - 1) as usize),
                }
            } else {
                old(self).selected_response
            })),
            key.key == Key::Down ==> (r is Nop && *final(self) == (App {
                selected_response: final(self).selected_response,
                ..*old(self)
            }) && final(self).selected_response == (if old(self).active_tab
                == MainContentTab::History && old(self).responses@.len() > 0 {
                match old(self).selected_response {
                    Some(sel) => if sel < old(self).responses@.len() - 1 {
                        Some((sel + 1) as usize)
                    } else {
                        Some(sel)
                    },
                    None => Some(0usize),
                }
            } else {
                old(self).selected_response
            })),
            key.key == Key::Null ==> *final(self) == *old(self) && r is Nop,
            key.key == Key::Esc ==> *final(self) == (App {
                state: if old(self).state == AppState::Help || old(self).state
                    == AppState::ViewingResponse {
                    AppState::Normal
                } else {
                    old(self).state
                },
                ..*old(self)
            }) && r is Nop,
    {
        match key.key {
            Key::Char('q') => AppAction::Quit,
            Key::Tab => {
                self.active_tab = self.active_tab.next();
                AppAction::Nop
            },
            Key::BackTab => {
                self.active_tab = self.active_tab.previous();
                AppAction::Nop
            },
            Key::Char(']') => {
                self.request_section_active_tab = self.request_section_active_tab.next();
                AppAction::Nop
            },
            Key::Char('[') => {
                self.request_section_active_tab = self.request_section_active_tab.previous();
                AppAction::Nop
            },
            Key::Char('}') => {
                self.response_section_active_tab = self.response_section_active_tab.next();
                AppAction::Nop
            },
            Key::Char('{') => {
                self.response_section_active_tab = self.response_section_active_tab.previous();
                AppAction::Nop
            },
            Key::Char('u') => {
                self.state = AppState::EditingUrl;
                self.input_mode = InputMode::Editing;
                if self.current_request.url.as_str().is_empty() {
                    self.vim = Vim::new(Mode::Insert);
                } else {
                    self.vim = Vim::new(Mode::Normal);
                }
                let text = <String as StringExecFns>::from_str(self.current_request.url.as_str());
                AppAction::OpenEditor(EditTarget::Url, text)
            },
            Key::Char('e') => {
                let (target, text) = match self.request_section_active_tab {
                    RequestSectionTab::Headers => {
                        self.state = AppState::EditingHeaders;
                        (EditTarget::Headers, self.current_request.formatted_headers())
                    },
                    RequestSectionTab::Body => {
                        self.state = AppState::EditingBody;
                        (
                            EditTarget::Body,
                            <String as StringExecFns>::from_str(
                                self.current_request.body.as_str(),
                            ),
                        )
                    },
                    RequestSectionTab::Query => {
                        self.state = AppState::EditingQueries;
                        (EditTarget::Queries, self.current_request.formatted_queries())
                    },
                };
                if text.as_str().is_empty() {
                    self.vim = Vim::new(Mode::Insert);
                } else {
                    self.vim = Vim::new(Mode::Normal);
                }
                self.input_mode = InputMode::Editing;
                AppAction::OpenEditor(target, text)
            },
            Key::Char('m') => {
                let m = self.current_request.method.next();
                self.current_request.set_method(m);
                AppAction::Nop
            },
            Key::Char('M') => {
                let m = self.current_request.method.previous();
                self.current_request.set_method(m);
                AppAction::Nop
            },
            Key::Enter => {
                if !self.loading {
                    if self.send_request() {
                        return AppAction::Send;
                    }
                }
                AppAction::Nop
            },
            Key::Char('r') => {
                self.state = AppState::ViewingResponse;
                AppAction::Nop
            },
            Key::Char('?') => {
                self.state = AppState::Help;
                AppAction::Nop
            },
            Key::Char('c') => {
                if key.ctrl {
                    self.clear_response();
                }
                AppAction::Nop
            },
            Key::Up => {
                if self.active_tab == MainContentTab::History && self.responses.len() > 0 {
                    match self.selected_response {
                        Some(selected) => {
                            if selected > 0 {
                                self.selected_response = Some(selected - 1);
                            }
                        },
                        None => {
                            self.selected_response = Some(self.responses.len() - 1);
                        },
                    }
                }
                AppAction::Nop
            },
            Key::Down => {
                if self.active_tab == MainContentTab::History && self.responses.len() > 0 {
                    match self.selected_response {
                        Some(selected) => {
                            if selected < self.responses.len() - 1 {
                                self.selected_response = Some(selected + 1);
                            }
                        },
                        None => {
                            self.selected_response = Some(0);
                        },
                    }
                }
                AppAction::Nop
            },
            Key::Esc => {
                if matches!(self.state, AppState::Help | AppState::ViewingResponse) {
                    self.state = AppState::Normal;
                }
                AppAction::Nop
            },
            _ => AppAction::Nop,
        }
    }

    /// Store the edited text into the field being edited: the URL editor's
    /// content becomes the URL (or, when it starts with `curl`, is imported
    /// as a curl command), the header and query editors are read as
    /// `key: value` lines, and the body editor's lines join with newlines.
    pub fn save_current_textarea_content(&mut self, lines: &Vec<String>) -> (r: Result<
        (),
        CurlParseError,
    >)
        requires
            old(self).wf(),
        ensures
            final(self).wf(),
            old(self).state == AppState::EditingBody ==> r is Ok && *final(self) == (App {
                current_request: final(self).current_request,
                ..*old(self)
            }) && final(self).current_request == (HttpRequest {
                body: final(self).current_request.body,
                ..old(self).current_request
            }) && final(self).current_request.body@ == join_pieces(lsv(lines@)),
            old(self).state == AppState::EditingHeaders ==> r is Ok && *final(self) == (App {
                current_request: final(self).current_request,
                ..*old(self)
            }) && final(self).current_request == (HttpRequest {
                headers: final(self).current_request.headers,
                ..old(self).current_request
            }) && kv_view(final(self).current_request.headers@) == kv_from_lines(lsv(lines@), 0),
            old(self).state == AppState::EditingQueries ==> r is Ok && *final(self) == (App {
                current_request: final(self).current_request,
                ..*old(self)
            }) && final(self).current_request == (HttpRequest {
                queries: final(self).current_request.queries,
                ..old(self).current_request
            }) && kv_view(final(self).current_request.queries@) == kv_from_lines(lsv(lines@), 0),
            old(self).state == AppState::EditingUrl && !starts_with(
                trim_view(concat_all(lsv(lines@))),
                "curl"@,
            ) ==> r is Ok && *final(self) == (App {
                current_request: final(self).current_request,
                ..*old(self)
            }) && final(self).current_request == (HttpRequest {
                url: final(self).current_request.url,
                ..old(self).current_request
            }) && final(self).current_request.url@ == trim_view(concat_all(lsv(lines@))),
            old(self).state == AppState::EditingUrl && starts_with(
                trim_view(concat_all(lsv(lines@))),
                "curl"@,
            ) && r is Ok ==> ({
                let txt = trim_view(concat_all(lsv(lines@)));
                &&& *final(self) == (App {
                    current_request: final(self).current_request,
                    ..*old(self)
                })
                &&& crate::curl::parse_curl_spec(txt) matches Ok(v)
                &&& final(self).current_request.method == v.method
                &&& final(self).current_request.url@ == v.url
                &&& kv_view(final(self).current_request.headers@) == v.headers
                &&& kv_view(final(self).current_request.queries@) == v.queries
                &&& match v.body_raw {
                    None => final(self).current_request.body@ == Seq::<char>::empty(),
                    Some(raw) => crate::request::is_json_text(raw) && final(self).current_request.body@
                        == crate::request::pretty_json_of(raw),
                }
            }),
            old(self).state == AppState::EditingUrl && starts_with(
                trim_view(concat_all(lsv(lines@))),
                "curl"@,
            ) && r is Err ==> *final(self) == *old(self),
            old(self).state == AppState::Normal || old(self).state == AppState::ViewingResponse
                || old(self).state == AppState::Help ==> r is Ok && *final(self) == *old(self),
    {
        match self.state {
            AppState::EditingUrl => {
                let joined = join_lines(lines);
                let trimmed_chars = trim_chars(&string_chars(joined.as_str()));
                let url_text = chars_to_string(&trimmed_chars);
                if str_starts_with(url_text.as_str(), "curl") {
                    match parse_curl(url_text.as_str()) {
                        Ok(req) => {
                            self.current_request = req;
                            Ok(())
                        },
                        Err(e) => Err(e),
                    }
                } else {
                    self.current_request.url = url_text;
                    Ok(())
                }
            },
            AppState::EditingHeaders => {
                let pairs = read_kv_lines(lines);
                self.current_request.headers = pairs;
                Ok(())
            },
            AppState::EditingQueries => {
                let pairs = read_kv_lines(lines);
                self.current_request.queries = pairs;
                Ok(())
            },
            AppState::EditingBody => {
                let mut pieces: Vec<Vec<char>> = Vec::new();
                let mut i: usize = 0;
                while i < lines.len()
                    invariant
                        i <= lines@.len(),
                        pieces@.len() == i,
                        forall|j: int| 0 <= j < i ==> (#[trigger] pieces@[j])@ == lsv(lines@)[j],
                    decreases lines@.len() - i,
                {
                    pieces.push(string_chars(lines[i].as_str()));
                    i += 1;
                }
                proof {
                    assert(crate::buffer::lv(pieces@) =~~= lsv(lines@));
                }
                let joined = crate::buffer::join_chars(&pieces);
                self.current_request.body = chars_to_string(&joined);
                Ok(())
            },
            _ => Ok(()),
        }
    }

    /// Interpret one key while editing. In the editor's normal mode, Enter
    /// saves the field and Esc abandons it, both closing the editor;
    /// every other key goes to the modal editor driving the text area.
    /// The pending slot lives only until the next key: a handled key clears
    /// it (consumed or superseded), and only an unrecognized key installs
    /// one. A failed save leaves everything unchanged.
    pub fn handle_editing_mode_key(&mut self, key: Input, textarea: &mut TextAreaHandle) -> (r:
        Result<bool, CurlParseError>)
        requires
            old(self).wf(),
        ensures
            final(self).wf(),
            r matches Ok(quit) ==> !quit,
            old(self).vim.mode == Mode::Normal && key.key == Key::Esc ==> r is Ok && *final(self)
                == (App {
                state: AppState::Normal,
                input_mode: InputMode::Normal,
                ..*old(self)
            }),
            old(self).vim.mode == Mode::Normal && key.key == Key::Enter && r is Ok ==> final(self).state
                == AppState::Normal && final(self).input_mode == InputMode::Normal,
            r is Err ==> *final(self) == *old(self),
            !(old(self).vim.mode == Mode::Normal && (key.key == Key::Enter || key.key
                == Key::Esc)) ==> r is Ok && *final(self) == (App {
                vim: final(self).vim,
                ..*old(self)
            }) && final(self).vim == (match crate::vim::vim_step(
                old(self).vim.mode,
                old(self).vim.pending,
                key,
            ).1 {
                Transition::Mode(m) => Vim { mode: m, pending: null_input() },
                Transition::Nop => Vim { mode: old(self).vim.mode, pending: null_input() },
                Transition::Pending(p) => Vim { mode: old(self).vim.mode, pending: p },
                Transition::Quit => Vim { mode: Mode::Normal, pending: null_input() },
            }),
    {
        if self.vim.mode == Mode::Normal {
            if key.key == Key::Enter {
                let lines = ta_lines(textarea);
                match self.save_current_textarea_content(&lines) {
                    Ok(()) => {},
                    Err(e) => {
                        return Err(e);
                    },
                }
                self.state = AppState::Normal;
                self.input_mode = InputMode::Normal;
                return Ok(false);
            }
            if key.key == Key::Esc {
                self.state = AppState::Normal;
                self.input_mode = InputMode::Normal;
                return Ok(false);
            }
        }
        let vim = self.vim;
        match vim.transition(key, textarea) {
            Transition::Mode(mode) => {
                self.vim = Vim::new(mode);
            },
            Transition::Nop => {
                // The key was handled: a pending key, if any, is consumed
                // or superseded and must not linger.
                self.vim = Vim::new(self.vim.mode);
            },
            Transition::Pending(pending) => {
                self.vim = self.vim.with_pending(pending);
            },
            Transition::Quit => {
                self.state = AppState::Normal;
                self.input_mode = InputMode::Normal;
                self.vim = Vim::new(Mode::Normal);
            },
        }
        Ok(false)
    }

    /// Route one key event by input mode: application keys succeed with
    /// their action; editing keys behave as the editing handler specifies.
    pub fn handle_key_event(&mut self, key: Input, textarea: &mut TextAreaHandle) -> (r: Result<
        AppAction,
        CurlParseError,
    >)
        requires
            old(self).wf(),
        ensures
            final(self).wf(),
            old(self).input_mode == InputMode::Normal ==> r is Ok,
            r is Err ==> old(self).input_mode == InputMode::Editing && *final(self) == *old(self),
            old(self).input_mode == InputMode::Editing && old(self).vim.mode == Mode::Normal
                && key.key == Key::Esc ==> r is Ok && *final(self) == (App {
                state: AppState::Normal,
                input_mode: InputMode::Normal,
                ..*old(self)
            }),
            old(self).input_mode == InputMode::Editing && !(old(self).vim.mode == Mode::Normal && (
            key.key == Key::Enter || key.key == Key::Esc)) ==> r is Ok && *final(self) == (App {
                vim: final(self).vim,
                ..*old(self)
            }) && final(self).vim == (match crate::vim::vim_step(
                old(self).vim.mode,
                old(self).vim.pending,
                key,
            ).1 {
                Transition::Mode(m) => Vim { mode: m, pending: null_input() },
                Transition::Nop => Vim { mode: old(self).vim.mode, pending: null_input() },
                Transition::Pending(p) => Vim { mode: old(self).vim.mode, pending: p },
                Transition::Quit => Vim { mode: Mode::Normal, pending: null_input() },
            }),
    {
        match self.input_mode {
            InputMode::Normal => Ok(self.handle_normal_mode_key(key)),
            InputMode::Editing => {
                match self.handle_editing_mode_key(key, textarea) {
                    Ok(_) => Ok(AppAction::Nop),
                    Err(e) => Err(e),
                }
            },
        }
    }

    /// Text pasted while the URL editor is open is inserted, the field is
    /// saved, and the editor closes; pasting anywhere else changes nothing.
    /// A failed curl import leaves the state unchanged.
    pub fn handle_paste(&mut self, text: &str, textarea: &mut TextAreaHandle) -> (r: Result<
        (),
        CurlParseError,
    >)
        requires
            old(self).wf(),
        ensures
            final(self).wf(),
            old(self).state != AppState::EditingUrl ==> r is Ok && *final(self) == *old(self),
            old(self).state == AppState::EditingUrl && r is Ok ==> final(self).state
                == AppState::Normal && final(self).input_mode == InputMode::Normal && final(self).vim
                == (Vim { mode: Mode::Normal, pending: null_input() }),
            r is Err ==> *final(self) == *old(self),
    {
        if self.state == AppState::EditingUrl {
            ta_insert_str(textarea, text);
            let lines = ta_lines(textarea);
            match self.save_current_textarea_content(&lines) {
                Ok(()) => {},
                Err(e) => {
                    return Err(e);
                },
            }
            self.state = AppState::Normal;
            self.input_mode = InputMode::Normal;
            self.vim = Vim::new(Mode::Normal);
        }
        Ok(())
    }
}

/// All lines joined with no separator.
fn join_lines(lines: &Vec<String>) -> (r: String)
    ensures
        r@ == concat_all(lsv(lines@)),
{
    let mut r = String::new();
    proof {
        assert(lsv(lines@).subrange(0, lines@.len() as int) =~= lsv(lines@));
        assert(Seq::<char>::empty() + concat_all(lsv(lines@)) =~= concat_all(lsv(lines@)));
    }
    let mut i: usize = 0;
    while i < lines.len()
        invariant
            i <= lines@.len(),
            concat_all(lsv(lines@)) == r@ + concat_all(
                lsv(lines@).subrange(i as int, lines@.len() as int),
            ),
        decreases lines@.len() - i,
    {
        proof {
            let cur = lsv(lines@).subrange(i as int, lines@.len() as int);
            assert(cur[0] == lsv(lines@)[i as int]);
            assert(cur.drop_first() =~= lsv(lines@).subrange(i + 1, lines@.len() as int));
        }
        let ghost pre = r@;
        r.append(lines[i].as_str());
        i += 1;
        proof {
            assert((pre + lsv(lines@)[i - 1]) + concat_all(
                lsv(lines@).subrange(i as int, lines@.len() as int),
            ) =~= pre + (lsv(lines@)[i - 1] + concat_all(
                lsv(lines@).subrange(i as int, lines@.len() as int),
            )));
        }
    }
    proof {
        assert(lsv(lines@).subrange(lines@.len() as int, lines@.len() as int).len() == 0);
        assert(r@ + Seq::<char>::empty() =~= r@);
    }
    r
}

/// Read `key: value` lines into pairs with unique keys.
fn read_kv_lines(lines: &Vec<String>) -> (r: Vec<(String, String)>)
    ensures
        kv_view(r@) == kv_from_lines(lsv(lines@), 0),
        kv_unique(kv_view(r@)),
{
    let mut pairs: Vec<(String, String)> = Vec::new();
    let ghost ls = lsv(lines@);
    let mut i: usize = 0;
    proof {
        assert(kv_view(pairs@) =~= Seq::<(Seq<char>, Seq<char>)>::empty());
        lemma_kv_fold_is_from(ls, 0);
    }
    while i < lines.len()
        invariant
            i <= lines@.len(),
            ls == lsv(lines@),
            kv_unique(kv_view(pairs@)),
            kv_from_lines(ls, 0) == kv_fold(kv_view(pairs@), ls, i as int),
        decreases lines@.len() - i,
    {
        let lchars = string_chars(lines[i].as_str());
        match crate::curl::find_char_vec(&lchars, ':') {
            Some(p) => {
                let n = lchars.len();
                proof {
                    assert(p < n);
                }
                let keypart = trim_chars(&subchars(&lchars, 0, p));
                let valpart = trim_chars(&subchars(&lchars, p + 1, n));
                if keypart.len() > 0 && valpart.len() > 0 {
                    let key = chars_to_string(&keypart);
                    let value = chars_to_string(&valpart);
                    crate::request::kv_insert(&mut pairs, key, value);
                }
            },
            None => {},
        }
        i += 1;
    }
    pairs
}

/// Folding from nothing is reading from the start.
proof fn lemma_kv_fold_is_from(ls: Seq<Seq<char>>, i: int)
    ensures
        kv_fold(Seq::empty(), ls, i) == kv_from_lines(ls, i),
    decreases ls.len() - i,
{
    if 0 <= i < ls.len() {
        lemma_kv_fold_is_from(ls, i + 1);
        match crate::curl::find_char(ls[i], ':', 0) {
            Some(p) => {
                let key = trim_view(ls[i].subrange(0, p));
                let value = trim_view(ls[i].subrange(p + 1, ls[i].len() as int));
                if key.len() > 0 && value.len() > 0 {
                    assert(kv_put(Seq::empty(), key, value) =~= seq![(key, value)]);
                }
            },
            None => {},
        }
    }
}

} // verus!
