//! The tab structure of the interface: the main content tabs and the
//! request/response section tabs, with their display names, their index
//! mapping for the tab widgets, and the cyclic next/previous stepping the
//! key handler uses.

use vstd::prelude::*;

verus! {

/// The top-level content tabs.
#[derive(Clone, Copy, Debug, PartialEq, Eq, Structural)]
pub enum MainContentTab {
    Request,
    History,
}

impl MainContentTab {
    /// The tab after this one, wrapping around.
    pub open spec fn spec_next(self) -> MainContentTab {
        match self {
            MainContentTab::Request => MainContentTab::History,
            MainContentTab::History => MainContentTab::Request,
        }
    }

    /// The tab before this one, wrapping around.
    pub open spec fn spec_previous(self) -> MainContentTab {
        match self {
            MainContentTab::Request => MainContentTab::History,
            MainContentTab::History => MainContentTab::Request,
        }
    }

    /// The tab's display name.
    pub fn as_str(&self) -> (r: &'static str)
        ensures
            *self == MainContentTab::Request ==> r@ == "Request"@,
            *self == MainContentTab::History ==> r@ == "History"@,
    {
        match self {
            MainContentTab::Request => "Request",
            MainContentTab::History => "History",
        }
    }

    /// The tab's position among the main tabs.
    pub fn as_index(&self) -> (r: usize)
        ensures
            r == match *self {
                MainContentTab::Request => 0int,
                MainContentTab::History => 1int,
            },
    {
        match self {
            MainContentTab::Request => 0,
            MainContentTab::History => 1,
        }
    }

    /// The tab at a position; positions past the tabs give `None`.
    pub fn from_index(index: usize) -> (r: Option<MainContentTab>)
        ensures
            r == match index {
                0usize => Some(MainContentTab::Request),
                1usize => Some(MainContentTab::History),
                _ => None::<MainContentTab>,
            },
    {
        match index {
            0 => Some(MainContentTab::Request),
            1 => Some(MainContentTab::History),
            _ => None,
        }
    }

    /// The tab after this one, wrapping around.
    pub fn next(&self) -> (r: MainContentTab)
        ensures
            r == match *self {
                MainContentTab::Request => MainContentTab::History,
                MainContentTab::History => MainContentTab::Request,
            },
    {
        match self {
            MainContentTab::Request => MainContentTab::History,
            MainContentTab::History => MainContentTab::Request,
        }
    }

    /// The tab before this one, wrapping around.
    pub fn previous(&self) -> (r: MainContentTab)
        ensures
            r == match *self {
                MainContentTab::Request => MainContentTab::History,
                MainContentTab::History => MainContentTab::Request,
            },
    {
        match self {
            MainContentTab::Request => MainContentTab::History,
            MainContentTab::History => MainContentTab::Request,
        }
    }
}

/// The tabs of the request section: headers, body, and query parameters.
#[derive(Clone, Copy, Debug, PartialEq, Eq, Structural)]
pub enum RequestSectionTab {
    Headers,
    Body,
    Query,
}

impl RequestSectionTab {
    /// The tab after this one, wrapping around.
    pub open spec fn spec_next(self) -> RequestSectionTab {
        match self {
            RequestSectionTab::Headers => RequestSectionTab::Body,
            RequestSectionTab::Body => RequestSectionTab::Query,
            RequestSectionTab::Query => RequestSectionTab::Headers,
        }
    }

    /// The tab before this one, wrapping around.
    pub open spec fn spec_previous(self) -> RequestSectionTab {
        match self {
            RequestSectionTab::Headers => RequestSectionTab::Query,
            RequestSectionTab::Body => RequestSectionTab::Headers,
            RequestSectionTab::Query => RequestSectionTab::Body,
        }
    }

    /// The tab's display name.
    pub fn as_str(&self) -> (r: &'static str)
        ensures
            *self == RequestSectionTab::Headers ==> r@ == "Headers"@,
            *self == RequestSectionTab::Body ==> r@ == "Body"@,
            *self == RequestSectionTab::Query ==> r@ == "Query"@,
    {
        match self {
            RequestSectionTab::Headers => "Headers",
            RequestSectionTab::Body => "Body",
            RequestSectionTab::Query => "Query",
        }
    }

    /// The tab's position among the request tabs.
    pub fn as_index(&self) -> (r: usize)
        ensures
            r == match *self {
                RequestSectionTab::Headers => 0int,
                RequestSectionTab::Body => 1int,
                RequestSectionTab::Query => 2int,
            },
    {
        match self {
            RequestSectionTab::Headers => 0,
            RequestSectionTab::Body => 1,
            RequestSectionTab::Query => 2,
        }
    }

    /// The tab at a position; positions past the tabs give `None`.
    pub fn from_index(index: usize) -> (r: Option<RequestSectionTab>)
        ensures
            r == match index {
                0usize => Some(RequestSectionTab::Headers),
                1usize => Some(RequestSectionTab::Body),
                2usize => Some(RequestSectionTab::Query),
                _ => None::<RequestSectionTab>,
            },
    {
        match index {
            0 => Some(RequestSectionTab::Headers),
            1 => Some(RequestSectionTab::Body),
            2 => Some(RequestSectionTab::Query),
            _ => None,
        }
    }

    /// The tab after this one, wrapping around.
    pub fn next(&self) -> (r: RequestSectionTab)
        ensures
            r == match *self {
                RequestSectionTab::Headers => RequestSectionTab::Body,
                RequestSectionTab::Body => RequestSectionTab::Query,
                RequestSectionTab::Query => RequestSectionTab::Headers,
            },
    {
        match self {
            RequestSectionTab::Headers => RequestSectionTab::Body,
            RequestSectionTab::Body => RequestSectionTab::Query,
            RequestSectionTab::Query => RequestSectionTab::Headers,
        }
    }

    /// The tab before this one, wrapping around.
    pub fn previous(&self) -> (r: RequestSectionTab)
        ensures
            r == match *self {
                RequestSectionTab::Headers => RequestSectionTab::Query,
                RequestSectionTab::Body => RequestSectionTab::Headers,
                RequestSectionTab::Query => RequestSectionTab::Body,
            },
    {
        match self {
            RequestSectionTab::Headers => RequestSectionTab::Query,
            RequestSectionTab::Body => RequestSectionTab::Headers,
            RequestSectionTab::Query => RequestSectionTab::Body,
        }
    }
}

/// The tabs of the response section: body, headers, and cookies.
#[derive(Clone, Copy, Debug, PartialEq, Eq, Structural)]
pub enum ResponseSectionTab {
    Body,
    Headers,
    Cookies,
}

impl ResponseSectionTab {
    /// The tab after this one, wrapping around.
    pub open spec fn spec_next(self) -> ResponseSectionTab {
        match self {
            ResponseSectionTab::Body => ResponseSectionTab::Headers,
            ResponseSectionTab::Headers => ResponseSectionTab::Cookies,
            ResponseSectionTab::Cookies => ResponseSectionTab::Body,
        }
    }

    /// The tab before this one, wrapping around.
    pub open spec fn spec_previous(self) -> ResponseSectionTab {
        match self {
            ResponseSectionTab::Body => ResponseSectionTab::Cookies,
            ResponseSectionTab::Headers => ResponseSectionTab::Body,
            ResponseSectionTab::Cookies => ResponseSectionTab::Headers,
        }
    }

    /// The tab's display name.
    pub fn as_str(&self) -> (r: &'static str)
        ensures
            *self == ResponseSectionTab::Body ==> r@ == "Body"@,
            *self == ResponseSectionTab::Headers ==> r@ == "Headers"@,
            *self == ResponseSectionTab::Cookies ==> r@ == "Cookies"@,
    {
        match self {
            ResponseSectionTab::Body => "Body",
            ResponseSectionTab::Headers => "Headers",
            ResponseSectionTab::Cookies => "Cookies",
        }
    }

    /// The tab's position among the response tabs.
    pub fn as_index(&self) -> (r: usize)
        ensures
            r == match *self {
                ResponseSectionTab::Body => 0int,
                ResponseSectionTab::Headers => 1int,
                ResponseSectionTab::Cookies => 2int,
            },
    {
        match self {
            ResponseSectionTab::Body => 0,
            ResponseSectionTab::Headers => 1,
            ResponseSectionTab::Cookies => 2,
        }
    }

    /// The tab at a position; positions past the tabs give `None`.
    pub fn from_index(index: usize) -> (r: Option<ResponseSectionTab>)
        ensures
            r == match index {
                0usize => Some(ResponseSectionTab::Body),
                1usize => Some(ResponseSectionTab::Headers),
                2usize => Some(ResponseSectionTab::Cookies),
                _ => None::<ResponseSectionTab>,
            },
    {
        match index {
            0 => Some(ResponseSectionTab::Body),
            1 => Some(ResponseSectionTab::Headers),
            2 => Some(ResponseSectionTab::Cookies),
            _ => None,
        }
    }

    /// The tab after this one, wrapping around.
    pub fn next(&self) -> (r: ResponseSectionTab)
        ensures
            r == match *self {
                ResponseSectionTab::Body => ResponseSectionTab::Headers,
                ResponseSectionTab::Headers => ResponseSectionTab::Cookies,
                ResponseSectionTab::Cookies => ResponseSectionTab::Body,
            },
    {
        match self {
            ResponseSectionTab::Body => ResponseSectionTab::Headers,
            ResponseSectionTab::Headers => ResponseSectionTab::Cookies,
            ResponseSectionTab::Cookies => ResponseSectionTab::Body,
        }
    }

    /// The tab before this one, wrapping around.
    pub fn previous(&self) -> (r: ResponseSectionTab)
        ensures
            r == match *self {
                ResponseSectionTab::Body => ResponseSectionTab::Cookies,
                ResponseSectionTab::Headers => ResponseSectionTab::Body,
                ResponseSectionTab::Cookies => ResponseSectionTab::Headers,
            },
    {
        match self {
            ResponseSectionTab::Body => ResponseSectionTab::Cookies,
            ResponseSectionTab::Headers => ResponseSectionTab::Body,
            ResponseSectionTab::Cookies => ResponseSectionTab::Headers,
        }
    }
}

} // verus!
