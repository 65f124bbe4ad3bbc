//! The HTTP request methods the client can send.

use vstd::prelude::*;
use vstd::string::StringExecFns;

use crate::strutil::str_eq;

verus! {

/// A supported HTTP method.
#[derive(Clone, Copy, Debug, PartialEq, Eq, Structural)]
pub enum HttpMethod {
    Get,
    Post,
    Put,
    Delete,
    Patch,
    Head,
    Options,
}

/// The canonical (upper-case) name of a method.
pub open spec fn method_name(m: HttpMethod) -> Seq<char> {
    match m {
        HttpMethod::Get => "GET"@,
        HttpMethod::Post => "POST"@,
        HttpMethod::Put => "PUT"@,
        HttpMethod::Patch => "PATCH"@,
        HttpMethod::Delete => "DELETE"@,
        HttpMethod::Head => "HEAD"@,
        HttpMethod::Options => "OPTIONS"@,
    }
}

/// A name for what Unicode uppercasing produces: the result depends on
/// the characters alone.
pub uninterp spec fn upper_of(s: Seq<char>) -> Seq<char>;

/// Every character is an ASCII capital letter.
pub open spec fn ascii_caps(s: Seq<char>) -> bool {
    forall|i: int|
        0 <= i < s.len() ==> ('A' as u32) <= (#[trigger] s[i] as u32) && (s[i] as u32) <= (
        'Z' as u32)
}

/// Relies on `str::to_uppercase`: the string mapped to upper case by the
/// Unicode uppercasing tables, a function of the characters alone. ASCII
/// capitals are fixed points of that map, so a string of capitals comes
/// back unchanged.
#[verifier::external_body]
fn to_upper(s: &str) -> (r: String)
    ensures
        r@ == upper_of(s@),
        ascii_caps(s@) ==> r@ == s@,
{
    s.to_uppercase()
}

/// Which method a name denotes: parsing is case-insensitive by Unicode
/// uppercasing; any other name is `None`.
pub open spec fn parse_method(s: Seq<char>) -> Option<HttpMethod> {
    if upper_of(s) == "GET"@ {
        Some(HttpMethod::Get)
    } else if upper_of(s) == "POST"@ {
        Some(HttpMethod::Post)
    } else if upper_of(s) == "PUT"@ {
        Some(HttpMethod::Put)
    } else if upper_of(s) == "PATCH"@ {
        Some(HttpMethod::Patch)
    } else if upper_of(s) == "DELETE"@ {
        Some(HttpMethod::Delete)
    } else if upper_of(s) == "HEAD"@ {
        Some(HttpMethod::Head)
    } else if upper_of(s) == "OPTIONS"@ {
        Some(HttpMethod::Options)
    } else {
        None
    }
}

/// The method after `m` in display order, wrapping around.
pub open spec fn next_method(m: HttpMethod) -> HttpMethod {
    match m {
        HttpMethod::Get => HttpMethod::Post,
        HttpMethod::Post => HttpMethod::Put,
        HttpMethod::Put => HttpMethod::Patch,
        HttpMethod::Patch => HttpMethod::Delete,
        HttpMethod::Delete => HttpMethod::Head,
        HttpMethod::Head => HttpMethod::Options,
        HttpMethod::Options => HttpMethod::Get,
    }
}

/// The method before `m` in display order, wrapping around.
pub open spec fn previous_method(m: HttpMethod) -> HttpMethod {
    match m {
        HttpMethod::Get => HttpMethod::Options,
        HttpMethod::Post => HttpMethod::Get,
        HttpMethod::Put => HttpMethod::Post,
        HttpMethod::Patch => HttpMethod::Put,
        HttpMethod::Delete => HttpMethod::Patch,
        HttpMethod::Head => HttpMethod::Delete,
        HttpMethod::Options => HttpMethod::Head,
    }
}

impl HttpMethod {
    /// The canonical name, e.g. `"GET"`.
    pub fn as_str(&self) -> (r: &'static str)
        ensures
            r@ == method_name(*self),
    {
        match self {
            HttpMethod::Get => "GET",
            HttpMethod::Post => "POST",
            HttpMethod::Put => "PUT",
            HttpMethod::Patch => "PATCH",
            HttpMethod::Delete => "DELETE",
            HttpMethod::Head => "HEAD",
            HttpMethod::Options => "OPTIONS",
        }
    }

    /// Parse a method name, case-insensitively (by Unicode uppercasing);
    /// any other name is `None`. A canonical name parses back to its
    /// method.
    #[verifier::rlimit(50)]
    pub fn from_name(s: &str) -> (r: Option<HttpMethod>)
        ensures
            r == parse_method(s@),
            s@ == "GET"@ ==> r == Some(HttpMethod::Get),
            s@ == "POST"@ ==> r == Some(HttpMethod::Post),
            s@ == "PUT"@ ==> r == Some(HttpMethod::Put),
            s@ == "PATCH"@ ==> r == Some(HttpMethod::Patch),
            s@ == "DELETE"@ ==> r == Some(HttpMethod::Delete),
            s@ == "HEAD"@ ==> r == Some(HttpMethod::Head),
            s@ == "OPTIONS"@ ==> r == Some(HttpMethod::Options),
    {
        let upper = to_upper(s);
        proof {
            reveal_strlit("GET");
            reveal_strlit("POST");
            reveal_strlit("PUT");
            reveal_strlit("PATCH");
            reveal_strlit("DELETE");
            reveal_strlit("HEAD");
            reveal_strlit("OPTIONS");
            assert(ascii_caps("GET"@));
            assert(ascii_caps("POST"@));
            assert(ascii_caps("PUT"@));
            assert(ascii_caps("PATCH"@));
            assert(ascii_caps("DELETE"@));
            assert(ascii_caps("HEAD"@));
            assert(ascii_caps("OPTIONS"@));
            assert("PUT"@ != "GET"@) by {
                assert("PUT"@[0] == 'P' && "GET"@[0] == 'G');
            }
            assert("HEAD"@ != "POST"@) by {
                assert("HEAD"@[0] == 'H' && "POST"@[0] == 'P');
            }
        }
        if str_eq(upper.as_str(), "GET") {
            Some(HttpMethod::Get)
        } else if str_eq(upper.as_str(), "POST") {
            Some(HttpMethod::Post)
        } else if str_eq(upper.as_str(), "PUT") {
            Some(HttpMethod::Put)
        } else if str_eq(upper.as_str(), "PATCH") {
            Some(HttpMethod::Patch)
        } else if str_eq(upper.as_str(), "DELETE") {
            Some(HttpMethod::Delete)
        } else if str_eq(upper.as_str(), "HEAD") {
            Some(HttpMethod::Head)
        } else if str_eq(upper.as_str(), "OPTIONS") {
            Some(HttpMethod::Options)
        } else {
            None
        }
    }

    /// The next method in display order, wrapping around.
    pub fn next(&self) -> (r: HttpMethod)
        ensures
            r == next_method(*self),
    {
        match self {
            HttpMethod::Get => HttpMethod::Post,
            HttpMethod::Post => HttpMethod::Put,
            HttpMethod::Put => HttpMethod::Patch,
            HttpMethod::Patch => HttpMethod::Delete,
            HttpMethod::Delete => HttpMethod::Head,
            HttpMethod::Head => HttpMethod::Options,
            HttpMethod::Options => HttpMethod::Get,
        }
    }

    /// The previous method in display order, wrapping around.
    pub fn previous(&self) -> (r: HttpMethod)
        ensures
            r == previous_method(*self),
    {
        match self {
            HttpMethod::Get => HttpMethod::Options,
            HttpMethod::Post => HttpMethod::Get,
            HttpMethod::Put => HttpMethod::Post,
            HttpMethod::Patch => HttpMethod::Put,
            HttpMethod::Delete => HttpMethod::Patch,
            HttpMethod::Head => HttpMethod::Delete,
            HttpMethod::Options => HttpMethod::Head,
        }
    }
}

impl std::str::FromStr for HttpMethod {
    type Err = String;

    fn from_str(s: &str) -> Result<HttpMethod, String> {
        match HttpMethod::from_name(s) {
            Some(m) => Ok(m),
            None => Err(<String as StringExecFns>::from_str("Unknown HTTP method: ").concat(s)),
        }
    }
}

} // verus!
