//! An inbound request, held as the plain values that rules read.

use vstd::prelude::*;

verus! {

/// One header line of a request.
#[derive(Clone, Debug)]
pub struct Header {
    /// The header's name.
    pub name: String,
    /// The header's value as it came, where it is readable as text; `None`
    /// where it is not.
    pub value: Option<String>,
}

/// One cookie of a request.
#[derive(Clone, Debug)]
pub struct Cookie {
    pub name: String,
    pub value: String,
}

/// What the firewall reads of a request.
#[derive(Clone, Debug)]
pub struct Request {
    /// The method token, as received.
    pub method: String,
    /// The path of the request target.
    pub path: String,
    /// The raw query of the request target, where it has one.
    pub query: Option<String>,
    /// The header lines, in the order received.
    pub headers: Vec<Header>,
    /// The cookies, in the order received; `None` where they do not parse.
    pub cookies: Option<Vec<Cookie>>,
    /// The address of the transport peer, where it is known.
    pub peer_ip: Option<String>,
}

/// A name with the value that goes with it.
pub type Entry = (Seq<char>, Seq<char>);

impl Header {
    /// What a statement reads of the value: its text, and the empty text
    /// where the value is not readable.
    pub open spec fn reading(&self) -> Seq<char> {
        match self.value {
            Some(v) => v@,
            None => Seq::empty(),
        }
    }
}

/// What statements read of the headers, in order: each name with the reading
/// of its value. Whether a value was readable does not show here.
pub open spec fn header_readings(headers: Seq<Header>) -> Seq<Entry> {
    Seq::new(headers.len(), |i: int| (headers[i].name@, headers[i].reading()))
}

/// The cookies as entries, in order.
pub open spec fn cookie_entries(cookies: Seq<Cookie>) -> Seq<Entry> {
    Seq::new(cookies.len(), |i: int| (cookies[i].name@, cookies[i].value@))
}

impl Request {
    /// The raw query as text: empty where there is none.
    pub open spec fn query_text(&self) -> Seq<char> {
        match self.query {
            Some(q) => q@,
            None => Seq::empty(),
        }
    }

    /// The peer's address as text: empty where it is not known.
    pub open spec fn peer_text(&self) -> Seq<char> {
        match self.peer_ip {
            Some(ip) => ip@,
            None => Seq::empty(),
        }
    }

    /// The path and query of the request target, as sent on to the upstream:
    /// the path, then the query behind a question mark where there is one; a
    /// single slash where the request has neither.
    pub open spec fn target(&self) -> Seq<char> {
        match self.query {
            Some(q) => self.path@ + "?"@ + q@,
            None => if self.path@.len() == 0 {
                "/"@
            } else {
                self.path@
            },
        }
    }
}

} // verus!
