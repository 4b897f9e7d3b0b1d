//! From a request to the address and headers that carry it.

use vstd::prelude::*;
use vstd::string::StringExecFns;
use crate::options::{RequestView, TranslateOptions};

verus! {

/// Name of the header that says where the request comes from.
pub const REFERER_NAME: &'static str = "Referer";

/// The page that a browser would come from.
pub const REFERER: &'static str = "https://translate.google.com/";

/// Name of the header that says which browser asks.
pub const USER_AGENT_NAME: &'static str = "User-Agent";

/// A mobile browser that the service answers to.
pub const USER_AGENT: &'static str =
    "Mozilla/5.0 (Linux; Android 6.0; Nexus 5 Build/MRA58N) AppleWebKit/537.36 (KHTML, like Gecko) Chrome/129.0.0.0 Mobile Safari/537.36";

/// One header line.
#[derive(Clone, Copy, Debug, PartialEq, Eq)]
pub struct Header {
    pub name: &'static str,
    pub value: &'static str,
}

/// Everything that a GET needs: the absolute address with its query, and the
/// headers to send along.
#[derive(Clone, Debug, PartialEq, Eq)]
pub struct RequestTarget {
    pub url: String,
    pub headers: Vec<Header>,
}

/// A target as a mathematical value: the address, and name and value of each
/// header in the order in which they are sent.
pub struct TargetView {
    pub url: Seq<char>,
    pub headers: Seq<(Seq<char>, Seq<char>)>,
}

impl View for RequestTarget {
    type V = TargetView;

    open spec fn view(&self) -> TargetView {
        TargetView {
            url: self.url@,
            headers: Seq::new(
                self.headers@.len(),
                |i: int| (self.headers@[i].name@, self.headers@[i].value@),
            ),
        }
    }
}

/// The address of a request: the base, then the five parameters in the
/// order client, sl, tl, dt, q, each field as it stands.
pub open spec fn target_url(base: Seq<char>, request: RequestView) -> Seq<char> {
    base + "?client="@ + request.client + "&sl="@ + request.source_lang + "&tl="@
        + request.target_lang + "&dt="@ + request.dst_target + "&q="@ + request.query
}

/// The two headers that every request carries.
pub open spec fn fixed_headers() -> Seq<(Seq<char>, Seq<char>)> {
    seq![(REFERER_NAME@, REFERER@), (USER_AGENT_NAME@, USER_AGENT@)]
}

/// The target of a request at a base address.
pub open spec fn target_of(base: Seq<char>, request: RequestView) -> TargetView {
    TargetView { url: target_url(base, request), headers: fixed_headers() }
}

/// Builds the target of a request at the given base address. No field is
/// validated or escaped.
pub fn encode(endpoint_base: &str, request: &TranslateOptions<'_>) -> (r: RequestTarget)
    ensures
        r@ == target_of(endpoint_base@, request@),
{
    let mut url = String::from_str(endpoint_base);
    url.append("?client=");
    url.append(request.client);
    url.append("&sl=");
    url.append(request.source_lang);
    url.append("&tl=");
    url.append(request.target_lang);
    url.append("&dt=");
    url.append(request.dst_target);
    url.append("&q=");
    url.append(request.query);
    let headers = vec![
        Header { name: REFERER_NAME, value: REFERER },
        Header { name: USER_AGENT_NAME, value: USER_AGENT },
    ];
    let r = RequestTarget { url, headers };
    assert(r@.headers =~= fixed_headers());
    r
}

} // verus!
