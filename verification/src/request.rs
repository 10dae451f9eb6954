//! The request that asks the service for a route: its headers, its
//! parameters and its URL.

use crate::error::RouteError;
use crate::params::{emitted, lemma_unset_run, present_upto, CalcRouteRequestParam, Pair};
use crate::position::Position;
use crate::text::has_char;
use vstd::prelude::*;

verus! {

/// The address that route requests are sent to.
pub const BASE_URL: &'static str = "https://mapfanapi-route.p.rapidapi.com/calcroute";

/// The host that the gateway forwards route requests to.
pub const API_HOST: &'static str = "mapfanapi-route.p.rapidapi.com";

/// The two headers that the gateway asks for on every request.
#[derive(Debug, PartialEq, Eq)]
pub struct RequestHeader {
    /// The caller's key for the gateway.
    pub api_key: String,
    /// The host behind the gateway.
    pub api_host: String,
}

impl RequestHeader {
    /// The headers for the caller with the given key.
    pub fn new(api_key: String) -> (h: Self)
        ensures
            h.api_key == api_key,
            h.api_host@ == API_HOST@,
    {
        RequestHeader { api_key, api_host: API_HOST.to_string() }
    }

    /// The headers as names and values, the key first.
    pub fn to_pairs(&self) -> (pairs: Vec<(String, String)>)
        ensures
            pairs.deep_view() == seq![
                ("X-RapidAPI-Key"@, self.api_key@),
                ("X-RapidAPI-Host"@, self.api_host@),
            ],
    {
        let mut pairs: Vec<(String, String)> = Vec::new();
        pairs.push(("X-RapidAPI-Key".to_string(), self.api_key.clone()));
        pairs.push(("X-RapidAPI-Host".to_string(), self.api_host.clone()));
        assert(pairs.deep_view() =~= seq![
            ("X-RapidAPI-Key"@, self.api_key@),
            ("X-RapidAPI-Host"@, self.api_host@),
        ]);
        pairs
    }
}

/// The request for a route between two positions, through the given
/// waypoints and leaving at the given time where these are given. No other
/// modifier is set.
pub fn route_request(
    start: Position,
    destination: Position,
    via: Option<String>,
    date: Option<String>,
) -> (p: CalcRouteRequestParam)
    ensures
        p.spec_params() == seq![
            ("start"@, start.spec_text()),
            ("destination"@, destination.spec_text()),
        ] + emitted(("via"@, via.deep_view())) + emitted(("date"@, date.deep_view())),
{
    let mut p = CalcRouteRequestParam::new(start, destination);
    if let Some(date) = date {
        p.date(date);
    }
    if let Some(via) = via {
        p.via(via);
    }
    proof {
        let slots = p.modifiers();
        assert forall|i: int| 0 <= i < 27 implies #[trigger] slots[i] == p.modifier(i) by {}
        lemma_unset_run(slots, 0, 1);
        lemma_unset_run(slots, 3, 27);
        assert(present_upto(slots, 2) == present_upto(slots, 1) + emitted(slots[1]));
        assert(present_upto(slots, 3) == present_upto(slots, 2) + emitted(slots[2]));
        assert(present_upto(slots, 1) + emitted(slots[1]) =~= emitted(slots[1]));
    }
    p
}

/// Whether the service answered with the one status that carries a route.
pub fn check_status(status: u16) -> (r: Result<(), RouteError>)
    ensures
        r == if status == 200 {
            Ok::<(), RouteError>(())
        } else {
            Err::<(), RouteError>(RouteError::Status(status))
        },
{
    if status == 200 {
        Ok(())
    } else {
        Err(RouteError::Status(status))
    }
}

/// The URL that `Url::parse_with_params` makes of a base address and query
/// pairs, or `None` where it refuses the base address.
pub uninterp spec fn url_with_query(base: Seq<char>, pairs: Seq<Pair>) -> Option<Seq<char>>;

/// The longest base address, counted in characters, that a URL is made of.
pub const MAX_BASE_LEN: usize = 0x00ff_ffff;

/// `Url::parse_with_params` of the `url` crate, reached as `reqwest::Url`,
/// with the URL handed back as text. The contract gives its result the name
/// [`url_with_query`]. Two kinds of base address are left out, because the
/// crate indexes a URL with 32 bits and stops the program where an index
/// does not fit. One is a base address with a fragment: the fragment is put
/// back behind the query, however long the query has become. The other is
/// a base address so long that the place of its query cannot be indexed;
/// a character of the base takes at most twelve bytes in the URL, so a base
/// of at most [`MAX_BASE_LEN`] characters is far from that.
#[verifier::external_body]
fn parse_with_params(base: &str, pairs: &Vec<(String, String)>) -> (url: Option<String>)
    requires
        !base@.contains('#'),
        base@.len() <= MAX_BASE_LEN,
    ensures
        url.deep_view() == url_with_query(base@, pairs.deep_view()),
{
    reqwest::Url::parse_with_params(base, pairs).ok().map(String::from)
}

/// What is made of a base address and query pairs: the URL that holds the
/// pairs as its query, unless the base address is longer than
/// [`MAX_BASE_LEN`] characters, has a fragment, or is no absolute URL.
pub open spec fn spec_url_with_params(base: Seq<char>, pairs: Seq<Pair>) -> Result<
    Seq<char>,
    RouteError,
> {
    if base.len() > MAX_BASE_LEN || base.contains('#') {
        Err(RouteError::Url)
    } else {
        match url_with_query(base, pairs) {
            Some(url) => Ok(url),
            None => Err(RouteError::Url),
        }
    }
}

/// The URL that holds the given pairs as the query of a base address. The
/// base address must be an absolute URL without a fragment, of at most
/// [`MAX_BASE_LEN`] characters.
pub fn url_with_params(base: &str, pairs: &Vec<(String, String)>) -> (r: Result<String, RouteError>)
    ensures
        match r {
            Ok(url) => spec_url_with_params(base@, pairs.deep_view()) == Ok::<
                Seq<char>,
                RouteError,
            >(url@),
            Err(e) => spec_url_with_params(base@, pairs.deep_view()) == Err::<
                Seq<char>,
                RouteError,
            >(e),
        },
{
    if base.unicode_len() > MAX_BASE_LEN || has_char(base, '#') {
        return Err(RouteError::Url);
    }
    match parse_with_params(base, pairs) {
        Some(url) => Ok(url),
        None => Err(RouteError::Url),
    }
}

/// The address that route requests are sent to is short and holds no
/// fragment.
pub proof fn lemma_base_url_is_plain()
    ensures
        BASE_URL@.len() <= MAX_BASE_LEN,
        !BASE_URL@.contains('#'),
{
    reveal_strlit("https://mapfanapi-route.p.rapidapi.com/calcroute");
    assert(BASE_URL@ =~= seq![
        'h', 't', 't', 'p', 's', ':', '/', '/', 'm', 'a', 'p', 'f', 'a', 'n', 'a', 'p', 'i', '-',
        'r', 'o', 'u', 't', 'e', '.', 'p', '.', 'r', 'a', 'p', 'i', 'd', 'a', 'p', 'i', '.', 'c',
        'o', 'm', '/', 'c', 'a', 'l', 'c', 'r', 'o', 'u', 't', 'e',
    ]);
}

/// The URL of a request: the address of the service with the request's
/// query pairs.
pub fn request_url(params: CalcRouteRequestParam) -> (r: Result<String, RouteError>)
    ensures
        match r {
            Ok(url) => url_with_query(BASE_URL@, params.spec_params()) == Some(url@),
            Err(e) => e == RouteError::Url && url_with_query(BASE_URL@, params.spec_params())
                is None,
        },
{
    let pairs = params.to_params();
    proof {
        lemma_base_url_is_plain();
    }
    url_with_params(BASE_URL, &pairs)
}

} // verus!
