//! Turning a request description into the one outbound call it stands for.

use crate::header_map::{
    content_type_name, empty_header_map, extend_headers, has_header, header_name_count,
    header_values, insert_header, is_valid_header_name, json_content_type_bytes,
    json_content_type_value, lemma_lower_name_of_lower, method_name, method_name_of, valid_name,
    HEADER_NAMES_LIMIT,
};
use crate::trace::{add_trace_header, extra_keys_view, traced, valid_extra_keys};
use crate::url::{compose_url, composed};
use vstd::prelude::*;

verus! {

/// The timeout of a call that names none: two minutes, in milliseconds.
pub const DEFAULT_TIMEOUT_MS: u64 = 120000;

/// Where a method puts the request data.
#[derive(Clone, Copy, Debug, PartialEq, Eq)]
pub enum Placement {
    /// Appended to the URL as a query.
    Query,
    /// Sent as the request body, as JSON unless a content type is given.
    Body,
    /// Not sent at all.
    Neither,
}

/// Where the data of a call goes, by the name of its method.
pub open spec fn placement_of(method_name: Seq<char>) -> Placement {
    if method_name == "GET"@ || method_name == "DELETE"@ {
        Placement::Query
    } else if method_name == "POST"@ || method_name == "PUT"@ {
        Placement::Body
    } else {
        Placement::Neither
    }
}

/// Where the data of a call with `method` goes: GET and DELETE put it in the
/// query, POST and PUT in the body, every other method drops it.
pub fn payload_placement(method: &http::Method) -> (r: Placement)
    ensures
        r == placement_of(method_name_of(*method)),
{
    let name = method_name(method);
    if name == String::from_str("GET") || name == String::from_str("DELETE") {
        Placement::Query
    } else if name == String::from_str("POST") || name == String::from_str("PUT") {
        Placement::Body
    } else {
        Placement::Neither
    }
}

/// `url` with `data` appended as a query: after `&` where `url` ends with
/// `?`, after `?` otherwise.
pub open spec fn with_query_spec(url: Seq<char>, data: Seq<char>) -> Seq<char> {
    if url.len() > 0 && url.last() == '?' {
        url + seq!['&'] + data
    } else {
        url + seq!['?'] + data
    }
}

/// Appends `data` to `url` verbatim as a query fragment.
pub fn append_query(url: String, data: &str) -> (r: String)
    ensures
        r@ == with_query_spec(url@, data@),
{
    let mut url = url;
    let n = url.as_str().unicode_len();
    let sep = if n > 0 && url.as_str().get_char(n - 1) == '?' {
        let s = "&";
        proof {
            reveal_strlit("&");
        }
        assert(s@ =~= seq!['&']);
        s
    } else {
        let s = "?";
        proof {
            reveal_strlit("?");
        }
        assert(s@ =~= seq!['?']);
        s
    };
    url.append(sep);
    url.append(data);
    url
}

/// What an optional outbound map holds; nothing when absent.
pub open spec fn opt_header_values(h: Option<http::HeaderMap>) -> Option<
    Map<Seq<char>, Seq<Seq<u8>>>,
> {
    match h {
        Some(h) => Some(header_values(h)),
        None => None,
    }
}

/// What an optional inbound map holds; nothing when absent.
pub open spec fn opt_inbound_values(h: Option<actix_http::header::HeaderMap>) -> Option<
    Map<Seq<char>, Seq<Seq<u8>>>,
> {
    match h {
        Some(h) => Some(crate::header_map::inbound_header_values(h)),
        None => None,
    }
}

/// What an optional string holds.
pub open spec fn opt_string_view(s: Option<String>) -> Option<Seq<char>> {
    match s {
        Some(s) => Some(s@),
        None => None,
    }
}

/// The outbound headers: the forwarded tracing headers, overridden by the
/// explicit headers, with a JSON content type added for a body-carrying
/// method that has none.
pub open spec fn outbound_headers(
    method_name: Seq<char>,
    origin_headers: Option<Map<Seq<char>, Seq<Seq<u8>>>>,
    extra_header_keys: Seq<Seq<char>>,
    headers: Option<Map<Seq<char>, Seq<Seq<u8>>>>,
) -> Map<Seq<char>, Seq<Seq<u8>>> {
    let forwarded = match origin_headers {
        Some(o) => traced(o, extra_header_keys),
        None => Map::empty(),
    };
    let merged = match headers {
        Some(h) => forwarded.union_prefer_right(h),
        None => forwarded,
    };
    if placement_of(method_name) == Placement::Body && !merged.contains_key(content_type_name()) {
        merged.insert(content_type_name(), seq![json_content_type_bytes()])
    } else {
        merged
    }
}

/// Explicit headers that leave room in an outbound map, beside `extra_header_keys`.
pub open spec fn headers_fit(
    headers: Option<Map<Seq<char>, Seq<Seq<u8>>>>,
    extra_header_keys: Seq<Seq<char>>,
) -> bool {
    match headers {
        Some(h) => h.dom().finite() && extra_header_keys.len() + 6 + h.len() < HEADER_NAMES_LIMIT,
        None => true,
    }
}

/// Builds the outbound header set; see [`outbound_headers`].
pub fn resolve_headers(
    method: &http::Method,
    origin_headers: Option<actix_http::header::HeaderMap>,
    extra_header_keys: &Option<Vec<&'static str>>,
    headers: Option<http::HeaderMap>,
) -> (r: http::HeaderMap)
    requires
        valid_extra_keys(extra_keys_view(*extra_header_keys)),
        headers_fit(opt_header_values(headers), extra_keys_view(*extra_header_keys)),
    ensures
        header_values(r) == outbound_headers(
            method_name_of(*method),
            opt_inbound_values(origin_headers),
            extra_keys_view(*extra_header_keys),
            opt_header_values(headers),
        ),
{
    let ghost extra = extra_keys_view(*extra_header_keys);
    let mut merged = match origin_headers {
        Some(o) => add_trace_header(o, extra_header_keys),
        None => empty_header_map(),
    };
    assert(header_values(merged).dom().finite());
    assert(header_values(merged).len() <= extra.len() + 5);
    match headers {
        Some(h) => {
            proof {
                vstd::set_lib::lemma_len_union(
                    header_values(merged).dom(),
                    header_values(h).dom(),
                );
                let before = header_values(merged);
                assert(before.union_prefer_right(header_values(h)).dom() =~= before.dom().union(
                    header_values(h).dom(),
                ));
            }
            extend_headers(&mut merged, h);
        },
        None => {},
    }
    match payload_placement(method) {
        Placement::Body => {
            let name = "content-type";
            proof {
                reveal_strlit("content-type");
                lemma_lower_name_of_lower(name@);
            }
            if !has_header(&merged, name) {
                insert_header(&mut merged, name, json_content_type_value());
            }
        },
        _ => {},
    }
    merged
}

/// One call to make, as a caller describes it.
pub struct RequestConfig {
    /// A path to join to `base_url`, or the whole URL when there is no base.
    pub url: String,
    pub method: http::Method,
    pub base_url: Option<String>,
    /// Explicit headers; they win over forwarded tracing headers.
    pub headers: Option<http::HeaderMap>,
    /// Pre-serialized data: a query fragment or a request body, by method.
    pub data: Option<String>,
    /// Timeout in milliseconds; two minutes when absent.
    pub timeout_ms: Option<u64>,
    /// The headers of the inbound request that tracing headers come from.
    pub origin_headers: Option<actix_http::header::HeaderMap>,
    /// Further header names to forward from `origin_headers`.
    pub extra_header_keys: Option<Vec<&'static str>>,
}

/// A call description without its path and method.
pub struct BaseRequestConfig {
    pub base_url: Option<String>,
    pub headers: Option<http::HeaderMap>,
    pub data: Option<String>,
    /// Timeout in milliseconds; two minutes when absent.
    pub timeout_ms: Option<u64>,
    pub origin_headers: Option<actix_http::header::HeaderMap>,
    pub extra_header_keys: Option<Vec<&'static str>>,
}

impl BaseRequestConfig {
    /// The full description of a call with `method` to `url`.
    pub fn with_method(self, url: String, method: http::Method) -> (r: RequestConfig)
        ensures
            r.url == url,
            r.method == method,
            r.base_url == self.base_url,
            r.headers == self.headers,
            r.data == self.data,
            r.timeout_ms == self.timeout_ms,
            r.origin_headers == self.origin_headers,
            r.extra_header_keys == self.extra_header_keys,
    {
        RequestConfig {
            url,
            method,
            base_url: self.base_url,
            headers: self.headers,
            data: self.data,
            timeout_ms: self.timeout_ms,
            origin_headers: self.origin_headers,
            extra_header_keys: self.extra_header_keys,
        }
    }
}

/// The call that is actually sent.
pub struct OutboundRequest {
    pub method: http::Method,
    pub url: String,
    pub headers: http::HeaderMap,
    pub body: Option<String>,
    /// Timeout in milliseconds.
    pub timeout_ms: u64,
}

/// The URL that a call is sent to: the composed URL, with the data as a
/// query for a query-carrying method.
pub open spec fn outbound_url(
    method_name: Seq<char>,
    base_url: Option<Seq<char>>,
    path: Seq<char>,
    data: Option<Seq<char>>,
) -> Seq<char> {
    let url = composed(base_url, path);
    match data {
        Some(d) if placement_of(method_name) == Placement::Query => with_query_spec(url, d),
        _ => url,
    }
}

/// What a request description asks of its sizes and header names: each
/// extra key is a lower-case header name, and the header maps stay small
/// enough to grow.
pub open spec fn request_fits(options: RequestConfig) -> bool {
    &&& valid_extra_keys(extra_keys_view(options.extra_header_keys))
    &&& headers_fit(opt_header_values(options.headers), extra_keys_view(options.extra_header_keys))
}

/// Whether a request description meets [`request_fits`]: a caller that
/// cannot show it tests it here first.
pub fn check_request_fits(options: &RequestConfig) -> (r: bool)
    ensures
        r == request_fits(*options),
{
    let ghost extra = extra_keys_view(options.extra_header_keys);
    let n: usize = match &options.extra_header_keys {
        Some(keys) => {
            let mut i: usize = 0;
            while i < keys.len()
                invariant
                    extra == keys@.map_values(|s: &str| s@),
                    extra == extra_keys_view(options.extra_header_keys),
                    i <= keys@.len(),
                    forall|j: int| 0 <= j < i ==> valid_name(#[trigger] extra[j]),
                decreases keys@.len() - i,
            {
                assert(extra[i as int] == keys@[i as int]@);
                if !is_valid_header_name(keys[i]) {
                    return false;
                }
                i = i + 1;
            }
            keys.len()
        },
        None => 0,
    };
    if n >= HEADER_NAMES_LIMIT - 5 {
        return false;
    }
    match &options.headers {
        Some(h) => header_name_count(h) < HEADER_NAMES_LIMIT - 6 - n,
        None => true,
    }
}

/// Resolves a request description into the call to send: its URL, headers,
/// body and timeout.
pub fn prepare_request(options: RequestConfig) -> (r: OutboundRequest)
    requires
        request_fits(options),
    ensures
        r.method == options.method,
        r.url@ == outbound_url(
            method_name_of(options.method),
            opt_string_view(options.base_url),
            options.url@,
            opt_string_view(options.data),
        ),
        header_values(r.headers) == outbound_headers(
            method_name_of(options.method),
            opt_inbound_values(options.origin_headers),
            extra_keys_view(options.extra_header_keys),
            opt_header_values(options.headers),
        ),
        r.body == if placement_of(method_name_of(options.method)) == Placement::Body {
            options.data
        } else {
            None
        },
        r.timeout_ms == match options.timeout_ms {
            Some(t) => t,
            None => DEFAULT_TIMEOUT_MS,
        },
{
    let placement = payload_placement(&options.method);
    let mut url = compose_url(&options.base_url, options.url.as_str());
    match (&options.data, placement) {
        (Some(d), Placement::Query) => {
            url = append_query(url, d.as_str());
        },
        _ => {},
    }
    let headers = resolve_headers(
        &options.method,
        options.origin_headers,
        &options.extra_header_keys,
        options.headers,
    );
    let body = match placement {
        Placement::Body => options.data,
        _ => None,
    };
    let timeout_ms = match options.timeout_ms {
        Some(t) => t,
        None => DEFAULT_TIMEOUT_MS,
    };
    OutboundRequest { method: options.method, url, headers, body, timeout_ms }
}

/// Explicit headers win: whatever the tracing headers forward, a name that
/// the explicit headers hold goes out with the explicit values.
pub proof fn lemma_explicit_headers_win(
    method_name: Seq<char>,
    origin_headers: Option<Map<Seq<char>, Seq<Seq<u8>>>>,
    extra_header_keys: Seq<Seq<char>>,
    headers: Map<Seq<char>, Seq<Seq<u8>>>,
    name: Seq<char>,
)
    requires
        headers.contains_key(name),
    ensures
        outbound_headers(method_name, origin_headers, extra_header_keys, Some(headers)).contains_key(
            name,
        ),
        outbound_headers(method_name, origin_headers, extra_header_keys, Some(headers))[name]
            == headers[name],
{
}

/// A POST whose explicit and forwarded headers name no content type goes out
/// with a JSON content type, and its data is its body.
pub proof fn lemma_post_body_placement(
    origin_headers: Option<Map<Seq<char>, Seq<Seq<u8>>>>,
    extra_header_keys: Seq<Seq<char>>,
    headers: Option<Map<Seq<char>, Seq<Seq<u8>>>>,
)
    requires
        match headers {
            Some(h) => !h.contains_key(content_type_name()),
            None => true,
        },
        match origin_headers {
            Some(o) => !traced(o, extra_header_keys).contains_key(content_type_name()),
            None => true,
        },
    ensures
        placement_of("POST"@) == Placement::Body,
        outbound_headers("POST"@, origin_headers, extra_header_keys, headers).contains_key(
            content_type_name(),
        ),
        outbound_headers("POST"@, origin_headers, extra_header_keys, headers)[content_type_name()]
            == seq![json_content_type_bytes()],
{
    reveal_strlit("POST");
    reveal_strlit("GET");
    reveal_strlit("DELETE");
    assert("POST"@.len() != "GET"@.len());
    assert("POST"@.len() != "DELETE"@.len());
}

} // verus!
