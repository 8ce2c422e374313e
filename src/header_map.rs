//! The header maps of `http` and `actix-http`, and the methods of `http`,
//! as this library sees them: what they hold, over plain values.

use vstd::prelude::*;

verus! {

#[verifier::external_type_specification]
#[verifier::external_body]
#[verifier::reject_recursive_types(T)]
pub struct ExHeaderMap<T>(http::HeaderMap<T>);

#[verifier::external_type_specification]
#[verifier::external_body]
pub struct ExHeaderValue(http::HeaderValue);

#[verifier::external_type_specification]
#[verifier::external_body]
pub struct ExInboundHeaderMap(actix_http::header::HeaderMap);

#[verifier::external_type_specification]
#[verifier::external_body]
pub struct ExMethod(http::Method);

/// The most distinct names that the library lets an outbound map reach;
/// well below the size at which an `http::HeaderMap` can no longer grow.
pub const HEADER_NAMES_LIMIT: usize = 6000;

/// What an outbound header map holds: each (lower-case) name with its
/// values, in the order the map keeps them.
pub uninterp spec fn header_values(m: http::HeaderMap) -> Map<Seq<char>, Seq<Seq<u8>>>;

/// What an inbound header map holds: each (lower-case) name with its values,
/// in the order the map keeps them.
pub uninterp spec fn inbound_header_values(m: actix_http::header::HeaderMap) -> Map<
    Seq<char>,
    Seq<Seq<u8>>,
>;

/// The bytes of a header value.
pub uninterp spec fn header_value_bytes(v: http::HeaderValue) -> Seq<u8>;

/// The name of a method, as `http` spells it (`GET`, `POST`, ...).
pub uninterp spec fn method_name_of(m: http::Method) -> Seq<char>;

/// A character that `http` accepts in a header name as it is, without
/// folding it to lower case.
pub open spec fn is_lower_name_char(c: char) -> bool {
    ||| 'a' <= c <= 'z'
    ||| '0' <= c <= '9'
    ||| c == '!' || c == '"' || c == '#' || c == '$' || c == '%' || c == '&' || c == '\''
    ||| c == '*' || c == '+' || c == '-' || c == '.' || c == '^' || c == '_' || c == '`'
    ||| c == '|' || c == '~'
}

/// `c` with ASCII upper case folded to lower case.
pub open spec fn lower_char(c: char) -> char {
    if 'A' <= c <= 'Z' {
        ((c as u32) + 32) as char
    } else {
        c
    }
}

/// A header name as `http` keeps it: ASCII upper case folded to lower case.
pub open spec fn lower_name(s: Seq<char>) -> Seq<char> {
    s.map_values(|c: char| lower_char(c))
}

/// A header name that `http` accepts: non-empty, not too long, and made of
/// token characters, upper case letters included.
pub open spec fn valid_name(s: Seq<char>) -> bool {
    &&& 0 < s.len() <= 65535
    &&& forall|i: int| 0 <= i < s.len() ==> is_lower_name_char(lower_char(#[trigger] s[i]))
}

/// A name without upper case letters is its own lower-case form.
pub proof fn lemma_lower_name_of_lower(s: Seq<char>)
    requires
        forall|i: int| 0 <= i < s.len() ==> !('A' <= #[trigger] s[i] <= 'Z'),
    ensures
        lower_name(s) == s,
{
    assert(lower_name(s) =~= s);
}

/// Whether `s` is a header name that `http` accepts.
pub fn is_valid_header_name(s: &str) -> (r: bool)
    ensures
        r == valid_name(s@),
{
    let n = s.unicode_len();
    if n == 0 || n > 65535 {
        return false;
    }
    let mut i: usize = 0;
    while i < n
        invariant
            n == s@.len(),
            i <= n,
            forall|j: int| 0 <= j < i ==> is_lower_name_char(lower_char(#[trigger] s@[j])),
        decreases n - i,
    {
        let c = s.get_char(i);
        let ok = ('A' <= c && c <= 'Z') || ('a' <= c && c <= 'z') || ('0' <= c && c <= '9') || c
            == '!' || c == '"' || c == '#' || c == '$' || c == '%' || c == '&' || c == '\'' || c
            == '*' || c == '+' || c == '-' || c == '.' || c == '^' || c == '_' || c == '`' || c
            == '|' || c == '~';
        if !ok {
            return false;
        }
        i = i + 1;
    }
    true
}

/// Relies on `actix_http::header::HeaderMap::get`: the first value kept
/// under a name, which is parsed by `HeaderName::from_str` and so folded
/// to lower case.
#[verifier::external_body]
pub(crate) fn inbound_first_value(m: &actix_http::header::HeaderMap, name: &str) -> (r: Option<
    http::HeaderValue,
>)
    requires
        valid_name(name@),
    ensures
        match r {
            Some(v) => {
                &&& inbound_header_values(*m).contains_key(lower_name(name@))
                &&& inbound_header_values(*m)[lower_name(name@)].len() > 0
                &&& header_value_bytes(v) == inbound_header_values(*m)[lower_name(name@)][0]
            },
            None => !inbound_header_values(*m).contains_key(lower_name(name@)),
        },
{
    m.get(name).cloned()
}

/// The contents of a map without headers.
pub open spec fn no_headers() -> Map<Seq<char>, Seq<Seq<u8>>> {
    Map::empty()
}

/// Relies on `http::HeaderMap::new`: an empty map.
#[verifier::external_body]
pub(crate) fn empty_header_map() -> (r: http::HeaderMap)
    ensures
        header_values(r) == no_headers(),
{
    http::HeaderMap::new()
}

/// Relies on `http::HeaderMap::insert`, with the name parsed by
/// `HeaderName::from_bytes` (folded to lower case): the value replaces every
/// value the name had. It panics only once the map holds far more names than
/// [`HEADER_NAMES_LIMIT`].
#[verifier::external_body]
pub(crate) fn insert_header(m: &mut http::HeaderMap, name: &str, value: http::HeaderValue)
    requires
        valid_name(name@),
        header_values(*old(m)).dom().finite(),
        header_values(*old(m)).len() < HEADER_NAMES_LIMIT,
    ensures
        header_values(*final(m)) == header_values(*old(m)).insert(
            lower_name(name@),
            seq![header_value_bytes(value)],
        ),
{
    let name = http::header::HeaderName::from_bytes(name.as_bytes()).unwrap();
    m.insert(name, value);
}

/// A map's contents have exactly `n` distinct names.
pub open spec fn holds_names(contents: Map<Seq<char>, Seq<Seq<u8>>>, n: nat) -> bool {
    contents.dom().finite() && contents.len() == n
}

/// Relies on `http::HeaderMap::keys_len`: the number of distinct names.
#[verifier::external_body]
pub(crate) fn header_name_count(m: &http::HeaderMap) -> (r: usize)
    ensures
        holds_names(header_values(*m), r as nat),
{
    m.keys_len()
}

/// Relies on `http::HeaderMap::contains_key`: whether the name, folded to
/// lower case as `HeaderName` parsing does, has a value.
#[verifier::external_body]
pub(crate) fn has_header(m: &http::HeaderMap, name: &str) -> (r: bool)
    requires
        valid_name(name@),
    ensures
        r == header_values(*m).contains_key(lower_name(name@)),
{
    m.contains_key(name)
}

/// Relies on `Extend<(Option<HeaderName>, T)> for http::HeaderMap`, fed with
/// another map: each name of `other` takes exactly the values it has there;
/// other names keep theirs.
#[verifier::external_body]
pub(crate) fn extend_headers(m: &mut http::HeaderMap, other: http::HeaderMap)
    requires
        header_values(*old(m)).dom().finite(),
        header_values(other).dom().finite(),
        header_values(*old(m)).len() + header_values(other).len() < HEADER_NAMES_LIMIT,
    ensures
        header_values(*final(m)) == header_values(*old(m)).union_prefer_right(header_values(other)),
{
    m.extend(other);
}

/// The name of the content type header.
pub open spec fn content_type_name() -> Seq<char> {
    "content-type"@
}

/// The bytes of the JSON content type.
pub open spec fn json_content_type_bytes() -> Seq<u8> {
    "application/json; charset=utf-8"@.map_values(|c: char| c as u8)
}

/// Relies on `http::HeaderValue::from_static`: a value holding the bytes of
/// the given text, which is visible ASCII.
#[verifier::external_body]
pub(crate) fn json_content_type_value() -> (r: http::HeaderValue)
    ensures
        header_value_bytes(r) == json_content_type_bytes(),
{
    http::HeaderValue::from_static("application/json; charset=utf-8")
}

/// Relies on `http::Method::as_str`: the method's name.
#[verifier::external_body]
pub(crate) fn method_name(m: &http::Method) -> (r: String)
    ensures
        r@ == method_name_of(*m),
{
    m.as_str().to_string()
}

} // verus!
