//! Copying distributed-tracing headers from an inbound request onto an
//! outbound one.

use crate::header_map::{
    empty_header_map, header_values, inbound_first_value, inbound_header_values, insert_header,
    lemma_lower_name_of_lower, lower_name, valid_name, HEADER_NAMES_LIMIT,
};
use vstd::prelude::*;

verus! {

/// The tracing headers that are always forwarded.
pub open spec fn trace_header_keys() -> Seq<Seq<char>> {
    seq![
        "x-request-id"@,
        "x-b3-traceid"@,
        "x-b3-spanid"@,
        "x-b3-parentspanid"@,
        "x-b3-sampled"@,
    ]
}

/// The extra keys as character sequences; none when absent.
pub open spec fn extra_keys_view(extra_header_keys: Option<Vec<&'static str>>) -> Seq<Seq<char>> {
    match extra_header_keys {
        Some(v) => v@.map_values(|s: &str| s@),
        None => Seq::empty(),
    }
}

/// Extra keys that `http` accepts as header names, few enough to leave room
/// in an outbound map.
pub open spec fn valid_extra_keys(extra_header_keys: Seq<Seq<char>>) -> bool {
    &&& forall|i: int|
        0 <= i < extra_header_keys.len() ==> valid_name(#[trigger] extra_header_keys[i])
    &&& extra_header_keys.len() + 5 < HEADER_NAMES_LIMIT
}

/// The names that are forwarded: the extra keys and the tracing headers,
/// folded to lower case as header maps keep names.
pub open spec fn forwarded_names(extra_header_keys: Seq<Seq<char>>) -> Set<Seq<char>> {
    (extra_header_keys + trace_header_keys()).map_values(|k: Seq<char>| lower_name(k)).to_set()
}

/// Each name with the first of its values only.
pub open spec fn first_values(contents: Map<Seq<char>, Seq<Seq<u8>>>) -> Map<
    Seq<char>,
    Seq<Seq<u8>>,
> {
    contents.map_values(|vs: Seq<Seq<u8>>| seq![vs[0]])
}

/// The tracing headers forwarded from an inbound map: each forwarded name
/// that the map holds, with its first value.
pub open spec fn traced(
    inbound: Map<Seq<char>, Seq<Seq<u8>>>,
    extra_header_keys: Seq<Seq<char>>,
) -> Map<Seq<char>, Seq<Seq<u8>>> {
    first_values(inbound.restrict(forwarded_names(extra_header_keys)))
}

proof fn lemma_traced_step(inbound: Map<Seq<char>, Seq<Seq<u8>>>, names: Set<Seq<char>>, k: Seq<char>)
    ensures
        first_values(inbound.restrict(names.insert(k))) == if inbound.contains_key(k) {
            first_values(inbound.restrict(names)).insert(k, seq![inbound[k][0]])
        } else {
            first_values(inbound.restrict(names))
        },
{
    let a = first_values(inbound.restrict(names.insert(k)));
    let b = first_values(inbound.restrict(names));
    if inbound.contains_key(k) {
        assert(a =~= b.insert(k, seq![inbound[k][0]]));
    } else {
        assert(a =~= b);
    }
}

fn trace_keys() -> (r: Vec<&'static str>)
    ensures
        r@.map_values(|s: &str| s@) == trace_header_keys(),
        forall|i: int| 0 <= i < r@.len() ==> valid_name(#[trigger] r@[i]@),
{
    let r = vec![
        "x-request-id",
        "x-b3-traceid",
        "x-b3-spanid",
        "x-b3-parentspanid",
        "x-b3-sampled",
    ];
    proof {
        reveal_strlit("x-request-id");
        reveal_strlit("x-b3-traceid");
        reveal_strlit("x-b3-spanid");
        reveal_strlit("x-b3-parentspanid");
        reveal_strlit("x-b3-sampled");
        assert(r@.map_values(|s: &str| s@) =~= trace_header_keys());
    }
    r
}

/// Copies `key` from `origin` to `out` when `origin` has it.
fn copy_header(origin: &actix_http::header::HeaderMap, key: &str, out: &mut http::HeaderMap)
    requires
        valid_name(key@),
        header_values(*old(out)).dom().finite(),
        header_values(*old(out)).len() < HEADER_NAMES_LIMIT,
    ensures
        header_values(*final(out)) == if inbound_header_values(*origin).contains_key(
            lower_name(key@),
        ) {
            header_values(*old(out)).insert(
                lower_name(key@),
                seq![inbound_header_values(*origin)[lower_name(key@)][0]],
            )
        } else {
            header_values(*old(out))
        },
{
    match inbound_first_value(origin, key) {
        Some(v) => insert_header(out, key, v),
        None => {},
    }
}

/// The headers of `origin_headers` whose names, compared without regard to
/// ASCII case, are tracing headers or among `extra_header_keys`, each with
/// its first value; names absent from `origin_headers` are left out.
pub fn add_trace_header(
    origin_headers: actix_http::header::HeaderMap,
    extra_header_keys: &Option<Vec<&'static str>>,
) -> (r: http::HeaderMap)
    requires
        valid_extra_keys(extra_keys_view(*extra_header_keys)),
    ensures
        header_values(r) == traced(
            inbound_header_values(origin_headers),
            extra_keys_view(*extra_header_keys),
        ),
        header_values(r).dom().finite(),
        header_values(r).len() <= extra_keys_view(*extra_header_keys).len() + 5,
{
    let ghost extra = extra_keys_view(*extra_header_keys);
    let ghost inbound = inbound_header_values(origin_headers);
    let trace = trace_keys();
    let ghost keys = (extra + trace_header_keys()).map_values(|k: Seq<char>| lower_name(k));
    let mut r = empty_header_map();
    let mut n: usize = 0;
    match extra_header_keys {
        Some(extra_keys) => {
            while n < extra_keys.len()
                invariant
                    extra == extra_keys@.map_values(|s: &str| s@),
                    inbound == inbound_header_values(origin_headers),
                    valid_extra_keys(extra),
                    keys == (extra + trace_header_keys()).map_values(|k: Seq<char>| lower_name(k)),
                    n <= extra_keys@.len(),
                    header_values(r) == first_values(inbound.restrict(keys.take(n as int).to_set())),
                    header_values(r).dom().finite(),
                    header_values(r).len() <= n,
                decreases extra_keys@.len() - n,
            {
                proof {
                    assert(extra[n as int] == extra_keys@[n as int]@);
                    assert(keys[n as int] == lower_name(extra[n as int]));
                }
                copy_header(&origin_headers, extra_keys[n], &mut r);
                proof {
                    assert(keys.take(n as int + 1) =~= keys.take(n as int).push(keys[n as int]));
                    keys.take(n as int).lemma_push_to_set_commute(keys[n as int]);
                    lemma_traced_step(inbound, keys.take(n as int).to_set(), keys[n as int]);
                    assert(header_values(r) =~= first_values(
                        inbound.restrict(keys.take(n as int + 1).to_set()),
                    ));
                }
                n = n + 1;
            }
        },
        None => {},
    }
    assert(header_values(r) =~= first_values(inbound.restrict(keys.take(n as int).to_set())));
    let mut i: usize = 0;
    while i < trace.len()
        invariant
            trace@.map_values(|s: &str| s@) == trace_header_keys(),
            forall|j: int| 0 <= j < trace@.len() ==> valid_name(#[trigger] trace@[j]@),
            n == extra.len(),
            inbound == inbound_header_values(origin_headers),
            valid_extra_keys(extra),
            keys == (extra + trace_header_keys()).map_values(|k: Seq<char>| lower_name(k)),
            i <= trace@.len(),
            header_values(r) == first_values(inbound.restrict(keys.take(n + i).to_set())),
            header_values(r).dom().finite(),
            header_values(r).len() <= n + i,
        decreases trace@.len() - i,
    {
        proof {
            assert(trace@[i as int]@ == trace_header_keys()[i as int]);
            assert(keys[n + i] == lower_name(trace_header_keys()[i as int]));
        }
        copy_header(&origin_headers, trace[i], &mut r);
        proof {
            assert(keys.take(n + i + 1) =~= keys.take(n + i).push(keys[n + i]));
            keys.take(n + i).lemma_push_to_set_commute(keys[n + i]);
            lemma_traced_step(inbound, keys.take(n + i).to_set(), keys[n + i]);
            assert(header_values(r) =~= first_values(
                inbound.restrict(keys.take(n + i + 1).to_set()),
            ));
        }
        i = i + 1;
    }
    proof {
        assert(keys.take(n + i) =~= keys);
    }
    r
}

/// With no extra keys, an inbound `x-b3-traceid` goes out with its (first)
/// value, and nothing goes out whose name is not a tracing header.
pub proof fn lemma_trace_forwarding(inbound: Map<Seq<char>, Seq<Seq<u8>>>)
    requires
        inbound.contains_key("x-b3-traceid"@),
    ensures
        traced(inbound, Seq::empty()).contains_key("x-b3-traceid"@),
        traced(inbound, Seq::empty())["x-b3-traceid"@] == seq![inbound["x-b3-traceid"@][0]],
        forall|k: Seq<char>|
            traced(inbound, Seq::empty()).contains_key(k) ==> trace_header_keys().contains(k),
{
    let keys = trace_header_keys();
    reveal_strlit("x-request-id");
    reveal_strlit("x-b3-traceid");
    reveal_strlit("x-b3-spanid");
    reveal_strlit("x-b3-parentspanid");
    reveal_strlit("x-b3-sampled");
    assert forall|i: int| 0 <= i < 5 implies lower_name(#[trigger] keys[i]) == keys[i] by {
        lemma_lower_name_of_lower(keys[i]);
    }
    let lowered = (Seq::<Seq<char>>::empty() + keys).map_values(|k: Seq<char>| lower_name(k));
    assert(lowered =~= keys);
}

} // verus!
