//! Joining a base URL and a path with exactly one `/` between them.

use vstd::prelude::*;

verus! {

/// `s` without one trailing `/`, if it has one.
pub open spec fn strip_trailing_slash(s: Seq<char>) -> Seq<char> {
    if s.len() > 0 && s.last() == '/' {
        s.drop_last()
    } else {
        s
    }
}

/// `s` without one leading `/`, if it has one.
pub open spec fn strip_leading_slash(s: Seq<char>) -> Seq<char> {
    if s.len() > 0 && s[0] == '/' {
        s.drop_first()
    } else {
        s
    }
}

/// The URL that a base URL (if any) and a path stand for.
pub open spec fn composed(base_url: Option<Seq<char>>, path: Seq<char>) -> Seq<char> {
    match base_url {
        None => path,
        Some(b) => strip_trailing_slash(b) + seq!['/'] + strip_leading_slash(path),
    }
}

/// Joins `base_url` and `path`: without a base the path is used verbatim;
/// otherwise one trailing `/` of the base and one leading `/` of the path are
/// dropped and the two are joined by a single `/`.
pub fn compose_url(base_url: &Option<String>, path: &str) -> (r: String)
    ensures
        r@ == composed(
            match base_url {
                Some(b) => Some(b@),
                None => None,
            },
            path@,
        ),
{
    let path_len = path.unicode_len();
    match base_url {
        None => String::from_str(path),
        Some(base) => {
            let b = base.as_str();
            let base_len = b.unicode_len();
            let head = if base_len > 0 && b.get_char(base_len - 1) == '/' {
                b.substring_char(0, base_len - 1)
            } else {
                b
            };
            let tail = if path_len > 0 && path.get_char(0) == '/' {
                path.substring_char(1, path_len)
            } else {
                path
            };
            let mut r = String::from_str(head);
            let sep = "/";
            proof {
                reveal_strlit("/");
            }
            r.append(sep);
            r.append(tail);
            proof {
                assert(head@ =~= strip_trailing_slash(base@));
                assert(tail@ =~= strip_leading_slash(path@));
                assert(sep@ =~= seq!['/']);
            }
            r
        },
    }
}

/// Composition with a base URL puts exactly one `/` between the base and the
/// path, whether or not the base ends with `/` and whether or not the path
/// starts with `/`: no segment is lost and none is doubled.
pub proof fn lemma_compose_single_separator(
    base: Seq<char>,
    path: Seq<char>,
    trailing_slash: bool,
    leading_slash: bool,
)
    requires
        base.len() == 0 || base.last() != '/',
        path.len() == 0 || path[0] != '/',
    ensures
        composed(
            Some(if trailing_slash { base + seq!['/'] } else { base }),
            if leading_slash { seq!['/'] + path } else { path },
        ) == base + seq!['/'] + path,
{
    let b = if trailing_slash { base + seq!['/'] } else { base };
    let p = if leading_slash { seq!['/'] + path } else { path };
    if trailing_slash {
        assert(b.drop_last() =~= base);
    }
    if leading_slash {
        assert(p.drop_first() =~= path);
    }
    assert(strip_trailing_slash(b) =~= base);
    assert(strip_leading_slash(p) =~= path);
}

} // verus!
