//! Routing by path prefix: which requests belong to the protocol handler,
//! and the path it resolves for them once the prefix is stripped.

use vstd::prelude::*;
use crate::config::{is_well_formed_prefix, well_formed_prefix};

verus! {

/// The path that the handler resolves for a request to `path` when it is
/// mounted under `prefix`: `path` without the prefix, but for the `/` the
/// prefix ends with. A path that does not begin with the prefix belongs to
/// nobody, and under a malformed prefix no path matches.
pub open spec fn routed(prefix: Seq<char>, path: Seq<char>) -> Option<Seq<char>> {
    if well_formed_prefix(prefix) && prefix.is_prefix_of(path) {
        Some(path.skip(prefix.len() - 1))
    } else {
        None
    }
}

/// Routes a request path under a prefix.
pub fn route<'a>(prefix: &str, path: &'a str) -> (r: Option<&'a str>)
    ensures
        r is Some <==> routed(prefix@, path@) is Some,
        r matches Some(rest) ==> routed(prefix@, path@) == Some(rest@),
{
    if !is_well_formed_prefix(prefix) {
        return None;
    }
    let m = prefix.unicode_len();
    let n = path.unicode_len();
    if n < m {
        return None;
    }
    let head = path.substring_char(0, m);
    if head.to_owned() != prefix.to_owned() {
        return None;
    }
    let rest = path.substring_char(m - 1, n);
    assert(rest@ == path@.skip(m - 1));
    Some(rest)
}

/// What is routed starts with `/`, and putting the prefix back in front of
/// it, less its last `/`, gives the request path again.
pub proof fn lemma_routed_restores(prefix: Seq<char>, path: Seq<char>)
    requires
        routed(prefix, path) is Some,
    ensures
        routed(prefix, path)->0.len() > 0,
        routed(prefix, path)->0.first() == '/',
        prefix.drop_last() + routed(prefix, path)->0 == path,
{
    let rest = routed(prefix, path)->0;
    let m = prefix.len() as int;
    assert(prefix == path.subrange(0, m));
    assert(rest[0] == path[m - 1]);
    assert(path[m - 1] == prefix[m - 1]);
    assert(prefix.drop_last() + rest =~= path);
}

/// Under the prefix `/` every path that starts with `/` is routed to itself.
pub proof fn lemma_root_prefix_keeps_path(path: Seq<char>)
    requires
        path.len() > 0,
        path.first() == '/',
    ensures
        routed(seq!['/'], path) == Some(path),
{
    let prefix = seq!['/'];
    assert(prefix.first() == '/' && prefix.last() == '/');
    assert(prefix =~= path.subrange(0, 1));
    assert(path.skip(0) =~= path);
}

/// Under a malformed prefix no request is matched.
pub proof fn lemma_malformed_prefix_matches_nothing(prefix: Seq<char>, path: Seq<char>)
    requires
        !well_formed_prefix(prefix),
    ensures
        routed(prefix, path) is None,
{
}

/// Routing undoes mounting: a resource that the handler knows as `/` and
/// `rest` is reached, under a well-formed prefix, by the prefix and `rest`,
/// and by no path that does not begin with the prefix.
pub proof fn lemma_route_under_prefix(prefix: Seq<char>, rest: Seq<char>, other: Seq<char>)
    requires
        well_formed_prefix(prefix),
    ensures
        routed(prefix, prefix + rest) == Some(seq!['/'] + rest),
        !prefix.is_prefix_of(other) ==> routed(prefix, other) is None,
{
    let path = prefix + rest;
    let m = prefix.len() as int;
    assert(prefix =~= path.subrange(0, m));
    assert(path.skip(m - 1) =~= seq!['/'] + rest);
}

} // verus!
