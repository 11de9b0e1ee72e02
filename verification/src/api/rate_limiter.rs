//! Concurrency limits per endpoint class.
//!
//! Each endpoint pattern is mapped to a bound on simultaneous in-flight
//! calls.  Resolution first normalizes the path — every path segment that
//! parses as an integer is replaced by an `{id}` placeholder — and falls back
//! to a default bound for unlisted endpoints.  The permit pool itself lives
//! with the I/O runtime; this module owns the table and the path logic.

use crate::text::{
    chars_of, copy_chars, join_chars, lemma_split_join, lemma_split_len, lemma_split_sep_free,
    parse_i64, spec_join, spec_parse_i64, spec_split, split_chars, string_of, views,
};
use vstd::prelude::*;

verus! {

/// The placeholder that stands for an integer path segment.
pub open spec fn id_placeholder() -> Seq<char> {
    seq!['{', 'i', 'd', '}']
}

/// A path segment with every integer segment replaced by `{id}`.
pub open spec fn spec_norm_seg(s: Seq<char>) -> Seq<char> {
    if spec_parse_i64(s) is Some {
        id_placeholder()
    } else {
        s
    }
}

/// Each piece normalized.
pub open spec fn norm_pieces(ps: Seq<Seq<char>>) -> Seq<Seq<char>> {
    ps.map_values(|p: Seq<char>| spec_norm_seg(p))
}

/// A path with every integer segment replaced by `{id}`.
pub open spec fn spec_normalize(s: Seq<char>) -> Seq<char> {
    spec_join(norm_pieces(spec_split(s, '/')), '/')
}

fn id_placeholder_vec() -> (r: Vec<char>)
    ensures
        r@ == id_placeholder(),
{
    let mut r: Vec<char> = Vec::new();
    r.push('{');
    r.push('i');
    r.push('d');
    r.push('}');
    assert(r@ =~= id_placeholder());
    r
}

/// Replaces every integer segment of `v` (split on `/`) with `{id}`.
pub fn normalize_chars(v: &[char]) -> (r: Vec<char>)
    ensures
        r@ == spec_normalize(v@),
{
    let parts = split_chars(v, '/');
    let mut normd: Vec<Vec<char>> = Vec::new();
    let mut i: usize = 0;
    while i < parts.len()
        invariant
            i <= parts@.len(),
            normd@.len() == i,
            forall|j: int|
                0 <= j < i ==> #[trigger] normd@[j]@ == spec_norm_seg(parts@[j]@),
        decreases parts@.len() - i,
    {
        let piece: &Vec<char> = &parts[i];
        let nv: Vec<char> = if parse_i64(piece.as_slice()).is_some() {
            id_placeholder_vec()
        } else {
            copy_chars(piece.as_slice())
        };
        assert(nv@ == spec_norm_seg(parts@[i as int]@));
        normd.push(nv);
        i += 1;
    }
    assert(views(normd@) =~= norm_pieces(views(parts@))) by {
        assert forall|j: int| 0 <= j < normd@.len() implies views(normd@)[j] == norm_pieces(
            views(parts@),
        )[j] by {
            assert(views(normd@)[j] == normd@[j]@);
            assert(norm_pieces(views(parts@))[j] == spec_norm_seg(views(parts@)[j]));
            assert(views(parts@)[j] == parts@[j]@);
        }
    }
    join_chars(&normd, '/')
}

proof fn lemma_placeholder_shape()
    ensures
        !id_placeholder().contains('/'),
        spec_parse_i64(id_placeholder()) is None,
{
    assert forall|j: int| 0 <= j < id_placeholder().len() implies id_placeholder()[j] != '/' by {
        if j == 0 {
            assert(id_placeholder()[0] == '{');
        } else if j == 1 {
            assert(id_placeholder()[1] == 'i');
        } else if j == 2 {
            assert(id_placeholder()[2] == 'd');
        } else {
            assert(id_placeholder()[3] == '}');
        }
    }
    assert(id_placeholder()[0] == '{');
    assert(!crate::text::all_digits(id_placeholder())) by {
        assert(!crate::text::is_digit_char(id_placeholder()[0]));
    }
}

/// Normalization is idempotent: normalizing a normalized path changes
/// nothing.
pub proof fn lemma_normalize_idempotent(s: Seq<char>)
    ensures
        spec_normalize(spec_normalize(s)) == spec_normalize(s),
{
    let parts = spec_split(s, '/');
    let nparts = norm_pieces(parts);
    lemma_split_len(s, '/');
    lemma_split_sep_free(s, '/');
    lemma_placeholder_shape();
    assert forall|k: int| 0 <= k < nparts.len() implies !(#[trigger] nparts[k]).contains(
        '/',
    ) by {
        assert(nparts[k] == spec_norm_seg(parts[k]));
    }
    lemma_split_join(nparts, '/');
    assert(spec_split(spec_normalize(s), '/') == nparts);
    assert forall|k: int| 0 <= k < nparts.len() implies #[trigger] norm_pieces(nparts)[k]
        == nparts[k] by {
        assert(nparts[k] == spec_norm_seg(parts[k]));
        if spec_parse_i64(parts[k]) is Some {
            assert(nparts[k] == id_placeholder());
            assert(spec_parse_i64(id_placeholder()) is None);
        }
    }
    assert(norm_pieces(nparts) =~= nparts);
}

/// Concurrency-bound configuration: a default and a per-pattern table.
pub struct EndpointLimits {
    /// Bound for endpoints not in the table.
    pub default: u32,
    /// Bound per normalized endpoint pattern.
    pub endpoints: Vec<(String, u32)>,
}

/// The pattern table as pairs of character sequences and bounds.
pub open spec fn entry_views(s: Seq<(String, u32)>) -> Seq<(Seq<char>, u32)> {
    s.map_values(|p: (String, u32)| (p.0@, p.1))
}

/// The bound for the first entry whose pattern is `key`, if any.
pub open spec fn spec_lookup(entries: Seq<(Seq<char>, u32)>, key: Seq<char>) -> Option<u32>
    decreases entries.len(),
{
    if entries.len() == 0 {
        None
    } else if entries[0].0 == key {
        Some(entries[0].1)
    } else {
        spec_lookup(entries.skip(1), key)
    }
}

fn lookup_limit(entries: &Vec<(String, u32)>, key: &String) -> (r: Option<u32>)
    ensures
        r == spec_lookup(entry_views(entries@), key@),
{
    let ghost all = entry_views(entries@);
    assert(all.skip(0) =~= all);
    let mut i: usize = 0;
    while i < entries.len()
        invariant
            i <= entries@.len(),
            all == entry_views(entries@),
            spec_lookup(all, key@) == spec_lookup(all.skip(i as int), key@),
        decreases entries@.len() - i,
    {
        assert(all.skip(i as int)[0] == (entries@[i as int].0@, entries@[i as int].1));
        if entries[i].0 == *key {
            return Some(entries[i].1);
        }
        assert(all.skip(i as int).skip(1) =~= all.skip(i + 1));
        i += 1;
    }
    assert(all.skip(i as int) =~= Seq::<(Seq<char>, u32)>::empty());
    None
}

impl EndpointLimits {
    /// The table's limit for `pattern`, if listed.
    pub fn get(&self, pattern: &String) -> (r: Option<u32>)
        ensures
            r == spec_lookup(entry_views(self.endpoints@), pattern@),
    {
        lookup_limit(&self.endpoints, pattern)
    }
}

/// The published per-endpoint concurrency limits of the target platform:
/// high concurrency for auth, health and single-resource reads, low
/// concurrency for bulk listing and per-org-unit endpoints.
pub open spec fn default_limit_entries() -> Seq<(Seq<char>, u32)> {
    seq![
        ("/api/auth/authenticate"@, 50u32),
        ("/api/auth/refresh"@, 50u32),
        ("/api/auth/validate"@, 50u32),
        ("/api/health"@, 50u32),
        ("/api/server-info"@, 50u32),
        ("/api/service-orgs"@, 5u32),
        ("/api/customers"@, 5u32),
        ("/api/sites"@, 5u32),
        ("/api/devices"@, 5u32),
        ("/api/org-units"@, 5u32),
        ("/api/users"@, 5u32),
        ("/api/device-filters"@, 5u32),
        ("/api/devices/{id}"@, 50u32),
        ("/api/devices/{id}/assets"@, 50u32),
        ("/api/devices/{id}/custom-properties"@, 5u32),
        ("/api/org-units/{id}/custom-properties"@, 5u32),
        ("/api/org-units/{id}/access-groups"@, 5u32),
        ("/api/org-units/{id}/user-roles"@, 5u32),
        ("/api/org-units/{id}/devices"@, 5u32),
        ("/api/org-units/{id}/active-issues"@, 3u32),
    ]
}

/// The default limit table, with a default bound of five.
pub fn default_endpoint_limits() -> (r: EndpointLimits)
    ensures
        r.default == 5,
        entry_views(r.endpoints@) == default_limit_entries(),
{
    let mut endpoints: Vec<(String, u32)> = Vec::new();
    endpoints.push((String::from_str("/api/auth/authenticate"), 50));
    endpoints.push((String::from_str("/api/auth/refresh"), 50));
    endpoints.push((String::from_str("/api/auth/validate"), 50));
    endpoints.push((String::from_str("/api/health"), 50));
    endpoints.push((String::from_str("/api/server-info"), 50));
    endpoints.push((String::from_str("/api/service-orgs"), 5));
    endpoints.push((String::from_str("/api/customers"), 5));
    endpoints.push((String::from_str("/api/sites"), 5));
    endpoints.push((String::from_str("/api/devices"), 5));
    endpoints.push((String::from_str("/api/org-units"), 5));
    endpoints.push((String::from_str("/api/users"), 5));
    endpoints.push((String::from_str("/api/device-filters"), 5));
    endpoints.push((String::from_str("/api/devices/{id}"), 50));
    endpoints.push((String::from_str("/api/devices/{id}/assets"), 50));
    endpoints.push((String::from_str("/api/devices/{id}/custom-properties"), 5));
    endpoints.push((String::from_str("/api/org-units/{id}/custom-properties"), 5));
    endpoints.push((String::from_str("/api/org-units/{id}/access-groups"), 5));
    endpoints.push((String::from_str("/api/org-units/{id}/user-roles"), 5));
    endpoints.push((String::from_str("/api/org-units/{id}/devices"), 5));
    endpoints.push((String::from_str("/api/org-units/{id}/active-issues"), 3));
    assert(entry_views(endpoints@) =~= default_limit_entries());
    EndpointLimits { default: 5, endpoints }
}

/// Resolves endpoint paths to concurrency bounds.
pub struct RateLimiter {
    /// The configured limits.
    pub limits: EndpointLimits,
}

impl RateLimiter {
    /// A limiter with the published default limits of the target platform.
    pub fn new() -> (r: Self)
        ensures
            r.limits.default == 5,
            entry_views(r.limits.endpoints@) == default_limit_entries(),
    {
        Self { limits: default_endpoint_limits() }
    }

    /// A limiter with the given limits.
    pub fn with_limits(limits: EndpointLimits) -> (r: Self)
        ensures
            r.limits == limits,
    {
        Self { limits }
    }

    /// Replaces every integer path segment with `{id}`.
    pub fn normalize_path(&self, path: &str) -> (r: String)
        ensures
            r@ == spec_normalize(path@),
    {
        let v = chars_of(path);
        let n = normalize_chars(v.as_slice());
        string_of(n.as_slice())
    }

    /// The limit for `path`: the table's entry for the path itself, else
    /// for the normalized path, else the default.
    pub fn get_limit(&self, path: &str) -> (r: u32)
        ensures
            r == spec_get_limit(self.limits.default, entry_views(self.limits.endpoints@), path@),
    {
        let exact = path.to_owned();
        match self.limits.get(&exact) {
            Some(l) => l,
            None => {
                let normalized = self.normalize_path(path);
                match self.limits.get(&normalized) {
                    Some(l) => l,
                    None => self.limits.default,
                }
            },
        }
    }
}

/// How a path resolves to a limit: an exact match in the table first, then
/// the normalized path, then the default bound.
pub open spec fn spec_get_limit(
    default: u32,
    entries: Seq<(Seq<char>, u32)>,
    path: Seq<char>,
) -> u32 {
    match spec_lookup(entries, path) {
        Some(l) => l,
        None => match spec_lookup(entries, spec_normalize(path)) {
            Some(l) => l,
            None => default,
        },
    }
}

/// Every configured pattern resolves to its own bound: for a limiter built
/// over any table, a path the table lists gets exactly the listed limit.
pub proof fn lemma_configured_pattern_resolves(
    default: u32,
    entries: Seq<(Seq<char>, u32)>,
    pattern: Seq<char>,
    limit: u32,
)
    requires
        spec_lookup(entries, pattern) == Some(limit),
    ensures
        spec_get_limit(default, entries, pattern) == limit,
{
}

} // verus!
