//! URLs, query pairs and JSON members, built on what `wire` names.

use crate::wire::{
    append_query, byte_len, json_of, member, pairs_cost, parse_url, query_fits, query_pairs,
    string_value, unsigned_value, url_appended, url_pairs, url_parsed, url_str, Json,
};
use vstd::prelude::*;

verus! {

/// The URL that `build_url` gives for a base and query pairs: the
/// serialization of the base with the pairs appended to its query. There is
/// none where the base is no absolute URL, or where the pairs would make the
/// URL longer than a `Url` can hold.
pub open spec fn built_url(base: Seq<char>, pairs: Seq<(Seq<char>, Seq<char>)>) -> Option<
    Seq<char>,
> {
    match url_parsed(base) {
        Some(url) => if query_fits(byte_len(url), pairs) {
            Some(url_appended(url, pairs))
        } else {
            None
        },
        None => None,
    }
}

/// The pairs in the query of `url`, decoded, in order; `None` where `url` is
/// no absolute URL.
pub open spec fn url_query_text(url: Seq<char>) -> Option<Seq<(Seq<char>, Seq<char>)>> {
    match url_parsed(url) {
        Some(parsed) => Some(url_pairs(parsed)),
        None => None,
    }
}

/// A query costs no less than any of its beginnings.
pub proof fn lemma_cost_grows(pairs: Seq<(Seq<char>, Seq<char>)>, k: int)
    requires
        0 <= k <= pairs.len(),
    ensures
        pairs_cost(pairs.take(k)) <= pairs_cost(pairs),
    decreases pairs.len() - k,
{
    if k < pairs.len() {
        lemma_cost_grows(pairs.drop_last(), k);
        assert(pairs.drop_last().take(k) =~= pairs.take(k));
    } else {
        assert(pairs.take(k) =~= pairs);
    }
}

/// Whether a URL of `size` bytes can take `pairs` into its query.
pub fn query_within_limits(size: usize, pairs: &Vec<(String, String)>) -> (r: bool)
    ensures
        r == query_fits(size as nat, pairs.deep_view()),
{
    let ghost all = pairs.deep_view();
    let limit: u64 = 0xFFFF_FFFF;
    if size as u64 >= limit {
        return false;
    }
    let mut total: u64 = size as u64 + 1;
    let mut i: usize = 0;
    proof {
        assert(all.take(0) =~= Seq::<(Seq<char>, Seq<char>)>::empty());
    }
    while i < pairs.len()
        invariant
            i <= pairs.len(),
            all == pairs.deep_view(),
            limit == 0xFFFF_FFFF,
            total == size + 1 + pairs_cost(all.take(i as int)),
            total <= limit,
        decreases pairs.len() - i,
    {
        let name: u64 = pairs[i].0.as_str().as_bytes().len() as u64;
        let value: u64 = pairs[i].1.as_str().as_bytes().len() as u64;
        proof {
            let upto = all.take(i + 1);
            assert(upto.drop_last() =~= all.take(i as int));
            assert(upto.last() == all[i as int]);
            assert(all[i as int].0 == pairs@[i as int].0@);
            assert(all[i as int].1 == pairs@[i as int].1@);
            lemma_cost_grows(all, i + 1);
        }
        if name > limit || value > limit {
            return false;
        }
        total = total + 3 * name + 3 * value + 2;
        if total > limit {
            return false;
        }
        i += 1;
    }
    proof {
        assert(all.take(i as int) =~= all);
    }
    true
}

/// The URL `base` with `pairs` appended to its query.
pub fn build_url(base: &str, pairs: &Vec<(String, String)>) -> (r: Option<String>)
    ensures
        r.deep_view() == built_url(base@, pairs.deep_view()),
{
    match parse_url(base) {
        Some(url) => {
            let size: usize = url_str(&url).as_bytes().len();
            if query_within_limits(size, pairs) {
                let url = append_query(url, pairs);
                Some(url_str(&url).to_owned())
            } else {
                None
            }
        },
        None => None,
    }
}

/// The pairs in the query of `url`.
pub fn read_query(url: &str) -> (r: Option<Vec<(String, String)>>)
    ensures
        r.deep_view() == url_query_text(url@),
{
    match parse_url(url) {
        Some(parsed) => Some(query_pairs(&parsed)),
        None => None,
    }
}

/// The value of the first pair named `key`.
pub open spec fn first_value(pairs: Seq<(Seq<char>, Seq<char>)>, key: Seq<char>) -> Option<
    Seq<char>,
>
    decreases pairs.len(),
{
    if pairs.len() == 0 {
        None
    } else if pairs[0].0 == key {
        Some(pairs[0].1)
    } else {
        first_value(pairs.skip(1), key)
    }
}

/// The value of the first pair named `key`.
pub fn find_value(pairs: &Vec<(String, String)>, key: &str) -> (r: Option<String>)
    ensures
        r.deep_view() == first_value(pairs.deep_view(), key@),
{
    let ghost all = pairs.deep_view();
    let mut i: usize = 0;
    proof {
        assert(all.skip(0) =~= all);
    }
    while i < pairs.len()
        invariant
            i <= pairs.len(),
            all == pairs.deep_view(),
            first_value(all, key@) == first_value(all.skip(i as int), key@),
        decreases pairs.len() - i,
    {
        proof {
            let rest = all.skip(i as int);
            assert(rest[0] == all[i as int]);
            assert(all[i as int].0 == pairs@[i as int].0@);
            assert(all[i as int].1 == pairs@[i as int].1@);
            assert(rest.skip(1) =~= all.skip(i + 1));
        }
        if *pairs[i].0.as_str() == *key {
            return Some(pairs[i].1.clone());
        }
        i += 1;
    }
    None
}

/// The value of the query parameter `key` of `url`: that of its first
/// occurrence; `None` where there is none or `url` is no absolute URL.
pub open spec fn query_value(url: Seq<char>, key: Seq<char>) -> Option<Seq<char>> {
    match url_query_text(url) {
        Some(pairs) => first_value(pairs, key),
        None => None,
    }
}

/// The value of the query parameter `key` of `url`.
pub fn query_parameter(url: &str, key: &str) -> (r: Option<String>)
    ensures
        r.deep_view() == query_value(url@, key@),
{
    match read_query(url) {
        Some(pairs) => find_value(&pairs, key),
        None => None,
    }
}

/// A copy of `pairs`.
pub fn copy_pairs(pairs: &Vec<(String, String)>) -> (r: Vec<(String, String)>)
    ensures
        r.deep_view() == pairs.deep_view(),
{
    let mut r: Vec<(String, String)> = Vec::new();
    let mut i: usize = 0;
    while i < pairs.len()
        invariant
            i <= pairs.len(),
            r@.len() == i,
            forall|k: int| 0 <= k < i ==> #[trigger] r@[k] == pairs@[k],
        decreases pairs.len() - i,
    {
        r.push((pairs[i].0.clone(), pairs[i].1.clone()));
        i += 1;
    }
    proof {
        assert(r.deep_view() =~= pairs.deep_view());
    }
    r
}

/// The string that the member `key` of the JSON object `doc` holds; `None`
/// where there is no such member or it is no string.
pub open spec fn json_string_member(doc: Json, key: Seq<char>) -> Option<Seq<char>> {
    match doc.member(key) {
        Some(v) => v.text(),
        None => None,
    }
}

/// The string that the member `key` of `doc` holds.
pub fn string_member(doc: &serde_json::Value, key: &str) -> (r: Option<String>)
    ensures
        r.deep_view() == json_string_member(json_of(*doc), key@),
{
    match member(doc, key) {
        Some(v) => string_value(&v),
        None => None,
    }
}

/// The unsigned integer that the member `key` of the JSON object `doc`
/// holds; `None` where there is no such member or it is no unsigned integer
/// of 64 bits.
pub open spec fn json_unsigned_member(doc: Json, key: Seq<char>) -> Option<u64> {
    match doc.member(key) {
        Some(v) => v.unsigned(),
        None => None,
    }
}

/// The unsigned integer that the member `key` of `doc` holds.
pub fn unsigned_member(doc: &serde_json::Value, key: &str) -> (r: Option<u64>)
    ensures
        r == json_unsigned_member(json_of(*doc), key@),
{
    match member(doc, key) {
        Some(v) => unsigned_value(&v),
        None => None,
    }
}

} // verus!
