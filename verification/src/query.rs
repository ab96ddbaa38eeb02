//! The query of a URL, written and read: parameters are written as
//! `name=value`, with `&` between them, after the first `?` of the URL, and
//! read by cutting at those three characters. Nothing is decoded on the way
//! in; what is written is encoded by the caller.

use crate::text::{
    chars_of, free_of, lemma_split_free, lemma_split_joined, opt_text, rows, same_text, split,
    split_at, string_of,
};
use vstd::prelude::*;
use vstd::string::StringExecFns;

verus! {

/// Whether a text can stand as a value in a query: it holds none of the
/// characters `?`, `&` and `=`.
pub open spec fn is_plain(value: Seq<char>) -> bool {
    free_of(value, '?') && free_of(value, '&') && free_of(value, '=')
}

/// One parameter as it stands in a query.
pub open spec fn parameter(pair: (Seq<char>, Seq<char>)) -> Seq<char> {
    pair.0.push('=') + pair.1
}

/// The query that carries the parameters `pairs`, in their order.
pub open spec fn serialized(pairs: Seq<(Seq<char>, Seq<char>)>) -> Seq<char>
    decreases pairs.len(),
{
    if pairs.len() == 0 {
        Seq::empty()
    } else if pairs.len() == 1 {
        parameter(pairs[0])
    } else {
        serialized(pairs.drop_last()).push('&') + parameter(pairs.last())
    }
}

/// The query of a request's URL: what stands between the first `?` and the
/// next one, or the end. Empty where the URL holds no `?`.
pub open spec fn query_of(url: Seq<char>) -> Seq<char> {
    let pieces = split_at(url, '?');
    if pieces.len() >= 2 {
        pieces[1]
    } else {
        Seq::empty()
    }
}

/// One part of a query read as a key and a value: the key is what precedes
/// the first `=`; the value is what stands between the first `=` and the
/// next one, or the end, and is empty where the part holds no `=`.
pub open spec fn pair_of(part: Seq<char>) -> (Seq<char>, Seq<char>) {
    let pieces = split_at(part, '=');
    (
        pieces[0],
        if pieces.len() >= 2 {
            pieces[1]
        } else {
            Seq::empty()
        },
    )
}

/// The parameters of a request's URL, in the order in which they stand in
/// the query: its parts between `&`, each read as a pair. Nothing is
/// decoded.
pub open spec fn params_of(url: Seq<char>) -> Seq<(Seq<char>, Seq<char>)> {
    let parts = split_at(query_of(url), '&');
    Seq::new(parts.len(), |i: int| pair_of(parts[i]))
}

/// The value of the first pair with the key `key`, if there is one.
pub open spec fn lookup(pairs: Seq<(Seq<char>, Seq<char>)>, key: Seq<char>) -> Option<Seq<char>>
    decreases pairs.len(),
{
    if pairs.len() == 0 {
        None
    } else if pairs[0].0 == key {
        Some(pairs[0].1)
    } else {
        lookup(pairs.skip(1), key)
    }
}

/// The pairs as a mapping from key to value, where the first occurrence of
/// a key wins.
pub open spec fn mapping(pairs: Seq<(Seq<char>, Seq<char>)>) -> Map<Seq<char>, Seq<char>> {
    Map::new(
        |key: Seq<char>| lookup(pairs, key) is Some,
        |key: Seq<char>| lookup(pairs, key).unwrap(),
    )
}

/// The views of a list of pairs of strings.
pub open spec fn pairs_view(v: Seq<(String, String)>) -> Seq<(Seq<char>, Seq<char>)> {
    Seq::new(v.len(), |i: int| (v[i].0@, v[i].1@))
}

/// Reads the query of a request's URL as a list of parameters, in the
/// order in which they stand.
pub fn parse_params(url: &str) -> (params: Vec<(String, String)>)
    ensures
        pairs_view(params@) == params_of(url@),
{
    let chars = chars_of(url);
    let pieces = split(&chars, '?');
    let empty: Vec<char> = Vec::new();
    let query: &Vec<char> = if pieces.len() >= 2 {
        &pieces[1]
    } else {
        &empty
    };
    let parts = split(query, '&');
    let mut params: Vec<(String, String)> = Vec::new();
    let mut i: usize = 0;
    while i < parts.len()
        invariant
            i <= parts@.len(),
            rows(parts@) == split_at(query_of(url@), '&'),
            params@.len() == i,
            forall|k: int| 0 <= k < i ==> #[trigger] pairs_view(params@)[k] == pair_of(parts@[k]@),
        decreases parts@.len() - i,
    {
        let kv = split(&parts[i], '=');
        let key = string_of(&kv[0], 0, kv[0].len());
        let value = if kv.len() >= 2 {
            string_of(&kv[1], 0, kv[1].len())
        } else {
            String::new()
        };
        let ghost before = params@;
        params.push((key, value));
        proof {
            assert forall|k: int| 0 <= k < i + 1 implies #[trigger] pairs_view(params@)[k]
                == pair_of(parts@[k]@) by {
                if k < i {
                    assert(pairs_view(before)[k] == pair_of(parts@[k]@));
                }
            }
        }
        i = i + 1;
    }
    params
}

/// Looks a key up in a list of parameters. Where the key occurs more than
/// once, the first occurrence wins.
pub fn get_param(params: &Vec<(String, String)>, key: &str) -> (value: Option<String>)
    ensures
        opt_text(value) == lookup(pairs_view(params@), key@),
        value is Some <==> mapping(pairs_view(params@)).contains_key(key@),
        value matches Some(v) ==> v@ == mapping(pairs_view(params@))[key@],
{
    let mut i: usize = 0;
    let ghost pairs = pairs_view(params@);
    assert(pairs.skip(0) =~= pairs);
    while i < params.len()
        invariant
            i <= params@.len(),
            pairs == pairs_view(params@),
            lookup(pairs, key@) == lookup(pairs.skip(i as int), key@),
        decreases params@.len() - i,
    {
        assert(pairs.skip(i as int).skip(1) =~= pairs.skip(i + 1));
        if same_text(params[i].0.as_str(), key) {
            return Some(params[i].1.clone());
        }
        i = i + 1;
    }
    None
}

/// A key on the left of `=` and a plain value on its right read as that key
/// and that value.
proof fn lemma_pair(key: Seq<char>, value: Seq<char>)
    requires
        free_of(key, '='),
        free_of(value, '='),
    ensures
        pair_of(key.push('=') + value) == (key, value),
{
    lemma_split_joined(key, value, '=');
    lemma_split_free(key, '=');
    lemma_split_free(value, '=');
}

/// The query that follows the first `?` of a URL is its query, where
/// neither the path before it nor the query holds another `?`.
proof fn lemma_query(path: Seq<char>, query: Seq<char>)
    requires
        free_of(path, '?'),
        free_of(query, '?'),
    ensures
        query_of(path.push('?') + query) == query,
{
    lemma_split_joined(path, query, '?');
    lemma_split_free(path, '?');
    lemma_split_free(query, '?');
}

/// Whether every name and every value of `pairs` can stand in a query.
pub open spec fn all_plain(pairs: Seq<(Seq<char>, Seq<char>)>) -> bool {
    forall|i: int| 0 <= i < pairs.len() ==> is_plain((#[trigger] pairs[i]).0) && is_plain(pairs[i].1)
}

/// What is written can be read: the parameters of a URL whose query
/// carries `pairs` are `pairs`, as long as every name and every value can
/// stand in a query. No value can add a parameter or end the query.
pub proof fn lemma_round_trip(path: Seq<char>, pairs: Seq<(Seq<char>, Seq<char>)>)
    requires
        free_of(path, '?'),
        pairs.len() >= 1,
        all_plain(pairs),
    ensures
        params_of(path.push('?') + serialized(pairs)) == pairs,
{
    lemma_serialized_parts(pairs);
    lemma_query(path, serialized(pairs));
    let parts = split_at(serialized(pairs), '&');
    assert forall|i: int| 0 <= i < pairs.len() implies pair_of(#[trigger] parts[i]) == pairs[i] by {
        lemma_pair(pairs[i].0, pairs[i].1);
    }
}

/// The parts of a written query are its parameters, one part each, and the
/// query holds no `?`.
proof fn lemma_serialized_parts(pairs: Seq<(Seq<char>, Seq<char>)>)
    requires
        pairs.len() >= 1,
        all_plain(pairs),
    ensures
        free_of(serialized(pairs), '?'),
        split_at(serialized(pairs), '&') == Seq::new(pairs.len(), |i: int| parameter(pairs[i])),
    decreases pairs.len(),
{
    let last = parameter(pairs.last());
    lemma_split_free(last, '&');
    if pairs.len() > 1 {
        let init = pairs.drop_last();
        assert(all_plain(init));
        lemma_serialized_parts(init);
        lemma_split_joined(serialized(init), last, '&');
    }
}

/// Appends one parameter to a query under construction: `&` unless the
/// parameter is the first, then the name, `=` and the value.
pub fn append_parameter(out: &mut String, first: bool, name: &str, value: &str)
    ensures
        first ==> final(out)@ == old(out)@ + parameter((name@, value@)),
        !first ==> final(out)@ == old(out)@.push('&') + parameter((name@, value@)),
{
    if !first {
        out.push('&');
    }
    out.append(name);
    out.push('=');
    out.append(value);
}

} // verus!
