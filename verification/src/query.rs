use vstd::prelude::*;

verus! {

/// The ghost image of a key/value pair list.
pub open spec fn pairs_view(pairs: Seq<(String, String)>) -> Seq<(Seq<char>, Seq<char>)> {
    pairs.map_values(|p: (String, String)| (p.0@, p.1@))
}

/// The key/value pairs that the query-string decoder yields for a query
/// text, sorted by key, or nothing when the text does not decode.
pub uninterp spec fn parsed_query(q: Seq<char>) -> Option<Seq<(Seq<char>, Seq<char>)>>;

/// Relies on serde_qs::from_str: decoding a query string into a map
/// from string keys to string values depends on the text alone, each
/// key comes out once, and taking the entries from an ordered map makes
/// the pair order a function of the text too.
#[verifier::external_body]
pub(crate) fn parse_query_str(q: &str) -> (r: Option<Vec<(String, String)>>)
    ensures
        match r {
            Some(pairs) => parsed_query(q@) == Some(pairs_view(pairs@)),
            None => parsed_query(q@) is None,
        },
{
    match serde_qs::from_str::<std::collections::BTreeMap<String, String>>(q) {
        Ok(m) => Some(m.into_iter().collect()),
        Err(_) => None,
    }
}

/// The value of the first pair whose key is `key`, if any.
pub open spec fn spec_lookup(pairs: Seq<(Seq<char>, Seq<char>)>, key: Seq<char>) -> Option<
    Seq<char>,
>
    decreases pairs.len(),
{
    if pairs.len() == 0 {
        None
    } else if pairs[0].0 == key {
        Some(pairs[0].1)
    } else {
        spec_lookup(pairs.drop_first(), key)
    }
}

/// Finds the value of the first pair carrying the given key.
pub fn lookup(pairs: &Vec<(String, String)>, key: &str) -> (r: Option<String>)
    ensures
        match r {
            Some(v) => spec_lookup(pairs_view(pairs@), key@) == Some(v@),
            None => spec_lookup(pairs_view(pairs@), key@) is None,
        },
{
    let k = key.to_owned();
    let n = pairs.len();
    let mut i: usize = 0;
    proof {
        assert(pairs_view(pairs@).skip(0) =~= pairs_view(pairs@));
    }
    while i < n
        invariant
            0 <= i <= n,
            n == pairs@.len(),
            k@ == key@,
            spec_lookup(pairs_view(pairs@), key@) == spec_lookup(
                pairs_view(pairs@).skip(i as int),
                key@,
            ),
        decreases n - i,
    {
        proof {
            assert(pairs_view(pairs@).skip(i as int)[0] == pairs_view(pairs@)[i as int]);
            assert(pairs_view(pairs@)[i as int] == (pairs@[i as int].0@, pairs@[i as int].1@));
        }
        if pairs[i].0 == k {
            return Some(pairs[i].1.clone());
        }
        proof {
            assert(pairs_view(pairs@).skip(i as int).drop_first() =~= pairs_view(pairs@).skip(
                i + 1,
            ));
        }
        i = i + 1;
    }
    proof {
        assert(pairs_view(pairs@).skip(n as int) =~= Seq::<(Seq<char>, Seq<char>)>::empty());
    }
    None
}

} // verus!
