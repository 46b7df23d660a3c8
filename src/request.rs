use vstd::prelude::*;

use std::collections::HashMap;

use crate::temporal::{iso_date_text, timestamp_text_of, CalendarDate, Timestamp};
use crate::time_unit::{wire_token, TimeUnit};

verus! {

/// The text of a number in decimal, without sign or leading zeros.
pub open spec fn decimal_text(n: nat) -> Seq<char>
    decreases n,
{
    if n < 10 {
        seq![((n + '0' as nat) as u32) as char]
    } else {
        decimal_text(n / 10).push((((n % 10) + '0' as nat) as u32) as char)
    }
}

/// One query parameter written as `key=value`.
pub open spec fn pair_text(p: (String, String)) -> Seq<char> {
    p.0@ + seq!['='] + p.1@
}

/// Query parameters written one after another, separated by single `&`s.
pub open spec fn encode_pairs(pairs: Seq<(String, String)>) -> Seq<char>
    decreases pairs.len(),
{
    if pairs.len() == 0 {
        Seq::empty()
    } else if pairs.len() == 1 {
        pair_text(pairs[0])
    } else {
        encode_pairs(pairs.drop_last()) + seq!['&'] + pair_text(pairs.last())
    }
}

/// `pairs` lists each entry of `m` exactly once, in some order.
pub open spec fn lists_entries(pairs: Seq<(String, String)>, m: Map<String, String>) -> bool {
    &&& m.dom().finite()
    &&& pairs.len() == m.dom().len()
    &&& forall|i: int|
        0 <= i < pairs.len() ==> m.contains_key(#[trigger] pairs[i].0) && m[pairs[i].0]
            == pairs[i].1
    &&& forall|i: int, j: int|
        0 <= i < pairs.len() && 0 <= j < pairs.len() && i != j ==> #[trigger] pairs[i].0
            != #[trigger] pairs[j].0
}

/// `s` is the query text of the entries of `m`, taken in some order.
pub open spec fn is_encoding_of(s: Seq<char>, m: Map<String, String>) -> bool {
    exists|pairs: Seq<(String, String)>| lists_entries(pairs, m) && s == encode_pairs(pairs)
}

/// `m` maps a key that reads `k` to a value that reads `v`.
pub open spec fn has_param(m: Map<String, String>, k: Seq<char>, v: Seq<char>) -> bool {
    exists|key: String| #[trigger] m.contains_key(key) && key@ == k && m[key]@ == v
}

/// The address of a path of the service with the given query text.
pub open spec fn url_text(path: Seq<char>, query: Seq<char>) -> Seq<char> {
    "https://monitoringapi.solaredge.com"@ + path + seq!['?'] + query
}

/// Relies on `HashMap::insert`: afterwards the key maps to the value, other keys unchanged.
#[verifier::external_body]
fn insert_param(map: &mut HashMap<String, String>, key: String, value: String)
    ensures
        final(map)@ == old(map)@.insert(key, value),
{
    map.insert(key, value);
}

/// Relies on `HashMap::iter`, which visits each entry exactly once in an unspecified order.
#[verifier::external_body]
fn param_entries(map: &HashMap<String, String>) -> (r: Vec<(String, String)>)
    ensures
        lists_entries(r@, map@),
{
    map.iter().map(|(k, v)| (k.clone(), v.clone())).collect()
}

/// Relies on `u32`'s `to_string`, which writes the number in decimal.
#[verifier::external_body]
fn u32_text(n: u32) -> (r: String)
    ensures
        r@ == decimal_text(n as nat),
{
    n.to_string()
}

/// Writes parameters as `key=value` joined by `&`, in the order given.
fn encode_params(pairs: &Vec<(String, String)>) -> (r: String)
    ensures
        r@ == encode_pairs(pairs@),
{
    let mut out = String::new();
    let mut i: usize = 0;
    proof {
        reveal_strlit("&");
        reveal_strlit("=");
        assert(pairs@.subrange(0, 0) =~= Seq::<(String, String)>::empty());
    }
    while i < pairs.len()
        invariant
            0 <= i <= pairs@.len(),
            out@ == encode_pairs(pairs@.subrange(0, i as int)),
            "&"@ == seq!['&'],
            "="@ == seq!['='],
        decreases pairs@.len() - i,
    {
        let ghost before = out@;
        if i > 0 {
            out.append("&");
        }
        out.append(pairs[i].0.as_str());
        out.append("=");
        out.append(pairs[i].1.as_str());
        proof {
            let s = pairs@.subrange(0, i + 1);
            assert(s.drop_last() =~= pairs@.subrange(0, i as int));
            assert(s.last() == pairs@[i as int]);
            if i == 0 {
                assert(out@ =~= pair_text(pairs@[0]));
            } else {
                assert(out@ =~= before + seq!['&'] + pair_text(pairs@[i as int]));
            }
        }
        i = i + 1;
    }
    assert(pairs@.subrange(0, i as int) =~= pairs@);
    out
}

/// The query text of the parameters: `key=value` for each entry, joined by single `&`s, in
/// the order the map yields them. Keys and values are written as they are, without escaping.
pub fn map_to_params(map: &HashMap<String, String>) -> (r: String)
    ensures
        is_encoding_of(r@, map@),
{
    let pairs = param_entries(map);
    let r = encode_params(&pairs);
    assert(lists_entries(pairs@, map@) && r@ == encode_pairs(pairs@));
    r
}

/// The address of a path of the service, with the parameters as its query.
pub fn to_url(path: &str, params: &HashMap<String, String>) -> (r: String)
    ensures
        exists|q: Seq<char>| is_encoding_of(q, params@) && r@ == url_text(path@, q),
{
    let query = map_to_params(params);
    let mut url = String::from_str("https://monitoringapi.solaredge.com");
    url.append(path);
    url.append("?");
    url.append(query.as_str());
    proof {
        reveal_strlit("?");
        assert(url@ =~= url_text(path@, query@));
    }
    url
}

/// The parameters that every request carries: the API key alone.
pub fn default_map(api_key: &str) -> (r: HashMap<String, String>)
    ensures
        exists|k: String, v: String|
            k@ == "api_key"@ && v@ == api_key@ && r@ == Map::<String, String>::empty().insert(
                k,
                v,
            ),
{
    let mut map: HashMap<String, String> = HashMap::new();
    let key = String::from_str("api_key");
    let value = String::from_str(api_key);
    let ghost k = key;
    let ghost v = value;
    insert_param(&mut map, key, value);
    assert(k@ == "api_key"@ && v@ == api_key@ && map@ == Map::<String, String>::empty().insert(
        k,
        v,
    ));
    map
}

/// The path of one of a site's resources: `/site/<id>/<resource>`.
pub fn site_path(site_id: u32, resource: &str) -> (r: String)
    ensures
        r@ == "/site/"@ + decimal_text(site_id as nat) + seq!['/'] + resource@,
{
    let mut path = String::from_str("/site/");
    let id = u32_text(site_id);
    path.append(id.as_str());
    path.append("/");
    path.append(resource);
    proof {
        reveal_strlit("/");
        assert(path@ =~= "/site/"@ + decimal_text(site_id as nat) + seq!['/'] + resource@);
    }
    path
}


/// The parameters of an energy request: the API key, the first and last day as
/// `YYYY-MM-DD`, and the granularity's token.
pub fn energy_params(
    api_key: &str,
    start: &CalendarDate,
    end: &CalendarDate,
    time_unit: TimeUnit,
) -> (r: HashMap<String, String>)
    requires
        start.wf(),
        end.wf(),
    ensures
        r@.dom().finite(),
        r@.dom().len() == 4,
        has_param(r@, "api_key"@, api_key@),
        has_param(r@, "startDate"@, start.text()),
        has_param(r@, "endDate"@, end.text()),
        has_param(r@, "timeUnit"@, wire_token(time_unit)),
{
    let mut map = default_map(api_key);
    let ghost k0 = choose|k: String, v: String|
        k@ == "api_key"@ && v@ == api_key@ && map@ == Map::<String, String>::empty().insert(k, v);
    let k1 = String::from_str("startDate");
    let v1 = start.format();
    let k2 = String::from_str("endDate");
    let v2 = end.format();
    let k3 = String::from_str("timeUnit");
    let v3 = String::from_str(time_unit.to_param());
    let ghost (g1, g2, g3) = (k1, k2, k3);
    insert_param(&mut map, k1, v1);
    insert_param(&mut map, k2, v2);
    insert_param(&mut map, k3, v3);
    proof {
        reveal_strlit("api_key");
        reveal_strlit("startDate");
        reveal_strlit("endDate");
        reveal_strlit("timeUnit");
        let (a, b) = k0;
        assert(a@.len() == 7 && g1@.len() == 9 && g2@.len() == 7 && g3@.len() == 8);
        assert(a@[0] == 'a' && g2@[0] == 'e');
        assert(a@ != g1@ && a@ != g2@ && a@ != g3@);
        assert(g1@ != g2@ && g1@ != g3@);
        assert(g2@ != g3@);
        assert(map@.contains_key(a) && map@[a]@ == api_key@);
        assert(map@.contains_key(g1) && map@[g1]@ == start.text());
        assert(map@.contains_key(g2) && map@[g2]@ == end.text());
        assert(map@.contains_key(g3) && map@[g3]@ == wire_token(time_unit));
        assert(map@.dom() =~= Set::empty().insert(a).insert(g1).insert(g2).insert(g3));
    }
    map
}

/// The parameters of a power request: the API key and the first and last instant as
/// `YYYY-MM-DD HH:MM:SS`.
pub fn power_params(
    api_key: &str,
    start: &Timestamp,
    end: &Timestamp,
) -> (r: HashMap<String, String>)
    requires
        start.wf(),
        end.wf(),
    ensures
        r@.dom().finite(),
        r@.dom().len() == 3,
        has_param(r@, "api_key"@, api_key@),
        has_param(r@, "startTime"@, timestamp_text_of(start.seconds as int)),
        has_param(r@, "endTime"@, timestamp_text_of(end.seconds as int)),
{
    let mut map = default_map(api_key);
    let ghost k0 = choose|k: String, v: String|
        k@ == "api_key"@ && v@ == api_key@ && map@ == Map::<String, String>::empty().insert(k, v);
    let k1 = String::from_str("startTime");
    let v1 = start.format();
    let k2 = String::from_str("endTime");
    let v2 = end.format();
    let ghost (g1, g2) = (k1, k2);
    insert_param(&mut map, k1, v1);
    insert_param(&mut map, k2, v2);
    proof {
        reveal_strlit("api_key");
        reveal_strlit("startTime");
        reveal_strlit("endTime");
        let (a, b) = k0;
        assert(a@.len() == 7 && g1@.len() == 9 && g2@.len() == 7);
        assert(a@[0] == 'a' && g2@[0] == 'e');
        assert(a@ != g1@ && a@ != g2@);
        assert(g1@ != g2@);
        assert(map@.contains_key(a) && map@[a]@ == api_key@);
        assert(map@.contains_key(g1) && map@[g1]@ == timestamp_text_of(start.seconds as int));
        assert(map@.contains_key(g2) && map@[g2]@ == timestamp_text_of(end.seconds as int));
        assert(map@.dom() =~= Set::empty().insert(a).insert(g1).insert(g2));
    }
    map
}

/// Whatever order the map yields its two entries in, the query text is one of the two
/// orderings of `key=value`, joined by a single `&` and with none at the end.
pub proof fn lemma_two_params_encoding(
    m: Map<String, String>,
    s: Seq<char>,
    k1: String,
    k2: String,
)
    requires
        m.dom() == set![k1, k2],
        k1 != k2,
        is_encoding_of(s, m),
    ensures
        s == pair_text((k1, m[k1])) + seq!['&'] + pair_text((k2, m[k2])) || s == pair_text(
            (k2, m[k2]),
        ) + seq!['&'] + pair_text((k1, m[k1])),
{
    let pairs = choose|pairs: Seq<(String, String)>|
        lists_entries(pairs, m) && s == encode_pairs(pairs);
    assert(set![k1, k2].len() == 2);
    assert(pairs.len() == 2);
    assert(pairs.drop_last().len() == 1);
    assert(encode_pairs(pairs.drop_last()) == pair_text(pairs[0]));
    assert(pairs[0].0 != pairs[1].0);
    assert(m.contains_key(pairs[0].0));
    assert(m.contains_key(pairs[1].0));
    if pairs[0].0 == k1 {
        assert(pairs[1].0 == k2);
        assert(pairs[0] == (k1, m[k1]));
        assert(pairs[1] == (k2, m[k2]));
    } else {
        assert(pairs[0].0 == k2);
        assert(pairs[1].0 == k1);
        assert(pairs[0] == (k2, m[k2]));
        assert(pairs[1] == (k1, m[k1]));
    }
}

} // verus!
