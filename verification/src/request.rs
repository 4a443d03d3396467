//! Pieces of request URLs: query entries for numbers, dates and identifiers.

use vstd::prelude::*;
use crate::date::{date_text, Date};
use crate::text::{dec, dec_string, kv, param, push_dec, push_char, push_str, query, query_string, opt_view, opt_views, seq_join};

verus! {

/// The entry `key=n`.
pub open spec fn num_kv(key: Seq<char>, n: nat) -> Option<Seq<char>> {
    Some(kv(key, dec(n)))
}

/// The entry `key=n` where `n` is present.
pub open spec fn opt_num_kv(key: Seq<char>, n: Option<nat>) -> Option<Seq<char>> {
    match n {
        Some(v) => Some(kv(key, dec(v))),
        None => None,
    }
}

/// The entry `key=YYYY-MM-DD` where a date is present.
pub open spec fn opt_date_kv(key: Seq<char>, d: Option<Date>) -> Option<Seq<char>> {
    match d {
        Some(v) => Some(kv(key, date_text(v@.0, v@.1, v@.2))),
        None => None,
    }
}

/// The entry `key=text` where a text is present.
pub open spec fn opt_text_kv(key: Seq<char>, t: Option<Seq<char>>) -> Option<Seq<char>> {
    match t {
        Some(v) => Some(kv(key, v)),
        None => None,
    }
}

/// An optional `u32` as a natural number.
pub open spec fn opt_nat(o: Option<u32>) -> Option<nat> {
    match o {
        Some(v) => Some(v as nat),
        None => None,
    }
}

/// The entry `key=n`.
pub fn num_param(key: &str, n: u64) -> (res: Option<String>)
    ensures
        res matches Some(s) && s@ == kv(key@, dec(n as nat)),
{
    let v = dec_string(n);
    Some(param(key, v.as_str()))
}

/// The entry `key=n` where `n` is present.
pub fn opt_num_param(key: &str, n: Option<u32>) -> (res: Option<String>)
    ensures
        match res {
            Some(s) => opt_num_kv(key@, opt_nat(n)) == Some(s@),
            None => opt_num_kv(key@, opt_nat(n)) is None,
        },
{
    match n {
        Some(v) => num_param(key, v as u64),
        None => None,
    }
}

/// The entry `key=YYYY-MM-DD` where a date is present.
pub fn opt_date_param(key: &str, d: Option<Date>) -> (res: Option<String>)
    ensures
        match res {
            Some(s) => opt_date_kv(key@, d) == Some(s@),
            None => opt_date_kv(key@, d) is None,
        },
{
    match d {
        Some(v) => {
            let t = v.to_api_string();
            Some(param(key, t.as_str()))
        },
        None => None,
    }
}

/// The entry `key=text` where a text is present.
pub fn opt_text_param(key: &str, t: Option<String>) -> (res: Option<String>)
    ensures
        match res {
            Some(s) => opt_text_kv(key@, match t {
                Some(x) => Some(x@),
                None => None,
            }) == Some(s@),
            None => t is None,
        },
{
    match t {
        Some(v) => Some(param(key, v.as_str())),
        None => None,
    }
}

/// The entry `key=text`.
pub fn text_param(key: &str, t: &str) -> (res: Option<String>)
    ensures
        res matches Some(s) && s@ == kv(key@, t@),
{
    Some(param(key, t))
}

/// An identifier written in URLs as a decimal number.
pub trait NumericId {
    /// The number of the identifier.
    spec fn num(&self) -> nat;

    /// The number of the identifier.
    fn number(&self) -> (res: u32)
        ensures
            res as nat == self.num(),
    ;
}

/// An identifier written in URLs as its text.
pub trait TextId {
    /// The text of the identifier.
    spec fn text(&self) -> Seq<char>;

    /// The text of the identifier.
    fn as_text(&self) -> (res: &str)
        ensures
            res@ == self.text(),
    ;
}

/// The decimal texts of a list of numeric identifiers.
pub open spec fn id_texts<T: NumericId>(ids: Seq<T>) -> Seq<Seq<char>> {
    ids.map_values(|t: T| dec(t.num()))
}

/// The texts of a list of text identifiers.
pub open spec fn text_ids<T: TextId>(ids: Seq<T>) -> Seq<Seq<char>> {
    ids.map_values(|t: T| t.text())
}

/// A list of numeric identifiers joined by commas, as `itertools::join` writes it.
pub open spec fn ids_text<T: NumericId>(ids: Seq<T>) -> Seq<char> {
    seq_join(id_texts(ids), seq![','])
}

/// A list of text identifiers joined by commas, as `itertools::join` writes it.
pub open spec fn texts_text<T: TextId>(ids: Seq<T>) -> Seq<char> {
    seq_join(text_ids(ids), seq![','])
}

/// Joins numeric identifiers with commas.
pub fn join_ids<T: NumericId>(ids: &Vec<T>) -> (res: String)
    ensures
        res@ == ids_text(ids@),
{
    let mut res = String::new();
    let ghost all = id_texts(ids@);
    let n = ids.len();
    for i in 0..n
        invariant
            n == ids.len(),
            all == id_texts(ids@),
            res@ == seq_join(all.take(i as int), seq![',']),
    {
        assert(all.take(i + 1).drop_last() =~= all.take(i as int));
        if i != 0 {
            push_char(&mut res, ',');
        } else {
            assert(all.take(i as int) =~= Seq::<Seq<char>>::empty());
        }
        let v = ids[i].number();
        push_dec(&mut res, v as u64);
    }
    assert(all.take(n as int) =~= all);
    res
}

/// Joins text identifiers with commas.
pub fn join_texts<T: TextId>(ids: &Vec<T>) -> (res: String)
    ensures
        res@ == texts_text(ids@),
{
    let mut res = String::new();
    let ghost all = text_ids(ids@);
    let n = ids.len();
    for i in 0..n
        invariant
            n == ids.len(),
            all == text_ids(ids@),
            res@ == seq_join(all.take(i as int), seq![',']),
    {
        assert(all.take(i + 1).drop_last() =~= all.take(i as int));
        if i != 0 {
            push_char(&mut res, ',');
        } else {
            assert(all.take(i as int) =~= Seq::<Seq<char>>::empty());
        }
        push_str(&mut res, ids[i].as_text());
    }
    assert(all.take(n as int) =~= all);
    res
}

/// A request URL: its base, then the query string made of the entries that are present.
pub fn url_with_query(base: &str, pieces: &Vec<Option<String>>) -> (res: String)
    ensures
        res@ == base@ + query(opt_views(pieces@)),
{
    let q = query_string(pieces);
    let mut url = String::from_str(base);
    url.append(q.as_str());
    url
}

/// The entry `key=n` for a numeric identifier.
pub fn id_param<T: NumericId>(key: &str, id: &T) -> (res: Option<String>)
    ensures
        res matches Some(s) && s@ == kv(key@, dec(id.num())),
{
    num_param(key, id.number() as u64)
}

/// The entry `key=n` where a numeric identifier is present.
pub fn opt_id_param<T: NumericId>(key: &str, id: &Option<T>) -> (res: Option<String>)
    ensures
        opt_view(res) == opt_num_kv(key@, match id {
            Some(v) => Some(v.num()),
            None => None,
        }),
{
    match id {
        Some(v) => num_param(key, v.number() as u64),
        None => None,
    }
}

/// The entry `key=text` for a text identifier.
pub fn text_id_param<T: TextId>(key: &str, id: &T) -> (res: Option<String>)
    ensures
        res matches Some(s) && s@ == kv(key@, id.text()),
{
    Some(param(key, id.as_text()))
}

/// The entry `key=text` where a text identifier is present.
pub fn opt_text_id_param<T: TextId>(key: &str, id: &Option<T>) -> (res: Option<String>)
    ensures
        opt_view(res) == opt_text_kv(key@, match id {
            Some(v) => Some(v.text()),
            None => None,
        }),
{
    match id {
        Some(v) => Some(param(key, v.as_text())),
        None => None,
    }
}

} // verus!
