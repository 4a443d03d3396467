//! Text building blocks: decimal numbers, joining, searching and query strings.

use vstd::prelude::*;

verus! {

/// Appends one character to a `String`.
///
/// Calls `String::push`; its documentation says it appends the given `char` to the end of
/// the string, which is what the contract states.
#[verifier::external_body]
pub(crate) fn push_char(s: &mut String, c: char)
    ensures
        final(s)@ == old(s)@.push(c),
{
    s.push(c);
}

/// The ASCII digit for a value below ten.
pub open spec fn digit_char(d: nat) -> char {
    if d == 0 {
        '0'
    } else if d == 1 {
        '1'
    } else if d == 2 {
        '2'
    } else if d == 3 {
        '3'
    } else if d == 4 {
        '4'
    } else if d == 5 {
        '5'
    } else if d == 6 {
        '6'
    } else if d == 7 {
        '7'
    } else if d == 8 {
        '8'
    } else {
        '9'
    }
}

/// Whether a character is an ASCII decimal digit.
pub open spec fn is_digit(c: char) -> bool {
    '0' <= c && c <= '9'
}

/// The value of an ASCII decimal digit.
pub open spec fn digit_value(c: char) -> nat {
    (c as int - '0' as int) as nat
}

/// The usual decimal notation of a natural number, without leading zeros.
pub open spec fn dec(n: nat) -> Seq<char>
    decreases n,
{
    if n < 10 {
        seq![digit_char(n)]
    } else {
        dec(n / 10).push(digit_char(n % 10))
    }
}

/// Whether every character of `s` is a decimal digit.
pub open spec fn all_digits(s: Seq<char>) -> bool {
    forall|i: int| 0 <= i < s.len() ==> #[trigger] is_digit(s[i])
}

/// The value of a string of decimal digits (the empty string counts as 0).
pub open spec fn digits_value(s: Seq<char>) -> nat
    decreases s.len(),
{
    if s.len() == 0 {
        0
    } else {
        digits_value(s.drop_last()) * 10 + digit_value(s.last())
    }
}

/// What `str::parse` gives for an unsigned integer type whose largest value is `max`:
/// an optional `+`, then one or more ASCII digits, of a value no larger than `max`.
pub open spec fn parse_unsigned_spec(s: Seq<char>, max: nat) -> Option<nat> {
    let body = if s.len() > 0 && s[0] == '+' {
        s.drop_first()
    } else {
        s
    };
    if body.len() == 0 || !all_digits(body) || digits_value(body) > max {
        None
    } else {
        Some(digits_value(body))
    }
}

proof fn lemma_digit_char(d: nat)
    requires
        d < 10,
    ensures
        is_digit(digit_char(d)),
        digit_value(digit_char(d)) == d,
{
}

/// The decimal notation of `n` is made of digits, is not empty, and reads back as `n`.
pub proof fn lemma_dec_digits(n: nat)
    ensures
        dec(n).len() > 0,
        all_digits(dec(n)),
        digits_value(dec(n)) == n,
        dec(n)[0] != '+',
    decreases n,
{
    if n < 10 {
        lemma_digit_char(n);
        assert(dec(n).drop_last() =~= Seq::<char>::empty());
        assert(digits_value(Seq::<char>::empty()) == 0);
    } else {
        lemma_dec_digits(n / 10);
        lemma_digit_char(n % 10);
        let s = dec(n);
        assert(s.drop_last() =~= dec(n / 10));
        assert forall|i: int| 0 <= i < s.len() implies #[trigger] is_digit(s[i]) by {
            if i < s.len() - 1 {
                assert(s[i] == dec(n / 10)[i]);
            }
        }
        assert(digits_value(s) == digits_value(dec(n / 10)) * 10 + digit_value(s.last()));
        assert((n / 10) * 10 + n % 10 == n);
    }
}

/// Parsing the decimal notation of a number that fits gives the number back.
pub proof fn lemma_parse_dec(n: nat, max: nat)
    requires
        n <= max,
    ensures
        parse_unsigned_spec(dec(n), max) == Some(n),
{
    lemma_dec_digits(n);
}

proof fn lemma_digits_value_prefix(s: Seq<char>, i: int)
    requires
        0 <= i <= s.len(),
        all_digits(s),
    ensures
        digits_value(s.take(i)) <= digits_value(s),
    decreases s.len() - i,
{
    if i < s.len() {
        lemma_digits_value_prefix(s, i + 1);
        let t = s.take(i + 1);
        assert(t.drop_last() =~= s.take(i));
        assert(digits_value(t) == digits_value(s.take(i)) * 10 + digit_value(t.last()));
    } else {
        assert(s.take(i) =~= s);
    }
}

fn digit_char_exec(d: u64) -> (c: char)
    requires
        d < 10,
    ensures
        c == digit_char(d as nat),
{
    if d == 0 {
        '0'
    } else if d == 1 {
        '1'
    } else if d == 2 {
        '2'
    } else if d == 3 {
        '3'
    } else if d == 4 {
        '4'
    } else if d == 5 {
        '5'
    } else if d == 6 {
        '6'
    } else if d == 7 {
        '7'
    } else if d == 8 {
        '8'
    } else {
        '9'
    }
}

fn digit_value_exec(c: char) -> (d: u64)
    requires
        is_digit(c),
    ensures
        d == digit_value(c),
        d < 10,
{
    if c == '0' {
        0
    } else if c == '1' {
        1
    } else if c == '2' {
        2
    } else if c == '3' {
        3
    } else if c == '4' {
        4
    } else if c == '5' {
        5
    } else if c == '6' {
        6
    } else if c == '7' {
        7
    } else if c == '8' {
        8
    } else {
        9
    }
}

/// Appends the decimal notation of `n`.
pub fn push_dec(s: &mut String, n: u64)
    ensures
        final(s)@ == old(s)@ + dec(n as nat),
    decreases n,
{
    if n < 10 {
        push_char(s, digit_char_exec(n));
    } else {
        push_dec(s, n / 10);
        push_char(s, digit_char_exec(n % 10));
    }
}

/// The decimal notation of `n`, as `n.to_string()` writes it.
pub fn dec_string(n: u64) -> (res: String)
    ensures
        res@ == dec(n as nat),
{
    let mut s = String::new();
    push_dec(&mut s, n);
    assert(s@ =~= dec(n as nat));
    s
}

/// Appends a string slice.
pub fn push_str(s: &mut String, t: &str)
    ensures
        final(s)@ == old(s)@ + t@,
{
    s.append(t);
}

proof fn lemma_all_digits_push(t: Seq<char>)
    requires
        t.len() > 0,
    ensures
        all_digits(t) <==> (all_digits(t.drop_last()) && is_digit(t.last())),
        digits_value(t) == digits_value(t.drop_last()) * 10 + digit_value(t.last()),
{
    if all_digits(t.drop_last()) && is_digit(t.last()) {
        assert forall|j: int| 0 <= j < t.len() implies #[trigger] is_digit(t[j]) by {
            if j < t.len() - 1 {
                assert(t[j] == t.drop_last()[j]);
            }
        }
    }
    if all_digits(t) {
        assert(is_digit(t[t.len() - 1]));
        assert forall|j: int| 0 <= j < t.drop_last().len() implies #[trigger] is_digit(t.drop_last()[j]) by {
            assert(t[j] == t.drop_last()[j]);
        }
    }
}

proof fn lemma_overflow(v: u64, d: u64, max: u64)
    requires
        d < 10,
        d > max || v > (max - d) / 10,
    ensures
        v * 10 + d > max,
{
    if d <= max {
        assert(v * 10 + d > max) by (nonlinear_arith)
            requires
                v > (max - d) / 10,
                d <= max,
        ;
    }
}

proof fn lemma_no_overflow(v: u64, d: u64, max: u64)
    requires
        d <= max,
        v <= (max - d) / 10,
    ensures
        v * 10 + d <= max,
{
    assert(v * 10 + d <= max) by (nonlinear_arith)
        requires
            v <= (max - d) / 10,
            d <= max,
    ;
}

/// Parses an unsigned decimal integer no larger than `max`, the way `str::parse` does for an
/// unsigned type whose largest value is `max`.
pub fn parse_unsigned(s: &str, max: u64) -> (res: Option<u64>)
    ensures
        match res {
            Some(v) => parse_unsigned_spec(s@, max as nat) == Some(v as nat),
            None => parse_unsigned_spec(s@, max as nat) is None,
        },
{
    let len = s.unicode_len();
    if len == 0 {
        return None;
    }
    let start: usize = if s.get_char(0) == '+' {
        1
    } else {
        0
    };
    let ghost body = s@.subrange(start as int, len as int);
    assert(body =~= (if s@.len() > 0 && s@[0] == '+' {
        s@.drop_first()
    } else {
        s@
    }));
    if start == len {
        return None;
    }
    let mut v: u64 = 0;
    let mut i: usize = start;
    assert(body.take(0) =~= Seq::<char>::empty());
    while i < len
        invariant
            start <= i <= len,
            len == s@.len(),
            body == s@.subrange(start as int, len as int),
            body == (if s@.len() > 0 && s@[0] == '+' {
                s@.drop_first()
            } else {
                s@
            }),
            all_digits(body.take(i - start)),
            v as nat == digits_value(body.take(i - start)),
            v <= max,
        decreases len - i,
    {
        let c = s.get_char(i);
        let ghost k: int = i - start;
        let ghost t = body.take(k + 1);
        proof {
            assert(t.drop_last() =~= body.take(k));
            assert(t.last() == body[k]);
            assert(body[k] == s@[i as int]);
            lemma_all_digits_push(t);
        }
        if !('0' <= c && c <= '9') {
            proof {
                if all_digits(body) {
                    assert(is_digit(body[k]));
                }
            }
            return None;
        }
        let d = digit_value_exec(c);
        if d > max || v > (max - d) / 10 {
            proof {
                lemma_overflow(v, d, max);
                if all_digits(body) {
                    lemma_digits_value_prefix(body, k + 1);
                }
            }
            return None;
        }
        proof {
            lemma_no_overflow(v, d, max);
        }
        v = v * 10 + d;
        i = i + 1;
    }
    assert(body.take(len - start) =~= body);
    Some(v)
}

/// Parses a `u8` the way `str::parse::<u8>` does.
pub fn parse_u8(s: &str) -> (res: Option<u8>)
    ensures
        match res {
            Some(v) => parse_unsigned_spec(s@, u8::MAX as nat) == Some(v as nat),
            None => parse_unsigned_spec(s@, u8::MAX as nat) is None,
        },
{
    match parse_unsigned(s, u8::MAX as u64) {
        Some(v) => Some(v as u8),
        None => None,
    }
}

/// Parses a `u16` the way `str::parse::<u16>` does.
pub fn parse_u16(s: &str) -> (res: Option<u16>)
    ensures
        match res {
            Some(v) => parse_unsigned_spec(s@, u16::MAX as nat) == Some(v as nat),
            None => parse_unsigned_spec(s@, u16::MAX as nat) is None,
        },
{
    match parse_unsigned(s, u16::MAX as u64) {
        Some(v) => Some(v as u16),
        None => None,
    }
}

/// Parses a `u32` the way `str::parse::<u32>` does.
pub fn parse_u32(s: &str) -> (res: Option<u32>)
    ensures
        match res {
            Some(v) => parse_unsigned_spec(s@, u32::MAX as nat) == Some(v as nat),
            None => parse_unsigned_spec(s@, u32::MAX as nat) is None,
        },
{
    match parse_unsigned(s, u32::MAX as u64) {
        Some(v) => Some(v as u32),
        None => None,
    }
}

/// What `str::parse::<i32>` gives: an optional sign, then one or more ASCII digits, of a value
/// that fits in an `i32`.
pub open spec fn parse_i32_spec(s: Seq<char>) -> Option<int> {
    if s.len() > 0 && s[0] == '-' {
        let body = s.drop_first();
        if body.len() == 0 || !all_digits(body) || digits_value(body) > 0x8000_0000 {
            None
        } else {
            Some(-(digits_value(body) as int))
        }
    } else {
        match parse_unsigned_spec(s, 0x7fff_ffff) {
            Some(v) => Some(v as int),
            None => None,
        }
    }
}

/// Parses an `i32` the way `str::parse::<i32>` does.
pub fn parse_i32(s: &str) -> (res: Option<i32>)
    ensures
        match res {
            Some(v) => parse_i32_spec(s@) == Some(v as int),
            None => parse_i32_spec(s@) is None,
        },
{
    let len = s.unicode_len();
    if len > 0 && s.get_char(0) == '-' {
        let body = s.substring_char(1, len);
        assert(body@ =~= s@.drop_first());
        if len > 1 && body.get_char(0) == '+' {
            assert(!is_digit(body@[0]));
            return None;
        }
        match parse_unsigned(body, 0x8000_0000) {
            Some(v) => {
                let r: i64 = 0i64 - v as i64;
                Some(r as i32)
            },
            None => None,
        }
    } else {
        match parse_unsigned(s, 0x7fff_ffff) {
            Some(v) => Some(v as i32),
            None => None,
        }
    }
}

} // verus!

verus! {

/// The parts of `list` written one after another with `sep` between each two neighbours.
pub open spec fn seq_join(list: Seq<Seq<char>>, sep: Seq<char>) -> Seq<char>
    decreases list.len(),
{
    if list.len() == 0 {
        Seq::empty()
    } else if list.len() == 1 {
        list[0]
    } else {
        seq_join(list.drop_last(), sep) + sep + list.last()
    }
}

/// The views of a list of strings.
pub open spec fn views(list: Seq<String>) -> Seq<Seq<char>> {
    list.map_values(|s: String| s@)
}

/// Joins strings with a separator, as `itertools::join` does for a list of strings.
pub fn join(list: &Vec<String>, sep: &str) -> (res: String)
    ensures
        res@ == seq_join(views(list@), sep@),
{
    let mut res = String::new();
    let ghost all = views(list@);
    let n = list.len();
    for i in 0..n
        invariant
            n == list.len(),
            all == views(list@),
            res@ == seq_join(all.take(i as int), sep@),
    {
        assert(all.take(i + 1).drop_last() =~= all.take(i as int));
        assert(all[i as int] == list@[i as int]@);
        if i != 0 {
            res.append(sep);
        } else {
            assert(all.take(i as int) =~= Seq::<Seq<char>>::empty());
        }
        res.append(list[i].as_str());
    }
    assert(all.take(n as int) =~= all);
    res
}

/// Whether `p` occurs in `s` starting at index `i`.
pub open spec fn matches_at(s: Seq<char>, p: Seq<char>, i: int) -> bool {
    0 <= i && i + p.len() <= s.len() && s.subrange(i, i + p.len()) == p
}

/// Whether `i` is the first index where `p` occurs in `s`.
pub open spec fn is_first_match(s: Seq<char>, p: Seq<char>, i: int) -> bool {
    matches_at(s, p, i) && forall|j: int| 0 <= j < i ==> !#[trigger] matches_at(s, p, j)
}

/// The index of the first occurrence of `p` in `s`, if any.
pub open spec fn first_match(s: Seq<char>, p: Seq<char>) -> Option<int> {
    if exists|i: int| is_first_match(s, p, i) {
        Some(choose|i: int| is_first_match(s, p, i))
    } else {
        None
    }
}

/// What `str::split_once` gives: the text before the first occurrence of `p` and the text after it.
pub open spec fn split_once_spec(s: Seq<char>, p: Seq<char>) -> Option<(Seq<char>, Seq<char>)> {
    match first_match(s, p) {
        Some(i) => Some((s.take(i), s.skip(i + p.len()))),
        None => None,
    }
}

fn matches_at_exec(s: &str, p: &str, i: usize) -> (res: bool)
    requires
        i + p@.len() <= s@.len(),
    ensures
        res == matches_at(s@, p@, i as int),
{
    let plen = p.unicode_len();
    let len = s.unicode_len();
    let mut j: usize = 0;
    while j < plen
        invariant
            plen == p@.len(),
            len == s@.len(),
            i + plen <= len,
            j <= plen,
            forall|k: int| 0 <= k < j ==> s@[i + k] == p@[k],
        decreases plen - j,
    {
        if s.get_char(i + j) != p.get_char(j) {
            assert(s@.subrange(i as int, i + plen)[j as int] != p@[j as int]);
            return false;
        }
        j = j + 1;
    }
    assert(s@.subrange(i as int, i + plen) =~= p@);
    true
}

/// An index where `p` occurs with no earlier occurrence is the first match.
pub proof fn lemma_first_match_unique(s: Seq<char>, p: Seq<char>, i: int)
    requires
        is_first_match(s, p, i),
    ensures
        first_match(s, p) == Some(i),
{
    let r = choose|r: int| is_first_match(s, p, r);
    assert(is_first_match(s, p, r));
    if r < i {
        assert(!matches_at(s, p, r));
    }
    if i < r {
        assert(!matches_at(s, p, i));
    }
}

/// Where a text of digits is followed by `p`, which does not start with a digit, splitting at
/// the first `p` gives back the digits and what follows `p`.
pub proof fn lemma_split_after_digits(a: Seq<char>, p: Seq<char>, b: Seq<char>)
    requires
        all_digits(a),
        p.len() > 0,
        !is_digit(p[0]),
    ensures
        split_once_spec(a + p + b, p) == Some((a, b)),
{
    let s = a + p + b;
    let n = a.len() as int;
    assert(s.subrange(n, n + p.len()) =~= p);
    assert forall|j: int| 0 <= j < n implies !#[trigger] matches_at(s, p, j) by {
        assert(s[j] == a[j]);
        if matches_at(s, p, j) {
            assert(s.subrange(j, j + p.len())[0] == p[0]);
        }
    }
    lemma_first_match_unique(s, p, n);
    assert(s.take(n) =~= a);
    assert(s.skip(n + p.len()) =~= b);
}

/// Where the first character of `p` occurs nowhere in `s`, `s` does not split at `p`.
pub proof fn lemma_split_absent(s: Seq<char>, p: Seq<char>)
    requires
        p.len() > 0,
        forall|k: int| 0 <= k < s.len() ==> s[k] != p[0],
    ensures
        split_once_spec(s, p) is None,
{
    assert forall|j: int| !#[trigger] matches_at(s, p, j) by {
        if matches_at(s, p, j) {
            assert(s.subrange(j, j + p.len())[0] == p[0]);
            assert(s[j] == p[0]);
        }
    }
    assert(!exists|i: int| is_first_match(s, p, i));
}

/// Finds the first occurrence of `p` in `s`.
pub fn find(s: &str, p: &str) -> (res: Option<usize>)
    ensures
        match res {
            Some(i) => first_match(s@, p@) == Some(i as int) && is_first_match(s@, p@, i as int),
            None => first_match(s@, p@) is None && forall|i: int| !matches_at(s@, p@, i),
        },
{
    let len = s.unicode_len();
    let plen = p.unicode_len();
    if plen > len {
        assert forall|i: int| !matches_at(s@, p@, i) by {}
        return None;
    }
    if plen == 0 {
        assert(s@.subrange(0, 0) =~= p@);
        proof {
            lemma_first_match_unique(s@, p@, 0);
        }
        return Some(0);
    }
    let mut i: usize = 0;
    while i < len - plen + 1
        invariant
            len == s@.len(),
            plen == p@.len(),
            1 <= plen <= len,
            forall|j: int| 0 <= j < i ==> !#[trigger] matches_at(s@, p@, j),
        decreases len - plen + 1 - i,
    {
        if matches_at_exec(s, p, i) {
            proof {
                lemma_first_match_unique(s@, p@, i as int);
            }
            return Some(i);
        }
        i = i + 1;
    }
    assert forall|j: int| !matches_at(s@, p@, j) by {
        if 0 <= j < i {
        }
    }
    None
}

/// Splits `s` around the first occurrence of `p`, as `str::split_once` does.
pub fn split_once<'a>(s: &'a str, p: &str) -> (res: Option<(&'a str, &'a str)>)
    ensures
        match res {
            Some((a, b)) => split_once_spec(s@, p@) == Some((a@, b@)),
            None => split_once_spec(s@, p@) is None,
        },
{
    match find(s, p) {
        Some(i) => {
            let len = s.unicode_len();
            let plen = p.unicode_len();
            let a = s.substring_char(0, i);
            let b = s.substring_char(i + plen, len);
            assert(a@ =~= s@.take(i as int));
            assert(b@ =~= s@.skip(i + plen));
            Some((a, b))
        },
        None => None,
    }
}

/// `key=value`, one entry of a query string.
pub open spec fn kv(key: Seq<char>, value: Seq<char>) -> Seq<char> {
    key + seq!['='] + value
}

/// An entry that is present only where the value is.
pub open spec fn opt_kv(key: Seq<char>, value: Option<Seq<char>>) -> Option<Seq<char>> {
    match value {
        Some(v) => Some(kv(key, v)),
        None => None,
    }
}

/// The entries that are present, in order.
pub open spec fn present(pieces: Seq<Option<Seq<char>>>) -> Seq<Seq<char>>
    decreases pieces.len(),
{
    if pieces.len() == 0 {
        Seq::empty()
    } else {
        match pieces.last() {
            Some(p) => present(pieces.drop_last()).push(p),
            None => present(pieces.drop_last()),
        }
    }
}

/// The query string of a request: empty where no entry is present, else `?` and the present
/// entries joined by `&`.
pub open spec fn query(pieces: Seq<Option<Seq<char>>>) -> Seq<char> {
    let p = present(pieces);
    if p.len() == 0 {
        Seq::empty()
    } else {
        seq!['?'] + seq_join(p, seq!['&'])
    }
}

/// The view of an optional string.
pub open spec fn opt_view(o: Option<String>) -> Option<Seq<char>> {
    match o {
        Some(s) => Some(s@),
        None => None,
    }
}

/// The views of a list of optional strings.
pub open spec fn opt_views(list: Seq<Option<String>>) -> Seq<Option<Seq<char>>> {
    list.map_values(|o: Option<String>| opt_view(o))
}

/// Builds the query string of a request from its entries, leaving out those that are absent.
pub fn query_string(pieces: &Vec<Option<String>>) -> (res: String)
    ensures
        res@ == query(opt_views(pieces@)),
{
    let mut res = String::new();
    let ghost all = opt_views(pieces@);
    let n = pieces.len();
    let mut any = false;
    for i in 0..n
        invariant
            n == pieces.len(),
            all == opt_views(pieces@),
            any == (present(all.take(i as int)).len() > 0),
            res@ == query(all.take(i as int)),
    {
        let ghost before = all.take(i as int);
        assert(all.take(i + 1).drop_last() =~= before);
        assert(all[i as int] == opt_view(pieces@[i as int]));
        match &pieces[i] {
            Some(p) => {
                let ghost pb = present(before);
                if any {
                    push_char(&mut res, '&');
                } else {
                    assert(pb =~= Seq::<Seq<char>>::empty());
                    push_char(&mut res, '?');
                }
                res.append(p.as_str());
                proof {
                    let pa = present(all.take(i + 1));
                    assert(pa == pb.push(p@));
                    assert(pa.drop_last() =~= pb);
                    if pb.len() == 0 {
                        assert(pa =~= seq![p@]);
                    }
                }
                any = true;
            },
            None => {},
        }
    }
    assert(all.take(n as int) =~= all);
    res
}

/// `key=value`.
pub fn param(key: &str, value: &str) -> (res: String)
    ensures
        res@ == kv(key@, value@),
{
    let mut s = String::from_str(key);
    push_char(&mut s, '=');
    s.append(value);
    s
}

/// `key=value` where the value is present.
pub fn opt_param(key: &str, value: Option<String>) -> (res: Option<String>)
    ensures
        opt_view(res) == opt_kv(key@, opt_view(value)),
{
    match value {
        Some(v) => Some(param(key, v.as_str())),
        None => None,
    }
}

/// The English ordinal suffix of a number: `st`, `nd`, `rd` or `th`.
pub open spec fn ordinal_suffix(n: nat) -> Seq<char> {
    if n % 100 >= 11 && n % 100 <= 13 {
        seq!['t', 'h']
    } else if n % 10 == 1 {
        seq!['s', 't']
    } else if n % 10 == 2 {
        seq!['n', 'd']
    } else if n % 10 == 3 {
        seq!['r', 'd']
    } else {
        seq!['t', 'h']
    }
}

/// Appends `n` as an English ordinal, such as `1st`, `12th` or `23rd`.
pub fn push_nth(s: &mut String, n: u64)
    ensures
        final(s)@ == old(s)@ + dec(n as nat) + ordinal_suffix(n as nat),
{
    push_dec(s, n);
    let ghost mid = s@;
    if n % 100 >= 11 && n % 100 <= 13 {
        push_char(s, 't');
        push_char(s, 'h');
    } else if n % 10 == 1 {
        push_char(s, 's');
        push_char(s, 't');
    } else if n % 10 == 2 {
        push_char(s, 'n');
        push_char(s, 'd');
    } else if n % 10 == 3 {
        push_char(s, 'r');
        push_char(s, 'd');
    } else {
        push_char(s, 't');
        push_char(s, 'h');
    }
    assert(s@ =~= mid + ordinal_suffix(n as nat));
}


/// Whether a URL holds `entry` as one entry of its query: right after the `?` that starts the
/// query or an `&` that separates entries, and followed by the next `&` or the end.
pub open spec fn holds_entry(url: Seq<char>, entry: Seq<char>) -> bool {
    exists|i: int|
        #![trigger url.subrange(i + 1, i + 1 + entry.len())]
        0 <= i && i + 1 + entry.len() <= url.len() && (url[i] == '?' || url[i] == '&') && url.subrange(
            i + 1,
            i + 1 + entry.len(),
        ) == entry && (i + 1 + entry.len() == url.len() || url[i + 1 + entry.len()] == '&')
}

/// An entry that is present in a list of pieces is among the present entries.
proof fn lemma_present_contains(pieces: Seq<Option<Seq<char>>>, k: int)
    requires
        0 <= k < pieces.len(),
        pieces[k] is Some,
    ensures
        present(pieces).contains(pieces[k]->0),
    decreases pieces.len(),
{
    let last = pieces.len() - 1;
    if k == last {
        let p = present(pieces.drop_last());
        assert(present(pieces) == p.push(pieces[k]->0));
        assert(present(pieces)[p.len() as int] == pieces[k]->0);
    } else {
        assert(pieces.drop_last()[k] == pieces[k]);
        lemma_present_contains(pieces.drop_last(), k);
        let p = present(pieces.drop_last());
        let i = choose|i: int| 0 <= i < p.len() && p[i] == pieces[k]->0;
        match pieces.last() {
            Some(x) => {
                assert(present(pieces) == p.push(x));
                assert(present(pieces)[i] == p[i]);
            },
            None => {},
        }
    }
}

/// Where each item of a list stands in the items joined by `&`: after the start or an `&`,
/// and before the end or an `&`.
proof fn lemma_join_position(list: Seq<Seq<char>>, j: int) -> (pos: int)
    requires
        0 <= j < list.len(),
    ensures
        0 <= pos,
        pos + list[j].len() <= seq_join(list, seq!['&']).len(),
        seq_join(list, seq!['&']).subrange(pos, pos + list[j].len()) == list[j],
        pos == 0 || seq_join(list, seq!['&'])[pos - 1] == '&',
        pos + list[j].len() == seq_join(list, seq!['&']).len() || seq_join(list, seq!['&'])[pos + list[j].len()] == '&',
    decreases list.len(),
{
    let sep = seq!['&'];
    let joined = seq_join(list, sep);
    if list.len() == 1 {
        assert(joined == list[0]);
        assert(joined.subrange(0, list[0].len() as int) =~= list[0]);
        0
    } else {
        let front = seq_join(list.drop_last(), sep);
        let last = list.last();
        assert(joined == front + sep + last);
        if j == list.len() - 1 {
            let pos: int = front.len() as int + 1;
            assert(joined.subrange(pos, pos + last.len()) =~= last);
            assert(joined[pos - 1] == '&');
            pos
        } else {
            assert(list.drop_last()[j] == list[j]);
            let pos = lemma_join_position(list.drop_last(), j);
            let n = list[j].len();
            assert(joined.subrange(pos, pos + n) =~= front.subrange(pos, pos + n));
            if pos > 0 {
                assert(joined[pos - 1] == front[pos - 1]);
            }
            if pos + n < front.len() {
                assert(joined[pos + n] == front[pos + n]);
            } else {
                assert(joined[pos + n] == '&');
            }
            pos
        }
    }
}

/// Each entry that is present among the pieces of a query is held by a URL that ends with the
/// query.
pub proof fn lemma_query_holds_entry(base: Seq<char>, pieces: Seq<Option<Seq<char>>>, k: int)
    requires
        0 <= k < pieces.len(),
        pieces[k] is Some,
    ensures
        holds_entry(base + query(pieces), pieces[k]->0),
{
    let e = pieces[k]->0;
    lemma_present_contains(pieces, k);
    let p = present(pieces);
    let j = choose|j: int| 0 <= j < p.len() && p[j] == e;
    let pos = lemma_join_position(p, j);
    let joined = seq_join(p, seq!['&']);
    let url = base + query(pieces);
    assert(query(pieces) == seq!['?'] + joined);
    assert(url =~= base + seq!['?'] + joined);
    let i = base.len() + pos;
    assert(url.subrange(i + 1, i + 1 + e.len()) =~= joined.subrange(pos, pos + e.len()));
    if pos == 0 {
        assert(url[i] == '?');
    } else {
        assert(url[i] == joined[pos - 1]);
    }
    if i + 1 + e.len() < url.len() {
        assert(url[i + 1 + e.len()] == joined[pos + e.len()]);
    }
}


/// Every entry that is present among the pieces of a query is held by a URL that ends with the
/// query.
pub proof fn lemma_query_holds_entries(base: Seq<char>, pieces: Seq<Option<Seq<char>>>)
    ensures
        forall|j: int|
            0 <= j < pieces.len() && pieces[j] is Some ==> holds_entry(base + query(pieces), #[trigger] pieces[j]->0),
{
    assert forall|j: int| 0 <= j < pieces.len() && pieces[j] is Some implies holds_entry(
        base + query(pieces),
        #[trigger] pieces[j]->0,
    ) by {
        lemma_query_holds_entry(base, pieces, j);
    }
}


/// A URL that holds `a&b` as one entry holds `a` and `b` as entries of their own.
pub proof fn lemma_holds_joined_entry(url: Seq<char>, a: Seq<char>, b: Seq<char>)
    requires
        holds_entry(url, a + seq!['&'] + b),
    ensures
        holds_entry(url, a),
        holds_entry(url, b),
{
    let e = a + seq!['&'] + b;
    let i = choose|i: int|
        #![trigger url.subrange(i + 1, i + 1 + e.len())]
        0 <= i && i + 1 + e.len() <= url.len() && (url[i] == '?' || url[i] == '&') && url.subrange(i + 1, i + 1 + e.len())
            == e && (i + 1 + e.len() == url.len() || url[i + 1 + e.len()] == '&');
    assert(url.subrange(i + 1, i + 1 + a.len()) =~= a) by {
        assert forall|k: int| 0 <= k < a.len() implies url.subrange(i + 1, i + 1 + a.len())[k] == a[k] by {
            assert(url.subrange(i + 1, i + 1 + e.len())[k] == e[k]);
        }
    }
    assert(url[i + 1 + a.len()] == '&') by {
        assert(url.subrange(i + 1, i + 1 + e.len())[a.len() as int] == e[a.len() as int]);
    }
    let j = i + 1 + a.len();
    assert(url.subrange(j + 1, j + 1 + b.len()) =~= b) by {
        assert forall|k: int| 0 <= k < b.len() implies url.subrange(j + 1, j + 1 + b.len())[k] == b[k] by {
            assert(url.subrange(i + 1, i + 1 + e.len())[a.len() + 1 + k] == e[a.len() + 1 + k]);
        }
    }
}

} // verus!
