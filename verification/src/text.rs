//! Text primitives shared by the page builders and the event handling:
//! decimal rendering and parsing of integers, Unicode whitespace tokens,
//! and the `@@` separator of the browser's event messages.
use vstd::prelude::*;
use vstd::string::*;

verus! {

// ------------------------------------------------------------------
// Decimal digits
// ------------------------------------------------------------------

/// The character that writes the decimal digit `d`.
pub open spec fn digit_char(d: int) -> char {
    if d == 0 {
        '0'
    } else if d == 1 {
        '1'
    } else if d == 2 {
        '2'
    } else if d == 3 {
        '3'
    } else if d == 4 {
        '4'
    } else if d == 5 {
        '5'
    } else if d == 6 {
        '6'
    } else if d == 7 {
        '7'
    } else if d == 8 {
        '8'
    } else {
        '9'
    }
}

pub open spec fn is_digit(c: char) -> bool {
    '0' <= c && c <= '9'
}

/// The value of an ASCII decimal digit.
pub open spec fn digit_value(c: char) -> int {
    (c as int) - ('0' as int)
}

pub open spec fn all_digits(s: Seq<char>) -> bool {
    forall|i: int| 0 <= i < s.len() ==> is_digit(#[trigger] s[i])
}

/// The number that a string of decimal digits denotes (most significant first).
pub open spec fn digits_value(s: Seq<char>) -> int
    decreases s.len(),
{
    if s.len() == 0 {
        0
    } else {
        digits_value(s.drop_last()) * 10 + digit_value(s.last())
    }
}

/// The shortest decimal writing of a natural number.
pub open spec fn decimal(n: nat) -> Seq<char>
    decreases n,
{
    if n < 10 {
        seq![digit_char(n as int)]
    } else {
        decimal(n / 10).push(digit_char((n % 10) as int))
    }
}

/// Decimal writing of an integer, with a leading `-` when it is negative.
pub open spec fn signed_decimal(n: int) -> Seq<char> {
    if n < 0 {
        seq!['-'] + decimal((-n) as nat)
    } else {
        decimal(n as nat)
    }
}

/// What `str::parse::<i32>` gives: an optional `+` or `-` sign followed by
/// one or more ASCII digits, whose value fits in an `i32`; `None` otherwise.
pub open spec fn parse_i32_spec(s: Seq<char>) -> Option<i32> {
    let signed = s.len() > 0 && (s[0] == '-' || s[0] == '+');
    let body = if signed {
        s.skip(1)
    } else {
        s
    };
    let magnitude = digits_value(body);
    let v = if s.len() > 0 && s[0] == '-' {
        -magnitude
    } else {
        magnitude
    };
    if body.len() > 0 && all_digits(body) && i32::MIN <= v && v <= i32::MAX {
        Some(v as i32)
    } else {
        None
    }
}

pub proof fn lemma_digit_char(d: int)
    requires
        0 <= d < 10,
    ensures
        is_digit(digit_char(d)),
        digit_value(digit_char(d)) == d,
{
}

pub proof fn lemma_digits_value_nonneg(s: Seq<char>)
    requires
        all_digits(s),
    ensures
        digits_value(s) >= 0,
    decreases s.len(),
{
    if s.len() > 0 {
        lemma_digits_value_nonneg(s.drop_last());
    }
}

/// A prefix of a digit string never denotes more than the whole string.
pub proof fn lemma_digits_value_prefix(s: Seq<char>, k: int)
    requires
        all_digits(s),
        0 <= k <= s.len(),
    ensures
        digits_value(s.take(k)) <= digits_value(s),
    decreases s.len(),
{
    if k == s.len() {
        assert(s.take(k) =~= s);
    } else {
        let t = s.drop_last();
        assert(t.take(k) =~= s.take(k));
        lemma_digits_value_prefix(t, k);
        lemma_digits_value_nonneg(t);
    }
}

/// The decimal writing of `n` is a non-empty digit string that denotes `n`.
pub proof fn lemma_decimal(n: nat)
    ensures
        decimal(n).len() > 0,
        all_digits(decimal(n)),
        digits_value(decimal(n)) == n,
    decreases n,
{
    if n < 10 {
        lemma_digit_char(n as int);
        assert(seq![digit_char(n as int)].drop_last() =~= Seq::<char>::empty());
        assert(digits_value(Seq::<char>::empty()) == 0);
    } else {
        lemma_decimal(n / 10);
        lemma_digit_char((n % 10) as int);
        let s = decimal(n);
        assert(s.drop_last() =~= decimal(n / 10));
        assert(n == (n / 10) * 10 + n % 10);
        assert(all_digits(s)) by {
            assert forall|i: int| 0 <= i < s.len() implies is_digit(#[trigger] s[i]) by {
                if i < s.len() - 1 {
                    assert(s[i] == decimal(n / 10)[i]);
                }
            }
        }
    }
}

/// Reading back the decimal writing of an `i32` gives the same `i32`.
pub proof fn lemma_parse_signed_decimal(n: i32)
    ensures
        parse_i32_spec(signed_decimal(n as int)) == Some(n),
{
    if n < 0 {
        let m = (-n) as nat;
        lemma_decimal(m);
        let s = signed_decimal(n as int);
        assert(s.skip(1) =~= decimal(m));
    } else {
        lemma_decimal(n as nat);
        lemma_digit_char(0);
    }
}

/// Distinct natural numbers have distinct decimal writings.
pub proof fn lemma_decimal_injective(a: nat, b: nat)
    requires
        decimal(a) == decimal(b),
    ensures
        a == b,
{
    lemma_decimal(a);
    lemma_decimal(b);
}

fn digit_str(d: u64) -> (s: &'static str)
    requires
        d < 10,
    ensures
        s@ == seq![digit_char(d as int)],
{
    if d == 0 {
        proof { reveal_strlit("0"); }
        "0"
    } else if d == 1 {
        proof { reveal_strlit("1"); }
        "1"
    } else if d == 2 {
        proof { reveal_strlit("2"); }
        "2"
    } else if d == 3 {
        proof { reveal_strlit("3"); }
        "3"
    } else if d == 4 {
        proof { reveal_strlit("4"); }
        "4"
    } else if d == 5 {
        proof { reveal_strlit("5"); }
        "5"
    } else if d == 6 {
        proof { reveal_strlit("6"); }
        "6"
    } else if d == 7 {
        proof { reveal_strlit("7"); }
        "7"
    } else if d == 8 {
        proof { reveal_strlit("8"); }
        "8"
    } else {
        proof { reveal_strlit("9"); }
        "9"
    }
}

/// Decimal writing of an unsigned number, as `format!("{}", n)` gives it.
pub fn u64_to_decimal(n: u64) -> (s: String)
    ensures
        s@ == decimal(n as nat),
    decreases n,
{
    if n < 10 {
        String::from_str(digit_str(n))
    } else {
        let mut s = u64_to_decimal(n / 10);
        s.append(digit_str(n % 10));
        s
    }
}

/// Decimal writing of a `usize`.
pub fn usize_to_decimal(n: usize) -> (s: String)
    ensures
        s@ == decimal(n as nat),
{
    u64_to_decimal(n as u64)
}

/// Decimal writing of an `i32`, as `format!("{}", n)` gives it.
pub fn i32_to_decimal(n: i32) -> (s: String)
    ensures
        s@ == signed_decimal(n as int),
{
    if n < 0 {
        let m: i64 = 0i64 - (n as i64);
        let mut s = String::from_str("-");
        proof { reveal_strlit("-"); }
        let t = u64_to_decimal(m as u64);
        s.append(t.as_str());
        s
    } else {
        u64_to_decimal(n as u64)
    }
}

/// `s.parse::<i32>().ok()`.
pub fn parse_i32(s: &str) -> (r: Option<i32>)
    ensures
        r == parse_i32_spec(s@),
{
    let n = s.unicode_len();
    if n == 0 {
        return None;
    }
    let c0 = s.get_char(0);
    let negative = c0 == '-';
    let start: usize = if c0 == '-' || c0 == '+' {
        1
    } else {
        0
    };
    let ghost body = if start == 1 {
        s@.skip(1)
    } else {
        s@
    };
    assert(body =~= s@.subrange(start as int, n as int));
    assert(c0 == s@[0]);
    assert(negative == (s@[0] == '-'));
    assert(body == (if s@.len() > 0 && (s@[0] == '-' || s@[0] == '+') {
        s@.skip(1)
    } else {
        s@
    }));
    if start >= n {
        return None;
    }
    let mut acc: i64 = 0;
    let mut i: usize = start;
    while i < n
        invariant
            start <= i <= n,
            n == s@.len(),
            start < n,
            body =~= s@.subrange(start as int, n as int),
            body == (if s@.len() > 0 && (s@[0] == '-' || s@[0] == '+') {
                s@.skip(1)
            } else {
                s@
            }),
            negative == (s@[0] == '-'),
            0 <= acc <= 2147483648,
            acc == digits_value(s@.subrange(start as int, i as int)),
            all_digits(s@.subrange(start as int, i as int)),
        decreases n - i,
    {
        let c = s.get_char(i);
        if !('0' <= c && c <= '9') {
            assert(body[(i - start) as int] == c);
            assert(!is_digit(body[(i - start) as int]));
            assert(!all_digits(body));
            assert(parse_i32_spec(s@) is None);
            return None;
        }
        let d: i64 = (c as u32 - 48u32) as i64;
        let ghost prev = s@.subrange(start as int, i as int);
        let ghost next = s@.subrange(start as int, i + 1);
        assert(next.drop_last() =~= prev);
        assert(next.last() == c);
        acc = acc * 10 + d;
        assert(acc == digits_value(next));
        assert(all_digits(next)) by {
            assert forall|j: int| 0 <= j < next.len() implies is_digit(#[trigger] next[j]) by {
                if j < prev.len() {
                    assert(next[j] == prev[j]);
                }
            }
        }
        if acc > 2147483648 {
            proof {
                if all_digits(body) {
                    assert(body.take((i + 1 - start) as int) =~= next);
                    lemma_digits_value_prefix(body, (i + 1 - start) as int);
                    assert(digits_value(body) > 2147483648);
                }
            }
            return None;
        }
        i = i + 1;
    }
    assert(s@.subrange(start as int, n as int) =~= body);
    let v: i64 = if negative {
        0 - acc
    } else {
        acc
    };
    if v > 2147483647 {
        return None;
    }
    Some(v as i32)
}

// ------------------------------------------------------------------
// Whitespace and tokens
// ------------------------------------------------------------------

/// Unicode `White_Space`, the property that `char::is_whitespace` tests.
pub open spec fn is_ws(c: char) -> bool {
    ||| ('\u{9}' <= c && c <= '\u{d}')
    ||| c == ' '
    ||| c == '\u{85}'
    ||| c == '\u{a0}'
    ||| c == '\u{1680}'
    ||| ('\u{2000}' <= c && c <= '\u{200a}')
    ||| c == '\u{2028}'
    ||| c == '\u{2029}'
    ||| c == '\u{202f}'
    ||| c == '\u{205f}'
    ||| c == '\u{3000}'
}

/// The maximal runs of non-whitespace characters of `s`, in order
/// (what `str::split_whitespace` yields).
pub open spec fn ws_tokens(s: Seq<char>) -> Seq<Seq<char>>
    decreases s.len(),
{
    if s.len() == 0 {
        seq![]
    } else {
        let prev = ws_tokens(s.drop_last());
        let c = s.last();
        if is_ws(c) {
            prev
        } else if s.len() >= 2 && !is_ws(s[s.len() - 2]) {
            prev.update(prev.len() - 1, prev.last().push(c))
        } else {
            prev.push(seq![c])
        }
    }
}

/// A string that ends in a non-whitespace character has a token.
pub proof fn lemma_ws_tokens_nonempty(s: Seq<char>)
    requires
        s.len() > 0,
        !is_ws(s.last()),
    ensures
        ws_tokens(s).len() > 0,
    decreases s.len(),
{
    if s.len() >= 2 && !is_ws(s[s.len() - 2]) {
        let t = s.drop_last();
        assert(t.last() == s[s.len() - 2]);
        lemma_ws_tokens_nonempty(t);
    }
}


/// Whitespace ends a token: what follows is tokenized on its own.
pub proof fn lemma_ws_tokens_concat(s: Seq<char>, b: Seq<char>)
    requires
        s.len() > 0,
        is_ws(s.last()),
    ensures
        ws_tokens(s + b) == ws_tokens(s) + ws_tokens(b),
    decreases b.len(),
{
    if b.len() == 0 {
        assert(s + b =~= s);
        assert(ws_tokens(s) + ws_tokens(b) =~= ws_tokens(s));
    } else {
        let d = b.drop_last();
        let c = b.last();
        lemma_ws_tokens_concat(s, d);
        let sb = s + b;
        assert(sb.drop_last() =~= s + d);
        assert(sb.last() == c);
        if d.len() > 0 {
            assert(sb[sb.len() - 2] == d.last());
            assert(b[b.len() - 2] == d.last());
        } else {
            assert(sb[sb.len() - 2] == s.last());
        }
        let ts = ws_tokens(s);
        let td = ws_tokens(d);
        if !is_ws(c) && d.len() > 0 && !is_ws(d.last()) {
            lemma_ws_tokens_nonempty(d);
            assert((ts + td).update(ts.len() + td.len() - 1, (ts + td).last().push(c)) =~= ts
                + td.update(td.len() - 1, td.last().push(c)));
        } else if !is_ws(c) {
            assert((ts + td).push(seq![c]) =~= ts + td.push(seq![c]));
        }
    }
}

/// A non-empty string without whitespace is a single token.
pub proof fn lemma_ws_tokens_single(s: Seq<char>)
    requires
        s.len() > 0,
        forall|p: int| 0 <= p < s.len() ==> !is_ws(#[trigger] s[p]),
    ensures
        ws_tokens(s) == seq![s],
    decreases s.len(),
{
    let d = s.drop_last();
    if d.len() > 0 {
        lemma_ws_tokens_single(d);
        assert(s[s.len() - 2] == d.last());
        assert(d.push(s.last()) =~= s);
        assert(seq![d].update(0, d.push(s.last())) =~= seq![s]);
    } else {
        assert(ws_tokens(d) =~= Seq::<Seq<char>>::empty());
        assert(seq![s.last()] =~= s);
    }
}

pub fn is_whitespace(c: char) -> (r: bool)
    ensures
        r == is_ws(c),
{
    ('\u{9}' <= c && c <= '\u{d}') || c == ' ' || c == '\u{85}' || c == '\u{a0}' || c
        == '\u{1680}' || ('\u{2000}' <= c && c <= '\u{200a}') || c == '\u{2028}' || c
        == '\u{2029}' || c == '\u{202f}' || c == '\u{205f}' || c == '\u{3000}'
}

pub open spec fn string_views(v: Seq<String>) -> Seq<Seq<char>> {
    v.map_values(|t: String| t@)
}

/// `s.split_whitespace()`, collected.
pub fn split_whitespace(s: &str) -> (r: Vec<String>)
    ensures
        string_views(r@) == ws_tokens(s@),
{
    let n = s.unicode_len();
    let mut done: Vec<String> = Vec::new();
    let mut cur = String::new();
    let mut in_token = false;
    let mut i: usize = 0;
    while i < n
        invariant
            i <= n,
            n == s@.len(),
            in_token == (i > 0 && !is_ws(s@[i - 1])),
            in_token ==> ws_tokens(s@.take(i as int)) == string_views(done@).push(cur@),
            !in_token ==> ws_tokens(s@.take(i as int)) == string_views(done@),
        decreases n - i,
    {
        let c = s.get_char(i);
        let ghost pre = s@.take(i as int);
        let ghost nxt = s@.take(i + 1);
        assert(nxt.drop_last() =~= pre);
        assert(nxt.last() == c);
        if is_whitespace(c) {
            if in_token {
                done.push(cur);
                cur = String::new();
                assert(string_views(done@) =~= ws_tokens(pre));
            }
            in_token = false;
        } else {
            if in_token {
                proof {
                    assert(nxt[nxt.len() - 2] == s@[i - 1]);
                }
                let ghost old_cur = cur@;
                cur.append(s.substring_char(i, i + 1));
                assert(cur@ =~= old_cur.push(c));
                assert(ws_tokens(nxt) =~= string_views(done@).push(cur@));
            } else {
                cur = String::from_str(s.substring_char(i, i + 1));
                assert(cur@ =~= seq![c]);
                proof {
                    if i > 0 {
                        assert(nxt[nxt.len() - 2] == s@[i - 1]);
                    }
                }
                assert(ws_tokens(nxt) =~= string_views(done@).push(cur@));
            }
            in_token = true;
        }
        i = i + 1;
    }
    assert(s@.take(n as int) =~= s@);
    if in_token {
        done.push(cur);
        assert(string_views(done@) =~= ws_tokens(s@));
    }
    done
}

// ------------------------------------------------------------------
// The `@@` separator of event messages
// ------------------------------------------------------------------

/// The position of the first `@@` in `s` at or after position `i`.
pub open spec fn find_sep_from(s: Seq<char>, i: int) -> Option<int>
    decreases s.len() - i,
{
    if i < 0 || i + 1 >= s.len() {
        None
    } else if s[i] == '@' && s[i + 1] == '@' {
        Some(i)
    } else {
        find_sep_from(s, i + 1)
    }
}

/// The first piece of `s.split("@@")`.
pub open spec fn first_piece(s: Seq<char>) -> Seq<char> {
    match find_sep_from(s, 0) {
        Some(k) => s.take(k),
        None => s,
    }
}

/// The second piece of `s.split("@@")`, when there is one.
pub open spec fn second_piece(s: Seq<char>) -> Option<Seq<char>> {
    match find_sep_from(s, 0) {
        Some(k) => Some(first_piece(s.skip(k + 2))),
        None => None,
    }
}

pub proof fn lemma_find_sep_bounds(s: Seq<char>, i: int)
    ensures
        find_sep_from(s, i) matches Some(k) ==> i <= k && k + 1 < s.len() && s[k] == '@' && s[k
            + 1] == '@',
    decreases s.len() - i,
{
    if !(i < 0 || i + 1 >= s.len()) && !(s[i] == '@' && s[i + 1] == '@') {
        lemma_find_sep_bounds(s, i + 1);
    }
}


/// No `@@` starts among positions `i..j` of `s` that hold no `@`.
pub proof fn lemma_find_sep_skip(s: Seq<char>, i: int, j: int)
    requires
        0 <= i <= j <= s.len(),
        forall|p: int| i <= p < j ==> s[p] != '@',
    ensures
        find_sep_from(s, i) == find_sep_from(s, j),
    decreases j - i,
{
    if i < j {
        lemma_find_sep_skip(s, i + 1, j);
    }
}

/// A string without `@` is its own first `@@` piece and has no second.
pub proof fn lemma_no_sep(s: Seq<char>)
    requires
        forall|p: int| 0 <= p < s.len() ==> s[p] != '@',
    ensures
        find_sep_from(s, 0) is None,
        first_piece(s) == s,
        second_piece(s) is None,
{
    lemma_find_sep_skip(s, 0, s.len() as int);
}

/// `a@@b`, where `a` holds no `@` and `b` holds no `@`, splits into `a`
/// and `b`.
pub proof fn lemma_split_pair(a: Seq<char>, b: Seq<char>)
    requires
        forall|p: int| 0 <= p < a.len() ==> a[p] != '@',
        forall|p: int| 0 <= p < b.len() ==> b[p] != '@',
    ensures
        first_piece(a + seq!['@', '@'] + b) == a,
        second_piece(a + seq!['@', '@'] + b) == Some(b),
{
    let s = a + seq!['@', '@'] + b;
    lemma_find_sep_skip(s, 0, a.len() as int);
    assert(find_sep_from(s, a.len() as int) == Some(a.len() as int));
    assert(s.take(a.len() as int) =~= a);
    assert(s.skip(a.len() as int + 2) =~= b);
    lemma_no_sep(b);
}

/// The decimal writing of an integer holds no `@`.
pub proof fn lemma_signed_decimal_no_at(n: int)
    ensures
        forall|p: int| 0 <= p < signed_decimal(n).len() ==> signed_decimal(n)[p] != '@',
{
    let m = if n < 0 {
        (-n) as nat
    } else {
        n as nat
    };
    lemma_decimal(m);
    let d = decimal(m);
    assert forall|p: int| 0 <= p < signed_decimal(n).len() implies signed_decimal(n)[p] != '@' by {
        if n < 0 {
            if p > 0 {
                assert(signed_decimal(n)[p] == d[p - 1]);
                assert(is_digit(d[p - 1]));
            }
        } else {
            assert(is_digit(d[p]));
        }
    }
}

/// Position of the first `@@` at or after `from` in `s`.
fn find_sep(s: &str, from: usize) -> (r: Option<usize>)
    requires
        from <= s@.len(),
    ensures
        r matches Some(k) ==> find_sep_from(s@, from as int) == Some(k as int),
        r is None ==> find_sep_from(s@, from as int) is None,
{
    let n = s.unicode_len();
    let mut i = from;
    while n - i >= 2
        invariant
            from <= i <= n,
            n == s@.len(),
            find_sep_from(s@, from as int) == find_sep_from(s@, i as int),
        decreases n - i,
    {
        if s.get_char(i) == '@' && s.get_char(i + 1) == '@' {
            return Some(i);
        }
        i = i + 1;
    }
    None
}

/// The first piece of `s.split("@@")` and the second one if there is one.
pub fn split_event(s: &str) -> (r: (String, Option<String>))
    ensures
        r.0@ == first_piece(s@),
        r.1 matches Some(v) ==> second_piece(s@) == Some(v@),
        r.1 is None ==> second_piece(s@) is None,
{
    let n = s.unicode_len();
    match find_sep(s, 0) {
        None => (String::from_str(s), None),
        Some(k) => {
            proof {
                lemma_find_sep_bounds(s@, 0);
            }
            let first = String::from_str(s.substring_char(0, k));
            let rest = s.substring_char(k + 2, n);
            assert(rest@ =~= s@.skip(k + 2));
            let second = match find_sep(rest, 0) {
                None => String::from_str(rest),
                Some(j) => {
                    proof {
                        lemma_find_sep_bounds(rest@, 0);
                    }
                    String::from_str(rest.substring_char(0, j))
                },
            };
            (first, Some(second))
        },
    }
}

/// `a` begins with `p`.
pub fn starts_with(a: &str, p: &str) -> (r: bool)
    ensures
        r == (p@.len() <= a@.len() && a@.take(p@.len() as int) == p@),
{
    let n = a.unicode_len();
    let m = p.unicode_len();
    if m > n {
        return false;
    }
    let mut i: usize = 0;
    while i < m
        invariant
            i <= m <= n,
            n == a@.len(),
            m == p@.len(),
            forall|j: int| 0 <= j < i ==> a@[j] == p@[j],
        decreases m - i,
    {
        if a.get_char(i) != p.get_char(i) {
            assert(a@.take(m as int)[i as int] != p@[i as int]);
            return false;
        }
        i = i + 1;
    }
    assert(a@.take(m as int) =~= p@);
    true
}

} // verus!
