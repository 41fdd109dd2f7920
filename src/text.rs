//! Character-level helpers over `Seq<char>`: substring search, the video id
//! carried by a video URI, the leading year of a date, and decimal numbers.
use vstd::prelude::*;

verus! {

/// Whether `pat` occurs in `s` at position `i`.
pub open spec fn occurs_at(s: Seq<char>, pat: Seq<char>, i: int) -> bool {
    0 <= i && i + pat.len() <= s.len() && s.subrange(i, i + pat.len()) == pat
}

/// The first position at or after `i` where `pat` occurs in `s`, or -1.
pub open spec fn find_from(s: Seq<char>, pat: Seq<char>, i: int) -> int
    decreases s.len() - i,
{
    if i < 0 || i >= s.len() || i + pat.len() > s.len() {
        -1
    } else if occurs_at(s, pat, i) {
        i
    } else {
        find_from(s, pat, i + 1)
    }
}

/// The first position at or after `i` that holds `c`, or `s.len()`.
pub open spec fn first_index_of(s: Seq<char>, c: char, i: int) -> int
    decreases s.len() - i,
{
    if i < 0 || i >= s.len() {
        s.len() as int
    } else if s[i] == c {
        i
    } else {
        first_index_of(s, c, i + 1)
    }
}

proof fn lemma_find_from_occurs(s: Seq<char>, pat: Seq<char>, i: int)
    requires
        0 <= i,
    ensures
        find_from(s, pat, i) == -1 || (i <= find_from(s, pat, i) && occurs_at(
            s,
            pat,
            find_from(s, pat, i),
        )),
    decreases s.len() - i,
{
    if !(i >= s.len() || i + pat.len() > s.len()) && !occurs_at(s, pat, i) {
        lemma_find_from_occurs(s, pat, i + 1);
    }
}

proof fn lemma_first_index_bound(s: Seq<char>, c: char, i: int)
    requires
        0 <= i,
    ensures
        first_index_of(s, c, i) <= s.len(),
        i <= s.len() ==> i <= first_index_of(s, c, i),
    decreases s.len() - i,
{
    if i < s.len() && s[i] != c {
        lemma_first_index_bound(s, c, i + 1);
    }
}

/// The chars of `s`.
pub fn chars_of(s: &str) -> (r: Vec<char>)
    ensures
        r@ == s@,
{
    let n = s.unicode_len();
    let mut out: Vec<char> = Vec::new();
    let mut i: usize = 0;
    while i < n
        invariant
            n == s@.len(),
            i <= n,
            out@ == s@.take(i as int),
        decreases n - i,
    {
        out.push(s.get_char(i));
        i = i + 1;
        assert(out@ =~= s@.take(i as int));
    }
    assert(out@ =~= s@);
    out
}

/// Whether `pat` occurs in `s` at `i`.
fn occurs_at_exec(s: &Vec<char>, pat: &Vec<char>, i: usize) -> (r: bool)
    requires
        i + pat@.len() <= s@.len(),
    ensures
        r == occurs_at(s@, pat@, i as int),
{
    let n = s.len();
    let mut k: usize = 0;
    while k < pat.len()
        invariant
            n == s@.len(),
            i + pat@.len() <= s@.len(),
            k <= pat@.len(),
            forall|j: int| 0 <= j < k ==> s@[i + j] == pat@[j],
        decreases pat@.len() - k,
    {
        if s[i + k] != pat[k] {
            assert(s@.subrange(i as int, i + pat@.len())[k as int] != pat@[k as int]);
            return false;
        }
        k = k + 1;
    }
    assert(s@.subrange(i as int, i + pat@.len()) =~= pat@);
    true
}

/// The first position at or after `from` where `pat` occurs in `s`.
pub fn find(s: &Vec<char>, pat: &Vec<char>, from: usize) -> (r: Option<usize>)
    ensures
        r == (if find_from(s@, pat@, from as int) < 0 {
            None
        } else {
            Some(find_from(s@, pat@, from as int) as usize)
        }),
        find_from(s@, pat@, from as int) < 0 || (from <= find_from(s@, pat@, from as int)
            && find_from(s@, pat@, from as int) + pat@.len() <= s@.len()),
{
    proof {
        lemma_find_from_occurs(s@, pat@, from as int);
    }
    let mut i = from;
    loop
        invariant
            from <= i,
            find_from(s@, pat@, from as int) == find_from(s@, pat@, i as int),
        decreases s@.len() - i,
    {
        if i >= s.len() || pat.len() > s.len() - i {
            return None;
        }
        if occurs_at_exec(s, pat, i) {
            return Some(i);
        }
        i = i + 1;
    }
}

/// The first position at or after `from` that holds `c`, or `s.len()`.
pub fn index_of_char(s: &Vec<char>, c: char, from: usize) -> (r: usize)
    ensures
        r == first_index_of(s@, c, from as int),
        r <= s@.len(),
        from <= s@.len() ==> from <= r,
{
    proof {
        lemma_first_index_bound(s@, c, from as int);
    }
    let mut i = from;
    while i < s.len() && s[i] != c
        invariant
            from <= i,
            first_index_of(s@, c, from as int) == first_index_of(s@, c, i as int),
        decreases s@.len() - i,
    {
        i = i + 1;
    }
    if i >= s.len() {
        s.len()
    } else {
        i
    }
}

pub open spec fn watch_marker() -> Seq<char> {
    seq!['w', 'a', 't', 'c', 'h', '?', 'v', '=']
}

/// The video id of a video URI: the text after the first `watch?v=`, up to
/// the next `&`, the next `watch?v=`, or the end; none when there is no
/// marker or that text is empty.
pub open spec fn video_id_of(uri: Seq<char>) -> Option<Seq<char>> {
    let p = find_from(uri, watch_marker(), 0);
    if p < 0 {
        None
    } else {
        let start = p + watch_marker().len();
        let q = find_from(uri, watch_marker(), start);
        let stop = if q < 0 { uri.len() as int } else { q };
        let amp = first_index_of(uri, '&', start);
        let end = if amp < stop { amp } else { stop };
        if end <= start {
            None
        } else {
            Some(uri.subrange(start, end))
        }
    }
}

pub open spec fn opt_view(o: Option<String>) -> Option<Seq<char>> {
    match o {
        Some(s) => Some(s@),
        None => None,
    }
}

/// The video id carried by `uri`; `None` for a URI without `watch?v=`.
pub fn extract_video_id(uri: &str) -> (r: Option<String>)
    ensures
        opt_view(r) == video_id_of(uri@),
        find_from(uri@, watch_marker(), 0) < 0 ==> r is None,
{
    let s = chars_of(uri);
    let n = s.len();
    let marker: Vec<char> = vec!['w', 'a', 't', 'c', 'h', '?', 'v', '='];
    assert(marker@ =~= watch_marker());
    let found = find(&s, &marker, 0);
    match found {
        None => None,
        Some(p) => {
            assert(watch_marker().len() == 8);
            let start = p + 8;
            let stop = match find(&s, &marker, start) {
                None => n,
                Some(q) => q,
            };
            let amp = index_of_char(&s, '&', start);
            let end = if amp < stop {
                amp
            } else {
                stop
            };
            if end <= start {
                None
            } else {
                Some(uri.substring_char(start, end).to_owned())
            }
        },
    }
}

/// The first char of `s`, as a string.
pub fn first_char(s: &String) -> (r: Option<String>)
    ensures
        opt_view(r) == (if s@.len() > 0 { Some(s@.take(1)) } else { None::<Seq<char>> }),
{
    let t = s.as_str();
    if t.unicode_len() > 0 {
        Some(t.substring_char(0, 1).to_owned())
    } else {
        None
    }
}

pub open spec fn is_digit(c: char) -> bool {
    '0' <= c <= '9'
}

/// The value of a string of decimal digits.
pub open spec fn digits_value(s: Seq<char>) -> nat
    decreases s.len(),
{
    if s.len() == 0 {
        0
    } else {
        digits_value(s.drop_last()) * 10 + (s.last() as nat - '0' as nat) as nat
    }
}

/// What `u32`'s `from_str` accepts: an optional `+`, then one or more
/// decimal digits whose value fits in 32 bits.
pub open spec fn parse_u32(s: Seq<char>) -> Option<u32> {
    parse_digits(if s.len() > 0 && s[0] == '+' { s.drop_first() } else { s })
}

/// One or more decimal digits whose value fits in 32 bits.
pub open spec fn parse_digits(d: Seq<char>) -> Option<u32> {
    if d.len() > 0 && (forall|i: int| 0 <= i < d.len() ==> is_digit(#[trigger] d[i]))
        && digits_value(d) <= u32::MAX {
        Some(digits_value(d) as u32)
    } else {
        None
    }
}

proof fn lemma_digits_monotone(d: Seq<char>, j: int)
    requires
        0 <= j <= d.len(),
        forall|i: int| 0 <= i < d.len() ==> is_digit(#[trigger] d[i]),
    ensures
        digits_value(d.take(j)) <= digits_value(d),
    decreases d.len() - j,
{
    if j < d.len() {
        lemma_digits_monotone(d, j + 1);
        assert(d.take(j + 1).drop_last() =~= d.take(j));
        assert(digits_value(d.take(j + 1)) == digits_value(d.take(j)) * 10 + (d.take(j
            + 1).last() as nat - '0' as nat) as nat);
    } else {
        assert(d.take(j) =~= d);
    }
}

/// The value of `d` when it is one or more digits that fit in 32 bits.
fn parse_digits_exec(d: &Vec<char>) -> (r: Option<u32>)
    ensures
        r == parse_digits(d@),
{
    let n = d.len();
    if n == 0 {
        return None;
    }
    let mut acc: u64 = 0;
    let mut j: usize = 0;
    while j < n
        invariant
            n == d@.len(),
            j <= n,
            acc == digits_value(d@.take(j as int)),
            acc <= u32::MAX,
            forall|i: int| 0 <= i < j ==> is_digit(#[trigger] d@[i]),
        decreases n - j,
    {
        let c = d[j];
        if !('0' <= c && c <= '9') {
            assert(!is_digit(d@[j as int]));
            return None;
        }
        assert(d@.take(j + 1).drop_last() =~= d@.take(j as int));
        let next = acc * 10 + (c as u64 - '0' as u64);
        j = j + 1;
        if next > u32::MAX as u64 {
            proof {
                if forall|i: int| 0 <= i < d@.len() ==> is_digit(#[trigger] d@[i]) {
                    lemma_digits_monotone(d@, j as int);
                }
            }
            return None;
        }
        acc = next;
    }
    assert(d@.take(j as int) =~= d@);
    Some(acc as u32)
}

/// The number written by `s`, parsed as `u32`'s `from_str` does.
pub fn parse_decimal_u32(s: &Vec<char>) -> (r: Option<u32>)
    ensures
        r == parse_u32(s@),
{
    let n = s.len();
    let a: usize = if n > 0 && s[0] == '+' {
        1
    } else {
        0
    };
    let mut d: Vec<char> = Vec::new();
    let mut i = a;
    while i < n
        invariant
            n == s@.len(),
            a <= i <= n,
            d@ == s@.subrange(a as int, i as int),
        decreases n - i,
    {
        d.push(s[i]);
        i = i + 1;
        assert(d@ =~= s@.subrange(a as int, i as int));
    }
    assert(d@ =~= (if s@.len() > 0 && s@[0] == '+' {
        s@.drop_first()
    } else {
        s@
    }));
    parse_digits_exec(&d)
}

/// The year that a date such as `1998-04-01` starts with: its text before the
/// first `-`, parsed as a `u32`.
pub open spec fn leading_year(date: Seq<char>) -> Option<u32> {
    parse_u32(date.take(first_index_of(date, '-', 0)))
}

pub fn parse_leading_year(date: &str) -> (r: Option<u32>)
    ensures
        r == leading_year(date@),
{
    let s = chars_of(date);
    let end = index_of_char(&s, '-', 0);
    let mut head: Vec<char> = Vec::new();
    let mut i: usize = 0;
    while i < end
        invariant
            end == first_index_of(s@, '-', 0),
            end <= s@.len(),
            i <= end,
            head@ == s@.take(i as int),
        decreases end - i,
    {
        head.push(s[i]);
        i = i + 1;
        assert(head@ =~= s@.take(i as int));
    }
    parse_decimal_u32(&head)
}

} // verus!
