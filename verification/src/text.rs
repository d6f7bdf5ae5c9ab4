//! Character-level text helpers: searching, trimming, splitting off the last
//! path segment, decimal formatting and the integer syntax of `str::parse`.
use vstd::prelude::*;

verus! {

// ---------------------------------------------------------------------------
// Specifications
// ---------------------------------------------------------------------------

/// `pat` occurs in `s` starting at position `i`.
pub open spec fn occurs_at(s: Seq<char>, pat: Seq<char>, i: int) -> bool {
    0 <= i && i + pat.len() <= s.len() && s.subrange(i, i + pat.len()) == pat
}

/// The first position at or after `k` where `pat` occurs in `s`.
pub open spec fn find_from(s: Seq<char>, pat: Seq<char>, k: int) -> Option<int>
    decreases s.len() + 1 - k,
{
    if k < 0 || k + pat.len() > s.len() {
        None
    } else if occurs_at(s, pat, k) {
        Some(k)
    } else {
        find_from(s, pat, k + 1)
    }
}

/// The first position where `pat` occurs in `s`, as `str::find` gives it.
pub open spec fn find_seq(s: Seq<char>, pat: Seq<char>) -> Option<int> {
    find_from(s, pat, 0)
}

/// `pat` occurs somewhere in `s`, as `str::contains` decides it.
pub open spec fn contains_seq(s: Seq<char>, pat: Seq<char>) -> bool {
    find_seq(s, pat) is Some
}

/// The first position of the character `c` in `s`.
pub open spec fn find_char(s: Seq<char>, c: char) -> Option<int> {
    find_seq(s, seq![c])
}

/// A character of Unicode's `White_Space` property, the set that
/// `char::is_whitespace` and `str::trim` use.
pub open spec fn is_ws(c: char) -> bool {
    ||| '\t' <= c <= '\r'
    ||| c == ' '
    ||| c == '\u{85}'
    ||| c == '\u{A0}'
    ||| c == '\u{1680}'
    ||| '\u{2000}' <= c <= '\u{200A}'
    ||| c == '\u{2028}'
    ||| c == '\u{2029}'
    ||| c == '\u{202F}'
    ||| c == '\u{205F}'
    ||| c == '\u{3000}'
}

/// `s` without its leading white space.
pub open spec fn trim_start_seq(s: Seq<char>) -> Seq<char>
    decreases s.len(),
{
    if s.len() > 0 && is_ws(s[0]) {
        trim_start_seq(s.drop_first())
    } else {
        s
    }
}

/// `s` without its trailing white space.
pub open spec fn trim_end_seq(s: Seq<char>) -> Seq<char>
    decreases s.len(),
{
    if s.len() > 0 && is_ws(s.last()) {
        trim_end_seq(s.drop_last())
    } else {
        s
    }
}

/// `s` without leading and trailing white space, as `str::trim` gives it.
pub open spec fn trim_seq(s: Seq<char>) -> Seq<char> {
    trim_end_seq(trim_start_seq(s))
}

/// The part of `s` after the last `sep`, or all of `s` when `sep` does not
/// occur: the first item that `s.rsplit(sep)` yields.
pub open spec fn after_last(s: Seq<char>, sep: char) -> Seq<char>
    decreases s.len(),
{
    if s.len() == 0 {
        s
    } else if s.last() == sep {
        Seq::empty()
    } else {
        after_last(s.drop_last(), sep).push(s.last())
    }
}

/// The part of `s` before the first `sep`, or all of `s`: the first item that
/// `s.split(sep)` yields.
pub open spec fn before_first(s: Seq<char>, sep: char) -> Seq<char> {
    match find_char(s, sep) {
        Some(i) => s.take(i),
        None => s,
    }
}

/// The second item that `s.split(sep)` yields: what stands between the first
/// and the second `sep` (or the end), when `sep` occurs at all.
pub open spec fn second_field(s: Seq<char>, sep: char) -> Option<Seq<char>> {
    match find_char(s, sep) {
        Some(i) => Some(before_first(s.skip(i + 1), sep)),
        None => None,
    }
}

/// The ASCII digit character of a value below ten.
pub open spec fn digit_char(d: int) -> char {
    (d + 48) as char
}

/// The decimal notation of `n`, without leading zeros.
pub open spec fn decimal(n: nat) -> Seq<char>
    decreases n,
{
    if n < 10 {
        seq![digit_char(n as int)]
    } else {
        decimal(n / 10).push(digit_char((n % 10) as int))
    }
}

/// `n` in at least two decimal digits, as `format!("{:02}", n)` writes it.
pub open spec fn pad2(n: nat) -> Seq<char> {
    if n < 10 {
        seq!['0', digit_char(n as int)]
    } else {
        decimal(n)
    }
}

pub open spec fn is_digit(c: char) -> bool {
    '0' <= c <= '9'
}

pub open spec fn all_digits(s: Seq<char>) -> bool {
    forall|i: int| 0 <= i < s.len() ==> is_digit(#[trigger] s[i])
}

/// The value of a string of decimal digits.
pub open spec fn digits_value(s: Seq<char>) -> nat
    decreases s.len(),
{
    if s.len() == 0 {
        0
    } else {
        digits_value(s.drop_last()) * 10 + ((s.last() as int) - 48) as nat
    }
}

/// What `str::parse::<u8>` gives: an optional `+`, then at least one digit,
/// with a value that fits in a `u8`.
pub open spec fn parse_u8_spec(s: Seq<char>) -> Option<u8> {
    let body = if s.len() > 0 && s[0] == '+' {
        s.drop_first()
    } else {
        s
    };
    if body.len() > 0 && all_digits(body) && digits_value(body) <= 255 {
        Some(digits_value(body) as u8)
    } else {
        None
    }
}

/// The integer that a sign and a string of digits denote.
pub open spec fn signed_value(s: Seq<char>) -> int {
    if s.len() > 0 && s[0] == '-' {
        -digits_value(s.drop_first())
    } else if s.len() > 0 && s[0] == '+' {
        digits_value(s.drop_first()) as int
    } else {
        digits_value(s) as int
    }
}

/// What `str::parse::<i32>` gives: an optional sign, then at least one
/// digit, with a value that fits in an `i32`.
pub open spec fn parse_i32_spec(s: Seq<char>) -> Option<i32> {
    let body = if s.len() > 0 && (s[0] == '+' || s[0] == '-') {
        s.drop_first()
    } else {
        s
    };
    if body.len() > 0 && all_digits(body) && i32::MIN <= signed_value(s) <= i32::MAX {
        Some(signed_value(s) as i32)
    } else {
        None
    }
}

/// The characters of each string of a sequence.
pub open spec fn strs(v: Seq<String>) -> Seq<Seq<char>> {
    v.map_values(|s: String| s@)
}

/// The parts joined with `sep` between each two, as `[..].join(sep)` gives it.
pub open spec fn join_seq(parts: Seq<Seq<char>>, sep: Seq<char>) -> Seq<char>
    decreases parts.len(),
{
    if parts.len() == 0 {
        Seq::empty()
    } else if parts.len() == 1 {
        parts[0]
    } else {
        join_seq(parts.drop_last(), sep) + sep + parts.last()
    }
}

/// The lower-case form of a string, as `str::to_lowercase` computes it
/// (Unicode case mapping, including the context-dependent final sigma).
pub uninterp spec fn lowercase(s: Seq<char>) -> Seq<char>;

// ---------------------------------------------------------------------------
// Lemmas
// ---------------------------------------------------------------------------

/// What `find_from` returns is an occurrence, and no earlier position from `k` on is one.
pub proof fn lemma_find_from(s: Seq<char>, pat: Seq<char>, k: int)
    requires
        0 <= k,
    ensures
        match find_from(s, pat, k) {
            Some(i) => k <= i && occurs_at(s, pat, i) && forall|j: int|
                k <= j < i ==> !occurs_at(s, pat, j),
            None => forall|j: int| k <= j ==> !occurs_at(s, pat, j),
        },
    decreases s.len() + 1 - k,
{
    if k + pat.len() > s.len() {
    } else if occurs_at(s, pat, k) {
    } else {
        lemma_find_from(s, pat, k + 1);
    }
}

proof fn lemma_digits_value_push(s: Seq<char>, c: char)
    ensures
        digits_value(s.push(c)) == digits_value(s) * 10 + ((c as int) - 48) as nat,
{
    assert(s.push(c).drop_last() =~= s);
}

/// A longer prefix of a digit string never has a smaller value.
pub proof fn lemma_digits_value_prefix_mono(s: Seq<char>, i: int, j: int)
    requires
        0 <= i <= j <= s.len(),
        all_digits(s),
    ensures
        digits_value(s.take(i)) <= digits_value(s.take(j)),
    decreases j - i,
{
    if i < j {
        lemma_digits_value_prefix_mono(s, i, j - 1);
        assert(s.take(j).drop_last() =~= s.take(j - 1));
        assert(is_digit(s[j - 1]));
    }
}

// ---------------------------------------------------------------------------
// Executable helpers
// ---------------------------------------------------------------------------

/// The characters of `s`, in order.
pub fn chars_of(s: &str) -> (v: Vec<char>)
    ensures
        v@ == s@,
{
    let mut v: Vec<char> = Vec::new();
    for c in it: s.chars()
        invariant
            v@ == it.seq().take(it.index() as int),
            it.seq() == s@,
    {
        v.push(c);
    }
    v
}

/// Appends one character to a string (`String::push`).
#[verifier::external_body]
pub(crate) fn push_char(s: &mut String, c: char)
    ensures
        final(s)@ == old(s)@.push(c),
{
    s.push(c);
}

/// Appends the characters of `v` to `out`.
pub fn push_chars(out: &mut String, v: &[char])
    ensures
        final(out)@ == old(out)@ + v@,
{
    let ghost start = out@;
    for i in 0..v.len()
        invariant
            out@ == start + v@.take(i as int),
    {
        push_char(out, v[i]);
        assert(v@.take(i + 1) =~= v@.take(i as int).push(v@[i as int]));
    }
    assert(v@.take(v.len() as int) =~= v@);
}

/// A string made of the characters of `v`.
pub fn string_of(v: &[char]) -> (s: String)
    ensures
        s@ == v@,
{
    let mut s = String::new();
    push_chars(&mut s, v);
    assert(Seq::<char>::empty() + v@ =~= v@);
    s
}

/// Appends `s` to `out`.
pub fn push_str(out: &mut String, s: &str)
    ensures
        final(out)@ == old(out)@ + s@,
{
    let v = chars_of(s);
    push_chars(out, v.as_slice());
}

/// The strings of `list` joined with `sep` between each two.
pub fn join_strings(list: &Vec<String>, sep: &str) -> (r: String)
    ensures
        r@ == join_seq(strs(list@), sep@),
{
    let mut r = String::new();
    let ghost parts = strs(list@);
    let mut i: usize = 0;
    while i < list.len()
        invariant
            i <= list.len(),
            parts == strs(list@),
            r@ == join_seq(parts.take(i as int), sep@),
        decreases list.len() - i,
    {
        if i != 0 {
            push_str(&mut r, sep);
        }
        push_str(&mut r, list[i].as_str());
        proof {
            assert(parts.take(i + 1).drop_last() =~= parts.take(i as int));
            if i == 0 {
                assert(Seq::<char>::empty() + parts[0] =~= parts[0]);
            }
        }
        i += 1;
    }
    assert(parts.take(list.len() as int) =~= parts);
    r
}

/// Whether two strings are equal.
pub fn str_eq(a: &str, b: &str) -> (r: bool)
    ensures
        r == (a@ == b@),
{
    let x = chars_of(a);
    let y = chars_of(b);
    chars_eq(x.as_slice(), y.as_slice())
}

/// Whether `list` holds a string equal to `s`.
pub fn contains_string(list: &Vec<String>, s: &String) -> (b: bool)
    ensures
        b == strs(list@).contains(s@),
{
    let mut i: usize = 0;
    while i < list.len()
        invariant
            i <= list.len(),
            forall|t: int| 0 <= t < i ==> list@[t]@ != s@,
        decreases list.len() - i,
    {
        if list[i] == *s {
            assert(strs(list@)[i as int] == s@);
            return true;
        }
        i += 1;
    }
    assert forall|t: int| 0 <= t < strs(list@).len() implies strs(list@)[t] != s@ by {
        assert(strs(list@)[t] == list@[t]@);
    }
    false
}

/// The lower-case form of `s` (`str::to_lowercase`).
#[verifier::external_body]
pub(crate) fn to_lower(s: &str) -> (r: String)
    ensures
        r@ == lowercase(s@),
{
    s.to_lowercase()
}

/// Whether `pat` occurs in `s` at position `i`.
pub fn occurs_at_exec(s: &[char], pat: &[char], i: usize) -> (b: bool)
    ensures
        b == occurs_at(s@, pat@, i as int),
{
    if i > s.len() || pat.len() > s.len() - i {
        return false;
    }
    let mut j: usize = 0;
    while j < pat.len()
        invariant
            i + pat.len() <= s.len(),
            j <= pat.len(),
            forall|t: int| 0 <= t < j ==> s@[i + t] == pat@[t],
        decreases pat.len() - j,
    {
        if s[i + j] != pat[j] {
            assert(s@.subrange(i as int, i + pat.len())[j as int] != pat@[j as int]);
            return false;
        }
        j += 1;
    }
    assert(s@.subrange(i as int, i + pat.len()) =~= pat@);
    true
}

/// The first position of `pat` in `s` (`str::find`).
pub fn find(s: &[char], pat: &[char]) -> (r: Option<usize>)
    ensures
        r matches Some(i) ==> find_seq(s@, pat@) == Some(i as int),
        r is None ==> find_seq(s@, pat@) is None,
{
    if pat.len() > s.len() {
        return None;
    }
    let last = s.len() - pat.len();
    let mut k: usize = 0;
    loop
        invariant
            last == s.len() - pat.len(),
            k <= last,
            find_seq(s@, pat@) == find_from(s@, pat@, k as int),
        decreases last - k,
    {
        if occurs_at_exec(s, pat, k) {
            return Some(k);
        }
        if k == last {
            assert(find_from(s@, pat@, k + 1) is None);
            return None;
        }
        k += 1;
    }
}

/// Whether `pat` occurs in `s` (`str::contains`).
pub fn contains(s: &[char], pat: &[char]) -> (b: bool)
    ensures
        b == contains_seq(s@, pat@),
{
    find(s, pat).is_some()
}

/// The first position of `c` in `s`.
pub fn find_ch(s: &[char], c: char) -> (r: Option<usize>)
    ensures
        r matches Some(i) ==> find_char(s@, c) == Some(i as int),
        r is None ==> find_char(s@, c) is None,
{
    let pat = [c];
    assert(pat@ =~= seq![c]);
    find(s, &pat)
}

/// Whether two character sequences are equal.
pub fn chars_eq(a: &[char], b: &[char]) -> (r: bool)
    ensures
        r == (a@ == b@),
{
    if a.len() != b.len() {
        return false;
    }
    let r = occurs_at_exec(a, b, 0);
    assert(a@.subrange(0, b@.len() as int) =~= a@);
    r
}

/// Unicode white space (`char::is_whitespace`).
pub fn is_whitespace(c: char) -> (b: bool)
    ensures
        b == is_ws(c),
{
    ('\t' <= c && c <= '\r') || c == ' ' || c == '\u{85}' || c == '\u{A0}' || c == '\u{1680}'
        || ('\u{2000}' <= c && c <= '\u{200A}') || c == '\u{2028}' || c == '\u{2029}'
        || c == '\u{202F}' || c == '\u{205F}' || c == '\u{3000}'
}

proof fn lemma_trim_start_skip(s: Seq<char>, i: int)
    requires
        0 <= i <= s.len(),
        forall|t: int| 0 <= t < i ==> is_ws(#[trigger] s[t]),
    ensures
        trim_start_seq(s) == trim_start_seq(s.skip(i)),
    decreases i,
{
    if i == 0 {
        assert(s.skip(0) =~= s);
    } else {
        assert(is_ws(s[0]));
        assert(s.skip(1) =~= s.drop_first());
        lemma_trim_start_skip(s.drop_first(), i - 1);
        assert(s.drop_first().skip(i - 1) =~= s.skip(i));
    }
}

proof fn lemma_trim_end_take(s: Seq<char>, j: int)
    requires
        0 <= j <= s.len(),
        forall|t: int| j <= t < s.len() ==> is_ws(#[trigger] s[t]),
    ensures
        trim_end_seq(s) == trim_end_seq(s.take(j)),
    decreases s.len() - j,
{
    if j < s.len() {
        assert(s.take(s.len() - 1) =~= s.drop_last());
        lemma_trim_end_take(s.drop_last(), j);
        assert(s.drop_last().take(j) =~= s.take(j));
    } else {
        assert(s.take(j) =~= s);
    }
}

/// `s` without its leading white space (`str::trim_start`).
pub fn trim_start(s: &[char]) -> (r: Vec<char>)
    ensures
        r@ == trim_start_seq(s@),
{
    let mut i: usize = 0;
    while i < s.len() && is_whitespace(s[i])
        invariant
            i <= s.len(),
            forall|t: int| 0 <= t < i ==> is_ws(#[trigger] s@[t]),
        decreases s.len() - i,
    {
        i += 1;
    }
    proof {
        lemma_trim_start_skip(s@, i as int);
        if i < s.len() {
            assert(!is_ws(s@.skip(i as int)[0]));
        }
    }
    let r = slice_chars(s, i, s.len());
    assert(r@ =~= s@.skip(i as int));
    r
}

/// `s` without leading and trailing white space (`str::trim`).
pub fn trim(s: &[char]) -> (r: Vec<char>)
    ensures
        r@ == trim_seq(s@),
{
    let mut i: usize = 0;
    while i < s.len() && is_whitespace(s[i])
        invariant
            i <= s.len(),
            forall|t: int| 0 <= t < i ==> is_ws(#[trigger] s@[t]),
        decreases s.len() - i,
    {
        i += 1;
    }
    proof {
        lemma_trim_start_skip(s@, i as int);
        if i < s.len() {
            assert(!is_ws(s@.skip(i as int)[0]));
        }
    }
    let mut j: usize = s.len();
    while j > i && is_whitespace(s[j - 1])
        invariant
            i <= j <= s.len(),
            forall|t: int| j <= t < s.len() ==> is_ws(#[trigger] s@[t]),
        decreases j,
    {
        j -= 1;
    }
    let ghost mid = s@.skip(i as int);
    proof {
        assert(trim_start_seq(s@) == mid);
        assert forall|t: int| j - i <= t < mid.len() implies is_ws(#[trigger] mid[t]) by {
            assert(mid[t] == s@[t + i]);
        }
        lemma_trim_end_take(mid, j - i);
        if j > i {
            assert(mid.take(j - i).last() == s@[j - 1]);
        }
        assert(mid.take(j - i) =~= s@.subrange(i as int, j as int));
    }
    let mut r: Vec<char> = Vec::new();
    let mut k = i;
    while k < j
        invariant
            i <= k <= j <= s.len(),
            r@ == s@.subrange(i as int, k as int),
        decreases j - k,
    {
        r.push(s[k]);
        assert(s@.subrange(i as int, k + 1) =~= s@.subrange(i as int, k as int).push(s@[k as int]));
        k += 1;
    }
    r
}

proof fn lemma_after_last_take(s: Seq<char>, sep: char, j: int)
    requires
        0 <= j <= s.len(),
        forall|t: int| j <= t < s.len() ==> #[trigger] s[t] != sep,
        j == 0 || s[j - 1] == sep,
    ensures
        after_last(s, sep) == s.skip(j),
    decreases s.len() - j,
{
    if j < s.len() {
        lemma_after_last_take(s.drop_last(), sep, j);
        assert(s.drop_last().skip(j).push(s.last()) =~= s.skip(j));
    } else {
        if j > 0 {
            assert(s.last() == sep);
        }
        assert(s.skip(j) =~= Seq::<char>::empty());
        if j == 0 {
            assert(s.len() == 0);
        }
    }
}

/// The part of `s` after the last `sep` (the first item of `rsplit`).
pub fn after_last_exec(s: &[char], sep: char) -> (r: Vec<char>)
    ensures
        r@ == after_last(s@, sep),
{
    let mut j: usize = s.len();
    while j > 0 && s[j - 1] != sep
        invariant
            j <= s.len(),
            forall|t: int| j <= t < s.len() ==> #[trigger] s@[t] != sep,
        decreases j,
    {
        j -= 1;
    }
    proof {
        lemma_after_last_take(s@, sep, j as int);
    }
    let mut r: Vec<char> = Vec::new();
    let mut k = j;
    while k < s.len()
        invariant
            j <= k <= s.len(),
            r@ == s@.subrange(j as int, k as int),
        decreases s.len() - k,
    {
        r.push(s[k]);
        assert(s@.subrange(j as int, k + 1) =~= s@.subrange(j as int, k as int).push(s@[k as int]));
        k += 1;
    }
    assert(r@ =~= s@.skip(j as int));
    r
}

/// The characters `s[from..to]`.
pub fn slice_chars(s: &[char], from: usize, to: usize) -> (r: Vec<char>)
    requires
        from <= to <= s.len(),
    ensures
        r@ == s@.subrange(from as int, to as int),
{
    let mut r: Vec<char> = Vec::new();
    let mut k = from;
    while k < to
        invariant
            from <= k <= to <= s.len(),
            r@ == s@.subrange(from as int, k as int),
        decreases to - k,
    {
        r.push(s[k]);
        assert(s@.subrange(from as int, k + 1) =~= s@.subrange(from as int, k as int).push(
            s@[k as int],
        ));
        k += 1;
    }
    r
}

/// The part of `s` before the first `sep` (the first item of `split`).
pub fn before_first_exec(s: &[char], sep: char) -> (r: Vec<char>)
    ensures
        r@ == before_first(s@, sep),
{
    match find_ch(s, sep) {
        Some(i) => {
            proof {
                lemma_find_from(s@, seq![sep], 0);
            }
            slice_chars(s, 0, i)
        },
        None => {
            let r = slice_chars(s, 0, s.len());
            assert(r@ =~= s@);
            r
        },
    }
}

/// The second item of `s.split(sep)`, when there is one.
pub fn second_field_exec(s: &[char], sep: char) -> (r: Option<Vec<char>>)
    ensures
        r matches Some(v) ==> second_field(s@, sep) == Some(v@),
        r is None ==> second_field(s@, sep) is None,
{
    match find_ch(s, sep) {
        Some(i) => {
            proof {
                lemma_find_from(s@, seq![sep], 0);
                assert(occurs_at(s@, seq![sep], i as int));
                assert(seq![sep].len() == 1);
                assert(i < s@.len());
            }
            assert(i < s.len());
            let rest = slice_chars(s, i + 1, s.len());
            assert(rest@ =~= s@.skip(i + 1));
            Some(before_first_exec(rest.as_slice(), sep))
        },
        None => None,
    }
}

/// Appends the decimal notation of `n` to `out`.
pub fn push_decimal(out: &mut String, n: u32)
    ensures
        final(out)@ == old(out)@ + decimal(n as nat),
    decreases n,
{
    if n >= 10 {
        push_decimal(out, n / 10);
        let d = n % 10;
        let c = char_of_digit(d);
        push_char(out, c);
        assert(decimal(n as nat) == decimal((n / 10) as nat).push(digit_char((n % 10) as int)));
    } else {
        push_char(out, char_of_digit(n));
        assert(seq![digit_char(n as int)] =~= Seq::<char>::empty().push(digit_char(n as int)));
    }
}

/// The ASCII digit for a value below ten.
pub fn char_of_digit(d: u32) -> (c: char)
    requires
        d < 10,
    ensures
        c == digit_char(d as int),
{
    if d == 0 { '0' }
    else if d == 1 { '1' }
    else if d == 2 { '2' }
    else if d == 3 { '3' }
    else if d == 4 { '4' }
    else if d == 5 { '5' }
    else if d == 6 { '6' }
    else if d == 7 { '7' }
    else if d == 8 { '8' }
    else { '9' }
}

/// Appends `n` in at least two digits (`{:02}`).
pub fn push_pad2(out: &mut String, n: u32)
    ensures
        final(out)@ == old(out)@ + pad2(n as nat),
{
    if n < 10 {
        push_char(out, '0');
        push_char(out, char_of_digit(n));
        assert(old(out)@.push('0').push(digit_char(n as int)) =~= old(out)@ + seq!['0', digit_char(n as int)]);
    } else {
        push_decimal(out, n);
    }
}

/// The value of the digit string `s`, or `None` once it exceeds `limit`.
fn digits_value_upto(s: &[char], limit: u32) -> (r: Option<u32>)
    requires
        all_digits(s@),
        limit >= 9,
    ensures
        r matches Some(v) ==> v == digits_value(s@) && v <= limit,
        r is None ==> digits_value(s@) > limit,
{
    let mut v: u32 = 0;
    let mut i: usize = 0;
    while i < s.len()
        invariant
            i <= s.len(),
            all_digits(s@),
            limit >= 9,
            v == digits_value(s@.take(i as int)),
            v <= limit,
        decreases s.len() - i,
    {
        let d = (s[i] as u32) - 48;
        assert(is_digit(s@[i as int]));
        proof {
            lemma_digits_value_push(s@.take(i as int), s@[i as int]);
            assert(s@.take(i as int).push(s@[i as int]) =~= s@.take(i + 1));
        }
        if v > (limit - d) / 10 {
            proof {
                assert(digits_value(s@.take(i + 1)) > limit) by (nonlinear_arith)
                    requires
                        digits_value(s@.take(i + 1)) == v * 10 + d,
                        v > (limit - d) / 10,
                        d <= 9,
                        limit >= 9;
                lemma_digits_value_prefix_mono(s@, i + 1, s.len() as int);
                assert(s@.take(s.len() as int) =~= s@);
            }
            return None;
        }
        v = v * 10 + d;
        i += 1;
    }
    assert(s@.take(s.len() as int) =~= s@);
    Some(v)
}

/// Whether every character of `s` is an ASCII digit.
pub fn all_digits_exec(s: &[char]) -> (b: bool)
    ensures
        b == all_digits(s@),
{
    let mut i: usize = 0;
    while i < s.len()
        invariant
            i <= s.len(),
            forall|t: int| 0 <= t < i ==> is_digit(#[trigger] s@[t]),
        decreases s.len() - i,
    {
        if !('0' <= s[i] && s[i] <= '9') {
            return false;
        }
        i += 1;
    }
    true
}

/// `str::parse::<u8>` on the characters of `s`.
pub fn parse_u8(s: &[char]) -> (r: Option<u8>)
    ensures
        r == parse_u8_spec(s@),
{
    let body = if s.len() > 0 && s[0] == '+' {
        slice_chars(s, 1, s.len())
    } else {
        slice_chars(s, 0, s.len())
    };
    assert(s.len() > 0 && s@[0] == '+' ==> body@ =~= s@.drop_first());
    assert(!(s.len() > 0 && s@[0] == '+') ==> body@ =~= s@);
    if body.len() == 0 || !all_digits_exec(body.as_slice()) {
        return None;
    }
    match digits_value_upto(body.as_slice(), 255) {
        Some(v) => Some(v as u8),
        None => None,
    }
}

/// `str::parse::<i32>` on the characters of `s`.
pub fn parse_i32(s: &[char]) -> (r: Option<i32>)
    ensures
        r == parse_i32_spec(s@),
{
    let signed = s.len() > 0 && (s[0] == '+' || s[0] == '-');
    let negative = s.len() > 0 && s[0] == '-';
    let body = if signed {
        slice_chars(s, 1, s.len())
    } else {
        slice_chars(s, 0, s.len())
    };
    assert(signed ==> body@ =~= s@.drop_first());
    assert(!signed ==> body@ =~= s@);
    if body.len() == 0 || !all_digits_exec(body.as_slice()) {
        return None;
    }
    let limit: u32 = if negative { 2147483648 } else { 2147483647 };
    match digits_value_upto(body.as_slice(), limit) {
        Some(v) => {
            if negative {
                if v == 2147483648 {
                    Some(i32::MIN)
                } else {
                    Some(-(v as i32))
                }
            } else {
                Some(v as i32)
            }
        },
        None => None,
    }
}

} // verus!
