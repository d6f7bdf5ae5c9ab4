//! Reading single fields out of a JSON reply by plain text search, the way
//! the time services' answers are read: no full JSON parsing takes place.
use vstd::prelude::*;
use crate::text::{
    chars_of, find, find_ch, find_char, find_seq, is_digit, occurs_at, lemma_find_from, parse_i32,
    parse_i32_spec, slice_chars, string_of, trim_start, trim_start_seq,
};

verus! {

/// The characters of `s` that come after the first occurrence of `key`.
pub open spec fn after_key(s: Seq<char>, key: Seq<char>) -> Option<Seq<char>> {
    match find_seq(s, key) {
        Some(p) => Some(s.skip(p + key.len())),
        None => None,
    }
}

/// The string value that follows `key`: everything up to the next `"`.
pub open spec fn json_string_spec(json: Seq<char>, key: Seq<char>) -> Option<Seq<char>> {
    match after_key(json, key) {
        Some(rest) => match find_char(rest, '"') {
            Some(end) => Some(rest.take(end)),
            None => None,
        },
        None => None,
    }
}

/// The run of digits and minus signs at the start of `s`.
pub open spec fn number_run(s: Seq<char>) -> Seq<char>
    decreases s.len(),
{
    if s.len() > 0 && (is_digit(s[0]) || s[0] == '-') {
        seq![s[0]] + number_run(s.drop_first())
    } else {
        Seq::empty()
    }
}

/// The integer right after `key`: the leading run of digits and minus signs,
/// read as an `i32`.
pub open spec fn json_int_spec(json: Seq<char>, key: Seq<char>) -> Option<i32> {
    match after_key(json, key) {
        Some(rest) => parse_i32_spec(number_run(rest)),
        None => None,
    }
}

/// The integer after `pattern`, white space before it skipped.
pub open spec fn int_after_pattern(json: Seq<char>, pattern: Seq<char>) -> Option<i32> {
    match after_key(json, pattern) {
        Some(rest) => parse_i32_spec(number_run(trim_start_seq(rest))),
        None => None,
    }
}

/// The four ways a field name and its colon are looked for: `"name":`,
/// `"name": `, `"name"` followed by a line break and `:`, and `"name" :`.
pub open spec fn field_patterns(name: Seq<char>) -> Seq<Seq<char>> {
    seq![
        seq!['"'] + name + seq!['"', ':'],
        seq!['"'] + name + seq!['"', ':', ' '],
        seq!['"'] + name + seq!['"', '\r', '\n', ':'],
        seq!['"'] + name + seq!['"', ' ', ':'],
    ]
}

/// The integer value of the field `name`, trying each pattern in turn.
pub open spec fn json_int_flexible_spec(json: Seq<char>, name: Seq<char>) -> Option<i32> {
    let p = field_patterns(name);
    match int_after_pattern(json, p[0]) {
        Some(v) => Some(v),
        None => match int_after_pattern(json, p[1]) {
            Some(v) => Some(v),
            None => match int_after_pattern(json, p[2]) {
                Some(v) => Some(v),
                None => int_after_pattern(json, p[3]),
            },
        },
    }
}

/// The characters after the first occurrence of `key`.
fn after_key_exec(s: &[char], key: &[char]) -> (r: Option<Vec<char>>)
    ensures
        r matches Some(v) ==> after_key(s@, key@) == Some(v@),
        r is None ==> after_key(s@, key@) is None,
{
    match find(s, key) {
        Some(p) => {
            proof {
                lemma_find_from(s@, key@, 0);
                assert(occurs_at(s@, key@, p as int));
            }
            assert(p + key.len() <= s.len());
            let v = slice_chars(s, p + key.len(), s.len());
            assert(v@ =~= s@.skip(p + key.len()));
            Some(v)
        },
        None => None,
    }
}

proof fn lemma_number_run_take(s: Seq<char>, i: int)
    requires
        0 <= i <= s.len(),
        forall|t: int| 0 <= t < i ==> is_digit(#[trigger] s[t]) || s[t] == '-',
        i == s.len() || !(is_digit(s[i]) || s[i] == '-'),
    ensures
        number_run(s) == s.take(i),
    decreases i,
{
    if i == 0 {
        assert(s.take(0) =~= Seq::<char>::empty());
    } else {
        lemma_number_run_take(s.drop_first(), i - 1);
        assert(seq![s[0]] + s.drop_first().take(i - 1) =~= s.take(i));
    }
}

/// The leading run of digits and minus signs.
fn number_run_exec(s: &[char]) -> (r: Vec<char>)
    ensures
        r@ == number_run(s@),
{
    let mut i: usize = 0;
    while i < s.len() && (('0' <= s[i] && s[i] <= '9') || s[i] == '-')
        invariant
            i <= s.len(),
            forall|t: int| 0 <= t < i ==> is_digit(#[trigger] s@[t]) || s@[t] == '-',
        decreases s.len() - i,
    {
        i += 1;
    }
    proof {
        lemma_number_run_take(s@, i as int);
    }
    slice_chars(s, 0, i)
}

/// The string value after `key`, up to the next double quote.
pub fn extract_json_string(json: &str, key: &str) -> (r: Option<String>)
    ensures
        r matches Some(v) ==> json_string_spec(json@, key@) == Some(v@),
        r is None ==> json_string_spec(json@, key@) is None,
{
    let j = chars_of(json);
    let k = chars_of(key);
    extract_string_chars(j.as_slice(), k.as_slice())
}

/// `extract_json_string` on character sequences.
pub fn extract_string_chars(j: &[char], k: &[char]) -> (r: Option<String>)
    ensures
        r matches Some(v) ==> json_string_spec(j@, k@) == Some(v@),
        r is None ==> json_string_spec(j@, k@) is None,
{
    match after_key_exec(j, k) {
        Some(rest) => match find_ch(rest.as_slice(), '"') {
            Some(end) => {
                proof {
                    lemma_find_from(rest@, seq!['"'], 0);
                }
                let v = slice_chars(rest.as_slice(), 0, end);
                assert(v@ =~= rest@.take(end as int));
                Some(string_of(v.as_slice()))
            },
            None => None,
        },
        None => None,
    }
}

/// The integer right after `key`.
pub fn extract_json_int(json: &str, key: &str) -> (r: Option<i32>)
    ensures
        r == json_int_spec(json@, key@),
{
    let j = chars_of(json);
    let k = chars_of(key);
    match after_key_exec(j.as_slice(), k.as_slice()) {
        Some(rest) => {
            let run = number_run_exec(rest.as_slice());
            if run.len() == 0 {
                assert(parse_i32_spec(run@) is None);
                return None;
            }
            parse_i32(run.as_slice())
        },
        None => None,
    }
}

/// The integer after `pattern`, white space skipped.
fn int_after_pattern_exec(j: &[char], pattern: &[char]) -> (r: Option<i32>)
    ensures
        r == int_after_pattern(j@, pattern@),
{
    match after_key_exec(j, pattern) {
        Some(rest) => {
            let trimmed = trim_start(rest.as_slice());
            let run = number_run_exec(trimmed.as_slice());
            if run.len() > 0 {
                parse_i32(run.as_slice())
            } else {
                assert(parse_i32_spec(run@) is None);
                None
            }
        },
        None => None,
    }
}

/// The integer value of the field `field_name`, however its colon is spaced.
pub fn extract_json_int_flexible(json: &str, field_name: &str) -> (r: Option<i32>)
    ensures
        r == json_int_flexible_spec(json@, field_name@),
{
    let j = chars_of(json);
    let name = chars_of(field_name);
    let ghost p = field_patterns(field_name@);
    let mut p1: Vec<char> = Vec::new();
    p1.push('"');
    let mut p2: Vec<char> = Vec::new();
    p2.push('"');
    let mut p3: Vec<char> = Vec::new();
    p3.push('"');
    let mut p4: Vec<char> = Vec::new();
    p4.push('"');
    let mut i: usize = 0;
    while i < name.len()
        invariant
            i <= name.len(),
            p1@ == seq!['"'] + name@.take(i as int),
            p2@ == p1@,
            p3@ == p1@,
            p4@ == p1@,
        decreases name.len() - i,
    {
        p1.push(name[i]);
        p2.push(name[i]);
        p3.push(name[i]);
        p4.push(name[i]);
        assert(seq!['"'] + name@.take(i + 1) =~= (seq!['"'] + name@.take(i as int)).push(name@[i as int]));
        i += 1;
    }
    assert(name@.take(name.len() as int) =~= name@);
    p1.push('"');
    p1.push(':');
    p2.push('"');
    p2.push(':');
    p2.push(' ');
    p3.push('"');
    p3.push('\r');
    p3.push('\n');
    p3.push(':');
    p4.push('"');
    p4.push(' ');
    p4.push(':');
    assert(p1@ =~= p[0]);
    assert(p2@ =~= p[1]);
    assert(p3@ =~= p[2]);
    assert(p4@ =~= p[3]);
    match int_after_pattern_exec(j.as_slice(), p1.as_slice()) {
        Some(v) => Some(v),
        None => match int_after_pattern_exec(j.as_slice(), p2.as_slice()) {
            Some(v) => Some(v),
            None => match int_after_pattern_exec(j.as_slice(), p3.as_slice()) {
                Some(v) => Some(v),
                None => int_after_pattern_exec(j.as_slice(), p4.as_slice()),
            },
        },
    }
}

} // verus!
