//! Character-level text helpers: the vocabulary in which the line parsers
//! are specified and implemented.

use vstd::prelude::*;
use vstd::slice::*;
use vstd::string::*;

verus! {

/// `String::push` appends one character to the end of the string.
pub assume_specification[ String::push ](s: &mut String, c: char)
    ensures
        final(s)@ == old(s)@.push(c),
;

/// The texts of a sequence of strings.
pub open spec fn texts(s: Seq<String>) -> Seq<Seq<char>> {
    s.map_values(|x: String| x@)
}

/// `std::string::String::from_utf8` accepts exactly the byte sequences that
/// are valid UTF-8 and hands back the text that they encode.
#[verifier::external_body]
pub(crate) fn utf8_text(bytes: Vec<u8>) -> (r: Option<String>)
    ensures
        r is Some <==> vstd::utf8::valid_utf8(bytes@),
        r matches Some(s) ==> s@ == vstd::utf8::decode_utf8(bytes@),
{
    String::from_utf8(bytes).ok()
}

/// The characters of a string slice, in order.
pub fn to_chars(s: &str) -> (v: Vec<char>)
    ensures
        v@ == s@,
{
    let mut v: Vec<char> = Vec::new();
    for c in it: s.chars()
        invariant
            v@ == it.seq().take(it.index() as int),
            it.seq() == s@,
    {
        v.push(c);
    }
    v
}

/// The string made of the given characters.
pub fn from_chars(s: &[char]) -> (r: String)
    ensures
        r@ == s@,
{
    let mut r = String::new();
    let mut i: usize = 0;
    while i < s.len()
        invariant
            i <= s.len(),
            r@ == s@.take(i as int),
        decreases s.len() - i,
    {
        r.push(s[i]);
        i += 1;
    }
    r
}

/// Whether two character slices hold the same text.
pub fn same_text(a: &[char], b: &[char]) -> (r: bool)
    ensures
        r == (a@ == b@),
{
    if a.len() != b.len() {
        return false;
    }
    let mut i: usize = 0;
    while i < a.len()
        invariant
            i <= a.len(),
            a.len() == b.len(),
            forall|j: int| 0 <= j < i ==> a@[j] == b@[j],
        decreases a.len() - i,
    {
        if a[i] != b[i] {
            return false;
        }
        i += 1;
    }
    assert(a@ =~= b@);
    true
}

/// Whether `s` begins with `prefix`.
pub fn starts_with(s: &[char], prefix: &[char]) -> (b: bool)
    ensures
        b == prefix@.is_prefix_of(s@),
{
    if prefix.len() > s.len() {
        return false;
    }
    let mut i: usize = 0;
    while i < prefix.len()
        invariant
            i <= prefix.len() <= s.len(),
            forall|j: int| 0 <= j < i ==> s@[j] == prefix@[j],
        decreases prefix.len() - i,
    {
        if s[i] != prefix[i] {
            assert(s@.subrange(0, prefix@.len() as int)[i as int] != prefix@[i as int]);
            return false;
        }
        i += 1;
    }
    assert(prefix@ =~= s@.subrange(0, prefix@.len() as int));
    true
}

/// Whether `s` ends with `suffix`.
pub fn ends_with(s: &[char], suffix: &[char]) -> (b: bool)
    ensures
        b == suffix@.is_suffix_of(s@),
{
    if suffix.len() > s.len() {
        return false;
    }
    let tail = slice_subrange(s, s.len() - suffix.len(), s.len());
    same_text(tail, suffix)
}

/// `needle` stands in `s` at index `i`.
pub open spec fn occurs_at(needle: Seq<char>, s: Seq<char>, i: int) -> bool {
    0 <= i && i + needle.len() <= s.len() && s.subrange(i, i + needle.len()) == needle
}

/// `needle` stands somewhere in `s`.
pub open spec fn occurs_in(needle: Seq<char>, s: Seq<char>) -> bool {
    exists|i: int| occurs_at(needle, s, i)
}

/// Whether `needle` stands somewhere in `s`.
pub fn contains(s: &[char], needle: &[char]) -> (b: bool)
    ensures
        b == occurs_in(needle@, s@),
{
    if needle.len() > s.len() {
        return false;
    }
    let last: usize = s.len() - needle.len();
    let mut i: usize = 0;
    loop
        invariant
            i <= last,
            last == s.len() - needle.len(),
            forall|j: int| 0 <= j < i ==> !occurs_at(needle@, s@, j),
        decreases last - i,
    {
        let window = slice_subrange(s, i, i + needle.len());
        if same_text(window, needle) {
            assert(occurs_at(needle@, s@, i as int));
            return true;
        }
        if i == last {
            return false;
        }
        i += 1;
    }
}

/// Index of the first `c` in `s`, or the length of `s` if there is none.
pub open spec fn position(s: Seq<char>, c: char) -> int
    decreases s.len(),
{
    if s.len() == 0 || s[0] == c {
        0
    } else {
        1 + position(s.drop_first(), c)
    }
}

/// `position` lies within `s`, `c` stands there, and nowhere before.
proof fn lemma_position_bounds(s: Seq<char>, c: char)
    ensures
        0 <= position(s, c) <= s.len(),
        position(s, c) < s.len() ==> s[position(s, c)] == c,
        forall|j: int| 0 <= j < position(s, c) ==> s[j] != c,
    decreases s.len(),
{
    if s.len() == 0 || s[0] == c {
    } else {
        lemma_position_bounds(s.drop_first(), c);
        let p = position(s.drop_first(), c);
        assert forall|j: int| 0 <= j < 1 + p implies s[j] != c by {
            if j > 0 {
                assert(s.drop_first()[j - 1] == s[j]);
            }
        }
    }
}

/// The first index at which `c` stands in `s` is `i`, given that it stands
/// nowhere before `i`.
proof fn lemma_position_is(s: Seq<char>, c: char, i: int)
    requires
        0 <= i <= s.len(),
        forall|j: int| 0 <= j < i ==> s[j] != c,
        i < s.len() ==> s[i] == c,
    ensures
        position(s, c) == i,
    decreases s.len(),
{
    if s.len() == 0 || s[0] == c {
    } else {
        let t = s.drop_first();
        assert forall|j: int| 0 <= j < i - 1 implies t[j] != c by {
            assert(t[j] == s[j + 1]);
        }
        lemma_position_is(t, c, i - 1);
    }
}

/// Index of the first `c` in `s`, or the length of `s` if there is none.
pub fn find(s: &[char], c: char) -> (i: usize)
    ensures
        i == position(s@, c),
{
    let mut i: usize = 0;
    while i < s.len() && s[i] != c
        invariant
            i <= s.len(),
            forall|j: int| 0 <= j < i ==> s@[j] != c,
        decreases s.len() - i,
    {
        i += 1;
    }
    proof {
        lemma_position_is(s@, c, i as int);
    }
    i
}

/// The `n`-th of the fields into which `sep` cuts `s`, counted from zero;
/// `None` if `s` has fewer fields.
pub open spec fn field(s: Seq<char>, sep: char, n: nat) -> Option<Seq<char>>
    decreases n,
{
    let i = position(s, sep);
    if n == 0 {
        Some(s.take(i))
    } else if i >= s.len() {
        None
    } else {
        field(s.skip(i + 1), sep, (n - 1) as nat)
    }
}

/// The `n`-th of the fields into which `sep` cuts `s`.
pub fn nth_field(s: &[char], sep: char, n: usize) -> (r: Option<&[char]>)
    ensures
        r.is_some() == field(s@, sep, n as nat).is_some(),
        r matches Some(f) ==> Some(f@) == field(s@, sep, n as nat),
{
    let mut rest = s;
    let mut k: usize = n;
    loop
        invariant
            k <= n,
            field(rest@, sep, k as nat) == field(s@, sep, n as nat),
        decreases k,
    {
        let i = find(rest, sep);
        proof {
            lemma_position_bounds(rest@, sep);
        }
        if k == 0 {
            return Some(slice_subrange(rest, 0, i));
        }
        if i >= rest.len() {
            return None;
        }
        rest = slice_subrange(rest, i + 1, rest.len());
        k -= 1;
    }
}

/// Unicode's `White_Space` property.
pub open spec fn is_white_space(c: char) -> bool {
    let u = c as u32;
    ||| 0x09 <= u <= 0x0D
    ||| u == 0x20
    ||| u == 0x85
    ||| u == 0xA0
    ||| u == 0x1680
    ||| 0x2000 <= u <= 0x200A
    ||| u == 0x2028
    ||| u == 0x2029
    ||| u == 0x202F
    ||| u == 0x205F
    ||| u == 0x3000
}

/// Whether `c` has Unicode's `White_Space` property.
pub fn white_space(c: char) -> (b: bool)
    ensures
        b == is_white_space(c),
{
    let u: u32 = c as u32;
    (0x09 <= u && u <= 0x0D) || u == 0x20 || u == 0x85 || u == 0xA0 || u == 0x1680 || (0x2000 <= u
        && u <= 0x200A) || u == 0x2028 || u == 0x2029 || u == 0x202F || u == 0x205F || u == 0x3000
}

/// `s` without its leading white space.
pub open spec fn trimmed_start(s: Seq<char>) -> Seq<char>
    decreases s.len(),
{
    if s.len() > 0 && is_white_space(s[0]) {
        trimmed_start(s.drop_first())
    } else {
        s
    }
}

/// `s` without its trailing white space.
pub open spec fn trimmed_end(s: Seq<char>) -> Seq<char>
    decreases s.len(),
{
    if s.len() > 0 && is_white_space(s.last()) {
        trimmed_end(s.drop_last())
    } else {
        s
    }
}

/// `s` without its leading and trailing white space.
pub open spec fn trimmed(s: Seq<char>) -> Seq<char> {
    trimmed_end(trimmed_start(s))
}

/// `s` without its leading and trailing white space.
pub fn trim(s: &[char]) -> (r: &[char])
    ensures
        r@ == trimmed(s@),
{
    let n = s.len();
    let mut i: usize = 0;
    assert(s@.skip(0) =~= s@);
    while i < n && white_space(s[i])
        invariant
            i <= n,
            n == s.len(),
            trimmed_start(s@) == trimmed_start(s@.skip(i as int)),
        decreases n - i,
    {
        assert(s@.skip(i as int).drop_first() =~= s@.skip(i + 1));
        i += 1;
    }
    assert(trimmed_start(s@) == s@.skip(i as int));
    let mut j: usize = n;
    while j > i && white_space(s[j - 1])
        invariant
            i <= j <= n,
            n == s.len(),
            trimmed_end(s@.skip(i as int)) == trimmed_end(s@.subrange(i as int, j as int)),
        decreases j,
    {
        assert(s@.subrange(i as int, j as int).drop_last() =~= s@.subrange(i as int, j - 1));
        j -= 1;
    }
    assert(s@.skip(i as int) =~= s@.subrange(i as int, n as int));
    slice_subrange(s, i, j)
}

pub open spec fn is_digit(c: char) -> bool {
    '0' <= c <= '9'
}

pub open spec fn all_digits(s: Seq<char>) -> bool {
    forall|i: int| 0 <= i < s.len() ==> is_digit(#[trigger] s[i])
}

/// The number that the decimal digits `s` write.
pub open spec fn decimal_value(s: Seq<char>) -> nat
    decreases s.len(),
{
    if s.len() == 0 {
        0
    } else {
        (decimal_value(s.drop_last()) * 10 + (s.last() as u32 - '0' as u32)) as nat
    }
}

/// What a text means as an unsigned 32-bit number: an optional `+`, then one
/// or more decimal digits whose value fits.
pub open spec fn parsed_u32(s: Seq<char>) -> Option<u32> {
    let d = if s.len() > 0 && s[0] == '+' {
        s.drop_first()
    } else {
        s
    };
    if d.len() > 0 && all_digits(d) && decimal_value(d) <= u32::MAX {
        Some(decimal_value(d) as u32)
    } else {
        None
    }
}

/// The digits before index `k` write no greater a number than all of them.
proof fn lemma_decimal_value_grows(s: Seq<char>, k: int)
    requires
        0 <= k <= s.len(),
        all_digits(s),
    ensures
        decimal_value(s.take(k)) <= decimal_value(s),
    decreases s.len() - k,
{
    if k == s.len() {
        assert(s.take(k) =~= s);
    } else {
        lemma_decimal_value_grows(s, k + 1);
        assert(s.take(k + 1).drop_last() =~= s.take(k));
        assert(is_digit(s[k]));
        assert(s.take(k + 1).last() == s[k]);
    }
}

/// Reads an unsigned 32-bit number.
pub fn parse_u32(s: &[char]) -> (r: Option<u32>)
    ensures
        r == parsed_u32(s@),
{
    let start: usize = if s.len() > 0 && s[0] == '+' {
        1
    } else {
        0
    };
    let d = slice_subrange(s, start, s.len());
    assert(start == 1 ==> d@ =~= s@.drop_first());
    assert(start == 0 ==> d@ =~= s@);
    if d.len() == 0 {
        return None;
    }
    let mut acc: u64 = 0;
    let mut i: usize = 0;
    while i < d.len()
        invariant
            i <= d.len(),
            d@.len() > 0,
            parsed_u32(s@) == if all_digits(d@) && decimal_value(d@) <= u32::MAX {
                Some(decimal_value(d@) as u32)
            } else {
                None
            },
            all_digits(d@.take(i as int)),
            acc == decimal_value(d@.take(i as int)),
            acc <= u32::MAX,
        decreases d.len() - i,
    {
        let c = d[i];
        if !('0' <= c && c <= '9') {
            assert(!is_digit(d@[i as int]));
            return None;
        }
        let digit: u64 = (c as u32 - '0' as u32) as u64;
        let next: u64 = acc * 10 + digit;
        proof {
            assert(d@.take(i + 1).drop_last() =~= d@.take(i as int));
            assert(d@.take(i + 1).last() == c);
            assert(next == decimal_value(d@.take(i + 1)));
            assert forall|j: int| 0 <= j < i + 1 implies is_digit(#[trigger] d@.take(i + 1)[j]) by {
                if j < i {
                    assert(d@.take(i as int)[j] == d@.take(i + 1)[j]);
                }
            }
        }
        if next > 0xFFFF_FFFF {
            proof {
                if all_digits(d@) {
                    lemma_decimal_value_grows(d@, i + 1);
                }
            }
            return None;
        }
        acc = next;
        i += 1;
    }
    assert(d@.take(i as int) =~= d@);
    Some(acc as u32)
}


/// Whether `line` begins with the text `lit`.
pub fn begins(line: &[char], lit: &str) -> (b: bool)
    ensures
        b == lit@.is_prefix_of(line@),
{
    let p = to_chars(lit);
    starts_with(line, p.as_slice())
}

/// Whether the text `lit` stands somewhere in `line`.
pub fn includes(line: &[char], lit: &str) -> (b: bool)
    ensures
        b == occurs_in(lit@, line@),
{
    let p = to_chars(lit);
    contains(line, p.as_slice())
}

/// What follows the prefix `lit` in `line`.
pub(crate) fn after_prefix<'a>(line: &'a [char], lit: &str) -> (r: &'a [char])
    requires
        lit@.is_prefix_of(line@),
    ensures
        r@ == line@.skip(lit@.len() as int),
{
    let n = lit.unicode_len();
    slice_subrange(line, n, line.len())
}


/// Index just past the last `c` in `s`, or 0 if there is none: where the
/// last of the fields that `c` cuts begins.
pub open spec fn tail_start(s: Seq<char>, c: char) -> int
    decreases s.len(),
{
    if s.len() == 0 || s.last() == c {
        s.len() as int
    } else {
        tail_start(s.drop_last(), c)
    }
}

/// `tail_start` lies within `s`.
proof fn lemma_tail_start_bounds(s: Seq<char>, c: char)
    ensures
        0 <= tail_start(s, c) <= s.len(),
    decreases s.len(),
{
    if s.len() == 0 || s.last() == c {
    } else {
        lemma_tail_start_bounds(s.drop_last(), c);
    }
}

/// Index just past the last `c` in `s`, or 0 if there is none.
pub fn find_tail(s: &[char], c: char) -> (i: usize)
    ensures
        i == tail_start(s@, c),
{
    let mut j: usize = s.len();
    assert(s@.take(j as int) =~= s@);
    while j > 0 && s[j - 1] != c
        invariant
            j <= s.len(),
            tail_start(s@, c) == tail_start(s@.take(j as int), c),
        decreases j,
    {
        assert(s@.take(j as int).drop_last() =~= s@.take(j - 1));
        j -= 1;
    }
    j
}

/// The `n`-th of the fields into which `sep` cuts `s`, counted from the
/// right, from zero; `None` if `s` has fewer fields.
pub open spec fn field_back(s: Seq<char>, sep: char, n: nat) -> Option<Seq<char>>
    decreases n,
{
    let i = tail_start(s, sep);
    if n == 0 {
        Some(s.skip(i))
    } else if i <= 0 {
        None
    } else {
        field_back(s.take(i - 1), sep, (n - 1) as nat)
    }
}

/// The `n`-th of the fields into which `sep` cuts `s`, counted from the
/// right.
pub fn nth_field_back(s: &[char], sep: char, n: usize) -> (r: Option<&[char]>)
    ensures
        r.is_some() == field_back(s@, sep, n as nat).is_some(),
        r matches Some(f) ==> Some(f@) == field_back(s@, sep, n as nat),
{
    let mut rest = s;
    let mut k: usize = n;
    loop
        invariant
            k <= n,
            field_back(rest@, sep, k as nat) == field_back(s@, sep, n as nat),
        decreases k,
    {
        let i = find_tail(rest, sep);
        proof {
            lemma_tail_start_bounds(rest@, sep);
        }
        if k == 0 {
            return Some(slice_subrange(rest, i, rest.len()));
        }
        if i == 0 {
            return None;
        }
        rest = slice_subrange(rest, 0, i - 1);
        k -= 1;
    }
}

/// What follows the last `needle` that begins at or before index `from`;
/// all of `s` if there is none.
pub open spec fn after_last_from(s: Seq<char>, needle: Seq<char>, from: int) -> Seq<char>
    decreases from + 1,
{
    if from < 0 {
        s
    } else if occurs_at(needle, s, from) {
        s.skip(from + needle.len())
    } else {
        after_last_from(s, needle, from - 1)
    }
}

/// What follows the last `needle` in `s`; all of `s` if `needle` does not
/// stand in it.
pub open spec fn after_last(s: Seq<char>, needle: Seq<char>) -> Seq<char> {
    after_last_from(s, needle, s.len() - needle.len())
}

/// What follows the last `needle` in `s`; all of `s` if `needle` does not
/// stand in it.
pub fn rest_after_last<'a>(s: &'a [char], needle: &[char]) -> (r: &'a [char])
    ensures
        r@ == after_last(s@, needle@),
{
    if needle.len() > s.len() {
        return s;
    }
    let mut i: usize = s.len() - needle.len();
    loop
        invariant
            i + needle.len() <= s.len(),
            after_last(s@, needle@) == after_last_from(s@, needle@, i as int),
        decreases i,
    {
        let window = slice_subrange(s, i, i + needle.len());
        if same_text(window, needle) {
            return slice_subrange(s, i + needle.len(), s.len());
        }
        if i == 0 {
            assert(after_last_from(s@, needle@, -1) == s@);
            return s;
        }
        i -= 1;
    }
}


/// A copy of a list of strings.
pub fn clone_texts(list: &Vec<String>) -> (r: Vec<String>)
    ensures
        r@ == list@,
{
    let mut r: Vec<String> = Vec::new();
    let mut i: usize = 0;
    while i < list.len()
        invariant
            i <= list.len(),
            r@ == list@.take(i as int),
        decreases list.len() - i,
    {
        let item = list[i].clone();
        r.push(item);
        assert(r@ =~= list@.take(i + 1));
        i += 1;
    }
    assert(list@.take(i as int) =~= list@);
    r
}

/// Whether the text `lit` is one of the strings of `list`.
pub fn has_text(list: &Vec<String>, lit: &str) -> (b: bool)
    ensures
        b == texts(list@).contains(lit@),
{
    let wanted = String::from_str(lit);
    let mut i: usize = 0;
    while i < list.len()
        invariant
            i <= list.len(),
            wanted@ == lit@,
            forall|j: int| 0 <= j < i ==> texts(list@)[j] != lit@,
        decreases list.len() - i,
    {
        if list[i] == wanted {
            assert(texts(list@)[i as int] == lit@);
            return true;
        }
        i += 1;
    }
    false
}

/// `list` with the text `flag` at its end, unless `list` holds it already.
pub open spec fn with_flag(list: Seq<Seq<char>>, flag: Seq<char>) -> Seq<Seq<char>> {
    if list.contains(flag) {
        list
    } else {
        list.push(flag)
    }
}

/// Adds `flag` to the end of `list` unless `list` holds it already.
pub fn ensure_flag(list: &mut Vec<String>, flag: &str)
    ensures
        texts(final(list)@) == with_flag(texts(old(list)@), flag@),
{
    if !has_text(list, flag) {
        let ghost before = texts(list@);
        list.push(String::from_str(flag));
        assert(texts(list@) =~= before.push(flag@));
    }
}

/// Adds the text `item` to the end of `list`.
pub fn push_text(list: &mut Vec<String>, item: String)
    ensures
        texts(final(list)@) == texts(old(list)@).push(item@),
{
    let ghost before = texts(list@);
    list.push(item);
    assert(texts(list@) =~= before.push(item@));
}

/// `head` followed by `tail`.
pub fn join(head: &str, tail: &str) -> (r: String)
    ensures
        r@ == head@ + tail@,
{
    String::from_str(head).concat(tail)
}


/// The length of the word with which `s` begins: of its leading run of
/// characters that are no white space.
pub open spec fn word_len(s: Seq<char>) -> int
    decreases s.len(),
{
    if s.len() == 0 || is_white_space(s[0]) {
        0
    } else {
        1 + word_len(s.drop_first())
    }
}

/// The first `n` words of `s`, joined by single spaces. Words are what
/// white space separates.
pub open spec fn leading_words(s: Seq<char>, n: nat) -> Seq<char>
    decreases n,
{
    let t = trimmed_start(s);
    if n == 0 || t.len() == 0 {
        Seq::empty()
    } else {
        let w = word_len(t);
        let rest = leading_words(t.skip(w), (n - 1) as nat);
        if rest.len() == 0 {
            t.take(w)
        } else {
            t.take(w) + seq![' '] + rest
        }
    }
}

/// The first `n` words of `s`, joined by single spaces.
pub fn first_words(s: &[char], n: usize) -> (r: String)
    ensures
        r@ == leading_words(s@, n as nat),
    decreases n,
{
    if n == 0 {
        return String::new();
    }
    let mut i: usize = 0;
    assert(s@.skip(0) =~= s@);
    while i < s.len() && white_space(s[i])
        invariant
            i <= s.len(),
            trimmed_start(s@) == trimmed_start(s@.skip(i as int)),
        decreases s.len() - i,
    {
        assert(s@.skip(i as int).drop_first() =~= s@.skip(i + 1));
        i += 1;
    }
    let t = slice_subrange(s, i, s.len());
    assert(t@ =~= s@.skip(i as int));
    assert(trimmed_start(s@) == t@);
    if t.len() == 0 {
        return String::new();
    }
    let mut w: usize = 0;
    assert(t@.skip(0) =~= t@);
    while w < t.len() && !white_space(t[w])
        invariant
            w <= t.len(),
            word_len(t@) == w + word_len(t@.skip(w as int)),
        decreases t.len() - w,
    {
        assert(t@.skip(w as int).drop_first() =~= t@.skip(w + 1));
        w += 1;
    }
    assert(word_len(t@) == w) by {
        if w < t.len() {
            assert(t@.skip(w as int)[0] == t@[w as int]);
        }
    }
    let word = from_chars(slice_subrange(t, 0, w));
    let rest = first_words(slice_subrange(t, w, t.len()), n - 1);
    if rest.as_str().unicode_len() == 0 {
        assert(rest@ =~= Seq::<char>::empty());
        word
    } else {
        let r = word.concat(" ").concat(rest.as_str());
        proof {
            reveal_strlit(" ");
            assert(" "@ =~= seq![' ']);
        }
        r
    }
}

} // verus!
