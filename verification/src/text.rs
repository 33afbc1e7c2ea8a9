//! Operations on text, stated over sequences of characters.
//!
//! Every function here works on the characters of a string. The specification functions come
//! first in each group, the executable function that computes them follows.
use vstd::prelude::*;

use vstd::utf8::{decode_utf8, valid_utf8};

verus! {

/// Appends one character to a string.
///
/// The contract claims of `String::push` what its documentation says: the given character is
/// added at the end and nothing else changes.
pub assume_specification[ String::push ](s: &mut String, ch: char)
    ensures
        final(s)@ == old(s)@.push(ch),
;

/// The text in bytes.
///
/// The contract claims of `String::from_utf8` what its documentation says: it gives the text
/// exactly where the bytes are UTF-8.
#[verifier::external_body]
pub(crate) fn utf8_text(bytes: Vec<u8>) -> (r: Option<String>)
    ensures
        r.deep_view() == if valid_utf8(bytes@) {
            Some(decode_utf8(bytes@))
        } else {
            None
        },
{
    String::from_utf8(bytes).ok()
}

/// Whether `c` has the Unicode `White_Space` property.
pub open spec fn is_space(c: char) -> bool {
    let u = c as u32;
    ||| 0x09 <= u <= 0x0d
    ||| u == 0x20
    ||| u == 0x85
    ||| u == 0xa0
    ||| u == 0x1680
    ||| 0x2000 <= u <= 0x200a
    ||| u == 0x2028
    ||| u == 0x2029
    ||| u == 0x202f
    ||| u == 0x205f
    ||| u == 0x3000
}

pub fn char_is_space(c: char) -> (r: bool)
    ensures
        r == is_space(c),
{
    let u: u32 = c as u32;
    (0x09 <= u && u <= 0x0d) || u == 0x20 || u == 0x85 || u == 0xa0 || u == 0x1680 || (0x2000 <= u
        && u <= 0x200a) || u == 0x2028 || u == 0x2029 || u == 0x202f || u == 0x205f || u == 0x3000
}

/// The characters of a string, in order.
pub fn chars_of(s: &str) -> (r: Vec<char>)
    ensures
        r@ == s@,
{
    let mut out: Vec<char> = Vec::new();
    for c in it: s.chars()
        invariant
            out@ == s@.take(it.index() as int),
            it.seq() == s@,
    {
        assert(s@.take(it.index() + 1) == s@.take(it.index() as int).push(c));
        out.push(c);
    }
    assert(s@.take(s@.len() as int) == s@);
    out
}

/// The string made of `chars[from..to]`.
pub fn text_from(chars: &Vec<char>, from: usize, to: usize) -> (r: String)
    requires
        from <= to <= chars@.len(),
    ensures
        r@ == chars@.subrange(from as int, to as int),
{
    let mut out = String::new();
    let mut i: usize = from;
    while i < to
        invariant
            from <= i <= to <= chars@.len(),
            out@ == chars@.subrange(from as int, i as int),
        decreases to - i,
    {
        out.push(chars[i]);
        i = i + 1;
    }
    out
}

/// Whether two strings hold the same characters.
pub fn text_eq(a: &str, b: &str) -> (r: bool)
    ensures
        r == (a@ == b@),
{
    proof {
        vstd::utf8::encode_utf8_decode_utf8(a@);
        vstd::utf8::encode_utf8_decode_utf8(b@);
    }
    let x = a.as_bytes();
    let y = b.as_bytes();
    if x.len() != y.len() {
        return false;
    }
    let mut i: usize = 0;
    while i < x.len()
        invariant
            x@.len() == y@.len(),
            i <= x@.len(),
            x@.take(i as int) == y@.take(i as int),
            x@ == vstd::utf8::encode_utf8(a@),
            y@ == vstd::utf8::encode_utf8(b@),
        decreases x@.len() - i,
    {
        if x[i] != y[i] {
            assert(x@[i as int] != y@[i as int]);
            return false;
        }
        assert(x@.take(i + 1) == x@.take(i as int).push(x@[i as int]));
        assert(y@.take(i + 1) == y@.take(i as int).push(y@[i as int]));
        i = i + 1;
    }
    assert(x@.take(x@.len() as int) == x@);
    assert(y@.take(y@.len() as int) == y@);
    true
}

/// `a` followed by `b`.
pub fn concat2(a: &str, b: &str) -> (r: String)
    ensures
        r@ == a@ + b@,
{
    let mut out = a.to_owned();
    out.append(b);
    out
}

/// `a`, `b` and `c`, one after the other.
pub fn concat3(a: &str, b: &str, c: &str) -> (r: String)
    ensures
        r@ == a@ + b@ + c@,
{
    let mut out = a.to_owned();
    out.append(b);
    out.append(c);
    out
}

// Trimming.

/// `s` without its leading characters that satisfy `drop`.
pub open spec fn trim_start_by(s: Seq<char>, drop: spec_fn(char) -> bool) -> Seq<char>
    decreases s.len(),
{
    if s.len() > 0 && drop(s[0]) {
        trim_start_by(s.skip(1), drop)
    } else {
        s
    }
}

/// `s` without its trailing characters that satisfy `drop`.
pub open spec fn trim_end_by(s: Seq<char>, drop: spec_fn(char) -> bool) -> Seq<char>
    decreases s.len(),
{
    if s.len() > 0 && drop(s.last()) {
        trim_end_by(s.drop_last(), drop)
    } else {
        s
    }
}

pub open spec fn space_pred() -> spec_fn(char) -> bool {
    |c: char| is_space(c)
}

pub open spec fn char_pred(x: char) -> spec_fn(char) -> bool {
    |c: char| c == x
}

/// `s` without leading white space.
pub open spec fn trimmed_start(s: Seq<char>) -> Seq<char> {
    trim_start_by(s, space_pred())
}

/// `s` without trailing white space.
pub open spec fn trimmed_end(s: Seq<char>) -> Seq<char> {
    trim_end_by(s, space_pred())
}

/// `s` without leading and trailing white space.
pub open spec fn trimmed(s: Seq<char>) -> Seq<char> {
    trimmed_end(trimmed_start(s))
}

/// Whether `s` holds nothing but white space.
pub open spec fn is_blank(s: Seq<char>) -> bool {
    trimmed(s).len() == 0
}

proof fn lemma_trim_start_first(s: Seq<char>, drop: spec_fn(char) -> bool)
    ensures
        trim_start_by(s, drop).len() > 0 ==> !drop(trim_start_by(s, drop)[0]),
    decreases s.len(),
{
    if s.len() > 0 && drop(s[0]) {
        lemma_trim_start_first(s.skip(1), drop);
    }
}

proof fn lemma_trim_end_last(s: Seq<char>, drop: spec_fn(char) -> bool)
    ensures
        trim_end_by(s, drop).len() <= s.len(),
        trim_end_by(s, drop) == s.take(trim_end_by(s, drop).len() as int),
        trim_end_by(s, drop).len() > 0 ==> !drop(trim_end_by(s, drop).last()),
    decreases s.len(),
{
    if s.len() > 0 && drop(s.last()) {
        lemma_trim_end_last(s.drop_last(), drop);
        let n = trim_end_by(s, drop).len() as int;
        assert(s.drop_last().take(n) =~= s.take(n));
    } else {
        assert(s.take(s.len() as int) =~= s);
    }
}

/// Trimming a trimmed text changes nothing.
pub proof fn lemma_trimmed_twice(s: Seq<char>)
    ensures
        trimmed(trimmed(s)) == trimmed(s),
        trimmed(s).len() > 0 <==> !is_blank(s),
{
    let start = trim_start_by(s, space_pred());
    let r = trimmed(s);
    lemma_trim_start_first(s, space_pred());
    lemma_trim_end_last(start, space_pred());
    if r.len() > 0 {
        assert(r[0] == start[0]);
        assert(trim_start_by(r, space_pred()) == r);
        assert(trim_end_by(r, space_pred()) == r);
    }
}

/// A text that starts with no white space starts as before when it is trimmed.
pub proof fn lemma_trimmed_first(s: Seq<char>)
    requires
        s.len() > 0,
        !is_space(s[0]),
    ensures
        trimmed(s).len() > 0 ==> trimmed(s)[0] == s[0],
{
    lemma_trim_end_last(s, space_pred());
}

/// The length of the longest prefix of `chars[from..]` made of white space.
fn skip_spaces(chars: &Vec<char>, from: usize) -> (r: usize)
    requires
        from <= chars@.len(),
    ensures
        from <= r <= chars@.len(),
        chars@.skip(r as int) == trimmed_start(chars@.skip(from as int)),
{
    let mut i: usize = from;
    while i < chars.len() && char_is_space(chars[i])
        invariant
            from <= i <= chars@.len(),
            trimmed_start(chars@.skip(i as int)) == trimmed_start(chars@.skip(from as int)),
        decreases chars@.len() - i,
    {
        assert(chars@.skip(i as int).skip(1) == chars@.skip(i + 1));
        i = i + 1;
    }
    i
}

/// The end of `chars[from..to]` once trailing white space is dropped.
fn drop_spaces(chars: &Vec<char>, from: usize, to: usize) -> (r: usize)
    requires
        from <= to <= chars@.len(),
    ensures
        from <= r <= to,
        chars@.subrange(from as int, r as int) == trimmed_end(
            chars@.subrange(from as int, to as int),
        ),
{
    let mut i: usize = to;
    while i > from && char_is_space(chars[i - 1])
        invariant
            from <= i <= to <= chars@.len(),
            trimmed_end(chars@.subrange(from as int, i as int)) == trimmed_end(
                chars@.subrange(from as int, to as int),
            ),
        decreases i,
    {
        assert(chars@.subrange(from as int, i as int).drop_last() == chars@.subrange(
            from as int,
            i - 1,
        ));
        i = i - 1;
    }
    i
}

/// `s` without leading and trailing white space.
pub fn trim(s: &str) -> (r: String)
    ensures
        r@ == trimmed(s@),
{
    let chars = chars_of(s);
    assert(chars@.skip(0) == s@);
    let from = skip_spaces(&chars, 0);
    assert(chars@.skip(from as int) == chars@.subrange(from as int, chars@.len() as int));
    let to = drop_spaces(&chars, from, chars.len());
    text_from(&chars, from, to)
}

/// `s` without trailing white space.
pub fn trim_end(s: &str) -> (r: String)
    ensures
        r@ == trimmed_end(s@),
{
    let chars = chars_of(s);
    assert(chars@.subrange(0, chars@.len() as int) == s@);
    let to = drop_spaces(&chars, 0, chars.len());
    text_from(&chars, 0, to)
}

/// Whether `s` holds nothing but white space.
pub fn blank(s: &str) -> (r: bool)
    ensures
        r == is_blank(s@),
{
    trim(s).as_str().is_empty()
}

/// `s` without the leading characters equal to `x`.
pub fn trim_start_char(s: &str, x: char) -> (r: String)
    ensures
        r@ == trim_start_by(s@, char_pred(x)),
{
    let chars = chars_of(s);
    let mut i: usize = 0;
    assert(chars@.skip(0) == s@);
    while i < chars.len() && chars[i] == x
        invariant
            i <= chars@.len(),
            trim_start_by(chars@.skip(i as int), char_pred(x)) == trim_start_by(s@, char_pred(x)),
        decreases chars@.len() - i,
    {
        assert(chars@.skip(i as int).skip(1) == chars@.skip(i + 1));
        i = i + 1;
    }
    assert(chars@.skip(i as int) == chars@.subrange(i as int, chars@.len() as int));
    text_from(&chars, i, chars.len())
}

/// `s` without the trailing characters equal to `x`.
pub fn trim_end_char(s: &str, x: char) -> (r: String)
    ensures
        r@ == trim_end_by(s@, char_pred(x)),
{
    let chars = chars_of(s);
    let mut i: usize = chars.len();
    assert(chars@.subrange(0, i as int) == s@);
    while i > 0 && chars[i - 1] == x
        invariant
            i <= chars@.len(),
            trim_end_by(chars@.subrange(0, i as int), char_pred(x)) == trim_end_by(
                s@,
                char_pred(x),
            ),
        decreases i,
    {
        assert(chars@.subrange(0, i as int).drop_last() == chars@.subrange(0, i - 1));
        i = i - 1;
    }
    text_from(&chars, 0, i)
}

/// The value of `s` when it is not blank, trimmed.
pub open spec fn non_blank(s: Option<Seq<char>>) -> Option<Seq<char>> {
    match s {
        Some(t) => if is_blank(t) {
            None
        } else {
            Some(trimmed(t))
        },
        None => None,
    }
}

/// `s` trimmed, unless that leaves nothing.
pub fn trim_non_blank(s: &str) -> (r: Option<String>)
    ensures
        r.deep_view() == non_blank(Some(s@)),
{
    let t = trim(s);
    if t.as_str().is_empty() {
        None
    } else {
        Some(t)
    }
}

// Searching.

/// Whether `p` stands in `s` at position `i`.
pub open spec fn occurs_at(s: Seq<char>, p: Seq<char>, i: int) -> bool {
    0 <= i && i + p.len() <= s.len() && s.subrange(i, i + p.len()) == p
}

/// The position of the first occurrence of `p` in `s`.
pub open spec fn find(s: Seq<char>, p: Seq<char>) -> Option<int>
    decreases s.len(),
{
    if occurs_at(s, p, 0) {
        Some(0int)
    } else if s.len() == 0 {
        None
    } else {
        match find(s.skip(1), p) {
            Some(i) => Some(i + 1),
            None => None,
        }
    }
}

/// Whether `p` stands somewhere in `s`.
pub open spec fn contains(s: Seq<char>, p: Seq<char>) -> bool {
    exists|i: int| #[trigger] occurs_at(s, p, i)
}

/// `find` gives the least position, and none exactly where `p` does not occur.
pub proof fn lemma_find(s: Seq<char>, p: Seq<char>)
    ensures
        find(s, p) is Some <==> contains(s, p),
        find(s, p) matches Some(i) ==> occurs_at(s, p, i) && forall|j: int|
            #![trigger occurs_at(s, p, j)]
            j < i ==> !occurs_at(s, p, j),
    decreases s.len(),
{
    if occurs_at(s, p, 0) {
    } else if s.len() == 0 {
        assert forall|i: int| !occurs_at(s, p, i) by {}
    } else {
        let t = s.skip(1);
        lemma_find(t, p);
        assert forall|i: int| occurs_at(t, p, i) implies occurs_at(s, p, i + 1) by {
            assert(s.subrange(i + 1, i + 1 + p.len()) == t.subrange(i, i + p.len()));
        }
        assert forall|i: int| occurs_at(s, p, i) implies i > 0 && occurs_at(t, p, i - 1) by {
            assert(i != 0);
            assert(s.subrange(i, i + p.len()) == t.subrange(i - 1, i - 1 + p.len()));
        }
        match find(t, p) {
            Some(i) => {
                assert(occurs_at(s, p, i + 1));
                assert forall|j: int| j < i + 1 implies !occurs_at(s, p, j) by {
                    if occurs_at(s, p, j) {
                        assert(occurs_at(t, p, j - 1));
                    }
                }
            },
            None => {
                assert forall|j: int| !occurs_at(s, p, j) by {
                    if occurs_at(s, p, j) {
                        assert(occurs_at(t, p, j - 1));
                    }
                }
            },
        }
    }
}

/// Whether `p` stands in `s` at position `at`.
pub fn occurs_here(s: &Vec<char>, p: &Vec<char>, at: usize) -> (r: bool)
    requires
        at <= s@.len(),
    ensures
        r == occurs_at(s@, p@, at as int),
{
    let n: usize = s.len();
    if n - at < p.len() {
        return false;
    }
    let mut i: usize = 0;
    while i < p.len()
        invariant
            n == s@.len(),
            i <= p@.len(),
            at + p@.len() <= s@.len(),
            s@.subrange(at as int, at + i) == p@.take(i as int),
        decreases p@.len() - i,
    {
        if s[at + i] != p[i] {
            assert(s@.subrange(at as int, at + p@.len())[i as int] != p@[i as int]);
            return false;
        }
        assert(s@.subrange(at as int, at + i + 1) == s@.subrange(at as int, at + i).push(
            s@[at + i],
        ));
        assert(p@.take(i + 1) == p@.take(i as int).push(p@[i as int]));
        i = i + 1;
    }
    assert(p@.take(p@.len() as int) == p@);
    true
}

/// The first occurrence of `p` in `s` at or after `from`.
pub fn find_from(s: &Vec<char>, p: &Vec<char>, from: usize) -> (r: Option<usize>)
    requires
        from <= s@.len(),
    ensures
        match r {
            Some(i) => from <= i <= s@.len() && find(s@.skip(from as int), p@) == Some(i - from),
            None => find(s@.skip(from as int), p@) is None,
        },
{
    let mut i: usize = from;
    loop
        invariant
            from <= i <= s@.len(),
            match find(s@.skip(i as int), p@) {
                Some(k) => find(s@.skip(from as int), p@) == Some(k + i - from),
                None => find(s@.skip(from as int), p@) is None,
            },
        decreases s@.len() - i,
    {
        let here = occurs_here(s, p, i);
        assert(here == occurs_at(s@.skip(i as int), p@, 0)) by {
            if i + p@.len() <= s@.len() {
                assert(s@.skip(i as int).subrange(0, p@.len() as int) == s@.subrange(
                    i as int,
                    i + p@.len(),
                ));
            }
        }
        if here {
            return Some(i);
        }
        if i == s.len() {
            return None;
        }
        assert(s@.skip(i as int).skip(1) == s@.skip(i + 1));
        i = i + 1;
    }
}

/// Whether `p` stands somewhere in `s`.
pub fn contains_text(s: &str, p: &str) -> (r: bool)
    ensures
        r == contains(s@, p@),
{
    let a = chars_of(s);
    let b = chars_of(p);
    proof {
        lemma_find(s@, p@);
        assert(a@.skip(0) == s@);
    }
    match find_from(&a, &b, 0) {
        Some(_) => true,
        None => false,
    }
}

pub open spec fn has_prefix(s: Seq<char>, p: Seq<char>) -> bool {
    occurs_at(s, p, 0)
}

pub open spec fn has_suffix(s: Seq<char>, p: Seq<char>) -> bool {
    occurs_at(s, p, s.len() - p.len())
}

pub fn starts_with(s: &str, p: &str) -> (r: bool)
    ensures
        r == has_prefix(s@, p@),
{
    let a = chars_of(s);
    let b = chars_of(p);
    occurs_here(&a, &b, 0)
}

pub fn ends_with(s: &str, p: &str) -> (r: bool)
    ensures
        r == has_suffix(s@, p@),
{
    let a = chars_of(s);
    let b = chars_of(p);
    if b.len() > a.len() {
        false
    } else {
        occurs_here(&a, &b, a.len() - b.len())
    }
}

/// What follows the prefix `p` in `s`, where it has that prefix.
pub open spec fn without_prefix(s: Seq<char>, p: Seq<char>) -> Option<Seq<char>> {
    if has_prefix(s, p) {
        Some(s.skip(p.len() as int))
    } else {
        None
    }
}

pub fn strip_prefix(s: &str, p: &str) -> (r: Option<String>)
    ensures
        r.deep_view() == without_prefix(s@, p@),
{
    let a = chars_of(s);
    let b = chars_of(p);
    if occurs_here(&a, &b, 0) {
        assert(a@.subrange(b@.len() as int, a@.len() as int) == s@.skip(p@.len() as int));
        Some(text_from(&a, b.len(), a.len()))
    } else {
        None
    }
}

/// `s` once `p` is removed from its front as often as it stands there.
pub open spec fn trim_start_text(s: Seq<char>, p: Seq<char>) -> Seq<char>
    decreases s.len(),
{
    if p.len() > 0 && has_prefix(s, p) {
        trim_start_text(s.skip(p.len() as int), p)
    } else {
        s
    }
}

/// `s` once `p` is removed from its end as often as it stands there.
pub open spec fn trim_end_text(s: Seq<char>, p: Seq<char>) -> Seq<char>
    decreases s.len(),
{
    if p.len() > 0 && has_suffix(s, p) {
        trim_end_text(s.take(s.len() - p.len()), p)
    } else {
        s
    }
}

pub fn trim_start_matches(s: &str, p: &str) -> (r: String)
    ensures
        r@ == trim_start_text(s@, p@),
{
    let a = chars_of(s);
    let b = chars_of(p);
    let n: usize = a.len();
    let mut i: usize = 0;
    assert(a@.skip(0) == s@);
    while b.len() > 0 && occurs_here(&a, &b, i)
        invariant
            n == a@.len(),
            i <= a@.len(),
            a@ == s@,
            b@ == p@,
            trim_start_text(a@.skip(i as int), p@) == trim_start_text(s@, p@),
        decreases a@.len() - i,
    {
        assert(a@.skip(i as int).subrange(0, b@.len() as int) == a@.subrange(i as int, i + b@.len()));
        assert(a@.skip(i as int).skip(b@.len() as int) == a@.skip(i + b@.len()));
        i = i + b.len();
    }
    proof {
        if i + b@.len() <= a@.len() {
            assert(a@.skip(i as int).subrange(0, b@.len() as int) == a@.subrange(
                i as int,
                i + b@.len(),
            ));
        }
        assert(a@.skip(i as int) == a@.subrange(i as int, a@.len() as int));
    }
    text_from(&a, i, a.len())
}

pub fn trim_end_matches(s: &str, p: &str) -> (r: String)
    ensures
        r@ == trim_end_text(s@, p@),
{
    let a = chars_of(s);
    let b = chars_of(p);
    let mut i: usize = a.len();
    assert(a@.take(i as int) == s@);
    while b.len() > 0 && b.len() <= i && occurs_here(&a, &b, i - b.len())
        invariant
            i <= a@.len(),
            a@ == s@,
            b@ == p@,
            trim_end_text(a@.take(i as int), p@) == trim_end_text(s@, p@),
        decreases i,
    {
        assert(a@.take(i as int).subrange(i - b@.len(), i as int) == a@.subrange(
            i - b@.len(),
            i as int,
        ));
        assert(a@.take(i as int).take(i - b@.len()) == a@.take(i - b@.len()));
        i = i - b.len();
    }
    proof {
        if b@.len() <= i {
            assert(a@.take(i as int).subrange(i - b@.len(), i as int) == a@.subrange(
                i - b@.len(),
                i as int,
            ));
        }
        assert(a@.take(i as int) == a@.subrange(0, i as int));
    }
    text_from(&a, 0, i)
}

// Splitting and joining.

/// The parts of `s` between the occurrences of `sep`, found from the left.
pub open spec fn split(s: Seq<char>, sep: Seq<char>) -> Seq<Seq<char>>
    decreases s.len(),
{
    match find(s, sep) {
        Some(i) => if sep.len() > 0 && 0 <= i && i + sep.len() <= s.len() {
            seq![s.take(i)] + split(s.skip(i + sep.len()), sep)
        } else {
            seq![s]
        },
        None => seq![s],
    }
}

pub open spec fn strip_cr(s: Seq<char>) -> Seq<char> {
    if s.len() > 0 && s.last() == '\r' {
        s.drop_last()
    } else {
        s
    }
}

/// The lines of `s`: each ends at a line feed, which may follow a carriage return, or at the end
/// of `s`.
pub open spec fn lines(s: Seq<char>) -> Seq<Seq<char>>
    decreases s.len(),
{
    if s.len() == 0 {
        seq![]
    } else {
        match find(s, seq!['\n']) {
            Some(i) => if 0 <= i < s.len() {
                seq![strip_cr(s.take(i))] + lines(s.skip(i + 1))
            } else {
                seq![s]
            },
            None => seq![s],
        }
    }
}

/// The number of characters of `s` before the first white space.
pub open spec fn word_len(s: Seq<char>) -> nat
    decreases s.len(),
{
    if s.len() == 0 || is_space(s[0]) {
        0
    } else {
        1 + word_len(s.skip(1))
    }
}

/// The words of `s`: the parts between white space.
pub open spec fn words(s: Seq<char>) -> Seq<Seq<char>>
    decreases s.len(),
{
    let n = word_len(s);
    if s.len() == 0 {
        seq![]
    } else if n == 0 || n > s.len() {
        words(s.skip(1))
    } else {
        seq![s.take(n as int)] + words(s.skip(n as int))
    }
}

/// The parts one after the other, with `sep` between them.
pub open spec fn join(parts: Seq<Seq<char>>, sep: Seq<char>) -> Seq<char>
    decreases parts.len(),
{
    if parts.len() == 0 {
        seq![]
    } else if parts.len() == 1 {
        parts[0]
    } else {
        join(parts.drop_last(), sep) + sep + parts.last()
    }
}

pub fn split_text(s: &str, sep: &str) -> (r: Vec<String>)
    requires
        sep@.len() > 0,
    ensures
        r.deep_view() == split(s@, sep@),
        r@.len() >= 1,
{
    let a = chars_of(s);
    let b = chars_of(sep);
    let mut out: Vec<String> = Vec::new();
    let n: usize = a.len();
    let mut at: usize = 0;
    assert(a@.skip(0) == s@);
    assert(out.deep_view() + split(s@, sep@) == split(s@, sep@));
    loop
        invariant
            n == a@.len(),
            at <= a@.len(),
            a@ == s@,
            b@ == sep@,
            b@.len() > 0,
            out.deep_view() + split(a@.skip(at as int), sep@) == split(s@, sep@),
        decreases a@.len() - at,
    {
        proof {
            lemma_find(a@.skip(at as int), b@);
        }
        match find_from(&a, &b, at) {
            Some(i) => {
                let part = text_from(&a, at, i);
                let ghost before = out.deep_view();
                assert(a@.subrange(at as int, i as int) == a@.skip(at as int).take(i - at));
                assert(a@.skip(at as int).skip(i - at + b@.len()) == a@.skip(i + b@.len()));
                out.push(part);
                assert(out.deep_view() == before.push(part@));
                assert(before + split(a@.skip(at as int), sep@) == out.deep_view() + split(
                    a@.skip(i + b@.len()),
                    sep@,
                ));
                at = i + b.len();
            },
            None => {
                let part = text_from(&a, at, a.len());
                let ghost before = out.deep_view();
                assert(a@.subrange(at as int, a@.len() as int) == a@.skip(at as int));
                out.push(part);
                assert(out.deep_view() == before.push(part@));
                return out;
            },
        }
    }
}

pub fn lines_of(s: &str) -> (r: Vec<String>)
    ensures
        r.deep_view() == lines(s@),
{
    let a = chars_of(s);
    let mut b: Vec<char> = Vec::new();
    b.push('\n');
    assert(b@ == seq!['\n']);
    let mut out: Vec<String> = Vec::new();
    let mut at: usize = 0;
    assert(a@.skip(0) == s@);
    assert(out.deep_view() + lines(s@) == lines(s@));
    while at < a.len()
        invariant
            at <= a@.len(),
            a@ == s@,
            b@ == seq!['\n'],
            out.deep_view() + lines(a@.skip(at as int)) == lines(s@),
        decreases a@.len() - at,
    {
        proof {
            lemma_find(a@.skip(at as int), b@);
        }
        let ghost before = out.deep_view();
        match find_from(&a, &b, at) {
            Some(i) => {
                let end: usize = if i > at && a[i - 1] == '\r' {
                    i - 1
                } else {
                    i
                };
                let part = text_from(&a, at, end);
                proof {
                    let t = a@.skip(at as int);
                    assert(a@.subrange(at as int, i as int) == t.take(i - at));
                    assert(part@ == strip_cr(t.take(i - at)));
                    assert(t.skip(i - at + 1) == a@.skip(i + 1));
                    assert(occurs_at(t, b@, i - at));
                }
                out.push(part);
                assert(out.deep_view() == before.push(part@));
                assert(before + lines(a@.skip(at as int)) == out.deep_view() + lines(
                    a@.skip(i + 1),
                ));
                at = i + 1;
            },
            None => {
                let part = text_from(&a, at, a.len());
                assert(a@.subrange(at as int, a@.len() as int) == a@.skip(at as int));
                out.push(part);
                assert(out.deep_view() == before.push(part@));
                return out;
            },
        }
    }
    assert(a@.skip(at as int) == Seq::<char>::empty());
    assert(out.deep_view() + seq![] == out.deep_view());
    out
}

pub fn words_of(s: &str) -> (r: Vec<String>)
    ensures
        r.deep_view() == words(s@),
{
    let a = chars_of(s);
    let mut out: Vec<String> = Vec::new();
    let mut at: usize = 0;
    assert(a@.skip(0) == s@);
    assert(out.deep_view() + words(s@) == words(s@));
    while at < a.len()
        invariant
            at <= a@.len(),
            a@ == s@,
            out.deep_view() + words(a@.skip(at as int)) == words(s@),
        decreases a@.len() - at,
    {
        let ghost t = a@.skip(at as int);
        let mut end: usize = at;
        while end < a.len() && !char_is_space(a[end])
            invariant
                at <= end <= a@.len(),
                t == a@.skip(at as int),
                word_len(t) == end - at + word_len(a@.skip(end as int)),
            decreases a@.len() - end,
        {
            assert(a@.skip(end as int).skip(1) == a@.skip(end + 1));
            end = end + 1;
        }
        assert(word_len(a@.skip(end as int)) == 0);
        if end == at {
            assert(t.skip(1) == a@.skip(at + 1));
            at = at + 1;
        } else {
            let ghost before = out.deep_view();
            let part = text_from(&a, at, end);
            assert(part@ == t.take(end - at));
            assert(t.skip(end - at) == a@.skip(end as int));
            out.push(part);
            assert(out.deep_view() == before.push(part@));
            assert(before + words(t) == out.deep_view() + words(a@.skip(end as int)));
            at = end;
        }
    }
    assert(a@.skip(at as int) == Seq::<char>::empty());
    assert(out.deep_view() + seq![] == out.deep_view());
    out
}

pub fn join_texts(parts: &Vec<String>, sep: &str) -> (r: String)
    ensures
        r@ == join(parts.deep_view(), sep@),
{
    let mut out = String::new();
    let ghost all = parts.deep_view();
    let mut i: usize = 0;
    while i < parts.len()
        invariant
            i <= parts@.len(),
            all == parts.deep_view(),
            out@ == join(all.take(i as int), sep@),
        decreases parts@.len() - i,
    {
        assert(all.take(i + 1).drop_last() == all.take(i as int));
        if i > 0 {
            out.append(sep);
        }
        out.append(parts[i].as_str());
        i = i + 1;
    }
    assert(all.take(all.len() as int) == all);
    out
}

/// Whether one of the texts is `s`.
pub fn has_text(texts: &Vec<String>, s: &str) -> (r: bool)
    ensures
        r == texts.deep_view().contains(s@),
{
    let mut i: usize = 0;
    while i < texts.len()
        invariant
            i <= texts@.len(),
            forall|j: int| 0 <= j < i ==> texts.deep_view()[j] != s@,
        decreases texts@.len() - i,
    {
        if text_eq(texts[i].as_str(), s) {
            assert(texts.deep_view()[i as int] == s@);
            return true;
        }
        i = i + 1;
    }
    false
}

/// The parts of `s` before and after the last occurrence of `x`.
pub open spec fn split_last(s: Seq<char>, x: char) -> Option<(Seq<char>, Seq<char>)>
    decreases s.len(),
{
    if s.len() == 0 {
        None
    } else if s.last() == x {
        Some((s.drop_last(), seq![]))
    } else {
        match split_last(s.drop_last(), x) {
            Some((before, after)) => Some((before, after.push(s.last()))),
            None => None,
        }
    }
}

/// What follows the last occurrence of `x` in `s`.
pub fn after_last(s: &str, x: char) -> (r: Option<String>)
    ensures
        match r {
            Some(t) => split_last(s@, x) matches Some((_, after)) && t@ == after,
            None => split_last(s@, x) is None,
        },
{
    let a = chars_of(s);
    let mut i: usize = a.len();
    assert(a@.take(i as int) == s@);
    assert(a@.skip(i as int) == Seq::<char>::empty());
    while i > 0
        invariant
            i <= a@.len(),
            a@ == s@,
            match split_last(a@.take(i as int), x) {
                Some((before, after)) => split_last(s@, x) == Some(
                    (before, after + a@.skip(i as int)),
                ),
                None => split_last(s@, x) is None,
            },
        decreases i,
    {
        assert(a@.take(i as int).drop_last() == a@.take(i - 1));
        if a[i - 1] == x {
            assert(a@.subrange(i as int, a@.len() as int) == Seq::<char>::empty() + a@.skip(
                i as int,
            ));
            return Some(text_from(&a, i, a.len()));
        }
        proof {
            match split_last(a@.take(i - 1), x) {
                Some((before, after)) => {
                    assert(after.push(a@[i - 1]) + a@.skip(i as int) == after + a@.skip(i - 1));
                },
                None => {},
            }
        }
        i = i - 1;
    }
    None
}

// Character classes.

/// `c` with an ASCII capital letter made small.
pub open spec fn lower_char(c: char) -> char {
    if 'A' <= c && c <= 'Z' {
        ((c as u32) + 32) as char
    } else {
        c
    }
}

/// `s` with its ASCII capital letters made small.
pub open spec fn ascii_lower(s: Seq<char>) -> Seq<char> {
    Seq::new(s.len(), |i: int| lower_char(s[i]))
}

fn lower_one(c: char) -> (r: char)
    ensures
        r == lower_char(c),
{
    if 'A' <= c && c <= 'Z' {
        let n: u8 = c as u8;
        (n + 32) as char
    } else {
        c
    }
}

pub fn to_ascii_lower(s: &str) -> (r: String)
    ensures
        r@ == ascii_lower(s@),
{
    let a = chars_of(s);
    let mut out = String::new();
    let mut i: usize = 0;
    while i < a.len()
        invariant
            i <= a@.len(),
            out@ == ascii_lower(a@.take(i as int)),
        decreases a@.len() - i,
    {
        out.push(lower_one(a[i]));
        i = i + 1;
        assert(out@ == ascii_lower(a@.take(i as int)));
    }
    assert(a@.take(a@.len() as int) == s@);
    out
}

/// The characters of `s` that do not satisfy `drop`, in order.
pub open spec fn without_chars(s: Seq<char>, drop: spec_fn(char) -> bool) -> Seq<char>
    decreases s.len(),
{
    if s.len() == 0 {
        seq![]
    } else if drop(s.last()) {
        without_chars(s.drop_last(), drop)
    } else {
        without_chars(s.drop_last(), drop).push(s.last())
    }
}

/// `s` with all white space removed.
pub fn remove_spaces(s: &str) -> (r: String)
    ensures
        r@ == without_chars(s@, space_pred()),
{
    let a = chars_of(s);
    let mut out = String::new();
    let mut i: usize = 0;
    while i < a.len()
        invariant
            i <= a@.len(),
            out@ == without_chars(a@.take(i as int), space_pred()),
        decreases a@.len() - i,
    {
        assert(a@.take(i + 1).drop_last() == a@.take(i as int));
        if !char_is_space(a[i]) {
            out.push(a[i]);
        }
        i = i + 1;
    }
    assert(a@.take(a@.len() as int) == s@);
    out
}

/// Blanks, low lines and hyphens.
pub open spec fn separator_pred() -> spec_fn(char) -> bool {
    |c: char| c == ' ' || c == '_' || c == '-'
}

/// `s` with all blanks, low lines and hyphens removed.
pub fn remove_separators(s: &str) -> (r: String)
    ensures
        r@ == without_chars(s@, separator_pred()),
{
    let a = chars_of(s);
    let mut out = String::new();
    let mut i: usize = 0;
    while i < a.len()
        invariant
            i <= a@.len(),
            out@ == without_chars(a@.take(i as int), separator_pred()),
        decreases a@.len() - i,
    {
        assert(a@.take(i + 1).drop_last() == a@.take(i as int));
        if !(a[i] == ' ' || a[i] == '_' || a[i] == '-') {
            out.push(a[i]);
        }
        i = i + 1;
    }
    assert(a@.take(a@.len() as int) == s@);
    out
}

// Numbers.

pub open spec fn digit_char(n: int) -> char {
    (48 + n) as u8 as char
}

/// `n` in decimal digits.
pub open spec fn decimal(n: nat) -> Seq<char>
    decreases n,
{
    if n < 10 {
        seq![digit_char(n as int)]
    } else {
        decimal(n / 10).push(digit_char((n % 10) as int))
    }
}

/// `n` in decimal digits, after a sign where it is negative.
pub open spec fn signed_decimal(n: int) -> Seq<char> {
    if n < 0 {
        seq!['-'] + decimal((-n) as nat)
    } else {
        decimal(n as nat)
    }
}

fn push_decimal(out: &mut String, n: u128)
    ensures
        final(out)@ == old(out)@ + decimal(n as nat),
    decreases n,
{
    if n >= 10 {
        push_decimal(out, n / 10);
    }
    let d: u8 = (n % 10) as u8;
    out.push((48 + d) as char);
    assert(out@ == old(out)@ + decimal(n as nat));
}

pub fn u64_text(n: u64) -> (r: String)
    ensures
        r@ == decimal(n as nat),
{
    let mut out = String::new();
    push_decimal(&mut out, n as u128);
    assert(Seq::<char>::empty() + decimal(n as nat) == decimal(n as nat));
    out
}

pub fn u128_text(n: u128) -> (r: String)
    ensures
        r@ == decimal(n as nat),
{
    let mut out = String::new();
    push_decimal(&mut out, n);
    assert(Seq::<char>::empty() + decimal(n as nat) == decimal(n as nat));
    out
}

pub fn i128_text(n: i128) -> (r: String)
    requires
        n > i128::MIN,
    ensures
        r@ == signed_decimal(n as int),
{
    let mut out = String::new();
    if n < 0 {
        out.push('-');
        push_decimal(&mut out, (-n) as u128);
        assert(Seq::<char>::empty().push('-') == seq!['-']);
    } else {
        push_decimal(&mut out, n as u128);
        assert(Seq::<char>::empty() + decimal(n as nat) == decimal(n as nat));
    }
    out
}

pub open spec fn is_digit(c: char) -> bool {
    '0' <= c && c <= '9'
}

/// The number that a sequence of decimal digits stands for.
pub open spec fn digits_value(s: Seq<char>) -> nat
    decreases s.len(),
{
    if s.len() == 0 {
        0
    } else {
        digits_value(s.drop_last()) * 10 + ((s.last() as nat) - 48) as nat
    }
}

pub open spec fn all_digits(s: Seq<char>) -> bool {
    forall|i: int| 0 <= i < s.len() ==> is_digit(#[trigger] s[i])
}

/// The value of `s` where it is made of decimal digits and that value is at most `max`.
pub open spec fn digits_number(s: Seq<char>, max: nat) -> Option<nat> {
    if s.len() > 0 && all_digits(s) && digits_value(s) <= max {
        Some(digits_value(s))
    } else {
        None
    }
}

/// The number written in `s`: decimal digits, after at most one plus sign, of a value up to `max`.
pub open spec fn parse_number(s: Seq<char>, max: nat) -> Option<nat> {
    if s.len() > 1 && s[0] == '+' {
        digits_number(s.skip(1), max)
    } else {
        digits_number(s, max)
    }
}

/// The decimal digits of a number stand for the number.
pub proof fn lemma_decimal_value(n: nat)
    ensures
        digits_value(decimal(n)) == n,
    decreases n,
{
    reveal_with_fuel(digits_value, 2);
    if n >= 10 {
        lemma_decimal_value(n / 10);
        assert(decimal(n).drop_last() =~= decimal(n / 10));
    }
}

/// Different numbers have different decimal digits.
pub proof fn lemma_decimals_differ(a: nat, b: nat)
    requires
        decimal(a) == decimal(b),
    ensures
        a == b,
{
    lemma_decimal_value(a);
    lemma_decimal_value(b);
}

proof fn lemma_digits_grow(s: Seq<char>, i: int)
    requires
        0 <= i <= s.len(),
    ensures
        digits_value(s.take(i)) <= digits_value(s),
    decreases s.len(),
{
    if i == s.len() {
        assert(s.take(i) == s);
    } else {
        lemma_digits_grow(s.drop_last(), i);
        assert(s.drop_last().take(i) == s.take(i));
    }
}

/// The number written in `s`, where it is one and does not exceed `max`.
pub fn parse_bounded(s: &str, max: u64) -> (r: Option<u64>)
    ensures
        match r {
            Some(n) => parse_number(s@, max as nat) == Some(n as nat),
            None => parse_number(s@, max as nat) is None,
        },
{
    let a = chars_of(s);
    let from: usize = if a.len() > 1 && a[0] == '+' {
        1
    } else {
        0
    };
    let ghost t = a@.skip(from as int);
    assert(a@.skip(0) == s@);
    if a.len() == 0 {
        return None;
    }
    let mut value: u64 = 0;
    let mut i: usize = from;
    while i < a.len()
        invariant
            from <= i <= a@.len(),
            t == a@.skip(from as int),
            forall|j: int| 0 <= j < i - from ==> is_digit(#[trigger] t[j]),
            value == digits_value(t.take(i - from)),
            value <= max,
            t.len() > 0,
            parse_number(s@, max as nat) == digits_number(t, max as nat),
        decreases a@.len() - i,
    {
        let c = a[i];
        assert(t[i - from] == c);
        if !('0' <= c && c <= '9') {
            return None;
        }
        let d: u64 = (c as u32 - 48) as u64;
        let wide: u128 = (value as u128) * 10 + (d as u128);
        proof {
            assert(t.take(i - from + 1).drop_last() == t.take(i - from));
            lemma_digits_grow(t, i - from + 1);
        }
        if wide > max as u128 {
            return None;
        }
        value = wide as u64;
        i = i + 1;
    }
    assert(t.take(t.len() as int) == t);
    Some(value)
}

pub open spec fn hex_char(n: int) -> char {
    if n < 10 {
        digit_char(n)
    } else {
        (87 + n) as u8 as char
    }
}

/// Each byte as two small hexadecimal digits.
pub open spec fn hex(bytes: Seq<u8>) -> Seq<char>
    decreases bytes.len(),
{
    if bytes.len() == 0 {
        seq![]
    } else {
        hex(bytes.drop_last()).push(hex_char((bytes.last() / 16) as int)).push(
            hex_char((bytes.last() % 16) as int),
        )
    }
}

fn hex_digit(n: u8) -> (r: char)
    requires
        n < 16,
    ensures
        r == hex_char(n as int),
{
    if n < 10 {
        (48 + n) as char
    } else {
        (87 + n) as char
    }
}

pub fn hex_text(bytes: &Vec<u8>) -> (r: String)
    ensures
        r@ == hex(bytes@),
{
    let mut out = String::new();
    let mut i: usize = 0;
    while i < bytes.len()
        invariant
            i <= bytes@.len(),
            out@ == hex(bytes@.take(i as int)),
        decreases bytes@.len() - i,
    {
        assert(bytes@.take(i + 1).drop_last() == bytes@.take(i as int));
        out.push(hex_digit(bytes[i] / 16));
        out.push(hex_digit(bytes[i] % 16));
        i = i + 1;
    }
    assert(bytes@.take(bytes@.len() as int) == bytes@);
    out
}

// Order.

/// Whether `a` comes before `b` in the order of their code points.
pub open spec fn text_lt(a: Seq<char>, b: Seq<char>) -> bool
    decreases a.len(),
{
    if b.len() == 0 {
        false
    } else if a.len() == 0 {
        true
    } else {
        a[0] < b[0] || (a[0] == b[0] && text_lt(a.skip(1), b.skip(1)))
    }
}

/// The order of texts is total.
pub proof fn lemma_lt_total(a: Seq<char>, b: Seq<char>)
    ensures
        a == b || text_lt(a, b) || text_lt(b, a),
        !(text_lt(a, b) && text_lt(b, a)),
        text_lt(a, b) ==> a != b,
    decreases a.len(),
{
    if a.len() > 0 && b.len() > 0 {
        lemma_lt_total(a.skip(1), b.skip(1));
        if a[0] == b[0] && a.skip(1) == b.skip(1) {
            assert(a == seq![a[0]] + a.skip(1));
            assert(b == seq![b[0]] + b.skip(1));
        }
    } else if a.len() == 0 && b.len() == 0 {
        assert(a == b);
    }
}

/// The order of texts is transitive.
pub proof fn lemma_lt_trans(a: Seq<char>, b: Seq<char>, c: Seq<char>)
    requires
        text_lt(a, b),
        text_lt(b, c),
    ensures
        text_lt(a, c),
    decreases a.len(),
{
    if a.len() > 0 {
        if a[0] == b[0] && b[0] == c[0] {
            lemma_lt_trans(a.skip(1), b.skip(1), c.skip(1));
        }
    }
}

/// Whether no text of `s` comes before one that stands ahead of it.
pub open spec fn is_sorted(s: Seq<Seq<char>>) -> bool {
    forall|i: int, j: int| 0 <= i < j < s.len() ==> !text_lt(#[trigger] s[j], #[trigger] s[i])
}

pub fn text_less(a: &str, b: &str) -> (r: bool)
    ensures
        r == text_lt(a@, b@),
{
    let x = chars_of(a);
    let y = chars_of(b);
    let mut i: usize = 0;
    assert(x@.skip(0) == a@);
    assert(y@.skip(0) == b@);
    loop
        invariant
            i <= x@.len(),
            i <= y@.len(),
            text_lt(x@.skip(i as int), y@.skip(i as int)) == text_lt(a@, b@),
        decreases x@.len() - i,
    {
        if i == y.len() {
            return false;
        }
        if i == x.len() {
            return true;
        }
        assert(x@.skip(i as int)[0] == x@[i as int]);
        assert(y@.skip(i as int)[0] == y@[i as int]);
        assert(x@.skip(i as int).skip(1) == x@.skip(i + 1));
        assert(y@.skip(i as int).skip(1) == y@.skip(i + 1));
        if x[i] < y[i] {
            return true;
        }
        if x[i] != y[i] {
            return false;
        }
        i = i + 1;
    }
}

pub open spec fn text_le() -> spec_fn(Seq<char>, Seq<char>) -> bool {
    |a: Seq<char>, b: Seq<char>| !text_lt(b, a)
}

/// The same texts in order.
pub open spec fn sorted(s: Seq<Seq<char>>) -> Seq<Seq<char>> {
    s.sort_by(text_le())
}

proof fn lemma_text_le()
    ensures
        vstd::relations::total_ordering(text_le()),
{
    let le = text_le();
    assert forall|a: Seq<char>, b: Seq<char>| #[trigger] le(a, b) && #[trigger] le(b, a) implies a
        == b by {
        lemma_lt_total(a, b);
    }
    assert forall|a: Seq<char>| #[trigger] le(a, a) by {
        lemma_lt_total(a, a);
    }
    assert forall|a: Seq<char>, b: Seq<char>, c: Seq<char>|
        #[trigger] le(a, b) && #[trigger] le(b, c) implies le(a, c) by {
        lemma_lt_total(a, b);
        lemma_lt_total(b, c);
        lemma_lt_total(a, c);
        if text_lt(c, a) {
            if text_lt(a, b) {
                lemma_lt_trans(c, a, b);
                lemma_lt_total(c, b);
            }
        }
    }
    assert forall|a: Seq<char>, b: Seq<char>| #[trigger] le(a, b) || #[trigger] le(b, a) by {
        lemma_lt_total(a, b);
    }
}

/// A sorted arrangement of texts is the sorted arrangement.
pub proof fn lemma_sorted_is_unique(s: Seq<Seq<char>>, t: Seq<Seq<char>>)
    requires
        is_sorted(t),
        s.to_multiset() == t.to_multiset(),
    ensures
        t == sorted(s),
{
    lemma_text_le();
    s.lemma_sort_by_ensures(text_le());
    vstd::seq_lib::lemma_sorted_unique(t, sorted(s), text_le());
}

/// Sorting keeps the texts and puts them in order.
pub proof fn lemma_sorted_keeps(s: Seq<Seq<char>>)
    ensures
        is_sorted(sorted(s)),
        sorted(s).len() == s.len(),
        sorted(s).to_multiset() == s.to_multiset(),
        s.no_duplicates() ==> sorted(s).no_duplicates(),
{
    broadcast use vstd::seq_lib::group_to_multiset_ensures;

    lemma_text_le();
    s.lemma_sort_by_ensures(text_le());
    let t = sorted(s);
    assert forall|i: int, j: int| 0 <= i < j < t.len() implies !text_lt(
        #[trigger] t[j],
        #[trigger] t[i],
    ) by {
        assert(text_le()(t[i], t[j]));
    }
    assert(t.to_multiset().len() == s.to_multiset().len());
    if s.no_duplicates() {
        s.lemma_multiset_has_no_duplicates();
        t.lemma_multiset_has_no_duplicates_conv();
    }
}

/// The same texts in order.
pub fn sort_texts(texts: Vec<String>) -> (r: Vec<String>)
    ensures
        r.deep_view() == sorted(texts.deep_view()),
        is_sorted(r.deep_view()),
        r.deep_view().to_multiset() == texts.deep_view().to_multiset(),
{
    broadcast use vstd::seq_lib::group_to_multiset_ensures;

    let mut out: Vec<String> = Vec::new();
    let mut rest = texts;
    let ghost all = texts.deep_view().to_multiset();
    assert(out.deep_view() == Seq::<Seq<char>>::empty());
    assert(Seq::<Seq<char>>::empty().to_multiset() =~= vstd::multiset::Multiset::empty());
    while rest.len() > 0
        invariant
            is_sorted(out.deep_view()),
            out.deep_view().to_multiset().add(rest.deep_view().to_multiset()) =~= all,
        decreases rest@.len(),
    {
        let ghost before_rest = rest.deep_view();
        let item = match rest.pop() {
            Some(item) => item,
            None => String::new(),
        };
        assert(before_rest == rest.deep_view().push(item@));
        let mut k: usize = out.len();
        while k > 0 && text_less(item.as_str(), out[k - 1].as_str())
            invariant
                k <= out@.len(),
                forall|j: int| k <= j < out@.len() ==> text_lt(item@, #[trigger] out@[j]@),
            decreases k,
        {
            k = k - 1;
        }
        let ghost before = out.deep_view();
        out.insert(k, item);
        proof {
            broadcast use vstd::seq_lib::group_to_multiset_ensures;

            assert(out.deep_view() == before.insert(k as int, item@));
            assert(before.insert(k as int, item@).to_multiset() =~= before.to_multiset().insert(
                item@,
            ));
            assert(rest.deep_view().push(item@).to_multiset() =~= rest.deep_view().to_multiset().insert(
                item@,
            ));
            lemma_insert_sorted(before, k as int, item@);
        }
    }
    assert(rest.deep_view() == Seq::<Seq<char>>::empty());
    assert(out.deep_view().to_multiset() =~= all);
    proof {
        lemma_sorted_is_unique(texts.deep_view(), out.deep_view());
    }
    out
}

proof fn lemma_insert_sorted(s: Seq<Seq<char>>, k: int, x: Seq<char>)
    requires
        is_sorted(s),
        0 <= k <= s.len(),
        k > 0 ==> !text_lt(x, s[k - 1]),
        forall|j: int| k <= j < s.len() ==> text_lt(x, #[trigger] s[j]),
    ensures
        is_sorted(s.insert(k, x)),
{
    let t = s.insert(k, x);
    assert forall|i: int, j: int| 0 <= i < j < t.len() implies !text_lt(
        #[trigger] t[j],
        #[trigger] t[i],
    ) by {
        if i == k {
            lemma_lt_total(x, s[j - 1]);
        } else if j == k {
            if text_lt(x, s[i]) {
                lemma_lt_total(s[i], s[k - 1]);
                if i < k - 1 {
                    assert(!text_lt(s[k - 1], s[i]));
                    if text_lt(s[i], s[k - 1]) {
                        lemma_lt_trans(x, s[i], s[k - 1]);
                    }
                }
            }
        }
    }
}

// Choosing.

pub open spec fn nonblank_pred() -> spec_fn(Seq<char>) -> bool {
    |s: Seq<char>| !is_blank(s)
}

/// The lines of a text that are not blank.
pub open spec fn nonblank_lines(s: Seq<char>) -> Seq<Seq<char>> {
    lines(s).filter(nonblank_pred())
}

/// The texts that are not blank.
pub fn keep_nonblank(texts: Vec<String>) -> (r: Vec<String>)
    ensures
        r.deep_view() == texts.deep_view().filter(nonblank_pred()),
{
    let ghost all = texts.deep_view();
    let mut out: Vec<String> = Vec::new();
    let mut i: usize = 0;
    proof {
        reveal(Seq::filter);
        assert(all.take(0) =~= Seq::empty());
        assert(out.deep_view() =~= Seq::empty());
    }
    while i < texts.len()
        invariant
            i <= texts@.len(),
            all == texts.deep_view(),
            out.deep_view() == all.take(i as int).filter(nonblank_pred()),
        decreases texts@.len() - i,
    {
        let ghost before = out.deep_view();
        proof {
            reveal(Seq::filter);
            assert(all.take(i + 1).drop_last() =~= all.take(i as int));
            assert(all.take(i + 1).last() == texts@[i as int]@);
        }
        if !blank(texts[i].as_str()) {
            out.push(texts[i].clone());
            assert(out.deep_view() =~= before.push(texts@[i as int]@));
        }
        i = i + 1;
    }
    assert(all.take(i as int) =~= all);
    out
}

pub fn nonblank_lines_of(s: &str) -> (r: Vec<String>)
    ensures
        r.deep_view() == nonblank_lines(s@),
{
    keep_nonblank(lines_of(s))
}

/// The lines of a text that are not blank, trimmed.
pub open spec fn trimmed_lines(s: Seq<char>) -> Seq<Seq<char>> {
    nonblank_lines(s).map_values(|line: Seq<char>| trimmed(line))
}

pub fn trimmed_lines_of(s: &str) -> (r: Vec<String>)
    ensures
        r.deep_view() == trimmed_lines(s@),
{
    let lines = nonblank_lines_of(s);
    let mut out: Vec<String> = Vec::new();
    let mut i: usize = 0;
    while i < lines.len()
        invariant
            i <= lines@.len(),
            out@.len() == i,
            forall|j: int| 0 <= j < i ==> (#[trigger] out@[j])@ == trimmed(lines@[j]@),
        decreases lines@.len() - i,
    {
        out.push(trim(lines[i].as_str()));
        i = i + 1;
    }
    assert(out.deep_view() =~= trimmed_lines(s@));
    out
}

/// The characters from `from` on.
pub open spec fn skip_chars(s: Seq<char>, n: int) -> Seq<char> {
    if n <= s.len() {
        s.skip(n)
    } else {
        Seq::empty()
    }
}

/// At most the first `n` characters.
pub open spec fn take_chars(s: Seq<char>, n: int) -> Seq<char> {
    if n <= s.len() {
        s.take(n)
    } else {
        s
    }
}

pub fn chars_from(s: &str, n: usize) -> (r: String)
    ensures
        r@ == skip_chars(s@, n as int),
{
    let chars = chars_of(s);
    if n <= chars.len() {
        let r = text_from(&chars, n, chars.len());
        assert(r@ =~= s@.skip(n as int));
        r
    } else {
        String::new()
    }
}

pub fn chars_to(s: &str, n: usize) -> (r: String)
    ensures
        r@ == take_chars(s@, n as int),
{
    let chars = chars_of(s);
    let end: usize = if n <= chars.len() { n } else { chars.len() };
    let r = text_from(&chars, 0, end);
    assert(r@ =~= take_chars(s@, n as int));
    r
}

// Laws of splitting, joining and words.

/// Whether no character is white space.
pub open spec fn no_space(s: Seq<char>) -> bool {
    forall|i: int| 0 <= i < s.len() ==> !is_space(#[trigger] s[i])
}

proof fn lemma_join_cons(first: Seq<char>, rest: Seq<Seq<char>>, sep: Seq<char>)
    requires
        rest.len() > 0,
    ensures
        join(seq![first] + rest, sep) == first + sep + join(rest, sep),
    decreases rest.len(),
{
    let parts = seq![first] + rest;
    assert(parts.last() == rest.last());
    if rest.len() == 1 {
        assert(parts.drop_last() =~= seq![first]);
        assert(join(seq![first], sep) == first);
        assert(join(rest, sep) == rest.last());
    } else {
        assert(parts.drop_last() =~= seq![first] + rest.drop_last());
        lemma_join_cons(first, rest.drop_last(), sep);
        assert(join(parts, sep) =~= first + sep + join(rest, sep));
    }
}

/// Joining the parts of a split text with the separator gives the text back.
pub proof fn lemma_join_split(s: Seq<char>, sep: Seq<char>)
    requires
        sep.len() > 0,
    ensures
        join(split(s, sep), sep) == s,
        split(s, sep).len() > 0,
    decreases s.len(),
{
    lemma_find(s, sep);
    match find(s, sep) {
        Some(i) => {
            if 0 <= i && i + sep.len() <= s.len() {
                let rest = s.skip(i + sep.len());
                lemma_join_split(rest, sep);
                lemma_join_cons(s.take(i), split(rest, sep), sep);
                assert(s.subrange(i, i + sep.len()) =~= sep);
                assert(s =~= s.take(i) + sep + rest);
            }
        },
        None => {},
    }
}

proof fn lemma_join_no_space(parts: Seq<Seq<char>>, sep: Seq<char>)
    requires
        no_space(sep),
        forall|i: int| 0 <= i < parts.len() ==> no_space(#[trigger] parts[i]),
    ensures
        no_space(join(parts, sep)),
    decreases parts.len(),
{
    if parts.len() > 1 {
        let rest = parts.drop_last();
        assert forall|i: int| 0 <= i < rest.len() implies no_space(#[trigger] rest[i]) by {
            assert(rest[i] == parts[i]);
        }
        lemma_join_no_space(rest, sep);
        assert(no_space(parts.last()));
    } else if parts.len() == 1 {
        assert(no_space(parts[0]));
    }
}

proof fn lemma_word_len(s: Seq<char>)
    ensures
        word_len(s) <= s.len(),
        no_space(s.take(word_len(s) as int)),
        no_space(s) ==> word_len(s) == s.len(),
    decreases s.len(),
{
    if s.len() > 0 && !is_space(s[0]) {
        lemma_word_len(s.skip(1));
        let n = word_len(s) as int;
        assert forall|i: int| 0 <= i < n implies !is_space(#[trigger] s.take(n)[i]) by {
            if i > 0 {
                assert(s.take(n)[i] == s.skip(1).take(n - 1)[i - 1]);
            }
        }
        if no_space(s) {
            assert(no_space(s.skip(1)));
        }
    }
}

proof fn lemma_words_no_space(s: Seq<char>)
    ensures
        forall|i: int| 0 <= i < words(s).len() ==> no_space(#[trigger] words(s)[i]),
        no_space(s) && s.len() > 0 ==> words(s) == seq![s],
    decreases s.len(),
{
    lemma_word_len(s);
    let n = word_len(s);
    if s.len() > 0 {
        if n == 0 {
            lemma_words_no_space(s.skip(1));
            assert(words(s) == words(s.skip(1)));
        } else {
            let rest = words(s.skip(n as int));
            lemma_words_no_space(s.skip(n as int));
            assert(words(s) == seq![s.take(n as int)] + rest);
            assert forall|i: int| 0 <= i < words(s).len() implies no_space(
                #[trigger] words(s)[i],
            ) by {
                if i > 0 {
                    assert(words(s)[i] == rest[i - 1]);
                }
            }
            if no_space(s) {
                assert(s.skip(n as int) =~= Seq::empty());
                assert(s.take(n as int) =~= s);
                assert(words(s) =~= seq![s]);
            }
        }
    }
}

/// The words of a text, joined by what holds no white space, hold none.
pub proof fn lemma_joined_words(s: Seq<char>, sep: Seq<char>)
    requires
        no_space(sep),
    ensures
        no_space(join(words(s), sep)),
        no_space(s) ==> join(words(s), sep) == s,
{
    lemma_words_no_space(s);
    lemma_join_no_space(words(s), sep);
    if no_space(s) {
        if s.len() == 0 {
            assert(words(s) =~= Seq::empty());
            assert(join(words(s), sep) =~= s);
        } else {
            assert(join(seq![s], sep) == s);
        }
    }
}

/// The parts of a text that holds no white space hold none.
pub proof fn lemma_split_no_space(s: Seq<char>, sep: Seq<char>)
    requires
        no_space(s),
    ensures
        forall|i: int| 0 <= i < split(s, sep).len() ==> no_space(#[trigger] split(s, sep)[i]),
    decreases s.len(),
{
    match find(s, sep) {
        Some(i) => {
            if sep.len() > 0 && 0 <= i && i + sep.len() <= s.len() {
                let rest = s.skip(i + sep.len());
                assert(no_space(rest));
                assert(no_space(s.take(i)));
                lemma_split_no_space(rest, sep);
                assert(split(s, sep) == seq![s.take(i)] + split(rest, sep));
                assert forall|j: int| 0 <= j < split(s, sep).len() implies no_space(
                    #[trigger] split(s, sep)[j],
                ) by {
                    if j > 0 {
                        assert(split(s, sep)[j] == split(rest, sep)[j - 1]);
                    }
                }
            }
        },
        None => {},
    }
}

/// Joined parts hold no white space where neither they nor the separator do.
pub proof fn lemma_joined_parts(parts: Seq<Seq<char>>, sep: Seq<char>)
    requires
        no_space(sep),
        forall|i: int| 0 <= i < parts.len() ==> no_space(#[trigger] parts[i]),
    ensures
        no_space(join(parts, sep)),
{
    lemma_join_no_space(parts, sep);
}

/// A text that holds no white space is trimmed.
pub proof fn lemma_no_space_trimmed(s: Seq<char>)
    requires
        no_space(s),
    ensures
        trimmed(s) == s,
{
    if s.len() > 0 {
        assert(trim_start_by(s, space_pred()) == s);
        assert(trim_end_by(s, space_pred()) == s);
    }
}

} // verus!
