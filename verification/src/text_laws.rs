//! What texts are cut into, and what is read from them.
use vstd::prelude::*;

use crate::json::{JsonView, NumberView};
use crate::text::{
    all_digits, ascii_lower, contains, decimal, digit_char, find, has_prefix, has_suffix, hex,
    hex_char, is_blank, is_digit, is_sorted, is_space, join, lemma_decimal_value, lemma_find,
    lemma_join_split, lemma_sorted_keeps, lines, nonblank_lines, nonblank_pred, occurs_at,
    parse_number, signed_decimal, skip_chars, sorted, space_pred, split, split_last, take_chars,
    text_lt, trim_end_by, trim_end_text, trim_start_by, trim_start_text, trimmed, without_chars,
    without_prefix, word_len, words,
};

verus! {

// Trimming.

proof fn lemma_trim_start(s: Seq<char>, drop: spec_fn(char) -> bool)
    ensures
        exists|i: int|
            {
                &&& 0 <= i <= s.len()
                &&& trim_start_by(s, drop) == #[trigger] s.skip(i)
                &&& forall|k: int| 0 <= k < i ==> drop(#[trigger] s[k])
                &&& i < s.len() ==> !drop(s[i])
            },
    decreases s.len(),
{
    if s.len() > 0 && drop(s[0]) {
        let t = s.skip(1);
        lemma_trim_start(t, drop);
        let i = choose|i: int|
            {
                &&& 0 <= i <= t.len()
                &&& trim_start_by(t, drop) == #[trigger] t.skip(i)
                &&& forall|k: int| 0 <= k < i ==> drop(#[trigger] t[k])
                &&& i < t.len() ==> !drop(t[i])
            };
        assert(t.skip(i) =~= s.skip(i + 1));
        assert forall|k: int| 0 <= k < i + 1 implies drop(#[trigger] s[k]) by {
            if k > 0 {
                assert(s[k] == t[k - 1]);
            }
        }
    } else {
        assert(s.skip(0) =~= s);
    }
}

proof fn lemma_trim_end(s: Seq<char>, drop: spec_fn(char) -> bool)
    ensures
        exists|i: int|
            {
                &&& 0 <= i <= s.len()
                &&& trim_end_by(s, drop) == #[trigger] s.take(i)
                &&& forall|k: int| i <= k < s.len() ==> drop(#[trigger] s[k])
                &&& i > 0 ==> !drop(s[i - 1])
            },
    decreases s.len(),
{
    if s.len() > 0 && drop(s.last()) {
        let t = s.drop_last();
        lemma_trim_end(t, drop);
        let i = choose|i: int|
            {
                &&& 0 <= i <= t.len()
                &&& trim_end_by(t, drop) == #[trigger] t.take(i)
                &&& forall|k: int| i <= k < t.len() ==> drop(#[trigger] t[k])
                &&& i > 0 ==> !drop(t[i - 1])
            };
        assert(t.take(i) =~= s.take(i));
        assert forall|k: int| i <= k < s.len() implies drop(#[trigger] s[k]) by {
            if k < t.len() {
                assert(s[k] == t[k]);
            }
        }
    } else {
        assert(s.take(s.len() as int) =~= s);
    }
}

/// A trimmed text is the text between the white space at its ends, all of which is gone.
pub proof fn law_trimming_takes_the_space_around(s: Seq<char>)
    ensures
        exists|i: int, j: int|
            {
                &&& 0 <= i <= j <= s.len()
                &&& trimmed(s) == #[trigger] s.subrange(i, j)
                &&& forall|k: int| (0 <= k < i || j <= k < s.len()) ==> is_space(#[trigger] s[k])
                &&& i < j ==> !is_space(s[i]) && !is_space(s[j - 1])
            },
{
    let p = space_pred();
    lemma_trim_start(s, p);
    let i = choose|i: int|
        {
            &&& 0 <= i <= s.len()
            &&& trim_start_by(s, p) == #[trigger] s.skip(i)
            &&& forall|k: int| 0 <= k < i ==> p(#[trigger] s[k])
            &&& i < s.len() ==> !p(s[i])
        };
    let t = s.skip(i);
    lemma_trim_end(t, p);
    let n = choose|n: int|
        {
            &&& 0 <= n <= t.len()
            &&& trim_end_by(t, p) == #[trigger] t.take(n)
            &&& forall|k: int| n <= k < t.len() ==> p(#[trigger] t[k])
            &&& n > 0 ==> !p(t[n - 1])
        };
    assert(t.take(n) =~= s.subrange(i, i + n));
    assert forall|k: int| (0 <= k < i || i + n <= k < s.len()) implies is_space(#[trigger] s[k]) by {
        if k >= i {
            assert(s[k] == t[k - i]);
            assert(p(t[k - i]));
        } else {
            assert(p(s[k]));
        }
    }
    if n > 0 {
        assert(s[i] == t[0] && s[i + n - 1] == t[n - 1]);
    }
}

/// A text is blank exactly if it holds nothing but white space.
pub proof fn law_blank_is_only_space(s: Seq<char>)
    ensures
        is_blank(s) <==> forall|k: int| 0 <= k < s.len() ==> is_space(#[trigger] s[k]),
{
    law_trimming_takes_the_space_around(s);
    let (i, j) = choose|i: int, j: int|
        {
            &&& 0 <= i <= j <= s.len()
            &&& trimmed(s) == #[trigger] s.subrange(i, j)
            &&& forall|k: int| (0 <= k < i || j <= k < s.len()) ==> is_space(#[trigger] s[k])
            &&& i < j ==> !is_space(s[i]) && !is_space(s[j - 1])
        };
    if i < j {
        assert(!is_space(s[i]));
    }
}

/// White space is what Unicode says; the common forms of it are.
pub proof fn law_common_spaces()
    ensures
        is_space(' '),
        is_space('\t'),
        is_space('\n'),
        is_space('\r'),
        forall|c: char| '!' <= c && c <= '~' ==> !#[trigger] is_space(c),
{
}

// Cutting.

/// A text is cut at each place where the separator stands.
pub proof fn law_text_is_cut_at_a_character(a: Seq<char>, x: char, b: Seq<char>)
    requires
        !a.contains(x),
    ensures
        split(a + seq![x] + b, seq![x]) == seq![a] + split(b, seq![x]),
        split(a, seq![x]) == seq![a],
{
    let sep = seq![x];
    let s = a + sep + b;
    lemma_find(s, sep);
    assert(s.subrange(a.len() as int, (a.len() + 1) as int) =~= sep);
    assert(occurs_at(s, sep, a.len() as int));
    let i = find(s, sep)->0;
    assert(s.subrange(i, i + 1)[0] == s[i]);
    if i < a.len() {
        assert(a[i] == x);
    }
    assert(i == a.len());
    assert(s.take(i) =~= a);
    assert(s.skip(i + 1) =~= b);
    lemma_find(a, sep);
    if contains(a, sep) {
        let k = find(a, sep)->0;
        assert(a.subrange(k, k + 1)[0] == a[k]);
    }
}

/// A text that the separator does not stand in is not cut, and the parts of one that is, with the
/// separator between them, are the text.
pub proof fn law_parts_make_the_text(s: Seq<char>, sep: Seq<char>)
    requires
        sep.len() > 0,
    ensures
        join(split(s, sep), sep) == s,
        !contains(s, sep) ==> split(s, sep) == seq![s],
        contains(s, sep) ==> split(s, sep).len() > 1,
        forall|i: int|
            0 <= i < split(s, sep).len() ==> !contains(#[trigger] split(s, sep)[i], sep),
    decreases s.len(),
{
    lemma_join_split(s, sep);
    lemma_find(s, sep);
    if let Some(i) = find(s, sep) {
        let rest = s.skip(i + sep.len());
        law_parts_make_the_text(rest, sep);
        lemma_join_split(rest, sep);
        let first = s.take(i);
        if contains(first, sep) {
            let k = choose|k: int| occurs_at(first, sep, k);
            assert(first.subrange(k, k + sep.len()) =~= s.subrange(k, k + sep.len()));
            assert(occurs_at(s, sep, k));
        }
        assert(split(s, sep) == seq![first] + split(rest, sep));
        assert forall|j: int| 0 <= j < split(s, sep).len() implies !contains(
            #[trigger] split(s, sep)[j],
            sep,
        ) by {
            if j > 0 {
                assert(split(s, sep)[j] == split(rest, sep)[j - 1]);
            }
        }
    }
}

/// The last part of a text that is cut is what stands behind the last separator.
pub proof fn law_last_piece_of_a_text(a: Seq<char>, x: char, b: Seq<char>)
    requires
        !b.contains(x),
    ensures
        split(a + seq![x] + b, seq![x]) == split(a, seq![x]).push(b),
    decreases a.len(),
{
    let sep = seq![x];
    if a.contains(x) {
        lemma_find(a, sep);
        let k = choose|k: int| 0 <= k < a.len() && a[k] == x;
        assert(a.subrange(k, k + 1) =~= sep);
        assert(occurs_at(a, sep, k));
        let i = find(a, sep)->0;
        assert(a.subrange(i, i + 1)[0] == a[i]);
        let front = a.take(i);
        let rest = a.skip(i + 1);
        if front.contains(x) {
            let j = choose|j: int| 0 <= j < front.len() && front[j] == x;
            assert(a.subrange(j, j + 1) =~= sep);
            assert(occurs_at(a, sep, j));
        }
        assert(a =~= front + sep + rest);
        assert(a + sep + b =~= front + sep + (rest + sep + b));
        law_text_is_cut_at_a_character(front, x, rest);
        law_text_is_cut_at_a_character(front, x, rest + sep + b);
        law_last_piece_of_a_text(rest, x, b);
        assert(seq![front] + split(rest, sep).push(b) =~= (seq![front] + split(rest, sep)).push(
            b,
        ));
    } else {
        law_text_is_cut_at_a_character(a, x, b);
        law_text_is_cut_at_a_character(b, x, Seq::empty());
        assert(seq![a] + seq![b] =~= seq![a].push(b));
    }
}

/// A line ends at a line feed; a carriage return in front of it belongs to the end.
pub proof fn law_lines_end_at_line_feeds(a: Seq<char>, b: Seq<char>)
    requires
        !a.contains('\n'),
    ensures
        a.len() == 0 || a.last() != '\r' ==> lines(a + seq!['\n'] + b) == seq![a] + lines(b),
        lines(a + seq!['\r', '\n'] + b) == seq![a] + lines(b),
        a.len() > 0 ==> lines(a) == seq![a],
        lines(Seq::empty()) == Seq::<Seq<char>>::empty(),
{
    lemma_first_line(a, b);
    let c = a.push('\r');
    assert forall|k: int| 0 <= k < c.len() implies c[k] != '\n' by {
        if k < a.len() {
            assert(c[k] == a[k]);
        }
    }
    lemma_first_line(c, b);
    assert(c + seq!['\n'] + b =~= a + seq!['\r', '\n'] + b);
    assert(c.drop_last() =~= a);
    lemma_find(a, seq!['\n']);
    if contains(a, seq!['\n']) {
        let k = find(a, seq!['\n'])->0;
        assert(a.subrange(k, k + 1)[0] == a[k]);
    }
    assert(lines(Seq::empty()) =~= Seq::<Seq<char>>::empty());
}

proof fn lemma_first_line(a: Seq<char>, b: Seq<char>)
    requires
        !a.contains('\n'),
    ensures
        lines(a + seq!['\n'] + b) == seq![crate::text::strip_cr(a)] + lines(b),
{
    let sep = seq!['\n'];
    let s = a + sep + b;
    lemma_find(s, sep);
    assert(s.subrange(a.len() as int, (a.len() + 1) as int) =~= sep);
    assert(occurs_at(s, sep, a.len() as int));
    let i = find(s, sep)->0;
    assert(s.subrange(i, i + 1)[0] == s[i]);
    if i < a.len() {
        assert(a[i] == '\n');
    }
    assert(i == a.len());
    assert(s.take(i) =~= a);
    assert(s.skip(i + 1) =~= b);
}

/// The lines that are not blank are the lines, without the blank ones, in order.
pub proof fn law_blank_lines_do_not_count(s: Seq<char>)
    ensures
        nonblank_lines(s) == lines(s).filter(|line: Seq<char>| !is_blank(line)),
        forall|i: int|
            0 <= i < nonblank_lines(s).len() ==> !is_blank(#[trigger] nonblank_lines(s)[i])
                && lines(s).contains(nonblank_lines(s)[i]),
{
    broadcast use vstd::seq_lib::group_filter_ensures;

    let p = nonblank_pred();
    let q = |line: Seq<char>| !is_blank(line);
    assert(p =~= q) by {
        assert forall|line: Seq<char>| #[trigger] p(line) == q(line) by {}
    }
    assert forall|i: int| 0 <= i < nonblank_lines(s).len() implies !is_blank(
        #[trigger] nonblank_lines(s)[i],
    ) && lines(s).contains(nonblank_lines(s)[i]) by {
        assert(p(lines(s).filter(p)[i]));
        lemma_filtered(lines(s), p, i);
    }
}

proof fn lemma_filtered(s: Seq<Seq<char>>, p: spec_fn(Seq<char>) -> bool, i: int)
    requires
        0 <= i < s.filter(p).len(),
    ensures
        s.contains(s.filter(p)[i]),
    decreases s.len(),
{
    reveal(Seq::filter);
    if s.len() > 0 {
        let t = s.drop_last();
        if p(s.last()) && i == t.filter(p).len() {
            assert(s[s.len() - 1] == s.filter(p)[i]);
        } else {
            lemma_filtered(t, p, i);
            let k = choose|k: int| 0 <= k < t.len() && t[k] == t.filter(p)[i];
            assert(s[k] == s.filter(p)[i]);
        }
    }
}

proof fn lemma_word(w: Seq<char>, rest: Seq<char>)
    requires
        forall|k: int| 0 <= k < w.len() ==> !is_space(#[trigger] w[k]),
        rest.len() == 0 || is_space(rest[0]),
    ensures
        word_len(w + rest) == w.len(),
    decreases w.len(),
{
    if w.len() > 0 {
        let t = w.skip(1);
        assert forall|k: int| 0 <= k < t.len() implies !is_space(#[trigger] t[k]) by {
            assert(t[k] == w[k + 1]);
        }
        lemma_word(t, rest);
        assert((w + rest).skip(1) =~= t + rest);
        assert((w + rest)[0] == w[0]);
    } else {
        assert(w + rest =~= rest);
    }
}

/// The words of a text are what stands between its white space.
pub proof fn law_words_stand_between_spaces(w: Seq<char>, x: char, rest: Seq<char>)
    requires
        w.len() > 0,
        forall|k: int| 0 <= k < w.len() ==> !is_space(#[trigger] w[k]),
        is_space(x),
    ensures
        words(w) == seq![w],
        words(w + seq![x] + rest) == seq![w] + words(rest),
        words(seq![x] + rest) == words(rest),
        words(Seq::empty()) == Seq::<Seq<char>>::empty(),
{
    lemma_word(w, Seq::empty());
    assert(w + Seq::<char>::empty() =~= w);
    assert(w.take(w.len() as int) =~= w);
    assert(w.skip(w.len() as int) =~= Seq::empty());
    assert(words(Seq::empty()) =~= Seq::<Seq<char>>::empty());
    assert(words(w) =~= seq![w]);
    let tail = seq![x] + rest;
    lemma_word(w, tail);
    let s = w + seq![x] + rest;
    assert(s =~= w + tail);
    assert(s.take(w.len() as int) =~= w);
    assert(s.skip(w.len() as int) =~= tail);
    assert(word_len(tail) == 0);
    assert(tail.skip(1) =~= rest);
    assert(words(tail) == words(rest));
}

/// The last part of a text is what stands behind the last separator.
pub proof fn law_last_part_of_a_text(a: Seq<char>, x: char, b: Seq<char>)
    requires
        !b.contains(x),
    ensures
        split_last(a + seq![x] + b, x) == Some((a, b)),
        split_last(b, x) is None,
    decreases b.len(),
{
    let s = a + seq![x] + b;
    if b.len() == 0 {
        assert(s.drop_last() =~= a);
        assert(b =~= Seq::empty());
    } else {
        let c = b.drop_last();
        assert forall|k: int| 0 <= k < c.len() implies c[k] != x by {
            assert(c[k] == b[k]);
        }
        assert(b[b.len() - 1] != x);
        law_last_part_of_a_text(a, x, c);
        assert(s.drop_last() =~= a + seq![x] + c);
        assert(c.push(b.last()) =~= b);
    }
}

/// A text is taken from the ends of another as often as it stands there.
pub proof fn law_ends_are_taken_off(s: Seq<char>, p: Seq<char>)
    requires
        p.len() > 0,
    ensures
        trim_end_text(s + p, p) == trim_end_text(s, p),
        trim_start_text(p + s, p) == trim_start_text(s, p),
        !has_suffix(s, p) ==> trim_end_text(s, p) == s,
        !has_prefix(s, p) ==> trim_start_text(s, p) == s,
{
    assert((s + p).subrange((s + p).len() - p.len(), (s + p).len() as int) =~= p);
    assert((s + p).take((s + p).len() - p.len()) =~= s);
    assert((p + s).subrange(0, p.len() as int) =~= p);
    assert((p + s).skip(p.len() as int) =~= s);
}

/// What follows a prefix is the rest of the text.
pub proof fn law_rest_behind_a_prefix(p: Seq<char>, s: Seq<char>)
    ensures
        without_prefix(p + s, p) == Some(s),
        has_prefix(p + s, p),
        has_suffix(s + p, p),
        contains(s + p, p),
{
    assert((p + s).subrange(0, p.len() as int) =~= p);
    assert((p + s).skip(p.len() as int) =~= s);
    assert((s + p).subrange((s + p).len() - p.len(), (s + p).len() as int) =~= p);
    assert(occurs_at(s + p, p, s.len() as int));
}

/// The first characters and the others make the text.
pub proof fn law_characters_are_counted(s: Seq<char>, n: int)
    requires
        0 <= n,
    ensures
        take_chars(s, n) + skip_chars(s, n) == s,
        n <= s.len() ==> take_chars(s, n).len() == n,
        n > s.len() ==> skip_chars(s, n).len() == 0,
{
    assert(take_chars(s, n) + skip_chars(s, n) =~= s);
}

// Numbers.

proof fn lemma_decimal_digits(n: nat)
    ensures
        decimal(n).len() > 0,
        all_digits(decimal(n)),
    decreases n,
{
    if n >= 10 {
        lemma_decimal_digits(n / 10);
        let front = decimal(n / 10);
        assert forall|i: int| 0 <= i < decimal(n).len() implies is_digit(#[trigger] decimal(n)[i]) by {
            if i < front.len() {
                assert(decimal(n)[i] == front[i]);
            }
        }
    }
}

/// A number that is written in digits is read back, with or without a plus sign; one that is too
/// large is not.
pub proof fn law_number_is_read_back(n: nat, max: nat)
    ensures
        n <= max ==> parse_number(decimal(n), max) == Some(n),
        n <= max ==> parse_number(seq!['+'] + decimal(n), max) == Some(n),
        n > max ==> parse_number(decimal(n), max) is None,
        decimal(n).len() > 0,
        all_digits(decimal(n)),
{
    lemma_decimal_value(n);
    lemma_decimal_digits(n);
    assert(is_digit(decimal(n)[0]));
    assert((seq!['+'] + decimal(n)).skip(1) =~= decimal(n));
}

/// What holds anything but digits is no number.
pub proof fn law_other_texts_are_no_numbers(s: Seq<char>, i: int, max: nat)
    requires
        0 <= i < s.len(),
        !is_digit(s[i]),
        i > 0 || s[i] != '+',
    ensures
        parse_number(s, max) is None,
        parse_number(Seq::empty(), max) is None,
{
    if s.len() > 1 && s[0] == '+' {
        assert(s.skip(1)[i - 1] == s[i]);
    }
}

/// Each byte is written as two digits, the high one first.
pub proof fn law_bytes_are_written_in_pairs(bytes: Seq<u8>, b: u8)
    ensures
        hex(bytes.push(b)) == hex(bytes) + seq![
            hex_char((b / 16) as int),
            hex_char((b % 16) as int),
        ],
        hex(Seq::empty()).len() == 0,
        forall|n: int| 0 <= n < 10 ==> #[trigger] hex_char(n) as int == '0' as int + n,
        forall|n: int| 10 <= n < 16 ==> #[trigger] hex_char(n) as int == 'a' as int + n - 10,
{
    assert(bytes.push(b).drop_last() =~= bytes);
    let high = hex_char((b / 16) as int);
    let low = hex_char((b % 16) as int);
    assert(hex(bytes).push(high).push(low) =~= hex(bytes) + seq![high, low]);
    assert forall|n: int| 0 <= n < 10 implies #[trigger] hex_char(n) as int == '0' as int + n by {
        assert(hex_char(n) == digit_char(n));
    }
}

// Letters.

/// Capital letters are made small; everything else stays.
pub proof fn law_capitals_are_made_small(s: Seq<char>, i: int)
    requires
        0 <= i < s.len(),
    ensures
        ascii_lower(s).len() == s.len(),
        'A' <= s[i] && s[i] <= 'Z' ==> ascii_lower(s)[i] as int == s[i] as int + 32,
        !('A' <= s[i] && s[i] <= 'Z') ==> ascii_lower(s)[i] == s[i],
{
}

/// What is dropped from a text is gone, and the rest stays in order.
pub proof fn law_dropped_characters_are_gone(s: Seq<char>, x: char, drop: spec_fn(char) -> bool)
    ensures
        drop(x) ==> without_chars(s.push(x), drop) == without_chars(s, drop),
        !drop(x) ==> without_chars(s.push(x), drop) == without_chars(s, drop).push(x),
        without_chars(Seq::empty(), drop).len() == 0,
{
    assert(s.push(x).drop_last() =~= s);
}

/// Sorting keeps the texts and puts them in order.
pub proof fn law_sorting_keeps_the_texts(s: Seq<Seq<char>>)
    ensures
        is_sorted(sorted(s)),
        sorted(s).to_multiset() == s.to_multiset(),
{
    lemma_sorted_keeps(s);
}

// Order.

/// Texts are compared by the first character in which they differ, and a text comes before every
/// longer one that begins with it.
pub proof fn law_order_of_texts(p: Seq<char>, x: char, u: Seq<char>, y: char, v: Seq<char>)
    ensures
        x < y ==> text_lt(p + seq![x] + u, p + seq![y] + v),
        x < y ==> !text_lt(p + seq![y] + v, p + seq![x] + u),
        text_lt(p, p + seq![x] + u),
        !text_lt(p + seq![x] + u, p),
        !text_lt(p, p),
    decreases p.len(),
{
    let a = p + seq![x] + u;
    let b = p + seq![y] + v;
    if p.len() > 0 {
        let q = p.skip(1);
        law_order_of_texts(q, x, u, y, v);
        assert(a.skip(1) =~= q + seq![x] + u);
        assert(b.skip(1) =~= q + seq![y] + v);
        assert(a[0] == p[0] && b[0] == p[0]);
    } else {
        assert(a[0] == x && b[0] == y);
    }
}

/// A negative number is written with its sign.
pub proof fn law_negative_numbers_have_a_sign(n: nat)
    ensures
        signed_decimal(n as int) == decimal(n),
        n > 0 ==> signed_decimal(-(n as int)) == seq!['-'] + decimal(n),
{
}

// Values.

/// A text is read from a value without the white space around it, where there is more.
pub proof fn law_text_is_read_without_spaces(value: JsonView, key: Seq<char>, text: Seq<char>)
    ensures
        value.get(key) == Some(JsonView::Text(text)) && trimmed(text).len() > 0 ==> value.read(key)
            == Some(trimmed(text)),
        value.get(key) == Some(JsonView::Text(text)) && trimmed(text).len() == 0 ==> value.read(key)
            is None,
        value.get(key) == Some(JsonView::Text(text)) ==> value.get_str(key) == Some(text),
        value.get(key) is None ==> value.read(key) is None && value.get_str(key) is None,
        value.get(key) matches Some(member) ==> !(member is Text) ==> value.read(key) is None
            && value.get_str(key) is None,
{
}

/// Members are found by their keys, and only in objects.
pub proof fn law_members_are_found_by_their_keys(
    members: Map<Seq<char>, JsonView>,
    key: Seq<char>,
    other: Seq<char>,
    value: JsonView,
)
    ensures
        JsonView::Object(members.insert(key, value)).get(key) == Some(value),
        other != key ==> JsonView::Object(members.insert(key, value)).get(other)
            == JsonView::Object(members).get(other),
        JsonView::Object(members.remove(key)).get(key) is None,
        JsonView::Null.get(key) is None,
        JsonView::Text(key).get(key) is None,
        JsonView::Array(seq![value]).get(key) is None,
{
}

/// Numbers and truth values are what they are, and nothing else is.
pub proof fn law_numbers_are_what_they_are(n: u64, m: i64, b: bool, text: Seq<char>)
    ensures
        JsonView::Number(NumberView::Unsigned(n)).as_u64() == Some(n),
        n <= 0x7fff_ffff_ffff_ffff ==> (JsonView::Number(NumberView::Unsigned(n)).as_i64()
            matches Some(k) && k == n),
        n > 0x7fff_ffff_ffff_ffff ==> JsonView::Number(NumberView::Unsigned(n)).as_i64() is None,
        JsonView::Number(NumberView::Negative(m)).as_i64() == Some(m),
        JsonView::Number(NumberView::Negative(m)).as_u64() is None,
        JsonView::Bool(b).as_bool() == Some(b),
        JsonView::Bool(b).as_u64() is None,
        JsonView::Text(text).as_bool() is None,
        JsonView::Text(text).as_u64() is None,
        JsonView::Null.as_str() is None,
{
}

} // verus!
