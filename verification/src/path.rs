//! File paths as texts, with `/` between their names.
use vstd::prelude::*;

use crate::text::{
    chars_from, chars_of, concat2, concat3, ends_with, has_prefix, has_suffix, split,
    split_text, starts_with, text_eq, text_from,
};

verus! {

// What a path is made of.

pub open spec fn is_absolute(path: Seq<char>) -> bool {
    has_prefix(path, "/"@)
}

/// The path starts with a `.` of its own.
pub open spec fn starts_here(path: Seq<char>) -> bool {
    path.len() > 0 && path[0] == '.' && (path.len() == 1 || path[1] == '/')
}

/// How many characters stand in front of the names.
pub open spec fn head_len(path: Seq<char>) -> int {
    if is_absolute(path) || starts_here(path) {
        1
    } else {
        0
    }
}

/// What stands between two separators without being a name.
pub open spec fn no_name(name: Seq<char>) -> bool {
    name.len() == 0 || (name.len() == 1 && name[0] == '.')
}

pub open spec fn name_pred() -> spec_fn(Seq<char>) -> bool {
    |name: Seq<char>| !no_name(name)
}

/// The names in a path. Repeated separators and a `.` between them count for nothing.
pub open spec fn path_names(path: Seq<char>) -> Seq<Seq<char>> {
    split(path.skip(head_len(path)), "/"@).filter(name_pred())
}

/// What a path is made of: where it starts, and its names. Paths that are made of the same are
/// the same.
pub open spec fn components(path: Seq<char>) -> Seq<Seq<char>> {
    if head_len(path) == 1 {
        seq![path.take(1)] + path_names(path)
    } else {
        path_names(path)
    }
}

/// `path` below `base`; an absolute path stands for itself.
pub open spec fn path_join(base: Seq<char>, path: Seq<char>) -> Seq<char> {
    if is_absolute(path) {
        path
    } else if base.len() == 0 || has_suffix(base, "/"@) {
        base + path
    } else {
        base + "/"@ + path
    }
}

/// The last name in a path.
pub open spec fn path_file_name(path: Seq<char>) -> Option<Seq<char>> {
    let names = path_names(path);
    if names.len() > 0 && names.last() != ".."@ {
        Some(names.last())
    } else {
        None
    }
}

/// Whether a path is another one or lies below it.
pub open spec fn lies_in(path: Seq<char>, root: Seq<char>) -> bool {
    let above = components(root);
    above.len() <= components(path).len() && components(path).take(above.len() as int) == above
}

// Cutting names off a text.

/// Where the last name of the first `i` characters starts.
pub open spec fn name_start(s: Seq<char>, i: int) -> int
    decreases i,
{
    if i <= 0 || s[i - 1] == '/' {
        i
    } else {
        name_start(s, i - 1)
    }
}

/// The text without its last name and the separator in front of it.
pub open spec fn cut_last(s: Seq<char>) -> Seq<char> {
    let start = name_start(s, s.len() as int);
    s.take(if start > 0 { start - 1 } else { 0 })
}

/// The text without what stands behind its last name.
pub open spec fn ended(s: Seq<char>) -> Seq<char>
    decreases s.len(),
{
    if s.len() == 0 || !no_name(s.skip(name_start(s, s.len() as int))) {
        s
    } else {
        proof {
            lemma_name_start(s, s.len() as int);
        }
        ended(cut_last(s))
    }
}

/// Where the first name from `i` on ends.
pub open spec fn name_end(s: Seq<char>, i: int) -> int
    decreases s.len() - i,
{
    if i >= s.len() || s[i] == '/' {
        i
    } else {
        name_end(s, i + 1)
    }
}

/// The text without its first name and the separator behind it.
pub open spec fn cut_first(s: Seq<char>) -> Seq<char> {
    let end = name_end(s, 0);
    s.skip(if end < s.len() { end + 1 } else { s.len() as int })
}

/// The text without what stands in front of its first name.
pub open spec fn begun(s: Seq<char>) -> Seq<char>
    decreases s.len(),
{
    if s.len() == 0 || !no_name(s.take(name_end(s, 0))) {
        s
    } else {
        proof {
            lemma_name_end(s, 0);
        }
        begun(cut_first(s))
    }
}

/// The text without its first `n` names.
pub open spec fn without_names(s: Seq<char>, n: int) -> Seq<char>
    decreases n,
{
    if n <= 0 {
        s
    } else {
        without_names(cut_first(begun(s)), n - 1)
    }
}

/// The path without its last name.
pub open spec fn path_parent(path: Seq<char>) -> Option<Seq<char>> {
    let names = ended(path.skip(head_len(path)));
    if names.len() > 0 {
        Some(path.take(head_len(path)) + ended(cut_last(names)))
    } else if starts_here(path) {
        Some(Seq::empty())
    } else {
        None
    }
}

/// What is left of a path below `root`, where it lies there.
pub open spec fn path_below(path: Seq<char>, root: Seq<char>) -> Option<Seq<char>> {
    let names = path.skip(head_len(path));
    if !lies_in(path, root) {
        None
    } else if components(root).len() == 0 {
        Some(path.take(head_len(path)) + ended(names))
    } else {
        Some(ended(begun(without_names(names, components(root).len() - head_len(path)))))
    }
}

pub proof fn lemma_name_start(s: Seq<char>, i: int)
    requires
        0 <= i <= s.len(),
    ensures
        0 <= name_start(s, i) <= i,
    decreases i,
{
    if i > 0 && s[i - 1] != '/' {
        lemma_name_start(s, i - 1);
    }
}

pub proof fn lemma_name_end(s: Seq<char>, i: int)
    requires
        0 <= i <= s.len(),
    ensures
        i <= name_end(s, i) <= s.len(),
    decreases s.len() - i,
{
    if i < s.len() && s[i] != '/' {
        lemma_name_end(s, i + 1);
    }
}

// Computing.

fn head_of(path: &str) -> (r: usize)
    ensures
        r == head_len(path@),
        r <= path@.len(),
{
    proof {
        reveal_strlit("/");
    }
    let chars = chars_of(path);
    let here = chars.len() > 0 && chars[0] == '.' && (chars.len() == 1 || chars[1] == '/');
    if starts_with(path, "/") || here {
        1
    } else {
        0
    }
}

/// The names in a path.
pub fn names_of(path: &str) -> (r: Vec<String>)
    ensures
        r.deep_view() == path_names(path@),
{
    proof {
        reveal_strlit("/");
    }
    let body = chars_from(path, head_of(path));
    let pieces = split_text(body.as_str(), "/");
    let ghost all = pieces.deep_view();
    let mut out: Vec<String> = Vec::new();
    let mut i: usize = 0;
    proof {
        reveal(Seq::filter);
        assert(all.take(0) =~= Seq::empty());
        assert(out.deep_view() =~= Seq::empty());
    }
    while i < pieces.len()
        invariant
            i <= pieces@.len(),
            all == pieces.deep_view(),
            out.deep_view() == all.take(i as int).filter(name_pred()),
        decreases pieces@.len() - i,
    {
        let ghost before = out.deep_view();
        proof {
            reveal(Seq::filter);
            reveal_strlit(".");
            reveal_strlit("");
            assert(all.take(i + 1).drop_last() =~= all.take(i as int));
            assert(all.take(i + 1).last() == pieces@[i as int]@);
            assert("."@ =~= seq!['.']);
            let piece = pieces@[i as int]@;
            if piece.len() == 1 && piece[0] == '.' {
                assert(piece =~= seq!['.']);
            }
        }
        if !pieces[i].as_str().is_empty() && !text_eq(pieces[i].as_str(), ".") {
            out.push(pieces[i].clone());
            assert(out.deep_view() =~= before.push(pieces@[i as int]@));
        }
        i = i + 1;
    }
    assert(all.take(i as int) =~= all);
    out
}

/// What a path is made of.
pub fn components_of(path: &str) -> (r: Vec<String>)
    ensures
        r.deep_view() == components(path@),
{
    let head: usize = head_of(path);
    let mut names = names_of(path);
    if head == 0 {
        return names;
    }
    let ghost rest = names.deep_view();
    let mut out: Vec<String> = Vec::new();
    let chars = chars_of(path);
    out.push(text_from(&chars, 0, 1));
    out.append(&mut names);
    assert(path@.take(1) =~= chars@.subrange(0, 1));
    assert(out.deep_view() =~= seq![path@.take(1)] + rest);
    out
}

fn starts_with_texts(texts: &Vec<String>, front: &Vec<String>) -> (r: bool)
    ensures
        r == (front.deep_view().len() <= texts.deep_view().len() && texts.deep_view().take(
            front.deep_view().len() as int,
        ) == front.deep_view()),
{
    if front.len() > texts.len() {
        return false;
    }
    let mut i: usize = 0;
    while i < front.len()
        invariant
            i <= front@.len() <= texts@.len(),
            forall|j: int| 0 <= j < i ==> (#[trigger] texts@[j])@ == front@[j]@,
        decreases front@.len() - i,
    {
        if !text_eq(texts[i].as_str(), front[i].as_str()) {
            proof {
                let k = i as int;
                assert(texts.deep_view().take(front@.len() as int)[k] == texts@[k]@);
                assert(front.deep_view()[k] == front@[k]@);
            }
            return false;
        }
        i = i + 1;
    }
    assert(texts.deep_view().take(front@.len() as int) =~= front.deep_view());
    true
}

/// Whether two paths are the same.
pub fn same_path(left: &str, right: &str) -> (r: bool)
    ensures
        r == (components(left@) == components(right@)),
{
    let a = components_of(left);
    let b = components_of(right);
    let same = a.len() == b.len() && starts_with_texts(&a, &b);
    proof {
        assert(a.deep_view().len() == a@.len() && b.deep_view().len() == b@.len());
        if a@.len() == b@.len() {
            assert(a.deep_view().take(b.deep_view().len() as int) =~= a.deep_view());
        }
    }
    same
}

/// Whether a path lies below another one.
pub fn lies_below(path: &str, root: &str) -> (r: bool)
    ensures
        r == (lies_in(path@, root@) && components(path@) != components(root@)),
{
    let whole = components_of(path);
    let above = components_of(root);
    let inside = starts_with_texts(&whole, &above);
    proof {
        if whole@.len() == above@.len() {
            assert(whole.deep_view().take(above.deep_view().len() as int) =~= whole.deep_view());
        }
    }
    inside && whole.len() != above.len()
}

pub fn join_path(base: &str, path: &str) -> (r: String)
    ensures
        r@ == path_join(base@, path@),
{
    if starts_with(path, "/") {
        path.to_owned()
    } else if base.is_empty() || ends_with(base, "/") {
        concat2(base, path)
    } else {
        concat3(base, "/", path)
    }
}

pub fn file_name_of(path: &str) -> (r: Option<String>)
    ensures
        r.deep_view() == path_file_name(path@),
{
    let mut names = names_of(path);
    let ghost all = names.deep_view();
    match names.pop() {
        Some(last) => {
            assert(last@ == all.last());
            if text_eq(last.as_str(), "..") {
                None
            } else {
                Some(last)
            }
        },
        None => None,
    }
}

fn find_name_start(chars: &Vec<char>, to: usize) -> (r: usize)
    requires
        to <= chars@.len(),
    ensures
        r == name_start(chars@.take(to as int), to as int),
        r <= to,
{
    let ghost s = chars@.take(to as int);
    let mut i: usize = to;
    while i > 0 && chars[i - 1] != '/'
        invariant
            i <= to <= chars@.len(),
            s == chars@.take(to as int),
            name_start(s, to as int) == name_start(s, i as int),
        decreases i,
    {
        i = i - 1;
    }
    i
}

/// The length of the text once what stands behind its last name is dropped.
fn ended_len(chars: &Vec<char>, to: usize) -> (r: usize)
    requires
        to <= chars@.len(),
    ensures
        r <= to,
        chars@.take(r as int) == ended(chars@.take(to as int)),
{
    let ghost whole = chars@.take(to as int);
    let mut end: usize = to;
    loop
        invariant
            end <= to <= chars@.len(),
            ended(whole) == ended(chars@.take(end as int)),
        ensures
            end <= to,
            chars@.take(end as int) == ended(whole),
        decreases end,
    {
        let ghost s = chars@.take(end as int);
        if end == 0 {
            break;
        }
        let start: usize = find_name_start(chars, end);
        let nothing = start == end || (start + 1 == end && chars[start] == '.');
        proof {
            let name = s.skip(start as int);
            assert(name.len() == end - start);
            if start < end {
                assert(name[0] == chars@[start as int]);
            }
            assert(nothing == no_name(name));
        }
        if !nothing {
            break;
        }
        let next: usize = if start > 0 { start - 1 } else { 0 };
        assert(chars@.take(next as int) =~= cut_last(s));
        end = next;
    }
    end
}

fn find_name_end(chars: &Vec<char>, from: usize) -> (r: usize)
    requires
        from <= chars@.len(),
    ensures
        r - from == name_end(chars@.skip(from as int), 0),
        from <= r <= chars@.len(),
{
    let ghost s = chars@.skip(from as int);
    let mut i: usize = from;
    while i < chars.len() && chars[i] != '/'
        invariant
            from <= i <= chars@.len(),
            s == chars@.skip(from as int),
            name_end(s, 0) == name_end(s, i - from),
        decreases chars@.len() - i,
    {
        assert(s[i - from] == chars@[i as int]);
        i = i + 1;
    }
    proof {
        if i < chars@.len() {
            assert(s[i - from] == chars@[i as int]);
        }
    }
    i
}

fn behind_first(chars: &Vec<char>, from: usize) -> (r: usize)
    requires
        from <= chars@.len(),
    ensures
        from <= r <= chars@.len(),
        from < chars@.len() ==> from < r,
        chars@.skip(r as int) == cut_first(chars@.skip(from as int)),
{
    let end: usize = find_name_end(chars, from);
    let next: usize = if end < chars.len() { end + 1 } else { chars.len() };
    assert(chars@.skip(next as int) =~= cut_first(chars@.skip(from as int)));
    next
}

/// Where the text starts once what stands in front of its first name is dropped.
fn begun_at(chars: &Vec<char>, from: usize) -> (r: usize)
    requires
        from <= chars@.len(),
    ensures
        from <= r <= chars@.len(),
        chars@.skip(r as int) == begun(chars@.skip(from as int)),
{
    let ghost whole = chars@.skip(from as int);
    let mut at: usize = from;
    loop
        invariant
            from <= at <= chars@.len(),
            begun(whole) == begun(chars@.skip(at as int)),
        ensures
            from <= at <= chars@.len(),
            chars@.skip(at as int) == begun(whole),
        decreases chars@.len() - at,
    {
        let ghost s = chars@.skip(at as int);
        if at == chars.len() {
            break;
        }
        let end: usize = find_name_end(chars, at);
        let nothing = end == at || (end == at + 1 && chars[at] == '.');
        proof {
            let name = s.take(end - at);
            if at < end {
                assert(name[0] == chars@[at as int]);
            }
            assert(nothing == no_name(name));
        }
        if !nothing {
            break;
        }
        at = behind_first(chars, at);
    }
    at
}

/// The path without its last name.
pub fn parent_of(path: &str) -> (r: Option<String>)
    ensures
        r.deep_view() == path_parent(path@),
{
    let head: usize = head_of(path);
    let body = chars_of(chars_from(path, head).as_str());
    assert(body@ == path@.skip(head as int));
    assert(body@.take(body@.len() as int) =~= body@);
    let end: usize = ended_len(&body, body.len());
    proof {
        reveal_strlit("/");
        if is_absolute(path@) {
            assert(path@.take(1)[0] == "/"@[0]);
            assert(path@[0] == '/');
        }
        assert(ended(path@.skip(head_len(path@))) == body@.take(end as int));
    }
    if end > 0 {
        let start: usize = find_name_start(&body, end);
        let next: usize = if start > 0 { start - 1 } else { 0 };
        assert(body@.take(next as int) =~= cut_last(body@.take(end as int)));
        let last: usize = ended_len(&body, next);
        let chars = chars_of(path);
        let front = text_from(&chars, 0, head);
        let names = text_from(&body, 0, last);
        assert(front@ =~= path@.take(head as int));
        assert(names@ =~= body@.take(last as int));
        Some(concat2(front.as_str(), names.as_str()))
    } else if head == 1 && !starts_with(path, "/") {
        let none = String::new();
        assert(none@ =~= Seq::empty());
        Some(none)
    } else {
        None
    }
}

/// What is left of a path below `root`, where it lies there.
pub fn relative_path(path: &str, root: &str) -> (r: Option<String>)
    ensures
        r.deep_view() == path_below(path@, root@),
{
    let whole = components_of(path);
    let above = components_of(root);
    if !starts_with_texts(&whole, &above) {
        return None;
    }
    let head: usize = head_of(path);
    let body = chars_of(chars_from(path, head).as_str());
    assert(body@ == path@.skip(head as int));
    if above.len() == 0 {
        assert(body@.take(body@.len() as int) =~= body@);
        let end: usize = ended_len(&body, body.len());
        let chars = chars_of(path);
        let front = text_from(&chars, 0, head);
        let names = text_from(&body, 0, end);
        assert(front@ =~= path@.take(head as int));
        assert(names@ =~= body@.take(end as int));
        return Some(concat2(front.as_str(), names.as_str()));
    }
    let n: usize = above.len() - head;
    let mut at: usize = 0;
    let mut k: usize = 0;
    assert(body@.skip(0) =~= body@);
    while k < n
        invariant
            k <= n,
            at <= body@.len(),
            without_names(body@, n as int) == without_names(body@.skip(at as int), n - k),
        decreases n - k,
    {
        at = begun_at(&body, at);
        at = behind_first(&body, at);
        k = k + 1;
    }
    at = begun_at(&body, at);
    let rest = text_from(&body, at, body.len());
    assert(rest@ =~= body@.skip(at as int));
    let chars = chars_of(rest.as_str());
    assert(chars@.take(chars@.len() as int) =~= chars@);
    let end: usize = ended_len(&chars, chars.len());
    let left = text_from(&chars, 0, end);
    assert(left@ =~= chars@.take(end as int));
    Some(left)
}

} // verus!
