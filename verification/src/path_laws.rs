//! What paths are made of.
use vstd::prelude::*;

use crate::path::{
    begun, components, cut_first, cut_last, ended, head_len, is_absolute, lemma_name_end,
    lemma_name_start, lies_in, name_end, name_pred, name_start, no_name, path_below,
    path_file_name, path_join, path_names, path_parent, starts_here, without_names,
};
use crate::text::{find, has_suffix, lemma_find, occurs_at, split};
use crate::text_laws::law_text_is_cut_at_a_character;

verus! {

/// Whether a text is a name that stands for itself: not empty, not `.` or `..`, and in one piece.
pub open spec fn plain(name: Seq<char>) -> bool {
    name.len() > 0 && !name.contains('/') && name != "."@ && name != ".."@
}

/// The names in a text.
spec fn raw_names(s: Seq<char>) -> Seq<Seq<char>> {
    split(s, "/"@).filter(name_pred())
}

proof fn lemma_slash()
    ensures
        "/"@ == seq!['/'],
        "."@ == seq!['.'],
        ".."@ == seq!['.', '.'],
{
    reveal_strlit("/");
    reveal_strlit(".");
    reveal_strlit("..");
    assert("/"@ =~= seq!['/']);
    assert("."@ =~= seq!['.']);
    assert(".."@ =~= seq!['.', '.']);
}

proof fn lemma_head(path: Seq<char>)
    ensures
        is_absolute(path) <==> path.len() > 0 && path[0] == '/',
        0 <= head_len(path) <= 1,
        head_len(path) <= path.len(),
{
    lemma_slash();
    if path.len() > 0 {
        assert(path.subrange(0, 1)[0] == path[0]);
        if path[0] == '/' {
            assert(path.subrange(0, 1) =~= "/"@);
        }
    }
}

proof fn lemma_filter_push(s: Seq<Seq<char>>, x: Seq<char>)
    ensures
        s.push(x).filter(name_pred()) == if no_name(x) {
            s.filter(name_pred())
        } else {
            s.filter(name_pred()).push(x)
        },
{
    reveal(Seq::filter);
    assert(s.push(x).drop_last() =~= s);
}

proof fn lemma_filter_cons(x: Seq<char>, s: Seq<Seq<char>>)
    ensures
        (seq![x] + s).filter(name_pred()) == if no_name(x) {
            s.filter(name_pred())
        } else {
            seq![x] + s.filter(name_pred())
        },
    decreases s.len(),
{
    reveal(Seq::filter);
    if s.len() == 0 {
        assert(seq![x] + s =~= Seq::empty().push(x));
        lemma_filter_push(Seq::empty(), x);
        assert(s.filter(name_pred()) =~= Seq::empty());
        assert(Seq::<Seq<char>>::empty().filter(name_pred()) =~= Seq::empty());
        assert(seq![x] + s.filter(name_pred()) =~= Seq::empty().push(x));
    } else {
        let t = s.drop_last();
        lemma_filter_cons(x, t);
        assert(seq![x] + s =~= (seq![x] + t).push(s.last()));
        lemma_filter_push(seq![x] + t, s.last());
        assert(s =~= t.push(s.last()));
        lemma_filter_push(t, s.last());
        let f = t.filter(name_pred());
        assert((seq![x] + f).push(s.last()) =~= seq![x] + f.push(s.last()));
    }
}

/// Splitting off the first name.
proof fn lemma_first_name(a: Seq<char>, b: Seq<char>)
    requires
        !a.contains('/'),
    ensures
        raw_names(a + seq!['/'] + b) == if no_name(a) {
            raw_names(b)
        } else {
            seq![a] + raw_names(b)
        },
        raw_names(a) == if no_name(a) {
            Seq::<Seq<char>>::empty()
        } else {
            seq![a]
        },
{
    lemma_slash();
    law_text_is_cut_at_a_character(a, '/', b);
    lemma_filter_cons(a, split(b, "/"@));
    lemma_filter_cons(a, Seq::empty());
    assert(seq![a] + Seq::<Seq<char>>::empty() =~= seq![a]);
    reveal(Seq::filter);
    assert(Seq::<Seq<char>>::empty().filter(name_pred()) =~= Seq::empty());
}

/// Splitting off the last name.
proof fn lemma_last_name(a: Seq<char>, b: Seq<char>)
    requires
        !b.contains('/'),
    ensures
        raw_names(a + seq!['/'] + b) == if no_name(b) {
            raw_names(a)
        } else {
            raw_names(a).push(b)
        },
    decreases a.len(),
{
    lemma_slash();
    let whole = a + seq!['/'] + b;
    if a.contains('/') {
        lemma_find(a, "/"@);
        let k = choose|k: int| 0 <= k < a.len() && a[k] == '/';
        assert(a.subrange(k, k + 1) =~= "/"@);
        assert(occurs_at(a, "/"@, k));
        let i = find(a, "/"@)->0;
        assert(a.subrange(i, i + 1)[0] == a[i]);
        let x = a.take(i);
        let y = a.skip(i + 1);
        assert(a =~= x + seq!['/'] + y);
        if x.contains('/') {
            let j = choose|j: int| 0 <= j < x.len() && x[j] == '/';
            assert(a.subrange(j, j + 1) =~= "/"@);
            assert(occurs_at(a, "/"@, j));
        }
        assert(whole =~= x + seq!['/'] + (y + seq!['/'] + b));
        lemma_first_name(x, y);
        lemma_first_name(x, y + seq!['/'] + b);
        lemma_last_name(y, b);
        if !no_name(x) && !no_name(b) {
            assert(seq![x] + raw_names(y).push(b) =~= (seq![x] + raw_names(y)).push(b));
        }
    } else {
        lemma_first_name(a, b);
        lemma_first_name(b, Seq::empty());
        if !no_name(a) && !no_name(b) {
            assert(seq![a] + seq![b] =~= seq![a].push(b));
        }
        if no_name(a) && !no_name(b) {
            assert(Seq::<Seq<char>>::empty().push(b) =~= seq![b]);
        }
        if !no_name(a) && no_name(b) {
            assert(seq![a] + Seq::<Seq<char>>::empty() =~= seq![a]);
        }
    }
}

/// A path below another one is made of what that is made of, and of its own name.
pub proof fn law_joined_path_is_made_of_both(base: Seq<char>, name: Seq<char>)
    requires
        base.len() > 0,
        plain(name),
    ensures
        components(path_join(base, name)) == components(base).push(name),
        path_file_name(path_join(base, name)) == Some(name),
        lies_in(path_join(base, name), base),
        !lies_in(base, path_join(base, name)),
{
    lemma_slash();
    lemma_head(name);
    lemma_head(base);
    assert(name[0] != '/');
    let path = path_join(base, name);
    lemma_head(path);
    assert(!no_name(name)) by {
        if name.len() == 1 && name[0] == '.' {
            assert(name =~= "."@);
        }
    }
    if has_suffix(base, "/"@) {
        let b = base.drop_last();
        assert(base.subrange(base.len() - 1, base.len() as int)[0] == base.last());
        assert(base =~= b + seq!['/']);
        let h = head_len(base);
        assert(path[0] == base[0]);
        assert(base.len() > 1 ==> path[1] == base[1]);
        assert(base.len() == 1 ==> is_absolute(base));
        assert(head_len(path) == h);
        if base.len() == 1 {
            assert(path.skip(1) =~= name);
            assert(base.skip(1) =~= Seq::empty());
            lemma_first_name(name, Seq::empty());
            lemma_first_name(Seq::empty(), Seq::empty());
            assert(path_names(path) == seq![name]);
            assert(path_names(base) == Seq::<Seq<char>>::empty());
            assert(Seq::<Seq<char>>::empty().push(name) =~= seq![name]);
        } else {
            let r = b.skip(h);
            assert(path.skip(h) =~= r + seq!['/'] + name);
            assert(base.skip(h) =~= r + seq!['/'] + Seq::empty());
            lemma_last_name(r, name);
            lemma_last_name(r, Seq::empty());
        }
    } else {
        assert(path =~= base + seq!['/'] + name);
        let h = head_len(base);
        assert(path[0] == base[0]);
        assert(base.len() > 1 ==> path[1] == base[1]);
        assert(base.len() == 1 ==> path[1] == '/');
        if base.len() == 1 && base[0] == '/' {
            assert(base.subrange(0, 1) =~= "/"@);
        }
        assert(head_len(path) == h);
        let r = base.skip(h);
        assert(path.skip(h) =~= r + seq!['/'] + name);
        lemma_last_name(r, name);
    }
    assert(path_names(path) == path_names(base).push(name));
    assert(path.take(1) =~= base.take(1));
    assert(components(path) =~= components(base).push(name));
    assert(components(path).take(components(base).len() as int) =~= components(base));
}

/// A path lies in itself, and in what it lies in lies in.
pub proof fn law_lying_in_is_an_order(a: Seq<char>, b: Seq<char>, c: Seq<char>)
    ensures
        lies_in(a, a),
        lies_in(a, b) && lies_in(b, c) ==> lies_in(a, c),
        lies_in(a, b) && lies_in(b, a) ==> components(a) == components(b),
{
    assert(components(a).take(components(a).len() as int) =~= components(a));
    if lies_in(a, b) && lies_in(b, c) {
        let n = components(c).len() as int;
        assert(components(a).take(components(b).len() as int).take(n) =~= components(a).take(n));
    }
    if lies_in(a, b) && lies_in(b, a) {
        assert(components(a).take(components(b).len() as int) =~= components(a));
    }
}

/// An absolute path stands for itself; any other one is put below the base, with one separator.
pub proof fn law_how_paths_are_joined(base: Seq<char>, path: Seq<char>)
    ensures
        path.len() > 0 && path[0] == '/' ==> path_join(base, path) == path,
        path.len() > 0 && path[0] != '/' && base.len() > 0 && base.last() != '/' ==> path_join(
            base,
            path,
        ) == base + seq!['/'] + path,
        path.len() > 0 && path[0] != '/' && base.len() > 0 && base.last() == '/' ==> path_join(
            base,
            path,
        ) == base + path,
        path.len() > 0 && path[0] != '/' && base.len() == 0 ==> path_join(base, path) == path,
{
    lemma_slash();
    lemma_head(path);
    if base.len() > 0 {
        assert(base.subrange(base.len() - 1, base.len() as int)[0] == base.last());
        if base.last() == '/' {
            assert(base.subrange(base.len() - 1, base.len() as int) =~= "/"@);
        }
    } else {
        assert(base + path =~= path);
    }
}

proof fn lemma_name_starts(front: Seq<char>, name: Seq<char>, i: int)
    requires
        !name.contains('/'),
        front.len() == 0 || front.last() == '/',
        front.len() <= i <= front.len() + name.len(),
    ensures
        name_start(front + name, i) == front.len(),
    decreases i,
{
    let s = front + name;
    if i > front.len() {
        assert(s[i - 1] == name[i - 1 - front.len()]);
        lemma_name_starts(front, name, i - 1);
    } else if i > 0 {
        assert(s[i - 1] == front.last());
    }
}

/// The directory of a path is what stands in front of its name.
pub proof fn law_directory_of_a_path(front: Seq<char>, directory: Seq<char>, name: Seq<char>)
    requires
        plain(directory),
        plain(name),
    ensures
        path_parent(front + seq!['/'] + directory + seq!['/'] + name) == Some(
            front + seq!['/'] + directory,
        ),
{
    lemma_slash();
    assert(!no_name(name)) by {
        if name.len() == 1 && name[0] == '.' {
            assert(name =~= "."@);
        }
    }
    assert(!no_name(directory)) by {
        if directory.len() == 1 && directory[0] == '.' {
            assert(directory =~= "."@);
        }
    }
    let above = front + seq!['/'] + directory;
    let path = above + seq!['/'] + name;
    lemma_head(path);
    let h = head_len(path);
    let u = above.skip(h);
    let rest = path.skip(h);
    assert(rest =~= u + seq!['/'] + name);
    let f = (front + seq!['/']).skip(h);
    assert(u =~= f + directory);
    assert(f.len() == 0 || f.last() == '/');
    lemma_name_starts(u + seq!['/'], name, rest.len() as int);
    assert(rest =~= (u + seq!['/']) + name);
    assert(rest.skip((u.len() + 1) as int) =~= name);
    assert(ended(rest) == rest);
    assert(cut_last(rest) =~= u);
    lemma_name_starts(f, directory, u.len() as int);
    assert(u.skip(f.len() as int) =~= directory);
    assert(ended(u) == u);
    assert(path.take(h) + u =~= above);
}

proof fn lemma_name_ends(s: Seq<char>, i: int)
    requires
        0 <= i <= s.len(),
        forall|k: int| 0 <= k < i ==> #[trigger] s[k] != '/',
    ensures
        i <= name_end(s, i) <= s.len(),
        !s.take(name_end(s, i)).contains('/'),
        name_end(s, i) < s.len() ==> s[name_end(s, i)] == '/',
    decreases s.len() - i,
{
    if i < s.len() && s[i] != '/' {
        lemma_name_ends(s, i + 1);
    } else {
        let t = s.take(i);
        assert forall|k: int| 0 <= k < t.len() implies t[k] != '/' by {
            assert(t[k] == s[k]);
        }
    }
}

proof fn lemma_cut_first(s: Seq<char>)
    ensures
        raw_names(s) == if no_name(s.take(name_end(s, 0))) {
            raw_names(cut_first(s))
        } else {
            seq![s.take(name_end(s, 0))] + raw_names(cut_first(s))
        },
{
    lemma_name_ends(s, 0);
    let k = name_end(s, 0);
    let a = s.take(k);
    if k < s.len() {
        assert(s =~= a + seq!['/'] + s.skip(k + 1));
        lemma_first_name(a, s.skip(k + 1));
    } else {
        assert(a =~= s);
        lemma_first_name(s, Seq::empty());
        assert(cut_first(s) =~= Seq::empty());
        lemma_first_name(Seq::empty(), Seq::empty());
        assert(seq![s] + Seq::<Seq<char>>::empty() =~= seq![s]);
    }
}

proof fn lemma_begun(s: Seq<char>)
    ensures
        raw_names(begun(s)) == raw_names(s),
        begun(s).len() > 0 ==> !no_name(begun(s).take(name_end(begun(s), 0))),
    decreases s.len(),
{
    if !(s.len() == 0 || !no_name(s.take(name_end(s, 0)))) {
        lemma_cut_first(s);
        lemma_name_end(s, 0);
        lemma_begun(cut_first(s));
    }
}

proof fn lemma_without_names(s: Seq<char>, n: int)
    requires
        0 <= n <= raw_names(s).len(),
    ensures
        raw_names(without_names(s, n)) == raw_names(s).skip(n),
    decreases n,
{
    if n > 0 {
        let b = begun(s);
        lemma_begun(s);
        lemma_first_name(Seq::empty(), Seq::empty());
        if b.len() == 0 {
            assert(b =~= Seq::empty());
        }
        lemma_cut_first(b);
        let rest = cut_first(b);
        assert(raw_names(s) == seq![b.take(name_end(b, 0))] + raw_names(rest));
        assert(raw_names(s).skip(1) =~= raw_names(rest));
        lemma_without_names(rest, n - 1);
        assert(raw_names(s).skip(1).skip(n - 1) =~= raw_names(s).skip(n));
    } else {
        assert(raw_names(s).skip(0) =~= raw_names(s));
    }
}

proof fn lemma_name_begins(s: Seq<char>, i: int)
    requires
        0 <= i <= s.len(),
        forall|k: int| i <= k < s.len() ==> #[trigger] s[k] != '/',
    ensures
        0 <= name_start(s, i) <= i,
        !s.skip(name_start(s, i)).contains('/'),
        name_start(s, i) > 0 ==> s[name_start(s, i) - 1] == '/',
    decreases i,
{
    if i > 0 && s[i - 1] != '/' {
        lemma_name_begins(s, i - 1);
    } else {
        let t = s.skip(i);
        assert forall|k: int| 0 <= k < t.len() implies t[k] != '/' by {
            assert(t[k] == s[k + i]);
        }
    }
}

proof fn lemma_ended(s: Seq<char>)
    ensures
        raw_names(ended(s)) == raw_names(s),
        s.len() > 0 && !no_name(s.take(name_end(s, 0))) ==> ended(s).len() > 0 && s.take(
            name_end(s, 0),
        ) == ended(s).take(name_end(ended(s), 0)) && !no_name(
            ended(s).take(name_end(ended(s), 0)),
        ),
    decreases s.len(),
{
    let start = name_start(s, s.len() as int);
    if !(s.len() == 0 || !no_name(s.skip(start))) {
        lemma_name_start(s, s.len() as int);
        lemma_name_begins(s, s.len() as int);
        let last = s.skip(start);
        let front = cut_last(s);
        if start > 0 {
            assert(s =~= front + seq!['/'] + last);
            lemma_last_name(front, last);
            lemma_ended(front);
            if !no_name(s.take(name_end(s, 0))) {
                lemma_name_ends(s, 0);
                lemma_name_ends(front, 0);
                let k = name_end(s, 0);
                if k >= front.len() {
                    if k > front.len() {
                        assert(s.take(k)[front.len() as int] == '/');
                    }
                }
                assert(k <= front.len());
                let m = name_end(front, 0);
                if m < k {
                    assert(s.take(k)[m] == front[m]);
                }
                if k < m {
                    assert(front.take(m)[k] == s[k]);
                }
                assert(m == k);
                assert(front.take(k) =~= s.take(k));
                if front.len() == 0 {
                    assert(s.take(k).len() == 0);
                }
            }
        } else {
            assert(last =~= s);
            assert(front =~= Seq::empty());
            lemma_first_name(s, Seq::empty());
            lemma_first_name(Seq::empty(), Seq::empty());
            assert(ended(front) =~= Seq::empty());
            lemma_name_ends(s, 0);
            let k = name_end(s, 0);
            if k < s.len() {
                assert(s[k] == '/');
            }
            assert(s.take(k) =~= s);
        }
    }
}

/// Paths of which one lies in the other start alike.
proof fn lemma_heads_agree(path: Seq<char>, root: Seq<char>)
    requires
        components(root).len() > 0,
        lies_in(path, root),
    ensures
        head_len(path) == head_len(root),
{
    lemma_slash();
    lemma_head(path);
    lemma_head(root);
    let n = components(root).len() as int;
    assert(components(root)[0] == components(path).take(n)[0]);
    lemma_names_are_plain(path);
    lemma_names_are_plain(root);
    if head_len(root) == 1 && head_len(path) == 0 {
        let x = root.take(1);
        assert(components(root)[0] == x);
        assert(x[0] == root[0] && x.len() == 1);
        assert(components(path)[0] == path_names(path)[0]);
        assert(x.contains('/') || no_name(x));
    } else if head_len(root) == 0 && head_len(path) == 1 {
        let x = path.take(1);
        assert(components(path)[0] == x);
        assert(x[0] == path[0] && x.len() == 1);
        assert(components(root)[0] == path_names(root)[0]);
        assert(x.contains('/') || no_name(x));
    }
}

/// A text that begins with a name is no start of a path.
proof fn lemma_no_head(rest: Seq<char>)
    requires
        rest.len() > 0 ==> !no_name(rest.take(name_end(rest, 0))),
    ensures
        head_len(rest) == 0,
{
    lemma_head(rest);
    if rest.len() > 0 {
        let k = name_end(rest, 0);
        lemma_name_ends(rest, 0);
        assert(rest.take(k)[0] == rest[0]);
        assert(rest[0] != '/') by {
            if rest[0] == '/' {
                assert(rest.take(k).contains('/'));
            }
        }
        if starts_here(rest) && k > 1 {
            assert(rest.take(k)[1] == rest[1]);
            assert(rest.take(k).contains('/'));
        }
    }
}

proof fn lemma_rest(names: Seq<char>, m: int)
    requires
        0 <= m <= raw_names(names).len(),
    ensures
        ({
            let rest = ended(begun(without_names(names, m)));
            raw_names(rest) == raw_names(names).skip(m) && head_len(rest) == 0
        }),
{
    lemma_without_names(names, m);
    let cut = without_names(names, m);
    let b = begun(cut);
    lemma_begun(cut);
    lemma_ended(b);
    if b.len() == 0 {
        assert(ended(b) == b);
    }
    lemma_no_head(ended(b));
}

/// What is left of a path below another one is what the path is made of beyond that.
#[verifier::rlimit(60)]
#[verifier::spinoff_prover]
pub proof fn law_rest_of_a_path(path: Seq<char>, root: Seq<char>)
    requires
        components(root).len() > 0,
    ensures
        path_below(path, root) is Some <==> lies_in(path, root),
        path_below(path, root) matches Some(rest) ==> components(path) == components(root)
            + path_names(rest) && head_len(rest) == 0,
{
    if lies_in(path, root) {
        lemma_heads_agree(path, root);
        lemma_head(path);
        let h = head_len(path);
        let n = components(root).len() as int;
        let m = n - h;
        let names = path.skip(h);
        assert(raw_names(names) == path_names(path));
        lemma_rest(names, m);
        let rest = ended(begun(without_names(names, m)));
        assert(path_below(path, root) == Some(rest));
        assert(rest.skip(0) =~= rest);
        assert(path_names(rest) == raw_names(rest));
        let a = components(path);
        assert(a =~= a.take(n) + a.skip(n));
        assert(a.skip(n) =~= path_names(path).skip(m));
    }
}

/// No name in a path holds a separator or is a single dot.
proof fn lemma_names_are_plain(path: Seq<char>)
    ensures
        path_names(path).len() > 0 ==> !no_name(path_names(path)[0]) && !path_names(
            path,
        )[0].contains('/'),
{
    let s = path.skip(head_len(path));
    lemma_begun(s);
    let b = begun(s);
    lemma_first_name(Seq::empty(), Seq::empty());
    if b.len() == 0 {
        assert(b =~= Seq::empty());
    } else {
        lemma_cut_first(b);
        lemma_name_ends(b, 0);
        assert(raw_names(b)[0] == b.take(name_end(b, 0)));
    }
}

} // verus!
