//! Image grouping: turns the list of files found under the screenshot
//! root into per-station groups.
//!
//! Paths are given relative to the root directory, with `/` between
//! components. A file belongs to the station named by its immediate
//! parent directory. Skipped are: files whose path has any component
//! beginning with `.`, files lying directly in the root (no parent
//! component), and files whose parent directory carries the root
//! directory's own name (ungrouped top-level files). Within a station
//! the files keep their given order; stations appear in order of their
//! first file.

use vstd::prelude::*;

use crate::text::chars_of;

verus! {

/// Some path component begins with a dot: its first character is `.`
/// standing at the start or right after a separator.
pub open spec fn has_hidden_component(p: Seq<char>) -> bool {
    exists|i: int| 0 <= i < p.len() && #[trigger] p[i] == '.' && (i == 0 || p[i - 1] == '/')
}

/// The index of the last separator strictly before `i`, or -1 when
/// none is there.
pub open spec fn last_sep(p: Seq<char>, i: int) -> int
    decreases i when 0 <= i <= p.len()
{
    if i <= 0 {
        -1
    } else if p[i - 1] == '/' {
        i - 1
    } else {
        last_sep(p, i - 1)
    }
}

pub proof fn lemma_last_sep(p: Seq<char>, i: int)
    requires
        0 <= i <= p.len(),
    ensures
        -1 <= last_sep(p, i) < i,
        last_sep(p, i) >= 0 ==> p[last_sep(p, i)] == '/',
        forall|k: int| last_sep(p, i) < k < i ==> p[k] != '/',
    decreases i,
{
    if i > 0 && p[i - 1] != '/' {
        lemma_last_sep(p, i - 1);
    }
}

/// The name of the file's immediate parent directory: what stands
/// between the last two separators.
pub open spec fn parent_of(p: Seq<char>) -> Seq<char> {
    let l = last_sep(p, p.len() as int);
    p.subrange(last_sep(p, l) + 1, l)
}

/// The path takes part in the grouping: no hidden component, at least
/// one directory component, and a parent that is not the root's own
/// name.
pub open spec fn keeps(p: Seq<char>, root: Seq<char>) -> bool {
    &&& !has_hidden_component(p)
    &&& last_sep(p, p.len() as int) >= 0
    &&& parent_of(p) != root
}

/// Files one station's group: appends the path to the first group
/// carrying the key, or opens a new group at the end.
pub open spec fn group_insert(
    groups: Seq<(Seq<char>, Seq<Seq<char>>)>,
    key: Seq<char>,
    path: Seq<char>,
) -> Seq<(Seq<char>, Seq<Seq<char>>)>
    decreases groups.len(),
{
    if groups.len() == 0 {
        seq![(key, seq![path])]
    } else if groups[0].0 == key {
        seq![(groups[0].0, groups[0].1.push(path))] + groups.drop_first()
    } else {
        seq![groups[0]] + group_insert(groups.drop_first(), key, path)
    }
}

/// The grouping of a path list: every kept path filed under its parent
/// directory's name, in order.
pub open spec fn group_paths(paths: Seq<Seq<char>>, root: Seq<char>) -> Seq<
    (Seq<char>, Seq<Seq<char>>),
>
    decreases paths.len(),
{
    if paths.len() == 0 {
        Seq::empty()
    } else {
        let g = group_paths(paths.drop_last(), root);
        if keeps(paths.last(), root) {
            group_insert(g, parent_of(paths.last()), paths.last())
        } else {
            g
        }
    }
}

/// No two groups carry the same station key.
pub open spec fn keys_unique(g: Seq<(Seq<char>, Seq<Seq<char>>)>) -> bool {
    forall|a: int, b: int| 0 <= a < b < g.len() ==> (#[trigger] g[a]).0 != (#[trigger] g[b]).0
}

/// Some group carries the key `x`.
pub open spec fn has_key(g: Seq<(Seq<char>, Seq<Seq<char>>)>, x: Seq<char>) -> bool {
    exists|a: int| 0 <= a < g.len() && (#[trigger] g[a]).0 == x
}

proof fn lemma_group_insert_keys(
    g: Seq<(Seq<char>, Seq<Seq<char>>)>,
    key: Seq<char>,
    path: Seq<char>,
)
    requires
        keys_unique(g),
    ensures
        keys_unique(group_insert(g, key, path)),
        forall|x: Seq<char>|
            #[trigger] has_key(group_insert(g, key, path), x) <==> (has_key(g, x) || x == key),
    decreases g.len(),
{
    let r = group_insert(g, key, path);
    if g.len() == 0 {
        assert forall|x: Seq<char>| #[trigger] has_key(r, x) <==> (has_key(g, x) || x == key) by {
            assert(r[0].0 == key);
            if has_key(g, x) {
                let a = choose|a: int| 0 <= a < g.len() && (#[trigger] g[a]).0 == x;
            }
        }
    } else if g[0].0 == key {
        assert(forall|a: int| 0 <= a < g.len() ==> (#[trigger] r[a]).0 == g[a].0);
        assert forall|x: Seq<char>| #[trigger] has_key(r, x) <==> (has_key(g, x) || x == key) by {
            if has_key(r, x) {
                let a = choose|a: int| 0 <= a < r.len() && (#[trigger] r[a]).0 == x;
                assert(g[a].0 == x);
            }
            if has_key(g, x) {
                let a = choose|a: int| 0 <= a < g.len() && (#[trigger] g[a]).0 == x;
                assert(r[a].0 == x);
            }
            if x == key {
                assert(r[0].0 == x);
            }
        }
    } else {
        let tail = g.drop_first();
        assert(forall|a: int| 0 <= a < tail.len() ==> (#[trigger] tail[a]).0 == g[a + 1].0);
        lemma_group_insert_keys(tail, key, path);
        let rt = group_insert(tail, key, path);
        assert(r[0] == g[0]);
        assert(forall|a: int| 1 <= a < r.len() ==> (#[trigger] r[a]) == rt[a - 1]);
        assert forall|a: int, b: int| 0 <= a < b < r.len() implies (#[trigger] r[a]).0 != (
        #[trigger] r[b]).0 by {
            if a == 0 {
                assert(has_key(rt, r[b].0));
                if r[0].0 == r[b].0 {
                    if has_key(tail, r[0].0) {
                        let c = choose|c: int|
                            0 <= c < tail.len() && (#[trigger] tail[c]).0 == r[0].0;
                        assert(g[c + 1].0 == g[0].0);
                    }
                }
            }
        }
        assert forall|x: Seq<char>| #[trigger] has_key(r, x) <==> (has_key(g, x) || x == key) by {
            if has_key(r, x) {
                let a = choose|a: int| 0 <= a < r.len() && (#[trigger] r[a]).0 == x;
                if a == 0 {
                    assert(g[0].0 == x);
                } else {
                    assert(has_key(rt, x));
                    if has_key(tail, x) {
                        let c = choose|c: int| 0 <= c < tail.len() && (#[trigger] tail[c]).0 == x;
                        assert(g[c + 1].0 == x);
                    }
                }
            }
            if has_key(g, x) {
                let a = choose|a: int| 0 <= a < g.len() && (#[trigger] g[a]).0 == x;
                if a == 0 {
                    assert(r[0].0 == x);
                } else {
                    assert(tail[a - 1].0 == x);
                    assert(has_key(tail, x));
                    assert(has_key(rt, x));
                    let c = choose|c: int| 0 <= c < rt.len() && (#[trigger] rt[c]).0 == x;
                    assert(r[c + 1].0 == x);
                }
            }
            if x == key {
                assert(has_key(rt, x));
                let c = choose|c: int| 0 <= c < rt.len() && (#[trigger] rt[c]).0 == x;
                assert(r[c + 1].0 == x);
            }
        }
    }
}

/// The grouping is a mapping: no station key appears twice, for any
/// input and any root name.
pub proof fn lemma_group_keys_unique(paths: Seq<Seq<char>>, root: Seq<char>)
    ensures
        keys_unique(group_paths(paths, root)),
    decreases paths.len(),
{
    if paths.len() > 0 {
        lemma_group_keys_unique(paths.drop_last(), root);
        if keeps(paths.last(), root) {
            lemma_group_insert_keys(
                group_paths(paths.drop_last(), root),
                parent_of(paths.last()),
                paths.last(),
            );
        }
    }
}

/// The last separator strictly before `i`, scanning backwards.
fn rfind_sep(p: &Vec<char>, i: usize) -> (r: Option<usize>)
    requires
        i <= p@.len(),
    ensures
        match r {
            Some(k) => last_sep(p@, i as int) == k as int && k < i,
            None => last_sep(p@, i as int) == -1,
        },
{
    let mut j: usize = i;
    while j > 0
        invariant
            j <= i <= p@.len(),
            last_sep(p@, i as int) == last_sep(p@, j as int),
        decreases j,
    {
        if p[j - 1] == '/' {
            return Some(j - 1);
        }
        j = j - 1;
    }
    None
}

/// Compares the slice `t[a..b]` with the whole of `q`.
fn range_eq(t: &Vec<char>, a: usize, b: usize, q: &Vec<char>) -> (r: bool)
    requires
        a <= b <= t@.len(),
    ensures
        r == (t@.subrange(a as int, b as int) == q@),
{
    if b - a != q.len() {
        proof {
            assert(t@.subrange(a as int, b as int).len() == b - a);
        }
        return false;
    }
    let mut j: usize = 0;
    while j < q.len()
        invariant
            a <= b <= t@.len(),
            b - a == q@.len(),
            j <= q@.len(),
            forall|k: int| 0 <= k < j ==> t@[a + k] == q@[k],
        decreases q@.len() - j,
    {
        if t[a + j] != q[j] {
            proof {
                assert(t@.subrange(a as int, b as int)[j as int] == t@[a + j]);
            }
            return false;
        }
        j = j + 1;
    }
    proof {
        assert(t@.subrange(a as int, b as int) =~= q@);
    }
    true
}

/// Decides whether the path is kept and, if so, hands out its station
/// key: the parent directory's name.
fn keep_and_key(path: &str, root: &Vec<char>) -> (r: Option<String>)
    ensures
        match r {
            Some(k) => keeps(path@, root@) && k@ == parent_of(path@),
            None => !keeps(path@, root@),
        },
{
    let p = chars_of(path);
    let n = p.len();
    let mut i: usize = 0;
    while i < n
        invariant
            p@ == path@,
            n == p@.len(),
            i <= n,
            forall|k: int| 0 <= k < i ==> !(#[trigger] p@[k] == '.' && (k == 0 || p@[k - 1] == '/')),
        decreases n - i,
    {
        if p[i] == '.' && (i == 0 || p[i - 1] == '/') {
            proof {
                assert(has_hidden_component(p@));
            }
            return None;
        }
        i = i + 1;
    }
    let l = match rfind_sep(&p, n) {
        Some(l) => l,
        None => {
            return None;
        },
    };
    proof {
        lemma_last_sep(p@, l as int);
    }
    let start = match rfind_sep(&p, l) {
        Some(s) => s + 1,
        None => 0,
    };
    proof {
        assert(parent_of(p@) == p@.subrange(start as int, l as int));
    }
    if range_eq(&p, start, l, root) {
        None
    } else {
        let k = path.substring_char(start, l);
        Some(String::from_str(k))
    }
}

proof fn lemma_group_insert_found(
    g: Seq<(Seq<char>, Seq<Seq<char>>)>,
    key: Seq<char>,
    path: Seq<char>,
    idx: int,
)
    requires
        0 <= idx < g.len(),
        g[idx].0 == key,
        forall|k: int| 0 <= k < idx ==> g[k].0 != key,
    ensures
        group_insert(g, key, path) == g.update(idx, (g[idx].0, g[idx].1.push(path))),
    decreases idx,
{
    if idx == 0 {
        assert(group_insert(g, key, path) =~= g.update(0, (g[0].0, g[0].1.push(path))));
    } else {
        assert(g.drop_first()[idx - 1] == g[idx]);
        lemma_group_insert_found(g.drop_first(), key, path, idx - 1);
        assert(group_insert(g, key, path) =~= g.update(idx, (g[idx].0, g[idx].1.push(path))));
    }
}

proof fn lemma_group_insert_missing(
    g: Seq<(Seq<char>, Seq<Seq<char>>)>,
    key: Seq<char>,
    path: Seq<char>,
)
    requires
        forall|k: int| 0 <= k < g.len() ==> g[k].0 != key,
    ensures
        group_insert(g, key, path) == g + seq![(key, seq![path])],
    decreases g.len(),
{
    if g.len() == 0 {
        assert(group_insert(g, key, path) =~= g + seq![(key, seq![path])]);
    } else {
        lemma_group_insert_missing(g.drop_first(), key, path);
        assert(group_insert(g, key, path) =~= g + seq![(key, seq![path])]);
    }
}

fn group_insert_exec(groups: &mut Vec<(String, Vec<String>)>, key: String, path: String)
    ensures
        final(groups).deep_view() == group_insert(old(groups).deep_view(), key@, path@),
{
    let ghost g0 = old(groups).deep_view();
    let n = groups.len();
    let mut idx: usize = 0;
    while idx < n
        invariant
            n == groups@.len(),
            idx <= n,
            groups@ == old(groups)@,
            g0 == old(groups).deep_view(),
            forall|k: int| 0 <= k < idx ==> g0[k].0 != key@,
        decreases n - idx,
    {
        if groups[idx].0 == key {
            proof {
                assert(g0[idx as int].0 == key@);
            }
            groups[idx].1.push(path);
            proof {
                lemma_group_insert_found(g0, key@, path@, idx as int);
                assert(groups.deep_view() =~~= g0.update(
                    idx as int,
                    (g0[idx as int].0, g0[idx as int].1.push(path@)),
                ));
            }
            return;
        }
        proof {
            assert(g0[idx as int].0 == groups@[idx as int].0@);
        }
        idx = idx + 1;
    }
    let mut files: Vec<String> = Vec::new();
    files.push(path);
    groups.push((key, files));
    proof {
        lemma_group_insert_missing(g0, key@, path@);
        assert(groups.deep_view() =~~= g0 + seq![(key@, seq![path@])]);
    }
}

/// Groups the files found under the screenshot root by station: each
/// kept path is filed under the name of its immediate parent
/// directory, in input order; paths with hidden components, paths
/// without a parent component, and parents named like the root itself
/// stay out.
pub fn group_images(root_name: &str, paths: &Vec<String>) -> (groups: Vec<(String, Vec<String>)>)
    ensures
        groups.deep_view() == group_paths(paths.deep_view(), root_name@),
{
    let root = chars_of(root_name);
    let mut groups: Vec<(String, Vec<String>)> = Vec::new();
    let mut i: usize = 0;
    proof {
        assert(paths.deep_view().take(0) =~= Seq::<Seq<char>>::empty());
    }
    while i < paths.len()
        invariant
            i <= paths@.len(),
            root@ == root_name@,
            paths.deep_view().len() == paths@.len(),
            forall|k: int| 0 <= k < paths@.len() ==> paths.deep_view()[k] == paths@[k]@,
            groups.deep_view() == group_paths(paths.deep_view().take(i as int), root_name@),
        decreases paths@.len() - i,
    {
        let ghost pv = paths.deep_view();
        let path = &paths[i];
        proof {
            assert(pv.take(i + 1 as int).drop_last() =~= pv.take(i as int));
            assert(pv.take(i + 1 as int).last() == path@);
        }
        match keep_and_key(path.as_str(), &root) {
            Some(key) => {
                group_insert_exec(&mut groups, key, path.clone());
            },
            None => {},
        }
        i = i + 1;
    }
    proof {
        assert(paths.deep_view().take(paths@.len() as int) =~= paths.deep_view());
    }
    groups
}

} // verus!
