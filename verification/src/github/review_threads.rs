use vstd::prelude::*;

use crate::model::{copy_review_comment, same_review_comment, ReviewComment, ReviewThread};
use crate::text::{copy_opt, str_eq};

verus! {

/// The index of the last comment of `cs` whose id is `id`.
pub open spec fn last_index_of(cs: Seq<ReviewComment>, id: Seq<char>) -> Option<int>
    decreases cs.len(),
{
    if cs.len() == 0 {
        None
    } else if cs.last().id@ == id {
        Some(cs.len() - 1)
    } else {
        last_index_of(cs.drop_last(), id)
    }
}

/// The comment that `id` names: the last comment with that id.
pub open spec fn comment_named(cs: Seq<ReviewComment>, id: Seq<char>) -> Option<ReviewComment> {
    match last_index_of(cs, id) {
        Some(i) => Some(cs[i]),
        None => None,
    }
}

/// The comment that the comment named `id` replies to, when that comment is among `cs`.
pub open spec fn parent_of(cs: Seq<ReviewComment>, id: Seq<char>) -> Option<Seq<char>> {
    match comment_named(cs, id) {
        Some(c) => match c.in_reply_to {
            Some(p) => if last_index_of(cs, p@) is Some {
                Some(p@)
            } else {
                None
            },
            None => None,
        },
        None => None,
    }
}

/// The ids of the comments.
pub open spec fn comment_ids(cs: Seq<ReviewComment>) -> Set<Seq<char>> {
    cs.map_values(|c: ReviewComment| c.id@).to_set()
}

pub proof fn lemma_last_index_of(cs: Seq<ReviewComment>, id: Seq<char>)
    ensures
        last_index_of(cs, id) matches Some(i) ==> 0 <= i < cs.len() && cs[i].id@ == id
            && forall|j: int| i < j < cs.len() ==> cs[j].id@ != id,
        last_index_of(cs, id) is None ==> forall|j: int| 0 <= j < cs.len() ==> cs[j].id@ != id,
    decreases cs.len(),
{
    if cs.len() > 0 && cs.last().id@ != id {
        lemma_last_index_of(cs.drop_last(), id);
        assert forall|j: int| 0 <= j < cs.len() - 1 implies cs[j] == cs.drop_last()[j] by {}
    }
}

pub proof fn lemma_walk_step(cs: Seq<ReviewComment>, cur: Seq<char>, seen: Set<Seq<char>>)
    requires
        !seen.contains(cur),
        parent_of(cs, cur) is Some,
    ensures
        comment_ids(cs).difference(seen.insert(cur)).len() < comment_ids(cs).difference(
            seen,
        ).len(),
{
    lemma_last_index_of(cs, cur);
    let i = last_index_of(cs, cur)->0;
    let ids = comment_ids(cs);
    assert(cs.map_values(|c: ReviewComment| c.id@)[i] == cur);
    assert(ids.contains(cur));
    vstd::seq_lib::seq_to_set_is_finite(cs.map_values(|c: ReviewComment| c.id@));
    let d = ids.difference(seen);
    vstd::set::axiom_set_difference_finite(ids, seen);
    assert(d.contains(cur));
    assert(ids.difference(seen.insert(cur)) =~= d.remove(cur));
    vstd::set::axiom_set_remove_len(d, cur);
}

/// Follows the replies from `cur` up to the comment that starts its thread: each step
/// goes to the comment replied to, while that comment is among `cs`; the walk stops there,
/// or on coming back to a comment already passed (`seen`). Gives the comment reached and
/// the number of steps.
pub open spec fn walk(cs: Seq<ReviewComment>, cur: Seq<char>, seen: Set<Seq<char>>) -> (Seq<char>, nat)
    decreases comment_ids(cs).difference(seen).len(),
{
    if seen.contains(cur) {
        (cur, 0)
    } else {
        match parent_of(cs, cur) {
            Some(p) => {
                proof {
                    lemma_walk_step(cs, cur, seen);
                }
                let r = walk(cs, p, seen.insert(cur));
                (r.0, r.1 + 1)
            },
            None => (cur, 0),
        }
    }
}

/// The id of the comment that starts the thread of the comment named `id`.
pub open spec fn root_of(cs: Seq<ReviewComment>, id: Seq<char>) -> Seq<char> {
    walk(cs, id, Set::empty()).0
}

/// How many replies lie between the comment named `id` and the start of its thread.
pub open spec fn depth_of(cs: Seq<ReviewComment>, id: Seq<char>) -> nat {
    walk(cs, id, Set::empty()).1
}

/// The index of the last comment with id `id`.
fn find_last(comments: &Vec<ReviewComment>, id: &str) -> (r: Option<usize>)
    ensures
        match r {
            Some(i) => last_index_of(comments@, id@) == Some(i as int),
            None => last_index_of(comments@, id@) is None,
        },
        r matches Some(i) ==> i < comments@.len(),
{
    let mut i = comments.len();
    assert(comments@.take(i as int) =~= comments@);
    while i > 0
        invariant
            i <= comments@.len(),
            last_index_of(comments@, id@) == last_index_of(comments@.take(i as int), id@),
        decreases i,
    {
        let ghost pre = comments@.take(i as int);
        assert(pre.drop_last() =~= comments@.take(i - 1));
        assert(pre.last() == comments@[i - 1]);
        if str_eq(comments[i - 1].id.as_str(), id) {
            return Some(i - 1);
        }
        i = i - 1;
    }
    None
}

/// Walks from the comment named `id` to the start of its thread; gives that comment's id
/// and the number of steps.
fn walk_to_root(comments: &Vec<ReviewComment>, id: &String) -> (r: (String, usize))
    ensures
        r.0@ == root_of(comments@, id@),
        r.1 == depth_of(comments@, id@),
{
    let ghost cs = comments@;
    let mut seen: Vec<String> = Vec::new();
    let mut cur: String = id.clone();
    let mut depth: usize = 0;
    let ghost mut seen_set: Set<Seq<char>> = Set::empty();
    loop
        invariant_except_break
            cs == comments@,
            seen_set == seen@.map_values(|s: String| s@).to_set(),
            depth == seen@.len(),
            walk(cs, id@, Set::empty()).0 == walk(cs, cur@, seen_set).0,
            walk(cs, id@, Set::empty()).1 == walk(cs, cur@, seen_set).1 + depth,
        ensures
            cur@ == root_of(cs, id@),
            depth == depth_of(cs, id@),
        decreases comment_ids(cs).difference(seen_set).len(),
    {
        let mut already = false;
        let mut k: usize = 0;
        while k < seen.len()
            invariant
                k <= seen@.len(),
                already == exists|j: int| 0 <= j < k && #[trigger] seen@[j]@ == cur@,
            decreases seen@.len() - k,
        {
            if str_eq(seen[k].as_str(), cur.as_str()) {
                already = true;
            }
            k = k + 1;
        }
        proof {
            if already {
                let j = choose|j: int| 0 <= j < seen@.len() && #[trigger] seen@[j]@ == cur@;
                assert(seen@.map_values(|s: String| s@)[j] == cur@);
            }
            if seen_set.contains(cur@) {
                let sv = seen@.map_values(|s: String| s@);
                let j = choose|j: int| 0 <= j < sv.len() && #[trigger] sv[j] == cur@;
                assert(seen@[j]@ == cur@);
            }
        }
        if already {
            break;
        }
        let parent: Option<String> = match find_last(comments, cur.as_str()) {
            Some(i) => match &comments[i].in_reply_to {
                Some(p) => match find_last(comments, p.as_str()) {
                    Some(_) => Some(p.clone()),
                    None => None,
                },
                None => None,
            },
            None => None,
        };
        assert(parent_of(cs, cur@) == match parent { Some(p) => Some(p@), None => None::<Seq<char>> });
        match parent {
            Some(p) => {
                proof {
                    lemma_walk_step(cs, cur@, seen_set);
                }
                let ghost old_seen = seen@;
                seen.push(cur);
                let seen_len = seen.len();
                assert(seen_len == depth + 1);
                proof {
                    let f = |s: String| s@;
                    old_seen.map_values(f).lemma_push_to_set_commute(seen@[old_seen.len() as int]@);
                    assert(seen@.map_values(f) =~= old_seen.map_values(f).push(
                        seen@[old_seen.len() as int]@,
                    ));
                    seen_set = seen@.map_values(f).to_set();
                }
                cur = p;
                depth = depth + 1;
            },
            None => {
                break;
            },
        }
    }
    (cur, depth)
}

/// The id of the comment that starts the thread of the comment named `comment_id`.
pub fn review_thread_root_id(comment_id: &String, comments: &Vec<ReviewComment>) -> (r: String)
    ensures
        r@ == root_of(comments@, comment_id@),
{
    walk_to_root(comments, comment_id).0
}

/// How many replies separate the comment named `comment_id` from the start of its thread.
pub fn review_comment_depth(comment_id: &String, comments: &Vec<ReviewComment>) -> (r: usize)
    ensures
        r == depth_of(comments@, comment_id@),
{
    walk_to_root(comments, comment_id).1
}

/// The thread starts of the first `n` comments, each once, in the order in which their
/// first comment appears.
pub open spec fn thread_order(cs: Seq<ReviewComment>, n: int) -> Seq<Seq<char>>
    decreases n,
{
    if n <= 0 {
        Seq::empty()
    } else {
        let prev = thread_order(cs, n - 1);
        let r = root_of(cs, cs[n - 1].id@);
        if prev.contains(r) {
            prev
        } else {
            prev.push(r)
        }
    }
}

/// The order key of the comment named `id` within its thread: first the number of replies
/// above it, then the position of the comment that the id names.
pub open spec fn comment_key(cs: Seq<ReviewComment>, id: Seq<char>) -> (nat, nat) {
    (
        depth_of(cs, id),
        match last_index_of(cs, id) {
            Some(i) => i as nat,
            None => 0,
        },
    )
}

/// The order keys of the first `n` comments that belong to the thread started by `t`.
pub open spec fn member_keys(cs: Seq<ReviewComment>, t: Seq<char>, n: int) -> Seq<(nat, nat)>
    decreases n,
{
    if n <= 0 {
        Seq::empty()
    } else {
        let prev = member_keys(cs, t, n - 1);
        if root_of(cs, cs[n - 1].id@) == t {
            prev.push(comment_key(cs, cs[n - 1].id@))
        } else {
            prev
        }
    }
}

/// Lexicographic order of order keys.
pub open spec fn key_le(a: (nat, nat), b: (nat, nat)) -> bool {
    a.0 < b.0 || (a.0 == b.0 && a.1 <= b.1)
}

/// The keys do not decrease.
pub open spec fn keys_sorted(ks: Seq<(nat, nat)>) -> bool {
    forall|i: int, j: int| 0 <= i < j < ks.len() ==> key_le(ks[i], ks[j])
}

/// The order keys of the comments of a thread.
pub open spec fn thread_keys(cs: Seq<ReviewComment>, comments: Seq<ReviewComment>) -> Seq<(nat, nat)> {
    comments.map_values(|c: ReviewComment| comment_key(cs, c.id@))
}

/// The path of the first comment that has one.
pub open spec fn first_path(comments: Seq<ReviewComment>) -> Option<String>
    decreases comments.len(),
{
    if comments.len() == 0 {
        None
    } else if comments[0].path is Some {
        comments[0].path
    } else {
        first_path(comments.drop_first())
    }
}

/// The path of a thread: that of the comment that starts it, else that of its first
/// comment with a path.
pub open spec fn thread_path(cs: Seq<ReviewComment>, t: Seq<char>, comments: Seq<ReviewComment>) -> Option<String> {
    match comment_named(cs, t) {
        Some(c) => if c.path is Some {
            c.path
        } else {
            first_path(comments)
        },
        None => first_path(comments),
    }
}

/// `th` is the thread started by `t`, built from the comments `cs`.
pub open spec fn is_thread_of(cs: Seq<ReviewComment>, t: Seq<char>, th: ReviewThread) -> bool {
    &&& th.id@ == t
    &&& th.is_resolved is None
    &&& th.is_outdated is None
    &&& th.path == thread_path(cs, t, th.comments@)
    &&& keys_sorted(thread_keys(cs, th.comments@))
    &&& thread_keys(cs, th.comments@).to_multiset() == member_keys(cs, t, cs.len() as int).to_multiset()
    &&& forall|m: int|
        0 <= m < th.comments@.len() ==> {
            &&& last_index_of(cs, #[trigger] th.comments@[m].id@) is Some
            &&& same_review_comment(th.comments@[m], cs[last_index_of(cs, th.comments@[m].id@)->0])
        }
}

/// The exec form of the order keys.
pub open spec fn key_views(ks: Seq<(usize, usize)>) -> Seq<(nat, nat)> {
    ks.map_values(|k: (usize, usize)| (k.0 as nat, k.1 as nat))
}

/// Inserts `x` into the sorted `keys` after every key not greater than it.
fn insert_sorted(keys: &mut Vec<(usize, usize)>, x: (usize, usize))
    requires
        keys_sorted(key_views(old(keys)@)),
    ensures
        keys_sorted(key_views(final(keys)@)),
        key_views(final(keys)@).to_multiset() == key_views(old(keys)@).to_multiset().insert(
            (x.0 as nat, x.1 as nat),
        ),
        forall|m: int| 0 <= m < final(keys)@.len() ==> #[trigger] final(keys)@[m] == x
            || old(keys)@.contains(final(keys)@[m]),
{
    let ghost old_keys = keys@;
    let ghost xv = (x.0 as nat, x.1 as nat);
    let mut p: usize = 0;
    while p < keys.len() && (keys[p].0 < x.0 || (keys[p].0 == x.0 && keys[p].1 <= x.1))
        invariant
            p <= keys@.len(),
            keys@ == old_keys,
            xv == (x.0 as nat, x.1 as nat),
            forall|i: int| 0 <= i < p ==> key_le(#[trigger] key_views(keys@)[i], xv),
        decreases keys@.len() - p,
    {
        assert(key_views(keys@)[p as int] == (keys@[p as int].0 as nat, keys@[p as int].1 as nat));
        p = p + 1;
    }
    keys.insert(p, x);
    proof {
        let ov = key_views(old_keys);
        let nv = key_views(keys@);
        assert(nv =~= ov.insert(p as int, xv));
        vstd::seq_lib::to_multiset_insert(ov, p as int, xv);
        assert forall|i: int, j: int| 0 <= i < j < nv.len() implies key_le(nv[i], nv[j]) by {
            if i < p && j == p {
            } else if i < p && j > p {
                assert(nv[j] == ov[j - 1]);
                assert(nv[i] == ov[i]);
            } else if i == p && j > p {
                assert(nv[j] == ov[j - 1]);
                assert(!key_le(ov[p as int], xv));
                assert(key_le(ov[p as int], ov[j - 1]) || p == j - 1);
            } else if i > p {
                assert(nv[i] == ov[i - 1]);
                assert(nv[j] == ov[j - 1]);
            }
        }
        assert forall|m: int| 0 <= m < keys@.len() implies #[trigger] keys@[m] == x
            || old_keys.contains(keys@[m]) by {
            if m < p {
                assert(keys@[m] == old_keys[m]);
            } else if m > p {
                assert(keys@[m] == old_keys[m - 1]);
            }
        }
    }
}

/// The first path among comments.
fn first_path_of(comments: &Vec<ReviewComment>) -> (r: Option<String>)
    ensures
        r == first_path(comments@),
{
    let mut i: usize = 0;
    assert(comments@.skip(0) =~= comments@);
    while i < comments.len()
        invariant
            i <= comments@.len(),
            first_path(comments@) == first_path(comments@.skip(i as int)),
        decreases comments@.len() - i,
    {
        assert(comments@.skip(i as int)[0] == comments@[i as int]);
        if comments[i].path.is_some() {
            return copy_opt(&comments[i].path);
        }
        assert(comments@.skip(i as int).drop_first() =~= comments@.skip(i + 1));
        i = i + 1;
    }
    None
}

/// What is known of each comment while grouping: its thread start, its order key and the
/// position of the comment that its id names.
pub open spec fn comment_facts(
    cs: Seq<ReviewComment>,
    roots: Seq<String>,
    depths: Seq<usize>,
    positions: Seq<usize>,
) -> bool {
    &&& roots.len() == cs.len() && depths.len() == cs.len() && positions.len() == cs.len()
    &&& forall|j: int|
        0 <= j < cs.len() ==> {
            &&& #[trigger] roots[j]@ == root_of(cs, cs[j].id@)
            &&& comment_key(cs, cs[j].id@) == (depths[j] as nat, positions[j] as nat)
            &&& positions[j] < cs.len()
            &&& comment_key(cs, cs[positions[j] as int].id@) == comment_key(cs, cs[j].id@)
            &&& last_index_of(cs, cs[j].id@) == Some(positions[j] as int)
        }
}

/// `threads` is what grouping the comments `cs` gives.
pub open spec fn groups_comments(threads: Seq<ReviewThread>, cs: Seq<ReviewComment>) -> bool {
    &&& threads.len() == thread_order(cs, cs.len() as int).len()
    &&& forall|k: int|
        0 <= k < threads.len() ==> is_thread_of(cs, thread_order(cs, cs.len() as int)[k], #[trigger] threads[k])
}

/// How many of the first `n` comments belong to each of the threads `order`, added up.
pub open spec fn thread_sizes(cs: Seq<ReviewComment>, order: Seq<Seq<char>>, n: int) -> nat
    decreases order.len(),
{
    if order.len() == 0 {
        0
    } else {
        thread_sizes(cs, order.drop_last(), n) + member_keys(cs, order.last(), n).len()
    }
}

/// How often `t` occurs among `order`.
pub open spec fn thread_occurrences(order: Seq<Seq<char>>, t: Seq<char>) -> nat
    decreases order.len(),
{
    if order.len() == 0 {
        0
    } else {
        thread_occurrences(order.drop_last(), t) + if order.last() == t { 1nat } else { 0nat }
    }
}

proof fn lemma_thread_order_grows(cs: Seq<ReviewComment>, n: int)
    requires
        0 <= n < cs.len(),
    ensures
        thread_order(cs, n + 1).contains(root_of(cs, cs[n].id@)),
        forall|t: Seq<char>| thread_order(cs, n).contains(t) ==> thread_order(cs, n + 1).contains(t),
        forall|t: Seq<char>|
            thread_order(cs, n + 1).contains(t) ==> thread_order(cs, n).contains(t) || t == root_of(cs, cs[n].id@),
{
    let prev = thread_order(cs, n);
    let next = thread_order(cs, n + 1);
    let r = root_of(cs, cs[n].id@);
    if !prev.contains(r) {
        assert(next[prev.len() as int] == r);
        assert forall|t: Seq<char>| prev.contains(t) implies next.contains(t) by {
            let k = choose|k: int| 0 <= k < prev.len() && prev[k] == t;
            assert(next[k] == t);
        }
        assert forall|t: Seq<char>| next.contains(t) implies prev.contains(t) || t == r by {
            let k = choose|k: int| 0 <= k < next.len() && next[k] == t;
            if k < prev.len() {
                assert(prev[k] == t);
            }
        }
    }
}

proof fn lemma_thread_order_distinct(cs: Seq<ReviewComment>, n: int)
    requires
        0 <= n <= cs.len(),
    ensures
        thread_order(cs, n).no_duplicates(),
    decreases n,
{
    if n > 0 {
        lemma_thread_order_distinct(cs, n - 1);
    }
}

proof fn lemma_members_outside_order(cs: Seq<ReviewComment>, t: Seq<char>, n: int)
    requires
        0 <= n <= cs.len(),
        !thread_order(cs, n).contains(t),
    ensures
        member_keys(cs, t, n).len() == 0,
    decreases n,
{
    if n > 0 {
        lemma_thread_order_grows(cs, n - 1);
        lemma_members_outside_order(cs, t, n - 1);
    }
}

proof fn lemma_thread_sizes_step(cs: Seq<ReviewComment>, order: Seq<Seq<char>>, n: int)
    requires
        0 <= n < cs.len(),
    ensures
        thread_sizes(cs, order, n + 1) == thread_sizes(cs, order, n) + thread_occurrences(order, root_of(cs, cs[n].id@)),
    decreases order.len(),
{
    if order.len() > 0 {
        lemma_thread_sizes_step(cs, order.drop_last(), n);
    }
}

proof fn lemma_thread_occurrences(order: Seq<Seq<char>>, t: Seq<char>)
    requires
        order.no_duplicates(),
    ensures
        thread_occurrences(order, t) == if order.contains(t) { 1nat } else { 0nat },
    decreases order.len(),
{
    if order.len() > 0 {
        let prev = order.drop_last();
        assert(prev.no_duplicates());
        lemma_thread_occurrences(prev, t);
        if order.last() == t && prev.contains(t) {
            let k = choose|k: int| 0 <= k < prev.len() && prev[k] == t;
            assert(order[k] == order[order.len() - 1]);
        }
        if order.contains(t) && order.last() != t {
            let k = choose|k: int| 0 <= k < order.len() && order[k] == t;
            assert(prev[k] == t);
        }
        if prev.contains(t) {
            let k = choose|k: int| 0 <= k < prev.len() && prev[k] == t;
            assert(order[k] == t);
        }
        if order.last() == t {
            assert(order[order.len() - 1] == t);
        }
    }
}

proof fn lemma_thread_sizes_total(cs: Seq<ReviewComment>, n: int)
    requires
        0 <= n <= cs.len(),
    ensures
        thread_sizes(cs, thread_order(cs, n), n) == n,
    decreases n,
{
    if n == 0 {
        assert(thread_order(cs, 0).len() == 0);
    } else {
        let m = n - 1;
        lemma_thread_sizes_total(cs, m);
        let prev = thread_order(cs, m);
        let r = root_of(cs, cs[m].id@);
        lemma_thread_order_distinct(cs, m);
        lemma_thread_sizes_step(cs, prev, m);
        lemma_thread_occurrences(prev, r);
        if !prev.contains(r) {
            assert(thread_order(cs, n) == prev.push(r));
            assert(prev.push(r).drop_last() =~= prev);
            lemma_members_outside_order(cs, r, m);
        }
    }
}

/// The comments of a list of threads, added up.
pub open spec fn thread_comment_total(threads: Seq<ReviewThread>) -> nat
    decreases threads.len(),
{
    if threads.len() == 0 {
        0
    } else {
        thread_comment_total(threads.drop_last()) + threads.last().comments@.len()
    }
}

proof fn lemma_thread_total_prefix(threads: Seq<ReviewThread>, cs: Seq<ReviewComment>, k: int)
    requires
        groups_comments(threads, cs),
        0 <= k <= threads.len(),
    ensures
        thread_comment_total(threads.take(k)) == thread_sizes(cs, thread_order(cs, cs.len() as int).take(k), cs.len() as int),
    decreases k,
{
    let order = thread_order(cs, cs.len() as int);
    if k > 0 {
        lemma_thread_total_prefix(threads, cs, k - 1);
        assert(threads.take(k).drop_last() =~= threads.take(k - 1));
        assert(order.take(k).drop_last() =~= order.take(k - 1));
        let th = threads[k - 1];
        assert(is_thread_of(cs, order[k - 1], th));
        assert(thread_keys(cs, th.comments@).len() == th.comments@.len());
        vstd::seq_lib::to_multiset_len(thread_keys(cs, th.comments@));
        vstd::seq_lib::to_multiset_len(member_keys(cs, order[k - 1], cs.len() as int));
    }
}

/// Grouping loses and adds no comment: the threads hold as many comments as were given.
pub proof fn law_threads_hold_every_comment(threads: Seq<ReviewThread>, cs: Seq<ReviewComment>)
    requires
        groups_comments(threads, cs),
    ensures
        thread_comment_total(threads) == cs.len(),
{
    let order = thread_order(cs, cs.len() as int);
    lemma_thread_total_prefix(threads, cs, threads.len() as int);
    assert(threads.take(threads.len() as int) =~= threads);
    assert(order.take(order.len() as int) =~= order);
    lemma_thread_sizes_total(cs, cs.len() as int);
}

/// Groups review comments into threads. A thread is started by a comment that replies to
/// no comment in the list; each comment belongs to the thread reached by following its
/// replies upwards. Threads come in the order of their first comment; within a thread the
/// comments are ordered by how deep they sit in the reply chain, then by position, so that
/// a parent comes before its replies even when the list gives them in the other order.
pub fn group_review_comments(comments: Vec<ReviewComment>) -> (threads: Vec<ReviewThread>)
    ensures
        groups_comments(threads@, comments@),
{
    let ghost cs = comments@;
    let n = comments.len();
    let mut roots: Vec<String> = Vec::new();
    let mut depths: Vec<usize> = Vec::new();
    let mut positions: Vec<usize> = Vec::new();
    let mut i: usize = 0;
    while i < n
        invariant
            n == cs.len(),
            cs == comments@,
            i <= n,
            roots@.len() == i && depths@.len() == i && positions@.len() == i,
            forall|j: int|
                0 <= j < i ==> {
                    &&& #[trigger] roots@[j]@ == root_of(cs, cs[j].id@)
                    &&& comment_key(cs, cs[j].id@) == (depths@[j] as nat, positions@[j] as nat)
                    &&& positions@[j] < n
                    &&& comment_key(cs, cs[positions@[j] as int].id@) == comment_key(cs, cs[j].id@)
                    &&& last_index_of(cs, cs[j].id@) == Some(positions@[j] as int)
                },
        decreases n - i,
    {
        let (r, d) = walk_to_root(&comments, &comments[i].id);
        let p = match find_last(&comments, comments[i].id.as_str()) {
            Some(p) => p,
            None => {
                proof {
                    lemma_last_index_of(cs, cs[i as int].id@);
                    assert(false);
                }
                0
            },
        };
        proof {
            lemma_last_index_of(cs, cs[i as int].id@);
            assert(cs[p as int].id@ == cs[i as int].id@);
        }
        roots.push(r);
        depths.push(d);
        positions.push(p);
        i = i + 1;
    }
    let mut order: Vec<String> = Vec::new();
    let mut i: usize = 0;
    while i < n
        invariant
            n == cs.len(),
            i <= n,
            roots@.len() == n,
            forall|j: int| 0 <= j < n ==> #[trigger] roots@[j]@ == root_of(cs, cs[j].id@),
            order@.map_values(|s: String| s@) == thread_order(cs, i as int),
        decreases n - i,
    {
        let mut found = false;
        let mut k: usize = 0;
        while k < order.len()
            invariant
                k <= order@.len(),
                i < roots@.len(),
                found == exists|j: int| 0 <= j < k && #[trigger] order@[j]@ == roots@[i as int]@,
            decreases order@.len() - k,
        {
            if str_eq(order[k].as_str(), roots[i].as_str()) {
                found = true;
            }
            k = k + 1;
        }
        let ghost ov = order@.map_values(|s: String| s@);
        proof {
            let r = root_of(cs, cs[i as int].id@);
            if found {
                let j = choose|j: int| 0 <= j < order@.len() && #[trigger] order@[j]@ == roots@[i as int]@;
                assert(ov[j] == r);
            }
            if ov.contains(r) {
                let j = choose|j: int| 0 <= j < ov.len() && ov[j] == r;
                assert(order@[j]@ == r);
            }
        }
        if !found {
            order.push(roots[i].clone());
            assert(order@.map_values(|s: String| s@) =~= ov.push(roots@[i as int]@));
        }
        i = i + 1;
    }
    let mut threads: Vec<ReviewThread> = Vec::new();
    let mut k: usize = 0;
    while k < order.len()
        invariant
            n == cs.len(),
            cs == comments@,
            roots@.len() == n && depths@.len() == n && positions@.len() == n,
            comment_facts(cs, roots@, depths@, positions@),
            order@.map_values(|s: String| s@) == thread_order(cs, n as int),
            k <= order@.len(),
            threads@.len() == k,
            forall|x: int|
                0 <= x < k ==> is_thread_of(cs, thread_order(cs, n as int)[x], #[trigger] threads@[x]),
        decreases order@.len() - k,
    {
        let t = &order[k];
        let ghost tv = t@;
        assert(thread_order(cs, n as int)[k as int] == tv);
        let mut keys: Vec<(usize, usize)> = Vec::new();
        let mut i: usize = 0;
        assert(key_views(keys@) =~= Seq::<(nat, nat)>::empty());
        while i < n
            invariant
                n == cs.len(),
                roots@.len() == n && depths@.len() == n && positions@.len() == n,
                comment_facts(cs, roots@, depths@, positions@),
                t@ == tv,
                i <= n,
                keys_sorted(key_views(keys@)),
                key_views(keys@).to_multiset() == member_keys(cs, tv, i as int).to_multiset(),
                forall|m: int|
                    0 <= m < keys@.len() ==> {
                        &&& (#[trigger] keys@[m]).1 < n
                        &&& comment_key(cs, cs[keys@[m].1 as int].id@) == (keys@[m].0 as nat, keys@[m].1 as nat)
                        &&& last_index_of(cs, cs[keys@[m].1 as int].id@) == Some(keys@[m].1 as int)
                    },
            decreases n - i,
        {
            let ghost old_kv = key_views(keys@);
            if str_eq(roots[i].as_str(), t.as_str()) {
                let ghost old_keys = keys@;
                insert_sorted(&mut keys, (depths[i], positions[i]));
                proof {
                    broadcast use vstd::seq_lib::group_to_multiset_ensures;
                    assert(root_of(cs, cs[i as int].id@) == tv);
                    assert(member_keys(cs, tv, i + 1) == member_keys(cs, tv, i as int).push(
                        comment_key(cs, cs[i as int].id@),
                    ));
                    let p = positions@[i as int] as int;
                    lemma_last_index_of(cs, cs[i as int].id@);
                    assert(cs[p].id@ == cs[i as int].id@);
                    assert forall|m: int| 0 <= m < keys@.len() implies {
                        &&& (#[trigger] keys@[m]).1 < n
                        &&& comment_key(cs, cs[keys@[m].1 as int].id@) == (keys@[m].0 as nat, keys@[m].1 as nat)
                        &&& last_index_of(cs, cs[keys@[m].1 as int].id@) == Some(keys@[m].1 as int)
                    } by {
                        if keys@[m] != (depths@[i as int], positions@[i as int]) {
                            let q = choose|q: int| 0 <= q < old_keys.len() && old_keys[q] == keys@[m];
                            assert(old_keys[q] == keys@[m]);
                        }
                    }
                }
            } else {
                assert(root_of(cs, cs[i as int].id@) != tv);
                assert(member_keys(cs, tv, i + 1) == member_keys(cs, tv, i as int));
            }
            i = i + 1;
        }
        let mut grouped: Vec<ReviewComment> = Vec::new();
        let mut m: usize = 0;
        while m < keys.len()
            invariant
                n == cs.len(),
                cs == comments@,
                m <= keys@.len(),
                grouped@.len() == m,
                forall|q: int|
                    0 <= q < keys@.len() ==> {
                        &&& (#[trigger] keys@[q]).1 < n
                        &&& comment_key(cs, cs[keys@[q].1 as int].id@) == (keys@[q].0 as nat, keys@[q].1 as nat)
                        &&& last_index_of(cs, cs[keys@[q].1 as int].id@) == Some(keys@[q].1 as int)
                    },
                forall|q: int|
                    0 <= q < m ==> {
                        &&& same_review_comment(#[trigger] grouped@[q], cs[keys@[q].1 as int])
                    },
            decreases keys@.len() - m,
        {
            let c = copy_review_comment(&comments[keys[m].1]);
            grouped.push(c);
            m = m + 1;
        }
        proof {
            assert(thread_keys(cs, grouped@) =~= key_views(keys@)) by {
                assert forall|q: int| 0 <= q < grouped@.len() implies thread_keys(cs, grouped@)[q]
                    == key_views(keys@)[q] by {
                    assert(grouped@[q].id@ == cs[keys@[q].1 as int].id@);
                }
            }
            assert forall|q: int| 0 <= q < grouped@.len() implies {
                &&& last_index_of(cs, #[trigger] grouped@[q].id@) is Some
                &&& same_review_comment(grouped@[q], cs[last_index_of(cs, grouped@[q].id@)->0])
            } by {
                assert(grouped@[q].id@ == cs[keys@[q].1 as int].id@);
            }
        }
        let path = match find_last(&comments, t.as_str()) {
            Some(ix) => if comments[ix].path.is_some() {
                copy_opt(&comments[ix].path)
            } else {
                first_path_of(&grouped)
            },
            None => first_path_of(&grouped),
        };
        let thread = ReviewThread {
            id: t.clone(),
            path,
            is_resolved: None,
            is_outdated: None,
            comments: grouped,
        };
        threads.push(thread);
        k = k + 1;
    }
    threads
}

} // verus!
