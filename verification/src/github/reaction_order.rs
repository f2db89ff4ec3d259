use vstd::prelude::*;

use crate::text::{chars_of, lemma_lex_irreflexive, lemma_lex_total,
    lemma_lex_transitive, lex_less, lex_lt, str_eq};

verus! {

/// Where a reaction content stands in GitHub's own order of reactions: the eight known
/// contents first, in the order `+1`, `-1`, `laugh`, `hooray`, `confused`, `heart`,
/// `rocket`, `eyes`; any other content after them, with the rank `usize::MAX`.
pub open spec fn reaction_rank(c: Seq<char>) -> nat {
    if c == "+1"@ {
        0
    } else if c == "-1"@ {
        1
    } else if c == "laugh"@ {
        2
    } else if c == "hooray"@ {
        3
    } else if c == "confused"@ {
        4
    } else if c == "heart"@ {
        5
    } else if c == "rocket"@ {
        6
    } else if c == "eyes"@ {
        7
    } else {
        usize::MAX as nat
    }
}

/// The reaction contents that GitHub knows, in its own order: `+1`, `-1`, `laugh`,
/// `hooray`, `confused`, `heart`, `rocket`, `eyes`.
pub open spec fn github_reaction_order() -> Seq<Seq<char>> {
    seq!["+1"@, "-1"@, "laugh"@, "hooray"@, "confused"@, "heart"@, "rocket"@, "eyes"@]
}

/// The `a`-th known content ranks `a`, and a content that GitHub does not know ranks
/// after all of them.
pub proof fn law_reaction_rank_follows_github_order(c: Seq<char>)
    ensures
        forall|a: int| 0 <= a < 8 ==> reaction_rank(#[trigger] github_reaction_order()[a]) == a,
        !github_reaction_order().contains(c) ==> reaction_rank(c) == usize::MAX,
        !github_reaction_order().contains(c) ==> reaction_rank(c) > 7,
{
    reveal_strlit("+1");
    reveal_strlit("-1");
    reveal_strlit("laugh");
    reveal_strlit("hooray");
    reveal_strlit("confused");
    reveal_strlit("heart");
    reveal_strlit("rocket");
    reveal_strlit("eyes");
    let o = github_reaction_order();
    assert(o[0] == "+1"@ && o[1] == "-1"@ && o[2] == "laugh"@ && o[3] == "hooray"@);
    assert(o[4] == "confused"@ && o[5] == "heart"@ && o[6] == "rocket"@ && o[7] == "eyes"@);
    assert("-1"@ != "+1"@) by { assert("-1"@[0] != "+1"@[0]); }
    assert("laugh"@ != "+1"@ && "laugh"@ != "-1"@) by { assert("laugh"@.len() != 2); }
    assert("hooray"@ != "+1"@ && "hooray"@ != "-1"@ && "hooray"@ != "laugh"@) by {
        assert("hooray"@.len() == 6);
    }
    assert("confused"@ != "+1"@ && "confused"@ != "-1"@ && "confused"@ != "laugh"@
        && "confused"@ != "hooray"@) by {
        assert("confused"@.len() == 8);
    }
    assert("heart"@ != "+1"@ && "heart"@ != "-1"@ && "heart"@ != "laugh"@ && "heart"@ != "hooray"@
        && "heart"@ != "confused"@) by {
        assert("heart"@[0] != "laugh"@[0]);
    }
    assert("rocket"@ != "+1"@ && "rocket"@ != "-1"@ && "rocket"@ != "laugh"@ && "rocket"@
        != "hooray"@ && "rocket"@ != "confused"@ && "rocket"@ != "heart"@) by {
        assert("rocket"@[0] != "hooray"@[0]);
    }
    assert("eyes"@ != "+1"@ && "eyes"@ != "-1"@ && "eyes"@ != "laugh"@ && "eyes"@ != "hooray"@
        && "eyes"@ != "confused"@ && "eyes"@ != "heart"@ && "eyes"@ != "rocket"@) by {
        assert("eyes"@.len() == 4);
    }
    if !o.contains(c) {
        assert(c != o[0] && c != o[1] && c != o[2] && c != o[3]);
        assert(c != o[4] && c != o[5] && c != o[6] && c != o[7]);
    }
}

/// The order in which reactions are listed: by rank, and contents of equal rank
/// (the unknown ones) in lexicographic order.
pub open spec fn reaction_key_lt(a: Seq<char>, b: Seq<char>) -> bool {
    reaction_rank(a) < reaction_rank(b) || (reaction_rank(a) == reaction_rank(b) && lex_lt(a, b))
}

/// `keys` is strictly increasing in the reaction order.
pub open spec fn strictly_ordered(keys: Seq<Seq<char>>) -> bool {
    forall|i: int, j: int| 0 <= i < j < keys.len() ==> reaction_key_lt(keys[i], keys[j])
}

/// The texts of a sequence of strings.
pub open spec fn string_views(v: Seq<String>) -> Seq<Seq<char>> {
    v.map_values(|s: String| s@)
}

pub proof fn lemma_key_irreflexive(a: Seq<char>)
    ensures
        !reaction_key_lt(a, a),
{
    lemma_lex_irreflexive(a);
}

pub proof fn lemma_key_transitive(a: Seq<char>, b: Seq<char>, c: Seq<char>)
    requires
        reaction_key_lt(a, b),
        reaction_key_lt(b, c),
    ensures
        reaction_key_lt(a, c),
{
    if reaction_rank(a) == reaction_rank(b) && reaction_rank(b) == reaction_rank(c) {
        lemma_lex_transitive(a, b, c);
    }
}

pub proof fn lemma_key_total(a: Seq<char>, b: Seq<char>)
    requires
        a != b,
    ensures
        reaction_key_lt(a, b) || reaction_key_lt(b, a),
{
    if reaction_rank(a) == reaction_rank(b) {
        lemma_lex_total(a, b);
    }
}

/// The rank of a reaction content.
pub fn reaction_rank_of(c: &str) -> (r: usize)
    ensures
        r == reaction_rank(c@),
{
    if str_eq(c, "+1") {
        0
    } else if str_eq(c, "-1") {
        1
    } else if str_eq(c, "laugh") {
        2
    } else if str_eq(c, "hooray") {
        3
    } else if str_eq(c, "confused") {
        4
    } else if str_eq(c, "heart") {
        5
    } else if str_eq(c, "rocket") {
        6
    } else if str_eq(c, "eyes") {
        7
    } else {
        usize::MAX
    }
}

/// Whether reaction content `a` is listed before reaction content `b`.
pub fn reaction_key_less(a: &str, b: &str) -> (r: bool)
    ensures
        r == reaction_key_lt(a@, b@),
{
    let ra = reaction_rank_of(a);
    let rb = reaction_rank_of(b);
    if ra != rb {
        ra < rb
    } else {
        let ca = chars_of(a);
        let cb = chars_of(b);
        lex_less(&ca, &cb)
    }
}

/// Adds `k` to the strictly ordered `keys`, unless it is there already.
pub fn insert_key(keys: &mut Vec<String>, k: &String)
    requires
        strictly_ordered(string_views(old(keys)@)),
    ensures
        strictly_ordered(string_views(final(keys)@)),
        string_views(final(keys)@).to_set() == string_views(old(keys)@).to_set().insert(k@),
{
    let ghost old_views = string_views(keys@);
    let mut p: usize = 0;
    while p < keys.len() && reaction_key_less(keys[p].as_str(), k.as_str())
        invariant
            p <= keys@.len(),
            keys@ == old(keys)@,
            forall|i: int| 0 <= i < p ==> reaction_key_lt(#[trigger] keys@[i]@, k@),
        decreases keys@.len() - p,
    {
        p = p + 1;
    }
    if p < keys.len() && str_eq(keys[p].as_str(), k.as_str()) {
        assert(string_views(keys@)[p as int] == k@);
        assert(string_views(keys@).to_set() =~= old_views.to_set().insert(k@));
        return;
    }
    proof {
        if p < keys@.len() {
            lemma_key_total(keys@[p as int]@, k@);
        }
    }
    keys.insert(p, k.clone());
    proof {
        let nv = string_views(keys@);
        assert(nv =~= old_views.insert(p as int, k@));
        assert forall|i: int, j: int| 0 <= i < j < nv.len() implies reaction_key_lt(nv[i], nv[j]) by {
            if i < p && j == p {
            } else if i < p && j > p {
                assert(old_views[j - 1] == nv[j]);
                if p < old_views.len() {
                    assert(reaction_key_lt(old_views[p as int], old_views[j - 1]) || p == j - 1);
                    if p != j - 1 {
                        lemma_key_transitive(k@, old_views[p as int], old_views[j - 1]);
                    }
                }
            } else if i == p && j > p {
                if j - 1 > p {
                    lemma_key_transitive(k@, old_views[p as int], old_views[j - 1]);
                }
            } else if i > p {
                assert(nv[i] == old_views[i - 1]);
                assert(nv[j] == old_views[j - 1]);
            }
        }
        assert forall|x: Seq<char>| nv.to_set().contains(x) <==> old_views.to_set().insert(k@).contains(x) by {
            if nv.to_set().contains(x) {
                let i = choose|i: int| 0 <= i < nv.len() && nv[i] == x;
                if i < p {
                    assert(old_views[i] == x);
                } else if i > p {
                    assert(old_views[i - 1] == x);
                }
            }
            if old_views.to_set().contains(x) {
                let i = choose|i: int| 0 <= i < old_views.len() && old_views[i] == x;
                if i < p {
                    assert(nv[i] == x);
                } else {
                    assert(nv[i + 1] == x);
                }
            }
            if x == k@ {
                assert(nv[p as int] == x);
            }
        }
        assert(nv.to_set() =~= old_views.to_set().insert(k@));
    }
}

} // verus!
