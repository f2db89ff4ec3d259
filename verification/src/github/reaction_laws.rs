//! What the reaction conversions promise of every input, stated against GitHub's own
//! tables of reaction contents and names.
use vstd::prelude::*;

use crate::model::Reaction;

use super::graphql::{
    are_group_reactions, grouped, groups_with, is_reaction_of_group, normalized_content,
    GraphQlReactionGroup,
};
use super::reaction_order::github_reaction_order;
use super::rest::RestReactions;
use super::{counted_reactions, positive_entries, reaction_count_entries, reactions_from_counts};

verus! {

/// The field of `RestReactions` that counts the `a`-th content of GitHub's order:
/// `plus_one` for `+1`, `minus_one` for `-1`, and the field of the same name for `laugh`,
/// `hooray`, `confused`, `heart`, `rocket` and `eyes`.
pub open spec fn rest_count_field(r: RestReactions, a: int) -> u64 {
    if a == 0 {
        r.plus_one
    } else if a == 1 {
        r.minus_one
    } else if a == 2 {
        r.laugh
    } else if a == 3 {
        r.hooray
    } else if a == 4 {
        r.confused
    } else if a == 5 {
        r.heart
    } else if a == 6 {
        r.rocket
    } else {
        r.eyes
    }
}

proof fn lemma_positive_entries_sound(e: Seq<(Seq<char>, u64)>, i: int)
    requires
        0 <= i < positive_entries(e).len(),
    ensures
        exists|k: int| 0 <= k < e.len() && positive_entries(e)[i] == #[trigger] e[k] && e[k].1 > 0,
    decreases e.len(),
{
    let prev = e.drop_last();
    let pp = positive_entries(prev);
    if i < pp.len() {
        lemma_positive_entries_sound(prev, i);
        let k = choose|k: int| 0 <= k < prev.len() && pp[i] == #[trigger] prev[k] && prev[k].1 > 0;
        assert(e[k] == prev[k]);
    } else {
        assert(positive_entries(e)[i] == e[e.len() - 1]);
    }
}

proof fn lemma_positive_entries_complete(e: Seq<(Seq<char>, u64)>, k: int)
    requires
        0 <= k < e.len(),
        e[k].1 > 0,
    ensures
        exists|i: int| 0 <= i < positive_entries(e).len() && #[trigger] positive_entries(e)[i] == e[k],
    decreases e.len(),
{
    let prev = e.drop_last();
    let pp = positive_entries(prev);
    let pe = positive_entries(e);
    if k < prev.len() {
        assert(prev[k] == e[k]);
        lemma_positive_entries_complete(prev, k);
        let i = choose|i: int| 0 <= i < pp.len() && #[trigger] pp[i] == prev[k];
        assert(pe[i] == pp[i]);
    } else {
        assert(pe[pe.len() - 1] == e[k]);
    }
}

proof fn lemma_count_entries_table(r: RestReactions)
    ensures
        reaction_count_entries(r).len() == 8,
        forall|a: int|
            0 <= a < 8 ==> #[trigger] reaction_count_entries(r)[a] == (
                github_reaction_order()[a],
                rest_count_field(r, a),
            ),
{
    let o = github_reaction_order();
    let e = reaction_count_entries(r);
    assert(e[0] == (o[0], rest_count_field(r, 0)));
    assert(e[1] == (o[1], rest_count_field(r, 1)));
    assert(e[2] == (o[2], rest_count_field(r, 2)));
    assert(e[3] == (o[3], rest_count_field(r, 3)));
    assert(e[4] == (o[4], rest_count_field(r, 4)));
    assert(e[5] == (o[5], rest_count_field(r, 5)));
    assert(e[6] == (o[6], rest_count_field(r, 6)));
    assert(e[7] == (o[7], rest_count_field(r, 7)));
}

/// The reactions that REST counts describe hold, for each content with a count above zero
/// and only for those, that content with the count of its own field (`+1` with
/// `plus_one`, `laugh` with `laugh`, ...), and no users.
pub proof fn law_counted_reactions_follow_fields(out: Seq<Reaction>, r: RestReactions)
    requires
        counted_reactions(out, Some(r)),
    ensures
        forall|i: int|
            #![trigger out[i]]
            0 <= i < out.len() ==> exists|a: int|
                0 <= a < 8 && out[i].content@ == #[trigger] github_reaction_order()[a]
                    && out[i].count == rest_count_field(r, a) && out[i].count > 0,
        forall|a: int|
            0 <= a < 8 && #[trigger] rest_count_field(r, a) > 0 ==> exists|i: int|
                0 <= i < out.len() && #[trigger] out[i].content@ == github_reaction_order()[a]
                    && out[i].count == rest_count_field(r, a),
        forall|i: int| 0 <= i < out.len() ==> (#[trigger] out[i]).users@.len() == 0,
{
    let o = github_reaction_order();
    let e = reaction_count_entries(r);
    let pe = positive_entries(e);
    assert(reactions_from_counts(out, pe));
    lemma_count_entries_table(r);
    assert forall|i: int| #![trigger out[i]] 0 <= i < out.len() implies exists|a: int|
        0 <= a < 8 && out[i].content@ == #[trigger] o[a] && out[i].count == rest_count_field(r, a)
            && out[i].count > 0 by {
        lemma_positive_entries_sound(e, i);
        let k = choose|k: int| 0 <= k < e.len() && pe[i] == #[trigger] e[k] && e[k].1 > 0;
        assert(e[k] == (o[k], rest_count_field(r, k)));
        assert(out[i].content@ == pe[i].0 && out[i].count == pe[i].1);
    }
    assert forall|a: int| 0 <= a < 8 && #[trigger] rest_count_field(r, a) > 0 implies exists|i: int|
        0 <= i < out.len() && #[trigger] out[i].content@ == o[a] && out[i].count == rest_count_field(r, a) by {
        assert(e[a] == (o[a], rest_count_field(r, a)));
        lemma_positive_entries_complete(e, a);
        let i = choose|i: int| 0 <= i < pe.len() && #[trigger] pe[i] == e[a];
        assert(out[i].content@ == pe[i].0 && out[i].count == pe[i].1);
    }
}

/// The names that the GraphQL API gives the reaction contents that GitHub knows, in
/// GitHub's order: `THUMBS_UP`, `THUMBS_DOWN`, `LAUGH`, `HOORAY`, `CONFUSED`, `HEART`,
/// `ROCKET`, `EYES`.
pub open spec fn graphql_reaction_names() -> Seq<Seq<char>> {
    seq!["THUMBS_UP"@, "THUMBS_DOWN"@, "LAUGH"@, "HOORAY"@, "CONFUSED"@, "HEART"@, "ROCKET"@, "EYES"@]
}

/// Each GraphQL reaction name becomes the REST name at the same place in GitHub's order
/// (`THUMBS_UP` becomes `+1`, `LAUGH` becomes `laugh`, `HOORAY` becomes `hooray`, ...), and
/// any other content stays as it is.
pub proof fn law_normalized_content_table(c: Seq<char>)
    ensures
        forall|a: int|
            0 <= a < 8 ==> normalized_content(#[trigger] graphql_reaction_names()[a])
                == github_reaction_order()[a],
        !graphql_reaction_names().contains(c) ==> normalized_content(c) == c,
{
    reveal_strlit("THUMBS_UP");
    reveal_strlit("THUMBS_DOWN");
    reveal_strlit("LAUGH");
    reveal_strlit("HOORAY");
    reveal_strlit("CONFUSED");
    reveal_strlit("HEART");
    reveal_strlit("ROCKET");
    reveal_strlit("EYES");
    let g = graphql_reaction_names();
    let o = github_reaction_order();
    assert(g[0] == "THUMBS_UP"@ && g[1] == "THUMBS_DOWN"@ && g[2] == "LAUGH"@ && g[3] == "HOORAY"@);
    assert(g[4] == "CONFUSED"@ && g[5] == "HEART"@ && g[6] == "ROCKET"@ && g[7] == "EYES"@);
    assert(o[0] == "+1"@ && o[1] == "-1"@ && o[2] == "laugh"@ && o[3] == "hooray"@);
    assert(o[4] == "confused"@ && o[5] == "heart"@ && o[6] == "rocket"@ && o[7] == "eyes"@);
    assert("THUMBS_DOWN"@ != "THUMBS_UP"@) by { assert("THUMBS_DOWN"@.len() != "THUMBS_UP"@.len()); }
    assert("LAUGH"@ != "THUMBS_UP"@ && "LAUGH"@ != "THUMBS_DOWN"@) by { assert("LAUGH"@[0] == 'L'); }
    assert("HOORAY"@ != "THUMBS_UP"@ && "HOORAY"@ != "THUMBS_DOWN"@ && "HOORAY"@ != "LAUGH"@) by {
        assert("HOORAY"@[0] == 'H');
    }
    assert("CONFUSED"@ != "THUMBS_UP"@ && "CONFUSED"@ != "THUMBS_DOWN"@ && "CONFUSED"@ != "LAUGH"@
        && "CONFUSED"@ != "HOORAY"@) by {
        assert("CONFUSED"@[0] == 'C');
    }
    assert("HEART"@ != "THUMBS_UP"@ && "HEART"@ != "THUMBS_DOWN"@ && "HEART"@ != "LAUGH"@
        && "HEART"@ != "HOORAY"@ && "HEART"@ != "CONFUSED"@) by {
        assert("HEART"@[1] == 'E' && "HOORAY"@[1] == 'O');
    }
    assert("ROCKET"@ != "THUMBS_UP"@ && "ROCKET"@ != "THUMBS_DOWN"@ && "ROCKET"@ != "LAUGH"@
        && "ROCKET"@ != "HOORAY"@ && "ROCKET"@ != "CONFUSED"@ && "ROCKET"@ != "HEART"@) by {
        assert("ROCKET"@[0] == 'R');
    }
    assert("EYES"@ != "THUMBS_UP"@ && "EYES"@ != "THUMBS_DOWN"@ && "EYES"@ != "LAUGH"@
        && "EYES"@ != "HOORAY"@ && "EYES"@ != "CONFUSED"@ && "EYES"@ != "HEART"@
        && "EYES"@ != "ROCKET"@) by {
        assert("EYES"@[0] == 'E');
    }
    if !g.contains(c) {
        assert(c != g[0] && c != g[1] && c != g[2] && c != g[3]);
        assert(c != g[4] && c != g[5] && c != g[6] && c != g[7]);
    }
}

proof fn lemma_groups_with_member(gs: Seq<GraphQlReactionGroup>, k: Seq<char>, i: int)
    requires
        0 <= i < groups_with(gs, k).len(),
    ensures
        exists|j: int|
            0 <= j < gs.len() && groups_with(gs, k)[i] == #[trigger] gs[j] && gs[j].users.total_count > 0,
    decreases gs.len(),
{
    let prev = gs.drop_last();
    let pw = groups_with(prev, k);
    if i < pw.len() {
        lemma_groups_with_member(prev, k, i);
        let j = choose|j: int| 0 <= j < prev.len() && pw[i] == #[trigger] prev[j] && prev[j].users.total_count > 0;
        assert(gs[j] == prev[j]);
    } else {
        assert(groups_with(gs, k)[i] == gs[gs.len() - 1]);
    }
}

proof fn lemma_grouped_member(keys: Seq<Seq<char>>, gs: Seq<GraphQlReactionGroup>, i: int)
    requires
        0 <= i < grouped(keys, gs).len(),
    ensures
        exists|j: int|
            0 <= j < gs.len() && grouped(keys, gs)[i] == #[trigger] gs[j] && gs[j].users.total_count > 0,
    decreases keys.len(),
{
    let prev = grouped(keys.drop_last(), gs);
    if i < prev.len() {
        lemma_grouped_member(keys.drop_last(), gs, i);
        assert(grouped(keys, gs)[i] == prev[i]);
    } else {
        lemma_groups_with_member(gs, keys.last(), i - prev.len());
        assert(grouped(keys, gs)[i] == groups_with(gs, keys.last())[i - prev.len()]);
    }
}

/// Every reaction made from GraphQL reaction groups comes from a group with reactions: it
/// has that group's count, and its content is the REST name of the group's GraphQL name
/// (`LAUGH` gives `laugh`, `HOORAY` gives `hooray`, ...), or the group's own content where
/// that is no GraphQL name GitHub knows.
pub proof fn law_group_reactions_use_rest_names(out: Seq<Reaction>, gs: Seq<GraphQlReactionGroup>)
    requires
        are_group_reactions(out, Some(gs)),
    ensures
        forall|i: int|
            #![trigger out[i]]
            0 <= i < out.len() ==> exists|j: int|
                {
                    &&& 0 <= j < gs.len()
                    &&& #[trigger] gs[j].users.total_count > 0
                    &&& out[i].count == gs[j].users.total_count
                    &&& forall|a: int|
                        0 <= a < 8 && gs[j].content@ == #[trigger] graphql_reaction_names()[a]
                            ==> out[i].content@ == github_reaction_order()[a]
                    &&& !graphql_reaction_names().contains(gs[j].content@) ==> out[i].content@
                        == gs[j].content@
                },
{
    let keys = choose|keys: Seq<Seq<char>>|
        {
            &&& super::reaction_order::strictly_ordered(keys)
            &&& keys.to_set() == super::graphql::present_contents(gs)
            &&& out.len() == grouped(keys, gs).len()
            &&& forall|i: int|
                0 <= i < out.len() ==> is_reaction_of_group(#[trigger] out[i], grouped(keys, gs)[i])
        };
    assert forall|i: int| #![trigger out[i]] 0 <= i < out.len() implies exists|j: int|
        {
            &&& 0 <= j < gs.len()
            &&& #[trigger] gs[j].users.total_count > 0
            &&& out[i].count == gs[j].users.total_count
            &&& forall|a: int|
                0 <= a < 8 && gs[j].content@ == #[trigger] graphql_reaction_names()[a]
                    ==> out[i].content@ == github_reaction_order()[a]
            &&& !graphql_reaction_names().contains(gs[j].content@) ==> out[i].content@
                == gs[j].content@
        } by {
        lemma_grouped_member(keys, gs, i);
        let j = choose|j: int|
            0 <= j < gs.len() && grouped(keys, gs)[i] == #[trigger] gs[j] && gs[j].users.total_count > 0;
        assert(is_reaction_of_group(out[i], gs[j]));
        law_normalized_content_table(gs[j].content@);
        assert(gs[j].users.total_count > 0);
    }
}

} // verus!
