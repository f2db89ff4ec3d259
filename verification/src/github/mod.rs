use vstd::prelude::*;

pub mod graphql;
pub mod reaction_order;
pub mod rest;
pub mod review_threads;
pub mod timeline;
pub mod enrich;
pub mod client;
pub mod documents;
pub mod pull_documents;
pub mod graphql_convert;
pub mod graphql_documents;
pub mod finish;
pub mod reaction_laws;

use crate::model::{
    Actor, ChangedFile, Comment, CommitSummary, Label, MetadataField, Milestone,
    Reaction, Review, ReviewComment,
};
use crate::text::{
    bool_text, bool_to_text, copy_opt, decimal_digits, i64_to_decimal, lowercase, signed_decimal,
    str_eq, to_lowercase, u64_to_decimal,
};

use self::reaction_order::{
    github_reaction_order, insert_key, law_reaction_rank_follows_github_order, lemma_key_irreflexive,
    reaction_key_lt, reaction_rank, string_views, strictly_ordered,
};
use self::rest::{
    RestActor, RestCommit, RestIssue, RestIssueComment, RestLabel, RestMilestone, RestPullRequest,
    RestPullRequestComment, RestPullRequestFile, RestPullRequestReview, RestReaction,
    RestReactions,
};

pub use self::review_threads::group_review_comments;

verus! {

/// `out` is the model actor for the REST actor `a`.
pub open spec fn is_actor_of(out: Actor, a: RestActor) -> bool {
    out.login == a.login && out.url == a.html_url
}

/// `out` holds, in order, the model actors for the REST actors `src`.
pub open spec fn actors_of(out: Seq<Actor>, src: Seq<RestActor>) -> bool {
    out.len() == src.len() && forall|i: int| 0 <= i < src.len() ==> is_actor_of(#[trigger] out[i], src[i])
}

pub fn to_actor(actor: &RestActor) -> (r: Actor)
    ensures
        is_actor_of(r, *actor),
{
    Actor { login: actor.login.clone(), url: crate::text::copy_opt(&actor.html_url) }
}

/// The contents of a sequence of individual reactions.
pub open spec fn reaction_contents(rs: Seq<RestReaction>) -> Seq<Seq<char>> {
    rs.map_values(|r: RestReaction| r.content@)
}

/// How many of the reactions `rs` have content `c`.
pub open spec fn content_count(rs: Seq<RestReaction>, c: Seq<char>) -> nat
    decreases rs.len(),
{
    if rs.len() == 0 {
        0
    } else {
        content_count(rs.drop_last(), c) + if rs.last().content@ == c { 1nat } else { 0nat }
    }
}

/// Some actor in `us` has login `login`.
pub open spec fn has_login(us: Seq<RestActor>, login: Seq<char>) -> bool {
    exists|i: int| 0 <= i < us.len() && #[trigger] us[i].login@ == login
}

/// The users who reacted with content `c`, each login once, in the order of their
/// first reaction with that content.
pub open spec fn reaction_users(rs: Seq<RestReaction>, c: Seq<char>) -> Seq<RestActor>
    decreases rs.len(),
{
    if rs.len() == 0 {
        Seq::empty()
    } else {
        let prev = reaction_users(rs.drop_last(), c);
        let r = rs.last();
        if r.content@ == c && r.user is Some && !has_login(prev, r.user->0.login@) {
            prev.push(r.user->0)
        } else {
            prev
        }
    }
}

/// The contents of a sequence of aggregated reactions.
pub open spec fn aggregated_contents(out: Seq<Reaction>) -> Seq<Seq<char>> {
    out.map_values(|r: Reaction| r.content@)
}

proof fn lemma_content_count_bound(rs: Seq<RestReaction>, c: Seq<char>)
    ensures
        content_count(rs, c) <= rs.len(),
    decreases rs.len(),
{
    if rs.len() > 0 {
        lemma_content_count_bound(rs.drop_last(), c);
    }
}

/// The reactions of one content among `reactions`: how many there are and who gave them.
fn tally_content(reactions: &Vec<RestReaction>, key: &String) -> (r: Reaction)
    ensures
        r.content == *key,
        r.count == content_count(reactions@, key@),
        actors_of(r.users@, reaction_users(reactions@, key@)),
{
    let mut count: u64 = 0;
    let mut users: Vec<Actor> = Vec::new();
    let mut i: usize = 0;
    while i < reactions.len()
        invariant
            i <= reactions@.len(),
            count == content_count(reactions@.take(i as int), key@),
            actors_of(users@, reaction_users(reactions@.take(i as int), key@)),
        decreases reactions@.len() - i,
    {
        let r = &reactions[i];
        let ghost prefix = reactions@.take(i as int);
        let ghost next = reactions@.take(i + 1);
        assert(next.drop_last() =~= prefix);
        assert(next.last() == *r);
        proof {
            lemma_content_count_bound(prefix, key@);
        }
        if str_eq(r.content.as_str(), key.as_str()) {
            count = count + 1;
            match &r.user {
                Some(u) => {
                    let mut seen = false;
                    let mut j: usize = 0;
                    while j < users.len()
                        invariant
                            j <= users@.len(),
                            actors_of(users@, reaction_users(prefix, key@)),
                            seen == exists|k: int| 0 <= k < j && #[trigger] users@[k].login@ == u.login@,
                        decreases users@.len() - j,
                    {
                        if str_eq(users[j].login.as_str(), u.login.as_str()) {
                            seen = true;
                        }
                        j = j + 1;
                    }
                    proof {
                        let us = reaction_users(prefix, key@);
                        if has_login(us, u.login@) {
                            let k = choose|k: int| 0 <= k < us.len() && #[trigger] us[k].login@ == u.login@;
                            assert(users@[k].login@ == u.login@);
                        }
                        if seen {
                            let k = choose|k: int| 0 <= k < j && #[trigger] users@[k].login@ == u.login@;
                            assert(us[k].login@ == u.login@);
                        }
                    }
                    if !seen {
                        users.push(to_actor(u));
                    }
                },
                None => {},
            }
        }
        i = i + 1;
    }
    assert(reactions@.take(reactions@.len() as int) =~= reactions@);
    Reaction { content: key.clone(), count, users }
}

/// `out` groups the individual reactions `rs` by content: one reaction per content used,
/// in GitHub's reaction order, each counting the reactions with its content and listing
/// the users who gave them.
pub open spec fn aggregates(out: Seq<Reaction>, rs: Seq<RestReaction>) -> bool {
    &&& strictly_ordered(aggregated_contents(out))
    &&& aggregated_contents(out).to_set() == reaction_contents(rs).to_set()
    &&& forall|i: int| 0 <= i < out.len() ==> {
        &&& #[trigger] out[i].count == content_count(rs, out[i].content@)
        &&& actors_of(out[i].users@, reaction_users(rs, out[i].content@))
    }
}

/// The sum of the counts of reactions.
pub open spec fn total_count(out: Seq<Reaction>) -> nat
    decreases out.len(),
{
    if out.len() == 0 {
        0
    } else {
        total_count(out.drop_last()) + out.last().count as nat
    }
}

/// The reactions with any of the contents `keys`, counted content by content.
pub open spec fn counts_over(keys: Seq<Seq<char>>, rs: Seq<RestReaction>) -> nat
    decreases keys.len(),
{
    if keys.len() == 0 {
        0
    } else {
        counts_over(keys.drop_last(), rs) + content_count(rs, keys.last())
    }
}

/// How often `c` occurs among `keys`.
pub open spec fn occurrences(keys: Seq<Seq<char>>, c: Seq<char>) -> nat
    decreases keys.len(),
{
    if keys.len() == 0 {
        0
    } else {
        occurrences(keys.drop_last(), c) + if keys.last() == c { 1nat } else { 0nat }
    }
}

proof fn lemma_counts_over_push(keys: Seq<Seq<char>>, rs: Seq<RestReaction>, x: RestReaction)
    ensures
        counts_over(keys, rs.push(x)) == counts_over(keys, rs) + occurrences(keys, x.content@),
    decreases keys.len(),
{
    assert(rs.push(x).drop_last() =~= rs);
    if keys.len() > 0 {
        lemma_counts_over_push(keys.drop_last(), rs, x);
    }
}

proof fn lemma_occurrences(keys: Seq<Seq<char>>, c: Seq<char>)
    requires
        keys.no_duplicates(),
    ensures
        occurrences(keys, c) == if keys.contains(c) { 1nat } else { 0nat },
    decreases keys.len(),
{
    if keys.len() > 0 {
        let prev = keys.drop_last();
        assert(prev.no_duplicates());
        lemma_occurrences(prev, c);
        if keys.last() == c && prev.contains(c) {
            let k = choose|k: int| 0 <= k < prev.len() && prev[k] == c;
            assert(keys[k] == keys[keys.len() - 1]);
        }
        if keys.contains(c) && keys.last() != c {
            let k = choose|k: int| 0 <= k < keys.len() && keys[k] == c;
            assert(prev[k] == c);
        }
        if prev.contains(c) {
            let k = choose|k: int| 0 <= k < prev.len() && prev[k] == c;
            assert(keys[k] == c);
        }
        if keys.last() == c {
            assert(keys[keys.len() - 1] == c);
        }
    }
}

proof fn lemma_counts_over_all(keys: Seq<Seq<char>>, rs: Seq<RestReaction>)
    requires
        keys.no_duplicates(),
        forall|i: int| 0 <= i < rs.len() ==> keys.contains(#[trigger] rs[i].content@),
    ensures
        counts_over(keys, rs) == rs.len(),
    decreases rs.len(),
{
    if rs.len() == 0 {
        lemma_counts_over_empty(keys, rs);
    } else {
        let prev = rs.drop_last();
        assert forall|i: int| 0 <= i < prev.len() implies keys.contains(#[trigger] prev[i].content@) by {
            assert(prev[i] == rs[i]);
        }
        lemma_counts_over_all(keys, prev);
        assert(prev.push(rs.last()) =~= rs);
        lemma_counts_over_push(keys, prev, rs.last());
        assert(keys.contains(rs[rs.len() - 1].content@));
        lemma_occurrences(keys, rs.last().content@);
    }
}

proof fn lemma_counts_over_empty(keys: Seq<Seq<char>>, rs: Seq<RestReaction>)
    requires
        rs.len() == 0,
    ensures
        counts_over(keys, rs) == 0,
    decreases keys.len(),
{
    if keys.len() > 0 {
        lemma_counts_over_empty(keys.drop_last(), rs);
    }
}

proof fn lemma_total_is_counts_over(out: Seq<Reaction>, rs: Seq<RestReaction>)
    requires
        forall|i: int| 0 <= i < out.len() ==> #[trigger] out[i].count == content_count(rs, out[i].content@),
    ensures
        total_count(out) == counts_over(aggregated_contents(out), rs),
    decreases out.len(),
{
    if out.len() > 0 {
        let prev = out.drop_last();
        assert forall|i: int| 0 <= i < prev.len() implies #[trigger] prev[i].count == content_count(rs, prev[i].content@) by {
            assert(prev[i] == out[i]);
        }
        lemma_total_is_counts_over(prev, rs);
        assert(aggregated_contents(out).drop_last() =~= aggregated_contents(prev));
        assert(out[out.len() - 1].count == content_count(rs, out[out.len() - 1].content@));
    }
}

/// The counts of grouped reactions add up to the number of individual reactions.
pub proof fn law_aggregate_counts_total(out: Seq<Reaction>, rs: Seq<RestReaction>)
    requires
        aggregates(out, rs),
    ensures
        total_count(out) == rs.len(),
{
    let keys = aggregated_contents(out);
    assert forall|i: int, j: int| 0 <= i < keys.len() && 0 <= j < keys.len() && i != j implies keys[i] != keys[j] by {
        if i < j {
            self::reaction_order::lemma_key_irreflexive(keys[i]);
        } else {
            self::reaction_order::lemma_key_irreflexive(keys[j]);
        }
    }
    assert forall|i: int| 0 <= i < rs.len() implies keys.contains(#[trigger] rs[i].content@) by {
        assert(reaction_contents(rs)[i] == rs[i].content@);
        assert(reaction_contents(rs).to_set().contains(rs[i].content@));
        assert(keys.to_set().contains(rs[i].content@));
    }
    lemma_total_is_counts_over(out, rs);
    lemma_counts_over_all(keys, rs);
}

/// Aggregated reactions list the contents that GitHub knows in its order (`+1`, `-1`,
/// `laugh`, `hooray`, `confused`, `heart`, `rocket`, `eyes`), and all of them before any
/// content that it does not know.
pub proof fn law_aggregate_github_order(out: Seq<Reaction>, rs: Seq<RestReaction>)
    requires
        aggregates(out, rs),
    ensures
        forall|i: int, j: int, a: int, b: int|
            #![trigger out[i], out[j], github_reaction_order()[a], github_reaction_order()[b]]
            0 <= i < j < out.len() && 0 <= a < 8 && 0 <= b < 8 && out[i].content@
                == github_reaction_order()[a] && out[j].content@ == github_reaction_order()[b]
                ==> a < b,
        forall|i: int, j: int|
            0 <= i < j < out.len() && github_reaction_order().contains(#[trigger] out[j].content@)
                ==> github_reaction_order().contains(#[trigger] out[i].content@),
{
    let o = github_reaction_order();
    let keys = aggregated_contents(out);
    law_reaction_rank_follows_github_order(Seq::empty());
    assert forall|i: int, j: int, a: int, b: int|
        0 <= i < j < out.len() && 0 <= a < 8 && 0 <= b < 8 && out[i].content@ == o[a]
            && out[j].content@ == o[b] implies a < b by {
        assert(keys[i] == out[i].content@ && keys[j] == out[j].content@);
        assert(reaction_key_lt(keys[i], keys[j]));
        assert(reaction_rank(o[a]) == a && reaction_rank(o[b]) == b);
        if a == b {
            lemma_key_irreflexive(keys[i]);
        }
    }
    assert forall|i: int, j: int|
        0 <= i < j < out.len() && o.contains(#[trigger] out[j].content@) implies o.contains(
            #[trigger] out[i].content@,
        ) by {
        assert(keys[i] == out[i].content@ && keys[j] == out[j].content@);
        assert(reaction_key_lt(keys[i], keys[j]));
        let b = choose|b: int| 0 <= b < o.len() && o[b] == out[j].content@;
        assert(reaction_rank(o[b]) == b);
        law_reaction_rank_follows_github_order(keys[i]);
    }
}

/// Groups individual reactions by content: for each content, how many reactions have it
/// and which users gave it, listed in GitHub's reaction order (the known contents in
/// their fixed order, then any other content in lexicographic order).
#[verifier::spinoff_prover]
pub fn aggregate_reactions(reactions: Vec<RestReaction>) -> (out: Vec<Reaction>)
    ensures
        aggregates(out@, reactions@),
{
    let mut keys: Vec<String> = Vec::new();
    let mut i: usize = 0;
    assert(string_views(keys@).to_set() =~= reaction_contents(reactions@.take(0)).to_set());
    while i < reactions.len()
        invariant
            i <= reactions@.len(),
            strictly_ordered(string_views(keys@)),
            string_views(keys@).to_set() == reaction_contents(reactions@.take(i as int)).to_set(),
        decreases reactions@.len() - i,
    {
        insert_key(&mut keys, &reactions[i].content);
        proof {
            assert(reaction_contents(reactions@.take(i + 1)) =~= reaction_contents(
                reactions@.take(i as int),
            ).push(reactions@[i as int].content@));
            reaction_contents(reactions@.take(i as int)).lemma_push_to_set_commute(
                reactions@[i as int].content@,
            );
        }
        i = i + 1;
    }
    assert(reactions@.take(reactions@.len() as int) =~= reactions@);
    let mut out: Vec<Reaction> = Vec::new();
    let mut j: usize = 0;
    while j < keys.len()
        invariant
            j <= keys@.len(),
            aggregated_contents(out@) =~= string_views(keys@).take(j as int),
            forall|k: int| 0 <= k < out@.len() ==> {
                &&& #[trigger] out@[k].count == content_count(reactions@, out@[k].content@)
                &&& actors_of(out@[k].users@, reaction_users(reactions@, out@[k].content@))
            },
        decreases keys@.len() - j,
    {
        let r = tally_content(&reactions, &keys[j]);
        let ghost old_out = out@;
        out.push(r);
        proof {
            assert(aggregated_contents(out@) =~= aggregated_contents(old_out).push(r.content@));
            assert(string_views(keys@).take(j + 1) =~= string_views(keys@).take(j as int).push(
                keys@[j as int]@,
            ));
        }
        j = j + 1;
    }
    assert(string_views(keys@).take(keys@.len() as int) =~= string_views(keys@));
    let ghost tallies = out@;
    assert forall|k: int| 0 <= k < tallies.len() implies {
        &&& #[trigger] tallies[k].count == content_count(reactions@, tallies[k].content@)
        &&& actors_of(tallies[k].users@, reaction_users(reactions@, tallies[k].content@))
    } by {}
    out
}

/// `out` is the model form of the optional REST actor `a`.
pub open spec fn is_opt_actor_of(out: Option<Actor>, a: Option<RestActor>) -> bool {
    match (out, a) {
        (Some(o), Some(a)) => is_actor_of(o, a),
        (None, None) => true,
        _ => false,
    }
}

pub fn to_opt_actor(actor: &Option<RestActor>) -> (r: Option<Actor>)
    ensures
        is_opt_actor_of(r, *actor),
{
    match actor {
        Some(a) => Some(to_actor(a)),
        None => None,
    }
}

pub(crate) fn to_actor_list(actors: &Vec<RestActor>) -> (r: Vec<Actor>)
    ensures
        actors_of(r@, actors@),
{
    let mut r: Vec<Actor> = Vec::new();
    let mut i: usize = 0;
    while i < actors.len()
        invariant
            i <= actors@.len(),
            actors_of(r@, actors@.take(i as int)),
        decreases actors@.len() - i,
    {
        r.push(to_actor(&actors[i]));
        i = i + 1;
    }
    assert(actors@.take(actors@.len() as int) =~= actors@);
    r
}

/// The text of an optional body: the body, or nothing.
pub open spec fn text_or_empty(s: Option<String>) -> Seq<char> {
    match s {
        Some(s) => s@,
        None => Seq::empty(),
    }
}

pub fn string_or_default(s: &Option<String>) -> (r: String)
    ensures
        r@ == text_or_empty(*s),
{
    match s {
        Some(s) => s.clone(),
        None => String::new(),
    }
}

/// The lower-case form of an optional text.
pub open spec fn opt_lowercase(s: Option<String>) -> Option<Seq<char>> {
    match s {
        Some(s) => Some(lowercase(s@)),
        None => None,
    }
}

/// The text of an optional string.
pub open spec fn opt_view(s: Option<String>) -> Option<Seq<char>> {
    match s {
        Some(s) => Some(s@),
        None => None,
    }
}

pub(crate) fn to_lowercase_opt(s: &Option<String>) -> (r: Option<String>)
    ensures
        opt_view(r) == opt_lowercase(*s),
{
    match s {
        Some(s) => Some(to_lowercase(s.as_str())),
        None => None,
    }
}

/// The decimal text of an optional id.
pub open spec fn opt_decimal(n: Option<u64>) -> Option<Seq<char>> {
    match n {
        Some(n) => Some(decimal_digits(n as nat)),
        None => None,
    }
}

fn opt_u64_to_decimal(n: Option<u64>) -> (r: Option<String>)
    ensures
        opt_view(r) == opt_decimal(n),
{
    match n {
        Some(n) => Some(u64_to_decimal(n)),
        None => None,
    }
}

/// `out` is the model label for the REST label `l`.
pub open spec fn is_label_of(out: Label, l: RestLabel) -> bool {
    out.name == l.name && out.color == l.color && out.description == l.description
}

pub fn to_label(label: &RestLabel) -> (r: Label)
    ensures
        is_label_of(r, *label),
{
    Label {
        name: label.name.clone(),
        color: copy_opt(&label.color),
        description: copy_opt(&label.description),
    }
}

pub(crate) fn to_label_list(labels: &Vec<RestLabel>) -> (r: Vec<Label>)
    ensures
        r@.len() == labels@.len(),
        forall|i: int| 0 <= i < labels@.len() ==> is_label_of(#[trigger] r@[i], labels@[i]),
{
    let mut r: Vec<Label> = Vec::new();
    let mut i: usize = 0;
    while i < labels.len()
        invariant
            i <= labels@.len(),
            r@.len() == i,
            forall|j: int| 0 <= j < i ==> is_label_of(#[trigger] r@[j], labels@[j]),
        decreases labels@.len() - i,
    {
        r.push(to_label(&labels[i]));
        i = i + 1;
    }
    r
}

/// `out` is the model milestone for the REST milestone `m`; its state is lower-cased.
pub open spec fn is_milestone_of(out: Milestone, m: RestMilestone) -> bool {
    &&& out.title == m.title
    &&& opt_view(out.state) == opt_lowercase(m.state)
    &&& out.due_on == m.due_on
    &&& out.url == m.html_url
}

pub fn to_milestone(milestone: &RestMilestone) -> (r: Milestone)
    ensures
        is_milestone_of(r, *milestone),
{
    Milestone {
        title: milestone.title.clone(),
        state: to_lowercase_opt(&milestone.state),
        due_on: milestone.due_on,
        url: copy_opt(&milestone.html_url),
    }
}

/// The REST reaction counts under their contents, in GitHub's reaction order.
pub open spec fn reaction_count_entries(r: RestReactions) -> Seq<(Seq<char>, u64)> {
    seq![
        ("+1"@, r.plus_one),
        ("-1"@, r.minus_one),
        ("laugh"@, r.laugh),
        ("hooray"@, r.hooray),
        ("confused"@, r.confused),
        ("heart"@, r.heart),
        ("rocket"@, r.rocket),
        ("eyes"@, r.eyes),
    ]
}

/// The entries with a count above zero, in order.
pub open spec fn positive_entries(entries: Seq<(Seq<char>, u64)>) -> Seq<(Seq<char>, u64)>
    decreases entries.len(),
{
    if entries.len() == 0 {
        Seq::empty()
    } else {
        let prev = positive_entries(entries.drop_last());
        if entries.last().1 > 0 {
            prev.push(entries.last())
        } else {
            prev
        }
    }
}

/// `out` lists, in order, reactions with the given contents and counts and no users.
pub open spec fn reactions_from_counts(out: Seq<Reaction>, entries: Seq<(Seq<char>, u64)>) -> bool {
    &&& out.len() == entries.len()
    &&& forall|i: int|
        0 <= i < out.len() ==> {
            &&& (#[trigger] out[i]).content@ == entries[i].0
            &&& out[i].count == entries[i].1
            &&& out[i].users@.len() == 0
        }
}

/// The reactions that REST counts describe: one per content with a count above zero.
pub open spec fn counted_reactions(out: Seq<Reaction>, r: Option<RestReactions>) -> bool {
    match r {
        Some(r) => reactions_from_counts(out, positive_entries(reaction_count_entries(r))),
        None => out.len() == 0,
    }
}

fn push_count(out: &mut Vec<Reaction>, content: &str, count: u64, Ghost(done): Ghost<Seq<(Seq<char>, u64)>>)
    requires
        reactions_from_counts(old(out)@, positive_entries(done)),
    ensures
        reactions_from_counts(final(out)@, positive_entries(done.push((content@, count)))),
{
    assert(done.push((content@, count)).drop_last() =~= done);
    if count > 0 {
        out.push(Reaction { content: String::from_str(content), count, users: Vec::new() });
    }
}

/// The reactions that the REST API's counts describe, in GitHub's reaction order, without
/// the contents that nobody used.
pub fn to_reactions(reactions: Option<&RestReactions>) -> (out: Vec<Reaction>)
    ensures
        counted_reactions(
            out@,
            match reactions {
                Some(r) => Some(*r),
                None => None,
            },
        ),
{
    let r = match reactions {
        Some(r) => r,
        None => {
            return Vec::new();
        },
    };
    let mut out: Vec<Reaction> = Vec::new();
    let ghost e = reaction_count_entries(*r);
    assert(positive_entries(e.take(0)) =~= Seq::<(Seq<char>, u64)>::empty());
    push_count(&mut out, "+1", r.plus_one, Ghost(e.take(0)));
    assert(e.take(0).push(e[0]) =~= e.take(1));
    push_count(&mut out, "-1", r.minus_one, Ghost(e.take(1)));
    assert(e.take(1).push(e[1]) =~= e.take(2));
    push_count(&mut out, "laugh", r.laugh, Ghost(e.take(2)));
    assert(e.take(2).push(e[2]) =~= e.take(3));
    push_count(&mut out, "hooray", r.hooray, Ghost(e.take(3)));
    assert(e.take(3).push(e[3]) =~= e.take(4));
    push_count(&mut out, "confused", r.confused, Ghost(e.take(4)));
    assert(e.take(4).push(e[4]) =~= e.take(5));
    push_count(&mut out, "heart", r.heart, Ghost(e.take(5)));
    assert(e.take(5).push(e[5]) =~= e.take(6));
    push_count(&mut out, "rocket", r.rocket, Ghost(e.take(6)));
    assert(e.take(6).push(e[6]) =~= e.take(7));
    push_count(&mut out, "eyes", r.eyes, Ghost(e.take(7)));
    assert(e.take(7).push(e[7]) =~= e);
    out
}

pub(crate) fn opt_reactions(r: &Option<RestReactions>) -> (out: Vec<Reaction>)
    ensures
        counted_reactions(out@, *r),
{
    match r {
        Some(x) => to_reactions(Some(x)),
        None => to_reactions(None),
    }
}

/// `out` is the model comment for the REST issue comment `c`.
pub open spec fn is_comment_of(out: Comment, c: RestIssueComment) -> bool {
    &&& out.id@ == decimal_digits(c.id as nat)
    &&& out.url == c.html_url
    &&& is_opt_actor_of(out.author, c.user)
    &&& out.author_association == c.author_association
    &&& out.body@ == text_or_empty(c.body)
    &&& out.created_at == Some(c.created_at)
    &&& out.updated_at == Some(c.updated_at)
    &&& counted_reactions(out.reactions@, c.reactions)
    &&& out.metadata@.len() == 0
    &&& out.replies@.len() == 0
    &&& !out.is_answer
}

pub fn to_comment(comment: &RestIssueComment) -> (r: Comment)
    ensures
        is_comment_of(r, *comment),
{
    Comment {
        id: u64_to_decimal(comment.id),
        url: comment.html_url.clone(),
        author: to_opt_actor(&comment.user),
        author_association: copy_opt(&comment.author_association),
        body: string_or_default(&comment.body),
        created_at: Some(comment.created_at),
        updated_at: Some(comment.updated_at),
        reactions: opt_reactions(&comment.reactions),
        metadata: Vec::new(),
        replies: Vec::new(),
        is_answer: false,
    }
}

/// `out` is the model review for the REST review `r`; its state is lower-cased.
pub open spec fn is_review_of(out: Review, r: RestPullRequestReview) -> bool {
    &&& out.id@ == decimal_digits(r.id as nat)
    &&& out.url == r.html_url
    &&& is_opt_actor_of(out.author, r.user)
    &&& out.author_association == r.author_association
    &&& out.state@ == lowercase(r.state@)
    &&& out.body@ == text_or_empty(r.body)
    &&& out.submitted_at == r.submitted_at
    &&& out.commit_id == r.commit_id
    &&& counted_reactions(out.reactions@, r.reactions)
}

pub fn to_review(review: &RestPullRequestReview) -> (r: Review)
    ensures
        is_review_of(r, *review),
{
    Review {
        id: u64_to_decimal(review.id),
        url: review.html_url.clone(),
        author: to_opt_actor(&review.user),
        author_association: copy_opt(&review.author_association),
        state: to_lowercase(review.state.as_str()),
        body: string_or_default(&review.body),
        submitted_at: review.submitted_at,
        commit_id: copy_opt(&review.commit_id),
        reactions: opt_reactions(&review.reactions),
    }
}

/// `out` is the model review comment for the REST review comment `c`.
pub open spec fn is_review_comment_of(out: ReviewComment, c: RestPullRequestComment) -> bool {
    &&& out.id@ == decimal_digits(c.id as nat)
    &&& out.url == c.html_url
    &&& is_opt_actor_of(out.author, c.user)
    &&& out.author_association == c.author_association
    &&& out.body@ == text_or_empty(c.body)
    &&& out.created_at == Some(c.created_at)
    &&& out.updated_at == Some(c.updated_at)
    &&& out.path == Some(c.path)
    &&& out.line == c.line
    &&& out.start_line == c.start_line
    &&& out.diff_hunk == c.diff_hunk
    &&& opt_view(out.in_reply_to) == opt_decimal(c.in_reply_to_id)
    &&& opt_view(out.review_id) == opt_decimal(c.pull_request_review_id)
    &&& out.is_minimized is None
    &&& out.minimized_reason is None
    &&& counted_reactions(out.reactions@, c.reactions)
}

pub fn to_review_comment(comment: &RestPullRequestComment) -> (r: ReviewComment)
    ensures
        is_review_comment_of(r, *comment),
{
    ReviewComment {
        id: u64_to_decimal(comment.id),
        url: comment.html_url.clone(),
        author: to_opt_actor(&comment.user),
        author_association: copy_opt(&comment.author_association),
        body: string_or_default(&comment.body),
        created_at: Some(comment.created_at),
        updated_at: Some(comment.updated_at),
        path: Some(comment.path.clone()),
        line: comment.line,
        start_line: comment.start_line,
        diff_hunk: copy_opt(&comment.diff_hunk),
        in_reply_to: opt_u64_to_decimal(comment.in_reply_to_id),
        review_id: opt_u64_to_decimal(comment.pull_request_review_id),
        is_minimized: None,
        minimized_reason: None,
        reactions: opt_reactions(&comment.reactions),
    }
}

/// `out` is the model file for the REST pull request file `f`.
pub open spec fn is_changed_file_of(out: ChangedFile, f: RestPullRequestFile) -> bool {
    &&& out.sha == f.sha
    &&& out.path == f.filename
    &&& out.status == f.status
    &&& out.additions == f.additions
    &&& out.deletions == f.deletions
    &&& out.changes == f.changes
    &&& out.previous_path == f.previous_filename
    &&& out.blob_url == f.blob_url
    &&& out.patch == f.patch
}

pub fn to_changed_file(file: &RestPullRequestFile) -> (r: ChangedFile)
    ensures
        is_changed_file_of(r, *file),
{
    ChangedFile {
        sha: file.sha.clone(),
        path: file.filename.clone(),
        status: file.status.clone(),
        additions: file.additions,
        deletions: file.deletions,
        changes: file.changes,
        previous_path: copy_opt(&file.previous_filename),
        blob_url: copy_opt(&file.blob_url),
        patch: copy_opt(&file.patch),
    }
}

/// `out` holds, in order, the model files for the REST files `fs`.
pub open spec fn are_changed_files_of(out: Seq<ChangedFile>, fs: Seq<RestPullRequestFile>) -> bool {
    out.len() == fs.len() && forall|i: int| 0 <= i < fs.len() ==> is_changed_file_of(#[trigger] out[i], fs[i])
}

pub fn to_changed_files(files: &Vec<RestPullRequestFile>) -> (r: Vec<ChangedFile>)
    ensures
        are_changed_files_of(r@, files@),
{
    let mut r: Vec<ChangedFile> = Vec::new();
    let mut i: usize = 0;
    while i < files.len()
        invariant
            i <= files@.len(),
            r@.len() == i,
            forall|j: int| 0 <= j < i ==> is_changed_file_of(#[trigger] r@[j], files@[j]),
        decreases files@.len() - i,
    {
        r.push(to_changed_file(&files[i]));
        i = i + 1;
    }
    r
}

/// `out` is the model commit for the REST commit `c`.
pub open spec fn is_commit_summary_of(out: CommitSummary, c: RestCommit) -> bool {
    &&& out.sha == c.sha
    &&& out.url == c.html_url
    &&& out.message == c.commit.message
    &&& out.author_name == match c.commit.author {
        Some(a) => Some(a.name),
        None => None,
    }
    &&& out.authored_at == match c.commit.author {
        Some(a) => a.date,
        None => None,
    }
    &&& is_opt_actor_of(out.author_user, c.author)
    &&& match c.files {
        Some(fs) => are_changed_files_of(out.files@, fs@),
        None => out.files@.len() == 0,
    }
}

pub fn to_commit_summary(commit: &RestCommit) -> (r: CommitSummary)
    ensures
        is_commit_summary_of(r, *commit),
{
    let (author_name, authored_at) = match &commit.commit.author {
        Some(a) => (Some(a.name.clone()), a.date),
        None => (None, None),
    };
    CommitSummary {
        sha: commit.sha.clone(),
        url: copy_opt(&commit.html_url),
        message: commit.commit.message.clone(),
        author_name,
        authored_at,
        author_user: to_opt_actor(&commit.author),
        files: match &commit.files {
            Some(fs) => to_changed_files(fs),
            None => Vec::new(),
        },
    }
}

/// The names and values of metadata fields.
pub open spec fn field_views(v: Seq<MetadataField>) -> Seq<(Seq<char>, Seq<char>)> {
    v.map_values(|f: MetadataField| (f.name@, f.value@))
}

/// A metadata field.
pub fn field(name: &str, value: String) -> (r: MetadataField)
    ensures
        r.name@ == name@,
        r.value == value,
{
    MetadataField { name: String::from_str(name), value }
}

pub(crate) fn push_field(fields: &mut Vec<MetadataField>, name: &str, value: String)
    ensures
        field_views(final(fields)@) == field_views(old(fields)@).push((name@, value@)),
{
    fields.push(field(name, value));
    assert(field_views(fields@) =~= field_views(old(fields)@).push((name@, value@)));
}

/// The metadata of a REST issue: its comment count; `Locked: true` when it is locked;
/// its lock reason and its state reason when it has them.
pub open spec fn issue_metadata_spec(issue: RestIssue) -> Seq<(Seq<char>, Seq<char>)> {
    let base = seq![("Comments"@, decimal_digits(issue.comments as nat))];
    let with_lock = if issue.locked { base.push(("Locked"@, "true"@)) } else { base };
    let with_reason = match issue.active_lock_reason {
        Some(r) => with_lock.push(("Lock reason"@, r@)),
        None => with_lock,
    };
    match issue.state_reason {
        Some(r) => with_reason.push(("State reason"@, r@)),
        None => with_reason,
    }
}

pub fn issue_metadata(issue: &RestIssue) -> (r: Vec<MetadataField>)
    ensures
        field_views(r@) == issue_metadata_spec(*issue),
{
    let mut fields: Vec<MetadataField> = Vec::new();
    assert(field_views(fields@) =~= Seq::<(Seq<char>, Seq<char>)>::empty());
    push_field(&mut fields, "Comments", u64_to_decimal(issue.comments));
    assert(seq![("Comments"@, decimal_digits(issue.comments as nat))] =~= Seq::<(Seq<char>, Seq<char>)>::empty().push(("Comments"@, decimal_digits(issue.comments as nat))));
    if issue.locked {
        push_field(&mut fields, "Locked", String::from_str("true"));
    }
    if let Some(reason) = &issue.active_lock_reason {
        push_field(&mut fields, "Lock reason", reason.clone());
    }
    if let Some(reason) = &issue.state_reason {
        push_field(&mut fields, "State reason", reason.clone());
    }
    fields
}

/// `repo:ref` of a branch, with `unknown` for a missing repository.
pub open spec fn branch_text(repo: Option<Seq<char>>, ref_name: Seq<char>) -> Seq<char> {
    match repo {
        Some(r) => r + seq![':'] + ref_name,
        None => "unknown"@ + seq![':'] + ref_name,
    }
}

fn branch_label(branch: &self::rest::RestBranchRef) -> (r: String)
    ensures
        r@ == branch_text(branch_repo(*branch), branch.ref_field@),
{
    let mut r = match &branch.repo {
        Some(repo) => repo.full_name.clone(),
        None => String::from_str("unknown"),
    };
    crate::text::push_char(&mut r, ':');
    r.append(branch.ref_field.as_str());
    r
}

/// The mergeable state shown in metadata: lower-cased, `unknown` when missing.
pub open spec fn mergeable_text(state: Option<String>) -> Seq<char> {
    match state {
        Some(s) => lowercase(s@),
        None => "unknown"@,
    }
}

/// The repository name of a branch, where known.
pub open spec fn branch_repo(branch: self::rest::RestBranchRef) -> Option<Seq<char>> {
    match branch.repo {
        Some(r) => Some(r.full_name@),
        None => None,
    }
}

/// `prefix` followed by the fixed fields of a pull request's metadata: whether it is a
/// draft, whether it is merged, its mergeable state, its base and head branches, and its
/// commit, changed-file, addition and deletion counts.
pub open spec fn with_pull_request_counts(
    prefix: Seq<(Seq<char>, Seq<char>)>,
    pull: RestPullRequest,
) -> Seq<(Seq<char>, Seq<char>)> {
    prefix.push(("Draft"@, bool_text(pull.draft))).push(
        (
            "Merged"@,
            bool_text(
                match pull.merged {
                    Some(m) => m,
                    None => false,
                },
            ),
        ),
    ).push(("Mergeable state"@, mergeable_text(pull.mergeable_state))).push(
        ("Base"@, branch_text(branch_repo(pull.base), pull.base.ref_field@)),
    ).push(("Head"@, branch_text(branch_repo(pull.head), pull.head.ref_field@))).push(
        ("Commits"@, signed_decimal(pull.commits as int)),
    ).push(("Changed files"@, signed_decimal(pull.changed_files as int))).push(
        ("Additions"@, signed_decimal(pull.additions as int)),
    ).push(("Deletions"@, signed_decimal(pull.deletions as int)))
}

/// The metadata of a REST pull request: that of its issue, then its fixed fields, then
/// when, by whom and as which commit it was merged, where known.
pub open spec fn pull_request_metadata_spec(pull: RestPullRequest, issue: RestIssue) -> Seq<(Seq<char>, Seq<char>)> {
    let base = with_pull_request_counts(issue_metadata_spec(issue), pull);
    let with_merged_at = match pull.merged_at {
        Some(t) => match crate::model::rfc3339_text(t.seconds, t.nanos) {
            Some(text) => base.push(("Merged at"@, text)),
            None => base,
        },
        None => base,
    };
    let with_merged_by = match pull.merged_by {
        Some(a) => with_merged_at.push(("Merged by"@, a.login@)),
        None => with_merged_at,
    };
    match pull.merge_commit_sha {
        Some(sha) => with_merged_by.push(("Merge commit"@, sha@)),
        None => with_merged_by,
    }
}

fn push_pull_request_counts(fields: &mut Vec<MetadataField>, pull: &RestPullRequest)
    ensures
        field_views(final(fields)@) == with_pull_request_counts(field_views(old(fields)@), *pull),
{
    push_field(fields, "Draft", bool_to_text(pull.draft));
    let merged = match pull.merged {
        Some(m) => m,
        None => false,
    };
    push_field(fields, "Merged", bool_to_text(merged));
    let mergeable = match &pull.mergeable_state {
        Some(s) => to_lowercase(s.as_str()),
        None => String::from_str("unknown"),
    };
    push_field(fields, "Mergeable state", mergeable);
    push_field(fields, "Base", branch_label(&pull.base));
    push_field(fields, "Head", branch_label(&pull.head));
    push_field(fields, "Commits", i64_to_decimal(pull.commits));
    push_field(fields, "Changed files", i64_to_decimal(pull.changed_files));
    push_field(fields, "Additions", i64_to_decimal(pull.additions));
    push_field(fields, "Deletions", i64_to_decimal(pull.deletions));
}

pub fn pull_request_metadata(pull: &RestPullRequest, issue: &RestIssue) -> (r: Vec<MetadataField>)
    ensures
        field_views(r@) == pull_request_metadata_spec(*pull, *issue),
        pull.merged_at matches Some(t) ==> (crate::model::rfc3339_text(t.seconds, t.nanos) is Some
            <==> t.is_representable()),
{
    let mut fields = issue_metadata(issue);
    push_pull_request_counts(&mut fields, pull);
    if let Some(t) = pull.merged_at {
        if let Some(text) = crate::model::timestamp_to_rfc3339(t) {
            push_field(&mut fields, "Merged at", text);
        }
    }
    if let Some(actor) = &pull.merged_by {
        push_field(&mut fields, "Merged by", actor.login.clone());
    }
    if let Some(sha) = &pull.merge_commit_sha {
        push_field(&mut fields, "Merge commit", sha.clone());
    }
    fields
}

} // verus!
