//! Chains that never end: a walk that ends at all ends within as many
//! profiles as the store holds, so a longer walk has come back to itself.

use vstd::prelude::*;
use vstd::set_lib::{lemma_int_range, set_int_range};
use crate::config::{lemma_lookup_is_first, lookup, ProfileView};
use crate::error::ErrorView;
use crate::lineage::ancestors;
use crate::resolve::{ends_within, resolution};

verus! {

/// The walk from the reference `next` visits the profile at place `i`
/// within `steps` profiles.
pub open spec fn visits(list: Seq<ProfileView>, next: Option<Seq<char>>, steps: nat, i: int) -> bool
    decreases steps,
{
    match next {
        None => false,
        Some(name) => match lookup(list, name) {
            None => false,
            Some(j) => steps > 0 && (j == i || visits(
                list,
                list[j].source_profile,
                (steps - 1) as nat,
                i,
            )),
        },
    }
}

/// A walk that has ended stays as it is when more steps are allowed.
pub proof fn lemma_more_steps(list: Seq<ProfileView>, next: Option<Seq<char>>, a: nat, b: nat)
    requires
        ends_within(list, next, a),
        a <= b,
    ensures
        ends_within(list, next, b),
        ancestors(list, next, a) == ancestors(list, next, b),
    decreases a,
{
    if let Some(name) = next {
        if let Some(i) = lookup(list, name) {
            lemma_more_steps(list, list[i].source_profile, (a - 1) as nat, (b - 1) as nat);
        }
    }
}

proof fn lemma_visit_costs(list: Seq<ProfileView>, next: Option<Seq<char>>, steps: nat, i: int)
    requires
        ends_within(list, next, steps),
        visits(list, next, steps, i),
    ensures
        ends_within(list, list[i].source_profile, steps),
        ancestors(list, next, steps).len() >= 1 + ancestors(
            list,
            list[i].source_profile,
            steps,
        ).len(),
    decreases steps,
{
    let j = lookup(list, next.unwrap()).unwrap();
    let onward = list[j].source_profile;
    if j == i {
        lemma_more_steps(list, onward, (steps - 1) as nat, steps);
    } else {
        lemma_visit_costs(list, onward, (steps - 1) as nat, i);
        lemma_more_steps(list, list[i].source_profile, (steps - 1) as nat, steps);
    }
}

/// A walk that ends does not come back to a profile that it has visited.
pub proof fn lemma_no_return(list: Seq<ProfileView>, name: Seq<char>, steps: nat)
    requires
        ends_within(list, Some(name), steps),
        lookup(list, name).is_some(),
    ensures
        !visits(
            list,
            list[lookup(list, name).unwrap()].source_profile,
            (steps - 1) as nat,
            lookup(list, name).unwrap(),
        ),
{
    let i = lookup(list, name).unwrap();
    let onward = list[i].source_profile;
    if visits(list, onward, (steps - 1) as nat, i) {
        lemma_visit_costs(list, onward, (steps - 1) as nat, i);
        lemma_more_steps(list, onward, (steps - 1) as nat, steps);
    }
}

proof fn lemma_walk_fits(
    list: Seq<ProfileView>,
    next: Option<Seq<char>>,
    steps: nat,
    places: Set<int>,
)
    requires
        ends_within(list, next, steps),
        places.finite(),
        forall|i: int| visits(list, next, steps, i) ==> places.contains(i),
    ensures
        ends_within(list, next, places.len()),
    decreases steps,
{
    if let Some(name) = next {
        if let Some(i) = lookup(list, name) {
            let onward = list[i].source_profile;
            let fewer = places.remove(i);
            assert(visits(list, next, steps, i));
            lemma_no_return(list, name, steps);
            assert forall|k: int| visits(list, onward, (steps - 1) as nat, k) implies fewer.contains(
                k,
            ) by {
                assert(visits(list, next, steps, k));
            }
            lemma_walk_fits(list, onward, (steps - 1) as nat, fewer);
            assert(places.len() == fewer.len() + 1);
        }
    }
}

proof fn lemma_visits_in_range(list: Seq<ProfileView>, next: Option<Seq<char>>, steps: nat, i: int)
    requires
        visits(list, next, steps, i),
    ensures
        0 <= i < list.len(),
    decreases steps,
{
    let name = next.unwrap();
    lemma_lookup_is_first(list, name);
    let j = lookup(list, name).unwrap();
    if j != i {
        lemma_visits_in_range(list, list[j].source_profile, (steps - 1) as nat, i);
    }
}

/// A walk that ends at all ends within as many profiles as the list holds.
pub proof fn lemma_ending_walk_is_short(list: Seq<ProfileView>, next: Option<Seq<char>>, steps: nat)
    requires
        ends_within(list, next, steps),
    ensures
        ends_within(list, next, list.len()),
{
    let places = set_int_range(0, list.len() as int);
    lemma_int_range(0, list.len() as int);
    assert forall|i: int| visits(list, next, steps, i) implies places.contains(i) by {
        lemma_visits_in_range(list, next, steps, i);
    }
    lemma_walk_fits(list, next, steps, places);
}

/// Resolution reports a cyclic chain exactly where the profile has a source
/// profile and the walk along its chain ends after no number of steps.
pub proof fn lemma_cyclic_means_endless(start: ProfileView, list: Seq<ProfileView>)
    ensures
        resolution(start, list) == Err::<ProfileView, ErrorView>(ErrorView::CyclicProfileChain)
            <==> start.source_profile.is_some() && forall|steps: nat|
            !ends_within(list, start.source_profile, steps),
{
    if resolution(start, list) == Err::<ProfileView, ErrorView>(ErrorView::CyclicProfileChain) {
        assert forall|steps: nat| !ends_within(list, start.source_profile, steps) by {
            if ends_within(list, start.source_profile, steps) {
                lemma_ending_walk_is_short(list, start.source_profile, steps);
            }
        }
    }
}

} // verus!
