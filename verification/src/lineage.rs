//! What resolution guarantees: every setting of a resolved profile is that
//! of the nearest profile of its lineage that has one.

use vstd::prelude::*;
use crate::config::{filled, lookup, or_else, ProfileView};
use crate::error::ErrorView;
use crate::resolve::{merged_along, resolution};

verus! {

/// The profiles that the walk from the reference `next` visits within
/// `steps` profiles, the nearest first.
pub open spec fn ancestors(list: Seq<ProfileView>, next: Option<Seq<char>>, steps: nat) -> Seq<
    ProfileView,
>
    decreases steps,
{
    match next {
        None => Seq::empty(),
        Some(name) => match lookup(list, name) {
            None => Seq::empty(),
            Some(i) => if steps == 0 {
                Seq::empty()
            } else {
                seq![list[i]] + ancestors(list, list[i].source_profile, (steps - 1) as nat)
            },
        },
    }
}

/// The profile `start` followed by the profiles that it draws on, the
/// nearest first.
pub open spec fn lineage(start: ProfileView, list: Seq<ProfileView>) -> Seq<ProfileView> {
    seq![start] + ancestors(list, start.source_profile, list.len())
}

/// The first of `values` that is set, none where none is.
pub open spec fn nearest<T>(values: Seq<Option<T>>) -> Option<T>
    decreases values.len(),
{
    if values.len() == 0 {
        None
    } else if values[0].is_some() {
        values[0]
    } else {
        nearest(values.drop_first())
    }
}

/// The setting `field` is one that a merge fills where it is absent.
pub open spec fn is_inherited<T>(field: spec_fn(ProfileView) -> Option<T>) -> bool {
    forall|a: ProfileView, b: ProfileView| #[trigger]
        field(filled(a, b)) == or_else(field(a), field(b))
}

/// `nearest` gives the value at the first place that is set: every place
/// before it is unset. It gives none exactly where no place is set.
pub proof fn lemma_nearest_is_first_set<T>(values: Seq<Option<T>>)
    ensures
        match nearest(values) {
            Some(v) => exists|k: int|
                0 <= k < values.len() && #[trigger] values[k] == Some(v) && forall|j: int|
                    0 <= j < k ==> (#[trigger] values[j]).is_none(),
            None => forall|j: int| 0 <= j < values.len() ==> (#[trigger] values[j]).is_none(),
        },
    decreases values.len(),
{
    if values.len() == 0 {
    } else if values[0].is_some() {
        assert(values[0] == Some(values[0].unwrap()));
    } else {
        let rest = values.drop_first();
        lemma_nearest_is_first_set(rest);
        match nearest(rest) {
            Some(v) => {
                let k = choose|k: int|
                    0 <= k < rest.len() && #[trigger] rest[k] == Some(v) && forall|j: int|
                        0 <= j < k ==> (#[trigger] rest[j]).is_none();
                assert(values[k + 1] == rest[k]);
                assert forall|j: int| 0 <= j < k + 1 implies (#[trigger] values[j]).is_none() by {
                    if j > 0 {
                        assert(values[j] == rest[j - 1]);
                    }
                }
            },
            None => {
                assert forall|j: int| 0 <= j < values.len() implies (#[trigger] values[j]).is_none() by {
                    if j > 0 {
                        assert(values[j] == rest[j - 1]);
                    }
                }
            },
        }
    }
}

proof fn lemma_nearest_cons<T>(own: Option<T>, rest: Seq<Option<T>>)
    ensures
        nearest(seq![own] + rest) == or_else(own, nearest(rest)),
{
    let all = seq![own] + rest;
    assert(all[0] == own);
    assert(all.drop_first() =~= rest);
}

/// After the walk an inherited setting is the working profile's own where
/// it has one, else the nearest among the profiles visited.
pub proof fn lemma_merged_takes_nearest<T>(
    list: Seq<ProfileView>,
    work: ProfileView,
    next: Option<Seq<char>>,
    steps: nat,
    field: spec_fn(ProfileView) -> Option<T>,
)
    requires
        is_inherited(field),
    ensures
        field(merged_along(list, work, next, steps)) == or_else(
            field(work),
            nearest(ancestors(list, next, steps).map_values(field)),
        ),
    decreases steps,
{
    let visited = ancestors(list, next, steps);
    if visited.len() == 0 {
        assert(visited.map_values(field) =~= Seq::<Option<T>>::empty());
    } else {
        let i = lookup(list, next.unwrap()).unwrap();
        let rest = ancestors(list, list[i].source_profile, (steps - 1) as nat);
        lemma_merged_takes_nearest(
            list,
            filled(work, list[i]),
            list[i].source_profile,
            (steps - 1) as nat,
            field,
        );
        assert(visited.map_values(field) =~= seq![field(list[i])] + rest.map_values(field));
        lemma_nearest_cons(field(list[i]), rest.map_values(field));
    }
}

/// The settings of a profile, each as a function of the profile.
pub open spec fn api_key_of() -> spec_fn(ProfileView) -> Option<Seq<char>> {
    |p: ProfileView| p.api_key
}

pub open spec fn organization_id_of() -> spec_fn(ProfileView) -> Option<Seq<char>> {
    |p: ProfileView| p.organization_id
}

pub open spec fn use_history_of() -> spec_fn(ProfileView) -> Option<bool> {
    |p: ProfileView| p.use_history
}

pub open spec fn model_of() -> spec_fn(ProfileView) -> Option<Seq<char>> {
    |p: ProfileView| p.model
}

pub open spec fn temperature_of() -> spec_fn(ProfileView) -> Option<crate::config::Fraction> {
    |p: ProfileView| p.temperature
}

pub open spec fn top_p_of() -> spec_fn(ProfileView) -> Option<crate::config::Fraction> {
    |p: ProfileView| p.top_p
}

pub open spec fn max_tokens_of() -> spec_fn(ProfileView) -> Option<u64> {
    |p: ProfileView| p.max_tokens
}

pub open spec fn presence_penalty_of() -> spec_fn(ProfileView) -> Option<crate::config::Fraction> {
    |p: ProfileView| p.presence_penalty
}

pub open spec fn frequency_penalty_of() -> spec_fn(ProfileView) -> Option<crate::config::Fraction> {
    |p: ProfileView| p.frequency_penalty
}

pub open spec fn user_of() -> spec_fn(ProfileView) -> Option<Seq<char>> {
    |p: ProfileView| p.user
}

/// The value of the setting `field` that is nearest in the lineage of `start`.
pub open spec fn nearest_in_lineage<T>(
    start: ProfileView,
    list: Seq<ProfileView>,
    field: spec_fn(ProfileView) -> Option<T>,
) -> Option<T> {
    nearest(lineage(start, list).map_values(field))
}

proof fn lemma_resolved_field<T>(
    start: ProfileView,
    list: Seq<ProfileView>,
    field: spec_fn(ProfileView) -> Option<T>,
)
    requires
        is_inherited(field),
    ensures
        field(merged_along(list, start, start.source_profile, list.len())) == nearest_in_lineage(
            start,
            list,
            field,
        ),
{
    let visited = ancestors(list, start.source_profile, list.len());
    lemma_merged_takes_nearest(list, start, start.source_profile, list.len(), field);
    assert(lineage(start, list).map_values(field) =~= seq![field(start)] + visited.map_values(
        field,
    ));
    lemma_nearest_cons(field(start), visited.map_values(field));
}

/// Where resolution succeeds, each setting of the resolved profile is that
/// of the nearest profile of the lineage, the starting profile included,
/// that has it set; the name and the reference to the source profile are
/// those of the starting profile.
pub proof fn lemma_resolved_takes_nearest(start: ProfileView, list: Seq<ProfileView>)
    requires
        resolution(start, list) is Ok,
    ensures
        ({
            let p = resolution(start, list)->Ok_0;
            &&& p.name == start.name
            &&& p.source_profile == start.source_profile
            &&& p.api_key == nearest_in_lineage(start, list, api_key_of())
            &&& p.organization_id == nearest_in_lineage(start, list, organization_id_of())
            &&& p.use_history == nearest_in_lineage(start, list, use_history_of())
            &&& p.model == nearest_in_lineage(start, list, model_of())
            &&& p.temperature == nearest_in_lineage(start, list, temperature_of())
            &&& p.top_p == nearest_in_lineage(start, list, top_p_of())
            &&& p.max_tokens == nearest_in_lineage(start, list, max_tokens_of())
            &&& p.presence_penalty == nearest_in_lineage(start, list, presence_penalty_of())
            &&& p.frequency_penalty == nearest_in_lineage(start, list, frequency_penalty_of())
            &&& p.user == nearest_in_lineage(start, list, user_of())
        }),
{
    lemma_resolved_field(start, list, api_key_of());
    lemma_resolved_field(start, list, organization_id_of());
    lemma_resolved_field(start, list, use_history_of());
    lemma_resolved_field(start, list, model_of());
    lemma_resolved_field(start, list, temperature_of());
    lemma_resolved_field(start, list, top_p_of());
    lemma_resolved_field(start, list, max_tokens_of());
    lemma_resolved_field(start, list, presence_penalty_of());
    lemma_resolved_field(start, list, frequency_penalty_of());
    lemma_resolved_field(start, list, user_of());
    lemma_walk_keeps_identity(list, start, start.source_profile, list.len());
}

/// The walk changes neither the name nor the reference to the source profile.
pub proof fn lemma_walk_keeps_identity(
    list: Seq<ProfileView>,
    work: ProfileView,
    next: Option<Seq<char>>,
    steps: nat,
)
    ensures
        merged_along(list, work, next, steps).name == work.name,
        merged_along(list, work, next, steps).source_profile == work.source_profile,
    decreases steps,
{
    if let Some(name) = next {
        if let Some(i) = lookup(list, name) {
            if steps > 0 {
                lemma_walk_keeps_identity(
                    list,
                    filled(work, list[i]),
                    list[i].source_profile,
                    (steps - 1) as nat,
                );
            }
        }
    }
}

/// A profile that has an API key and names no source profile resolves to itself.
pub proof fn lemma_resolve_self_contained(start: ProfileView, list: Seq<ProfileView>)
    requires
        start.api_key.is_some(),
        start.source_profile.is_none(),
    ensures
        resolution(start, list) == Ok::<ProfileView, ErrorView>(start),
{
}

/// A profile with neither an API key nor a source profile does not resolve.
pub proof fn lemma_resolve_bare(start: ProfileView, list: Seq<ProfileView>)
    requires
        start.api_key.is_none(),
        start.source_profile.is_none(),
    ensures
        resolution(start, list) == Err::<ProfileView, ErrorView>(ErrorView::MissingCredential),
{
}

/// A reference to a name that the store does not hold ends the walk at
/// once: the profile resolves to itself where it has an API key, and is
/// refused for want of one where it has none.
pub proof fn lemma_resolve_dangling(start: ProfileView, list: Seq<ProfileView>)
    requires
        start.source_profile.is_some(),
        lookup(list, start.source_profile.unwrap()).is_none(),
    ensures
        start.api_key.is_some() ==> resolution(start, list) == Ok::<ProfileView, ErrorView>(start),
        start.api_key.is_none() ==> resolution(start, list) == Err::<ProfileView, ErrorView>(
            ErrorView::MissingCredential,
        ),
{
}

proof fn lemma_field_settled<T>(
    list: Seq<ProfileView>,
    work: ProfileView,
    next: Option<Seq<char>>,
    steps: nat,
    field: spec_fn(ProfileView) -> Option<T>,
    k: int,
)
    requires
        is_inherited(field),
        0 <= k < ancestors(list, next, steps).len(),
    ensures
        or_else(
            field(merged_along(list, work, next, steps)),
            field(ancestors(list, next, steps)[k]),
        ) == field(merged_along(list, work, next, steps)),
{
    let values = ancestors(list, next, steps).map_values(field);
    lemma_merged_takes_nearest(list, work, next, steps, field);
    lemma_nearest_is_first_set(values);
    if field(merged_along(list, work, next, steps)).is_none() {
        assert(values[k].is_none());
    }
}

proof fn lemma_settled(
    list: Seq<ProfileView>,
    work: ProfileView,
    next: Option<Seq<char>>,
    steps: nat,
)
    requires
        forall|k: int|
            0 <= k < ancestors(list, next, steps).len() ==> filled(
                work,
                #[trigger] ancestors(list, next, steps)[k],
            ) == work,
    ensures
        merged_along(list, work, next, steps) == work,
    decreases steps,
{
    let visited = ancestors(list, next, steps);
    if visited.len() > 0 {
        let i = lookup(list, next.unwrap()).unwrap();
        let rest = ancestors(list, list[i].source_profile, (steps - 1) as nat);
        assert(visited[0] == list[i]);
        assert forall|k: int| 0 <= k < rest.len() implies filled(work, #[trigger] rest[k])
            == work by {
            assert(visited[k + 1] == rest[k]);
        }
        lemma_settled(list, work, list[i].source_profile, (steps - 1) as nat);
    }
}

/// Resolving a resolved profile gives the same profile again.
pub proof fn lemma_resolution_idempotent(start: ProfileView, list: Seq<ProfileView>)
    requires
        resolution(start, list) is Ok,
    ensures
        resolution(resolution(start, list)->Ok_0, list) == resolution(start, list),
{
    let next = start.source_profile;
    let steps = list.len();
    let p = merged_along(list, start, next, steps);
    let visited = ancestors(list, next, steps);
    lemma_walk_keeps_identity(list, start, next, steps);
    assert forall|k: int| 0 <= k < visited.len() implies filled(p, #[trigger] visited[k]) == p by {
        lemma_field_settled(list, start, next, steps, api_key_of(), k);
        lemma_field_settled(list, start, next, steps, organization_id_of(), k);
        lemma_field_settled(list, start, next, steps, use_history_of(), k);
        lemma_field_settled(list, start, next, steps, model_of(), k);
        lemma_field_settled(list, start, next, steps, temperature_of(), k);
        lemma_field_settled(list, start, next, steps, top_p_of(), k);
        lemma_field_settled(list, start, next, steps, max_tokens_of(), k);
        lemma_field_settled(list, start, next, steps, presence_penalty_of(), k);
        lemma_field_settled(list, start, next, steps, frequency_penalty_of(), k);
        lemma_field_settled(list, start, next, steps, user_of(), k);
    }
    lemma_settled(list, p, next, steps);
}

} // verus!
