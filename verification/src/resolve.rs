//! Resolution: a profile draws each setting that it lacks from the profiles
//! along its chain of source profiles, the nearest first.

use vstd::prelude::*;
use crate::config::{
    copy_text, filled, find_profile, lookup, Profile, ProfileView,
};
use crate::error::{Error, ErrorView};

verus! {

/// The walk that starts at the reference `next` comes to its end after at
/// most `steps` profiles: at a profile that names no source, or at a name
/// that no profile of `list` bears.
pub open spec fn ends_within(list: Seq<ProfileView>, next: Option<Seq<char>>, steps: nat) -> bool
    decreases steps,
{
    match next {
        None => true,
        Some(name) => match lookup(list, name) {
            None => true,
            Some(i) => steps > 0 && ends_within(list, list[i].source_profile, (steps - 1) as nat),
        },
    }
}

/// The profile `work` after the walk that starts at the reference `next`
/// and visits at most `steps` profiles: each profile visited fills what is
/// still absent.
pub open spec fn merged_along(
    list: Seq<ProfileView>,
    work: ProfileView,
    next: Option<Seq<char>>,
    steps: nat,
) -> ProfileView
    decreases steps,
{
    match next {
        None => work,
        Some(name) => match lookup(list, name) {
            None => work,
            Some(i) => if steps == 0 {
                work
            } else {
                merged_along(list, filled(work, list[i]), list[i].source_profile, (steps - 1) as nat)
            },
        },
    }
}

/// What resolving `start` against `list` gives.
///
/// A profile with neither an API key nor a source profile is refused. A
/// chain that has not ended after as many profiles as `list` holds never
/// ends, and is refused as cyclic. Otherwise the merged profile is the
/// result, provided that it has an API key.
pub open spec fn resolution(start: ProfileView, list: Seq<ProfileView>) -> Result<
    ProfileView,
    ErrorView,
> {
    if start.api_key.is_none() && start.source_profile.is_none() {
        Err(ErrorView::MissingCredential)
    } else if !ends_within(list, start.source_profile, list.len()) {
        Err(ErrorView::CyclicProfileChain)
    } else {
        let merged = merged_along(list, start, start.source_profile, list.len());
        if merged.api_key.is_none() {
            Err(ErrorView::MissingCredential)
        } else {
            Ok(merged)
        }
    }
}

impl Profile {
    /// Fills each setting that this profile lacks with that of `profile`.
    /// A setting that this profile has stays as it is.
    pub fn merge(&mut self, profile: &Profile)
        ensures
            final(self)@ == filled(old(self)@, profile@),
    {
        if self.api_key.is_none() {
            self.api_key = copy_text(&profile.api_key);
        }
        if self.organization_id.is_none() {
            self.organization_id = copy_text(&profile.organization_id);
        }
        if self.use_history.is_none() {
            self.use_history = profile.use_history;
        }
        if self.model.is_none() {
            self.model = copy_text(&profile.model);
        }
        if self.temperature.is_none() {
            self.temperature = profile.temperature;
        }
        if self.top_p.is_none() {
            self.top_p = profile.top_p;
        }
        if self.max_tokens.is_none() {
            self.max_tokens = profile.max_tokens;
        }
        if self.presence_penalty.is_none() {
            self.presence_penalty = profile.presence_penalty;
        }
        if self.frequency_penalty.is_none() {
            self.frequency_penalty = profile.frequency_penalty;
        }
        if self.user.is_none() {
            self.user = copy_text(&profile.user);
        }
    }

    /// Resolves this profile against the profiles of `list`.
    ///
    /// The walk follows `source_profile` from this profile on, looking each
    /// name up in `list`, and ends at a profile without a source or at a
    /// name that `list` does not hold. A chain that comes back to itself is
    /// reported as `CyclicProfileChain`.
    pub fn resolve(&self, list: &[Profile]) -> (r: Result<Profile, Error>)
        ensures
            match r {
                Ok(p) => resolution(self@, list.deep_view()) == Ok::<ProfileView, ErrorView>(p@),
                Err(e) => resolution(self@, list.deep_view()) == Err::<ProfileView, ErrorView>(
                    e@,
                ),
            },
    {
        if self.api_key.is_none() && self.source_profile.is_none() {
            return Err(Error::MissingCredential);
        }
        let ghost all = list.deep_view();
        let mut result = self.clone();
        let mut current = copy_text(&self.source_profile);
        let mut steps: usize = 0;
        loop
            invariant
                all == list.deep_view(),
                steps <= list.len(),
                ends_within(all, self@.source_profile, all.len()) == ends_within(
                    all,
                    current.deep_view(),
                    (all.len() - steps) as nat,
                ),
                merged_along(all, self@, self@.source_profile, all.len()) == merged_along(
                    all,
                    result@,
                    current.deep_view(),
                    (all.len() - steps) as nat,
                ),
            ensures
                ends_within(all, self@.source_profile, all.len()),
                merged_along(all, self@, self@.source_profile, all.len()) == result@,
            decreases list.len() - steps,
        {
            let found = match &current {
                Some(name) => find_profile(list, name.as_str()),
                None => None,
            };
            match found {
                None => {
                    break ;
                },
                Some(i) => {
                    if steps == list.len() {
                        return Err(Error::CyclicProfileChain);
                    }
                    assert(all[i as int] == list@[i as int]@);
                    result.merge(&list[i]);
                    current = copy_text(&list[i].source_profile);
                    steps += 1;
                },
            }
        }
        if result.api_key.is_none() {
            return Err(Error::MissingCredential);
        }
        Ok(result)
    }
}

} // verus!
