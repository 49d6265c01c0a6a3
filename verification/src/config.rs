//! Profiles, the store that holds them, and the resolution of a profile
//! along its chain of source profiles.

use vstd::prelude::*;
use crate::error::Error;

verus! {

/// The model asked for where a profile names none.
pub const DEFAULT_MODEL: &'static str = "gpt-3.5-turbo";

/// A real-valued sampling parameter, carried as the 32 bits of its
/// single-precision encoding. The library hands such a value on and never
/// computes with it.
#[derive(Debug, Clone, Copy, PartialEq, Eq, Structural)]
pub struct Fraction {
    pub bits: u32,
}

/// A named set of optional settings for a request. A setting that is absent
/// may come from the profile named by `source_profile`.
#[derive(Debug, PartialEq, Eq)]
pub struct Profile {
    pub name: String,
    pub source_profile: Option<String>,
    pub api_key: Option<String>,
    pub organization_id: Option<String>,
    pub use_history: Option<bool>,
    pub model: Option<String>,
    pub temperature: Option<Fraction>,
    pub top_p: Option<Fraction>,
    pub max_tokens: Option<u64>,
    pub presence_penalty: Option<Fraction>,
    pub frequency_penalty: Option<Fraction>,
    pub user: Option<String>,
}

/// A [`Profile`] with its texts as sequences of characters.
pub struct ProfileView {
    pub name: Seq<char>,
    pub source_profile: Option<Seq<char>>,
    pub api_key: Option<Seq<char>>,
    pub organization_id: Option<Seq<char>>,
    pub use_history: Option<bool>,
    pub model: Option<Seq<char>>,
    pub temperature: Option<Fraction>,
    pub top_p: Option<Fraction>,
    pub max_tokens: Option<u64>,
    pub presence_penalty: Option<Fraction>,
    pub frequency_penalty: Option<Fraction>,
    pub user: Option<Seq<char>>,
}

impl View for Profile {
    type V = ProfileView;

    open spec fn view(&self) -> ProfileView {
        ProfileView {
            name: self.name@,
            source_profile: self.source_profile.deep_view(),
            api_key: self.api_key.deep_view(),
            organization_id: self.organization_id.deep_view(),
            use_history: self.use_history,
            model: self.model.deep_view(),
            temperature: self.temperature,
            top_p: self.top_p,
            max_tokens: self.max_tokens,
            presence_penalty: self.presence_penalty,
            frequency_penalty: self.frequency_penalty,
            user: self.user.deep_view(),
        }
    }
}

impl DeepView for Profile {
    type V = ProfileView;

    open spec fn deep_view(&self) -> ProfileView {
        self@
    }
}

/// The value of a setting after one merge: the profile's own where it has
/// one, else the other's.
pub open spec fn or_else<T>(own: Option<T>, other: Option<T>) -> Option<T> {
    if own.is_some() {
        own
    } else {
        other
    }
}

/// The profile `work` with each absent setting taken from `from`. The name
/// and the reference to a source profile stay those of `work`.
pub open spec fn filled(work: ProfileView, from: ProfileView) -> ProfileView {
    ProfileView {
        name: work.name,
        source_profile: work.source_profile,
        api_key: or_else(work.api_key, from.api_key),
        organization_id: or_else(work.organization_id, from.organization_id),
        use_history: or_else(work.use_history, from.use_history),
        model: or_else(work.model, from.model),
        temperature: or_else(work.temperature, from.temperature),
        top_p: or_else(work.top_p, from.top_p),
        max_tokens: or_else(work.max_tokens, from.max_tokens),
        presence_penalty: or_else(work.presence_penalty, from.presence_penalty),
        frequency_penalty: or_else(work.frequency_penalty, from.frequency_penalty),
        user: or_else(work.user, from.user),
    }
}

/// `i` is the place of the first profile of `list` that bears `name`.
pub open spec fn is_first_named(list: Seq<ProfileView>, name: Seq<char>, i: int) -> bool {
    &&& 0 <= i < list.len()
    &&& list[i].name == name
    &&& forall|j: int| 0 <= j < i ==> (#[trigger] list[j]).name != name
}

/// The place of the first profile of `list` that bears `name`, if there is one.
pub open spec fn lookup(list: Seq<ProfileView>, name: Seq<char>) -> Option<int> {
    if exists|i: int| is_first_named(list, name, i) {
        Some(choose|i: int| is_first_named(list, name, i))
    } else {
        None
    }
}

/// At most one place is that of the first profile bearing a name, and
/// `lookup` gives it.
pub proof fn lemma_lookup_first(list: Seq<ProfileView>, name: Seq<char>, i: int)
    requires
        is_first_named(list, name, i),
    ensures
        lookup(list, name) == Some(i),
{
    let k = choose|k: int| is_first_named(list, name, k);
    assert(is_first_named(list, name, k));
    if k < i {
        assert(list[k].name != name);
    }
    if i < k {
        assert(list[i].name != name);
    }
}

/// Where no profile bears the name, `lookup` finds none.
pub proof fn lemma_lookup_none(list: Seq<ProfileView>, name: Seq<char>)
    requires
        forall|j: int| 0 <= j < list.len() ==> (#[trigger] list[j]).name != name,
    ensures
        lookup(list, name).is_none(),
{
}

/// What `lookup` finds is the place of the first profile that bears the name.
pub proof fn lemma_lookup_is_first(list: Seq<ProfileView>, name: Seq<char>)
    ensures
        match lookup(list, name) {
            Some(i) => is_first_named(list, name, i),
            None => forall|j: int| 0 <= j < list.len() ==> (#[trigger] list[j]).name != name,
        },
{
    if lookup(list, name).is_none() {
        assert forall|j: int| 0 <= j < list.len() implies (#[trigger] list[j]).name != name by {
            if list[j].name == name {
                lemma_some_first(list, name, j);
            }
        }
    }
}

proof fn lemma_some_first(list: Seq<ProfileView>, name: Seq<char>, j: int)
    requires
        0 <= j < list.len(),
        list[j].name == name,
    ensures
        exists|i: int| is_first_named(list, name, i),
    decreases j,
{
    if exists|k: int| 0 <= k < j && (#[trigger] list[k]).name == name {
        let k = choose|k: int| 0 <= k < j && (#[trigger] list[k]).name == name;
        lemma_some_first(list, name, k);
    } else {
        assert(is_first_named(list, name, j));
    }
}

pub(crate) fn copy_text(text: &Option<String>) -> (r: Option<String>)
    ensures
        r.deep_view() == text.deep_view(),
{
    match text {
        Some(s) => Some(s.clone()),
        None => None,
    }
}

impl Clone for Profile {
    fn clone(&self) -> (r: Profile)
        ensures
            r@ == self@,
    {
        Profile {
            name: self.name.clone(),
            source_profile: copy_text(&self.source_profile),
            api_key: copy_text(&self.api_key),
            organization_id: copy_text(&self.organization_id),
            use_history: self.use_history,
            model: copy_text(&self.model),
            temperature: self.temperature,
            top_p: self.top_p,
            max_tokens: self.max_tokens,
            presence_penalty: self.presence_penalty,
            frequency_penalty: self.frequency_penalty,
            user: copy_text(&self.user),
        }
    }
}

/// Finds the first profile of `list` that bears `name`.
pub fn find_profile(list: &[Profile], name: &str) -> (r: Option<usize>)
    ensures
        match r {
            Some(i) => lookup(list.deep_view(), name@) == Some(i as int),
            None => lookup(list.deep_view(), name@).is_none(),
        },
{
    let wanted = String::from_str(name);
    let mut i: usize = 0;
    while i < list.len()
        invariant
            i <= list.len(),
            wanted@ == name@,
            forall|j: int| 0 <= j < i ==> (#[trigger] list.deep_view()[j]).name != name@,
        decreases list.len() - i,
    {
        assert(list.deep_view()[i as int] == list@[i as int]@);
        if list[i].name == wanted {
            proof {
                lemma_lookup_first(list.deep_view(), name@, i as int);
            }
            return Some(i);
        }
        i += 1;
    }
    proof {
        lemma_lookup_none(list.deep_view(), name@);
    }
    None
}

/// The profiles of the client, in the order in which they were added.
/// A well-formed store holds no two profiles of one name.
#[derive(Debug, PartialEq, Eq)]
pub struct Config {
    pub profile: Vec<Profile>,
}

impl View for Config {
    type V = Seq<ProfileView>;

    open spec fn view(&self) -> Seq<ProfileView> {
        self.profile.deep_view()
    }
}

/// No two profiles of `list` bear one name.
pub open spec fn names_unique(list: Seq<ProfileView>) -> bool {
    forall|i: int, j: int|
        0 <= i < j < list.len() ==> (#[trigger] list[i]).name != (#[trigger] list[j]).name
}

/// The store after `profile` was put into it: in the place of the first
/// profile of its name, or at the end where the store has none of that name.
pub open spec fn upserted(list: Seq<ProfileView>, profile: ProfileView) -> Seq<ProfileView> {
    match lookup(list, profile.name) {
        Some(i) => list.update(i, profile),
        None => list.push(profile),
    }
}

/// Putting a profile into a store without repeated names leaves it without
/// repeated names, and the profile is then the one found under its name.
pub proof fn lemma_upsert_keeps_names_unique(list: Seq<ProfileView>, profile: ProfileView)
    requires
        names_unique(list),
    ensures
        names_unique(upserted(list, profile)),
        match lookup(upserted(list, profile), profile.name) {
            Some(i) => upserted(list, profile)[i] == profile,
            None => false,
        },
        forall|name: Seq<char>|
            name != profile.name ==> (match (
                #[trigger] lookup(upserted(list, profile), name),
                lookup(list, name),
            ) {
                (Some(i), Some(j)) => i == j && upserted(list, profile)[i] == list[j],
                (None, None) => true,
                _ => false,
            }),
{
    let after = upserted(list, profile);
    lemma_lookup_is_first(list, profile.name);
    match lookup(list, profile.name) {
        Some(i) => {
            assert(is_first_named(after, profile.name, i));
            lemma_lookup_first(after, profile.name, i);
        },
        None => {
            assert(is_first_named(after, profile.name, list.len() as int));
            lemma_lookup_first(after, profile.name, list.len() as int);
        },
    }
    assert forall|name: Seq<char>| name != profile.name implies (match (
        #[trigger] lookup(after, name),
        lookup(list, name),
    ) {
        (Some(i), Some(j)) => i == j && after[i] == list[j],
        (None, None) => true,
        _ => false,
    }) by {
        lemma_lookup_is_first(list, name);
        match lookup(list, name) {
            Some(j) => {
                assert(after[j] == list[j]);
                assert forall|k: int| 0 <= k < j implies (#[trigger] after[k]).name != name by {
                    if after[k] != list[k] {
                    } else {
                        assert(list[k].name != name);
                    }
                }
                assert(is_first_named(after, name, j));
                lemma_lookup_first(after, name, j);
            },
            None => {
                assert forall|k: int| 0 <= k < after.len() implies (#[trigger] after[k]).name
                    != name by {
                    if k < list.len() && after[k] == list[k] {
                        assert(list[k].name != name);
                    }
                }
                lemma_lookup_none(after, name);
            },
        }
    }
    assert forall|i: int, j: int| 0 <= i < j < after.len() implies (#[trigger] after[i]).name != (
    #[trigger] after[j]).name by {
        match lookup(list, profile.name) {
            Some(k) => {
                if i != k && j != k {
                    assert(list[i].name != list[j].name);
                } else if i == k {
                    assert(list[i].name != list[j].name);
                } else {
                    assert(list[i].name != list[j].name);
                }
            },
            None => {
                if j < list.len() {
                    assert(list[i].name != list[j].name);
                } else {
                    assert(list[i].name != profile.name);
                }
            },
        }
    }
}

impl Config {
    /// A store without profiles.
    pub fn new() -> (r: Config)
        ensures
            r@ == Seq::<ProfileView>::empty(),
            names_unique(r@),
    {
        let r = Config { profile: Vec::new() };
        assert(r@ =~= Seq::<ProfileView>::empty());
        r
    }

    /// The first profile that bears `profile_name`, as it stands in the
    /// store or, with `is_resolve`, resolved against the store. A name that
    /// the store does not hold gives `None`; a profile that does not
    /// resolve gives the error of its resolution.
    pub fn get_profile(&self, profile_name: &str, is_resolve: bool) -> (r: Result<
        Option<Profile>,
        Error,
    >)
        ensures
            match lookup(self@, profile_name@) {
                None => r == Ok::<Option<Profile>, Error>(None),
                Some(i) => if is_resolve {
                    match crate::resolve::resolution(self@[i], self@) {
                        Ok(p) => r.is_ok() && r.unwrap().is_some() && r.unwrap().unwrap()@ == p,
                        Err(e) => r.is_err() && r.unwrap_err()@ == e,
                    }
                } else {
                    r.is_ok() && r.unwrap().is_some() && r.unwrap().unwrap()@ == self@[i]
                },
            },
    {
        match find_profile(self.profile.as_slice(), profile_name) {
            None => Ok(None),
            Some(i) => {
                assert(self@[i as int] == self.profile@[i as int]@);
                if is_resolve {
                    match self.profile[i].resolve(self.profile.as_slice()) {
                        Ok(p) => Ok(Some(p)),
                        Err(e) => Err(e),
                    }
                } else {
                    Ok(Some(self.profile[i].clone()))
                }
            },
        }
    }

    /// Puts `profile` into the store: in the place of the first profile of
    /// its name, or at the end where the store has none of that name.
    pub fn upsert_profile(&mut self, profile: Profile)
        ensures
            final(self)@ == upserted(old(self)@, profile@),
    {
        match find_profile(self.profile.as_slice(), profile.name.as_str()) {
            Some(i) => {
                self.profile.set(i, profile);
            },
            None => {
                self.profile.push(profile);
            },
        }
        assert(self@ =~= upserted(old(self)@, profile@));
    }
}

} // verus!
