//! The files of a message directory by name: their order, their
//! extensions, and what a name says of the role of a plain text.

use vstd::prelude::*;
use crate::api::Role;
use crate::text::{
    chars_of, comes_before, contains_text, has_run, lemma_precedes_irreflexive,
    lemma_precedes_transitive, lowercase, precedes, to_lowercase,
};

verus! {

/// The names stand in the order of a dictionary: none comes before one
/// that stands earlier.
pub open spec fn is_sorted(names: Seq<Seq<char>>) -> bool {
    forall|i: int, j: int| 0 <= i < j < names.len() ==> !precedes(names[j], names[i])
}

/// Puts file names into the order of a dictionary.
pub fn sort_names(names: Vec<String>) -> (r: Vec<String>)
    ensures
        is_sorted(r.deep_view()),
        r.deep_view().to_multiset() == names.deep_view().to_multiset(),
{
    broadcast use vstd::seq_lib::group_to_multiset_ensures;

    let ghost given = names.deep_view();
    let mut rest = names;
    let mut r: Vec<String> = Vec::new();
    assert(r.deep_view() =~= Seq::<Seq<char>>::empty());
    assert(given.to_multiset() =~= r.deep_view().to_multiset().add(given.to_multiset()));
    while rest.len() > 0
        invariant
            is_sorted(r.deep_view()),
            given.to_multiset() == r.deep_view().to_multiset().add(
                rest.deep_view().to_multiset(),
            ),
        decreases rest.len(),
    {
        let ghost before = rest.deep_view();
        let ghost placed = r.deep_view();
        let name = rest.pop().unwrap();
        assert(before =~= rest.deep_view().push(name@));
        let mut at: usize = 0;
        while at < r.len() && !comes_before(name.as_str(), r[at].as_str())
            invariant
                at <= r.len(),
                placed == r.deep_view(),
                forall|k: int| 0 <= k < at ==> !precedes(name@, #[trigger] placed[k]),
            decreases r.len() - at,
        {
            assert(placed[at as int] == r@[at as int]@);
            at += 1;
        }
        assert(at < r.len() ==> placed[at as int] == r@[at as int]@);
        r.insert(at, name);
        let ghost after = r.deep_view();
        assert(after =~= placed.insert(at as int, name@));
        assert forall|i: int, j: int| 0 <= i < j < after.len() implies !precedes(
            after[j],
            after[i],
        ) by {
            if j == at {
                assert(after[i] == placed[i]);
            } else if i == at {
                assert(after[j] == placed[j - 1]);
                if precedes(after[j], name@) {
                    lemma_precedes_transitive(after[j], name@, placed[at as int]);
                    if j - 1 == at {
                        lemma_precedes_irreflexive(after[j]);
                    }
                }
            } else {
                let old_i = if i < at {
                    i
                } else {
                    i - 1
                };
                let old_j = if j < at {
                    j
                } else {
                    j - 1
                };
                assert(after[i] == placed[old_i]);
                assert(after[j] == placed[old_j]);
            }
        }
        assert(after.to_multiset() =~= placed.to_multiset().insert(name@)) by {
            vstd::seq_lib::to_multiset_insert(placed, at as int, name@);
        }
        assert(before.to_multiset() =~= rest.deep_view().to_multiset().insert(name@)) by {
            vstd::seq_lib::to_multiset_build(rest.deep_view(), name@);
        }
    }
    assert(rest.deep_view() =~= Seq::<Seq<char>>::empty());
    r
}

/// `i` is the place of the last dot of `name`.
pub open spec fn is_last_dot(name: Seq<char>, i: int) -> bool {
    &&& 0 <= i < name.len()
    &&& name[i] == '.'
    &&& forall|j: int| i < j < name.len() ==> name[j] != '.'
}

/// The extension of the file name `name`: what follows its last dot. A name
/// without a dot has none, nor has one whose only dot stands first, nor
/// has the name `..`.
pub open spec fn extension_of(name: Seq<char>) -> Option<Seq<char>> {
    if name == seq!['.', '.'] {
        None
    } else if exists|i: int| i > 0 && is_last_dot(name, i) {
        let i = choose|i: int| i > 0 && is_last_dot(name, i);
        Some(name.subrange(i + 1, name.len() as int))
    } else {
        None
    }
}

/// The extension of a file name.
pub fn extension(name: &str) -> (r: Option<String>)
    ensures
        r.deep_view() == extension_of(name@),
{
    let chars = chars_of(name);
    let n = chars.len();
    if n == 2 && chars[0] == '.' && chars[1] == '.' {
        assert(name@ =~= seq!['.', '.']);
        return None;
    }
    assert(name@ != seq!['.', '.']) by {
        if name@ == seq!['.', '.'] {
            assert(name@.len() == 2);
            assert(name@[0] == '.');
            assert(name@[1] == '.');
        }
    }
    let mut i: usize = n;
    while i > 0
        invariant
            chars@ == name@,
            name@ != seq!['.', '.'],
            n == chars@.len(),
            i <= n,
            forall|j: int| i <= j < n ==> chars@[j] != '.',
        decreases i,
    {
        i -= 1;
        if chars[i] == '.' {
            if i == 0 {
                assert forall|k: int| k > 0 implies !is_last_dot(name@, k) by {}
                return None;
            }
            assert(is_last_dot(name@, i as int));
            let ghost chosen = choose|k: int| k > 0 && is_last_dot(name@, k);
            assert(chosen == i) by {
                if chosen < i {
                    assert(name@[i as int] != '.');
                }
                if i < chosen {
                    assert(name@[chosen] != '.');
                }
            }
            let ext = name.substring_char(i + 1, n);
            return Some(String::from_str(ext));
        }
    }
    assert forall|k: int| k > 0 implies !is_last_dot(name@, k) by {}
    None
}

/// What a lower-cased file name says of the role of its text: `system`
/// where it holds that word, else `assistant`, else `user`, looked for in
/// this order; nothing where it holds none of the three.
pub open spec fn role_in(lowered: Seq<char>) -> Option<Role> {
    if has_run(lowered, "system"@) {
        Some(Role::System)
    } else if has_run(lowered, "assistant"@) {
        Some(Role::Assistant)
    } else if has_run(lowered, "user"@) {
        Some(Role::User)
    } else {
        None
    }
}

/// What a lower-cased file name says of the role of its text.
pub fn role_for(lowered: &str) -> (r: Option<Role>)
    ensures
        r == role_in(lowered@),
{
    if contains_text(lowered, "system") {
        Some(Role::System)
    } else if contains_text(lowered, "assistant") {
        Some(Role::Assistant)
    } else if contains_text(lowered, "user") {
        Some(Role::User)
    } else {
        None
    }
}

/// What the file name `name` says of the role of its text, the case of
/// its letters set aside.
pub open spec fn role_of_name(name: Seq<char>) -> Option<Role> {
    role_in(lowercase(name))
}

/// What a file name says of the role of its text.
pub fn role_of_file(name: &str) -> (r: Option<Role>)
    ensures
        r == role_of_name(name@),
{
    let lowered = to_lowercase(name);
    role_for(lowered.as_str())
}

/// How the content of a message file is written.
#[derive(Debug, Clone, Copy, PartialEq, Eq, Structural)]
pub enum FileKind {
    /// A list of saved messages in JSON.
    Json,
    /// A list of records in YAML.
    Yaml,
    /// One message as plain text; the file name tells the role.
    Text,
}

/// Which files a directory holds.
#[derive(Debug, Clone, Copy, PartialEq, Eq, Structural)]
pub enum Scope {
    /// Pre-set messages: the extension of each file tells its kind.
    PreMessages,
    /// History: every file is a list of records in YAML.
    History,
}

/// The kind of a file by its lower-cased extension: `json` is JSON, `yaml`
/// and `yml` are YAML, and every other extension, as well as none, is
/// plain text.
pub open spec fn kind_of_extension(lowered: Option<Seq<char>>) -> FileKind {
    if lowered == Some("json"@) {
        FileKind::Json
    } else if lowered == Some("yaml"@) || lowered == Some("yml"@) {
        FileKind::Yaml
    } else {
        FileKind::Text
    }
}

/// The kind of a file by its lower-cased extension.
pub fn kind_for_extension(lowered: &Option<String>) -> (r: FileKind)
    ensures
        r == kind_of_extension(lowered.deep_view()),
{
    match lowered {
        Some(ext) => {
            if *ext == String::from_str("json") {
                FileKind::Json
            } else if *ext == String::from_str("yaml") || *ext == String::from_str("yml") {
                FileKind::Yaml
            } else {
                FileKind::Text
            }
        },
        None => FileKind::Text,
    }
}

/// The kind of the file `name` in a directory of the scope `scope`.
pub open spec fn kind_of(scope: Scope, name: Seq<char>) -> FileKind {
    match scope {
        Scope::History => FileKind::Yaml,
        Scope::PreMessages => kind_of_extension(
            match extension_of(name) {
                Some(ext) => Some(lowercase(ext)),
                None => None,
            },
        ),
    }
}

/// The kind of a file in a directory of the scope `scope`.
pub fn file_kind(scope: Scope, name: &str) -> (r: FileKind)
    ensures
        r == kind_of(scope, name@),
{
    match scope {
        Scope::History => FileKind::Yaml,
        Scope::PreMessages => {
            let lowered = match extension(name) {
                Some(ext) => Some(to_lowercase(ext.as_str())),
                None => None,
            };
            kind_for_extension(&lowered)
        },
    }
}

} // verus!
