//! Loading the messages of a directory: the files are taken in the order
//! of their names, each gives the messages that it holds, and the first
//! file that fails ends the load.

use vstd::prelude::*;
use crate::api::{Role, Turn};
use crate::error::{Error, ErrorView};
use crate::listing::{
    file_kind, is_sorted, kind_of, role_of_file, role_of_name, sort_names, FileKind, Scope,
};
use crate::messages::{
    lemma_try_from_is_turn_of, turn_of, RawSavedMessage, Record, SavedMessage,
};
use crate::path::{join, joined};

verus! {

/// What came of reading one file as its kind asks.
#[derive(Debug, PartialEq, Eq)]
pub enum Loaded {
    /// The messages of a JSON file.
    Messages(Vec<SavedMessage>),
    /// The records of a YAML file.
    Records(Vec<RawSavedMessage>),
    /// The content of a plain text file.
    Text(String),
    /// The file could not be read; the cause.
    Unreadable(String),
    /// The content is not of the file's format; the cause.
    Unparseable(String),
}

/// A [`Loaded`] with its texts as sequences of characters.
pub enum LoadedView {
    Messages(Seq<Turn>),
    Records(Seq<Record>),
    Text(Seq<char>),
    Unreadable(Seq<char>),
    Unparseable(Seq<char>),
}

impl View for Loaded {
    type V = LoadedView;

    open spec fn view(&self) -> LoadedView {
        match *self {
            Loaded::Messages(messages) => LoadedView::Messages(messages.deep_view()),
            Loaded::Records(records) => LoadedView::Records(records.deep_view()),
            Loaded::Text(text) => LoadedView::Text(text@),
            Loaded::Unreadable(cause) => LoadedView::Unreadable(cause@),
            Loaded::Unparseable(cause) => LoadedView::Unparseable(cause@),
        }
    }
}

impl DeepView for Loaded {
    type V = LoadedView;

    open spec fn deep_view(&self) -> LoadedView {
        self@
    }
}

/// `loaded` is what reading a file of the kind `kind` can give: messages
/// for JSON, records for YAML, text for plain text, or a failure.
pub open spec fn answers(kind: FileKind, loaded: LoadedView) -> bool {
    match loaded {
        LoadedView::Messages(_) => kind == FileKind::Json,
        LoadedView::Records(_) => kind == FileKind::Yaml,
        LoadedView::Text(_) => kind == FileKind::Text,
        LoadedView::Unreadable(_) => true,
        LoadedView::Unparseable(_) => kind != FileKind::Text,
    }
}

/// The turns that the records hold, one for each; none where a record
/// sets no field.
pub open spec fn turns_of(records: Seq<Record>) -> Option<Seq<Turn>> {
    if forall|i: int| 0 <= i < records.len() ==> turn_of(#[trigger] records[i]).is_some() {
        Some(Seq::new(records.len(), |i: int| turn_of(records[i]).unwrap()))
    } else {
        None
    }
}

/// What the file `name` at `path` adds to the conversation.
///
/// A file that could not be read or parsed fails the load. The messages of
/// a JSON file are taken as they are. The records of a YAML file give one
/// message each, and a record without a field fails the load. A plain
/// text is one message of the role that the file name tells, and is left
/// out where the name tells none.
pub open spec fn contribution(path: Seq<char>, name: Seq<char>, loaded: LoadedView) -> Result<
    Seq<Turn>,
    ErrorView,
> {
    match loaded {
        LoadedView::Unreadable(cause) => Err(ErrorView::UnreadableFile { path, cause }),
        LoadedView::Unparseable(cause) => Err(ErrorView::UnparseableContent { path, cause }),
        LoadedView::Messages(messages) => Ok(messages),
        LoadedView::Records(records) => match turns_of(records) {
            Some(turns) => Ok(turns),
            None => Err(ErrorView::EmptyMessageRecord),
        },
        LoadedView::Text(text) => match role_of_name(name) {
            Some(role) => Ok(seq![Turn { role, content: text }]),
            None => Ok(Seq::empty()),
        },
    }
}

/// The whole load: the contributions of the files in their order, put
/// together; the failure of the first file that fails.
pub open spec fn loaded_from(
    dir: Seq<char>,
    names: Seq<Seq<char>>,
    contents: Seq<LoadedView>,
) -> Result<Seq<Turn>, ErrorView>
    recommends
        names.len() == contents.len(),
    decreases names.len(),
{
    if names.len() == 0 || contents.len() == 0 {
        Ok(Seq::empty())
    } else {
        match loaded_from(dir, names.drop_last(), contents.drop_last()) {
            Err(e) => Err(e),
            Ok(turns) => match contribution(
                joined(dir, names.last()),
                names.last(),
                contents.last(),
            ) {
                Err(e) => Err(e),
                Ok(more) => Ok(turns + more),
            },
        }
    }
}

/// Reads the message of each record.
pub fn messages_of_records(records: &Vec<RawSavedMessage>) -> (r: Result<Vec<SavedMessage>, Error>)
    ensures
        match turns_of(records.deep_view()) {
            Some(turns) => r.is_ok() && r.unwrap().deep_view() == turns,
            None => r == Err::<Vec<SavedMessage>, Error>(Error::EmptyMessageRecord),
        },
{
    let ghost all = records.deep_view();
    let mut out: Vec<SavedMessage> = Vec::new();
    let mut i: usize = 0;
    while i < records.len()
        invariant
            all == records.deep_view(),
            i <= records.len(),
            out@.len() == i,
            forall|k: int| 0 <= k < i ==> turn_of(#[trigger] all[k]) == Some(out@[k]@),
        decreases records.len() - i,
    {
        let record = records[i].clone();
        assert(record@ == all[i as int]);
        proof {
            lemma_try_from_is_turn_of(record);
        }
        match SavedMessage::try_from(record) {
            Ok(message) => {
                out.push(message);
                i += 1;
            },
            Err(_) => {
                return Err(Error::EmptyMessageRecord);
            },
        }
    }
    assert(out.deep_view() =~= Seq::new(all.len(), |i: int| turn_of(all[i]).unwrap()));
    Ok(out)
}

/// The file that a loader asks for next.
#[derive(Debug, PartialEq, Eq)]
pub struct Pending {
    /// The name of the file in its directory.
    pub name: String,
    /// The path of the file: the directory extended by the name.
    pub path: String,
    /// How the file is to be read.
    pub kind: FileKind,
}

/// The state of a load: the files of the directory in the order of their
/// names, how many of them were taken, and the messages gathered so far.
pub struct Loader {
    scope: Scope,
    dir: String,
    names: Vec<String>,
    position: usize,
    messages: Vec<SavedMessage>,
}

/// A [`Loader`] as a value.
pub struct LoaderView {
    pub scope: Scope,
    pub dir: Seq<char>,
    pub names: Seq<Seq<char>>,
    pub position: nat,
    pub messages: Seq<Turn>,
}

impl View for Loader {
    type V = LoaderView;

    closed spec fn view(&self) -> LoaderView {
        LoaderView {
            scope: self.scope,
            dir: self.dir@,
            names: self.names.deep_view(),
            position: self.position as nat,
            messages: self.messages.deep_view(),
        }
    }
}

/// A file is pending, and `loaded` is what reading a file of its kind can give.
pub open spec fn accepts(state: LoaderView, loaded: LoadedView) -> bool {
    &&& state.position < state.names.len()
    &&& answers(kind_of(state.scope, state.names[state.position as int]), loaded)
}

/// The state after `loaded` was taken for the pending file: its messages
/// are added and the next file is pending. Where the file fails, the
/// failure.
pub open spec fn step(state: LoaderView, loaded: LoadedView) -> Result<LoaderView, ErrorView> {
    let name = state.names[state.position as int];
    match contribution(joined(state.dir, name), name, loaded) {
        Ok(more) => Ok(
            LoaderView {
                position: state.position + 1,
                messages: state.messages + more,
                ..state
            },
        ),
        Err(e) => Err(e),
    }
}

/// `contents` holds, for each file that is still to be taken and in their
/// order, what reading a file of its kind can give.
pub open spec fn fitting(state: LoaderView, contents: Seq<LoadedView>) -> bool {
    &&& state.position + contents.len() == state.names.len()
    &&& forall|i: int|
        0 <= i < contents.len() ==> answers(
            kind_of(state.scope, state.names[state.position + i]),
            #[trigger] contents[i],
        )
}

/// Whether `loaded` is what reading a file of the kind `kind` can give.
pub fn fits(kind: FileKind, loaded: &Loaded) -> (r: bool)
    ensures
        r == answers(kind, loaded@),
{
    match loaded {
        Loaded::Messages(_) => kind == FileKind::Json,
        Loaded::Records(_) => kind == FileKind::Yaml,
        Loaded::Text(_) => kind == FileKind::Text,
        Loaded::Unreadable(_) => true,
        Loaded::Unparseable(_) => kind != FileKind::Text,
    }
}

impl Loader {
    #[verifier::type_invariant]
    spec fn well_formed(self) -> bool {
        &&& is_sorted(self.names.deep_view())
        &&& self.position <= self.names@.len()
    }

    /// A load of the files `names` of the directory `dir`. The files will
    /// be taken in the order of their names.
    pub fn new(scope: Scope, dir: &str, names: Vec<String>) -> (r: Loader)
        ensures
            r@.scope == scope,
            r@.dir == dir@,
            is_sorted(r@.names),
            r@.names.to_multiset() == names.deep_view().to_multiset(),
            r@.position == 0,
            r@.messages == Seq::<Turn>::empty(),
    {
        let sorted = sort_names(names);
        let r = Loader {
            scope,
            dir: String::from_str(dir),
            names: sorted,
            position: 0,
            messages: Vec::new(),
        };
        assert(r@.messages =~= Seq::<Turn>::empty());
        r
    }

    /// The file to read next; none when every file was taken.
    pub fn pending(&self) -> (r: Option<Pending>)
        ensures
            is_sorted(self@.names),
            self@.position <= self@.names.len(),
            match r {
                None => self@.position == self@.names.len(),
                Some(p) => {
                    &&& self@.position < self@.names.len()
                    &&& p.name@ == self@.names[self@.position as int]
                    &&& p.path@ == joined(self@.dir, p.name@)
                    &&& p.kind == kind_of(self@.scope, p.name@)
                },
            },
    {
        proof {
            use_type_invariant(self);
        }
        if self.position < self.names.len() {
            let name = self.names[self.position].clone();
            assert(self@.names[self.position as int] == self.names@[self.position as int]@);
            let path = join(self.dir.as_str(), name.as_str());
            let kind = file_kind(self.scope, name.as_str());
            Some(Pending { name, path, kind })
        } else {
            None
        }
    }

    /// Takes what reading the pending file gave. On success the messages
    /// of the file are added and the next file is pending; on failure the
    /// loader stays as it was.
    pub fn feed(&mut self, loaded: Loaded) -> (r: Result<(), Error>)
        requires
            accepts(old(self)@, loaded@),
        ensures
            match step(old(self)@, loaded@) {
                Ok(next) => r.is_ok() && final(self)@ == next,
                Err(e) => r.is_err() && r.unwrap_err()@ == e && final(self)@ == old(self)@,
            },
    {
        proof {
            use_type_invariant(&*self);
        }
        let ghost before = self.messages.deep_view();
        let ghost name = self@.names[self.position as int];
        assert(name == self.names@[self.position as int]@);
        let mut more: Vec<SavedMessage> = match loaded {
            Loaded::Unreadable(cause) => {
                let path = join(self.dir.as_str(), self.names[self.position].as_str());
                return Err(Error::UnreadableFile { path, cause });
            },
            Loaded::Unparseable(cause) => {
                let path = join(self.dir.as_str(), self.names[self.position].as_str());
                return Err(Error::UnparseableContent { path, cause });
            },
            Loaded::Messages(messages) => messages,
            Loaded::Records(records) => {
                match messages_of_records(&records) {
                    Ok(messages) => messages,
                    Err(e) => {
                        return Err(e);
                    },
                }
            },
            Loaded::Text(text) => {
                let mut one: Vec<SavedMessage> = Vec::new();
                match role_of_file(self.names[self.position].as_str()) {
                    Some(Role::System) => {
                        one.push(SavedMessage::System(text));
                    },
                    Some(Role::Assistant) => {
                        one.push(SavedMessage::Assistant(text));
                    },
                    Some(Role::User) => {
                        one.push(SavedMessage::User(text));
                    },
                    None => {},
                }
                one
            },
        };
        let ghost added = more.deep_view();
        assert(contribution(joined(old(self)@.dir, name), name, loaded@) == Ok::<
            Seq<Turn>,
            ErrorView,
        >(added)) by {
            match loaded {
                Loaded::Text(text) => {
                    match role_of_name(name) {
                        Some(role) => {
                            assert(added =~= seq![Turn { role, content: text@ }]);
                        },
                        None => {
                            assert(added =~= Seq::<Turn>::empty());
                        },
                    }
                },
                _ => {},
            }
        }
        let mut gathered: Vec<SavedMessage> = Vec::new();
        core::mem::swap(&mut self.messages, &mut gathered);
        gathered.append(&mut more);
        assert(gathered.deep_view() =~= before + added);
        core::mem::swap(&mut self.messages, &mut gathered);
        let total = self.names.len();
        assert(self.position < total);
        self.position = self.position + 1;
        Ok(())
    }

    /// Takes what reading the pending file gave, as `feed` does, where a
    /// file is pending and `loaded` is what a file of its kind can give.
    /// Otherwise the loader stays as it is and nothing is returned.
    pub fn try_feed(&mut self, loaded: Loaded) -> (r: Option<Result<(), Error>>)
        ensures
            r.is_some() == accepts(old(self)@, loaded@),
            match r {
                None => final(self)@ == old(self)@,
                Some(outcome) => match step(old(self)@, loaded@) {
                    Ok(next) => outcome.is_ok() && final(self)@ == next,
                    Err(e) => outcome.is_err() && outcome.unwrap_err()@ == e && final(self)@
                        == old(self)@,
                },
            },
    {
        match self.pending() {
            Some(pending) => {
                if fits(pending.kind, &loaded) {
                    Some(self.feed(loaded))
                } else {
                    None
                }
            },
            None => None,
        }
    }

    /// The messages gathered so far.
    pub fn finish(self) -> (r: Vec<SavedMessage>)
        ensures
            r.deep_view() == self@.messages,
    {
        self.messages
    }

    /// The names of the files, in the order in which they are taken.
    pub fn names(&self) -> (r: &Vec<String>)
        ensures
            r.deep_view() == self@.names,
            is_sorted(self@.names),
    {
        proof {
            use_type_invariant(self);
        }
        &self.names
    }

    fn fit_all(&self, contents: &Vec<Loaded>) -> (r: bool)
        ensures
            r == fitting(self@, contents.deep_view()),
    {
        proof {
            use_type_invariant(self);
        }
        let total = self.names.len();
        if contents.len() != total - self.position {
            return false;
        }
        let mut i: usize = 0;
        while i < contents.len()
            invariant
                total == self.names@.len(),
                self.position + contents@.len() == self.names@.len(),
                i <= contents@.len(),
                forall|k: int|
                    0 <= k < i ==> answers(
                        kind_of(self@.scope, self@.names[self.position + k]),
                        #[trigger] contents.deep_view()[k],
                    ),
            decreases contents@.len() - i,
        {
            let kind = file_kind(self.scope, self.names[self.position + i].as_str());
            assert(self@.names[self.position + i] == self.names@[self.position + i]@);
            assert(contents.deep_view()[i as int] == contents@[i as int]@);
            if !fits(kind, &contents[i]) {
                return false;
            }
            i += 1;
        }
        true
    }

    /// Runs the load to its end on what reading each file gave, `contents`
    /// holding for each file that is still to be taken, in the order of
    /// the names, what came of it. Nothing is returned where `contents`
    /// does not fit the files.
    pub fn feed_all(self, contents: Vec<Loaded>) -> (r: Option<Result<Vec<SavedMessage>, Error>>)
        ensures
            r.is_some() == fitting(self@, contents.deep_view()),
            r.is_some() ==> (match loaded_from(
                self@.dir,
                self@.names.skip(self@.position as int),
                contents.deep_view(),
            ) {
                Ok(turns) => r.unwrap().is_ok() && r.unwrap().unwrap().deep_view()
                    == self@.messages + turns,
                Err(e) => r.unwrap().is_err() && r.unwrap().unwrap_err()@ == e,
            }),
    {
        if !self.fit_all(&contents) {
            return None;
        }
        let ghost start = self@;
        let ghost all = contents.deep_view();
        let ghost names = start.names.skip(start.position as int);
        let mut loader = self;
        let mut rest = contents;
        assert(names.take(0) =~= Seq::<Seq<char>>::empty());
        assert(start.messages + Seq::<Turn>::empty() =~= start.messages);
        while rest.len() > 0
            invariant
                start == self@,
                all == contents.deep_view(),
                names == start.names.skip(start.position as int),
                fitting(start, all),
                loader@.scope == start.scope,
                loader@.dir == start.dir,
                loader@.names == start.names,
                start.position <= loader@.position,
                loader@.position + rest@.len() == start.names.len(),
                rest.deep_view() == all.skip(loader@.position - start.position),
                match loaded_from(
                    start.dir,
                    names.take(loader@.position - start.position),
                    all.take(loader@.position - start.position),
                ) {
                    Ok(turns) => loader@.messages == start.messages + turns,
                    Err(_) => false,
                },
            decreases rest@.len(),
        {
            let ghost at = loader@.position - start.position;
            let ghost before = rest.deep_view();
            let ghost had = rest@;
            let ghost state = loader@;
            let loaded = rest.remove(0);
            assert(loaded@ == all[at]) by {
                assert(before[0] == had[0]@);
            }
            assert(rest.deep_view() =~= all.skip(at + 1)) by {
                assert forall|k: int| 0 <= k < rest@.len() implies rest.deep_view()[k] == all.skip(
                    at + 1,
                )[k] by {
                    assert(rest@[k] == had[k + 1]);
                    assert(before[k + 1] == had[k + 1]@);
                }
            }
            proof {
                assert(names.take(at + 1).drop_last() =~= names.take(at));
                assert(all.take(at + 1).drop_last() =~= all.take(at));
                assert(names.take(at + 1).last() == start.names[state.position as int]);
                assert(all.take(at + 1).last() == all[at]);
            }
            match loader.feed(loaded) {
                Ok(()) => {
                    proof {
                        let so_far = loaded_from(start.dir, names.take(at), all.take(at))->Ok_0;
                        let name = start.names[state.position as int];
                        let more = contribution(joined(start.dir, name), name, all[at])->Ok_0;
                        assert(start.messages + so_far + more =~= start.messages + (so_far
                            + more));
                    }
                },
                Err(e) => {
                    proof {
                        assert(loaded_from(start.dir, names.take(at + 1), all.take(at + 1))
                            == Err::<Seq<Turn>, ErrorView>(e@));
                        lemma_failure_stays(start.dir, names, all, at + 1);
                    }
                    return Some(Err(e));
                },
            }
        }
        proof {
            assert(names.take(all.len() as int) =~= names);
            assert(all.take(all.len() as int) =~= all);
        }
        Some(Ok(loader.finish()))
    }
}

/// A directory without files gives no messages and no failure.
pub proof fn lemma_no_files_no_messages(dir: Seq<char>)
    ensures
        loaded_from(dir, Seq::empty(), Seq::empty()) == Ok::<Seq<Turn>, ErrorView>(Seq::empty()),
{
}

/// Once a file has failed, the files after it change nothing: the load
/// fails as the first `k` files fail.
pub proof fn lemma_failure_stays(
    dir: Seq<char>,
    names: Seq<Seq<char>>,
    contents: Seq<LoadedView>,
    k: int,
)
    requires
        names.len() == contents.len(),
        0 <= k <= names.len(),
        loaded_from(dir, names.take(k), contents.take(k)).is_err(),
    ensures
        loaded_from(dir, names, contents) == loaded_from(dir, names.take(k), contents.take(k)),
    decreases names.len() - k,
{
    if k == names.len() {
        assert(names.take(k) =~= names);
        assert(contents.take(k) =~= contents);
    } else {
        assert(names.take(k + 1).drop_last() =~= names.take(k));
        assert(contents.take(k + 1).drop_last() =~= contents.take(k));
        lemma_failure_stays(dir, names, contents, k + 1);
    }
}

} // verus!
