//! The session store: a write-through cache of session records.
//!
//! The store owns the records that are resident in memory. It never touches
//! the disk itself: the caller reads and writes the per-session files and
//! tells the store what came of it, and the store decides what is cached and
//! what is returned. A record enters the cache only after it was written.

use crate::game_design::error::{DesignError, ErrorView};
use crate::game_design::lookup::{
    first_index, lemma_first_index_absent, lemma_first_index_found, lemma_first_index_is_first,
    lemma_first_index_none, lemma_first_index_push,
};
use crate::game_design::designer_llm::{outcome_view, ChatMessage, LlmOutcome};
use crate::game_design::state::{SessionState, SessionView};
use crate::game_design::workflow::{request_view, step_view, NextFeatureStep};
use vstd::prelude::*;

verus! {

/// The directory, below the working directory, that holds the session files.
pub const PERSISTENCE_DIR: &'static str = ".gamedesignerd";

/// What the durable store gave for a session id: the record, nothing, or a
/// failure and what is known of it.
pub type Stored = Result<Option<SessionState>, String>;

/// The value of what the durable store gave.
pub open spec fn stored_view(stored: Stored) -> Result<Option<SessionView>, Seq<char>> {
    match stored {
        Ok(Some(session)) => Ok(Some(session@)),
        Ok(None) => Ok(None),
        Err(detail) => Err(detail@),
    }
}

/// The value of an outcome of writing.
pub open spec fn written_view(written: Result<(), String>) -> Result<(), Seq<char>> {
    match written {
        Ok(()) => Ok(()),
        Err(detail) => Err(detail@),
    }
}

/// The value of an optional session or of the error in its place.
pub open spec fn loaded_view(loaded: Result<Option<SessionState>, DesignError>) -> Result<
    Option<SessionView>,
    ErrorView,
> {
    match loaded {
        Ok(Some(session)) => Ok(Some(session@)),
        Ok(None) => Ok(None),
        Err(error) => Err(error@),
    }
}

/// The value of a session or of the error in its place.
pub open spec fn created_view(created: Result<SessionState, DesignError>) -> Result<
    SessionView,
    ErrorView,
> {
    match created {
        Ok(session) => Ok(session@),
        Err(error) => Err(error@),
    }
}

/// The value of a changed session with the text to return, or of the error in
/// their place.
pub open spec fn recorded_view(recorded: Result<(SessionState, String), DesignError>) -> Result<
    (SessionView, Seq<char>),
    ErrorView,
> {
    match recorded {
        Ok((session, text)) => Ok((session@, text@)),
        Err(error) => Err(error@),
    }
}

/// The sessions that are resident in memory, by id.
pub type Cache = Map<Seq<char>, SessionView>;

/// The file that holds the session `session_id` below `directory`.
pub open spec fn file_path(directory: Seq<char>, session_id: Seq<char>) -> Seq<char> {
    directory + "/"@ + session_id + ".json"@
}

/// What creating a session comes to: refused where the id is known, in memory
/// or on disk; else a fresh session.
pub open spec fn created(
    cache: Cache,
    session_id: Seq<char>,
    description: Seq<char>,
    on_disk: bool,
) -> Result<SessionView, ErrorView> {
    if cache.contains_key(session_id) || on_disk {
        Err(ErrorView::session_exists(session_id))
    } else {
        Ok(SessionView::fresh(session_id, description))
    }
}

/// The cache and the answer after a session was asked for: the resident
/// record where there is one; else what the durable store gave, which becomes
/// resident.
pub open spec fn loaded(
    cache: Cache,
    session_id: Seq<char>,
    stored: Result<Option<SessionView>, Seq<char>>,
) -> (Cache, Result<Option<SessionView>, ErrorView>) {
    if cache.contains_key(session_id) {
        (cache, Ok(Some(cache[session_id])))
    } else {
        match stored {
            Ok(Some(session)) => (cache.insert(session_id, session), Ok(Some(session))),
            Ok(None) => (cache, Ok(None)),
            Err(detail) => (cache, Err(ErrorView::persistence(detail))),
        }
    }
}

/// The cache and the answer after a session was saved: resident under its own
/// id where it was written, whatever was resident there before; else the cache
/// as it was.
pub open spec fn saved(cache: Cache, session: SessionView, written: Result<(), Seq<char>>) -> (
    Cache,
    Result<(), ErrorView>,
) {
    match written {
        Ok(()) => (cache.insert(session.id, session), Ok(())),
        Err(detail) => (cache, Err(ErrorView::persistence(detail))),
    }
}

/// The resident session `session_id`, which an operation of the workflow
/// works on.
pub open spec fn resident(cache: Cache, session_id: Seq<char>) -> Result<SessionView, ErrorView> {
    if cache.contains_key(session_id) {
        Ok(cache[session_id])
    } else {
        Err(ErrorView::session_not_found(session_id))
    }
}

/// What an operation that changes a resident session comes to: the changed
/// session and the text to return, where the operation succeeds.
pub open spec fn changed(
    session: Result<SessionView, ErrorView>,
    change: spec_fn(SessionView) -> (SessionView, Result<Seq<char>, ErrorView>),
) -> Result<(SessionView, Seq<char>), ErrorView> {
    match session {
        Err(error) => Err(error),
        Ok(session) => match change(session).1 {
            Ok(text) => Ok((change(session).0, text)),
            Err(error) => Err(error),
        },
    }
}

/// Manages sessions in memory and decides what is persisted.
#[derive(Debug)]
pub struct SessionManager {
    sessions: Vec<(String, SessionState)>,
    persistence_path: String,
}

impl View for SessionManager {
    type V = Cache;

    closed spec fn view(&self) -> Cache {
        Map::new(
            |id: Seq<char>| first_index(self.keys(), id) is Some,
            |id: Seq<char>| self.sessions@[first_index(self.keys(), id)->0].1@,
        )
    }
}

impl SessionManager {
    /// The ids under which sessions are resident, in the order of arrival.
    pub closed spec fn keys(&self) -> Seq<Seq<char>> {
        Seq::new(self.sessions@.len(), |i: int| self.sessions@[i].0@)
    }

    /// The directory that holds the session files.
    pub closed spec fn directory(&self) -> Seq<char> {
        self.persistence_path@
    }

    /// The invariant of the type: no id is resident twice, and every resident
    /// session is well formed.
    pub closed spec fn wf(&self) -> bool {
        &&& forall|i: int, j: int|
            0 <= i < j < self.sessions@.len() ==> self.sessions@[i].0@ != self.sessions@[j].0@
        &&& forall|i: int| 0 <= i < self.sessions@.len() ==> (#[trigger] self.sessions@[i]).1.wf()
    }

    /// A store with nothing resident, for the session files below
    /// `.gamedesignerd`.
    pub fn new() -> (manager: Self)
        ensures
            manager.wf(),
            manager@ == Map::<Seq<char>, SessionView>::empty(),
            manager.directory() == PERSISTENCE_DIR@,
    {
        let manager = SessionManager {
            sessions: Vec::new(),
            persistence_path: PERSISTENCE_DIR.to_owned(),
        };
        proof {
            lemma_first_index_absent_everywhere(manager.keys());
            assert(manager@ =~= Map::<Seq<char>, SessionView>::empty());
        }
        manager
    }

    /// Opens the store once its directory was looked after: `prepared` is how
    /// making sure that `.gamedesignerd` exists ended. A store without its
    /// directory is not opened; the failure is reported as a
    /// `PersistenceError`.
    pub fn open(prepared: Result<(), String>) -> (opened: Result<Self, DesignError>)
        ensures
            match opened {
                Ok(manager) => prepared is Ok && manager.wf() && manager@ == Map::<
                    Seq<char>,
                    SessionView,
                >::empty() && manager.directory() == PERSISTENCE_DIR@,
                Err(error) => prepared is Err && error@ == ErrorView::storage_unavailable(
                    PERSISTENCE_DIR@,
                    prepared->Err_0@,
                ),
            },
    {
        match prepared {
            Ok(()) => Ok(SessionManager::new()),
            Err(detail) => Err(
                DesignError::storage_unavailable(PERSISTENCE_DIR, detail.as_str()),
            ),
        }
    }

    /// The directory that holds the session files.
    pub fn persistence_path(&self) -> (path: &str)
        ensures
            path@ == self.directory(),
    {
        self.persistence_path.as_str()
    }

    /// The file that holds the session `session_id`.
    pub fn session_file_path(&self, session_id: &str) -> (path: String)
        ensures
            path@ == file_path(self.directory(), session_id@),
    {
        let mut path = self.persistence_path.clone();
        path.append("/");
        path.append(session_id);
        path.append(".json");
        path
    }

    /// The place of the session `session_id` in the cache.
    fn position(&self, session_id: &String) -> (found: Option<usize>)
        ensures
            match found {
                Some(i) => i < self.sessions@.len() && first_index(self.keys(), session_id@)
                    == Some(i as int) && self@.contains_key(session_id@) && self@[session_id@]
                    == self.sessions@[i as int].1@,
                None => first_index(self.keys(), session_id@) is None && !self@.contains_key(
                    session_id@,
                ),
            },
    {
        let mut i: usize = 0;
        while i < self.sessions.len()
            invariant
                i <= self.sessions@.len(),
                forall|j: int| 0 <= j < i ==> self.keys()[j] != session_id@,
            decreases self.sessions@.len() - i,
        {
            if self.sessions[i].0 == *session_id {
                proof {
                    lemma_first_index_found(self.keys(), session_id@, i as int);
                }
                return Some(i);
            }
            i += 1;
        }
        proof {
            lemma_first_index_absent(self.keys(), session_id@);
        }
        None
    }

    /// Whether the session `session_id` is resident.
    pub fn is_cached(&self, session_id: &str) -> (cached: bool)
        ensures
            cached == self@.contains_key(session_id@),
    {
        self.position(&session_id.to_owned()).is_some()
    }

    /// Makes the session `key` resident with the record `session`, in place of
    /// what was resident under that id.
    fn put(&mut self, key: String, session: SessionState)
        requires
            old(self).wf(),
            session.wf(),
        ensures
            final(self).wf(),
            final(self)@ == old(self)@.insert(key@, session@),
            final(self).directory() == old(self).directory(),
    {
        match self.position(&key) {
            Some(i) => {
                proof {
                    lemma_first_index_is_first(self.keys(), key@);
                    assert(self.sessions@[i as int].0@ == self.keys()[i as int]);
                }
                self.sessions.set(i, (key, session));
                proof {
                    assert(self.keys() =~= old(self).keys());
                }
            },
            None => {
                proof {
                    lemma_first_index_none(self.keys(), key@);
                    assert forall|j: int| 0 <= j < self.sessions@.len() implies self.sessions@[j].0@
                        != key@ by {
                        assert(self.sessions@[j].0@ == self.keys()[j]);
                    }
                }
                self.sessions.push((key, session));
                proof {
                    assert(self.keys() =~= old(self).keys().push(key@));
                    assert forall|id: Seq<char>|
                        first_index(self.keys(), id) == if id == key@ {
                            Some(old(self).sessions@.len() as int)
                        } else {
                            first_index(old(self).keys(), id)
                        } by {
                        lemma_first_index_push(old(self).keys(), key@, id);
                    }
                }
            },
        }
        proof {
            assert forall|id: Seq<char>| first_index(self.keys(), id) is Some implies 0
                <= first_index(self.keys(), id)->0 < self.keys().len() by {
                lemma_first_index_is_first(self.keys(), id);
            }
            assert forall|id: Seq<char>| first_index(old(self).keys(), id) is Some implies 0
                <= first_index(old(self).keys(), id)->0 < old(self).keys().len() by {
                lemma_first_index_is_first(old(self).keys(), id);
            }
            assert(self@ =~= old(self)@.insert(key@, session@));
        }
    }

    /// Creates the record of a new session. It fails with `AlreadyExists`
    /// where a session with this id is resident or, as `on_disk` says, has a
    /// file. The store itself does not change: the new record becomes resident
    /// when it is saved.
    pub fn create_session(
        &self,
        session_id: String,
        description: String,
        on_disk: bool,
    ) -> (result: Result<SessionState, DesignError>)
        ensures
            created_view(result) == created(self@, session_id@, description@, on_disk),
            result matches Ok(session) ==> session.wf(),
    {
        if self.position(&session_id).is_some() || on_disk {
            return Err(DesignError::session_exists(session_id.as_str()));
        }
        Ok(SessionState::new(session_id, description))
    }

    /// Gives the session `session_id`: the resident record where there is
    /// one, whatever `stored` holds; else the record that the durable store
    /// gave, which becomes resident; else nothing. A failure of the durable
    /// store is an error.
    pub fn load_session(&mut self, session_id: &str, stored: Stored) -> (result: Result<
        Option<SessionState>,
        DesignError,
    >)
        requires
            old(self).wf(),
            stored matches Ok(Some(session)) ==> session.wf(),
        ensures
            final(self).wf(),
            final(self).directory() == old(self).directory(),
            (final(self)@, loaded_view(result)) == loaded(
                old(self)@,
                session_id@,
                stored_view(stored),
            ),
            result matches Ok(Some(session)) ==> session.wf(),
    {
        let key = session_id.to_owned();
        if let Some(i) = self.position(&key) {
            let copy = self.sessions[i].1.clone();
            return Ok(Some(copy));
        }
        match stored {
            Ok(Some(session)) => {
                let copy = session.clone();
                self.put(key, session);
                Ok(Some(copy))
            },
            Ok(None) => Ok(None),
            Err(detail) => Err(DesignError::persistence(detail)),
        }
    }

    /// Makes `session_state` resident under its own id once it was written:
    /// `written` is how the write to the durable store ended. Where the write
    /// failed, the cache stays as it was and the failure is the error.
    pub fn save_session(
        &mut self,
        session_state: SessionState,
        written: Result<(), String>,
    ) -> (result: Result<(), DesignError>)
        requires
            old(self).wf(),
            session_state.wf(),
        ensures
            final(self).wf(),
            final(self).directory() == old(self).directory(),
            (final(self)@, match result {
                Ok(()) => Ok::<(), ErrorView>(()),
                Err(error) => Err::<(), ErrorView>(error@),
            }) == saved(old(self)@, session_state@, written_view(written)),
    {
        match written {
            Ok(()) => {
                let key = session_state.id.clone();
                self.put(key, session_state);
                Ok(())
            },
            Err(detail) => Err(DesignError::persistence(detail)),
        }
    }

    /// The resident session `session_id`.
    fn resident_session(&self, session_id: &str) -> (found: Result<&SessionState, DesignError>)
        requires
            self.wf(),
        ensures
            match found {
                Ok(session) => resident(self@, session_id@) == Ok::<SessionView, ErrorView>(
                    session@,
                ) && session.wf(),
                Err(error) => resident(self@, session_id@) == Err::<SessionView, ErrorView>(
                    error@,
                ),
            },
    {
        match self.position(&session_id.to_owned()) {
            Some(i) => Ok(&self.sessions[i].1),
            None => Err(DesignError::session_not_found(session_id)),
        }
    }

    /// First step of requesting the next feature of the resident session
    /// `session_id`: the specification of the feature that is checked out, or
    /// the messages that ask the model for a new one.
    pub fn get_next_feature(&self, session_id: &str, llm_available: bool) -> (step: Result<
        NextFeatureStep,
        DesignError,
    >)
        requires
            self.wf(),
        ensures
            step_view(step) == match resident(self@, session_id@) {
                Ok(session) => session.next_feature_step(llm_available),
                Err(error) => Err(error),
            },
    {
        match self.resident_session(session_id) {
            Ok(session) => session.request_next_feature(llm_available),
            Err(error) => Err(error),
        }
    }

    /// Second step of requesting the next feature: the session with the
    /// model's proposal planned and checked out, and the specification to
    /// return. The store itself does not change: the changed session becomes
    /// resident when it is saved.
    pub fn record_next_feature(&self, session_id: &str, outcome: LlmOutcome) -> (result: Result<
        (SessionState, String),
        DesignError,
    >)
        requires
            self.wf(),
        ensures
            recorded_view(result) == changed(
                resident(self@, session_id@),
                |session: SessionView| session.next_feature_recorded(outcome_view(outcome)),
            ),
            result matches Ok((session, _)) ==> session.wf(),
    {
        let mut session = match self.resident_session(session_id) {
            Ok(session) => session.clone(),
            Err(error) => {
                return Err(error);
            },
        };
        match session.record_next_feature(outcome) {
            Ok(description) => Ok((session, description)),
            Err(error) => Err(error),
        }
    }

    /// First step of submitting the implementation report `changes_made` for
    /// the resident session `session_id`: the messages that ask the model to
    /// review it. The session must be resident and have a feature under
    /// review; the model is looked for only after that.
    pub fn submit_feature_review(
        &self,
        session_id: &str,
        changes_made: &str,
        llm_available: bool,
    ) -> (request: Result<Vec<ChatMessage>, DesignError>)
        requires
            self.wf(),
        ensures
            request_view(request) == match resident(self@, session_id@) {
                Ok(session) => session.review_request(changes_made@, llm_available),
                Err(error) => Err(error),
            },
    {
        match self.resident_session(session_id) {
            Ok(session) => session.request_feature_review(changes_made, llm_available),
            Err(error) => Err(error),
        }
    }

    /// Second step of submitting an implementation report: the session as the
    /// model's verdict leaves it, and the model's answer to return. The store
    /// itself does not change: the changed session becomes resident when it is
    /// saved.
    pub fn record_feature_review(
        &self,
        session_id: &str,
        changes_made: &str,
        outcome: LlmOutcome,
    ) -> (result: Result<(SessionState, String), DesignError>)
        requires
            self.wf(),
        ensures
            recorded_view(result) == changed(
                resident(self@, session_id@),
                |session: SessionView|
                    session.review_recorded(changes_made@, outcome_view(outcome)),
            ),
            result matches Ok((session, _)) ==> session.wf(),
    {
        let mut session = match self.resident_session(session_id) {
            Ok(session) => session.clone(),
            Err(error) => {
                return Err(error);
            },
        };
        match session.record_feature_review(changes_made, outcome) {
            Ok(answer) => Ok((session, answer)),
            Err(error) => Err(error),
        }
    }

    /// First step of submitting the reply `content` to a review for the
    /// resident session `session_id`: the messages that ask the model to read
    /// it. The session must be resident and its checked-out feature must wait
    /// for rework; the model is looked for only after that.
    pub fn submit_review_reply(
        &self,
        session_id: &str,
        content: &str,
        llm_available: bool,
    ) -> (request: Result<Vec<ChatMessage>, DesignError>)
        requires
            self.wf(),
        ensures
            request_view(request) == match resident(self@, session_id@) {
                Ok(session) => session.reply_request(content@, llm_available),
                Err(error) => Err(error),
            },
    {
        match self.resident_session(session_id) {
            Ok(session) => session.request_review_reply(content, llm_available),
            Err(error) => Err(error),
        }
    }

    /// Second step of submitting a reply to a review: the session as the
    /// model's verdict leaves it, and the model's answer to return. The store
    /// itself does not change: the changed session becomes resident when it is
    /// saved.
    pub fn record_review_reply(&self, session_id: &str, outcome: LlmOutcome) -> (result: Result<
        (SessionState, String),
        DesignError,
    >)
        requires
            self.wf(),
        ensures
            recorded_view(result) == changed(
                resident(self@, session_id@),
                |session: SessionView| session.reply_recorded(outcome_view(outcome)),
            ),
            result matches Ok((session, _)) ==> session.wf(),
    {
        let mut session = match self.resident_session(session_id) {
            Ok(session) => session.clone(),
            Err(error) => {
                return Err(error);
            },
        };
        match session.record_review_reply(outcome) {
            Ok(answer) => Ok((session, answer)),
            Err(error) => Err(error),
        }
    }
}

impl Default for SessionManager {
    fn default() -> (manager: Self)
        ensures
            manager.wf(),
            manager@ == Map::<Seq<char>, SessionView>::empty(),
            manager.directory() == PERSISTENCE_DIR@,
    {
        Self::new()
    }
}

/// A session cannot be created under an id that is known, in memory or on
/// disk: the attempt fails with `AlreadyExists`. Creating decides only; it
/// leaves the cache as it is.
pub proof fn lemma_known_id_is_refused(
    cache: Cache,
    session_id: Seq<char>,
    description: Seq<char>,
    on_disk: bool,
)
    requires
        cache.contains_key(session_id) || on_disk,
    ensures
        created(cache, session_id, description, on_disk) == Err::<SessionView, ErrorView>(
            ErrorView::session_exists(session_id),
        ),
{
}

/// A session that was created and saved cannot be created again, whatever the
/// disk is said to hold.
pub proof fn lemma_created_once(
    cache: Cache,
    session_id: Seq<char>,
    description: Seq<char>,
    again: Seq<char>,
    on_disk: bool,
)
    requires
        created(cache, session_id, description, false) is Ok,
    ensures
        ({
            let session = created(cache, session_id, description, false)->Ok_0;
            let resident = saved(cache, session, Ok(())).0;
            created(resident, session_id, again, on_disk) == Err::<SessionView, ErrorView>(
                ErrorView::session_exists(session_id),
            )
        }),
{
}

/// A session that was saved is the one that loading gives back, equal in every
/// field, whatever the durable store is said to hold; loading it changes
/// nothing. Every other id is resident as before.
pub proof fn lemma_saved_session_is_loaded(
    cache: Cache,
    session: SessionView,
    stored: Result<Option<SessionView>, Seq<char>>,
    other: Seq<char>,
)
    ensures
        ({
            let resident = saved(cache, session, Ok(())).0;
            &&& loaded(resident, session.id, stored) == (
                resident,
                Ok::<Option<SessionView>, ErrorView>(Some(session)),
            )
            &&& other != session.id ==> resident.contains_key(other) == cache.contains_key(other)
            &&& other != session.id && cache.contains_key(other) ==> resident[other]
                == cache[other]
        }),
{
}

/// A store in which a session is not resident gives exactly what the durable
/// store handed it: the record, equal in every field, which is resident from
/// then on under the id that was asked for; or nothing, and then nothing
/// becomes resident.
pub proof fn lemma_absent_session_comes_from_the_store(
    cache: Cache,
    session_id: Seq<char>,
    session: SessionView,
)
    requires
        !cache.contains_key(session_id),
    ensures
        loaded(cache, session_id, Ok(Some(session))) == (
            cache.insert(session_id, session),
            Ok::<Option<SessionView>, ErrorView>(Some(session)),
        ),
        loaded(cache, session_id, Ok(None)) == (
            cache,
            Ok::<Option<SessionView>, ErrorView>(None),
        ),
{
}

/// A write that failed leaves the cache as it was: the cache never holds what
/// the disk does not.
pub proof fn lemma_failed_write_changes_nothing(
    cache: Cache,
    session: SessionView,
    detail: Seq<char>,
)
    ensures
        saved(cache, session, Err(detail)) == (
            cache,
            Err::<(), ErrorView>(ErrorView::persistence(detail)),
        ),
{
}

/// A session that was loaded from the durable store is resident afterwards:
/// loading it again gives the same record and does not look at the store.
pub proof fn lemma_loaded_session_is_resident(
    cache: Cache,
    session_id: Seq<char>,
    stored: Result<Option<SessionView>, Seq<char>>,
    later: Result<Option<SessionView>, Seq<char>>,
)
    requires
        loaded(cache, session_id, stored).1 is Ok,
        loaded(cache, session_id, stored).1->Ok_0 is Some,
    ensures
        ({
            let (resident, first) = loaded(cache, session_id, stored);
            loaded(resident, session_id, later) == (resident, first)
        }),
{
}

/// In an empty list no name is found.
proof fn lemma_first_index_absent_everywhere(names: Seq<Seq<char>>)
    requires
        names.len() == 0,
    ensures
        forall|name: Seq<char>| first_index(names, name) is None,
{
    assert forall|name: Seq<char>| first_index(names, name) is None by {
        lemma_first_index_absent(names, name);
    }
}

} // verus!
