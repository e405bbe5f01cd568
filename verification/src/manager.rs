//! The registry of all live sessions.
//!
//! The registry owns the sessions, keyed by identifier, and the queue of the
//! notifications they emit. Every operation either completes or leaves the
//! registry as it was.
use vstd::prelude::*;
use vstd::string::StringExecFns;
use crate::error::{Error, ErrorView, Result};
use crate::events::{EventView, TerminalEvent};
use crate::pty::{Host, HostView, PtyView};
use crate::session::{
    empty_size_message, ConfigView, InfoView, Session, SessionConfig, SessionId, SessionInfo,
    SessionView,
};
use crate::theme::{builtin_theme, Theme};
use crate::types::{Screen, ScreenUpdate};

verus! {

/// Manages all terminal sessions.
pub struct SessionManager {
    sessions: Vec<Session>,
    events: Vec<TerminalEvent>,
}

/// The state of a registry: its sessions in the order in which they were
/// created, and the notifications that wait to be taken.
pub struct ManagerView {
    pub sessions: Seq<SessionView>,
    pub events: Seq<EventView>,
}

/// The notifications that one processing pass over `sessions` emits: those
/// of each session in turn.
pub open spec fn all_emitted(sessions: Seq<SessionView>) -> Seq<EventView>
    decreases sessions.len(),
{
    if sessions.len() == 0 {
        Seq::empty()
    } else {
        all_emitted(sessions.drop_last()) + sessions.last().emitted()
    }
}

/// The sessions whose process is alive, in their order.
pub open spec fn survivors(sessions: Seq<SessionView>) -> Seq<SessionView>
    decreases sessions.len(),
{
    if sessions.len() == 0 {
        Seq::empty()
    } else if sessions.last().pty.alive {
        survivors(sessions.drop_last()).push(sessions.last())
    } else {
        survivors(sessions.drop_last())
    }
}

/// The identifiers of the sessions whose process is dead, in their order.
pub open spec fn casualties(sessions: Seq<SessionView>) -> Seq<Seq<char>>
    decreases sessions.len(),
{
    if sessions.len() == 0 {
        Seq::empty()
    } else if sessions.last().pty.alive {
        casualties(sessions.drop_last())
    } else {
        casualties(sessions.drop_last()).push(sessions.last().id)
    }
}

/// One notification of a process exit for each identifier; the exit code is
/// not tracked.
pub open spec fn exits(ids: Seq<Seq<char>>) -> Seq<EventView> {
    Seq::new(ids.len(), |i: int| EventView::ProcessExit { session_id: ids[i], exit_code: None })
}

impl ManagerView {
    /// Every session is well formed, and no two sessions share an
    /// identifier.
    pub open spec fn wf(self) -> bool {
        &&& forall|i: int| 0 <= i < self.sessions.len() ==> (#[trigger] self.sessions[i]).wf()
        &&& forall|i: int, j: int|
            0 <= i < j < self.sessions.len() ==> (#[trigger] self.sessions[i]).id != (
            #[trigger] self.sessions[j]).id
    }

    /// Session `i` goes by the identifier `id`.
    pub open spec fn is_at(self, id: Seq<char>, i: int) -> bool {
        0 <= i < self.sessions.len() && self.sessions[i].id == id
    }

    /// A live session goes by the identifier `id`.
    pub open spec fn has(self, id: Seq<char>) -> bool {
        exists|i: int| self.is_at(id, i)
    }

    /// The place of the session that goes by `id`.
    pub open spec fn place(self, id: Seq<char>) -> int {
        choose|i: int| self.is_at(id, i)
    }

    /// The session that goes by `id`.
    pub open spec fn get(self, id: Seq<char>) -> SessionView {
        self.sessions[self.place(id)]
    }

    /// The registry with the session that goes by `id` replaced.
    pub open spec fn with(self, id: Seq<char>, session: SessionView) -> ManagerView {
        ManagerView { sessions: self.sessions.update(self.place(id), session), ..self }
    }

    /// The registry with more notifications queued.
    pub open spec fn emitting(self, events: Seq<EventView>) -> ManagerView {
        ManagerView { events: self.events + events, ..self }
    }

    /// The registry after `session` joined it.
    pub open spec fn inserted(self, session: SessionView) -> ManagerView {
        ManagerView {
            sessions: self.sessions.push(session),
            events: self.events.push(EventView::SessionCreated { session_id: session.id }),
        }
    }

    /// The registry after a session was created under `id`.
    pub open spec fn created(self, id: Seq<char>, config: ConfigView, host: HostView, now: u64) -> ManagerView {
        self.inserted(SessionView::created(id, config.identified(id), host, now))
    }

    /// The registry after the session that goes by `id` was destroyed.
    pub open spec fn destroyed(self, id: Seq<char>) -> ManagerView {
        ManagerView {
            sessions: self.sessions.remove(self.place(id)),
            events: self.events.push(EventView::SessionDestroyed { session_id: id }),
        }
    }

    /// The registry after the session that goes by `id` was resized.
    pub open spec fn resized(self, id: Seq<char>, cols: u16, rows: u16) -> ManagerView {
        self.with(id, self.get(id).resized(cols, rows)).emitting(
            seq![EventView::TerminalResized { session_id: id, cols, rows }],
        )
    }

    /// The registry after one processing pass of the session that goes by
    /// `id`.
    pub open spec fn processed(self, id: Seq<char>) -> ManagerView {
        self.with(id, self.get(id).stepped()).emitting(self.get(id).emitted())
    }

    /// The registry after one processing pass of every session.
    pub open spec fn all_processed(self) -> ManagerView {
        ManagerView {
            sessions: self.sessions.map_values(|s: SessionView| s.stepped()),
            events: self.events + all_emitted(self.sessions),
        }
    }

    /// The registry after the dead sessions were removed.
    pub open spec fn cleaned(self) -> ManagerView {
        ManagerView {
            sessions: survivors(self.sessions),
            events: self.events + exits(casualties(self.sessions)),
        }
    }

    /// The listing of the sessions.
    pub open spec fn listing(self) -> Seq<InfoView> {
        self.sessions.map_values(|s: SessionView| s.info())
    }
}

/// The survivors of a sequence of sessions are sessions of it, in their
/// order: each survivor is alive and stands at a place of its own.
pub proof fn lemma_survivors(sessions: Seq<SessionView>)
    ensures
        survivors(sessions).len() <= sessions.len(),
        forall|i: int|
            0 <= i < survivors(sessions).len() ==> (#[trigger] survivors(sessions)[i]).pty.alive,
        exists|from: Seq<int>|
            #![trigger from.len()]
            from.len() == survivors(sessions).len() && (forall|i: int|
                0 <= i < from.len() ==> 0 <= #[trigger] from[i] < sessions.len() && survivors(
                    sessions,
                )[i] == sessions[from[i]]) && (forall|i: int, j: int|
                0 <= i < j < from.len() ==> #[trigger] from[i] < #[trigger] from[j]),
    decreases sessions.len(),
{
    if sessions.len() == 0 {
        let from = Seq::<int>::empty();
        assert(from.len() == survivors(sessions).len());
    } else {
        lemma_survivors(sessions.drop_last());
        let rest = sessions.drop_last();
        let from = choose|from: Seq<int>|
            #![trigger from.len()]
            from.len() == survivors(rest).len() && (forall|i: int|
                0 <= i < from.len() ==> 0 <= #[trigger] from[i] < rest.len() && survivors(rest)[i]
                    == rest[from[i]]) && (forall|i: int, j: int|
                0 <= i < j < from.len() ==> #[trigger] from[i] < #[trigger] from[j]);
        if sessions.last().pty.alive {
            let more = from.push(sessions.len() - 1);
            assert(more.len() == survivors(sessions).len());
            assert forall|i: int| 0 <= i < more.len() implies 0 <= #[trigger] more[i]
                < sessions.len() && survivors(sessions)[i] == sessions[more[i]] by {
                if i < from.len() {
                    assert(more[i] == from[i]);
                }
            }
            assert forall|i: int, j: int| 0 <= i < j < more.len() implies #[trigger] more[i]
                < #[trigger] more[j] by {
                assert(more[i] == from[i]);
                if j < from.len() {
                    assert(more[j] == from[j]);
                }
            }
        } else {
            assert(from.len() == survivors(sessions).len());
            assert forall|i: int| 0 <= i < from.len() implies 0 <= #[trigger] from[i]
                < sessions.len() && survivors(sessions)[i] == sessions[from[i]] by {
                assert(survivors(rest)[i] == rest[from[i]]);
            }
        }
    }
}

/// Cleaning up keeps a registry well formed.
pub proof fn lemma_cleaned_is_well_formed(m: ManagerView)
    requires
        m.wf(),
    ensures
        m.cleaned().wf(),
{
    lemma_survivors(m.sessions);
    let kept = survivors(m.sessions);
    let from = choose|from: Seq<int>|
        #![trigger from.len()]
        from.len() == kept.len() && (forall|i: int|
            0 <= i < from.len() ==> 0 <= #[trigger] from[i] < m.sessions.len() && kept[i]
                == m.sessions[from[i]]) && (forall|i: int, j: int|
            0 <= i < j < from.len() ==> #[trigger] from[i] < #[trigger] from[j]);
    assert forall|i: int| 0 <= i < kept.len() implies (#[trigger] kept[i]).wf() by {
        assert(kept[i] == m.sessions[from[i]]);
    }
    assert forall|i: int, j: int| 0 <= i < j < kept.len() implies (#[trigger] kept[i]).id != (
    #[trigger] kept[j]).id by {
        assert(kept[i] == m.sessions[from[i]]);
        assert(kept[j] == m.sessions[from[j]]);
        assert(from[i] < from[j]);
    }
}

/// The description of the error for a theme the table does not have.
pub open spec fn unknown_theme_message(name: Seq<char>) -> Seq<char> {
    "Unknown theme: "@ + name
}

impl View for SessionManager {
    type V = ManagerView;

    closed spec fn view(&self) -> ManagerView {
        ManagerView { sessions: self.sessions.deep_view(), events: self.events.deep_view() }
    }
}

impl SessionManager {
    /// The registry's invariant.
    pub open spec fn wf(&self) -> bool {
        self@.wf()
    }

    /// Create a new session manager: no sessions, nothing to notify.
    pub fn new() -> (manager: Self)
        ensures
            manager.wf(),
            manager@ == (ManagerView { sessions: Seq::empty(), events: Seq::empty() }),
    {
        let manager = Self { sessions: Vec::new(), events: Vec::new() };
        assert(manager@.sessions =~= Seq::empty());
        assert(manager@.events =~= Seq::empty());
        manager
    }

    /// The place of the session that goes by `id`, if there is one.
    fn find(&self, id: &str) -> (place: Option<usize>)
        requires
            self.wf(),
        ensures
            place is Some == self@.has(id@),
            place matches Some(i) ==> self@.is_at(id@, i as int) && self@.place(id@) == i,
    {
        let key = String::from_str(id);
        let mut i: usize = 0;
        while i < self.sessions.len()
            invariant
                self.wf(),
                key@ == id@,
                i <= self.sessions@.len(),
                forall|j: int| 0 <= j < i ==> !self@.is_at(id@, j),
            decreases self.sessions@.len() - i,
        {
            if *self.sessions[i].id() == key {
                assert(self@.is_at(id@, i as int));
                return Some(i);
            }
            i = i + 1;
        }
        None
    }

    /// Get session info.
    pub fn get_info(&self, id: &str) -> (info: Result<SessionInfo>)
        requires
            self.wf(),
        ensures
            self@.has(id@) ==> info is Ok && info.unwrap()@ == self@.get(id@).info(),
            !self@.has(id@) ==> info is Err && info.unwrap_err()@ == ErrorView::SessionNotFound(id@),
    {
        match self.find(id) {
            Some(i) => Ok(self.sessions[i].info()),
            None => Err(Error::SessionNotFound(String::from_str(id))),
        }
    }

    /// List all sessions, in the order in which they were created.
    pub fn list(&self) -> (infos: Vec<SessionInfo>)
        requires
            self.wf(),
        ensures
            infos.deep_view() == self@.listing(),
    {
        let mut infos: Vec<SessionInfo> = Vec::new();
        let mut i: usize = 0;
        while i < self.sessions.len()
            invariant
                i <= self.sessions@.len(),
                infos@.len() == i,
                forall|j: int| 0 <= j < i ==> (#[trigger] infos@[j])@ == self@.sessions[j].info(),
            decreases self.sessions@.len() - i,
        {
            infos.push(self.sessions[i].info());
            i = i + 1;
        }
        assert(infos.deep_view() =~= self@.listing());
        infos
    }

    /// Get screen state.
    pub fn get_screen(&self, id: &str) -> (screen: Result<Screen>)
        requires
            self.wf(),
        ensures
            self@.has(id@) ==> screen is Ok && screen.unwrap()@ == self@.get(id@).terminal.screen()
                && screen.unwrap()@.wf(),
            !self@.has(id@) ==> screen is Err && screen.unwrap_err()@ == ErrorView::SessionNotFound(
                id@,
            ),
    {
        match self.find(id) {
            Some(i) => Ok(self.sessions[i].get_screen()),
            None => Err(Error::SessionNotFound(String::from_str(id))),
        }
    }

    /// Get theme for a session.
    pub fn get_theme(&self, id: &str) -> (theme: Result<Theme>)
        requires
            self.wf(),
        ensures
            self@.has(id@) ==> theme is Ok && theme.unwrap()@ == self@.get(id@).theme,
            !self@.has(id@) ==> theme is Err && theme.unwrap_err()@ == ErrorView::SessionNotFound(
                id@,
            ),
    {
        match self.find(id) {
            Some(i) => Ok(self.sessions[i].theme().clone()),
            None => Err(Error::SessionNotFound(String::from_str(id))),
        }
    }

    /// Create a new session under the identifier the configuration names, or
    /// under a new random one where it names none.
    ///
    /// An identifier that a live session already goes by is refused, and so
    /// is, after that, a size without columns or rows. On success the
    /// session joins the registry and its creation is notified. Where the
    /// configuration names the identifier, the outcome is determined; where
    /// the identifier is drawn at random, it is determined but for the
    /// identifier drawn.
    pub fn create(&mut self, config: SessionConfig, host: &Host, created_at: u64) -> (id: Result<
        SessionId,
    >)
        requires
            old(self).wf(),
        ensures
            final(self).wf(),
            id matches Ok(id) ==> config@.valid() && !old(self)@.has(id@) && final(self)@ == old(
                self,
            )@.created(id@, config@, host@, created_at),
            id matches Err(e) ==> final(self)@ == old(self)@ && (e@ == ErrorView::InvalidConfig(
                empty_size_message(),
            ) && !config@.valid() || exists|taken: Seq<char>|
                e@ == ErrorView::SessionAlreadyExists(taken) && old(self)@.has(taken)),
            config@.id matches Some(named) ==> {
                &&& old(self)@.has(named) ==> (id matches Err(e) && e@
                    == ErrorView::SessionAlreadyExists(named))
                &&& !old(self)@.has(named) && !config@.valid() ==> (id matches Err(e) && e@
                    == ErrorView::InvalidConfig(empty_size_message()))
                &&& !old(self)@.has(named) && config@.valid() ==> (id matches Ok(got) && got@
                    == named)
            },
            config@.id is None ==> (id matches Ok(got) ==> got@.len() == 36),
            config@.id is None && config@.valid() && (forall|taken: Seq<char>|
                old(self)@.has(taken) ==> taken.len() != 36) ==> id is Ok,
    {
        let id = config.resolve_id();
        self.create_with_id(id, config, host, created_at)
    }

    /// Create a new session under the identifier `id`, whatever identifier
    /// the configuration names.
    pub fn create_with_id(
        &mut self,
        id: SessionId,
        config: SessionConfig,
        host: &Host,
        created_at: u64,
    ) -> (created: Result<SessionId>)
        requires
            old(self).wf(),
        ensures
            final(self).wf(),
            old(self)@.has(id@) ==> created is Err && created.unwrap_err()@
                == ErrorView::SessionAlreadyExists(id@) && final(self)@ == old(self)@,
            !old(self)@.has(id@) && !config@.valid() ==> created is Err && created.unwrap_err()@
                == ErrorView::InvalidConfig(empty_size_message()) && final(self)@ == old(self)@,
            !old(self)@.has(id@) && config@.valid() ==> created is Ok && created.unwrap()@ == id@
                && final(self)@ == old(self)@.created(id@, config@, host@, created_at),
    {
        match self.prepare(id, config, host, created_at) {
            Ok(session) => self.insert(session),
            Err(e) => Err(e),
        }
    }

    /// Make the session that `create_with_id` would add, without adding it.
    /// A host that has work of its own to do between the two steps, such as
    /// spawning the process, adds the session with `insert` once that work
    /// has succeeded.
    pub fn prepare(&self, id: SessionId, config: SessionConfig, host: &Host, created_at: u64) -> (session:
        Result<Session>)
        requires
            self.wf(),
        ensures
            self@.has(id@) ==> (session matches Err(e) && e@ == ErrorView::SessionAlreadyExists(
                id@,
            )),
            !self@.has(id@) && !config@.valid() ==> (session matches Err(e) && e@
                == ErrorView::InvalidConfig(empty_size_message())),
            !self@.has(id@) && config@.valid() ==> (session matches Ok(s) && s.wf() && s@
                == SessionView::created(id@, config@.identified(id@), host@, created_at)),
    {
        if self.find(id.as_str()).is_some() {
            return Err(Error::SessionAlreadyExists(id));
        }
        let mut config = config;
        config.id = Some(id.clone());
        Session::with_id(id, config, host, created_at)
    }

    /// Add a session to the registry and notify its creation. A session
    /// whose identifier is taken is refused.
    pub fn insert(&mut self, session: Session) -> (id: Result<SessionId>)
        requires
            old(self).wf(),
            session.wf(),
        ensures
            final(self).wf(),
            old(self)@.has(session@.id) ==> id is Err && id.unwrap_err()@
                == ErrorView::SessionAlreadyExists(session@.id) && final(self)@ == old(self)@,
            !old(self)@.has(session@.id) ==> id is Ok && id.unwrap()@ == session@.id && final(self)@
                == old(self)@.inserted(session@),
    {
        let id = session.id().clone();
        if self.find(id.as_str()).is_some() {
            return Err(Error::SessionAlreadyExists(id));
        }
        self.sessions.push(session);
        // Emit event
        self.events.push(TerminalEvent::SessionCreated { session_id: id.clone() });
        proof {
            assert(self@.sessions =~= old(self)@.sessions.push(session@));
            assert(self@.events =~= old(self)@.events.push(
                EventView::SessionCreated { session_id: session@.id },
            ));
            assert forall|i: int, j: int| 0 <= i < j < self@.sessions.len() implies (
            #[trigger] self@.sessions[i]).id != (#[trigger] self@.sessions[j]).id by {
                if j == self@.sessions.len() - 1 {
                    assert(!old(self)@.is_at(session@.id, i));
                }
            }
        }
        Ok(id)
    }

    /// Destroy a session: it leaves the registry, and its destruction is
    /// notified.
    pub fn destroy(&mut self, id: &str) -> (done: Result<()>)
        requires
            old(self).wf(),
        ensures
            final(self).wf(),
            old(self)@.has(id@) ==> done is Ok && final(self)@ == old(self)@.destroyed(id@),
            !old(self)@.has(id@) ==> done is Err && done.unwrap_err()@ == ErrorView::SessionNotFound(
                id@,
            ) && final(self)@ == old(self)@,
    {
        match self.find(id) {
            Some(i) => {
                let mut session = self.sessions.remove(i);
                session.kill();
                self.events.push(TerminalEvent::SessionDestroyed { session_id: String::from_str(id) });
                proof {
                    assert(self@.sessions =~= old(self)@.sessions.remove(i as int));
                    assert(self@.events =~= old(self)@.events.push(
                        EventView::SessionDestroyed { session_id: id@ },
                    ));
                }
                Ok(())
            },
            None => Err(Error::SessionNotFound(String::from_str(id))),
        }
    }

    /// Write to a session: the bytes wait there for the host to hand them
    /// to the process.
    pub fn write(&mut self, id: &str, data: &[u8]) -> (done: Result<()>)
        requires
            old(self).wf(),
        ensures
            final(self).wf(),
            old(self)@.has(id@) ==> done is Ok && final(self)@ == old(self)@.with(
                id@,
                old(self)@.get(id@).written(data@),
            ),
            !old(self)@.has(id@) ==> done is Err && done.unwrap_err()@ == ErrorView::SessionNotFound(
                id@,
            ) && final(self)@ == old(self)@,
    {
        match self.find(id) {
            Some(i) => {
                self.sessions[i].write(data);
                assert(self@.sessions =~= old(self)@.sessions.update(
                    i as int,
                    old(self)@.get(id@).written(data@),
                ));
                Ok(())
            },
            None => Err(Error::SessionNotFound(String::from_str(id))),
        }
    }

    /// Take the bytes that were written to a session since they were last
    /// taken.
    pub fn take_input(&mut self, id: &str) -> (bytes: Result<Vec<u8>>)
        requires
            old(self).wf(),
        ensures
            final(self).wf(),
            old(self)@.has(id@) ==> bytes is Ok && bytes.unwrap()@ == old(self)@.get(id@).pty.outbox
                && final(self)@ == old(self)@.with(
                id@,
                SessionView {
                    pty: PtyView { outbox: Seq::empty(), ..old(self)@.get(id@).pty },
                    ..old(self)@.get(id@)
                },
            ),
            !old(self)@.has(id@) ==> bytes is Err && bytes.unwrap_err()@
                == ErrorView::SessionNotFound(id@) && final(self)@ == old(self)@,
    {
        match self.find(id) {
            Some(i) => {
                let bytes = self.sessions[i].take_input();
                assert(self@.sessions =~= old(self)@.sessions.update(
                    i as int,
                    SessionView {
                        pty: PtyView { outbox: Seq::empty(), ..old(self)@.get(id@).pty },
                        ..old(self)@.get(id@)
                    },
                ));
                Ok(bytes)
            },
            None => Err(Error::SessionNotFound(String::from_str(id))),
        }
    }

    /// Queue a chunk of output that arrived from a session's process.
    pub fn deliver(&mut self, id: &str, chunk: Vec<u8>) -> (done: Result<()>)
        requires
            old(self).wf(),
        ensures
            final(self).wf(),
            old(self)@.has(id@) ==> done is Ok && final(self)@ == old(self)@.with(
                id@,
                old(self)@.get(id@).delivered(chunk@),
            ),
            !old(self)@.has(id@) ==> done is Err && done.unwrap_err()@ == ErrorView::SessionNotFound(
                id@,
            ) && final(self)@ == old(self)@,
    {
        match self.find(id) {
            Some(i) => {
                self.sessions[i].deliver(chunk);
                assert(self@.sessions =~= old(self)@.sessions.update(
                    i as int,
                    old(self)@.get(id@).delivered(chunk@),
                ));
                Ok(())
            },
            None => Err(Error::SessionNotFound(String::from_str(id))),
        }
    }

    /// Record that a session's process has exited. The session stays in the
    /// registry until the dead sessions are cleaned up.
    pub fn mark_exited(&mut self, id: &str) -> (done: Result<()>)
        requires
            old(self).wf(),
        ensures
            final(self).wf(),
            old(self)@.has(id@) ==> done is Ok && final(self)@ == old(self)@.with(
                id@,
                old(self)@.get(id@).killed(),
            ),
            !old(self)@.has(id@) ==> done is Err && done.unwrap_err()@ == ErrorView::SessionNotFound(
                id@,
            ) && final(self)@ == old(self)@,
    {
        match self.find(id) {
            Some(i) => {
                self.sessions[i].kill();
                assert(self@.sessions =~= old(self)@.sessions.update(
                    i as int,
                    old(self)@.get(id@).killed(),
                ));
                Ok(())
            },
            None => Err(Error::SessionNotFound(String::from_str(id))),
        }
    }

    /// Resize a session. A size without columns or rows is refused.
    pub fn resize(&mut self, id: &str, cols: u16, rows: u16) -> (done: Result<()>)
        requires
            old(self).wf(),
        ensures
            final(self).wf(),
            !old(self)@.has(id@) ==> done is Err && done.unwrap_err()@ == ErrorView::SessionNotFound(
                id@,
            ) && final(self)@ == old(self)@,
            old(self)@.has(id@) && (cols == 0 || rows == 0) ==> done is Err && done.unwrap_err()@
                == ErrorView::InvalidConfig(empty_size_message()) && final(self)@ == old(self)@,
            old(self)@.has(id@) && cols >= 1 && rows >= 1 ==> done is Ok && final(self)@ == old(
                self,
            )@.resized(id@, cols, rows),
    {
        match self.find(id) {
            Some(i) => {
                if cols == 0 || rows == 0 {
                    return Err(
                        Error::InvalidConfig(String::from_str("terminal size must be at least 1x1")),
                    );
                }
                self.sessions[i].resize(cols, rows, &mut self.events);
                assert(self@.sessions =~= old(self)@.sessions.update(
                    i as int,
                    old(self)@.get(id@).resized(cols, rows),
                ));
                assert(self@.events =~= old(self)@.events + seq![
                    EventView::TerminalResized { session_id: id@, cols, rows },
                ]);
                Ok(())
            },
            None => Err(Error::SessionNotFound(String::from_str(id))),
        }
    }

    /// Process output for all sessions: one pass of each, in their order.
    pub fn process_all(&mut self)
        requires
            old(self).wf(),
        ensures
            final(self).wf(),
            final(self)@ == old(self)@.all_processed(),
    {
        let mut i: usize = 0;
        while i < self.sessions.len()
            invariant
                old(self).wf(),
                self.wf(),
                i <= self.sessions@.len(),
                self@.sessions.len() == old(self)@.sessions.len(),
                forall|j: int| 0 <= j < i ==> #[trigger] self@.sessions[j] == old(self)@.sessions[j].stepped(),
                forall|j: int|
                    i <= j < self@.sessions.len() ==> #[trigger] self@.sessions[j] == old(
                        self,
                    )@.sessions[j],
                self@.events == old(self)@.events + all_emitted(old(self)@.sessions.take(i as int)),
            decreases self.sessions@.len() - i,
        {
            let ghost before = self@;
            proof {
                assert(before.sessions[i as int] == old(self)@.sessions[i as int]);
                assert(before.sessions[i as int].wf());
            }
            self.sessions[i].process_output(&mut self.events);
            proof {
                let all = old(self)@.sessions;
                assert(self@.sessions =~= before.sessions.update(i as int, all[i as int].stepped()));
                assert forall|j: int| 0 <= j < i + 1 implies #[trigger] self@.sessions[j]
                    == all[j].stepped() by {
                    if j < i {
                        assert(before.sessions[j] == all[j].stepped());
                    }
                }
                assert forall|j: int| i + 1 <= j < self@.sessions.len() implies #[trigger] self@.sessions[j]
                    == all[j] by {
                    assert(before.sessions[j] == all[j]);
                }
                assert forall|j: int| 0 <= j < self@.sessions.len() implies (
                #[trigger] self@.sessions[j]).wf() by {
                    if j != i {
                        assert(before.sessions[j].wf());
                    }
                }
                assert forall|j: int, k: int| 0 <= j < k < self@.sessions.len() implies (
                #[trigger] self@.sessions[j]).id != (#[trigger] self@.sessions[k]).id by {
                    assert(before.sessions[j].id != before.sessions[k].id);
                }
                assert(all.take(i + 1).drop_last() =~= all.take(i as int));
                assert(all.take(i + 1).last() == all[i as int]);
                assert(self@.events =~= old(self)@.events + all_emitted(all.take(i + 1)));
            }
            i = i + 1;
        }
        proof {
            let all = old(self)@.sessions;
            assert(all.take(i as int) =~= all);
            assert(self@.sessions =~= all.map_values(|s: SessionView| s.stepped()));
        }
    }

    /// Process output for a specific session.
    pub fn process(&mut self, id: &str) -> (update: Result<Option<ScreenUpdate>>)
        requires
            old(self).wf(),
        ensures
            final(self).wf(),
            old(self)@.has(id@) ==> update is Ok && update.unwrap().deep_view() == old(self)@.get(
                id@,
            ).update() && final(self)@ == old(self)@.processed(id@),
            !old(self)@.has(id@) ==> update is Err && update.unwrap_err()@
                == ErrorView::SessionNotFound(id@) && final(self)@ == old(self)@,
    {
        match self.find(id) {
            Some(i) => {
                let update = self.sessions[i].process_output(&mut self.events);
                assert(self@.sessions =~= old(self)@.sessions.update(
                    i as int,
                    old(self)@.get(id@).stepped(),
                ));
                Ok(update)
            },
            None => Err(Error::SessionNotFound(String::from_str(id))),
        }
    }

    /// Set theme for a session. A name the table of themes does not have is
    /// refused.
    pub fn set_theme(&mut self, id: &str, theme_name: &str) -> (done: Result<()>)
        requires
            old(self).wf(),
        ensures
            final(self).wf(),
            !old(self)@.has(id@) ==> done is Err && done.unwrap_err()@ == ErrorView::SessionNotFound(
                id@,
            ) && final(self)@ == old(self)@,
            old(self)@.has(id@) && builtin_theme(theme_name@) is None ==> done is Err
                && done.unwrap_err()@ == ErrorView::InvalidConfig(unknown_theme_message(theme_name@))
                && final(self)@ == old(self)@,
            old(self)@.has(id@) && builtin_theme(theme_name@) is Some ==> done is Ok && final(self)@
                == old(self)@.with(
                id@,
                SessionView { theme: builtin_theme(theme_name@).unwrap(), ..old(self)@.get(id@) },
            ),
    {
        match self.find(id) {
            Some(i) => match Theme::by_name(theme_name) {
                Some(theme) => {
                    self.sessions[i].set_theme(theme);
                    assert(self@.sessions =~= old(self)@.sessions.update(
                        i as int,
                        SessionView {
                            theme: builtin_theme(theme_name@).unwrap(),
                            ..old(self)@.get(id@)
                        },
                    ));
                    Ok(())
                },
                None => Err(
                    Error::InvalidConfig(String::from_str("Unknown theme: ").concat(theme_name)),
                ),
            },
            None => Err(Error::SessionNotFound(String::from_str(id))),
        }
    }

    /// Clean up dead sessions: every session whose process is dead leaves
    /// the registry, and one process exit is notified for each. Returns the
    /// identifiers of the sessions removed.
    pub fn cleanup_dead(&mut self) -> (dead: Vec<SessionId>)
        requires
            old(self).wf(),
        ensures
            final(self).wf(),
            final(self)@ == old(self)@.cleaned(),
            dead.deep_view() == casualties(old(self)@.sessions),
    {
        let mut dead: Vec<SessionId> = Vec::new();
        let mut i: usize = 0;
        let ghost mut seen: int = 0;
        proof {
            assert(old(self)@.sessions.take(0) =~= Seq::empty());
            assert(self@.sessions =~= survivors(old(self)@.sessions.take(0)) + old(self)@.sessions.skip(0));
            assert(dead.deep_view() =~= casualties(old(self)@.sessions.take(0)));
            assert(self@.events =~= old(self)@.events + exits(casualties(old(self)@.sessions.take(0))));
        }
        while i < self.sessions.len()
            invariant
                old(self).wf(),
                0 <= seen <= old(self)@.sessions.len(),
                i == survivors(old(self)@.sessions.take(seen)).len(),
                self@.sessions == survivors(old(self)@.sessions.take(seen)) + old(self)@.sessions.skip(
                    seen,
                ),
                dead.deep_view() == casualties(old(self)@.sessions.take(seen)),
                self@.events == old(self)@.events + exits(casualties(old(self)@.sessions.take(seen))),
            decreases old(self)@.sessions.len() - seen,
        {
            let ghost all = old(self)@.sessions;
            let ghost before = self@;
            let ghost gone = dead.deep_view();
            proof {
                assert(all.take(seen + 1).drop_last() =~= all.take(seen));
                assert(all.take(seen + 1).last() == all[seen]);
                assert(before.sessions[i as int] == all.skip(seen)[0]);
            }
            if self.sessions[i].is_alive() {
                proof {
                    assert(self@.sessions =~= survivors(all.take(seen + 1)) + all.skip(seen + 1));
                    seen = seen + 1;
                }
                i = i + 1;
            } else {
                let session = self.sessions.remove(i);
                let id = session.id().clone();
                self.events.push(
                    TerminalEvent::ProcessExit { session_id: id.clone(), exit_code: None },
                );
                dead.push(id);
                proof {
                    assert(session@ == all[seen]);
                    assert(self@.sessions =~= before.sessions.remove(i as int));
                    assert(self@.sessions =~= survivors(all.take(seen + 1)) + all.skip(seen + 1));
                    assert(dead.deep_view() =~= gone.push(all[seen].id));
                    assert(self@.events =~= before.events.push(
                        EventView::ProcessExit { session_id: all[seen].id, exit_code: None },
                    ));
                    assert(exits(gone.push(all[seen].id)) =~= exits(gone).push(
                        EventView::ProcessExit { session_id: all[seen].id, exit_code: None },
                    ));
                    assert(self@.events =~= old(self)@.events + exits(casualties(all.take(seen + 1))));
                    seen = seen + 1;
                }
            }
        }
        proof {
            let all = old(self)@.sessions;
            assert(self@.sessions.len() == i);
            assert(all.skip(seen).len() == 0);
            assert(all.take(seen) =~= all);
            assert(self@.sessions =~= survivors(all));
            lemma_cleaned_is_well_formed(old(self)@);
        }
        dead
    }

    /// Take the notifications that were emitted since they were last taken,
    /// oldest first.
    pub fn take_events(&mut self) -> (events: Vec<TerminalEvent>)
        ensures
            events.deep_view() == old(self)@.events,
            final(self)@ == (ManagerView { events: Seq::empty(), ..old(self)@ }),
            old(self).wf() ==> final(self).wf(),
    {
        let mut events: Vec<TerminalEvent> = Vec::new();
        std::mem::swap(&mut self.events, &mut events);
        assert(self@.events =~= Seq::empty());
        events
    }

    /// Get the number of active sessions.
    pub fn count(&self) -> (n: usize)
        ensures
            n == self@.sessions.len(),
    {
        self.sessions.len()
    }
}

} // verus!
