use vstd::prelude::*;

use crate::error::TtyError;
use crate::pty_config::PtyConfig;
use crate::session::{sat_add, PtySession, TerminalMode};

verus! {

/// Time allowed to each blocking read or write, in milliseconds.
pub const IO_TIMEOUT_MS: u64 = 100;

/// Engine-wide counters.
#[derive(Debug, Clone, Copy, PartialEq, Eq, Structural)]
pub struct TtyStats {
    pub sessions_created: u64,
    pub sessions_destroyed: u64,
    pub total_bytes_read: u64,
    pub total_bytes_written: u64,
    pub signal_count: u64,
    pub errors: u64,
}

impl TtyStats {
    pub open spec fn zero() -> TtyStats {
        TtyStats {
            sessions_created: 0,
            sessions_destroyed: 0,
            total_bytes_read: 0,
            total_bytes_written: 0,
            signal_count: 0,
            errors: 0,
        }
    }

    /// All counters at zero.
    pub fn new() -> (s: Self)
        ensures
            s == TtyStats::zero(),
    {
        TtyStats {
            sessions_created: 0,
            sessions_destroyed: 0,
            total_bytes_read: 0,
            total_bytes_written: 0,
            signal_count: 0,
            errors: 0,
        }
    }
}

impl Default for TtyStats {
    fn default() -> (s: Self)
        ensures
            s == TtyStats::zero(),
    {
        TtyStats::new()
    }
}

/// What a caller needs to act on a session outside the engine: its id, its
/// master descriptor and its child's process id.
#[derive(Debug, Clone, Copy, PartialEq, Eq, Structural)]
pub struct SessionHandle {
    pub id: u64,
    pub master_fd: i32,
    pub child_pid: i32,
}

pub open spec fn handle_of(s: PtySession) -> SessionHandle {
    SessionHandle { id: s.id, master_fd: s.master_fd, child_pid: s.child_pid }
}

/// How a blocking read or write on a master descriptor ended.
#[derive(Debug, Clone, Copy, PartialEq, Eq, Structural)]
pub enum IoOutcome {
    /// The syscall moved this many bytes.
    Completed(usize),
    /// The syscall could not proceed without blocking; carries its `errno`.
    WouldBlock(i32),
    /// The syscall failed with this `errno`.
    Failed(i32),
    /// The syscall did not finish within the timeout.
    TimedOut,
}

/// The session registry together with id assignment and engine statistics.
///
/// Sessions are kept in the order they were created, which is also the order
/// of their ids. A session is registered exactly while the engine considers
/// its child possibly running.
pub struct TtyEngine {
    sessions: Vec<PtySession>,
    next_id: u64,
    shutting_down: bool,
    stats: TtyStats,
}

impl View for TtyEngine {
    type V = Seq<PtySession>;

    /// The registered sessions, oldest first.
    closed spec fn view(&self) -> Seq<PtySession> {
        self.sessions@
    }
}

impl TtyEngine {
    /// The id the next created session receives.
    pub closed spec fn next_id(&self) -> u64 {
        self.next_id
    }

    pub closed spec fn stats(&self) -> TtyStats {
        self.stats
    }

    pub closed spec fn shutting_down(&self) -> bool {
        self.shutting_down
    }

    pub open spec fn has_session(&self, id: u64) -> bool {
        exists|i: int| 0 <= i < self@.len() && self@[i].id == id
    }

    /// Where the session with this id stands in the registry.
    pub open spec fn position(&self, id: u64) -> int {
        choose|i: int| 0 <= i < self@.len() && self@[i].id == id
    }

    pub open spec fn session(&self, id: u64) -> PtySession {
        self@[self.position(id)]
    }

    pub open spec fn ids(&self) -> Seq<u64> {
        self@.map_values(|s: PtySession| s.id)
    }

    /// Ids are issued from one upwards and never reused, registered sessions
    /// are alive, and every created session is either registered or counted
    /// as destroyed.
    pub open spec fn wf(&self) -> bool {
        &&& 1 <= self.next_id()
        &&& forall|i: int|
            0 <= i < self@.len() ==> 1 <= #[trigger] self@[i].id < self.next_id() && self@[i].is_alive
        &&& forall|i: int, j: int| 0 <= i < j < self@.len() ==> self@[i].id < self@[j].id
        &&& self.stats().sessions_created + 1 == self.next_id()
        &&& self.stats().sessions_created == self.stats().sessions_destroyed + self@.len()
    }

    /// Everything but the registry is as in `pre`.
    pub open spec fn keeps_bookkeeping(&self, pre: &TtyEngine) -> bool {
        &&& self.next_id() == pre.next_id()
        &&& self.stats() == pre.stats()
        &&& self.shutting_down() == pre.shutting_down()
    }

    /// What every operation keeps: ids are never reused, sessions that stay
    /// registered keep their identity and their counters do not decrease, and
    /// no engine counter decreases.
    pub open spec fn evolves_to(&self, post: &TtyEngine) -> bool {
        &&& self.next_id() <= post.next_id()
        &&& forall|id: u64|
            post.has_session(id) && !self.has_session(id) ==> self.next_id() <= id
        &&& forall|id: u64|
            #![trigger post.has_session(id), self.has_session(id)]
            self.has_session(id) && post.has_session(id) ==> {
                let a = self.session(id);
                let b = post.session(id);
                &&& b.id == a.id
                &&& b.master_fd == a.master_fd
                &&& b.child_pid == a.child_pid
                &&& b.created_at == a.created_at
                &&& a.bytes_read <= b.bytes_read
                &&& a.bytes_written <= b.bytes_written
            }
        &&& self.stats().sessions_created <= post.stats().sessions_created
        &&& self.stats().sessions_destroyed <= post.stats().sessions_destroyed
        &&& self.stats().total_bytes_read <= post.stats().total_bytes_read
        &&& self.stats().total_bytes_written <= post.stats().total_bytes_written
        &&& self.stats().signal_count <= post.stats().signal_count
        &&& self.stats().errors <= post.stats().errors
        &&& self.shutting_down() ==> post.shutting_down()
    }

    /// Every session registered in `self` is still registered in `post`,
    /// except possibly the one named by `except`.
    pub open spec fn retains(&self, post: &TtyEngine, except: Option<u64>) -> bool {
        forall|id: u64|
            #![trigger post.has_session(id)]
            self.has_session(id) && except != Some(id) ==> post.has_session(id)
    }

    /// `post` is `self` after a creation that issued `id`.
    pub open spec fn issued(&self, post: &TtyEngine, id: u64) -> bool {
        &&& id == self.next_id()
        &&& post.next_id() == id + 1
        &&& post.has_session(id)
    }

    /// `post` is `self` after session `id` took the window size `rows` by
    /// `cols`, with nothing else changed.
    pub open spec fn resized(&self, post: &TtyEngine, id: u64, rows: u16, cols: u16) -> bool {
        &&& self.has_session(id)
        &&& post@ == self@.update(self.position(id), PtySession { rows, cols, ..self.session(id) })
        &&& post.keeps_bookkeeping(self)
    }

    /// The registry after `n` more bytes were read on session `id`.
    pub open spec fn credited_read(&self, id: u64, n: u64) -> Seq<PtySession> {
        if self.has_session(id) {
            self@.update(
                self.position(id),
                PtySession { bytes_read: sat_add(self.session(id).bytes_read, n), ..self.session(id) },
            )
        } else {
            self@
        }
    }

    /// The registry after `n` more bytes were written on session `id`.
    pub open spec fn credited_write(&self, id: u64, n: u64) -> Seq<PtySession> {
        if self.has_session(id) {
            self@.update(
                self.position(id),
                PtySession {
                    bytes_written: sat_add(self.session(id).bytes_written, n),
                    ..self.session(id)
                },
            )
        } else {
            self@
        }
    }

    /// Two well-formed registries whose entries carry the same ids, position by
    /// position, agree on which ids are registered and where.
    proof fn lemma_same_ids(&self, post: &TtyEngine)
        requires
            self.wf(),
            post.wf(),
            self@.len() == post@.len(),
            forall|k: int| 0 <= k < self@.len() ==> #[trigger] post@[k].id == self@[k].id,
        ensures
            forall|id: u64| #[trigger] post.has_session(id) == self.has_session(id),
            forall|id: u64|
                #[trigger] self.has_session(id) ==> post.position(id) == self.position(id),
    {
        assert forall|id: u64| #[trigger] post.has_session(id) == self.has_session(id) by {
            self.lemma_same_ids_at(post, id);
        }
        assert forall|id: u64| #[trigger] self.has_session(id) implies post.position(id) == self.position(id) by {
            self.lemma_same_ids_at(post, id);
        }
    }

    proof fn lemma_same_ids_at(&self, post: &TtyEngine, id: u64)
        requires
            self.wf(),
            post.wf(),
            self@.len() == post@.len(),
            forall|k: int| 0 <= k < self@.len() ==> #[trigger] post@[k].id == self@[k].id,
        ensures
            post.has_session(id) == self.has_session(id),
            self.has_session(id) ==> post.position(id) == self.position(id),
    {
        if self.has_session(id) {
            let i = self.position(id);
            self.lemma_position(i);
            assert(post@[i].id == id);
            post.lemma_position(i);
        }
        if post.has_session(id) {
            let i = post.position(id);
            post.lemma_position(i);
            assert(self@[i].id == id);
        }
    }

    /// Removing the entry at `i` keeps every other session where it can be found.
    proof fn lemma_removed(&self, post: &TtyEngine, i: int)
        requires
            self.wf(),
            post.wf(),
            0 <= i < self@.len(),
            post@ == self@.remove(i),
        ensures
            forall|id: u64|
                #![trigger post.has_session(id)]
                post.has_session(id) <==> (self.has_session(id) && id != self@[i].id),
            forall|id: u64|
                #![trigger post.has_session(id)]
                post.has_session(id) ==> post.session(id) == self.session(id),
    {
        assert forall|id: u64|
            #![trigger post.has_session(id)]
            (post.has_session(id) <==> (self.has_session(id) && id != self@[i].id)) && (post.has_session(
                id,
            ) ==> post.session(id) == self.session(id)) by {
            if post.has_session(id) {
                let k = post.position(id);
                post.lemma_position(k);
                let j = if k < i {
                    k
                } else {
                    k + 1
                };
                assert(post@[k] == self@[j]);
                self.lemma_position(j);
                assert(id != self@[i].id);
            }
            if self.has_session(id) && id != self@[i].id {
                let j = self.position(id);
                self.lemma_position(j);
                let k = if j < i {
                    j
                } else {
                    j - 1
                };
                assert(post@[k] == self@[j]);
            }
        }
    }

    /// In a well-formed registry the entry at `i` is the one found under its id.
    pub proof fn lemma_position(&self, i: int)
        requires
            self.wf(),
            0 <= i < self@.len(),
        ensures
            self.has_session(self@[i].id),
            self.position(self@[i].id) == i,
            self.session(self@[i].id) == self@[i],
    {
        let id = self@[i].id;
        assert(self.has_session(id));
        let j = self.position(id);
        if j < i {
            assert(self@[j].id < self@[i].id);
        } else if j > i {
            assert(self@[i].id < self@[j].id);
        }
    }

    /// An engine with no sessions whose first id is one.
    pub fn new() -> (e: Self)
        ensures
            e.wf(),
            e@.len() == 0,
            e.next_id() == 1,
            !e.shutting_down(),
            e.stats() == TtyStats::zero(),
    {
        TtyEngine { sessions: Vec::new(), next_id: 1, shutting_down: false, stats: TtyStats::new() }
    }

    /// Whether an id is still left to issue.
    pub fn can_create(&self) -> (b: bool)
        ensures
            b == (self.next_id() < u64::MAX),
    {
        self.next_id < u64::MAX
    }

    fn find(&self, id: u64) -> (r: Option<usize>)
        requires
            self.wf(),
        ensures
            r matches Some(i) ==> i < self@.len() && self.has_session(id) && self.position(id) == i,
            r is None ==> !self.has_session(id),
    {
        let mut i: usize = 0;
        while i < self.sessions.len()
            invariant
                self.wf(),
                i <= self.sessions@.len(),
                forall|k: int| 0 <= k < i ==> self.sessions@[k].id != id,
            decreases self.sessions@.len() - i,
        {
            if self.sessions[i].id == id {
                proof {
                    self.lemma_position(i as int);
                }
                return Some(i);
            }
            i += 1;
        }
        None
    }

    /// Registers the session of a freshly forked child under the next id:
    /// the child runs on the slave side of `master_fd`, and `now` is the
    /// clock reading at creation.
    pub fn create_pty(&mut self, config: &PtyConfig, master_fd: i32, child_pid: i32, now: u64) -> (id: u64)
        requires
            old(self).wf(),
            old(self).next_id() < u64::MAX,
        ensures
            final(self).wf(),
            id == old(self).next_id(),
            forall|i: int| 0 <= i < old(self)@.len() ==> old(self)@[i].id < id,
            final(self).next_id() == id + 1,
            final(self)@ == old(self)@.push(
                PtySession {
                    id,
                    master_fd,
                    child_pid,
                    mode: TerminalMode::Cooked,
                    created_at: now,
                    bytes_read: 0,
                    bytes_written: 0,
                    is_alive: true,
                    rows: config.rows,
                    cols: config.cols,
                },
            ),
            final(self).stats() == (TtyStats {
                sessions_created: (old(self).stats().sessions_created + 1) as u64,
                ..old(self).stats()
            }),
            final(self).shutting_down() == old(self).shutting_down(),
            old(self).issued(final(self), id),
            old(self).evolves_to(final(self)),
            old(self).retains(final(self), None),
    {
        let id = self.next_id;
        let session = PtySession::new(id, master_fd, child_pid, config.rows, config.cols, now);
        self.sessions.push(session);
        self.next_id = id + 1;
        self.stats.sessions_created = self.stats.sessions_created + 1;
        proof {
            let n = old(self)@.len() as int;
            assert(self@[n].id == id);
            assert forall|k: int| 0 <= k < n implies #[trigger] self@[k] == old(self)@[k] by {}
            assert forall|x: u64| #[trigger] self.has_session(x) implies (old(self).has_session(x) || x == id) && (
            old(self).has_session(x) ==> self.position(x) == old(self).position(x)) by {
                let k = self.position(x);
                self.lemma_position(k);
                if k < n {
                    old(self).lemma_position(k);
                }
            }
            assert forall|x: u64| #[trigger] old(self).has_session(x) implies self.has_session(x) by {
                let k = old(self).position(x);
                old(self).lemma_position(k);
                assert(self@[k].id == x);
            }
            self.lemma_position(n);
        }
        id
    }

    /// Ids of the registered sessions, oldest first.
    pub fn list_sessions(&self) -> (r: Vec<u64>)
        ensures
            r@ == self.ids(),
    {
        let mut r: Vec<u64> = Vec::new();
        let mut i: usize = 0;
        while i < self.sessions.len()
            invariant
                i <= self.sessions@.len(),
                r@ == self.ids().subrange(0, i as int),
            decreases self.sessions@.len() - i,
        {
            r.push(self.sessions[i].id);
            i += 1;
            assert(r@ =~= self.ids().subrange(0, i as int));
        }
        assert(r@ =~= self.ids());
        r
    }

    pub fn get_session_count(&self) -> (n: usize)
        ensures
            n == self@.len(),
    {
        self.sessions.len()
    }

    /// A copy of the engine-wide counters.
    pub fn get_stats(&self) -> (s: TtyStats)
        ensures
            s == self.stats(),
    {
        self.stats
    }

    pub fn is_shutting_down(&self) -> (b: bool)
        ensures
            b == self.shutting_down(),
    {
        self.shutting_down
    }

    /// Bytes read, bytes written and uptime at clock reading `now` of the
    /// session `id`.
    pub fn get_pty_stats(&self, id: u64, now: u64) -> (r: Result<(u64, u64, u64), TtyError>)
        requires
            self.wf(),
        ensures
            self.has_session(id) ==> r == Ok::<(u64, u64, u64), TtyError>(
                (
                    self.session(id).bytes_read,
                    self.session(id).bytes_written,
                    self.session(id).uptime(now),
                ),
            ),
            !self.has_session(id) ==> r == Err::<(u64, u64, u64), TtyError>(
                TtyError::PtyNotFound { id },
            ),
    {
        match self.find(id) {
            Some(i) => Ok(self.sessions[i].get_stats(now)),
            None => Err(TtyError::PtyNotFound { id }),
        }
    }

    /// The terminal mode of session `id`.
    pub fn get_pty_mode(&self, id: u64) -> (r: Result<TerminalMode, TtyError>)
        requires
            self.wf(),
        ensures
            self.has_session(id) ==> r == Ok::<TerminalMode, TtyError>(self.session(id).mode),
            !self.has_session(id) ==> r == Err::<TerminalMode, TtyError>(TtyError::PtyNotFound { id }),
    {
        match self.find(id) {
            Some(i) => Ok(self.sessions[i].get_mode()),
            None => Err(TtyError::PtyNotFound { id }),
        }
    }

    /// Records `mode` as the terminal mode of session `id`.
    pub fn set_pty_mode(&mut self, id: u64, mode: TerminalMode) -> (r: Result<(), TtyError>)
        requires
            old(self).wf(),
        ensures
            final(self).wf(),
            final(self).keeps_bookkeeping(old(self)),
            old(self).has_session(id) ==> r == Ok::<(), TtyError>(()) && final(self)@ == old(self)@.update(
                old(self).position(id),
                PtySession { mode, ..old(self).session(id) },
            ),
            !old(self).has_session(id) ==> r == Err::<(), TtyError>(TtyError::PtyNotFound { id })
                && final(self)@ == old(self)@,
            old(self).evolves_to(final(self)),
            old(self).retains(final(self), None),
    {
        match self.find(id) {
            Some(i) => {
                let mut s = self.sessions[i];
                s.set_mode(mode);
                self.sessions[i] = s;
                proof {
                    old(self).lemma_same_ids(self);
                }
                Ok(())
            },
            None => Err(TtyError::PtyNotFound { id }),
        }
    }

    /// Records `rows` by `cols` as the window size of session `id` and hands
    /// back what the caller needs to apply it to the terminal and notify the
    /// child. Succeeds whenever the session is registered.
    pub fn resize_pty(&mut self, id: u64, rows: u16, cols: u16) -> (r: Result<SessionHandle, TtyError>)
        requires
            old(self).wf(),
        ensures
            final(self).wf(),
            old(self).has_session(id) ==> r == Ok::<SessionHandle, TtyError>(handle_of(old(self).session(id)))
                && old(self).resized(final(self), id, rows, cols),
            !old(self).has_session(id) ==> r == Err::<SessionHandle, TtyError>(TtyError::PtyNotFound { id })
                && *final(self) == *old(self),
            old(self).evolves_to(final(self)),
            old(self).retains(final(self), None),
    {
        match self.find(id) {
            Some(i) => {
                let mut s = self.sessions[i];
                s.resize(rows, cols);
                self.sessions[i] = s;
                proof {
                    old(self).lemma_same_ids(self);
                }
                Ok(SessionHandle { id: s.id, master_fd: s.master_fd, child_pid: s.child_pid })
            },
            None => Err(TtyError::PtyNotFound { id }),
        }
    }

    /// The session that a read or write on `id` goes to.
    pub fn io_target(&self, id: u64) -> (r: Result<SessionHandle, TtyError>)
        requires
            self.wf(),
        ensures
            self.has_session(id) && self.session(id).is_alive ==> r == Ok::<SessionHandle, TtyError>(
                handle_of(self.session(id)),
            ),
            self.has_session(id) && !self.session(id).is_alive ==> r == Err::<SessionHandle, TtyError>(
                TtyError::ProcessDied { pid: self.session(id).child_pid },
            ),
            !self.has_session(id) ==> r == Err::<SessionHandle, TtyError>(TtyError::PtyNotFound { id }),
    {
        match self.find(id) {
            Some(i) => {
                let s = self.sessions[i];
                if s.is_alive() {
                    Ok(SessionHandle { id: s.id, master_fd: s.master_fd, child_pid: s.child_pid })
                } else {
                    Err(TtyError::ProcessDied { pid: s.child_pid })
                }
            },
            None => Err(TtyError::PtyNotFound { id }),
        }
    }

    fn credit_read(&mut self, id: u64, n: u64)
        requires
            old(self).wf(),
        ensures
            final(self).wf(),
            final(self).keeps_bookkeeping(old(self)),
            final(self)@ == old(self).credited_read(id, n),
            old(self).evolves_to(final(self)),
            old(self).retains(final(self), None),
    {
        match self.find(id) {
            Some(i) => {
                let mut s = self.sessions[i];
                s.add_bytes_read(n);
                self.sessions[i] = s;
                proof {
                    old(self).lemma_same_ids(self);
                }
            },
            None => {},
        }
    }

    fn credit_write(&mut self, id: u64, n: u64)
        requires
            old(self).wf(),
        ensures
            final(self).wf(),
            final(self).keeps_bookkeeping(old(self)),
            final(self)@ == old(self).credited_write(id, n),
            old(self).evolves_to(final(self)),
            old(self).retains(final(self), None),
    {
        match self.find(id) {
            Some(i) => {
                let mut s = self.sessions[i];
                s.add_bytes_written(n);
                self.sessions[i] = s;
                proof {
                    old(self).lemma_same_ids(self);
                }
            },
            None => {},
        }
    }

    /// Accounts for the end of a write on session `id` and says what the
    /// caller gets: the byte count, an I/O error (counted in `errors`), or a
    /// timeout. Bytes are credited to the session while it is registered and
    /// to the engine in any case.
    pub fn record_write(&mut self, id: u64, outcome: IoOutcome) -> (r: Result<usize, TtyError>)
        requires
            old(self).wf(),
        ensures
            final(self).wf(),
            old(self).evolves_to(final(self)),
            old(self).retains(final(self), None),
            final(self).next_id() == old(self).next_id(),
            final(self).shutting_down() == old(self).shutting_down(),
            match outcome {
                IoOutcome::Completed(n) => {
                    &&& r == Ok::<usize, TtyError>(n)
                    &&& final(self)@ == old(self).credited_write(id, n as u64)
                    &&& final(self).stats() == (TtyStats {
                        total_bytes_written: sat_add(old(self).stats().total_bytes_written, n as u64),
                        ..old(self).stats()
                    })
                },
                IoOutcome::WouldBlock(e) | IoOutcome::Failed(e) => {
                    &&& r == Err::<usize, TtyError>(TtyError::Io { errno: e })
                    &&& final(self)@ == old(self)@
                    &&& final(self).stats() == (TtyStats {
                        errors: sat_add(old(self).stats().errors, 1),
                        ..old(self).stats()
                    })
                },
                IoOutcome::TimedOut => {
                    &&& r == Err::<usize, TtyError>(TtyError::Timeout { timeout_ms: IO_TIMEOUT_MS })
                    &&& final(self)@ == old(self)@
                    &&& final(self).stats() == old(self).stats()
                },
            },
    {
        match outcome {
            IoOutcome::Completed(n) => {
                self.credit_write(id, n as u64);
                let ghost mid = *self;
                self.stats.total_bytes_written = self.stats.total_bytes_written.saturating_add(n as u64);
                proof {
                    assert forall|x: u64| #[trigger] self.has_session(x) == mid.has_session(x) by {}
                }
                Ok(n)
            },
            IoOutcome::WouldBlock(e) | IoOutcome::Failed(e) => {
                self.stats.errors = self.stats.errors.saturating_add(1);
                Err(TtyError::Io { errno: e })
            },
            IoOutcome::TimedOut => Err(TtyError::Timeout { timeout_ms: IO_TIMEOUT_MS }),
        }
    }

    /// Accounts for the end of a read on session `id` whose bytes arrived in
    /// `data`, and copies them to the front of `buffer`. No data available is
    /// a read of zero bytes; a count that exceeds `data` or `buffer` is refused
    /// as an overflow.
    pub fn record_read(&mut self, id: u64, outcome: IoOutcome, data: &[u8], buffer: &mut [u8]) -> (r: Result<
        usize,
        TtyError,
    >)
        requires
            old(self).wf(),
        ensures
            final(self).wf(),
            old(self).evolves_to(final(self)),
            old(self).retains(final(self), None),
            final(self).next_id() == old(self).next_id(),
            final(self).shutting_down() == old(self).shutting_down(),
            match outcome {
                IoOutcome::Completed(n) => if n <= data@.len() && n <= old(buffer)@.len() {
                    &&& r == Ok::<usize, TtyError>(n)
                    &&& final(buffer)@ == data@.subrange(0, n as int) + old(buffer)@.subrange(
                        n as int,
                        old(buffer)@.len() as int,
                    )
                    &&& final(self)@ == old(self).credited_read(id, n as u64)
                    &&& final(self).stats() == (TtyStats {
                        total_bytes_read: sat_add(old(self).stats().total_bytes_read, n as u64),
                        ..old(self).stats()
                    })
                } else {
                    &&& r == Err::<usize, TtyError>(TtyError::BufferOverflow { size: n })
                    &&& final(buffer)@ == old(buffer)@
                    &&& final(self)@ == old(self)@
                    &&& final(self).stats() == old(self).stats()
                },
                IoOutcome::WouldBlock(_) => {
                    &&& r == Ok::<usize, TtyError>(0)
                    &&& final(buffer)@ == old(buffer)@
                    &&& final(self)@ == old(self)@
                    &&& final(self).stats() == old(self).stats()
                },
                IoOutcome::Failed(e) => {
                    &&& r == Err::<usize, TtyError>(TtyError::Io { errno: e })
                    &&& final(buffer)@ == old(buffer)@
                    &&& final(self)@ == old(self)@
                    &&& final(self).stats() == (TtyStats {
                        errors: sat_add(old(self).stats().errors, 1),
                        ..old(self).stats()
                    })
                },
                IoOutcome::TimedOut => {
                    &&& r == Err::<usize, TtyError>(TtyError::Timeout { timeout_ms: IO_TIMEOUT_MS })
                    &&& final(buffer)@ == old(buffer)@
                    &&& final(self)@ == old(self)@
                    &&& final(self).stats() == old(self).stats()
                },
            },
    {
        match outcome {
            IoOutcome::Completed(n) => {
                if n > data.len() || n > buffer.len() {
                    return Err(TtyError::BufferOverflow { size: n });
                }
                let mut i: usize = 0;
                while i < n
                    invariant
                        n <= data@.len(),
                        n <= old(buffer)@.len(),
                        i <= n,
                        buffer@.len() == old(buffer)@.len(),
                        forall|k: int| 0 <= k < i ==> buffer@[k] == data@[k],
                        forall|k: int| i <= k < buffer@.len() ==> buffer@[k] == old(buffer)@[k],
                    decreases n - i,
                {
                    buffer[i] = data[i];
                    i += 1;
                }
                assert(buffer@ =~= data@.subrange(0, n as int) + old(buffer)@.subrange(
                    n as int,
                    old(buffer)@.len() as int,
                ));
                self.credit_read(id, n as u64);
                let ghost mid = *self;
                self.stats.total_bytes_read = self.stats.total_bytes_read.saturating_add(n as u64);
                proof {
                    assert forall|x: u64| #[trigger] self.has_session(x) == mid.has_session(x) by {}
                }
                Ok(n)
            },
            IoOutcome::WouldBlock(_) => Ok(0),
            IoOutcome::Failed(e) => {
                self.stats.errors = self.stats.errors.saturating_add(1);
                Err(TtyError::Io { errno: e })
            },
            IoOutcome::TimedOut => Err(TtyError::Timeout { timeout_ms: IO_TIMEOUT_MS }),
        }
    }

    /// Process ids a signal goes to: the child of session `id`, or every
    /// registered child, oldest first, where no session is named.
    pub fn signal_targets(&self, target: Option<u64>) -> (r: Result<Vec<i32>, TtyError>)
        requires
            self.wf(),
        ensures
            match target {
                Some(id) => if self.has_session(id) {
                    r matches Ok(v) && v@ == seq![self.session(id).child_pid]
                } else {
                    r == Err::<Vec<i32>, TtyError>(TtyError::PtyNotFound { id })
                },
                None => r matches Ok(v) && v@ == self@.map_values(|s: PtySession| s.child_pid),
            },
    {
        match target {
            Some(id) => match self.find(id) {
                Some(i) => {
                    let mut v: Vec<i32> = Vec::new();
                    v.push(self.sessions[i].child_pid);
                    Ok(v)
                },
                None => Err(TtyError::PtyNotFound { id }),
            },
            None => {
                let mut v: Vec<i32> = Vec::new();
                let mut i: usize = 0;
                while i < self.sessions.len()
                    invariant
                        i <= self.sessions@.len(),
                        v@ == self@.map_values(|s: PtySession| s.child_pid).subrange(0, i as int),
                    decreases self.sessions@.len() - i,
                {
                    v.push(self.sessions[i].child_pid);
                    i += 1;
                    assert(v@ =~= self@.map_values(|s: PtySession| s.child_pid).subrange(0, i as int));
                }
                assert(v@ =~= self@.map_values(|s: PtySession| s.child_pid));
                Ok(v)
            },
        }
    }

    /// Accounts for a signal sent to `target` (every session where `None`).
    /// A targeted signal whose delivery failed with an `errno` is an error and
    /// is not counted; a broadcast always succeeds and counts once.
    pub fn record_signal(&mut self, target: Option<u64>, delivery: Result<(), i32>) -> (r: Result<(), TtyError>)
        requires
            old(self).wf(),
        ensures
            final(self).wf(),
            old(self).evolves_to(final(self)),
            old(self).retains(final(self), None),
            final(self)@ == old(self)@,
            final(self).next_id() == old(self).next_id(),
            final(self).shutting_down() == old(self).shutting_down(),
            match (target, delivery) {
                (Some(_), Err(e)) => {
                    &&& r == Err::<(), TtyError>(TtyError::Signal { errno: e })
                    &&& final(self).stats() == old(self).stats()
                },
                _ => {
                    &&& r == Ok::<(), TtyError>(())
                    &&& final(self).stats() == (TtyStats {
                        signal_count: sat_add(old(self).stats().signal_count, 1),
                        ..old(self).stats()
                    })
                },
            },
    {
        if let (Some(_), Err(e)) = (target, delivery) {
            return Err(TtyError::Signal { errno: e });
        }
        self.stats.signal_count = self.stats.signal_count.saturating_add(1);
        Ok(())
    }

    /// Unregisters session `id` and marks it dead, counting it as destroyed.
    /// The session is handed back so that the caller can terminate and reap
    /// its child and release its descriptor.
    pub fn destroy_pty(&mut self, id: u64) -> (r: Result<PtySession, TtyError>)
        requires
            old(self).wf(),
        ensures
            final(self).wf(),
            old(self).evolves_to(final(self)),
            old(self).retains(final(self), Some(id)),
            final(self).next_id() == old(self).next_id(),
            final(self).shutting_down() == old(self).shutting_down(),
            old(self).has_session(id) ==> {
                &&& r == Ok::<PtySession, TtyError>(PtySession { is_alive: false, ..old(self).session(id) })
                &&& final(self)@ == old(self)@.remove(old(self).position(id))
                &&& final(self).stats() == (TtyStats {
                    sessions_destroyed: (old(self).stats().sessions_destroyed + 1) as u64,
                    ..old(self).stats()
                })
            },
            !old(self).has_session(id) ==> {
                &&& r == Err::<PtySession, TtyError>(TtyError::PtyNotFound { id })
                &&& final(self)@ == old(self)@
                &&& final(self).stats() == old(self).stats()
            },
            !final(self).has_session(id),
            final(self)@.len() == old(self)@.len() - (if old(self).has_session(id) { 1int } else { 0 }),
    {
        match self.find(id) {
            Some(i) => {
                let mut s = self.sessions.remove(i);
                s.mark_dead();
                self.stats.sessions_destroyed = self.stats.sessions_destroyed + 1;
                proof {
                    assert forall|a: int, b: int| 0 <= a < b < self@.len() implies self@[a].id < self@[b].id by {
                        let a2 = if a < i { a } else { a + 1 };
                        let b2 = if b < i { b } else { b + 1 };
                        assert(self@[a] == old(self)@[a2]);
                        assert(self@[b] == old(self)@[b2]);
                    }
                    assert forall|k: int| 0 <= k < self@.len() implies 1 <= #[trigger] self@[k].id < self.next_id() && self@[k].is_alive by {
                        let k2 = if k < i { k } else { k + 1 };
                        assert(self@[k] == old(self)@[k2]);
                    }
                    old(self).lemma_removed(self, i as int);
                }
                Ok(s)
            },
            None => Err(TtyError::PtyNotFound { id }),
        }
    }

    /// Whether the child of session `id` is still to be watched.
    pub fn should_poll(&self, id: u64) -> (b: bool)
        requires
            self.wf(),
        ensures
            b == (!self.shutting_down() && self.has_session(id)),
    {
        !self.shutting_down && self.find(id).is_some()
    }

    /// Takes in one observation of the child of session `id`. A child that
    /// is no longer running takes its session out of the registry, counted as
    /// destroyed once, unless it was already gone. The result says whether to
    /// keep watching.
    pub fn observe_child(&mut self, id: u64, still_running: bool) -> (keep_polling: bool)
        requires
            old(self).wf(),
        ensures
            final(self).wf(),
            old(self).evolves_to(final(self)),
            old(self).retains(final(self), Some(id)),
            final(self).next_id() == old(self).next_id(),
            final(self).shutting_down() == old(self).shutting_down(),
            still_running ==> {
                &&& keep_polling == (!old(self).shutting_down() && old(self).has_session(id))
                &&& final(self)@ == old(self)@
                &&& final(self).stats() == old(self).stats()
            },
            !still_running ==> {
                &&& !keep_polling
                &&& !final(self).has_session(id)
                &&& old(self).has_session(id) ==> final(self)@ == old(self)@.remove(old(self).position(id))
                    && final(self).stats() == (TtyStats {
                    sessions_destroyed: (old(self).stats().sessions_destroyed + 1) as u64,
                    ..old(self).stats()
                })
                &&& !old(self).has_session(id) ==> final(self)@ == old(self)@ && final(self).stats()
                    == old(self).stats()
            },
    {
        if still_running {
            return self.should_poll(id);
        }
        let _ = self.destroy_pty(id);
        false
    }

    /// Starts shutting down: from now on no child is watched. Hands back the
    /// ids of the sessions still registered, oldest first, for the caller to
    /// destroy.
    pub fn shutdown(&mut self) -> (ids: Vec<u64>)
        requires
            old(self).wf(),
        ensures
            final(self).wf(),
            old(self).evolves_to(final(self)),
            old(self).retains(final(self), None),
            final(self)@ == old(self)@,
            final(self).next_id() == old(self).next_id(),
            final(self).stats() == old(self).stats(),
            final(self).shutting_down(),
            ids@ == old(self).ids(),
    {
        self.shutting_down = true;
        self.list_sessions()
    }
}

} // verus!
