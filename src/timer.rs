use vstd::prelude::*;
use vstd::string::*;

verus! {

/// Who initiated a session.
#[derive(Debug, Clone, Copy, PartialEq, Eq, Structural)]
pub enum Origin {
    Human,
    Agent,
}

/// Lifecycle state of a session.
#[derive(Debug, Clone, Copy, PartialEq, Eq, Structural)]
pub enum SessionStatus {
    Running,
    Completed,
    Stopped,
}

impl Origin {
    /// The lower-case name of the origin: `human` or `agent`.
    pub fn name(&self) -> (r: String)
        ensures
            r@ == (match *self {
                Origin::Human => seq!['h', 'u', 'm', 'a', 'n'],
                Origin::Agent => seq!['a', 'g', 'e', 'n', 't'],
            }),
    {
        match self {
            Origin::Human => {
                let r = "human".to_string();
                proof {
                    reveal_strlit("human");
                }
                assert(r@ =~= seq!['h', 'u', 'm', 'a', 'n']);
                r
            },
            Origin::Agent => {
                let r = "agent".to_string();
                proof {
                    reveal_strlit("agent");
                }
                assert(r@ =~= seq!['a', 'g', 'e', 'n', 't']);
                r
            },
        }
    }
}

impl SessionStatus {
    /// The lower-case name of the status: `running`, `completed` or `stopped`.
    pub fn name(&self) -> (r: String)
        ensures
            r@ == (match *self {
                SessionStatus::Running => seq!['r', 'u', 'n', 'n', 'i', 'n', 'g'],
                SessionStatus::Completed => seq!['c', 'o', 'm', 'p', 'l', 'e', 't', 'e', 'd'],
                SessionStatus::Stopped => seq!['s', 't', 'o', 'p', 'p', 'e', 'd'],
            }),
    {
        match self {
            SessionStatus::Running => {
                let r = "running".to_string();
                proof {
                    reveal_strlit("running");
                }
                assert(r@ =~= seq!['r', 'u', 'n', 'n', 'i', 'n', 'g']);
                r
            },
            SessionStatus::Completed => {
                let r = "completed".to_string();
                proof {
                    reveal_strlit("completed");
                }
                assert(r@ =~= seq!['c', 'o', 'm', 'p', 'l', 'e', 't', 'e', 'd']);
                r
            },
            SessionStatus::Stopped => {
                let r = "stopped".to_string();
                proof {
                    reveal_strlit("stopped");
                }
                assert(r@ =~= seq!['s', 't', 'o', 'p', 'p', 'e', 'd']);
                r
            },
        }
    }
}

/// One timer run.
#[derive(Debug, Clone)]
pub struct Session {
    pub id: String,
    pub label: String,
    pub duration_secs: u64,
    pub started_at: String,
    pub ended_at: Option<String>,
    pub origin: Origin,
    pub status: SessionStatus,
}

/// The mathematical value of a [`Session`].
pub struct SessionView {
    pub id: Seq<char>,
    pub label: Seq<char>,
    pub duration_secs: u64,
    pub started_at: Seq<char>,
    pub ended_at: Option<Seq<char>>,
    pub origin: Origin,
    pub status: SessionStatus,
}

pub open spec fn opt_text_view(o: Option<String>) -> Option<Seq<char>> {
    match o {
        Some(s) => Some(s@),
        None => None,
    }
}

impl View for Session {
    type V = SessionView;

    open spec fn view(&self) -> SessionView {
        SessionView {
            id: self.id@,
            label: self.label@,
            duration_secs: self.duration_secs,
            started_at: self.started_at@,
            ended_at: opt_text_view(self.ended_at),
            origin: self.origin,
            status: self.status,
        }
    }
}

impl SessionView {
    /// `ended_at` is present exactly when the session is no longer running.
    pub open spec fn end_matches_status(self) -> bool {
        (self.ended_at is None) <==> (self.status == SessionStatus::Running)
    }

    /// A legal change of one session: identity, label, duration, start and
    /// origin never change; a running session may end once, a finished one
    /// stays as it is.
    pub open spec fn may_become(self, next: SessionView) -> bool {
        &&& next.id == self.id
        &&& next.label == self.label
        &&& next.duration_secs == self.duration_secs
        &&& next.started_at == self.started_at
        &&& next.origin == self.origin
        &&& (self.status != SessionStatus::Running ==> next == self)
        &&& (next.status == SessionStatus::Running ==> self.status == SessionStatus::Running)
    }
}

pub fn copy_text(s: &String) -> (r: String)
    ensures
        r@ == s@,
{
    s.clone()
}

pub fn copy_opt_text(o: &Option<String>) -> (r: Option<String>)
    ensures
        opt_text_view(r) == opt_text_view(*o),
{
    match o {
        Some(s) => Some(copy_text(s)),
        None => None,
    }
}

impl Session {
    /// A copy of this session, equal to it as a value.
    pub fn snapshot(&self) -> (r: Session)
        ensures
            r@ == self@,
    {
        Session {
            id: copy_text(&self.id),
            label: copy_text(&self.label),
            duration_secs: self.duration_secs,
            started_at: copy_text(&self.started_at),
            ended_at: copy_opt_text(&self.ended_at),
            origin: self.origin,
            status: self.status,
        }
    }
}


/// A state transition, broadcast to observers.
#[derive(Debug, Clone)]
pub enum TimerEvent {
    Started { session: Session },
    Tick { remaining_secs: u64, session: Session },
    Completed { session: Session },
    Stopped { session: Session },
}

/// The mathematical value of a [`TimerEvent`].
pub enum EventView {
    Started { session: SessionView },
    Tick { remaining_secs: u64, session: SessionView },
    Completed { session: SessionView },
    Stopped { session: SessionView },
}

impl View for TimerEvent {
    type V = EventView;

    open spec fn view(&self) -> EventView {
        match self {
            TimerEvent::Started { session } => EventView::Started { session: session@ },
            TimerEvent::Tick { remaining_secs, session } => EventView::Tick {
                remaining_secs: *remaining_secs,
                session: session@,
            },
            TimerEvent::Completed { session } => EventView::Completed { session: session@ },
            TimerEvent::Stopped { session } => EventView::Stopped { session: session@ },
        }
    }
}

/// A point-in-time view of the timer.
#[derive(Debug, Clone)]
pub struct TimerStatus {
    pub session: Option<Session>,
    pub remaining_secs: u64,
    pub is_running: bool,
}

/// Why a timer operation was refused.
#[derive(Debug, Clone)]
pub enum TimerError {
    AlreadyRunning,
    NotRunning,
    InvalidLabel(String),
    InvalidDuration,
}

/// Unicode `White_Space` characters, those that trimming removes.
pub open spec fn is_white_space(c: char) -> bool {
    let u = c as u32;
    (0x09 <= u && u <= 0x0d) || u == 0x20 || u == 0x85 || u == 0xa0 || u == 0x1680 || (0x2000
        <= u && u <= 0x200a) || u == 0x2028 || u == 0x2029 || u == 0x202f || u == 0x205f || u
        == 0x3000
}

pub open spec fn trim_start(s: Seq<char>) -> Seq<char>
    decreases s.len(),
{
    if s.len() > 0 && is_white_space(s[0]) {
        trim_start(s.drop_first())
    } else {
        s
    }
}

pub open spec fn trim_end(s: Seq<char>) -> Seq<char>
    decreases s.len(),
{
    if s.len() > 0 && is_white_space(s.last()) {
        trim_end(s.drop_last())
    } else {
        s
    }
}

/// `s` without leading and trailing white space.
pub open spec fn trimmed(s: Seq<char>) -> Seq<char> {
    trim_end(trim_start(s))
}

/// Characters of the Unicode general category `Cc`.
pub open spec fn is_control(c: char) -> bool {
    let u = c as u32;
    u <= 0x1f || (0x7f <= u && u <= 0x9f)
}

/// A label as it is kept: 1 to 64 characters, none of them a control character.
pub open spec fn label_ok(t: Seq<char>) -> bool {
    &&& 1 <= t.len() <= 64
    &&& forall|i: int| 0 <= i < t.len() ==> !is_control(#[trigger] t[i])
}

pub open spec fn duration_ok(minutes: u32) -> bool {
    1 <= minutes <= 1440
}

/// Relies on `str::trim`: removes leading and trailing `White_Space` characters.
#[verifier::external_body]
fn trim_text(s: &str) -> (r: String)
    ensures
        r@ == trimmed(s@),
{
    s.trim().to_string()
}

/// Whether `c` is a control character (category `Cc`).
pub fn is_control_char(c: char) -> (r: bool)
    ensures
        r == is_control(c),
{
    let u = c as u32;
    u <= 0x1f || (0x7f <= u && u <= 0x9f)
}

/// The trimmed label, or `InvalidLabel` when it is empty, longer than 64
/// characters, or holds a control character.
pub fn validate_label(label: &str) -> (r: Result<String, TimerError>)
    ensures
        match r {
            Ok(t) => label_ok(trimmed(label@)) && t@ == trimmed(label@),
            Err(e) => !label_ok(trimmed(label@)) && e is InvalidLabel,
        },
{
    let t = trim_text(label);
    let n = t.as_str().unicode_len();
    if n == 0 {
        return Err(TimerError::InvalidLabel("label cannot be empty".to_string()));
    }
    if n > 64 {
        return Err(TimerError::InvalidLabel("label must be 64 characters or fewer".to_string()));
    }
    let mut i: usize = 0;
    while i < n
        invariant
            n == t@.len(),
            t@ == trimmed(label@),
            i <= n,
            forall|j: int| 0 <= j < i ==> !is_control(#[trigger] t@[j]),
        decreases n - i,
    {
        let c = t.as_str().get_char(i);
        if is_control_char(c) {
            assert(is_control(t@[i as int]));
            return Err(
                TimerError::InvalidLabel("label cannot contain control characters".to_string()),
            );
        }
        i += 1;
    }
    Ok(t)
}

/// The session length in seconds, or `InvalidDuration` outside 1 to 1440 minutes.
pub fn validate_duration(minutes: u32) -> (r: Result<u64, TimerError>)
    ensures
        match r {
            Ok(d) => duration_ok(minutes) && d == minutes as u64 * 60,
            Err(e) => !duration_ok(minutes) && e is InvalidDuration,
        },
{
    if minutes < 1 || minutes > 1440 {
        return Err(TimerError::InvalidDuration);
    }
    Ok(minutes as u64 * 60)
}


/// The kind of a [`TimerError`].
#[derive(PartialEq, Eq, Structural)]
pub enum ErrorView {
    AlreadyRunning,
    NotRunning,
    InvalidLabel,
    InvalidDuration,
}

impl View for TimerError {
    type V = ErrorView;

    open spec fn view(&self) -> ErrorView {
        match self {
            TimerError::AlreadyRunning => ErrorView::AlreadyRunning,
            TimerError::NotRunning => ErrorView::NotRunning,
            TimerError::InvalidLabel(_) => ErrorView::InvalidLabel,
            TimerError::InvalidDuration => ErrorView::InvalidDuration,
        }
    }
}

/// The value of an operation's result.
pub open spec fn outcome(r: Result<Session, TimerError>) -> Result<SessionView, ErrorView> {
    match r {
        Ok(s) => Ok(s@),
        Err(e) => Err(e@),
    }
}

/// What one tick of the scheduler did.
#[derive(Debug, Clone, Copy, PartialEq, Eq, Structural)]
pub enum TickOutcome {
    /// The countdown moved on; the scheduler keeps running.
    Continue,
    /// The countdown reached zero and the session completed.
    Finished,
    /// The token is not the active session's: the scheduler was cancelled.
    Cancelled,
}

/// The abstract state of a [`TimerEngine`].
pub struct EngineView {
    /// The active session, if any.
    pub active: Option<SessionView>,
    pub remaining: u64,
    /// The token of the scheduler that may advance the active session.
    pub ticker: Option<u64>,
    pub next_ticker: u64,
    /// Events published and not yet taken by the bus.
    pub log: Seq<EventView>,
}

impl EngineView {
    pub open spec fn wf(self) -> bool {
        match self.active {
            Some(s) => {
                &&& s.status == SessionStatus::Running
                &&& s.ended_at is None
                &&& 0 < self.remaining
                &&& self.remaining <= s.duration_secs
                &&& self.ticker is Some
            },
            None => self.remaining == 0 && self.ticker is None,
        }
    }

    pub open spec fn is_running(self) -> bool {
        self.active is Some
    }
}

pub open spec fn new_session(
    id: Seq<char>,
    label: Seq<char>,
    minutes: u32,
    origin: Origin,
    now: Seq<char>,
) -> SessionView {
    SessionView {
        id,
        label: trimmed(label),
        duration_secs: (minutes * 60) as u64,
        started_at: now,
        ended_at: None,
        origin,
        status: SessionStatus::Running,
    }
}

/// `s` ended with status `status` at `now`.
pub open spec fn ended(s: SessionView, status: SessionStatus, now: Seq<char>) -> SessionView {
    SessionView { status, ended_at: Some(now), ..s }
}

/// The token after `t`, wrapping around.
pub open spec fn next_token(t: u64) -> u64 {
    if t == u64::MAX {
        0
    } else {
        (t + 1) as u64
    }
}

/// The start transition: validate, refuse while running, else begin a session.
pub open spec fn start_step(
    e: EngineView,
    minutes: u32,
    label: Seq<char>,
    origin: Origin,
    id: Seq<char>,
    now: Seq<char>,
) -> (EngineView, Result<SessionView, ErrorView>) {
    if !label_ok(trimmed(label)) {
        (e, Err(ErrorView::InvalidLabel))
    } else if !duration_ok(minutes) {
        (e, Err(ErrorView::InvalidDuration))
    } else if e.active is Some {
        (e, Err(ErrorView::AlreadyRunning))
    } else {
        let s = new_session(id, label, minutes, origin, now);
        (
            EngineView {
                active: Some(s),
                remaining: s.duration_secs,
                ticker: Some(e.next_ticker),
                next_ticker: next_token(e.next_ticker),
                log: e.log.push(EventView::Started { session: s }),
            },
            Ok(s),
        )
    }
}

/// The stop transition: refuse when idle, else end the session as stopped.
pub open spec fn stop_step(e: EngineView, now: Seq<char>) -> (
    EngineView,
    Result<SessionView, ErrorView>,
) {
    match e.active {
        None => (e, Err(ErrorView::NotRunning)),
        Some(s) => {
            let f = ended(s, SessionStatus::Stopped, now);
            (
                EngineView {
                    active: None,
                    remaining: 0,
                    ticker: None,
                    log: e.log.push(EventView::Stopped { session: f }),
                    ..e
                },
                Ok(f),
            )
        },
    }
}

/// One second of the scheduler holding `token`.
pub open spec fn tick_step(e: EngineView, token: u64, now: Seq<char>) -> (EngineView, TickOutcome) {
    if e.ticker != Some(token) || e.active is None {
        (e, TickOutcome::Cancelled)
    } else {
        let s = e.active->0;
        if e.remaining > 1 {
            let m = (e.remaining - 1) as u64;
            (
                EngineView {
                    remaining: m,
                    log: e.log.push(EventView::Tick { remaining_secs: m, session: s }),
                    ..e
                },
                TickOutcome::Continue,
            )
        } else {
            let f = ended(s, SessionStatus::Completed, now);
            (
                EngineView {
                    active: None,
                    remaining: 0,
                    ticker: None,
                    log: e.log.push(EventView::Completed { session: f }),
                    ..e
                },
                TickOutcome::Finished,
            )
        }
    }
}

/// The timer state machine: at most one active session, its countdown, the
/// token of its scheduler, and the events published and not yet handed to
/// the event bus.
pub struct TimerEngine {
    session: Option<Session>,
    remaining_secs: u64,
    ticker: Option<u64>,
    next_ticker: u64,
    events: Vec<TimerEvent>,
}

pub open spec fn opt_session_view(o: Option<Session>) -> Option<SessionView> {
    match o {
        Some(s) => Some(s@),
        None => None,
    }
}

pub open spec fn events_view(v: Seq<TimerEvent>) -> Seq<EventView> {
    v.map_values(|e: TimerEvent| e@)
}

impl View for TimerEngine {
    type V = EngineView;

    closed spec fn view(&self) -> EngineView {
        EngineView {
            active: opt_session_view(self.session),
            remaining: self.remaining_secs,
            ticker: self.ticker,
            next_ticker: self.next_ticker,
            log: events_view(self.events@),
        }
    }
}

/// Relies on uuid's `Uuid::new_v4`, printed hyphenated: 36 characters.
#[verifier::external_body]
fn new_session_id() -> (r: String)
    ensures
        r@.len() == 36,
{
    uuid::Uuid::new_v4().to_string()
}

/// Relies on chrono's `Utc::now`, printed as RFC 3339.
#[verifier::external_body]
pub(crate) fn now_text() -> String {
    chrono::Utc::now().to_rfc3339()
}


impl TimerEngine {
    /// An idle engine with nothing published.
    pub fn new() -> (r: TimerEngine)
        ensures
            r@.wf(),
            r@.active is None,
            r@.remaining == 0,
            r@.log.len() == 0,
    {
        let r = TimerEngine {
            session: None,
            remaining_secs: 0,
            ticker: None,
            next_ticker: 0,
            events: Vec::new(),
        };
        assert(events_view(r.events@) =~= Seq::<EventView>::empty());
        r
    }

    proof fn lemma_push_event(events: Seq<TimerEvent>, e: TimerEvent)
        ensures
            events_view(events.push(e)) == events_view(events).push(e@),
    {
        assert(events_view(events.push(e)) =~= events_view(events).push(e@));
    }

    /// Start a session with the given identifier and start time.
    pub fn start_with(
        &mut self,
        duration_minutes: u32,
        label: &str,
        origin: Origin,
        id: String,
        now: String,
    ) -> (r: Result<Session, TimerError>)
        requires
            old(self)@.wf(),
        ensures
            (final(self)@, outcome(r)) == start_step(
                old(self)@,
                duration_minutes,
                label@,
                origin,
                id@,
                now@,
            ),
            final(self)@.wf(),
    {
        let label = match validate_label(label) {
            Ok(t) => t,
            Err(e) => return Err(e),
        };
        let duration_secs = match validate_duration(duration_minutes) {
            Ok(d) => d,
            Err(e) => return Err(e),
        };
        if self.session.is_some() {
            return Err(TimerError::AlreadyRunning);
        }
        let session = Session {
            id,
            label,
            duration_secs,
            started_at: now,
            ended_at: None,
            origin,
            status: SessionStatus::Running,
        };
        self.session = Some(session.snapshot());
        self.remaining_secs = duration_secs;
        self.ticker = Some(self.next_ticker);
        self.next_ticker = if self.next_ticker == u64::MAX {
            0
        } else {
            self.next_ticker + 1
        };
        let ghost old_events = self.events@;
        let ev = TimerEvent::Started { session: session.snapshot() };
        proof {
            Self::lemma_push_event(old_events, ev);
        }
        self.events.push(ev);
        Ok(session)
    }

    /// Start a session with a fresh identifier, stamped with the current time.
    pub fn start(&mut self, duration_minutes: u32, label: &str, origin: Origin) -> (r: Result<
        Session,
        TimerError,
    >)
        requires
            old(self)@.wf(),
        ensures
            exists|id: Seq<char>, now: Seq<char>|
                (final(self)@, outcome(r)) == start_step(
                    old(self)@,
                    duration_minutes,
                    label@,
                    origin,
                    id,
                    now,
                ),
            final(self)@.wf(),
    {
        let id = new_session_id();
        let now = now_text();
        let ghost (i, n) = (id@, now@);
        let r = self.start_with(duration_minutes, label, origin, id, now);
        assert((final(self)@, outcome(r)) == start_step(old(self)@, duration_minutes, label@, origin, i, n));
        r
    }

    /// End the active session as stopped at `now`.
    pub fn stop_at(&mut self, now: String) -> (r: Result<Session, TimerError>)
        requires
            old(self)@.wf(),
        ensures
            (final(self)@, outcome(r)) == stop_step(old(self)@, now@),
            final(self)@.wf(),
    {
        match self.session.take() {
            None => Err(TimerError::NotRunning),
            Some(s) => {
                let mut s = s;
                s.status = SessionStatus::Stopped;
                s.ended_at = Some(now);
                self.ticker = None;
                self.remaining_secs = 0;
                let ghost old_events = self.events@;
                let ev = TimerEvent::Stopped { session: s.snapshot() };
                proof {
                    Self::lemma_push_event(old_events, ev);
                }
                self.events.push(ev);
                Ok(s)
            },
        }
    }

    /// End the active session as stopped now.
    pub fn stop(&mut self) -> (r: Result<Session, TimerError>)
        requires
            old(self)@.wf(),
        ensures
            exists|now: Seq<char>| (final(self)@, outcome(r)) == stop_step(old(self)@, now),
            final(self)@.wf(),
    {
        let now = now_text();
        let ghost n = now@;
        let r = self.stop_at(now);
        assert((final(self)@, outcome(r)) == stop_step(old(self)@, n));
        r
    }

    /// One second of the scheduler holding `token`, completing at `now`.
    pub fn tick_at(&mut self, token: u64, now: String) -> (r: TickOutcome)
        requires
            old(self)@.wf(),
        ensures
            (final(self)@, r) == tick_step(old(self)@, token, now@),
            final(self)@.wf(),
    {
        if self.ticker != Some(token) || self.session.is_none() {
            return TickOutcome::Cancelled;
        }
        let ghost old_events = self.events@;
        if self.remaining_secs > 1 {
            self.remaining_secs = self.remaining_secs - 1;
            let s = match &self.session {
                Some(s) => s.snapshot(),
                None => {
                    assert(false);
                    return TickOutcome::Cancelled;
                },
            };
            let ev = TimerEvent::Tick { remaining_secs: self.remaining_secs, session: s };
            proof {
                Self::lemma_push_event(old_events, ev);
            }
            self.events.push(ev);
            TickOutcome::Continue
        } else {
            let mut s = match self.session.take() {
                Some(s) => s,
                None => {
                    assert(false);
                    return TickOutcome::Cancelled;
                },
            };
            s.status = SessionStatus::Completed;
            s.ended_at = Some(now);
            self.ticker = None;
            self.remaining_secs = 0;
            let ev = TimerEvent::Completed { session: s };
            proof {
                Self::lemma_push_event(old_events, ev);
            }
            self.events.push(ev);
            TickOutcome::Finished
        }
    }

    /// One second of the scheduler holding `token`, completing now.
    pub fn tick(&mut self, token: u64) -> (r: TickOutcome)
        requires
            old(self)@.wf(),
        ensures
            exists|now: Seq<char>| (final(self)@, r) == tick_step(old(self)@, token, now),
            final(self)@.wf(),
    {
        let now = now_text();
        let ghost n = now@;
        let r = self.tick_at(token, now);
        assert((final(self)@, r) == tick_step(old(self)@, token, n));
        r
    }

    /// The current session, its remaining seconds, and whether it runs.
    pub fn get_status(&self) -> (r: TimerStatus)
        requires
            self@.wf(),
        ensures
            opt_session_view(r.session) == self@.active,
            r.session matches Some(s) ==> r.remaining_secs <= s.duration_secs,
            !r.is_running ==> r.remaining_secs == 0,
            r.remaining_secs == self@.remaining,
            r.is_running == self@.is_running(),
    {
        let session = match &self.session {
            Some(s) => Some(s.snapshot()),
            None => None,
        };
        TimerStatus {
            session,
            remaining_secs: self.remaining_secs,
            is_running: self.session.is_some(),
        }
    }

    /// The token of the active session's scheduler.
    pub fn scheduler_token(&self) -> (r: Option<u64>)
        ensures
            r == self@.ticker,
    {
        self.ticker
    }

    /// Hand the published events, oldest first, to the event bus.
    pub fn take_events(&mut self) -> (r: Vec<TimerEvent>)
        ensures
            events_view(r@) == old(self)@.log,
            final(self)@ == (EngineView { log: Seq::empty(), ..old(self)@ }),
    {
        let mut r: Vec<TimerEvent> = Vec::new();
        std::mem::swap(&mut r, &mut self.events);
        assert(events_view(self.events@) =~= Seq::<EventView>::empty());
        r
    }
}

} // verus!
