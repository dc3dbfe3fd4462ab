//! Session setup with rollback, request setup, and the close-once session.
use vstd::prelude::*;
use crate::handle::HandleRef;
use crate::request::Request;

verus! {

/// A kernel call that a setup sequence makes.
#[derive(PartialEq, Eq, Structural, Clone, Copy, Debug)]
pub enum Step {
    Initialize,
    CreateServerSession,
    CreateUrlGroup,
    CreateRequestQueue,
    OpenRequestQueue,
    BindUrlGroup,
    AddUrlToUrlGroup,
    DuplicateHandle,
    BindCompletion,
}

/// A kernel object to release.
#[derive(PartialEq, Eq, Structural, Clone, Copy, Debug)]
pub enum Release {
    CloseUrlGroup(u64),
    CloseServerSession(u64),
    CloseHandle(u64),
}

/// A failed kernel call and its native code.
#[derive(PartialEq, Eq, Structural, Clone, Copy, Debug)]
pub struct WinError {
    pub call: Step,
    pub code: u32,
}

/// Queue-creation flag: attach to an existing named queue.
pub const QUEUE_FLAG_OPEN_EXISTING: u32 = 1;

/// Queue-creation flag: create a named queue that this process controls.
pub const QUEUE_FLAG_CONTROLLER: u32 = 2;

/// What a setup sequence builds.
#[derive(PartialEq, Eq, Structural, Clone, Copy, Debug)]
pub enum Plan {
    /// A session that owns its server session, URL group and queue; `named` queues
    /// are shared with workers and make the session their controller.
    Create { named: bool },
    /// A worker attached to an existing named queue.
    Open,
    /// A request handle duplicated from a session's queue handle.
    Duplicate { source: u64 },
}

pub open spec fn plan_steps(p: Plan) -> Seq<Step> {
    match p {
        Plan::Create { .. } => seq![
            Step::Initialize,
            Step::CreateServerSession,
            Step::CreateUrlGroup,
            Step::CreateRequestQueue,
            Step::BindUrlGroup,
        ],
        Plan::Open => seq![Step::Initialize, Step::OpenRequestQueue],
        Plan::Duplicate { .. } => seq![Step::DuplicateHandle, Step::BindCompletion],
    }
}

/// A setup sequence in progress: which calls have succeeded, and what they gave.
pub struct Setup {
    pub plan: Plan,
    pub done: usize,
    pub session: u64,
    pub urls: u64,
    pub queue: u64,
}

/// What the calls made so far have created, in creation order.
pub open spec fn held(s: Setup) -> Seq<Release> {
    match s.plan {
        Plan::Create { .. } => {
            if s.done >= 4 {
                seq![
                    Release::CloseServerSession(s.session),
                    Release::CloseUrlGroup(s.urls),
                    Release::CloseHandle(s.queue),
                ]
            } else if s.done >= 3 {
                seq![Release::CloseServerSession(s.session), Release::CloseUrlGroup(s.urls)]
            } else if s.done >= 2 {
                seq![Release::CloseServerSession(s.session)]
            } else {
                seq![]
            }
        },
        Plan::Open => if s.done >= 2 { seq![Release::CloseHandle(s.queue)] } else { seq![] },
        Plan::Duplicate { .. } => if s.done >= 1 { seq![Release::CloseHandle(s.queue)] } else { seq![] },
    }
}

impl Setup {
    pub open spec fn wf(self) -> bool {
        self.done <= plan_steps(self.plan).len()
    }

    pub open spec fn is_finished(self) -> bool {
        self.done == plan_steps(self.plan).len()
    }

    /// Starts creating a session; a name makes it the controller of a shared queue.
    pub fn create(named: bool) -> (r: Setup)
        ensures
            r.wf(),
            r.plan == (Plan::Create { named }),
            r.done == 0,
    {
        Setup { plan: Plan::Create { named }, done: 0, session: 0, urls: 0, queue: 0 }
    }

    /// Starts attaching to an existing named queue.
    pub fn open() -> (r: Setup)
        ensures
            r.wf(),
            r.plan == Plan::Open,
            r.done == 0,
    {
        Setup { plan: Plan::Open, done: 0, session: 0, urls: 0, queue: 0 }
    }

    /// The flags for the call that creates or opens the request queue.
    pub fn queue_flags(&self) -> (r: u32)
        ensures
            r == match self.plan {
                Plan::Create { named } => if named { QUEUE_FLAG_CONTROLLER } else { 0u32 },
                Plan::Open => QUEUE_FLAG_OPEN_EXISTING,
                Plan::Duplicate { .. } => 0u32,
            },
    {
        match self.plan {
            Plan::Create { named } => if named { QUEUE_FLAG_CONTROLLER } else { 0 },
            Plan::Open => QUEUE_FLAG_OPEN_EXISTING,
            Plan::Duplicate { .. } => 0,
        }
    }

    /// The call to make next, or `None` once every call has succeeded.
    pub fn next_step(&self) -> (r: Option<Step>)
        requires
            self.wf(),
        ensures
            r == if self.done < plan_steps(self.plan).len() {
                Some(plan_steps(self.plan)[self.done as int])
            } else {
                None::<Step>
            },
    {
        let k = self.done;
        match self.plan {
            Plan::Create { .. } => {
                if k == 0 {
                    Some(Step::Initialize)
                } else if k == 1 {
                    Some(Step::CreateServerSession)
                } else if k == 2 {
                    Some(Step::CreateUrlGroup)
                } else if k == 3 {
                    Some(Step::CreateRequestQueue)
                } else if k == 4 {
                    Some(Step::BindUrlGroup)
                } else {
                    None
                }
            },
            Plan::Open => {
                if k == 0 {
                    Some(Step::Initialize)
                } else if k == 1 {
                    Some(Step::OpenRequestQueue)
                } else {
                    None
                }
            },
            Plan::Duplicate { .. } => {
                if k == 0 {
                    Some(Step::DuplicateHandle)
                } else if k == 1 {
                    Some(Step::BindCompletion)
                } else {
                    None
                }
            },
        }
    }

    /// The next call succeeded; `value` is the identifier or handle it produced
    /// (ignored for a call that produces none).
    pub fn succeeded(&mut self, value: u64)
        requires
            old(self).wf(),
            !old(self).is_finished(),
        ensures
            final(self).wf(),
            final(self).plan == old(self).plan,
            final(self).done == old(self).done + 1,
            final(self).session == (if plan_steps(old(self).plan)[old(self).done as int]
                == Step::CreateServerSession { value } else { old(self).session }),
            final(self).urls == (if plan_steps(old(self).plan)[old(self).done as int]
                == Step::CreateUrlGroup { value } else { old(self).urls }),
            final(self).queue == (if plan_steps(old(self).plan)[old(self).done as int]
                == Step::CreateRequestQueue || plan_steps(old(self).plan)[old(self).done as int]
                == Step::OpenRequestQueue || plan_steps(old(self).plan)[old(self).done as int]
                == Step::DuplicateHandle { value } else { old(self).queue }),
    {
        let step = self.next_step();
        match step {
            Some(Step::CreateServerSession) => {
                self.session = value;
            },
            Some(Step::CreateUrlGroup) => {
                self.urls = value;
            },
            Some(Step::CreateRequestQueue) | Some(Step::OpenRequestQueue) | Some(
                Step::DuplicateHandle,
            ) => {
                self.queue = value;
            },
            _ => {},
        }
        self.done = self.done + 1;
    }

    /// The next call failed with `code`: the error to report, and what to release,
    /// newest first, so that nothing created so far is leaked.
    pub fn failed(&self, code: u32) -> (r: (WinError, Vec<Release>))
        requires
            self.wf(),
            !self.is_finished(),
        ensures
            r.0 == (WinError { call: plan_steps(self.plan)[self.done as int], code }),
            r.1@ == held(*self).reverse(),
    {
        let step = match self.next_step() {
            Some(s) => s,
            None => Step::Initialize,
        };
        let mut undo: Vec<Release> = Vec::new();
        match self.plan {
            Plan::Create { .. } => {
                if self.done >= 4 {
                    undo.push(Release::CloseHandle(self.queue));
                }
                if self.done >= 3 {
                    undo.push(Release::CloseUrlGroup(self.urls));
                }
                if self.done >= 2 {
                    undo.push(Release::CloseServerSession(self.session));
                }
            },
            Plan::Open => {},
            Plan::Duplicate { .. } => {
                if self.done >= 1 {
                    undo.push(Release::CloseHandle(self.queue));
                }
            },
        }
        proof {
            let h = held(*self);
            assert(undo@ =~= h.reverse());
        }
        (WinError { call: step, code }, undo)
    }

    /// The session that a finished create or open sequence built.
    pub fn into_session(self) -> (r: Session)
        requires
            self.wf(),
            self.is_finished(),
            !(self.plan is Duplicate),
        ensures
            r@ == finished_session(self),
    {
        match self.plan {
            Plan::Create { named } => Session {
                closed: false,
                controller: named,
                owner: true,
                queue: self.queue,
                session: self.session,
                urls: self.urls,
            },
            _ => Session {
                closed: false,
                controller: false,
                owner: false,
                queue: self.queue,
                session: 0,
                urls: 0,
            },
        }
    }

    /// The request that a finished duplicate sequence built.
    pub fn into_request(self) -> (r: Request)
        requires
            self.wf(),
            self.is_finished(),
            self.plan is Duplicate,
        ensures
            r.handle@.raw == self.queue,
            r.handle@.holders == 1,
            !r.handle@.closed,
            !r.cancelled,
    {
        Request::new(HandleRef::new(self.queue))
    }
}

/// The session's state: the close guard, its role, and the kernel objects it owns.
pub struct SessionView {
    pub closed: bool,
    pub controller: bool,
    pub owner: bool,
    pub queue: u64,
    pub session: u64,
    pub urls: u64,
}

pub open spec fn finished_session(s: Setup) -> SessionView {
    match s.plan {
        Plan::Create { named } => SessionView {
            closed: false,
            controller: named,
            owner: true,
            queue: s.queue,
            session: s.session,
            urls: s.urls,
        },
        _ => SessionView {
            closed: false,
            controller: false,
            owner: false,
            queue: s.queue,
            session: 0,
            urls: 0,
        },
    }
}

/// What closing an open session releases: URL group, server session, then queue
/// handle for a session that created them; only the queue handle for a worker.
pub open spec fn release_plan(s: SessionView) -> Seq<Release> {
    if s.owner {
        seq![
            Release::CloseUrlGroup(s.urls),
            Release::CloseServerSession(s.session),
            Release::CloseHandle(s.queue),
        ]
    } else {
        seq![Release::CloseHandle(s.queue)]
    }
}

/// One close: the session afterwards and what it releases.
pub open spec fn close_spec(s: SessionView) -> (SessionView, Seq<Release>) {
    (SessionView { closed: true, ..s }, if s.closed { seq![] } else { release_plan(s) })
}

/// All that `n` successive closes release.
pub open spec fn closes(s: SessionView, n: nat) -> Seq<Release>
    decreases n,
{
    if n == 0 {
        seq![]
    } else {
        close_spec(s).1 + closes(close_spec(s).0, (n - 1) as nat)
    }
}

/// A listening session: the kernel objects it owns and whether it was closed.
pub struct Session {
    closed: bool,
    controller: bool,
    owner: bool,
    queue: u64,
    session: u64,
    urls: u64,
}

impl View for Session {
    type V = SessionView;

    closed spec fn view(&self) -> SessionView {
        SessionView {
            closed: self.closed,
            controller: self.controller,
            owner: self.owner,
            queue: self.queue,
            session: self.session,
            urls: self.urls,
        }
    }
}

impl Session {
    /// Whether this session created a named queue that workers may open.
    pub fn is_controller(&self) -> (r: bool)
        ensures
            r == self@.controller,
    {
        self.controller
    }

    pub fn is_closed(&self) -> (r: bool)
        ensures
            r == self@.closed,
    {
        self.closed
    }

    /// The URL group that `listen` registers patterns against (0 for a worker).
    pub fn url_group(&self) -> (r: u64)
        ensures
            r == self@.urls,
    {
        self.urls
    }

    /// What a call that registers a URL pattern returned, as this session reports it.
    pub fn listen(&self, code: u32) -> (r: Result<(), WinError>)
        ensures
            code == 0 <==> r is Ok,
            r is Err ==> r == Err::<(), WinError>(WinError { call: Step::AddUrlToUrlGroup, code }),
    {
        if code == 0 {
            Ok(())
        } else {
            Err(WinError { call: Step::AddUrlToUrlGroup, code })
        }
    }

    /// Starts making a request handle from this session's queue handle.
    pub fn request(&self) -> (r: Setup)
        ensures
            r.wf(),
            r.plan == (Plan::Duplicate { source: self@.queue }),
            r.done == 0,
    {
        Setup { plan: Plan::Duplicate { source: self.queue }, done: 0, session: 0, urls: 0, queue: 0 }
    }

    /// Closes the session: the first call returns what to release, every later call
    /// returns nothing.
    pub fn close(&mut self) -> (r: Vec<Release>)
        ensures
            final(self)@ == close_spec(old(self)@).0,
            r@ == close_spec(old(self)@).1,
    {
        let mut r: Vec<Release> = Vec::new();
        if !self.closed {
            self.closed = true;
            if self.owner {
                r.push(Release::CloseUrlGroup(self.urls));
                r.push(Release::CloseServerSession(self.session));
            }
            r.push(Release::CloseHandle(self.queue));
        }
        proof {
            assert(r@ =~= close_spec(old(self)@).1);
        }
        r
    }
}

/// However many times a session is closed, its kernel objects are released exactly
/// once: any number of closes (at least one) of an open session releases exactly
/// its release plan, and closes of a closed session release nothing.
pub proof fn lemma_close_releases_once(s: SessionView, n: nat)
    requires
        n >= 1,
    ensures
        closes(s, n) == (if s.closed { seq![] } else { release_plan(s) }),
    decreases n,
{
    let t = close_spec(s).0;
    lemma_closed_releases_nothing(t, (n - 1) as nat);
    assert(closes(s, n) =~= close_spec(s).1 + closes(t, (n - 1) as nat));
    assert(closes(s, n) =~= (if s.closed { seq![] } else { release_plan(s) }));
}

proof fn lemma_closed_releases_nothing(s: SessionView, n: nat)
    requires
        s.closed,
    ensures
        closes(s, n) == Seq::<Release>::empty(),
    decreases n,
{
    if n > 0 {
        lemma_closed_releases_nothing(close_spec(s).0, (n - 1) as nat);
        assert(closes(s, n) =~= Seq::<Release>::empty());
    }
}

} // verus!
