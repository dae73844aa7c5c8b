//! The isolation boundary builder: it turns a list of grants and a policy
//! for the standard streams into a context that a guest can be started in.
//!
//! Opening a host directory is done outside; the builder says which one is
//! to be opened next and what comes of each answer. A guest sees the granted
//! directories under their guest paths and nothing else of the host.

use vstd::prelude::*;
use crate::grant::{DirMount, DirPerms, FilePerms, GrantView};

verus! {

/// A context as contracts speak of it.
pub struct ContextView {
    /// The grants, each of them opened, in the order in which they were given.
    pub grants: Seq<GrantView>,
    /// Whether the guest's standard streams are those of the host.
    pub inherit_stdio: bool,
}

/// All that one guest instance is allowed: its grants and its streams. A
/// context is made for one instance and handed over whole.
#[derive(Debug, PartialEq, Eq)]
pub struct IsolationContext {
    grants: Vec<DirMount>,
    inherit_stdio: bool,
}

impl View for IsolationContext {
    type V = ContextView;

    closed spec fn view(&self) -> ContextView {
        ContextView {
            grants: Seq::new(self.grants@.len(), |i: int| self.grants@[i]@),
            inherit_stdio: self.inherit_stdio,
        }
    }
}

impl IsolationContext {
    /// The number of grants in the context.
    pub fn grant_count(&self) -> (n: usize)
        ensures
            n == self@.grants.len(),
    {
        self.grants.len()
    }

    /// The grant at `index`, if there are that many.
    pub fn grant(&self, index: usize) -> (g: Option<&DirMount>)
        ensures
            match g {
                Some(grant) => index < self@.grants.len() && grant@ == self@.grants[index as int],
                None => index >= self@.grants.len(),
            },
    {
        if index < self.grants.len() {
            Some(&self.grants[index])
        } else {
            None
        }
    }

    /// Whether the guest's standard streams are those of the host.
    pub fn inherit_stdio(&self) -> (r: bool)
        ensures
            r == self@.inherit_stdio,
    {
        self.inherit_stdio
    }
}

/// A host path could not be opened with the permission asked for.
#[derive(Debug, PartialEq, Eq)]
pub struct GrantUnavailable {
    /// The host path of the grant.
    pub host: String,
    /// The guest path of the grant.
    pub guest: String,
    /// What went wrong, in words.
    pub message: String,
}

/// A `GrantUnavailable` as contracts speak of it.
pub struct GrantUnavailableView {
    pub host: Seq<char>,
    pub guest: Seq<char>,
    pub message: Seq<char>,
}

impl View for GrantUnavailable {
    type V = GrantUnavailableView;

    open spec fn view(&self) -> GrantUnavailableView {
        GrantUnavailableView { host: self.host@, guest: self.guest@, message: self.message@ }
    }
}

/// How far a builder has come.
#[derive(Clone, Copy, Debug, PartialEq, Eq, Structural)]
pub enum BoundaryPhase {
    /// Nothing has been done yet.
    Created,
    /// A host directory is being opened.
    Opening,
    /// All grants are open; the context is being put together.
    Building,
    /// The context, or the failure, has been handed out.
    Finished,
}

/// What is reported back to the builder.
#[derive(Debug, PartialEq, Eq)]
pub enum BoundaryEvent {
    /// The request to build has come in.
    Start,
    /// The directory asked for is open and registered.
    Opened,
    /// The directory asked for could not be opened; the text says why.
    Unavailable(String),
    /// The context is put together.
    Built,
}

/// An event as contracts speak of it.
pub enum BoundaryEventView {
    Start,
    Opened,
    Unavailable(Seq<char>),
    Built,
}

impl View for BoundaryEvent {
    type V = BoundaryEventView;

    open spec fn view(&self) -> BoundaryEventView {
        match self {
            BoundaryEvent::Start => BoundaryEventView::Start,
            BoundaryEvent::Opened => BoundaryEventView::Opened,
            BoundaryEvent::Unavailable(m) => BoundaryEventView::Unavailable(m@),
            BoundaryEvent::Built => BoundaryEventView::Built,
        }
    }
}

/// What the builder asks to be done next.
#[derive(Debug, PartialEq, Eq)]
pub enum BoundaryAction {
    /// Open `host` and register it for the guest under `guest`, with these
    /// rights.
    Preopen { host: String, guest: String, dir_perms: DirPerms, file_perms: FilePerms },
    /// Put the context together from what was registered.
    Build { inherit_stdio: bool },
    /// Hand out the context, or give up; the builder is done. On failure
    /// whatever was opened is to be released.
    Finish(Result<IsolationContext, GrantUnavailable>),
}

/// An action as contracts speak of it.
pub enum BoundaryActionView {
    Preopen { host: Seq<char>, guest: Seq<char>, dir_perms: DirPerms, file_perms: FilePerms },
    Build { inherit_stdio: bool },
    Finish(Result<ContextView, GrantUnavailableView>),
}

impl View for BoundaryAction {
    type V = BoundaryActionView;

    open spec fn view(&self) -> BoundaryActionView {
        match self {
            BoundaryAction::Preopen { host, guest, dir_perms, file_perms } => {
                BoundaryActionView::Preopen {
                    host: host@,
                    guest: guest@,
                    dir_perms: *dir_perms,
                    file_perms: *file_perms,
                }
            },
            BoundaryAction::Build { inherit_stdio } => BoundaryActionView::Build {
                inherit_stdio: *inherit_stdio,
            },
            BoundaryAction::Finish(Ok(context)) => BoundaryActionView::Finish(Ok(context@)),
            BoundaryAction::Finish(Err(e)) => BoundaryActionView::Finish(Err(e@)),
        }
    }
}

/// A builder as contracts speak of it.
pub struct BoundaryState {
    /// How far the builder has come.
    pub phase: BoundaryPhase,
    /// The grants it was made for.
    pub grants: Seq<GrantView>,
    /// Whether the guest's standard streams are to be those of the host.
    pub inherit_stdio: bool,
    /// How many of the grants are open.
    pub opened: nat,
}

/// The state of a builder that has done nothing yet.
pub open spec fn boundary_fresh(grants: Seq<GrantView>, inherit_stdio: bool) -> BoundaryState {
    BoundaryState { phase: BoundaryPhase::Created, grants, inherit_stdio, opened: 0 }
}

/// The state in which a builder ends: it holds no grant any more.
pub open spec fn boundary_finished(s: BoundaryState) -> BoundaryState {
    BoundaryState {
        phase: BoundaryPhase::Finished,
        grants: Seq::empty(),
        inherit_stdio: s.inherit_stdio,
        opened: 0,
    }
}

/// The request to open a grant: its two paths, and the rights that its
/// permission stands for.
pub open spec fn preopen_of(g: GrantView) -> BoundaryActionView {
    BoundaryActionView::Preopen {
        host: g.host,
        guest: g.guest,
        dir_perms: g.permission.spec_dir_perms(),
        file_perms: g.permission.spec_file_perms(),
    }
}

/// Where a builder stands once `opened` of its grants are open: it asks for
/// the next one or, where none is left, for the context to be put together.
pub open spec fn boundary_proceed(s: BoundaryState, opened: nat) -> (
    BoundaryState,
    BoundaryActionView,
) {
    if opened < s.grants.len() {
        (
            BoundaryState { phase: BoundaryPhase::Opening, opened, ..s },
            preopen_of(s.grants[opened as int]),
        )
    } else {
        (
            BoundaryState { phase: BoundaryPhase::Building, opened, ..s },
            BoundaryActionView::Build { inherit_stdio: s.inherit_stdio },
        )
    }
}

/// The builder's rule: the state and the action that follow from an event,
/// or `None` where the event has no place in the state.
///
/// The grants are opened one by one, in the order in which they were given.
/// The first that cannot be opened ends the build with its paths and the
/// reason. When all are open the context is put together and handed out.
pub open spec fn boundary_next(s: BoundaryState, e: BoundaryEventView) -> Option<
    (BoundaryState, BoundaryActionView),
> {
    match (s.phase, e) {
        (BoundaryPhase::Created, BoundaryEventView::Start) => Some(boundary_proceed(s, 0)),
        (BoundaryPhase::Opening, BoundaryEventView::Opened) => if s.opened < s.grants.len() {
            Some(boundary_proceed(s, s.opened + 1))
        } else {
            None
        },
        (BoundaryPhase::Opening, BoundaryEventView::Unavailable(message)) => if s.opened
            < s.grants.len() {
            Some(
                (
                    boundary_finished(s),
                    BoundaryActionView::Finish(
                        Err(
                            GrantUnavailableView {
                                host: s.grants[s.opened as int].host,
                                guest: s.grants[s.opened as int].guest,
                                message,
                            },
                        ),
                    ),
                ),
            )
        } else {
            None
        },
        (BoundaryPhase::Building, BoundaryEventView::Built) => Some(
            (
                boundary_finished(s),
                BoundaryActionView::Finish(
                    Ok(ContextView { grants: s.grants, inherit_stdio: s.inherit_stdio }),
                ),
            ),
        ),
        _ => None,
    }
}

/// The builder of one context.
pub struct BoundaryBuilder {
    phase: BoundaryPhase,
    grants: Vec<DirMount>,
    inherit_stdio: bool,
    opened: usize,
}

impl View for BoundaryBuilder {
    type V = BoundaryState;

    closed spec fn view(&self) -> BoundaryState {
        BoundaryState {
            phase: self.phase,
            grants: Seq::new(self.grants@.len(), |i: int| self.grants@[i]@),
            inherit_stdio: self.inherit_stdio,
            opened: self.opened as nat,
        }
    }
}

impl BoundaryBuilder {
    /// A builder for these grants that has done nothing yet.
    pub fn new(grants: Vec<DirMount>, inherit_stdio: bool) -> (r: BoundaryBuilder)
        ensures
            r@ == boundary_fresh(Seq::new(grants@.len(), |i: int| grants@[i]@), inherit_stdio),
    {
        BoundaryBuilder { phase: BoundaryPhase::Created, grants, inherit_stdio, opened: 0 }
    }

    /// How far the builder has come.
    pub fn phase(&self) -> (r: BoundaryPhase)
        ensures
            r == self@.phase,
    {
        self.phase
    }

    /// Goes on once `opened` grants are open.
    fn proceed(&mut self, opened: usize) -> (action: BoundaryAction)
        requires
            opened <= old(self)@.grants.len(),
        ensures
            final(self)@ == boundary_proceed(old(self)@, opened as nat).0,
            action@ == boundary_proceed(old(self)@, opened as nat).1,
    {
        self.opened = opened;
        if opened < self.grants.len() {
            self.phase = BoundaryPhase::Opening;
            let grant = &self.grants[opened];
            BoundaryAction::Preopen {
                host: grant.host().to_owned(),
                guest: grant.guest().to_owned(),
                dir_perms: grant.dir_perms(),
                file_perms: grant.file_perms(),
            }
        } else {
            self.phase = BoundaryPhase::Building;
            BoundaryAction::Build { inherit_stdio: self.inherit_stdio }
        }
    }

    /// Ends the build: the grants are taken out of the builder.
    fn finish(&mut self) -> (grants: Vec<DirMount>)
        ensures
            Seq::new(grants@.len(), |i: int| grants@[i]@) == old(self)@.grants,
            final(self)@ == boundary_finished(old(self)@),
    {
        let mut grants: Vec<DirMount> = Vec::new();
        core::mem::swap(&mut self.grants, &mut grants);
        self.phase = BoundaryPhase::Finished;
        self.opened = 0;
        assert(self@.grants =~= Seq::empty());
        grants
    }

    /// Takes one event and says what is to be done next. An event that has
    /// no place in the builder's state changes nothing and gives `None`.
    pub fn step(&mut self, event: BoundaryEvent) -> (action: Option<BoundaryAction>)
        ensures
            match boundary_next(old(self)@, event@) {
                Some((state, act)) => (action matches Some(a) && a@ == act) && final(self)@
                    == state,
                None => final(self)@ == old(self)@ && action is None,
            },
    {
        match (self.phase, event) {
            (BoundaryPhase::Created, BoundaryEvent::Start) => Some(self.proceed(0)),
            (BoundaryPhase::Opening, BoundaryEvent::Opened) => {
                if self.opened < self.grants.len() {
                    let opened = self.opened + 1;
                    Some(self.proceed(opened))
                } else {
                    None
                }
            },
            (BoundaryPhase::Opening, BoundaryEvent::Unavailable(message)) => {
                if self.opened < self.grants.len() {
                    let host = self.grants[self.opened].host().to_owned();
                    let guest = self.grants[self.opened].guest().to_owned();
                    let _ = self.finish();
                    Some(BoundaryAction::Finish(Err(GrantUnavailable { host, guest, message })))
                } else {
                    None
                }
            },
            (BoundaryPhase::Building, BoundaryEvent::Built) => {
                let inherit_stdio = self.inherit_stdio;
                let grants = self.finish();
                Some(BoundaryAction::Finish(Ok(IsolationContext { grants, inherit_stdio })))
            },
            _ => None,
        }
    }
}

/// The actions that a builder takes on a sequence of events, in order. An
/// event without a place in the state is passed over.
pub open spec fn boundary_actions(s: BoundaryState, events: Seq<BoundaryEventView>) -> Seq<
    BoundaryActionView,
>
    decreases events.len(),
{
    if events.len() == 0 {
        Seq::empty()
    } else {
        match boundary_next(s, events[0]) {
            Some((t, action)) => seq![action] + boundary_actions(t, events.drop_first()),
            None => boundary_actions(s, events.drop_first()),
        }
    }
}

/// `n` reports that a directory was opened.
pub open spec fn opened_events(n: nat) -> Seq<BoundaryEventView> {
    Seq::new(n, |i: int| BoundaryEventView::Opened)
}

/// The requests to open each of the grants, in order.
pub open spec fn preopens(grants: Seq<GrantView>) -> Seq<BoundaryActionView> {
    Seq::new(grants.len(), |i: int| preopen_of(grants[i]))
}

/// While grants are left, each report of an opened directory is answered
/// by the request for the next grant.
proof fn lemma_feed_opened(
    grants: Seq<GrantView>,
    inherit_stdio: bool,
    k: nat,
    j: nat,
    rest: Seq<BoundaryEventView>,
)
    requires
        k + j < grants.len(),
    ensures
        boundary_actions(
            boundary_proceed(boundary_fresh(grants, inherit_stdio), k).0,
            opened_events(j) + rest,
        ) == preopens(grants).subrange(k as int + 1, k as int + j as int + 1) + boundary_actions(
            boundary_proceed(boundary_fresh(grants, inherit_stdio), k + j).0,
            rest,
        ),
    decreases j,
{
    let fresh = boundary_fresh(grants, inherit_stdio);
    let here = boundary_proceed(fresh, k).0;
    if j == 0 {
        assert(opened_events(j) + rest =~= rest);
        assert(preopens(grants).subrange(k as int + 1, k as int + j as int + 1) =~= Seq::empty());
        assert(Seq::<BoundaryActionView>::empty() + boundary_actions(here, rest)
            =~= boundary_actions(here, rest));
    } else {
        let events = opened_events(j) + rest;
        assert(events[0] == BoundaryEventView::Opened);
        assert(events.drop_first() =~= opened_events((j - 1) as nat) + rest);
        assert(boundary_next(here, events[0]) == Some(boundary_proceed(here, k + 1)));
        assert(boundary_proceed(here, k + 1) == boundary_proceed(fresh, k + 1));
        lemma_feed_opened(grants, inherit_stdio, k + 1, (j - 1) as nat, rest);
        assert(seq![preopen_of(grants[k as int + 1])] + preopens(grants).subrange(k as int + 2, k as int + j as int + 1)
            =~= preopens(grants).subrange(k as int + 1, k as int + j as int + 1));
    }
}

/// Where every directory can be opened, the builder asks for each grant
/// once, in the order given, and for nothing else of the host; it then has
/// the context put together and hands it out with the same grants.
pub proof fn lemma_all_grants_opened_in_order(grants: Seq<GrantView>, inherit_stdio: bool)
    ensures
        boundary_actions(
            boundary_fresh(grants, inherit_stdio),
            seq![BoundaryEventView::Start] + opened_events(grants.len())
                + seq![BoundaryEventView::Built],
        ) == preopens(grants) + seq![
            BoundaryActionView::Build { inherit_stdio },
            BoundaryActionView::Finish(Ok(ContextView { grants, inherit_stdio })),
        ],
{
    let fresh = boundary_fresh(grants, inherit_stdio);
    let n = grants.len();
    let events = seq![BoundaryEventView::Start] + opened_events(n) + seq![
        BoundaryEventView::Built,
    ];
    let first = boundary_proceed(fresh, 0);
    let end = seq![
        BoundaryActionView::Build { inherit_stdio },
        BoundaryActionView::Finish(Ok(ContextView { grants, inherit_stdio })),
    ];
    assert(events[0] == BoundaryEventView::Start);
    assert(events.drop_first() =~= opened_events(n) + seq![BoundaryEventView::Built]);
    if n == 0 {
        assert(events.drop_first() =~= seq![BoundaryEventView::Built]);
        assert(boundary_actions(first.0, events.drop_first()) =~= seq![end[1]]) by {
            reveal_with_fuel(boundary_actions, 2);
        }
        assert(preopens(grants) + end =~= seq![first.1] + seq![end[1]]);
    } else {
        let rest = seq![BoundaryEventView::Opened, BoundaryEventView::Built];
        assert(events.drop_first() =~= opened_events((n - 1) as nat) + rest);
        lemma_feed_opened(grants, inherit_stdio, 0, (n - 1) as nat, rest);
        let last = boundary_proceed(fresh, (n - 1) as nat).0;
        assert(boundary_actions(last, rest) =~= end) by {
            reveal_with_fuel(boundary_actions, 3);
            assert(boundary_proceed(last, n) == boundary_proceed(fresh, n));
        }
        assert(preopens(grants) + end =~= seq![first.1] + (preopens(grants).subrange(1, n as int)
            + end));
    }
}

/// The first directory that cannot be opened ends the build: the builder
/// has asked for the grants before it and for this one, asks for no other,
/// puts no context together, and reports this grant's paths with the reason.
pub proof fn lemma_first_failure_ends_build(
    grants: Seq<GrantView>,
    inherit_stdio: bool,
    failed: nat,
    message: Seq<char>,
    later: Seq<BoundaryEventView>,
)
    requires
        failed < grants.len(),
    ensures
        boundary_actions(
            boundary_fresh(grants, inherit_stdio),
            seq![BoundaryEventView::Start] + opened_events(failed)
                + seq![BoundaryEventView::Unavailable(message)] + later,
        ) == preopens(grants).subrange(0, failed as int + 1) + seq![
            BoundaryActionView::Finish(
                Err(
                    GrantUnavailableView {
                        host: grants[failed as int].host,
                        guest: grants[failed as int].guest,
                        message,
                    },
                ),
            ),
        ],
{
    let fresh = boundary_fresh(grants, inherit_stdio);
    let rest = seq![BoundaryEventView::Unavailable(message)] + later;
    let events = seq![BoundaryEventView::Start] + opened_events(failed) + seq![
        BoundaryEventView::Unavailable(message),
    ] + later;
    let first = boundary_proceed(fresh, 0);
    let end = seq![
        BoundaryActionView::Finish(
            Err(
                GrantUnavailableView {
                    host: grants[failed as int].host,
                    guest: grants[failed as int].guest,
                    message,
                },
            ),
        ),
    ];
    assert(events[0] == BoundaryEventView::Start);
    assert(events.drop_first() =~= opened_events(failed) + rest);
    lemma_feed_opened(grants, inherit_stdio, 0, failed, rest);
    let at = boundary_proceed(fresh, failed).0;
    assert(rest[0] == BoundaryEventView::Unavailable(message));
    assert(rest.drop_first() =~= later);
    lemma_finished_builder_is_silent(boundary_finished(at), later);
    assert(boundary_actions(at, rest) =~= end);
    assert(preopens(grants).subrange(0, failed as int + 1) + end =~= seq![first.1] + (preopens(
        grants,
    ).subrange(1, failed as int + 1) + end));
}

/// A builder that is done takes no event and asks for nothing more.
pub proof fn lemma_finished_builder_is_silent(s: BoundaryState, events: Seq<BoundaryEventView>)
    requires
        s.phase == BoundaryPhase::Finished,
    ensures
        boundary_actions(s, events) == Seq::<BoundaryActionView>::empty(),
    decreases events.len(),
{
    if events.len() > 0 {
        lemma_finished_builder_is_silent(s, events.drop_first());
    }
}

/// A request to open a directory names a grant of the builder, with no more
/// rights than its permission stands for; no step adds a grant or changes
/// one.
pub proof fn lemma_no_grant_is_added(s: BoundaryState, e: BoundaryEventView)
    ensures
        boundary_next(s, e) matches Some((t, action)) ==> {
            &&& t.phase != BoundaryPhase::Finished ==> t.grants == s.grants
            &&& t.inherit_stdio == s.inherit_stdio
            &&& action is Preopen ==> t.opened < s.grants.len() && action == preopen_of(
                s.grants[t.opened as int],
            )
            &&& action matches BoundaryActionView::Finish(Ok(context)) ==> context.grants
                == s.grants && context.inherit_stdio == s.inherit_stdio
        },
{
}

} // verus!
