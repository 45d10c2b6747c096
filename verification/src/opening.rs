//! The opening of a connection, step by step.
//!
//! As in [`crate::execution`], an [`Opening`] touches no database itself: it
//! says what to do next, and goes on with what came of it. A connection is
//! opened, then configured, and only then put under the statement policy, which
//! would refuse the statements that configure it.

use vstd::prelude::*;

use crate::db::{pragma_statements, PragmaStatement, SqliteDb};
use crate::failure::Failure;

verus! {

// ---------------------------------------------------------------------------
// Requests and replies
// ---------------------------------------------------------------------------

/// What the opening asks for.
#[derive(Debug)]
pub enum OpenRequest {
    /// Open the file for reading and writing, creating it where there is none;
    /// through the named VFS, or the default one.
    Connect { path: String, vfs: Option<String> },
    /// Run a statement that configures the connection.
    Configure { statement: PragmaStatement },
    /// From here on, ask [`crate::db::authorize_action`] about every statement.
    Guard,
}

/// What an [`OpenRequest`] stands for.
pub ghost enum OpenRequestView {
    Connect { path: Seq<char>, vfs: Option<Seq<char>> },
    Configure { statement: crate::db::PragmaView },
    Guard,
}

impl View for OpenRequest {
    type V = OpenRequestView;

    open spec fn view(&self) -> OpenRequestView {
        match self {
            OpenRequest::Connect { path, vfs } => OpenRequestView::Connect {
                path: path@,
                vfs: crate::settings::optional_text(*vfs),
            },
            OpenRequest::Configure { statement } => OpenRequestView::Configure {
                statement: statement@,
            },
            OpenRequest::Guard => OpenRequestView::Guard,
        }
    }
}

/// What came of it.
#[derive(Debug)]
pub enum OpenReply {
    Connected(Result<(), Failure>),
    Configured(Result<(), Failure>),
    Guarded,
}

/// What an [`OpenReply`] stands for.
pub ghost enum OpenReplyView {
    Connected(Result<(), Seq<crate::failure::CauseView>>),
    Configured(Result<(), Seq<crate::failure::CauseView>>),
    Guarded,
}

impl View for OpenReply {
    type V = OpenReplyView;

    open spec fn view(&self) -> OpenReplyView {
        match self {
            OpenReply::Connected(Ok(())) => OpenReplyView::Connected(Ok(())),
            OpenReply::Connected(Err(failure)) => OpenReplyView::Connected(Err(failure@)),
            OpenReply::Configured(Ok(())) => OpenReplyView::Configured(Ok(())),
            OpenReply::Configured(Err(failure)) => OpenReplyView::Configured(Err(failure@)),
            OpenReply::Guarded => OpenReplyView::Guarded,
        }
    }
}

// ---------------------------------------------------------------------------
// States
// ---------------------------------------------------------------------------

/// How far the opening has come.
#[derive(Debug)]
enum OpenPhase {
    /// Waiting for the connection.
    Connect,
    /// Waiting for a statement that configures it; the rest is still to run.
    Configure { rest: Vec<PragmaStatement> },
    /// Waiting for the policy to be in force.
    Guard,
}

/// What a phase stands for.
pub ghost enum OpenPhaseView {
    Connect,
    Configure { rest: Seq<crate::db::PragmaView> },
    Guard,
}

impl View for OpenPhase {
    type V = OpenPhaseView;

    closed spec fn view(&self) -> OpenPhaseView {
        match self {
            OpenPhase::Connect => OpenPhaseView::Connect,
            OpenPhase::Configure { rest } => OpenPhaseView::Configure {
                rest: rest@.map_values(|p: PragmaStatement| p@),
            },
            OpenPhase::Guard => OpenPhaseView::Guard,
        }
    }
}

/// The opening of one connection.
#[derive(Debug)]
pub struct Opening {
    db: SqliteDb,
    phase: OpenPhase,
}

/// What an [`Opening`] stands for.
pub ghost struct OpenState {
    pub db: crate::db::DbView,
    pub phase: OpenPhaseView,
}

impl View for Opening {
    type V = OpenState;

    closed spec fn view(&self) -> OpenState {
        OpenState { db: self.db@, phase: self.phase@ }
    }
}

/// What comes next.
#[derive(Debug)]
pub enum OpenStep {
    /// The request is to be done, and the opening goes on with its reply.
    Ask { opening: Opening, request: OpenRequest },
    /// The opening is over.
    Done { result: Result<SqliteDb, Failure> },
}

/// What an [`OpenStep`] stands for.
pub ghost enum OpenStepView {
    Ask { state: OpenState, request: OpenRequestView },
    Done { result: Result<crate::db::DbView, Seq<crate::failure::CauseView>> },
}

impl View for OpenStep {
    type V = OpenStepView;

    open spec fn view(&self) -> OpenStepView {
        match self {
            OpenStep::Ask { opening, request } => OpenStepView::Ask {
                state: opening@,
                request: request@,
            },
            OpenStep::Done { result: Ok(db) } => OpenStepView::Done { result: Ok(db@) },
            OpenStep::Done { result: Err(failure) } => OpenStepView::Done { result: Err(failure@) },
        }
    }
}

// ---------------------------------------------------------------------------
// Transitions
// ---------------------------------------------------------------------------

/// What was being done when the file could not be opened.
pub open spec fn open_context(path: Seq<char>, vfs: Option<Seq<char>>) -> Seq<char> {
    match vfs {
        None => "open "@ + path,
        Some(name) => "open "@ + path + " via vfs "@ + name,
    }
}

/// The start of the opening.
pub open spec fn opening_of(db: crate::db::DbView) -> OpenStepView {
    OpenStepView::Ask {
        state: OpenState { db, phase: OpenPhaseView::Connect },
        request: OpenRequestView::Connect { path: db.path, vfs: db.vfs },
    }
}

/// What comes next when the statements `plan` are still to run.
pub open spec fn configuring(
    db: crate::db::DbView,
    plan: Seq<crate::db::PragmaView>,
) -> OpenStepView {
    if plan.len() == 0 {
        OpenStepView::Ask {
            state: OpenState { db, phase: OpenPhaseView::Guard },
            request: OpenRequestView::Guard,
        }
    } else {
        OpenStepView::Ask {
            state: OpenState { db, phase: OpenPhaseView::Configure { rest: plan.skip(1) } },
            request: OpenRequestView::Configure { statement: plan[0] },
        }
    }
}

/// What follows when `reply` has come. A statement that fails to configure the
/// connection leaves it usable and is passed over.
pub open spec fn opened(state: OpenState, reply: OpenReplyView) -> OpenStepView {
    match (state.phase, reply) {
        (OpenPhaseView::Connect, OpenReplyView::Connected(Ok(()))) => configuring(
            state.db,
            crate::db::pragmas_of(state.db.settings),
        ),
        (OpenPhaseView::Connect, OpenReplyView::Connected(Err(failure))) => OpenStepView::Done {
            result: Err(
                crate::failure::in_context(open_context(state.db.path, state.db.vfs), failure),
            ),
        },
        (OpenPhaseView::Configure { rest }, OpenReplyView::Configured(_)) => configuring(
            state.db,
            rest,
        ),
        (OpenPhaseView::Guard, OpenReplyView::Guarded) => OpenStepView::Done {
            result: Ok(state.db),
        },
        _ => OpenStepView::Done {
            result: Err(crate::failure::plain_failure("reply does not answer the request"@)),
        },
    }
}

/// What comes next when the statements `plan` are still to run.
fn configure(db: SqliteDb, plan: Vec<PragmaStatement>) -> (step: OpenStep)
    ensures
        step@ == configuring(db@, plan@.map_values(|p: PragmaStatement| p@)),
{
    let mut rest = plan;
    let ghost all = rest@.map_values(|p: PragmaStatement| p@);
    if rest.len() == 0 {
        return OpenStep::Ask {
            opening: Opening { db, phase: OpenPhase::Guard },
            request: OpenRequest::Guard,
        };
    }
    let statement = rest.remove(0);
    assert(rest@.map_values(|p: PragmaStatement| p@) =~= all.skip(1));
    OpenStep::Ask {
        opening: Opening { db, phase: OpenPhase::Configure { rest } },
        request: OpenRequest::Configure { statement },
    }
}

impl Opening {
    /// The opening of the connection that `db` describes.
    pub fn begin(db: SqliteDb) -> (step: OpenStep)
        ensures
            step@ == opening_of(db@),
    {
        let path = db.path_text();
        let vfs = db.vfs_text();
        OpenStep::Ask {
            opening: Opening { db, phase: OpenPhase::Connect },
            request: OpenRequest::Connect { path, vfs },
        }
    }

    /// What follows when `reply` has come.
    pub fn step(self, reply: OpenReply) -> (step: OpenStep)
        ensures
            step@ == opened(self@, reply@),
    {
        let db = self.db;
        match (self.phase, reply) {
            (OpenPhase::Connect, OpenReply::Connected(Ok(()))) => {
                let plan = pragma_statements(db.settings());
                configure(db, plan)
            },
            (OpenPhase::Connect, OpenReply::Connected(Err(failure))) => {
                let mut context = "open ".to_owned();
                let path = db.path_text();
                context.append(path.as_str());
                if let Some(name) = db.vfs_text() {
                    context.append(" via vfs ");
                    context.append(name.as_str());
                }
                OpenStep::Done { result: Err(failure.context(context)) }
            },
            (OpenPhase::Configure { rest }, OpenReply::Configured(_)) => configure(db, rest),
            (OpenPhase::Guard, OpenReply::Guarded) => OpenStep::Done { result: Ok(db) },
            _ => OpenStep::Done {
                result: Err(Failure::new("reply does not answer the request".to_owned())),
            },
        }
    }
}

// ---------------------------------------------------------------------------
// Laws
// ---------------------------------------------------------------------------

/// Where `replies` lead when they come one after the other. Once the opening is
/// over, further replies change nothing.
pub open spec fn run_opening(start: OpenStepView, replies: Seq<OpenReplyView>) -> OpenStepView
    decreases replies.len(),
{
    if replies.len() == 0 {
        start
    } else {
        match run_opening(start, replies.drop_last()) {
            OpenStepView::Ask { state, .. } => opened(state, replies.last()),
            done => done,
        }
    }
}

/// What is asked for after `k` replies.
pub open spec fn request_after(db: crate::db::DbView, k: int) -> OpenRequestView {
    let plan = crate::db::pragmas_of(db.settings);
    if k == 0 {
        OpenRequestView::Connect { path: db.path, vfs: db.vfs }
    } else if k <= plan.len() {
        OpenRequestView::Configure { statement: plan[k - 1] }
    } else {
        OpenRequestView::Guard
    }
}

/// The requests come in a fixed order, whatever the replies: connect, then every
/// statement that configures the connection, then the policy. So the policy is in
/// force after the last of these statements and not before.
pub proof fn law_configured_then_guarded(db: crate::db::DbView, replies: Seq<OpenReplyView>)
    ensures
        run_opening(opening_of(db), replies) matches OpenStepView::Ask { state, request } ==> {
            let plan = crate::db::pragmas_of(db.settings);
            &&& replies.len() <= plan.len() + 1
            &&& request == request_after(db, replies.len() as int)
            &&& state.db == db
            &&& state.phase == if replies.len() == 0 {
                OpenPhaseView::Connect
            } else if replies.len() <= plan.len() {
                OpenPhaseView::Configure { rest: plan.skip(replies.len() as int) }
            } else {
                OpenPhaseView::Guard
            }
        },
    decreases replies.len(),
{
    let plan = crate::db::pragmas_of(db.settings);
    if replies.len() > 0 {
        law_configured_then_guarded(db, replies.drop_last());
        let n = replies.len() as int;
        if n <= plan.len() {
            assert(plan.skip(n - 1).skip(1) =~= plan.skip(n));
            assert(plan.skip(n - 1)[0] == plan[n - 1]);
            assert(plan.skip(0) =~= plan);
        }
    }
}

/// A database is handed out only when its connection was opened, every statement
/// that configures it was run, and the policy is in force.
pub proof fn law_opened_means_guarded(
    db: crate::db::DbView,
    replies: Seq<OpenReplyView>,
    given: crate::db::DbView,
)
    requires
        replies.len() > 0,
        run_opening(opening_of(db), replies.drop_last()) is Ask,
        run_opening(opening_of(db), replies) == (OpenStepView::Done { result: Ok(given) }),
    ensures
        given == db,
        replies.len() == crate::db::pragmas_of(db.settings).len() + 2,
        replies.last() is Guarded,
{
    law_configured_then_guarded(db, replies.drop_last());
}

/// When every request is answered, only a connection that cannot be opened
/// makes the opening fail: a statement that does not go through, whatever it
/// sets, does not.
pub proof fn law_only_connecting_can_fail(
    db: crate::db::DbView,
    replies: Seq<OpenReplyView>,
)
    requires
        replies.len() == crate::db::pragmas_of(db.settings).len() + 2,
        replies[0] == OpenReplyView::Connected(Ok(())),
        forall|i: int| 1 <= i < replies.len() - 1 ==> (#[trigger] replies[i]) is Configured,
        replies.last() is Guarded,
    ensures
        run_opening(opening_of(db), replies) == (OpenStepView::Done { result: Ok(db) }),
{
    let n = crate::db::pragmas_of(db.settings).len() as int;
    lemma_answered(db, replies, n + 1);
    assert(replies.take(n + 1) =~= replies.drop_last());
    law_configured_then_guarded(db, replies.drop_last());
}

/// The opening goes on as long as its requests are answered.
proof fn lemma_answered(db: crate::db::DbView, replies: Seq<OpenReplyView>, k: int)
    requires
        0 <= k < replies.len(),
        replies.len() == crate::db::pragmas_of(db.settings).len() + 2,
        replies[0] == OpenReplyView::Connected(Ok(())),
        forall|i: int| 1 <= i < replies.len() - 1 ==> (#[trigger] replies[i]) is Configured,
    ensures
        run_opening(opening_of(db), replies.take(k)) is Ask,
    decreases k,
{
    if k > 0 {
        lemma_answered(db, replies, k - 1);
        assert(replies.take(k).drop_last() =~= replies.take(k - 1));
        assert(replies.take(k).last() == replies[k - 1]);
        law_configured_then_guarded(db, replies.take(k - 1));
    }
}

/// The opening begins with the file itself, through the VFS that was given.
pub proof fn law_opens_the_given_file(db: crate::db::DbView)
    ensures
        opening_of(db) matches OpenStepView::Ask {
            state,
            request: OpenRequestView::Connect { path, vfs },
        } && path == db.path && vfs == db.vfs && state.db == db,
{
}

/// A file that cannot be opened ends the opening, with an error that names the file
/// and the VFS and then says what the database said.
pub proof fn law_unopened_files_are_named(
    db: crate::db::DbView,
    failure: Seq<crate::failure::CauseView>,
)
    ensures
        run_opening(
            opening_of(db),
            seq![OpenReplyView::Connected(Err(failure))],
        ) matches OpenStepView::Done { result: Err(shown) } && {
            &&& shown.len() == failure.len() + 1
            &&& shown[0].message == match db.vfs {
                Some(name) => "open "@ + db.path + " via vfs "@ + name,
                None => "open "@ + db.path,
            }
            &&& !shown[0].interrupted
            &&& forall|i: int| 0 <= i < failure.len() ==> shown[i + 1] == #[trigger] failure[i]
        },
{
    let replies = seq![OpenReplyView::Connected(Err(failure))];
    assert(replies.drop_last() =~= Seq::empty());
    assert(run_opening(opening_of(db), Seq::empty()) == opening_of(db));
}

/// A reply to something else than was asked ends the opening as a failure of
/// whoever opens the file.
pub proof fn law_other_replies_end_the_opening(
    db: crate::db::DbView,
    replies: Seq<OpenReplyView>,
    reply: OpenReplyView,
)
    requires
        run_opening(opening_of(db), replies) is Ask,
    ensures
        ({
            let request = run_opening(opening_of(db), replies)->request;
            let next = run_opening(opening_of(db), replies.push(reply));
            let fits = match request {
                OpenRequestView::Connect { .. } => reply is Connected,
                OpenRequestView::Configure { .. } => reply is Configured,
                OpenRequestView::Guard => reply is Guarded,
            };
            !fits ==> {
                &&& next matches OpenStepView::Done { result: Err(shown) }
                &&& shown.len() == 1
                &&& shown[0].message == "reply does not answer the request"@
                &&& !shown[0].interrupted
            }
        }),
{
    law_configured_then_guarded(db, replies);
    assert(replies.push(reply).drop_last() =~= replies);
}

/// The views leave nothing out.
pub proof fn law_views_of_openings(request: OpenRequest, reply: OpenReply, step: OpenStep)
    ensures
        match request {
            OpenRequest::Connect { path: p, vfs: Some(v) } => request@ == (
            OpenRequestView::Connect { path: p@, vfs: Some(v@) }),
            OpenRequest::Connect { path: p, vfs: None } => request@ == (OpenRequestView::Connect {
                path: p@,
                vfs: None,
            }),
            OpenRequest::Configure { statement: s } => request@ == (OpenRequestView::Configure {
                statement: s@,
            }),
            OpenRequest::Guard => request@ is Guard,
        },
        match reply {
            OpenReply::Connected(Ok(())) => reply@ == OpenReplyView::Connected(Ok(())),
            OpenReply::Connected(Err(f)) => reply@ == OpenReplyView::Connected(Err(f@)),
            OpenReply::Configured(Ok(())) => reply@ == OpenReplyView::Configured(Ok(())),
            OpenReply::Configured(Err(f)) => reply@ == OpenReplyView::Configured(Err(f@)),
            OpenReply::Guarded => reply@ is Guarded,
        },
        match step {
            OpenStep::Ask { opening: o, request: r } => step@ == (OpenStepView::Ask {
                state: o@,
                request: r@,
            }),
            OpenStep::Done { result: Ok(d) } => step@ == (OpenStepView::Done { result: Ok(d@) }),
            OpenStep::Done { result: Err(f) } => step@ == (OpenStepView::Done {
                result: Err(f@),
            }),
        },
{
}

/// What the functions of an opening give is what was said above of its steps.
pub proof fn law_openings_as_values(
    db: SqliteDb,
    first: OpenStep,
    opening: Opening,
    reply: OpenReply,
    next: OpenStep,
)
    ensures
        call_ensures(Opening::begin, (db,), first) ==> first@ == opening_of(db@),
        call_ensures(Opening::step, (opening, reply), next) ==> next@ == opened(opening@, reply@),
{
}

} // verus!
