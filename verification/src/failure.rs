//! Why an operation failed: a chain of causes, the outermost first.

use vstd::prelude::*;

verus! {

/// One link of the chain.
#[derive(Debug)]
pub struct Cause {
    pub message: String,
    /// The database says that the statement was interrupted.
    pub interrupted: bool,
}

/// What a [`Cause`] stands for.
pub ghost struct CauseView {
    pub message: Seq<char>,
    pub interrupted: bool,
}

impl View for Cause {
    type V = CauseView;

    open spec fn view(&self) -> CauseView {
        CauseView { message: self.message@, interrupted: self.interrupted }
    }
}

/// A failure: what was being done, and below it the causes.
#[derive(Debug)]
pub struct Failure {
    pub causes: Vec<Cause>,
}

impl View for Failure {
    type V = Seq<CauseView>;

    open spec fn view(&self) -> Seq<CauseView> {
        self.causes@.map_values(|c: Cause| c@)
    }
}

/// The failure that has `message` as its only cause.
pub open spec fn plain_failure(message: Seq<char>) -> Seq<CauseView> {
    seq![CauseView { message, interrupted: false }]
}

/// The failure `below`, met while doing what `message` says.
pub open spec fn in_context(message: Seq<char>, below: Seq<CauseView>) -> Seq<CauseView> {
    plain_failure(message) + below
}

/// The messages of the chain on one line, with `: ` between them.
pub open spec fn chain_text(causes: Seq<CauseView>) -> Seq<char>
    decreases causes.len(),
{
    if causes.len() == 0 {
        Seq::empty()
    } else if causes.len() == 1 {
        causes[0].message
    } else {
        chain_text(causes.drop_last()) + ": "@ + causes.last().message
    }
}

/// Whether the database says somewhere in the chain that it was interrupted.
pub open spec fn interrupted(causes: Seq<CauseView>) -> bool {
    exists|i: int| 0 <= i < causes.len() && (#[trigger] causes[i]).interrupted
}

impl Failure {
    /// The failure that has `message` as its only cause.
    pub fn new(message: String) -> (failure: Failure)
        ensures
            failure@ == plain_failure(message@),
    {
        let mut causes: Vec<Cause> = Vec::new();
        causes.push(Cause { message, interrupted: false });
        let failure = Failure { causes };
        assert(failure@ =~= plain_failure(message@));
        failure
    }

    /// This failure, met while doing what `message` says.
    pub fn context(self, message: String) -> (failure: Failure)
        ensures
            failure@ == in_context(message@, self@),
    {
        let mut causes = self.causes;
        causes.insert(0, Cause { message, interrupted: false });
        let failure = Failure { causes };
        assert(failure@ =~= in_context(message@, self@));
        failure
    }

    /// The whole chain on one line.
    pub fn text(&self) -> (line: String)
        ensures
            line@ == chain_text(self@),
    {
        let mut line = String::new();
        for i in 0..self.causes.len()
            invariant
                line@ == chain_text(self@.take(i as int)),
        {
            assert(self@.take(i + 1).drop_last() == self@.take(i as int));
            if i > 0 {
                line.append(": ");
            } else {
                assert(line@ =~= Seq::<char>::empty());
                assert(line@ + self@[0].message =~= self@[0].message);
            }
            line.append(self.causes[i].message.as_str());
        }
        assert(self@.take(self@.len() as int) == self@);
        line
    }
}

/// Whether the failure is an interruption of the statement by the database.
pub fn error_is_interrupt(failure: &Failure) -> (yes: bool)
    ensures
        yes == interrupted(failure@),
{
    for i in 0..failure.causes.len()
        invariant
            forall|j: int| 0 <= j < i ==> !(#[trigger] failure@[j]).interrupted,
    {
        if failure.causes[i].interrupted {
            assert(failure@[i as int].interrupted);
            return true;
        }
    }
    false
}

/// Naming what was being done neither makes nor hides an interruption.
pub proof fn law_context_keeps_interruption(message: Seq<char>, below: Seq<CauseView>)
    ensures
        interrupted(in_context(message, below)) == interrupted(below),
{
    let whole = in_context(message, below);
    if interrupted(below) {
        let i = choose|i: int| 0 <= i < below.len() && (#[trigger] below[i]).interrupted;
        assert(whole[i + 1] == below[i]);
    }
    if interrupted(whole) {
        let i = choose|i: int| 0 <= i < whole.len() && (#[trigger] whole[i]).interrupted;
        assert(whole[i] == below[i - 1]);
    }
}

/// The line that tells of a failure has the messages of all causes, the outermost
/// first, with `: ` between them.
pub proof fn law_chain_is_told_whole(message: Seq<char>, below: Seq<CauseView>)
    ensures
        chain_text(seq![CauseView { message, interrupted: false }]) == message,
        chain_text(seq![CauseView { message, interrupted: true }]) == message,
        below.len() > 0 ==> chain_text(in_context(message, below)) == message + ": "@ + chain_text(
            below,
        ),
    decreases below.len(),
{
    if below.len() > 0 {
        let whole = in_context(message, below);
        assert(whole.last() == below.last());
        assert(whole.drop_last() =~= in_context(message, below.drop_last()));
        if below.len() == 1 {
            assert(whole.drop_last() =~= plain_failure(message));
            assert(chain_text(plain_failure(message)) == message);
        } else {
            law_chain_is_told_whole(message, below.drop_last());
            assert(message + ": "@ + chain_text(below) =~= (message + ": "@ + chain_text(
                below.drop_last(),
            )) + ": "@ + below.last().message);
        }
    }
}

/// Naming what was being done puts it before the causes and keeps them all.
pub proof fn law_context_keeps_the_causes(message: Seq<char>, below: Seq<CauseView>)
    ensures
        in_context(message, below).len() == below.len() + 1,
        in_context(message, below)[0].message == message,
        forall|i: int|
            0 <= i < below.len() ==> in_context(message, below)[i + 1] == #[trigger] below[i],
        plain_failure(message).len() == 1,
        plain_failure(message)[0].message == message,
        !plain_failure(message)[0].interrupted,
{
}

/// A failure is an interruption when one of its causes is, wherever it stands.
pub proof fn law_any_cause_interrupts(causes: Seq<CauseView>)
    ensures
        interrupted(causes) <==> exists|i: int|
            0 <= i < causes.len() && (#[trigger] causes[i]).interrupted,
{
}

/// The views leave nothing out.
pub proof fn law_view_of_a_failure(failure: Failure)
    ensures
        failure@.len() == failure.causes@.len(),
        forall|i: int|
            0 <= i < failure.causes@.len() ==> {
                &&& (#[trigger] failure@[i]).message == failure.causes@[i].message@
                &&& failure@[i].interrupted == failure.causes@[i].interrupted
            },
{
}

/// What the functions on failures give is what was said above of chains of causes.
pub proof fn law_failures_as_values(
    message: String,
    below: Failure,
    made: Failure,
    line: String,
    yes: bool,
)
    ensures
        call_ensures(Failure::new, (message,), made) ==> {
            &&& made@.len() == 1
            &&& made@[0].message == message@
            &&& !made@[0].interrupted
        },
        call_ensures(Failure::context, (below, message), made) ==> {
            &&& made@.len() == below@.len() + 1
            &&& made@[0].message == message@
            &&& !made@[0].interrupted
            &&& made@.skip(1) == below@
        },
        call_ensures(Failure::text, (&below,), line) ==> line@ == chain_text(below@),
        call_ensures(error_is_interrupt, (&below,), yes) ==> (yes <==> exists|i: int|
            0 <= i < below@.len() && (#[trigger] below@[i]).interrupted),
{
    assert(in_context(message@, below@).skip(1) =~= below@);
}

} // verus!
