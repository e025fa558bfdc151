//! The order of the remote calls of one run. The caller performs each call
//! on the remote client and reports what came back; what to do next is
//! decided here.

use crate::error::BotError;
use crate::error::Operation;
use vstd::prelude::*;

verus! {

/// What a run does with the selected post.
#[derive(Clone, Copy, Debug, PartialEq, Eq, Structural)]
pub enum Mode {
    /// Retweet it, after undoing an earlier retweet of it if there is one.
    Retweet,
    /// Publish a new status that links to it.
    Republish,
}

/// How far a run has come.
#[derive(Clone, Copy, Debug, PartialEq, Eq, Structural)]
pub enum Phase {
    /// The post's state is being fetched.
    Fetching,
    /// An earlier retweet is being undone.
    Undoing,
    /// The post is being retweeted.
    Retweeting,
    /// The new status is being published.
    Publishing,
    /// Every call was made and none failed.
    Succeeded,
    /// The given call failed; none was made after it.
    Failed(Operation),
}

/// What the remote client answered to a call.
#[derive(Clone, Copy, Debug, PartialEq, Eq, Structural)]
pub enum Reply {
    /// The call failed.
    Failed,
    /// The call was carried out; it has nothing to report.
    Completed,
    /// The post's state was fetched: whether the viewer has retweeted it.
    State(bool),
}

/// One run on one selected post.
#[derive(Clone, Copy, Debug, PartialEq, Eq, Structural)]
pub struct Dispatch {
    pub id: u64,
    pub phase: Phase,
}

impl Phase {
    /// The call that is to be made in this phase, if the run is not over.
    pub open spec fn spec_pending(self) -> Option<Operation> {
        match self {
            Phase::Fetching => Some(Operation::FetchState),
            Phase::Undoing => Some(Operation::UndoRetweet),
            Phase::Retweeting => Some(Operation::Retweet),
            Phase::Publishing => Some(Operation::Publish),
            Phase::Succeeded => None,
            Phase::Failed(_) => None,
        }
    }

    /// The phase that follows when the pending call was answered by
    /// `reply`. An answer that does not fit the call counts as its failure.
    /// A run that is over stays as it is.
    pub open spec fn spec_after(self, reply: Reply) -> Phase {
        match self {
            Phase::Fetching => match reply {
                Reply::State(true) => Phase::Undoing,
                Reply::State(false) => Phase::Retweeting,
                _ => Phase::Failed(Operation::FetchState),
            },
            Phase::Undoing => match reply {
                Reply::Completed => Phase::Retweeting,
                _ => Phase::Failed(Operation::UndoRetweet),
            },
            Phase::Retweeting => match reply {
                Reply::Completed => Phase::Succeeded,
                _ => Phase::Failed(Operation::Retweet),
            },
            Phase::Publishing => match reply {
                Reply::Completed => Phase::Succeeded,
                _ => Phase::Failed(Operation::Publish),
            },
            Phase::Succeeded => Phase::Succeeded,
            Phase::Failed(operation) => Phase::Failed(operation),
        }
    }
}

impl Dispatch {
    /// The run as it stands before its first call.
    pub open spec fn spec_begin(mode: Mode, id: u64) -> Dispatch {
        Dispatch {
            id,
            phase: match mode {
                Mode::Retweet => Phase::Fetching,
                Mode::Republish => Phase::Publishing,
            },
        }
    }

    pub open spec fn spec_pending(self) -> Option<Operation> {
        self.phase.spec_pending()
    }

    pub open spec fn spec_advance(self, reply: Reply) -> Dispatch {
        Dispatch { id: self.id, phase: self.phase.spec_after(reply) }
    }

    /// The run's result, once it is over.
    pub open spec fn spec_outcome(self) -> Option<Result<(), BotError>> {
        match self.phase {
            Phase::Succeeded => Some(Ok(())),
            Phase::Failed(operation) => Some(Err(BotError::RemoteCallFailure(operation))),
            _ => None,
        }
    }

    /// The run after the answers `replies`, each to the call that was
    /// pending when it came.
    pub open spec fn spec_run(self, replies: Seq<Reply>) -> Dispatch
        decreases replies.len(),
    {
        if replies.len() == 0 {
            self
        } else {
            self.spec_advance(replies.first()).spec_run(replies.drop_first())
        }
    }

    /// The calls that are made, in order, while the answers `replies` come
    /// in: the pending call, then the one pending after its answer, and so
    /// on until the answers or the run are at an end.
    pub open spec fn spec_calls(self, replies: Seq<Reply>) -> Seq<Operation>
        decreases replies.len(),
    {
        if replies.len() == 0 {
            Seq::empty()
        } else {
            match self.spec_pending() {
                None => Seq::empty(),
                Some(operation) => seq![operation] + self.spec_advance(
                    replies.first(),
                ).spec_calls(replies.drop_first()),
            }
        }
    }

    /// Starts a run on the post `id`.
    pub fn begin(mode: Mode, id: u64) -> (run: Dispatch)
        ensures
            run == Dispatch::spec_begin(mode, id),
    {
        let phase = match mode {
            Mode::Retweet => Phase::Fetching,
            Mode::Republish => Phase::Publishing,
        };
        Dispatch { id, phase }
    }

    /// The call to make now on the post `self.id`; `None` once the run is
    /// over.
    pub fn pending(&self) -> (operation: Option<Operation>)
        ensures
            operation == self.spec_pending(),
    {
        match self.phase {
            Phase::Fetching => Some(Operation::FetchState),
            Phase::Undoing => Some(Operation::UndoRetweet),
            Phase::Retweeting => Some(Operation::Retweet),
            Phase::Publishing => Some(Operation::Publish),
            Phase::Succeeded => None,
            Phase::Failed(_) => None,
        }
    }

    /// Takes the answer to the pending call, and gives the run as it then
    /// stands together with the call to make next.
    pub fn advance(self, reply: Reply) -> (next: (Dispatch, Option<Operation>))
        ensures
            next.0 == self.spec_advance(reply),
            next.1 == next.0.spec_pending(),
    {
        let phase = match self.phase {
            Phase::Fetching => match reply {
                Reply::State(true) => Phase::Undoing,
                Reply::State(false) => Phase::Retweeting,
                _ => Phase::Failed(Operation::FetchState),
            },
            Phase::Undoing => match reply {
                Reply::Completed => Phase::Retweeting,
                _ => Phase::Failed(Operation::UndoRetweet),
            },
            Phase::Retweeting => match reply {
                Reply::Completed => Phase::Succeeded,
                _ => Phase::Failed(Operation::Retweet),
            },
            Phase::Publishing => match reply {
                Reply::Completed => Phase::Succeeded,
                _ => Phase::Failed(Operation::Publish),
            },
            Phase::Succeeded => Phase::Succeeded,
            Phase::Failed(operation) => Phase::Failed(operation),
        };
        let next = Dispatch { id: self.id, phase };
        (next, next.pending())
    }

    /// The run's result: `None` while a call is pending.
    pub fn outcome(&self) -> (result: Option<Result<(), BotError>>)
        ensures
            result == self.spec_outcome(),
            result is None <==> self.spec_pending() is Some,
    {
        match self.phase {
            Phase::Succeeded => Some(Ok(())),
            Phase::Failed(operation) => Some(Err(BotError::RemoteCallFailure(operation))),
            _ => None,
        }
    }
}

/// The calls of a retweet run in which nothing fails: the state is
/// fetched, an earlier retweet is undone if there is one, and the post is
/// retweeted.
pub open spec fn retweet_plan(already_retweeted: bool) -> Seq<Operation> {
    if already_retweeted {
        seq![Operation::FetchState, Operation::UndoRetweet, Operation::Retweet]
    } else {
        seq![Operation::FetchState, Operation::Retweet]
    }
}

/// The answers of a retweet run in which nothing fails.
pub open spec fn retweet_answers(already_retweeted: bool) -> Seq<Reply> {
    if already_retweeted {
        seq![Reply::State(true), Reply::Completed, Reply::Completed]
    } else {
        seq![Reply::State(false), Reply::Completed]
    }
}

/// Where the fetched state says that the viewer has retweeted the post,
/// the run undoes the retweet and then retweets, in that order and once
/// each; where it says that the viewer has not, the run only retweets.
/// Either way the run then ends in success.
pub proof fn law_retweet_run(id: u64, already_retweeted: bool)
    ensures
        Dispatch::spec_begin(Mode::Retweet, id).spec_calls(retweet_answers(already_retweeted))
            == retweet_plan(already_retweeted),
        Dispatch::spec_begin(Mode::Retweet, id).spec_run(
            retweet_answers(already_retweeted),
        ).spec_outcome() == Some(Ok::<(), BotError>(())),
{
    let start = Dispatch::spec_begin(Mode::Retweet, id);
    let answers = retweet_answers(already_retweeted);
    reveal_with_fuel(Dispatch::spec_calls, 4);
    reveal_with_fuel(Dispatch::spec_run, 4);
    let a1 = answers.drop_first();
    let a2 = a1.drop_first();
    assert(a1.first() == Reply::Completed);
    if already_retweeted {
        let a3 = a2.drop_first();
        assert(a2.first() == Reply::Completed);
        assert(a3.len() == 0);
        assert(start.spec_calls(answers) =~= retweet_plan(already_retweeted));
    } else {
        assert(a2.len() == 0);
        assert(start.spec_calls(answers) =~= retweet_plan(already_retweeted));
    }
}

/// A republishing run makes one call, to publish, and ends with its
/// answer: in success where it was carried out, else in the failure of
/// that call.
pub proof fn law_republish_run(id: u64, reply: Reply)
    ensures
        Dispatch::spec_begin(Mode::Republish, id).spec_calls(seq![reply]) == seq![
            Operation::Publish,
        ],
        Dispatch::spec_begin(Mode::Republish, id).spec_run(seq![reply]).spec_outcome() == Some(
            if reply == Reply::Completed {
                Ok::<(), BotError>(())
            } else {
                Err::<(), BotError>(BotError::RemoteCallFailure(Operation::Publish))
            },
        ),
{
    let start = Dispatch::spec_begin(Mode::Republish, id);
    let answers = seq![reply];
    reveal_with_fuel(Dispatch::spec_calls, 2);
    reveal_with_fuel(Dispatch::spec_run, 2);
    assert(answers.drop_first().len() == 0);
    assert(start.spec_calls(answers) =~= seq![Operation::Publish]);
}

/// A run that is over makes no further call and stays as it is, whatever
/// is reported to it.
pub proof fn law_over_is_final(run: Dispatch, replies: Seq<Reply>)
    requires
        run.spec_pending() is None,
    ensures
        run.spec_run(replies) == run,
        run.spec_calls(replies) == Seq::<Operation>::empty(),
    decreases replies.len(),
{
    if replies.len() > 0 {
        law_over_is_final(run.spec_advance(replies.first()), replies.drop_first());
    }
}

/// Whatever the answers, a retweet run makes its calls in the order of the
/// plan that the fetched state calls for, each at most once. Where it ends
/// in success it has made them all; where it ends in failure, the call
/// that failed is the last it made.
pub proof fn law_retweet_calls_follow_plan(id: u64, replies: Seq<Reply>)
    requires
        replies.len() > 0,
    ensures
        ({
            let start = Dispatch::spec_begin(Mode::Retweet, id);
            let calls = start.spec_calls(replies);
            let plan = retweet_plan(replies[0] == Reply::State(true));
            &&& 0 < calls.len() <= plan.len()
            &&& calls == plan.take(calls.len() as int)
            &&& start.spec_run(replies).phase == Phase::Succeeded ==> calls == plan
            &&& forall|operation: Operation|
                start.spec_run(replies).phase == Phase::Failed(operation) ==> calls.last()
                    == operation
        }),
{
    let start = Dispatch::spec_begin(Mode::Retweet, id);
    let plan = retweet_plan(replies[0] == Reply::State(true));
    let r1 = replies.drop_first();
    let d1 = start.spec_advance(replies.first());
    assert(start.spec_calls(replies) == seq![Operation::FetchState] + d1.spec_calls(r1));
    assert(start.spec_run(replies) == d1.spec_run(r1));
    if d1.spec_pending() is None || r1.len() == 0 {
        if d1.spec_pending() is None {
            law_over_is_final(d1, r1);
        }
        assert(d1.spec_calls(r1) =~= Seq::<Operation>::empty());
        assert(start.spec_calls(replies) =~= plan.take(1));
    } else {
        let r2 = r1.drop_first();
        let d2 = d1.spec_advance(r1.first());
        let second = d1.spec_pending()->Some_0;
        assert(d1.spec_calls(r1) == seq![second] + d2.spec_calls(r2));
        assert(d1.spec_run(r1) == d2.spec_run(r2));
        if d2.spec_pending() is None || r2.len() == 0 {
            if d2.spec_pending() is None {
                law_over_is_final(d2, r2);
            }
            assert(d2.spec_calls(r2) =~= Seq::<Operation>::empty());
            assert(start.spec_calls(replies) =~= plan.take(2));
        } else {
            let r3 = r2.drop_first();
            let d3 = d2.spec_advance(r2.first());
            assert(d2.spec_calls(r2) == seq![Operation::Retweet] + d3.spec_calls(r3));
            assert(d2.spec_run(r2) == d3.spec_run(r3));
            law_over_is_final(d3, r3);
            assert(start.spec_calls(replies) =~= plan.take(3));
            assert(plan.take(3) =~= plan);
        }
    }
}

} // verus!
