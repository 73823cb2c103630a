//! What all workflows have in common.

use vstd::prelude::*;
use crate::ledger::storage::{respond, Reply, Session, Step};

verus! {

/// A workflow: from its state and the reply to its last command it decides
/// its next state and what the caller does next.
pub trait Workflow: Sized {
    /// What the workflow returns where it succeeds.
    type Output;

    /// The state and the step that follow a reply.
    spec fn next(self, reply: Reply) -> (Self, Step<Self::Output>);

    /// Takes the reply to the command that the workflow gave last, and says
    /// what to do next.
    fn advance(self, reply: Reply) -> (r: (Self, Step<Self::Output>))
        ensures
            r == self.next(reply),
    ;
}

/// The session and the step that a workflow reaches on a storage session
/// within `fuel` commands: the session runs each command and the workflow
/// takes each reply, until the workflow is done.
pub open spec fn run<W: Workflow>(
    workflow: W,
    step: Step<W::Output>,
    session: Session,
    fuel: nat,
) -> (Session, Step<W::Output>)
    decreases fuel,
{
    match step {
        Step::Done(_) => (session, step),
        Step::Run(command) => if fuel == 0 {
            (session, step)
        } else {
            let (answered, reply) = respond(session, command);
            let (advanced, following) = workflow.next(reply);
            run(advanced, following, answered, (fuel - 1) as nat)
        },
    }
}

} // verus!
