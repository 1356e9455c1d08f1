//! Operations that alternate between deciding and asking.
//!
//! An operation is a machine: it names the calls to make, asks one question,
//! and goes on with the answer, until it has finished.

use crate::call::{Call, Query, Reply, ReplyKind};
use vstd::prelude::*;

verus! {

/// What an operation wants next.
#[derive(Debug)]
pub enum Step<S, R> {
    /// Make `calls` in order, then put `query`, and hand its result to `next`.
    Ask { calls: Vec<Call>, query: Query, next: S },
    /// Make `calls` in order; the operation has then finished with `result`.
    Finish { calls: Vec<Call>, result: R },
}

/// The view of a [`Step`].
#[verifier::ext_equal]
pub enum Stage<S, R> {
    Ask { calls: Seq<Call>, query: Query, next: S },
    Finish { calls: Seq<Call>, result: R },
}

impl<S, R> View for Step<S, R> {
    type V = Stage<S, R>;

    open spec fn view(&self) -> Stage<S, R> {
        match *self {
            Step::Ask { calls, query, next } => Stage::Ask { calls: calls@, query, next },
            Step::Finish { calls, result } => Stage::Finish { calls: calls@, result },
        }
    }
}

/// The query of `stage`, if it has one, is put to a machine that waits for what
/// the query gives, and the machine or the result is as it should be.
pub open spec fn in_order<S, R>(
    stage: Stage<S, R>,
    awaits: spec_fn(S) -> ReplyKind,
    machine: spec_fn(S) -> bool,
    result: spec_fn(R) -> bool,
) -> bool {
    match stage {
        Stage::Ask { query, next, .. } => query.kind() == awaits(next) && machine(next),
        Stage::Finish { result: finished, .. } => result(finished),
    }
}

/// An operation that waits for the result of a query.
pub trait Machine: Sized {
    type Outcome;

    /// The kind of result that it waits for.
    spec fn awaits(self) -> ReplyKind;

    /// What it has so far is sound.
    spec fn well_formed(self) -> bool;

    /// What it finishes with is sound.
    spec fn sound(outcome: Self::Outcome) -> bool;

    /// What it wants once it has the result.
    spec fn transition(self, reply: Reply) -> Stage<Self, Self::Outcome>;

    /// A query is put to a machine that waits for what the query gives, and
    /// what is sound stays sound.
    proof fn lemma_transition(self, reply: Reply)
        requires
            reply.kind() == self.awaits(),
        ensures
            in_order(
                self.transition(reply),
                |next: Self| next.awaits(),
                |next: Self| self.well_formed() ==> next.well_formed(),
                |result: Self::Outcome| self.well_formed() ==> Self::sound(result),
            ),
    ;

    /// Goes on with the result of the query.
    fn resume(self, reply: Reply) -> (step: Step<Self, Self::Outcome>)
        requires
            reply.kind() == self.awaits(),
        ensures
            step@ == self.transition(reply),
            in_order(
                step@,
                |next: Self| next.awaits(),
                |next: Self| self.well_formed() ==> next.well_formed(),
                |result: Self::Outcome| self.well_formed() ==> Self::sound(result),
            ),
    ;
}

/// The first query is put to a machine that waits for what the query gives, and
/// all is sound.
pub open spec fn ready<M: Machine>(stage: Stage<M, M::Outcome>) -> bool {
    in_order(
        stage,
        |next: M| next.awaits(),
        |next: M| next.well_formed(),
        |result: M::Outcome| M::sound(result),
    )
}

/// What was done: a call that was made, or a query and its result.
pub enum Act {
    Call(Call),
    Query(Query, Reply),
}

/// Calls as acts.
pub open spec fn acts(calls: Seq<Call>) -> Seq<Act> {
    calls.map_values(|call: Call| Act::Call(call))
}

/// What is done when `calls` are made, `query` has the result `reply`, and
/// `rest` follows.
pub open spec fn asked(calls: Seq<Call>, query: Query, reply: Reply, rest: Seq<Act>) -> Seq<Act> {
    acts(calls) + seq![Act::Query(query, reply)] + rest
}

/// All that is done from `stage` on when the queries have the results
/// `replies`, and the result of the operation if they suffice for one. Results
/// that are not asked for are left over.
pub open spec fn run<M: Machine>(stage: Stage<M, M::Outcome>, replies: Seq<Reply>) -> (
    Seq<Act>,
    Option<M::Outcome>,
)
    decreases replies.len(),
{
    match stage {
        Stage::Finish { calls, result } => (acts(calls), Some(result)),
        Stage::Ask { calls, query, next } => if replies.len() == 0 {
            (acts(calls), None)
        } else {
            let rest = run(next.transition(replies[0]), replies.drop_first());
            (asked(calls, query, replies[0], rest.0), rest.1)
        },
    }
}

/// Results to come: `reply` first, then `rest`.
pub open spec fn then_replies(reply: Reply, rest: Seq<Reply>) -> Seq<Reply> {
    seq![reply] + rest
}

/// A run goes on with the first result.
pub proof fn lemma_run_ask<M: Machine>(calls: Seq<Call>, query: Query, next: M, reply: Reply, rest: Seq<Reply>)
    ensures
        run(Stage::Ask { calls, query, next }, then_replies(reply, rest)) == (
            asked(calls, query, reply, run(next.transition(reply), rest).0),
            run(next.transition(reply), rest).1,
        ),
{
    assert(then_replies(reply, rest).drop_first() =~= rest);
}

/// A machine that runs within another one: what the inner one asks, the outer
/// one asks, and the inner one gets the result.
pub open spec fn nests<I: Machine, M: Machine>(
    embed: spec_fn(Stage<I, I::Outcome>) -> Stage<M, M::Outcome>,
    wrap: spec_fn(I) -> M,
) -> bool {
    &&& forall|calls: Seq<Call>, query: Query, next: I| #[trigger]
        embed(Stage::Ask { calls, query, next }) == (Stage::<M, M::Outcome>::Ask {
            calls,
            query,
            next: wrap(next),
        })
    &&& forall|next: I, reply: Reply| #[trigger]
        wrap(next).transition(reply) == embed(next.transition(reply))
}

/// A run goes on with the first result, which goes to the inner machine.
pub proof fn lemma_run_nested<I: Machine, M: Machine>(
    embed: spec_fn(Stage<I, I::Outcome>) -> Stage<M, M::Outcome>,
    wrap: spec_fn(I) -> M,
    calls: Seq<Call>,
    query: Query,
    next: I,
    reply: Reply,
    rest: Seq<Reply>,
)
    requires
        nests(embed, wrap),
    ensures
        run(embed(Stage::Ask { calls, query, next }), then_replies(reply, rest)) == (
            asked(calls, query, reply, run(embed(next.transition(reply)), rest).0),
            run(embed(next.transition(reply)), rest).1,
        ),
{
    lemma_run_ask(calls, query, wrap(next), reply, rest);
}

} // verus!
