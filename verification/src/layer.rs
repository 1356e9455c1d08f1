//! The layer that shows a surface, and the scale that it is shown at.

use crate::call::{Call, Query, Reply, ReplyKind, SCALE_ONE};
use crate::machine::{ready, Machine, Stage, Step};
use crate::window::NIL;
use vstd::prelude::*;

verus! {

/// The calls that have a layer show an `IOSurface`.
pub open spec fn showing(layer: usize, io_surface: usize, scale: u64) -> Seq<Call> {
    seq![
        Call::SetContentsScale { layer, scale },
        Call::SetContents { layer, io_surface },
    ]
}

/// Has a layer show an `IOSurface`.
pub fn set_layer_contents(layer: usize, io_surface: usize, scale: u64) -> (calls: Vec<Call>)
    ensures
        calls@ == showing(layer, io_surface, scale),
{
    vec![
        Call::SetContentsScale { layer, scale },
        Call::SetContents { layer, io_surface },
    ]
}

/// The backing scale of a view that is being looked up.
#[derive(Clone, Copy, Debug, PartialEq, Eq)]
pub enum BackingScale {
    /// Waits for the window that the view is in.
    Window,
    /// Waits for the window's factor.
    Factor,
}

impl BackingScale {
    /// What the lookup wants first.
    pub open spec fn begin(view: usize) -> Stage<BackingScale, u64> {
        Stage::Ask { calls: seq![], query: Query::WindowOf { view }, next: BackingScale::Window }
    }
}

/// Looks up the backing scale of a view: that of the window that it is in, and
/// one if it is in none.
pub fn backing_scale(view: usize) -> (step: Step<BackingScale, u64>)
    ensures
        step@ == BackingScale::begin(view),
        ready(step@),
{
    Step::Ask { calls: vec![], query: Query::WindowOf { view }, next: BackingScale::Window }
}

impl Machine for BackingScale {
    type Outcome = u64;

    open spec fn awaits(self) -> ReplyKind {
        match self {
            BackingScale::Window => ReplyKind::Object,
            BackingScale::Factor => ReplyKind::Scale,
        }
    }

    open spec fn well_formed(self) -> bool {
        true
    }

    open spec fn sound(outcome: u64) -> bool {
        true
    }

    open spec fn transition(self, reply: Reply) -> Stage<Self, u64> {
        match self {
            BackingScale::Window => {
                let window = reply->Object_0;
                if window == NIL {
                    Stage::Finish { calls: seq![], result: SCALE_ONE }
                } else {
                    Stage::Ask {
                        calls: seq![],
                        query: Query::BackingScaleOf { window },
                        next: BackingScale::Factor,
                    }
                }
            },
            BackingScale::Factor => Stage::Finish { calls: seq![], result: reply->Scale_0 },
        }
    }

    proof fn lemma_transition(self, reply: Reply) {
    }

    fn resume(self, reply: Reply) -> (step: Step<Self, u64>) {
        match self {
            BackingScale::Window => {
                let window = reply.object();
                if window == NIL {
                    Step::Finish { calls: vec![], result: SCALE_ONE }
                } else {
                    Step::Ask {
                        calls: vec![],
                        query: Query::BackingScaleOf { window },
                        next: BackingScale::Factor,
                    }
                }
            },
            BackingScale::Factor => Step::Finish { calls: vec![], result: reply.scale() },
        }
    }
}

} // verus!
