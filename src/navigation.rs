use vstd::prelude::*;

use crate::error::Error;

verus! {

/// How far a navigation has come.
#[derive(Clone, Copy, Debug, PartialEq, Eq, Structural)]
pub enum NavStage {
    /// The content area is to be blanked.
    Clearing,
    /// The destination is to be fetched, and the response handed to the page.
    Fetching,
    /// The content area is to be drawn from the page's display items.
    Rendering,
    /// The navigation has ended.
    Finished,
}

/// The work that the host is to do next for a navigation.
#[derive(Clone, Debug, PartialEq, Eq)]
pub enum NavAction {
    /// Run the plan that blanks the content area.
    ClearContent,
    /// Fetch this destination and hand the response to the page.
    Fetch(String),
    /// Run the plan that draws the page's display items.
    Render,
}

/// One navigation to a destination: blank the content area, fetch, hand the
/// response to the page, draw it. The first step that fails ends it with that
/// step's error, unchanged.
#[derive(Debug)]
pub struct Navigation {
    destination: String,
    stage: NavStage,
}

/// The stage that follows `stage` when its work succeeded.
pub open spec fn next_stage(stage: NavStage) -> NavStage {
    match stage {
        NavStage::Clearing => NavStage::Fetching,
        NavStage::Fetching => NavStage::Rendering,
        _ => NavStage::Finished,
    }
}

impl Navigation {
    pub closed spec fn spec_destination(&self) -> Seq<char> {
        self.destination@
    }

    pub closed spec fn spec_stage(&self) -> NavStage {
        self.stage
    }

    /// A navigation to `destination` that has not begun.
    pub fn new(destination: String) -> (r: Self)
        ensures
            r.spec_destination() == destination@,
            r.spec_stage() == NavStage::Clearing,
    {
        Navigation { destination, stage: NavStage::Clearing }
    }

    pub fn stage(&self) -> (r: NavStage)
        ensures
            r == self.spec_stage(),
    {
        self.stage
    }

    /// The work of the current stage.
    pub fn action(&self) -> (r: NavAction)
        requires
            self.spec_stage() != NavStage::Finished,
        ensures
            self.spec_stage() == NavStage::Clearing ==> r == NavAction::ClearContent,
            self.spec_stage() == NavStage::Fetching ==> (r matches NavAction::Fetch(d)
                && d@ == self.spec_destination()),
            self.spec_stage() == NavStage::Rendering ==> r == NavAction::Render,
    {
        match self.stage {
            NavStage::Clearing => NavAction::ClearContent,
            NavStage::Fetching => NavAction::Fetch(self.destination.clone()),
            _ => NavAction::Render,
        }
    }

    /// Takes the outcome of the current stage's work. Returns the result of
    /// the whole navigation once it has ended: the first error, unchanged, or
    /// success after the content area was drawn.
    pub fn record(&mut self, outcome: Result<(), Error>) -> (r: Option<Result<(), Error>>)
        requires
            old(self).spec_stage() != NavStage::Finished,
        ensures
            final(self).spec_destination() == old(self).spec_destination(),
            outcome is Err ==> final(self).spec_stage() == NavStage::Finished && r == Some(
                outcome,
            ),
            outcome is Ok ==> final(self).spec_stage() == next_stage(old(self).spec_stage()),
            outcome is Ok && old(self).spec_stage() != NavStage::Rendering ==> r is None,
            outcome is Ok && old(self).spec_stage() == NavStage::Rendering ==> r == Some(
                outcome,
            ),
    {
        if outcome.is_err() {
            self.stage = NavStage::Finished;
            return Some(outcome);
        }
        match self.stage {
            NavStage::Clearing => {
                self.stage = NavStage::Fetching;
                None
            },
            NavStage::Fetching => {
                self.stage = NavStage::Rendering;
                None
            },
            _ => {
                self.stage = NavStage::Finished;
                Some(outcome)
            },
        }
    }
}

} // verus!
