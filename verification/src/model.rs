//! References to nested domain objects, reduced to what the pipeline reads.
//!
//! Remote responses carry rich nested objects; the flattening only ever
//! reads one natural key from each, so each reference type holds exactly
//! that key.

use vstd::prelude::*;

verus! {

/// A reference to a user: only the numeric identifier survives flattening.
#[derive(Clone, Copy, PartialEq, Eq, Structural, Debug)]
pub struct UserRef {
    pub id: i64,
}

/// A reference to an issue: only the numeric identifier survives flattening.
#[derive(Clone, Copy, PartialEq, Eq, Structural, Debug)]
pub struct IssueRef {
    pub id: i64,
}

impl DeepView for UserRef {
    type V = UserRef;

    open spec fn deep_view(&self) -> UserRef {
        *self
    }
}

impl DeepView for IssueRef {
    type V = IssueRef;

    open spec fn deep_view(&self) -> IssueRef {
        *self
    }
}

/// A reference to a milestone: only the title survives flattening.
pub struct MilestoneRef {
    pub title: String,
}

/// Ghost image of a milestone reference.
pub ghost struct MilestoneRefV {
    pub title: Seq<char>,
}

impl View for MilestoneRef {
    type V = MilestoneRefV;

    open spec fn view(&self) -> MilestoneRefV {
        MilestoneRefV { title: self.title@ }
    }
}

impl DeepView for MilestoneRef {
    type V = MilestoneRefV;

    open spec fn deep_view(&self) -> MilestoneRefV {
        self@
    }
}

/// A reference to a project card: only the url survives flattening.
pub struct ProjectCardRef {
    pub url: String,
}

/// Ghost image of a project-card reference.
pub ghost struct ProjectCardRefV {
    pub url: Seq<char>,
}

impl View for ProjectCardRef {
    type V = ProjectCardRefV;

    open spec fn view(&self) -> ProjectCardRefV {
        ProjectCardRefV { url: self.url@ }
    }
}

impl DeepView for ProjectCardRef {
    type V = ProjectCardRefV;

    open spec fn deep_view(&self) -> ProjectCardRefV {
        self@
    }
}

} // verus!
