//! Projects and their closed integer-coded type tag.

use vstd::prelude::*;

verus! {

/// Type of project.
#[derive(Clone, Copy, PartialEq, Eq, Structural, Debug)]
pub enum ProjectTy {
    Legacy,
}

impl ProjectTy {
    pub open spec fn spec_value(self) -> i64 {
        match self {
            ProjectTy::Legacy => 0,
        }
    }

    pub fn value(self) -> (r: i64)
        ensures
            r == self.spec_value(),
    {
        match self {
            ProjectTy::Legacy => 0,
        }
    }

    pub open spec fn spec_from_bits(v: i64) -> Option<ProjectTy> {
        if v == 0 {
            Some(ProjectTy::Legacy)
        } else {
            None
        }
    }

    /// Obtain the tag from its integer encoding; the precondition excludes
    /// values outside the catalog (a corrupt store or stale code).
    pub fn from_bits(v: i64) -> (r: Self)
        requires
            ProjectTy::spec_from_bits(v) is Some,
        ensures
            Some(r) == ProjectTy::spec_from_bits(v),
    {
        ProjectTy::Legacy
    }

    pub fn try_from_bits(v: i64) -> (r: Option<Self>)
        ensures
            r == ProjectTy::spec_from_bits(v),
    {
        if v == 0 {
            Some(ProjectTy::Legacy)
        } else {
            None
        }
    }

    pub open spec fn spec_as_str(self) -> Seq<char> {
        match self {
            ProjectTy::Legacy => "Legacy"@,
        }
    }

    pub fn as_str(self) -> (r: &'static str)
        ensures
            r@ == self.spec_as_str(),
    {
        match self {
            ProjectTy::Legacy => "Legacy",
        }
    }
}

} // verus!
