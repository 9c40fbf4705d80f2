//! Jurisdictions and source categories with their stable codes.
use vstd::prelude::*;

use crate::text::str_eq;

verus! {

/// Geographic jurisdiction for a tracked source or normalized policy record.
#[derive(Clone, Copy, Debug, PartialEq, Eq, Structural)]
pub enum Region {
    UnitedStates,
    Canada,
    Global,
}

/// The stable code of a region.
pub open spec fn region_code(r: Region) -> Seq<char> {
    match r {
        Region::UnitedStates => "us"@,
        Region::Canada => "ca"@,
        Region::Global => "global"@,
    }
}

/// The region whose code is exactly `code`, if any.
pub open spec fn region_from_code(code: Seq<char>) -> Option<Region> {
    if code == "us"@ {
        Some(Region::UnitedStates)
    } else if code == "ca"@ {
        Some(Region::Canada)
    } else if code == "global"@ {
        Some(Region::Global)
    } else {
        None
    }
}

impl Region {
    /// Returns the stable code used in external contracts and persistence.
    pub fn as_code(self) -> (code: &'static str)
        ensures
            code@ == region_code(self),
    {
        match self {
            Region::UnitedStates => "us",
            Region::Canada => "ca",
            Region::Global => "global",
        }
    }

    /// Parses a persisted region code without accepting aliases.
    pub fn from_code(code: &str) -> (r: Option<Region>)
        ensures
            r == region_from_code(code@),
    {
        if str_eq(code, "us") {
            Some(Region::UnitedStates)
        } else if str_eq(code, "ca") {
            Some(Region::Canada)
        } else if str_eq(code, "global") {
            Some(Region::Global)
        } else {
            None
        }
    }
}

/// Distinguishes government-policy sources from AI-news sources.
#[derive(Clone, Copy, Debug, PartialEq, Eq, Structural)]
pub enum SourceCategory {
    Policy,
    News,
}

/// The stable code of a source category.
pub open spec fn category_code(c: SourceCategory) -> Seq<char> {
    match c {
        SourceCategory::Policy => "policy"@,
        SourceCategory::News => "news"@,
    }
}

/// The category whose code is exactly `code`, if any.
pub open spec fn category_from_code(code: Seq<char>) -> Option<SourceCategory> {
    if code == "policy"@ {
        Some(SourceCategory::Policy)
    } else if code == "news"@ {
        Some(SourceCategory::News)
    } else {
        None
    }
}

impl SourceCategory {
    /// Returns the stable database and API code for this category.
    pub fn as_code(self) -> (code: &'static str)
        ensures
            code@ == category_code(self),
    {
        match self {
            SourceCategory::Policy => "policy",
            SourceCategory::News => "news",
        }
    }

    /// Parses a persisted category code without accepting aliases.
    pub fn from_code(code: &str) -> (r: Option<SourceCategory>)
        ensures
            r == category_from_code(code@),
    {
        if str_eq(code, "policy") {
            Some(SourceCategory::Policy)
        } else if str_eq(code, "news") {
            Some(SourceCategory::News)
        } else {
            None
        }
    }
}

/// Every region's code parses back to that region, and a code parses only to
/// the region whose code it is: region codes round-trip and admit no aliases.
pub proof fn lemma_region_code_round_trip(r: Region, code: Seq<char>)
    ensures
        region_from_code(region_code(r)) == Some(r),
        region_from_code(code) == Some(r) ==> code == region_code(r),
{
    reveal_strlit("us");
    reveal_strlit("ca");
    reveal_strlit("global");
    assert("us"@[0] != "ca"@[0]);
    assert("us"@.len() != "global"@.len());
    assert("ca"@.len() != "global"@.len());
}

/// Every category's code parses back to that category, and a code parses only
/// to the category whose code it is.
pub proof fn lemma_category_code_round_trip(c: SourceCategory, code: Seq<char>)
    ensures
        category_from_code(category_code(c)) == Some(c),
        category_from_code(code) == Some(c) ==> code == category_code(c),
{
    reveal_strlit("policy");
    reveal_strlit("news");
    assert("policy"@.len() != "news"@.len());
}

} // verus!
