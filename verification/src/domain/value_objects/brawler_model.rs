//! A brawler as shown on a mission's roster.

use vstd::prelude::*;
use vstd::string::*;

verus! {

/// One line of a roster.
#[derive(Clone, Debug, PartialEq, Eq)]
pub struct BrawlerModel {
    pub display_name: String,
    /// The address of the brawler's picture; empty where there is none.
    pub avatar_url: String,
    /// On how many completed missions the brawler was on the crew.
    pub mission_success_count: i64,
    /// On how many missions the brawler is on the crew.
    pub mission_joined_count: i64,
}

/// What a [`BrawlerModel`] holds, as mathematical values.
pub struct BrawlerModelView {
    pub display_name: Seq<char>,
    pub avatar_url: Seq<char>,
    pub mission_success_count: i64,
    pub mission_joined_count: i64,
}

impl View for BrawlerModel {
    type V = BrawlerModelView;

    open spec fn view(&self) -> BrawlerModelView {
        BrawlerModelView {
            display_name: self.display_name@,
            avatar_url: self.avatar_url@,
            mission_success_count: self.mission_success_count,
            mission_joined_count: self.mission_joined_count,
        }
    }
}

} // verus!
