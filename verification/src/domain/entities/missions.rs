//! The mission as it is stored, and the records that post and change one.

use crate::domain::value_objects::mission_model::{
    clone_optional,
    optional_text,
    MissionModel,
    MissionModelView,
};
use crate::domain::value_objects::mission_statuses::MissionStatuses;
use vstd::prelude::*;
use vstd::string::*;

verus! {

/// A stored mission. Times are microseconds since the Unix epoch.
#[derive(Clone, Debug, PartialEq, Eq)]
pub struct MissionEntity {
    pub id: i32,
    pub chief_id: i32,
    pub name: String,
    pub status: MissionStatuses,
    pub description: Option<String>,
    pub created_at: i64,
    pub updated_at: i64,
    pub deleted_at: Option<i64>,
    pub category: String,
}

impl MissionEntity {
    /// The mission as a reader sees it, given the two values that are
    /// derived from other records.
    pub open spec fn model(&self, crew_count: i64, chief_display_name: Seq<char>)
        -> MissionModelView {
        MissionModelView {
            id: self.id,
            name: self.name@,
            description: optional_text(self.description),
            status: self.status,
            chief_id: self.chief_id,
            chief_display_name,
            crew_count,
            created_at: self.created_at,
            updated_at: self.updated_at,
            category: self.category@,
        }
    }

    pub fn to_model(&self, crew_count: i64, chief_display_name: String) -> (model: MissionModel)
        ensures
            model@ == self.model(crew_count, chief_display_name@),
    {
        MissionModel {
            id: self.id,
            name: self.name.clone(),
            description: clone_optional(&self.description),
            status: self.status,
            chief_id: self.chief_id,
            chief_display_name,
            crew_count,
            created_at: self.created_at,
            updated_at: self.updated_at,
            category: self.category.clone(),
        }
    }
}

/// The record that posts a mission.
#[derive(Clone, Debug, PartialEq, Eq)]
pub struct AddMissionEntity {
    pub chief_id: i32,
    pub name: String,
    pub status: MissionStatuses,
    pub description: Option<String>,
    pub category: String,
}

/// The record that changes a mission; a field that is `None` is left alone.
#[derive(Clone, Debug, PartialEq, Eq)]
pub struct EditMissionEntity {
    pub chief_id: i32,
    pub name: Option<String>,
    pub description: Option<String>,
    pub category: Option<String>,
}

} // verus!
