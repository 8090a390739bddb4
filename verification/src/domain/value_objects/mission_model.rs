//! A mission as callers see it, and the requests to post or edit one.

use crate::domain::entities::missions::{AddMissionEntity, EditMissionEntity};
use crate::domain::value_objects::mission_error::MissionError;
use crate::domain::value_objects::mission_statuses::MissionStatuses;
use crate::domain::value_objects::text::{trim, trimmed};
use vstd::prelude::*;
use vstd::string::*;
use vstd::utf8::encode_utf8;

verus! {

/// The text of an optional string.
pub open spec fn optional_text(text: Option<String>) -> Option<Seq<char>> {
    match text {
        Some(s) => Some(s@),
        None => None,
    }
}

/// A copy of an optional string.
pub fn clone_optional(text: &Option<String>) -> (copy: Option<String>)
    ensures
        copy == *text,
{
    match text {
        Some(s) => Some(s.clone()),
        None => None,
    }
}

/// A mission together with what is derived for a reader: the size of its
/// crew and the display name of its chief.
#[derive(Debug, PartialEq, Eq)]
pub struct MissionModel {
    pub id: i32,
    pub name: String,
    pub description: Option<String>,
    pub status: MissionStatuses,
    pub chief_id: i32,
    pub chief_display_name: String,
    pub crew_count: i64,
    pub created_at: i64,
    pub updated_at: i64,
    pub category: String,
}

/// What a [`MissionModel`] holds, as mathematical values.
pub struct MissionModelView {
    pub id: i32,
    pub name: Seq<char>,
    pub description: Option<Seq<char>>,
    pub status: MissionStatuses,
    pub chief_id: i32,
    pub chief_display_name: Seq<char>,
    pub crew_count: i64,
    pub created_at: i64,
    pub updated_at: i64,
    pub category: Seq<char>,
}

impl View for MissionModel {
    type V = MissionModelView;

    open spec fn view(&self) -> MissionModelView {
        MissionModelView {
            id: self.id,
            name: self.name@,
            description: optional_text(self.description),
            status: self.status,
            chief_id: self.chief_id,
            chief_display_name: self.chief_display_name@,
            crew_count: self.crew_count,
            created_at: self.created_at,
            updated_at: self.updated_at,
            category: self.category@,
        }
    }
}

impl Clone for MissionModel {
    fn clone(&self) -> (copy: MissionModel)
        ensures
            copy == *self,
    {
        MissionModel {
            id: self.id,
            name: self.name.clone(),
            description: clone_optional(&self.description),
            status: self.status,
            chief_id: self.chief_id,
            chief_display_name: self.chief_display_name.clone(),
            crew_count: self.crew_count,
            created_at: self.created_at,
            updated_at: self.updated_at,
            category: self.category.clone(),
        }
    }
}

/// A mission name is acceptable when, with the white space at its ends
/// dropped, it is at least three bytes long in UTF-8.
pub open spec fn acceptable_name(name: Seq<char>) -> bool {
    encode_utf8(trimmed(name)).len() >= 3
}

/// Whether a mission name is acceptable.
pub fn is_acceptable_name(name: &str) -> (ok: bool)
    ensures
        ok == acceptable_name(name@),
{
    trim(name).as_bytes().len() >= 3
}

/// A chief's request to post a mission.
#[derive(Clone, Debug, PartialEq, Eq)]
pub struct AddMissionModel {
    pub name: String,
    pub description: Option<String>,
    pub category: String,
}

impl AddMissionModel {
    /// The record to store for this request: an open mission of `chief_id`.
    pub open spec fn entity(&self, chief_id: i32) -> AddMissionEntity {
        AddMissionEntity {
            chief_id,
            name: self.name,
            status: MissionStatuses::Open,
            description: self.description,
            category: self.category,
        }
    }

    pub fn to_entity(&self, chief_id: i32) -> (entity: AddMissionEntity)
        ensures
            entity == self.entity(chief_id),
    {
        AddMissionEntity {
            chief_id,
            name: self.name.clone(),
            status: MissionStatuses::Open,
            description: clone_optional(&self.description),
            category: self.category.clone(),
        }
    }
}

/// A chief's request to change a mission. A field that is `None` stays as
/// it is.
#[derive(Clone, Debug, PartialEq, Eq)]
pub struct EditMissionModel {
    pub name: Option<String>,
    pub description: Option<String>,
    pub category: Option<String>,
}

/// What an edit makes of the name it was given: no name, or one of white
/// space only, changes nothing; a name that is too short is refused; any
/// other name is taken without the white space at its ends.
pub open spec fn edited_name(name: Option<Seq<char>>) -> Result<Option<Seq<char>>, MissionError> {
    match name {
        None => Ok(None),
        Some(n) => if trimmed(n).len() == 0 {
            Ok(None)
        } else if !acceptable_name(n) {
            Err(MissionError::InvalidName)
        } else {
            Ok(Some(trimmed(n)))
        },
    }
}

impl EditMissionModel {
    /// The name as the edit will store it; see [`edited_name`].
    pub fn normalized_name(&self) -> (r: Result<Option<String>, MissionError>)
        ensures
            match r {
                Ok(name) => edited_name(optional_text(self.name)) == Ok::<
                    Option<Seq<char>>,
                    MissionError,
                >(optional_text(name)),
                Err(e) => edited_name(optional_text(self.name)) == Err::<
                    Option<Seq<char>>,
                    MissionError,
                >(e),
            },
    {
        match &self.name {
            None => Ok(None),
            Some(name) => {
                let kept = trim(name.as_str());
                if kept.is_empty() {
                    Ok(None)
                } else if kept.as_bytes().len() < 3 {
                    Err(MissionError::InvalidName)
                } else {
                    Ok(Some(String::from_str(kept)))
                }
            },
        }
    }

    /// The changes to store for this request, made in the name of `chief_id`.
    pub open spec fn entity(&self, chief_id: i32) -> EditMissionEntity {
        EditMissionEntity {
            chief_id,
            name: self.name,
            description: self.description,
            category: self.category,
        }
    }

    pub fn to_entity(&self, chief_id: i32) -> (entity: EditMissionEntity)
        ensures
            entity == self.entity(chief_id),
    {
        EditMissionEntity {
            chief_id,
            name: clone_optional(&self.name),
            description: clone_optional(&self.description),
            category: clone_optional(&self.category),
        }
    }
}

} // verus!
