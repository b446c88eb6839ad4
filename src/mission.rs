use vstd::prelude::*;

use crate::mission_statuses::{status_text, MissionStatuses};
use crate::text::{contains_seq, contains_text, lower_of, lowercase_text, text_eq};

verus! {

/// One crew membership: a brawler in a mission's crew.
#[derive(Debug, Clone, Copy, PartialEq, Eq, Structural)]
pub struct CrewMemberShips {
    pub brawler_id: i32,
    pub mission_id: i32,
}

/// A stored mission record. Timestamps are microseconds since the Unix epoch.
#[derive(Debug)]
pub struct MissionEntity {
    pub id: i32,
    pub chief_id: i32,
    pub name: String,
    pub status: String,
    pub description: Option<String>,
    pub created_at: i64,
    pub updated_at: i64,
    pub deleted_at: Option<i64>,
}

/// The fields of a mission about to be inserted.
#[derive(Debug)]
pub struct AddMissionEntity {
    pub chief_id: i32,
    pub name: String,
    pub status: String,
    pub description: Option<String>,
}

/// A change set for a mission; `None` fields are left as they are.
#[derive(Debug)]
pub struct EditMissionEntity {
    pub chief_id: i32,
    pub name: Option<String>,
    pub description: Option<String>,
}

/// A mission as shown to callers, with its live crew count.
#[derive(Debug)]
pub struct MissionModel {
    pub id: i32,
    pub name: String,
    pub description: Option<String>,
    pub status: String,
    pub chief_id: i32,
    pub crew_count: i64,
    pub created_at: i64,
    pub updated_at: i64,
}

/// Input of mission creation.
#[derive(Debug)]
pub struct AddMissionModel {
    pub name: String,
    pub description: Option<String>,
}

/// Input of a mission edit; `None` fields are left as they are.
#[derive(Debug)]
pub struct EditMissionModel {
    pub name: Option<String>,
    pub description: Option<String>,
}

/// Listing filter: optional status equality, optional case-insensitive name substring.
#[derive(Debug)]
pub struct MissionFilter {
    pub name: Option<String>,
    pub status: Option<MissionStatuses>,
}

pub(crate) fn clone_opt_string(o: &Option<String>) -> (r: Option<String>)
    ensures
        r == *o,
{
    match o {
        Some(s) => Some(s.clone()),
        None => None,
    }
}

/// The view of a record with a given crew count.
pub open spec fn model_of(e: MissionEntity, crew_count: i64) -> MissionModel {
    MissionModel {
        id: e.id,
        name: e.name,
        description: e.description,
        status: e.status,
        chief_id: e.chief_id,
        crew_count,
        created_at: e.created_at,
        updated_at: e.updated_at,
    }
}

impl MissionEntity {
    pub fn to_model(&self, crew_count: i64) -> (r: MissionModel)
        ensures
            r == model_of(*self, crew_count),
    {
        MissionModel {
            id: self.id,
            name: self.name.clone(),
            description: clone_opt_string(&self.description),
            status: self.status.clone(),
            chief_id: self.chief_id,
            crew_count,
            created_at: self.created_at,
            updated_at: self.updated_at,
        }
    }

    /// An owned copy of the record.
    pub fn duplicate(&self) -> (r: MissionEntity)
        ensures
            r == *self,
    {
        MissionEntity {
            id: self.id,
            chief_id: self.chief_id,
            name: self.name.clone(),
            status: self.status.clone(),
            description: clone_opt_string(&self.description),
            created_at: self.created_at,
            updated_at: self.updated_at,
            deleted_at: self.deleted_at,
        }
    }
}

impl AddMissionModel {
    /// The record to insert for this input: owned by `chief_id`, status `Open`.
    pub fn to_entity(&self, chief_id: i32) -> (r: AddMissionEntity)
        ensures
            r.chief_id == chief_id,
            r.name == self.name,
            r.description == self.description,
            r.status@ == status_text(MissionStatuses::Open),
    {
        AddMissionEntity {
            name: self.name.clone(),
            description: clone_opt_string(&self.description),
            status: MissionStatuses::Open.to_string(),
            chief_id,
        }
    }
}

impl EditMissionModel {
    /// The change set for this input, setting the chief to `chief_id`.
    pub fn to_entity(&self, chief_id: i32) -> (r: EditMissionEntity)
        ensures
            r.chief_id == chief_id,
            r.name == self.name,
            r.description == self.description,
    {
        EditMissionEntity {
            name: clone_opt_string(&self.name),
            description: clone_opt_string(&self.description),
            chief_id,
        }
    }
}

/// A record passes the filter's status and name conditions.
pub open spec fn filter_accepts(f: MissionFilter, m: MissionEntity) -> bool {
    &&& match f.status {
        Some(s) => m.status@ == status_text(s),
        None => true,
    }
    &&& match f.name {
        Some(n) => contains_seq(lower_of(m.name@), lower_of(n@)),
        None => true,
    }
}

impl MissionFilter {
    /// The filter that accepts every mission.
    pub fn new() -> (r: MissionFilter)
        ensures
            r.name is None,
            r.status is None,
    {
        MissionFilter { name: None, status: None }
    }

    /// Whether a record passes the filter's status and name conditions.
    pub fn accepts(&self, m: &MissionEntity) -> (r: bool)
        ensures
            r == filter_accepts(*self, *m),
    {
        let status_ok = match &self.status {
            Some(s) => text_eq(m.status.as_str(), s.as_str()),
            None => true,
        };
        if !status_ok {
            return false;
        }
        match &self.name {
            Some(n) => {
                let hay = lowercase_text(m.name.as_str());
                let needle = lowercase_text(n.as_str());
                contains_text(hay.as_str(), needle.as_str())
            },
            None => true,
        }
    }
}

} // verus!
