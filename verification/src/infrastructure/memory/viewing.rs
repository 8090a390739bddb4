//! The read side of the store in memory.

use crate::domain::repositories::mission_viewing::{brawler_views, one_guarantee};
use crate::domain::repositories::store::MissionStore;
use crate::domain::value_objects::brawler_model::BrawlerModel;
use crate::domain::value_objects::mission_error::MissionError;
use crate::domain::value_objects::mission_model::{clone_optional, MissionModel};
use crate::domain::value_objects::mission_statuses::MissionStatuses;
use crate::infrastructure::memory::store::{holds, MemoryStore};
use vstd::prelude::*;
use vstd::string::*;

verus! {

impl MemoryStore {
    /// The missions among the first `k` on whose crew a brawler is.
    pub(crate) open spec fn crewed_among(&self, brawler_id: i32, k: int) -> Set<i32> {
        Set::new(|id: i32| 1 <= id <= k && self.missions[id - 1].crew@.contains(brawler_id))
    }

    /// The completed missions among the first `k` on whose crew a brawler is.
    pub(crate) open spec fn completed_among(&self, brawler_id: i32, k: int) -> Set<i32> {
        Set::new(
            |id: i32|
                1 <= id <= k && self.missions[id - 1].crew@.contains(brawler_id)
                    && self.missions[id - 1].status == MissionStatuses::Completed,
        )
    }

    /// The mission in slot `i` as a reader sees it, where its roster is not
    /// too long to count.
    pub(crate) fn model_at(&self, i: usize) -> (r: Option<MissionModel>)
        requires
            i < self.missions.len(),
            i < i32::MAX,
        ensures
            match r {
                Some(mission) => mission@ == self.board().model((i + 1) as i32),
                None => self.spare() == 0,
            },
    {
        proof {
            self.shown();
        }
        let record = &self.missions[i];
        if record.crew.len() as u64 > i64::MAX as u64 {
            return None;
        }
        Some(
            MissionModel {
                id: (i + 1) as i32,
                name: record.name.clone(),
                description: clone_optional(&record.description),
                status: record.status,
                chief_id: record.chief_id,
                chief_display_name: self.display_name_of(record.chief_id),
                crew_count: record.crew.len() as i64,
                created_at: record.created_at,
                updated_at: record.updated_at,
                category: record.category.clone(),
            },
        )
    }

    /// A brawler's line on a roster.
    pub(crate) fn card_of(&self, brawler_id: i32) -> (card: BrawlerModel)
        requires
            self.missions.len() <= i32::MAX,
        ensures
            card@ == self.board().card(brawler_id),
    {
        proof {
            self.shown();
        }
        let mut joined: i64 = 0;
        let mut completed: i64 = 0;
        let mut k: usize = 0;
        proof {
            assert(self.crewed_among(brawler_id, 0) =~= Set::<i32>::empty());
            assert(self.completed_among(brawler_id, 0) =~= Set::<i32>::empty());
        }
        while k < self.missions.len()
            invariant
                k <= self.missions.len() <= i32::MAX,
                self.crewed_among(brawler_id, k as int).finite(),
                self.completed_among(brawler_id, k as int).finite(),
                joined == self.crewed_among(brawler_id, k as int).len(),
                completed == self.completed_among(brawler_id, k as int).len(),
                0 <= completed <= joined <= k,
            decreases self.missions.len() - k,
        {
            let ghost id = (k + 1) as i32;
            let on_crew = holds(&self.missions[k].crew, brawler_id);
            let done = matches!(self.missions[k].status, MissionStatuses::Completed);
            proof {
                let crewed = self.crewed_among(brawler_id, k as int);
                let finished = self.completed_among(brawler_id, k as int);
                if on_crew {
                    assert(self.crewed_among(brawler_id, k + 1) =~= crewed.insert(id));
                } else {
                    assert(self.crewed_among(brawler_id, k + 1) =~= crewed);
                }
                if on_crew && done {
                    assert(self.completed_among(brawler_id, k + 1) =~= finished.insert(id));
                } else {
                    assert(self.completed_among(brawler_id, k + 1) =~= finished);
                }
            }
            if on_crew {
                joined = joined + 1;
                if done {
                    completed = completed + 1;
                }
            }
            k = k + 1;
        }
        proof {
            assert(self.crewed_among(brawler_id, k as int) =~= self.board().crewed_by(brawler_id));
            assert(self.completed_among(brawler_id, k as int) =~= self.board().completed_by(
                brawler_id,
            ));
        }
        BrawlerModel {
            display_name: self.display_name_of(brawler_id),
            avatar_url: self.avatar_of(brawler_id),
            mission_success_count: completed,
            mission_joined_count: joined,
        }
    }

    pub(crate) fn count_crew(&self, mission_id: i32) -> (r: Result<i64, MissionError>)
        ensures
            match r {
                Ok(count) => count == self.board().crew_count(mission_id),
                Err(e) => e == MissionError::Unavailable,
            },
            self.spare() > 0 ==> r is Ok,
    {
        proof {
            self.shown();
        }
        match self.slot(mission_id) {
            Some(i) => {
                let count = self.missions[i].crew.len();
                if count as u64 > i64::MAX as u64 {
                    Err(MissionError::Unavailable)
                } else {
                    Ok(count as i64)
                }
            },
            None => Ok(0),
        }
    }

    pub(crate) fn read_one(&self, mission_id: i32) -> (r: Result<MissionModel, MissionError>)
        ensures
            one_guarantee(self, r, mission_id),
    {
        match self.live_slot(mission_id) {
            Some(i) => match self.model_at(i) {
                Some(mission) => Ok(mission),
                None => Err(MissionError::Unavailable),
            },
            None => Err(MissionError::NotFound),
        }
    }

    pub(crate) fn read_crew(&self, mission_id: i32) -> (r: Result<Vec<BrawlerModel>, MissionError>)
        ensures
            match r {
                Ok(crew) => brawler_views(crew@) == self.board().roster(mission_id),
                Err(e) => e == MissionError::Unavailable,
            },
            self.spare() > 0 ==> r is Ok,
    {
        proof {
            self.shown();
        }
        let mut roster: Vec<BrawlerModel> = Vec::new();
        if self.missions.len() > i32::MAX as usize {
            return Err(MissionError::Unavailable);
        }
        let i = match self.slot(mission_id) {
            Some(i) => i,
            None => {
                proof {
                    assert(brawler_views(roster@) =~= self.board().roster(mission_id));
                }
                return Ok(roster);
            },
        };
        let mut at: usize = 0;
        while at < self.missions[i].crew.len()
            invariant
                i == mission_id - 1,
                i < self.missions.len() <= i32::MAX,
                at <= self.missions[i as int].crew.len(),
                roster@.len() == at,
                forall|k: int|
                    0 <= k < at ==> (#[trigger] roster@[k])@ == self.board().card(
                        self.missions[i as int].crew@[k],
                    ),
            decreases self.missions[i as int].crew.len() - at,
        {
            roster.push(self.card_of(self.missions[i].crew[at]));
            at = at + 1;
        }
        proof {
            assert(brawler_views(roster@) =~= self.board().roster(mission_id));
        }
        Ok(roster)
    }
}

} // verus!
