//! The list of missions of the store in memory: filtered, ordered, and cut
//! into pages.

use crate::domain::board::{admits, ranks_before};
use crate::domain::repositories::mission_viewing::{
    all_guarantee,
    mission_views,
    MissionViewingRepository,
};
use crate::domain::repositories::store::MissionStore;
use crate::domain::value_objects::brawler_model::BrawlerModel;
use crate::domain::value_objects::mission_error::MissionError;
use crate::domain::value_objects::mission_filter::MissionFilter;
use crate::domain::value_objects::mission_model::MissionModel;
use crate::domain::value_objects::text::holds_ignoring_case;
use crate::infrastructure::memory::store::MemoryStore;
use vstd::prelude::*;
use vstd::string::*;

verus! {

impl MemoryStore {
    /// Whether the mission in slot `i` meets the conditions of `filter`.
    pub(crate) fn admits_at(&self, filter: &MissionFilter, i: usize) -> (r: bool)
        requires
            i < self.missions.len(),
        ensures
            r == admits(filter@, self.missions[i as int].state()),
    {
        let record = &self.missions[i];
        match filter.status {
            Some(status) => {
                if record.status != status {
                    return false;
                }
            },
            None => {},
        }
        match &filter.name {
            Some(name) => {
                if !holds_ignoring_case(record.name.as_str(), name.as_str()) {
                    return false;
                }
            },
            None => {},
        }
        match &filter.category {
            Some(category) => {
                if record.category != *category {
                    return false;
                }
            },
            None => {},
        }
        match filter.exclude_chief_id {
            Some(chief_id) => {
                if record.chief_id == chief_id {
                    return false;
                }
            },
            None => {},
        }
        true
    }

    /// Whether the mission in slot `a` may stand before the one in slot `b`.
    pub(crate) fn ranks_before_at(&self, a: usize, b: usize) -> (r: bool)
        requires
            a < self.missions.len(),
            b < self.missions.len(),
        ensures
            r == ranks_before(self.missions[a as int].state(), self.missions[b as int].state()),
    {
        let first = &self.missions[a];
        let second = &self.missions[b];
        if first.status.is_terminal() == second.status.is_terminal() {
            first.created_at >= second.created_at
        } else {
            second.status.is_terminal()
        }
    }

    /// What holds of the list while the first `k` missions are placed.
    pub(crate) open spec fn placed(&self, filter: &MissionFilter, ids: Seq<i32>, k: int) -> bool {
        &&& ids.no_duplicates()
        &&& forall|j: int| 0 <= j < ids.len() ==> 1 <= #[trigger] ids[j] <= k
        &&& forall|id: i32|
            1 <= id <= k && self.missions[id - 1].deleted_at is None && admits(
                filter@,
                self.missions[id - 1].state(),
            ) ==> #[trigger] ids.contains(id)
        &&& forall|j: int|
            0 <= j < ids.len() ==> self.missions[#[trigger] ids[j] - 1].deleted_at is None
                && admits(filter@, self.missions[ids[j] - 1].state())
        &&& forall|a: int, b: int|
            0 <= a < b < ids.len() ==> ranks_before(
                self.missions[#[trigger] ids[a] - 1].state(),
                self.missions[#[trigger] ids[b] - 1].state(),
            )
    }

    /// The ids of the missions that exist and meet `filter`, in the order
    /// of the list.
    pub(crate) fn listed(&self, filter: &MissionFilter) -> (ids: Vec<i32>)
        requires
            self.missions.len() <= i32::MAX,
        ensures
            self.board().is_listing(filter@, ids@),
            forall|j: int| 0 <= j < ids@.len() ==> 1 <= #[trigger] ids@[j] <= self.missions.len(),
    {
        let n = self.missions.len();
        let mut ids: Vec<i32> = Vec::new();
        let mut k: usize = 0;
        while k < n
            invariant
                k <= n,
                n == self.missions.len(),
                n <= i32::MAX,
                self.placed(filter, ids@, k as int),
            decreases n - k,
        {
            if self.missions[k].deleted_at.is_none() && self.admits_at(filter, k) {
                let mut p: usize = 0;
                while p < ids.len() && self.ranks_before_at((ids[p] - 1) as usize, k)
                    invariant
                        p <= ids.len(),
                        k < n,
                        n == self.missions.len(),
                        n <= i32::MAX,
                        self.placed(filter, ids@, k as int),
                        forall|j: int|
                            0 <= j < p ==> ranks_before(
                                self.missions[#[trigger] ids@[j] - 1].state(),
                                self.missions[k as int].state(),
                            ),
                    decreases ids.len() - p,
                {
                    p = p + 1;
                }
                let ghost before = ids@;
                let id = (k + 1) as i32;
                ids.insert(p, id);
                proof {
                    before.insert_ensures(p as int, id);
                    let after = ids@;
                    assert forall|a: int, b: int| 0 <= a < b < after.len() implies after[a]
                        != after[b] by {
                        let x = if a < p {
                            a
                        } else {
                            a - 1
                        };
                        let y = if b < p {
                            b
                        } else {
                            b - 1
                        };
                        if a != p && b != p {
                            assert(after[a] == before[x] && after[b] == before[y]);
                        } else if a == p {
                            assert(after[b] == before[y]);
                        } else {
                            assert(after[a] == before[x]);
                        }
                    }
                    assert forall|j: int| 0 <= j < after.len() implies 1 <= #[trigger] after[j] <= k
                        + 1 && self.missions[after[j] - 1].deleted_at is None && admits(
                        filter@,
                        self.missions[after[j] - 1].state(),
                    ) by {
                        if j < p {
                            assert(after[j] == before[j]);
                        } else if j > p {
                            assert(after[j] == before[j - 1]);
                        }
                    }
                    assert forall|other: i32|
                        1 <= other <= k + 1 && self.missions[other - 1].deleted_at is None
                            && admits(
                            filter@,
                            self.missions[other - 1].state(),
                        ) implies #[trigger] after.contains(other) by {
                        if other == id {
                            assert(after[p as int] == other);
                        } else {
                            assert(before.contains(other));
                            let j = choose|j: int| 0 <= j < before.len() && before[j] == other;
                            if j < p {
                                assert(after[j] == other);
                            } else {
                                assert(after[j + 1] == other);
                            }
                        }
                    }
                    assert forall|a: int, b: int| 0 <= a < b < after.len() implies ranks_before(
                        self.missions[#[trigger] after[a] - 1].state(),
                        self.missions[#[trigger] after[b] - 1].state(),
                    ) by {
                        let x = if a < p {
                            a
                        } else {
                            a - 1
                        };
                        let y = if b < p {
                            b
                        } else {
                            b - 1
                        };
                        if a != p && b != p {
                            assert(after[a] == before[x] && after[b] == before[y]);
                        } else if a == p {
                            assert(after[b] == before[y]);
                            if p < y {
                                assert(ranks_before(
                                    self.missions[before[p as int] - 1].state(),
                                    self.missions[before[y] - 1].state(),
                                ));
                            }
                        } else {
                            assert(after[a] == before[x]);
                        }
                    }
                }
            }
            k = k + 1;
        }
        proof {
            self.shown();
            let board = self.board();
            assert forall|id: i32| #[trigger]
                ids@.contains(id) <==> board.has(id) && admits(filter@, board.missions[id]) by {
                if ids@.contains(id) {
                    let j = choose|j: int| 0 <= j < ids@.len() && ids@[j] == id;
                    assert(1 <= ids@[j] <= n);
                }
            }
        }
        ids
    }

    pub(crate) fn read_all(&self, filter: &MissionFilter) -> (r: Result<
        Vec<MissionModel>,
        MissionError,
    >)
        ensures
            all_guarantee(self, r, filter@),
    {
        proof {
            self.shown();
        }
        let window = match filter.window() {
            Ok(window) => window,
            Err(e) => {
                return Err(e);
            },
        };
        if self.missions.len() > i32::MAX as usize {
            return Err(MissionError::Unavailable);
        }
        let ids = self.listed(filter);
        let len = ids.len();
        let from: usize = if window.skip as u64 <= len as u64 {
            window.skip as usize
        } else {
            len
        };
        let to: usize = if window.size as u64 <= (len - from) as u64 {
            from + window.size as usize
        } else {
            len
        };
        let ghost wanted = window.of(self.board().models(ids@));
        let mut missions: Vec<MissionModel> = Vec::new();
        let mut at: usize = from;
        while at < to
            invariant
                from <= at <= to <= len,
                len == ids@.len(),
                self.missions.len() <= i32::MAX,
                forall|j: int|
                    0 <= j < ids@.len() ==> 1 <= #[trigger] ids@[j] <= self.missions.len(),
                wanted == self.board().models(ids@).subrange(from as int, to as int),
                missions@.len() == at - from,
                forall|t: int|
                    0 <= t < at - from ==> (#[trigger] missions@[t])@ == self.board().model(
                        ids@[from + t],
                    ),
            decreases to - at,
        {
            let id = ids[at];
            match self.model_at((id - 1) as usize) {
                Some(mission) => {
                    missions.push(mission);
                },
                None => {
                    return Err(MissionError::Unavailable);
                },
            }
            at = at + 1;
        }
        proof {
            assert(mission_views(missions@) =~= wanted);
        }
        Ok(missions)
    }
}

impl MissionViewingRepository for MemoryStore {
    fn crew_counting(&self, mission_id: i32) -> (r: Result<i64, MissionError>) {
        self.count_crew(mission_id)
    }

    fn get_one(&self, mission_id: i32) -> (r: Result<MissionModel, MissionError>) {
        self.read_one(mission_id)
    }

    fn get_all(&self, mission_filter: &MissionFilter) -> (r: Result<
        Vec<MissionModel>,
        MissionError,
    >) {
        self.read_all(mission_filter)
    }

    fn get_crew(&self, mission_id: i32) -> (r: Result<Vec<BrawlerModel>, MissionError>) {
        self.read_crew(mission_id)
    }
}

} // verus!
