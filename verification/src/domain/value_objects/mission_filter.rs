//! What a reader asks of the list of missions.

use crate::domain::value_objects::mission_error::MissionError;
use crate::domain::value_objects::mission_model::optional_text;
use crate::domain::value_objects::mission_statuses::MissionStatuses;
use vstd::prelude::*;
use vstd::string::*;

verus! {

/// The page size where the reader names none.
pub const DEFAULT_PAGE_SIZE: i64 = 20;

/// The page where the reader names none.
pub const DEFAULT_PAGE: i64 = 1;

/// The conditions a listed mission has to meet, and the page of the list
/// that is wanted. A condition that is `None` is not imposed.
#[derive(Clone, Debug, PartialEq, Eq)]
pub struct MissionFilter {
    /// The mission has this status.
    pub status: Option<MissionStatuses>,
    /// The mission's name holds this text, whatever the case of the letters.
    pub name: Option<String>,
    /// The mission has this category.
    pub category: Option<String>,
    /// The mission is not one of this chief's.
    pub exclude_chief_id: Option<i32>,
    /// How many missions a page holds.
    pub limit: Option<i64>,
    /// Which page is wanted; the first page is page one.
    pub page: Option<i64>,
}

/// What a [`MissionFilter`] holds, as mathematical values.
pub struct MissionFilterView {
    pub status: Option<MissionStatuses>,
    pub name: Option<Seq<char>>,
    pub category: Option<Seq<char>>,
    pub exclude_chief_id: Option<i32>,
    pub limit: Option<i64>,
    pub page: Option<i64>,
}

impl View for MissionFilter {
    type V = MissionFilterView;

    open spec fn view(&self) -> MissionFilterView {
        MissionFilterView {
            status: self.status,
            name: optional_text(self.name),
            category: optional_text(self.category),
            exclude_chief_id: self.exclude_chief_id,
            limit: self.limit,
            page: self.page,
        }
    }
}

/// The part of a list that a page shows: `size` entries after skipping `skip`.
#[derive(Clone, Copy, Debug, PartialEq, Eq, Structural)]
pub struct PageWindow {
    pub skip: i64,
    pub size: i64,
}

impl PageWindow {
    /// The entries of `list` that the window shows.
    pub open spec fn of<A>(self, list: Seq<A>) -> Seq<A> {
        let from = if self.skip <= list.len() {
            self.skip as int
        } else {
            list.len() as int
        };
        let to = if from + self.size <= list.len() {
            from + self.size
        } else {
            list.len() as int
        };
        list.subrange(from, to)
    }
}

impl MissionFilterView {
    pub open spec fn page_size(self) -> i64 {
        match self.limit {
            Some(limit) => limit,
            None => DEFAULT_PAGE_SIZE,
        }
    }

    pub open spec fn page_number(self) -> i64 {
        match self.page {
            Some(page) => page,
            None => DEFAULT_PAGE,
        }
    }

    /// The window of the wanted page: page `p` of size `n` skips
    /// `(p - 1) * n` entries. There is none for a negative size, a page
    /// below one, or a skip that a 64-bit integer cannot hold.
    pub open spec fn window(self) -> Result<PageWindow, MissionError> {
        let size = self.page_size();
        let skip = (self.page_number() - 1) * size;
        if size < 0 || self.page_number() < 1 || skip > i64::MAX {
            Err(MissionError::InvalidPage)
        } else {
            Ok(PageWindow { skip: skip as i64, size })
        }
    }
}

impl MissionFilter {
    /// A filter that imposes nothing and asks for the first page.
    pub fn new() -> (filter: MissionFilter)
        ensures
            filter@ == (MissionFilterView {
                status: None,
                name: None,
                category: None,
                exclude_chief_id: None,
                limit: None,
                page: None,
            }),
    {
        MissionFilter {
            status: None,
            name: None,
            category: None,
            exclude_chief_id: None,
            limit: None,
            page: None,
        }
    }

    /// The same filter, for missions of the given status only.
    pub fn with_status(self, status: MissionStatuses) -> (filter: MissionFilter)
        ensures
            filter@ == (MissionFilterView { status: Some(status), ..self@ }),
    {
        MissionFilter { status: Some(status), ..self }
    }

    /// The same filter, for missions whose name holds the given text only.
    pub fn with_name(self, name: String) -> (filter: MissionFilter)
        ensures
            filter@ == (MissionFilterView { name: Some(name@), ..self@ }),
    {
        MissionFilter { name: Some(name), ..self }
    }

    /// The same filter, for missions of the given category only.
    pub fn with_category(self, category: String) -> (filter: MissionFilter)
        ensures
            filter@ == (MissionFilterView { category: Some(category@), ..self@ }),
    {
        MissionFilter { category: Some(category), ..self }
    }

    /// The same filter, without the missions of the given chief.
    pub fn without_chief(self, chief_id: i32) -> (filter: MissionFilter)
        ensures
            filter@ == (MissionFilterView { exclude_chief_id: Some(chief_id), ..self@ }),
    {
        MissionFilter { exclude_chief_id: Some(chief_id), ..self }
    }

    /// The same filter, for the given page of the given size.
    pub fn paged(self, page: i64, limit: i64) -> (filter: MissionFilter)
        ensures
            filter@ == (MissionFilterView { page: Some(page), limit: Some(limit), ..self@ }),
    {
        MissionFilter { page: Some(page), limit: Some(limit), ..self }
    }

    /// The window of the page that the filter asks for.
    pub fn window(&self) -> (r: Result<PageWindow, MissionError>)
        ensures
            r == self@.window(),
    {
        let size = match self.limit {
            Some(limit) => limit,
            None => DEFAULT_PAGE_SIZE,
        };
        let page = match self.page {
            Some(page) => page,
            None => DEFAULT_PAGE,
        };
        if size < 0 || page < 1 {
            return Err(MissionError::InvalidPage);
        }
        match (page - 1).checked_mul(size) {
            Some(skip) => Ok(PageWindow { skip, size }),
            None => Err(MissionError::InvalidPage),
        }
    }
}

} // verus!
