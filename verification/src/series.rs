//! The records of the catalog.

use vstd::prelude::*;

verus! {

/// One series of the catalog.
#[derive(Debug, Clone)]
pub struct Series {
    /// Identifier given by the store; empty until the store has taken the
    /// record in.
    pub guid: String,
    pub name: String,
    pub is_finished: bool,
    pub is_airing_finished: bool,
    pub total_episodes: i32,
    pub current_episode: i32,
}

/// The mathematical value of a [`Series`].
pub struct SeriesView {
    pub guid: Seq<char>,
    pub name: Seq<char>,
    pub is_finished: bool,
    pub is_airing_finished: bool,
    pub total_episodes: i32,
    pub current_episode: i32,
}

impl View for Series {
    type V = SeriesView;

    open spec fn view(&self) -> SeriesView {
        SeriesView {
            guid: self.guid@,
            name: self.name@,
            is_finished: self.is_finished,
            is_airing_finished: self.is_airing_finished,
            total_episodes: self.total_episodes,
            current_episode: self.current_episode,
        }
    }
}

/// The record made of a name and of values that may be absent.
///
/// An absent episode number is 0 and an absent `is_airing_finished` is false.
/// An absent `is_finished` is true exactly when airing has finished and the
/// current episode is the last one. The record has no identifier yet.
pub open spec fn new_series(
    name: Seq<char>,
    is_finished: Option<bool>,
    is_airing_finished: Option<bool>,
    total_episodes: Option<i32>,
    current_episode: Option<i32>,
) -> SeriesView {
    let current = current_episode.unwrap_or(0i32);
    let total = total_episodes.unwrap_or(0i32);
    let airing_finished = is_airing_finished.unwrap_or(false);
    SeriesView {
        guid: Seq::empty(),
        name,
        is_finished: is_finished.unwrap_or(airing_finished && current == total),
        is_airing_finished: airing_finished,
        total_episodes: total,
        current_episode: current,
    }
}

/// The views of the records of `records`, in order.
pub open spec fn series_views(records: Seq<Series>) -> Seq<SeriesView> {
    records.map_values(|s: Series| s@)
}

impl Series {
    /// Builds a record that the store has not seen yet, filling in what is
    /// absent.
    pub fn new(
        name: String,
        is_finished: Option<bool>,
        is_airing_finished: Option<bool>,
        total_episodes: Option<i32>,
        current_episode: Option<i32>,
    ) -> (r: Self)
        ensures
            r@ == new_series(
                name@,
                is_finished,
                is_airing_finished,
                total_episodes,
                current_episode,
            ),
    {
        let current_episode: i32 = current_episode.unwrap_or(0);
        let total_episodes: i32 = total_episodes.unwrap_or(0);
        let is_airing_finished: bool = is_airing_finished.unwrap_or(false);
        let is_finished: bool = is_finished.unwrap_or(
            is_airing_finished && current_episode == total_episodes,
        );
        Series {
            guid: String::new(),
            name,
            is_finished,
            is_airing_finished,
            total_episodes,
            current_episode,
        }
    }
}

} // verus!
