//! Statistics: how many notes there are, and how many each user owns.

use vstd::prelude::*;

verus! {

/// What the statistics of one user say, as plain values.
pub struct UserStatsView {
    pub username: Seq<char>,
    pub videonotes: int,
}

/// The number of notes that one user owns.
#[derive(Debug, PartialEq, Eq)]
pub struct UserStats {
    pub username: String,
    pub videonotes: i64,
}

impl View for UserStats {
    type V = UserStatsView;

    open spec fn view(&self) -> UserStatsView {
        UserStatsView { username: self.username@, videonotes: self.videonotes as int }
    }
}

impl Clone for UserStats {
    fn clone(&self) -> (copy: Self)
        ensures
            copy == *self,
    {
        UserStats { username: self.username.clone(), videonotes: self.videonotes }
    }
}

/// The views of a list of per-user statistics.
pub open spec fn user_stats_views(list: Seq<UserStats>) -> Seq<UserStatsView> {
    list.map_values(|s: UserStats| s@)
}

/// The sum of the note counts of a list of per-user statistics.
pub open spec fn sum_videonotes(list: Seq<UserStatsView>) -> int
    decreases list.len(),
{
    if list.len() == 0 {
        0
    } else {
        sum_videonotes(list.drop_last()) + list.last().videonotes
    }
}

/// The statistics of the whole store.
#[derive(Debug, PartialEq, Eq)]
pub struct Stats {
    pub total_videonotes: i32,
    pub users: Vec<UserStats>,
}

} // verus!
