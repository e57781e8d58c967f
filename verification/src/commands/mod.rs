pub mod gambling;
pub mod leaderboard;
pub mod link;
pub mod setup;
