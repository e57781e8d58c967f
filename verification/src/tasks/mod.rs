pub mod clear_cache;
pub mod daily_random_level;
