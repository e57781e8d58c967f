pub mod clear_info;
pub mod difficulty;
pub mod level;
pub mod profile;
