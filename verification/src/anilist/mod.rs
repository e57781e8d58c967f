pub mod anilist_user;
