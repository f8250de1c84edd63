pub mod home;
pub mod settings;
pub mod listing;
pub mod search;
pub mod album_search;
pub mod playlist;
pub mod login;
pub mod download;
pub mod dialog;
