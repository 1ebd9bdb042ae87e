pub mod feed;
pub mod home;
