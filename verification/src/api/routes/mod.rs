pub mod files;
pub mod index;
pub mod users;
