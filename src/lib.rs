pub mod daemon;
pub mod feed;
pub mod notify;
pub mod text;
pub mod weather;
