//! Recent-activity integration for a personal home page: fetch planning for a
//! music-scrobbling API, defensive parsing of its JSON payload, and a
//! display-ready track model with human-friendly relative timestamps.

pub mod fetch;
pub mod model;
pub mod numtext;
pub mod timefmt;
pub mod wire;
