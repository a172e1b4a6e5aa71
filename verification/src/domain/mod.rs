pub mod chapter_number;
pub mod favorite;
pub mod job;
pub mod manga;
