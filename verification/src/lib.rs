//! Core logic of a terminal manga downloader: chapter-title parsing,
//! favorites bookkeeping, settings and source selection state, and the
//! localized text of the interface.

pub mod text;
pub mod i18n;
pub mod paths;
pub mod scraper;
pub mod order;
pub mod anilist;
pub mod config;
pub mod converter;
pub mod domain;
pub mod downloader;
pub mod ui;
pub mod cli;
