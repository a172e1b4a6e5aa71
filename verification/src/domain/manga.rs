//! Series, chapters and pages as the sources describe them.

use vstd::prelude::*;
use crate::domain::chapter_number::{number_in, number_in_chars};
use crate::domain::favorite::{FavoriteManager, clean_title};
use crate::text::{chars_of, opt_view, string_of};

verus! {

/// A series found by a source.
#[derive(Debug, Clone, PartialEq, Eq)]
pub struct Manga {
    pub id: String,
    pub title: String,
    pub url: String,
    pub cover_url: Option<String>,
    pub provider: String,
}

/// The fields of a series.
pub struct MangaView {
    pub id: Seq<char>,
    pub title: Seq<char>,
    pub url: Seq<char>,
    pub cover_url: Option<Seq<char>>,
    pub provider: Seq<char>,
}

impl View for Manga {
    type V = MangaView;

    open spec fn view(&self) -> MangaView {
        MangaView {
            id: self.id@,
            title: self.title@,
            url: self.url@,
            cover_url: opt_view(self.cover_url),
            provider: self.provider@,
        }
    }
}

/// A chapter of a series. `number` is the chapter's number as written in
/// decimal (digits, then optionally a point and more digits).
#[derive(Debug, Clone, PartialEq, Eq)]
pub struct Chapter {
    pub id: String,
    pub manga_id: String,
    pub title: String,
    pub url: String,
    pub number: Option<String>,
}

impl Chapter {
    /// The chapter number written in a title, as decimal text: the title is
    /// cleaned first, then searched as `chapter_number` describes.
    pub fn parse_number_from_title(title: &str) -> (r: Option<String>)
        ensures
            opt_view(r) == number_in(clean_title(title@)),
    {
        let clean = FavoriteManager::clean_chapter_title(title);
        match number_in_chars(&chars_of(clean.as_str())) {
            Some(t) => Some(string_of(t.as_slice())),
            None => None,
        }
    }
}

/// One page image of a chapter.
#[derive(Debug, Clone, PartialEq, Eq)]
pub struct Page {
    pub index: usize,
    pub url: String,
}

} // verus!
