//! Packaging page images into a CBZ archive: what goes in, and in what order.

use vstd::prelude::*;
use crate::converter::images::{cover_file_name, cover_name, opt_name, packaged_in_order, page_images};
use crate::order::string_seq;

verus! {

/// Packs the images of a chapter folder into a CBZ archive.
pub struct CbzPacker;

impl CbzPacker {
    /// The name a custom cover is copied to in the chapter folder.
    pub fn cover_destination(cover_path: &str) -> (r: String)
        ensures
            r@ == cover_name(cover_path@),
    {
        cover_file_name(cover_path)
    }

    /// The entries of the archive: the custom cover first, where `cover` (the name
    /// it was copied to) is among the page images of the folder, then the
    /// other page images sorted by name.
    pub fn archive_entries(names: &Vec<String>, cover: Option<&str>) -> (r: Vec<String>)
        ensures
            packaged_in_order(string_seq(r@), string_seq(names@), opt_name(cover)),
    {
        page_images(names, cover)
    }
}

} // verus!
