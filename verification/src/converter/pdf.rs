//! Packaging page images into a PDF document: which images, in what order,
//! and how the document's objects are numbered.

use vstd::prelude::*;
use crate::converter::images::{cover_file_name, cover_name, opt_name, packaged_in_order, page_images};
use crate::order::string_seq;

verus! {

/// The object numbers of one page: the page, its content stream, its image.
pub struct PageObjects {
    pub page: i32,
    pub content: i32,
    pub image: i32,
}

/// Packs the images of a chapter folder into a PDF document, one image per page.
pub struct PdfPacker;

impl PdfPacker {
    /// The name a custom cover is copied to in the chapter folder.
    pub fn cover_destination(cover_path: &str) -> (r: String)
        ensures
            r@ == cover_name(cover_path@),
    {
        cover_file_name(cover_path)
    }

    /// The pages of the document: the custom cover first, where `cover` (the name
    /// it was copied to) is among the page images of the folder, then the
    /// other page images sorted by name.
    pub fn page_entries(names: &Vec<String>, cover: Option<&str>) -> (r: Vec<String>)
        ensures
            packaged_in_order(string_seq(r@), string_seq(names@), opt_name(cover)),
    {
        page_images(names, cover)
    }

    /// Whether the data starts as a JPEG file does (`FF D8 FF`), so that it
    /// can be embedded as it is.
    pub fn is_jpeg(data: &[u8]) -> (r: bool)
        ensures
            r == (data@.len() >= 3 && data@[0] == 0xFF && data@[1] == 0xD8 && data@[2] == 0xFF),
    {
        data.len() >= 3 && data[0] == 0xFF && data[1] == 0xD8 && data[2] == 0xFF
    }

    /// The object numbers of a document of `count` pages: the catalog is 1,
    /// the page tree 2, and page `i` takes the next three numbers, in the
    /// order page, content, image.
    pub fn object_numbers(count: usize) -> (r: Vec<PageObjects>)
        requires
            3 * count + 2 <= i32::MAX,
        ensures
            r@.len() == count,
            forall|i: int|
                0 <= i < count ==> (#[trigger] r@[i]).page == 3 + 3 * i && r@[i].content == 4 + 3
                    * i && r@[i].image == 5 + 3 * i,
    {
        let mut out: Vec<PageObjects> = Vec::new();
        let mut i: usize = 0;
        while i < count
            invariant
                i <= count,
                3 * count + 2 <= i32::MAX,
                out@.len() == i,
                forall|j: int|
                    0 <= j < i ==> (#[trigger] out@[j]).page == 3 + 3 * j && out@[j].content == 4
                        + 3 * j && out@[j].image == 5 + 3 * j,
            decreases count - i,
        {
            let base = (3 * i) as i32;
            out.push(PageObjects { page: base + 3, content: base + 4, image: base + 5 });
            i = i + 1;
        }
        out
    }
}

} // verus!
