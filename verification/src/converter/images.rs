//! Which files of a chapter folder are page images, and in what order they
//! are packaged.

use vstd::prelude::*;
use crate::order::{is_sorted, sort_strings, string_seq};
use crate::paths::{extension, extension_of};
use crate::text::{chars_eq, chars_of, lower_chars, lower_seq, str_eq};

verus! {

/// The extensions of page images, compared in lower case.
pub open spec fn is_image_ext(ext: Seq<char>) -> bool {
    let l = lower_seq(ext);
    l == "jpg"@ || l == "jpeg"@ || l == "png"@ || l == "webp"@ || l == "avif"@ || l == "gif"@
}

/// Whether a file is a page image, by its extension.
pub open spec fn is_image_file(name: Seq<char>) -> bool {
    match extension_of(name) {
        Some(e) => is_image_ext(e),
        None => false,
    }
}

/// The page images among `names`, in the order given.
pub open spec fn image_names(names: Seq<Seq<char>>) -> Seq<Seq<char>>
    decreases names.len(),
{
    if names.len() == 0 {
        names
    } else {
        let rest = image_names(names.drop_last());
        if is_image_file(names.last()) {
            rest.push(names.last())
        } else {
            rest
        }
    }
}

/// The name a custom cover is copied to: `0000_cover` with the cover's own
/// extension (`jpg` where it has none).
pub open spec fn cover_name(cover_path: Seq<char>) -> Seq<char> {
    "0000_cover."@ + match extension_of(cover_path) {
        Some(e) => e,
        None => "jpg"@,
    }
}

/// Whether an extension is that of a page image.
pub fn is_image_extension(ext: &str) -> (r: bool)
    ensures
        r == is_image_ext(ext@),
{
    let l = lower_chars(&chars_of(ext));
    chars_eq(&l, &chars_of("jpg")) || chars_eq(&l, &chars_of("jpeg")) || chars_eq(
        &l,
        &chars_of("png"),
    ) || chars_eq(&l, &chars_of("webp")) || chars_eq(&l, &chars_of("avif")) || chars_eq(
        &l,
        &chars_of("gif"),
    )
}

/// The page images among `names` other than `cover`, in the order given.
pub open spec fn images_except(names: Seq<Seq<char>>, cover: Seq<char>) -> Seq<Seq<char>>
    decreases names.len(),
{
    if names.len() == 0 {
        names
    } else {
        let rest = images_except(names.drop_last(), cover);
        if is_image_file(names.last()) && names.last() != cover {
            rest.push(names.last())
        } else {
            rest
        }
    }
}

/// The name of a string slice, where there is one.
pub open spec fn opt_name(o: Option<&str>) -> Option<Seq<char>> {
    match o {
        Some(s) => Some(s@),
        None => None,
    }
}

/// Whether the custom cover named `cover` is among the page images.
pub open spec fn cover_present(names: Seq<Seq<char>>, cover: Option<Seq<char>>) -> bool {
    match cover {
        Some(c) => image_names(names).contains(c),
        None => false,
    }
}

/// The page images that follow the cover.
pub open spec fn other_pages(names: Seq<Seq<char>>, cover: Option<Seq<char>>) -> Seq<Seq<char>> {
    match cover {
        Some(c) => images_except(names, c),
        None => image_names(names),
    }
}

/// The order in which pages are packaged: the custom cover first where it
/// is among the page images, then the other page images sorted by name.
pub open spec fn packaged_in_order(r: Seq<Seq<char>>, names: Seq<Seq<char>>, cover: Option<Seq<char>>) -> bool {
    let rest = if cover_present(names, cover) {
        r.drop_first()
    } else {
        r
    };
    &&& cover_present(names, cover) ==> r.len() > 0 && Some(r[0]) == cover
    &&& is_sorted(rest)
    &&& rest.to_multiset() == other_pages(names, cover).to_multiset()
}

proof fn lemma_push_contains(s: Seq<Seq<char>>, x: Seq<char>, c: Seq<char>)
    ensures
        s.push(x).contains(c) == (s.contains(c) || x == c),
{
    if s.contains(c) {
        let k = choose|k: int| 0 <= k < s.len() && s[k] == c;
        assert(s.push(x)[k] == c);
    }
    if x == c {
        assert(s.push(x)[s.len() as int] == c);
    }
    if s.push(x).contains(c) {
        let k = choose|k: int| 0 <= k < s.push(x).len() && s.push(x)[k] == c;
        if k < s.len() {
            assert(s[k] == c);
        }
    }
}

/// The page images among the file names of a folder, in the order they are
/// packaged: the custom cover (the name it was copied to) first where it is
/// among them, then the other page images sorted by name.
pub fn page_images(names: &Vec<String>, cover: Option<&str>) -> (r: Vec<String>)
    ensures
        packaged_in_order(string_seq(r@), string_seq(names@), opt_name(cover)),
{
    let ghost all = string_seq(names@);
    let mut kept: Vec<String> = Vec::new();
    let mut found = false;
    let mut i: usize = 0;
    while i < names.len()
        invariant
            i <= names@.len(),
            all == string_seq(names@),
            string_seq(kept@) == other_pages(all.subrange(0, i as int), opt_name(cover)),
            found == cover_present(all.subrange(0, i as int), opt_name(cover)),
        decreases names@.len() - i,
    {
        let ghost pre = all.subrange(0, i as int);
        let ghost next = all.subrange(0, i + 1);
        proof {
            assert(next.drop_last() =~= pre);
            assert(next.last() == names@[i as int]@);
        }
        let image = match extension(names[i].as_str()) {
            Some(e) => is_image_extension(e.as_str()),
            None => false,
        };
        let is_cover = match cover {
            Some(c) => str_eq(names[i].as_str(), c),
            None => false,
        };
        if image && !is_cover {
            kept.push(names[i].clone());
        }
        if image && is_cover {
            found = true;
        }
        proof {
            assert(string_seq(kept@) =~= other_pages(next, opt_name(cover)));
            if let Some(c) = cover {
                lemma_push_contains(image_names(pre), names@[i as int]@, c@);
            }
        }
        i = i + 1;
    }
    assert(all.subrange(0, all.len() as int) =~= all);
    let mut sorted = sort_strings(kept);
    if found {
        let c = match cover {
            Some(c) => c,
            None => "",
        };
        let mut r: Vec<String> = Vec::new();
        r.push(String::from_str(c));
        let ghost tail = sorted@;
        r.append(&mut sorted);
        assert(string_seq(r@).drop_first() =~= string_seq(tail));
        r
    } else {
        sorted
    }
}

/// The name a custom cover is copied to.
pub fn cover_file_name(cover_path: &str) -> (r: String)
    ensures
        r@ == cover_name(cover_path@),
{
    let mut s = String::from_str("0000_cover.");
    match extension(cover_path) {
        Some(e) => s.append(e.as_str()),
        None => s.append("jpg"),
    }
    s
}


/// Every extension whose lower case is `jpg`, `jpeg`, `png`, `webp`, `avif`
/// or `gif` is that of a page image.
pub proof fn lemma_page_image_extensions(ext: Seq<char>)
    requires
        lower_seq(ext) == "jpg"@ || lower_seq(ext) == "jpeg"@ || lower_seq(ext) == "png"@
            || lower_seq(ext) == "webp"@ || lower_seq(ext) == "avif"@ || lower_seq(ext) == "gif"@,
    ensures
        is_image_ext(ext),
{
}

/// A page image among the names is among the page images.
pub proof fn lemma_image_names_contains(names: Seq<Seq<char>>, x: Seq<char>)
    requires
        names.contains(x),
        is_image_file(x),
    ensures
        image_names(names).contains(x),
    decreases names.len(),
{
    if names.last() == x {
        lemma_push_contains(image_names(names.drop_last()), x, x);
    } else {
        let k = choose|k: int| 0 <= k < names.len() && names[k] == x;
        assert(names.drop_last()[k] == x);
        lemma_image_names_contains(names.drop_last(), x);
        if is_image_file(names.last()) {
            lemma_push_contains(image_names(names.drop_last()), names.last(), x);
        }
    }
}

/// A custom cover that is a page image among the folder's files is the
/// first file packaged.
pub proof fn lemma_present_cover_first(r: Seq<Seq<char>>, names: Seq<Seq<char>>, c: Seq<char>)
    requires
        names.contains(c),
        is_image_file(c),
        packaged_in_order(r, names, Some(c)),
    ensures
        r.len() > 0,
        r[0] == c,
{
    lemma_image_names_contains(names, c);
}

} // verus!
