//! The window that prepares a download: output format, conversion, volume
//! fusion, and an optional custom cover dropped or typed as a path.

use vstd::prelude::*;
use crate::config::platform_home_dir;
use crate::converter::images::{cover_name, is_image_ext, is_image_file, lemma_present_cover_first, packaged_in_order};
use crate::paths::{extension, extension_of, join_path, lemma_extension_of_name, path_join};
use crate::text::{
    ascii_lower, chars_of, ends_with, ends_with_chars, eq_ic, eq_ignore_ascii_case, lower_chars,
    lower_seq, chars_eq, opt_view, pop_char, push_char, replace_all, replace_chars, slice_chars,
    starts_with, starts_with_chars, str_eq, string_of, to_uppercase, trim, trim_chars, trim_str,
    unicode_upper, without_last, lemma_trim_of_trimmed, is_ws,
};
use crate::ui::image_preview::PreviewCell;
use crate::ui::modals::settings::format_after;

verus! {

/// A path as dropped into a terminal, made plain: trimmed, without a
/// `file://` prefix or surrounding quotes, with `\ ` unescaped, and with a
/// leading `~/` taken from the home folder (else trimmed again).
pub open spec fn cleaned_path(input: Seq<char>, home: Option<Seq<char>>) -> Seq<char> {
    let t0 = trim(input);
    let t1 = if starts_with(t0, "file://"@) {
        t0.subrange(7, t0.len() as int)
    } else {
        t0
    };
    let quoted = (starts_with(t1, "'"@) && ends_with(t1, "'"@)) || (starts_with(t1, "\""@)
        && ends_with(t1, "\""@));
    let t2 = if quoted && t1.len() >= 2 {
        t1.subrange(1, t1.len() - 1)
    } else {
        t1
    };
    let u = replace_all(t2, "\\ "@, " "@);
    if starts_with(u, "~/"@) && home is Some {
        join_path(home.unwrap(), u.subrange(2, u.len() as int))
    } else {
        trim(u)
    }
}

/// The extensions a cover image may have, compared in lower case.
pub open spec fn is_cover_ext(ext: Seq<char>) -> bool {
    let l = lower_seq(ext);
    l == "jpg"@ || l == "jpeg"@ || l == "png"@ || l == "webp"@ || l == "avif"@
}

/// The cover the typed path names, where it could be one: not empty and
/// with an image extension. (The file must also exist.)
pub open spec fn cover_candidate_of(input: Seq<char>, home: Option<Seq<char>>) -> Option<Seq<char>> {
    let c = cleaned_path(input, home);
    if c.len() == 0 {
        None
    } else {
        match extension_of(c) {
            Some(e) => if is_cover_ext(e) {
                Some(c)
            } else {
                None
            },
            None => None,
        }
    }
}

/// Whether a format is converted by KCC (any but CBZ and PDF).
pub open spec fn converts(format: Seq<char>) -> bool {
    !eq_ic(format, "CBZ"@) && !eq_ic(format, "PDF"@)
}

/// The values of the window that its keys change.
pub struct ProcessView {
    pub input_path: Seq<char>,
    pub format: Seq<char>,
    pub convert_kcc: bool,
    pub fuse_volume: bool,
}

/// Prepares the download of one chapter or several.
pub struct ProcessModal {
    pub input_path: String,
    pub target_title: String,
    pub chapters_count: usize,
    pub format: String,
    pub convert_kcc: bool,
    pub fuse_volume: bool,
    pub cached_preview: Option<Vec<Vec<PreviewCell>>>,
    pub last_preview_path: Option<String>,
    pub last_preview_dims: Option<(u16, u16)>,
}

impl ProcessModal {
    /// The view of the values the keys change.
    pub open spec fn keys_view(&self) -> ProcessView {
        ProcessView {
            input_path: self.input_path@,
            format: self.format@,
            convert_kcc: self.convert_kcc,
            fuse_volume: self.fuse_volume,
        }
    }

    /// Whether the window's target and preview are those of `other`: the
    /// title, the chapter count, and the cached preview with its path and
    /// size.
    pub open spec fn same_target_and_preview(&self, other: &Self) -> bool {
        &&& self.target_title == other.target_title
        &&& self.chapters_count == other.chapters_count
        &&& self.cached_preview == other.cached_preview
        &&& self.last_preview_path == other.last_preview_path
        &&& self.last_preview_dims == other.last_preview_dims
    }

    /// The window for `chapters_count` chapters of a series: the format
    /// upper-cased (AZW3 where none is given), conversion where asked for and
    /// the format is not CBZ or PDF, and fusion where there are several
    /// chapters.
    pub fn new(target_title: &str, chapters_count: usize, default_format: &str, default_kcc: bool) -> (r:
        ProcessModal)
        ensures
            r.input_path@ == Seq::<char>::empty(),
            r.target_title@ == target_title@,
            r.chapters_count == chapters_count,
            r.format@ == (if trim(default_format@).len() == 0 {
                "AZW3"@
            } else {
                unicode_upper(default_format@)
            }),
            r.convert_kcc == (default_kcc && r.format@ != "CBZ"@ && r.format@ != "PDF"@),
            r.fuse_volume == (chapters_count > 1),
            r.cached_preview is None,
            r.last_preview_path is None,
            r.last_preview_dims is None,
    {
        let fmt = if chars_of(trim_str(default_format).as_str()).len() == 0 {
            String::from_str("AZW3")
        } else {
            to_uppercase(default_format)
        };
        let is_kcc = default_kcc && !str_eq(fmt.as_str(), "CBZ") && !str_eq(fmt.as_str(), "PDF");
        ProcessModal {
            input_path: String::new(),
            target_title: String::from_str(target_title),
            chapters_count,
            format: fmt,
            convert_kcc: is_kcc,
            fuse_volume: chapters_count > 1,
            cached_preview: None,
            last_preview_path: None,
            last_preview_dims: None,
        }
    }

    /// Whether the chapters will be converted with KCC.
    pub fn is_kcc(&self) -> (r: bool)
        ensures
            r == (self.convert_kcc && converts(self.format@)),
    {
        self.convert_kcc && !eq_ignore_ascii_case(self.format.as_str(), "CBZ")
            && !eq_ignore_ascii_case(self.format.as_str(), "PDF")
    }

    /// Moves to the next output format; conversion follows the format.
    pub fn cycle_format(&mut self)
        ensures
            final(self).same_target_and_preview(&*old(self)),
            final(self).format@ == format_after(old(self).format@),
            final(self).convert_kcc == converts(format_after(old(self).format@)),
            final(self).input_path == old(self).input_path,
            final(self).fuse_volume == old(self).fuse_volume,
            final(self).chapters_count == old(self).chapters_count,
    {
        let f = self.format.as_str();
        let next = if eq_ignore_ascii_case("AZW3", f) {
            "CBZ"
        } else if eq_ignore_ascii_case("CBZ", f) {
            "EPUB"
        } else if eq_ignore_ascii_case("EPUB", f) {
            "MOBI"
        } else if eq_ignore_ascii_case("MOBI", f) {
            "PDF"
        } else {
            "AZW3"
        };
        self.format = String::from_str(next);
        self.convert_kcc = !eq_ignore_ascii_case(self.format.as_str(), "CBZ")
            && !eq_ignore_ascii_case(self.format.as_str(), "PDF");
    }

    /// A typed character is appended to the cover path. (The caller then
    /// refreshes the preview state with `invalidate_preview`.)
    pub fn handle_char(&mut self, c: char)
        ensures
            final(self).same_target_and_preview(&*old(self)),
            final(self).input_path@ == old(self).input_path@.push(c),
            final(self).format == old(self).format,
            final(self).convert_kcc == old(self).convert_kcc,
            final(self).fuse_volume == old(self).fuse_volume,
    {
        push_char(&mut self.input_path, c);
    }

    /// Backspace removes the last character of the cover path.
    pub fn handle_backspace(&mut self)
        ensures
            final(self).same_target_and_preview(&*old(self)),
            final(self).input_path@ == without_last(old(self).input_path@),
            final(self).format == old(self).format,
            final(self).convert_kcc == old(self).convert_kcc,
            final(self).fuse_volume == old(self).fuse_volume,
    {
        pop_char(&mut self.input_path);
    }

    /// Pasted (or dropped) text replaces the cover path, made plain.
    pub fn handle_paste(&mut self, text: &str)
        ensures
            final(self).same_target_and_preview(&*old(self)),
            exists|home: Option<Seq<char>>|
                #![trigger cleaned_path(text@, home)]
                final(self).input_path@ == cleaned_path(text@, home),
            final(self).format == old(self).format,
            final(self).convert_kcc == old(self).convert_kcc,
            final(self).fuse_volume == old(self).fuse_volume,
    {
        self.input_path = Self::clean_drag_drop_path(text);
    }

    /// After the cover path changed: the preview must be drawn again, and is
    /// dropped where the path names no usable cover.
    pub fn invalidate_preview(&mut self, cover_found: bool)
        ensures
            final(self).target_title == old(self).target_title,
            final(self).chapters_count == old(self).chapters_count,
            final(self).last_preview_path is None,
            !cover_found ==> final(self).cached_preview is None && final(self).last_preview_dims is None,
            cover_found ==> final(self).cached_preview == old(self).cached_preview
                && final(self).last_preview_dims == old(self).last_preview_dims,
            final(self).keys_view() == old(self).keys_view(),
    {
        if !cover_found {
            self.cached_preview = None;
            self.last_preview_path = None;
            self.last_preview_dims = None;
        } else {
            self.last_preview_path = None;
        }
    }

    /// Switches between converting (to AZW3) and not converting (to CBZ).
    pub fn toggle_kcc(&mut self)
        ensures
            final(self).same_target_and_preview(&*old(self)),
            (old(self).convert_kcc && converts(old(self).format@)) ==> final(self).format@ == "CBZ"@
                && !final(self).convert_kcc,
            !(old(self).convert_kcc && converts(old(self).format@)) ==> final(self).format@
                == "AZW3"@ && final(self).convert_kcc,
            final(self).input_path == old(self).input_path,
            final(self).fuse_volume == old(self).fuse_volume,
    {
        if self.is_kcc() {
            self.format = String::from_str("CBZ");
            self.convert_kcc = false;
        } else {
            self.format = String::from_str("AZW3");
            self.convert_kcc = true;
        }
    }

    /// Turns volume fusion on or off; a single chapter is never fused.
    pub fn toggle_fusion(&mut self)
        ensures
            final(self).same_target_and_preview(&*old(self)),
            final(self).fuse_volume == (if old(self).chapters_count > 1 {
                !old(self).fuse_volume
            } else {
                old(self).fuse_volume
            }),
            final(self).input_path == old(self).input_path,
            final(self).format == old(self).format,
            final(self).convert_kcc == old(self).convert_kcc,
    {
        if self.chapters_count > 1 {
            self.fuse_volume = !self.fuse_volume;
        }
    }

    /// Whether the preview drawn last is for this cover and size.
    pub fn preview_is_current(&self, path: &Option<String>, max_cols: u16, max_rows: u16) -> (r: bool)
        ensures
            r == (opt_view(*path) == opt_view(self.last_preview_path) && self.last_preview_dims
                == Some((max_cols, max_rows))),
    {
        let same_path = match (path, &self.last_preview_path) {
            (Some(a), Some(b)) => str_eq(a.as_str(), b.as_str()),
            (None, None) => true,
            _ => false,
        };
        let same_dims = match self.last_preview_dims {
            Some((c, r)) => c == max_cols && r == max_rows,
            None => false,
        };
        same_path && same_dims
    }

    /// Records the preview drawn for a cover (none where there is no usable
    /// cover) and the size it was drawn for.
    pub fn store_preview(
        &mut self,
        path: Option<String>,
        max_cols: u16,
        max_rows: u16,
        preview: Option<Vec<Vec<PreviewCell>>>,
    )
        ensures
            final(self).last_preview_path == path,
            final(self).last_preview_dims == Some((max_cols, max_rows)),
            final(self).cached_preview == preview,
            final(self).keys_view() == old(self).keys_view(),
    {
        self.last_preview_path = path;
        self.last_preview_dims = Some((max_cols, max_rows));
        self.cached_preview = preview;
    }

    /// A dropped path made plain, with the home folder given.
    pub fn clean_drag_drop_path_with_home(input: &str, home: Option<&str>) -> (r: String)
        ensures
            r@ == cleaned_path(
                input@,
                match home {
                    Some(h) => Some(h@),
                    None => None,
                },
            ),
    {
        let t0 = trim_chars(&chars_of(input));
        let scheme = chars_of("file://");
        proof {
            reveal_strlit("file://");
        }
        let t1 = if starts_with_chars(&t0, &scheme) {
            slice_chars(&t0, 7, t0.len())
        } else {
            t0
        };
        let sq = chars_of("'");
        let dq = chars_of("\"");
        let quoted = (starts_with_chars(&t1, &sq) && ends_with_chars(&t1, &sq)) || (
        starts_with_chars(&t1, &dq) && ends_with_chars(&t1, &dq));
        let t2 = if quoted && t1.len() >= 2 {
            slice_chars(&t1, 1, t1.len() - 1)
        } else {
            t1
        };
        let pat = chars_of("\\ ");
        proof {
            reveal_strlit("\\ ");
        }
        let u = replace_chars(&t2, &pat, &chars_of(" "));
        let tilde = chars_of("~/");
        proof {
            reveal_strlit("~/");
        }
        if starts_with_chars(&u, &tilde) {
            match home {
                Some(h) => {
                    let rest = string_of(slice_chars(&u, 2, u.len()).as_slice());
                    return path_join(h, rest.as_str());
                },
                None => {},
            }
        }
        string_of(trim_chars(&u).as_slice())
    }

    /// A dropped path made plain; `~/` is taken from the user's home folder.
    pub fn clean_drag_drop_path(input: &str) -> (r: String)
        ensures
            exists|home: Option<Seq<char>>|
                #![trigger cleaned_path(input@, home)]
                r@ == cleaned_path(input@, home),
    {
        let home = platform_home_dir();
        let r = match &home {
            Some(h) => Self::clean_drag_drop_path_with_home(input, Some(h.as_str())),
            None => Self::clean_drag_drop_path_with_home(input, None),
        };
        proof {
            assert(r@ == cleaned_path(input@, opt_view(home)));
        }
        r
    }

    /// The cover the typed path names, where it could be one (the caller
    /// checks that the file exists), with the home folder given.
    pub fn cover_candidate_with_home(&self, home: Option<&str>) -> (r: Option<String>)
        ensures
            opt_view(r) == cover_candidate_of(
                self.input_path@,
                match home {
                    Some(h) => Some(h@),
                    None => None,
                },
            ),
    {
        let cleaned = Self::clean_drag_drop_path_with_home(self.input_path.as_str(), home);
        if chars_of(cleaned.as_str()).len() == 0 {
            return None;
        }
        match extension(cleaned.as_str()) {
            Some(e) => {
                let l = lower_chars(&chars_of(e.as_str()));
                let ok = chars_eq(&l, &chars_of("jpg")) || chars_eq(&l, &chars_of("jpeg"))
                    || chars_eq(&l, &chars_of("png")) || chars_eq(&l, &chars_of("webp"))
                    || chars_eq(&l, &chars_of("avif"));
                if ok {
                    Some(cleaned)
                } else {
                    None
                }
            },
            None => None,
        }
    }

    /// The cover the typed path names, where it could be one (the caller
    /// checks that the file exists).
    pub fn cover_candidate(&self) -> (r: Option<String>)
        ensures
            exists|home: Option<Seq<char>>|
                #![trigger cover_candidate_of(self.input_path@, home)]
                opt_view(r) == cover_candidate_of(self.input_path@, home),
    {
        let home = platform_home_dir();
        let r = match &home {
            Some(h) => self.cover_candidate_with_home(Some(h.as_str())),
            None => self.cover_candidate_with_home(None),
        };
        proof {
            assert(opt_view(r) == cover_candidate_of(self.input_path@, opt_view(home)));
        }
        r
    }
}


/// Every extension the cover prompt accepts is that of a page image.
pub proof fn lemma_cover_exts_are_page_images(ext: Seq<char>)
    requires
        is_cover_ext(ext),
    ensures
        is_image_ext(ext),
{
}

/// An extension the cover prompt accepts has no `.` or `/` and is not
/// empty.
proof fn lemma_cover_ext_plain(ext: Seq<char>)
    requires
        is_cover_ext(ext),
    ensures
        ext.len() > 0,
        forall|i: int| 0 <= i < ext.len() ==> ext[i] != '.' && ext[i] != '/',
{
    reveal_strlit("jpg");
    reveal_strlit("jpeg");
    reveal_strlit("png");
    reveal_strlit("webp");
    reveal_strlit("avif");
    let l = lower_seq(ext);
    assert(l.len() == ext.len());
    assert forall|i: int| 0 <= i < ext.len() implies ext[i] != '.' && ext[i] != '/' by {
        assert(l[i] == ascii_lower(ext[i]));
    }
}

/// The copy of an accepted custom cover is a page image, and where it is
/// among the chapter's files it is the first file packaged.
pub proof fn lemma_custom_cover_packaged_first(
    input: Seq<char>,
    home: Option<Seq<char>>,
    names: Seq<Seq<char>>,
    r: Seq<Seq<char>>,
)
    requires
        cover_candidate_of(input, home) is Some,
        names.contains(cover_name(cover_candidate_of(input, home).unwrap())),
        packaged_in_order(r, names, Some(cover_name(cover_candidate_of(input, home).unwrap()))),
    ensures
        is_image_file(cover_name(cover_candidate_of(input, home).unwrap())),
        r.len() > 0,
        r[0] == cover_name(cover_candidate_of(input, home).unwrap()),
{
    let c = cover_candidate_of(input, home).unwrap();
    let e = extension_of(c).unwrap();
    lemma_cover_ext_plain(e);
    reveal_strlit("0000_cover.");
    let stem = "0000_cover"@;
    reveal_strlit("0000_cover");
    assert("0000_cover."@ =~= stem + seq!['.']);
    lemma_extension_of_name(stem, e);
    assert(cover_name(c) =~= stem + seq!['.'] + e);
    lemma_present_cover_first(r, names, cover_name(c));
}


/// Replacing a pattern whose first character does not occur leaves the
/// text as it is.
proof fn lemma_replace_absent(s: Seq<char>, pat: Seq<char>, rep: Seq<char>)
    requires
        pat.len() > 0,
        forall|i: int| 0 <= i < s.len() ==> s[i] != pat[0],
    ensures
        replace_all(s, pat, rep) == s,
    decreases s.len(),
{
    if s.len() > 0 {
        assert(!starts_with(s, pat)) by {
            if starts_with(s, pat) {
                assert(s.subrange(0, pat.len() as int)[0] == s[0]);
            }
        }
        lemma_replace_absent(s.drop_first(), pat, rep);
        assert(seq![s[0]] + s.drop_first() =~= s);
    }
}

/// A path typed as `~/` and the rest is taken from the home folder where
/// one is known: it is the home folder joined with the rest, and it is the
/// cover candidate where it is one at all.
pub proof fn lemma_home_expands_tilde(rest: Seq<char>, h: Seq<char>)
    requires
        rest.len() > 0,
        !is_ws(rest.last()),
        forall|i: int| 0 <= i < rest.len() ==> rest[i] != '\\',
    ensures
        cleaned_path("~/"@ + rest, Some(h)) == join_path(h, rest),
        cover_candidate_of("~/"@ + rest, Some(h)) matches Some(c) ==> c == join_path(h, rest),
{
    reveal_strlit("~/");
    reveal_strlit("file://");
    reveal_strlit("'");
    reveal_strlit("\"");
    reveal_strlit("\\ ");
    let t = "~/"@ + rest;
    assert(t[0] == '~');
    assert(t.last() == rest.last());
    lemma_trim_of_trimmed(t);
    assert(!starts_with(t, "file://"@)) by {
        if starts_with(t, "file://"@) {
            assert(t.subrange(0, 7)[0] == t[0]);
        }
    }
    assert(!starts_with(t, "'"@)) by {
        if starts_with(t, "'"@) {
            assert(t.subrange(0, 1)[0] == t[0]);
        }
    }
    assert(!starts_with(t, "\""@)) by {
        if starts_with(t, "\""@) {
            assert(t.subrange(0, 1)[0] == t[0]);
        }
    }
    assert forall|i: int| 0 <= i < t.len() implies t[i] != "\\ "@[0] by {
        if i >= 2 {
            assert(t[i] == rest[i - 2]);
        }
    }
    lemma_replace_absent(t, "\\ "@, " "@);
    assert(t.subrange(0, 2) =~= "~/"@);
    assert(t.subrange(2, t.len() as int) =~= rest);
}

} // verus!
