//! Planning a download job: what the job is called, where its files go,
//! and the progress lines it reports.

use vstd::prelude::*;
use crate::downloader::{ChapterDownloader, safe_name};
use crate::i18n::{AppLanguage, pick};
use crate::order::{is_sorted, sort_strings, string_seq};
use crate::paths::{extension, extension_of, join_path, path_join};
use crate::text::{dec, decimal, pad_zeros, zero_padded};
use crate::domain::manga::Chapter;
use crate::ui::modals::source_select::NameSet;

verus! {

/// The title of the preparation window and the number of chapters it is
/// for: the chapter under the cursor where none is selected (`None` where
/// there is no cursor either), else the series (or "Volume") with the count.
pub open spec fn job_title(
    selected: nat,
    cursor: bool,
    cursor_title: Option<Seq<char>>,
    manga_title: Option<Seq<char>>,
) -> Option<(Seq<char>, nat)> {
    if selected == 0 {
        if !cursor {
            None
        } else {
            Some(
                (
                    match cursor_title {
                        Some(t) => t,
                        None => "Chapter"@,
                    },
                    1,
                ),
            )
        }
    } else {
        let head = match manga_title {
            Some(t) => t + " ("@,
            None => "Volume ("@,
        };
        Some((head + dec(selected) + " chapters)"@, selected))
    }
}

/// The title of the preparation window and the number of chapters.
pub fn process_title(
    selected: usize,
    cursor: bool,
    cursor_title: Option<&str>,
    manga_title: Option<&str>,
) -> (r: Option<(String, usize)>)
    ensures
        match r {
            Some((t, n)) => job_title(
                selected as nat,
                cursor,
                match cursor_title {
                    Some(c) => Some(c@),
                    None => None,
                },
                match manga_title {
                    Some(m) => Some(m@),
                    None => None,
                },
            ) == Some((t@, n as nat)),
            None => job_title(
                selected as nat,
                cursor,
                match cursor_title {
                    Some(c) => Some(c@),
                    None => None,
                },
                match manga_title {
                    Some(m) => Some(m@),
                    None => None,
                },
            ) is None,
        },
{
    if selected == 0 {
        if !cursor {
            return None;
        }
        let t = match cursor_title {
            Some(c) => String::from_str(c),
            None => String::from_str("Chapter"),
        };
        return Some((t, 1));
    }
    let mut t = match manga_title {
        Some(m) => {
            let mut s = String::from_str(m);
            s.append(" (");
            s
        },
        None => String::from_str("Volume ("),
    };
    t.append(decimal(selected as u64).as_str());
    t.append(" chapters)");
    Some((t, selected))
}

/// The name of a fused volume: the one chapter's title, or the series with
/// the first and last chapters.
pub open spec fn volume_title(manga: Seq<char>, first: Seq<char>, last: Seq<char>, count: nat) -> Seq<
    char,
> {
    if count == 1 {
        first
    } else {
        manga + " - Volume ("@ + first + " to "@ + last + ")"@
    }
}

/// The name of a fused volume.
pub fn volume_name(manga: &str, first: &str, last: &str, count: usize) -> (r: String)
    ensures
        r@ == volume_title(manga@, first@, last@, count as nat),
{
    if count == 1 {
        return String::from_str(first);
    }
    let mut s = String::from_str(manga);
    s.append(" - Volume (");
    s.append(first);
    s.append(" to ");
    s.append(last);
    s.append(")");
    s
}

/// Where an output file goes: `name.ext` (made safe) in the series' folder
/// (made safe) inside the download folder.
pub open spec fn output_path(download_dir: Seq<char>, manga: Seq<char>, name: Seq<char>, ext: Seq<
    char,
>) -> Seq<char> {
    join_path(join_path(download_dir, safe_name(manga)), safe_name(name) + "."@ + ext)
}

/// Where an output file goes.
pub fn output_file(download_dir: &str, manga: &str, name: &str, ext: &str) -> (r: String)
    ensures
        r@ == output_path(download_dir@, manga@, name@, ext@),
{
    let folder = path_join(download_dir, ChapterDownloader::sanitize_name(manga).as_str());
    let mut file = ChapterDownloader::sanitize_name(name);
    file.append(".");
    file.append(ext);
    path_join(folder.as_str(), file.as_str())
}

/// The series' folder (made safe) inside the download folder.
pub fn series_folder(download_dir: &str, manga: &str) -> (r: String)
    ensures
        r@ == join_path(download_dir@, safe_name(manga@)),
{
    path_join(download_dir, ChapterDownloader::sanitize_name(manga).as_str())
}

/// The temporary folder a chapter's pages are downloaded to.
pub fn chapter_work_dir(manga: &str, chapter: &str) -> (r: String)
    ensures
        r@ == "neo_mangal_"@ + safe_name(manga@) + "_"@ + safe_name(chapter@),
{
    let mut s = String::from_str("neo_mangal_");
    s.append(ChapterDownloader::sanitize_name(manga).as_str());
    s.append("_");
    s.append(ChapterDownloader::sanitize_name(chapter).as_str());
    s
}

/// The temporary folder a volume is assembled in.
pub fn fusion_work_dir(volume: &str) -> (r: String)
    ensures
        r@ == "neo_mangal_fusion_"@ + safe_name(volume@),
{
    let mut s = String::from_str("neo_mangal_fusion_");
    s.append(ChapterDownloader::sanitize_name(volume).as_str());
    s
}

/// The folder of the `index`-th chapter (from 0) inside a volume's folder.
pub fn fusion_chapter_dir(index: usize) -> (r: String)
    requires
        index < usize::MAX,
    ensures
        r@ == "ch_"@ + pad_zeros(dec((index + 1) as nat), 4),
{
    let mut s = String::from_str("ch_");
    s.append(zero_padded((index + 1) as u64, 4).as_str());
    s
}

/// The name a page takes in a volume: its number across the volume in six
/// digits, and its own extension.
pub fn fusion_page_name(number: usize, ext: &str) -> (r: String)
    ensures
        r@ == pad_zeros(dec(number as nat), 6) + "."@ + ext@,
{
    let mut s = zero_padded(number as u64, 6);
    s.append(".");
    s.append(ext);
    s
}

/// A page's extension, `png` where it has none.
pub open spec fn ext_or_png(name: Seq<char>) -> Seq<char> {
    match extension_of(name) {
        Some(e) => e,
        None => "png"@,
    }
}

/// The name of page `number` of a volume with extension `ext`.
pub open spec fn fusion_page(number: nat, ext: Seq<char>) -> Seq<char> {
    pad_zeros(dec(number), 6) + "."@ + ext
}

/// How the page files of one chapter are renamed into a volume whose next
/// page number is `first`: the files in name order, each with the next
/// number and its own extension (`png` where it has none).
pub fn fusion_renames(names: &Vec<String>, first: usize) -> (r: Vec<(String, String)>)
    requires
        first + names@.len() <= usize::MAX,
    ensures
        r@.len() == names@.len(),
        is_sorted(string_seq(r@.map_values(|p: (String, String)| p.0))),
        string_seq(r@.map_values(|p: (String, String)| p.0)).to_multiset() == string_seq(names@).to_multiset(),
        forall|k: int|
            0 <= k < r@.len() ==> (#[trigger] r@[k]).1@ == fusion_page((first + k) as nat, ext_or_png(r@[k].0@)),
{
    let mut copy: Vec<String> = Vec::new();
    let mut i: usize = 0;
    while i < names.len()
        invariant
            i <= names@.len(),
            string_seq(copy@) == string_seq(names@).subrange(0, i as int),
        decreases names@.len() - i,
    {
        let n = String::from_str(names[i].as_str());
        let ghost prev = copy@;
        copy.push(n);
        i = i + 1;
        assert(string_seq(copy@) =~= string_seq(prev).push(n@));
        assert(string_seq(copy@) =~= string_seq(names@).subrange(0, i as int));
    }
    assert(string_seq(names@).subrange(0, i as int) =~= string_seq(names@));
    let sorted = sort_strings(copy);
    proof {
        vstd::seq_lib::to_multiset_len(string_seq(sorted@));
        vstd::seq_lib::to_multiset_len(string_seq(names@));
        assert(string_seq(sorted@).len() == string_seq(names@).len());
    }
    let mut out: Vec<(String, String)> = Vec::new();
    let mut k: usize = 0;
    while k < sorted.len()
        invariant
            k <= sorted@.len(),
            first + sorted@.len() <= usize::MAX,
            out@.len() == k,
            forall|j: int| 0 <= j < k ==> (#[trigger] out@[j]).0@ == sorted@[j]@,
            forall|j: int|
                0 <= j < k ==> (#[trigger] out@[j]).1@ == fusion_page((first + j) as nat, ext_or_png(out@[j].0@)),
        decreases sorted@.len() - k,
    {
        let name = String::from_str(sorted[k].as_str());
        let ext = match extension(name.as_str()) {
            Some(e) => e,
            None => String::from_str("png"),
        };
        let target = fusion_page_name(first + k, ext.as_str());
        let ghost prev = out@;
        out.push((name, target));
        proof {
            assert forall|j: int| 0 <= j < k + 1 implies (#[trigger] out@[j]).0@ == sorted@[j]@ by {
                if j < k {
                    assert(out@[j] == prev[j]);
                }
            }
            assert forall|j: int| 0 <= j < k + 1 implies (#[trigger] out@[j]).1@ == fusion_page(
                (first + j) as nat,
                ext_or_png(out@[j].0@),
            ) by {
                if j < k {
                    assert(out@[j] == prev[j]);
                }
            }
        }
        k = k + 1;
    }
    assert(string_seq(out@.map_values(|p: (String, String)| p.0)) =~= string_seq(sorted@));
    out
}

/// The progress line while the chapters of a volume are fetched.
pub fn fetch_message(lang: AppLanguage, current: usize, total: usize) -> (r: String)
    ensures
        r@ == pick(lang, "Fetching chapter "@, "Buscando capítulo "@) + dec(current as nat) + "/"@
            + dec(total as nat) + "..."@,
{
    let mut s = match lang {
        AppLanguage::English => String::from_str("Fetching chapter "),
        AppLanguage::Portuguese => String::from_str("Buscando capítulo "),
    };
    s.append(decimal(current as u64).as_str());
    s.append("/");
    s.append(decimal(total as u64).as_str());
    s.append("...");
    s
}

/// The indices of the chapters whose ids are selected, in list order.
pub open spec fn selected_indices(ids: Seq<Seq<char>>, selected: Set<Seq<char>>) -> Seq<int>
    decreases ids.len(),
{
    if ids.len() == 0 {
        Seq::empty()
    } else {
        let rest = selected_indices(ids.drop_last(), selected);
        if selected.contains(ids.last()) {
            rest.push(ids.len() - 1)
        } else {
            rest
        }
    }
}

/// The ids of a list of chapters.
pub open spec fn ids_of(chapters: Seq<Chapter>) -> Seq<Seq<char>> {
    chapters.map_values(|c: Chapter| c.id@)
}

/// The chapters a job works on, as indices into `chapters`: where none is
/// selected, the one under the cursor on the current page (`page` holds the
/// indices of the page's chapters), if any; else every selected chapter,
/// in list order.
pub open spec fn job_targets(
    ids: Seq<Seq<char>>,
    page: Seq<int>,
    selected: Set<Seq<char>>,
    cursor: Option<nat>,
) -> Seq<int> {
    if selected.len() == 0 {
        match cursor {
            Some(i) => if i < page.len() {
                seq![page[i as int]]
            } else {
                Seq::empty()
            },
            None => Seq::empty(),
        }
    } else {
        selected_indices(ids, selected)
    }
}

/// The chapters a job works on, as indices into `chapters`.
pub fn target_chapters(chapters: &[Chapter], page: &[usize], selected: &NameSet, cursor: Option<usize>) -> (r:
    Vec<usize>)
    ensures
        r@.map_values(|i: usize| i as int) == job_targets(
            ids_of(chapters@),
            page@.map_values(|i: usize| i as int),
            selected@,
            match cursor {
                Some(i) => Some(i as nat),
                None => None,
            },
        ),
{
    if selected.is_empty() {
        let mut r: Vec<usize> = Vec::new();
        match cursor {
            Some(i) => {
                if i < page.len() {
                    r.push(page[i]);
                }
            },
            None => {},
        }
        assert(r@.map_values(|i: usize| i as int) =~= job_targets(
            ids_of(chapters@),
            page@.map_values(|i: usize| i as int),
            selected@,
            match cursor {
                Some(i) => Some(i as nat),
                None => None,
            },
        ));
        return r;
    }
    let ghost ids = ids_of(chapters@);
    let mut out: Vec<usize> = Vec::new();
    let mut i: usize = 0;
    while i < chapters.len()
        invariant
            i <= chapters@.len(),
            ids == ids_of(chapters@),
            out@.map_values(|k: usize| k as int) == selected_indices(ids.subrange(0, i as int), selected@),
        decreases chapters@.len() - i,
    {
        proof {
            assert(ids.subrange(0, i + 1).drop_last() =~= ids.subrange(0, i as int));
            assert(ids.subrange(0, i + 1).last() == chapters@[i as int].id@);
        }
        if selected.contains(chapters[i].id.as_str()) {
            let ghost before = out@.map_values(|k: usize| k as int);
            out.push(i);
            assert(out@.map_values(|k: usize| k as int) =~= before.push(i as int));
        }
        i = i + 1;
    }
    assert(ids.subrange(0, ids.len() as int) =~= ids);
    out
}

} // verus!
