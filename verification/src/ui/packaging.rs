//! What a finished download is packed into, and what the user is told of
//! the outcome: the packaging the settings ask for, the messages of success
//! and failure, and whether reading progress goes to AniList.

use vstd::prelude::*;
use crate::anilist::{signed_decimal, signed_text};
use crate::config::Config;
use crate::i18n::{AppLanguage, pick};
use crate::text::{eq_ic, eq_ignore_ascii_case, opt_view, clone_opt};

verus! {

/// What the downloaded pages become.
#[derive(Debug, Clone, Copy, PartialEq, Eq, Structural)]
pub enum Packaging {
    /// A PDF document.
    Pdf,
    /// A CBZ archive kept as it is.
    Cbz,
    /// A CBZ archive converted by KCC for the Kindle.
    Kindle,
}

/// The step of a job that can fail after the download.
#[derive(Debug, Clone, Copy, PartialEq, Eq, Structural)]
pub enum PackStep {
    PdfPacking,
    CbzPacking,
    Conversion,
}

/// The packaging for an output format (PDF in any case) and whether KCC
/// conversion is on.
pub open spec fn packaging_for(format: Seq<char>, convert_kcc: bool) -> Packaging {
    if eq_ic(format, "PDF"@) {
        Packaging::Pdf
    } else if convert_kcc {
        Packaging::Kindle
    } else {
        Packaging::Cbz
    }
}

/// The message of a finished job, for a single chapter or a fused volume,
/// naming the file made.
pub open spec fn done_text(p: Packaging, volume: bool, path: Seq<char>) -> Seq<char> {
    match p {
        Packaging::Kindle => (if volume { "Kindle Volume ready:\n"@ } else { "Kindle output ready:\n"@ }) + path,
        Packaging::Pdf => (if volume { "Volume Fusion complete!\nSaved at: "@ } else { "PDF save complete:\n"@ })
            + path,
        Packaging::Cbz => (if volume { "Volume Fusion complete!\nSaved at: "@ } else {
            "CBZ direct save complete:\n"@
        }) + path,
    }
}

/// The message of a failed step, with the error.
pub open spec fn failure_text(step: PackStep, volume: bool, error: Seq<char>) -> Seq<char> {
    (match step {
        PackStep::PdfPacking => if volume { "Volume Fusion PDF packaging failed: "@ } else {
            "PDF Packaging failed: "@
        },
        PackStep::CbzPacking => if volume { "Volume Fusion CBZ packaging failed: "@ } else {
            "CBZ Packaging failed: "@
        },
        PackStep::Conversion => "KCC Conversion failed: "@,
    }) + error
}

/// The message once reading progress reached AniList.
pub open spec fn synced_text(volume: bool, manga: Seq<char>, chapter: int) -> Seq<char> {
    (if volume { "AniList volume synced: "@ } else { "AniList synced: "@ }) + manga + " (Ch. "@ + signed_text(
        chapter,
    ) + ")"@
}

fn pick_for(volume: bool, one: &'static str, fused: &'static str) -> (r: &'static str)
    ensures
        r@ == (if volume { fused@ } else { one@ }),
{
    if volume {
        fused
    } else {
        one
    }
}

/// The packaging the settings ask for.
pub fn packaging(format: &str, convert_kcc: bool) -> (r: Packaging)
    ensures
        r == packaging_for(format@, convert_kcc),
{
    proof {
        reveal_strlit("PDF");
    }
    if eq_ignore_ascii_case(format, "PDF") {
        Packaging::Pdf
    } else if convert_kcc {
        Packaging::Kindle
    } else {
        Packaging::Cbz
    }
}

/// The message of a finished job naming the file made at `path`.
pub fn done_message(p: Packaging, volume: bool, path: &str) -> (r: String)
    ensures
        r@ == done_text(p, volume, path@),
{
    let head = match p {
        Packaging::Kindle => pick_for(volume, "Kindle output ready:\n", "Kindle Volume ready:\n"),
        Packaging::Pdf => pick_for(volume, "PDF save complete:\n", "Volume Fusion complete!\nSaved at: "),
        Packaging::Cbz => pick_for(volume, "CBZ direct save complete:\n", "Volume Fusion complete!\nSaved at: "),
    };
    let mut s = String::from_str(head);
    s.append(path);
    s
}

/// The message of a failed step, with the error.
pub fn failure_message(step: PackStep, volume: bool, error: &str) -> (r: String)
    ensures
        r@ == failure_text(step, volume, error@),
{
    let head = match step {
        PackStep::PdfPacking => pick_for(volume, "PDF Packaging failed: ", "Volume Fusion PDF packaging failed: "),
        PackStep::CbzPacking => pick_for(volume, "CBZ Packaging failed: ", "Volume Fusion CBZ packaging failed: "),
        PackStep::Conversion => "KCC Conversion failed: ",
    };
    let mut s = String::from_str(head);
    s.append(error);
    s
}

/// The token to send reading progress with after a download: the saved
/// token where AniList is on and progress is synced on download, else none.
pub fn sync_token(config: &Config) -> (r: Option<String>)
    ensures
        opt_view(r) == (if config.anilist_enabled && config.anilist_sync_on_download {
            opt_view(config.anilist_token)
        } else {
            None
        }),
{
    if config.anilist_enabled && config.anilist_sync_on_download {
        clone_opt(&config.anilist_token)
    } else {
        None
    }
}

/// The message once reading progress reached AniList.
pub fn synced_message(volume: bool, manga: &str, chapter: i32) -> (r: String)
    ensures
        r@ == synced_text(volume, manga@, chapter as int),
{
    let mut s = String::from_str(pick_for(volume, "AniList synced: ", "AniList volume synced: "));
    s.append(manga);
    s.append(" (Ch. ");
    s.append(signed_decimal(chapter as i64).as_str());
    s.append(")");
    s
}

/// The message when a chapter's pages could not be listed.
pub open spec fn pages_failed_text(chapter: Seq<char>, error: Seq<char>) -> Seq<char> {
    "Failed to get pages for "@ + chapter + ": "@ + error
}

/// The message when a chapter's pages could not be downloaded.
pub open spec fn download_failed_text(chapter: Seq<char>, error: Seq<char>) -> Seq<char> {
    "Download failed for "@ + chapter + ": "@ + error
}

/// The message when a page download failed while a volume is fused.
pub open spec fn fusion_download_failed_text(error: Seq<char>) -> Seq<char> {
    "Download failed during fusion: "@ + error
}

/// The status while reading progress is sent to AniList.
pub open spec fn syncing_text(lang: AppLanguage, chapter: int) -> Seq<char> {
    pick(lang, "Syncing AniList: Ch. "@, "Sincronizando AniList: Cap. "@) + signed_text(chapter) + "..."@
}

/// The message once a chapter was marked as read on AniList.
pub open spec fn marked_read_text(chapter: int, title: Seq<char>) -> Seq<char> {
    "AniList: Marked read up to Ch. "@ + signed_text(chapter) + " ("@ + title + ")"@
}

/// The message when AniList refused the progress.
pub open spec fn sync_failed_text(error: Seq<char>) -> Seq<char> {
    "AniList sync failed: "@ + error
}

/// The message when AniList knows no such series.
pub open spec fn not_on_anilist_text(manga: Seq<char>) -> Seq<char> {
    "Manga \""@ + manga + "\" not found on AniList"@
}

/// The message when the AniList search failed.
pub open spec fn anilist_search_failed_text(error: Seq<char>) -> Seq<char> {
    "AniList search failed: "@ + error
}

fn cat(a: &str, b: &str) -> (r: String)
    ensures
        r@ == a@ + b@,
{
    let mut s = String::from_str(a);
    s.append(b);
    s
}

/// The message when a chapter's pages could not be listed.
pub fn pages_failed(chapter: &str, error: &str) -> (r: String)
    ensures
        r@ == pages_failed_text(chapter@, error@),
{
    let mut s = cat("Failed to get pages for ", chapter);
    s.append(": ");
    s.append(error);
    s
}

/// The message when a chapter's pages could not be downloaded.
pub fn download_failed(chapter: &str, error: &str) -> (r: String)
    ensures
        r@ == download_failed_text(chapter@, error@),
{
    let mut s = cat("Download failed for ", chapter);
    s.append(": ");
    s.append(error);
    s
}

/// The message when a page download failed while a volume is fused.
pub fn fusion_download_failed(error: &str) -> (r: String)
    ensures
        r@ == fusion_download_failed_text(error@),
{
    cat("Download failed during fusion: ", error)
}

/// The status while reading progress is sent to AniList.
pub fn syncing_message(lang: AppLanguage, chapter: i32) -> (r: String)
    ensures
        r@ == syncing_text(lang, chapter as int),
{
    let head = match lang {
        AppLanguage::English => "Syncing AniList: Ch. ",
        AppLanguage::Portuguese => "Sincronizando AniList: Cap. ",
    };
    let mut s = cat(head, signed_decimal(chapter as i64).as_str());
    s.append("...");
    s
}

/// The message once a chapter was marked as read on AniList.
pub fn marked_read_message(chapter: i32, title: &str) -> (r: String)
    ensures
        r@ == marked_read_text(chapter as int, title@),
{
    let mut s = cat("AniList: Marked read up to Ch. ", signed_decimal(chapter as i64).as_str());
    s.append(" (");
    s.append(title);
    s.append(")");
    s
}

/// The message when AniList refused the progress.
pub fn sync_failed(error: &str) -> (r: String)
    ensures
        r@ == sync_failed_text(error@),
{
    cat("AniList sync failed: ", error)
}

/// The message when AniList knows no such series.
pub fn not_on_anilist(manga: &str) -> (r: String)
    ensures
        r@ == not_on_anilist_text(manga@),
{
    let mut s = cat("Manga \"", manga);
    s.append("\" not found on AniList");
    s
}

/// The message when the AniList search failed.
pub fn anilist_search_failed(error: &str) -> (r: String)
    ensures
        r@ == anilist_search_failed_text(error@),
{
    cat("AniList search failed: ", error)
}

} // verus!
