//! The installed scraper sources: where they live, how their files are
//! named, and where they are downloaded from.

use vstd::prelude::*;
use crate::order::{is_sorted, sort_strings, string_seq};
use crate::paths::{extension, extension_of, file_stem, join_path, path_join, stem_of};
use crate::text::{chars_of, ends_with, ends_with_chars, opt_view, slice_chars, str_eq, string_of};

verus! {

/// The repository the official sources come from.
pub const DEFAULT_REPO: &'static str = "kalebhenrique/neo-mangal-scrapers";

/// The name of the source in a file, where the file is a Lua script (its
/// extension is exactly `lua`): the file's stem.
pub open spec fn lua_source(path: Seq<char>) -> Option<Seq<char>> {
    if extension_of(path) == Some("lua"@) {
        stem_of(path)
    } else {
        None
    }
}

/// A file name without its `.lua` suffix (unchanged where it has none).
pub open spec fn without_lua_suffix(name: Seq<char>) -> Seq<char> {
    if ends_with(name, ".lua"@) {
        name.subrange(0, name.len() - 4)
    } else {
        name
    }
}

/// The strings sorted with each one kept once.
pub open spec fn dedup_sorted(s: Seq<Seq<char>>) -> Seq<Seq<char>>
    decreases s.len(),
{
    if s.len() <= 1 {
        s
    } else {
        let rest = dedup_sorted(s.drop_last());
        if s.last() == s[s.len() - 2] {
            rest
        } else {
            rest.push(s.last())
        }
    }
}

/// The scraper sources curated for download where the listing of the
/// repository cannot be had.
pub open spec fn fallback_scrapers() -> Seq<Seq<char>> {
    seq![
        "WeebCentral.lua"@,
        "MangaDex.lua"@,
        "MangaKakalot.lua"@,
        "Manganelo.lua"@,
        "Mangasee.lua"@,
        "AsuraScans.lua"@,
        "FlameScans.lua"@,
        "ComicK.lua"@,
    ]
}

/// The views of a list of string slices.
pub open spec fn strs_of(v: Seq<&'static str>) -> Seq<Seq<char>> {
    v.map_values(|s: &'static str| s@)
}

/// What the repository's listing of scraper files holds, as `serde_json`
/// reads it into a list of values: for each entry its `name` and its
/// `download_url` where they are strings; `None` where the body is not a
/// JSON array.
pub uninterp spec fn listing_entries(body: Seq<char>) -> Option<Seq<(Option<Seq<char>>, Option<Seq<char>>)>>;

/// The fields of a listing entry.
pub open spec fn entry_view(e: (Option<String>, Option<String>)) -> (Option<Seq<char>>, Option<Seq<char>>) {
    (opt_view(e.0), opt_view(e.1))
}

/// Reads the listing with `serde_json::from_str::<Vec<serde_json::Value>>`
/// and picks each entry's `name` and `download_url` strings. Claimed: the
/// result is `listing_entries` of the body.
#[verifier::external_body]
fn parse_listing(body: &str) -> (r: Option<Vec<(Option<String>, Option<String>)>>)
    ensures
        match r {
            Some(v) => listing_entries(body@) == Some(v@.map_values(|e: (Option<String>, Option<String>)| entry_view(e))),
            None => listing_entries(body@) is None,
        },
{
    let items: Vec<serde_json::Value> = serde_json::from_str(body).ok()?;
    Some(
        items
            .iter()
            .map(|it| (
                it.get("name").and_then(|n| n.as_str()).map(|n| n.to_string()),
                it.get("download_url").and_then(|u| u.as_str()).map(|u| u.to_string()),
            ))
            .collect(),
    )
}

/// The entries of a listing that name a Lua file and can be downloaded,
/// in listing order: the file name and its download address.
pub open spec fn lua_entries(es: Seq<(Option<Seq<char>>, Option<Seq<char>>)>) -> Seq<(Seq<char>, Seq<char>)>
    decreases es.len(),
{
    if es.len() == 0 {
        Seq::empty()
    } else {
        let rest = lua_entries(es.drop_last());
        match es.last() {
            (Some(n), Some(u)) => if ends_with(n, ".lua"@) {
                rest.push((n, u))
            } else {
                rest
            },
            _ => rest,
        }
    }
}

/// The installed scraper sources.
pub struct SourceManager;

impl SourceManager {
    /// The folder of the sources under `~/.config`.
    pub fn dot_config_sources(home: &str) -> (r: String)
        ensures
            r@ == join_path(join_path(join_path(home@, ".config"@), "neo-mangal"@), "sources"@),
    {
        let a = path_join(home, ".config");
        let b = path_join(a.as_str(), "neo-mangal");
        path_join(b.as_str(), "sources")
    }

    /// The folder of the sources inside the platform's configuration
    /// folder (the current folder where there is none).
    pub fn config_sources(config_dir: Option<&str>) -> (r: String)
        ensures
            r@ == join_path(
                join_path(
                    match config_dir {
                        Some(d) => d@,
                        None => "."@,
                    },
                    "neo-mangal"@,
                ),
                "sources"@,
            ),
    {
        let base = match config_dir {
            Some(d) => String::from_str(d),
            None => String::from_str("."),
        };
        let b = path_join(base.as_str(), "neo-mangal");
        path_join(b.as_str(), "sources")
    }

    /// The name of the source in a file, where the file is a Lua script.
    pub fn lua_source_name(path: &str) -> (r: Option<String>)
        ensures
            opt_view(r) == lua_source(path@),
    {
        match extension(path) {
            Some(e) => {
                if str_eq(e.as_str(), "lua") {
                    file_stem(path)
                } else {
                    None
                }
            },
            None => None,
        }
    }

    /// A file name without its `.lua` suffix.
    pub fn strip_lua_suffix(name: &str) -> (r: String)
        ensures
            r@ == without_lua_suffix(name@),
    {
        let v = chars_of(name);
        let suffix = chars_of(".lua");
        proof {
            reveal_strlit(".lua");
        }
        if ends_with_chars(&v, &suffix) {
            string_of(slice_chars(&v, 0, v.len() - 4).as_slice())
        } else {
            string_of(v.as_slice())
        }
    }

    /// The names sorted, each kept once.
    pub fn sort_dedup(names: Vec<String>) -> (r: Vec<String>)
        ensures
            exists|sorted: Seq<Seq<char>>|
                #![trigger dedup_sorted(sorted)]
                is_sorted(sorted) && sorted.to_multiset() == string_seq(names@).to_multiset()
                    && string_seq(r@) == dedup_sorted(sorted),
    {
        let sorted = sort_strings(names);
        let ghost s = string_seq(sorted@);
        let mut out: Vec<String> = Vec::new();
        let mut i: usize = 0;
        while i < sorted.len()
            invariant
                i <= sorted@.len(),
                s == string_seq(sorted@),
                string_seq(out@) == dedup_sorted(s.subrange(0, i as int)),
                i > 0 ==> out@.len() > 0 && string_seq(out@).last() == s[i - 1],
            decreases sorted@.len() - i,
        {
            proof {
                assert(s.subrange(0, i + 1).drop_last() =~= s.subrange(0, i as int));
                if i > 0 {
                    assert(s.subrange(0, i + 1)[i - 1] == s[i - 1]);
                    assert(dedup_sorted(s.subrange(0, i as int)).len() > 0);
                }
            }
            let dup = i > 0 && str_eq(sorted[i].as_str(), sorted[i - 1].as_str());
            if !dup {
                let ghost ob = string_seq(out@);
                out.push(sorted[i].clone());
                assert(string_seq(out@) =~= ob.push(s[i as int]));
            } else {
                proof {
                    assert(string_seq(out@).last() == s[i as int]);
                }
            }
            proof {
                lemma_dedup_last(s.subrange(0, i + 1));
            }
            i = i + 1;
        }
        assert(s.subrange(0, s.len() as int) =~= s);
        out
    }

    /// The address of the repository's listing of its sources.
    pub fn api_url(repo: &str) -> (r: String)
        ensures
            r@ == "https://api.github.com/repos/"@ + repo@ + "/contents/scrapers"@,
    {
        let mut s = String::from_str("https://api.github.com/repos/");
        s.append(repo);
        s.append("/contents/scrapers");
        s
    }

    /// The address of one source file in the repository.
    pub fn raw_url(repo: &str, filename: &str) -> (r: String)
        ensures
            r@ == "https://raw.githubusercontent.com/"@ + repo@ + "/main/scrapers/"@ + filename@,
    {
        let mut s = String::from_str("https://raw.githubusercontent.com/");
        s.append(repo);
        s.append("/main/scrapers/");
        s.append(filename);
        s
    }

    /// The curated sources downloaded where the listing cannot be had.
    pub fn fallback_scrapers() -> (r: Vec<&'static str>)
        ensures
            strs_of(r@) == fallback_scrapers(),
    {
        let r = vec![
            "WeebCentral.lua",
            "MangaDex.lua",
            "MangaKakalot.lua",
            "Manganelo.lua",
            "Mangasee.lua",
            "AsuraScans.lua",
            "FlameScans.lua",
            "ComicK.lua",
        ];
        assert(strs_of(r@) =~= fallback_scrapers());
        r
    }

    /// The Lua files a repository listing offers for download, in listing
    /// order: each file name and its download address; `None` where the
    /// body is no listing.
    pub fn lua_downloads(body: &str) -> (r: Option<Vec<(String, String)>>)
        ensures
            match listing_entries(body@) {
                Some(es) => r matches Some(v) && v@.map_values(|p: (String, String)| (p.0@, p.1@))
                    == lua_entries(es),
                None => r is None,
            },
    {
        let entries = match parse_listing(body) {
            Some(v) => v,
            None => return None,
        };
        let ghost es = entries@.map_values(|e: (Option<String>, Option<String>)| entry_view(e));
        let suffix = chars_of(".lua");
        proof {
            reveal_strlit(".lua");
        }
        let mut out: Vec<(String, String)> = Vec::new();
        let mut i: usize = 0;
        assert(es.subrange(0, 0) =~= Seq::<(Option<Seq<char>>, Option<Seq<char>>)>::empty());
        while i < entries.len()
            invariant
                i <= entries@.len(),
                es == entries@.map_values(|e: (Option<String>, Option<String>)| entry_view(e)),
                suffix@ == ".lua"@,
                out@.map_values(|p: (String, String)| (p.0@, p.1@)) == lua_entries(es.subrange(0, i as int)),
            decreases entries@.len() - i,
        {
            let ghost before = out@;
            proof {
                assert(es.subrange(0, i + 1).drop_last() =~= es.subrange(0, i as int));
                assert(es.subrange(0, i + 1).last() == entry_view(entries@[i as int]));
            }
            match &entries[i] {
                (Some(n), Some(u)) => {
                    if ends_with_chars(&chars_of(n.as_str()), &suffix) {
                        out.push((n.clone(), u.clone()));
                        assert(out@.map_values(|p: (String, String)| (p.0@, p.1@)) =~= before.map_values(
                            |p: (String, String)| (p.0@, p.1@),
                        ).push((n@, u@)));
                    }
                },
                _ => {},
            }
            i = i + 1;
        }
        assert(es.subrange(0, i as int) =~= es);
        Some(out)
    }
}

/// A deduplicated list is not empty where the list is not, and ends with
/// the list's last element.
pub proof fn lemma_dedup_last(s: Seq<Seq<char>>)
    ensures
        s.len() > 0 ==> dedup_sorted(s).len() > 0 && dedup_sorted(s).last() == s.last(),
    decreases s.len(),
{
    if s.len() > 1 {
        lemma_dedup_last(s.drop_last());
    }
}

} // verus!
