//! The user's settings and where they come from.

use vstd::prelude::*;
use crate::text::{chars_of, opt_view, str_eq, string_of, trim, trim_chars, trim_str};
use crate::paths::{join_path, lemma_join_len, path_join};

verus! {

/// The user's settings, as `config.toml` holds them.
#[derive(Debug, Clone)]
pub struct Config {
    pub download_dir: String,
    pub language: String,
    pub kcc_profile: String,
    pub kcc_format: String,
    pub kcc_manga_style: bool,
    pub concurrent_downloads: usize,
    pub rename_to_azw3: bool,
    pub active_sources: Vec<String>,
    pub kindlegen_path: Option<String>,
    pub anilist_token: Option<String>,
    pub anilist_username: Option<String>,
    pub anilist_enabled: bool,
    pub anilist_sync_on_download: bool,
}

/// The value a missing `rename_to_azw3` entry takes.
pub fn default_true() -> (r: bool)
    ensures
        r,
{
    true
}

/// The user's download folder, as the platform reports it (`dirs::download_dir`).
/// It depends on the environment; nothing is claimed of it.
#[verifier::external_body]
pub(crate) fn platform_download_dir() -> (r: Option<String>) {
    dirs::download_dir().map(|p| p.to_string_lossy().into_owned())
}

/// The user's home folder, as the platform reports it (`dirs::home_dir`).
/// It depends on the environment; nothing is claimed of it.
#[verifier::external_body]
pub(crate) fn platform_home_dir() -> (r: Option<String>) {
    dirs::home_dir().map(|p| p.to_string_lossy().into_owned())
}

/// The user's configuration folder, as the platform reports it
/// (`dirs::config_dir`). It depends on the environment; nothing is claimed of it.
#[verifier::external_body]
pub(crate) fn platform_config_dir() -> (r: Option<String>) {
    dirs::config_dir().map(|p| p.to_string_lossy().into_owned())
}

/// What `toml` reads as the string at `downloader.path` of a TOML document,
/// `None` where the text is no TOML document or holds no such string.
pub uninterp spec fn toml_downloader_path(content: Seq<char>) -> Option<Seq<char>>;

/// Parses `content` as a TOML document with the `toml` crate
/// (`str::parse::<toml::Table>`) and takes the string at `downloader.path`.
/// Claimed: the result is `toml_downloader_path` of the text.
#[verifier::external_body]
fn read_downloader_path(content: &str) -> (r: Option<String>)
    ensures
        opt_view(r) == toml_downloader_path(content@),
{
    let table = content.parse::<toml::Table>().ok()?;
    table.get("downloader")?.get("path")?.as_str().map(|s| s.to_string())
}

/// The download folder used when no older configuration names one.
pub open spec fn fallback_download_dir(downloads: Option<Seq<char>>, home: Option<Seq<char>>) -> Seq<
    char,
> {
    match downloads {
        Some(d) => join_path(d, "Mangas"@),
        None => match home {
            Some(h) => join_path(join_path(h, "Downloads"@), "Mangas"@),
            None => "./Mangas"@,
        },
    }
}

/// A path read from an older configuration is used only where it holds more
/// than whitespace.
pub open spec fn usable_path(p: Option<Seq<char>>) -> Option<Seq<char>> {
    match p {
        Some(s) => if trim(s).len() > 0 {
            Some(s)
        } else {
            None
        },
        None => None,
    }
}

/// The download folder that the first usable older configuration names.
pub open spec fn legacy_choice(contents: Seq<Seq<char>>) -> Option<Seq<char>>
    decreases contents.len(),
{
    if contents.len() == 0 {
        None
    } else {
        match usable_path(toml_downloader_path(contents[0])) {
            Some(p) => Some(p),
            None => legacy_choice(contents.drop_first()),
        }
    }
}

/// The views of a list of strings.
pub open spec fn string_views(v: Seq<String>) -> Seq<Seq<char>> {
    v.map_values(|s: String| s@)
}

/// Keeps a path taken from an older configuration only where it holds more
/// than whitespace.
pub fn accept_legacy_path(parsed: Option<String>) -> (r: Option<String>)
    ensures
        opt_view(r) == usable_path(opt_view(parsed)),
{
    match parsed {
        Some(p) => {
            let t = chars_of(trim_str(p.as_str()).as_str());
            if t.len() > 0 {
                Some(p)
            } else {
                None
            }
        },
        None => None,
    }
}

/// The download folder that an older configuration file names, if any.
pub fn legacy_download_dir(content: &str) -> (r: Option<String>)
    ensures
        opt_view(r) == usable_path(toml_downloader_path(content@)),
{
    accept_legacy_path(read_downloader_path(content))
}

/// The download folder used when no older configuration names one.
pub fn fallback_dir(downloads: Option<String>, home: Option<String>) -> (r: String)
    ensures
        r@ == fallback_download_dir(opt_view(downloads), opt_view(home)),
{
    match downloads {
        Some(d) => path_join(d.as_str(), "Mangas"),
        None => match home {
            Some(h) => {
                let dl = path_join(h.as_str(), "Downloads");
                path_join(dl.as_str(), "Mangas")
            },
            None => String::from_str("./Mangas"),
        },
    }
}

/// The first download folder named by one of the older configuration files
/// read (in the order they were looked for), else the fallback folder.
pub fn initial_download_dir(legacy_contents: &Vec<String>, downloads: Option<String>, home: Option<
    String,
>) -> (r: String)
    ensures
        r@ == (match legacy_choice(string_views(legacy_contents@)) {
            Some(p) => p,
            None => fallback_download_dir(opt_view(downloads), opt_view(home)),
        }),
{
    let ghost all = string_views(legacy_contents@);
    let mut i: usize = 0;
    assert(all.subrange(0, all.len() as int) =~= all);
    while i < legacy_contents.len()
        invariant
            i <= legacy_contents@.len(),
            all == string_views(legacy_contents@),
            legacy_choice(all) == legacy_choice(all.subrange(i as int, all.len() as int)),
        decreases legacy_contents@.len() - i,
    {
        let found = legacy_download_dir(legacy_contents[i].as_str());
        proof {
            let rest = all.subrange(i as int, all.len() as int);
            assert(rest[0] == legacy_contents@[i as int]@);
            assert(rest.drop_first() =~= all.subrange(i + 1, all.len() as int));
        }
        match found {
            Some(p) => {
                return p;
            },
            None => {},
        }
        i = i + 1;
    }
    proof {
        assert(all.subrange(i as int, all.len() as int).len() == 0);
    }
    fallback_dir(downloads, home)
}

/// The description of a converter device profile.
pub open spec fn profile_description_text(code: Seq<char>) -> Seq<char> {
    if code == "KPW5"@ {
        "Kindle Paperwhite (11ª / 12ª Gen - 300 ppi)"@
    } else if code == "KV"@ {
        "Kindle Paperwhite (3ª / 4ª Gen) / Voyage"@
    } else if code == "KO"@ {
        "Kindle Oasis (2ª / 3ª Gen - 300 ppi)"@
    } else if code == "KS"@ {
        "Kindle Scribe (10.2\" - 300 ppi)"@
    } else if code == "K11"@ {
        "Kindle Básico (11ª Geração)"@
    } else if code == "KPW"@ {
        "Kindle Paperwhite (1ª / 2ª Gen antiga)"@
    } else {
        "Dispositivo Kindle"@
    }
}

/// The settings file inside the configuration folder `base` (the current
/// folder where the platform names none).
pub open spec fn config_path_in(base: Option<Seq<char>>) -> Seq<char> {
    let b = match base {
        Some(d) => d,
        None => "."@,
    };
    join_path(join_path(b, "neo-mangal"@), "config.toml"@)
}

impl Config {
    /// The default settings, with the given download folder.
    pub fn with_download_dir(download_dir: String) -> (r: Config)
        ensures
            r.download_dir@ == download_dir@,
            r.language@ == "en"@,
            r.kcc_profile@ == "KPW5"@,
            r.kcc_format@ == "AZW3"@,
            r.kcc_manga_style,
            r.concurrent_downloads == 4,
            r.rename_to_azw3,
            r.active_sources@.len() == 0,
            r.kindlegen_path is None,
            r.anilist_token is None,
            r.anilist_username is None,
            !r.anilist_enabled,
            !r.anilist_sync_on_download,
    {
        Config {
            download_dir,
            language: String::from_str("en"),
            kcc_profile: String::from_str("KPW5"),
            kcc_format: String::from_str("AZW3"),
            kcc_manga_style: true,
            concurrent_downloads: 4,
            rename_to_azw3: true,
            active_sources: Vec::new(),
            kindlegen_path: None,
            anilist_token: None,
            anilist_username: None,
            anilist_enabled: false,
            anilist_sync_on_download: false,
        }
    }

    /// The description of a converter device profile.
    pub fn profile_description(code: &str) -> (r: &'static str)
        ensures
            r@ == profile_description_text(code@),
    {
        if str_eq(code, "KPW5") {
            "Kindle Paperwhite (11ª / 12ª Gen - 300 ppi)"
        } else if str_eq(code, "KV") {
            "Kindle Paperwhite (3ª / 4ª Gen) / Voyage"
        } else if str_eq(code, "KO") {
            "Kindle Oasis (2ª / 3ª Gen - 300 ppi)"
        } else if str_eq(code, "KS") {
            "Kindle Scribe (10.2\" - 300 ppi)"
        } else if str_eq(code, "K11") {
            "Kindle Básico (11ª Geração)"
        } else if str_eq(code, "KPW") {
            "Kindle Paperwhite (1ª / 2ª Gen antiga)"
        } else {
            "Dispositivo Kindle"
        }
    }

    /// The settings file inside the configuration folder `base`.
    pub fn config_path_from(base: Option<String>) -> (r: String)
        ensures
            r@ == config_path_in(opt_view(base)),
    {
        let b = match base {
            Some(d) => d,
            None => String::from_str("."),
        };
        let dir = path_join(b.as_str(), "neo-mangal");
        path_join(dir.as_str(), "config.toml")
    }

    /// The settings file: `neo-mangal/config.toml` in the platform's
    /// configuration folder.
    pub fn config_path() -> (r: String)
        ensures
            exists|base: Option<Seq<char>>| r@ == config_path_in(base),
    {
        let base = platform_config_dir();
        let r = Self::config_path_from(base);
        proof {
            assert(r@ == config_path_in(opt_view(base)));
        }
        r
    }

    /// Sets the download folder (the caller persists the settings).
    pub fn update_download_dir(&mut self, new_path: &str)
        ensures
            final(self).download_dir@ == new_path@,
            final(self).language == old(self).language,
            final(self).kcc_profile == old(self).kcc_profile,
            final(self).kcc_format == old(self).kcc_format,
            final(self).kcc_manga_style == old(self).kcc_manga_style,
            final(self).concurrent_downloads == old(self).concurrent_downloads,
            final(self).rename_to_azw3 == old(self).rename_to_azw3,
            final(self).active_sources == old(self).active_sources,
            final(self).kindlegen_path == old(self).kindlegen_path,
            final(self).anilist_token == old(self).anilist_token,
            final(self).anilist_username == old(self).anilist_username,
            final(self).anilist_enabled == old(self).anilist_enabled,
            final(self).anilist_sync_on_download == old(self).anilist_sync_on_download,
    {
        self.download_dir = String::from_str(new_path);
    }

    /// Takes a typed download folder: trimmed, unless it is blank, in which
    /// case nothing changes. Tells whether it was taken.
    pub fn take_typed_download_dir(&mut self, typed: &str) -> (taken: bool)
        ensures
            taken == (trim(typed@).len() > 0),
            final(self).download_dir@ == (if taken {
                trim(typed@)
            } else {
                old(self).download_dir@
            }),
            final(self).language == old(self).language,
            final(self).kcc_profile == old(self).kcc_profile,
            final(self).kcc_format == old(self).kcc_format,
            final(self).kcc_manga_style == old(self).kcc_manga_style,
            final(self).concurrent_downloads == old(self).concurrent_downloads,
            final(self).rename_to_azw3 == old(self).rename_to_azw3,
            final(self).active_sources == old(self).active_sources,
            final(self).kindlegen_path == old(self).kindlegen_path,
            final(self).anilist_token == old(self).anilist_token,
            final(self).anilist_username == old(self).anilist_username,
            final(self).anilist_enabled == old(self).anilist_enabled,
            final(self).anilist_sync_on_download == old(self).anilist_sync_on_download,
    {
        let v = chars_of(typed);
        let t = trim_chars(&v);
        if t.len() > 0 {
            let new_path = string_of(t.as_slice());
            self.update_download_dir(new_path.as_str());
            true
        } else {
            false
        }
    }

    /// Forgets the connected AniList account.
    pub fn disconnect_anilist(&mut self)
        ensures
            final(self).anilist_token is None,
            final(self).anilist_username is None,
            !final(self).anilist_enabled,
            final(self).download_dir == old(self).download_dir,
            final(self).language == old(self).language,
            final(self).kcc_profile == old(self).kcc_profile,
            final(self).kcc_format == old(self).kcc_format,
            final(self).kcc_manga_style == old(self).kcc_manga_style,
            final(self).concurrent_downloads == old(self).concurrent_downloads,
            final(self).rename_to_azw3 == old(self).rename_to_azw3,
            final(self).active_sources == old(self).active_sources,
            final(self).kindlegen_path == old(self).kindlegen_path,
            final(self).anilist_sync_on_download == old(self).anilist_sync_on_download,
    {
        self.anilist_token = None;
        self.anilist_username = None;
        self.anilist_enabled = false;
    }
}

impl Default for Config {
    /// The default settings; the download folder is `Mangas` inside the
    /// platform's download folder, else inside `~/Downloads`, else `./Mangas`.
    /// The download folder named in an older configuration file is not
    /// looked for here, as that means reading files: the program reads
    /// them and `initial_download_dir` chooses from their contents.
    fn default() -> (r: Config)
        ensures
            exists|d: Option<Seq<char>>, h: Option<Seq<char>>|
                r.download_dir@ == fallback_download_dir(d, h),
            r.download_dir@.len() > 0,
            r.language@ == "en"@,
            r.kcc_profile@ == "KPW5"@,
            r.kcc_format@ == "AZW3"@,
            r.kcc_manga_style,
            r.concurrent_downloads == 4,
            r.rename_to_azw3,
            r.active_sources@.len() == 0,
            r.kindlegen_path is None,
            r.anilist_token is None,
            r.anilist_username is None,
            !r.anilist_enabled,
            !r.anilist_sync_on_download,
    {
        let downloads = platform_download_dir();
        let home = platform_home_dir();
        let dir = fallback_dir(downloads, home);
        proof {
            assert(dir@ == fallback_download_dir(opt_view(downloads), opt_view(home)));
            reveal_strlit("./Mangas");
            reveal_strlit("Mangas");
            lemma_join_len(opt_view(downloads).unwrap_or(Seq::empty()), "Mangas"@);
            lemma_join_len(
                join_path(opt_view(home).unwrap_or(Seq::empty()), "Downloads"@),
                "Mangas"@,
            );
        }
        Config::with_download_dir(dir)
    }
}

} // verus!
