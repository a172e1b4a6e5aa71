//! The settings window: which row is selected, and what each key does to
//! the values being edited.

use vstd::prelude::*;
use crate::config::Config;
use crate::i18n::{AppLanguage, is_portuguese_code};
use crate::text::{eq_ic, eq_ignore_ascii_case, opt_view, str_eq, trim};

verus! {

/// The rows of the settings window, top to bottom.
#[derive(Debug, Clone, Copy, PartialEq, Eq, Structural)]
pub enum SettingItem {
    DownloadDir,
    Language,
    KindleProfile,
    OutputFormat,
    AnilistAccount,
    AnilistAutoSync,
}

/// The row below `item`, wrapping from the last to the first.
pub open spec fn item_after(item: SettingItem) -> SettingItem {
    match item {
        SettingItem::DownloadDir => SettingItem::Language,
        SettingItem::Language => SettingItem::KindleProfile,
        SettingItem::KindleProfile => SettingItem::OutputFormat,
        SettingItem::OutputFormat => SettingItem::AnilistAccount,
        SettingItem::AnilistAccount => SettingItem::AnilistAutoSync,
        SettingItem::AnilistAutoSync => SettingItem::DownloadDir,
    }
}

/// The row above `item`, wrapping from the first to the last.
pub open spec fn item_before(item: SettingItem) -> SettingItem {
    match item {
        SettingItem::DownloadDir => SettingItem::AnilistAutoSync,
        SettingItem::Language => SettingItem::DownloadDir,
        SettingItem::KindleProfile => SettingItem::Language,
        SettingItem::OutputFormat => SettingItem::KindleProfile,
        SettingItem::AnilistAccount => SettingItem::OutputFormat,
        SettingItem::AnilistAutoSync => SettingItem::AnilistAccount,
    }
}

impl SettingItem {
    /// The row below, wrapping around.
    pub fn next(self) -> (r: SettingItem)
        ensures
            r == item_after(self),
    {
        match self {
            SettingItem::DownloadDir => SettingItem::Language,
            SettingItem::Language => SettingItem::KindleProfile,
            SettingItem::KindleProfile => SettingItem::OutputFormat,
            SettingItem::OutputFormat => SettingItem::AnilistAccount,
            SettingItem::AnilistAccount => SettingItem::AnilistAutoSync,
            SettingItem::AnilistAutoSync => SettingItem::DownloadDir,
        }
    }

    /// The row above, wrapping around.
    pub fn prev(self) -> (r: SettingItem)
        ensures
            r == item_before(self),
    {
        match self {
            SettingItem::DownloadDir => SettingItem::AnilistAutoSync,
            SettingItem::Language => SettingItem::DownloadDir,
            SettingItem::KindleProfile => SettingItem::Language,
            SettingItem::OutputFormat => SettingItem::KindleProfile,
            SettingItem::AnilistAccount => SettingItem::OutputFormat,
            SettingItem::AnilistAutoSync => SettingItem::AnilistAccount,
        }
    }
}

/// What the window asks of the application after a key.
#[derive(Debug, Clone, Copy, PartialEq, Eq, Structural)]
pub enum SettingsAction {
    EditDownloadPath,
    OpenAnilist,
    DisconnectAnilist,
}

/// The language code that the language row switches to.
pub open spec fn other_language(code: Seq<char>) -> Seq<char> {
    if is_portuguese_code(code) {
        "en"@
    } else {
        "pt-br"@
    }
}

/// The device profile after `p` in the cycle KPW5, KV, KO, KS, K11, KPW;
/// an unknown profile goes to KPW5.
pub open spec fn profile_after(p: Seq<char>) -> Seq<char> {
    if p == "KPW5"@ {
        "KV"@
    } else if p == "KV"@ {
        "KO"@
    } else if p == "KO"@ {
        "KS"@
    } else if p == "KS"@ {
        "K11"@
    } else if p == "K11"@ {
        "KPW"@
    } else {
        "KPW5"@
    }
}

/// The device profile before `p` in the same cycle; an unknown profile goes
/// to KPW.
pub open spec fn profile_before(p: Seq<char>) -> Seq<char> {
    if p == "KPW5"@ {
        "KPW"@
    } else if p == "KV"@ {
        "KPW5"@
    } else if p == "KO"@ {
        "KV"@
    } else if p == "KS"@ {
        "KO"@
    } else if p == "K11"@ {
        "KS"@
    } else if p == "KPW"@ {
        "K11"@
    } else {
        "KPW"@
    }
}

/// The known device profiles.
pub open spec fn is_known_profile(p: Seq<char>) -> bool {
    p == "KPW5"@ || p == "KV"@ || p == "KO"@ || p == "KS"@ || p == "K11"@ || p == "KPW"@
}

/// The output format after `f` in the cycle AZW3, CBZ, EPUB, MOBI, PDF,
/// matched without regard to ASCII case; an unknown format goes to AZW3.
pub open spec fn format_after(f: Seq<char>) -> Seq<char> {
    if eq_ic("AZW3"@, f) {
        "CBZ"@
    } else if eq_ic("CBZ"@, f) {
        "EPUB"@
    } else if eq_ic("EPUB"@, f) {
        "MOBI"@
    } else if eq_ic("MOBI"@, f) {
        "PDF"@
    } else {
        "AZW3"@
    }
}

/// The output format before `f` in the same cycle; an unknown format goes to PDF.
pub open spec fn format_before(f: Seq<char>) -> Seq<char> {
    if eq_ic("AZW3"@, f) {
        "PDF"@
    } else if eq_ic("CBZ"@, f) {
        "AZW3"@
    } else if eq_ic("EPUB"@, f) {
        "CBZ"@
    } else if eq_ic("MOBI"@, f) {
        "EPUB"@
    } else if eq_ic("PDF"@, f) {
        "MOBI"@
    } else {
        "PDF"@
    }
}

/// The short description of a device profile.
pub open spec fn profile_short_text(p: Seq<char>) -> Seq<char> {
    if p == "KPW5"@ {
        "Paperwhite 11ª/12ª Gen"@
    } else if p == "KV"@ {
        "Paperwhite 3/4 / Voyage"@
    } else if p == "KO"@ {
        "Oasis 2ª/3ª Gen"@
    } else if p == "KS"@ {
        "Kindle Scribe (10.2\")"@
    } else if p == "K11"@ {
        "Kindle Básico (11ª Gen)"@
    } else if p == "KPW"@ {
        "Kindle Paperwhite Antigo"@
    } else {
        "Kindle Device"@
    }
}

/// The full description of a device profile in the given language.
pub open spec fn profile_full_text(p: Seq<char>, lang: AppLanguage) -> Seq<char> {
    let en = lang == AppLanguage::English;
    if p == "KPW5"@ {
        if en {
            "Kindle Paperwhite (11th / 12th Gen - 300 ppi, 1236x1648)"@
        } else {
            "Kindle Paperwhite (11ª / 12ª Geração - 300 ppi, 1236x1648)"@
        }
    } else if p == "KV"@ {
        if en {
            "Kindle Paperwhite (3rd / 4th Gen) / Voyage (300 ppi, 1072x1448)"@
        } else {
            "Kindle Paperwhite (3ª / 4ª Geração) / Voyage (300 ppi, 1072x1448)"@
        }
    } else if p == "KO"@ {
        if en {
            "Kindle Oasis (2nd / 3rd Gen - 300 ppi, 1264x1680)"@
        } else {
            "Kindle Oasis (2ª / 3ª Geração - 300 ppi, 1264x1680)"@
        }
    } else if p == "KS"@ {
        "Kindle Scribe (10.2\" - 300 ppi, 1860x2480)"@
    } else if p == "K11"@ {
        if en {
            "Kindle Basic (11th Gen - 300 ppi, 1072x1448)"@
        } else {
            "Kindle Básico (11ª Geração - 300 ppi, 1072x1448)"@
        }
    } else if p == "KPW"@ {
        if en {
            "Kindle Paperwhite (Legacy 1st / 2nd Gen - 212 ppi, 758x1024)"@
        } else {
            "Kindle Paperwhite (1ª / 2ª Geração antiga - 212 ppi, 758x1024)"@
        }
    } else {
        "Kindle Device"@
    }
}

/// The values being edited in the settings window.
pub struct SettingsView {
    pub input_path: Seq<char>,
    pub language: Seq<char>,
    pub profile: Seq<char>,
    pub format: Seq<char>,
    pub anilist_username: Option<Seq<char>>,
    pub anilist_enabled: bool,
    pub anilist_sync_on_download: bool,
    pub selected_item: SettingItem,
}

/// The state after Enter (or Space) on the selected row, and what the
/// application is asked to do.
pub open spec fn enter_step(m: SettingsView) -> (SettingsView, Option<SettingsAction>) {
    match m.selected_item {
        SettingItem::DownloadDir => (m, Some(SettingsAction::EditDownloadPath)),
        SettingItem::Language => (SettingsView { language: other_language(m.language), ..m }, None),
        SettingItem::KindleProfile => (SettingsView { profile: profile_after(m.profile), ..m }, None),
        SettingItem::OutputFormat => (SettingsView { format: format_after(m.format), ..m }, None),
        SettingItem::AnilistAccount => if m.anilist_username is Some {
            (
                SettingsView { anilist_username: None, anilist_enabled: false, ..m },
                Some(SettingsAction::DisconnectAnilist),
            )
        } else {
            (m, Some(SettingsAction::OpenAnilist))
        },
        SettingItem::AnilistAutoSync => if m.anilist_username is Some {
            (
                SettingsView { anilist_sync_on_download: !m.anilist_sync_on_download, ..m },
                None,
            )
        } else {
            (m, Some(SettingsAction::OpenAnilist))
        },
    }
}

/// The state after the Left key on the selected row.
pub open spec fn left_step(m: SettingsView) -> SettingsView {
    match m.selected_item {
        SettingItem::Language => SettingsView { language: other_language(m.language), ..m },
        SettingItem::KindleProfile => SettingsView { profile: profile_before(m.profile), ..m },
        SettingItem::OutputFormat => SettingsView { format: format_before(m.format), ..m },
        _ => m,
    }
}

/// The state after the Right key on the selected row.
pub open spec fn right_step(m: SettingsView) -> SettingsView {
    match m.selected_item {
        SettingItem::Language => SettingsView { language: other_language(m.language), ..m },
        SettingItem::KindleProfile => SettingsView { profile: profile_after(m.profile), ..m },
        SettingItem::OutputFormat => SettingsView { format: format_after(m.format), ..m },
        _ => m,
    }
}

/// The settings window.
pub struct SettingsModal {
    pub input_path: String,
    pub language: String,
    pub profile: String,
    pub format: String,
    pub anilist_username: Option<String>,
    pub anilist_enabled: bool,
    pub anilist_sync_on_download: bool,
    pub selected_item: SettingItem,
}

impl View for SettingsModal {
    type V = SettingsView;

    open spec fn view(&self) -> SettingsView {
        SettingsView {
            input_path: self.input_path@,
            language: self.language@,
            profile: self.profile@,
            format: self.format@,
            anilist_username: opt_view(self.anilist_username),
            anilist_enabled: self.anilist_enabled,
            anilist_sync_on_download: self.anilist_sync_on_download,
            selected_item: self.selected_item,
        }
    }
}

impl SettingsModal {
    /// The window opened on the given settings, with the first row selected.
    pub fn new(config: &Config) -> (r: SettingsModal)
        ensures
            r@ == (SettingsView {
                input_path: config.download_dir@,
                language: config.language@,
                profile: config.kcc_profile@,
                format: config.kcc_format@,
                anilist_username: opt_view(config.anilist_username),
                anilist_enabled: config.anilist_enabled,
                anilist_sync_on_download: config.anilist_sync_on_download,
                selected_item: SettingItem::DownloadDir,
            }),
    {
        SettingsModal {
            input_path: config.download_dir.clone(),
            language: config.language.clone(),
            profile: config.kcc_profile.clone(),
            format: config.kcc_format.clone(),
            anilist_username: match &config.anilist_username {
                Some(u) => Some(u.clone()),
                None => None,
            },
            anilist_enabled: config.anilist_enabled,
            anilist_sync_on_download: config.anilist_sync_on_download,
            selected_item: SettingItem::DownloadDir,
        }
    }

    /// The language being edited.
    pub fn current_lang(&self) -> (r: AppLanguage)
        ensures
            r == (if is_portuguese_code(self.language@) {
                AppLanguage::Portuguese
            } else {
                AppLanguage::English
            }),
    {
        AppLanguage::from_code(self.language.as_str())
    }

    /// Selects the row below, wrapping around.
    pub fn next_item(&mut self)
        ensures
            final(self)@ == (SettingsView { selected_item: item_after(old(self).selected_item), ..old(self)@ }),
    {
        self.selected_item = self.selected_item.next();
    }

    /// Selects the row above, wrapping around.
    pub fn prev_item(&mut self)
        ensures
            final(self)@ == (SettingsView { selected_item: item_before(old(self).selected_item), ..old(self)@ }),
    {
        self.selected_item = self.selected_item.prev();
    }

    /// Switches between English and Portuguese.
    pub fn cycle_language(&mut self)
        ensures
            final(self)@ == (SettingsView { language: other_language(old(self)@.language), ..old(self)@ }),
    {
        match self.current_lang() {
            AppLanguage::English => {
                self.language = String::from_str("pt-br");
            },
            AppLanguage::Portuguese => {
                self.language = String::from_str("en");
            },
        }
    }

    /// Moves to the next device profile.
    pub fn cycle_profile(&mut self)
        ensures
            final(self)@ == (SettingsView { profile: profile_after(old(self)@.profile), ..old(self)@ }),
    {
        self.cycle_profile_forward();
    }

    /// Moves to the next device profile.
    pub fn cycle_profile_forward(&mut self)
        ensures
            final(self)@ == (SettingsView { profile: profile_after(old(self)@.profile), ..old(self)@ }),
    {
        let p = self.profile.as_str();
        let next = if str_eq(p, "KPW5") {
            "KV"
        } else if str_eq(p, "KV") {
            "KO"
        } else if str_eq(p, "KO") {
            "KS"
        } else if str_eq(p, "KS") {
            "K11"
        } else if str_eq(p, "K11") {
            "KPW"
        } else {
            "KPW5"
        };
        self.profile = String::from_str(next);
    }

    /// Moves to the previous device profile.
    pub fn cycle_profile_backward(&mut self)
        ensures
            final(self)@ == (SettingsView { profile: profile_before(old(self)@.profile), ..old(self)@ }),
    {
        let p = self.profile.as_str();
        let prev = if str_eq(p, "KPW5") {
            "KPW"
        } else if str_eq(p, "KV") {
            "KPW5"
        } else if str_eq(p, "KO") {
            "KV"
        } else if str_eq(p, "KS") {
            "KO"
        } else if str_eq(p, "K11") {
            "KS"
        } else if str_eq(p, "KPW") {
            "K11"
        } else {
            "KPW"
        };
        self.profile = String::from_str(prev);
    }

    /// Moves to the next output format.
    pub fn cycle_format(&mut self)
        ensures
            final(self)@ == (SettingsView { format: format_after(old(self)@.format), ..old(self)@ }),
    {
        self.cycle_format_forward();
    }

    /// Moves to the next output format.
    pub fn cycle_format_forward(&mut self)
        ensures
            final(self)@ == (SettingsView { format: format_after(old(self)@.format), ..old(self)@ }),
    {
        let f = self.format.as_str();
        let next = if eq_ignore_ascii_case("AZW3", f) {
            "CBZ"
        } else if eq_ignore_ascii_case("CBZ", f) {
            "EPUB"
        } else if eq_ignore_ascii_case("EPUB", f) {
            "MOBI"
        } else if eq_ignore_ascii_case("MOBI", f) {
            "PDF"
        } else {
            "AZW3"
        };
        self.format = String::from_str(next);
    }

    /// Moves to the previous output format.
    pub fn cycle_format_backward(&mut self)
        ensures
            final(self)@ == (SettingsView { format: format_before(old(self)@.format), ..old(self)@ }),
    {
        let f = self.format.as_str();
        let prev = if eq_ignore_ascii_case("AZW3", f) {
            "PDF"
        } else if eq_ignore_ascii_case("CBZ", f) {
            "AZW3"
        } else if eq_ignore_ascii_case("EPUB", f) {
            "CBZ"
        } else if eq_ignore_ascii_case("MOBI", f) {
            "EPUB"
        } else if eq_ignore_ascii_case("PDF", f) {
            "MOBI"
        } else {
            "PDF"
        };
        self.format = String::from_str(prev);
    }

    /// Turns progress sync after downloads on or off.
    pub fn toggle_sync_on_download(&mut self)
        ensures
            final(self)@ == (SettingsView {
                anilist_sync_on_download: !old(self).anilist_sync_on_download,
                ..old(self)@
            }),
    {
        self.anilist_sync_on_download = !self.anilist_sync_on_download;
    }

    /// Forgets the connected account.
    pub fn disconnect_anilist(&mut self)
        ensures
            final(self)@ == (SettingsView {
                anilist_username: None,
                anilist_enabled: false,
                ..old(self)@
            }),
    {
        self.anilist_username = None;
        self.anilist_enabled = false;
    }

    /// Enter on the selected row.
    pub fn handle_enter(&mut self) -> (r: Option<SettingsAction>)
        ensures
            (final(self)@, r) == enter_step(old(self)@),
    {
        match self.selected_item {
            SettingItem::DownloadDir => Some(SettingsAction::EditDownloadPath),
            SettingItem::Language => {
                self.cycle_language();
                None
            },
            SettingItem::KindleProfile => {
                self.cycle_profile_forward();
                None
            },
            SettingItem::OutputFormat => {
                self.cycle_format_forward();
                None
            },
            SettingItem::AnilistAccount => {
                if self.anilist_username.is_some() {
                    self.disconnect_anilist();
                    Some(SettingsAction::DisconnectAnilist)
                } else {
                    Some(SettingsAction::OpenAnilist)
                }
            },
            SettingItem::AnilistAutoSync => {
                if self.anilist_username.is_some() {
                    self.toggle_sync_on_download();
                    None
                } else {
                    Some(SettingsAction::OpenAnilist)
                }
            },
        }
    }

    /// Space on the selected row: the same as Enter.
    pub fn handle_space(&mut self) -> (r: Option<SettingsAction>)
        ensures
            (final(self)@, r) == enter_step(old(self)@),
    {
        self.handle_enter()
    }

    /// The Left key on the selected row.
    pub fn handle_left(&mut self)
        ensures
            final(self)@ == left_step(old(self)@),
    {
        match self.selected_item {
            SettingItem::Language => self.cycle_language(),
            SettingItem::KindleProfile => self.cycle_profile_backward(),
            SettingItem::OutputFormat => self.cycle_format_backward(),
            _ => {},
        }
    }

    /// The Right key on the selected row.
    pub fn handle_right(&mut self)
        ensures
            final(self)@ == right_step(old(self)@),
    {
        match self.selected_item {
            SettingItem::Language => self.cycle_language(),
            SettingItem::KindleProfile => self.cycle_profile_forward(),
            SettingItem::OutputFormat => self.cycle_format_forward(),
            _ => {},
        }
    }

    /// Copies the edited language, profile, format and sync choice into the
    /// settings; nothing else changes.
    pub fn store_choices(&self, config: &mut Config)
        ensures
            final(config).language@ == self.language@,
            final(config).kcc_profile@ == self.profile@,
            final(config).kcc_format@ == self.format@,
            final(config).anilist_sync_on_download == self.anilist_sync_on_download,
            final(config).download_dir == old(config).download_dir,
            final(config).kcc_manga_style == old(config).kcc_manga_style,
            final(config).concurrent_downloads == old(config).concurrent_downloads,
            final(config).rename_to_azw3 == old(config).rename_to_azw3,
            final(config).active_sources == old(config).active_sources,
            final(config).kindlegen_path == old(config).kindlegen_path,
            final(config).anilist_token == old(config).anilist_token,
            final(config).anilist_username == old(config).anilist_username,
            final(config).anilist_enabled == old(config).anilist_enabled,
    {
        config.language = self.language.clone();
        config.kcc_profile = self.profile.clone();
        config.kcc_format = self.format.clone();
        config.anilist_sync_on_download = self.anilist_sync_on_download;
    }

    /// What closing the window keeps: the edited choices, and the typed
    /// download folder, trimmed, unless it is blank.
    pub fn store_all(&self, config: &mut Config)
        ensures
            final(config).download_dir@ == (if trim(self.input_path@).len() > 0 {
                trim(self.input_path@)
            } else {
                old(config).download_dir@
            }),
            final(config).language@ == self.language@,
            final(config).kcc_profile@ == self.profile@,
            final(config).kcc_format@ == self.format@,
            final(config).anilist_sync_on_download == self.anilist_sync_on_download,
            final(config).kcc_manga_style == old(config).kcc_manga_style,
            final(config).concurrent_downloads == old(config).concurrent_downloads,
            final(config).rename_to_azw3 == old(config).rename_to_azw3,
            final(config).active_sources == old(config).active_sources,
            final(config).kindlegen_path == old(config).kindlegen_path,
            final(config).anilist_token == old(config).anilist_token,
            final(config).anilist_username == old(config).anilist_username,
            final(config).anilist_enabled == old(config).anilist_enabled,
    {
        config.take_typed_download_dir(self.input_path.as_str());
        self.store_choices(config);
    }

    /// The short description of a device profile.
    pub fn profile_short_description(profile: &str) -> (r: &'static str)
        ensures
            r@ == profile_short_text(profile@),
    {
        if str_eq(profile, "KPW5") {
            "Paperwhite 11ª/12ª Gen"
        } else if str_eq(profile, "KV") {
            "Paperwhite 3/4 / Voyage"
        } else if str_eq(profile, "KO") {
            "Oasis 2ª/3ª Gen"
        } else if str_eq(profile, "KS") {
            "Kindle Scribe (10.2\")"
        } else if str_eq(profile, "K11") {
            "Kindle Básico (11ª Gen)"
        } else if str_eq(profile, "KPW") {
            "Kindle Paperwhite Antigo"
        } else {
            "Kindle Device"
        }
    }

    /// The full description of a device profile in the given language.
    pub fn profile_full_description(profile: &str, lang: AppLanguage) -> (r: &'static str)
        ensures
            r@ == profile_full_text(profile@, lang),
    {
        let en = match lang {
            AppLanguage::English => true,
            AppLanguage::Portuguese => false,
        };
        if str_eq(profile, "KPW5") {
            if en {
                "Kindle Paperwhite (11th / 12th Gen - 300 ppi, 1236x1648)"
            } else {
                "Kindle Paperwhite (11ª / 12ª Geração - 300 ppi, 1236x1648)"
            }
        } else if str_eq(profile, "KV") {
            if en {
                "Kindle Paperwhite (3rd / 4th Gen) / Voyage (300 ppi, 1072x1448)"
            } else {
                "Kindle Paperwhite (3ª / 4ª Geração) / Voyage (300 ppi, 1072x1448)"
            }
        } else if str_eq(profile, "KO") {
            if en {
                "Kindle Oasis (2nd / 3rd Gen - 300 ppi, 1264x1680)"
            } else {
                "Kindle Oasis (2ª / 3ª Geração - 300 ppi, 1264x1680)"
            }
        } else if str_eq(profile, "KS") {
            "Kindle Scribe (10.2\" - 300 ppi, 1860x2480)"
        } else if str_eq(profile, "K11") {
            if en {
                "Kindle Basic (11th Gen - 300 ppi, 1072x1448)"
            } else {
                "Kindle Básico (11ª Geração - 300 ppi, 1072x1448)"
            }
        } else if str_eq(profile, "KPW") {
            if en {
                "Kindle Paperwhite (Legacy 1st / 2nd Gen - 212 ppi, 758x1024)"
            } else {
                "Kindle Paperwhite (1ª / 2ª Geração antiga - 212 ppi, 758x1024)"
            }
        } else {
            "Kindle Device"
        }
    }
}

} // verus!

verus! {

/// Moving down then up, or up then down, leaves the same row selected; six
/// moves in one direction come back to the start.
pub proof fn lemma_item_cycle(item: SettingItem)
    ensures
        item_before(item_after(item)) == item,
        item_after(item_before(item)) == item,
        item_after(item_after(item_after(item_after(item_after(item_after(item)))))) == item,
{
}

proof fn lemma_profile_literals()
    ensures
        "KPW5"@ != "KV"@,
        "KPW5"@ != "KO"@,
        "KPW5"@ != "KS"@,
        "KPW5"@ != "K11"@,
        "KPW5"@ != "KPW"@,
        "KV"@ != "KO"@,
        "KV"@ != "KS"@,
        "KV"@ != "K11"@,
        "KV"@ != "KPW"@,
        "KO"@ != "KS"@,
        "KO"@ != "K11"@,
        "KO"@ != "KPW"@,
        "KS"@ != "K11"@,
        "KS"@ != "KPW"@,
        "K11"@ != "KPW"@,
{
    reveal_strlit("KPW5");
    reveal_strlit("KV");
    reveal_strlit("KO");
    reveal_strlit("KS");
    reveal_strlit("K11");
    reveal_strlit("KPW");
    assert("KPW5"@[1] != "KV"@[1]);
    assert("KPW5"@[1] != "KO"@[1]);
    assert("KPW5"@[1] != "KS"@[1]);
    assert("KV"@[1] != "KO"@[1]);
    assert("KV"@[1] != "KS"@[1]);
    assert("KO"@[1] != "KS"@[1]);
    assert("K11"@[1] != "KPW"@[1]);
    assert("KPW5"@.len() != "KPW"@.len());
}

/// For a known device profile, the next then the previous profile (and the
/// previous then the next) is the profile itself, and six steps forward come
/// back to it.
pub proof fn lemma_profile_cycle(p: Seq<char>)
    requires
        is_known_profile(p),
    ensures
        profile_before(profile_after(p)) == p,
        profile_after(profile_before(p)) == p,
        profile_after(profile_after(profile_after(profile_after(profile_after(profile_after(p))))))
            == p,
{
    lemma_profile_literals();
}

proof fn lemma_format_literals()
    ensures
        lower_seq_is("AZW3"@, seq!['a', 'z', 'w', '3']),
        lower_seq_is("CBZ"@, seq!['c', 'b', 'z']),
        lower_seq_is("EPUB"@, seq!['e', 'p', 'u', 'b']),
        lower_seq_is("MOBI"@, seq!['m', 'o', 'b', 'i']),
        lower_seq_is("PDF"@, seq!['p', 'd', 'f']),
{
    reveal_strlit("AZW3");
    reveal_strlit("CBZ");
    reveal_strlit("EPUB");
    reveal_strlit("MOBI");
    reveal_strlit("PDF");
    assert(crate::text::lower_seq("AZW3"@) =~= seq!['a', 'z', 'w', '3']);
    assert(crate::text::lower_seq("CBZ"@) =~= seq!['c', 'b', 'z']);
    assert(crate::text::lower_seq("EPUB"@) =~= seq!['e', 'p', 'u', 'b']);
    assert(crate::text::lower_seq("MOBI"@) =~= seq!['m', 'o', 'b', 'i']);
    assert(crate::text::lower_seq("PDF"@) =~= seq!['p', 'd', 'f']);
}

spec fn lower_seq_is(s: Seq<char>, l: Seq<char>) -> bool {
    crate::text::lower_seq(s) == l
}

/// The output formats in their own spelling.
pub open spec fn is_canonical_format(f: Seq<char>) -> bool {
    f == "AZW3"@ || f == "CBZ"@ || f == "EPUB"@ || f == "MOBI"@ || f == "PDF"@
}

/// For a format spelled as the window spells it, the next then the previous
/// format (and the previous then the next) is the format itself, and five
/// steps forward come back to it.
pub proof fn lemma_format_cycle(f: Seq<char>)
    requires
        is_canonical_format(f),
    ensures
        format_before(format_after(f)) == f,
        format_after(format_before(f)) == f,
        format_after(format_after(format_after(format_after(format_after(f))))) == f,
{
    lemma_format_literals();
    assert(seq!['a', 'z', 'w', '3'] != seq!['c', 'b', 'z']);
    assert(seq!['a', 'z', 'w', '3'] != seq!['e', 'p', 'u', 'b']);
    assert(seq!['a', 'z', 'w', '3'] != seq!['m', 'o', 'b', 'i']);
    assert(seq!['a', 'z', 'w', '3'] != seq!['p', 'd', 'f']);
    assert(seq!['c', 'b', 'z'] != seq!['e', 'p', 'u', 'b']);
    assert(seq!['c', 'b', 'z'] != seq!['m', 'o', 'b', 'i']);
    assert(seq!['c', 'b', 'z'] != seq!['p', 'd', 'f']);
    assert(seq!['e', 'p', 'u', 'b'] != seq!['m', 'o', 'b', 'i']);
    assert(seq!['e', 'p', 'u', 'b'] != seq!['p', 'd', 'f']);
    assert(seq!['m', 'o', 'b', 'i'] != seq!['p', 'd', 'f']);
}

/// Switching the language twice gives back a code for the same language.
pub proof fn lemma_language_cycle(code: Seq<char>)
    ensures
        is_portuguese_code(other_language(other_language(code))) == is_portuguese_code(code),
        is_portuguese_code("en"@) == false,
        is_portuguese_code("pt-br"@),
{
    reveal_strlit("en");
    reveal_strlit("pt-br");
    reveal_strlit("pt");
    reveal_strlit("pt_br");
    reveal_strlit("portuguese");
    let le = crate::text::lower_seq("en"@);
    let lp = crate::text::lower_seq("pt-br"@);
    assert(le =~= seq!['e', 'n']);
    assert(lp =~= seq!['p', 't', '-', 'b', 'r']);
    assert(le != "pt"@ && le != "pt-br"@ && le != "pt_br"@ && le != "portuguese"@) by {
        assert(le[0] != "pt"@[0]);
        assert(le[0] != "pt-br"@[0]);
        assert(le[0] != "pt_br"@[0]);
        assert(le[0] != "portuguese"@[0]);
    }
    assert(lp =~= "pt-br"@);
}

/// On the rows that Left and Right change, Right then Left (and Left then
/// Right) gives back the same state, as long as the value is one that the
/// window itself writes; on the other rows both keys do nothing.
pub proof fn lemma_right_left_inverse(m: SettingsView)
    requires
        m.selected_item == SettingItem::Language ==> (m.language == "en"@ || m.language
            == "pt-br"@),
        m.selected_item == SettingItem::KindleProfile ==> is_known_profile(m.profile),
        m.selected_item == SettingItem::OutputFormat ==> is_canonical_format(m.format),
    ensures
        left_step(right_step(m)) == m,
        right_step(left_step(m)) == m,
{
    lemma_language_cycle(m.language);
    if m.selected_item == SettingItem::KindleProfile {
        lemma_profile_cycle(m.profile);
    }
    if m.selected_item == SettingItem::OutputFormat {
        lemma_format_cycle(m.format);
    }
}

/// With an account connected, Enter on the sync row twice gives back the
/// same state and asks nothing of the application.
pub proof fn lemma_sync_toggle_twice(m: SettingsView)
    requires
        m.selected_item == SettingItem::AnilistAutoSync,
        m.anilist_username is Some,
    ensures
        enter_step(enter_step(m).0).0 == m,
        enter_step(m).1 is None,
        enter_step(m).0.anilist_sync_on_download == !m.anilist_sync_on_download,
{
}

} // verus!
