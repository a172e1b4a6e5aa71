//! The window that asks before a favorite is removed.

use vstd::prelude::*;
use crate::domain::manga::Manga;
use crate::i18n::{AppLanguage, pick};
use crate::ui::layout::{Area, confirm_remove_area, centered, fits, min};
use crate::ui::modals::styled::{Tone, pieces_view};

verus! {

/// Asks whether the series should leave the favorites.
#[derive(Debug, Clone)]
pub struct ConfirmRemoveModal {
    pub manga: Manga,
}

impl ConfirmRemoveModal {
    /// The window for the given series.
    pub fn new(manga: Manga) -> (r: ConfirmRemoveModal)
        ensures
            r.manga == manga,
    {
        ConfirmRemoveModal { manga }
    }

    /// Where the window is drawn in `area`.
    pub fn window(&self, area: Area) -> (r: Area)
        requires
            fits(area),
            area.width * 55 <= u16::MAX,
            area.height * 28 <= u16::MAX,
        ensures
            r == centered(
                area,
                min(
                    if area.width * 55 / 100 >= 46 {
                        area.width * 55 / 100
                    } else {
                        46
                    },
                    area.width as int,
                ),
                min(
                    if area.height * 28 / 100 >= 9 {
                        area.height * 28 / 100
                    } else {
                        9
                    },
                    area.height as int,
                ),
            ),
    {
        confirm_remove_area(area)
    }
}

/// The keys offered at the foot of the window.
pub open spec fn confirm_remove_footer_text(lang: AppLanguage) -> Seq<(Seq<char>, Tone)> {
    seq![
        (pick(lang, "[Enter/y] "@, "[Enter/s] "@), Tone::Success),
        (pick(lang, "Yes   "@, "Sim   "@), Tone::Strong),
        ("[Esc/n] "@, Tone::Danger),
        (pick(lang, "No"@, "Não"@), Tone::Strong),
    ]
}

fn pick_str(lang: AppLanguage, en: &'static str, pt: &'static str) -> (r: &'static str)
    ensures
        r@ == pick(lang, en@, pt@),
{
    match lang {
        AppLanguage::English => en,
        AppLanguage::Portuguese => pt,
    }
}

impl ConfirmRemoveModal {
    /// The title of the window.
    pub fn title(lang: AppLanguage) -> (r: &'static str)
        ensures
            r@ == pick(lang, " 󰆴 Remove from Favorites "@, " 󰆴 Remover dos Favoritos "@),
    {
        pick_str(lang, " 󰆴 Remove from Favorites ", " 󰆴 Remover dos Favoritos ")
    }

    /// The question the window asks.
    pub fn question(lang: AppLanguage) -> (r: &'static str)
        ensures
            r@ == pick(
                lang,
                "Are you sure you want to remove this manga from favorites?"@,
                "Tem certeza que deseja remover este mangá dos favoritos?"@,
            ),
    {
        pick_str(
            lang,
            "Are you sure you want to remove this manga from favorites?",
            "Tem certeza que deseja remover este mangá dos favoritos?",
        )
    }

    /// The series' title in double quotes.
    pub fn quoted_title(&self) -> (r: String)
        ensures
            r@ == "\""@ + self.manga.title@ + "\""@,
    {
        let mut s = String::from_str("\"");
        s.append(self.manga.title.as_str());
        s.append("\"");
        s
    }

    /// The source the series comes from.
    pub fn provider_line(&self, lang: AppLanguage) -> (r: String)
        ensures
            r@ == pick(lang, "Source: "@, "Fonte: "@) + self.manga.provider@,
    {
        let mut s = String::from_str(pick_str(lang, "Source: ", "Fonte: "));
        s.append(self.manga.provider.as_str());
        s
    }

    /// The keys offered at the foot of the window.
    pub fn footer(lang: AppLanguage) -> (r: Vec<(&'static str, Tone)>)
        ensures
            pieces_view(r@) == confirm_remove_footer_text(lang),
    {
        let r = vec![
            (pick_str(lang, "[Enter/y] ", "[Enter/s] "), Tone::Success),
            (pick_str(lang, "Yes   ", "Sim   "), Tone::Strong),
            ("[Esc/n] ", Tone::Danger),
            (pick_str(lang, "No", "Não"), Tone::Strong),
        ];
        assert(pieces_view(r@) =~= confirm_remove_footer_text(lang));
        r
    }
}

} // verus!
