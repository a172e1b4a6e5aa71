//! The window that lists the keyboard shortcuts of the current view.

use vstd::prelude::*;
use crate::i18n::{AppLanguage, pick};
use crate::text::str_eq;
use crate::ui::layout::{Area, fits, help_area, share_area};

verus! {

/// The shortcuts of the view it was opened from.
pub struct HelpModal {
    pub current_view: String,
}

impl HelpModal {
    /// The help for the named view.
    pub fn new(current_view: &str) -> (r: HelpModal)
        ensures
            r.current_view@ == current_view@,
    {
        HelpModal { current_view: String::from_str(current_view) }
    }

    /// Where the window is drawn in `area`.
    pub fn window(&self, area: Area) -> (r: Area)
        requires
            fits(area),
        ensures
            r == share_area(area, 85, 64, 82, 82, 16, 23),
    {
        help_area(area)
    }
}

/// The title of the section of a view's own shortcuts.
pub open spec fn screen_title_text(view: Seq<char>, lang: AppLanguage) -> Seq<char> {
    if view == "favorites"@ {
        pick(lang, "[ Screen: Favorites ]"@, "[ Tela: Favoritos ]"@)
    } else if view == "chapter_list"@ {
        pick(lang, "[ Screen: Chapters ]"@, "[ Tela: Capítulos ]"@)
    } else if view == "manga_list"@ {
        pick(lang, "[ Screen: Search Results ]"@, "[ Tela: Resultados da Busca ]"@)
    } else {
        pick(lang, "[ Screen: Current View ]"@, "[ Tela Atual ]"@)
    }
}

/// The shortcuts of a view: the keys, and what they do in English and in
/// Portuguese.
pub open spec fn view_shortcuts_text(view: Seq<char>) -> Seq<(Seq<char>, Seq<char>, Seq<char>)> {
    if view == "chapter_list"@ {
        seq![
            ("[Enter]"@, "Download selected chapter(s)"@, "Baixar capítulo(s) selecionado(s)"@),
            ("[m]"@, "Mark reading progress on AniList"@, "Marcar leitura no AniList (com confirmação)"@),
            ("[Space]"@, "Toggle chapter selection checkbox"@, "Alternar seleção do capítulo"@),
            ("[a]"@, "Select / Deselect all visible chapters"@, "Selecionar / Desmarcar todos os capítulos"@),
            ("[/]"@, "Filter chapters by number / title"@, "Filtrar capítulos por número / título"@),
            ("[← / →] / [h / l]"@, "Navigate chapter pages"@, "Navegar páginas de capítulos"@),
            ("[b / Esc]"@, "Back to manga search / favorites"@, "Voltar para busca / favoritos"@),
        ]
    } else if view == "favorites"@ {
        seq![
            ("[Enter]"@, "Open chapters for selected manga"@, "Abrir capítulos do mangá selecionado"@),
            ("[/]"@, "Focus search input"@, "Focar na barra de busca"@),
            ("[f]"@, "Remove manga from favorites"@, "Remover mangá dos favoritos (com confirmação)"@),
            ("[p]"@, "Manage & select manga sources"@, "Gerenciar e alternar fontes de mangá"@),
        ]
    } else if view == "manga_list"@ {
        seq![
            ("[Enter]"@, "View chapters for selected manga"@, "Ver capítulos do mangá selecionado"@),
            ("[f]"@, "Add / Remove manga from favorites"@, "Adicionar / Remover dos favoritos"@),
            ("[/]"@, "Start a new search query"@, "Focar na barra para nova busca"@),
            ("[b / Esc]"@, "Back to favorites list"@, "Voltar para lista de favoritos"@),
        ]
    } else {
        seq![
            ("[Enter]"@, "Confirm / Select action"@, "Confirmar / Selecionar ação"@),
            ("[/]"@, "Focus search"@, "Focar na busca"@),
            ("[Esc]"@, "Back / Unfocus"@, "Voltar / Desfocar"@),
        ]
    }
}

/// The shortcuts that work everywhere: the keys, and what they do in
/// English and in Portuguese.
pub open spec fn global_shortcuts_text() -> Seq<(Seq<char>, Seq<char>, Seq<char>)> {
    seq![
        ("[F2] / [Ctrl+S]"@, "Open Settings modal"@, "Abrir modal de Configurações"@),
        ("[Ctrl+P] / [p]"@, "Select & install manga sources"@, "Selecionar e instalar fontes"@),
        ("[?]"@, "Toggle this help modal"@, "Abrir / Fechar esta ajuda"@),
        ("[Ctrl+C] / [q]"@, "Quit Neo-Mangal"@, "Sair do Neo-Mangal"@),
    ]
}

/// The views of a list of shortcut triples.
pub open spec fn triple_views(v: Seq<(&'static str, &'static str, &'static str)>) -> Seq<
    (Seq<char>, Seq<char>, Seq<char>),
> {
    v.map_values(|t: (&'static str, &'static str, &'static str)| (t.0@, t.1@, t.2@))
}

fn pick_str(lang: AppLanguage, en: &'static str, pt: &'static str) -> (r: &'static str)
    ensures
        r@ == pick(lang, en@, pt@),
{
    match lang {
        AppLanguage::English => en,
        AppLanguage::Portuguese => pt,
    }
}

impl HelpModal {
    /// The title of the window.
    pub fn title(lang: AppLanguage) -> (r: &'static str)
        ensures
            r@ == pick(lang, " 󰋖 Shortcuts & Help "@, " 󰋖 Atalhos & Ajuda "@),
    {
        pick_str(lang, " 󰋖 Shortcuts & Help ", " 󰋖 Atalhos & Ajuda ")
    }

    /// The title of the section of this view's own shortcuts.
    pub fn screen_title(&self, lang: AppLanguage) -> (r: &'static str)
        ensures
            r@ == screen_title_text(self.current_view@, lang),
    {
        let v = self.current_view.as_str();
        if str_eq(v, "favorites") {
            pick_str(lang, "[ Screen: Favorites ]", "[ Tela: Favoritos ]")
        } else if str_eq(v, "chapter_list") {
            pick_str(lang, "[ Screen: Chapters ]", "[ Tela: Capítulos ]")
        } else if str_eq(v, "manga_list") {
            pick_str(lang, "[ Screen: Search Results ]", "[ Tela: Resultados da Busca ]")
        } else {
            pick_str(lang, "[ Screen: Current View ]", "[ Tela Atual ]")
        }
    }

    /// This view's own shortcuts: the keys, and what they do in English and
    /// in Portuguese.
    pub fn view_shortcuts(&self) -> (r: Vec<(&'static str, &'static str, &'static str)>)
        ensures
            triple_views(r@) == view_shortcuts_text(self.current_view@),
    {
        let v = self.current_view.as_str();
        let r = if str_eq(v, "chapter_list") {
            vec![
                ("[Enter]", "Download selected chapter(s)", "Baixar capítulo(s) selecionado(s)"),
                ("[m]", "Mark reading progress on AniList", "Marcar leitura no AniList (com confirmação)"),
                ("[Space]", "Toggle chapter selection checkbox", "Alternar seleção do capítulo"),
                ("[a]", "Select / Deselect all visible chapters", "Selecionar / Desmarcar todos os capítulos"),
                ("[/]", "Filter chapters by number / title", "Filtrar capítulos por número / título"),
                ("[← / →] / [h / l]", "Navigate chapter pages", "Navegar páginas de capítulos"),
                ("[b / Esc]", "Back to manga search / favorites", "Voltar para busca / favoritos"),
            ]
        } else if str_eq(v, "favorites") {
            vec![
                ("[Enter]", "Open chapters for selected manga", "Abrir capítulos do mangá selecionado"),
                ("[/]", "Focus search input", "Focar na barra de busca"),
                ("[f]", "Remove manga from favorites", "Remover mangá dos favoritos (com confirmação)"),
                ("[p]", "Manage & select manga sources", "Gerenciar e alternar fontes de mangá"),
            ]
        } else if str_eq(v, "manga_list") {
            vec![
                ("[Enter]", "View chapters for selected manga", "Ver capítulos do mangá selecionado"),
                ("[f]", "Add / Remove manga from favorites", "Adicionar / Remover dos favoritos"),
                ("[/]", "Start a new search query", "Focar na barra para nova busca"),
                ("[b / Esc]", "Back to favorites list", "Voltar para lista de favoritos"),
            ]
        } else {
            vec![
                ("[Enter]", "Confirm / Select action", "Confirmar / Selecionar ação"),
                ("[/]", "Focus search", "Focar na busca"),
                ("[Esc]", "Back / Unfocus", "Voltar / Desfocar"),
            ]
        };
        assert(triple_views(r@) =~= view_shortcuts_text(self.current_view@));
        r
    }

    /// The title of the section of the shortcuts that work everywhere.
    pub fn global_title(lang: AppLanguage) -> (r: &'static str)
        ensures
            r@ == pick(lang, "[ Global Shortcuts ]"@, "[ Atalhos Globais ]"@),
    {
        pick_str(lang, "[ Global Shortcuts ]", "[ Atalhos Globais ]")
    }

    /// The shortcuts that work everywhere.
    pub fn global_shortcuts() -> (r: Vec<(&'static str, &'static str, &'static str)>)
        ensures
            triple_views(r@) == global_shortcuts_text(),
    {
        let r = vec![
            ("[F2] / [Ctrl+S]", "Open Settings modal", "Abrir modal de Configurações"),
            ("[Ctrl+P] / [p]", "Select & install manga sources", "Selecionar e instalar fontes"),
            ("[?]", "Toggle this help modal", "Abrir / Fechar esta ajuda"),
            ("[Ctrl+C] / [q]", "Quit Neo-Mangal", "Sair do Neo-Mangal"),
        ];
        assert(triple_views(r@) =~= global_shortcuts_text());
        r
    }

    /// The hint at the foot of the window: the keys, then what they do.
    pub fn close_hint(lang: AppLanguage) -> (r: (&'static str, &'static str))
        ensures
            r.0@ == "[Esc / Enter / ?] "@,
            r.1@ == pick(lang, "Close Help"@, "Fechar Ajuda"@),
    {
        ("[Esc / Enter / ?] ", pick_str(lang, "Close Help", "Fechar Ajuda"))
    }
}

} // verus!
