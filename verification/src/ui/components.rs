//! The text of the main window's parts: the header, the search box, the
//! lists, the progress bar and the key hints at the bottom. Each function
//! gives the pieces of text a part shows, in order; drawing them is left
//! to the terminal front end.

use vstd::prelude::*;
use crate::domain::favorite::FavoriteManga;
use crate::domain::job::JobStatus;
use crate::domain::manga::{Chapter, Manga};
use crate::i18n::{AppLanguage, I18n, pick};
use crate::order::string_seq;
use crate::text::{dec, decimal, pad_spaces, space_padded, str_eq};
use crate::ui::modals::source_select::NameSet;

verus! {

/// The views of a list of static strings.
pub open spec fn str_views(v: Seq<&'static str>) -> Seq<Seq<char>> {
    v.map_values(|s: &'static str| s@)
}

/// A one-piece text.
fn one_string(s: &str) -> (r: Vec<String>)
    ensures
        string_seq(r@) == seq![s@],
{
    let r = vec![String::from_str(s)];
    assert(string_seq(r@) =~= seq![s@]);
    r
}

/// The title bar at the top.
pub struct HeaderComponent;

impl HeaderComponent {
    /// The pieces of the title line: the program's name, its version, the
    /// active source and the busy or ready badge.
    pub fn title_parts(version: &str, provider: &str, is_busy: bool, lang: AppLanguage) -> (r: Vec<
        String,
    >)
        ensures
            string_seq(r@) == seq![
                " NEO-MANGAL "@,
                " v"@ + version@ + " "@,
                " |  Source: "@,
                provider@,
                "  "@,
                if is_busy {
                    pick(lang, " [BUSY] "@, " [OCUPADO] "@)
                } else {
                    pick(lang, " [READY] "@, " [PRONTO] "@)
                },
            ],
    {
        let mut v = String::from_str(" v");
        v.append(version);
        v.append(" ");
        let badge = if is_busy {
            I18n::status_busy(lang)
        } else {
            I18n::status_ready(lang)
        };
        let r = vec![
            String::from_str(" NEO-MANGAL "),
            v,
            String::from_str(" |  Source: "),
            String::from_str(provider),
            String::from_str("  "),
            String::from_str(badge),
        ];
        assert(string_seq(r@) =~= seq![
            " NEO-MANGAL "@,
            " v"@ + version@ + " "@,
            " |  Source: "@,
            provider@,
            "  "@,
            badge@,
        ]);
        r
    }
}

/// The search box.
pub struct SearchBarComponent;

impl SearchBarComponent {
    /// What the box shows: the placeholder where nothing is typed and the
    /// box is not focused; else the prompt, the typed text and, when
    /// focused, a block cursor.
    pub fn display_parts(input: &str, is_focused: bool, lang: AppLanguage) -> (r: Vec<String>)
        ensures
            string_seq(r@) == (if input@.len() == 0 && !is_focused {
                seq![
                    pick(
                        lang,
                        "Type manga name and press Enter (e.g. 'One Piece', 'Berserk')..."@,
                        "Digite o nome do mangá e pressione Enter (ex: 'One Piece', 'Berserk')..."@,
                    ),
                ]
            } else {
                seq!["> "@, input@, if is_focused { "█"@ } else { ""@ }]
            }),
    {
        proof {
            reveal_strlit("");
            if input@.len() == 0 {
                assert(input@ =~= ""@);
            }
        }
        if str_eq(input, "") && !is_focused {
            one_string(I18n::search_placeholder(lang))
        } else {
            let cursor = if is_focused {
                "█"
            } else {
                ""
            };
            let r = vec![String::from_str("> "), String::from_str(input), String::from_str(cursor)];
            assert(string_seq(r@) =~= seq!["> "@, input@, cursor@]);
            r
        }
    }
}

/// The list of search results.
pub struct MangaListComponent;

impl MangaListComponent {
    /// The pieces of a result row: its number (from 1, right-aligned in
    /// two characters), the title and the source in brackets.
    pub fn row_parts(idx: usize, manga: &Manga) -> (r: Vec<String>)
        requires
            idx < usize::MAX,
        ensures
            string_seq(r@) == seq![
                pad_spaces(dec((idx + 1) as nat), 2) + ". "@,
                manga.title@,
                " ["@ + manga.provider@ + "]"@,
            ],
    {
        let mut prefix = space_padded((idx + 1) as u64, 2);
        prefix.append(". ");
        let mut tag = String::from_str(" [");
        tag.append(manga.provider.as_str());
        tag.append("]");
        let r = vec![prefix, manga.title.clone(), tag];
        assert(string_seq(r@) =~= seq![
            pad_spaces(dec((idx + 1) as nat), 2) + ". "@,
            manga.title@,
            " ["@ + manga.provider@ + "]"@,
        ]);
        r
    }
}

/// The favorites shown on the home screen.
pub struct FavoritesListComponent;

/// The note after a favorite: the last chapter downloaded, or that none was.
pub open spec fn last_chapter_note(last: Option<Seq<char>>, lang: AppLanguage) -> Seq<char> {
    match last {
        Some(c) => pick(lang, "  󰄬 Last: "@, "  󰄬 Último: "@) + c,
        None => pick(lang, "  󰋩 Not downloaded yet"@, "  󰋩 Nenhum capítulo baixado"@),
    }
}

impl FavoritesListComponent {
    /// The title of the box, with the number of favorites.
    pub fn title(count: usize, lang: AppLanguage) -> (r: String)
        ensures
            r@ == pick(lang, " 󰓎 Favorite Mangas ("@, " 󰓎 Mangás Favoritos ("@) + dec(count as nat)
                + ") "@,
    {
        let mut s = match lang {
            AppLanguage::English => String::from_str(" 󰓎 Favorite Mangas ("),
            AppLanguage::Portuguese => String::from_str(" 󰓎 Mangás Favoritos ("),
        };
        s.append(decimal(count as u64).as_str());
        s.append(") ");
        s
    }

    /// The lines shown where there is no favorite yet.
    pub fn empty_lines(lang: AppLanguage) -> (r: Vec<&'static str>)
        ensures
            str_views(r@) == (match lang {
                AppLanguage::English => seq![
                    ""@,
                    "󰓍 No favorite mangas saved yet"@,
                    ""@,
                    "Press [/] or [Enter] above to search for manga."@,
                    "In the search results, press [f] to bookmark any series!"@,
                ],
                AppLanguage::Portuguese => seq![
                    ""@,
                    "󰓍 Nenhum mangá favorito salvo ainda"@,
                    ""@,
                    "Pressione [/] ou [Enter] acima para pesquisar mangás."@,
                    "Na lista de resultados, aperte [f] para favoritar uma obra!"@,
                ],
            }),
    {
        let r = match lang {
            AppLanguage::English => vec![
                "",
                "󰓍 No favorite mangas saved yet",
                "",
                "Press [/] or [Enter] above to search for manga.",
                "In the search results, press [f] to bookmark any series!",
            ],
            AppLanguage::Portuguese => vec![
                "",
                "󰓍 Nenhum mangá favorito salvo ainda",
                "",
                "Pressione [/] ou [Enter] acima para pesquisar mangás.",
                "Na lista de resultados, aperte [f] para favoritar uma obra!",
            ],
        };
        assert(str_views(r@) =~= (match lang {
            AppLanguage::English => seq![
                ""@,
                "󰓍 No favorite mangas saved yet"@,
                ""@,
                "Press [/] or [Enter] above to search for manga."@,
                "In the search results, press [f] to bookmark any series!"@,
            ],
            AppLanguage::Portuguese => seq![
                ""@,
                "󰓍 Nenhum mangá favorito salvo ainda"@,
                ""@,
                "Pressione [/] ou [Enter] acima para pesquisar mangás."@,
                "Na lista de resultados, aperte [f] para favoritar uma obra!"@,
            ],
        }));
        r
    }

    /// The pieces of a favorite's row: its number, a star, the title, the
    /// source in brackets and the note on the last chapter downloaded.
    pub fn row_parts(idx: usize, fav: &FavoriteManga, lang: AppLanguage) -> (r: Vec<String>)
        requires
            idx < usize::MAX,
        ensures
            string_seq(r@) == seq![
                pad_spaces(dec((idx + 1) as nat), 2) + ". "@,
                "★ "@,
                fav.title@,
                " ["@ + fav.provider@ + "]"@,
                last_chapter_note(
                    match fav.last_downloaded_chapter {
                        Some(c) => Some(c@),
                        None => None,
                    },
                    lang,
                ),
            ],
    {
        let mut prefix = space_padded((idx + 1) as u64, 2);
        prefix.append(". ");
        let mut tag = String::from_str(" [");
        tag.append(fav.provider.as_str());
        tag.append("]");
        let note = match &fav.last_downloaded_chapter {
            Some(c) => {
                let mut s = match lang {
                    AppLanguage::English => String::from_str("  󰄬 Last: "),
                    AppLanguage::Portuguese => String::from_str("  󰄬 Último: "),
                };
                s.append(c.as_str());
                s
            },
            None => match lang {
                AppLanguage::English => String::from_str("  󰋩 Not downloaded yet"),
                AppLanguage::Portuguese => String::from_str("  󰋩 Nenhum capítulo baixado"),
            },
        };
        let r = vec![prefix, String::from_str("★ "), fav.title.clone(), tag, note];
        assert(string_seq(r@) =~= seq![
            pad_spaces(dec((idx + 1) as nat), 2) + ". "@,
            "★ "@,
            fav.title@,
            " ["@ + fav.provider@ + "]"@,
            last_chapter_note(
                match fav.last_downloaded_chapter {
                    Some(c) => Some(c@),
                    None => None,
                },
                lang,
            ),
        ]);
        r
    }
}

/// The chapter list with its filter box.
pub struct ChapterListComponent;

impl ChapterListComponent {
    /// The pieces of the filter line: the label, the filter typed so far, a
    /// cursor while it is being typed, a separator, the page indicator (at
    /// least one page) and the page keys.
    pub fn filter_parts(
        filter_query: &str,
        is_filtering: bool,
        current_page: usize,
        total_pages: usize,
        total_matching: usize,
        lang: AppLanguage,
    ) -> (r: Vec<String>)
        requires
            current_page < usize::MAX,
        ensures
            string_seq(r@) == seq![
                pick(lang, "Filter: "@, "Filtro: "@),
                filter_query@,
                if is_filtering { "█"@ } else { ""@ },
                "   |   "@,
                pick(lang, "Page "@, "Página "@) + dec((current_page + 1) as nat) + "/"@ + dec(
                    (if total_pages > 1 { total_pages } else { 1 }) as nat,
                ) + " ("@ + dec(total_matching as nat) + pick(
                    lang,
                    " matching)"@,
                    " correspondentes)"@,
                ),
                pick(lang, "   [← / → to switch page]"@, "   [← / → para mudar de página]"@),
            ],
    {
        let cursor = if is_filtering {
            "█"
        } else {
            ""
        };
        let pages = if total_pages > 1 {
            total_pages
        } else {
            1
        };
        let info = I18n::pagination_info(lang, current_page + 1, pages, total_matching);
        let label = I18n::filter_label(lang);
        let hint = I18n::pagination_hint(lang);
        let r = vec![
            String::from_str(label),
            String::from_str(filter_query),
            String::from_str(cursor),
            String::from_str("   |   "),
            info,
            String::from_str(hint),
        ];
        assert(string_seq(r@) =~= seq![label@, filter_query@, cursor@, "   |   "@, info@, hint@]);
        r
    }

    /// The mark in front of a chapter: checked or not.
    pub fn check_mark(is_checked: bool) -> (r: &'static str)
        ensures
            r@ == (if is_checked {
                "󰄲 "@
            } else {
                "󰄱 "@
            }),
    {
        if is_checked {
            "󰄲 "
        } else {
            "󰄱 "
        }
    }

    /// For each chapter of the page, whether it is selected.
    pub fn checked_rows(page_chapters: &[Chapter], selected: &NameSet) -> (r: Vec<bool>)
        ensures
            r@.len() == page_chapters@.len(),
            forall|i: int|
                0 <= i < page_chapters@.len() ==> r@[i] == selected@.contains(
                    #[trigger] page_chapters@[i].id@,
                ),
    {
        let mut r: Vec<bool> = Vec::new();
        let mut i: usize = 0;
        while i < page_chapters.len()
            invariant
                i <= page_chapters@.len(),
                r@.len() == i,
                forall|k: int| 0 <= k < i ==> r@[k] == selected@.contains(#[trigger] page_chapters@[k].id@),
            decreases page_chapters@.len() - i,
        {
            r.push(selected.contains(page_chapters[i].id.as_str()));
            i = i + 1;
        }
        r
    }
}

/// The progress bar.
pub struct ProgressBarComponent;

impl ProgressBarComponent {
    /// The label on the bar; `pct` is the share of pages done, in percent,
    /// shown while downloading.
    pub fn label(status: &JobStatus, pct: u16, lang: AppLanguage) -> (r: String)
        ensures
            r@ == (match *status {
                JobStatus::Idle => pick(lang, "Ready"@, "Pronto"@),
                JobStatus::Downloading { current, total } => pick(
                    lang,
                    "Downloading pages "@,
                    "Baixando páginas "@,
                ) + dec(current as nat) + "/"@ + dec(total as nat) + " ("@ + dec(pct as nat) + "%)"@,
                JobStatus::PackagingCbz => pick(
                    lang,
                    "Packaging CBZ archive..."@,
                    "Empacotando arquivo CBZ..."@,
                ),
                JobStatus::ConvertingKcc { message } => pick(
                    lang,
                    "KCC Converting: "@,
                    "Convertendo KCC: "@,
                ) + message@,
                JobStatus::Done(msg) => pick(lang, "Done: "@, "Concluído: "@) + msg@,
                JobStatus::Failed(err) => pick(lang, "Error: "@, "Erro: "@) + err@,
            }),
    {
        match status {
            JobStatus::Idle => String::from_str(I18n::progress_ready(lang)),
            JobStatus::Downloading { current, total } => I18n::progress_downloading(
                lang,
                *current,
                *total,
                pct,
            ),
            JobStatus::PackagingCbz => String::from_str(I18n::progress_packaging(lang)),
            JobStatus::ConvertingKcc { message } => I18n::progress_converting(lang, message.as_str()),
            JobStatus::Done(msg) => I18n::progress_done(lang, msg.as_str()),
            JobStatus::Failed(err) => I18n::progress_error(lang, err.as_str()),
        }
    }
}

/// The key hints at the bottom.
pub struct StatusBarComponent;

/// The key hints of a view (`search`, `search_unfocused`, `manga_list`,
/// `chapter_list`, `chapter_filter`; anything else shows only how to quit):
/// the key, then what it does.
pub open spec fn status_hints(view: Seq<char>, lang: AppLanguage) -> Seq<(Seq<char>, Seq<char>)> {
    let en = lang == AppLanguage::English;
    if view == "search"@ {
        if en {
            seq![
                (" [Enter] "@, "Search  "@),
                (" [Esc] "@, "Unfocus  "@),
                (" [Ctrl+P] "@, "Source  "@),
                (" [F2] "@, "Settings"@),
            ]
        } else {
            seq![
                (" [Enter] "@, "Buscar  "@),
                (" [Esc] "@, "Desfocar  "@),
                (" [Ctrl+P] "@, "Fonte  "@),
                (" [F2] "@, "Configurações"@),
            ]
        }
    } else if view == "search_unfocused"@ {
        if en {
            seq![
                (" [/]/[Enter] "@, "Focus Search  "@),
                (" [p] "@, "Source  "@),
                (" [s] "@, "Settings  "@),
                (" [q] "@, "Quit"@),
            ]
        } else {
            seq![
                (" [/]/[Enter] "@, "Focar Busca  "@),
                (" [p] "@, "Fonte  "@),
                (" [s] "@, "Configurações  "@),
                (" [q] "@, "Sair"@),
            ]
        }
    } else if view == "manga_list"@ {
        if en {
            seq![
                (" [Enter] "@, "View Chapters  "@),
                (" [/] "@, "New Search  "@),
                (" [p] "@, "Source  "@),
                (" [s] "@, "Settings  "@),
                (" [q] "@, "Quit"@),
            ]
        } else {
            seq![
                (" [Enter] "@, "Ver Capítulos  "@),
                (" [/] "@, "Nova Busca  "@),
                (" [p] "@, "Fonte  "@),
                (" [s] "@, "Configurações  "@),
                (" [q] "@, "Sair"@),
            ]
        }
    } else if view == "chapter_list"@ {
        if en {
            seq![
                (" [Enter] "@, "Process/Download  "@),
                (" [Space] "@, "Check  "@),
                (" [a] "@, "All  "@),
                (" [/] "@, "Filter  "@),
                (" [←/→] "@, "Pages  "@),
                (" [s] "@, "Settings  "@),
                (" [b/Esc] "@, "Back  "@),
                (" [q] "@, "Quit"@),
            ]
        } else {
            seq![
                (" [Enter] "@, "Processar/Baixar  "@),
                (" [Espaço] "@, "Marcar  "@),
                (" [a] "@, "Todos  "@),
                (" [/] "@, "Filtrar  "@),
                (" [←/→] "@, "Páginas  "@),
                (" [s] "@, "Config  "@),
                (" [b/Esc] "@, "Voltar  "@),
                (" [q] "@, "Sair"@),
            ]
        }
    } else if view == "chapter_filter"@ {
        if en {
            seq![(" [Esc]/[Enter] "@, "Done Filtering  "@), (" [Backspace] "@, "Delete"@)]
        } else {
            seq![(" [Esc]/[Enter] "@, "Concluir Filtro  "@), (" [Backspace] "@, "Apagar"@)]
        }
    } else {
        seq![(" [q] "@, pick(lang, "Quit"@, "Sair"@))]
    }
}

/// The views of a list of text pairs.
pub open spec fn hint_views(v: Seq<(&'static str, &'static str)>) -> Seq<(Seq<char>, Seq<char>)> {
    v.map_values(|p: (&'static str, &'static str)| (p.0@, p.1@))
}

impl StatusBarComponent {
    /// The key hints of a view: the key, then what it does.
    pub fn key_hints(current_view: &str, lang: AppLanguage) -> (r: Vec<(&'static str, &'static str)>)
        ensures
            hint_views(r@) == status_hints(current_view@, lang),
    {
        let en = match lang {
            AppLanguage::English => true,
            AppLanguage::Portuguese => false,
        };
        let r = if str_eq(current_view, "search") {
            if en {
                vec![(" [Enter] ", "Search  "), (" [Esc] ", "Unfocus  "), (" [Ctrl+P] ", "Source  "), (" [F2] ", "Settings")]
            } else {
                vec![(" [Enter] ", "Buscar  "), (" [Esc] ", "Desfocar  "), (" [Ctrl+P] ", "Fonte  "), (" [F2] ", "Configurações")]
            }
        } else if str_eq(current_view, "search_unfocused") {
            if en {
                vec![(" [/]/[Enter] ", "Focus Search  "), (" [p] ", "Source  "), (" [s] ", "Settings  "), (" [q] ", "Quit")]
            } else {
                vec![(" [/]/[Enter] ", "Focar Busca  "), (" [p] ", "Fonte  "), (" [s] ", "Configurações  "), (" [q] ", "Sair")]
            }
        } else if str_eq(current_view, "manga_list") {
            if en {
                vec![
                    (" [Enter] ", "View Chapters  "),
                    (" [/] ", "New Search  "),
                    (" [p] ", "Source  "),
                    (" [s] ", "Settings  "),
                    (" [q] ", "Quit"),
                ]
            } else {
                vec![
                    (" [Enter] ", "Ver Capítulos  "),
                    (" [/] ", "Nova Busca  "),
                    (" [p] ", "Fonte  "),
                    (" [s] ", "Configurações  "),
                    (" [q] ", "Sair"),
                ]
            }
        } else if str_eq(current_view, "chapter_list") {
            if en {
                vec![
                    (" [Enter] ", "Process/Download  "),
                    (" [Space] ", "Check  "),
                    (" [a] ", "All  "),
                    (" [/] ", "Filter  "),
                    (" [←/→] ", "Pages  "),
                    (" [s] ", "Settings  "),
                    (" [b/Esc] ", "Back  "),
                    (" [q] ", "Quit"),
                ]
            } else {
                vec![
                    (" [Enter] ", "Processar/Baixar  "),
                    (" [Espaço] ", "Marcar  "),
                    (" [a] ", "Todos  "),
                    (" [/] ", "Filtrar  "),
                    (" [←/→] ", "Páginas  "),
                    (" [s] ", "Config  "),
                    (" [b/Esc] ", "Voltar  "),
                    (" [q] ", "Sair"),
                ]
            }
        } else if str_eq(current_view, "chapter_filter") {
            if en {
                vec![(" [Esc]/[Enter] ", "Done Filtering  "), (" [Backspace] ", "Delete")]
            } else {
                vec![(" [Esc]/[Enter] ", "Concluir Filtro  "), (" [Backspace] ", "Apagar")]
            }
        } else if en {
            vec![(" [q] ", "Quit")]
        } else {
            vec![(" [q] ", "Sair")]
        };
        assert(hint_views(r@) =~= status_hints(current_view@, lang));
        r
    }

    /// The text after the hints: where the files go.
    pub fn output_note(output_path: &str) -> (r: String)
        ensures
            r@ == "  |  Out: "@ + output_path@,
    {
        let mut s = String::from_str("  |  Out: ");
        s.append(output_path);
        s
    }
}

} // verus!
