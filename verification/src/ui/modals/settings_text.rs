//! The text of the settings window: the labels and values of its rows, the
//! section titles, the two lines of help about the selected row, and the
//! key hints at its foot.

use vstd::prelude::*;
use crate::i18n::{AppLanguage, I18n, is_portuguese_code, pick};
use crate::order::string_seq;
use crate::text::{str_eq, to_uppercase, trim, trim_str, chars_of, unicode_upper};
use crate::ui::modals::settings::{SettingItem, SettingsModal, profile_full_text};

verus! {

/// The language a settings value names, as the window shows it.
pub open spec fn settings_lang(code: Seq<char>) -> AppLanguage {
    if is_portuguese_code(code) {
        AppLanguage::Portuguese
    } else {
        AppLanguage::English
    }
}

/// The label of a row.
pub open spec fn row_label_text(item: SettingItem, lang: AppLanguage) -> Seq<char> {
    match item {
        SettingItem::DownloadDir => pick(lang, "Download Dir:    "@, "Pasta Download:  "@),
        SettingItem::Language => pick(lang, "Language:        "@, "Idioma:          "@),
        SettingItem::KindleProfile => pick(lang, "Kindle Model:    "@, "Modelo Kindle:   "@),
        SettingItem::OutputFormat => pick(lang, "Output Format:   "@, "Formato Saída:   "@),
        SettingItem::AnilistAccount => pick(lang, "Account:         "@, "Conta AniList:   "@),
        SettingItem::AnilistAutoSync => "Auto-Sync:       "@,
    }
}

/// The sections of the window, top to bottom.
#[derive(Debug, Clone, Copy, PartialEq, Eq, Structural)]
pub enum SettingsSection {
    General,
    Kindle,
    Anilist,
}

/// The title of a section.
pub open spec fn section_title_text(section: SettingsSection, lang: AppLanguage) -> Seq<char> {
    match section {
        SettingsSection::General => pick(lang, "[ General ]"@, "[ Geral ]"@),
        SettingsSection::Kindle => pick(lang, "[ Kindle & Converter ]"@, "[ Kindle & Conversão ]"@),
        SettingsSection::Anilist => "[ AniList ]"@,
    }
}

/// The language value as the row shows it: Portuguese only for the code
/// `pt-br` exactly.
pub open spec fn language_display_text(code: Seq<char>) -> Seq<char> {
    if code == "pt-br"@ {
        "Português (Brasil)"@
    } else {
        "English"@
    }
}

/// The pieces of the account row: the user and that it is connected, or
/// that it is not and how to connect.
pub open spec fn account_text(user: Option<Seq<char>>, lang: AppLanguage) -> Seq<Seq<char>> {
    match user {
        Some(u) => seq!["@"@ + u, pick(lang, " (Connected)"@, " (Conectado)"@)],
        None => seq![
            pick(lang, "Disconnected  "@, "Desconectado  "@),
            pick(lang, "[ Connect Account ]"@, "[ Conectar Conta ]"@),
        ],
    }
}

/// The value of the sync row.
pub open spec fn sync_text(connected: bool, enabled: bool, lang: AppLanguage) -> Seq<char> {
    if !connected {
        pick(lang, "[ DISABLED ] (Requires AniList login)"@, "[ DESATIVADO ] (Requer login AniList)"@)
    } else if enabled {
        pick(lang, "[ ENABLED ]"@, "[ ATIVADO ]"@)
    } else {
        pick(lang, "[ DISABLED ]"@, "[ DESATIVADO ]"@)
    }
}

/// What an output format is, by its name in upper case.
pub open spec fn format_description(format: Seq<char>, lang: AppLanguage) -> Seq<char> {
    let u = unicode_upper(format);
    if u == "AZW3"@ {
        pick(
            lang,
            "Kindle KF8 format. Recommended for all modern Kindle devices."@,
            "Formato Kindle KF8. Recomendado para todos os Kindles modernos."@,
        )
    } else if u == "CBZ"@ {
        pick(
            lang,
            "Comic Book ZIP archive containing original chapter images."@,
            "Arquivo ZIP contendo as imagens originais do capítulo."@,
        )
    } else if u == "EPUB"@ {
        pick(
            lang,
            "Universal e-book format for Kobo, tablets, and generic readers."@,
            "Formato padrão de e-book para Kobo, tablets e outros leitores."@,
        )
    } else if u == "MOBI"@ {
        pick(lang, "Legacy Kindle format for older Kindle models."@, "Formato Kindle legado para modelos antigos."@)
    } else if u == "PDF"@ {
        pick(
            lang,
            "Portable Document Format. Universal viewable document on any device."@,
            "Documento em formato PDF. Visualização universal em qualquer dispositivo."@,
        )
    } else {
        ""@
    }
}

/// The state of the typed download folder: it exists, it will be made, or
/// nothing was typed.
pub open spec fn dir_status_text(path: Seq<char>, dir_exists: bool, lang: AppLanguage) -> Seq<char> {
    if dir_exists {
        pick(lang, "✓ Accessible directory found"@, "✓ Diretório existente e acessível"@)
    } else if trim(path).len() > 0 {
        pick(
            lang,
            "ℹ New directory: will be created automatically upon download"@,
            "ℹ Novo diretório: será criado automaticamente ao baixar"@,
        )
    } else {
        pick(lang, "✗ Path cannot be empty"@, "✗ Caminho não pode estar vazio"@)
    }
}

/// The two lines of help about the selected row; `dir_exists` tells
/// whether the typed download folder is an existing folder.
pub open spec fn info_text(
    item: SettingItem,
    path: Seq<char>,
    profile: Seq<char>,
    format: Seq<char>,
    user: Option<Seq<char>>,
    lang: AppLanguage,
    dir_exists: bool,
) -> (Seq<char>, Seq<char>) {
    match item {
        SettingItem::DownloadDir => (
            "Status: "@ + dir_status_text(path, dir_exists, lang),
            pick(
                lang,
                "Press Enter to edit path with [Tab] autocomplete support."@,
                "Pressione Enter para editar o caminho com suporte a autocompletar [Tab]."@,
            ),
        ),
        SettingItem::Language => (
            pick(
                lang,
                "Interface Language: English / Português (Brasil)"@,
                "Idioma da Interface: Português (Brasil) / English"@,
            ),
            pick(
                lang,
                "Switches all interface labels, alerts, and navigation text."@,
                "Altera todos os textos da interface, avisos e navegação."@,
            ),
        ),
        SettingItem::KindleProfile => (
            profile_full_text(profile, lang),
            pick(
                lang,
                "KCC optimizes image dimensions and contrast for this e-ink device screen."@,
                "O KCC otimiza resolução e contraste da imagem para a tela deste Kindle."@,
            ),
        ),
        SettingItem::OutputFormat => (
            pick(
                lang,
                "Output Format: AZW3 (Kindle), CBZ (Archive), EPUB (Standard), MOBI (Legacy), PDF (Document)"@,
                "Formato: AZW3 (Kindle), CBZ (Arquivo), EPUB (Padrão), MOBI (Legado), PDF (Documento)"@,
            ),
            format_description(format, lang),
        ),
        SettingItem::AnilistAccount => match user {
            Some(u) => (
                pick(lang, "Connected as @"@, "Conectado como @"@) + u + pick(
                    lang,
                    ". Reading progress and favorites are synced."@,
                    ". Progresso de leitura e favoritos sincronizados."@,
                ),
                pick(
                    lang,
                    "Press Enter to disconnect this AniList account."@,
                    "Pressione Enter para desconectar esta conta do AniList."@,
                ),
            ),
            None => (
                pick(
                    lang,
                    "Connect your AniList account to track read manga chapters."@,
                    "Conecte sua conta AniList para registrar capítulos e mangás lidos."@,
                ),
                pick(
                    lang,
                    "Press Enter to open the AniList authentication wizard."@,
                    "Pressione Enter para abrir o assistente de conexão do AniList."@,
                ),
            ),
        },
        SettingItem::AnilistAutoSync => match user {
            Some(_) => (
                pick(
                    lang,
                    "Automatically updates chapter progress on AniList upon download."@,
                    "Atualiza o progresso no AniList automaticamente ao baixar capítulos."@,
                ),
                pick(
                    lang,
                    "Synchronizes reading status directly with your AniList library."@,
                    "Sincroniza status e capítulos lidos diretamente na sua conta AniList."@,
                ),
            ),
            None => (
                pick(
                    lang,
                    "Auto-sync requires an active AniList account connection."@,
                    "O auto-sync requer login ativo em uma conta do AniList."@,
                ),
                pick(
                    lang,
                    "Connect your AniList account above to enable automatic progress tracking."@,
                    "Conecte sua conta AniList acima para ativar a sincronização automática."@,
                ),
            ),
        },
    }
}

/// The views of a list of text pairs.
pub open spec fn pair_texts(v: Seq<(&'static str, &'static str)>) -> Seq<(Seq<char>, Seq<char>)> {
    v.map_values(|p: (&'static str, &'static str)| (p.0@, p.1@))
}

fn pick_str(lang: AppLanguage, en: &'static str, pt: &'static str) -> (r: &'static str)
    ensures
        r@ == pick(lang, en@, pt@),
{
    match lang {
        AppLanguage::English => en,
        AppLanguage::Portuguese => pt,
    }
}

impl SettingsModal {
    /// The label of a row.
    pub fn row_label(item: SettingItem, lang: AppLanguage) -> (r: &'static str)
        ensures
            r@ == row_label_text(item, lang),
    {
        match item {
            SettingItem::DownloadDir => pick_str(lang, "Download Dir:    ", "Pasta Download:  "),
            SettingItem::Language => pick_str(lang, "Language:        ", "Idioma:          "),
            SettingItem::KindleProfile => pick_str(lang, "Kindle Model:    ", "Modelo Kindle:   "),
            SettingItem::OutputFormat => pick_str(lang, "Output Format:   ", "Formato Saída:   "),
            SettingItem::AnilistAccount => pick_str(lang, "Account:         ", "Conta AniList:   "),
            SettingItem::AnilistAutoSync => "Auto-Sync:       ",
        }
    }

    /// The title of a section.
    pub fn section_title(section: SettingsSection, lang: AppLanguage) -> (r: &'static str)
        ensures
            r@ == section_title_text(section, lang),
    {
        match section {
            SettingsSection::General => pick_str(lang, "[ General ]", "[ Geral ]"),
            SettingsSection::Kindle => pick_str(lang, "[ Kindle & Converter ]", "[ Kindle & Conversão ]"),
            SettingsSection::Anilist => "[ AniList ]",
        }
    }

    /// The language value as its row shows it.
    pub fn language_display(&self) -> (r: &'static str)
        ensures
            r@ == language_display_text(self.language@),
    {
        proof {
            reveal_strlit("pt-br");
        }
        if str_eq(self.language.as_str(), "pt-br") {
            "Português (Brasil)"
        } else {
            "English"
        }
    }

    /// The pieces of the account row.
    pub fn account_parts(&self) -> (r: Vec<String>)
        ensures
            string_seq(r@) == account_text(
                match self.anilist_username {
                    Some(u) => Some(u@),
                    None => None,
                },
                settings_lang(self.language@),
            ),
    {
        let lang = self.current_lang();
        let r = match &self.anilist_username {
            Some(u) => {
                let mut at = String::from_str("@");
                at.append(u.as_str());
                vec![at, String::from_str(pick_str(lang, " (Connected)", " (Conectado)"))]
            },
            None => vec![
                String::from_str(pick_str(lang, "Disconnected  ", "Desconectado  ")),
                String::from_str(pick_str(lang, "[ Connect Account ]", "[ Conectar Conta ]")),
            ],
        };
        assert(string_seq(r@) =~= account_text(
            match self.anilist_username {
                Some(u) => Some(u@),
                None => None,
            },
            settings_lang(self.language@),
        ));
        r
    }

    /// The value of the sync row.
    pub fn sync_label(&self) -> (r: &'static str)
        ensures
            r@ == sync_text(self.anilist_username is Some, self.anilist_sync_on_download, settings_lang(self.language@)),
    {
        let lang = self.current_lang();
        if self.anilist_username.is_none() {
            pick_str(lang, "[ DISABLED ] (Requires AniList login)", "[ DESATIVADO ] (Requer login AniList)")
        } else if self.anilist_sync_on_download {
            pick_str(lang, "[ ENABLED ]", "[ ATIVADO ]")
        } else {
            pick_str(lang, "[ DISABLED ]", "[ DESATIVADO ]")
        }
    }

    /// What an output format is.
    pub fn format_description(format: &str, lang: AppLanguage) -> (r: &'static str)
        ensures
            r@ == format_description(format@, lang),
    {
        let u = to_uppercase(format);
        if str_eq(u.as_str(), "AZW3") {
            pick_str(
                lang,
                "Kindle KF8 format. Recommended for all modern Kindle devices.",
                "Formato Kindle KF8. Recomendado para todos os Kindles modernos.",
            )
        } else if str_eq(u.as_str(), "CBZ") {
            pick_str(
                lang,
                "Comic Book ZIP archive containing original chapter images.",
                "Arquivo ZIP contendo as imagens originais do capítulo.",
            )
        } else if str_eq(u.as_str(), "EPUB") {
            pick_str(
                lang,
                "Universal e-book format for Kobo, tablets, and generic readers.",
                "Formato padrão de e-book para Kobo, tablets e outros leitores.",
            )
        } else if str_eq(u.as_str(), "MOBI") {
            pick_str(lang, "Legacy Kindle format for older Kindle models.", "Formato Kindle legado para modelos antigos.")
        } else if str_eq(u.as_str(), "PDF") {
            pick_str(
                lang,
                "Portable Document Format. Universal viewable document on any device.",
                "Documento em formato PDF. Visualização universal em qualquer dispositivo.",
            )
        } else {
            ""
        }
    }

    /// The two lines of help about the selected row; `dir_exists` tells
    /// whether the typed download folder is an existing folder.
    pub fn info_lines(&self, dir_exists: bool) -> (r: (String, String))
        ensures
            (r.0@, r.1@) == info_text(
                self.selected_item,
                self.input_path@,
                self.profile@,
                self.format@,
                match self.anilist_username {
                    Some(u) => Some(u@),
                    None => None,
                },
                settings_lang(self.language@),
                dir_exists,
            ),
    {
        let lang = self.current_lang();
        match self.selected_item {
            SettingItem::DownloadDir => {
                let typed = chars_of(trim_str(self.input_path.as_str()).as_str());
                let status = if dir_exists {
                    I18n::dir_valid(lang)
                } else if typed.len() > 0 {
                    I18n::dir_will_create(lang)
                } else {
                    I18n::dir_empty_err(lang)
                };
                let mut first = String::from_str("Status: ");
                first.append(status);
                let second = pick_str(
                    lang,
                    "Press Enter to edit path with [Tab] autocomplete support.",
                    "Pressione Enter para editar o caminho com suporte a autocompletar [Tab].",
                );
                (first, String::from_str(second))
            },
            SettingItem::Language => (
                String::from_str(
                    pick_str(
                        lang,
                        "Interface Language: English / Português (Brasil)",
                        "Idioma da Interface: Português (Brasil) / English",
                    ),
                ),
                String::from_str(
                    pick_str(
                        lang,
                        "Switches all interface labels, alerts, and navigation text.",
                        "Altera todos os textos da interface, avisos e navegação.",
                    ),
                ),
            ),
            SettingItem::KindleProfile => (
                String::from_str(Self::profile_full_description(self.profile.as_str(), lang)),
                String::from_str(
                    pick_str(
                        lang,
                        "KCC optimizes image dimensions and contrast for this e-ink device screen.",
                        "O KCC otimiza resolução e contraste da imagem para a tela deste Kindle.",
                    ),
                ),
            ),
            SettingItem::OutputFormat => (
                String::from_str(
                    pick_str(
                        lang,
                        "Output Format: AZW3 (Kindle), CBZ (Archive), EPUB (Standard), MOBI (Legacy), PDF (Document)",
                        "Formato: AZW3 (Kindle), CBZ (Arquivo), EPUB (Padrão), MOBI (Legado), PDF (Documento)",
                    ),
                ),
                String::from_str(Self::format_description(self.format.as_str(), lang)),
            ),
            SettingItem::AnilistAccount => match &self.anilist_username {
                Some(u) => {
                    let mut first = String::from_str(pick_str(lang, "Connected as @", "Conectado como @"));
                    first.append(u.as_str());
                    first.append(
                        pick_str(
                            lang,
                            ". Reading progress and favorites are synced.",
                            ". Progresso de leitura e favoritos sincronizados.",
                        ),
                    );
                    (
                        first,
                        String::from_str(
                            pick_str(
                                lang,
                                "Press Enter to disconnect this AniList account.",
                                "Pressione Enter para desconectar esta conta do AniList.",
                            ),
                        ),
                    )
                },
                None => (
                    String::from_str(
                        pick_str(
                            lang,
                            "Connect your AniList account to track read manga chapters.",
                            "Conecte sua conta AniList para registrar capítulos e mangás lidos.",
                        ),
                    ),
                    String::from_str(
                        pick_str(
                            lang,
                            "Press Enter to open the AniList authentication wizard.",
                            "Pressione Enter para abrir o assistente de conexão do AniList.",
                        ),
                    ),
                ),
            },
            SettingItem::AnilistAutoSync => match &self.anilist_username {
                Some(_) => (
                    String::from_str(
                        pick_str(
                            lang,
                            "Automatically updates chapter progress on AniList upon download.",
                            "Atualiza o progresso no AniList automaticamente ao baixar capítulos.",
                        ),
                    ),
                    String::from_str(
                        pick_str(
                            lang,
                            "Synchronizes reading status directly with your AniList library.",
                            "Sincroniza status e capítulos lidos diretamente na sua conta AniList.",
                        ),
                    ),
                ),
                None => (
                    String::from_str(
                        pick_str(
                            lang,
                            "Auto-sync requires an active AniList account connection.",
                            "O auto-sync requer login ativo em uma conta do AniList.",
                        ),
                    ),
                    String::from_str(
                        pick_str(
                            lang,
                            "Connect your AniList account above to enable automatic progress tracking.",
                            "Conecte sua conta AniList acima para ativar a sincronização automática.",
                        ),
                    ),
                ),
            },
        }
    }

    /// The title of the window.
    pub fn window_title(lang: AppLanguage) -> (r: &'static str)
        ensures
            r@ == pick(lang, " 󰒓 Settings "@, " 󰒓 Configurações "@),
    {
        pick_str(lang, " 󰒓 Settings ", " 󰒓 Configurações ")
    }

    /// The title of the help box under the rows.
    pub fn info_title(lang: AppLanguage) -> (r: &'static str)
        ensures
            r@ == pick(lang, " ℹ Info "@, " ℹ Detalhes "@),
    {
        pick_str(lang, " ℹ Info ", " ℹ Detalhes ")
    }

    /// The key hints at the foot of the window: key, then what it does.
    pub fn footer_hints(lang: AppLanguage) -> (r: Vec<(&'static str, &'static str)>)
        ensures
            pair_texts(r@) == seq![
                ("[↑/↓] "@, pick(lang, "Navigate   "@, "Navegar   "@)),
                (pick(lang, "[Enter/Space] "@, "[Enter/Espaço] "@), pick(lang, "Change   "@, "Alterar   "@)),
                ("[Esc] "@, pick(lang, "Save & Close"@, "Salvar e Fechar"@)),
            ],
    {
        let r = vec![
            ("[↑/↓] ", pick_str(lang, "Navigate   ", "Navegar   ")),
            (pick_str(lang, "[Enter/Space] ", "[Enter/Espaço] "), pick_str(lang, "Change   ", "Alterar   ")),
            ("[Esc] ", pick_str(lang, "Save & Close", "Salvar e Fechar")),
        ];
        assert(pair_texts(r@) =~= seq![
            ("[↑/↓] "@, pick(lang, "Navigate   "@, "Navegar   "@)),
            (pick(lang, "[Enter/Space] "@, "[Enter/Espaço] "@), pick(lang, "Change   "@, "Alterar   "@)),
            ("[Esc] "@, pick(lang, "Save & Close"@, "Salvar e Fechar"@)),
        ]);
        r
    }
}

} // verus!
