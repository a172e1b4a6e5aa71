//! The interface texts in the two supported languages.

use vstd::prelude::*;
use crate::text::{chars_of, lower_chars, chars_eq, lower_seq, dec, decimal};

verus! {

/// The languages of the interface.
#[derive(Debug, Clone, Copy, PartialEq, Eq, Structural)]
pub enum AppLanguage {
    English,
    Portuguese,
}

/// The codes that select Portuguese, compared after lower-casing;
/// every other code selects English.
pub open spec fn is_portuguese_code(code: Seq<char>) -> bool {
    let l = lower_seq(code);
    l == "pt"@ || l == "pt-br"@ || l == "pt_br"@ || l == "portuguese"@
}

/// `en` for English, `pt` for Portuguese.
pub open spec fn pick(lang: AppLanguage, en: Seq<char>, pt: Seq<char>) -> Seq<char> {
    match lang {
        AppLanguage::English => en,
        AppLanguage::Portuguese => pt,
    }
}

/// The views of a list of pairs of string slices.
pub open spec fn pair_views(v: Seq<(&'static str, &'static str)>) -> Seq<(Seq<char>, Seq<char>)> {
    v.map_values(|p: (&'static str, &'static str)| (p.0@, p.1@))
}

impl AppLanguage {
    /// The language a configuration code names; unknown codes give English.
    pub fn from_code(code: &str) -> (r: AppLanguage)
        ensures
            r == (if is_portuguese_code(code@) { AppLanguage::Portuguese } else { AppLanguage::English }),
    {
        let lowered = lower_chars(&chars_of(code));
        let is_pt = chars_eq(&lowered, &chars_of("pt")) || chars_eq(&lowered, &chars_of("pt-br"))
            || chars_eq(&lowered, &chars_of("pt_br")) || chars_eq(&lowered, &chars_of("portuguese"));
        if is_pt {
            AppLanguage::Portuguese
        } else {
            AppLanguage::English
        }
    }

    /// The configuration code of the language.
    pub fn code(&self) -> (r: &'static str)
        ensures
            r@ == pick(*self, "en"@, "pt-br"@),
    {
        match self {
            AppLanguage::English => "en",
            AppLanguage::Portuguese => "pt-br",
        }
    }

    /// The name of the language as the interface shows it.
    pub fn display_name(&self) -> (r: &'static str)
        ensures
            r@ == pick(*self, "English (Default)"@, "Português (Brasil)"@),
    {
        match self {
            AppLanguage::English => "English (Default)",
            AppLanguage::Portuguese => "Português (Brasil)",
        }
    }
}

/// The texts of the interface, each in the language asked for.
pub struct I18n;

impl I18n {

    /// The "status ready" text.
    pub fn status_ready(lang: AppLanguage) -> (r: &'static str)
        ensures
            r@ == pick(lang, " [READY] "@, " [PRONTO] "@),
    {
        match lang {
            AppLanguage::English => " [READY] ",
            AppLanguage::Portuguese => " [PRONTO] ",
        }
    }

    /// The "status busy" text.
    pub fn status_busy(lang: AppLanguage) -> (r: &'static str)
        ensures
            r@ == pick(lang, " [BUSY] "@, " [OCUPADO] "@),
    {
        match lang {
            AppLanguage::English => " [BUSY] ",
            AppLanguage::Portuguese => " [OCUPADO] ",
        }
    }

    /// The "search title" text.
    pub fn search_title(lang: AppLanguage) -> (r: &'static str)
        ensures
            r@ == pick(lang, " Search Manga "@, " Buscar Mangá "@),
    {
        match lang {
            AppLanguage::English => " Search Manga ",
            AppLanguage::Portuguese => " Buscar Mangá ",
        }
    }

    /// The "search placeholder" text.
    pub fn search_placeholder(lang: AppLanguage) -> (r: &'static str)
        ensures
            r@ == pick(lang, "Type manga name and press Enter (e.g. 'One Piece', 'Berserk')..."@, "Digite o nome do mangá e pressione Enter (ex: 'One Piece', 'Berserk')..."@),
    {
        match lang {
            AppLanguage::English => "Type manga name and press Enter (e.g. 'One Piece', 'Berserk')...",
            AppLanguage::Portuguese => "Digite o nome do mangá e pressione Enter (ex: 'One Piece', 'Berserk')...",
        }
    }

    /// The "filter label" text.
    pub fn filter_label(lang: AppLanguage) -> (r: &'static str)
        ensures
            r@ == pick(lang, "Filter: "@, "Filtro: "@),
    {
        match lang {
            AppLanguage::English => "Filter: ",
            AppLanguage::Portuguese => "Filtro: ",
        }
    }

    /// The "pagination hint" text.
    pub fn pagination_hint(lang: AppLanguage) -> (r: &'static str)
        ensures
            r@ == pick(lang, "   [← / → to switch page]"@, "   [← / → para mudar de página]"@),
    {
        match lang {
            AppLanguage::English => "   [← / → to switch page]",
            AppLanguage::Portuguese => "   [← / → para mudar de página]",
        }
    }

    /// The "progress title" text.
    pub fn progress_title(lang: AppLanguage) -> (r: &'static str)
        ensures
            r@ == pick(lang, " Progress "@, " Progresso "@),
    {
        match lang {
            AppLanguage::English => " Progress ",
            AppLanguage::Portuguese => " Progresso ",
        }
    }

    /// The "progress ready" text.
    pub fn progress_ready(lang: AppLanguage) -> (r: &'static str)
        ensures
            r@ == pick(lang, "Ready"@, "Pronto"@),
    {
        match lang {
            AppLanguage::English => "Ready",
            AppLanguage::Portuguese => "Pronto",
        }
    }

    /// The "progress packaging" text.
    pub fn progress_packaging(lang: AppLanguage) -> (r: &'static str)
        ensures
            r@ == pick(lang, "Packaging CBZ archive..."@, "Empacotando arquivo CBZ..."@),
    {
        match lang {
            AppLanguage::English => "Packaging CBZ archive...",
            AppLanguage::Portuguese => "Empacotando arquivo CBZ...",
        }
    }

    /// The "progress packaging pdf" text.
    pub fn progress_packaging_pdf(lang: AppLanguage) -> (r: &'static str)
        ensures
            r@ == pick(lang, "Generating PDF document..."@, "Gerando documento PDF..."@),
    {
        match lang {
            AppLanguage::English => "Generating PDF document...",
            AppLanguage::Portuguese => "Gerando documento PDF...",
        }
    }

    /// The "settings title" text.
    pub fn settings_title(lang: AppLanguage) -> (r: &'static str)
        ensures
            r@ == pick(lang, " ⚙ Settings "@, " ⚙ Configurações "@),
    {
        match lang {
            AppLanguage::English => " ⚙ Settings ",
            AppLanguage::Portuguese => " ⚙ Configurações ",
        }
    }

    /// The "download dir title" text.
    pub fn download_dir_title(lang: AppLanguage) -> (r: &'static str)
        ensures
            r@ == pick(lang, " Download / Output Directory "@, " Diretório de Download / Saída "@),
    {
        match lang {
            AppLanguage::English => " Download / Output Directory ",
            AppLanguage::Portuguese => " Diretório de Download / Saída ",
        }
    }

    /// The "dir valid" text.
    pub fn dir_valid(lang: AppLanguage) -> (r: &'static str)
        ensures
            r@ == pick(lang, "✓ Accessible directory found"@, "✓ Diretório existente e acessível"@),
    {
        match lang {
            AppLanguage::English => "✓ Accessible directory found",
            AppLanguage::Portuguese => "✓ Diretório existente e acessível",
        }
    }

    /// The "dir will create" text.
    pub fn dir_will_create(lang: AppLanguage) -> (r: &'static str)
        ensures
            r@ == pick(lang, "ℹ New directory: will be created automatically upon download"@, "ℹ Novo diretório: será criado automaticamente ao baixar"@),
    {
        match lang {
            AppLanguage::English => "ℹ New directory: will be created automatically upon download",
            AppLanguage::Portuguese => "ℹ Novo diretório: será criado automaticamente ao baixar",
        }
    }

    /// The "dir empty err" text.
    pub fn dir_empty_err(lang: AppLanguage) -> (r: &'static str)
        ensures
            r@ == pick(lang, "✗ Path cannot be empty"@, "✗ Caminho não pode estar vazio"@),
    {
        match lang {
            AppLanguage::English => "✗ Path cannot be empty",
            AppLanguage::Portuguese => "✗ Caminho não pode estar vazio",
        }
    }

    /// The "lang title" text.
    pub fn lang_title(lang: AppLanguage) -> (r: &'static str)
        ensures
            r@ == pick(lang, " Interface Language [Press 'l' or Tab to switch] "@, " Idioma da Interface [Pressione 'l' ou Tab para alternar] "@),
    {
        match lang {
            AppLanguage::English => " Interface Language [Press 'l' or Tab to switch] ",
            AppLanguage::Portuguese => " Idioma da Interface [Pressione 'l' ou Tab para alternar] ",
        }
    }

    /// The "lang label" text.
    pub fn lang_label(lang: AppLanguage) -> (r: &'static str)
        ensures
            r@ == pick(lang, "Active Language: "@, "Idioma Ativo: "@),
    {
        match lang {
            AppLanguage::English => "Active Language: ",
            AppLanguage::Portuguese => "Idioma Ativo: ",
        }
    }

    /// The "kcc profile title" text.
    pub fn kcc_profile_title(lang: AppLanguage) -> (r: &'static str)
        ensures
            r@ == pick(lang, " KCC Device Profile [Press 'p' to switch] "@, " Perfil de Dispositivo KCC [Pressione 'p' para alternar] "@),
    {
        match lang {
            AppLanguage::English => " KCC Device Profile [Press 'p' to switch] ",
            AppLanguage::Portuguese => " Perfil de Dispositivo KCC [Pressione 'p' para alternar] ",
        }
    }

    /// The "model label" text.
    pub fn model_label(lang: AppLanguage) -> (r: &'static str)
        ensures
            r@ == pick(lang, "Model: "@, "Modelo: "@),
    {
        match lang {
            AppLanguage::English => "Model: ",
            AppLanguage::Portuguese => "Modelo: ",
        }
    }

    /// The "format label" text.
    pub fn format_label(lang: AppLanguage) -> (r: &'static str)
        ensures
            r@ == pick(lang, "  Format: "@, "  Formato: "@),
    {
        match lang {
            AppLanguage::English => "  Format: ",
            AppLanguage::Portuguese => "  Formato: ",
        }
    }

    /// The "anilist title" text.
    pub fn anilist_title(lang: AppLanguage) -> (r: &'static str)
        ensures
            r@ == pick(lang, " AniList Sync "@, " Sincronização AniList "@),
    {
        match lang {
            AppLanguage::English => " AniList Sync ",
            AppLanguage::Portuguese => " Sincronização AniList ",
        }
    }

    /// The "anilist status label" text.
    pub fn anilist_status_label(lang: AppLanguage) -> (r: &'static str)
        ensures
            r@ == pick(lang, "Status: "@, "Status: "@),
    {
        match lang {
            AppLanguage::English => "Status: ",
            AppLanguage::Portuguese => "Status: ",
        }
    }

    /// The "anilist connected label" text.
    pub fn anilist_connected_label(lang: AppLanguage) -> (r: &'static str)
        ensures
            r@ == pick(lang, "[ Connected ]"@, "[ Conectado ]"@),
    {
        match lang {
            AppLanguage::English => "[ Connected ]",
            AppLanguage::Portuguese => "[ Conectado ]",
        }
    }

    /// The "anilist disconnected label" text.
    pub fn anilist_disconnected_label(lang: AppLanguage) -> (r: &'static str)
        ensures
            r@ == pick(lang, "[ Disconnected ]"@, "[ Desconectado ]"@),
    {
        match lang {
            AppLanguage::English => "[ Disconnected ]",
            AppLanguage::Portuguese => "[ Desconectado ]",
        }
    }

    /// The "anilist connect prompt" text.
    pub fn anilist_connect_prompt(lang: AppLanguage) -> (r: &'static str)
        ensures
            r@ == pick(lang, " [a] Connect / Login "@, " [a] Conectar / Login "@),
    {
        match lang {
            AppLanguage::English => " [a] Connect / Login ",
            AppLanguage::Portuguese => " [a] Conectar / Login ",
        }
    }

    /// The "anilist disconnect prompt" text.
    pub fn anilist_disconnect_prompt(lang: AppLanguage) -> (r: &'static str)
        ensures
            r@ == pick(lang, " [d] Disconnect "@, " [d] Desconectar "@),
    {
        match lang {
            AppLanguage::English => " [d] Disconnect ",
            AppLanguage::Portuguese => " [d] Desconectar ",
        }
    }

    /// The "cover title" text.
    pub fn cover_title(lang: AppLanguage) -> (r: &'static str)
        ensures
            r@ == pick(lang, " 🖼 Custom Cover "@, " 🖼 Capa Customizada "@),
    {
        match lang {
            AppLanguage::English => " 🖼 Custom Cover ",
            AppLanguage::Portuguese => " 🖼 Capa Customizada ",
        }
    }

    /// The "cover question" text.
    pub fn cover_question(lang: AppLanguage) -> (r: &'static str)
        ensures
            r@ == pick(lang, "Would you like to add a custom cover for "@, "Deseja adicionar uma capa customizada para "@),
    {
        match lang {
            AppLanguage::English => "Would you like to add a custom cover for ",
            AppLanguage::Portuguese => "Deseja adicionar uma capa customizada para ",
        }
    }

    /// The "volume fusion title" text.
    pub fn volume_fusion_title(lang: AppLanguage) -> (r: &'static str)
        ensures
            r@ == pick(lang, " 📚 Volume Fusion "@, " 📚 Fusão de Volume "@),
    {
        match lang {
            AppLanguage::English => " 📚 Volume Fusion ",
            AppLanguage::Portuguese => " 📚 Fusão de Volume ",
        }
    }

    /// The "cover instructions" text.
    pub fn cover_instructions(lang: AppLanguage) -> (r: &'static str)
        ensures
            r@ == pick(lang, "Drag and drop an image file directly here, or paste/type the path:"@, "Arraste e solte o arquivo de imagem diretamente aqui, ou cole/digite o caminho:"@),
    {
        match lang {
            AppLanguage::English => "Drag and drop an image file directly here, or paste/type the path:",
            AppLanguage::Portuguese => "Arraste e solte o arquivo de imagem diretamente aqui, ou cole/digite o caminho:",
        }
    }

    /// The "cover input box" text.
    pub fn cover_input_box(lang: AppLanguage) -> (r: &'static str)
        ensures
            r@ == pick(lang, " [Drag & Drop Image or Enter Path] "@, " [Arraste e Solte a Imagem ou Digite o Caminho] "@),
    {
        match lang {
            AppLanguage::English => " [Drag & Drop Image or Enter Path] ",
            AppLanguage::Portuguese => " [Arraste e Solte a Imagem ou Digite o Caminho] ",
        }
    }

    /// The "cover placeholder" text.
    pub fn cover_placeholder(lang: AppLanguage) -> (r: &'static str)
        ensures
            r@ == pick(lang, "Drop file here (e.g. /path/to/cover.jpg)..."@, "Solte o arquivo aqui (ex: /caminho/da/capa.jpg)..."@),
    {
        match lang {
            AppLanguage::English => "Drop file here (e.g. /path/to/cover.jpg)...",
            AppLanguage::Portuguese => "Solte o arquivo aqui (ex: /caminho/da/capa.jpg)...",
        }
    }

    /// The "cover none" text.
    pub fn cover_none(lang: AppLanguage) -> (r: &'static str)
        ensures
            r@ == pick(lang, "ℹ No cover selected. KCC will use default chapter page 1."@, "ℹ Nenhuma capa selecionada. O KCC usará a 1ª página padrão."@),
    {
        match lang {
            AppLanguage::English => "ℹ No cover selected. KCC will use default chapter page 1.",
            AppLanguage::Portuguese => "ℹ Nenhuma capa selecionada. O KCC usará a 1ª página padrão.",
        }
    }

    /// The "cover invalid" text.
    pub fn cover_invalid(lang: AppLanguage) -> (r: &'static str)
        ensures
            r@ == pick(lang, "File not found or unsupported format (.jpg, .png, .webp)"@, "Arquivo não encontrado ou formato não suportado (.jpg, .png, .webp)"@),
    {
        match lang {
            AppLanguage::English => "File not found or unsupported format (.jpg, .png, .webp)",
            AppLanguage::Portuguese => "Arquivo não encontrado ou formato não suportado (.jpg, .png, .webp)",
        }
    }

    /// The "no results title" text.
    pub fn no_results_title(lang: AppLanguage) -> (r: &'static str)
        ensures
            r@ == pick(lang, "No Results"@, "Nenhum Resultado"@),
    {
        match lang {
            AppLanguage::English => "No Results",
            AppLanguage::Portuguese => "Nenhum Resultado",
        }
    }

    /// The "no results msg" text.
    pub fn no_results_msg(lang: AppLanguage) -> (r: &'static str)
        ensures
            r@ == pick(lang, "No manga found for this search query."@, "Nenhum mangá encontrado para esta busca."@),
    {
        match lang {
            AppLanguage::English => "No manga found for this search query.",
            AppLanguage::Portuguese => "Nenhum mangá encontrado para esta busca.",
        }
    }

    /// The "search error title" text.
    pub fn search_error_title(lang: AppLanguage) -> (r: &'static str)
        ensures
            r@ == pick(lang, "Search Error"@, "Erro na Busca"@),
    {
        match lang {
            AppLanguage::English => "Search Error",
            AppLanguage::Portuguese => "Erro na Busca",
        }
    }

    /// The "no chapters title" text.
    pub fn no_chapters_title(lang: AppLanguage) -> (r: &'static str)
        ensures
            r@ == pick(lang, "No Chapters"@, "Sem Capítulos"@),
    {
        match lang {
            AppLanguage::English => "No Chapters",
            AppLanguage::Portuguese => "Sem Capítulos",
        }
    }

    /// The "no chapters msg" text.
    pub fn no_chapters_msg(lang: AppLanguage) -> (r: &'static str)
        ensures
            r@ == pick(lang, "No chapters found for this series."@, "Não foram encontrados capítulos para este mangá."@),
    {
        match lang {
            AppLanguage::English => "No chapters found for this series.",
            AppLanguage::Portuguese => "Não foram encontrados capítulos para este mangá.",
        }
    }

    /// The "chapters error title" text.
    pub fn chapters_error_title(lang: AppLanguage) -> (r: &'static str)
        ensures
            r@ == pick(lang, "Error Loading Chapters"@, "Erro ao Carregar Capítulos"@),
    {
        match lang {
            AppLanguage::English => "Error Loading Chapters",
            AppLanguage::Portuguese => "Erro ao Carregar Capítulos",
        }
    }

    /// The "success title" text.
    pub fn success_title(lang: AppLanguage) -> (r: &'static str)
        ensures
            r@ == pick(lang, "Success!"@, "Sucesso!"@),
    {
        match lang {
            AppLanguage::English => "Success!",
            AppLanguage::Portuguese => "Sucesso!",
        }
    }

    /// The "operation error title" text.
    pub fn operation_error_title(lang: AppLanguage) -> (r: &'static str)
        ensures
            r@ == pick(lang, "Operation Error"@, "Erro na Operação"@),
    {
        match lang {
            AppLanguage::English => "Operation Error",
            AppLanguage::Portuguese => "Erro na Operação",
        }
    }

    /// The title of the search results: the number of series found.
    pub fn series_found(lang: AppLanguage, count: usize) -> (r: String)
        ensures
            r@ == pick(lang, " Series Found ("@, " Mangás Encontrados ("@) + dec(count as nat)
                + ") "@,
    {
        let mut s = match lang {
            AppLanguage::English => String::from_str(" Series Found ("),
            AppLanguage::Portuguese => String::from_str(" Mangás Encontrados ("),
        };
        s.append(decimal(count as u64).as_str());
        s.append(") ");
        s
    }

    /// The title of the chapter filter box, naming the series.
    pub fn filter_chapters_title(lang: AppLanguage, title: &str) -> (r: String)
        ensures
            r@ == pick(lang, " Filter Chapters for: \""@, " Filtrar Capítulos de: \""@) + title@
                + "\" "@,
    {
        let mut s = match lang {
            AppLanguage::English => String::from_str(" Filter Chapters for: \""),
            AppLanguage::Portuguese => String::from_str(" Filtrar Capítulos de: \""),
        };
        s.append(title);
        s.append("\" ");
        s
    }

    /// The page indicator of the chapter list.
    pub fn pagination_info(lang: AppLanguage, current: usize, total: usize, matching: usize) -> (r:
        String)
        ensures
            r@ == pick(lang, "Page "@, "Página "@) + dec(current as nat) + "/"@ + dec(total as nat)
                + " ("@ + dec(matching as nat) + pick(lang, " matching)"@, " correspondentes)"@),
    {
        let mut s = match lang {
            AppLanguage::English => String::from_str("Page "),
            AppLanguage::Portuguese => String::from_str("Página "),
        };
        s.append(decimal(current as u64).as_str());
        s.append("/");
        s.append(decimal(total as u64).as_str());
        s.append(" (");
        s.append(decimal(matching as u64).as_str());
        match lang {
            AppLanguage::English => s.append(" matching)"),
            AppLanguage::Portuguese => s.append(" correspondentes)"),
        }
        s
    }

    /// The title of the chapter list: the number of chapters.
    pub fn chapters_box_title(lang: AppLanguage, count: usize) -> (r: String)
        ensures
            r@ == pick(lang, " Chapters ("@, " Capítulos ("@) + dec(count as nat) + ") "@,
    {
        let mut s = match lang {
            AppLanguage::English => String::from_str(" Chapters ("),
            AppLanguage::Portuguese => String::from_str(" Capítulos ("),
        };
        s.append(decimal(count as u64).as_str());
        s.append(") ");
        s
    }

    /// The progress line while pages download.
    pub fn progress_downloading(lang: AppLanguage, current: usize, total: usize, pct: u16) -> (r:
        String)
        ensures
            r@ == pick(lang, "Downloading pages "@, "Baixando páginas "@) + dec(current as nat)
                + "/"@ + dec(total as nat) + " ("@ + dec(pct as nat) + "%)"@,
    {
        let mut s = match lang {
            AppLanguage::English => String::from_str("Downloading pages "),
            AppLanguage::Portuguese => String::from_str("Baixando páginas "),
        };
        s.append(decimal(current as u64).as_str());
        s.append("/");
        s.append(decimal(total as u64).as_str());
        s.append(" (");
        s.append(decimal(pct as u64).as_str());
        s.append("%)");
        s
    }

    /// The progress line while the converter runs.
    pub fn progress_converting(lang: AppLanguage, msg: &str) -> (r: String)
        ensures
            r@ == pick(lang, "KCC Converting: "@, "Convertendo KCC: "@) + msg@,
    {
        let mut s = match lang {
            AppLanguage::English => String::from_str("KCC Converting: "),
            AppLanguage::Portuguese => String::from_str("Convertendo KCC: "),
        };
        s.append(msg);
        s
    }

    /// The progress line once a job is done.
    pub fn progress_done(lang: AppLanguage, msg: &str) -> (r: String)
        ensures
            r@ == pick(lang, "Done: "@, "Concluído: "@) + msg@,
    {
        let mut s = match lang {
            AppLanguage::English => String::from_str("Done: "),
            AppLanguage::Portuguese => String::from_str("Concluído: "),
        };
        s.append(msg);
        s
    }

    /// The progress line once a job failed.
    pub fn progress_error(lang: AppLanguage, err: &str) -> (r: String)
        ensures
            r@ == pick(lang, "Error: "@, "Erro: "@) + err@,
    {
        let mut s = match lang {
            AppLanguage::English => String::from_str("Error: "),
            AppLanguage::Portuguese => String::from_str("Erro: "),
        };
        s.append(err);
        s
    }

    /// The question asked before fusing several chapters into one volume.
    pub fn volume_fusion_question(lang: AppLanguage, count: usize) -> (r: String)
        ensures
            r@ == pick(lang, "Fuse "@, "Fundir "@) + dec(count as nat) + pick(
                lang,
                " selected chapters into a single Volume archive? Drop a Volume Cover below:"@,
                " capítulos selecionados em um único arquivo de Volume? Solte a Capa do Volume abaixo:"@,
            ),
    {
        let mut s = match lang {
            AppLanguage::English => String::from_str("Fuse "),
            AppLanguage::Portuguese => String::from_str("Fundir "),
        };
        s.append(decimal(count as u64).as_str());
        match lang {
            AppLanguage::English => s.append(
                " selected chapters into a single Volume archive? Drop a Volume Cover below:",
            ),
            AppLanguage::Portuguese => s.append(
                " capítulos selecionados em um único arquivo de Volume? Solte a Capa do Volume abaixo:",
            ),
        }
        s
    }

    /// The line shown once a cover image was found.
    pub fn cover_valid(lang: AppLanguage, path: &str) -> (r: String)
        ensures
            r@ == pick(lang, "Valid image detected: "@, "Imagem válida detectada: "@) + path@,
    {
        let mut s = match lang {
            AppLanguage::English => String::from_str("Valid image detected: "),
            AppLanguage::Portuguese => String::from_str("Imagem válida detectada: "),
        };
        s.append(path);
        s
    }

    /// The notice where progress is to be marked without an AniList account:
    /// its title and its text.
    pub fn anilist_not_connected(lang: AppLanguage) -> (r: (&'static str, &'static str))
        ensures
            r.0@ == pick(lang, "AniList Not Connected"@, "AniList Não Conectado"@),
            r.1@ == pick(
                lang,
                "Please connect your AniList account in Settings (F2 or 's') before marking reading progress."@,
                "Conecte sua conta do AniList em Configurações (F2 ou 's') para marcar o progresso de leitura."@,
            ),
    {
        match lang {
            AppLanguage::English => (
                "AniList Not Connected",
                "Please connect your AniList account in Settings (F2 or 's') before marking reading progress.",
            ),
            AppLanguage::Portuguese => (
                "AniList Não Conectado",
                "Conecte sua conta do AniList em Configurações (F2 ou 's') para marcar o progresso de leitura.",
            ),
        }
    }

    /// The message where an empty token is submitted.
    pub fn token_empty(lang: AppLanguage) -> (r: &'static str)
        ensures
            r@ == pick(
                lang,
                "Token cannot be empty. Paste the token generated in your browser!"@,
                "Token não pode ser vazio. Cole o token gerado no navegador!"@,
            ),
    {
        match lang {
            AppLanguage::English => "Token cannot be empty. Paste the token generated in your browser!",
            AppLanguage::Portuguese => "Token não pode ser vazio. Cole o token gerado no navegador!",
        }
    }

    /// The key hints of the settings window: key, then what it does.
    pub fn settings_instructions(lang: AppLanguage) -> (r: Vec<(&'static str, &'static str)>)
        ensures
            pair_views(r@) == (match lang {
                AppLanguage::English => seq![
                    ("[p] "@, "Kindle Model   "@),
                    ("[o] "@, "Format   "@),
                    ("[l] "@, "Language   "@),
                    ("[Enter] "@, "Save & Persist   "@),
                    ("[Esc] "@, "Cancel"@),
                ],
                AppLanguage::Portuguese => seq![
                    ("[p] "@, "Modelo Kindle   "@),
                    ("[o] "@, "Formato   "@),
                    ("[l] "@, "Idioma   "@),
                    ("[Enter] "@, "Salvar e Persistir   "@),
                    ("[Esc] "@, "Cancelar"@),
                ],
            }),
    {
        let r = match lang {
            AppLanguage::English => vec![
                ("[p] ", "Kindle Model   "),
                ("[o] ", "Format   "),
                ("[l] ", "Language   "),
                ("[Enter] ", "Save & Persist   "),
                ("[Esc] ", "Cancel"),
            ],
            AppLanguage::Portuguese => vec![
                ("[p] ", "Modelo Kindle   "),
                ("[o] ", "Formato   "),
                ("[l] ", "Idioma   "),
                ("[Enter] ", "Salvar e Persistir   "),
                ("[Esc] ", "Cancelar"),
            ],
        };
        assert(pair_views(r@) =~= (match lang {
            AppLanguage::English => seq![
                ("[p] "@, "Kindle Model   "@),
                ("[o] "@, "Format   "@),
                ("[l] "@, "Language   "@),
                ("[Enter] "@, "Save & Persist   "@),
                ("[Esc] "@, "Cancel"@),
            ],
            AppLanguage::Portuguese => seq![
                ("[p] "@, "Modelo Kindle   "@),
                ("[o] "@, "Formato   "@),
                ("[l] "@, "Idioma   "@),
                ("[Enter] "@, "Salvar e Persistir   "@),
                ("[Esc] "@, "Cancelar"@),
            ],
        }));
        r
    }

    /// The key hints of the cover prompt: key, then what it does.
    pub fn cover_actions(lang: AppLanguage) -> (r: Vec<(&'static str, &'static str)>)
        ensures
            pair_views(r@) == (match lang {
                AppLanguage::English => seq![
                    ("[Enter] "@, "Confirm with Cover   "@),
                    ("[n] / [s] "@, "Skip Cover (Use Default)   "@),
                    ("[Esc] "@, "Cancel"@),
                ],
                AppLanguage::Portuguese => seq![
                    ("[Enter] "@, "Confirmar com Capa   "@),
                    ("[n] / [s] "@, "Pular Capa (Usar Padrão)   "@),
                    ("[Esc] "@, "Cancelar"@),
                ],
            }),
    {
        let r = match lang {
            AppLanguage::English => vec![
                ("[Enter] ", "Confirm with Cover   "),
                ("[n] / [s] ", "Skip Cover (Use Default)   "),
                ("[Esc] ", "Cancel"),
            ],
            AppLanguage::Portuguese => vec![
                ("[Enter] ", "Confirmar com Capa   "),
                ("[n] / [s] ", "Pular Capa (Usar Padrão)   "),
                ("[Esc] ", "Cancelar"),
            ],
        };
        assert(pair_views(r@) =~= (match lang {
            AppLanguage::English => seq![
                ("[Enter] "@, "Confirm with Cover   "@),
                ("[n] / [s] "@, "Skip Cover (Use Default)   "@),
                ("[Esc] "@, "Cancel"@),
            ],
            AppLanguage::Portuguese => seq![
                ("[Enter] "@, "Confirmar com Capa   "@),
                ("[n] / [s] "@, "Pular Capa (Usar Padrão)   "@),
                ("[Esc] "@, "Cancelar"@),
            ],
        }));
        r
    }
}

} // verus!
