//! The text of the preparation window: what it is for, the cover box and
//! its check, the format and fusion options, the warning about repeated
//! covers, the key hints and the empty preview.

use vstd::prelude::*;
use crate::i18n::{AppLanguage, pick};
use crate::text::{chars_of, dec, decimal, str_eq, trim, trim_str};
use crate::ui::modals::cover_prompt::ProcessModal;

verus! {

fn pick_str(lang: AppLanguage, en: &'static str, pt: &'static str) -> (r: &'static str)
    ensures
        r@ == pick(lang, en@, pt@),
{
    match lang {
        AppLanguage::English => en,
        AppLanguage::Portuguese => pt,
    }
}

/// What the typed cover is: a usable image, nothing (the first page then
/// serves as cover), or a path that names no usable image.
pub open spec fn cover_status_text(found: bool, typed: Seq<char>, lang: AppLanguage) -> Seq<char> {
    if found {
        pick(lang, "󰄬 Valid cover image detected"@, "󰄬 Imagem de capa válida detectada"@)
    } else if trim(typed).len() == 0 {
        pick(lang, "ℹ Using chapter default first page as cover"@, "ℹ Usando a primeira página padrão como capa"@)
    } else {
        pick(lang, "󰀦 File not found or invalid format"@, "󰀦 Arquivo não encontrado ou inválido"@)
    }
}

/// What a format option does, by its exact name.
pub open spec fn format_summary_text(format: Seq<char>, lang: AppLanguage) -> Seq<char> {
    if format == "AZW3"@ {
        pick(lang, "Kindle KF8 (300 ppi, max quality) via KCC"@, "Kindle KF8 (300 ppi, máxima qualidade) via KCC"@)
    } else if format == "CBZ"@ {
        pick(lang, "Direct CBZ archive (no KCC)"@, "Arquivo CBZ direto (sem KCC)"@)
    } else if format == "EPUB"@ {
        pick(lang, "Standard EPUB e-book via KCC"@, "Livro digital EPUB padrão via KCC"@)
    } else if format == "MOBI"@ {
        pick(lang, "Kindle MOBI legacy dual-format via KCC"@, "Kindle MOBI legado duplo via KCC"@)
    } else if format == "PDF"@ {
        pick(lang, "Portable Document Format (no KCC)"@, "Documento PDF portátil (sem KCC)"@)
    } else {
        "Output archive"@
    }
}

/// The label of the fusion option: disabled for a single chapter.
pub open spec fn fusion_label_text(disabled: bool, lang: AppLanguage) -> Seq<char> {
    if disabled {
        pick(
            lang,
            " Volume Fusion: Merge chapters (disabled - only 1 chapter)"@,
            " Fusão de Volume: Unir capítulos (desabilitado - apenas 1 capítulo)"@,
        )
    } else {
        pick(
            lang,
            " Volume Fusion: Merge all chapters into 1 volume (press 'f' to toggle)"@,
            " Fusão de Volume: Unir capítulos em 1 volume (tecle 'f' para alternar)"@,
        )
    }
}

/// The key hints of the window: key, then what it does; the fusion key is
/// shown as disabled for a single chapter.
pub open spec fn process_hints_text(disabled: bool, lang: AppLanguage) -> Seq<(Seq<char>, Seq<char>)> {
    seq![
        (" [Enter] "@, pick(lang, "Start    "@, "Iniciar    "@)),
        (" [o] "@, pick(lang, "Format    "@, "Formato    "@)),
        (
            " [f] "@,
            if disabled {
                pick(lang, "Fusion (disabled)    "@, "Fusão (desabilitado)    "@)
            } else {
                pick(lang, "Fusion    "@, "Fusão    "@)
            },
        ),
        (" [Esc] "@, pick(lang, "Cancel"@, "Cancelar"@)),
    ]
}

/// The views of a list of text pairs.
pub open spec fn hint_pairs(v: Seq<(&'static str, &'static str)>) -> Seq<(Seq<char>, Seq<char>)> {
    v.map_values(|p: (&'static str, &'static str)| (p.0@, p.1@))
}

impl ProcessModal {
    /// The title of the window.
    pub fn window_title(lang: AppLanguage) -> (r: &'static str)
        ensures
            r@ == pick(lang, " 󰂬 Download & Process Options "@, " 󰂬 Opções de Download e Processamento "@),
    {
        pick_str(lang, " 󰂬 Download & Process Options ", " 󰂬 Opções de Download e Processamento ")
    }

    /// The line naming what the window prepares, with its chapter count.
    pub fn target_line(&self, lang: AppLanguage) -> (r: String)
        ensures
            r@ == pick(lang, "󰉋 Target: "@, "󰉋 Alvo: "@) + self.target_title@ + " ("@ + dec(
                self.chapters_count as nat,
            ) + pick(lang, " chapter(s))"@, " capítulo(s))"@),
    {
        let mut s = String::from_str(pick_str(lang, "󰉋 Target: ", "󰉋 Alvo: "));
        s.append(self.target_title.as_str());
        s.append(" (");
        s.append(decimal(self.chapters_count as u64).as_str());
        s.append(pick_str(lang, " chapter(s))", " capítulo(s))"));
        s
    }

    /// The title of the cover box.
    pub fn cover_box_title(lang: AppLanguage) -> (r: &'static str)
        ensures
            r@ == pick(
                lang,
                " 󰋩 Custom Cover (Drag & Drop or Type Path) "@,
                " 󰋩 Capa Customizada (Arraste ou Digite o Caminho) "@,
            ),
    {
        pick_str(lang, " 󰋩 Custom Cover (Drag & Drop or Type Path) ", " 󰋩 Capa Customizada (Arraste ou Digite o Caminho) ")
    }

    /// What the empty cover box shows.
    pub fn cover_box_placeholder(lang: AppLanguage) -> (r: &'static str)
        ensures
            r@ == pick(lang, "Drop cover image here (optional)..."@, "Solte a imagem da capa aqui (opcional)..."@),
    {
        pick_str(lang, "Drop cover image here (optional)...", "Solte a imagem da capa aqui (opcional)...")
    }

    /// The check of the typed cover; `found` tells whether it names an
    /// existing image file.
    pub fn cover_status(&self, found: bool, lang: AppLanguage) -> (r: &'static str)
        ensures
            r@ == cover_status_text(found, self.input_path@, lang),
    {
        if found {
            pick_str(lang, "󰄬 Valid cover image detected", "󰄬 Imagem de capa válida detectada")
        } else if chars_of(trim_str(self.input_path.as_str()).as_str()).len() == 0 {
            pick_str(lang, "ℹ Using chapter default first page as cover", "ℹ Usando a primeira página padrão como capa")
        } else {
            pick_str(lang, "󰀦 File not found or invalid format", "󰀦 Arquivo não encontrado ou inválido")
        }
    }

    /// The chosen format in brackets.
    pub fn format_badge(&self) -> (r: String)
        ensures
            r@ == "[ "@ + self.format@ + " ]"@,
    {
        let mut s = String::from_str("[ ");
        s.append(self.format.as_str());
        s.append(" ]");
        s
    }

    /// The label before the format.
    pub fn format_label(lang: AppLanguage) -> (r: &'static str)
        ensures
            r@ == pick(lang, " Format: "@, " Formato: "@),
    {
        pick_str(lang, " Format: ", " Formato: ")
    }

    /// How to change the format.
    pub fn format_cycle_hint(lang: AppLanguage) -> (r: &'static str)
        ensures
            r@ == pick(
                lang,
                "(press 'o' to cycle: AZW3 / CBZ / EPUB / MOBI / PDF)"@,
                "(tecle 'o' para alternar: AZW3 / CBZ / EPUB / MOBI / PDF)"@,
            ),
    {
        pick_str(
            lang,
            "(press 'o' to cycle: AZW3 / CBZ / EPUB / MOBI / PDF)",
            "(tecle 'o' para alternar: AZW3 / CBZ / EPUB / MOBI / PDF)",
        )
    }

    /// What the chosen format does.
    pub fn format_summary(&self, lang: AppLanguage) -> (r: &'static str)
        ensures
            r@ == format_summary_text(self.format@, lang),
    {
        let f = self.format.as_str();
        if str_eq(f, "AZW3") {
            pick_str(lang, "Kindle KF8 (300 ppi, max quality) via KCC", "Kindle KF8 (300 ppi, máxima qualidade) via KCC")
        } else if str_eq(f, "CBZ") {
            pick_str(lang, "Direct CBZ archive (no KCC)", "Arquivo CBZ direto (sem KCC)")
        } else if str_eq(f, "EPUB") {
            pick_str(lang, "Standard EPUB e-book via KCC", "Livro digital EPUB padrão via KCC")
        } else if str_eq(f, "MOBI") {
            pick_str(lang, "Kindle MOBI legacy dual-format via KCC", "Kindle MOBI legado duplo via KCC")
        } else if str_eq(f, "PDF") {
            pick_str(lang, "Portable Document Format (no KCC)", "Documento PDF portátil (sem KCC)")
        } else {
            "Output archive"
        }
    }

    /// Whether fusion is unavailable: there is a single chapter.
    pub fn fusion_disabled(&self) -> (r: bool)
        ensures
            r == (self.chapters_count <= 1),
    {
        self.chapters_count <= 1
    }

    /// The mark of the fusion option: checked where fusion is on and
    /// available.
    pub fn fusion_mark(&self) -> (r: &'static str)
        ensures
            r@ == (if self.fuse_volume && self.chapters_count > 1 {
                "󰄲"@
            } else {
                "󰄱"@
            }),
    {
        if self.fuse_volume && self.chapters_count > 1 {
            "󰄲"
        } else {
            "󰄱"
        }
    }

    /// The label of the fusion option.
    pub fn fusion_label(&self, lang: AppLanguage) -> (r: &'static str)
        ensures
            r@ == fusion_label_text(self.chapters_count <= 1, lang),
    {
        if self.chapters_count <= 1 {
            pick_str(
                lang,
                " Volume Fusion: Merge chapters (disabled - only 1 chapter)",
                " Fusão de Volume: Unir capítulos (desabilitado - apenas 1 capítulo)",
            )
        } else {
            pick_str(
                lang,
                " Volume Fusion: Merge all chapters into 1 volume (press 'f' to toggle)",
                " Fusão de Volume: Unir capítulos em 1 volume (tecle 'f' para alternar)",
            )
        }
    }

    /// Whether to warn that a custom cover is repeated on every chapter:
    /// several chapters, no fusion, and a cover typed.
    pub fn shows_cover_warning(&self) -> (r: bool)
        ensures
            r == (self.chapters_count > 1 && !self.fuse_volume && trim(self.input_path@).len() > 0),
    {
        self.chapters_count > 1 && !self.fuse_volume && chars_of(trim_str(self.input_path.as_str()).as_str()).len()
            > 0
    }

    /// The warning about a repeated custom cover.
    pub fn cover_warning(lang: AppLanguage) -> (r: &'static str)
        ensures
            r@ == pick(
                lang,
                "󰀦 Warning: Without volume fusion, this custom cover will be repeated as the front page for each individual chapter file."@,
                "󰀦 Aviso: Sem a fusão de volume, esta capa customizada será repetida na primeira página de cada capítulo individual."@,
            ),
    {
        pick_str(
            lang,
            "󰀦 Warning: Without volume fusion, this custom cover will be repeated as the front page for each individual chapter file.",
            "󰀦 Aviso: Sem a fusão de volume, esta capa customizada será repetida na primeira página de cada capítulo individual.",
        )
    }

    /// The key hints of the window.
    pub fn action_hints(&self, lang: AppLanguage) -> (r: Vec<(&'static str, &'static str)>)
        ensures
            hint_pairs(r@) == process_hints_text(self.chapters_count <= 1, lang),
    {
        let fusion = if self.chapters_count <= 1 {
            pick_str(lang, "Fusion (disabled)    ", "Fusão (desabilitado)    ")
        } else {
            pick_str(lang, "Fusion    ", "Fusão    ")
        };
        let r = vec![
            (" [Enter] ", pick_str(lang, "Start    ", "Iniciar    ")),
            (" [o] ", pick_str(lang, "Format    ", "Formato    ")),
            (" [f] ", fusion),
            (" [Esc] ", pick_str(lang, "Cancel", "Cancelar")),
        ];
        assert(hint_pairs(r@) =~= process_hints_text(self.chapters_count <= 1, lang));
        r
    }

    /// The title of the preview box.
    pub fn preview_title(lang: AppLanguage) -> (r: &'static str)
        ensures
            r@ == pick(lang, " 󰋩 Cover Preview "@, " 󰋩 Prévia da Capa "@),
    {
        pick_str(lang, " 󰋩 Cover Preview ", " 󰋩 Prévia da Capa ")
    }

    /// What the preview box shows without a picture, and the blank rows
    /// above it that centre it in a box of `height` rows.
    pub fn preview_placeholder(height: u16, lang: AppLanguage) -> (r: (u16, Vec<&'static str>))
        ensures
            r.0 == (if height >= 2 { height - 2 } else { 0 }) / 2,
            r.1@.len() == 2,
            r.1@[0]@ == pick(lang, "No image loaded"@, "Nenhuma imagem carregada"@),
            r.1@[1]@ == pick(lang, "Drop a file to preview"@, "Solte um arquivo para pré-visualizar"@),
    {
        let pad = (if height >= 2 { height - 2 } else { 0 }) / 2;
        let lines = vec![
            pick_str(lang, "No image loaded", "Nenhuma imagem carregada"),
            pick_str(lang, "Drop a file to preview", "Solte um arquivo para pré-visualizar"),
        ];
        (pad, lines)
    }
}

} // verus!
