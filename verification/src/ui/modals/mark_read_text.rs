//! The text of the window that asks before a chapter is marked as read on
//! AniList. The chapter's number comes already written out.

use vstd::prelude::*;
use crate::i18n::{AppLanguage, pick};
use crate::ui::modals::styled::{Segments, Tone, lines_view, pieces_view, segments_view};

verus! {

fn pick_str(lang: AppLanguage, en: &'static str, pt: &'static str) -> (r: &'static str)
    ensures
        r@ == pick(lang, en@, pt@),
{
    match lang {
        AppLanguage::English => en,
        AppLanguage::Portuguese => pt,
    }
}

/// The body of the window: the series, the chapter, a blank line, the
/// question and what a yes will do.
pub open spec fn mark_read_body_text(manga_title: Seq<char>, number: Seq<char>, chapter_title: Seq<char>, lang: AppLanguage) -> Seq<
    Seq<(Seq<char>, Tone)>,
> {
    seq![
        seq![(pick(lang, "  Manga:    "@, "  Mangá:    "@), Tone::Muted), (manga_title, Tone::Emphasis)],
        seq![
            (pick(lang, "  Chapter:  "@, "  Capítulo: "@), Tone::Muted),
            ("Ch. "@ + number + " "@, Tone::Key),
            ("("@ + chapter_title + ")"@, Tone::Accent),
        ],
        Seq::empty(),
        seq![(pick(lang, "  Update your AniList library reading progress to this chapter?"@,
            "  Deseja marcar este capítulo como lido no seu AniList?"@), Tone::Strong)],
        seq![(pick(lang, "  Progress will be set to Chapter "@, "  O progresso será atualizado para o Capítulo "@)
            + number + "."@, Tone::Positive)],
    ]
}

/// The keys offered at the foot of the window.
pub open spec fn mark_read_footer_text(lang: AppLanguage) -> Seq<(Seq<char>, Tone)> {
    seq![
        ("[Enter] "@, Tone::Success),
        (pick(lang, "Confirm      "@, "Confirmar      "@), Tone::Plain),
        ("[Esc] "@, Tone::Danger),
        (pick(lang, "Cancel"@, "Cancelar"@), Tone::Plain),
    ]
}

/// The title of the window.
pub fn mark_read_title(lang: AppLanguage) -> (r: &'static str)
    ensures
        r@ == pick(lang, " 󰚥 Sync Reading on AniList "@, " 󰚥 Marcar Leitura no AniList "@),
{
    pick_str(lang, " 󰚥 Sync Reading on AniList ", " 󰚥 Marcar Leitura no AniList ")
}

/// The body of the window for a chapter whose number reads `number`.
pub fn mark_read_lines(manga_title: &str, number: &str, chapter_title: &str, lang: AppLanguage) -> (r: Vec<Segments>)
    ensures
        lines_view(r@) == mark_read_body_text(manga_title@, number@, chapter_title@, lang),
{
    let mut chapter_line: Segments = Vec::new();
    chapter_line.push((String::from_str(pick_str(lang, "  Chapter:  ", "  Capítulo: ")), Tone::Muted));
    let mut ch = String::from_str("Ch. ");
    ch.append(number);
    ch.append(" ");
    chapter_line.push((ch, Tone::Key));
    let mut paren = String::from_str("(");
    paren.append(chapter_title);
    paren.append(")");
    chapter_line.push((paren, Tone::Accent));
    let mut progress = String::from_str(pick_str(lang, "  Progress will be set to Chapter ",
        "  O progresso será atualizado para o Capítulo "));
    progress.append(number);
    progress.append(".");
    let r = vec![
        vec![
            (String::from_str(pick_str(lang, "  Manga:    ", "  Mangá:    ")), Tone::Muted),
            (String::from_str(manga_title), Tone::Emphasis),
        ],
        chapter_line,
        Vec::new(),
        vec![(String::from_str(pick_str(lang, "  Update your AniList library reading progress to this chapter?",
            "  Deseja marcar este capítulo como lido no seu AniList?")), Tone::Strong)],
        vec![(progress, Tone::Positive)],
    ];
    proof {
        let target = mark_read_body_text(manga_title@, number@, chapter_title@, lang);
        assert(segments_view(r@[0]) =~= target[0]);
        assert(segments_view(r@[1]) =~= target[1]);
        assert(segments_view(r@[2]) =~= target[2]);
        assert(segments_view(r@[3]) =~= target[3]);
        assert(segments_view(r@[4]) =~= target[4]);
        assert(lines_view(r@) =~= target);
    }
    r
}

/// The keys offered at the foot of the window.
pub fn mark_read_footer(lang: AppLanguage) -> (r: Vec<(&'static str, Tone)>)
    ensures
        pieces_view(r@) == mark_read_footer_text(lang),
{
    let r = vec![
        ("[Enter] ", Tone::Success),
        (pick_str(lang, "Confirm      ", "Confirmar      "), Tone::Plain),
        ("[Esc] ", Tone::Danger),
        (pick_str(lang, "Cancel", "Cancelar"), Tone::Plain),
    ];
    assert(pieces_view(r@) =~= mark_read_footer_text(lang));
    r
}

} // verus!
