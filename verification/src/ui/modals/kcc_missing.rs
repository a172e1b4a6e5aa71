//! The window shown when the converter tools are missing.

use vstd::prelude::*;
use crate::converter::toolchain::{ToolchainStatus, install_help, missing_names, str_views};
use crate::i18n::{AppLanguage, pick};
use crate::text::{
    chars_of, join, join_chars, split_on, split_on_chars, starts_with, starts_with_chars, string_of, trim,
    trim_chars, views,
};
use crate::ui::modals::alert::{split_lines, text_lines};
use crate::ui::modals::styled::{Segments, Tone, blank, lines_view, pieces_view, segments_view, text};

verus! {

/// Tells which converter tools are missing and how to install them.
pub struct KccMissingModal {
    pub status: ToolchainStatus,
}

/// A line of installation help: a tool's heading, or an indented step.
pub open spec fn help_line_text(l: Seq<char>) -> Seq<(Seq<char>, Tone)> {
    if starts_with(l, "•"@) {
        seq![(l, Tone::Highlight)]
    } else {
        seq![("  "@ + trim(l), Tone::Positive)]
    }
}

/// The lines of the help of each tool, each tool followed by a blank line.
pub open spec fn help_lines_text(items: Seq<Seq<char>>) -> Seq<Seq<(Seq<char>, Tone)>>
    decreases items.len(),
{
    if items.len() == 0 {
        Seq::empty()
    } else {
        help_lines_text(items.drop_last()) + text_lines(items.last()).map_values(
            |l: Seq<char>| help_line_text(l),
        ).push(Seq::empty())
    }
}

/// The body of the window: a heading, a blank line, then the help of each
/// missing tool.
pub open spec fn kcc_body_text(s: ToolchainStatus, macos: bool, lang: AppLanguage) -> Seq<
    Seq<(Seq<char>, Tone)>,
> {
    seq![
        seq![(pick(lang, "Installation instructions for your system:"@,
            "Instruções de instalação para o seu sistema:"@), Tone::Heading)],
        Seq::empty(),
    ] + help_lines_text(split_on(install_help(s, macos), "\n\n"@))
}

/// The keys offered at the foot of the window.
pub open spec fn kcc_footer_text(lang: AppLanguage) -> Seq<(Seq<char>, Tone)> {
    seq![
        ("[Enter] / [Esc] "@, Tone::Key),
        (pick(lang, "Close this warning and return to list"@, "Fechar este aviso e voltar para a lista"@), Tone::Plain),
    ]
}

fn pick_str(lang: AppLanguage, en: &'static str, pt: &'static str) -> (r: &'static str)
    ensures
        r@ == pick(lang, en@, pt@),
{
    match lang {
        AppLanguage::English => en,
        AppLanguage::Portuguese => pt,
    }
}

impl KccMissingModal {
    /// The window for the given search result.
    pub fn new(status: ToolchainStatus) -> (r: KccMissingModal)
        ensures
            r.status == status,
    {
        KccMissingModal { status }
    }

    /// The title of the window.
    pub fn title(lang: AppLanguage) -> (r: &'static str)
        ensures
            r@ == pick(lang, " 󰀪 Missing KCC Dependencies "@, " 󰀪 Dependências KCC Ausentes "@),
    {
        pick_str(lang, " 󰀪 Missing KCC Dependencies ", " 󰀪 Dependências KCC Ausentes ")
    }

    /// The warning at the top of the window.
    pub fn header(lang: AppLanguage) -> (r: &'static str)
        ensures
            r@ == pick(
                lang,
                "Automated Kindle conversion requires tools not found in PATH:"@,
                "O fluxo de conversão automática do KCC requer ferramentas que não foram localizadas no PATH:"@,
            ),
    {
        pick_str(
            lang,
            "Automated Kindle conversion requires tools not found in PATH:",
            "O fluxo de conversão automática do KCC requer ferramentas que não foram localizadas no PATH:",
        )
    }

    /// The label before the list of missing tools.
    pub fn missing_label(lang: AppLanguage) -> (r: &'static str)
        ensures
            r@ == pick(lang, "Missing tools: "@, "Ferramentas em falta: "@),
    {
        pick_str(lang, "Missing tools: ", "Ferramentas em falta: ")
    }

    /// The missing tools, separated by commas.
    pub fn missing_list(&self) -> (r: String)
        ensures
            r@ == join(missing_names(self.status), ", "@),
    {
        let names = self.status.missing_tools();
        let mut ws: Vec<Vec<char>> = Vec::new();
        let mut i: usize = 0;
        while i < names.len()
            invariant
                i <= names@.len(),
                views(ws@) == str_views(names@).subrange(0, i as int),
            decreases names@.len() - i,
        {
            let c = chars_of(names[i]);
            let ghost prev = ws@;
            ws.push(c);
            i = i + 1;
            assert(views(ws@) =~= views(prev).push(c@));
            assert(views(ws@) =~= str_views(names@).subrange(0, i as int));
        }
        assert(str_views(names@).subrange(0, i as int) =~= str_views(names@));
        let sep = chars_of(", ");
        proof {
            reveal_strlit(", ");
        }
        let joined = join_chars(&ws, &sep);
        string_of(joined.as_slice())
    }

    /// The body of the window, line by line: the installation help of the
    /// missing tools, for macOS or for other systems.
    pub fn body_lines(&self, macos: bool, lang: AppLanguage) -> (r: Vec<Segments>)
        ensures
            lines_view(r@) == kcc_body_text(self.status, macos, lang),
    {
        let mut out: Vec<Segments> = Vec::new();
        out.push(text(pick_str(lang, "Installation instructions for your system:",
            "Instruções de instalação para o seu sistema:"), Tone::Heading));
        out.push(blank());
        let help = self.status.install_instructions(macos);
        let sep = chars_of("\n\n");
        let bullet = chars_of("•");
        proof {
            reveal_strlit("\n\n");
            reveal_strlit("•");
            reveal_strlit("  ");
        }
        let items = split_on_chars(&chars_of(help.as_str()), &sep);
        let ghost head = lines_view(out@);
        assert(head =~= seq![
            seq![(pick(lang, "Installation instructions for your system:"@,
                "Instruções de instalação para o seu sistema:"@), Tone::Heading)],
            Seq::<(Seq<char>, Tone)>::empty(),
        ]);
        let mut k: usize = 0;
        assert(views(items@).subrange(0, 0) =~= Seq::<Seq<char>>::empty());
        while k < items.len()
            invariant
                k <= items@.len(),
                bullet@ == "•"@,
                lines_view(out@) == head + help_lines_text(views(items@).subrange(0, k as int)),
            decreases items@.len() - k,
        {
            let subs = split_lines(&items[k]);
            let ghost base = lines_view(out@);
            let mut j: usize = 0;
            assert(subs@.map_values(|l: Vec<char>| l@).subrange(0, 0).map_values(
                |l: Seq<char>| help_line_text(l),
            ) =~= Seq::<Seq<(Seq<char>, Tone)>>::empty());
            assert(base + Seq::<Seq<(Seq<char>, Tone)>>::empty() =~= base);
            while j < subs.len()
                invariant
                    j <= subs@.len(),
                    bullet@ == "•"@,
                    lines_view(out@) == base + subs@.map_values(|l: Vec<char>| l@).subrange(0, j as int).map_values(
                        |l: Seq<char>| help_line_text(l),
                    ),
                decreases subs@.len() - j,
            {
                let l = &subs[j];
                assert(subs@.map_values(|l: Vec<char>| l@)[j as int] == l@);
                let row: Segments = if starts_with_chars(l, &bullet) {
                    vec![(string_of(l.as_slice()), Tone::Highlight)]
                } else {
                    let t = trim_chars(l);
                    let mut s = String::from_str("  ");
                    s.append(string_of(t.as_slice()).as_str());
                    vec![(s, Tone::Positive)]
                };
                assert(segments_view(row) =~= help_line_text(l@));
                let ghost prev = out@;
                out.push(row);
                j = j + 1;
                proof {
                    assert(subs@.map_values(|l: Vec<char>| l@).subrange(0, j as int) =~= subs@.map_values(
                        |l: Vec<char>| l@,
                    ).subrange(0, j - 1).push(l@));
                    assert(lines_view(out@) =~= lines_view(prev).push(segments_view(row)));
                    assert(lines_view(out@) =~= base + subs@.map_values(|l: Vec<char>| l@).subrange(
                        0,
                        j as int,
                    ).map_values(|l: Seq<char>| help_line_text(l)));
                }
            }
            let ghost prev = out@;
            out.push(blank());
            k = k + 1;
            proof {
                let its = views(items@).subrange(0, k as int);
                assert(its.drop_last() =~= views(items@).subrange(0, k - 1));
                assert(its.last() == items@[k - 1]@);
                assert(subs@.map_values(|l: Vec<char>| l@).subrange(0, j as int) =~= subs@.map_values(
                    |l: Vec<char>| l@,
                ));
                assert(lines_view(out@) =~= lines_view(prev).push(Seq::<(Seq<char>, Tone)>::empty()));
                assert(lines_view(out@) =~= head + help_lines_text(its));
            }
        }
        assert(views(items@).subrange(0, k as int) =~= views(items@));
        out
    }

    /// The keys offered at the foot of the window.
    pub fn footer(lang: AppLanguage) -> (r: Vec<(&'static str, Tone)>)
        ensures
            pieces_view(r@) == kcc_footer_text(lang),
    {
        let r = vec![
            ("[Enter] / [Esc] ", Tone::Key),
            (pick_str(lang, "Close this warning and return to list", "Fechar este aviso e voltar para a lista"), Tone::Plain),
        ];
        assert(pieces_view(r@) =~= kcc_footer_text(lang));
        r
    }
}

} // verus!
