//! The text of the window that picks the sources to search: the count of
//! active sources, the rows that fit the window, and the key hints.

use vstd::prelude::*;
use crate::i18n::{AppLanguage, pick};
use crate::text::{dec, decimal, left_aligned, pad_end};
use crate::ui::modals::source_select::{SourceSelectModal, names_of};
use crate::ui::modals::styled::{Segments, Tone, pieces_view, segments_view};

verus! {

fn pick_str(lang: AppLanguage, en: &'static str, pt: &'static str) -> (r: &'static str)
    ensures
        r@ == pick(lang, en@, pt@),
{
    match lang {
        AppLanguage::English => en,
        AppLanguage::Portuguese => pt,
    }
}

/// The rows `[start, end)` of a list of `total` rows that a window of
/// `height` rows shows with the cursor on row `idx`: all of them where they
/// fit, else the window scrolled just enough to show the cursor.
pub open spec fn visible_range(total: nat, height: nat, idx: nat) -> (nat, nat) {
    if total <= height {
        (0, total)
    } else {
        let offset: nat = if idx >= height { (idx - height + 1) as nat } else { 0 };
        (offset, if offset + height <= total { offset + height } else { total })
    }
}

/// The list window always shows the cursor's row, and as many rows as fit.
pub proof fn lemma_cursor_visible(total: nat, height: nat, idx: nat)
    requires
        idx < total,
        height > 0,
    ensures
        visible_range(total, height, idx).0 <= idx < visible_range(total, height, idx).1,
        visible_range(total, height, idx).1 - visible_range(total, height, idx).0 == (if total <= height {
            total
        } else {
            height
        }),
{
}

/// The line above the list: how many of the sources are active.
pub open spec fn active_count_text(checked: nat, total: nat, lang: AppLanguage) -> Seq<char> {
    pick(lang, "Press [Space] to select/deselect ("@, "Pressione [Espaço] para marcar/desmarcar ("@) + dec(checked)
        + "/"@ + dec(total) + pick(lang, " sources active):"@, " fontes ativas):"@)
}

/// A row of the list: the cursor, the check box, the name in 18 columns
/// and, for a checked source, its badge.
pub open spec fn source_row_text(name: Seq<char>, cursor: bool, checked: bool, lang: AppLanguage) -> Seq<
    (Seq<char>, Tone),
> {
    let head = seq![
        (if cursor { " ▶ "@ } else { "   "@ }, if cursor { Tone::Key } else { Tone::Plain }),
        (if checked { "󰄲 "@ } else { "󰄱 "@ }, if checked { Tone::Success } else { Tone::Muted }),
        (pad_end(name, 18), if cursor { Tone::Highlight } else if checked { Tone::Emphasis } else { Tone::Muted }),
    ];
    if checked {
        head.push((pick(lang, " [Active]"@, " [Ativa]"@), Tone::Positive))
    } else {
        head
    }
}

/// The keys offered at the foot of the window.
pub open spec fn source_hints_text(lang: AppLanguage) -> Seq<(Seq<char>, Tone)> {
    seq![
        (pick(lang, " [Space] "@, " [Espaço] "@), Tone::Key),
        (pick(lang, "Toggle  "@, "Marcar  "@), Tone::Plain),
        (" [a] "@, Tone::Key),
        (pick(lang, "All  "@, "Todos  "@), Tone::Plain),
        (" [Enter/Esc] "@, Tone::Success),
        (pick(lang, "Save & Close  "@, "Salvar e Fechar  "@), Tone::Plain),
        (" [q] "@, Tone::Danger),
        (pick(lang, "Quit"@, "Sair"@), Tone::Plain),
    ]
}

impl SourceSelectModal {
    /// The title of the window.
    pub fn title(lang: AppLanguage) -> (r: &'static str)
        ensures
            r@ == pick(lang, " 󰋩 Select Manga Sources "@, " 󰋩 Selecionar Fontes de Mangá "@),
    {
        pick_str(lang, " 󰋩 Select Manga Sources ", " 󰋩 Selecionar Fontes de Mangá ")
    }

    /// The list window always shows the cursor's row, and as many rows as fit.
pub proof fn lemma_cursor_visible(total: nat, height: nat, idx: nat)
    requires
        idx < total,
        height > 0,
    ensures
        visible_range(total, height, idx).0 <= idx < visible_range(total, height, idx).1,
        visible_range(total, height, idx).1 - visible_range(total, height, idx).0 == (if total <= height {
            total
        } else {
            height
        }),
{
}

/// The line above the list: how many of the sources are active.
    pub fn active_count_line(&self, lang: AppLanguage) -> (r: String)
        ensures
            r@ == active_count_text(self.checked_sources@.len(), self.sources@.len(), lang),
    {
        let checked = self.checked_sources.len();
        let mut s = String::from_str(pick_str(lang, "Press [Space] to select/deselect (",
            "Pressione [Espaço] para marcar/desmarcar ("));
        s.append(decimal(checked as u64).as_str());
        s.append("/");
        s.append(decimal(self.sources.len() as u64).as_str());
        s.append(pick_str(lang, " sources active):", " fontes ativas):"));
        s
    }

    /// The rows of the list that a window of `height` rows shows.
    pub fn visible_rows(&self, height: usize) -> (r: (usize, usize))
        requires
            self.sources@.len() > height ==> self.selected_idx - height + 1 <= usize::MAX,
        ensures
            (r.0 as nat, r.1 as nat) == visible_range(self.sources@.len(), height as nat, self.selected_idx as nat),
    {
        let total = self.sources.len();
        if total <= height {
            (0, total)
        } else {
            let offset = if self.selected_idx >= height { self.selected_idx - height + 1 } else { 0 };
            let end = if offset <= total - height { offset + height } else { total };
            (offset, end)
        }
    }

    /// The rows of the list that a window of `height` rows shows, each
    /// piece by piece.
    pub fn rows(&self, height: usize, lang: AppLanguage) -> (r: Vec<Segments>)
        requires
            visible_range(self.sources@.len(), height as nat, self.selected_idx as nat).0
                <= visible_range(self.sources@.len(), height as nat, self.selected_idx as nat).1,
        ensures
            ({
                let (start, end) = visible_range(self.sources@.len(), height as nat, self.selected_idx as nat);
                &&& r@.len() == end - start
                &&& forall|k: int| 0 <= k < r@.len() ==> #[trigger] segments_view(r@[k]) == source_row_text(
                    names_of(self.sources@)[start + k],
                    start + k == self.selected_idx,
                    self.checked_sources@.contains(names_of(self.sources@)[start + k]),
                    lang,
                )
            }),
    {
        let total = self.sources.len();
        assert(total == self.sources@.len());
        let (start, end) = self.visible_rows(height);
        let mut out: Vec<Segments> = Vec::new();
        let mut i = start;
        while i < end
            invariant
                start <= i <= end,
                end <= self.sources@.len(),
                (start as nat, end as nat) == visible_range(self.sources@.len(), height as nat, self.selected_idx as nat),
                out@.len() == i - start,
                forall|k: int| 0 <= k < out@.len() ==> #[trigger] segments_view(out@[k]) == source_row_text(
                    names_of(self.sources@)[start + k],
                    start + k == self.selected_idx,
                    self.checked_sources@.contains(names_of(self.sources@)[start + k]),
                    lang,
                ),
            decreases end - i,
        {
            let name = self.sources[i].as_str();
            let cursor = i == self.selected_idx;
            let checked = self.checked_sources.contains(name);
            let mut row: Segments = Vec::new();
            if cursor {
                row.push((String::from_str(" ▶ "), Tone::Key));
            } else {
                row.push((String::from_str("   "), Tone::Plain));
            }
            if checked {
                row.push((String::from_str("󰄲 "), Tone::Success));
            } else {
                row.push((String::from_str("󰄱 "), Tone::Muted));
            }
            let tone = if cursor { Tone::Highlight } else if checked { Tone::Emphasis } else { Tone::Muted };
            row.push((left_aligned(name, 18), tone));
            if checked {
                row.push((String::from_str(pick_str(lang, " [Active]", " [Ativa]")), Tone::Positive));
            }
            proof {
                assert(names_of(self.sources@)[i as int] == self.sources@[i as int]@);
                assert(segments_view(row) =~= source_row_text(
                    names_of(self.sources@)[i as int],
                    cursor,
                    checked,
                    lang,
                ));
            }
            let ghost prev = out@;
            out.push(row);
            proof {
                assert forall|k: int| 0 <= k < out@.len() implies #[trigger] segments_view(out@[k])
                    == source_row_text(
                    names_of(self.sources@)[start + k],
                    start + k == self.selected_idx,
                    self.checked_sources@.contains(names_of(self.sources@)[start + k]),
                    lang,
                ) by {
                    if k < prev.len() {
                        assert(out@[k] == prev[k]);
                    }
                }
            }
            i = i + 1;
        }
        out
    }

    /// The keys offered at the foot of the window.
    pub fn hints(lang: AppLanguage) -> (r: Vec<(&'static str, Tone)>)
        ensures
            pieces_view(r@) == source_hints_text(lang),
    {
        let r = vec![
            (pick_str(lang, " [Space] ", " [Espaço] "), Tone::Key),
            (pick_str(lang, "Toggle  ", "Marcar  "), Tone::Plain),
            (" [a] ", Tone::Key),
            (pick_str(lang, "All  ", "Todos  "), Tone::Plain),
            (" [Enter/Esc] ", Tone::Success),
            (pick_str(lang, "Save & Close  ", "Salvar e Fechar  "), Tone::Plain),
            (" [q] ", Tone::Danger),
            (pick_str(lang, "Quit", "Sair"), Tone::Plain),
        ];
        assert(pieces_view(r@) =~= source_hints_text(lang));
        r
    }
}

} // verus!
