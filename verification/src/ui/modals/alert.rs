//! A message window, for a success or an error.

use vstd::prelude::*;
use crate::i18n::{AppLanguage, pick};
use crate::text::{
    chars_of, find, find_chars, slice_chars, starts_with, starts_with_chars, string_of, trim, trim_chars,
};
use crate::ui::modals::styled::{Segments, Tone, lines_view, pieces_view, segments_view};
use crate::ui::layout::{Area, alert_area, capped, centered, clamp, fits, min, sat_sub};

verus! {

/// The number of line breaks in `s`.
pub open spec fn breaks(s: Seq<char>) -> nat
    decreases s.len(),
{
    if s.len() == 0 {
        0
    } else {
        breaks(s.drop_last()) + if s.last() == '\n' {
            1nat
        } else {
            0nat
        }
    }
}

/// The number of lines `str::lines` splits a text into: one per line
/// break, and one more for text after the last break.
pub open spec fn line_count(s: Seq<char>) -> nat {
    breaks(s) + if s.len() > 0 && s.last() != '\n' {
        1nat
    } else {
        0nat
    }
}

/// A message window.
pub struct AlertModal {
    pub title: String,
    pub message: String,
    pub is_error: bool,
}

impl AlertModal {
    /// A window with the given title and message.
    pub fn new(title: &str, message: &str, is_error: bool) -> (r: AlertModal)
        ensures
            r.title@ == title@,
            r.message@ == message@,
            r.is_error == is_error,
    {
        AlertModal {
            title: String::from_str(title),
            message: String::from_str(message),
            is_error,
        }
    }

    /// The number of lines of the message.
    pub fn line_count(&self) -> (r: usize)
        ensures
            r == line_count(self.message@),
    {
        let v = chars_of(self.message.as_str());
        let mut count: usize = 0;
        let mut i: usize = 0;
        while i < v.len()
            invariant
                i <= v@.len(),
                count <= i,
                i > 0 && v@[i - 1] != '\n' ==> count < i,
                count == breaks(v@.subrange(0, i as int)),
            decreases v@.len() - i,
        {
            proof {
                assert(v@.subrange(0, i + 1).drop_last() =~= v@.subrange(0, i as int));
            }
            if v[i] == '\n' {
                count = count + 1;
            }
            i = i + 1;
        }
        assert(v@.subrange(0, v@.len() as int) =~= v@);
        if v.len() > 0 && v[v.len() - 1] != '\n' {
            count + 1
        } else {
            count
        }
    }

    /// Where the window is drawn in `area`.
    pub fn window(&self, area: Area) -> (r: Area)
        requires
            fits(area),
            line_count(self.message@) % 65536 + 6 <= u16::MAX,
        ensures
            r == centered(
                area,
                capped(62, area.width as int),
                min(
                    clamp((line_count(self.message@) % 65536 + 6) as int, 8, 14),
                    sat_sub(area.height as int, 2),
                ),
            ),
    {
        alert_area(area, self.line_count())
    }
}

/// A line without the carriage return that ends it, if any.
pub open spec fn strip_cr(l: Seq<char>) -> Seq<char> {
    if l.len() > 0 && l.last() == '\r' {
        l.drop_last()
    } else {
        l
    }
}

/// The lines of `s` as `str::lines` gives them, `cur` being the start of
/// the line that `s` continues: lines end at `\n` or `\r\n`, and the last
/// line ending is optional.
pub open spec fn lines_from(s: Seq<char>, cur: Seq<char>) -> Seq<Seq<char>>
    decreases s.len(),
{
    if s.len() == 0 {
        if cur.len() > 0 {
            seq![cur]
        } else {
            Seq::empty()
        }
    } else if s[0] == '\n' {
        seq![strip_cr(cur)] + lines_from(s.drop_first(), Seq::empty())
    } else {
        lines_from(s.drop_first(), cur.push(s[0]))
    }
}

/// The lines of `s`, as `str::lines` gives them.
pub open spec fn text_lines(s: Seq<char>) -> Seq<Seq<char>> {
    lines_from(s, Seq::empty())
}

/// `s` without every leading repetition of `p`, as
/// `str::trim_start_matches` gives it.
pub open spec fn strip_prefixes(s: Seq<char>, p: Seq<char>) -> Seq<char>
    decreases s.len(),
{
    if p.len() > 0 && starts_with(s, p) {
        strip_prefixes(s.subrange(p.len() as int, s.len() as int), p)
    } else {
        s
    }
}

/// The title bar of a message window: the title trimmed, behind the
/// window's icon unless the title begins with a character of its own
/// beyond ASCII.
pub open spec fn alert_title_text(title: Seq<char>, is_error: bool) -> Seq<char> {
    let t = trim(title);
    if t.len() > 0 && (t[0] as u32) >= 128 {
        " "@ + t + " "@
    } else {
        " "@ + (if is_error { "󰅚"@ } else { "󰄬"@ }) + " "@ + t + " "@
    }
}

/// How a line of the message is drawn: in a success, a path stands out and
/// an `AniList:` line shows its label apart from the rest; in an error
/// every line is an alarm.
pub open spec fn message_line_text(l: Seq<char>, is_error: bool) -> Seq<(Seq<char>, Tone)> {
    if !is_error && (starts_with(l, "/"@) || find(l, ":\\"@) is Some) {
        seq![(l, Tone::Highlight)]
    } else if !is_error && starts_with(l, "AniList:"@) {
        seq![("AniList: "@, Tone::Brand), (trim(strip_prefixes(l, "AniList:"@)), Tone::Strong)]
    } else {
        seq![(l, if is_error { Tone::Alarm } else { Tone::Strong })]
    }
}

/// The keys offered at the foot of a message window.
pub open spec fn alert_footer_text(lang: AppLanguage) -> Seq<(Seq<char>, Tone)> {
    seq![
        ("[Enter] "@, Tone::Success),
        ("OK      "@, Tone::Strong),
        ("[Esc] "@, Tone::Danger),
        (pick(lang, "Close"@, "Fechar"@), Tone::Strong),
    ]
}

/// The lines of `v`, as `str::lines` gives them.
pub fn split_lines(v: &Vec<char>) -> (r: Vec<Vec<char>>)
    ensures
        r@.map_values(|l: Vec<char>| l@) == text_lines(v@),
{
    let mut done: Vec<Vec<char>> = Vec::new();
    let mut cur: Vec<char> = Vec::new();
    let mut i: usize = 0;
    assert(v@.subrange(0, v@.len() as int) =~= v@);
    while i < v.len()
        invariant
            i <= v@.len(),
            text_lines(v@) == done@.map_values(|l: Vec<char>| l@) + lines_from(
                v@.subrange(i as int, v@.len() as int),
                cur@,
            ),
        decreases v@.len() - i,
    {
        let ghost rest = v@.subrange(i as int, v@.len() as int);
        assert(rest.drop_first() =~= v@.subrange(i + 1, v@.len() as int));
        let c = v[i];
        if c == '\n' {
            let n = cur.len();
            let line = if n > 0 && cur[n - 1] == '\r' {
                slice_chars(&cur, 0, n - 1)
            } else {
                slice_chars(&cur, 0, n)
            };
            proof {
                assert(cur@.subrange(0, n as int) =~= cur@);
                if n > 0 && cur@[n - 1] == '\r' {
                    assert(cur@.subrange(0, n - 1) =~= cur@.drop_last());
                }
                assert(line@ == strip_cr(cur@));
            }
            let ghost before = done@;
            done.push(line);
            cur = Vec::new();
            proof {
                assert(done@.map_values(|l: Vec<char>| l@) =~= before.map_values(|l: Vec<char>| l@).push(
                    line@,
                ));
                assert(cur@ =~= Seq::<char>::empty());
            }
        } else {
            cur.push(c);
        }
        i = i + 1;
    }
    proof {
        assert(v@.subrange(i as int, v@.len() as int) =~= Seq::<char>::empty());
    }
    if cur.len() > 0 {
        let ghost before = done@;
        done.push(cur);
        assert(done@.map_values(|l: Vec<char>| l@) =~= before.map_values(|l: Vec<char>| l@) + seq![
            done@[before.len() as int]@,
        ]);
    } else {
        assert(done@.map_values(|l: Vec<char>| l@) + Seq::<Seq<char>>::empty() =~= done@.map_values(
            |l: Vec<char>| l@,
        ));
    }
    done
}

fn strip_prefixes_chars(v: &Vec<char>, p: &Vec<char>) -> (r: Vec<char>)
    ensures
        r@ == strip_prefixes(v@, p@),
{
    let mut i: usize = 0;
    let mut rest = slice_chars(v, 0, v.len());
    assert(rest@ =~= v@);
    if p.len() == 0 {
        return rest;
    }
    while starts_with_chars(&rest, p)
        invariant
            p@.len() > 0,
            strip_prefixes(v@, p@) == strip_prefixes(rest@, p@),
        decreases rest@.len(),
    {
        rest = slice_chars(&rest, p.len(), rest.len());
    }
    rest
}

impl AlertModal {
    /// The title bar of the window.
    pub fn title_text(&self) -> (r: String)
        ensures
            r@ == alert_title_text(self.title@, self.is_error),
    {
        let v = chars_of(self.title.as_str());
        let t = trim_chars(&v);
        let mut s = String::from_str(" ");
        if t.len() > 0 && (t[0] as u32) >= 128 {
            s.append(string_of(t.as_slice()).as_str());
            s.append(" ");
        } else {
            s.append(if self.is_error { "󰅚" } else { "󰄬" });
            s.append(" ");
            s.append(string_of(t.as_slice()).as_str());
            s.append(" ");
        }
        proof {
            reveal_strlit(" ");
        }
        s
    }

    /// The lines of the message, each piece by piece.
    pub fn message_lines(&self) -> (r: Vec<Segments>)
        ensures
            lines_view(r@) == text_lines(self.message@).map_values(
                |l: Seq<char>| message_line_text(l, self.is_error),
            ),
    {
        let v = chars_of(self.message.as_str());
        let ls = split_lines(&v);
        let slash = chars_of("/");
        let drive = chars_of(":\\");
        let label = chars_of("AniList:");
        proof {
            reveal_strlit("/");
            reveal_strlit(":\\");
            reveal_strlit("AniList:");
        }
        let ghost target = text_lines(self.message@).map_values(
            |l: Seq<char>| message_line_text(l, self.is_error),
        );
        let mut out: Vec<Segments> = Vec::new();
        let mut k: usize = 0;
        while k < ls.len()
            invariant
                k <= ls@.len(),
                ls@.map_values(|l: Vec<char>| l@) == text_lines(self.message@),
                target == text_lines(self.message@).map_values(|l: Seq<char>| message_line_text(l, self.is_error)),
                slash@ == "/"@,
                drive@ == ":\\"@,
                label@ == "AniList:"@,
                out@.len() == k,
                forall|j: int| 0 <= j < k ==> #[trigger] segments_view(out@[j]) == target[j],
            decreases ls@.len() - k,
        {
            let l = &ls[k];
            assert(ls@.map_values(|l: Vec<char>| l@)[k as int] == l@);
            let mut row: Segments = Vec::new();
            if !self.is_error && (starts_with_chars(l, &slash) || find_chars(l, &drive).is_some()) {
                row.push((string_of(l.as_slice()), Tone::Highlight));
            } else if !self.is_error && starts_with_chars(l, &label) {
                let rest = strip_prefixes_chars(l, &label);
                let t = trim_chars(&rest);
                row.push((String::from_str("AniList: "), Tone::Brand));
                row.push((string_of(t.as_slice()), Tone::Strong));
                proof {
                    reveal_strlit("AniList: ");
                }
            } else {
                row.push((string_of(l.as_slice()), if self.is_error { Tone::Alarm } else { Tone::Strong }));
            }
            assert(segments_view(row) =~= message_line_text(l@, self.is_error));
            let ghost prev = out@;
            out.push(row);
            proof {
                assert forall|j: int| 0 <= j < k + 1 implies #[trigger] segments_view(out@[j]) == target[j] by {
                    if j < k {
                        assert(out@[j] == prev[j]);
                    }
                }
            }
            k = k + 1;
        }
        assert(lines_view(out@) =~= target);
        out
    }

    /// The keys offered at the foot of the window.
    pub fn footer(lang: AppLanguage) -> (r: Vec<(&'static str, Tone)>)
        ensures
            pieces_view(r@) == alert_footer_text(lang),
    {
        let close = match lang {
            AppLanguage::English => "Close",
            AppLanguage::Portuguese => "Fechar",
        };
        let r = vec![("[Enter] ", Tone::Success), ("OK      ", Tone::Strong), ("[Esc] ", Tone::Danger), (close, Tone::Strong)];
        assert(pieces_view(r@) =~= alert_footer_text(lang));
        r
    }
}

} // verus!
