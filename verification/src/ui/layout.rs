//! Where the windows of the interface are drawn: the arithmetic that places
//! each modal window inside the terminal area.

use vstd::prelude::*;

verus! {

/// A rectangle of terminal cells.
#[derive(Debug, Clone, Copy, PartialEq, Eq, Structural)]
pub struct Area {
    pub x: u16,
    pub y: u16,
    pub width: u16,
    pub height: u16,
}

/// A rectangle that fits in the terminal's coordinates.
pub open spec fn fits(a: Area) -> bool {
    a.x + a.width <= u16::MAX && a.y + a.height <= u16::MAX
}

/// `a - b`, or zero where `b` is larger.
pub open spec fn sat_sub(a: int, b: int) -> int {
    if a >= b {
        a - b
    } else {
        0
    }
}

/// The smaller of two numbers.
pub open spec fn min(a: int, b: int) -> int {
    if a <= b {
        a
    } else {
        b
    }
}

/// `v` kept within `lo..=hi`.
pub open spec fn clamp(v: int, lo: int, hi: int) -> int {
    if v < lo {
        lo
    } else if v > hi {
        hi
    } else {
        v
    }
}

/// A window of `w` by `h` cells centred in `area`.
pub open spec fn centered(area: Area, w: int, h: int) -> Area {
    Area {
        x: (area.x + sat_sub(area.width as int, w) / 2) as u16,
        y: (area.y + sat_sub(area.height as int, h) / 2) as u16,
        width: w as u16,
        height: h as u16,
    }
}

/// Centres a window of `w` by `h` cells in `area`.
pub fn center_in(area: Area, w: u16, h: u16) -> (r: Area)
    requires
        fits(area),
    ensures
        r == centered(area, w as int, h as int),
        fits(r) || w > area.width || h > area.height,
{
    let dx = if area.width >= w { area.width - w } else { 0 };
    let dy = if area.height >= h { area.height - h } else { 0 };
    Area { x: area.x + dx / 2, y: area.y + dy / 2, width: w, height: h }
}

/// The window size that keeps a cell of margin on each side: `max`, or less
/// where the area is too small.
pub open spec fn capped(max: int, avail: int) -> int {
    min(max, sat_sub(avail, 2))
}

fn cap(max: u16, avail: u16) -> (r: u16)
    ensures
        r == capped(max as int, avail as int),
{
    let room = if avail >= 2 { avail - 2 } else { 0 };
    if max <= room { max } else { room }
}

/// The alert window: 62 columns, and the message's line count plus 6 rows
/// (between 8 and 14), each capped by the area. The line count is taken as
/// a 16-bit number, as the window arithmetic does.
pub fn alert_area(area: Area, message_lines: usize) -> (r: Area)
    requires
        fits(area),
        message_lines % 65536 + 6 <= u16::MAX,
    ensures
        r == centered(
            area,
            capped(62, area.width as int),
            min(clamp(message_lines % 65536 + 6, 8, 14), sat_sub(area.height as int, 2)),
        ),
{
    let n = (message_lines % 65536) as u16;
    let raw = n + 6;
    let clamped = if raw < 8 { 8 } else if raw > 14 { 14 } else { raw };
    let room = if area.height >= 2 { area.height - 2 } else { 0 };
    let h = if clamped <= room { clamped } else { room };
    let w = cap(62, area.width);
    center_in(area, w, h)
}

/// The window that confirms removing a favorite: 55% of the width (at
/// least 46 columns) and 28% of the height (at least 9 rows), each at most
/// the whole area.
pub fn confirm_remove_area(area: Area) -> (r: Area)
    requires
        fits(area),
        area.width * 55 <= u16::MAX,
        area.height * 28 <= u16::MAX,
    ensures
        r == centered(
            area,
            min(
                if area.width * 55 / 100 >= 46 {
                    area.width * 55 / 100
                } else {
                    46
                },
                area.width as int,
            ),
            min(
                if area.height * 28 / 100 >= 9 {
                    area.height * 28 / 100
                } else {
                    9
                },
                area.height as int,
            ),
        ),
{
    let w0 = area.width * 55 / 100;
    let w1 = if w0 >= 46 { w0 } else { 46 };
    let w = if w1 <= area.width { w1 } else { area.width };
    let h0 = area.height * 28 / 100;
    let h1 = if h0 >= 9 { h0 } else { 9 };
    let h = if h1 <= area.height { h1 } else { area.height };
    center_in(area, w, h)
}

/// A window that takes a share of the area: `wp`% of the width clamped to
/// `[wmin, wmax]` and `hp`% of the height clamped to `[hmin, hmax]`, each
/// capped to leave a cell of margin.
pub open spec fn share_area(
    area: Area,
    wp: int,
    wmin: int,
    wmax: int,
    hp: int,
    hmin: int,
    hmax: int,
) -> Area {
    centered(
        area,
        min(clamp(area.width * wp / 100, wmin, wmax), sat_sub(area.width as int, 2)),
        min(clamp(area.height * hp / 100, hmin, hmax), sat_sub(area.height as int, 2)),
    )
}

fn share(area: Area, wp: u32, wmin: u32, wmax: u32, hp: u32, hmin: u32, hmax: u32) -> (r: Area)
    requires
        fits(area),
        wp <= 100,
        hp <= 100,
        wmin <= wmax <= u16::MAX,
        hmin <= hmax <= u16::MAX,
    ensures
        r == share_area(area, wp as int, wmin as int, wmax as int, hp as int, hmin as int, hmax as int),
{
    let aw = area.width as u32;
    let ah = area.height as u32;
    assert(aw * wp <= 6553500) by (nonlinear_arith)
        requires
            aw <= 65535,
            wp <= 100,
    ;
    assert(ah * hp <= 6553500) by (nonlinear_arith)
        requires
            ah <= 65535,
            hp <= 100,
    ;
    let w0 = aw * wp / 100;
    let w1 = if w0 < wmin { wmin } else if w0 > wmax { wmax } else { w0 };
    let h0 = ah * hp / 100;
    let h1 = if h0 < hmin { hmin } else if h0 > hmax { hmax } else { h0 };
    let w = cap(w1 as u16, area.width);
    let h = cap(h1 as u16, area.height);
    center_in(area, w, h)
}

/// The settings window: 82% of the width within 68..96 columns and 78% of
/// the height within 15..26 rows.
pub fn settings_area(area: Area) -> (r: Area)
    requires
        fits(area),
    ensures
        r == share_area(area, 82, 68, 96, 78, 15, 26),
{
    share(area, 82, 68, 96, 78, 15, 26)
}

/// The help window: 85% of the width within 64..82 columns and 82% of the
/// height within 16..23 rows.
pub fn help_area(area: Area) -> (r: Area)
    requires
        fits(area),
    ensures
        r == share_area(area, 85, 64, 82, 82, 16, 23),
{
    share(area, 85, 64, 82, 82, 16, 23)
}

/// A window of fixed size (`w` by `h`, capped to leave a margin): the
/// path editor is 72 by 9, the reading-sync confirmation 66 by 11.
pub fn fixed_area(area: Area, w: u16, h: u16) -> (r: Area)
    requires
        fits(area),
    ensures
        r == centered(area, capped(w as int, area.width as int), capped(h as int, area.height as int)),
{
    center_in(area, cap(w, area.width), cap(h, area.height))
}

/// Whether the settings window has room for its description card
/// (19 rows or more).
pub fn settings_has_info_box(height: u16) -> (r: bool)
    ensures
        r == (height >= 19),
{
    height >= 19
}

} // verus!
