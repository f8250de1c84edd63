//! Where the dialogs of the home and login pages are drawn: the yes/no
//! confirmations, the loading notice and the QR code.
use vstd::prelude::*;

verus! {

/// The width of a confirmation dialog on a screen `aw` columns wide: half the
/// screen, at most 46 and at least 30 columns.
pub open spec fn confirm_width(aw: int) -> int {
    let half = aw * 50 / 100;
    let capped = if half < 46 { half } else { 46 };
    if capped > 30 { capped } else { 30 }
}

/// The rectangle (x, y, width, height) of a confirmation dialog, 7 rows
/// high, centred in the area at (`ax`, `ay`) of `aw` × `ah` cells. The
/// screen must hold the dialog, and the sizes must fit in 16 bits.
pub fn confirm_dialog_rect(ax: u16, ay: u16, aw: u16, ah: u16) -> (res: (u16, u16, u16, u16))
    requires
        aw * 50 <= u16::MAX,
        aw >= 30,
        ah >= 7,
        ax + (aw - confirm_width(aw as int)) / 2 <= u16::MAX,
        ay + (ah - 7) / 2 <= u16::MAX,
    ensures
        res.2 == confirm_width(aw as int),
        res.3 == 7,
        res.0 == ax + (aw - res.2) / 2,
        res.1 == ay + (ah - 7) / 2,
{
    let half = aw * 50 / 100;
    let capped = if half < 46 { half } else { 46 };
    let w = if capped > 30 { capped } else { 30 };
    let h: u16 = 7;
    let x = ax + (aw - w) / 2;
    let y = ay + (ah - h) / 2;
    (x, y, w, h)
}

/// The start of a span of `size` cells centred in a span of `len` cells that
/// starts at `a`.
pub open spec fn centered(a: int, len: int, size: int) -> int {
    a + (len - size) / 2
}

/// The width of the loading notice on a screen `aw` columns wide: 40% of the
/// screen, at most 40 and at least 24 columns.
pub open spec fn loading_width(aw: int) -> int {
    let part = aw * 40 / 100;
    let capped = if part < 40 { part } else { 40 };
    if capped > 24 { capped } else { 24 }
}

/// The screens on which the loading notice's size arithmetic stays within 16
/// bits: the screen holds the notice and the centred corner fits.
pub open spec fn loading_fits(ax: u16, ay: u16, aw: u16, ah: u16) -> bool {
    &&& aw * 40 <= u16::MAX
    &&& aw >= 24
    &&& ah >= 5
    &&& centered(ax as int, aw as int, loading_width(aw as int)) <= u16::MAX
    &&& centered(ay as int, ah as int, 5) <= u16::MAX
}

/// The rectangle of the loading notice, 5 rows high and centred in the area;
/// none where its size arithmetic would leave 16 bits.
pub fn loading_dialog_rect(ax: u16, ay: u16, aw: u16, ah: u16) -> (res: Option<(u16, u16, u16, u16)>)
    ensures
        match res {
            Some((x, y, w, h)) => {
                &&& loading_fits(ax, ay, aw, ah)
                &&& w == loading_width(aw as int)
                &&& h == 5
                &&& x == centered(ax as int, aw as int, w as int)
                &&& y == centered(ay as int, ah as int, 5)
            },
            None => !loading_fits(ax, ay, aw, ah),
        },
{
    if aw > 1638 || aw < 24 || ah < 5 {
        return None;
    }
    let part = aw * 40 / 100;
    let capped = if part < 40 { part } else { 40 };
    let w = if capped > 24 { capped } else { 24 };
    let h: u16 = 5;
    let dx = (aw - w) / 2;
    let dy = (ah - h) / 2;
    if ax as u32 + dx as u32 > 0xffff || ay as u32 + dy as u32 > 0xffff {
        return None;
    }
    Some((ax + dx, ay + dy, w, h))
}

/// The height of the QR dialog for `lines` lines of code on a screen `ah`
/// rows high: the lines and four rows of frame, at most the screen less two
/// rows, and at least 10 rows.
pub open spec fn qr_dialog_height(lines: int, ah: int) -> int {
    let want = lines + 4;
    let room = if ah >= 2 { ah - 2 } else { 0 };
    let capped = if want < room { want } else { room };
    if capped > 10 { capped } else { 10 }
}

/// The width of the QR dialog: the first line's width (70 when there is no
/// line) and four columns of frame, at most the screen less two columns, and
/// at least 30 columns.
pub open spec fn qr_dialog_width(first: Option<u16>, aw: int) -> int {
    let want = match first {
        Some(n) => n as int,
        None => 70,
    } + 4;
    let room = if aw >= 2 { aw - 2 } else { 0 };
    let capped = if want < room { want } else { room };
    if capped > 30 { capped } else { 30 }
}

/// The inputs on which the QR dialog's size arithmetic stays within 16 bits.
pub open spec fn qr_dialog_fits(ax: u16, ay: u16, aw: u16, ah: u16, lines: u16, first: Option<u16>) -> bool {
    let w = qr_dialog_width(first, aw as int);
    let h = qr_dialog_height(lines as int, ah as int);
    &&& lines + 4 <= u16::MAX
    &&& match first {
        Some(n) => n + 4 <= u16::MAX,
        None => true,
    }
    &&& aw >= w
    &&& ah >= h
    &&& centered(ax as int, aw as int, w) <= u16::MAX
    &&& centered(ay as int, ah as int, h) <= u16::MAX
}

/// The rectangle of the QR dialog for a code of `lines` lines whose first
/// line is `first` columns wide, centred in the area; none where its size
/// arithmetic would leave 16 bits.
pub fn qr_dialog_rect(ax: u16, ay: u16, aw: u16, ah: u16, lines: u16, first: Option<u16>) -> (res: Option<(u16, u16, u16, u16)>)
    ensures
        match res {
            Some((x, y, w, h)) => {
                &&& qr_dialog_fits(ax, ay, aw, ah, lines, first)
                &&& w == qr_dialog_width(first, aw as int)
                &&& h == qr_dialog_height(lines as int, ah as int)
                &&& x == centered(ax as int, aw as int, w as int)
                &&& y == centered(ay as int, ah as int, h as int)
            },
            None => !qr_dialog_fits(ax, ay, aw, ah, lines, first),
        },
{
    if lines > 0xffff - 4 {
        return None;
    }
    let first_w: u16 = match first {
        Some(n) => {
            if n > 0xffff - 4 {
                return None;
            }
            n
        },
        None => 70,
    };
    let want_h = lines + 4;
    let room_h = if ah >= 2 { ah - 2 } else { 0 };
    let capped_h = if want_h < room_h { want_h } else { room_h };
    let h = if capped_h > 10 { capped_h } else { 10 };
    let want_w = first_w + 4;
    let room_w = if aw >= 2 { aw - 2 } else { 0 };
    let capped_w = if want_w < room_w { want_w } else { room_w };
    let w = if capped_w > 30 { capped_w } else { 30 };
    if aw < w || ah < h {
        return None;
    }
    let dx = (aw - w) / 2;
    let dy = (ah - h) / 2;
    if ax as u32 + dx as u32 > 0xffff || ay as u32 + dy as u32 > 0xffff {
        return None;
    }
    Some((ax + dx, ay + dy, w, h))
}

} // verus!
