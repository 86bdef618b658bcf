//! Window geometry and names used by the window tools.

use vstd::prelude::*;
use crate::desktop_tools::win32::{WindowInfo, RECT};
use crate::text::{
    append_chars, append_str, chars_of, contains, contains_exec, decimal, int_text, push_decimal, push_signed, slices_equal,
    string_from, to_lowercase, to_uppercase, unicode_lowercase, unicode_uppercase,
};

verus! {

/// A monitor's position and size.
pub struct MonitorRect {
    pub x: i32,
    pub y: i32,
    pub width: i32,
    pub height: i32,
}

/// Does a window at `(x, y)` of size `width` by `height` fill monitor `m`:
/// exactly its area, or an area that covers it?
pub open spec fn fills_monitor(x: int, y: int, width: int, height: int, m: MonitorRect) -> bool {
    (x == m.x && y == m.y && width == m.width && height == m.height) || (x <= m.x && y <= m.y && x
        + width >= m.x + m.width && y + height >= m.y + m.height)
}

/// Is a window full-screen: does it fill one of the monitors? The sums of
/// positions and sizes must fit in `i32`, as the window tools compute them.
pub fn is_fullscreen_by_rect(x: i32, y: i32, width: i32, height: i32, monitors: &Vec<MonitorRect>) -> (r: bool)
    requires
        i32::MIN <= x + width <= i32::MAX,
        i32::MIN <= y + height <= i32::MAX,
        forall|i: int|
            0 <= i < monitors.len() ==> i32::MIN <= #[trigger] monitors@[i].x + monitors@[i].width
                <= i32::MAX && i32::MIN <= monitors@[i].y + monitors@[i].height <= i32::MAX,
    ensures
        r == exists|i: int|
            0 <= i < monitors.len() && #[trigger] fills_monitor(
                x as int,
                y as int,
                width as int,
                height as int,
                monitors@[i],
            ),
{
    let mut i: usize = 0;
    while i < monitors.len()
        invariant
            i <= monitors.len(),
            i32::MIN <= x + width <= i32::MAX,
            i32::MIN <= y + height <= i32::MAX,
            forall|k: int|
                0 <= k < monitors.len() ==> i32::MIN <= #[trigger] monitors@[k].x + monitors@[k].width
                    <= i32::MAX && i32::MIN <= monitors@[k].y + monitors@[k].height <= i32::MAX,
            forall|k: int|
                0 <= k < i ==> !#[trigger] fills_monitor(
                    x as int,
                    y as int,
                    width as int,
                    height as int,
                    monitors@[k],
                ),
        decreases monitors.len() - i,
    {
        let m = &monitors[i];
        assert(i32::MIN <= monitors@[i as int].x + monitors@[i as int].width <= i32::MAX);
        if x == m.x && y == m.y && width == m.width && height == m.height {
            assert(fills_monitor(x as int, y as int, width as int, height as int, monitors@[i as int]));
            return true;
        }
        if x <= m.x && y <= m.y && (x + width) >= (m.x + m.width) && (y + height) >= (m.y + m.height) {
            assert(fills_monitor(x as int, y as int, width as int, height as int, monitors@[i as int]));
            return true;
        }
        i += 1;
    }
    false
}

/// `s` with its first character in upper case.
pub open spec fn capitalize_first_spec(s: Seq<char>) -> Seq<char> {
    if s.len() == 0 {
        Seq::empty()
    } else {
        unicode_uppercase(seq![s[0]]) + s.drop_first()
    }
}

/// Upper-case the first character of `s`.
pub fn capitalize_first(s: &str) -> (r: String)
    ensures
        r@ == capitalize_first_spec(s@),
{
    let cs = chars_of(s);
    if cs.len() == 0 {
        return String::new();
    }
    let first = string_from(&crate::text::single(cs[0]));
    let upper = to_uppercase(first.as_str());
    let mut out = chars_of(upper.as_str());
    let rest = crate::text::slice_of(&cs, 1, cs.len());
    crate::text::append_chars(&mut out, &rest);
    assert(rest@ == s@.drop_first());
    string_from(&out)
}

// ---------------------------------------------------------------------------
// Snapping a window to a part of its monitor's work area
// ---------------------------------------------------------------------------

/// `n / d` rounded toward zero, as integer division in Rust gives it.
pub open spec fn div_trunc(n: int, d: int) -> int {
    if n >= 0 {
        n / d
    } else {
        -((-n) / d)
    }
}

/// The rectangle `(x, y, width, height)` that a snap to `position` gives in
/// the work area from `(left, top)` to `(right, bottom)`: a half, a quarter,
/// or two thirds in the middle; `None` for a position it does not know.
pub open spec fn snap_rect_spec(position: Seq<char>, left: int, top: int, right: int, bottom: int) -> Option<
    (int, int, int, int),
> {
    let ww = right - left;
    let wh = bottom - top;
    let hw = div_trunc(ww, 2);
    let hh = div_trunc(wh, 2);
    if position == "left"@ {
        Some((left, top, hw, wh))
    } else if position == "right"@ {
        Some((left + hw, top, hw, wh))
    } else if position == "top-left"@ {
        Some((left, top, hw, hh))
    } else if position == "top-right"@ {
        Some((left + hw, top, hw, hh))
    } else if position == "bottom-left"@ {
        Some((left, top + hh, hw, hh))
    } else if position == "bottom-right"@ {
        Some((left + hw, top + hh, hw, hh))
    } else if position == "center"@ {
        let cw = div_trunc(ww * 2, 3);
        let ch = div_trunc(wh * 2, 3);
        Some((left + div_trunc(ww - cw, 2), top + div_trunc(wh - ch, 2), cw, ch))
    } else {
        None
    }
}

/// Does the arithmetic of a snap stay within `i32`? The width and height of
/// the work area always must; their doubles must where the window is centred.
pub open spec fn snap_fits(position: Seq<char>, work: RECT) -> bool {
    let ww = work.right - work.left;
    let wh = work.bottom - work.top;
    &&& i32::MIN <= ww <= i32::MAX
    &&& i32::MIN <= wh <= i32::MAX
    &&& (position == "center"@ ==> i32::MIN <= ww * 2 <= i32::MAX && i32::MIN <= wh * 2 <= i32::MAX)
}

/// `n / d` for a positive `d`, rounded toward zero.
fn div_i32(n: i32, d: i32) -> (r: i32)
    requires
        d > 0,
    ensures
        r == div_trunc(n as int, d as int),
{
    if n >= 0 {
        n / d
    } else {
        let m: i64 = -(n as i64);
        let q: i64 = m / (d as i64);
        (-q) as i32
    }
}

/// Where a snap to `position` puts a window in the work area `work`.
pub fn snap_rect(position: &str, work: &RECT) -> (r: Option<(i32, i32, i32, i32)>)
    requires
        snap_fits(position@, *work),
    ensures
        match r {
            Some(t) => snap_rect_spec(position@, work.left as int, work.top as int, work.right as int, work.bottom as int)
                == Some((t.0 as int, t.1 as int, t.2 as int, t.3 as int)),
            None => snap_rect_spec(position@, work.left as int, work.top as int, work.right as int, work.bottom as int) is None,
        },
{
    let ww = work.right - work.left;
    let wh = work.bottom - work.top;
    let hw = div_i32(ww, 2);
    let hh = div_i32(wh, 2);
    let p = chars_of(position);
    assert(work.left + hw <= i32::MAX && work.left + hw >= i32::MIN);
    assert(work.top + hh <= i32::MAX && work.top + hh >= i32::MIN);
    if slices_equal(&p, &chars_of("left")) {
        Some((work.left, work.top, hw, wh))
    } else if slices_equal(&p, &chars_of("right")) {
        Some((work.left + hw, work.top, hw, wh))
    } else if slices_equal(&p, &chars_of("top-left")) {
        Some((work.left, work.top, hw, hh))
    } else if slices_equal(&p, &chars_of("top-right")) {
        Some((work.left + hw, work.top, hw, hh))
    } else if slices_equal(&p, &chars_of("bottom-left")) {
        Some((work.left, work.top + hh, hw, hh))
    } else if slices_equal(&p, &chars_of("bottom-right")) {
        Some((work.left + hw, work.top + hh, hw, hh))
    } else if slices_equal(&p, &chars_of("center")) {
        let cw = div_i32(ww * 2, 3);
        let ch = div_i32(wh * 2, 3);
        let dx = div_i32(ww - cw, 2);
        let dy = div_i32(wh - ch, 2);
        assert(work.left + dx <= i32::MAX && work.left + dx >= i32::MIN);
        assert(work.top + dy <= i32::MAX && work.top + dy >= i32::MIN);
        Some((work.left + dx, work.top + dy, cw, ch))
    } else {
        None
    }
}

/// The reply after a snap.
pub fn snapped_reply(title: &str, position: &str, rect: (i32, i32, i32, i32)) -> (r: String)
    ensures
        r@ == "Snapped '"@ + title@ + "' to "@ + position@ + " ("@ + int_text(rect.0 as int) + ","@ + int_text(
            rect.1 as int,
        ) + " "@ + int_text(rect.2 as int) + "x"@ + int_text(rect.3 as int) + ")"@,
{
    let mut v = chars_of("Snapped '");
    append_str(&mut v, title);
    append_str(&mut v, "' to ");
    append_str(&mut v, position);
    append_str(&mut v, " (");
    push_signed(&mut v, rect.0 as i64);
    append_str(&mut v, ",");
    push_signed(&mut v, rect.1 as i64);
    append_str(&mut v, " ");
    push_signed(&mut v, rect.2 as i64);
    append_str(&mut v, "x");
    push_signed(&mut v, rect.3 as i64);
    append_str(&mut v, ")");
    string_from(&v)
}

/// The reply for a position the snap does not know.
pub fn unknown_position_reply(position: &str) -> (r: String)
    ensures
        r@ == "Unknown position '"@ + position@
            + "'. Use: left, right, top-left, top-right, bottom-left, bottom-right, center, maximize, restore"@,
{
    let mut v = chars_of("Unknown position '");
    append_str(&mut v, position);
    append_str(&mut v, "'. Use: left, right, top-left, top-right, bottom-left, bottom-right, center, maximize, restore");
    string_from(&v)
}

// ---------------------------------------------------------------------------
// Replies of the window tools
// ---------------------------------------------------------------------------

/// The upper-case hexadecimal digit of `n`, for `n` below 16.
pub open spec fn hex_digit(n: int) -> char {
    if n < 10 {
        (('0' as int) + n) as char
    } else {
        (('A' as int) + n - 10) as char
    }
}

/// A byte as two upper-case hexadecimal digits.
pub open spec fn hex_byte(b: u8) -> Seq<char> {
    seq![hex_digit(b as int / 16), hex_digit(b as int % 16)]
}

fn push_hex_digit(out: &mut Vec<char>, n: u8)
    requires
        n < 16,
    ensures
        final(out)@ == old(out)@.push(hex_digit(n as int)),
{
    let c = if n < 10 {
        ((48u8 + n) as char)
    } else {
        ((55u8 + n) as char)
    };
    assert(c == hex_digit(n as int));
    out.push(c);
}

/// The reply for the colour of the pixel at `(x, y)`.
pub fn pixel_color_reply(x: i32, y: i32, r: u8, g: u8, b: u8) -> (s: String)
    ensures
        s@ == "Pixel at ("@ + int_text(x as int) + ","@ + int_text(y as int) + "): rgb("@ + int_text(r as int) + ","@
            + int_text(g as int) + ","@ + int_text(b as int) + ") = #"@ + hex_byte(r) + hex_byte(g) + hex_byte(b),
{
    let mut v = chars_of("Pixel at (");
    push_signed(&mut v, x as i64);
    append_str(&mut v, ",");
    push_signed(&mut v, y as i64);
    append_str(&mut v, "): rgb(");
    push_signed(&mut v, r as i64);
    append_str(&mut v, ",");
    push_signed(&mut v, g as i64);
    append_str(&mut v, ",");
    push_signed(&mut v, b as i64);
    append_str(&mut v, ") = #");
    let ghost before = v@;
    push_hex_digit(&mut v, r / 16);
    push_hex_digit(&mut v, r % 16);
    push_hex_digit(&mut v, g / 16);
    push_hex_digit(&mut v, g % 16);
    push_hex_digit(&mut v, b / 16);
    push_hex_digit(&mut v, b % 16);
    assert(v@ =~= before + hex_byte(r) + hex_byte(g) + hex_byte(b));
    string_from(&v)
}

/// The state words of a window, in brackets after a space, or nothing.
pub open spec fn state_suffix(words: Seq<Seq<char>>) -> Seq<char> {
    if words.len() == 0 {
        Seq::empty()
    } else {
        " ["@ + crate::text::join_with(words, ", "@) + "]"@
    }
}

/// The state words of a window: minimized, maximized, focused, fullscreen,
/// those that hold, in that order.
pub open spec fn state_words(minimized: bool, maximized: bool, focused: bool, fullscreen: bool) -> Seq<Seq<char>> {
    let a: Seq<Seq<char>> = if minimized { seq!["minimized"@] } else { Seq::empty() };
    let b: Seq<Seq<char>> = if maximized { seq!["maximized"@] } else { Seq::empty() };
    let c: Seq<Seq<char>> = if focused { seq!["focused"@] } else { Seq::empty() };
    let d: Seq<Seq<char>> = if fullscreen { seq!["fullscreen"@] } else { Seq::empty() };
    a + b + c + d
}

/// The state of a window as the window tools print it: ` [maximized, focused]`.
pub fn window_state(minimized: bool, maximized: bool, focused: bool, fullscreen: bool) -> (r: String)
    ensures
        r@ == state_suffix(state_words(minimized, maximized, focused, fullscreen)),
{
    let mut parts: Vec<Vec<char>> = Vec::new();
    if minimized {
        parts.push(chars_of("minimized"));
    }
    if maximized {
        parts.push(chars_of("maximized"));
    }
    if focused {
        parts.push(chars_of("focused"));
    }
    if fullscreen {
        parts.push(chars_of("fullscreen"));
    }
    let ghost words = state_words(minimized, maximized, focused, fullscreen);
    assert(parts@.map_values(|p: Vec<char>| p@) =~= words);
    if parts.len() == 0 {
        return String::new();
    }
    let mut v = chars_of(" [");
    append_str(&mut v, crate::text::join_exec(&parts, ", ").as_str());
    append_str(&mut v, "]");
    string_from(&v)
}

/// The reply describing the active window.
pub fn active_window_reply(title: &str, process_name: &str, pid: u32, rect: (i32, i32, i32, i32), state: &str) -> (r: String)
    ensures
        r@ == "Active window: \""@ + title@ + "\" ("@ + process_name@ + ") pid="@ + int_text(pid as int) + " at "@
            + int_text(rect.0 as int) + ","@ + int_text(rect.1 as int) + " size "@ + int_text(rect.2 as int) + "x"@
            + int_text(rect.3 as int) + state@,
{
    let mut v = chars_of("Active window: \"");
    append_str(&mut v, title);
    append_str(&mut v, "\" (");
    append_str(&mut v, process_name);
    append_str(&mut v, ") pid=");
    push_signed(&mut v, pid as i64);
    append_str(&mut v, " at ");
    push_signed(&mut v, rect.0 as i64);
    append_str(&mut v, ",");
    push_signed(&mut v, rect.1 as i64);
    append_str(&mut v, " size ");
    push_signed(&mut v, rect.2 as i64);
    append_str(&mut v, "x");
    push_signed(&mut v, rect.3 as i64);
    append_str(&mut v, state);
    string_from(&v)
}

/// What a resize request changed: a move where both `x` and `y` were given,
/// a resize where both `width` and `height` were, joined by a comma.
pub open spec fn resize_parts(x: Option<i32>, y: Option<i32>, w: Option<i32>, h: Option<i32>) -> Seq<Seq<char>> {
    let moved: Seq<Seq<char>> = match (x, y) {
        (Some(px), Some(py)) => seq!["moved to ("@ + int_text(px as int) + ","@ + int_text(py as int) + ")"@],
        _ => Seq::empty(),
    };
    let resized: Seq<Seq<char>> = match (w, h) {
        (Some(pw), Some(ph)) => seq!["resized to "@ + int_text(pw as int) + "x"@ + int_text(ph as int)],
        _ => Seq::empty(),
    };
    moved + resized
}

/// The reply after a window was resized or moved.
pub fn resize_reply(title: &str, x: Option<i32>, y: Option<i32>, w: Option<i32>, h: Option<i32>) -> (r: String)
    ensures
        r@ == "Window \""@ + title@ + "\": "@ + crate::text::join_with(resize_parts(x, y, w, h), ", "@),
{
    let mut parts: Vec<Vec<char>> = Vec::new();
    match (x, y) {
        (Some(px), Some(py)) => {
            let mut m = chars_of("moved to (");
            push_signed(&mut m, px as i64);
            append_str(&mut m, ",");
            push_signed(&mut m, py as i64);
            append_str(&mut m, ")");
            parts.push(m);
        },
        _ => {},
    }
    match (w, h) {
        (Some(pw), Some(ph)) => {
            let mut m = chars_of("resized to ");
            push_signed(&mut m, pw as i64);
            append_str(&mut m, "x");
            push_signed(&mut m, ph as i64);
            parts.push(m);
        },
        _ => {},
    }
    assert(parts@.map_values(|p: Vec<char>| p@) =~= resize_parts(x, y, w, h));
    let mut v = chars_of("Window \"");
    append_str(&mut v, title);
    append_str(&mut v, "\": ");
    append_str(&mut v, crate::text::join_exec(&parts, ", ").as_str());
    string_from(&v)
}

// ---------------------------------------------------------------------------
// Finding and listing windows
// ---------------------------------------------------------------------------

/// Does a window match a filter given in lower case: does its title, process
/// name or class name, in lower case, contain it?
pub open spec fn window_matches(w: WindowInfo, lower_filter: Seq<char>) -> bool {
    contains(unicode_lowercase(w.title@), lower_filter) || contains(unicode_lowercase(w.process_name@), lower_filter)
        || contains(unicode_lowercase(w.class_name@), lower_filter)
}

/// Does a window match a filter given in lower case?
pub fn window_matches_filter(w: &WindowInfo, lower_filter: &str) -> (r: bool)
    ensures
        r == window_matches(*w, lower_filter@),
{
    let f = chars_of(lower_filter);
    contains_exec(&chars_of(to_lowercase(w.title.as_str()).as_str()), &f) || contains_exec(
        &chars_of(to_lowercase(w.process_name.as_str()).as_str()),
        &f,
    ) || contains_exec(&chars_of(to_lowercase(w.class_name.as_str()).as_str()), &f)
}

/// Is a window listed: of process `pid` where one is asked for, and
/// matching the filter (in lower case) where one is given?
pub open spec fn window_listed(w: WindowInfo, lower_filter: Option<Seq<char>>, pid: Option<u32>) -> bool {
    (match pid {
        Some(p) => w.pid == p,
        None => true,
    }) && (match lower_filter {
        Some(f) => window_matches(w, f),
        None => true,
    })
}

/// The windows listed, in their order.
pub open spec fn listed_windows(ws: Seq<WindowInfo>, lower_filter: Option<Seq<char>>, pid: Option<u32>) -> Seq<
    WindowInfo,
>
    decreases ws.len(),
{
    if ws.len() == 0 {
        Seq::empty()
    } else if window_listed(ws.last(), lower_filter, pid) {
        listed_windows(ws.drop_last(), lower_filter, pid).push(ws.last())
    } else {
        listed_windows(ws.drop_last(), lower_filter, pid)
    }
}

/// Do a window's right and bottom edges, and those of every monitor, fit
/// in `i32`, as the full-screen test computes them?
pub open spec fn window_fits(w: WindowInfo, monitors: Seq<MonitorRect>) -> bool {
    &&& i32::MIN <= w.x + w.width <= i32::MAX
    &&& i32::MIN <= w.y + w.height <= i32::MAX
    &&& forall|i: int|
        0 <= i < monitors.len() ==> i32::MIN <= #[trigger] monitors[i].x + monitors[i].width <= i32::MAX
            && i32::MIN <= monitors[i].y + monitors[i].height <= i32::MAX
}

/// Does a window fill one of the monitors?
pub open spec fn fills_some_monitor(w: WindowInfo, monitors: Seq<MonitorRect>) -> bool {
    exists|i: int|
        0 <= i < monitors.len() && #[trigger] fills_monitor(
            w.x as int,
            w.y as int,
            w.width as int,
            w.height as int,
            monitors[i],
        )
}

/// The start of a listed window's line: its number, title, process and class.
pub open spec fn line_head(i: nat, w: WindowInfo) -> Seq<char> {
    "  ["@ + decimal(i) + "] \""@ + w.title@ + "\""@ + (if w.process_name@.len() > 0 {
        " ("@ + w.process_name@ + ")"@
    } else {
        Seq::empty()
    }) + (if w.class_name@.len() > 0 {
        " ["@ + w.class_name@ + "]"@
    } else {
        Seq::empty()
    })
}

/// The rest of a listed window's line: process id, position, size, state.
pub open spec fn line_tail(w: WindowInfo, fullscreen: bool) -> Seq<char> {
    " — pid="@ + int_text(w.pid as int) + " "@ + int_text(w.x as int) + ","@ + int_text(w.y as int) + " "@
        + int_text(w.width as int) + "x"@ + int_text(w.height as int) + state_suffix(
        state_words(w.minimized, w.maximized, w.focused, fullscreen),
    ) + "\n"@
}

/// A listed window's line.
pub open spec fn window_line(i: nat, w: WindowInfo, fullscreen: bool) -> Seq<char> {
    line_head(i, w) + line_tail(w, fullscreen)
}

/// The lines of listed windows `0..k`.
pub open spec fn window_lines(ws: Seq<WindowInfo>, k: int, monitors: Seq<MonitorRect>) -> Seq<char>
    decreases k,
{
    if k <= 0 || k > ws.len() {
        Seq::empty()
    } else {
        window_lines(ws, k - 1, monitors) + window_line(
            (k - 1) as nat,
            ws[k - 1],
            fills_some_monitor(ws[k - 1], monitors),
        )
    }
}

/// The listing of the visible windows: a line for each window of the asked
/// process that matches the filter (in lower case); where none does, a note
/// with the filter and the number of windows.
pub open spec fn windows_listing_spec(
    ws: Seq<WindowInfo>,
    lower_filter: Option<Seq<char>>,
    pid: Option<u32>,
    monitors: Seq<MonitorRect>,
) -> Seq<char> {
    let listed = listed_windows(ws, lower_filter, pid);
    if listed.len() == 0 {
        if lower_filter is Some || pid is Some {
            "No visible windows match filter (text="@ + (match lower_filter {
                Some(f) => f,
                None => "any"@,
            }) + ", pid="@ + (match pid {
                Some(p) => int_text(p as int),
                None => "any"@,
            }) + "). Total visible windows: "@ + decimal(ws.len())
        } else {
            "No visible windows found."@
        }
    } else {
        "Found "@ + decimal(listed.len()) + " windows:\n"@ + window_lines(listed, listed.len() as int, monitors)
    }
}

fn line_head_exec(i: usize, w: &WindowInfo) -> (r: Vec<char>)
    ensures
        r@ == line_head(i as nat, *w),
{
    let mut out = chars_of("  [");
    push_decimal(&mut out, i as u64);
    append_str(&mut out, "] \"");
    append_str(&mut out, w.title.as_str());
    append_str(&mut out, "\"");
    let ghost a = out@;
    let pn = chars_of(w.process_name.as_str());
    if pn.len() > 0 {
        append_str(&mut out, " (");
        append_chars(&mut out, &pn);
        append_str(&mut out, ")");
    }
    let ghost b = out@;
    let cn = chars_of(w.class_name.as_str());
    if cn.len() > 0 {
        append_str(&mut out, " [");
        append_chars(&mut out, &cn);
        append_str(&mut out, "]");
    }
    assert(out@ =~= line_head(i as nat, *w));
    out
}

fn line_tail_exec(w: &WindowInfo, fullscreen: bool) -> (r: Vec<char>)
    ensures
        r@ == line_tail(*w, fullscreen),
{
    let mut out = chars_of(" — pid=");
    push_signed(&mut out, w.pid as i64);
    append_str(&mut out, " ");
    push_signed(&mut out, w.x as i64);
    append_str(&mut out, ",");
    push_signed(&mut out, w.y as i64);
    append_str(&mut out, " ");
    push_signed(&mut out, w.width as i64);
    append_str(&mut out, "x");
    push_signed(&mut out, w.height as i64);
    append_str(&mut out, window_state(w.minimized, w.maximized, w.focused, fullscreen).as_str());
    append_str(&mut out, "\n");
    assert(out@ =~= line_tail(*w, fullscreen));
    out
}

/// A listed window's line.
fn push_window_line(out: &mut Vec<char>, i: usize, w: &WindowInfo, monitors: &Vec<MonitorRect>)
    requires
        window_fits(*w, monitors@),
    ensures
        final(out)@ == old(out)@ + window_line(i as nat, *w, fills_some_monitor(*w, monitors@)),
{
    let fullscreen = is_fullscreen_by_rect(w.x, w.y, w.width, w.height, monitors);
    let head = line_head_exec(i, w);
    let tail = line_tail_exec(w, fullscreen);
    append_chars(out, &head);
    append_chars(out, &tail);
    assert(out@ =~= old(out)@ + window_line(i as nat, *w, fills_some_monitor(*w, monitors@)));
}

/// The listing of the visible windows, filtered by text (compared in lower
/// case) and by process id.
pub fn windows_listing(
    windows: &Vec<WindowInfo>,
    filter: Option<&str>,
    pid: Option<u32>,
    monitors: &Vec<MonitorRect>,
) -> (r: String)
    requires
        forall|i: int| 0 <= i < windows@.len() ==> #[trigger] window_fits(windows@[i], monitors@),
    ensures
        r@ == windows_listing_spec(
            windows@,
            match filter {
                Some(f) => Some(unicode_lowercase(f@)),
                None => None,
            },
            pid,
            monitors@,
        ),
{
    let lower: Option<String> = match filter {
        Some(f) => Some(to_lowercase(f)),
        None => None,
    };
    let ghost lf = crate::native_tools::opt_str_view(lower);
    let mut listed: Vec<usize> = Vec::new();
    let mut count: usize = 0;
    let mut i: usize = 0;
    while i < windows.len()
        invariant
            i <= windows.len(),
            listed@.len() == count,
            count <= i,
            listed_windows(windows@.take(i as int), lf, pid).len() == count,
            forall|k: int| 0 <= k < count ==> #[trigger] listed@[k] < windows@.len(),
            forall|k: int|
                0 <= k < count ==> listed_windows(windows@.take(i as int), lf, pid)[k] == windows@[#[trigger] listed@[k] as int],
            lf == crate::native_tools::opt_str_view(lower),
        decreases windows.len() - i,
    {
        let w = &windows[i];
        let pid_ok = match pid {
            Some(p) => w.pid == p,
            None => true,
        };
        let text_ok = match &lower {
            Some(f) => window_matches_filter(w, f.as_str()),
            None => true,
        };
        proof {
            assert(windows@.take(i + 1).drop_last() =~= windows@.take(i as int));
            assert(windows@.take(i + 1).last() == windows@[i as int]);
        }
        if pid_ok && text_ok {
            listed.push(i);
            count = count + 1;
        }
        i = i + 1;
    }
    assert(windows@.take(windows.len() as int) =~= windows@);
    let ghost lw = listed_windows(windows@, lf, pid);
    let mut out: Vec<char> = Vec::new();
    if count == 0 {
        if lower.is_some() || pid.is_some() {
            append_str(&mut out, "No visible windows match filter (text=");
            match &lower {
                Some(f) => append_str(&mut out, f.as_str()),
                None => append_str(&mut out, "any"),
            }
            append_str(&mut out, ", pid=");
            match pid {
                Some(p) => push_signed(&mut out, p as i64),
                None => append_str(&mut out, "any"),
            }
            append_str(&mut out, "). Total visible windows: ");
            push_decimal(&mut out, windows.len() as u64);
            return string_from(&out);
        }
        return "No visible windows found.".to_string();
    }
    append_str(&mut out, "Found ");
    push_decimal(&mut out, count as u64);
    append_str(&mut out, " windows:\n");
    let ghost head = out@;
    let mut k: usize = 0;
    while k < count
        invariant
            k <= count,
            listed@.len() == count,
            lw.len() == count,
            forall|j: int| 0 <= j < count ==> #[trigger] listed@[j] < windows@.len(),
            forall|j: int| 0 <= j < count ==> lw[j] == windows@[#[trigger] listed@[j] as int],
            forall|j: int| 0 <= j < windows@.len() ==> #[trigger] window_fits(windows@[j], monitors@),
            out@ == head + window_lines(lw, k as int, monitors@),
        decreases count - k,
    {
        let idx = listed[k];
        assert(lw[k as int] == windows@[idx as int]);
        assert(window_fits(windows@[idx as int], monitors@));
        push_window_line(&mut out, k, &windows[idx], monitors);
        k = k + 1;
    }
    string_from(&out)
}

} // verus!
