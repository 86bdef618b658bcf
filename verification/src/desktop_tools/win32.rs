//! Records exchanged with the Windows API, field by field as the API
//! declares them.

use vstd::prelude::*;

verus! {

/// A rectangle by its edges.
#[allow(non_camel_case_types)]
pub struct RECT {
    pub left: i32,
    pub top: i32,
    pub right: i32,
    pub bottom: i32,
}

/// A point.
#[allow(non_camel_case_types)]
pub struct POINT {
    pub x: i32,
    pub y: i32,
}

/// A monitor's full and work areas.
#[allow(non_camel_case_types)]
pub struct MONITORINFO {
    pub cb_size: u32,
    pub rc_monitor: RECT,
    pub rc_work: RECT,
    pub dw_flags: u32,
}

/// A process of a process snapshot.
#[allow(non_camel_case_types)]
pub struct PROCESSENTRY32W {
    pub dw_size: u32,
    pub cnt_usage: u32,
    pub th32_process_id: u32,
    pub th32_default_heap_id: usize,
    pub th32_module_id: u32,
    pub cnt_threads: u32,
    pub th32_parent_process_id: u32,
    pub pc_pri_class_base: i32,
    pub dw_flags: u32,
    pub sz_exe_file: [u16; 260],
}

/// A time as two 32-bit halves of a count of 100-nanosecond intervals.
#[allow(non_camel_case_types)]
pub struct FILETIME {
    pub dw_low_date_time: u32,
    pub dw_high_date_time: u32,
}

/// The memory counters of a process.
#[allow(non_camel_case_types)]
pub struct PROCESS_MEMORY_COUNTERS {
    pub cb: u32,
    pub page_fault_count: u32,
    pub peak_working_set_size: usize,
    pub working_set_size: usize,
    pub quota_peak_paged_pool_usage: usize,
    pub quota_paged_pool_usage: usize,
    pub quota_peak_non_paged_pool_usage: usize,
    pub quota_non_paged_pool_usage: usize,
    pub pagefile_usage: usize,
    pub peak_pagefile_usage: usize,
}

/// A keyboard event to send.
#[allow(non_camel_case_types)]
pub struct KEYBDINPUT {
    pub w_vk: u16,
    pub w_scan: u16,
    pub dw_flags: u32,
    pub time: u32,
    pub dw_extra_info: usize,
}

/// An input event to send; only keyboard events are used, padded to the
/// size of the largest event kind.
#[allow(non_camel_case_types)]
pub struct INPUT {
    pub input_type: u32,
    pub ki: KEYBDINPUT,
    pub _pad: [u8; 8],
}

/// A desktop window as the window tools describe it.
pub struct WindowInfo {
    pub title: String,
    pub class_name: String,
    pub x: i32,
    pub y: i32,
    pub width: i32,
    pub height: i32,
    pub process_name: String,
    pub pid: u32,
    pub minimized: bool,
    pub maximized: bool,
    pub focused: bool,
}

/// A process time given as a `FILETIME` count of 100-nanosecond intervals,
/// in whole milliseconds.
pub fn filetime_to_ms(ft: &FILETIME) -> (r: u64)
    ensures
        r == (ft.dw_high_date_time as int * 0x1_0000_0000 + ft.dw_low_date_time as int) / 10_000,
{
    let count: u64 = (ft.dw_high_date_time as u64) * 0x1_0000_0000 + (ft.dw_low_date_time as u64);
    count / 10_000
}


/// A key the desktop tools press.
pub enum Key {
    Return,
    Tab,
    Escape,
    Backspace,
    Delete,
    Space,
    UpArrow,
    DownArrow,
    LeftArrow,
    RightArrow,
    Home,
    End,
    PageUp,
    PageDown,
    Control,
    Alt,
    Shift,
    Meta,
    CapsLock,
    /// A function key, `F1` to `F12` by its number.
    F(u8),
    /// A character key.
    Unicode(char),
    /// Any other key.
    Other,
}

/// The Win32 virtual key code of a named key (`None` for a character key,
/// whose code the keyboard layout gives, and for keys without one).
pub open spec fn named_key_code(key: Key) -> Option<u32> {
    match key {
        Key::Return => Some(0x0D),
        Key::Tab => Some(0x09),
        Key::Escape => Some(0x1B),
        Key::Backspace => Some(0x08),
        Key::Delete => Some(0x2E),
        Key::Space => Some(0x20),
        Key::UpArrow => Some(0x26),
        Key::DownArrow => Some(0x28),
        Key::LeftArrow => Some(0x25),
        Key::RightArrow => Some(0x27),
        Key::Home => Some(0x24),
        Key::End => Some(0x23),
        Key::PageUp => Some(0x21),
        Key::PageDown => Some(0x22),
        Key::Control => Some(0x11),
        Key::Alt => Some(0x12),
        Key::Shift => Some(0x10),
        Key::Meta => Some(0x5B),
        Key::CapsLock => Some(0x14),
        Key::F(n) => if 1 <= n <= 12 {
            Some((0x70 + n - 1) as u32)
        } else {
            None
        },
        _ => None,
    }
}

/// The virtual key code of a key: a named key's fixed code; for a
/// character key, the low byte of what `VkKeyScanW` gave for it
/// (`layout_scan`), none where that is -1 (no key types it).
pub fn key_to_vk(key: &Key, layout_scan: i16) -> (r: Option<u32>)
    ensures
        match key {
            Key::Unicode(_) => r == if layout_scan == -1 {
                None
            } else {
                Some((layout_scan as int % 256) as u32)
            },
            _ => r == named_key_code(*key),
        },
{
    match key {
        Key::Return => Some(0x0D),
        Key::Tab => Some(0x09),
        Key::Escape => Some(0x1B),
        Key::Backspace => Some(0x08),
        Key::Delete => Some(0x2E),
        Key::Space => Some(0x20),
        Key::UpArrow => Some(0x26),
        Key::DownArrow => Some(0x28),
        Key::LeftArrow => Some(0x25),
        Key::RightArrow => Some(0x27),
        Key::Home => Some(0x24),
        Key::End => Some(0x23),
        Key::PageUp => Some(0x21),
        Key::PageDown => Some(0x22),
        Key::Control => Some(0x11),
        Key::Alt => Some(0x12),
        Key::Shift => Some(0x10),
        Key::Meta => Some(0x5B),
        Key::CapsLock => Some(0x14),
        Key::F(n) => if 1 <= *n && *n <= 12 {
            Some((0x70 + *n - 1) as u32)
        } else {
            None
        },
        Key::Unicode(_) => if layout_scan == -1 {
            None
        } else {
            let b: u32 = (layout_scan & 0xFF) as u32;
            assert((layout_scan & 0xFF) as int == layout_scan as int % 256) by (bit_vector);
            Some(b)
        },
        Key::Other => None,
    }
}

/// The `lParam` of a key message (as on 64-bit Windows): a repeat count
/// of 1, the scan code's low byte in bits 16 to 23, and for a release the
/// previous-state and transition bits (30 and 31).
pub fn key_lparam(scan_code: u32, key_up: bool) -> (r: i64)
    ensures
        r == 1 + (scan_code % 256) * 0x10000 + if key_up {
            0xC000_0000int
        } else {
            0
        },
{
    let low: i64 = (scan_code & 0xFF) as i64;
    assert((scan_code & 0xFF) == scan_code % 256) by (bit_vector);
    let mut lparam: i64 = 1;
    lparam = lparam | (low << 16);
    assert(1i64 | (low << 16) == 1 + low * 0x10000) by (bit_vector)
        requires
            0 <= low < 256,
    ;
    if key_up {
        let before = lparam;
        lparam = lparam | ((1i64 << 30) | (1i64 << 31));
        assert(before | ((1i64 << 30) | (1i64 << 31)) == before + 0xC000_0000) by (bit_vector)
            requires
                0 <= before < 0x100_0000,
        ;
    }
    lparam
}

} // verus!
