//! The tray icon: what it looks like, and what its events mean.

use crate::text::{cat2, same};
use vstd::prelude::*;

verus! {

/// What the tray icon reports.
#[derive(Debug)]
pub enum TrayEvent {
    Show,
    Quit,
    /// The icon came up: the window can hide to it.
    Ready,
    /// There is no icon, and why: closing the window has to quit.
    Unavailable(String),
}

// ---------- The icon ----------

/// Width and height of the icon.
pub const ICON_SIZE: usize = 32;

/// The icon keeps this much distance from its edges.
pub const ICON_INSET: usize = 3;

/// The pixel at `x`, `y` belongs to the square.
pub open spec fn in_square(x: int, y: int) -> bool {
    ICON_INSET <= x < ICON_SIZE - ICON_INSET && ICON_INSET <= y < ICON_SIZE - ICON_INSET
}

/// The red, green, blue and alpha parts of a pixel, by number.
pub open spec fn pixel(x: int, y: int, part: int) -> u8 {
    if !in_square(x, y) {
        0
    } else if part == 0 {
        0x30
    } else if part == 1 {
        0x72
    } else if part == 2 {
        0x52
    } else {
        0xFF
    }
}

/// The byte at `i` of the icon's pixels, row by row.
pub open spec fn icon_byte(i: int) -> u8 {
    pixel((i / 4) % 32, (i / 4) / 32, i % 4)
}

/// The pixels of the icon: a square in muted emerald.
pub fn icon_pixels() -> (rgba: Vec<u8>)
    ensures
        rgba@.len() == 4 * ICON_SIZE * ICON_SIZE,
        forall|i: int| 0 <= i < rgba@.len() ==> #[trigger] rgba@[i] == icon_byte(i),
{
    let mut rgba: Vec<u8> = Vec::new();
    let mut i: usize = 0;
    while i < 4096
        invariant
            i <= 4096,
            rgba@.len() == i,
            forall|k: int| 0 <= k < i ==> #[trigger] rgba@[k] == icon_byte(k),
        decreases 4096 - i,
    {
        let x: usize = (i / 4) % 32;
        let y: usize = (i / 4) / 32;
        let part: usize = i % 4;
        let inside = 3 <= x && x < 29 && 3 <= y && y < 29;
        let value: u8 = if !inside {
            0
        } else if part == 0 {
            0x30
        } else if part == 1 {
            0x72
        } else if part == 2 {
            0x52
        } else {
            0xFF
        };
        rgba.push(value);
        i += 1;
    }
    rgba
}

// ---------- Events ----------

/// What the icon or its menu told us.
pub enum TrayInput<'a> {
    DoubleClick,
    /// Another event of the icon.
    OtherClick,
    /// A menu item, by its id.
    Menu(&'a str),
}

/// What an event of the icon leads to, and whether the icon goes on after it.
pub open spec fn tray_reaction(input: TrayInput) -> (Option<TrayEvent>, bool) {
    match input {
        TrayInput::DoubleClick => (Some(TrayEvent::Show), true),
        TrayInput::OtherClick => (None, true),
        TrayInput::Menu(id) => if id@ == "show"@ {
            (Some(TrayEvent::Show), true)
        } else if id@ == "quit"@ {
            (Some(TrayEvent::Quit), false)
        } else {
            (None, true)
        },
    }
}

/// [`tray_reaction`], computed.
pub fn react(input: TrayInput) -> (r: (Option<TrayEvent>, bool))
    ensures
        r == tray_reaction(input),
{
    match input {
        TrayInput::DoubleClick => (Some(TrayEvent::Show), true),
        TrayInput::OtherClick => (None, true),
        TrayInput::Menu(id) => {
            if same(id, "show") {
                (Some(TrayEvent::Show), true)
            } else if same(id, "quit") {
                (Some(TrayEvent::Quit), false)
            } else {
                (None, true)
            }
        },
    }
}

/// Where setting the icon up failed.
#[derive(Debug, Clone, Copy, PartialEq, Eq, Structural)]
pub enum SetupStep {
    Toolkit,
    Bitmap,
    ShowItem,
    QuitItem,
    Registration,
    Panic,
}

/// What is said about a failed step, in front of the reason.
pub open spec fn failure_prefix(step: SetupStep) -> Seq<char> {
    match step {
        SetupStep::Toolkit => "gtk::init failed: "@,
        SetupStep::Bitmap => "tray icon bitmap: "@,
        SetupStep::ShowItem => "tray menu (show item): "@,
        SetupStep::QuitItem => "tray menu (quit item): "@,
        SetupStep::Registration => "tray icon registration failed: "@,
        SetupStep::Panic => "tray thread panicked: "@,
    }
}

/// The event for a failed setup: without an icon, closing has to quit.
pub fn setup_failed(step: SetupStep, reason: &str) -> (r: TrayEvent)
    ensures
        match r {
            TrayEvent::Unavailable(text) => text@ == failure_prefix(step) + reason@,
            _ => false,
        },
{
    let prefix = match step {
        SetupStep::Toolkit => "gtk::init failed: ",
        SetupStep::Bitmap => "tray icon bitmap: ",
        SetupStep::ShowItem => "tray menu (show item): ",
        SetupStep::QuitItem => "tray menu (quit item): ",
        SetupStep::Registration => "tray icon registration failed: ",
        SetupStep::Panic => "tray thread panicked: ",
    };
    TrayEvent::Unavailable(cat2(prefix, reason))
}

} // verus!
