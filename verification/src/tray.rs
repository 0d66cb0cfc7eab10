//! The icon in the tray and its menu.

use vstd::prelude::*;

use crate::overlay::{MSG_EXIT, MSG_OPEN_SETTINGS, MSG_TOGGLE_CURSOR};
use crate::settings;
use crate::text;

verus! {

/// The menu entry that opens the settings.
pub const MENU_SETTINGS: u32 = 1001;

/// The menu entry that switches the cursor on or off.
pub const MENU_TOGGLE: u32 = 1002;

/// The menu entry that ends the program.
pub const MENU_EXIT: u32 = 1003;

/// The text that is shown beside the icon.
pub const TIP: &'static str = "Curosu";

/// The room for that text, its final zero included.
pub const TIP_ROOM: usize = 128;

/// Whether the icon is in the tray.
#[derive(Clone, Copy, Debug)]
pub struct Tray {
    pub icon_loaded: bool,
}

impl Tray {
    /// There is no icon yet.
    pub fn new() -> (r: Tray)
        ensures
            !r.icon_loaded,
    {
        Tray { icon_loaded: false }
    }

    /// Takes whether the system has added the icon, and says so.
    pub fn add(&mut self, added: bool) -> (r: bool)
        ensures
            final(self).icon_loaded == (old(self).icon_loaded || added),
            r == added,
    {
        if added {
            self.icon_loaded = true;
        }
        added
    }

    /// Says whether the icon is to be removed, and counts it as removed.
    pub fn remove(&mut self) -> (r: bool)
        ensures
            r == old(self).icon_loaded,
            !final(self).icon_loaded,
    {
        let there: bool = self.icon_loaded;
        self.icon_loaded = false;
        there
    }
}

/// The units of the text beside the icon, with the zero behind them, for which there is
/// room.
pub fn tip() -> (r: Vec<u16>)
    ensures
        r@ == text::encoded(TIP@).push(0),
        r@.len() <= TIP_ROOM,
{
    proof {
        reveal_strlit("Curosu");
        text::law_wide_length(TIP@);
    }
    text::to_wide(TIP)
}

/// The labels of the menu, in the order of its entries.
pub open spec fn labels(cursor_enabled: bool) -> Seq<Seq<char>> {
    seq![
        "设置"@,
        if cursor_enabled {
            "关闭光标"@
        } else {
            "打开光标"@
        },
        "退出"@,
    ]
}

/// The labels of the menu: the middle one offers what the cursor is not.
pub fn show_menu(cursor_enabled: bool) -> (r: Vec<String>)
    ensures
        settings::views(r@) == labels(cursor_enabled),
{
    let mut list: Vec<String> = Vec::new();
    list.push("设置".to_owned());
    if cursor_enabled {
        list.push("关闭光标".to_owned());
    } else {
        list.push("打开光标".to_owned());
    }
    list.push("退出".to_owned());
    assert(settings::views(list@) =~= labels(cursor_enabled));
    list
}

/// Where the menu opens: at the cursor, or near the corner where that is not known.
pub fn menu_position(cursor: Option<(i32, i32)>) -> (r: (i32, i32))
    ensures
        r == (match cursor {
            Some(p) => p,
            None => (100i32, 100i32),
        }),
{
    match cursor {
        Some(p) => p,
        None => (100, 100),
    }
}

/// The message that a chosen entry sends; none if nothing was chosen.
pub fn menu_message(entry: u32) -> (r: Option<u32>)
    ensures
        r == (if entry == MENU_SETTINGS {
            Some(MSG_OPEN_SETTINGS)
        } else if entry == MENU_TOGGLE {
            Some(MSG_TOGGLE_CURSOR)
        } else if entry == MENU_EXIT {
            Some(MSG_EXIT)
        } else {
            None
        }),
{
    if entry == MENU_SETTINGS {
        Some(MSG_OPEN_SETTINGS)
    } else if entry == MENU_TOGGLE {
        Some(MSG_TOGGLE_CURSOR)
    } else if entry == MENU_EXIT {
        Some(MSG_EXIT)
    } else {
        None
    }
}

/// The menu has three entries: the settings, the switch of the cursor, which offers to
/// switch off what is on and to switch on what is off, and the end of the program.
pub proof fn law_menu_offers_the_other_state(cursor_enabled: bool)
    ensures
        labels(cursor_enabled).len() == 3,
        labels(cursor_enabled)[0] == "设置"@,
        cursor_enabled ==> labels(cursor_enabled)[1] == "关闭光标"@,
        !cursor_enabled ==> labels(cursor_enabled)[1] == "打开光标"@,
        labels(cursor_enabled)[2] == "退出"@,
{
}

/// The numbers of the entries and of the messages that they send, and the text beside the
/// icon.
pub proof fn law_numbers_of_the_menu()
    ensures
        MENU_SETTINGS == 1001,
        MENU_TOGGLE == 1002,
        MENU_EXIT == 1003,
        MSG_TOGGLE_CURSOR == 0x8001,
        MSG_OPEN_SETTINGS == 0x8002,
        MSG_EXIT == 0x8003,
        TIP@ == "Curosu"@,
        TIP_ROOM == 128,
{
}

} // verus!
