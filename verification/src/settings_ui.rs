//! The settings window: how it is opened and closed, what its borders and its icon are,
//! and what it offers to choose from.

use vstd::prelude::*;

use crate::bytes;
use crate::choices;
use crate::choices::{WindowChoice, WindowSeen};
use crate::overlay::render;
use crate::overlay::render::Texture;
use crate::overlay::window;
use crate::overlay::window::Rect;
use crate::samples;
use crate::settings;
use crate::settings::{Settings, StoredSettings};
use crate::text;

verus! {

/// The title of the window.
pub const TITLE: &'static str = "Curosu 设置";

/// What is shown while nothing has been chosen.
pub const PLACEHOLDER: &'static str = "选择窗口…";

/// The font for Latin letters.
pub const LATIN_FONT: &'static str = "torus";

/// The font for Chinese characters.
pub const CHINESE_FONT: &'static str = "msyh";

/// How many pixels from its edge the window can be dragged to another size.
pub const RESIZE_BORDER_PX: i32 = 8;

pub const HTLEFT: u32 = 10;

pub const HTRIGHT: u32 = 11;

pub const HTTOP: u32 = 12;

pub const HTTOPLEFT: u32 = 13;

pub const HTTOPRIGHT: u32 = 14;

pub const HTBOTTOM: u32 = 15;

pub const HTBOTTOMLEFT: u32 = 16;

pub const HTBOTTOMRIGHT: u32 = 17;

/// What the thread of the window is told to do.
#[derive(Clone, Copy, Debug, PartialEq, Eq, Structural)]
pub enum UiCmd {
    /// To show the window and give it the focus.
    Show,
    /// To close it for good.
    Quit,
}

/// What is known of the thread of the window.
#[derive(Clone, Copy, Debug, PartialEq, Eq, Structural)]
pub struct SettingsThread {
    /// Whether the thread has been started. From then on it can be told what to do.
    pub started: bool,
    /// The handle of the window; zero while it is not known.
    pub window: usize,
    /// Whether the thread has been told to close the window for good.
    pub quitting: bool,
}

/// How the window is shown.
#[derive(Clone, Copy, Debug, PartialEq, Eq, Structural)]
pub enum ShowAction {
    /// The window with this handle is shown and put into the foreground.
    Raise(usize),
    /// The thread is told.
    Send(UiCmd),
    /// There is nobody to tell.
    Nothing,
}

/// What the thread does with a command.
#[derive(Clone, Copy, Debug, PartialEq, Eq, Structural)]
pub enum CommandAction {
    /// The window with this handle is shown and put into the foreground.
    Raise(usize),
    /// The window is made visible and given the focus by the framework.
    ShowViewport,
    /// The framework is asked to close the window.
    CloseViewport,
}

/// What the thread does when the window is asked to close. Where it is hidden, the closing
/// is cancelled.
#[derive(Clone, Copy, Debug, PartialEq, Eq, Structural)]
pub enum CloseAction {
    /// The window with this handle is hidden.
    Hide(usize),
    /// The window is hidden by the framework.
    HideViewport,
    /// The window closes, and the thread ends with it.
    LetClose,
}

impl SettingsThread {
    /// Nothing has been started.
    pub fn new() -> (r: SettingsThread)
        ensures
            r == (SettingsThread { started: false, window: 0, quitting: false }),
    {
        SettingsThread { started: false, window: 0, quitting: false }
    }

    /// Takes note of the handle of the window. Tells whether it was found, so that the
    /// window can be given its corners and borders; once found it is not looked for again.
    pub fn find_own_hwnd(&mut self, found: &mut bool, handle: usize) -> (r: bool)
        ensures
            r == (!*old(found) && handle != 0),
            *final(found) == (*old(found) || handle != 0),
            *final(self) == (SettingsThread {
                window: if r {
                    handle
                } else {
                    old(self).window
                },
                ..*old(self)
            }),
    {
        if *found || handle == 0 {
            return false;
        }
        self.window = handle;
        *found = true;
        true
    }

    /// The state after a command.
    pub open spec fn after_command(self, command: UiCmd) -> SettingsThread {
        SettingsThread { quitting: self.quitting || command == UiCmd::Quit, ..self }
    }

    /// What is done when the window is asked to close: it stays, hidden, unless the thread
    /// has been told to close it.
    pub open spec fn close_answer(self) -> CloseAction {
        if self.quitting {
            CloseAction::LetClose
        } else if self.window != 0 {
            CloseAction::Hide(self.window)
        } else {
            CloseAction::HideViewport
        }
    }

    /// Takes a command and says what the thread does with it.
    pub fn handle_command(&mut self, command: UiCmd) -> (r: CommandAction)
        ensures
            r == (match command {
                UiCmd::Show => if old(self).window != 0 {
                    CommandAction::Raise(old(self).window)
                } else {
                    CommandAction::ShowViewport
                },
                UiCmd::Quit => CommandAction::CloseViewport,
            }),
            *final(self) == old(self).after_command(command),
    {
        match command {
            UiCmd::Show => if self.window != 0 {
                CommandAction::Raise(self.window)
            } else {
                CommandAction::ShowViewport
            },
            UiCmd::Quit => {
                self.quitting = true;
                CommandAction::CloseViewport
            },
        }
    }

    /// Says what the thread does when the window is asked to close.
    pub fn close_requested(&self) -> (r: CloseAction)
        ensures
            r == self.close_answer(),
    {
        if self.quitting {
            CloseAction::LetClose
        } else if self.window != 0 {
            CloseAction::Hide(self.window)
        } else {
            CloseAction::HideViewport
        }
    }

    /// How the window is shown in this state.
    pub open spec fn shown(self) -> ShowAction {
        if self.window != 0 {
            ShowAction::Raise(self.window)
        } else if self.started {
            ShowAction::Send(UiCmd::Show)
        } else {
            ShowAction::Nothing
        }
    }
}

/// Tells whether the thread has to be started, once.
pub fn ensure_started(thread: &mut SettingsThread) -> (r: bool)
    ensures
        r == !old(thread).started,
        *final(thread) == (SettingsThread { started: true, ..*old(thread) }),
{
    let first: bool = !thread.started;
    thread.started = true;
    first
}

/// Says how the window is shown: directly where its handle is known, else by its thread.
pub fn show(thread: &SettingsThread) -> (r: ShowAction)
    ensures
        r == thread.shown(),
{
    if thread.window != 0 {
        ShowAction::Raise(thread.window)
    } else if thread.started {
        ShowAction::Send(UiCmd::Show)
    } else {
        ShowAction::Nothing
    }
}

/// Says what the thread is told when the program ends.
pub fn quit(thread: &SettingsThread) -> (r: Option<UiCmd>)
    ensures
        r == (if thread.started {
            Some(UiCmd::Quit)
        } else {
            None
        }),
{
    if thread.started {
        Some(UiCmd::Quit)
    } else {
        None
    }
}

/// Opening the settings always shows them: once the thread has been started, either the
/// window is raised or its thread is told to show it.
pub proof fn law_opening_shows_the_window(thread: SettingsThread)
    ensures
        ({
            let open = SettingsThread { started: true, ..thread };
            open.shown() != ShowAction::Nothing && (open.shown() == ShowAction::Raise(open.window)
                <==> open.window != 0)
        }),
{
}

/// The command to quit closes the window: the close that it asks for goes through. Any
/// other close only hides the window, whatever else the thread was told.
pub proof fn law_only_quitting_closes_the_window(thread: SettingsThread)
    ensures
        thread.after_command(UiCmd::Quit).close_answer() == CloseAction::LetClose,
        thread.after_command(UiCmd::Quit).after_command(UiCmd::Show).close_answer()
            == CloseAction::LetClose,
        !thread.quitting ==> thread.close_answer() != CloseAction::LetClose,
        !thread.quitting ==> thread.after_command(UiCmd::Show).close_answer()
            != CloseAction::LetClose,
{
}

/// The point in the parameter of a message: sixteen bits for the column, then sixteen for
/// the row.
pub fn message_point(parameter: usize) -> (r: (i32, i32))
    ensures
        r.0 == samples::signed16(parameter as int % 65536),
        r.1 == samples::signed16(parameter as int / 65536 % 65536),
{
    let low: i32 = (parameter % 65536) as i32;
    let high: i32 = (parameter / 65536 % 65536) as i32;
    let x: i32 = if low < 32768 {
        low
    } else {
        low - 65536
    };
    let y: i32 = if high < 32768 {
        high
    } else {
        high - 65536
    };
    (x, y)
}

/// Whether the distances of a point from the edges can be held.
pub open spec fn distances_fit(rect: Rect, x: int, y: int) -> bool {
    &&& window::fits_i32(x - rect.left)
    &&& window::fits_i32(rect.right - x)
    &&& window::fits_i32(y - rect.top)
    &&& window::fits_i32(rect.bottom - y)
}

/// The part of the border that a point is on. The top goes before the bottom, and the
/// left before the right.
pub open spec fn border_part(rect: Rect, x: int, y: int) -> Option<u32> {
    let top = y - rect.top < RESIZE_BORDER_PX;
    let bottom = rect.bottom - y < RESIZE_BORDER_PX;
    let left = x - rect.left < RESIZE_BORDER_PX;
    let right = rect.right - x < RESIZE_BORDER_PX;
    if top && left {
        Some(HTTOPLEFT)
    } else if top && right {
        Some(HTTOPRIGHT)
    } else if top {
        Some(HTTOP)
    } else if bottom && left {
        Some(HTBOTTOMLEFT)
    } else if bottom && right {
        Some(HTBOTTOMRIGHT)
    } else if bottom {
        Some(HTBOTTOM)
    } else if left {
        Some(HTLEFT)
    } else if right {
        Some(HTRIGHT)
    } else {
        None
    }
}

/// Says which part of the border a point is on.
pub fn hit_test(rect: Rect, x: i32, y: i32) -> (r: Option<u32>)
    requires
        distances_fit(rect, x as int, y as int),
    ensures
        r == border_part(rect, x as int, y as int),
{
    let left: i32 = x - rect.left;
    let right: i32 = rect.right - x;
    let top: i32 = y - rect.top;
    let bottom: i32 = rect.bottom - y;
    if top < RESIZE_BORDER_PX {
        if left < RESIZE_BORDER_PX {
            Some(HTTOPLEFT)
        } else if right < RESIZE_BORDER_PX {
            Some(HTTOPRIGHT)
        } else {
            Some(HTTOP)
        }
    } else if bottom < RESIZE_BORDER_PX {
        if left < RESIZE_BORDER_PX {
            Some(HTBOTTOMLEFT)
        } else if right < RESIZE_BORDER_PX {
            Some(HTBOTTOMRIGHT)
        } else {
            Some(HTBOTTOM)
        }
    } else if left < RESIZE_BORDER_PX {
        Some(HTLEFT)
    } else if right < RESIZE_BORDER_PX {
        Some(HTRIGHT)
    } else {
        None
    }
}

/// The inside of the window is no border: a point is on none if and only if it keeps its
/// distance from every edge.
pub proof fn law_inside_is_no_border(rect: Rect, x: int, y: int)
    ensures
        border_part(rect, x, y) is None <==> {
            &&& rect.left + RESIZE_BORDER_PX <= x <= rect.right - RESIZE_BORDER_PX
            &&& rect.top + RESIZE_BORDER_PX <= y <= rect.bottom - RESIZE_BORDER_PX
        },
{
}

/// The bytes of the first image in an icon file: its first entry gives their number and
/// where they begin.
pub open spec fn first_image(icon: Seq<u8>) -> Option<Seq<u8>> {
    if icon.len() < 22 {
        None
    } else {
        let size = bytes::le32(icon, 14);
        let start = bytes::le32(icon, 18);
        if start + size > icon.len() {
            None
        } else {
            Some(icon.subrange(start, start + size))
        }
    }
}

/// Whether the first image, if there is one, can be decoded at all.
pub open spec fn icon_fits(icon: Seq<u8>) -> bool {
    first_image(icon) matches Some(image) ==> render::image_fits(image)
}

/// Finds the first image in an icon file.
pub fn icon_image(icon: &[u8]) -> (r: Option<&[u8]>)
    ensures
        match r {
            Some(image) => first_image(icon@) == Some(image@),
            None => first_image(icon@) is None,
        },
{
    if icon.len() < 22 {
        return None;
    }
    let size: u32 = bytes::read_le32(icon, 14);
    let start: u32 = bytes::read_le32(icon, 18);
    let end: u64 = start as u64 + size as u64;
    if end > icon.len() as u64 {
        return None;
    }
    Some(vstd::slice::slice_subrange(icon, start as usize, end as usize))
}

/// Tells whether `load_app_icon` accepts the file.
pub fn is_icon_loadable(icon: &[u8]) -> (r: bool)
    ensures
        r == icon_fits(icon@),
{
    match icon_image(icon) {
        Some(image) => render::is_decodable(image),
        None => true,
    }
}

/// Decodes the first image of an icon file, which has to be in red, green, blue and alpha.
pub fn load_app_icon(icon: &[u8]) -> (r: Option<Texture>)
    requires
        icon_fits(icon@),
    ensures
        match r {
            Some(picture) => picture@.wf() && (first_image(icon@) matches Some(image)
                && render::texture_of(render::png_first_frame(image, usize::BITS as int)) == Some(
                picture@,
            )),
            None => first_image(icon@) matches Some(image) ==> render::texture_of(
                render::png_first_frame(image, usize::BITS as int),
            ) is None,
        },
{
    match icon_image(icon) {
        Some(image) => render::decode_png(image),
        None => None,
    }
}

/// The fonts of a family in the order in which they are tried: the Latin one first, the
/// Chinese one next where it was found, then the others.
pub fn font_order(chinese_found: bool, others: Vec<String>) -> (r: Vec<String>)
    ensures
        settings::views(r@) == (if chinese_found {
            seq![LATIN_FONT@, CHINESE_FONT@] + settings::views(others@)
        } else {
            seq![LATIN_FONT@] + settings::views(others@)
        }),
{
    let mut family: Vec<String> = others;
    if chinese_found {
        family.insert(0, CHINESE_FONT.to_owned());
    }
    family.insert(0, LATIN_FONT.to_owned());
    assert(settings::views(family@) =~= (if chinese_found {
        seq![LATIN_FONT@, CHINESE_FONT@] + settings::views(others@)
    } else {
        seq![LATIN_FONT@] + settings::views(others@)
    }));
    family
}

/// The path of a program for what a query of its process returned: the code, and the units
/// that it wrote, of which there are `length`. Nothing where the query failed or wrote none.
pub fn queried_path(code: i32, units: &[u16], length: u32) -> (r: Option<String>)
    requires
        code != 0 ==> length <= units@.len(),
    ensures
        match r {
            Some(path) => code != 0 && length != 0 && path@ == text::decoded(
                units@.take(length as int),
            ),
            None => code == 0 || length == 0,
        },
{
    if code == 0 || length == 0 {
        return None;
    }
    let written: &[u16] = vstd::slice::slice_subrange(units, 0, length as usize);
    assert(written@ =~= units@.take(length as int));
    Some(text::from_wide(written))
}

/// What a frame of the window leads to: where it changed the settings, what a file is to
/// hold of them, which is then written, and the overlay is told; otherwise nothing.
pub fn frame_outcome(before: &Settings, after: &Settings) -> (r: Option<StoredSettings>)
    ensures
        match r {
            Some(stored) => !settings::equal_settings(after@, before@) && settings::holds_all(
                stored,
                after@,
            ),
            None => settings::equal_settings(after@, before@),
        },
{
    if after.same_as(before) {
        None
    } else {
        Some(after.save())
    }
}

/// Settings equal themselves, so that a frame that leaves them as they are leads to nothing,
/// as long as each of their numbers is one.
pub proof fn law_kept_settings_are_equal(kept: settings::SettingsValue)
    requires
        !kept.cursor_width.spec_is_nan(),
        !kept.tap_sound_volume.spec_is_nan(),
        !kept.hover_sound_volume.spec_is_nan(),
    ensures
        settings::equal_settings(kept, kept),
{
}

/// The programs that the window offers, and the one that has been chosen.
#[derive(Debug)]
pub struct ProgramPicker {
    pub selectable: Vec<WindowChoice>,
    pub selected: Option<String>,
}

/// The offer as mathematical values.
#[verifier::ext_equal]
pub ghost struct PickerValue {
    pub selectable: Seq<choices::ChoiceValue>,
    pub selected: Option<Seq<char>>,
}

impl View for ProgramPicker {
    type V = PickerValue;

    open spec fn view(&self) -> PickerValue {
        PickerValue {
            selectable: choices::values(self.selectable@),
            selected: match self.selected {
                Some(name) => Some(name@),
                None => None,
            },
        }
    }
}

/// Whether a list holds an entry with exactly this program.
pub open spec fn has_program(list: Seq<choices::ChoiceValue>, executable: Seq<char>) -> bool {
    exists|i: int| 0 <= i < list.len() && (#[trigger] list[i]).executable == executable
}

impl PickerValue {
    /// What stays chosen when another list is offered: a program that it does not hold
    /// does not.
    pub open spec fn still_selected(self, list: Seq<choices::ChoiceValue>) -> Option<Seq<char>> {
        match self.selected {
            Some(name) if has_program(list, name) => Some(name),
            _ => None,
        }
    }

    /// The label of what has been chosen.
    pub open spec fn label_shown(self, label: Seq<char>) -> bool {
        match self.selected {
            Some(name) if has_program(self.selectable, name) => exists|i: int|
                0 <= i < self.selectable.len() && (#[trigger] self.selectable[i]).executable == name
                    && self.selectable[i].label == label && forall|j: int|
                    0 <= j < i ==> (#[trigger] self.selectable[j]).executable != name,
            _ => label == PLACEHOLDER@,
        }
    }
}

impl ProgramPicker {
    /// Offers the programs of the given windows; nothing has been chosen.
    pub fn new(seen: &Vec<WindowSeen>) -> (r: ProgramPicker)
        ensures
            choices::ordered(r@.selectable),
            choices::same_entries(
                r@.selectable,
                choices::with_windows(choices::seen_values(seen@)),
            ),
            r@.selected is None,
    {
        ProgramPicker { selectable: choices::enumerate_visible_windows(seen), selected: None }
    }

    /// Tells whether there is nothing to choose from, so that the windows are to be looked
    /// at again.
    pub fn is_empty(&self) -> (r: bool)
        ensures
            r == (self@.selectable.len() == 0),
    {
        self.selectable.len() == 0
    }

    fn position(&self, executable: &String) -> (r: Option<usize>)
        ensures
            match r {
                Some(i) => i < self@.selectable.len() && self@.selectable[i as int].executable
                    == executable@ && forall|j: int|
                    0 <= j < i ==> (#[trigger] self@.selectable[j]).executable != executable@,
                None => !has_program(self@.selectable, executable@),
            },
    {
        let mut i: usize = 0;
        while i < self.selectable.len()
            invariant
                i <= self.selectable@.len(),
                forall|j: int|
                    0 <= j < i ==> (#[trigger] self@.selectable[j]).executable != executable@,
            decreases self.selectable@.len() - i,
        {
            assert(self@.selectable[i as int] == self.selectable@[i as int]@);
            if self.selectable[i].executable == *executable {
                return Some(i);
            }
            i = i + 1;
        }
        None
    }

    /// Offers the programs of the given windows. What had been chosen stays so if it is
    /// still there.
    pub fn refresh_selectable_windows(&mut self, seen: &Vec<WindowSeen>)
        ensures
            choices::ordered(final(self)@.selectable),
            choices::same_entries(
                final(self)@.selectable,
                choices::with_windows(choices::seen_values(seen@)),
            ),
            final(self)@.selected == old(self)@.still_selected(final(self)@.selectable),
    {
        self.selectable = choices::enumerate_visible_windows(seen);
        let gone: bool = match &self.selected {
            Some(name) => self.position(name).is_none(),
            None => false,
        };
        if gone {
            self.selected = None;
        }
    }

    /// The label to show: that of the first entry with the chosen program.
    pub fn selected_label(&self) -> (r: String)
        ensures
            self@.label_shown(r@),
    {
        match &self.selected {
            Some(name) => match self.position(name) {
                Some(i) => {
                    assert(self@.selectable[i as int] == self.selectable@[i as int]@);
                    self.selectable[i].label.clone()
                },
                None => PLACEHOLDER.to_owned(),
            },
            None => PLACEHOLDER.to_owned(),
        }
    }

    /// Tells whether an entry is the chosen one.
    pub fn is_selected(&self, index: usize) -> (r: bool)
        requires
            index < self.selectable@.len(),
        ensures
            r == (self@.selected == Some(self@.selectable[index as int].executable)),
    {
        match &self.selected {
            Some(name) => *name == self.selectable[index].executable,
            None => false,
        }
    }

    /// Chooses an entry.
    pub fn select(&mut self, index: usize)
        requires
            index < old(self).selectable@.len(),
        ensures
            final(self)@ == (PickerValue {
                selected: Some(old(self)@.selectable[index as int].executable),
                ..old(self)@
            }),
    {
        self.selected = Some(self.selectable[index].executable.clone());
    }

    /// Tells whether something has been chosen, so that it can be added.
    pub fn can_add(&self) -> (r: bool)
        ensures
            r == (self@.selected is Some),
    {
        self.selected.is_some()
    }

    /// Adds the chosen program to the exceptions, unless it is one already.
    pub fn add_selected(&self, settings: &mut Settings)
        ensures
            final(settings)@ == (match self@.selected {
                Some(name) => settings::SettingsValue {
                    executables: settings::with_name(old(settings)@.executables, name),
                    ..old(settings)@
                },
                None => old(settings)@,
            }),
    {
        match &self.selected {
            Some(name) => {
                settings.add_exclusion(name.as_str());
            },
            None => {},
        }
    }
}

/// What is chosen after a refresh can be found in the list, and nothing is chosen that
/// was not before.
pub proof fn law_choice_stays_in_the_list(
    picker: PickerValue,
    list: Seq<choices::ChoiceValue>,
    name: Seq<char>,
)
    requires
        picker.still_selected(list) == Some(name),
    ensures
        has_program(list, name),
        picker.selected == Some(name),
{
}

/// Which part of the border a point is on: it is at an edge if it is less than eight pixels
/// from it. The part names the top or else the bottom, and the left or else the right, as
/// far as the point is there: 13, 12 and 14 along the top, 16, 15 and 17 along the bottom,
/// 10 and 11 at the sides.
pub proof fn law_parts_of_the_border(rect: Rect, x: int, y: int)
    ensures
        ({
            let left = x - rect.left < 8;
            let right = !left && rect.right - x < 8;
            let top = y - rect.top < 8;
            let bottom = !top && rect.bottom - y < 8;
            let part = border_part(rect, x, y);
            &&& part == Some(13u32) <==> top && left
            &&& part == Some(14u32) <==> top && right
            &&& part == Some(12u32) <==> top && !left && !right
            &&& part == Some(16u32) <==> bottom && left
            &&& part == Some(17u32) <==> bottom && right
            &&& part == Some(15u32) <==> bottom && !left && !right
            &&& part == Some(10u32) <==> left && !top && !bottom
            &&& part == Some(11u32) <==> right && !top && !bottom
            &&& part is None <==> !left && !right && !top && !bottom
        }),
{
}

/// The distances of a point from the edges can be held if each of the four can.
pub proof fn law_distances_from_the_edges(rect: Rect, x: int, y: int)
    ensures
        distances_fit(rect, x, y) <==> {
            &&& -0x8000_0000 <= x - rect.left <= 0x7FFF_FFFF
            &&& -0x8000_0000 <= rect.right - x <= 0x7FFF_FFFF
            &&& -0x8000_0000 <= y - rect.top <= 0x7FFF_FFFF
            &&& -0x8000_0000 <= rect.bottom - y <= 0x7FFF_FFFF
        },
{
}

/// The first image of an icon: as many bytes as the four from the 14th on say, from where
/// the four from the 18th on say. There is none if the file is too short for its first entry
/// or for the image.
pub proof fn law_first_entry_tells_the_image(icon: Seq<u8>, i: int)
    ensures
        ({
            let size = icon[14] + 256 * icon[15] + 65536 * icon[16] + 16777216 * icon[17];
            let start = icon[18] + 256 * icon[19] + 65536 * icon[20] + 16777216 * icon[21];
            let image = first_image(icon);
            &&& image is Some <==> icon.len() >= 22 && start + size <= icon.len()
            &&& image matches Some(part) ==> part.len() == size && (0 <= i < size ==> part[i]
                == icon[start + i])
            &&& icon_fits(icon) <==> (image matches Some(part) ==> render::image_fits(part))
        }),
{
}

/// A command to quit is remembered, and one to show the window changes nothing.
pub proof fn law_commands_are_remembered(thread: SettingsThread)
    ensures
        thread.after_command(UiCmd::Quit) == (SettingsThread { quitting: true, ..thread }),
        thread.after_command(UiCmd::Show) == thread,
{
}

/// How a close is answered: it goes through once the thread is to quit; until then the
/// window is hidden, by its handle where that is known and by the framework otherwise.
pub proof fn law_closes_are_answered(thread: SettingsThread)
    ensures
        thread.close_answer() == CloseAction::LetClose <==> thread.quitting,
        !thread.quitting && thread.window != 0 ==> thread.close_answer() == CloseAction::Hide(
            thread.window,
        ),
        !thread.quitting && thread.window == 0 ==> thread.close_answer()
            == CloseAction::HideViewport,
{
}

/// How the window is shown: raised by its handle where that is known; otherwise its thread
/// is told to show it, if it was started, and nobody if not.
pub proof fn law_ways_to_show_the_window(thread: SettingsThread)
    ensures
        thread.window != 0 ==> thread.shown() == ShowAction::Raise(thread.window),
        thread.window == 0 && thread.started ==> thread.shown() == ShowAction::Send(UiCmd::Show),
        thread.window == 0 && !thread.started ==> thread.shown() == ShowAction::Nothing,
{
}

/// What was chosen stays chosen if and only if the list still has an entry with exactly that
/// program; otherwise nothing is chosen.
pub proof fn law_choice_stays_while_it_is_offered(
    picker: PickerValue,
    list: Seq<choices::ChoiceValue>,
    name: Seq<char>,
)
    ensures
        has_program(list, name) <==> exists|i: int|
            0 <= i < list.len() && (#[trigger] list[i]).executable == name,
        picker.selected is None ==> picker.still_selected(list) is None,
        picker.selected == Some(name) && has_program(list, name) ==> picker.still_selected(list)
            == Some(name),
        picker.selected == Some(name) && !has_program(list, name) ==> picker.still_selected(
            list,
        ) is None,
{
}

/// What is shown is the label of the first entry with the chosen program, and where there is
/// no such entry, or nothing has been chosen, the invitation to choose. Only one text can be
/// shown.
pub proof fn law_label_of_the_choice(picker: PickerValue, i: int, label: Seq<char>, other: Seq<char>)
    ensures
        0 <= i < picker.selectable.len() && picker.selected == Some(
            picker.selectable[i].executable,
        ) && (forall|j: int|
            0 <= j < i ==> (#[trigger] picker.selectable[j]).executable
                != picker.selectable[i].executable) ==> (picker.label_shown(label) <==> label
            == picker.selectable[i].label),
        picker.selected is None ==> (picker.label_shown(label) <==> label == "选择窗口…"@),
        (picker.selected matches Some(name) && !has_program(picker.selectable, name)) ==> (
        picker.label_shown(label) <==> label == "选择窗口…"@),
        picker.label_shown(label) && picker.label_shown(other) ==> label == other,
{
    if 0 <= i < picker.selectable.len() && picker.selected == Some(
        picker.selectable[i].executable,
    ) && (forall|j: int|
        0 <= j < i ==> (#[trigger] picker.selectable[j]).executable
            != picker.selectable[i].executable) {
        assert(has_program(picker.selectable, picker.selectable[i].executable));
    }
}

/// What is known of the offer is what it holds.
pub proof fn law_offer_is_what_it_holds(picker: ProgramPicker, i: int)
    ensures
        picker@.selectable.len() == picker.selectable@.len(),
        0 <= i < picker.selectable@.len() ==> picker@.selectable[i].executable
            == picker.selectable@[i].executable@ && picker@.selectable[i].label
            == picker.selectable@[i].label@,
        match picker.selected {
            Some(name) => picker@.selected == Some(name@),
            None => picker@.selected is None,
        },
{
}

/// The names that the window and its fonts go by.
pub proof fn law_names_of_the_window()
    ensures
        TITLE@ == "Curosu 设置"@,
        LATIN_FONT@ == "torus"@,
        CHINESE_FONT@ == "msyh"@,
{
}

} // verus!
