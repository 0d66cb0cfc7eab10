//! The settings: their defaults, what a stored file makes of them, and the list of
//! programs over which the overlay stays.

use vstd::prelude::*;

use crate::number;
use crate::number::Number;
use crate::overlay::anim;
use crate::text;

verus! {

/// The width of the cursor unless it has been changed, 30 pixels.
pub const DEFAULT_CURSOR_WIDTH: u64 = 0x403E_0000_0000_0000;

/// The directory of the settings.
pub const DIRECTORY: &'static str = "Curosu";

/// The directory that old files are in.
pub const LEGACY_DIRECTORY: &'static str = "OsuCursorRs";

/// The name of the file.
pub const FILE_NAME: &'static str = "settings.json";

/// Everything that the user can set.
#[derive(Debug)]
pub struct Settings {
    pub cursor_width: Number,
    pub auto_start: bool,
    pub tap_sound_enabled: bool,
    pub tap_sound_volume: Number,
    pub hover_sound_enabled: bool,
    pub hover_sound_volume: Number,
    pub hover_sound_as_resize_prompt: bool,
    /// Rules for windows over which the overlay stays, one on each line.
    pub fullscreen_overlay_exclusions: String,
    /// The programs that were chosen in the settings window; over them the overlay stays.
    pub fullscreen_overlay_exclusion_executables: Vec<String>,
}

/// The settings as a file holds them. The last two were not always there.
#[derive(Debug)]
pub struct StoredSettings {
    pub cursor_width: Number,
    pub auto_start: bool,
    pub tap_sound_enabled: bool,
    pub tap_sound_volume: Number,
    pub hover_sound_enabled: bool,
    pub hover_sound_volume: Number,
    pub hover_sound_as_resize_prompt: bool,
    pub fullscreen_overlay_exclusions: Option<String>,
    pub fullscreen_overlay_exclusion_executables: Option<Vec<String>>,
}

/// The settings as mathematical values.
#[verifier::ext_equal]
pub ghost struct SettingsValue {
    pub cursor_width: Number,
    pub auto_start: bool,
    pub tap_sound_enabled: bool,
    pub tap_sound_volume: Number,
    pub hover_sound_enabled: bool,
    pub hover_sound_volume: Number,
    pub hover_sound_as_resize_prompt: bool,
    pub exclusions: Seq<char>,
    pub executables: Seq<Seq<char>>,
}

/// The characters of each string.
pub open spec fn views(list: Seq<String>) -> Seq<Seq<char>> {
    list.map_values(|s: String| s@)
}

impl View for Settings {
    type V = SettingsValue;

    open spec fn view(&self) -> SettingsValue {
        SettingsValue {
            cursor_width: self.cursor_width,
            auto_start: self.auto_start,
            tap_sound_enabled: self.tap_sound_enabled,
            tap_sound_volume: self.tap_sound_volume,
            hover_sound_enabled: self.hover_sound_enabled,
            hover_sound_volume: self.hover_sound_volume,
            hover_sound_as_resize_prompt: self.hover_sound_as_resize_prompt,
            exclusions: self.fullscreen_overlay_exclusions@,
            executables: views(self.fullscreen_overlay_exclusion_executables@),
        }
    }
}

/// The settings before anything has been set.
pub open spec fn default_settings() -> SettingsValue {
    SettingsValue {
        cursor_width: anim::num(DEFAULT_CURSOR_WIDTH),
        auto_start: false,
        tap_sound_enabled: true,
        tap_sound_volume: anim::num(anim::ONE),
        hover_sound_enabled: true,
        hover_sound_volume: anim::num(anim::ONE),
        hover_sound_as_resize_prompt: false,
        exclusions: Seq::empty(),
        executables: Seq::empty(),
    }
}

/// What a stored file makes of the settings: the width is brought into its range, and
/// what the file does not hold is empty.
pub open spec fn restored(stored: StoredSettings) -> SettingsValue {
    SettingsValue {
        cursor_width: stored.cursor_width.spec_clamp(
            anim::num(anim::MIN_CURSOR_WIDTH),
            anim::num(anim::MAX_CURSOR_WIDTH),
        ),
        auto_start: stored.auto_start,
        tap_sound_enabled: stored.tap_sound_enabled,
        tap_sound_volume: stored.tap_sound_volume,
        hover_sound_enabled: stored.hover_sound_enabled,
        hover_sound_volume: stored.hover_sound_volume,
        hover_sound_as_resize_prompt: stored.hover_sound_as_resize_prompt,
        exclusions: match stored.fullscreen_overlay_exclusions {
            Some(rules) => rules@,
            None => Seq::empty(),
        },
        executables: match stored.fullscreen_overlay_exclusion_executables {
            Some(list) => views(list@),
            None => Seq::empty(),
        },
    }
}

/// Whether a file holds exactly these settings, with nothing left out.
pub open spec fn holds_all(stored: StoredSettings, value: SettingsValue) -> bool {
    &&& stored.cursor_width == value.cursor_width
    &&& stored.auto_start == value.auto_start
    &&& stored.tap_sound_enabled == value.tap_sound_enabled
    &&& stored.tap_sound_volume == value.tap_sound_volume
    &&& stored.hover_sound_enabled == value.hover_sound_enabled
    &&& stored.hover_sound_volume == value.hover_sound_volume
    &&& stored.hover_sound_as_resize_prompt == value.hover_sound_as_resize_prompt
    &&& stored.fullscreen_overlay_exclusions matches Some(rules) && rules@ == value.exclusions
    &&& stored.fullscreen_overlay_exclusion_executables matches Some(list) && views(list@)
        == value.executables
}

/// Whether a list holds a name, the case of letters left aside.
pub open spec fn lists(list: Seq<Seq<char>>, name: Seq<char>) -> bool {
    exists|i: int| 0 <= i < list.len() && text::same_ignoring_case(#[trigger] list[i], name)
}

/// Whether no two entries of a list are the same, the case of letters left aside.
pub open spec fn distinct(list: Seq<Seq<char>>) -> bool {
    forall|i: int, j: int|
        0 <= i < j < list.len() ==> !text::same_ignoring_case(#[trigger] list[i], #[trigger] list[j])
}

/// A list after a name has been added, if it did not hold it already.
pub open spec fn with_name(list: Seq<Seq<char>>, name: Seq<char>) -> Seq<Seq<char>> {
    if lists(list, name) {
        list
    } else {
        list.push(name)
    }
}

/// Whether two settings are equal, numbers by their values.
pub open spec fn equal_settings(a: SettingsValue, b: SettingsValue) -> bool {
    &&& a.cursor_width.equals(b.cursor_width)
    &&& a.auto_start == b.auto_start
    &&& a.tap_sound_enabled == b.tap_sound_enabled
    &&& a.tap_sound_volume.equals(b.tap_sound_volume)
    &&& a.hover_sound_enabled == b.hover_sound_enabled
    &&& a.hover_sound_volume.equals(b.hover_sound_volume)
    &&& a.hover_sound_as_resize_prompt == b.hover_sound_as_resize_prompt
    &&& a.exclusions == b.exclusions
    &&& a.executables == b.executables
}

/// Where the settings are read from.
#[derive(Clone, Copy, Debug, PartialEq, Eq, Structural)]
pub enum Source {
    /// The file in its present place.
    Current,
    /// The file in its old place.
    Legacy,
    /// No file.
    Nowhere,
}

impl Clone for Settings {
    fn clone(&self) -> (r: Settings)
        ensures
            r@ == self@,
    {
        let executables: Vec<String> = self.fullscreen_overlay_exclusion_executables.clone();
        assert(views(executables@) =~= views(self.fullscreen_overlay_exclusion_executables@));
        Settings {
            cursor_width: self.cursor_width,
            auto_start: self.auto_start,
            tap_sound_enabled: self.tap_sound_enabled,
            tap_sound_volume: self.tap_sound_volume,
            hover_sound_enabled: self.hover_sound_enabled,
            hover_sound_volume: self.hover_sound_volume,
            hover_sound_as_resize_prompt: self.hover_sound_as_resize_prompt,
            fullscreen_overlay_exclusions: self.fullscreen_overlay_exclusions.clone(),
            fullscreen_overlay_exclusion_executables: executables,
        }
    }
}

impl Default for Settings {
    fn default() -> (r: Settings)
        ensures
            r@ == default_settings(),
    {
        let r: Settings = Settings {
            cursor_width: Number::from_bits(DEFAULT_CURSOR_WIDTH),
            auto_start: false,
            tap_sound_enabled: true,
            tap_sound_volume: Number::from_bits(anim::ONE),
            hover_sound_enabled: true,
            hover_sound_volume: Number::from_bits(anim::ONE),
            hover_sound_as_resize_prompt: false,
            fullscreen_overlay_exclusions: String::new(),
            fullscreen_overlay_exclusion_executables: Vec::new(),
        };
        assert(r@ =~= default_settings());
        r
    }
}

impl Settings {
    /// The settings for what could be read: the stored ones, or the defaults.
    pub fn load(stored: Option<StoredSettings>) -> (r: Settings)
        ensures
            r@ == (match stored {
                Some(s) => restored(s),
                None => default_settings(),
            }),
    {
        match stored {
            Some(s) => {
                let rules: String = match s.fullscreen_overlay_exclusions {
                    Some(rules) => rules,
                    None => String::new(),
                };
                let list: Vec<String> = match s.fullscreen_overlay_exclusion_executables {
                    Some(list) => list,
                    None => Vec::new(),
                };
                let r: Settings = Settings {
                    cursor_width: anim::clamp_cursor_width(s.cursor_width),
                    auto_start: s.auto_start,
                    tap_sound_enabled: s.tap_sound_enabled,
                    tap_sound_volume: s.tap_sound_volume,
                    hover_sound_enabled: s.hover_sound_enabled,
                    hover_sound_volume: s.hover_sound_volume,
                    hover_sound_as_resize_prompt: s.hover_sound_as_resize_prompt,
                    fullscreen_overlay_exclusions: rules,
                    fullscreen_overlay_exclusion_executables: list,
                };
                assert(r@ =~= restored(s));
                r
            },
            None => Settings::default(),
        }
    }

    /// What a file is to hold of the settings: all of them.
    pub fn save(&self) -> (r: StoredSettings)
        ensures
            holds_all(r, self@),
    {
        let copy: Settings = self.clone();
        StoredSettings {
            cursor_width: copy.cursor_width,
            auto_start: copy.auto_start,
            tap_sound_enabled: copy.tap_sound_enabled,
            tap_sound_volume: copy.tap_sound_volume,
            hover_sound_enabled: copy.hover_sound_enabled,
            hover_sound_volume: copy.hover_sound_volume,
            hover_sound_as_resize_prompt: copy.hover_sound_as_resize_prompt,
            fullscreen_overlay_exclusions: Some(copy.fullscreen_overlay_exclusions),
            fullscreen_overlay_exclusion_executables: Some(
                copy.fullscreen_overlay_exclusion_executables,
            ),
        }
    }

    /// Compares two settings; numbers are compared by their values.
    pub fn same_as(&self, other: &Settings) -> (r: bool)
        ensures
            r == equal_settings(self@, other@),
    {
        self.cursor_width.is_equal(other.cursor_width) && self.auto_start == other.auto_start
            && self.tap_sound_enabled == other.tap_sound_enabled && self.tap_sound_volume.is_equal(
            other.tap_sound_volume,
        ) && self.hover_sound_enabled == other.hover_sound_enabled
            && self.hover_sound_volume.is_equal(other.hover_sound_volume)
            && self.hover_sound_as_resize_prompt == other.hover_sound_as_resize_prompt
            && self.fullscreen_overlay_exclusions == other.fullscreen_overlay_exclusions
            && same_list(
            &self.fullscreen_overlay_exclusion_executables,
            &other.fullscreen_overlay_exclusion_executables,
        )
    }

    /// Adds a program, unless the list holds it already.
    pub fn add_exclusion(&mut self, executable: &str)
        ensures
            final(self)@ == (SettingsValue {
                executables: with_name(old(self)@.executables, executable@),
                ..old(self)@
            }),
    {
        if !holds_name(&self.fullscreen_overlay_exclusion_executables, executable) {
            self.fullscreen_overlay_exclusion_executables.push(executable.to_owned());
            assert(self@.executables =~= old(self)@.executables.push(executable@));
        }
    }

    /// Takes the program at `index` off the list.
    pub fn remove_exclusion(&mut self, index: usize)
        requires
            index < old(self)@.executables.len(),
        ensures
            final(self)@ == (SettingsValue {
                executables: old(self)@.executables.remove(index as int),
                ..old(self)@
            }),
    {
        let _gone: String = self.fullscreen_overlay_exclusion_executables.remove(index);
        assert(self@.executables =~= old(self)@.executables.remove(index as int));
    }
}

/// Tells whether a list holds a name, the case of letters left aside.
pub fn holds_name(list: &Vec<String>, name: &str) -> (r: bool)
    ensures
        r == lists(views(list@), name@),
{
    let mut i: usize = 0;
    while i < list.len()
        invariant
            i <= list@.len(),
            forall|j: int|
                0 <= j < i ==> !text::same_ignoring_case(#[trigger] views(list@)[j], name@),
        decreases list@.len() - i,
    {
        if text::equal_ignoring_case(list[i].as_str(), name) {
            assert(text::same_ignoring_case(views(list@)[i as int], name@));
            return true;
        }
        assert(views(list@)[i as int] == list@[i as int]@);
        i = i + 1;
    }
    false
}

fn same_list(a: &Vec<String>, b: &Vec<String>) -> (r: bool)
    ensures
        r == (views(a@) == views(b@)),
{
    if a.len() != b.len() {
        assert(views(a@).len() != views(b@).len());
        return false;
    }
    let mut i: usize = 0;
    while i < a.len()
        invariant
            a@.len() == b@.len(),
            i <= a@.len(),
            forall|j: int| 0 <= j < i ==> #[trigger] views(a@)[j] == views(b@)[j],
        decreases a@.len() - i,
    {
        if a[i] != b[i] {
            assert(views(a@)[i as int] != views(b@)[i as int]);
            return false;
        }
        i = i + 1;
    }
    assert(views(a@) =~= views(b@));
    true
}

fn path_in(base: Option<String>, directory: &str) -> (r: Vec<String>)
    ensures
        views(r@) == seq![
            match base {
                Some(b) => b@,
                None => "."@,
            },
            directory@,
            FILE_NAME@,
        ],
{
    let first: String = match base {
        Some(b) => b,
        None => ".".to_owned(),
    };
    let mut parts: Vec<String> = Vec::new();
    parts.push(first);
    parts.push(directory.to_owned());
    parts.push(FILE_NAME.to_owned());
    assert(views(parts@) =~= seq![
        match base {
            Some(b) => b@,
            None => "."@,
        },
        directory@,
        FILE_NAME@,
    ]);
    parts
}

/// The parts of the path of the settings: the user's directory for application data, or
/// the working directory where that is not known; the program's directory; the file.
pub fn settings_path(base: Option<String>) -> (r: Vec<String>)
    ensures
        views(r@) == seq![
            match base {
                Some(b) => b@,
                None => "."@,
            },
            DIRECTORY@,
            FILE_NAME@,
        ],
{
    path_in(base, DIRECTORY)
}

/// The parts of the path of old settings.
pub fn legacy_settings_path(base: Option<String>) -> (r: Vec<String>)
    ensures
        views(r@) == seq![
            match base {
                Some(b) => b@,
                None => "."@,
            },
            LEGACY_DIRECTORY@,
            FILE_NAME@,
        ],
{
    path_in(base, LEGACY_DIRECTORY)
}

/// Whether there are settings, in their present place or in their old one.
pub fn settings_exist(current: bool, legacy: bool) -> (r: bool)
    ensures
        r == (current || legacy),
{
    current || legacy
}

/// Which file counts: the one in the present place if it can be read, then the old
/// one.
pub fn source(current_readable: bool, legacy_readable: bool) -> (r: Source)
    ensures
        r == Source::Current <==> current_readable,
        r == Source::Legacy <==> !current_readable && legacy_readable,
        r == Source::Nowhere <==> !current_readable && !legacy_readable,
{
    if current_readable {
        Source::Current
    } else if legacy_readable {
        Source::Legacy
    } else {
        Source::Nowhere
    }
}

/// Settings with a width in its range are loaded as they were saved.
pub proof fn law_saved_settings_load_back(stored: StoredSettings, value: SettingsValue)
    requires
        holds_all(stored, value),
        anim::num(anim::MIN_CURSOR_WIDTH).at_most(value.cursor_width),
        value.cursor_width.at_most(anim::num(anim::MAX_CURSOR_WIDTH)),
    ensures
        restored(stored) == value,
{
    number::law_clamp_keeps_what_is_in_range(
        value.cursor_width,
        anim::num(anim::MIN_CURSOR_WIDTH),
        anim::num(anim::MAX_CURSOR_WIDTH),
    );
    assert(restored(stored) =~= value);
}

/// A width that is loaded lies in its range.
pub proof fn law_loaded_width_is_in_range(stored: StoredSettings)
    requires
        !stored.cursor_width.spec_is_nan(),
    ensures
        anim::num(anim::MIN_CURSOR_WIDTH).at_most(restored(stored).cursor_width),
        restored(stored).cursor_width.at_most(anim::num(anim::MAX_CURSOR_WIDTH)),
{
}

/// A file written before the exclusions existed leaves them empty.
pub proof fn law_old_files_have_no_exclusions(stored: StoredSettings)
    requires
        stored.fullscreen_overlay_exclusions is None,
        stored.fullscreen_overlay_exclusion_executables is None,
    ensures
        restored(stored).exclusions == Seq::<char>::empty(),
        restored(stored).executables == Seq::<Seq<char>>::empty(),
{
}

/// A program that has been added is on the list, and adding it again, in whatever case,
/// changes nothing.
pub proof fn law_added_program_is_listed_once(
    list: Seq<Seq<char>>,
    name: Seq<char>,
    again: Seq<char>,
)
    requires
        text::same_ignoring_case(name, again),
    ensures
        lists(with_name(list, name), name),
        with_name(with_name(list, name), again) == with_name(list, name),
{
    let after = with_name(list, name);
    if lists(list, name) {
        let i = choose|i: int|
            0 <= i < list.len() && text::same_ignoring_case(#[trigger] list[i], name);
        assert(text::same_ignoring_case(after[i], again));
    } else {
        assert(text::same_ignoring_case(after[list.len() as int], name));
        assert(text::same_ignoring_case(after[list.len() as int], again));
    }
}

/// A list without repetitions stays without them.
pub proof fn law_additions_keep_the_list_distinct(list: Seq<Seq<char>>, name: Seq<char>)
    requires
        distinct(list),
    ensures
        distinct(with_name(list, name)),
{
}

/// So does one from which an entry is taken.
pub proof fn law_removals_keep_the_list_distinct(list: Seq<Seq<char>>, index: int)
    requires
        distinct(list),
        0 <= index < list.len(),
    ensures
        distinct(list.remove(index)),
{
}

/// Settings without a number that is none are equal to themselves.
pub proof fn law_settings_equal_themselves(value: SettingsValue)
    requires
        !value.cursor_width.spec_is_nan(),
        !value.tap_sound_volume.spec_is_nan(),
        !value.hover_sound_volume.spec_is_nan(),
    ensures
        equal_settings(value, value),
{
}

/// Equal settings agree in everything: in each switch, in the rules and in the programs, and
/// in each number up to the sign of zero. Settings that differ in any of them are not equal,
/// and those that agree in all of them, with numbers that are some, are.
pub proof fn law_equal_settings_agree_in_everything(a: SettingsValue, b: SettingsValue)
    ensures
        equal_settings(a, b) ==> a.auto_start == b.auto_start,
        equal_settings(a, b) ==> a.tap_sound_enabled == b.tap_sound_enabled,
        equal_settings(a, b) ==> a.hover_sound_enabled == b.hover_sound_enabled,
        equal_settings(a, b) ==> a.hover_sound_as_resize_prompt == b.hover_sound_as_resize_prompt,
        equal_settings(a, b) ==> a.exclusions == b.exclusions,
        equal_settings(a, b) ==> a.executables == b.executables,
        equal_settings(a, b) ==> same_number(a.cursor_width, b.cursor_width),
        equal_settings(a, b) ==> same_number(a.tap_sound_volume, b.tap_sound_volume),
        equal_settings(a, b) ==> same_number(a.hover_sound_volume, b.hover_sound_volume),
        a.auto_start == b.auto_start && a.tap_sound_enabled == b.tap_sound_enabled
            && a.hover_sound_enabled == b.hover_sound_enabled && a.hover_sound_as_resize_prompt
            == b.hover_sound_as_resize_prompt && a.exclusions == b.exclusions && a.executables
            == b.executables && same_number(a.cursor_width, b.cursor_width) && same_number(
            a.tap_sound_volume,
            b.tap_sound_volume,
        ) && same_number(a.hover_sound_volume, b.hover_sound_volume) ==> equal_settings(a, b),
        equal_settings(a, b) == equal_settings(b, a),
{
}

/// Whether two patterns are those of one number: they are the same, or both are zeros, and
/// neither is that of no number.
pub open spec fn same_number(a: Number, b: Number) -> bool {
    &&& !a.spec_is_nan()
    &&& !b.spec_is_nan()
    &&& a.bits == b.bits || (a.bits % 0x8000_0000_0000_0000 == 0 && b.bits % 0x8000_0000_0000_0000
        == 0)
}

/// A changed switch is a change: settings that differ in one switch alone are not equal,
/// whichever it is.
pub proof fn law_every_switch_counts(a: SettingsValue)
    ensures
        !equal_settings(a, SettingsValue { auto_start: !a.auto_start, ..a }),
        !equal_settings(a, SettingsValue { tap_sound_enabled: !a.tap_sound_enabled, ..a }),
        !equal_settings(a, SettingsValue { hover_sound_enabled: !a.hover_sound_enabled, ..a }),
        !equal_settings(
            a,
            SettingsValue {
                hover_sound_as_resize_prompt: !a.hover_sound_as_resize_prompt,
                ..a
            },
        ),
{
}

/// The settings before anything has been set: a cursor of 30 pixels, both sounds on at full
/// volume, no start with the system, no sound over borders, and no exceptions.
pub proof fn law_default_settings()
    ensures
        default_settings().cursor_width.bits == 0x403E_0000_0000_0000,
        !default_settings().auto_start,
        default_settings().tap_sound_enabled,
        default_settings().tap_sound_volume.bits == 0x3FF0_0000_0000_0000,
        default_settings().hover_sound_enabled,
        default_settings().hover_sound_volume.bits == 0x3FF0_0000_0000_0000,
        !default_settings().hover_sound_as_resize_prompt,
        default_settings().exclusions.len() == 0,
        default_settings().executables.len() == 0,
{
}

/// A file says each setting under its own name. Loading takes each as the file says it, but
/// for a width outside its range, and leaves empty what the file does not say.
pub proof fn law_loading_takes_each_setting(stored: StoredSettings)
    ensures
        ({
            let loaded = restored(stored);
            let least = Number { bits: 0x4030_0000_0000_0000 };
            let most = Number { bits: 0x4050_0000_0000_0000 };
            &&& loaded.auto_start == stored.auto_start
            &&& loaded.tap_sound_enabled == stored.tap_sound_enabled
            &&& loaded.tap_sound_volume == stored.tap_sound_volume
            &&& loaded.hover_sound_enabled == stored.hover_sound_enabled
            &&& loaded.hover_sound_volume == stored.hover_sound_volume
            &&& loaded.hover_sound_as_resize_prompt == stored.hover_sound_as_resize_prompt
            &&& stored.cursor_width.below(least) ==> loaded.cursor_width == least
            &&& most.below(stored.cursor_width) ==> loaded.cursor_width == most
            &&& !stored.cursor_width.below(least) && !most.below(stored.cursor_width)
                ==> loaded.cursor_width == stored.cursor_width
            &&& stored.fullscreen_overlay_exclusions matches Some(rules) ==> loaded.exclusions
                == rules@
            &&& stored.fullscreen_overlay_exclusions is None ==> loaded.exclusions.len() == 0
            &&& stored.fullscreen_overlay_exclusion_executables matches Some(list)
                ==> loaded.executables.len() == list@.len() && forall|i: int|
                0 <= i < list@.len() ==> #[trigger] loaded.executables[i] == list@[i]@
            &&& stored.fullscreen_overlay_exclusion_executables is None
                ==> loaded.executables.len() == 0
        }),
{
}

/// Saving writes each setting under its own name, the width as it is, and leaves nothing
/// out.
pub proof fn law_saving_writes_each_setting(stored: StoredSettings, value: SettingsValue)
    requires
        holds_all(stored, value),
    ensures
        stored.cursor_width == value.cursor_width,
        stored.auto_start == value.auto_start,
        stored.tap_sound_enabled == value.tap_sound_enabled,
        stored.tap_sound_volume == value.tap_sound_volume,
        stored.hover_sound_enabled == value.hover_sound_enabled,
        stored.hover_sound_volume == value.hover_sound_volume,
        stored.hover_sound_as_resize_prompt == value.hover_sound_as_resize_prompt,
        stored.fullscreen_overlay_exclusions matches Some(rules) && rules@ == value.exclusions,
        stored.fullscreen_overlay_exclusion_executables matches Some(list) && list@.len()
            == value.executables.len() && forall|i: int|
            0 <= i < list@.len() ==> (#[trigger] list@[i])@ == value.executables[i],
{
    let list = stored.fullscreen_overlay_exclusion_executables->0;
    assert forall|i: int| 0 <= i < list@.len() implies (#[trigger] list@[i])@
        == value.executables[i] by {
        assert(views(list@)[i] == list@[i]@);
    }
}

/// What is known of settings is what they say, each under its own name.
pub proof fn law_settings_are_what_they_say(settings: Settings)
    ensures
        settings@.cursor_width == settings.cursor_width,
        settings@.auto_start == settings.auto_start,
        settings@.tap_sound_enabled == settings.tap_sound_enabled,
        settings@.tap_sound_volume == settings.tap_sound_volume,
        settings@.hover_sound_enabled == settings.hover_sound_enabled,
        settings@.hover_sound_volume == settings.hover_sound_volume,
        settings@.hover_sound_as_resize_prompt == settings.hover_sound_as_resize_prompt,
        settings@.exclusions == settings.fullscreen_overlay_exclusions@,
        settings@.executables.len() == settings.fullscreen_overlay_exclusion_executables@.len(),
        forall|i: int|
            0 <= i < settings@.executables.len() ==> #[trigger] settings@.executables[i]
                == settings.fullscreen_overlay_exclusion_executables@[i]@,
{
}

/// Adding a program keeps every entry of the list where it is and adds at most one at its
/// end: the program as it was given, if and only if no entry is the same but for the case
/// of letters.
pub proof fn law_additions_go_to_the_end(list: Seq<Seq<char>>, name: Seq<char>)
    ensures
        ({
            let after = with_name(list, name);
            let there = exists|i: int|
                0 <= i < list.len() && text::same_ignoring_case(#[trigger] list[i], name);
            &&& forall|i: int| 0 <= i < list.len() ==> #[trigger] after[i] == list[i]
            &&& there ==> after.len() == list.len()
            &&& !there ==> after.len() == list.len() + 1 && after.last() == name
            &&& lists(list, name) <==> there
        }),
{
}

/// The names of the directories and of the file.
pub proof fn law_names_of_the_settings_file()
    ensures
        DIRECTORY@ == "Curosu"@,
        LEGACY_DIRECTORY@ == "OsuCursorRs"@,
        FILE_NAME@ == "settings.json"@,
{
}

} // verus!
