//! The settings overlay: a short list of settings, two of which open a
//! nested selection list.

use vstd::prelude::*;

use vstd::string::StringExecFns;

use crate::config::ColorTheme;
use crate::config::DateFormat;
use crate::events::Key;
use crate::multi_select::MultiSelect;

verus! {

/// One entry of the settings list, holding its current value.
#[derive(Debug, Clone, Copy)]
pub enum SettingItem {
    Theme(ColorTheme),
    DateFormat(DateFormat),
    VimMode(bool),
    CompactMode(bool),
}

impl SettingItem {
    /// The line shown for this entry.
    pub fn display(&self) -> (r: String)
        ensures
            match self {
                SettingItem::Theme(_) => r@.len() > 0,
                SettingItem::DateFormat(_) => r@.len() > 0,
                SettingItem::VimMode(e) => r@ == (if *e {
                    "Vim Mode: Enabled"@
                } else {
                    "Vim Mode: Disabled"@
                }),
                SettingItem::CompactMode(e) => r@ == (if *e {
                    "Compact Mode: Enabled"@
                } else {
                    "Compact Mode: Disabled"@
                }),
            },
    {
        match self {
            SettingItem::Theme(theme) => {
                let mut m = String::from_str("Theme: ");
                m.append(theme.name());
                proof {
                    reveal_strlit("Theme: ");
                }
                m
            },
            SettingItem::DateFormat(format) => {
                let mut m = String::from_str("Date Format: ");
                m.append(format.name());
                proof {
                    reveal_strlit("Date Format: ");
                }
                m
            },
            SettingItem::VimMode(enabled) => if *enabled {
                String::from_str("Vim Mode: Enabled")
            } else {
                String::from_str("Vim Mode: Disabled")
            },
            SettingItem::CompactMode(enabled) => if *enabled {
                String::from_str("Compact Mode: Enabled")
            } else {
                String::from_str("Compact Mode: Disabled")
            },
        }
    }
}

/// The first theme entry's value, scanning the list; the default theme when
/// there is none.
pub open spec fn spec_theme_of(s: Seq<SettingItem>) -> ColorTheme
    decreases s.len(),
{
    if s.len() == 0 {
        ColorTheme::CatppuccinMocha
    } else if s[0] is Theme {
        s[0]->Theme_0
    } else {
        spec_theme_of(s.drop_first())
    }
}

/// The first date-format entry's value; the default format when none.
pub open spec fn spec_date_format_of(s: Seq<SettingItem>) -> DateFormat
    decreases s.len(),
{
    if s.len() == 0 {
        DateFormat::AmPm12Hour
    } else if s[0] is DateFormat {
        s[0]->DateFormat_0
    } else {
        spec_date_format_of(s.drop_first())
    }
}

/// The first vim-mode entry's value; off when none.
pub open spec fn spec_vim_mode_of(s: Seq<SettingItem>) -> bool
    decreases s.len(),
{
    if s.len() == 0 {
        false
    } else if s[0] is VimMode {
        s[0]->VimMode_0
    } else {
        spec_vim_mode_of(s.drop_first())
    }
}

/// The first compact-mode entry's value; off when none.
pub open spec fn spec_compact_mode_of(s: Seq<SettingItem>) -> bool
    decreases s.len(),
{
    if s.len() == 0 {
        false
    } else if s[0] is CompactMode {
        s[0]->CompactMode_0
    } else {
        spec_compact_mode_of(s.drop_first())
    }
}

/// The settings overlay's state.
pub struct SettingsModal {
    pub active: bool,
    pub selected_index: usize,
    pub settings: Vec<SettingItem>,
    pub theme_selector: MultiSelect<ColorTheme>,
    pub date_format_selector: MultiSelect<DateFormat>,
    pub multi_select_active: bool,
}

impl SettingsModal {
    /// Well-formedness: four settings, the selection inside them, and well
    /// formed nested selectors.
    pub open spec fn wf(self) -> bool {
        &&& self.settings@.len() == 4
        &&& self.selected_index < 4
        &&& self.theme_selector.wf()
        &&& self.date_format_selector.wf()
    }

    /// The list a fresh or reopened modal holds for given values.
    pub open spec fn spec_items(
        theme: ColorTheme,
        date_format: DateFormat,
        vim_mode: bool,
        compact_mode: bool,
    ) -> Seq<SettingItem> {
        seq![
            SettingItem::Theme(theme),
            SettingItem::DateFormat(date_format),
            SettingItem::VimMode(vim_mode),
            SettingItem::CompactMode(compact_mode),
        ]
    }

    /// A closed settings modal holding the defaults.
    pub fn new() -> (r: SettingsModal)
        ensures
            r.wf(),
            !r.active,
            r.selected_index == 0,
            !r.multi_select_active,
            r.settings@ =~= SettingsModal::spec_items(
                ColorTheme::CatppuccinMocha,
                DateFormat::AmPm12Hour,
                false,
                false,
            ),
    {
        let default_theme = ColorTheme::CatppuccinMocha;
        let default_date_format = DateFormat::AmPm12Hour;
        let mut settings: Vec<SettingItem> = Vec::new();
        settings.push(SettingItem::Theme(default_theme));
        settings.push(SettingItem::DateFormat(default_date_format));
        settings.push(SettingItem::VimMode(false));
        settings.push(SettingItem::CompactMode(false));
        SettingsModal {
            active: false,
            selected_index: 0,
            settings,
            theme_selector: MultiSelect::new(String::from_str("Select Theme"), default_theme),
            date_format_selector: MultiSelect::new(
                String::from_str("Select Date Format"),
                default_date_format,
            ),
            multi_select_active: false,
        }
    }

    /// Opens the modal on the configuration's current values, selection at
    /// the top, no nested selector showing.
    pub fn open(
        &mut self,
        current_theme: &ColorTheme,
        date_format: &DateFormat,
        vim_mode: bool,
        compact_mode: bool,
    )
        ensures
            final(self).wf(),
            final(self).active,
            final(self).selected_index == 0,
            !final(self).multi_select_active,
            final(self).settings@ =~= SettingsModal::spec_items(
                *current_theme,
                *date_format,
                vim_mode,
                compact_mode,
            ),
    {
        self.active = true;
        self.selected_index = 0;
        self.multi_select_active = false;
        let mut settings: Vec<SettingItem> = Vec::new();
        settings.push(SettingItem::Theme(*current_theme));
        settings.push(SettingItem::DateFormat(*date_format));
        settings.push(SettingItem::VimMode(vim_mode));
        settings.push(SettingItem::CompactMode(compact_mode));
        self.settings = settings;
        self.theme_selector = MultiSelect::new(String::from_str("Select Theme"), *current_theme);
        self.date_format_selector = MultiSelect::new(
            String::from_str("Select Date Format"),
            *date_format,
        );
    }

    /// Closes the modal and any nested selector.
    pub fn close(&mut self)
        requires
            old(self).wf(),
        ensures
            final(self).wf(),
            !final(self).active,
            !final(self).multi_select_active,
            !final(self).theme_selector.active,
            !final(self).date_format_selector.active,
            final(self).theme_selector.items == old(self).theme_selector.items,
            final(self).theme_selector.current_value == old(self).theme_selector.current_value,
            final(self).date_format_selector.items == old(self).date_format_selector.items,
            final(self).date_format_selector.current_value == old(
                self,
            ).date_format_selector.current_value,
            final(self).settings == old(self).settings,
            final(self).selected_index == old(self).selected_index,
    {
        self.active = false;
        self.multi_select_active = false;
        self.theme_selector.close();
        self.date_format_selector.close();
    }

    /// Moves the selection down one entry, wrapping at the bottom.
    pub fn next_item(&mut self)
        requires
            old(self).wf(),
        ensures
            final(self).wf(),
            final(self).selected_index == (old(self).selected_index + 1) as int % 4,
            final(self).settings == old(self).settings,
            final(self).active == old(self).active,
            final(self).multi_select_active == old(self).multi_select_active,
    {
        self.selected_index = (self.selected_index + 1) % self.settings.len();
    }

    /// Moves the selection up one entry, wrapping at the top.
    pub fn previous_item(&mut self)
        requires
            old(self).wf(),
        ensures
            final(self).wf(),
            final(self).selected_index == (if old(self).selected_index == 0 {
                3int
            } else {
                old(self).selected_index - 1
            }),
            final(self).settings == old(self).settings,
            final(self).active == old(self).active,
            final(self).multi_select_active == old(self).multi_select_active,
    {
        self.selected_index = if self.selected_index == 0 {
            self.settings.len() - 1
        } else {
            self.selected_index - 1
        };
    }

    /// Acts on the selected entry: the theme and date-format entries open
    /// their selection list; the boolean entries toggle in place.
    pub fn toggle_selected(&mut self)
        requires
            old(self).wf(),
        ensures
            final(self).wf(),
            final(self).active == old(self).active,
            final(self).selected_index == old(self).selected_index,
            match old(self).settings@[old(self).selected_index as int] {
                SettingItem::Theme(_) => final(self).multi_select_active && final(self).settings
                    == old(self).settings && final(self).theme_selector.active,
                SettingItem::DateFormat(_) => final(self).multi_select_active && final(self).settings == old(self).settings && final(self).date_format_selector.active,
                SettingItem::VimMode(b) => final(self).settings@ =~= old(self).settings@.update(
                    old(self).selected_index as int,
                    SettingItem::VimMode(!b),
                ) && final(self).multi_select_active == old(self).multi_select_active,
                SettingItem::CompactMode(b) => final(self).settings@ =~= old(self).settings@.update(
                    old(self).selected_index as int,
                    SettingItem::CompactMode(!b),
                ) && final(self).multi_select_active == old(self).multi_select_active,
            },
    {
        let item = self.settings[self.selected_index];
        match item {
            SettingItem::Theme(_) => {
                self.multi_select_active = true;
                self.theme_selector.open();
            },
            SettingItem::DateFormat(_) => {
                self.multi_select_active = true;
                self.date_format_selector.open();
            },
            SettingItem::VimMode(enabled) => {
                self.settings.set(self.selected_index, SettingItem::VimMode(!enabled));
            },
            SettingItem::CompactMode(enabled) => {
                self.settings.set(self.selected_index, SettingItem::CompactMode(!enabled));
            },
        }
    }

    /// One key for the nested selection list, when it is showing: Escape
    /// cancels it, Enter takes its value into the settings list, and the
    /// navigation keys move inside it. Returns whether the key was consumed.
    pub fn handle_multi_select_input(&mut self, key: Key) -> (consumed: bool)
        requires
            old(self).wf(),
        ensures
            final(self).wf(),
            final(self).active == old(self).active,
            final(self).selected_index == old(self).selected_index,
            !old(self).multi_select_active ==> *final(self) == *old(self) && !consumed,
            old(self).multi_select_active ==> match key {
                Key::Esc => consumed && !final(self).multi_select_active && final(self).settings
                    == old(self).settings,
                Key::Enter => consumed && !final(self).multi_select_active && (if old(self).theme_selector.active && old(self).theme_selector.items@.len() > 0 {
                    final(self).settings@ =~= old(self).settings@.update(
                        old(self).selected_index as int,
                        SettingItem::Theme(
                            old(self).theme_selector.items@[old(self).theme_selector.selected_index as int],
                        ),
                    )
                } else if !old(self).theme_selector.active && old(self).date_format_selector.active && old(self).date_format_selector.items@.len() > 0 {
                    final(self).settings@ =~= old(self).settings@.update(
                        old(self).selected_index as int,
                        SettingItem::DateFormat(
                            old(self).date_format_selector.items@[old(self).date_format_selector.selected_index as int],
                        ),
                    )
                } else {
                    true
                }),
                Key::Up => consumed && final(self).settings == old(self).settings,
                Key::Down => consumed && final(self).settings == old(self).settings,
                Key::Tab => consumed && final(self).settings == old(self).settings,
                Key::BackTab => consumed && final(self).settings == old(self).settings,
                Key::Char(c) => if c == 'k' || c == 'j' {
                    consumed && final(self).settings == old(self).settings
                } else {
                    *final(self) == *old(self) && !consumed
                },
                _ => *final(self) == *old(self) && !consumed,
            },
    {
        if !self.multi_select_active {
            return false;
        }
        match key {
            Key::Esc => {
                self.multi_select_active = false;
                self.theme_selector.close();
                self.date_format_selector.close();
                true
            },
            Key::Enter => {
                if self.theme_selector.active {
                    let new_theme = self.theme_selector.select_current();
                    self.settings.set(self.selected_index, SettingItem::Theme(new_theme));
                } else if self.date_format_selector.active {
                    let new_format = self.date_format_selector.select_current();
                    self.settings.set(self.selected_index, SettingItem::DateFormat(new_format));
                }
                self.multi_select_active = false;
                true
            },
            Key::Up => {
                if self.theme_selector.active {
                    self.theme_selector.previous_item();
                } else if self.date_format_selector.active {
                    self.date_format_selector.previous_item();
                }
                true
            },
            Key::Down => {
                if self.theme_selector.active {
                    self.theme_selector.next_item();
                } else if self.date_format_selector.active {
                    self.date_format_selector.next_item();
                }
                true
            },
            Key::Char(c) => {
                if c == 'k' {
                    if self.theme_selector.active {
                        self.theme_selector.previous_item();
                    } else if self.date_format_selector.active {
                        self.date_format_selector.previous_item();
                    }
                    true
                } else if c == 'j' {
                    if self.theme_selector.active {
                        self.theme_selector.next_item();
                    } else if self.date_format_selector.active {
                        self.date_format_selector.next_item();
                    }
                    true
                } else {
                    false
                }
            },
            Key::Tab => {
                if self.theme_selector.active {
                    self.theme_selector.next_item();
                } else if self.date_format_selector.active {
                    self.date_format_selector.next_item();
                }
                true
            },
            Key::BackTab => {
                if self.theme_selector.active {
                    self.theme_selector.previous_item();
                } else if self.date_format_selector.active {
                    self.date_format_selector.previous_item();
                }
                true
            },
            _ => false,
        }
    }

    /// The theme held by the settings list; see `spec_theme_of`.
    pub fn get_theme(&self) -> (r: ColorTheme)
        ensures
            r == spec_theme_of(self.settings@),
    {
        let mut i: usize = 0;
        assert(self.settings@.skip(0) =~= self.settings@);
        while i < self.settings.len()
            invariant
                i <= self.settings@.len(),
                spec_theme_of(self.settings@.skip(i as int)) == spec_theme_of(self.settings@),
            decreases self.settings@.len() - i,
        {
            let item = self.settings[i];
            if let SettingItem::Theme(theme) = item {
                proof {
                    assert(self.settings@.skip(i as int)[0] == item);
                }
                return theme;
            }
            proof {
                assert(self.settings@.skip(i as int).drop_first() =~= self.settings@.skip(
                    i + 1 as int,
                ));
            }
            i = i + 1;
        }
        ColorTheme::CatppuccinMocha
    }

    /// The vim-mode flag held by the settings list; see `spec_vim_mode_of`.
    pub fn get_vim_mode(&self) -> (r: bool)
        ensures
            r == spec_vim_mode_of(self.settings@),
    {
        let mut i: usize = 0;
        assert(self.settings@.skip(0) =~= self.settings@);
        while i < self.settings.len()
            invariant
                i <= self.settings@.len(),
                spec_vim_mode_of(self.settings@.skip(i as int)) == spec_vim_mode_of(
                    self.settings@,
                ),
            decreases self.settings@.len() - i,
        {
            let item = self.settings[i];
            if let SettingItem::VimMode(enabled) = item {
                proof {
                    assert(self.settings@.skip(i as int)[0] == item);
                }
                return enabled;
            }
            proof {
                assert(self.settings@.skip(i as int).drop_first() =~= self.settings@.skip(
                    i + 1 as int,
                ));
            }
            i = i + 1;
        }
        false
    }

    /// The date format held by the settings list; see `spec_date_format_of`.
    pub fn get_date_format(&self) -> (r: DateFormat)
        ensures
            r == spec_date_format_of(self.settings@),
    {
        let mut i: usize = 0;
        assert(self.settings@.skip(0) =~= self.settings@);
        while i < self.settings.len()
            invariant
                i <= self.settings@.len(),
                spec_date_format_of(self.settings@.skip(i as int)) == spec_date_format_of(
                    self.settings@,
                ),
            decreases self.settings@.len() - i,
        {
            let item = self.settings[i];
            if let SettingItem::DateFormat(format) = item {
                proof {
                    assert(self.settings@.skip(i as int)[0] == item);
                }
                return format;
            }
            proof {
                assert(self.settings@.skip(i as int).drop_first() =~= self.settings@.skip(
                    i + 1 as int,
                ));
            }
            i = i + 1;
        }
        DateFormat::AmPm12Hour
    }

    /// The compact-mode flag held by the settings list; see
    /// `spec_compact_mode_of`.
    pub fn get_compact_mode(&self) -> (r: bool)
        ensures
            r == spec_compact_mode_of(self.settings@),
    {
        let mut i: usize = 0;
        assert(self.settings@.skip(0) =~= self.settings@);
        while i < self.settings.len()
            invariant
                i <= self.settings@.len(),
                spec_compact_mode_of(self.settings@.skip(i as int)) == spec_compact_mode_of(
                    self.settings@,
                ),
            decreases self.settings@.len() - i,
        {
            let item = self.settings[i];
            if let SettingItem::CompactMode(enabled) = item {
                proof {
                    assert(self.settings@.skip(i as int)[0] == item);
                }
                return enabled;
            }
            proof {
                assert(self.settings@.skip(i as int).drop_first() =~= self.settings@.skip(
                    i + 1 as int,
                ));
            }
            i = i + 1;
        }
        false
    }
}

} // verus!
