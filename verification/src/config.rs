//! The configuration model: date format, color theme, and UI settings.

use vstd::prelude::*;

use crate::multi_select::MultiSelectItem;

verus! {

/// How timestamps are displayed.
#[derive(Debug, Clone, Copy, PartialEq, Eq, Structural)]
pub enum DateFormat {
    AmPm12Hour,
    AmPm12HourWithYear,
    Hour24,
    Hour24WithYear,
    Iso8601,
    Relative,
}

impl Default for DateFormat {
    /// The default format: 12-hour without year.
    fn default() -> (r: Self)
        ensures
            r is AmPm12Hour,
    {
        DateFormat::AmPm12Hour
    }
}

impl DateFormat {
    /// The label shown for this format.
    pub fn name(&self) -> (r: &'static str)
        ensures
            match self {
                DateFormat::AmPm12Hour => r@ == "12-hour (Dec 15 2:33 pm)"@,
                DateFormat::AmPm12HourWithYear => r@ == "12-hour + Year (Dec 15 2024 2:33 pm)"@,
                DateFormat::Hour24 => r@ == "24-hour (Dec 15 14:33)"@,
                DateFormat::Hour24WithYear => r@ == "24-hour + Year (Dec 15 2024 14:33)"@,
                DateFormat::Iso8601 => r@ == "ISO 8601 (2024-12-15 14:33)"@,
                DateFormat::Relative => r@ == "Relative (2 hours ago)"@,
            },
    {
        match self {
            DateFormat::AmPm12Hour => "12-hour (Dec 15 2:33 pm)",
            DateFormat::AmPm12HourWithYear => "12-hour + Year (Dec 15 2024 2:33 pm)",
            DateFormat::Hour24 => "24-hour (Dec 15 14:33)",
            DateFormat::Hour24WithYear => "24-hour + Year (Dec 15 2024 14:33)",
            DateFormat::Iso8601 => "ISO 8601 (2024-12-15 14:33)",
            DateFormat::Relative => "Relative (2 hours ago)",
        }
    }

    /// Every format, in display order.
    pub fn all() -> (r: Vec<DateFormat>)
        ensures
            r@ =~= seq![
                DateFormat::AmPm12Hour,
                DateFormat::AmPm12HourWithYear,
                DateFormat::Hour24,
                DateFormat::Hour24WithYear,
                DateFormat::Iso8601,
                DateFormat::Relative,
            ],
    {
        let mut r: Vec<DateFormat> = Vec::new();
        r.push(DateFormat::AmPm12Hour);
        r.push(DateFormat::AmPm12HourWithYear);
        r.push(DateFormat::Hour24);
        r.push(DateFormat::Hour24WithYear);
        r.push(DateFormat::Iso8601);
        r.push(DateFormat::Relative);
        r
    }
}

impl MultiSelectItem for DateFormat {
    open spec fn spec_name(&self) -> Seq<char> {
        match self {
            DateFormat::AmPm12Hour => "12-hour (Dec 15 2:33 pm)"@,
            DateFormat::AmPm12HourWithYear => "12-hour + Year (Dec 15 2024 2:33 pm)"@,
            DateFormat::Hour24 => "24-hour (Dec 15 14:33)"@,
            DateFormat::Hour24WithYear => "24-hour + Year (Dec 15 2024 14:33)"@,
            DateFormat::Iso8601 => "ISO 8601 (2024-12-15 14:33)"@,
            DateFormat::Relative => "Relative (2 hours ago)"@,
        }
    }

    open spec fn spec_all() -> Seq<DateFormat> {
        seq![
            DateFormat::AmPm12Hour,
            DateFormat::AmPm12HourWithYear,
            DateFormat::Hour24,
            DateFormat::Hour24WithYear,
            DateFormat::Iso8601,
            DateFormat::Relative,
        ]
    }

    fn name(&self) -> &'static str {
        DateFormat::name(self)
    }

    fn all() -> Vec<DateFormat> {
        let r = DateFormat::all();
        proof {
            assert(r@ =~= Self::spec_all());
        }
        r
    }
}

/// The color themes on offer.
#[derive(Debug, Clone, Copy, PartialEq, Eq, Structural)]
pub enum ColorTheme {
    CatppuccinMocha,
    TokyoNight,
    OneDark,
    GruvboxDark,
    Nord,
    Monokai,
    SolarizedDark,
    Dracula,
}

impl Default for ColorTheme {
    /// The default theme.
    fn default() -> (r: Self)
        ensures
            r is CatppuccinMocha,
    {
        ColorTheme::CatppuccinMocha
    }
}

impl ColorTheme {
    /// The label shown for this theme.
    pub fn name(&self) -> (r: &'static str)
        ensures
            match self {
                ColorTheme::CatppuccinMocha => r@ == "Catppuccin Mocha"@,
                ColorTheme::TokyoNight => r@ == "Tokyo Night"@,
                ColorTheme::OneDark => r@ == "One Dark"@,
                ColorTheme::GruvboxDark => r@ == "Gruvbox Dark"@,
                ColorTheme::Nord => r@ == "Nord"@,
                ColorTheme::Monokai => r@ == "Monokai"@,
                ColorTheme::SolarizedDark => r@ == "Solarized Dark"@,
                ColorTheme::Dracula => r@ == "Dracula"@,
            },
    {
        match self {
            ColorTheme::CatppuccinMocha => "Catppuccin Mocha",
            ColorTheme::TokyoNight => "Tokyo Night",
            ColorTheme::OneDark => "One Dark",
            ColorTheme::GruvboxDark => "Gruvbox Dark",
            ColorTheme::Nord => "Nord",
            ColorTheme::Monokai => "Monokai",
            ColorTheme::SolarizedDark => "Solarized Dark",
            ColorTheme::Dracula => "Dracula",
        }
    }

    /// Every theme, in display order.
    pub fn all() -> (r: Vec<ColorTheme>)
        ensures
            r@ =~= seq![
                ColorTheme::CatppuccinMocha,
                ColorTheme::TokyoNight,
                ColorTheme::OneDark,
                ColorTheme::GruvboxDark,
                ColorTheme::Nord,
                ColorTheme::Monokai,
                ColorTheme::SolarizedDark,
                ColorTheme::Dracula,
            ],
    {
        let mut r: Vec<ColorTheme> = Vec::new();
        r.push(ColorTheme::CatppuccinMocha);
        r.push(ColorTheme::TokyoNight);
        r.push(ColorTheme::OneDark);
        r.push(ColorTheme::GruvboxDark);
        r.push(ColorTheme::Nord);
        r.push(ColorTheme::Monokai);
        r.push(ColorTheme::SolarizedDark);
        r.push(ColorTheme::Dracula);
        r
    }

    /// The theme after this one, cycling through all of them.
    pub open spec fn spec_next(self) -> ColorTheme {
        match self {
            ColorTheme::CatppuccinMocha => ColorTheme::TokyoNight,
            ColorTheme::TokyoNight => ColorTheme::OneDark,
            ColorTheme::OneDark => ColorTheme::GruvboxDark,
            ColorTheme::GruvboxDark => ColorTheme::Nord,
            ColorTheme::Nord => ColorTheme::Monokai,
            ColorTheme::Monokai => ColorTheme::SolarizedDark,
            ColorTheme::SolarizedDark => ColorTheme::Dracula,
            ColorTheme::Dracula => ColorTheme::CatppuccinMocha,
        }
    }

    /// Cycles to the next theme; see `spec_next`.
    pub fn next(&self) -> (r: ColorTheme)
        ensures
            r == self.spec_next(),
    {
        match self {
            ColorTheme::CatppuccinMocha => ColorTheme::TokyoNight,
            ColorTheme::TokyoNight => ColorTheme::OneDark,
            ColorTheme::OneDark => ColorTheme::GruvboxDark,
            ColorTheme::GruvboxDark => ColorTheme::Nord,
            ColorTheme::Nord => ColorTheme::Monokai,
            ColorTheme::Monokai => ColorTheme::SolarizedDark,
            ColorTheme::SolarizedDark => ColorTheme::Dracula,
            ColorTheme::Dracula => ColorTheme::CatppuccinMocha,
        }
    }
}

impl MultiSelectItem for ColorTheme {
    open spec fn spec_name(&self) -> Seq<char> {
        match self {
            ColorTheme::CatppuccinMocha => "Catppuccin Mocha"@,
            ColorTheme::TokyoNight => "Tokyo Night"@,
            ColorTheme::OneDark => "One Dark"@,
            ColorTheme::GruvboxDark => "Gruvbox Dark"@,
            ColorTheme::Nord => "Nord"@,
            ColorTheme::Monokai => "Monokai"@,
            ColorTheme::SolarizedDark => "Solarized Dark"@,
            ColorTheme::Dracula => "Dracula"@,
        }
    }

    open spec fn spec_all() -> Seq<ColorTheme> {
        seq![
            ColorTheme::CatppuccinMocha,
            ColorTheme::TokyoNight,
            ColorTheme::OneDark,
            ColorTheme::GruvboxDark,
            ColorTheme::Nord,
            ColorTheme::Monokai,
            ColorTheme::SolarizedDark,
            ColorTheme::Dracula,
        ]
    }

    fn name(&self) -> &'static str {
        ColorTheme::name(self)
    }

    fn all() -> Vec<ColorTheme> {
        let r = ColorTheme::all();
        proof {
            assert(r@ =~= Self::spec_all());
        }
        r
    }
}

/// The user-interface settings the application persists.
#[derive(Debug, Clone, Copy, PartialEq, Eq, Structural)]
pub struct UISettings {
    pub show_completed_count: bool,
    pub auto_expand_descriptions: bool,
    pub compact_mode: bool,
    pub status_bar_visible: bool,
    pub split_ratio: u16,
    pub vim_mode: bool,
    pub date_format: DateFormat,
}

impl Default for UISettings {
    /// The defaults: completed count shown, nothing auto-expanded, an even
    /// split, vim mode off.
    fn default() -> (r: Self)
        ensures
            r.show_completed_count,
            !r.auto_expand_descriptions,
            !r.compact_mode,
            r.status_bar_visible,
            r.split_ratio == 50,
            !r.vim_mode,
            r.date_format is AmPm12Hour,
    {
        UISettings {
            show_completed_count: true,
            auto_expand_descriptions: false,
            compact_mode: false,
            status_bar_visible: true,
            split_ratio: 50,
            vim_mode: false,
            date_format: DateFormat::AmPm12Hour,
        }
    }
}

/// The whole persisted configuration: the theme and the UI settings.
#[derive(Debug, Clone, Copy, PartialEq, Eq, Structural)]
pub struct AppConfig {
    pub theme: ColorTheme,
    pub ui: UISettings,
}

impl Default for AppConfig {
    /// The default theme with the default UI settings.
    fn default() -> (r: Self)
        ensures
            r.theme is CatppuccinMocha,
            r.ui.show_completed_count,
            !r.ui.auto_expand_descriptions,
            !r.ui.compact_mode,
            r.ui.status_bar_visible,
            r.ui.split_ratio == 50,
            !r.ui.vim_mode,
            r.ui.date_format is AmPm12Hour,
    {
        AppConfig { theme: ColorTheme::CatppuccinMocha, ui: UISettings::default() }
    }
}

} // verus!
