//! The configuration that the front end keeps between runs.

use crate::text::{join, decimal, decimal_chars, to_chars, to_text};
use vstd::prelude::*;

verus! {

/// The version of the configuration's format, which is part of its file's name.
pub const CONFIG_VERSION: usize = 1;

/// The colour theme of the front end.
#[derive(Debug, Clone, Copy, PartialEq, Eq, Structural)]
pub enum ApplicationTheme {
    Light,
    Dark,
    Dracula,
    Nord,
    SolarizedLight,
    SolarizedDark,
    GruvboxLight,
    GruvboxDark,
    CatppuccinLatte,
    CatppuccinFrappe,
    CatppuccinMacchiato,
    CatppuccinMocha,
    TokyoNight,
    TokyoNightStorm,
    TokyoNightLight,
    KanagawaWave,
    KanagawaDragon,
    KanagawaLotus,
    Moonfly,
    Nightfly,
    Oxocarbon,
    Ferra,
}

impl Default for ApplicationTheme {
    fn default() -> (theme: ApplicationTheme)
        ensures
            theme == ApplicationTheme::Light,
    {
        ApplicationTheme::Light
    }
}

impl ApplicationTheme {
    /// The name of the theme.
    pub open spec fn name_text(&self) -> Seq<char> {
        match self {
            ApplicationTheme::Light => "Light"@,
            ApplicationTheme::Dark => "Dark"@,
            ApplicationTheme::Dracula => "Dracula"@,
            ApplicationTheme::Nord => "Nord"@,
            ApplicationTheme::SolarizedLight => "SolarizedLight"@,
            ApplicationTheme::SolarizedDark => "SolarizedDark"@,
            ApplicationTheme::GruvboxLight => "GruvboxLight"@,
            ApplicationTheme::GruvboxDark => "GruvboxDark"@,
            ApplicationTheme::CatppuccinLatte => "CatppuccinLatte"@,
            ApplicationTheme::CatppuccinFrappe => "CatppuccinFrappe"@,
            ApplicationTheme::CatppuccinMacchiato => "CatppuccinMacchiato"@,
            ApplicationTheme::CatppuccinMocha => "CatppuccinMocha"@,
            ApplicationTheme::TokyoNight => "TokyoNight"@,
            ApplicationTheme::TokyoNightStorm => "TokyoNightStorm"@,
            ApplicationTheme::TokyoNightLight => "TokyoNightLight"@,
            ApplicationTheme::KanagawaWave => "KanagawaWave"@,
            ApplicationTheme::KanagawaDragon => "KanagawaDragon"@,
            ApplicationTheme::KanagawaLotus => "KanagawaLotus"@,
            ApplicationTheme::Moonfly => "Moonfly"@,
            ApplicationTheme::Nightfly => "Nightfly"@,
            ApplicationTheme::Oxocarbon => "Oxocarbon"@,
            ApplicationTheme::Ferra => "Ferra"@,
        }
    }

    /// The name of the theme.
    pub fn name(&self) -> (name: &'static str)
        ensures
            name@ == self.name_text(),
    {
        match self {
            ApplicationTheme::Light => "Light",
            ApplicationTheme::Dark => "Dark",
            ApplicationTheme::Dracula => "Dracula",
            ApplicationTheme::Nord => "Nord",
            ApplicationTheme::SolarizedLight => "SolarizedLight",
            ApplicationTheme::SolarizedDark => "SolarizedDark",
            ApplicationTheme::GruvboxLight => "GruvboxLight",
            ApplicationTheme::GruvboxDark => "GruvboxDark",
            ApplicationTheme::CatppuccinLatte => "CatppuccinLatte",
            ApplicationTheme::CatppuccinFrappe => "CatppuccinFrappe",
            ApplicationTheme::CatppuccinMacchiato => "CatppuccinMacchiato",
            ApplicationTheme::CatppuccinMocha => "CatppuccinMocha",
            ApplicationTheme::TokyoNight => "TokyoNight",
            ApplicationTheme::TokyoNightStorm => "TokyoNightStorm",
            ApplicationTheme::TokyoNightLight => "TokyoNightLight",
            ApplicationTheme::KanagawaWave => "KanagawaWave",
            ApplicationTheme::KanagawaDragon => "KanagawaDragon",
            ApplicationTheme::KanagawaLotus => "KanagawaLotus",
            ApplicationTheme::Moonfly => "Moonfly",
            ApplicationTheme::Nightfly => "Nightfly",
            ApplicationTheme::Oxocarbon => "Oxocarbon",
            ApplicationTheme::Ferra => "Ferra",
        }
    }

    /// Every theme, in the order of their declaration.
    pub fn all() -> (all: Vec<ApplicationTheme>)
        ensures
            all@ == seq![
                ApplicationTheme::Light,
                ApplicationTheme::Dark,
                ApplicationTheme::Dracula,
                ApplicationTheme::Nord,
                ApplicationTheme::SolarizedLight,
                ApplicationTheme::SolarizedDark,
                ApplicationTheme::GruvboxLight,
                ApplicationTheme::GruvboxDark,
                ApplicationTheme::CatppuccinLatte,
                ApplicationTheme::CatppuccinFrappe,
                ApplicationTheme::CatppuccinMacchiato,
                ApplicationTheme::CatppuccinMocha,
                ApplicationTheme::TokyoNight,
                ApplicationTheme::TokyoNightStorm,
                ApplicationTheme::TokyoNightLight,
                ApplicationTheme::KanagawaWave,
                ApplicationTheme::KanagawaDragon,
                ApplicationTheme::KanagawaLotus,
                ApplicationTheme::Moonfly,
                ApplicationTheme::Nightfly,
                ApplicationTheme::Oxocarbon,
                ApplicationTheme::Ferra,
            ],
    {
        let mut all: Vec<ApplicationTheme> = Vec::new();
        all.push(ApplicationTheme::Light);
        all.push(ApplicationTheme::Dark);
        all.push(ApplicationTheme::Dracula);
        all.push(ApplicationTheme::Nord);
        all.push(ApplicationTheme::SolarizedLight);
        all.push(ApplicationTheme::SolarizedDark);
        all.push(ApplicationTheme::GruvboxLight);
        all.push(ApplicationTheme::GruvboxDark);
        all.push(ApplicationTheme::CatppuccinLatte);
        all.push(ApplicationTheme::CatppuccinFrappe);
        all.push(ApplicationTheme::CatppuccinMacchiato);
        all.push(ApplicationTheme::CatppuccinMocha);
        all.push(ApplicationTheme::TokyoNight);
        all.push(ApplicationTheme::TokyoNightStorm);
        all.push(ApplicationTheme::TokyoNightLight);
        all.push(ApplicationTheme::KanagawaWave);
        all.push(ApplicationTheme::KanagawaDragon);
        all.push(ApplicationTheme::KanagawaLotus);
        all.push(ApplicationTheme::Moonfly);
        all.push(ApplicationTheme::Nightfly);
        all.push(ApplicationTheme::Oxocarbon);
        all.push(ApplicationTheme::Ferra);
        proof {
            assert(all@ =~= seq![
                ApplicationTheme::Light,
                ApplicationTheme::Dark,
                ApplicationTheme::Dracula,
                ApplicationTheme::Nord,
                ApplicationTheme::SolarizedLight,
                ApplicationTheme::SolarizedDark,
                ApplicationTheme::GruvboxLight,
                ApplicationTheme::GruvboxDark,
                ApplicationTheme::CatppuccinLatte,
                ApplicationTheme::CatppuccinFrappe,
                ApplicationTheme::CatppuccinMacchiato,
                ApplicationTheme::CatppuccinMocha,
                ApplicationTheme::TokyoNight,
                ApplicationTheme::TokyoNightStorm,
                ApplicationTheme::TokyoNightLight,
                ApplicationTheme::KanagawaWave,
                ApplicationTheme::KanagawaDragon,
                ApplicationTheme::KanagawaLotus,
                ApplicationTheme::Moonfly,
                ApplicationTheme::Nightfly,
                ApplicationTheme::Oxocarbon,
                ApplicationTheme::Ferra,
            ]);
        }
        all
    }
}

/// The configuration: the selected theme.
#[derive(Debug, Clone, Copy, PartialEq, Eq, Structural)]
pub struct Config {
    pub theme: ApplicationTheme,
}

impl Default for Config {
    fn default() -> (config: Config)
        ensures
            config.theme == ApplicationTheme::Light,
    {
        Config { theme: ApplicationTheme::Light }
    }
}

impl Config {
    /// The configuration to start with, `stored` being what the
    /// configuration file holds, if there is one, and whether that
    /// configuration is to be written: without a file the default
    /// configuration is taken and written.
    pub fn load(stored: Option<Config>) -> (r: (Config, bool))
        ensures
            r.0 == match stored {
                Some(config) => config,
                None => Config { theme: ApplicationTheme::Light },
            },
            r.1 == (stored is None),
    {
        match stored {
            Some(config) => (config, false),
            None => (Config { theme: ApplicationTheme::Light }, true),
        }
    }

    /// The name of the file that holds the configuration: `config_v`, the
    /// version of the format, and `.ron`.
    pub open spec fn file_name_text() -> Seq<char> {
        "config_v"@ + decimal(CONFIG_VERSION as nat) + ".ron"@
    }

    /// The name of the file that holds the configuration, within the
    /// front end's own configuration directory.
    pub fn file_name() -> (name: String)
        ensures
            name@ == Config::file_name_text(),
    {
        let stem: Vec<char> = join(&to_chars("config_v"), &decimal_chars(CONFIG_VERSION));
        to_text(&join(&stem, &to_chars(".ron")))
    }
}

} // verus!
