//! Game configuration: mode, map and match settings.

use vstd::prelude::*;

verus! {

/// Available game modes.
#[derive(Clone, Copy, PartialEq, Eq, Structural, Debug)]
pub enum GameMode {
    Freemode,
}

impl Default for GameMode {
    fn default() -> (mode: Self)
        ensures
            mode == GameMode::Freemode,
    {
        GameMode::Freemode
    }
}

impl GameMode {
    /// Display name of the mode.
    pub open spec fn spec_name(&self) -> Seq<char> {
        match self {
            GameMode::Freemode => "Freemode"@,
        }
    }

    /// Display name of the mode.
    pub fn name(&self) -> (name: &'static str)
        ensures
            name@ == self.spec_name(),
    {
        match self {
            GameMode::Freemode => "Freemode",
        }
    }

    /// Every game mode, in menu order.
    pub open spec fn spec_all() -> Seq<GameMode> {
        seq![GameMode::Freemode]
    }

    /// Every game mode, in menu order.
    pub fn all() -> (modes: &'static [GameMode])
        ensures
            modes@ == Self::spec_all(),
    {
        &[GameMode::Freemode]
    }

    /// The maps this mode can be played on, in menu order.
    pub open spec fn spec_maps(&self) -> Seq<MapId> {
        match self {
            GameMode::Freemode => seq![MapId::Default],
        }
    }

    /// The maps this mode can be played on, in menu order.
    pub fn maps(&self) -> (maps: &'static [MapId])
        ensures
            maps@ == self.spec_maps(),
    {
        match self {
            GameMode::Freemode => &[MapId::Default],
        }
    }
}

/// Available maps.
#[derive(Clone, Copy, PartialEq, Eq, Structural, Debug)]
pub enum MapId {
    Default,
}

impl Default for MapId {
    fn default() -> (map: Self)
        ensures
            map == MapId::Default,
    {
        MapId::Default
    }
}

impl MapId {
    /// Display name of the map.
    pub open spec fn spec_name(&self) -> Seq<char> {
        match self {
            MapId::Default => "Default"@,
        }
    }

    /// Display name of the map.
    pub fn name(&self) -> (name: &'static str)
        ensures
            name@ == self.spec_name(),
    {
        match self {
            MapId::Default => "Default",
        }
    }

    /// Title of the map on its card in the map grid.
    pub open spec fn spec_title(&self) -> Seq<char> {
        match self {
            MapId::Default => "Default Arena"@,
        }
    }

    /// Title of the map on its card in the map grid.
    pub fn title(&self) -> (title: &'static str)
        ensures
            title@ == self.spec_title(),
    {
        match self {
            MapId::Default => "Default Arena",
        }
    }
}

/// Match-specific settings.
#[derive(Clone, Copy, PartialEq, Eq, Debug)]
pub struct MatchSettings {
    /// Length of the match in milliseconds; `None` for no limit.
    pub time_limit: Option<u64>,
    /// Score that ends the match; `None` for no limit.
    pub score_limit: Option<u32>,
    /// Milliseconds before a player respawns; zero for at once.
    pub respawn_time: u64,
}

impl Default for MatchSettings {
    /// No time limit, no score limit, instant respawn.
    fn default() -> (settings: Self)
        ensures
            settings == (MatchSettings { time_limit: None, score_limit: None, respawn_time: 0 }),
    {
        MatchSettings { time_limit: None, score_limit: None, respawn_time: 0 }
    }
}

/// The game's configuration.
#[derive(Clone, Copy, PartialEq, Eq, Debug)]
pub struct GameConfig {
    pub mode: GameMode,
    pub map: MapId,
    pub match_settings: MatchSettings,
}

impl Default for GameConfig {
    /// Free mode on the default map with default match settings.
    fn default() -> (config: Self)
        ensures
            config == (GameConfig {
                mode: GameMode::Freemode,
                map: MapId::Default,
                match_settings: MatchSettings {
                    time_limit: None,
                    score_limit: None,
                    respawn_time: 0,
                },
            }),
    {
        GameConfig {
            mode: GameMode::default(),
            map: MapId::default(),
            match_settings: MatchSettings::default(),
        }
    }
}

} // verus!
