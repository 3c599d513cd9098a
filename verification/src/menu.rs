//! Main-menu state: the active tab, the chosen map and the loadout.

use vstd::prelude::*;
use crate::config::{GameConfig, MapId};
use crate::game_state::GameState;
use crate::skins::SkinId;

verus! {

/// Which menu tab is active.
#[derive(Clone, Copy, PartialEq, Eq, Structural, Debug, Hash)]
pub enum MenuTab {
    Home,
    Play,
    Inventory,
    Settings,
}

impl Default for MenuTab {
    fn default() -> (tab: Self)
        ensures
            tab == MenuTab::Home,
    {
        MenuTab::Home
    }
}

impl MenuTab {
    /// Whether this tab's page is on screen: the game is in the main menu
    /// and this is the active tab.
    pub open spec fn spec_is_shown(&self, game_state: GameState, active: MenuTab) -> bool {
        game_state == GameState::MainMenu && active == *self
    }

    /// Whether this tab's page is on screen.
    #[verifier::when_used_as_spec(spec_is_shown)]
    pub fn is_shown(&self, game_state: GameState, active: MenuTab) -> (shown: bool)
        ensures
            shown == self.spec_is_shown(game_state, active),
    {
        game_state == GameState::MainMenu && active == *self
    }

    /// At most one tab's page is on screen at a time.
    pub proof fn one_page_at_a_time(
        one: MenuTab,
        other: MenuTab,
        game_state: GameState,
        active: MenuTab,
    )
        requires
            one.spec_is_shown(game_state, active),
            other.spec_is_shown(game_state, active),
        ensures
            one == other,
    {
    }
}

/// How a menu button is drawn.
#[derive(Clone, Copy, PartialEq, Eq, Structural, Debug)]
pub enum ButtonLook {
    Normal,
    Hover,
    Selected,
}

impl ButtonLook {
    /// The look of a button: selected wins over hovered.
    pub open spec fn spec_of(hovered: bool, selected: bool) -> ButtonLook {
        if selected {
            ButtonLook::Selected
        } else if hovered {
            ButtonLook::Hover
        } else {
            ButtonLook::Normal
        }
    }

    /// The look of a button that is or is not under the cursor and does or
    /// does not stand for the current choice.
    #[verifier::when_used_as_spec(spec_of)]
    pub fn of(hovered: bool, selected: bool) -> (look: ButtonLook)
        ensures
            look == Self::spec_of(hovered, selected),
    {
        if selected {
            ButtonLook::Selected
        } else if hovered {
            ButtonLook::Hover
        } else {
            ButtonLook::Normal
        }
    }
}

/// The map chosen on the play tab, if any.
#[derive(Clone, Copy, PartialEq, Eq, Debug)]
pub struct SelectedMap {
    pub map: Option<MapId>,
    pub ready_to_start: bool,
}

impl Default for SelectedMap {
    /// No map chosen yet.
    fn default() -> (selected: Self)
        ensures
            selected == (SelectedMap { map: None, ready_to_start: false }),
    {
        SelectedMap { map: None, ready_to_start: false }
    }
}

impl SelectedMap {
    /// Records the choice of `map` and returns the tab to show next: the
    /// home tab, where the game is started.
    pub fn select(&mut self, map: MapId) -> (next: MenuTab)
        ensures
            *final(self) == (SelectedMap { map: Some(map), ready_to_start: true }),
            next == MenuTab::Home,
    {
        self.map = Some(map);
        self.ready_to_start = true;
        MenuTab::Home
    }

    /// Whether the start panel is on screen: on the home page, once a map
    /// is chosen.
    pub open spec fn spec_offers_start(&self, game_state: GameState, active: MenuTab) -> bool {
        MenuTab::Home.spec_is_shown(game_state, active) && self.map is Some
    }

    /// Whether the start panel is on screen.
    #[verifier::when_used_as_spec(spec_offers_start)]
    pub fn offers_start(&self, game_state: GameState, active: MenuTab) -> (offered: bool)
        ensures
            offered == self.spec_offers_start(game_state, active),
    {
        MenuTab::Home.is_shown(game_state, active) && self.map.is_some()
    }

    /// Starts the game on the chosen map: writes the map into `config` and
    /// returns the state to enter. Without a chosen map nothing changes
    /// and the result is `None`.
    pub fn start(&self, config: &mut GameConfig) -> (next: Option<GameState>)
        ensures
            match self.map {
                Some(map) => next == Some(GameState::Playing) && *final(config) == (GameConfig {
                    map,
                    ..*old(config)
                }),
                None => next is None && *final(config) == *old(config),
            },
    {
        match self.map {
            Some(map) => {
                config.map = map;
                Some(GameState::Playing)
            },
            None => None,
        }
    }
}

/// Weapons available for the loadout.
#[derive(Clone, Copy, PartialEq, Eq, Structural, Debug)]
pub enum WeaponId {
    AK47,
    M4A1,
    AWP,
}

impl WeaponId {
    /// Display name of the weapon.
    pub open spec fn spec_name(&self) -> Seq<char> {
        match self {
            WeaponId::AK47 => "AK-47"@,
            WeaponId::M4A1 => "M4A1"@,
            WeaponId::AWP => "AWP"@,
        }
    }

    /// Display name of the weapon.
    pub fn name(&self) -> (name: &'static str)
        ensures
            name@ == self.spec_name(),
    {
        match self {
            WeaponId::AK47 => "AK-47",
            WeaponId::M4A1 => "M4A1",
            WeaponId::AWP => "AWP",
        }
    }

    /// Every loadout weapon, in menu order.
    pub open spec fn spec_all() -> Seq<WeaponId> {
        seq![WeaponId::AK47, WeaponId::M4A1, WeaponId::AWP]
    }

    /// Every loadout weapon, in menu order.
    pub fn all() -> (weapons: Vec<WeaponId>)
        ensures
            weapons@ == Self::spec_all(),
    {
        vec![WeaponId::AK47, WeaponId::M4A1, WeaponId::AWP]
    }
}

/// The player's loadout.
#[derive(Clone, Copy, PartialEq, Eq, Debug)]
pub struct PlayerLoadout {
    pub primary_weapon: WeaponId,
    pub selected_skin: SkinId,
}

impl Default for PlayerLoadout {
    /// An AK-47 and the default skin.
    fn default() -> (loadout: Self)
        ensures
            loadout == (PlayerLoadout {
                primary_weapon: WeaponId::AK47,
                selected_skin: SkinId::Soldier,
            }),
    {
        PlayerLoadout { primary_weapon: WeaponId::AK47, selected_skin: SkinId::default() }
    }
}

} // verus!
