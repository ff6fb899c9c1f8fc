//! The in-game interface state: which tower type is selected for placement
//! and which screen the interface shows.
//!
//! The front end decodes pointer input into plain coordinates (in
//! milli-pixels) and hands them to `handle_click`, which makes every
//! decision: button hits on the bottom panel, tower placement on the
//! field, and the pause toggle.
use vstd::prelude::*;
use crate::game::{place_allowed, place_tower_model, toggled, Game, GameModel, GameState};
use crate::tower::TowerType;

verus! {

/// The field/panel boundary: clicks at or below this y lie on the panel.
pub const PANEL_TOP: i64 = 700_000;

/// The width of one panel button, in milli-pixels.
pub const BUTTON_WIDTH: i64 = 200_000;

#[derive(Clone, Copy, Debug, PartialEq, Eq, Structural)]
pub enum UiState {
    Main,
    TowerPlacement,
    GameOver,
    Victory,
}

#[derive(Clone, Copy, Debug)]
pub struct Gui {
    pub selected_tower: Option<TowerType>,
    pub ui_state: UiState,
}

/// The interface screen that a game state calls for: the two terminal
/// states force their screens, the others leave the screen alone.
pub open spec fn synced_ui(ui: Gui, state: GameState) -> Gui {
    match state {
        GameState::GameOver => Gui { ui_state: UiState::GameOver, ..ui },
        GameState::Victory => Gui { ui_state: UiState::Victory, ..ui },
        _ => ui,
    }
}

/// The decision a click makes, on both the interface and the game: panel
/// clicks pick a tower to place, cancel, or toggle the pause; a field
/// click in placement mode tries to buy the selected tower there.
pub open spec fn click_model(ui: Gui, g: GameModel, x: i64, y: i64) -> (Gui, GameModel) {
    if y >= PANEL_TOP {
        if x < BUTTON_WIDTH {
            (Gui { selected_tower: Some(TowerType::Basic), ui_state: UiState::TowerPlacement }, g)
        } else if x < 2 * BUTTON_WIDTH {
            (
                Gui { selected_tower: Some(TowerType::Advanced), ui_state: UiState::TowerPlacement },
                g,
            )
        } else if x < 4 * BUTTON_WIDTH {
            (Gui { selected_tower: None, ui_state: UiState::Main }, g)
        } else {
            (ui, GameModel { game_state: toggled(g.game_state), ..g })
        }
    } else if ui.ui_state is TowerPlacement && ui.selected_tower is Some {
        let tower_type = ui.selected_tower.unwrap();
        if place_allowed(g, tower_type, x, y) {
            (
                Gui { selected_tower: None, ui_state: UiState::Main },
                place_tower_model(g, tower_type, x, y),
            )
        } else {
            (ui, g)
        }
    } else {
        (ui, g)
    }
}

impl Gui {
    pub fn new() -> (ui: Gui)
        ensures
            ui == (Gui { selected_tower: None::<TowerType>, ui_state: UiState::Main }),
    {
        Gui { selected_tower: None, ui_state: UiState::Main }
    }

    /// Follow the game into its terminal screens.
    pub fn update(&mut self, state: &GameState)
        ensures
            *final(self) == synced_ui(*old(self), *state),
    {
        match state {
            GameState::GameOver => {
                self.ui_state = UiState::GameOver;
            }
            GameState::Victory => {
                self.ui_state = UiState::Victory;
            }
            _ => {}
        }
    }

    /// Decide one click at (x, y) in milli-pixels, exactly the transition
    /// `click_model`.
    pub fn handle_click(&mut self, game: &mut Game, x: i64, y: i64)
        requires
            old(game).wf(),
        ensures
            *final(self) == click_model(*old(self), old(game)@, x, y).0,
            final(game)@ == click_model(*old(self), old(game)@, x, y).1,
            final(game).wf(),
    {
        if y >= PANEL_TOP {
            if x < BUTTON_WIDTH {
                self.selected_tower = Some(TowerType::Basic);
                self.ui_state = UiState::TowerPlacement;
            } else if x < 2 * BUTTON_WIDTH {
                self.selected_tower = Some(TowerType::Advanced);
                self.ui_state = UiState::TowerPlacement;
            } else if x < 4 * BUTTON_WIDTH {
                // the upgrade and sell buttons only clear the selection here
                self.selected_tower = None;
                self.ui_state = UiState::Main;
            } else {
                game.toggle_pause();
                proof {
                    assert(game@ =~= click_model(*old(self), old(game)@, x, y).1);
                }
            }
        } else if matches!(self.ui_state, UiState::TowerPlacement) {
            if let Some(tower_type) = self.selected_tower {
                if game.place_tower(tower_type, x, y) {
                    self.selected_tower = None;
                    self.ui_state = UiState::Main;
                }
            }
        }
    }
}

} // verus!
