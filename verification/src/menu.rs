//! The pause menu: a list of options, a cursor, and the game settings the
//! options adjust.
//!
//! Settings are fixed-point integers: game speed in tenths (10 = normal
//! speed, clamped to 5..=20), volumes in percent (clamped to 0..=100,
//! stepped by five).
use vstd::prelude::*;

verus! {

pub const GAME_SPEED_MIN: u32 = 5;

pub const GAME_SPEED_MAX: u32 = 20;

pub const VOLUME_MAX: u32 = 100;

pub const VOLUME_STEP: u32 = 5;

#[derive(Clone, Copy, Debug, PartialEq, Eq, Structural)]
pub enum DifficultyLevel {
    Easy,
    Normal,
    Hard,
}

#[derive(Clone, Copy, Debug, PartialEq, Eq, Structural)]
pub enum MenuOption {
    Resume,
    /// Game speed in tenths of normal speed.
    GameSpeed(u32),
    Difficulty(DifficultyLevel),
    /// Volume in percent.
    SoundVolume(u32),
    MusicVolume(u32),
    QuitToMainMenu,
    ExitGame,
}

/// A key press, already decoded from whatever input device the front end
/// reads.
#[derive(Clone, Copy, Debug, PartialEq, Eq, Structural)]
pub enum MenuKey {
    Up,
    Down,
    Left,
    Right,
    Select,
    Back,
}

/// What the menu asks the surrounding program to do.
#[derive(Clone, Copy, Debug, PartialEq, Eq, Structural)]
pub enum MenuSignal {
    Resume,
    QuitToMainMenu,
    ExitGame,
}

pub struct PauseMenu {
    pub options: Vec<MenuOption>,
    pub selected_index: usize,
    pub game_speed: u32,
    pub difficulty: DifficultyLevel,
    pub sound_volume: u32,
    pub music_volume: u32,
}

/// The mathematical state of the menu.
#[verifier::ext_equal]
pub ghost struct MenuModel {
    pub options: Seq<MenuOption>,
    pub selected_index: usize,
    pub game_speed: u32,
    pub difficulty: DifficultyLevel,
    pub sound_volume: u32,
    pub music_volume: u32,
}

impl View for PauseMenu {
    type V = MenuModel;

    open spec fn view(&self) -> MenuModel {
        MenuModel {
            options: self.options@,
            selected_index: self.selected_index,
            game_speed: self.game_speed,
            difficulty: self.difficulty,
            sound_volume: self.sound_volume,
            music_volume: self.music_volume,
        }
    }
}

/// The option list always mirrors the setting fields, in this fixed order.
pub open spec fn menu_options_of(
    game_speed: u32,
    difficulty: DifficultyLevel,
    sound_volume: u32,
    music_volume: u32,
) -> Seq<MenuOption> {
    seq![
        MenuOption::Resume,
        MenuOption::GameSpeed(game_speed),
        MenuOption::Difficulty(difficulty),
        MenuOption::SoundVolume(sound_volume),
        MenuOption::MusicVolume(music_volume),
        MenuOption::QuitToMainMenu,
        MenuOption::ExitGame,
    ]
}

pub open spec fn menu_wf(m: MenuModel) -> bool {
    &&& m.options == menu_options_of(m.game_speed, m.difficulty, m.sound_volume, m.music_volume)
    &&& m.selected_index < m.options.len()
    &&& GAME_SPEED_MIN <= m.game_speed <= GAME_SPEED_MAX
    &&& m.sound_volume <= VOLUME_MAX
    &&& m.music_volume <= VOLUME_MAX
}

pub open spec fn next_difficulty(d: DifficultyLevel) -> DifficultyLevel {
    match d {
        DifficultyLevel::Easy => DifficultyLevel::Normal,
        DifficultyLevel::Normal => DifficultyLevel::Hard,
        DifficultyLevel::Hard => DifficultyLevel::Easy,
    }
}

/// A value moved one step in `direction` and clamped into `lo..=hi`.
pub open spec fn stepped_setting(v: u32, step: u32, direction: i32, lo: u32, hi: u32) -> u32 {
    let moved = if direction > 0 {
        v + step
    } else if direction < 0 {
        v - step
    } else {
        v as int
    };
    if moved < lo {
        lo
    } else if moved > hi {
        hi
    } else {
        moved as u32
    }
}

/// The menu after one adjustment (Left or Right) of the selected option:
/// only the option under the cursor and its setting field change, and the
/// option list stays in sync with the fields.
pub open spec fn menu_adjusted(m: MenuModel, direction: i32) -> MenuModel {
    if m.selected_index >= m.options.len() {
        m
    } else {
        match m.options[m.selected_index as int] {
            MenuOption::GameSpeed(_) => {
                let s = stepped_setting(m.game_speed, 1, direction, GAME_SPEED_MIN, GAME_SPEED_MAX);
                MenuModel {
                    game_speed: s,
                    options: menu_options_of(s, m.difficulty, m.sound_volume, m.music_volume),
                    ..m
                }
            },
            MenuOption::SoundVolume(_) => {
                let s = stepped_setting(m.sound_volume, VOLUME_STEP, direction, 0, VOLUME_MAX);
                MenuModel {
                    sound_volume: s,
                    options: menu_options_of(m.game_speed, m.difficulty, s, m.music_volume),
                    ..m
                }
            },
            MenuOption::MusicVolume(_) => {
                let s = stepped_setting(m.music_volume, VOLUME_STEP, direction, 0, VOLUME_MAX);
                MenuModel {
                    music_volume: s,
                    options: menu_options_of(m.game_speed, m.difficulty, m.sound_volume, s),
                    ..m
                }
            },
            MenuOption::Difficulty(_) => {
                let d = next_difficulty(m.difficulty);
                MenuModel {
                    difficulty: d,
                    options: menu_options_of(m.game_speed, d, m.sound_volume, m.music_volume),
                    ..m
                }
            },
            _ => m,
        }
    }
}

/// What Select does on the option under the cursor: the three action
/// options emit their signal, the adjustable ones do nothing.
pub open spec fn menu_selected(m: MenuModel) -> Option<MenuSignal> {
    if m.selected_index >= m.options.len() {
        None
    } else {
        match m.options[m.selected_index as int] {
            MenuOption::Resume => Some(MenuSignal::Resume),
            MenuOption::QuitToMainMenu => Some(MenuSignal::QuitToMainMenu),
            MenuOption::ExitGame => Some(MenuSignal::ExitGame),
            _ => None,
        }
    }
}

/// The whole key transition: Up and Down move the cursor with wrap-around,
/// Left and Right adjust the selected option, Select emits the selected
/// option's signal, Back asks to resume.
pub open spec fn menu_key_model(m: MenuModel, key: MenuKey) -> (MenuModel, Option<MenuSignal>) {
    match key {
        MenuKey::Up => (
            MenuModel {
                selected_index: if m.selected_index > 0 {
                    (m.selected_index - 1) as usize
                } else {
                    (m.options.len() - 1) as usize
                },
                ..m
            },
            None,
        ),
        MenuKey::Down => (
            MenuModel {
                selected_index: if m.selected_index + 1 < m.options.len() {
                    (m.selected_index + 1) as usize
                } else {
                    0usize
                },
                ..m
            },
            None,
        ),
        MenuKey::Left => (menu_adjusted(m, -1i32), None),
        MenuKey::Right => (menu_adjusted(m, 1i32), None),
        MenuKey::Select => (m, menu_selected(m)),
        MenuKey::Back => (m, Some(MenuSignal::Resume)),
    }
}

impl DifficultyLevel {
    pub fn as_str(&self) -> (s: &'static str)
        ensures
            self is Easy ==> s@ == "Easy"@,
            self is Normal ==> s@ == "Normal"@,
            self is Hard ==> s@ == "Hard"@,
    {
        match self {
            DifficultyLevel::Easy => "Easy",
            DifficultyLevel::Normal => "Normal",
            DifficultyLevel::Hard => "Hard",
        }
    }

    /// The three levels cycle: Easy, Normal, Hard, and around again.
    pub fn next(&self) -> (d: DifficultyLevel)
        ensures
            d == next_difficulty(*self),
    {
        match self {
            DifficultyLevel::Easy => DifficultyLevel::Normal,
            DifficultyLevel::Normal => DifficultyLevel::Hard,
            DifficultyLevel::Hard => DifficultyLevel::Easy,
        }
    }
}

impl PauseMenu {
    pub fn new() -> (m: PauseMenu)
        ensures
            m@ == (MenuModel {
                options: menu_options_of(10u32, DifficultyLevel::Normal, 80u32, 70u32),
                selected_index: 0usize,
                game_speed: 10u32,
                difficulty: DifficultyLevel::Normal,
                sound_volume: 80u32,
                music_volume: 70u32,
            }),
            menu_wf(m@),
    {
        let game_speed: u32 = 10;
        let difficulty = DifficultyLevel::Normal;
        let sound_volume: u32 = 80;
        let music_volume: u32 = 70;

        let options: Vec<MenuOption> = vec![
            MenuOption::Resume,
            MenuOption::GameSpeed(game_speed),
            MenuOption::Difficulty(difficulty),
            MenuOption::SoundVolume(sound_volume),
            MenuOption::MusicVolume(music_volume),
            MenuOption::QuitToMainMenu,
            MenuOption::ExitGame,
        ];
        let m = PauseMenu {
            options,
            selected_index: 0,
            game_speed,
            difficulty,
            sound_volume,
            music_volume,
        };
        proof {
            assert(m.options@ =~= menu_options_of(10u32, DifficultyLevel::Normal, 80u32, 70u32));
            assert(m@ =~= (MenuModel {
                options: menu_options_of(10u32, DifficultyLevel::Normal, 80u32, 70u32),
                selected_index: 0usize,
                game_speed: 10u32,
                difficulty: DifficultyLevel::Normal,
                sound_volume: 80u32,
                music_volume: 70u32,
            }));
        }
        m
    }

    /// Handle one decoded key press, exactly the transition `menu_key_model`.
    pub fn handle_key_press(&mut self, key: MenuKey) -> (signal: Option<MenuSignal>)
        requires
            menu_wf(old(self)@),
        ensures
            final(self)@ == menu_key_model(old(self)@, key).0,
            signal == menu_key_model(old(self)@, key).1,
            menu_wf(final(self)@),
    {
        match key {
            MenuKey::Up => {
                if self.selected_index > 0 {
                    self.selected_index = self.selected_index - 1;
                } else {
                    self.selected_index = self.options.len() - 1;
                }
                proof {
                    assert(self@ =~= menu_key_model(old(self)@, key).0);
                }
                None
            }
            MenuKey::Down => {
                if self.selected_index < self.options.len() - 1 {
                    self.selected_index = self.selected_index + 1;
                } else {
                    self.selected_index = 0;
                }
                proof {
                    assert(self@ =~= menu_key_model(old(self)@, key).0);
                }
                None
            }
            MenuKey::Left => {
                self.adjust_option(-1);
                None
            }
            MenuKey::Right => {
                self.adjust_option(1);
                None
            }
            MenuKey::Select => self.select_option(),
            MenuKey::Back => Some(MenuSignal::Resume),
        }
    }

    /// Move the selected option's setting one step in `direction` and keep
    /// the option list in sync.
    fn adjust_option(&mut self, direction: i32)
        requires
            menu_wf(old(self)@),
        ensures
            final(self)@ == menu_adjusted(old(self)@, direction),
            menu_wf(final(self)@),
    {
        match self.options[self.selected_index] {
            MenuOption::GameSpeed(_) => {
                let s = Self::step_clamped(self.game_speed, 1, direction, GAME_SPEED_MIN, GAME_SPEED_MAX);
                self.game_speed = s;
                self.options[self.selected_index] = MenuOption::GameSpeed(s);
                proof {
                    assert(self.options@ =~= menu_options_of(
                        s,
                        self.difficulty,
                        self.sound_volume,
                        self.music_volume,
                    ));
                    assert(self@ =~= menu_adjusted(old(self)@, direction));
                }
            }
            MenuOption::SoundVolume(_) => {
                let s = Self::step_clamped(self.sound_volume, VOLUME_STEP, direction, 0, VOLUME_MAX);
                self.sound_volume = s;
                self.options[self.selected_index] = MenuOption::SoundVolume(s);
                proof {
                    assert(self.options@ =~= menu_options_of(
                        self.game_speed,
                        self.difficulty,
                        s,
                        self.music_volume,
                    ));
                    assert(self@ =~= menu_adjusted(old(self)@, direction));
                }
            }
            MenuOption::MusicVolume(_) => {
                let s = Self::step_clamped(self.music_volume, VOLUME_STEP, direction, 0, VOLUME_MAX);
                self.music_volume = s;
                self.options[self.selected_index] = MenuOption::MusicVolume(s);
                proof {
                    assert(self.options@ =~= menu_options_of(
                        self.game_speed,
                        self.difficulty,
                        self.sound_volume,
                        s,
                    ));
                    assert(self@ =~= menu_adjusted(old(self)@, direction));
                }
            }
            MenuOption::Difficulty(_) => {
                let d = self.difficulty.next();
                self.difficulty = d;
                self.options[self.selected_index] = MenuOption::Difficulty(d);
                proof {
                    assert(self.options@ =~= menu_options_of(
                        self.game_speed,
                        d,
                        self.sound_volume,
                        self.music_volume,
                    ));
                    assert(self@ =~= menu_adjusted(old(self)@, direction));
                }
            }
            _ => {
                proof {
                    assert(self@ =~= menu_adjusted(old(self)@, direction));
                }
            }
        }
    }

    /// One setting step with clamping, matching `stepped_setting`.
    fn step_clamped(v: u32, step: u32, direction: i32, lo: u32, hi: u32) -> (r: u32)
        requires
            step <= 100,
            v <= 1_000_000,
            lo <= hi,
            hi <= 1_000_000,
        ensures
            r == stepped_setting(v, step, direction, lo, hi),
    {
        let moved: u32 = if direction > 0 {
            v + step
        } else if direction < 0 {
            if v >= step {
                v - step
            } else {
                // the mathematical value would be negative, hence under `lo`
                proof {
                    assert(stepped_setting(v, step, direction, lo, hi) == lo);
                }
                return lo;
            }
        } else {
            v
        };
        if moved < lo {
            lo
        } else if moved > hi {
            hi
        } else {
            moved
        }
    }

    fn select_option(&mut self) -> (signal: Option<MenuSignal>)
        requires
            menu_wf(old(self)@),
        ensures
            *final(self) == *old(self),
            signal == menu_selected(old(self)@),
            menu_wf(final(self)@),
    {
        match self.options[self.selected_index] {
            MenuOption::Resume => Some(MenuSignal::Resume),
            MenuOption::QuitToMainMenu => Some(MenuSignal::QuitToMainMenu),
            MenuOption::ExitGame => Some(MenuSignal::ExitGame),
            _ => None,
        }
    }

    pub fn game_speed(&self) -> (s: u32)
        ensures
            s == self.game_speed,
    {
        self.game_speed
    }

    pub fn difficulty(&self) -> (d: DifficultyLevel)
        ensures
            d == self.difficulty,
    {
        self.difficulty
    }

    pub fn sound_volume(&self) -> (v: u32)
        ensures
            v == self.sound_volume,
    {
        self.sound_volume
    }

    pub fn music_volume(&self) -> (v: u32)
        ensures
            v == self.music_volume,
    {
        self.music_volume
    }
}

} // verus!
