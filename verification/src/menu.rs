//! The three menus of the game: which transition a key asks for, given the
//! entry that is selected. Moving the selection is left to the caller.

use vstd::prelude::*;

verus! {

/// A key that went down while a menu was shown.
#[derive(Clone, Copy, Debug, PartialEq, Eq, Structural)]
pub enum MenuKey {
    Return,
    Space,
    Escape,
    Q,
    /// Any other key.
    Other,
}

/// A state that a menu can lead to.
#[derive(Clone, Copy, Debug, PartialEq, Eq, Structural)]
pub enum Screen {
    Gameplay,
    MainMenu,
}

/// What a menu asks of the state machine that shows it.
#[derive(Clone, Copy, Debug, PartialEq, Eq, Structural)]
pub enum MenuTrans {
    /// No transition. The key may still move the selection.
    Stay,
    /// Leave this state and go back to the one below.
    Pop,
    /// Leave the game.
    Quit,
    /// Leave this state for another.
    Switch(Screen),
    /// Leave all states for another.
    Replace(Screen),
}

impl MenuKey {
    /// The key chooses the selected entry.
    pub open spec fn confirms(self) -> bool {
        self == MenuKey::Return || self == MenuKey::Space
    }
}

/// Entries of the main menu: new game, exit.
pub const MAIN_MENU_ENTRIES: i32 = 2;

/// Entries of the pause menu: resume, main menu, exit.
pub const PAUSE_MENU_ENTRIES: i32 = 3;

/// Entries of the menu shown when a level is complete: main menu.
pub const LEVEL_COMPLETE_ENTRIES: i32 = 1;

/// The main menu.
pub struct MainMenuState {
    selection: i32,
}

impl MainMenuState {
    /// The entry that the cursor is on, counted from 0.
    pub closed spec fn selection(self) -> i32 {
        self.selection
    }

    /// What the key asks for: escape or Q leaves the game; a confirming key
    /// starts a game on the first entry and leaves the game on the second.
    pub open spec fn trans(self, key: MenuKey) -> MenuTrans {
        if key == MenuKey::Escape || key == MenuKey::Q {
            MenuTrans::Quit
        } else if key.confirms() {
            if self.selection() == 0 {
                MenuTrans::Switch(Screen::Gameplay)
            } else {
                MenuTrans::Quit
            }
        } else {
            MenuTrans::Stay
        }
    }

    pub fn get_selection(&self) -> (selection: i32)
        ensures
            selection == self.selection(),
    {
        self.selection
    }

    pub fn set_selection(&mut self, selection: i32)
        ensures
            final(self).selection() == selection,
    {
        self.selection = selection;
    }

    /// The ids of the cursors on screen, one for each entry, in their order.
    pub fn get_cursor_menu_ids(&self) -> (ids: Vec<&'static str>)
        ensures
            ids@ == seq!["cursor_new_game", "cursor_exit"],
            ids@.len() == MAIN_MENU_ENTRIES,
    {
        let mut ids: Vec<&'static str> = Vec::new();
        ids.push("cursor_new_game");
        ids.push("cursor_exit");
        ids
    }

    /// Computes [`MainMenuState::trans`]. A confirming key needs the
    /// selection to be on an entry.
    pub fn handle_event(&self, key: MenuKey) -> (trans: MenuTrans)
        requires
            key.confirms() ==> 0 <= self.selection() < MAIN_MENU_ENTRIES,
        ensures
            trans == self.trans(key),
    {
        match key {
            MenuKey::Escape | MenuKey::Q => MenuTrans::Quit,
            MenuKey::Return | MenuKey::Space => {
                if self.selection == 0 {
                    MenuTrans::Switch(Screen::Gameplay)
                } else {
                    MenuTrans::Quit
                }
            },
            MenuKey::Other => MenuTrans::Stay,
        }
    }

    /// As [`MainMenuState::handle_event`], for a caller that cannot promise where
    /// the selection is: `None` where a confirming key finds it on no entry.
    pub fn try_handle_event(&self, key: MenuKey) -> (trans: Option<MenuTrans>)
        ensures
            trans == if key.confirms() && !(0 <= self.selection() < MAIN_MENU_ENTRIES) {
                None
            } else {
                Some(self.trans(key))
            },
    {
        let confirms = match key {
            MenuKey::Return | MenuKey::Space => true,
            MenuKey::Escape | MenuKey::Q | MenuKey::Other => false,
        };
        if confirms && !(0 <= self.selection && self.selection < MAIN_MENU_ENTRIES) {
            None
        } else {
            Some(self.handle_event(key))
        }
    }
}

impl Default for MainMenuState {
    fn default() -> (state: MainMenuState)
        ensures
            state.selection() == 0,
    {
        MainMenuState { selection: 0 }
    }
}

/// The pause menu.
pub struct PausedState {
    selection: i32,
}

impl PausedState {
    /// The entry that the cursor is on, counted from 0.
    pub closed spec fn selection(self) -> i32 {
        self.selection
    }

    /// What the key asks for: escape resumes; a confirming key resumes on the
    /// first entry, goes to the main menu on the second and leaves the game on
    /// the third.
    pub open spec fn trans(self, key: MenuKey) -> MenuTrans {
        if key == MenuKey::Escape {
            MenuTrans::Pop
        } else if key.confirms() {
            if self.selection() == 0 {
                MenuTrans::Pop
            } else if self.selection() == 1 {
                MenuTrans::Replace(Screen::MainMenu)
            } else {
                MenuTrans::Quit
            }
        } else {
            MenuTrans::Stay
        }
    }

    pub fn get_selection(&self) -> (selection: i32)
        ensures
            selection == self.selection(),
    {
        self.selection
    }

    pub fn set_selection(&mut self, selection: i32)
        ensures
            final(self).selection() == selection,
    {
        self.selection = selection;
    }

    /// The ids of the cursors on screen, one for each entry, in their order.
    pub fn get_cursor_menu_ids(&self) -> (ids: Vec<&'static str>)
        ensures
            ids@ == seq!["cursor_resume", "cursor_main_menu", "cursor_exit"],
            ids@.len() == PAUSE_MENU_ENTRIES,
    {
        let mut ids: Vec<&'static str> = Vec::new();
        ids.push("cursor_resume");
        ids.push("cursor_main_menu");
        ids.push("cursor_exit");
        ids
    }

    /// Computes [`PausedState::trans`]. A confirming key needs the selection
    /// to be on an entry.
    pub fn handle_event(&self, key: MenuKey) -> (trans: MenuTrans)
        requires
            key.confirms() ==> 0 <= self.selection() < PAUSE_MENU_ENTRIES,
        ensures
            trans == self.trans(key),
    {
        match key {
            MenuKey::Escape => MenuTrans::Pop,
            MenuKey::Return | MenuKey::Space => {
                if self.selection == 0 {
                    MenuTrans::Pop
                } else if self.selection == 1 {
                    MenuTrans::Replace(Screen::MainMenu)
                } else {
                    MenuTrans::Quit
                }
            },
            MenuKey::Q | MenuKey::Other => MenuTrans::Stay,
        }
    }

    /// As [`PausedState::handle_event`], for a caller that cannot promise where
    /// the selection is: `None` where a confirming key finds it on no entry.
    pub fn try_handle_event(&self, key: MenuKey) -> (trans: Option<MenuTrans>)
        ensures
            trans == if key.confirms() && !(0 <= self.selection() < PAUSE_MENU_ENTRIES) {
                None
            } else {
                Some(self.trans(key))
            },
    {
        let confirms = match key {
            MenuKey::Return | MenuKey::Space => true,
            MenuKey::Escape | MenuKey::Q | MenuKey::Other => false,
        };
        if confirms && !(0 <= self.selection && self.selection < PAUSE_MENU_ENTRIES) {
            None
        } else {
            Some(self.handle_event(key))
        }
    }
}

impl Default for PausedState {
    fn default() -> (state: PausedState)
        ensures
            state.selection() == 0,
    {
        PausedState { selection: 0 }
    }
}

/// The menu shown when a level is complete. It shows the score once.
pub struct LevelCompleteState {
    selection: i32,
    score: i32,
    score_updated: bool,
}

impl LevelCompleteState {
    /// The entry that the cursor is on, counted from 0.
    pub closed spec fn selection(self) -> i32 {
        self.selection
    }

    /// The score that the level ended with.
    pub closed spec fn score(self) -> i32 {
        self.score
    }

    /// The score has been put on display.
    pub closed spec fn score_updated(self) -> bool {
        self.score_updated
    }

    /// What the key asks for: a confirming key goes to the main menu.
    pub open spec fn trans(self, key: MenuKey) -> MenuTrans {
        if key.confirms() {
            MenuTrans::Switch(Screen::MainMenu)
        } else {
            MenuTrans::Stay
        }
    }

    /// The menu for a level that ended with `score`, the cursor on its only
    /// entry and the score not yet on display.
    pub fn new(score: i32) -> (state: LevelCompleteState)
        ensures
            state.selection() == 0,
            state.score() == score,
            !state.score_updated(),
    {
        LevelCompleteState { selection: 0, score, score_updated: false }
    }

    pub fn get_selection(&self) -> (selection: i32)
        ensures
            selection == self.selection(),
    {
        self.selection
    }

    pub fn set_selection(&mut self, selection: i32)
        ensures
            final(self).selection() == selection,
            final(self).score() == old(self).score(),
            final(self).score_updated() == old(self).score_updated(),
    {
        self.selection = selection;
    }

    /// The ids of the cursors on screen, one for each entry, in their order.
    pub fn get_cursor_menu_ids(&self) -> (ids: Vec<&'static str>)
        ensures
            ids@ == seq!["cursor_main_menu"],
            ids@.len() == LEVEL_COMPLETE_ENTRIES,
    {
        let mut ids: Vec<&'static str> = Vec::new();
        ids.push("cursor_main_menu");
        ids
    }

    /// One frame of the menu. `display_found` tells whether the score's text
    /// exists yet. Returns the score to write there, once: the first time the
    /// text is found.
    pub fn update(&mut self, display_found: bool) -> (text: Option<i32>)
        ensures
            text == if display_found && !old(self).score_updated() {
                Some(old(self).score())
            } else {
                None
            },
            final(self).score_updated() == (old(self).score_updated() || display_found),
            final(self).score() == old(self).score(),
            final(self).selection() == old(self).selection(),
    {
        if !self.score_updated && display_found {
            self.score_updated = true;
            Some(self.score)
        } else {
            None
        }
    }

    /// Computes [`LevelCompleteState::trans`]. A confirming key needs the
    /// selection to be on the entry.
    pub fn handle_event(&self, key: MenuKey) -> (trans: MenuTrans)
        requires
            key.confirms() ==> 0 <= self.selection() < LEVEL_COMPLETE_ENTRIES,
        ensures
            trans == self.trans(key),
    {
        match key {
            MenuKey::Return | MenuKey::Space => MenuTrans::Switch(Screen::MainMenu),
            MenuKey::Escape | MenuKey::Q | MenuKey::Other => MenuTrans::Stay,
        }
    }

    /// As [`LevelCompleteState::handle_event`], for a caller that cannot
    /// promise where the selection is: `None` where a confirming key finds it
    /// on no entry.
    pub fn try_handle_event(&self, key: MenuKey) -> (trans: Option<MenuTrans>)
        ensures
            trans == if key.confirms() && !(0 <= self.selection() < LEVEL_COMPLETE_ENTRIES) {
                None
            } else {
                Some(self.trans(key))
            },
    {
        let confirms = match key {
            MenuKey::Return | MenuKey::Space => true,
            MenuKey::Escape | MenuKey::Q | MenuKey::Other => false,
        };
        if confirms && !(0 <= self.selection && self.selection < LEVEL_COMPLETE_ENTRIES) {
            None
        } else {
            Some(self.handle_event(key))
        }
    }
}

} // verus!
