//! The actions a user can be offered and the text each is announced with.

use vstd::prelude::*;
use crate::session::Params;

verus! {

/// One entry of a menu.
#[derive(Debug, Clone, Copy, PartialEq, Eq, Structural, Hash)]
pub enum MenuOption {
    NewMaster,
    DecryptMaster,
    DestroyMaster,
    NewBootstrap,
    EditBootstrap,
    NewProfile,
    EditProfile,
    NewKeySchedule,
    EditKeySchedule,
    SaveAndExit,
    ExitWithoutSaving,
    // Entries of the bootstrap submenu.
    AddServer,
    RemoveServer,
    ChangeServerPriority,
    ChangeServerUsage,
}

/// What a menu reads of a session: which of its parts are present.
#[derive(Debug, Clone, Copy, PartialEq, Eq, Structural)]
pub struct MenuState {
    /// An encrypted master key exists.
    pub master: bool,
    /// The decrypted master key is held in memory.
    pub unlocked: bool,
    pub bootstrap: bool,
    pub profile: bool,
    pub key_schedule: bool,
}

/// One event read from the terminal, as far as a menu cares.
#[derive(Debug, Clone, Copy, PartialEq, Eq, Structural)]
pub enum KeyInput {
    /// A key that stands for a character was pressed.
    Char(char),
    /// Anything else: another key, a resize, a mouse event.
    Other,
}

impl MenuOption {
    /// Whether this entry belongs to the main menu; the others are entries
    /// of the bootstrap submenu.
    pub open spec fn in_main_menu(self) -> bool {
        !(self is AddServer || self is RemoveServer || self is ChangeServerPriority
            || self is ChangeServerUsage)
    }

    /// Whether a session in state `st` permits this action.
    ///
    /// This one predicate gates both what a menu offers and what a handler
    /// does, so the two cannot drift apart.
    pub open spec fn enabled(self, st: MenuState) -> bool {
        match self {
            MenuOption::NewMaster => !st.master,
            MenuOption::DecryptMaster => st.master && !st.unlocked,
            MenuOption::DestroyMaster => st.master,
            MenuOption::NewBootstrap => st.master && st.unlocked && !st.bootstrap,
            MenuOption::NewProfile => st.master && st.unlocked && !st.profile,
            MenuOption::NewKeySchedule => st.master && st.unlocked && !st.key_schedule,
            MenuOption::EditBootstrap => st.master && st.unlocked && st.bootstrap,
            MenuOption::EditProfile => st.master && st.unlocked && st.profile,
            MenuOption::EditKeySchedule => st.master && st.unlocked && st.key_schedule,
            MenuOption::SaveAndExit => true,
            MenuOption::ExitWithoutSaving => true,
            MenuOption::AddServer => st.master && st.unlocked && st.bootstrap,
            MenuOption::RemoveServer => st.master && st.unlocked && st.bootstrap,
            MenuOption::ChangeServerPriority => st.master && st.unlocked && st.bootstrap,
            MenuOption::ChangeServerUsage => st.master && st.unlocked && st.bootstrap,
        }
    }

    /// Decides [`MenuOption::enabled`].
    pub fn is_enabled(&self, state: MenuState) -> (yes: bool)
        ensures
            yes == self.enabled(state),
    {
        let identity = state.master && state.unlocked;
        match self {
            MenuOption::NewMaster => !state.master,
            MenuOption::DecryptMaster => state.master && !state.unlocked,
            MenuOption::DestroyMaster => state.master,
            MenuOption::NewBootstrap => identity && !state.bootstrap,
            MenuOption::NewProfile => identity && !state.profile,
            MenuOption::NewKeySchedule => identity && !state.key_schedule,
            MenuOption::EditBootstrap => identity && state.bootstrap,
            MenuOption::EditProfile => identity && state.profile,
            MenuOption::EditKeySchedule => identity && state.key_schedule,
            MenuOption::SaveAndExit => true,
            MenuOption::ExitWithoutSaving => true,
            MenuOption::AddServer => identity && state.bootstrap,
            MenuOption::RemoveServer => identity && state.bootstrap,
            MenuOption::ChangeServerPriority => identity && state.bootstrap,
            MenuOption::ChangeServerUsage => identity && state.bootstrap,
        }
    }

    /// The line of text that announces this entry in a printed menu.
    pub open spec fn prompt_text(self) -> Seq<char> {
        match self {
            MenuOption::NewMaster => "Generate a new Master Keypair"@,
            MenuOption::DecryptMaster => "Decrypt your Master Keypair (so we can operate with it)"@,
            MenuOption::DestroyMaster => "DESTROY your Master Keypair (DANGER!)"@,
            MenuOption::NewBootstrap => "Generate a new empty Bootstrap"@,
            MenuOption::EditBootstrap => "Edit Bootstrap"@,
            MenuOption::NewProfile => "Generate a new empty Profile"@,
            MenuOption::EditProfile => "Edit Profile"@,
            MenuOption::NewKeySchedule => "Generate a new empty Key Schedule"@,
            MenuOption::EditKeySchedule => "Edit Key Schedule"@,
            MenuOption::SaveAndExit => "Save and Quit"@,
            MenuOption::ExitWithoutSaving => "Quit Without Saving"@,
            MenuOption::AddServer => "Add a server"@,
            MenuOption::RemoveServer => "Remove a server"@,
            MenuOption::ChangeServerPriority => "Change priority of a server"@,
            MenuOption::ChangeServerUsage => "Change usage of a server"@,
        }
    }

    pub fn prompt(&self) -> (text: &'static str)
        ensures
            text@ == self.prompt_text(),
    {
        match self {
            Self::NewMaster => "Generate a new Master Keypair",
            Self::DecryptMaster => "Decrypt your Master Keypair (so we can operate with it)",
            Self::DestroyMaster => "DESTROY your Master Keypair (DANGER!)",
            Self::NewBootstrap => "Generate a new empty Bootstrap",
            Self::EditBootstrap => "Edit Bootstrap",
            Self::NewProfile => "Generate a new empty Profile",
            Self::EditProfile => "Edit Profile",
            Self::NewKeySchedule => "Generate a new empty Key Schedule",
            Self::EditKeySchedule => "Edit Key Schedule",
            Self::SaveAndExit => "Save and Quit",
            Self::ExitWithoutSaving => "Quit Without Saving",
            Self::AddServer => "Add a server",
            Self::RemoveServer => "Remove a server",
            Self::ChangeServerPriority => "Change priority of a server",
            Self::ChangeServerUsage => "Change usage of a server",
        }
    }
}

/// The entries of the main menu that act on the identity, in the order
/// they are shown.
///
/// With no identity the only entry creates one. A locked identity can be
/// unlocked; an unlocked one offers, for each artifact, its creation while
/// it is absent and its editing once it is present. Whatever the lock,
/// an identity that exists can be destroyed.
pub open spec fn identity_entries(st: MenuState) -> Seq<MenuOption> {
    if !st.master {
        seq![MenuOption::NewMaster]
    } else if !st.unlocked {
        seq![MenuOption::DecryptMaster, MenuOption::DestroyMaster]
    } else {
        seq![
            if st.bootstrap { MenuOption::EditBootstrap } else { MenuOption::NewBootstrap },
            if st.profile { MenuOption::EditProfile } else { MenuOption::NewProfile },
            if st.key_schedule { MenuOption::EditKeySchedule } else { MenuOption::NewKeySchedule },
            MenuOption::DestroyMaster,
        ]
    }
}

/// The main menu of a session in state `st`: the identity entries, then the
/// two ways out, saving first.
pub open spec fn main_menu(st: MenuState) -> Seq<MenuOption> {
    identity_entries(st) + seq![MenuOption::SaveAndExit, MenuOption::ExitWithoutSaving]
}

/// Computes [`main_menu`].
pub fn main_options(state: MenuState) -> (options: Vec<MenuOption>)
    ensures
        options@ == main_menu(state),
{
    let mut options: Vec<MenuOption> = Vec::new();
    if state.master {
        if state.unlocked {
            if state.bootstrap {
                options.push(MenuOption::EditBootstrap);
            } else {
                options.push(MenuOption::NewBootstrap);
            }
            if state.profile {
                options.push(MenuOption::EditProfile);
            } else {
                options.push(MenuOption::NewProfile);
            }
            if state.key_schedule {
                options.push(MenuOption::EditKeySchedule);
            } else {
                options.push(MenuOption::NewKeySchedule);
            }
        } else {
            options.push(MenuOption::DecryptMaster);
        }
        options.push(MenuOption::DestroyMaster);
    } else {
        options.push(MenuOption::NewMaster);
    }
    assert(options@ =~= identity_entries(state));
    options.push(MenuOption::SaveAndExit);
    options.push(MenuOption::ExitWithoutSaving);
    assert(options@ =~= main_menu(state));
    options
}

/// The actions open to a session right now, in menu order.
///
/// The list is a function of the session alone, so it is to be computed
/// afresh after every action.
pub fn main_options_from_params<E, B, S>(params: &Params<E, B, S>) -> (options: Vec<MenuOption>)
    ensures
        options@ == main_menu(params@.menu_state()),
{
    main_options(params.menu_state())
}

/// The number a decimal digit stands for.
pub open spec fn digit_value(c: char) -> Option<int> {
    if '0' <= c && c <= '9' {
        Some(c as int - '0' as int)
    } else {
        None
    }
}

/// The entry of `options` that `key` picks: a decimal digit picks the entry
/// at that position, counted from zero; nothing else picks anything.
pub open spec fn selection(options: Seq<MenuOption>, key: KeyInput) -> Option<MenuOption> {
    match key {
        KeyInput::Char(c) => match digit_value(c) {
            Some(index) => if index < options.len() {
                Some(options[index])
            } else {
                None
            },
            None => None,
        },
        KeyInput::Other => None,
    }
}

/// Resolves one input event against the menu on screen.
///
/// `None` means the event picks nothing and is to be ignored.
pub fn select_option(options: &Vec<MenuOption>, key: KeyInput) -> (chosen: Option<MenuOption>)
    ensures
        chosen == selection(options@, key),
{
    match key {
        KeyInput::Char(c) => {
            if '0' <= c && c <= '9' {
                let index: usize = (c as u32 - '0' as u32) as usize;
                if index < options.len() {
                    Some(options[index])
                } else {
                    None
                }
            } else {
                None
            }
        },
        KeyInput::Other => None,
    }
}

} // verus!
