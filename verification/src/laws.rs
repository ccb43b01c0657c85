//! What holds of every menu and of every transition.
//!
//! Each proof function here is a theorem about the definitions in
//! [`crate::menu`] and [`crate::actions`]; the executable functions are
//! proved equal to those definitions, so the theorems hold of them too.

use vstd::prelude::*;
use crate::actions::{confirmation_text, step, Outcome, ReplyView};
use crate::menu::{digit_value, main_menu, selection, KeyInput, MenuOption, MenuState};
use crate::render::{decimal, digit_char};
use crate::session::SessionView;

verus! {

/// The menu is a function of which parts of a session are present: two
/// sessions that agree on that are offered the same entries in the same
/// order, whatever the parts hold.
pub proof fn main_menu_reads_presence_only<E, B, S>(a: SessionView<E, B, S>, b: SessionView<E, B, S>)
    requires
        a.data.encrypted_master_key is Some <==> b.data.encrypted_master_key is Some,
        a.secret_key is Some <==> b.secret_key is Some,
        a.data.bootstrap is Some <==> b.data.bootstrap is Some,
        a.data.profile is Some <==> b.data.profile is Some,
        a.data.key_schedule is Some <==> b.data.key_schedule is Some,
    ensures
        main_menu(a.menu_state()) == main_menu(b.menu_state()),
{
}

/// A main menu has between three and six entries, and its last two are
/// always the two ways out: save and quit, then quit without saving.
pub proof fn main_menu_ends_with_the_exits(st: MenuState)
    ensures
        3 <= main_menu(st).len() <= 6,
        main_menu(st)[main_menu(st).len() - 2] == MenuOption::SaveAndExit,
        main_menu(st).last() == MenuOption::ExitWithoutSaving,
{
}

/// No entry appears twice in a main menu.
pub proof fn main_menu_has_no_duplicates(st: MenuState)
    ensures
        main_menu(st).no_duplicates(),
{
}

/// A main menu offers exactly the main-menu entries that the session
/// permits: what can be picked and what a handler accepts never differ.
pub proof fn main_menu_offers_what_is_enabled(st: MenuState, option: MenuOption)
    ensures
        main_menu(st).contains(option) <==> option.in_main_menu() && option.enabled(st),
{
    let menu = main_menu(st);
    if menu.contains(option) {
        let i = choose|i: int| 0 <= i < menu.len() && menu[i] == option;
        assert(menu[i].in_main_menu() && menu[i].enabled(st));
    }
    if option.in_main_menu() && option.enabled(st) {
        let i: int = if menu[0] == option {
            0
        } else if menu[1] == option {
            1
        } else if menu[2] == option {
            2
        } else if menu[3] == option {
            3
        } else if menu[4] == option {
            4
        } else {
            5
        };
        assert(0 <= i < menu.len() && menu[i] == option);
    }
}

/// Unlocking is never offered while the identity is unlocked, and creating
/// a master key is never offered while one exists.
pub proof fn main_menu_never_offers_the_done(st: MenuState)
    ensures
        st.unlocked ==> !main_menu(st).contains(MenuOption::DecryptMaster),
        st.master ==> !main_menu(st).contains(MenuOption::NewMaster),
{
    main_menu_offers_what_is_enabled(st, MenuOption::DecryptMaster);
    main_menu_offers_what_is_enabled(st, MenuOption::NewMaster);
}

/// Every entry of a main menu can be picked with one key, and that key is
/// the position printed before the entry.
pub proof fn main_menu_entries_have_digits(st: MenuState, position: nat)
    requires
        position < main_menu(st).len(),
    ensures
        decimal(position) == seq![digit_char(position)],
        selection(main_menu(st), KeyInput::Char(digit_char(position))) == Some(
            main_menu(st)[position as int],
        ),
{
    printed_position_picks_the_entry(main_menu(st), position);
}

/// In any menu, the entries at positions zero to nine are picked by the
/// one digit printed before them.
pub proof fn printed_position_picks_the_entry(options: Seq<MenuOption>, position: nat)
    requires
        position < options.len(),
        position <= 9,
    ensures
        decimal(position) == seq![digit_char(position)],
        selection(options, KeyInput::Char(digit_char(position))) == Some(options[position as int]),
{
}

/// A key picks an entry only if the key is what is printed before that
/// entry: a key that picks nothing is printed before no entry.
pub proof fn a_key_picks_only_what_it_is_printed_before(options: Seq<MenuOption>, c: char)
    ensures
        match selection(options, KeyInput::Char(c)) {
            Some(option) => exists|position: nat|
                position < options.len() && #[trigger] decimal(position) == seq![c]
                    && options[position as int] == option,
            None => forall|position: nat|
                position < options.len() ==> #[trigger] decimal(position) != seq![c],
        },
{
    match selection(options, KeyInput::Char(c)) {
        Some(option) => {
            let position = digit_value(c)->Some_0 as nat;
            assert(digit_char(position) == c);
            assert(decimal(position) == seq![c]);
        },
        None => {
            assert forall|position: nat| position < options.len() implies #[trigger] decimal(
                position,
            ) != seq![c] by {
                if position < 10 {
                    if decimal(position) == seq![c] {
                        assert(seq![digit_char(position)][0] == seq![c][0]);
                        assert(digit_value(c) == Some(position as int));
                    }
                } else {
                    decimal_is_not_empty(position / 10);
                    assert(decimal(position).len() >= 2);
                    assert(seq![c].len() == 1);
                }
            }
        },
    }
}

/// A number in decimal has at least one digit.
pub proof fn decimal_is_not_empty(n: nat)
    ensures
        decimal(n).len() >= 1,
    decreases n,
{
    if n >= 10 {
        decimal_is_not_empty(n / 10);
    }
}

/// No transition leaves a session that holds a decrypted key without the
/// encrypted key it came from. In particular the decrypted key is gone
/// whenever the encrypted key is.
pub proof fn step_preserves_wf<E, B, S>(
    option: MenuOption,
    s: SessionView<E, B, S>,
    reply: ReplyView<E, B, S>,
)
    requires
        s.wf(),
    ensures
        step(option, s, reply).next.wf(),
{
}

/// An entry picked from the menu on screen, run with the reply it needs, is
/// never refused.
pub proof fn offered_entries_are_handled<E, B, S>(
    option: MenuOption,
    s: SessionView<E, B, S>,
    reply: ReplyView<E, B, S>,
)
    requires
        main_menu(s.menu_state()).contains(option),
        reply.answers(option.needs()),
    ensures
        !(step(option, s, reply).outcome is NotOffered),
        !(step(option, s, reply).outcome is WrongReply),
{
    main_menu_offers_what_is_enabled(s.menu_state(), option);
}

/// An entry that the session does not permit changes nothing, whatever
/// reply comes with it.
pub proof fn disabled_entries_change_nothing<E, B, S>(
    option: MenuOption,
    s: SessionView<E, B, S>,
    reply: ReplyView<E, B, S>,
)
    requires
        !option.enabled(s.menu_state()),
    ensures
        step(option, s, reply).next == s,
        step(option, s, reply).outcome is NotOffered,
{
}

/// Only the handlers that report a creation, an unlocking or a destruction
/// change the session; after any other outcome it is as it was.
pub proof fn only_reported_changes_happen<E, B, S>(
    option: MenuOption,
    s: SessionView<E, B, S>,
    reply: ReplyView<E, B, S>,
)
    ensures
        ({
            let outcome = step(option, s, reply).outcome;
            !(outcome is MasterCreated || outcome is Unlocked || outcome is MasterDestroyed
                || outcome is BootstrapCreated || outcome is ProfileCreated
                || outcome is KeyScheduleCreated) ==> step(option, s, reply).next == s
        }),
{
}

/// The menu loop ends exactly on the two ways out, and the record is asked
/// to be written exactly on "save and quit". Both leave the session as it
/// was: what is written is the record as it stood.
pub proof fn exits_end_the_run<E, B, S>(
    option: MenuOption,
    s: SessionView<E, B, S>,
    reply: ReplyView<E, B, S>,
)
    ensures
        step(option, s, reply).outcome.terminates() <==> option is SaveAndExit
            || option is ExitWithoutSaving,
        step(option, s, reply).outcome.saves() <==> option is SaveAndExit,
        step(option, s, reply).outcome.terminates() ==> step(option, s, reply).next == s,
{
}

/// Quitting without saving asks for no write and changes nothing, in every
/// session and with every reply: the document stays as the last save left
/// it.
pub proof fn exit_without_saving_writes_nothing<E, B, S>(
    s: SessionView<E, B, S>,
    reply: ReplyView<E, B, S>,
)
    ensures
        step(MenuOption::ExitWithoutSaving, s, reply).outcome == Outcome::Quit,
        !step(MenuOption::ExitWithoutSaving, s, reply).outcome.saves(),
        step(MenuOption::ExitWithoutSaving, s, reply).next == s,
{
}

/// Destroying the master key takes the exact confirmation. Any other line
/// leaves the session as it was; the confirmation, where an identity
/// exists, clears the encrypted and the decrypted key together and touches
/// nothing else.
pub proof fn destroy_takes_exact_confirmation<E, B, S>(s: SessionView<E, B, S>, line: Seq<char>)
    ensures
        line != confirmation_text() ==> step(
            MenuOption::DestroyMaster,
            s,
            ReplyView::Line(line),
        ).next == s,
        line == confirmation_text() && s.data.encrypted_master_key is Some ==> ({
            let next = step(MenuOption::DestroyMaster, s, ReplyView::Line(line)).next;
            &&& next.data.encrypted_master_key is None
            &&& next.secret_key is None
            &&& next.data.bootstrap == s.data.bootstrap
            &&& next.data.profile == s.data.profile
            &&& next.data.key_schedule == s.data.key_schedule
        }),
{
}

/// Unlocking never touches the record, and a wrong password changes
/// nothing at all: the identity stays locked and its encrypted key is
/// what it was.
pub proof fn failed_unlock_changes_nothing<E, B, S>(
    s: SessionView<E, B, S>,
    reply: ReplyView<E, B, S>,
)
    ensures
        step(MenuOption::DecryptMaster, s, reply).next.data == s.data,
        reply == ReplyView::<E, B, S>::Decrypted(None) ==> step(
            MenuOption::DecryptMaster,
            s,
            reply,
        ).next == s,
        reply == ReplyView::<E, B, S>::Decrypted(None) && MenuOption::DecryptMaster.enabled(
            s.menu_state(),
        ) ==> step(MenuOption::DecryptMaster, s, reply).next.secret_key is None && step(
            MenuOption::DecryptMaster,
            s,
            reply,
        ).outcome is WrongPassword,
{
}

/// An artifact is created only while the identity is unlocked, and only
/// where it was absent: no transition replaces or removes a bootstrap list,
/// a profile or a key schedule.
pub proof fn artifacts_need_an_unlocked_identity<E, B, S>(
    option: MenuOption,
    s: SessionView<E, B, S>,
    reply: ReplyView<E, B, S>,
)
    ensures
        ({
            let next = step(option, s, reply).next;
            &&& next.data.bootstrap != s.data.bootstrap ==> s.secret_key is Some
                && s.data.encrypted_master_key is Some && s.data.bootstrap is None
            &&& next.data.profile != s.data.profile ==> s.secret_key is Some
                && s.data.encrypted_master_key is Some && s.data.profile is None
            &&& next.data.key_schedule != s.data.key_schedule ==> s.secret_key is Some
                && s.data.encrypted_master_key is Some && s.data.key_schedule is None
        }),
{
}

} // verus!
