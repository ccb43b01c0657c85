use mosaic_identity::{
    execute, main_options_from_params, Data, KeyCertificate, MenuOption, Outcome, Params, Reply,
    Request, UserProfile, MASTER_KEY_WORK_FACTOR,
};

type Session = Params<String, Vec<String>, String>;

fn fresh() -> Session {
    Params::new(Data::new())
}

fn locked() -> Session {
    Params::new(Data {
        encrypted_master_key: Some("sealed".to_string()),
        bootstrap: None,
        profile: None,
        key_schedule: None,
    })
}

fn unlocked() -> Session {
    let mut params = locked();
    let outcome = execute(
        MenuOption::DecryptMaster,
        &mut params,
        Reply::Decrypted(Some("secret".to_string())),
    );
    assert_eq!(outcome, Outcome::Unlocked);
    params
}

fn line(text: &str) -> Reply<String, Vec<String>, String> {
    Reply::Line(text.to_string())
}

fn assert_untouched(params: &Session, master: Option<&str>, secret: Option<&str>) {
    assert_eq!(params.data().encrypted_master_key.as_deref(), master);
    assert_eq!(params.secret_key().map(|s| s.as_str()), secret);
    assert!(params.data().bootstrap.is_none());
    assert!(params.data().profile.is_none());
    assert!(params.data().key_schedule.is_none());
}

#[test]
fn work_factor_is_eighteen() {
    assert_eq!(MASTER_KEY_WORK_FACTOR, 18);
}

#[test]
fn request_of_every_option() {
    assert_eq!(MenuOption::NewMaster.request(), Request::NewMaster);
    assert_eq!(MenuOption::DecryptMaster.request(), Request::Decryption);
    assert_eq!(MenuOption::DestroyMaster.request(), Request::Confirmation);
    assert_eq!(MenuOption::NewBootstrap.request(), Request::Bootstrap);
    assert_eq!(MenuOption::AddServer.request(), Request::ServerKey);
    for option in [
        MenuOption::EditBootstrap,
        MenuOption::NewProfile,
        MenuOption::EditProfile,
        MenuOption::NewKeySchedule,
        MenuOption::EditKeySchedule,
        MenuOption::SaveAndExit,
        MenuOption::ExitWithoutSaving,
        MenuOption::RemoveServer,
        MenuOption::ChangeServerPriority,
        MenuOption::ChangeServerUsage,
    ] {
        assert_eq!(option.request(), Request::Nothing);
    }
}

#[test]
fn prompt_of_every_request() {
    assert_eq!(Request::Nothing.prompt(), "");
    assert_eq!(Request::NewMaster.prompt(), "Enter new password to encrypt your master key: ");
    assert_eq!(Request::Decryption.prompt(), "Enter password to decrypt your master key: ");
    assert_eq!(Request::Confirmation.prompt(), "Are you sure (type YES): ");
    assert_eq!(Request::Bootstrap.prompt(), "");
    assert_eq!(Request::ServerKey.prompt(), "Enter server public key: ");
}

#[test]
fn message_of_every_outcome() {
    assert_eq!(Outcome::MasterCreated.message(), "Master Key generated.");
    assert_eq!(Outcome::Unlocked.message(), "Master Key decrypted.");
    assert_eq!(Outcome::WrongPassword.message(), "Wrong password. The Master Key stays locked.");
    assert_eq!(
        Outcome::MasterDestroyed.message(),
        "WARNING:  Master Key has been cleared. Takes effect when you save.\nWARNING:  If this was a mistake, break out now with ^C"
    );
    assert_eq!(
        Outcome::NotConfirmed.message(),
        "Failed to confirm the operation. Taking no action."
    );
    assert_eq!(Outcome::BootstrapCreated.message(), "Empty Bootstrap generated.");
    assert_eq!(Outcome::ProfileCreated.message(), "Empty Profile generated.");
    assert_eq!(Outcome::KeyScheduleCreated.message(), "Empty Key Schedule generated.");
    assert_eq!(Outcome::NotImplemented.message(), "Not implemented");
    assert_eq!(Outcome::KeyNotUnderstood.message(), "Not understood.");
    assert_eq!(Outcome::Save.message(), "Saved.");
    assert_eq!(Outcome::Quit.message(), "");
    assert_eq!(Outcome::NotOffered.message(), "That action is not available now.");
    assert_eq!(Outcome::WrongReply.message(), "That action was given the wrong kind of input.");
}

#[test]
fn only_the_exits_are_terminal() {
    let all = [
        Outcome::MasterCreated,
        Outcome::Unlocked,
        Outcome::WrongPassword,
        Outcome::MasterDestroyed,
        Outcome::NotConfirmed,
        Outcome::BootstrapCreated,
        Outcome::ProfileCreated,
        Outcome::KeyScheduleCreated,
        Outcome::NotImplemented,
        Outcome::KeyNotUnderstood,
        Outcome::Save,
        Outcome::Quit,
        Outcome::NotOffered,
        Outcome::WrongReply,
    ];
    for outcome in all {
        assert_eq!(outcome.is_terminal(), outcome == Outcome::Save || outcome == Outcome::Quit);
        assert_eq!(outcome.is_save(), outcome == Outcome::Save);
    }
}

#[test]
fn new_master_stores_both_keys() {
    let mut params = fresh();
    let outcome = execute(
        MenuOption::NewMaster,
        &mut params,
        Reply::NewMaster { encrypted: "sealed".to_string(), secret: "secret".to_string() },
    );
    assert_eq!(outcome, Outcome::MasterCreated);
    assert_untouched(&params, Some("sealed"), Some("secret"));
}

#[test]
fn new_master_is_refused_while_one_exists() {
    let mut params = locked();
    let outcome = execute(
        MenuOption::NewMaster,
        &mut params,
        Reply::NewMaster { encrypted: "other".to_string(), secret: "other".to_string() },
    );
    assert_eq!(outcome, Outcome::NotOffered);
    assert_untouched(&params, Some("sealed"), None);
}

#[test]
fn unlock_holds_the_decrypted_key() {
    let mut params = locked();
    let outcome = execute(
        MenuOption::DecryptMaster,
        &mut params,
        Reply::Decrypted(Some("secret".to_string())),
    );
    assert_eq!(outcome, Outcome::Unlocked);
    assert_untouched(&params, Some("sealed"), Some("secret"));
}

#[test]
fn unlock_with_wrong_password_changes_nothing() {
    let mut params = locked();
    let outcome = execute(MenuOption::DecryptMaster, &mut params, Reply::Decrypted(None));
    assert_eq!(outcome, Outcome::WrongPassword);
    assert!(!outcome.is_terminal());
    assert_untouched(&params, Some("sealed"), None);
    assert!(main_options_from_params(&params).contains(&MenuOption::DecryptMaster));
}

#[test]
fn unlock_is_refused_without_identity() {
    let mut params = fresh();
    let outcome = execute(
        MenuOption::DecryptMaster,
        &mut params,
        Reply::Decrypted(Some("secret".to_string())),
    );
    assert_eq!(outcome, Outcome::NotOffered);
    assert_untouched(&params, None, None);
}

#[test]
fn unlock_is_refused_while_unlocked() {
    let mut params = unlocked();
    let outcome = execute(
        MenuOption::DecryptMaster,
        &mut params,
        Reply::Decrypted(Some("another".to_string())),
    );
    assert_eq!(outcome, Outcome::NotOffered);
    assert_untouched(&params, Some("sealed"), Some("secret"));
}

#[test]
fn destroy_with_no_changes_nothing() {
    let mut params = unlocked();
    let outcome = execute(MenuOption::DestroyMaster, &mut params, line("NO"));
    assert_eq!(outcome, Outcome::NotConfirmed);
    assert_untouched(&params, Some("sealed"), Some("secret"));
}

#[test]
fn destroy_with_empty_line_changes_nothing() {
    let mut params = unlocked();
    let outcome = execute(MenuOption::DestroyMaster, &mut params, line(""));
    assert_eq!(outcome, Outcome::NotConfirmed);
    assert_untouched(&params, Some("sealed"), Some("secret"));
}

#[test]
fn destroy_takes_the_confirmation_letter_for_letter() {
    for text in ["yes", "Yes", "YES ", " YES", "YES please", "YE", "Y", "YESYES", "YES\n"] {
        let mut params = unlocked();
        let outcome = execute(MenuOption::DestroyMaster, &mut params, line(text));
        assert_eq!(outcome, Outcome::NotConfirmed);
        assert_untouched(&params, Some("sealed"), Some("secret"));
    }
}

#[test]
fn destroy_with_confirmation_clears_both_keys() {
    let mut params = unlocked();
    let outcome = execute(MenuOption::DestroyMaster, &mut params, line("YES"));
    assert_eq!(outcome, Outcome::MasterDestroyed);
    assert!(!outcome.is_terminal());
    assert!(!outcome.is_save());
    assert_untouched(&params, None, None);
}

#[test]
fn destroy_of_locked_identity_clears_it() {
    let mut params = locked();
    let outcome = execute(MenuOption::DestroyMaster, &mut params, line("YES"));
    assert_eq!(outcome, Outcome::MasterDestroyed);
    assert_untouched(&params, None, None);
}

#[test]
fn destroy_keeps_the_artifacts() {
    let mut params = unlocked();
    execute(MenuOption::NewBootstrap, &mut params, Reply::Bootstrap(vec!["server".to_string()]));
    execute(MenuOption::NewProfile, &mut params, Reply::Nothing);
    let outcome = execute(MenuOption::DestroyMaster, &mut params, line("YES"));
    assert_eq!(outcome, Outcome::MasterDestroyed);
    assert!(params.data().encrypted_master_key.is_none());
    assert!(params.secret_key().is_none());
    assert_eq!(params.data().bootstrap, Some(vec!["server".to_string()]));
    assert!(params.data().profile.is_some());
    assert!(params.data().key_schedule.is_none());
}

#[test]
fn destroy_is_refused_without_identity() {
    let mut params = fresh();
    let outcome = execute(MenuOption::DestroyMaster, &mut params, line("YES"));
    assert_eq!(outcome, Outcome::NotOffered);
    assert_untouched(&params, None, None);
}

#[test]
fn artifacts_are_created_while_unlocked() {
    let mut params = unlocked();
    let outcome =
        execute(MenuOption::NewBootstrap, &mut params, Reply::Bootstrap(vec!["a".to_string()]));
    assert_eq!(outcome, Outcome::BootstrapCreated);
    assert_eq!(params.data().bootstrap, Some(vec!["a".to_string()]));
    let outcome = execute(MenuOption::NewProfile, &mut params, Reply::Nothing);
    assert_eq!(outcome, Outcome::ProfileCreated);
    assert!(params.data().profile.is_some());
    let outcome = execute(MenuOption::NewKeySchedule, &mut params, Reply::Nothing);
    assert_eq!(outcome, Outcome::KeyScheduleCreated);
    assert_eq!(params.data().key_schedule.as_ref().map(|c| c.len()), Some(0));
    assert_eq!(params.data().encrypted_master_key.as_deref(), Some("sealed"));
    assert_eq!(params.secret_key().map(|s| s.as_str()), Some("secret"));
    assert_eq!(
        main_options_from_params(&params),
        vec![
            MenuOption::EditBootstrap,
            MenuOption::EditProfile,
            MenuOption::EditKeySchedule,
            MenuOption::DestroyMaster,
            MenuOption::SaveAndExit,
            MenuOption::ExitWithoutSaving,
        ]
    );
}

#[test]
fn artifacts_are_refused_while_locked() {
    let mut params = locked();
    assert_eq!(
        execute(MenuOption::NewBootstrap, &mut params, Reply::Bootstrap(Vec::new())),
        Outcome::NotOffered
    );
    assert_eq!(execute(MenuOption::NewProfile, &mut params, Reply::Nothing), Outcome::NotOffered);
    assert_eq!(
        execute(MenuOption::NewKeySchedule, &mut params, Reply::Nothing),
        Outcome::NotOffered
    );
    assert_untouched(&params, Some("sealed"), None);
}

#[test]
fn artifacts_are_not_created_twice() {
    let mut params = unlocked();
    execute(MenuOption::NewBootstrap, &mut params, Reply::Bootstrap(vec!["first".to_string()]));
    let outcome = execute(
        MenuOption::NewBootstrap,
        &mut params,
        Reply::Bootstrap(vec!["second".to_string()]),
    );
    assert_eq!(outcome, Outcome::NotOffered);
    assert_eq!(params.data().bootstrap, Some(vec!["first".to_string()]));
}

#[test]
fn editing_is_not_implemented_and_changes_nothing() {
    let mut params: Session = Params::new(Data {
        encrypted_master_key: Some("sealed".to_string()),
        bootstrap: Some(vec!["server".to_string()]),
        profile: Some(UserProfile),
        key_schedule: Some(vec![KeyCertificate]),
    });
    execute(MenuOption::DecryptMaster, &mut params, Reply::Decrypted(Some("secret".to_string())));
    for option in [
        MenuOption::EditBootstrap,
        MenuOption::EditProfile,
        MenuOption::EditKeySchedule,
        MenuOption::RemoveServer,
        MenuOption::ChangeServerPriority,
        MenuOption::ChangeServerUsage,
    ] {
        assert_eq!(execute(option, &mut params, Reply::Nothing), Outcome::NotImplemented);
    }
    assert_eq!(params.data().bootstrap, Some(vec!["server".to_string()]));
    assert!(params.data().profile.is_some());
    assert_eq!(params.data().key_schedule.as_ref().map(|c| c.len()), Some(1));
}

#[test]
fn add_server_rejects_a_malformed_key() {
    let mut params = unlocked();
    execute(MenuOption::NewBootstrap, &mut params, Reply::Bootstrap(vec!["server".to_string()]));
    assert_eq!(
        execute(MenuOption::AddServer, &mut params, Reply::ServerKey(false)),
        Outcome::KeyNotUnderstood
    );
    assert_eq!(
        execute(MenuOption::AddServer, &mut params, Reply::ServerKey(true)),
        Outcome::NotImplemented
    );
    assert_eq!(params.data().bootstrap, Some(vec!["server".to_string()]));
}

#[test]
fn add_server_is_refused_without_bootstrap() {
    let mut params = unlocked();
    assert_eq!(
        execute(MenuOption::AddServer, &mut params, Reply::ServerKey(true)),
        Outcome::NotOffered
    );
    assert_untouched(&params, Some("sealed"), Some("secret"));
}

#[test]
fn reply_of_the_wrong_kind_changes_nothing() {
    let mut params = fresh();
    assert_eq!(execute(MenuOption::NewMaster, &mut params, Reply::Nothing), Outcome::WrongReply);
    assert_eq!(execute(MenuOption::NewMaster, &mut params, line("p1")), Outcome::WrongReply);
    assert_untouched(&params, None, None);
    let mut params = locked();
    assert_eq!(execute(MenuOption::DecryptMaster, &mut params, line("p1")), Outcome::WrongReply);
    assert_eq!(
        execute(MenuOption::DestroyMaster, &mut params, Reply::Nothing),
        Outcome::WrongReply
    );
    assert_untouched(&params, Some("sealed"), None);
    let mut params = unlocked();
    assert_eq!(
        execute(MenuOption::NewBootstrap, &mut params, Reply::Nothing),
        Outcome::WrongReply
    );
    assert_eq!(execute(MenuOption::NewProfile, &mut params, line("x")), Outcome::WrongReply);
    assert_untouched(&params, Some("sealed"), Some("secret"));
}

#[test]
fn save_and_exit_asks_for_a_write_and_ends() {
    let mut params = unlocked();
    let outcome = execute(MenuOption::SaveAndExit, &mut params, Reply::Nothing);
    assert_eq!(outcome, Outcome::Save);
    assert!(outcome.is_terminal());
    assert!(outcome.is_save());
    assert_untouched(&params, Some("sealed"), Some("secret"));
}

#[test]
fn exit_without_saving_never_asks_for_a_write() {
    let mut params = fresh();
    execute(
        MenuOption::NewMaster,
        &mut params,
        Reply::NewMaster { encrypted: "sealed".to_string(), secret: "secret".to_string() },
    );
    execute(MenuOption::NewProfile, &mut params, Reply::Nothing);
    let outcome = execute(MenuOption::ExitWithoutSaving, &mut params, Reply::Nothing);
    assert_eq!(outcome, Outcome::Quit);
    assert!(outcome.is_terminal());
    assert!(!outcome.is_save());
    assert_eq!(params.data().encrypted_master_key.as_deref(), Some("sealed"));
    assert!(params.data().profile.is_some());
}

#[test]
fn exits_end_the_run_whatever_comes_with_them() {
    let mut params = locked();
    assert_eq!(execute(MenuOption::ExitWithoutSaving, &mut params, line("YES")), Outcome::Quit);
    assert_eq!(
        execute(MenuOption::ExitWithoutSaving, &mut params, Reply::Decrypted(None)),
        Outcome::Quit
    );
    assert_eq!(execute(MenuOption::SaveAndExit, &mut params, line("YES")), Outcome::Save);
    assert_untouched(&params, Some("sealed"), None);
}

#[test]
fn every_offered_entry_is_handled() {
    let sessions = [fresh(), locked(), unlocked()];
    for mut params in sessions {
        for option in main_options_from_params(&params) {
            let reply = match option.request() {
                Request::Nothing => Reply::Nothing,
                Request::NewMaster => Reply::NewMaster {
                    encrypted: "sealed".to_string(),
                    secret: "secret".to_string(),
                },
                Request::Decryption => Reply::Decrypted(None),
                Request::Confirmation => line("NO"),
                Request::Bootstrap => Reply::Bootstrap(Vec::new()),
                Request::ServerKey => Reply::ServerKey(false),
            };
            let outcome = execute(option, &mut params, reply);
            assert_ne!(outcome, Outcome::NotOffered);
            assert_ne!(outcome, Outcome::WrongReply);
        }
    }
}
