//! The action handlers: one transition of the session per menu entry.
//!
//! A handler never reads a terminal, asks for a password or calls the key
//! library. Before a handler runs, a driver looks up what the entry needs
//! ([`MenuOption::request`]), obtains it, and hands it over as a
//! [`Reply`]. [`execute`] then makes the transition that [`step`] defines
//! and says in its [`Outcome`] what the driver is to do next.

use vstd::prelude::*;
use crate::data::{DataView, UserProfile};
use crate::menu::MenuOption;
use crate::session::{Params, SessionView};

verus! {

/// The cost setting at which a new master key is encrypted under its
/// password: the binary logarithm of the key derivation's iteration count.
pub const MASTER_KEY_WORK_FACTOR: u8 = 18;

/// The line a user must type, exactly, to confirm the destruction of the
/// master key.
pub open spec fn confirmation_text() -> Seq<char> {
    "YES"@
}

/// What a driver has to obtain before it runs a handler.
#[derive(Debug, Clone, Copy, PartialEq, Eq, Structural)]
pub enum Request {
    /// Nothing: run the handler with [`Reply::Nothing`].
    Nothing,
    /// Ask for a new password, generate a key pair and encrypt its secret
    /// key under the password at [`MASTER_KEY_WORK_FACTOR`].
    NewMaster,
    /// Ask for the password and try to decrypt the encrypted master key.
    Decryption,
    /// Read one line of confirmation.
    Confirmation,
    /// Construct an empty bootstrap list.
    Bootstrap,
    /// Read one line and try to parse it as a server's public key.
    ServerKey,
}

impl Request {
    pub open spec fn prompt_text(self) -> Seq<char> {
        match self {
            Request::Nothing => ""@,
            Request::NewMaster => "Enter new password to encrypt your master key: "@,
            Request::Decryption => "Enter password to decrypt your master key: "@,
            Request::Confirmation => "Are you sure (type YES): "@,
            Request::Bootstrap => ""@,
            Request::ServerKey => "Enter server public key: "@,
        }
    }

    /// The text to show before reading what the request asks for; empty
    /// where nothing is read.
    pub fn prompt(&self) -> (text: &'static str)
        ensures
            text@ == self.prompt_text(),
    {
        match self {
            Request::Nothing => "",
            Request::NewMaster => "Enter new password to encrypt your master key: ",
            Request::Decryption => "Enter password to decrypt your master key: ",
            Request::Confirmation => "Are you sure (type YES): ",
            Request::Bootstrap => "",
            Request::ServerKey => "Enter server public key: ",
        }
    }
}

impl MenuOption {
    /// What the handler of this entry needs from outside.
    pub open spec fn needs(self) -> Request {
        match self {
            MenuOption::NewMaster => Request::NewMaster,
            MenuOption::DecryptMaster => Request::Decryption,
            MenuOption::DestroyMaster => Request::Confirmation,
            MenuOption::NewBootstrap => Request::Bootstrap,
            MenuOption::AddServer => Request::ServerKey,
            _ => Request::Nothing,
        }
    }

    /// Computes [`MenuOption::needs`].
    pub fn request(&self) -> (request: Request)
        ensures
            request == self.needs(),
    {
        match self {
            MenuOption::NewMaster => Request::NewMaster,
            MenuOption::DecryptMaster => Request::Decryption,
            MenuOption::DestroyMaster => Request::Confirmation,
            MenuOption::NewBootstrap => Request::Bootstrap,
            MenuOption::AddServer => Request::ServerKey,
            _ => Request::Nothing,
        }
    }
}

/// What a driver obtained for a [`Request`].
pub enum Reply<E, B, S> {
    Nothing,
    /// A freshly generated secret key and its encryption.
    NewMaster { encrypted: E, secret: S },
    /// The decrypted key, or `None` where the password was wrong.
    Decrypted(Option<S>),
    /// One line of input, without its line ending.
    Line(String),
    /// An empty bootstrap list.
    Bootstrap(B),
    /// Whether the line that was read is a well-formed public key.
    ServerKey(bool),
}

/// The mathematical value of a [`Reply`].
pub enum ReplyView<E, B, S> {
    Nothing,
    NewMaster { encrypted: E, secret: S },
    Decrypted(Option<S>),
    Line(Seq<char>),
    Bootstrap(B),
    ServerKey(bool),
}

impl<E, B, S> View for Reply<E, B, S> {
    type V = ReplyView<E, B, S>;

    open spec fn view(&self) -> ReplyView<E, B, S> {
        match *self {
            Reply::Nothing => ReplyView::Nothing,
            Reply::NewMaster { encrypted, secret } => ReplyView::NewMaster { encrypted, secret },
            Reply::Decrypted(secret) => ReplyView::Decrypted(secret),
            Reply::Line(line) => ReplyView::Line(line@),
            Reply::Bootstrap(bootstrap) => ReplyView::Bootstrap(bootstrap),
            Reply::ServerKey(valid) => ReplyView::ServerKey(valid),
        }
    }
}

impl<E, B, S> ReplyView<E, B, S> {
    /// Whether this reply is of the kind that `request` asks for.
    pub open spec fn answers(self, request: Request) -> bool {
        match request {
            Request::Nothing => self is Nothing,
            Request::NewMaster => self is NewMaster,
            Request::Decryption => self is Decrypted,
            Request::Confirmation => self is Line,
            Request::Bootstrap => self is Bootstrap,
            Request::ServerKey => self is ServerKey,
        }
    }
}

/// What a handler did, and hence what the driver does next.
#[derive(Debug, Clone, Copy, PartialEq, Eq, Structural)]
pub enum Outcome {
    /// A new identity is stored and unlocked.
    MasterCreated,
    /// The identity is unlocked.
    Unlocked,
    /// The password was wrong; the identity stays locked.
    WrongPassword,
    /// The identity is cleared from the session. The document still holds
    /// it until the session is saved.
    MasterDestroyed,
    /// The confirmation was not given; nothing changed.
    NotConfirmed,
    BootstrapCreated,
    ProfileCreated,
    KeyScheduleCreated,
    /// The entry has no effect yet; nothing changed.
    NotImplemented,
    /// The line is no public key; nothing changed.
    KeyNotUnderstood,
    /// The driver is to write the record to the document, then end the run.
    Save,
    /// The driver is to end the run and write nothing.
    Quit,
    /// The session does not permit the entry now; nothing changed.
    NotOffered,
    /// The reply is not of the kind the entry needs; nothing changed.
    WrongReply,
}

impl Outcome {
    /// Whether the menu loop ends here.
    pub open spec fn terminates(self) -> bool {
        self is Save || self is Quit
    }

    /// Whether the record is to be written to the document.
    pub open spec fn saves(self) -> bool {
        self is Save
    }

    pub open spec fn message_text(self) -> Seq<char> {
        match self {
            Outcome::MasterCreated => "Master Key generated."@,
            Outcome::Unlocked => "Master Key decrypted."@,
            Outcome::WrongPassword => "Wrong password. The Master Key stays locked."@,
            Outcome::MasterDestroyed =>
                "WARNING:  Master Key has been cleared. Takes effect when you save.\nWARNING:  If this was a mistake, break out now with ^C"@,
            Outcome::NotConfirmed => "Failed to confirm the operation. Taking no action."@,
            Outcome::BootstrapCreated => "Empty Bootstrap generated."@,
            Outcome::ProfileCreated => "Empty Profile generated."@,
            Outcome::KeyScheduleCreated => "Empty Key Schedule generated."@,
            Outcome::NotImplemented => "Not implemented"@,
            Outcome::KeyNotUnderstood => "Not understood."@,
            Outcome::Save => "Saved."@,
            Outcome::Quit => ""@,
            Outcome::NotOffered => "That action is not available now."@,
            Outcome::WrongReply => "That action was given the wrong kind of input."@,
        }
    }

    /// Decides [`Outcome::terminates`].
    pub fn is_terminal(&self) -> (yes: bool)
        ensures
            yes == self.terminates(),
    {
        match self {
            Outcome::Save => true,
            Outcome::Quit => true,
            _ => false,
        }
    }

    /// Decides [`Outcome::saves`].
    pub fn is_save(&self) -> (yes: bool)
        ensures
            yes == self.saves(),
    {
        match self {
            Outcome::Save => true,
            _ => false,
        }
    }

    /// The text to show the user; for [`Outcome::Save`], once the document
    /// is written. Empty where there is nothing to say.
    pub fn message(&self) -> (text: &'static str)
        ensures
            text@ == self.message_text(),
    {
        match self {
            Outcome::MasterCreated => "Master Key generated.",
            Outcome::Unlocked => "Master Key decrypted.",
            Outcome::WrongPassword => "Wrong password. The Master Key stays locked.",
            Outcome::MasterDestroyed =>
                "WARNING:  Master Key has been cleared. Takes effect when you save.\nWARNING:  If this was a mistake, break out now with ^C",
            Outcome::NotConfirmed => "Failed to confirm the operation. Taking no action.",
            Outcome::BootstrapCreated => "Empty Bootstrap generated.",
            Outcome::ProfileCreated => "Empty Profile generated.",
            Outcome::KeyScheduleCreated => "Empty Key Schedule generated.",
            Outcome::NotImplemented => "Not implemented",
            Outcome::KeyNotUnderstood => "Not understood.",
            Outcome::Save => "Saved.",
            Outcome::Quit => "",
            Outcome::NotOffered => "That action is not available now.",
            Outcome::WrongReply => "That action was given the wrong kind of input.",
        }
    }
}

/// A session after a handler ran, and what the handler reports.
pub struct Transition<E, B, S> {
    pub next: SessionView<E, B, S>,
    pub outcome: Outcome,
}

/// The session and report of a handler that is permitted and has the reply
/// it needs.
pub open spec fn handle<E, B, S>(
    option: MenuOption,
    s: SessionView<E, B, S>,
    reply: ReplyView<E, B, S>,
) -> Transition<E, B, S>
    recommends
        option.enabled(s.menu_state()),
        reply.answers(option.needs()),
{
    match option {
        MenuOption::NewMaster => Transition {
            next: SessionView {
                data: DataView { encrypted_master_key: Some(reply->encrypted), ..s.data },
                secret_key: Some(reply->secret),
            },
            outcome: Outcome::MasterCreated,
        },
        MenuOption::DecryptMaster => match reply->Decrypted_0 {
            Some(secret) => Transition {
                next: SessionView { secret_key: Some(secret), ..s },
                outcome: Outcome::Unlocked,
            },
            None => Transition { next: s, outcome: Outcome::WrongPassword },
        },
        MenuOption::DestroyMaster => if reply->Line_0 == confirmation_text() {
            Transition {
                next: SessionView {
                    data: DataView { encrypted_master_key: None, ..s.data },
                    secret_key: None,
                },
                outcome: Outcome::MasterDestroyed,
            }
        } else {
            Transition { next: s, outcome: Outcome::NotConfirmed }
        },
        MenuOption::NewBootstrap => Transition {
            next: SessionView {
                data: DataView { bootstrap: Some(reply->Bootstrap_0), ..s.data },
                ..s
            },
            outcome: Outcome::BootstrapCreated,
        },
        MenuOption::NewProfile => Transition {
            next: SessionView { data: DataView { profile: Some(UserProfile), ..s.data }, ..s },
            outcome: Outcome::ProfileCreated,
        },
        MenuOption::NewKeySchedule => Transition {
            next: SessionView {
                data: DataView { key_schedule: Some(Seq::empty()), ..s.data },
                ..s
            },
            outcome: Outcome::KeyScheduleCreated,
        },
        MenuOption::AddServer => Transition {
            next: s,
            outcome: if reply->ServerKey_0 {
                Outcome::NotImplemented
            } else {
                Outcome::KeyNotUnderstood
            },
        },
        MenuOption::SaveAndExit => Transition { next: s, outcome: Outcome::Save },
        MenuOption::ExitWithoutSaving => Transition { next: s, outcome: Outcome::Quit },
        _ => Transition { next: s, outcome: Outcome::NotImplemented },
    }
}

/// What running the handler of `option` on session `s` with `reply` gives.
///
/// The two ways out need nothing and always end the run, whatever reply
/// comes with them. Any other entry is refused, with the session as it
/// was, unless the session permits it and the reply is of the kind it
/// needs.
pub open spec fn step<E, B, S>(
    option: MenuOption,
    s: SessionView<E, B, S>,
    reply: ReplyView<E, B, S>,
) -> Transition<E, B, S> {
    if option is SaveAndExit || option is ExitWithoutSaving {
        handle(option, s, reply)
    } else if !option.enabled(s.menu_state()) {
        Transition { next: s, outcome: Outcome::NotOffered }
    } else if !reply.answers(option.needs()) {
        Transition { next: s, outcome: Outcome::WrongReply }
    } else {
        handle(option, s, reply)
    }
}

/// Runs the handler of `option` on the session.
///
/// The session afterwards and the outcome are exactly those of [`step`].
/// Nothing is written anywhere: only [`Outcome::Save`] asks the driver to
/// write the record, and only [`MenuOption::SaveAndExit`] gives it.
pub fn execute<E, B, S>(option: MenuOption, params: &mut Params<E, B, S>, reply: Reply<E, B, S>) -> (outcome: Outcome)
    ensures
        final(params)@ == step(option, old(params)@, reply@).next,
        outcome == step(option, old(params)@, reply@).outcome,
        final(params)@.wf(),
{
    let state = params.menu_state();
    match option {
        MenuOption::SaveAndExit => {
            return Outcome::Save;
        },
        MenuOption::ExitWithoutSaving => {
            return Outcome::Quit;
        },
        _ => {},
    }
    if !option.is_enabled(state) {
        return Outcome::NotOffered;
    }
    match (option, reply) {
        (MenuOption::NewMaster, Reply::NewMaster { encrypted, secret }) => {
            params.install_master(encrypted, secret);
            Outcome::MasterCreated
        },
        (MenuOption::DecryptMaster, Reply::Decrypted(Some(secret))) => {
            params.hold_secret(secret);
            Outcome::Unlocked
        },
        (MenuOption::DecryptMaster, Reply::Decrypted(None)) => Outcome::WrongPassword,
        (MenuOption::DestroyMaster, Reply::Line(line)) => {
            if is_confirmation(line.as_str()) {
                params.clear_master();
                Outcome::MasterDestroyed
            } else {
                Outcome::NotConfirmed
            }
        },
        (MenuOption::NewBootstrap, Reply::Bootstrap(bootstrap)) => {
            params.install_bootstrap(bootstrap);
            Outcome::BootstrapCreated
        },
        (MenuOption::NewProfile, Reply::Nothing) => {
            params.install_profile(UserProfile);
            Outcome::ProfileCreated
        },
        (MenuOption::NewKeySchedule, Reply::Nothing) => {
            params.install_key_schedule(Vec::new());
            Outcome::KeyScheduleCreated
        },
        (MenuOption::AddServer, Reply::ServerKey(valid)) => {
            if valid {
                Outcome::NotImplemented
            } else {
                Outcome::KeyNotUnderstood
            }
        },
        (MenuOption::EditBootstrap, Reply::Nothing) => Outcome::NotImplemented,
        (MenuOption::EditProfile, Reply::Nothing) => Outcome::NotImplemented,
        (MenuOption::EditKeySchedule, Reply::Nothing) => Outcome::NotImplemented,
        (MenuOption::RemoveServer, Reply::Nothing) => Outcome::NotImplemented,
        (MenuOption::ChangeServerPriority, Reply::Nothing) => Outcome::NotImplemented,
        (MenuOption::ChangeServerUsage, Reply::Nothing) => Outcome::NotImplemented,
        _ => Outcome::WrongReply,
    }
}

/// Whether `line` is the confirmation, letter for letter.
pub fn is_confirmation(line: &str) -> (yes: bool)
    ensures
        yes == (line@ == confirmation_text()),
{
    let expected = "YES".to_owned();
    let given = line.to_owned();
    given == expected
}

} // verus!
