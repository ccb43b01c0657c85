//! The session of one run: the durable record and, while the identity is
//! unlocked, its decrypted master key.

use vstd::prelude::*;
use crate::data::{Data, DataView, KeyCertificate, UserProfile};
use crate::menu::MenuState;

verus! {

/// The state of one run. `S` is the decrypted master key, `E` and `B` are
/// the artifacts of [`Data`].
///
/// A session never holds a decrypted key without the encrypted key it came
/// from: every value of this type satisfies [`SessionView::wf`].
pub struct Params<E, B, S> {
    data: Data<E, B>,
    secret_key: Option<S>,
}

/// The mathematical value of a session.
pub struct SessionView<E, B, S> {
    pub data: DataView<E, B>,
    /// Present exactly while the identity is unlocked. Never written to disk.
    pub secret_key: Option<S>,
}

impl<E, B, S> SessionView<E, B, S> {
    /// A decrypted key is held only beside the encrypted key it came from.
    pub open spec fn wf(self) -> bool {
        self.secret_key is Some ==> self.data.encrypted_master_key is Some
    }

    /// What a menu reads of a session: which parts are present.
    pub open spec fn menu_state(self) -> MenuState {
        MenuState {
            master: self.data.encrypted_master_key is Some,
            unlocked: self.secret_key is Some,
            bootstrap: self.data.bootstrap is Some,
            profile: self.data.profile is Some,
            key_schedule: self.data.key_schedule is Some,
        }
    }
}

impl<E, B, S> View for Params<E, B, S> {
    type V = SessionView<E, B, S>;

    closed spec fn view(&self) -> SessionView<E, B, S> {
        SessionView { data: self.data@, secret_key: self.secret_key }
    }
}

impl<E, B, S> Params<E, B, S> {
    #[verifier::type_invariant]
    spec fn inv(self) -> bool {
        self.secret_key is Some ==> self.data.encrypted_master_key is Some
    }

    /// The session a run starts with: the loaded record, locked.
    pub fn new(data: Data<E, B>) -> (params: Self)
        ensures
            params@.data == data@,
            params@.secret_key is None,
            params@.wf(),
    {
        Params { data, secret_key: None }
    }

    /// The record as it would be saved now.
    pub fn data(&self) -> (data: &Data<E, B>)
        ensures
            data@ == self@.data,
    {
        &self.data
    }

    /// The decrypted master key, while the identity is unlocked.
    pub fn secret_key(&self) -> (key: Option<&S>)
        ensures
            key is Some <==> self@.secret_key is Some,
            key matches Some(k) ==> self@.secret_key == Some(*k),
    {
        self.secret_key.as_ref()
    }

    /// Ends the session and gives up the record; the decrypted key is
    /// dropped with the session.
    pub fn into_data(self) -> (data: Data<E, B>)
        ensures
            data@ == self@.data,
    {
        self.data
    }

    /// Stores a fresh identity and leaves it unlocked.
    pub(crate) fn install_master(&mut self, encrypted: E, secret: S)
        ensures
            final(self)@ == (SessionView {
                data: DataView { encrypted_master_key: Some(encrypted), ..old(self)@.data },
                secret_key: Some(secret),
            }),
    {
        self.data.encrypted_master_key = Some(encrypted);
        self.secret_key = Some(secret);
    }

    /// Holds the decrypted key of the identity that the record names.
    pub(crate) fn hold_secret(&mut self, secret: S)
        requires
            old(self)@.data.encrypted_master_key is Some,
        ensures
            final(self)@ == (SessionView { secret_key: Some(secret), ..old(self)@ }),
    {
        self.secret_key = Some(secret);
    }

    /// Forgets the identity: the decrypted key goes first, so that at no
    /// point a key is held without its encrypted form.
    pub(crate) fn clear_master(&mut self)
        ensures
            final(self)@ == (SessionView::<E, B, S> {
                data: DataView { encrypted_master_key: None, ..old(self)@.data },
                secret_key: None,
            }),
    {
        self.secret_key = None;
        self.data.encrypted_master_key = None;
    }

    pub(crate) fn install_bootstrap(&mut self, bootstrap: B)
        ensures
            final(self)@ == (SessionView {
                data: DataView { bootstrap: Some(bootstrap), ..old(self)@.data },
                ..old(self)@
            }),
    {
        proof {
            use_type_invariant(&*self);
        }
        self.data.bootstrap = Some(bootstrap);
    }

    pub(crate) fn install_profile(&mut self, profile: UserProfile)
        ensures
            final(self)@ == (SessionView {
                data: DataView { profile: Some(profile), ..old(self)@.data },
                ..old(self)@
            }),
    {
        proof {
            use_type_invariant(&*self);
        }
        self.data.profile = Some(profile);
    }

    pub(crate) fn install_key_schedule(&mut self, certificates: Vec<KeyCertificate>)
        ensures
            final(self)@ == (SessionView {
                data: DataView { key_schedule: Some(certificates@), ..old(self)@.data },
                ..old(self)@
            }),
    {
        proof {
            use_type_invariant(&*self);
        }
        self.data.key_schedule = Some(certificates);
    }

    /// Which parts of the session are present.
    pub fn menu_state(&self) -> (state: MenuState)
        ensures
            state == self@.menu_state(),
            self@.wf(),
    {
        proof {
            use_type_invariant(self);
        }
        MenuState {
            master: self.data.encrypted_master_key.is_some(),
            unlocked: self.secret_key.is_some(),
            bootstrap: self.data.bootstrap.is_some(),
            profile: self.data.profile.is_some(),
            key_schedule: self.data.key_schedule.is_some(),
        }
    }
}

} // verus!
