//! The durable record of one identity.
//!
//! The record is parametric in the two artifacts that the key library owns:
//! `E`, the password-encrypted master key, and `B`, the bootstrap server
//! list. Nothing here looks inside a value of either type; a field is
//! either absent or holds the value it was given.

use vstd::prelude::*;

verus! {

/// The profile bound to an identity.
#[derive(Debug, Clone, Default)]
pub struct UserProfile;

/// One certificate of a key schedule.
#[derive(Debug, Clone, Default)]
pub struct KeyCertificate;

/// What is kept on disk between runs.
#[derive(Debug, Clone)]
pub struct Data<E, B> {
    /// Absent until an identity has been created.
    pub encrypted_master_key: Option<E>,
    pub bootstrap: Option<B>,
    pub profile: Option<UserProfile>,
    pub key_schedule: Option<Vec<KeyCertificate>>,
}

/// The mathematical value of a [`Data`]: the same four optional fields, the
/// key schedule as a sequence.
pub struct DataView<E, B> {
    pub encrypted_master_key: Option<E>,
    pub bootstrap: Option<B>,
    pub profile: Option<UserProfile>,
    pub key_schedule: Option<Seq<KeyCertificate>>,
}

impl<E, B> DataView<E, B> {
    /// The record of a first run: every field absent.
    pub open spec fn empty() -> Self {
        DataView {
            encrypted_master_key: None,
            bootstrap: None,
            profile: None,
            key_schedule: None,
        }
    }
}

impl<E, B> View for Data<E, B> {
    type V = DataView<E, B>;

    open spec fn view(&self) -> DataView<E, B> {
        DataView {
            encrypted_master_key: self.encrypted_master_key,
            bootstrap: self.bootstrap,
            profile: self.profile,
            key_schedule: match self.key_schedule {
                Some(certificates) => Some(certificates@),
                None => None,
            },
        }
    }
}

impl<E, B> Data<E, B> {
    /// The record of a first run: every field absent.
    pub fn new() -> (data: Self)
        ensures
            data@ == DataView::<E, B>::empty(),
    {
        Data { encrypted_master_key: None, bootstrap: None, profile: None, key_schedule: None }
    }
}

impl<E, B> Default for Data<E, B> {
    fn default() -> (data: Self)
        ensures
            data@ == DataView::<E, B>::empty(),
    {
        Data::new()
    }
}

/// Why a run cannot start.
#[derive(Debug, Clone, Copy, PartialEq, Eq, Structural)]
pub enum ConfigError {
    /// The platform names no per-user data directory.
    NoDataDirectory,
    /// The document exists and does not decode.
    Corrupt,
}

impl ConfigError {
    pub open spec fn message_text(self) -> Seq<char> {
        match self {
            ConfigError::NoDataDirectory => "Cannot determine data directory"@,
            ConfigError::Corrupt => "The configuration document is corrupt"@,
        }
    }

    /// The text to report before the run is abandoned.
    pub fn message(&self) -> (text: &'static str)
        ensures
            text@ == self.message_text(),
    {
        match self {
            ConfigError::NoDataDirectory => "Cannot determine data directory",
            ConfigError::Corrupt => "The configuration document is corrupt",
        }
    }
}

/// What a driver found where the document is kept.
pub enum Document<E, B> {
    /// No file: this is a first run.
    Missing,
    /// A file whose contents do not decode.
    Undecodable,
    /// A file that decoded to this record.
    Decoded(Data<E, B>),
}

/// The record a run starts from.
///
/// A missing document is a first run and gives the empty record. A document
/// that does not decode is never replaced by a guess: it is an error.
pub fn load<E, B>(document: Document<E, B>) -> (loaded: Result<Data<E, B>, ConfigError>)
    ensures
        document is Missing ==> loaded is Ok && loaded->Ok_0@ == DataView::<E, B>::empty(),
        document is Undecodable ==> loaded == Err::<Data<E, B>, ConfigError>(ConfigError::Corrupt),
        document matches Document::Decoded(data) ==> loaded == Ok::<Data<E, B>, ConfigError>(data),
{
    match document {
        Document::Missing => Ok(Data::new()),
        Document::Undecodable => Err(ConfigError::Corrupt),
        Document::Decoded(data) => Ok(data),
    }
}

} // verus!
