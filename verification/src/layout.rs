//! Where an identity is kept: the names of the directory and of the files
//! under it.
//!
//! The location of the per-user data directory is the platform's to say;
//! what is fixed here is what is appended to it. Every file that holds an
//! artifact of the key library carries an extension that names the
//! artifact's format and version, so that a later format can live beside
//! an earlier one.

use vstd::prelude::*;

verus! {

/// A file kept in the data directory.
#[derive(Debug, Clone, Copy, PartialEq, Eq, Structural, Hash)]
pub enum StoredFile {
    /// The whole record as one document.
    Document,
    /// The encrypted master key alone.
    MasterKey,
    /// The bootstrap list alone.
    Bootstrap,
    /// The profile alone.
    Profile,
    /// The key schedule alone.
    KeySchedule,
}

/// The name of the subdirectory of the platform's data directory in which
/// everything is kept.
pub open spec fn directory_name_text() -> Seq<char> {
    "mosaic"@
}

/// Gives [`directory_name_text`].
pub fn directory_name() -> (name: &'static str)
    ensures
        name@ == directory_name_text(),
{
    "mosaic"
}

impl StoredFile {
    pub open spec fn name_text(self) -> Seq<char> {
        match self {
            StoredFile::Document => "mosaic.json"@,
            StoredFile::MasterKey => "master_key.mocryptsec0"@,
            StoredFile::Bootstrap => "bootstrap.mub25"@,
            StoredFile::Profile => "profile.morec"@,
            StoredFile::KeySchedule => "key_schedule.morec"@,
        }
    }

    /// The name of the file within the data directory.
    pub fn name(&self) -> (name: &'static str)
        ensures
            name@ == self.name_text(),
    {
        match self {
            StoredFile::Document => "mosaic.json",
            StoredFile::MasterKey => "master_key.mocryptsec0",
            StoredFile::Bootstrap => "bootstrap.mub25",
            StoredFile::Profile => "profile.morec",
            StoredFile::KeySchedule => "key_schedule.morec",
        }
    }
}

/// No two files share a name, so none can overwrite another.
pub proof fn file_names_are_distinct(a: StoredFile, b: StoredFile)
    requires
        a != b,
    ensures
        a.name_text() != b.name_text(),
{
    reveal_strlit("mosaic.json");
    reveal_strlit("master_key.mocryptsec0");
    reveal_strlit("bootstrap.mub25");
    reveal_strlit("profile.morec");
    reveal_strlit("key_schedule.morec");
    assert("mosaic.json"@.len() == 11);
    assert("master_key.mocryptsec0"@.len() == 22);
    assert("bootstrap.mub25"@.len() == 15);
    assert("profile.morec"@.len() == 13);
    assert("key_schedule.morec"@.len() == 18);
}

} // verus!
