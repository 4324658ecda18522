//! Credentials of units.

use std::path::PathBuf;
use vstd::prelude::*;

verus! {

/// Credential loader for units.
///
/// Credentials are read by systemd on unit startup and exported by their ID.
///
/// **Note**: only the user associated with the unit and the superuser may access credentials.
///
/// More documentation: <https://www.freedesktop.org/software/systemd/man/systemd.exec.html#Credentials>
#[derive(Clone, Debug)]
pub struct CredentialLoader {
    dir: PathBuf,
}

impl CredentialLoader {
    /// The directory that holds the credentials.
    pub closed spec fn directory(&self) -> PathBuf {
        self.dir
    }

    /// Makes a loader for the credentials in `dir`, the value of
    /// `$CREDENTIALS_DIRECTORY` if it is set; `is_dir` says whether that is a
    /// directory. There is no loader where no credentials are available.
    pub fn new(dir: Option<PathBuf>, is_dir: bool) -> (loader: Option<Self>)
        ensures
            loader is Some <==> dir is Some && is_dir,
            loader matches Some(l) ==> Some(l.directory()) == dir,
    {
        match dir {
            Some(dir) => if is_dir {
                Some(Self { dir })
            } else {
                None
            },
            None => None,
        }
    }

    /// Returns the directory that holds the credentials.
    pub fn dir(&self) -> (dir: &PathBuf)
        ensures
            *dir == self.directory(),
    {
        &self.dir
    }
}

} // verus!
