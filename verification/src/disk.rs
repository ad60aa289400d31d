//! What the disk says about a path. An answer comes only from asking the
//! disk: a probe records the path that was asked together with the answer,
//! and no code outside this module can make one, so a contract that speaks
//! of a probe of some path says that this path was asked.

use vstd::prelude::*;
use crate::path::is_absolute;

verus! {

/// Whether a path existed when it was asked.
pub struct ExistsProbe {
    asked: String,
    answer: bool,
}

impl ExistsProbe {
    /// The path that was asked.
    pub closed spec fn asked(&self) -> Seq<char> {
        self.asked@
    }

    /// Whether it existed.
    pub closed spec fn present(&self) -> bool {
        self.answer
    }

    /// Whether the path existed.
    pub fn answer(&self) -> (res: bool)
        ensures
            res == self.present(),
    {
        self.answer
    }
}

/// The canonical form of a path when it was asked.
pub struct CanonicalProbe {
    asked: String,
    answer: Option<String>,
}

impl CanonicalProbe {
    /// The path that was asked.
    pub closed spec fn asked(&self) -> Seq<char> {
        self.asked@
    }

    /// Its canonical form, if it had one.
    pub closed spec fn found(&self) -> Option<Seq<char>> {
        match self.answer {
            Some(c) => Some(c@),
            None => None,
        }
    }

    /// The canonical form, if the path had one.
    pub fn into_answer(self) -> (res: Option<String>)
        ensures
            match res {
                Some(c) => self.found() == Some(c@),
                None => self.found() is None,
            },
    {
        self.answer
    }
}

/// Asks the disk whether `path` exists (`std::path::Path::exists`).
/// Trusted: the probe records `path` as the path asked. Its answer depends
/// on the filesystem and is not stated.
#[verifier::external_body]
pub(crate) fn probe_exists(path: String) -> (res: ExistsProbe)
    ensures
        res.asked() == path@,
{
    let answer = std::path::Path::new(&path).exists();
    ExistsProbe { asked: path, answer }
}

/// Asks the disk for the canonical form of `path`
/// (`std::path::Path::canonicalize`: absolute, with `.`, `..` and symbolic
/// links resolved; none when that fails, as for a missing path). Trusted:
/// the probe records `path` as the path asked, and a canonical form is an
/// absolute path. What it is depends on the filesystem and is not stated.
#[verifier::external_body]
pub(crate) fn probe_canonical(path: String) -> (res: CanonicalProbe)
    ensures
        res.asked() == path@,
        res.found() matches Some(c) ==> is_absolute(c),
{
    let answer = match std::path::Path::new(&path).canonicalize() {
        Ok(c) => Some(c.to_string_lossy().to_string()),
        Err(_) => None,
    };
    CanonicalProbe { asked: path, answer }
}

} // verus!
