//! Filtering a change batch through the nearest ignore-file.
//!
//! The rules live in one ignore-file found at or above the document root
//! (the caller walks upward and probes the filesystem for it). Filtering
//! fails open at every step: no ignore-file, an unparseable one, or an
//! evaluation error on a single path all keep changes rather than risk
//! silently losing a real one. A batch is actionable exactly when at least
//! one kept path remains.

use vstd::prelude::*;

verus! {

#[verifier::external_type_specification]
#[verifier::external_body]
pub struct ExIgnoreFile<'a>(gitignore::File<'a>);

/// Relies on `gitignore::File::new`: loads and parses the ignore-file at
/// `path`; a read or parse failure comes back as an error. The path must
/// name an entry inside some directory — it holds at least one character
/// besides '/' — so that the directory the rules anchor to is defined.
#[verifier::external_body]
fn open_ignore_file<'a>(path: &'a String) -> (r: Result<gitignore::File<'a>, ()>)
    requires
        exists|i: int| 0 <= i < path@.len() && path@[i] != '/',
{
    gitignore::File::new(std::path::Path::new(path.as_str())).map_err(|_| ())
}

/// Relies on `gitignore::File::is_excluded`: whether the loaded rules
/// cover `path`. The answer also consults the filesystem under the rules'
/// directory, so nothing is claimed of its value; an evaluation error
/// comes back as an error.
#[verifier::external_body]
fn path_is_excluded<'a>(file: &gitignore::File<'a>, path: &'a String) -> (r: Result<bool, ()>)
{
    file.is_excluded(std::path::Path::new(path.as_str())).map_err(|_| ())
}

/// The ignore rules' answer for one changed path.
pub enum PathVerdict {
    /// The rules positively cover the path: it is dropped.
    Excluded,
    /// The rules do not cover the path: it is kept.
    Included,
    /// The check itself failed: the path is kept, conservatively.
    CheckFailed,
}

/// Whether one verdict keeps its path in the batch: only a positive
/// exclusion drops it.
pub open spec fn verdict_keeps(v: PathVerdict) -> bool {
    !(v is Excluded)
}

/// Whether any verdict of a batch keeps its path.
pub fn any_kept(verdicts: &Vec<PathVerdict>) -> (r: bool)
    ensures
        r == exists|i: int| 0 <= i < verdicts@.len() && verdict_keeps(#[trigger] verdicts@[i]),
{
    let mut i: usize = 0;
    while i < verdicts.len()
        invariant
            0 <= i <= verdicts@.len(),
            forall|j: int| 0 <= j < i ==> !verdict_keeps(#[trigger] verdicts@[j]),
        decreases verdicts@.len() - i,
    {
        match verdicts[i] {
            PathVerdict::Excluded => (),
            PathVerdict::Included => {
                assert(verdict_keeps(verdicts@[i as int]));
                return true;
            },
            PathVerdict::CheckFailed => {
                assert(verdict_keeps(verdicts@[i as int]));
                return true;
            },
        }
        i += 1;
    }
    false
}

/// Decides whether a batch of changed paths holds at least one change
/// that matters.
///
/// With no ignore-file at hand, or one that fails to load or parse, every
/// path counts — fail open, so changes are never silently lost; the batch
/// is then actionable exactly when it is non-empty. With loaded rules, the
/// batch is actionable exactly when some path is kept, and the verdicts
/// decide that through [`verdict_keeps`] alone — which is why a true
/// answer always vouches for at least one path being present.
pub fn found_unignored_files(ignore_path: Option<&String>, paths: &Vec<String>) -> (r: bool)
    requires
        ignore_path matches Some(p) ==> (exists|i: int| 0 <= i < p@.len() && p@[i] != '/'),
    ensures
        r ==> paths@.len() > 0,
        ignore_path is None ==> (r <==> paths@.len() > 0),
{
    match ignore_path {
        None => paths.len() > 0,
        Some(p) => {
            match open_ignore_file(p) {
                Err(_) => paths.len() > 0,
                Ok(file) => {
                    let mut verdicts: Vec<PathVerdict> = Vec::new();
                    let mut i: usize = 0;
                    while i < paths.len()
                        invariant
                            0 <= i <= paths@.len(),
                            verdicts@.len() == i,
                        decreases paths@.len() - i,
                    {
                        let v = match path_is_excluded(&file, &paths[i]) {
                            Ok(true) => PathVerdict::Excluded,
                            Ok(false) => PathVerdict::Included,
                            Err(_) => PathVerdict::CheckFailed,
                        };
                        verdicts.push(v);
                        i += 1;
                    }
                    any_kept(&verdicts)
                },
            }
        },
    }
}

/// A batch whose every path the rules positively cover is not actionable:
/// nothing in it is kept, so no rebuild and no reload follow from it.
pub proof fn lemma_fully_ignored_batch_is_idle(verdicts: Seq<PathVerdict>)
    requires
        forall|i: int| 0 <= i < verdicts.len() ==> #[trigger] verdicts[i] is Excluded,
    ensures
        !(exists|i: int| 0 <= i < verdicts.len() && verdict_keeps(#[trigger] verdicts[i])),
{
}

} // verus!
