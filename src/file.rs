use vstd::prelude::*;

use crate::error::{AppError, ErrorView};
use crate::path::{is_separator, join, join_name, ValidatedPath};

verus! {

/// The largest file, in bytes, that a read loads (50 MiB).
pub const MAX_FILE_SIZE: u64 = 50 * 1024 * 1024;

/// Checks a file's size against the read ceiling before its content is loaded.
pub fn check_read_size(size: u64) -> (r: Result<(), AppError>)
    ensures
        size <= MAX_FILE_SIZE ==> r is Ok,
        size > MAX_FILE_SIZE ==> r is Err && r->Err_0@ == (ErrorView::FileTooLarge {
            size,
            max: MAX_FILE_SIZE,
        }),
{
    if size > MAX_FILE_SIZE {
        Err(AppError::FileTooLarge { size, max: MAX_FILE_SIZE })
    } else {
        Ok(())
    }
}

/// The suffix of the sibling path that an atomic write stages its content in.
pub open spec fn staging_suffix() -> Seq<char> {
    seq!['.', 't', 'm', 'p']
}

/// The sibling path, in the same directory, that a write to `target` stages
/// its content in before renaming it over the target.
pub fn staging_path(target: &str) -> (r: String)
    ensures
        r@ == target@ + staging_suffix(),
{
    let mut r = String::from_str(target);
    r.append(".tmp");
    proof {
        reveal_strlit(".tmp");
        assert(".tmp"@ =~= staging_suffix());
    }
    r
}

/// The staging path of a write differs from its target only by a suffix
/// that holds no separator: it is a distinct file in the same directory, so
/// renaming it over the target replaces the target in one step.
pub proof fn lemma_staging_is_sibling(target: Seq<char>)
    ensures
        target + staging_suffix() != target,
        (target + staging_suffix()).subrange(0, target.len() as int) == target,
        forall|k: int|
            target.len() <= k < target.len() + 4 ==> !is_separator(
                #[trigger] (target + staging_suffix())[k],
            ),
{
    assert((target + staging_suffix()).len() == target.len() + 4);
    assert((target + staging_suffix()).subrange(0, target.len() as int) =~= target);
}

/// How a write reaches its target.
#[derive(Debug, Clone, Copy)]
pub enum WriteMode {
    /// Write a sibling staging file, then rename it over the target: an
    /// observer sees the old content or the new, never a part.
    Atomic,
    /// Write the target in place.
    Direct,
}

/// Where a write puts its content first, and the path it must end at.
pub struct WritePlan {
    pub staging: String,
    pub target: String,
}

impl WritePlan {
    /// Whether the staged content must still be renamed over the target.
    pub fn needs_rename(&self) -> (r: bool)
        ensures
            r == (self.staging@ != self.target@),
    {
        !(self.staging == self.target)
    }
}

/// Plans a write of `target` in the given mode.
pub fn plan_write(target: &ValidatedPath, mode: WriteMode) -> (r: WritePlan)
    ensures
        r.target@ == target@,
        mode is Atomic ==> r.staging@ == target@ + staging_suffix() && r.staging@ != r.target@,
        mode is Direct ==> r.staging@ == target@,
{
    let t = String::from_str(target.as_str());
    let staging = match mode {
        WriteMode::Atomic => staging_path(target.as_str()),
        WriteMode::Direct => String::from_str(target.as_str()),
    };
    proof {
        if mode is Atomic {
            assert(staging@.len() == t@.len() + 4);
        }
    }
    WritePlan { staging, target: t }
}

/// The name of the settings file in the application's data directory.
pub open spec fn settings_file_name() -> Seq<char> {
    seq!['s', 'e', 't', 't', 'i', 'n', 'g', 's', '.', 'j', 's', 'o', 'n']
}

/// The settings file in the data directory `dir`, and the sibling that a
/// write of it stages in.
pub fn settings_paths(dir: &str) -> (r: (String, String))
    ensures
        r.0@ == join(dir@, settings_file_name()),
        r.1@ == r.0@ + staging_suffix(),
{
    proof {
        reveal_strlit("settings.json");
        assert("settings.json"@ =~= settings_file_name());
    }
    let file = join_name(dir, "settings.json");
    let staging = staging_path(file.as_str());
    (file, staging)
}

/// The settings text to hand back: the stored text, or `null` where no
/// settings have been stored yet.
pub fn settings_or_null(stored: Option<String>) -> (r: String)
    ensures
        r@ == (match stored {
            Some(s) => s@,
            None => seq!['n', 'u', 'l', 'l'],
        }),
{
    match stored {
        Some(s) => s,
        None => {
            proof {
                reveal_strlit("null");
            }
            String::from_str("null")
        },
    }
}

} // verus!
