//! Path construction for the vault's filesystem layout, and the filesystem
//! actions a two-store mutation asks its caller to perform.
//!
//! Each account owns a subdirectory named by its username inside the data
//! directory; each stored file is a single blob at
//! `<data_dir>/<username>/<filename>`. Only path construction lives here:
//! the vault never touches the disk itself. It hands each mutation's
//! filesystem step to its caller as an [`FsAction`] and is told whether the
//! step succeeded.
use vstd::prelude::*;
use vstd::string::StringExecFns;

verus! {

/// The directory of one account: `<fs_dir>/<username>`.
pub open spec fn spec_account_dir(fs_dir: Seq<char>, username: Seq<char>) -> Seq<char> {
    fs_dir + "/"@ + username
}

/// The blob path of one stored file: `<fs_dir>/<username>/<filename>`.
pub open spec fn spec_file_path(
    fs_dir: Seq<char>,
    username: Seq<char>,
    filename: Seq<char>,
) -> Seq<char> {
    fs_dir + "/"@ + username + "/"@ + filename
}

/// Build the directory path of an account's files.
pub fn get_account_file_dir(fs_dir: &str, username: &str) -> (r: String)
    ensures
        r@ == spec_account_dir(fs_dir@, username@),
        r@.len() > 0,
{
    proof {
        reveal_strlit("/");
    }
    let mut dir = fs_dir.to_owned();
    dir = dir.concat("/");
    dir = dir.concat(username);
    dir
}

/// Build the blob path of a stored file from the account and file names.
pub fn get_file_path(fs_dir: &str, username: &str, filename: &str) -> (r: String)
    ensures
        r@ == spec_file_path(fs_dir@, username@, filename@),
        r@.len() > 0,
{
    proof {
        reveal_strlit("/");
    }
    let mut path = get_account_file_dir(fs_dir, username);
    path = path.concat("/");
    path = path.concat(filename);
    path
}

/// One filesystem step of a two-store mutation, for the caller to perform
/// between opening the vault's metadata transaction and finishing the
/// mutation.
#[derive(Debug)]
pub enum FsAction {
    /// Create the directory at the given path; fail if it already exists.
    CreateDir(String),
    /// Recursively remove the directory at the given path.
    RemoveDirAll(String),
    /// Create a new file at the given path holding the given bytes; fail if
    /// the path already exists.
    CreateFileExclusive(String, Vec<u8>),
    /// Truncate the file at the given path and write the given bytes.
    WriteFile(String, Vec<u8>),
    /// Remove the file at the given path.
    RemoveFile(String),
}

} // verus!
