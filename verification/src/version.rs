//! The version of the node, as it reports it.
use vstd::prelude::*;

use crate::text::{append_char, append_decimal, decimal};
use vstd::string::StringExecFns;

verus! {

/// The major version of this package, which has no pre-release tag.
pub const PKG_VERSION_MAJOR: u64 = 0;

/// The minor version of this package.
pub const PKG_VERSION_MINOR: u64 = 1;

/// The patch version of this package.
pub const PKG_VERSION_PATCH: u64 = 0;

/// A version in the form `major.minor.patch`, followed by `-` and the
/// pre-release tag where there is one.
pub open spec fn version_text(major: nat, minor: nat, patch: nat, pre: Seq<char>) -> Seq<char> {
    let version = decimal(major) + seq!['.'] + decimal(minor) + seq!['.'] + decimal(patch);
    if pre.len() == 0 {
        version
    } else {
        version + seq!['-'] + pre
    }
}

/// A version as displayed: the package version, then the short hash of the
/// commit it was built from in brackets, marked `+dirty` where the working
/// tree had changes; the package version alone where the commit is unknown.
pub open spec fn display_text(package: Seq<char>, commit: Option<Seq<char>>, dirty: Option<bool>) -> Seq<char> {
    match commit {
        Some(sha) => if dirty == Some(true) {
            package + seq![' ', '('] + sha + seq!['+', 'd', 'i', 'r', 't', 'y', ')']
        } else {
            package + seq![' ', '('] + sha + seq![')']
        },
        None => package,
    }
}

/// The text of a version: `major.minor.patch`, with `-pre` where the
/// pre-release tag `pre` is not empty.
pub fn format_package_version(major: u64, minor: u64, patch: u64, pre: &str) -> (v: String)
    ensures
        v@ == version_text(major as nat, minor as nat, patch as nat, pre@),
{
    let mut v = String::new();
    append_decimal(&mut v, major);
    append_char(&mut v, '.');
    append_decimal(&mut v, minor);
    append_char(&mut v, '.');
    append_decimal(&mut v, patch);
    if !pre.is_empty() {
        append_char(&mut v, '-');
        v.append(pre);
    }
    proof {
        assert(v@ =~= version_text(major as nat, minor as nat, patch as nat, pre@));
    }
    v
}

/// The text that displays a version built from a commit, see `display_text`.
pub fn format_display_version(package: &str, commit: Option<&str>, dirty: Option<bool>) -> (v: String)
    ensures
        v@ == display_text(
            package@,
            match commit {
                Some(sha) => Some(sha@),
                None => None,
            },
            dirty,
        ),
{
    let mut v = package.to_owned();
    match commit {
        Some(sha) => {
            append_char(&mut v, ' ');
            append_char(&mut v, '(');
            v.append(sha);
            if dirty == Some(true) {
                append_char(&mut v, '+');
                append_char(&mut v, 'd');
                append_char(&mut v, 'i');
                append_char(&mut v, 'r');
                append_char(&mut v, 't');
                append_char(&mut v, 'y');
            }
            append_char(&mut v, ')');
            proof {
                assert(v@ =~= display_text(package@, Some(sha@), dirty));
            }
        },
        None => {},
    }
    v
}

/// The short hash of the commit this package was built from, where known.
pub fn git_commit_hash_short() -> (h: Option<&'static str>)
    ensures
        h is None,
{
    None
}

/// Whether the working tree had changes when this package was built, where known.
pub fn git_dirty() -> (d: Option<bool>)
    ensures
        d is None,
{
    None
}

/// The version of this package.
pub fn package_version() -> (v: String)
    ensures
        v@ == version_text(PKG_VERSION_MAJOR as nat, PKG_VERSION_MINOR as nat, PKG_VERSION_PATCH as nat, Seq::empty()),
{
    let v = format_package_version(PKG_VERSION_MAJOR, PKG_VERSION_MINOR, PKG_VERSION_PATCH, "");
    proof {
        reveal_strlit("");
    }
    v
}

/// The version of this package as displayed, with the commit it was built
/// from where that is known.
pub fn display_version() -> (v: String)
    ensures
        v@ == display_text(
            version_text(PKG_VERSION_MAJOR as nat, PKG_VERSION_MINOR as nat, PKG_VERSION_PATCH as nat, Seq::empty()),
            None,
            None,
        ),
{
    let package = package_version();
    let commit = git_commit_hash_short();
    let dirty = git_dirty();
    format_display_version(package.as_str(), commit, dirty)
}

} // verus!
