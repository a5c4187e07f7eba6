//! The names that provisioning works with: where the archive comes from,
//! where it is kept, where it is unpacked and where the server's executable
//! is found afterwards.

use vstd::prelude::*;
use crate::text::concatenate;

verus! {

/// The identifier of the server: the name of its archive, without the
/// extension, and of the directory that the archive is unpacked into.
pub const SERVER_ID: &'static str = "jdt-language-server-latest";

/// `base` followed by `segment`, with one `/` between them unless `base`
/// already ends in one.
pub open spec fn joined(base: Seq<char>, segment: Seq<char>) -> Seq<char> {
    if base.len() > 0 && base.last() == '/' {
        base + segment
    } else {
        base + seq!['/'] + segment
    }
}

/// The location of the server's executable below the working directory
/// `base`: the server's directory, then `bin/jdtls`.
pub open spec fn executable_location(base: Seq<char>) -> Seq<char> {
    joined(base, SERVER_ID@) + "/bin/jdtls"@
}

/// The address that the archive is downloaded from.
pub open spec fn archive_url() -> Seq<char> {
    "http://download.eclipse.org/jdtls/snapshots/"@ + SERVER_ID@ + ".tar.gz"@
}

/// The name of the downloaded archive in the working directory.
pub open spec fn archive_name() -> Seq<char> {
    SERVER_ID@ + ".tar.gz"@
}

/// Joins a path segment to a base location.
pub fn join(base: &str, segment: &str) -> (r: String)
    ensures
        r@ == joined(base@, segment@),
{
    let n: usize = base.unicode_len();
    if n > 0 && base.get_char(n - 1) == '/' {
        concatenate(base, segment)
    } else {
        proof {
            reveal_strlit("/");
            assert("/"@ =~= seq!['/']);
        }
        let slashed = concatenate(base, "/");
        concatenate(slashed.as_str(), segment)
    }
}

/// The name of the installation target in the working directory. That
/// this directory exists is the one sign that the server is installed.
pub fn target_name() -> (r: String)
    ensures
        r@ == SERVER_ID@,
{
    SERVER_ID.to_owned()
}

/// The name under which the downloaded archive is kept in the working
/// directory.
pub fn payload_name() -> (r: String)
    ensures
        r@ == archive_name(),
{
    concatenate(SERVER_ID, ".tar.gz")
}

/// The address of the one request that provisioning makes.
pub fn download_url() -> (r: String)
    ensures
        r@ == archive_url(),
{
    let front = concatenate("http://download.eclipse.org/jdtls/snapshots/", SERVER_ID);
    concatenate(front.as_str(), ".tar.gz")
}

/// The location of the server's executable, given the location of the
/// working directory.
pub fn locate_executable(base: &str) -> (r: String)
    ensures
        r@ == executable_location(base@),
{
    let dir = join(base, SERVER_ID);
    concatenate(dir.as_str(), "/bin/jdtls")
}

} // verus!
