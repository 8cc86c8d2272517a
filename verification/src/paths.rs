//! The local files of a deployment. Each stands beside the document, under
//! the name of the document without its extension, followed by what tells
//! the file.

use vstd::prelude::*;
use vstd::string::*;

verus! {

/// What `std::path::Path::parent` returns for a path, on the platform that
/// the library is built for: the path without its final component, if there
/// is one.
pub uninterp spec fn path_parent(path: Seq<char>) -> Option<Seq<char>>;

/// What `std::path::Path::file_stem` returns for a path, on the platform
/// that the library is built for: the file name without its extension, if
/// the path has a file name.
pub uninterp spec fn path_file_stem(path: Seq<char>) -> Option<Seq<char>>;

/// What `std::path::Path::join` returns for a path and a path to adjoin,
/// on the platform that the library is built for.
pub uninterp spec fn path_join(base: Seq<char>, name: Seq<char>) -> Option<Seq<char>>;

/// Calls `std::path::Path::parent` on a path given as text.
#[verifier::external_body]
fn parent_of(path: &str) -> (parent: Option<String>)
    ensures
        parent.deep_view() == path_parent(path@),
{
    match std::path::Path::new(path).parent() {
        Some(p) => match p.to_str() {
            Some(s) => Some(s.to_string()),
            None => None,
        },
        None => None,
    }
}

/// Calls `std::path::Path::file_stem` on a path given as text.
#[verifier::external_body]
fn file_stem_of(path: &str) -> (stem: Option<String>)
    ensures
        stem.deep_view() == path_file_stem(path@),
{
    match std::path::Path::new(path).file_stem() {
        Some(stem) => match stem.to_str() {
            Some(s) => Some(s.to_string()),
            None => None,
        },
        None => None,
    }
}

/// Calls `std::path::Path::join` on two paths given as text.
#[verifier::external_body]
fn join_paths(base: &str, name: &str) -> (joined: Option<String>)
    ensures
        joined.deep_view() == path_join(base@, name@),
{
    match std::path::Path::new(base).join(std::path::Path::new(name)).to_str() {
        Some(s) => Some(s.to_string()),
        None => None,
    }
}

/// The file beside `path` whose name is the file stem of `path` followed by
/// `suffix`; nothing where `path` has no parent or no file name.
pub open spec fn sibling_path(path: Seq<char>, suffix: Seq<char>) -> Option<Seq<char>> {
    match (path_parent(path), path_file_stem(path)) {
        (Some(dir), Some(stem)) => path_join(dir, stem + suffix),
        _ => None,
    }
}

/// The file beside `path` whose name is the file stem of `path` followed by
/// `suffix`.
pub fn sibling_of(path: &str, suffix: &str) -> (sibling: Option<String>)
    ensures
        sibling.deep_view() == sibling_path(path@, suffix@),
{
    match (parent_of(path), file_stem_of(path)) {
        (Some(dir), Some(stem)) => {
            let name = stem.concat(suffix);
            join_paths(dir.as_str(), name.as_str())
        },
        _ => None,
    }
}

/// Where the private key of the machines is stored.
pub fn get_ssh_private_key_path(spec_file_path: &str) -> (path: Option<String>)
    ensures
        path.deep_view() == sibling_path(spec_file_path@, "-ec2-access.key"@),
{
    sibling_of(spec_file_path, "-ec2-access.key")
}

/// Where the public key of the machines is stored.
pub fn get_ssh_public_key_path(spec_file_path: &str) -> (path: Option<String>)
    ensures
        path.deep_view() == sibling_path(spec_file_path@, "-ec2-access.pub.pem"@),
{
    sibling_of(spec_file_path, "-ec2-access.pub.pem")
}

/// Where the commands to reach the machines are written.
pub fn get_ssh_commands_path(spec_file_path: &str) -> (path: Option<String>)
    ensures
        path.deep_view() == sibling_path(spec_file_path@, "-ssh-commands.sh"@),
{
    sibling_of(spec_file_path, "-ssh-commands.sh")
}

/// Where the init script of the machines is stored.
pub fn get_init_script_path(spec_file_path: &str) -> (path: Option<String>)
    ensures
        path.deep_view() == sibling_path(spec_file_path@, "-init.bash"@),
{
    sibling_of(spec_file_path, "-init.bash")
}

/// Where the release information of a machine is downloaded to.
pub fn get_release_info_file_path(spec_file_path: &str) -> (path: Option<String>)
    ensures
        path.deep_view() == sibling_path(spec_file_path@, "-release-info"@),
{
    sibling_of(spec_file_path, "-release-info")
}

} // verus!
