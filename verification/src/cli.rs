pub mod csv;
pub mod text;

use vstd::prelude::*;
use vstd::string::StringSliceAdditionalSpecFns;

verus! {

/// The conventional token that selects standard input: the single byte `-`.
pub open spec fn is_stdin_token(s: Seq<u8>) -> bool {
    s == seq![45u8]
}

/// Relies on `std::path::Path::exists`: reports whether the path exists on
/// disk at the moment of the call; nothing is assumed of the result.
#[verifier::external_body]
fn path_exists(p: &str) -> bool {
    std::path::Path::new(p).exists()
}

/// Relies on `std::path::Path::is_dir`: reports whether the path is an
/// existing directory at the moment of the call; nothing is assumed of the
/// result.
#[verifier::external_body]
fn path_is_dir(p: &str) -> bool {
    std::path::Path::new(p).is_dir()
}

fn is_dash(s: &str) -> (r: bool)
    ensures
        r <==> is_stdin_token(s.spec_bytes()),
{
    let bytes = s.as_bytes();
    if bytes.len() != 1 {
        proof {
            assert(s.spec_bytes().len() != 1);
        }
        false
    } else {
        let hit = bytes[0] == 45;
        proof {
            if hit {
                assert(s.spec_bytes() =~= seq![45u8]);
            } else {
                assert(s.spec_bytes() != seq![45u8]);
            }
        }
        hit
    }
}

/// Accept an input-file argument: an existing file, or the token `-` for
/// standard input. Whether any other path is accepted depends on the disk;
/// what is promised is the shape of each outcome, and that `-` always
/// passes.
pub fn verify_file(filename: &str) -> (r: Result<String, String>)
    ensures
        is_stdin_token(filename.spec_bytes()) ==> r is Ok,
        r matches Ok(f) ==> f@ == filename@,
        r matches Err(e) ==> e@ == "File does not exist"@,
{
    if path_exists(filename) || is_dash(filename) {
        Ok(filename.to_owned())
    } else {
        Err("File does not exist".to_owned())
    }
}

/// Accept an output-directory argument: the path must exist and be a
/// directory; both checks depend on the disk, so only the shape of each
/// outcome is promised.
pub fn verify_path(path: &str) -> (r: Result<String, &'static str>)
    ensures
        r matches Ok(p) ==> p@ == path@,
        r matches Err(e) ==> e@ == "Path does not exist or is not a directory"@,
{
    if path_exists(path) && path_is_dir(path) {
        Ok(path.to_owned())
    } else {
        Err("Path does not exist or is not a directory")
    }
}

} // verus!
