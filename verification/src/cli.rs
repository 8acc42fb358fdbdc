use vstd::prelude::*;

use crate::base64_opts::Base64Subcommand;
use crate::strutil::str_eq;
use crate::text_opts::TextSubcommand;

verus! {

/// The top-level invocation: exactly one subcommand per run.
#[derive(Debug)]
pub struct Opts {
    pub cmd: Subcommand,
}

/// The commands the tool offers.
#[derive(Debug)]
pub enum Subcommand {
    GenPass(GenPassOpts),
    Base64(Base64Subcommand),
    Text(TextSubcommand),
}

/// Parameters of a password generation run: the length asked for and which
/// character classes must appear.
#[derive(Debug)]
pub struct GenPassOpts {
    pub length: u8,
    pub uppercase: bool,
    pub lowercase: bool,
    pub number: bool,
    pub symbol: bool,
}

/// Relies on `std::path::Path::exists`: whether the name denotes something
/// present on this machine's disk. Nothing is promised of the answer.
#[verifier::external_body]
fn path_exists(name: &str) -> bool {
    std::path::Path::new(name).exists()
}

/// Accepts an input designator: either `-`, which stands for the standard
/// input, or the name of a file that exists right now. Whatever the disk
/// holds, the answer is either the designator unchanged or the fixed
/// not-found message, and `-` is always accepted.
pub fn verify_file(filename: &str) -> (r: Result<String, String>)
    ensures
        filename@ == "-"@ ==> (r matches Ok(f) && f@ == filename@),
        r matches Ok(f) ==> f@ == filename@,
        r matches Err(e) ==> e@ == "File not found"@ && filename@ != "-"@,
{
    if str_eq(filename, "-") || path_exists(filename) {
        Ok(filename.to_owned())
    } else {
        Err("File not found".to_owned())
    }
}

} // verus!
