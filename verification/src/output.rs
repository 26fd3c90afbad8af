//! The output-format selection: which formats are implemented, and where the
//! finished run is written by default.

use vstd::prelude::*;
use vstd::string::*;

use crate::errors::PeekError;

verus! {

/// The accepted output formats. CSV is accepted as a selector but not yet
/// implemented.
#[derive(Clone, Copy, Debug, PartialEq, Eq, Structural)]
pub enum Format {
    Csv,
    Json,
}

impl Format {
    /// The file-name extension of the format.
    pub open spec fn ext(self) -> Seq<char> {
        match self {
            Format::Csv => "csv"@,
            Format::Json => "json"@,
        }
    }

    /// The format's name, as it appears in the default output file name.
    pub fn name(&self) -> (r: &'static str)
        ensures
            r@ == self.ext(),
    {
        match self {
            Format::Csv => "csv",
            Format::Json => "json",
        }
    }

    /// Whether the format can actually be rendered: selecting the accepted
    /// but unimplemented format fails explicitly, before any output exists.
    pub fn validate(&self) -> (r: Result<(), PeekError>)
        ensures
            r is Ok <==> *self is Json,
            r is Err ==> r->Err_0 == PeekError::NotImplemented,
    {
        match self {
            Format::Json => Ok(()),
            Format::Csv => Err(PeekError::NotImplemented),
        }
    }

    /// The default output file name, `peek.` followed by the format's
    /// extension.
    pub fn default_file_name(&self) -> (r: String)
        ensures
            r@ == "peek."@ + self.ext(),
    {
        let r = String::from_str("peek.").concat(self.name());
        r
    }
}

/// The output destination: the user's path when one was given, otherwise the
/// format's default file name placed in the given working directory.
pub fn output_path(user_path: Option<String>, cwd: &str, format: &Format) -> (r: String)
    ensures
        user_path is Some ==> r == user_path->0,
        user_path is None ==> r@ == cwd@ + "/"@ + ("peek."@ + format.ext()),
{
    match user_path {
        Some(p) => p,
        None => {
            let r = String::from_str(cwd).concat("/").concat(format.default_file_name().as_str());
            proof {
                assert(r@ =~= cwd@ + "/"@ + ("peek."@ + format.ext()));
            }
            r
        },
    }
}

} // verus!
