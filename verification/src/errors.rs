//! The typed errors of the library, and their rendering as text.

use crate::dec::dec_chars;
use crate::dec::u32_to_dec_string;
use vstd::prelude::*;
use vstd::string::StringExecFns;

verus! {

/// `std::io::Error` is declared here so that error variants can carry the
/// original OS error value through the library.
#[verifier::external_type_specification]
#[verifier::external_body]
pub struct ExIoError(std::io::Error);

/// Everything that can go wrong while connecting or relaying.
#[derive(Debug)]
pub enum BatonError {
    /// Opening the named pipe failed with a non-retryable error, or with a
    /// retryable one while polling was disabled.
    PipeConnection(std::io::Error),
    /// The connect retry cap was reached; carries the attempt count.
    PollingLimitReached(u32),
    /// The rendezvous file was missing, unreadable, malformed, or short.
    AssuanParse(String),
    /// The TCP connect or the nonce write failed.
    AssuanConnection(std::io::Error),
    /// A relay-path I/O failure that is not a broken pipe.
    Io(std::io::Error),
}

impl From<std::io::Error> for BatonError {
    /// A bare I/O error becomes the `Io` variant.
    fn from(e: std::io::Error) -> (r: BatonError)
        ensures
            r == BatonError::Io(e),
    {
        BatonError::Io(e)
    }
}

impl vstd::std_specs::convert::FromSpecImpl<std::io::Error> for BatonError {
    open spec fn obeys_from_spec() -> bool {
        true
    }

    open spec fn from_spec(e: std::io::Error) -> BatonError {
        BatonError::Io(e)
    }
}

/// Relies on the `Display` impl of `std::io::Error` for the OS error's own
/// text; nothing is assumed about it.
#[verifier::external_body]
fn io_error_text(e: &std::io::Error) -> String {
    format!("{}", e)
}

impl BatonError {
    /// The error's text: a fixed phrase naming what failed, followed by the
    /// detail carried in the variant.
    pub fn message(&self) -> (r: String)
        ensures
            self is PipeConnection ==> "Failed to connect to named pipe: "@.is_prefix_of(r@),
            self is PollingLimitReached ==> r@ == "Polling limit reached after "@ + dec_chars(
                self->PollingLimitReached_0 as nat,
            ) + " attempts"@,
            self is AssuanParse ==> r@ == "Failed to parse Assuan socket file: "@
                + self->AssuanParse_0@,
            self is AssuanConnection ==> "Failed to connect to Assuan TCP socket: "@.is_prefix_of(
                r@,
            ),
            self is Io ==> "I/O error: "@.is_prefix_of(r@),
    {
        match self {
            BatonError::PipeConnection(e) => {
                let mut s = String::from_str("Failed to connect to named pipe: ");
                let t = io_error_text(e);
                s.append(t.as_str());
                proof {
                    lemma_concat_prefix(s@, "Failed to connect to named pipe: "@, t@);
                }
                s
            },
            BatonError::PollingLimitReached(n) => {
                let mut s = String::from_str("Polling limit reached after ");
                let t = u32_to_dec_string(*n);
                s.append(t.as_str());
                s.append(" attempts");
                s
            },
            BatonError::AssuanParse(reason) => {
                let mut s = String::from_str("Failed to parse Assuan socket file: ");
                s.append(reason.as_str());
                s
            },
            BatonError::AssuanConnection(e) => {
                let mut s = String::from_str("Failed to connect to Assuan TCP socket: ");
                let t = io_error_text(e);
                s.append(t.as_str());
                proof {
                    lemma_concat_prefix(s@, "Failed to connect to Assuan TCP socket: "@, t@);
                }
                s
            },
            BatonError::Io(e) => {
                let mut s = String::from_str("I/O error: ");
                let t = io_error_text(e);
                s.append(t.as_str());
                proof {
                    lemma_concat_prefix(s@, "I/O error: "@, t@);
                }
                s
            },
        }
    }
}

/// A sequence opens with everything it was concatenated onto.
proof fn lemma_concat_prefix(whole: Seq<char>, head: Seq<char>, tail: Seq<char>)
    requires
        whole == head + tail,
    ensures
        head.is_prefix_of(whole),
{
    assert(head =~= whole.subrange(0, head.len() as int));
}

} // verus!
