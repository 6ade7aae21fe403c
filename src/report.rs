use vstd::prelude::*;
use vstd::utf8::{decode_utf8, valid_utf8};

verus! {

/// The characters that `String::from_utf8_lossy` makes of some bytes.
pub uninterp spec fn lossy_utf8(b: Seq<u8>) -> Seq<char>;

/// Relies on `String::from_utf8_lossy`: invalid sequences become U+FFFD, and
/// valid UTF-8 is decoded unchanged.
#[verifier::external_body]
fn decode_lossy(b: &[u8]) -> (r: String)
    ensures
        r@ == lossy_utf8(b@),
        valid_utf8(b@) ==> r@ == decode_utf8(b@),
{
    String::from_utf8_lossy(b).into_owned()
}

/// The source name recorded when a report carries none.
pub open spec fn no_source() -> Seq<char> {
    seq!['n', 'o', 'n', 'e']
}

/// A warning or error that the engine reported, as handed to the
/// diagnostic sink.
pub struct DiagnosticRecord {
    pub source: String,
    pub line: u32,
    pub message: String,
}

impl DiagnosticRecord {
    /// A record from decoded parts; a missing source name becomes "none".
    pub fn new(source: Option<String>, line: u32, message: String) -> (r: DiagnosticRecord)
        ensures
            r.source@ == (match source {
                Some(s) => s@,
                None => no_source(),
            }),
            r.line == line,
            r.message@ == message@,
    {
        let source = match source {
            Some(s) => s,
            None => {
                proof {
                    reveal_strlit("none");
                }
                "none".to_owned()
            },
        };
        DiagnosticRecord { source, line, message }
    }

    /// A record from the raw parts of an engine report: the source name's
    /// bytes if it has one, the line, and the message's bytes.
    pub fn from_report(filename: Option<&[u8]>, line: u32, message: &[u8]) -> (r: DiagnosticRecord)
        ensures
            r.source@ == (match filename {
                Some(f) => lossy_utf8(f@),
                None => no_source(),
            }),
            r.line == line,
            r.message@ == lossy_utf8(message@),
            filename is Some && valid_utf8(filename->0@) ==> r.source@ == decode_utf8(filename->0@),
            valid_utf8(message@) ==> r.message@ == decode_utf8(message@),
    {
        let source = match filename {
            Some(f) => Some(decode_lossy(f)),
            None => None,
        };
        DiagnosticRecord::new(source, line, decode_lossy(message))
    }
}

} // verus!
