//! Error values returned by every fallible operation.
use vstd::prelude::*;

verus! {

/// An error: a status code of the native library together with its description.
/// Code `0` marks an error raised by this library itself.
#[derive(Debug)]
pub struct Error {
    code: i32,
    description: String,
}

/// Whether `c` has the Unicode property White_Space.
pub open spec fn is_white_space(c: char) -> bool {
    let u = c as u32;
    ||| 0x09 <= u <= 0x0d
    ||| u == 0x20
    ||| u == 0x85
    ||| u == 0xa0
    ||| u == 0x1680
    ||| 0x2000 <= u <= 0x200a
    ||| u == 0x2028
    ||| u == 0x2029
    ||| u == 0x202f
    ||| u == 0x205f
    ||| u == 0x3000
}

/// `s` without its leading white space.
pub open spec fn trim_start_of(s: Seq<char>) -> Seq<char>
    decreases s.len(),
{
    if s.len() > 0 && is_white_space(s[0]) {
        trim_start_of(s.drop_first())
    } else {
        s
    }
}

/// `s` without its trailing white space.
pub open spec fn trim_end_of(s: Seq<char>) -> Seq<char>
    decreases s.len(),
{
    if s.len() > 0 && is_white_space(s.last()) {
        trim_end_of(s.drop_last())
    } else {
        s
    }
}

/// `s` without its leading and trailing white space.
pub open spec fn trim_of(s: Seq<char>) -> Seq<char> {
    trim_end_of(trim_start_of(s))
}

/// Relies on `str::trim`: it returns `s` without leading and trailing white
/// space, white space being the characters with the Unicode property
/// White_Space.
#[verifier::external_body]
fn trim(s: &str) -> (r: &str)
    ensures
        r@ == trim_of(s@),
{
    s.trim()
}

/// The outcome of a native call: `Ok` for status `0`; otherwise the native
/// error with that status and the message the library gave for it.
pub fn status_result(status: i32, message: &str) -> (r: Result<(), Error>)
    ensures
        r is Ok <==> status == 0,
        match r {
            Ok(_) => true,
            Err(e) => e.spec_code() == status && e.spec_description() == trim_of(message@),
        },
{
    if status == 0 {
        Ok(())
    } else {
        Err(Error::new(status, message))
    }
}

/// Length of the text in a buffer that the native library filled: the bytes
/// before the first NUL, or the whole buffer if it holds none.
pub fn terminated_len(buf: &[u8]) -> (r: usize)
    ensures
        r <= buf@.len(),
        forall|i: int| 0 <= i < r ==> buf@[i] != 0,
        r < buf@.len() ==> buf@[r as int] == 0,
{
    let mut i: usize = 0;
    while i < buf.len()
        invariant
            i <= buf@.len(),
            forall|k: int| 0 <= k < i ==> buf@[k] != 0,
        decreases buf@.len() - i,
    {
        if buf[i] == 0 {
            return i;
        }
        i = i + 1;
    }
    i
}

/// Construction of errors.
pub trait PrivateErrorConstructor: Sized {
    /// An error of the native library: its status code and the message that
    /// the library gave for it, without surrounding white space.
    fn new(code: i32, message: &str) -> (r: Error)
        ensures
            r.spec_code() == code,
            r.spec_description() == trim_of(message@),
    ;

    /// An error raised by this library itself: code `0` and the given text.
    fn custom_error(text: &str) -> (r: Error)
        ensures
            r.spec_code() == 0,
            r.spec_description() == text@,
    ;
}

impl PrivateErrorConstructor for Error {
    fn new(code: i32, message: &str) -> (r: Error) {
        Error { code, description: trim(message).to_owned() }
    }

    fn custom_error(text: &str) -> (r: Error) {
        Error { code: 0, description: text.to_owned() }
    }
}

impl Error {
    pub closed spec fn spec_code(&self) -> i32 {
        self.code
    }

    pub closed spec fn spec_description(&self) -> Seq<char> {
        self.description@
    }

    /// The error code.
    pub fn code(&self) -> (r: i32)
        ensures
            r == self.spec_code(),
    {
        self.code
    }

    /// The error description.
    pub fn description(&self) -> (r: &str)
        ensures
            r@ == self.spec_description(),
    {
        self.description.as_str()
    }
}

} // verus!
