//! The provisioning agent: a remote-callable object answering the daemon's
//! out-of-band authentication prompts.
//!
//! `DisplayNumeric` is fire-and-forget. `PromptStatic` replies with the
//! operator-entered bytes: the runner reads one line of input and hands it
//! here, where it is trimmed of surrounding ASCII whitespace and decoded
//! from hexadecimal; a malformed line fails the request.

use vstd::prelude::*;
use vstd::string::StringSliceAdditionalSpecFns;
use crate::element::ReqError;
use crate::element::ReqResult;

verus! {

/// Whether `b` is an ASCII whitespace byte, trimmed from prompt input.
pub open spec fn is_ascii_ws(b: u8) -> bool {
    b == 32 || (9 <= b && b <= 13)
}

/// `s` without leading ASCII whitespace.
pub open spec fn trim_front_spec(s: Seq<u8>) -> Seq<u8>
    decreases s.len(),
{
    if s.len() > 0 && is_ascii_ws(s[0]) {
        trim_front_spec(s.skip(1))
    } else {
        s
    }
}

/// `s` without trailing ASCII whitespace.
pub open spec fn trim_back_spec(s: Seq<u8>) -> Seq<u8>
    decreases s.len(),
{
    if s.len() > 0 && is_ascii_ws(s.last()) {
        trim_back_spec(s.drop_last())
    } else {
        s
    }
}

/// `s` without leading and trailing ASCII whitespace.
pub open spec fn trim_spec(s: Seq<u8>) -> Seq<u8> {
    trim_back_spec(trim_front_spec(s))
}

/// Whether `b` is an ASCII hexadecimal digit.
pub open spec fn is_hex_digit(b: u8) -> bool {
    (48 <= b && b <= 57) || (97 <= b && b <= 102) || (65 <= b && b <= 70)
}

/// The value of the hexadecimal digit `b`.
pub open spec fn hex_digit_value(b: u8) -> u8 {
    if 48 <= b && b <= 57 {
        (b - 48) as u8
    } else if 97 <= b && b <= 102 {
        (b - 87) as u8
    } else {
        (b - 55) as u8
    }
}

/// Whether `s` is a well-formed hexadecimal string: even length, hex
/// digits throughout.
pub open spec fn hex_valid(s: Seq<u8>) -> bool {
    s.len() % 2 == 0 && forall|i: int| 0 <= i < s.len() ==> is_hex_digit(s[i])
}

/// The bytes denoted by the hexadecimal string `s`, two digits per byte.
pub open spec fn hex_decode_spec(s: Seq<u8>) -> Seq<u8>
    decreases s.len(),
{
    if s.len() < 2 {
        Seq::empty()
    } else {
        seq![((hex_digit_value(s[0]) * 16 + hex_digit_value(s[1])) as u8)] + hex_decode_spec(
            s.skip(2),
        )
    }
}

/// The value of one hexadecimal digit byte, or `None` if `b` is no digit.
fn hex_digit_val(b: u8) -> (r: Option<u8>)
    ensures
        r is Some <==> is_hex_digit(b),
        r is Some ==> r == Some(hex_digit_value(b)),
{
    if 48 <= b && b <= 57 {
        Some(b - 48)
    } else if 97 <= b && b <= 102 {
        Some(b - 87)
    } else if 65 <= b && b <= 70 {
        Some(b - 55)
    } else {
        None
    }
}

/// Copies `bytes` without leading and trailing ASCII whitespace.
fn trim_ascii(bytes: &[u8]) -> (r: Vec<u8>)
    ensures
        r@ == trim_spec(bytes@),
{
    let n = bytes.len();
    let mut start: usize = 0;
    proof {
        assert(bytes@.skip(0) =~= bytes@);
    }
    while start < n && is_ascii_ws_exec(bytes[start])
        invariant
            start <= n,
            n == bytes@.len(),
            trim_front_spec(bytes@) == trim_front_spec(bytes@.skip(start as int)),
        decreases n - start,
    {
        proof {
            let s = bytes@.skip(start as int);
            assert(s[0] == bytes@[start as int]);
            assert(s.skip(1) =~= bytes@.skip(start + 1 as int));
        }
        start = start + 1;
    }
    proof {
        let s = bytes@.skip(start as int);
        if start < n {
            assert(s[0] == bytes@[start as int]);
        }
        assert(trim_front_spec(bytes@) == s);
    }
    let mut end: usize = n;
    proof {
        let t = bytes@.skip(start as int);
        assert(t.take(n - start as int) =~= t);
    }
    while end > start && is_ascii_ws_exec(bytes[end - 1])
        invariant
            start <= end <= n,
            n == bytes@.len(),
            trim_front_spec(bytes@) == bytes@.skip(start as int),
            trim_back_spec(bytes@.skip(start as int)) == trim_back_spec(
                bytes@.skip(start as int).take(end - start as int),
            ),
        decreases end,
    {
        proof {
            let t = bytes@.skip(start as int);
            let k = end - start as int;
            assert(t.take(k).last() == bytes@[end - 1 as int]);
            assert(t.take(k).drop_last() =~= t.take(k - 1));
        }
        end = end - 1;
    }
    proof {
        let t = bytes@.skip(start as int);
        let k = end - start as int;
        if end > start {
            assert(t.take(k).last() == bytes@[end - 1 as int]);
        }
        assert(trim_back_spec(t.take(k)) == t.take(k));
        assert(t.take(k) =~= bytes@.subrange(start as int, end as int));
    }
    vstd::slice::slice_to_vec(vstd::slice::slice_subrange(bytes, start, end))
}

/// Whether `b` is an ASCII whitespace byte.
fn is_ascii_ws_exec(b: u8) -> (r: bool)
    ensures
        r == is_ascii_ws(b),
{
    b == 32 || (9 <= b && b <= 13)
}

/// Decodes a hexadecimal byte string: exactly the even-length all-digit
/// strings are accepted.
fn hex_decode(bytes: &[u8]) -> (r: Option<Vec<u8>>)
    ensures
        r is Some <==> hex_valid(bytes@),
        r is Some ==> r->Some_0@ == hex_decode_spec(bytes@),
{
    let n = bytes.len();
    if n % 2 != 0 {
        return None;
    }
    let mut out: Vec<u8> = Vec::new();
    let mut i: usize = 0;
    proof {
        assert(bytes@.skip(0) =~= bytes@);
    }
    while i < n
        invariant
            i <= n,
            i % 2 == 0,
            n % 2 == 0,
            n == bytes@.len(),
            forall|j: int| 0 <= j < i ==> is_hex_digit(bytes@[j]),
            out@ + hex_decode_spec(bytes@.skip(i as int)) == hex_decode_spec(bytes@),
        decreases n - i,
    {
        let hi = match hex_digit_val(bytes[i]) {
            Option::Some(v) => v,
            Option::None => {
                return None;
            }
        };
        let lo = match hex_digit_val(bytes[i + 1]) {
            Option::Some(v) => v,
            Option::None => {
                return None;
            }
        };
        let ghost s = bytes@.skip(i as int);
        proof {
            assert(s.len() >= 2);
            assert(s[0] == bytes@[i as int]);
            assert(s[1] == bytes@[i + 1]);
            assert(s.skip(2) =~= bytes@.skip(i + 2));
        }
        out.push(hi * 16 + lo);
        proof {
            assert(out@ + hex_decode_spec(bytes@.skip(i + 2)) =~= hex_decode_spec(bytes@));
        }
        i = i + 2;
    }
    proof {
        assert(bytes@.skip(n as int) =~= Seq::<u8>::empty());
        assert(out@ =~= hex_decode_spec(bytes@));
    }
    Some(out)
}

/// The provisioning agent object.
#[derive(Clone, Copy, Debug, Default, PartialEq, Eq, Structural)]
pub struct ProvisionAgent {
}

impl ProvisionAgent {
    /// Creates a provisioning agent.
    pub fn new() -> (r: Self)
        ensures
            r == (ProvisionAgent {  }),
    {
        ProvisionAgent {  }
    }

    /// The `Capabilities` property: the supported out-of-band methods.
    pub fn capabilities(&self) -> (r: Vec<String>)
        ensures
            r@.len() == 2,
            r@[0]@ == "out-numeric"@,
            r@[1]@ == "static-oob"@,
    {
        let mut caps: Vec<String> = Vec::new();
        caps.push("out-numeric".to_owned());
        caps.push("static-oob".to_owned());
        caps
    }

    /// Acknowledges a request to display a numeric authentication value.
    /// A fire-and-forget notification: always succeeds.
    pub fn display_numeric(&self, kind: &str, value: u32) -> (r: ReqResult<()>)
        ensures
            r == Ok::<(), ReqError>(()),
    {
        let _ = kind;
        let _ = value;
        Ok(())
    }

    /// Answers a static out-of-band prompt from one line of operator
    /// input: the line is trimmed of surrounding ASCII whitespace and
    /// decoded as hexadecimal. Exactly the lines whose trimmed text is an
    /// even number of hexadecimal digits succeed; anything else fails the
    /// request.
    pub fn prompt_static(&self, kind: &str, input: &str) -> (r: ReqResult<Vec<u8>>)
        ensures
            hex_valid(trim_spec(input.spec_bytes())) ==> match r {
                Ok(v) => v@ == hex_decode_spec(trim_spec(input.spec_bytes())),
                Err(_) => false,
            },
            !hex_valid(trim_spec(input.spec_bytes())) ==> r == Err::<Vec<u8>, ReqError>(
                ReqError::Failed,
            ),
    {
        let _ = kind;
        let trimmed = trim_ascii(input.as_bytes());
        match hex_decode(trimmed.as_slice()) {
            Option::Some(v) => Ok(v),
            Option::None => Err(ReqError::Failed),
        }
    }
}

} // verus!
