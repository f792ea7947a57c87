//! How the broker's command payloads are told apart: a payload whose first
//! byte that is not ASCII whitespace is `{` or `[` is JSON text, read from
//! that byte on; any other payload is bincode, read whole.

use vstd::prelude::*;

verus! {

/// The bytes that `u8::is_ascii_whitespace` accepts: space, tab, line feed,
/// form feed and carriage return.
pub open spec fn ascii_whitespace(b: u8) -> bool {
    b == 0x20u8 || b == 0x09u8 || b == 0x0Au8 || b == 0x0Cu8 || b == 0x0Du8
}

/// The position of the first byte that is not ASCII whitespace, or the
/// length when there is none.
pub open spec fn first_non_space(p: Seq<u8>) -> int {
    if exists|i: int| 0 <= i < p.len() && !ascii_whitespace(#[trigger] p[i]) {
        choose|i: int|
            0 <= i < p.len() && !ascii_whitespace(#[trigger] p[i]) && forall|j: int| 0 <= j < i ==> ascii_whitespace(p[j])
    } else {
        p.len() as int
    }
}

/// How a command payload is encoded.
#[derive(Debug, Clone, Copy, PartialEq, Eq, Structural)]
pub enum PayloadFormat {
    /// JSON text that starts at this position.
    Json { start: usize },
    /// bincode, from the first byte.
    Bincode,
}

/// Tells how a command payload is encoded.
pub fn payload_format(payload: &[u8]) -> (r: PayloadFormat)
    ensures
        ({
            let k = first_non_space(payload@);
            if k < payload@.len() && (payload@[k] == 0x7Bu8 || payload@[k] == 0x5Bu8) {
                r == PayloadFormat::Json { start: k as usize }
            } else {
                r == PayloadFormat::Bincode
            }
        }),
{
    let mut i: usize = 0;
    while i < payload.len()
        invariant
            i <= payload@.len(),
            forall|j: int| 0 <= j < i ==> ascii_whitespace(payload@[j]),
        decreases payload@.len() - i,
    {
        let b = payload[i];
        if !(b == 0x20 || b == 0x09 || b == 0x0A || b == 0x0C || b == 0x0D) {
            proof {
                let k = first_non_space(payload@);
                assert(!ascii_whitespace(payload@[i as int]));
                assert(k == i) by {
                    assert(exists|x: int| 0 <= x < payload@.len() && !ascii_whitespace(#[trigger] payload@[x]));
                    assert(0 <= k < payload@.len() && !ascii_whitespace(payload@[k])
                        && forall|j: int| 0 <= j < k ==> ascii_whitespace(payload@[j])) by {
                        assert(0 <= i < payload@.len() && !ascii_whitespace(payload@[i as int])
                            && forall|j: int| 0 <= j < i ==> ascii_whitespace(payload@[j]));
                    }
                    if k < i {
                        assert(ascii_whitespace(payload@[k]));
                    }
                    if k > i {
                        assert(ascii_whitespace(payload@[i as int]));
                    }
                }
            }
            if b == 0x7B || b == 0x5B {
                return PayloadFormat::Json { start: i };
            } else {
                return PayloadFormat::Bincode;
            }
        }
        i = i + 1;
    }
    PayloadFormat::Bincode
}

} // verus!
