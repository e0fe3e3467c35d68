//! Minimal control channel: tells the Android client the stream resolution.
//!
//! The hardware decoder on the phone does not renegotiate dimensions from the
//! SPS, so the resolution has to reach the app on another path before the
//! first RTP packet. The daemon is the TCP client (only it knows the other
//! side's address); the Android app listens. One short connection, one line
//! of text, then close.
//!
//! Format: `FLM/1 <width>x<height>\n` in ASCII. The version prefix lets a
//! future, richer message be told apart without ambiguity.
//!
//! Opening the connection and writing the bytes is done outside the library;
//! this module owns the message.

use vstd::prelude::*;
use crate::text::{decimal, lemma_decimal_digits, lemma_decimal_injective, push_decimal};

verus! {

/// Port of the control channel, apart from the media port (5000/UDP).
pub const CONTROL_PORT: u16 = 5001;

/// How long connecting and writing may take, in seconds.
pub const TIMEOUT_SECS: u64 = 3;

/// The line sent to the app: `FLM/1 <width>x<height>\n`.
pub open spec fn resolution_line(width: nat, height: nat) -> Seq<char> {
    "FLM/1 "@ + decimal(width) + "x"@ + decimal(height) + "\n"@
}

/// The control message that announces a `width`x`height` stream.
pub fn resolution_message(width: u16, height: u16) -> (m: String)
    ensures
        m@ == resolution_line(width as nat, height as nat),
{
    let mut m = String::from_str("FLM/1 ");
    push_decimal(&mut m, width as u32);
    m.append("x");
    push_decimal(&mut m, height as u32);
    m.append("\n");
    m
}

/// Every character of the message is ASCII.
pub proof fn lemma_resolution_line_ascii(width: nat, height: nat)
    ensures
        forall|k: int|
            0 <= k < resolution_line(width, height).len() ==> (#[trigger] resolution_line(
                width,
                height,
            )[k]) as u32 <= 127,
{
    reveal_strlit("FLM/1 ");
    reveal_strlit("x");
    reveal_strlit("\n");
    lemma_decimal_digits(width);
    lemma_decimal_digits(height);
    let line = resolution_line(width, height);
    let p = "FLM/1 "@;
    let dw = decimal(width);
    let dh = decimal(height);
    let nw = dw.len() as int;
    let nh = dh.len() as int;
    assert forall|k: int| 0 <= k < line.len() implies (#[trigger] line[k]) as u32 <= 127 by {
        if k < 6 {
            assert(line[k] == p[k]);
        } else if k < 6 + nw {
            assert(line[k] == dw[k - 6]);
        } else if k == 6 + nw {
            assert(line[k] == 'x');
        } else if k < 7 + nw + nh {
            assert(line[k] == dh[k - 7 - nw]);
        } else {
            assert(line[k] == '\n');
        }
    }
}

/// Two messages are equal only when they announce the same resolution: the
/// app can always recover the width and height from the line.
pub proof fn lemma_resolution_line_injective(w1: nat, h1: nat, w2: nat, h2: nat)
    requires
        resolution_line(w1, h1) == resolution_line(w2, h2),
    ensures
        w1 == w2,
        h1 == h2,
{
    reveal_strlit("FLM/1 ");
    reveal_strlit("x");
    reveal_strlit("\n");
    lemma_decimal_digits(w1);
    lemma_decimal_digits(w2);
    lemma_decimal_digits(h1);
    lemma_decimal_digits(h2);
    let a = resolution_line(w1, h1);
    let b = resolution_line(w2, h2);
    let d1 = decimal(w1);
    let d2 = decimal(w2);
    let e1 = decimal(h1);
    let e2 = decimal(h2);
    let n1 = d1.len() as int;
    let n2 = d2.len() as int;
    let m1 = e1.len() as int;
    let m2 = e2.len() as int;
    assert(a.len() == 8 + n1 + m1);
    assert(b.len() == 8 + n2 + m2);
    // The `x` sits right after the width's digits, which are never an `x`.
    assert(a[6 + n1] == 'x');
    assert(b[6 + n2] == 'x');
    if n1 < n2 {
        assert(b[6 + n1] == d2[n1]);
        assert(false);
    }
    if n2 < n1 {
        assert(a[6 + n2] == d1[n2]);
        assert(false);
    }
    assert(d1 =~= a.subrange(6, 6 + n1));
    assert(d2 =~= b.subrange(6, 6 + n2));
    lemma_decimal_injective(w1, w2);
    assert(e1 =~= a.subrange(7 + n1, 7 + n1 + m1));
    assert(e2 =~= b.subrange(7 + n2, 7 + n2 + m2));
    lemma_decimal_injective(h1, h2);
}

} // verus!
