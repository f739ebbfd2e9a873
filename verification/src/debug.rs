//! Readable renderings of byte buffers for diagnostics.
//!
//! A buffer is shown as printable ASCII with the usual backslash escapes,
//! unprintable bytes as lowercase two-digit hex; or byte for byte in hex.
//! The exact output is specified and the renderers are proved to produce it.

use vstd::prelude::*;

verus! {

/// The lowercase hex digit of a value below 16.
pub open spec fn spec_hex_digit(n: u8) -> u8
    recommends
        n < 16,
{
    if n < 10 {
        (48 + n) as u8
    } else {
        (87 + n) as u8
    }
}

/// How one byte is shown: control characters by their escapes, a doubled
/// quote escape only in the quoted form, printable ASCII as itself, and
/// everything else as `\xNN`.
pub open spec fn spec_escape_byte(b: u8, quoted: bool) -> Seq<u8> {
    if b == 0 {
        seq![92u8, 48u8]
    } else if b == 13 {
        seq![92u8, 114u8]
    } else if b == 10 {
        seq![92u8, 110u8]
    } else if b == 9 {
        seq![92u8, 116u8]
    } else if b == 92 {
        seq![92u8]
    } else if b == 34 && quoted {
        seq![92u8, 34u8]
    } else if 0x20 <= b <= 0x7e {
        seq![b]
    } else {
        seq![92u8, 120u8, spec_hex_digit(b / 16), spec_hex_digit((b % 16) as u8)]
    }
}

/// A whole buffer, escaped byte for byte.
pub open spec fn spec_escape(s: Seq<u8>, quoted: bool) -> Seq<u8>
    decreases s.len(),
{
    if s.len() == 0 {
        Seq::empty()
    } else {
        spec_escape(s.drop_last(), quoted) + spec_escape_byte(s.last(), quoted)
    }
}

/// A whole buffer, every byte as `\xNN`.
pub open spec fn spec_hex_escape(s: Seq<u8>) -> Seq<u8>
    decreases s.len(),
{
    if s.len() == 0 {
        Seq::empty()
    } else {
        spec_hex_escape(s.drop_last()) + seq![
            92u8,
            120u8,
            spec_hex_digit(s.last() / 16),
            spec_hex_digit((s.last() % 16) as u8),
        ]
    }
}

/// The lowercase hex digit of a value below 16.
fn hex_digit(n: u8) -> (r: u8)
    requires
        n < 16,
    ensures
        r == spec_hex_digit(n),
{
    if n < 10 {
        48 + n
    } else {
        87 + n
    }
}

/// Appends the escape of one byte.
fn push_escaped(out: &mut Vec<u8>, b: u8, quoted: bool)
    ensures
        final(out)@ == old(out)@ + spec_escape_byte(b, quoted),
{
    if b == 0 {
        out.push(92);
        out.push(48);
    } else if b == 13 {
        out.push(92);
        out.push(114);
    } else if b == 10 {
        out.push(92);
        out.push(110);
    } else if b == 9 {
        out.push(92);
        out.push(116);
    } else if b == 92 {
        out.push(92);
    } else if b == 34 && quoted {
        out.push(92);
        out.push(34);
    } else if 0x20 <= b && b <= 0x7e {
        out.push(b);
    } else {
        out.push(92);
        out.push(120);
        out.push(hex_digit(b / 16));
        out.push(hex_digit(b % 16));
    }
    proof {
        assert(final(out)@ =~= old(out)@ + spec_escape_byte(b, quoted));
    }
}

/// A byte buffer shown with printable characters kept and the rest escaped.
pub struct PrintableBuffer<'a>(pub &'a [u8]);

impl<'a> PrintableBuffer<'a> {
    /// The quoted rendering: `b"` and `"` around the escaped bytes, quotes in
    /// the content escaped.
    pub fn debug_bytes(&self) -> (r: Vec<u8>)
        ensures
            r@ == seq![98u8, 34u8] + spec_escape(self.0@, true) + seq![34u8],
    {
        let mut out: Vec<u8> = Vec::new();
        out.push(98);
        out.push(34);
        proof {
            assert(out@ =~= seq![98u8, 34u8] + spec_escape(self.0@.subrange(0, 0), true));
        }
        escape_into(&mut out, self.0, true);
        out.push(34);
        proof {
            assert(out@ =~= seq![98u8, 34u8] + spec_escape(self.0@, true) + seq![34u8]);
        }
        out
    }

    /// The bare rendering: the escaped bytes alone, quotes kept as they are.
    pub fn display_bytes(&self) -> (r: Vec<u8>)
        ensures
            r@ == spec_escape(self.0@, false),
    {
        let mut out: Vec<u8> = Vec::new();
        escape_into(&mut out, self.0, false);
        out
    }
}

/// Appends the escape of every byte of `s`.
fn escape_into(out: &mut Vec<u8>, s: &[u8], quoted: bool)
    ensures
        final(out)@ == old(out)@ + spec_escape(s@, quoted),
{
    let mut i: usize = 0;
    proof {
        assert(spec_escape(s@.subrange(0, 0), quoted) =~= Seq::<u8>::empty());
        assert(out@ =~= old(out)@ + spec_escape(s@.subrange(0, 0), quoted));
    }
    while i < s.len()
        invariant
            i <= s@.len(),
            out@ == old(out)@ + spec_escape(s@.subrange(0, i as int), quoted),
        decreases s@.len() - i,
    {
        push_escaped(out, s[i], quoted);
        proof {
            assert(s@.subrange(0, i + 1).drop_last() =~= s@.subrange(0, i as int));
            assert(s@.subrange(0, i + 1).last() == s@[i as int]);
            assert(out@ =~= old(out)@ + spec_escape(s@.subrange(0, i + 1), quoted));
        }
        i += 1;
    }
    proof {
        assert(s@.subrange(0, s@.len() as int) =~= s@);
    }
}

/// A byte buffer shown as hex throughout.
pub struct EscapedBuffer<'a>(pub &'a [u8]);

impl<'a> EscapedBuffer<'a> {
    /// The quoted rendering: `b"` and `"` around every byte as `\xNN`.
    pub fn debug_bytes(&self) -> (r: Vec<u8>)
        ensures
            r@ == seq![98u8, 34u8] + spec_hex_escape(self.0@) + seq![34u8],
    {
        let mut out: Vec<u8> = Vec::new();
        out.push(98);
        out.push(34);
        proof {
            assert(spec_hex_escape(self.0@.subrange(0, 0)) =~= Seq::<u8>::empty());
            assert(out@ =~= seq![98u8, 34u8] + spec_hex_escape(self.0@.subrange(0, 0)));
        }
        let mut i: usize = 0;
        while i < self.0.len()
            invariant
                i <= self.0@.len(),
                out@ == seq![98u8, 34u8] + spec_hex_escape(self.0@.subrange(0, i as int)),
            decreases self.0@.len() - i,
        {
            let b = self.0[i];
            out.push(92);
            out.push(120);
            out.push(hex_digit(b / 16));
            out.push(hex_digit(b % 16));
            proof {
                assert(self.0@.subrange(0, i + 1).drop_last() =~= self.0@.subrange(0, i as int));
                assert(self.0@.subrange(0, i + 1).last() == self.0@[i as int]);
                assert(out@ =~= seq![98u8, 34u8] + spec_hex_escape(self.0@.subrange(0, i + 1)));
            }
            i += 1;
        }
        out.push(34);
        proof {
            assert(self.0@.subrange(0, self.0@.len() as int) =~= self.0@);
            assert(out@ =~= seq![98u8, 34u8] + spec_hex_escape(self.0@) + seq![34u8]);
        }
        out
    }
}

} // verus!
