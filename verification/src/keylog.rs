//! The keystroke-log decoder.
//!
//! A keylog is the raw byte recording Vim writes with its `-W` flag. One
//! decode pass walks the bytes once, front to back: a byte other than the
//! escape marker `0x80` decodes through the single-byte table; the marker
//! announces a 2-byte extended code, looked up in the extended-code table.
//! A marker with fewer than two bytes after it ends the pass cleanly, and an
//! unmapped extended code decodes to the empty (suppressed) token, so
//! decoding is total: every byte sequence yields some token sequence.

use vstd::prelude::*;
use vstd::slice::slice_to_vec;

use crate::keycodes::ExtendedCodeTable;
use crate::keycodes::SingleByteTable;
use crate::keycodes::ext_token;
use crate::keycodes::single_token;

verus! {

/// The escape marker that introduces a 2-byte extended keycode.
pub const ESCAPE_BYTE: u8 = 0x80;

/// The token sequence that one decode pass over the bytes produces: every
/// byte is consumed exactly once, alone or as part of an escaped pair, and
/// the tokens keep the input order.
pub open spec fn decode_spec(s: Seq<u8>) -> Seq<Seq<char>>
    decreases s.len(),
{
    if s.len() == 0 {
        Seq::empty()
    } else if s[0] == ESCAPE_BYTE {
        if s.len() < 3 {
            Seq::empty()
        } else {
            seq![ext_token(s[1], s[2])] + decode_spec(s.skip(3))
        }
    } else {
        seq![single_token(s[0])] + decode_spec(s.skip(1))
    }
}

/// A raw keystroke recording, owned by the decoder for the duration of its
/// decode passes.
pub struct Keylog {
    bytes: Vec<u8>,
}

impl View for Keylog {
    type V = Seq<u8>;

    closed spec fn view(&self) -> Seq<u8> {
        self.bytes@
    }
}

impl Keylog {
    /// Takes a copy of the recorded bytes.
    pub fn new(bytes: &[u8]) -> (r: Self)
        ensures
            r@ == bytes@,
    {
        let bytes = slice_to_vec(bytes);
        Keylog { bytes }
    }

    /// One decode pass against the given tables: the display tokens of the
    /// whole recording, in the recording's order.
    pub fn decode_with(&self, singles: &SingleByteTable, extended: &ExtendedCodeTable) -> (r: Vec<
        String,
    >)
        requires
            singles.wf(),
            extended.wf(),
        ensures
            r.deep_view() == decode_spec(self@),
    {
        let mut out: Vec<String> = Vec::new();
        let mut i: usize = 0;
        let n = self.bytes.len();
        proof {
            assert(self@.skip(0) =~= self@);
        }
        while i < n
            invariant
                i <= n,
                n == self@.len(),
                singles.wf(),
                extended.wf(),
                decode_spec(self@) =~= out.deep_view() + decode_spec(self@.skip(i as int)),
            decreases n - i,
        {
            let ghost rest = self@.skip(i as int);
            let ghost prev = out.deep_view();
            let b = self.bytes[i];
            proof {
                assert(rest[0] == b);
            }
            if b == ESCAPE_BYTE {
                if n - i > 2 {
                    let c1 = self.bytes[i + 1];
                    let c2 = self.bytes[i + 2];
                    proof {
                        assert(rest[1] == c1);
                        assert(rest[2] == c2);
                        assert(rest.skip(3) =~= self@.skip(i + 3));
                    }
                    let token = match extended.lookup(c1, c2) {
                        Some(t) => t.clone(),
                        None => String::new(),
                    };
                    proof {
                        assert(token@ == ext_token(c1, c2));
                    }
                    out.push(token);
                    i += 3;
                    proof {
                        assert(out.deep_view() =~= prev.push(ext_token(c1, c2)));
                        assert(prev.push(ext_token(c1, c2)) + decode_spec(self@.skip(i as int))
                            =~= prev + decode_spec(rest));
                    }
                } else {
                    proof {
                        assert(decode_spec(rest) =~= Seq::<Seq<char>>::empty());
                    }
                    i = n;
                }
            } else {
                let token = singles.token(b).clone();
                out.push(token);
                i += 1;
                proof {
                    assert(rest.skip(1) =~= self@.skip(i as int));
                    assert(out.deep_view() =~= prev.push(single_token(b)));
                    assert(prev.push(single_token(b)) + decode_spec(self@.skip(i as int)) =~= prev
                        + decode_spec(rest));
                }
            }
            proof {
                assert(i == n ==> self@.skip(i as int) =~= Seq::<u8>::empty());
            }
        }
        proof {
            assert(self@.skip(n as int) =~= Seq::<u8>::empty());
            assert(out.deep_view() =~= decode_spec(self@));
        }
        out
    }

    /// One decode pass: builds the two tables and decodes the whole
    /// recording. A fresh pass over the same bytes yields the same tokens.
    pub fn into_iter(&self) -> (r: Vec<String>)
        ensures
            r.deep_view() == decode_spec(self@),
    {
        let singles = SingleByteTable::new();
        let extended = ExtendedCodeTable::new();
        self.decode_with(&singles, &extended)
    }
}

/// A byte stream without the escape marker decodes byte for byte: the token
/// count equals the byte count and token `i` is the single-byte table's
/// entry for byte `i`.
pub proof fn lemma_no_escape_decodes_bytewise(s: Seq<u8>)
    requires
        forall|i: int| 0 <= i < s.len() ==> s[i] != ESCAPE_BYTE,
    ensures
        decode_spec(s).len() == s.len(),
        forall|i: int| 0 <= i < s.len() ==> decode_spec(s)[i] == single_token(s[i]),
    decreases s.len(),
{
    if s.len() == 0 {
    } else {
        assert forall|i: int| 0 <= i < s.skip(1).len() implies s.skip(1)[i] != ESCAPE_BYTE by {
            assert(s.skip(1)[i] == s[i + 1]);
        }
        lemma_no_escape_decodes_bytewise(s.skip(1));
        assert forall|i: int| 0 <= i < s.len() implies decode_spec(s)[i] == single_token(s[i]) by {
            if i > 0 {
                assert(decode_spec(s)[i] == decode_spec(s.skip(1))[i - 1]);
                assert(s.skip(1)[i - 1] == s[i]);
            }
        }
    }
}

/// Decoding is pure and deterministic: the token sequence is a function of
/// the input bytes alone, so two decode passes over identical input yield
/// identical output.
pub proof fn lemma_decode_deterministic(first: Seq<u8>, second: Seq<u8>)
    requires
        first == second,
    ensures
        decode_spec(first) == decode_spec(second),
{
}

} // verus!
