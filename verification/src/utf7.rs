use crate::ProtocolVersion;
use vstd::prelude::*;

verus! {

/// Byte values the codec treats specially, by their ASCII names.
pub const SHIFT_BYTE: u8 = 38;

pub const MINUS_BYTE: u8 = 45;

pub const PLUS_BYTE: u8 = 43;

pub const COMMA_BYTE: u8 = 44;

pub const UPPER_A: u8 = 65;

pub const UPPER_Z: u8 = 90;

pub const LOWER_A: u8 = 97;

pub const LOWER_Z: u8 = 122;

pub const DIGIT_0: u8 = 48;

pub const DIGIT_9: u8 = 57;


/// Decoder mode while scanning a modified UTF-7 string: copying bytes
/// directly, or inside a shifted section opened by `&`, accumulating
/// modified-base64 bits. `seen` records whether any base64 digit followed
/// the shift character (`&-` encodes a literal `&`); `high` holds a pending
/// high surrogate waiting for its partner.
#[derive(Clone, Copy, PartialEq, Eq, Debug)]
pub enum Utf7Mode {
    Direct,
    Shifted { seen: bool, bits: u32, nbits: u32, high: Option<u32> },
}

/// Decoder state: the bytes written so far and the current mode.
#[verifier::ext_equal]
pub struct DecoderState {
    pub out: Seq<u8>,
    pub mode: Utf7Mode,
}

pub open spec fn init_decoder() -> DecoderState {
    DecoderState { out: Seq::empty(), mode: Utf7Mode::Direct }
}

/// Value of a modified-base64 digit (`,` stands where plain base64 has `/`).
pub open spec fn b64_value(b: u8) -> Option<u32> {
    if UPPER_A <= b && b <= UPPER_Z {
        Some((b - UPPER_A) as u32)
    } else if LOWER_A <= b && b <= LOWER_Z {
        Some(((b - LOWER_A) + 26) as u32)
    } else if DIGIT_0 <= b && b <= DIGIT_9 {
        Some(((b - DIGIT_0) + 52) as u32)
    } else if b == PLUS_BYTE {
        Some(62u32)
    } else if b == COMMA_BYTE {
        Some(63u32)
    } else {
        None
    }
}

/// UTF-8 encoding of one code point.
pub open spec fn utf8_encode(cp: u32) -> Seq<u8> {
    if cp < 0x80 {
        seq![cp as u8]
    } else if cp < 0x800 {
        seq![(0xC0u32 | (cp >> 6u32)) as u8, (0x80u32 | (cp & 0x3Fu32)) as u8]
    } else if cp < 0x10000 {
        seq![
            (0xE0u32 | (cp >> 12u32)) as u8,
            (0x80u32 | ((cp >> 6u32) & 0x3Fu32)) as u8,
            (0x80u32 | (cp & 0x3Fu32)) as u8,
        ]
    } else {
        seq![
            (0xF0u32 | (cp >> 18u32)) as u8,
            (0x80u32 | ((cp >> 12u32) & 0x3Fu32)) as u8,
            (0x80u32 | ((cp >> 6u32) & 0x3Fu32)) as u8,
            (0x80u32 | (cp & 0x3Fu32)) as u8,
        ]
    }
}

/// Effect of one decoded 16-bit code unit on the output and the pending
/// high surrogate; `None` marks a malformed surrogate sequence.
pub open spec fn utf7_unit(out: Seq<u8>, high: Option<u32>, unit: u32) -> Option<
    (Seq<u8>, Option<u32>),
> {
    match high {
        Some(h) => {
            if 0xDC00 <= unit && unit < 0xE000 {
                Some(
                    (
                        out + utf8_encode(
                            ((0x10000 + (h - 0xD800) * 0x400 + (unit - 0xDC00)) as u32),
                        ),
                        None,
                    ),
                )
            } else {
                None
            }
        },
        None => {
            if 0xD800 <= unit && unit < 0xDC00 {
                Some((out, Some(unit)))
            } else if 0xDC00 <= unit && unit < 0xE000 {
                None
            } else {
                Some((out + utf8_encode(unit), None))
            }
        },
    }
}

/// One byte of modified UTF-7 decoding; `None` marks malformed input.
pub open spec fn utf7_step(st: DecoderState, b: u8) -> Option<DecoderState> {
    match st.mode {
        Utf7Mode::Direct => {
            if b == SHIFT_BYTE {
                Some(
                    DecoderState {
                        out: st.out,
                        mode: Utf7Mode::Shifted { seen: false, bits: 0, nbits: 0, high: None },
                    },
                )
            } else {
                Some(DecoderState { out: st.out.push(b), mode: Utf7Mode::Direct })
            }
        },
        Utf7Mode::Shifted { seen, bits, nbits, high } => {
            if b == MINUS_BYTE {
                if !seen {
                    Some(DecoderState { out: st.out.push(SHIFT_BYTE), mode: Utf7Mode::Direct })
                } else if high is Some || bits != 0 {
                    None
                } else {
                    Some(DecoderState { out: st.out, mode: Utf7Mode::Direct })
                }
            } else {
                match b64_value(b) {
                    None => None,
                    Some(v) => {
                        let bits2 = (bits << 6u32) | v;
                        let nbits2 = ((nbits + 6) as u32);
                        if nbits2 >= 16 {
                            let shift = ((nbits2 - 16) as u32);
                            let unit = bits2 >> shift;
                            let bits3 = bits2 & (((1u32 << shift) - 1) as u32);
                            match utf7_unit(st.out, high, unit) {
                                None => None,
                                Some(r) => Some(
                                    DecoderState {
                                        out: r.0,
                                        mode: Utf7Mode::Shifted {
                                            seen: true,
                                            bits: bits3,
                                            nbits: shift,
                                            high: r.1,
                                        },
                                    },
                                ),
                            }
                        } else {
                            Some(
                                DecoderState {
                                    out: st.out,
                                    mode: Utf7Mode::Shifted {
                                        seen: true,
                                        bits: bits2,
                                        nbits: nbits2,
                                        high,
                                    },
                                },
                            )
                        }
                    },
                }
            }
        },
    }
}

/// Decoding a whole byte sequence, byte by byte.
pub open spec fn utf7_run(st: DecoderState, s: Seq<u8>) -> Option<DecoderState>
    decreases s.len(),
{
    if s.len() == 0 {
        Some(st)
    } else {
        match utf7_step(st, s[0]) {
            None => None,
            Some(st1) => utf7_run(st1, s.drop_first()),
        }
    }
}

/// Modified UTF-7 decoding of a mailbox name. Decoding is best effort: a
/// malformed or unterminated shift sequence passes the original text
/// through unchanged rather than failing the containing command.
pub open spec fn spec_decode_modified_utf7(s: Seq<u8>) -> Seq<u8> {
    match utf7_run(init_decoder(), s) {
        Some(st) => if st.mode is Direct {
            st.out
        } else {
            s
        },
        None => s,
    }
}

/// The mailbox-name codec: modified UTF-7 under `Rev1`, the identity under
/// `Rev2` (names there are already UTF-8 and are never decoded).
pub open spec fn spec_utf7_maybe_decode(s: Seq<u8>, version: ProtocolVersion) -> Seq<u8> {
    match version {
        ProtocolVersion::Rev1 => spec_decode_modified_utf7(s),
        ProtocolVersion::Rev2 => s,
    }
}

/// Decoding distributes over concatenation of the input.
pub proof fn lemma_utf7_run_append(st: DecoderState, s1: Seq<u8>, s2: Seq<u8>)
    ensures
        utf7_run(st, s1 + s2) == (match utf7_run(st, s1) {
            None => None::<DecoderState>,
            Some(st1) => utf7_run(st1, s2),
        }),
    decreases s1.len(),
{
    if s1.len() == 0 {
        assert(s1 + s2 =~= s2);
    } else {
        assert((s1 + s2)[0] == s1[0]);
        match utf7_step(st, s1[0]) {
            None => {},
            Some(st1) => {
                assert((s1 + s2).drop_first() =~= s1.drop_first() + s2);
                lemma_utf7_run_append(st1, s1.drop_first(), s2);
            },
        }
    }
}

proof fn lemma_utf7_direct_run(out: Seq<u8>, s: Seq<u8>)
    requires
        forall|i: int| 0 <= i < s.len() ==> s[i] != SHIFT_BYTE,
    ensures
        utf7_run(DecoderState { out, mode: Utf7Mode::Direct }, s) == Some(
            DecoderState { out: out + s, mode: Utf7Mode::Direct },
        ),
    decreases s.len(),
{
    if s.len() == 0 {
        assert(out + s =~= out);
        assert(DecoderState { out: out + s, mode: Utf7Mode::Direct } =~= DecoderState {
            out,
            mode: Utf7Mode::Direct,
        });
    } else {
        lemma_utf7_direct_run(out.push(s[0]), s.drop_first());
        assert(out.push(s[0]) + s.drop_first() =~= out + s);
    }
}

/// Law: under `Rev2` the codec is the identity, so decoding twice is the
/// same as decoding once.
pub proof fn lemma_decode_rev2_identity(s: Seq<u8>)
    ensures
        spec_utf7_maybe_decode(s, ProtocolVersion::Rev2) == s,
        spec_utf7_maybe_decode(
            spec_utf7_maybe_decode(s, ProtocolVersion::Rev2),
            ProtocolVersion::Rev2,
        ) == spec_utf7_maybe_decode(s, ProtocolVersion::Rev2),
{
}

/// Law: `Rev1` decoding leaves any text free of the shift character `&`
/// unchanged.
pub proof fn lemma_decode_rev1_plain(s: Seq<u8>)
    requires
        forall|i: int| 0 <= i < s.len() ==> s[i] != SHIFT_BYTE,
    ensures
        spec_utf7_maybe_decode(s, ProtocolVersion::Rev1) == s,
{
    lemma_utf7_direct_run(Seq::empty(), s);
    assert(Seq::empty() + s =~= s);
}

fn b64_decode_digit(b: u8) -> (r: Option<u32>)
    ensures
        r == b64_value(b),
{
    if UPPER_A <= b && b <= UPPER_Z {
        Some((b - UPPER_A) as u32)
    } else if LOWER_A <= b && b <= LOWER_Z {
        Some((b - LOWER_A) as u32 + 26)
    } else if DIGIT_0 <= b && b <= DIGIT_9 {
        Some((b - DIGIT_0) as u32 + 52)
    } else if b == PLUS_BYTE {
        Some(62)
    } else if b == COMMA_BYTE {
        Some(63)
    } else {
        None
    }
}

fn push_utf8(out: &mut Vec<u8>, cp: u32)
    ensures
        final (out)@ == old(out)@ + utf8_encode(cp),
{
    if cp < 0x80 {
        out.push(#[verifier::truncate] (cp as u8));
        assert(out@ =~= old(out)@ + utf8_encode(cp));
    } else if cp < 0x800 {
        out.push(#[verifier::truncate] ((0xC0u32 | (cp >> 6u32)) as u8));
        out.push(#[verifier::truncate] ((0x80u32 | (cp & 0x3Fu32)) as u8));
        assert(out@ =~= old(out)@ + utf8_encode(cp));
    } else if cp < 0x10000 {
        out.push(#[verifier::truncate] ((0xE0u32 | (cp >> 12u32)) as u8));
        out.push(#[verifier::truncate] ((0x80u32 | ((cp >> 6u32) & 0x3Fu32)) as u8));
        out.push(#[verifier::truncate] ((0x80u32 | (cp & 0x3Fu32)) as u8));
        assert(out@ =~= old(out)@ + utf8_encode(cp));
    } else {
        out.push(#[verifier::truncate] ((0xF0u32 | (cp >> 18u32)) as u8));
        out.push(#[verifier::truncate] ((0x80u32 | ((cp >> 12u32) & 0x3Fu32)) as u8));
        out.push(#[verifier::truncate] ((0x80u32 | ((cp >> 6u32) & 0x3Fu32)) as u8));
        out.push(#[verifier::truncate] ((0x80u32 | (cp & 0x3Fu32)) as u8));
        assert(out@ =~= old(out)@ + utf8_encode(cp));
    }
}

/// A mode the decoder can actually reach: few enough pending bits, and any
/// pending high surrogate in its range.
pub open spec fn mode_wf(mode: Utf7Mode) -> bool {
    mode matches Utf7Mode::Shifted { nbits, high, .. } ==> nbits < 16 && (high matches Some(h)
        ==> 0xD800 <= h && h < 0xDC00)
}

fn utf7_exec_step(out: &mut Vec<u8>, mode: Utf7Mode, b: u8) -> (r: Option<Utf7Mode>)
    requires
        mode_wf(mode),
    ensures
        match utf7_step(DecoderState { out: old(out)@, mode }, b) {
            Some(st) => r == Some(st.mode) && final (out)@ == st.out && mode_wf(st.mode),
            None => r is None,
        },
{
    match mode {
        Utf7Mode::Direct => {
            if b == SHIFT_BYTE {
                Some(Utf7Mode::Shifted { seen: false, bits: 0, nbits: 0, high: None })
            } else {
                out.push(b);
                Some(Utf7Mode::Direct)
            }
        },
        Utf7Mode::Shifted { seen, bits, nbits, high } => {
            if b == MINUS_BYTE {
                if !seen {
                    out.push(SHIFT_BYTE);
                    Some(Utf7Mode::Direct)
                } else if high.is_some() || bits != 0 {
                    None
                } else {
                    Some(Utf7Mode::Direct)
                }
            } else {
                match b64_decode_digit(b) {
                    None => None,
                    Some(v) => {
                        let bits2: u32 = (bits << 6u32) | v;
                        let nbits2: u32 = nbits + 6;
                        if nbits2 >= 16 {
                            let shift: u32 = nbits2 - 16;
                            let unit: u32 = bits2 >> shift;
                            assert((1u32 << shift) >= 1) by (bit_vector)
                                requires
                                    shift < 6u32,
                            ;
                            let bits3: u32 = bits2 & ((1u32 << shift) - 1);
                            match high {
                                Some(h) => {
                                    if 0xDC00 <= unit && unit < 0xE000 {
                                        let cp: u32 = 0x10000 + (h - 0xD800) * 0x400 + (unit
                                            - 0xDC00);
                                        push_utf8(out, cp);
                                        Some(
                                            Utf7Mode::Shifted {
                                                seen: true,
                                                bits: bits3,
                                                nbits: shift,
                                                high: None,
                                            },
                                        )
                                    } else {
                                        None
                                    }
                                },
                                None => {
                                    if 0xD800 <= unit && unit < 0xDC00 {
                                        Some(
                                            Utf7Mode::Shifted {
                                                seen: true,
                                                bits: bits3,
                                                nbits: shift,
                                                high: Some(unit),
                                            },
                                        )
                                    } else if 0xDC00 <= unit && unit < 0xE000 {
                                        None
                                    } else {
                                        push_utf8(out, unit);
                                        Some(
                                            Utf7Mode::Shifted {
                                                seen: true,
                                                bits: bits3,
                                                nbits: shift,
                                                high: None,
                                            },
                                        )
                                    }
                                },
                            }
                        } else {
                            Some(
                                Utf7Mode::Shifted { seen: true, bits: bits2, nbits: nbits2, high },
                            )
                        }
                    },
                }
            }
        },
    }
}

fn decode_modified_utf7(name: Vec<u8>) -> (r: Vec<u8>)
    ensures
        r@ == spec_decode_modified_utf7(name@),
{
    let mut out: Vec<u8> = Vec::new();
    let mut mode = Utf7Mode::Direct;
    let mut i: usize = 0;
    while i < name.len()
        invariant
            i <= name@.len(),
            utf7_run(init_decoder(), name@.take(i as int)) == Some(
                DecoderState { out: out@, mode },
            ),
            mode_wf(mode),
        decreases name@.len() - i,
    {
        let b = name[i];
        let ghost st0 = DecoderState { out: out@, mode };
        proof {
            assert(name@.take(i + 1) =~= name@.take(i as int) + seq![b]);
            lemma_utf7_run_append(init_decoder(), name@.take(i as int), seq![b]);
            assert(seq![b][0] == b);
            assert(seq![b].drop_first() =~= Seq::<u8>::empty());
        }
        match utf7_exec_step(&mut out, mode, b) {
            Some(m2) => {
                proof {
                    let st1 = utf7_step(st0, b)->Some_0;
                    assert(utf7_run(st1, seq![b].drop_first()) == Some(st1));
                    assert(utf7_run(st0, seq![b]) == Some(st1));
                    assert(DecoderState { out: out@, mode: m2 } =~= st1);
                }
                mode = m2;
            },
            None => {
                proof {
                    assert(name@ =~= name@.take(i + 1) + name@.skip(i + 1));
                    lemma_utf7_run_append(init_decoder(), name@.take(i + 1), name@.skip(i + 1));
                }
                return name;
            },
        }
        i += 1;
    }
    proof {
        assert(name@.take(name@.len() as int) =~= name@);
    }
    match mode {
        Utf7Mode::Direct => out,
        Utf7Mode::Shifted { .. } => name,
    }
}

/// Decodes a mailbox name according to the protocol revision: modified
/// UTF-7 under `Rev1`, unchanged under `Rev2`. Malformed input passes
/// through unchanged.
pub fn utf7_maybe_decode(name: Vec<u8>, version: ProtocolVersion) -> (r: Vec<u8>)
    ensures
        r@ == spec_utf7_maybe_decode(name@, version),
{
    match version {
        ProtocolVersion::Rev1 => decode_modified_utf7(name),
        ProtocolVersion::Rev2 => name,
    }
}

} // verus!
