//! Streaming base64 transcoder.
//!
//! `base64_of` is the mathematical definition of standard padded base64 over a
//! byte sequence; `b64_decode` is its inverse. The `Encoder` turns arbitrarily
//! chunked input into base64 output while keeping at most two leftover bytes
//! between calls, so that the concatenation of all outputs equals the one-shot
//! encoding of the concatenation of all inputs.
use vstd::prelude::*;

verus! {

/// The base64 alphabet: sextet `x` (0..64) to its character.
pub open spec fn b64_char_of(x: u8) -> char {
    if x < 26 {
        ((x + 65) as u8) as char  // 'A'..='Z'
    } else if x < 52 {
        ((x + 71) as u8) as char  // 'a'..='z'
    } else if x < 62 {
        ((x - 4) as u8) as char  // '0'..='9'
    } else if x == 62 {
        '+'
    } else {
        '/'
    }
}

/// Inverse of the alphabet: character to sextet value.
pub open spec fn b64_val_of(c: char) -> u8 {
    let u = c as u32;
    if 65 <= u && u <= 90 {
        (u - 65) as u8
    } else if 97 <= u && u <= 122 {
        (u - 71) as u8
    } else if 48 <= u && u <= 57 {
        (u + 4) as u8
    } else if c == '+' {
        62
    } else {
        63
    }
}

/// One full 3-byte group encodes to 4 characters.
pub open spec fn b64_group(b0: u8, b1: u8, b2: u8) -> Seq<char> {
    seq![
        b64_char_of(b0 >> 2),
        b64_char_of(((b0 & 3) << 4) | (b1 >> 4)),
        b64_char_of(((b1 & 15) << 2) | (b2 >> 6)),
        b64_char_of(b2 & 63),
    ]
}

/// A trailing single byte encodes to 2 characters and "==".
pub open spec fn b64_tail1(b0: u8) -> Seq<char> {
    seq![b64_char_of(b0 >> 2), b64_char_of((b0 & 3) << 4), '=', '=']
}

/// A trailing byte pair encodes to 3 characters and "=".
pub open spec fn b64_tail2(b0: u8, b1: u8) -> Seq<char> {
    seq![
        b64_char_of(b0 >> 2),
        b64_char_of(((b0 & 3) << 4) | (b1 >> 4)),
        b64_char_of((b1 & 15) << 2),
        '=',
    ]
}

/// Standard padded base64 of a whole byte sequence.
pub open spec fn base64_of(s: Seq<u8>) -> Seq<char>
    decreases s.len(),
{
    if s.len() == 0 {
        Seq::empty()
    } else if s.len() == 1 {
        b64_tail1(s[0])
    } else if s.len() == 2 {
        b64_tail2(s[0], s[1])
    } else {
        b64_group(s[0], s[1], s[2]) + base64_of(s.skip(3))
    }
}

/// Decodes one 4-character group, honouring `=` padding.
pub open spec fn b64_degroup(c0: char, c1: char, c2: char, c3: char) -> Seq<u8> {
    let s0 = b64_val_of(c0);
    let s1 = b64_val_of(c1);
    let s2 = b64_val_of(c2);
    let s3 = b64_val_of(c3);
    if c2 == '=' {
        seq![(s0 << 2) | (s1 >> 4)]
    } else if c3 == '=' {
        seq![(s0 << 2) | (s1 >> 4), ((s1 & 15) << 4) | (s2 >> 2)]
    } else {
        seq![(s0 << 2) | (s1 >> 4), ((s1 & 15) << 4) | (s2 >> 2), ((s2 & 3) << 6) | s3]
    }
}

/// Decodes a base64 character sequence, 4 characters at a time.
pub open spec fn b64_decode(t: Seq<char>) -> Seq<u8>
    decreases t.len(),
{
    if t.len() < 4 {
        Seq::empty()
    } else {
        b64_degroup(t[0], t[1], t[2], t[3]) + b64_decode(t.skip(4))
    }
}

/// The alphabet is injective: decoding a sextet's character gives the sextet
/// back, and no alphabet character is the padding character.
proof fn lemma_char_val(x: u8)
    requires
        x < 64,
    ensures
        b64_val_of(b64_char_of(x)) == x,
        b64_char_of(x) != '=',
{
    let c = b64_char_of(x);
    if x < 26 {
        assert(c as u32 == x + 65);
    } else if x < 52 {
        assert(c as u32 == x + 71);
    } else if x < 62 {
        assert(c as u32 == x - 4);
    }
}

/// Decoding a full group's characters recovers the three bytes.
proof fn lemma_group_degroup(b0: u8, b1: u8, b2: u8)
    ensures
        b64_degroup(
            b64_char_of(b0 >> 2),
            b64_char_of(((b0 & 3) << 4) | (b1 >> 4)),
            b64_char_of(((b1 & 15) << 2) | (b2 >> 6)),
            b64_char_of(b2 & 63),
        ) =~= seq![b0, b1, b2],
{
    let s0 = b0 >> 2;
    let s1 = ((b0 & 3) << 4) | (b1 >> 4);
    let s2 = ((b1 & 15) << 2) | (b2 >> 6);
    let s3 = b2 & 63;
    assert(s0 < 64 && s1 < 64 && s2 < 64 && s3 < 64) by (bit_vector)
        requires
            s0 == b0 >> 2 && s1 == ((b0 & 3) << 4) | (b1 >> 4) && s2 == ((b1 & 15) << 2) | (b2
                >> 6) && s3 == b2 & 63,
    ;
    lemma_char_val(s0);
    lemma_char_val(s1);
    lemma_char_val(s2);
    lemma_char_val(s3);
    assert((s0 << 2) | (s1 >> 4) == b0 && ((s1 & 15) << 4) | (s2 >> 2) == b1 && ((s2 & 3) << 6)
        | s3 == b2) by (bit_vector)
        requires
            s0 == b0 >> 2 && s1 == ((b0 & 3) << 4) | (b1 >> 4) && s2 == ((b1 & 15) << 2) | (b2
                >> 6) && s3 == b2 & 63,
    ;
}

/// Decoding the padded tail of one byte recovers the byte.
proof fn lemma_tail1_degroup(b0: u8)
    ensures
        b64_degroup(b64_char_of(b0 >> 2), b64_char_of((b0 & 3) << 4), '=', '=') =~= seq![b0],
{
    let s0 = b0 >> 2;
    let s1 = (b0 & 3) << 4;
    assert(s0 < 64 && s1 < 64) by (bit_vector)
        requires
            s0 == b0 >> 2 && s1 == (b0 & 3) << 4,
    ;
    lemma_char_val(s0);
    lemma_char_val(s1);
    assert((s0 << 2) | (s1 >> 4) == b0) by (bit_vector)
        requires
            s0 == b0 >> 2 && s1 == (b0 & 3) << 4,
    ;
}

/// Decoding the padded tail of two bytes recovers them.
proof fn lemma_tail2_degroup(b0: u8, b1: u8)
    ensures
        b64_degroup(
            b64_char_of(b0 >> 2),
            b64_char_of(((b0 & 3) << 4) | (b1 >> 4)),
            b64_char_of((b1 & 15) << 2),
            '=',
        ) =~= seq![b0, b1],
{
    let s0 = b0 >> 2;
    let s1 = ((b0 & 3) << 4) | (b1 >> 4);
    let s2 = (b1 & 15) << 2;
    assert(s0 < 64 && s1 < 64 && s2 < 64) by (bit_vector)
        requires
            s0 == b0 >> 2 && s1 == ((b0 & 3) << 4) | (b1 >> 4) && s2 == (b1 & 15) << 2,
    ;
    lemma_char_val(s0);
    lemma_char_val(s1);
    lemma_char_val(s2);
    assert((s0 << 2) | (s1 >> 4) == b0 && ((s1 & 15) << 4) | (s2 >> 2) == b1) by (bit_vector)
        requires
            s0 == b0 >> 2 && s1 == ((b0 & 3) << 4) | (b1 >> 4) && s2 == (b1 & 15) << 2,
    ;
}

/// Encoding distributes over concatenation at a 3-byte boundary.
pub proof fn lemma_base64_append(a: Seq<u8>, b: Seq<u8>)
    requires
        a.len() % 3 == 0,
    ensures
        base64_of(a + b) == base64_of(a) + base64_of(b),
    decreases a.len(),
{
    if a.len() == 0 {
        assert(a + b =~= b);
        assert(base64_of(a) + base64_of(b) =~= base64_of(b));
    } else {
        let ab = a + b;
        assert(ab.len() >= 3);
        assert(ab[0] == a[0] && ab[1] == a[1] && ab[2] == a[2]);
        assert(ab.skip(3) =~= a.skip(3) + b);
        lemma_base64_append(a.skip(3), b);
        assert(base64_of(a + b) =~= base64_of(a) + base64_of(b));
    }
}

/// Round trip: decoding a padded base64 encoding yields the original bytes,
/// whatever their number. Together with `Encoder::encode`'s postconditions
/// this says that the concatenated output of any sequence of non-final calls
/// followed by one final call decodes back to the concatenated input.
pub proof fn lemma_base64_round_trip(s: Seq<u8>)
    ensures
        b64_decode(base64_of(s)) == s,
    decreases s.len(),
{
    let t = base64_of(s);
    if s.len() == 0 {
        assert(t =~= Seq::<char>::empty());
        assert(b64_decode(t) =~= s);
    } else if s.len() == 1 {
        let b0 = s[0];
        assert(b0 >> 2 < 64 && (b0 & 3) << 4 < 64) by (bit_vector);
        lemma_char_val(b0 >> 2);
        lemma_char_val((b0 & 3) << 4);
        lemma_tail1_degroup(b0);
        assert(t.skip(4) =~= Seq::<char>::empty());
        assert(b64_decode(t.skip(4)) =~= Seq::<u8>::empty());
        assert(t[0] == b64_char_of(b0 >> 2) && t[1] == b64_char_of((b0 & 3) << 4) && t[2] == '='
            && t[3] == '=');
        assert(b64_decode(t) =~= s);
    } else if s.len() == 2 {
        let b0 = s[0];
        let b1 = s[1];
        assert(b0 >> 2 < 64 && ((b0 & 3) << 4) | (b1 >> 4) < 64 && (b1 & 15) << 2 < 64)
            by (bit_vector);
        lemma_char_val(b0 >> 2);
        lemma_char_val(((b0 & 3) << 4) | (b1 >> 4));
        lemma_char_val((b1 & 15) << 2);
        lemma_tail2_degroup(b0, b1);
        assert(t.skip(4) =~= Seq::<char>::empty());
        assert(b64_decode(t.skip(4)) =~= Seq::<u8>::empty());
        assert(t[0] == b64_char_of(b0 >> 2) && t[1] == b64_char_of(((b0 & 3) << 4) | (b1 >> 4))
            && t[2] == b64_char_of((b1 & 15) << 2) && t[3] == '=');
        assert(b64_decode(t) =~= s);
    } else {
        let b0 = s[0];
        let b1 = s[1];
        let b2 = s[2];
        assert(b0 >> 2 < 64 && ((b0 & 3) << 4) | (b1 >> 4) < 64 && ((b1 & 15) << 2) | (b2 >> 6)
            < 64 && b2 & 63 < 64) by (bit_vector);
        lemma_char_val(b0 >> 2);
        lemma_char_val(((b0 & 3) << 4) | (b1 >> 4));
        lemma_char_val(((b1 & 15) << 2) | (b2 >> 6));
        lemma_char_val(b2 & 63);
        lemma_group_degroup(b0, b1, b2);
        assert(t.len() >= 4);
        assert(t.skip(4) =~= base64_of(s.skip(3)));
        lemma_base64_round_trip(s.skip(3));
        assert(b64_decode(t) =~= s);
    }
}

/// Sextet to alphabet character, executable form of `b64_char_of`.
fn b64_char(x: u8) -> (c: char)
    requires
        x < 64,
    ensures
        c == b64_char_of(x),
{
    if x < 26 {
        (x + 65) as char
    } else if x < 52 {
        (x + 71) as char
    } else if x < 62 {
        (x - 4) as char
    } else if x == 62 {
        '+'
    } else {
        '/'
    }
}

/// Relies on `String`'s `FromIterator<char>` impl: collecting characters
/// yields the string holding exactly those characters in order.
#[verifier::external_body]
fn chars_to_string(cs: &Vec<char>) -> (r: String)
    ensures
        r@ == cs@,
{
    cs.iter().collect()
}

/// One-shot padded base64 encoding of a byte slice.
pub fn base64_encode(bytes: &[u8]) -> (res: String)
    ensures
        res@ == base64_of(bytes@),
{
    let n = bytes.len();
    let mut cs: Vec<char> = Vec::new();
    let mut i: usize = 0;
    while n - i >= 3
        invariant
            i % 3 == 0,
            i <= n,
            n == bytes@.len(),
            cs@ == base64_of(bytes@.take(i as int)),
        decreases n - i,
    {
        let b0 = bytes[i];
        let b1 = bytes[i + 1];
        let b2 = bytes[i + 2];
        assert(b0 >> 2 < 64 && ((b0 & 3) << 4) | (b1 >> 4) < 64 && ((b1 & 15) << 2) | (b2 >> 6)
            < 64 && b2 & 63 < 64) by (bit_vector);
        cs.push(b64_char(b0 >> 2));
        cs.push(b64_char(((b0 & 3) << 4) | (b1 >> 4)));
        cs.push(b64_char(((b1 & 15) << 2) | (b2 >> 6)));
        cs.push(b64_char(b2 & 63));
        proof {
            let a = bytes@.take(i as int);
            let g = seq![b0, b1, b2];
            lemma_base64_append(a, g);
            assert(g.skip(3) =~= Seq::<u8>::empty());
            assert(base64_of(g.skip(3)) =~= Seq::<char>::empty());
            assert(base64_of(g) =~= b64_group(b0, b1, b2));
            assert(a + g =~= bytes@.take(i + 3));
            assert(cs@ =~= base64_of(bytes@.take(i + 3)));
        }
        i += 3;
    }
    if n - i == 1 {
        let b0 = bytes[i];
        assert(b0 >> 2 < 64 && (b0 & 3) << 4 < 64) by (bit_vector);
        cs.push(b64_char(b0 >> 2));
        cs.push(b64_char((b0 & 3) << 4));
        cs.push('=');
        cs.push('=');
        proof {
            let a = bytes@.take(i as int);
            let g = seq![b0];
            lemma_base64_append(a, g);
            assert(base64_of(g) =~= b64_tail1(b0));
            assert(a + g =~= bytes@);
            assert(cs@ =~= base64_of(bytes@));
        }
    } else if n - i == 2 {
        let b0 = bytes[i];
        let b1 = bytes[i + 1];
        assert(b0 >> 2 < 64 && ((b0 & 3) << 4) | (b1 >> 4) < 64 && (b1 & 15) << 2 < 64)
            by (bit_vector);
        cs.push(b64_char(b0 >> 2));
        cs.push(b64_char(((b0 & 3) << 4) | (b1 >> 4)));
        cs.push(b64_char((b1 & 15) << 2));
        cs.push('=');
        proof {
            let a = bytes@.take(i as int);
            let g = seq![b0, b1];
            lemma_base64_append(a, g);
            assert(base64_of(g) =~= b64_tail2(b0, b1));
            assert(a + g =~= bytes@);
            assert(cs@ =~= base64_of(bytes@));
        }
    } else {
        proof {
            assert(bytes@.take(i as int) =~= bytes@);
        }
    }
    chars_to_string(&cs)
}

/// Length of the longest prefix of an `n`-byte sequence that falls on a
/// 3-byte group boundary.
pub open spec fn aligned(n: int) -> int {
    n - n % 3
}

/// Ghost model of an `Encoder`: the bytes retained between calls, all bytes
/// fed since construction or the last final call, and all characters emitted
/// over those bytes.
pub ghost struct EncoderModel {
    pub leftovers: Seq<u8>,
    pub seen: Seq<u8>,
    pub emitted: Seq<char>,
}

/// Stateful incremental base64 encoder. Non-final calls emit the encoding of
/// the longest 3-byte-aligned prefix available and retain the 0-2 remaining
/// bytes; a final call emits the padded encoding of everything left.
pub struct Encoder {
    leftovers: Vec<u8>,
    seen: Ghost<Seq<u8>>,
    emitted: Ghost<Seq<char>>,
}

impl View for Encoder {
    type V = EncoderModel;

    closed spec fn view(&self) -> EncoderModel {
        EncoderModel { leftovers: self.leftovers@, seen: self.seen@, emitted: self.emitted@ }
    }
}

impl Encoder {
    /// The encoder's invariant: the retained bytes are exactly the unaligned
    /// tail of everything seen, and the characters emitted so far are exactly
    /// the encoding of the aligned prefix of everything seen.
    pub open spec fn wf(self) -> bool {
        &&& self@.leftovers == self@.seen.skip(aligned(self@.seen.len() as int))
        &&& self@.emitted == base64_of(self@.seen.take(aligned(self@.seen.len() as int)))
    }

    pub fn new() -> (e: Encoder)
        ensures
            e.wf(),
            e@.leftovers == Seq::<u8>::empty(),
            e@.seen == Seq::<u8>::empty(),
            e@.emitted == Seq::<char>::empty(),
    {
        let e = Encoder { leftovers: Vec::new(), seen: Ghost(Seq::empty()), emitted: Ghost(
            Seq::empty(),
        ) };
        proof {
            assert(e@.seen.skip(0) =~= Seq::<u8>::empty());
            assert(e@.seen.take(0) =~= Seq::<u8>::empty());
        }
        e
    }

    /// Feed a chunk. When `last_chunk` is false, returns the encoding of the
    /// aligned prefix of leftovers-plus-chunk and retains the rest; when true,
    /// returns the padded encoding of everything left and resets the encoder.
    /// Over the whole history: the concatenation of everything emitted equals
    /// the encoding of the aligned prefix of everything seen, and a final call
    /// completes it to the encoding of all bytes ever fed.
    #[verifier::rlimit(60)]
    pub fn encode(&mut self, bytes: &[u8], last_chunk: bool) -> (res: String)
        requires
            old(self).wf(),
        ensures
            final(self).wf(),
            ({
                let total = old(self)@.leftovers + bytes@;
                if last_chunk {
                    &&& res@ == base64_of(total)
                    &&& final(self)@.leftovers == Seq::<u8>::empty()
                    &&& final(self)@.seen == Seq::<u8>::empty()
                    &&& final(self)@.emitted == Seq::<char>::empty()
                    &&& old(self)@.emitted + res@ == base64_of(old(self)@.seen + bytes@)
                } else {
                    &&& res@ == base64_of(total.take(aligned(total.len() as int)))
                    &&& final(self)@.leftovers == total.skip(aligned(total.len() as int))
                    &&& final(self)@.leftovers.len() < 3
                    &&& final(self)@.seen == old(self)@.seen + bytes@
                    &&& final(self)@.emitted == old(self)@.emitted + res@
                    &&& final(self)@.leftovers.len() == final(self)@.seen.len() % 3
                }
            }),
    {
        let ghost old_seen = self.seen@;
        let ghost old_emitted = self.emitted@;
        let mut total: Vec<u8> = Vec::new();
        total.append(&mut self.leftovers);
        let mut j: usize = 0;
        while j < bytes.len()
            invariant
                j <= bytes.len(),
                total@ == old(self)@.leftovers + bytes@.take(j as int),
            decreases bytes.len() - j,
        {
            total.push(bytes[j]);
            proof {
                assert(old(self)@.leftovers + bytes@.take(j as int) + seq![bytes@[j as int]]
                    =~= old(self)@.leftovers + bytes@.take(j + 1));
            }
            j += 1;
        }
        proof {
            assert(bytes@.take(bytes@.len() as int) =~= bytes@);
        }
        if last_chunk {
            self.seen = Ghost(Seq::empty());
            self.emitted = Ghost(Seq::empty());
            let res = base64_encode(total.as_slice());
            proof {
                let a = old_seen.take(aligned(old_seen.len() as int));
                lemma_base64_append(a, total@);
                assert(a + total@ =~= old_seen + bytes@);
                assert(self@.seen.skip(0) =~= Seq::<u8>::empty());
                assert(self@.seen.take(0) =~= Seq::<u8>::empty());
            }
            res
        } else {
            let rem = total.len() % 3;
            let cut = total.len() - rem;
            let rest = total.split_off(cut);
            self.leftovers = rest;
            self.seen = Ghost(old_seen + bytes@);
            let res = base64_encode(total.as_slice());
            self.emitted = Ghost(old_emitted + res@);
            proof {
                let t = old(self)@.leftovers + bytes@;
                let a = old_seen.take(aligned(old_seen.len() as int));
                assert(total@ =~= t.take(aligned(t.len() as int)));
                assert(self@.leftovers =~= t.skip(aligned(t.len() as int)));
                assert(self@.seen.len() == a.len() + t.len());
                assert(self@.seen.len() % 3 == t.len() % 3);
                assert(self@.seen.skip(aligned(self@.seen.len() as int)) =~= self@.leftovers);
                lemma_base64_append(a, total@);
                assert(a + total@ =~= self@.seen.take(aligned(self@.seen.len() as int)));
            }
            res
        }
    }
}

} // verus!
