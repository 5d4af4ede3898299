//! The ciphertext envelope and its binary layout.
//!
//! An envelope is written as two length-prefixed fields, the ciphertext
//! first and the nonce second. Each length is a little-endian `u64`.
//! Nothing follows the second field.
use vstd::prelude::*;

verus! {

/// The eight little-endian bytes of `n`.
pub open spec fn le_bytes(n: u64) -> Seq<u8> {
    seq![
        n as u8,
        (n >> 8u64) as u8,
        (n >> 16u64) as u8,
        (n >> 24u64) as u8,
        (n >> 32u64) as u8,
        (n >> 40u64) as u8,
        (n >> 48u64) as u8,
        (n >> 56u64) as u8,
    ]
}

/// The number whose little-endian bytes start `b`.
pub open spec fn le_value(b: Seq<u8>) -> u64
    recommends
        b.len() >= 8,
{
    (b[0] as u64) | ((b[1] as u64) << 8u64) | ((b[2] as u64) << 16u64) | ((b[3] as u64)
        << 24u64) | ((b[4] as u64) << 32u64) | ((b[5] as u64) << 40u64) | ((b[6] as u64)
        << 48u64) | ((b[7] as u64) << 56u64)
}

/// A field as it is laid out: its length, then its bytes.
pub open spec fn frame(field: Seq<u8>) -> Seq<u8> {
    le_bytes(field.len() as u64) + field
}

/// The bytes of an envelope holding `ciphertext` and `nonce`.
pub open spec fn envelope_bytes(ciphertext: Seq<u8>, nonce: Seq<u8>) -> Seq<u8> {
    frame(ciphertext) + frame(nonce)
}

/// Reads one length-prefixed field at the start of `b`: the field and what
/// follows it, or `None` where `b` is too short for the prefix or the field.
pub open spec fn read_frame(b: Seq<u8>) -> Option<(Seq<u8>, Seq<u8>)> {
    if b.len() < 8 {
        None
    } else {
        let n = le_value(b) as int;
        if b.len() - 8 < n {
            None
        } else {
            Some((b.subrange(8, 8 + n), b.subrange(8 + n, b.len() as int)))
        }
    }
}

/// The ciphertext and the nonce that `b` holds, where `b` is exactly two
/// fields and nothing after them.
pub open spec fn parse_envelope(b: Seq<u8>) -> Option<(Seq<u8>, Seq<u8>)> {
    match read_frame(b) {
        Some((ciphertext, rest)) => match read_frame(rest) {
            Some((nonce, tail)) => if tail.len() == 0 {
                Some((ciphertext, nonce))
            } else {
                None
            },
            None => None,
        },
        None => None,
    }
}

/// Reading back the eight bytes of a number gives the number.
pub proof fn lemma_le_round_trip(n: u64)
    ensures
        le_value(le_bytes(n)) == n,
{
    assert(((n as u8) as u64) | ((((n >> 8u64) as u8) as u64) << 8u64) | ((((n >> 16u64) as u8)
        as u64) << 16u64) | ((((n >> 24u64) as u8) as u64) << 24u64) | ((((n >> 32u64) as u8)
        as u64) << 32u64) | ((((n >> 40u64) as u8) as u64) << 40u64) | ((((n >> 48u64) as u8)
        as u64) << 48u64) | ((((n >> 56u64) as u8) as u64) << 56u64) == n) by (bit_vector);
}

/// Reading a field at the start of a layout gives the field and what follows.
pub proof fn lemma_read_frame(field: Seq<u8>, rest: Seq<u8>)
    requires
        field.len() <= u64::MAX,
    ensures
        read_frame(frame(field) + rest) == Some((field, rest)),
{
    let b = frame(field) + rest;
    lemma_le_round_trip(field.len() as u64);
    assert(b.subrange(0, 8) =~= le_bytes(field.len() as u64));
    assert(le_value(b) == le_value(le_bytes(field.len() as u64)));
    assert(b.subrange(8, 8 + field.len() as int) =~= field);
    assert(b.subrange(8 + field.len() as int, b.len() as int) =~= rest);
}

/// Reading back the bytes of an envelope gives the envelope that was written.
pub proof fn lemma_envelope_round_trip(ciphertext: Seq<u8>, nonce: Seq<u8>)
    requires
        ciphertext.len() <= u64::MAX,
        nonce.len() <= u64::MAX,
    ensures
        parse_envelope(envelope_bytes(ciphertext, nonce)) == Some((ciphertext, nonce)),
{
    let empty = Seq::<u8>::empty();
    lemma_read_frame(ciphertext, frame(nonce));
    lemma_read_frame(nonce, empty);
    assert(frame(nonce) + empty =~= frame(nonce));
}

/// A ciphertext together with the nonce it was sealed under: the unit that
/// is written to disk.
#[derive(Debug, Clone)]
pub struct Ciphertext {
    pub ciphertext: Vec<u8>,
    pub nonce: Vec<u8>,
}

/// The nonce and the associated data of a buffer sealed in place: what is
/// needed, besides the key, to open the buffer again.
#[derive(Debug, Clone)]
pub struct CiphertextBuf {
    pub nonce: Vec<u8>,
    pub associated_data: Vec<u8>,
}

fn push_le(out: &mut Vec<u8>, n: u64)
    ensures
        final(out)@ == old(out)@ + le_bytes(n),
{
    out.push(n as u8);
    out.push((n >> 8u64) as u8);
    out.push((n >> 16u64) as u8);
    out.push((n >> 24u64) as u8);
    out.push((n >> 32u64) as u8);
    out.push((n >> 40u64) as u8);
    out.push((n >> 48u64) as u8);
    out.push((n >> 56u64) as u8);
    assert(final(out)@ =~= old(out)@ + le_bytes(n));
}

fn push_frame(out: &mut Vec<u8>, field: &[u8])
    ensures
        final(out)@ == old(out)@ + frame(field@),
        field@.len() <= u64::MAX,
{
    push_le(out, field.len() as u64);
    let ghost start = out@;
    let mut i: usize = 0;
    while i < field.len()
        invariant
            i <= field@.len(),
            out@ == start + field@.subrange(0, i as int),
        decreases field@.len() - i,
    {
        out.push(field[i]);
        i = i + 1;
        assert(out@ =~= start + field@.subrange(0, i as int));
    }
    assert(field@.subrange(0, field@.len() as int) =~= field@);
    assert(out@ =~= old(out)@ + frame(field@));
}

fn read_le(b: &[u8], pos: usize) -> (r: u64)
    requires
        pos + 8 <= b@.len(),
    ensures
        r == le_value(b@.subrange(pos as int, b@.len() as int)),
{
    (b[pos] as u64) | ((b[pos + 1] as u64) << 8u64) | ((b[pos + 2] as u64) << 16u64) | ((b[pos
        + 3] as u64) << 24u64) | ((b[pos + 4] as u64) << 32u64) | ((b[pos + 5] as u64)
        << 40u64) | ((b[pos + 6] as u64) << 48u64) | ((b[pos + 7] as u64) << 56u64)
}

/// Reads the field that starts at `pos`; gives it with the position just
/// after it.
fn read_frame_at(b: &[u8], pos: usize) -> (r: Option<(Vec<u8>, usize)>)
    requires
        pos <= b@.len(),
    ensures
        match r {
            Some((field, next)) => pos <= next <= b@.len() && read_frame(
                b@.subrange(pos as int, b@.len() as int),
            ) == Some((field@, b@.subrange(next as int, b@.len() as int))),
            None => read_frame(b@.subrange(pos as int, b@.len() as int)) is None,
        },
{
    let ghost rest = b@.subrange(pos as int, b@.len() as int);
    if b.len() - pos < 8 {
        return None;
    }
    let n = read_le(b, pos);
    let room = b.len() - pos - 8;
    if (room as u64) < n {
        return None;
    }
    let end = pos + 8 + n as usize;
    let field = vstd::slice::slice_to_vec(vstd::slice::slice_subrange(b, pos + 8, end));
    assert(field@ =~= rest.subrange(8, 8 + n as int));
    assert(b@.subrange(end as int, b@.len() as int) =~= rest.subrange(
        8 + n as int,
        rest.len() as int,
    ));
    Some((field, end))
}

impl Ciphertext {
    pub fn new(ciphertext: Vec<u8>, nonce: Vec<u8>) -> (r: Self)
        ensures
            r.ciphertext@ == ciphertext@,
            r.nonce@ == nonce@,
    {
        Self { ciphertext, nonce }
    }

    pub fn get_ciphertext(&self) -> (r: &[u8])
        ensures
            r@ == self.ciphertext@,
    {
        self.ciphertext.as_slice()
    }

    pub fn get_nonce(&self) -> (r: &[u8])
        ensures
            r@ == self.nonce@,
    {
        self.nonce.as_slice()
    }

    /// The binary layout of this envelope; reading it back gives this
    /// envelope.
    pub fn serialize(&self) -> (r: Vec<u8>)
        ensures
            r@ == envelope_bytes(self.ciphertext@, self.nonce@),
            parse_envelope(r@) == Some((self.ciphertext@, self.nonce@)),
    {
        let mut out: Vec<u8> = Vec::new();
        push_frame(&mut out, self.ciphertext.as_slice());
        push_frame(&mut out, self.nonce.as_slice());
        assert(out@ =~= envelope_bytes(self.ciphertext@, self.nonce@));
        proof {
            lemma_envelope_round_trip(self.ciphertext@, self.nonce@);
        }
        out
    }

    /// Reads an envelope from its binary layout; `None` where the bytes are
    /// not exactly one envelope. Bytes after the second field are refused:
    /// a file with anything appended to its envelope is taken as corrupt.
    pub fn deserialize(bytes: &[u8]) -> (r: Option<Self>)
        ensures
            match parse_envelope(bytes@) {
                Some((ciphertext, nonce)) => r matches Some(e) && e.ciphertext@ == ciphertext
                    && e.nonce@ == nonce,
                None => r is None,
            },
    {
        assert(bytes@.subrange(0, bytes@.len() as int) =~= bytes@);
        match read_frame_at(bytes, 0) {
            None => None,
            Some((ciphertext, next)) => match read_frame_at(bytes, next) {
                None => None,
                Some((nonce, end)) => {
                    if end == bytes.len() {
                        Some(Ciphertext { ciphertext, nonce })
                    } else {
                        None
                    }
                },
            },
        }
    }
}

impl CiphertextBuf {
    pub fn new(nonce: Vec<u8>, associated_data: Vec<u8>) -> (r: Self)
        ensures
            r.nonce@ == nonce@,
            r.associated_data@ == associated_data@,
    {
        Self { nonce, associated_data }
    }

    pub fn get_nonce(&self) -> (r: &[u8])
        ensures
            r@ == self.nonce@,
    {
        self.nonce.as_slice()
    }

    pub fn get_associated_data(&self) -> (r: &[u8])
        ensures
            r@ == self.associated_data@,
    {
        self.associated_data.as_slice()
    }
}

} // verus!
