//! How the first Docker driver encodes what goes to a guest and reads what
//! comes back: which serializer a zkVM uses for objects, the word encoding
//! that Risc0 and OpenVM share, and the `bincode` frame around the list of
//! input items.
use crate::ere_dockerized::error::CommonError;
use crate::ere_dockerized::zkvm::ErezkVM;
use crate::risc0::{append_bytes, le32, le32_bytes, lemma_le32_value};
use vstd::prelude::*;

verus! {

/// How a zkVM's guest reads a serialized object.
#[derive(Clone, Copy, Debug, PartialEq, Eq, Structural)]
pub enum ObjectEncoding {
    /// `bincode` with its default options.
    Bincode,
    /// The Risc0 serializer: a sequence of `u32` words, each sent as its
    /// four little-endian bytes.
    Risc0Words,
}

/// The encoding a zkVM's guest reads objects in. Jolt and Nexus have none.
pub open spec fn object_encoding_of(z: ErezkVM) -> ObjectEncoding {
    match z {
        ErezkVM::OpenVM | ErezkVM::Risc0 => ObjectEncoding::Risc0Words,
        _ => ObjectEncoding::Bincode,
    }
}

/// Whether the zkVM's objects can be serialized at all.
pub open spec fn serializes_objects(z: ErezkVM) -> bool {
    !(z is Jolt || z is Nexus)
}

/// Whether outputs of the zkVM can be read back natively.
pub open spec fn reads_outputs(z: ErezkVM) -> bool {
    z is Pico || z is Risc0 || z is SP1 || z is Ziren
}

/// The eight little-endian bytes of `n`.
pub open spec fn le64(n: u64) -> Seq<u8> {
    seq![
        (n % 0x100) as u8,
        ((n / 0x100) % 0x100) as u8,
        ((n / 0x1_0000) % 0x100) as u8,
        ((n / 0x100_0000) % 0x100) as u8,
        ((n / 0x1_0000_0000) % 0x100) as u8,
        ((n / 0x100_0000_0000) % 0x100) as u8,
        ((n / 0x1_0000_0000_0000) % 0x100) as u8,
        ((n / 0x100_0000_0000_0000) % 0x100) as u8,
    ]
}

/// A byte string as `bincode` writes it: its length as a little-endian
/// `u64`, then its bytes.
pub open spec fn bincode_bytes(b: Seq<u8>) -> Seq<u8> {
    le64(b.len() as u64) + b
}

/// The byte strings of `items`, each as `bincode` writes it, one after the
/// other.
pub open spec fn bincode_items_body(items: Seq<Seq<u8>>) -> Seq<u8>
    decreases items.len(),
{
    if items.len() == 0 {
        Seq::empty()
    } else {
        bincode_items_body(items.drop_last()) + bincode_bytes(items.last())
    }
}

/// A list of byte strings as `bincode` writes it: the number of items as a
/// little-endian `u64`, then each item.
pub open spec fn bincode_items(items: Seq<Seq<u8>>) -> Seq<u8> {
    le64(items.len() as u64) + bincode_items_body(items)
}

/// The views of a list of byte vectors.
pub open spec fn byte_views(items: Seq<Vec<u8>>) -> Seq<Seq<u8>> {
    items.map_values(|b: Vec<u8>| b@)
}

/// Serializes a list of byte vectors with `bincode::serialize`. Its default
/// options write integers at fixed width in little-endian order, set no size
/// limit and frame a sequence by its length as a `u64`; the writer is a
/// `Vec`, and a list of byte vectors always has its length at hand. So the
/// call succeeds, with `bincode_items` of the list.
#[verifier::external_body]
fn bincode_serialize_items(items: &Vec<Vec<u8>>) -> (r: Result<Vec<u8>, Box<bincode::ErrorKind>>)
    ensures
        r is Ok,
        r matches Ok(v) ==> v@ == bincode_items(byte_views(items@)),
{
    bincode::serialize(items)
}

/// The Risc0 word stream: each word as its four little-endian bytes.
pub open spec fn words_stream(words: Seq<u32>) -> Seq<u8>
    decreases words.len(),
{
    if words.len() == 0 {
        Seq::empty()
    } else {
        words_stream(words.drop_last()) + le32(words.last())
    }
}

/// The bytes of a sequence of Risc0 serializer words.
pub fn words_le_bytes(words: &Vec<u32>) -> (r: Vec<u8>)
    ensures
        r@ == words_stream(words@),
{
    let mut r: Vec<u8> = Vec::new();
    let mut k: usize = 0;
    while k < words.len()
        invariant
            k <= words.len(),
            r@ == words_stream(words@.take(k as int)),
        decreases words.len() - k,
    {
        assert(words@.take(k + 1).drop_last() =~= words@.take(k as int));
        let b = le32_bytes(words[k]);
        append_bytes(&mut r, &b);
        k = k + 1;
    }
    assert(words@.take(k as int) =~= words@);
    r
}

/// The zero bytes that follow `n` bytes in the Risc0 word stream, so that
/// the stream stays aligned to whole words.
pub fn word_padding_len(n: usize) -> (r: usize)
    requires
        n + 3 <= usize::MAX,
    ensures
        r < 4,
        (n + r) % 4 == 0,
{
    let rem = n % 4;
    if rem == 0 {
        0
    } else {
        4 - rem
    }
}

impl ErezkVM {
    /// The encoding the zkVM's guest reads objects in.
    pub fn object_encoding(&self) -> (r: ObjectEncoding)
        requires
            serializes_objects(*self),
        ensures
            r == object_encoding_of(*self),
    {
        match self {
            ErezkVM::OpenVM | ErezkVM::Risc0 => ObjectEncoding::Risc0Words,
            _ => ObjectEncoding::Bincode,
        }
    }

    /// The encoding in which outputs of the zkVM are read back.
    pub fn output_encoding(&self) -> (r: ObjectEncoding)
        requires
            reads_outputs(*self),
        ensures
            r == object_encoding_of(*self),
    {
        match self {
            ErezkVM::Risc0 => ObjectEncoding::Risc0Words,
            _ => ObjectEncoding::Bincode,
        }
    }

    /// The input the zkVM server receives for `items`: each item is an
    /// object already serialized in the zkVM's `object_encoding`, or raw
    /// bytes, and the list goes through `bincode`, which succeeds on it (a
    /// failure of `bincode` would be reported as "Failed to serialize
    /// input").
    pub fn serialize_inputs(&self, items: &Vec<Vec<u8>>) -> (r: Result<Vec<u8>, CommonError>)
        ensures
            r matches Ok(v) && v@ == bincode_items(byte_views(items@)),
    {
        match bincode_serialize_items(items) {
            Ok(v) => Ok(v),
            Err(e) => Err(CommonError::serilization(e, "Failed to serialize input")),
        }
    }
}

/// The eight bytes of `le64(n)` read back, least significant first, give
/// `n`.
pub proof fn lemma_le64_value(n: u64)
    ensures
        le64(n).len() == 8,
        le64(n)[0] + 0x100 * le64(n)[1] + 0x1_0000 * le64(n)[2] + 0x100_0000 * le64(n)[3] + 0x1_0000_0000
            * le64(n)[4] + 0x100_0000_0000 * le64(n)[5] + 0x1_0000_0000_0000 * le64(n)[6] + 0x100_0000_0000_0000
            * le64(n)[7] == n,
{
    assert((n % 0x100) + 0x100 * ((n / 0x100) % 0x100) + 0x1_0000 * ((n / 0x1_0000) % 0x100) + 0x100_0000 * ((n
        / 0x100_0000) % 0x100) + 0x1_0000_0000 * ((n / 0x1_0000_0000) % 0x100) + 0x100_0000_0000 * ((n
        / 0x100_0000_0000) % 0x100) + 0x1_0000_0000_0000 * ((n / 0x1_0000_0000_0000) % 0x100)
        + 0x100_0000_0000_0000 * ((n / 0x100_0000_0000_0000) % 0x100) == n) by (bit_vector);
}

/// The `bincode` frame of a list of byte strings is as long as the count,
/// then for each item its length and its bytes; each byte string is framed
/// by its length, which reads back as the number of its bytes.
pub proof fn lemma_bincode_frame(items: Seq<Seq<u8>>, b: Seq<u8>)
    requires
        b.len() <= u64::MAX,
    ensures
        bincode_bytes(b).len() == 8 + b.len(),
        bincode_bytes(b).skip(8) == b,
        bincode_bytes(b).take(8) == le64(b.len() as u64),
        bincode_items(items).take(8) == le64(items.len() as u64),
        bincode_items(items).len() == 8 + bincode_items_body(items).len(),
{
    lemma_le64_value(b.len() as u64);
    assert(bincode_bytes(b).skip(8) =~= b);
    assert(bincode_bytes(b).take(8) =~= le64(b.len() as u64));
    assert(bincode_items(items).take(8) =~= le64(items.len() as u64));
}

/// The Risc0 word stream holds four bytes per word, and the four bytes at
/// `4 * i` read back, least significant first, as the `i`th word.
pub proof fn lemma_words_stream(words: Seq<u32>, i: int)
    requires
        0 <= i < words.len(),
    ensures
        words_stream(words).len() == 4 * words.len(),
        words_stream(words)[4 * i] + 256 * words_stream(words)[4 * i + 1] + 65536 * words_stream(words)[4 * i + 2]
            + 16777216 * words_stream(words)[4 * i + 3] == words[i],
    decreases words.len(),
{
    let w = words.last();
    let rest = words.drop_last();
    lemma_le32_value(w);
    if i < words.len() - 1 {
        lemma_words_stream(rest, i);
    } else {
        lemma_words_stream_len(rest);
    }
    let a = words_stream(rest);
    let s = a + le32(w);
    assert(words_stream(words) == s);
    if i < words.len() - 1 {
        assert(s[4 * i] == a[4 * i] && s[4 * i + 1] == a[4 * i + 1] && s[4 * i + 2] == a[4 * i + 2] && s[4 * i + 3]
            == a[4 * i + 3]);
        assert(rest[i] == words[i]);
    } else {
        assert(s[4 * i] == le32(w)[0] && s[4 * i + 1] == le32(w)[1] && s[4 * i + 2] == le32(w)[2] && s[4 * i + 3]
            == le32(w)[3]);
    }
}

/// The Risc0 word stream holds four bytes per word.
proof fn lemma_words_stream_len(words: Seq<u32>)
    ensures
        words_stream(words).len() == 4 * words.len(),
    decreases words.len(),
{
    if words.len() > 0 {
        lemma_words_stream_len(words.drop_last());
    }
}

} // verus!
