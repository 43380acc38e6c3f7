//! Content hashing for cached assets.
//!
//! The digest is MD5, computed by the `md-5` crate and written as 32
//! lowercase hexadecimal digits. It serves as a cache key and an integrity
//! check, not as a security boundary.

use vstd::prelude::*;

verus! {

/// A streaming hasher: bytes go in chunk by chunk, a digest comes out.
///
/// The state of the `md5::Md5` hasher inside is opaque to the verifier; what
/// it has absorbed is named by [`absorbed`].
#[verifier::external_body]
pub struct ContentHasher {
    inner: md5::Md5,
}

/// The bytes a hasher has absorbed so far, in order.
pub uninterp spec fn absorbed(hasher: ContentHasher) -> Seq<u8>;

/// The MD5 digest of a byte string, as lowercase hexadecimal digits.
pub uninterp spec fn md5_hex(data: Seq<u8>) -> Seq<char>;

/// `md5::Md5::new()`: a fresh hasher has absorbed nothing.
#[verifier::external_body]
fn hasher_new() -> (hasher: ContentHasher)
    ensures
        absorbed(hasher) == Seq::<u8>::empty(),
{
    ContentHasher { inner: <md5::Md5 as md5::Digest>::new() }
}

/// `md5::Digest::update`: the chunk is appended to what the hasher has
/// absorbed; feeding data in pieces is the same as feeding it whole.
#[verifier::external_body]
fn hasher_update(hasher: &mut ContentHasher, chunk: &[u8])
    ensures
        absorbed(*final(hasher)) == absorbed(*old(hasher)) + chunk@,
{
    md5::Digest::update(&mut hasher.inner, chunk)
}

/// `md5::Digest::finalize`, formatted with `{:x}`: the digest of everything
/// the hasher has absorbed, 16 bytes written as 32 lowercase hexadecimal
/// digits.
#[verifier::external_body]
fn hasher_finalize_hex(hasher: ContentHasher) -> (hex: String)
    ensures
        hex@ == md5_hex(absorbed(hasher)),
        hex@.len() == 32,
{
    format!("{:x}", md5::Digest::finalize(hasher.inner))
}

impl View for ContentHasher {
    type V = Seq<u8>;

    open spec fn view(&self) -> Seq<u8> {
        absorbed(*self)
    }
}

impl ContentHasher {
    /// A hasher that has absorbed nothing.
    pub fn new() -> (hasher: Self)
        ensures
            hasher@ == Seq::<u8>::empty(),
    {
        hasher_new()
    }

    /// Absorbs `chunk` after everything absorbed before.
    pub fn update(&mut self, chunk: &[u8])
        ensures
            final(self)@ == old(self)@ + chunk@,
    {
        hasher_update(self, chunk)
    }

    /// The digest of everything absorbed.
    pub fn finish(self) -> (hex: String)
        ensures
            hex@ == md5_hex(self@),
            hex@.len() == 32,
    {
        hasher_finalize_hex(self)
    }
}

/// The bytes of a list of chunks, one chunk after the other.
pub open spec fn concatenated(chunks: Seq<Seq<u8>>) -> Seq<u8>
    decreases chunks.len(),
{
    if chunks.len() == 0 {
        Seq::empty()
    } else {
        concatenated(chunks.drop_last()) + chunks.last()
    }
}

/// The byte strings of a list of chunks, in order.
pub open spec fn chunks_view(chunks: Seq<Vec<u8>>) -> Seq<Seq<u8>> {
    chunks.map_values(|chunk: Vec<u8>| chunk@)
}

/// The digest of content that arrives in chunks: the digest of the chunks
/// laid end to end, however the content was cut.
pub fn calculate_md5(chunks: &Vec<Vec<u8>>) -> (hex: String)
    ensures
        hex@ == md5_hex(concatenated(chunks_view(chunks@))),
        hex@.len() == 32,
{
    let ghost all = chunks_view(chunks@);
    let mut hasher = ContentHasher::new();
    let mut i: usize = 0;
    while i < chunks.len()
        invariant
            i <= chunks.len(),
            all == chunks_view(chunks@),
            hasher@ == concatenated(all.take(i as int)),
        decreases chunks.len() - i,
    {
        assert(all.take(i as int + 1).drop_last() =~= all.take(i as int));
        hasher.update(chunks[i].as_slice());
        i += 1;
    }
    assert(all.take(chunks.len() as int) =~= all);
    hasher.finish()
}

/// The digest of content held in one piece.
pub fn digest_hex(data: &[u8]) -> (hex: String)
    ensures
        hex@ == md5_hex(data@),
        hex@.len() == 32,
{
    let mut hasher = ContentHasher::new();
    hasher.update(data);
    hasher.finish()
}

} // verus!
