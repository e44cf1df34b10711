use vstd::prelude::*;
use openssl::sha::Sha256 as OpensslSha256;

verus! {

#[verifier::external_type_specification]
#[verifier::external_body]
pub struct ExOpensslSha256(OpensslSha256);

/// The SHA-256 digest of a byte sequence: a 32-byte value that depends
/// on the fed bytes alone, computed by the outside implementation.
pub uninterp spec fn sha256_of(data: Seq<u8>) -> Seq<u8>;

/// A streaming SHA-256 hasher; the digest utility the evaluator's
/// collaborators use.  It records, as a ghost sequence, every byte fed
/// so far, and its digest is a pure function of that sequence.
pub struct Sha256 {
    ctx: OpensslSha256,
    fed: Ghost<Seq<u8>>,
}

impl Sha256 {
    /// The bytes fed to the hasher so far.
    pub closed spec fn bytes_fed(self) -> Seq<u8> {
        self.fed@
    }

    /// Relies on openssl::sha::Sha256::new: a fresh hasher with no data
    /// fed yet.
    #[verifier::external_body]
    pub fn new() -> (r: Sha256)
        ensures
            r.bytes_fed() == Seq::<u8>::empty(),
    {
        Sha256 { ctx: OpensslSha256::new(), fed: Ghost(Seq::empty()) }
    }

    /// Relies on openssl::sha::Sha256::update: appends the buffer to the
    /// data being hashed; callable any number of times.
    #[verifier::external_body]
    pub fn update(&mut self, buf: &[u8])
        ensures
            final(self).bytes_fed() == old(self).bytes_fed() + buf@,
    {
        self.ctx.update(buf);
    }

    /// Relies on openssl::sha::Sha256::finish: the 32-byte SHA-256
    /// digest of all bytes fed, a function of those bytes alone.
    #[verifier::external_body]
    pub fn finish(self) -> (r: [u8; 32])
        ensures
            r@ == sha256_of(self.bytes_fed()),
    {
        self.ctx.finish()
    }
}

/// The SHA-256 digest of a single byte vector, fed in one piece.
pub fn sha256_digest(data: &Vec<u8>) -> (r: [u8; 32])
    ensures
        r@ == sha256_of(data@),
{
    let mut ctx = Sha256::new();
    ctx.update(data.as_slice());
    proof {
        assert(ctx.bytes_fed() =~= data@);
    }
    ctx.finish()
}

} // verus!
