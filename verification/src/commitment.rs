//! Commit-reveal: a participant first publishes the digest of a secret seed
//! and a nonce, and later discloses both; anyone can then check the
//! disclosure against the digest.

use vstd::prelude::*;
use vstd::bytes::*;
use crate::digest::{sha256, sha256_digest};
use crate::error::ContractError;
use crate::keys::{bytes_equal, copy_bytes, Identity};

verus! {

/// Length in bytes of a seed.
pub const SEED_LEN: usize = 32;

/// A published commitment.
#[derive(Debug)]
pub struct Commitment {
    /// Digest of the seed block followed by the nonce.
    pub hash: Vec<u8>,
    /// When the commitment was made.
    pub committed_at: u64,
    /// Whether the seed has been disclosed.
    pub revealed: bool,
    /// Who committed.
    pub committer: Identity,
}

/// The disclosure that answers a commitment.
#[derive(Debug)]
pub struct Reveal {
    /// The seed that was committed to.
    pub seed: Vec<u8>,
    /// The nonce that was committed to.
    pub nonce: u32,
    /// When the disclosure was made.
    pub revealed_at: u64,
}

/// The commit-reveal operations. It holds no state: callers keep the
/// commitments and the reveals.
pub struct CommitmentScheme;

/// Thirty-two zero bytes.
pub open spec fn zero_block() -> Seq<u8> {
    Seq::new(32, |i: int| 0u8)
}

/// The 32 bytes that stand for a seed in a digest: the seed itself where it
/// has that length, zeros otherwise.
pub open spec fn seed_block(seed: Seq<u8>) -> Seq<u8> {
    if seed.len() == 32 {
        seed
    } else {
        zero_block()
    }
}

/// What is hashed for a commitment: the seed block, then the nonce as four
/// little-endian bytes.
pub open spec fn commitment_preimage(seed: Seq<u8>, nonce: u32) -> Seq<u8> {
    seed_block(seed) + spec_u32_to_le_bytes(nonce)
}

/// The digest that commits to `seed` and `nonce`.
pub open spec fn commitment_hash(seed: Seq<u8>, nonce: u32) -> Seq<u8> {
    sha256(commitment_preimage(seed, nonce))
}

/// Whether disclosing `seed` and `nonce` answers the commitment `hash`.
pub open spec fn reveal_matches(hash: Seq<u8>, seed: Seq<u8>, nonce: u32) -> bool {
    commitment_hash(seed, nonce) == hash
}

/// What is hashed for a chained commitment: the commitment's own preimage,
/// then the block of the previous digest where there is one.
pub open spec fn chain_preimage(seed: Seq<u8>, nonce: u32, previous: Option<Seq<u8>>) -> Seq<u8> {
    match previous {
        Some(hash) => commitment_preimage(seed, nonce) + seed_block(hash),
        None => commitment_preimage(seed, nonce),
    }
}

/// The blocks of the first `count` seeds, one after the other.
pub open spec fn seed_blocks(seeds: Seq<Vec<u8>>, count: int) -> Seq<u8>
    decreases count,
{
    if count <= 0 {
        Seq::empty()
    } else {
        seed_blocks(seeds, count - 1) + seed_block(seeds[count - 1]@)
    }
}

/// Whether each of the first `count` reveals answers the commitment at its
/// own position.
pub open spec fn reveals_match(
    commitments: Seq<Vec<u8>>,
    reveals: Seq<Reveal>,
    count: int,
) -> bool {
    forall|i: int|
        0 <= i < count ==> reveal_matches(
            (#[trigger] commitments[i])@,
            reveals[i].seed@,
            reveals[i].nonce,
        )
}

/// Whether a batch verifies: as many reveals as commitments, and every pair
/// matches.
pub open spec fn batch_verifies(commitments: Seq<Vec<u8>>, reveals: Seq<Reveal>) -> bool {
    commitments.len() == reveals.len() && reveals_match(
        commitments,
        reveals,
        commitments.len() as int,
    )
}

/// The length of `seed_blocks`.
pub proof fn lemma_seed_blocks_len(seeds: Seq<Vec<u8>>, count: int)
    requires
        0 <= count,
    ensures
        seed_blocks(seeds, count).len() == 32 * count,
    decreases count,
{
    if count > 0 {
        lemma_seed_blocks_len(seeds, count - 1);
    }
}

/// Executable form of [`seed_block`].
pub fn seed_block_of(seed: &Vec<u8>) -> (block: Vec<u8>)
    ensures
        block@ == seed_block(seed@),
        block@.len() == 32,
{
    if seed.len() == SEED_LEN {
        copy_bytes(seed)
    } else {
        let mut block: Vec<u8> = Vec::new();
        let mut i: usize = 0;
        while i < SEED_LEN
            invariant
                i <= 32,
                block@.len() == i,
                forall|j: int| 0 <= j < i ==> block@[j] == 0u8,
            decreases 32 - i,
        {
            block.push(0u8);
            i = i + 1;
        }
        proof {
            assert(block@ =~= zero_block());
        }
        block
    }
}

/// Executable form of [`commitment_preimage`].
pub fn preimage_of(seed: &Vec<u8>, nonce: u32) -> (preimage: Vec<u8>)
    ensures
        preimage@ == commitment_preimage(seed@, nonce),
        preimage@.len() == 36,
{
    let mut preimage: Vec<u8> = seed_block_of(seed);
    let mut tail: Vec<u8> = u32_to_le_bytes(nonce);
    preimage.append(&mut tail);
    preimage
}

impl CommitmentScheme {
    /// Commits to `seed` and `nonce` at time `now`. Returns the digest and the
    /// record of the commitment, not yet revealed.
    pub fn commit(seed: Vec<u8>, nonce: u32, committer: Identity, now: u64) -> (result: (
        Vec<u8>,
        Commitment,
    ))
        ensures
            result.0@ == commitment_hash(seed@, nonce),
            result.0@.len() == 32,
            result.1.hash@ == result.0@,
            result.1.committed_at == now,
            !result.1.revealed,
            result.1.committer == committer,
    {
        let preimage: Vec<u8> = preimage_of(&seed, nonce);
        let hash: Vec<u8> = sha256_digest(&preimage);
        let commitment = Commitment {
            hash: copy_bytes(&hash),
            committed_at: now,
            revealed: false,
            committer,
        };
        (hash, commitment)
    }

    /// Whether `disclosure` answers the commitment `commitment_hash`: the digest
    /// is computed again from the disclosed seed and nonce and compared whole.
    pub fn verify_reveal(commitment_hash: &Vec<u8>, disclosure: &Reveal) -> (ok: bool)
        ensures
            ok == reveal_matches(commitment_hash@, disclosure.seed@, disclosure.nonce),
    {
        let preimage: Vec<u8> = preimage_of(&disclosure.seed, disclosure.nonce);
        let rebuilt: Vec<u8> = sha256_digest(&preimage);
        bytes_equal(&rebuilt, commitment_hash)
    }

    /// Records that the commitment has been revealed. Nothing else changes,
    /// and a revealed commitment stays revealed.
    pub fn mark_revealed(commitment: &mut Commitment)
        ensures
            final(commitment).revealed,
            final(commitment).hash == old(commitment).hash,
            final(commitment).committed_at == old(commitment).committed_at,
            final(commitment).committer == old(commitment).committer,
    {
        commitment.revealed = true;
    }

    /// Whether the reveal was made within the window, both ends included.
    pub fn is_reveal_timely(
        disclosure: &Reveal,
        minimum_reveal_time: u64,
        maximum_reveal_time: u64,
    ) -> (timely: bool)
        ensures
            timely == (minimum_reveal_time <= disclosure.revealed_at <= maximum_reveal_time),
    {
        disclosure.revealed_at >= minimum_reveal_time && disclosure.revealed_at <= maximum_reveal_time
    }

    /// Whether every reveal answers the commitment at the same position.
    /// Lists of different lengths never verify.
    pub fn batch_verify_reveals(commitments: &Vec<Vec<u8>>, reveals: &Vec<Reveal>) -> (ok: bool)
        ensures
            ok == batch_verifies(commitments@, reveals@),
    {
        if commitments.len() != reveals.len() {
            return false;
        }
        let mut i: usize = 0;
        while i < commitments.len()
            invariant
                commitments@.len() == reveals@.len(),
                i <= commitments@.len(),
                reveals_match(commitments@, reveals@, i as int),
            decreases commitments@.len() - i,
        {
            if !Self::verify_reveal(&commitments[i], &reveals[i]) {
                proof {
                    let failing: Vec<u8> = commitments@[i as int];
                    assert(!reveal_matches(failing@, reveals@[i as int].seed@, reveals@[i as int].nonce));
                }
                return false;
            }
            i = i + 1;
        }
        true
    }

    /// As [`Self::batch_verify_reveals`], but lists of different lengths are
    /// reported as such instead of as a failed verification.
    pub fn try_batch_verify_reveals(commitments: &Vec<Vec<u8>>, reveals: &Vec<Reveal>) -> (outcome:
        Result<bool, ContractError>)
        ensures
            outcome == if commitments@.len() != reveals@.len() {
                Err::<bool, ContractError>(ContractError::LengthMismatch)
            } else {
                Ok(batch_verifies(commitments@, reveals@))
            },
    {
        if commitments.len() != reveals.len() {
            return Err(ContractError::LengthMismatch);
        }
        Ok(Self::batch_verify_reveals(commitments, reveals))
    }

    /// One digest over the blocks of all seeds, in the order given.
    pub fn batch_commitment_hash(seeds: &Vec<Vec<u8>>) -> (hash: Vec<u8>)
        requires
            32 * seeds@.len() <= u32::MAX,
        ensures
            hash@ == sha256(seed_blocks(seeds@, seeds@.len() as int)),
            hash@.len() == 32,
    {
        let mut combined: Vec<u8> = Vec::new();
        let mut i: usize = 0;
        while i < seeds.len()
            invariant
                i <= seeds@.len(),
                combined@ == seed_blocks(seeds@, i as int),
            decreases seeds@.len() - i,
        {
            let mut block: Vec<u8> = seed_block_of(&seeds[i]);
            combined.append(&mut block);
            i = i + 1;
        }
        proof {
            lemma_seed_blocks_len(seeds@, seeds@.len() as int);
        }
        sha256_digest(&combined)
    }

    /// The digest of a commitment that is chained to the digest before it.
    /// The committer takes no part in the digest.
    pub fn commit_with_chain(
        seed: Vec<u8>,
        nonce: u32,
        previous_hash: Option<Vec<u8>>,
        committer: Identity,
    ) -> (hash: Vec<u8>)
        ensures
            hash@ == sha256(
                chain_preimage(
                    seed@,
                    nonce,
                    match previous_hash {
                        Some(previous) => Some(previous@),
                        None => None,
                    },
                ),
            ),
            hash@.len() == 32,
    {
        let mut combined: Vec<u8> = preimage_of(&seed, nonce);
        if let Some(previous) = previous_hash {
            let mut block: Vec<u8> = seed_block_of(&previous);
            combined.append(&mut block);
        }
        sha256_digest(&combined)
    }
}

/// Two different inputs with the same digest.
pub open spec fn digest_collision(left: Seq<u8>, right: Seq<u8>) -> bool {
    left != right && sha256(left) == sha256(right)
}

/// A reveal of the seed and nonce that were committed to always verifies.
pub proof fn lemma_commit_reveal_round_trip(seed: Seq<u8>, nonce: u32)
    ensures
        reveal_matches(commitment_hash(seed, nonce), seed, nonce),
{
}

/// Two commitments over full-length seeds have the same preimage only where
/// seed and nonce are the same.
pub proof fn lemma_preimage_injective(
    seed: Seq<u8>,
    nonce: u32,
    other_seed: Seq<u8>,
    other_nonce: u32,
)
    requires
        seed.len() == 32,
        other_seed.len() == 32,
        commitment_preimage(seed, nonce) == commitment_preimage(other_seed, other_nonce),
    ensures
        seed == other_seed,
        nonce == other_nonce,
{
    lemma_auto_spec_u32_to_from_le_bytes();
    let left: Seq<u8> = commitment_preimage(seed, nonce);
    let right: Seq<u8> = commitment_preimage(other_seed, other_nonce);
    assert(seed =~= left.subrange(0, 32));
    assert(other_seed =~= right.subrange(0, 32));
    assert(spec_u32_to_le_bytes(nonce) =~= left.subrange(32, 36));
    assert(spec_u32_to_le_bytes(other_nonce) =~= right.subrange(32, 36));
    assert(spec_u32_from_le_bytes(spec_u32_to_le_bytes(nonce)) == nonce);
    assert(spec_u32_from_le_bytes(spec_u32_to_le_bytes(other_nonce)) == other_nonce);
}

/// A reveal whose full-length seed or whose nonce differs from what was
/// committed to is accepted only where the digest of two different preimages
/// is the same.
pub proof fn lemma_tampered_reveal_needs_collision(
    seed: Seq<u8>,
    nonce: u32,
    other_seed: Seq<u8>,
    other_nonce: u32,
)
    requires
        seed.len() == 32,
        other_seed.len() == 32,
        seed != other_seed || nonce != other_nonce,
        reveal_matches(commitment_hash(seed, nonce), other_seed, other_nonce),
    ensures
        digest_collision(
            commitment_preimage(seed, nonce),
            commitment_preimage(other_seed, other_nonce),
        ),
{
    if commitment_preimage(seed, nonce) == commitment_preimage(other_seed, other_nonce) {
        lemma_preimage_injective(seed, nonce, other_seed, other_nonce);
    }
}

/// A batch with different numbers of commitments and reveals does not
/// verify, and neither does one in which some pair does not match.
pub proof fn lemma_batch_fails_closed(commitments: Seq<Vec<u8>>, reveals: Seq<Reveal>, at: int)
    ensures
        commitments.len() != reveals.len() ==> !batch_verifies(commitments, reveals),
        0 <= at < commitments.len() && !reveal_matches(
            commitments[at]@,
            reveals[at].seed@,
            reveals[at].nonce,
        ) ==> !batch_verifies(commitments, reveals),
{
}


} // verus!
