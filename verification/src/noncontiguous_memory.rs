//! A guard that keeps a secret of [`NC_DATA_SIZE`] bytes split over two
//! shards.  The first shard holds random bytes `R`, the second holds the
//! digest of `R` combined with the secret by exclusive or, so neither shard
//! alone reveals the secret.  A refresh changes the bytes of both shards and
//! keeps the secret.

use crate::error::MemoryError;
use crate::hash::blake2b_256;
use crate::hash::digest;
use crate::shard::MemoryShard;
use crate::shard::ShardKind;
use crate::shard::ShardView;
use crate::shard::NC_DATA_SIZE;
use crate::utils::lemma_xor_twice;
use crate::utils::random_vec;
use crate::utils::wipe;
use crate::utils::xor;
use crate::utils::xor_seq;
use vstd::prelude::*;

verus! {

/// What every formatting of a guard shows in place of its content.
pub const DEBUG_MSG: &'static str = "Content of Locked Memory is hidden";

/// Which kinds of shard a guard uses.
#[derive(Debug, PartialEq, Eq, Clone, Copy, Structural)]
pub enum NCConfig {
    /// Both shards persistent.  Reserved: no guard can be made with it.
    FullFile,
    /// Both shards volatile.
    FullRam,
    /// The first shard volatile, the second persistent.
    RamAndFile,
}

/// The content of the second shard for a secret `payload` and a first shard
/// `random`.
pub open spec fn mask_of(random: Seq<u8>, payload: Seq<u8>) -> Seq<u8> {
    xor_seq(blake2b_256(random), payload, NC_DATA_SIZE as nat)
}

/// The secret that the two shard contents encode.
pub open spec fn secret_of(share: Seq<u8>, mask: Seq<u8>) -> Seq<u8> {
    xor_seq(blake2b_256(share), mask, NC_DATA_SIZE as nat)
}

/// The content of the first shard after a refresh with the fresh bytes
/// `delta`.
pub open spec fn refreshed_share(share: Seq<u8>, delta: Seq<u8>) -> Seq<u8> {
    xor_seq(share, delta, NC_DATA_SIZE as nat)
}

/// The content of the second shard after a refresh with the fresh bytes
/// `delta`: the digest of the old first shard is taken out and the digest of
/// the new one is put in.
pub open spec fn refreshed_mask(share: Seq<u8>, mask: Seq<u8>, delta: Seq<u8>) -> Seq<u8> {
    xor_seq(
        xor_seq(mask, blake2b_256(share), NC_DATA_SIZE as nat),
        blake2b_256(refreshed_share(share, delta)),
        NC_DATA_SIZE as nat,
    )
}

/// The two shard contents after one refresh for each element of `deltas`, in
/// order.
pub open spec fn refreshed_all(share: Seq<u8>, mask: Seq<u8>, deltas: Seq<Seq<u8>>) -> (Seq<u8>, Seq<u8>)
    decreases deltas.len(),
{
    if deltas.len() == 0 {
        (share, mask)
    } else {
        let (s, m) = refreshed_all(share, mask, deltas.drop_last());
        (refreshed_share(s, deltas.last()), refreshed_mask(s, m, deltas.last()))
    }
}

/// The shard kind that a configuration asks for the second shard, if the
/// configuration can be served.
pub open spec fn second_kind(config: NCConfig) -> Option<ShardKind> {
    match config {
        NCConfig::FullFile => None,
        NCConfig::FullRam => Some(ShardKind::Ram),
        NCConfig::RamAndFile => Some(ShardKind::File),
    }
}

/// The error, if any, with which a guard refuses a payload of `len` bytes that
/// is declared to have `size` bytes, under `config`.  The size is judged
/// first.
pub open spec fn refusal(len: nat, size: usize, config: NCConfig) -> Option<MemoryError> {
    if size != NC_DATA_SIZE || len != NC_DATA_SIZE {
        Some(MemoryError::NCSizeNotAllowed)
    } else if config == NCConfig::FullFile {
        Some(MemoryError::LockNotAvailable)
    } else {
        None
    }
}

/// Splitting a secret and putting it together again gives the secret back,
/// whatever the random bytes were.
pub proof fn lemma_split_round_trip(random: Seq<u8>, payload: Seq<u8>)
    requires
        payload.len() == NC_DATA_SIZE,
    ensures
        secret_of(random, mask_of(random, payload)) == payload,
{
    lemma_xor_twice(payload, blake2b_256(random), NC_DATA_SIZE as nat);
}

/// A refresh keeps the secret, whatever the fresh bytes were.
pub proof fn lemma_refresh_keeps_secret(share: Seq<u8>, mask: Seq<u8>, delta: Seq<u8>)
    ensures
        secret_of(refreshed_share(share, delta), refreshed_mask(share, mask, delta)) == secret_of(
            share,
            mask,
        ),
{
    let size = NC_DATA_SIZE as nat;
    let old_digest = blake2b_256(share);
    let new_digest = blake2b_256(refreshed_share(share, delta));
    let left = secret_of(refreshed_share(share, delta), refreshed_mask(share, mask, delta));
    let right = secret_of(share, mask);
    assert forall|i: int| 0 <= i < size implies left[i] == right[i] by {
        let m: u8 = mask[i];
        let o: u8 = old_digest[i];
        let n: u8 = new_digest[i];
        assert(n ^ ((m ^ o) ^ n) == o ^ m) by (bit_vector);
    }
    assert(left =~= right);
}

/// Any number of refreshes in a row keeps the secret.
pub proof fn lemma_refreshes_keep_secret(share: Seq<u8>, mask: Seq<u8>, deltas: Seq<Seq<u8>>)
    ensures
        secret_of(refreshed_all(share, mask, deltas).0, refreshed_all(share, mask, deltas).1)
            == secret_of(share, mask),
    decreases deltas.len(),
{
    if deltas.len() > 0 {
        let (s, m) = refreshed_all(share, mask, deltas.drop_last());
        lemma_refreshes_keep_secret(share, mask, deltas.drop_last());
        lemma_refresh_keeps_secret(s, m, deltas.last());
    }
}

/// A refresh changes the first shard wherever the fresh bytes are not zero.
pub proof fn lemma_refresh_moves_share(share: Seq<u8>, delta: Seq<u8>, i: int)
    requires
        0 <= i < NC_DATA_SIZE,
        share.len() == NC_DATA_SIZE,
        delta[i] != 0,
    ensures
        refreshed_share(share, delta)[i] != share[i],
        refreshed_share(share, delta) != share,
{
    let s: u8 = share[i];
    let d: u8 = delta[i];
    assert(d != 0 ==> s ^ d != s) by (bit_vector);
}

/// What a guard is, as far as contracts are concerned.
pub struct GuardView {
    pub shard1: ShardView,
    pub shard2: ShardView,
    pub config: NCConfig,
}

impl GuardView {
    /// Both shards still hold their content.
    pub open spec fn is_live(self) -> bool {
        self.shard1.content is Some && self.shard2.content is Some
    }

    /// The secret that the guard protects, while it is live.
    pub open spec fn secret(self) -> Seq<u8> {
        secret_of(self.shard1.content->Some_0, self.shard2.content->Some_0)
    }

    /// The guard is live and holds exactly these two shard contents.
    pub open spec fn holds(self, share: Seq<u8>, mask: Seq<u8>) -> bool {
        self.shard1.content == Some(share) && self.shard2.content == Some(mask)
    }
}

/// A secret of [`NC_DATA_SIZE`] bytes, stored so that no single shard holds
/// it.  The guard owns both shards.  Dropping the guard wipes them.
pub struct NonContiguousMemory {
    shard1: MemoryShard,
    shard2: MemoryShard,
    config: NCConfig,
}

impl View for NonContiguousMemory {
    type V = GuardView;

    closed spec fn view(&self) -> GuardView {
        GuardView { shard1: self.shard1@, shard2: self.shard2@, config: self.config }
    }
}

impl NonContiguousMemory {
    /// The first shard is always volatile.
    #[verifier::type_invariant]
    spec fn inv(&self) -> bool {
        self.shard1@.kind == ShardKind::Ram
    }

    /// Splits `payload` with the given random bytes and stores the two parts.
    /// This is [`NonContiguousMemory::allocate`] for a known draw.
    pub fn allocate_with(payload: &[u8], size: usize, config: NCConfig, random: &[u8]) -> (res:
        Result<Self, MemoryError>)
        requires
            random@.len() == NC_DATA_SIZE,
        ensures
            match refusal(payload@.len(), size, config) {
                Some(e) => res == Err::<Self, MemoryError>(e),
                None => res matches Ok(guard) && guard@ == (GuardView {
                    shard1: ShardView { kind: ShardKind::Ram, content: Some(random@) },
                    shard2: ShardView {
                        kind: second_kind(config)->Some_0,
                        content: Some(mask_of(random@, payload@)),
                    },
                    config,
                }) && guard@.secret() == payload@,
            },
    {
        if size != NC_DATA_SIZE || payload.len() != NC_DATA_SIZE {
            return Err(MemoryError::NCSizeNotAllowed);
        }
        let kind = match config {
            NCConfig::RamAndFile => ShardKind::File,
            NCConfig::FullRam => ShardKind::Ram,
            NCConfig::FullFile => {
                return Err(MemoryError::LockNotAvailable);
            },
        };
        let mut hashed = digest(random);
        let mut masked = xor(hashed.as_slice(), payload, NC_DATA_SIZE);
        proof {
            lemma_split_round_trip(random@, payload@);
        }
        let shard1 = MemoryShard::allocate(random, NC_DATA_SIZE, ShardKind::Ram);
        let shard2 = MemoryShard::allocate(masked.as_slice(), NC_DATA_SIZE, kind);
        wipe(&mut hashed);
        wipe(&mut masked);
        match (shard1, shard2) {
            (Ok(shard1), Ok(shard2)) => Ok(NonContiguousMemory { shard1, shard2, config }),
            (Err(e), _) => Err(e),
            (_, Err(e)) => Err(e),
        }
    }

    /// Writes the payload into a new guard: draws random bytes for the first
    /// shard and stores the masked payload in the second, whose kind follows
    /// `config`.
    pub fn allocate(payload: &[u8], size: usize, config: NCConfig) -> (res: Result<
        Self,
        MemoryError,
    >)
        ensures
            match refusal(payload@.len(), size, config) {
                Some(e) => res == Err::<Self, MemoryError>(e),
                None => res matches Ok(guard) && guard@.is_live() && guard@.secret() == payload@
                    && guard@.config == config && guard@.shard1.kind == ShardKind::Ram
                    && guard@.shard2.kind == second_kind(config)->Some_0,
            },
    {
        let mut random = random_vec(NC_DATA_SIZE);
        let res = Self::allocate_with(payload, size, config, random.as_slice());
        wipe(&mut random);
        res
    }
}

impl NonContiguousMemory {
    /// Refreshes the shards with the given fresh bytes: the first shard is
    /// combined with `delta`, the second follows so that the secret stays.
    /// This is [`NonContiguousMemory::refresh`] for a known draw.  The result
    /// is a new guard; this one is left as it is.
    pub fn refresh_with(&self, delta: &[u8]) -> (res: Result<Self, MemoryError>)
        requires
            delta@.len() == NC_DATA_SIZE,
        ensures
            res is Ok <==> self@.is_live(),
            res matches Err(e) ==> e == MemoryError::ShardUnavailable,
            res matches Ok(guard) ==> guard@ == (GuardView {
                shard1: ShardView {
                    kind: ShardKind::Ram,
                    content: Some(refreshed_share(self@.shard1.content->Some_0, delta@)),
                },
                shard2: ShardView {
                    kind: self@.shard2.kind,
                    content: Some(
                        refreshed_mask(
                            self@.shard1.content->Some_0,
                            self@.shard2.content->Some_0,
                            delta@,
                        ),
                    ),
                },
                config: self@.config,
            }) && guard@.secret() == self@.secret(),
    {
        let (mut old_share, mut old_mask) = match (self.shard1.unlock(), self.shard2.unlock()) {
            (Ok(share), Ok(mask)) => (share, mask),
            (Err(e), _) => {
                return Err(e);
            },
            (_, Err(e)) => {
                return Err(e);
            },
        };
        let mut new_share = xor(old_share.as_slice(), delta, NC_DATA_SIZE);
        let mut hash_of_old_share = digest(old_share.as_slice());
        let mut hash_of_new_share = digest(new_share.as_slice());
        let mut step = xor(old_mask.as_slice(), hash_of_old_share.as_slice(), NC_DATA_SIZE);
        let mut new_mask = xor(step.as_slice(), hash_of_new_share.as_slice(), NC_DATA_SIZE);
        proof {
            lemma_refresh_keeps_secret(old_share@, old_mask@, delta@);
        }
        let shard1 = MemoryShard::allocate(new_share.as_slice(), NC_DATA_SIZE, ShardKind::Ram);
        let shard2 = MemoryShard::allocate(new_mask.as_slice(), NC_DATA_SIZE, self.shard2.kind());
        wipe(&mut old_share);
        wipe(&mut old_mask);
        wipe(&mut new_share);
        wipe(&mut hash_of_old_share);
        wipe(&mut hash_of_new_share);
        wipe(&mut step);
        wipe(&mut new_mask);
        match (shard1, shard2) {
            (Ok(shard1), Ok(shard2)) => Ok(
                NonContiguousMemory { shard1, shard2, config: self.config },
            ),
            (Err(e), _) => Err(e),
            (_, Err(e)) => Err(e),
        }
    }

    /// Refreshes the shards to increase security; may be called every few
    /// seconds or punctually.  Returns a new guard for the same secret whose
    /// shards hold other bytes, or [`MemoryError::ShardUnavailable`] when
    /// this guard has been wiped.
    pub fn refresh(&self) -> (res: Result<Self, MemoryError>)
        ensures
            res is Ok <==> self@.is_live(),
            res matches Err(e) ==> e == MemoryError::ShardUnavailable,
            res matches Ok(guard) ==> guard@.is_live() && guard@.secret() == self@.secret()
                && guard@.config == self@.config && guard@.shard1.kind == ShardKind::Ram
                && guard@.shard2.kind == self@.shard2.kind,
    {
        let mut random = random_vec(NC_DATA_SIZE);
        let res = self.refresh_with(random.as_slice());
        wipe(&mut random);
        res
    }

    /// Puts the secret together from the shard contents `share` and `mask`.
    fn combine(share: &[u8], mask: &[u8]) -> (secret: Vec<u8>)
        requires
            mask@.len() == NC_DATA_SIZE,
        ensures
            secret@ == secret_of(share@, mask@),
    {
        let mut hashed = digest(share);
        let secret = xor(hashed.as_slice(), mask, NC_DATA_SIZE);
        wipe(&mut hashed);
        secret
    }

    /// Unlocks the memory and returns the secret in a buffer that the caller
    /// owns and has to wipe.  The shards are refreshed first, and the secret
    /// is read from the refreshed shards, which are wiped when the call
    /// returns.
    pub fn unlock(&self) -> (res: Result<Vec<u8>, MemoryError>)
        ensures
            res is Ok <==> self@.is_live(),
            res matches Err(e) ==> e == MemoryError::ShardUnavailable,
            res matches Ok(secret) ==> secret@ == self@.secret() && secret@.len() == NC_DATA_SIZE,
    {
        let fresh = match self.refresh() {
            Ok(guard) => guard,
            Err(e) => {
                return Err(e);
            },
        };
        match (fresh.shard1.unlock(), fresh.shard2.unlock()) {
            (Ok(mut share), Ok(mut mask)) => {
                let secret = Self::combine(share.as_slice(), mask.as_slice());
                wipe(&mut share);
                wipe(&mut mask);
                Ok(secret)
            },
            (Err(e), _) => Err(e),
            (_, Err(e)) => Err(e),
        }
    }

    /// Replaces the secret: allocates a new guard for `payload` under the
    /// configuration of this one, which is wiped when the call returns.
    pub fn update(self, payload: &[u8], size: usize) -> (res: Result<Self, MemoryError>)
        ensures
            match refusal(payload@.len(), size, self@.config) {
                Some(e) => res == Err::<Self, MemoryError>(e),
                None => res matches Ok(guard) && guard@.is_live() && guard@.secret() == payload@
                    && guard@.config == self@.config && guard@.shard1.kind == ShardKind::Ram
                    && guard@.shard2.kind == second_kind(self@.config)->Some_0,
            },
    {
        Self::allocate(payload, size, self.config)
    }

    /// Returns a copy of the content of the first shard.
    pub fn get_buffer_from_shard1(&self) -> (buffer: Vec<u8>)
        requires
            self@.shard1.content is Some,
        ensures
            Some(buffer@) == self@.shard1.content,
    {
        match self.shard1.unlock() {
            Ok(bytes) => bytes,
            Err(_) => Vec::new(),
        }
    }

    /// The serialized form of the guard: the secret itself, as
    /// [`NC_DATA_SIZE`] plain bytes.  Whoever stores or sends them has to
    /// protect them.
    pub fn to_bytes(&self) -> (res: Result<Vec<u8>, MemoryError>)
        ensures
            res is Ok <==> self@.is_live(),
            res matches Err(e) ==> e == MemoryError::ShardUnavailable,
            res matches Ok(bytes) ==> bytes@ == self@.secret() && bytes@.len() == NC_DATA_SIZE,
    {
        self.unlock()
    }

    /// Rebuilds a guard from its serialized form.  The serialized form does
    /// not carry a configuration: the guard is always made with
    /// [`NCConfig::FullRam`], whatever the configuration of the guard that was
    /// serialized.
    pub fn from_bytes(bytes: &[u8]) -> (res: Result<Self, MemoryError>)
        ensures
            res is Ok <==> bytes@.len() == NC_DATA_SIZE,
            res matches Err(e) ==> e == MemoryError::NCSizeNotAllowed,
            res matches Ok(guard) ==> guard@.is_live() && guard@.secret() == bytes@
                && guard@.config == NCConfig::FullRam && guard@.shard1.kind == ShardKind::Ram
                && guard@.shard2.kind == ShardKind::Ram,
    {
        Self::allocate(bytes, bytes.len(), NCConfig::FullRam)
    }

    /// What stands for the guard in a trace or a log: a fixed text that shows
    /// nothing of the shards.
    pub fn debug_message(&self) -> (text: &'static str)
        ensures
            text@ == DEBUG_MSG@,
    {
        DEBUG_MSG
    }

    /// Wipes both shards and resets the configuration, so that what is left
    /// does not tell which configuration was in use.
    pub fn zeroize(&mut self)
        ensures
            final(self)@ == (GuardView {
                shard1: ShardView { kind: old(self)@.shard1.kind, content: None },
                shard2: ShardView { kind: old(self)@.shard2.kind, content: None },
                config: NCConfig::FullRam,
            }),
        opens_invariants none
        no_unwind
    {
        proof {
            use_type_invariant(&*self);
        }
        self.shard1.zeroize();
        self.shard2.zeroize();
        self.config = NCConfig::FullRam;
    }

    /// The first shard.
    pub fn shard1(&self) -> (shard: &MemoryShard)
        ensures
            shard@ == self@.shard1,
    {
        &self.shard1
    }

    /// The second shard.
    pub fn shard2(&self) -> (shard: &MemoryShard)
        ensures
            shard@ == self@.shard2,
    {
        &self.shard2
    }

    /// The configuration of the guard.
    pub fn config(&self) -> (config: NCConfig)
        ensures
            config == self@.config,
    {
        self.config
    }
}

impl Clone for NonContiguousMemory {
    /// A second guard for the same secret, with shards of its own.
    fn clone(&self) -> (copy: Self)
        ensures
            copy@ == self@,
    {
        proof {
            use_type_invariant(self);
        }
        NonContiguousMemory {
            shard1: self.shard1.clone(),
            shard2: self.shard2.clone(),
            config: self.config,
        }
    }
}

impl Drop for NonContiguousMemory {
    /// A guard that goes away wipes its shards.
    fn drop(&mut self)
        opens_invariants none
        no_unwind
    {
        self.zeroize();
    }
}

} // verus!
