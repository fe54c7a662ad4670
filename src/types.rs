use vstd::prelude::*;

verus! {

/// An opaque, ordered account identity.
pub type AccountId = u64;

/// Amounts held by the balance ledger.
pub type BalanceOf = u64;

/// Block height as counted by the host.
pub type BlockNumber = u64;

/// Errors of the registry itself.
#[derive(Clone, Copy, Debug, PartialEq, Eq, Structural)]
pub enum Error {
    /// The caller doesn't have enough funds for the deposit.
    NotEnoughFunds,
    /// The given name is longer than the configured maximum.
    NameTooLong,
    /// The account is already in the candidate list.
    AlreadyACandidate,
    /// The wanted candidate is not found in the candidate list.
    CandidateNotFound,
    /// The caller isn't in the candidate list.
    NotACandidate,
    /// This account already is a certified artist account.
    AlreadyAnArtist,
    /// The caller isn't a certified artist.
    NotAnArtist,
    /// The wanted artist is not found in the artist list.
    ArtistNotFound,
}

/// Why a dispatched call was rejected.
#[derive(Clone, Copy, Debug, PartialEq, Eq, Structural)]
pub enum DispatchError {
    /// The origin of the call does not carry the capability the call needs.
    BadOrigin,
    /// The registry refused the call.
    Module(Error),
}

/// Outcome of a dispatched call.
pub type DispatchResult = Result<(), DispatchError>;

/// The delegated origins this registry grants.
#[derive(Clone, Copy, Debug, PartialEq, Eq, Structural)]
pub enum RawOrigin {
    /// It has been condoned by a single artist.
    Artist(AccountId),
    /// It has been condoned by a single candidate.
    Candidate(AccountId),
}

/// The authenticated context a call is made in.
#[derive(Clone, Copy, Debug, PartialEq, Eq, Structural)]
pub enum Origin {
    /// The administrative capability.
    Root,
    /// A transaction signed by an account.
    Signed(AccountId),
    /// An unsigned transaction.
    Unsigned,
    /// A payload relayed on behalf of an artist or a candidate.
    Delegated(RawOrigin),
}

/// The host's content hash of a relayed payload, kept for audit correlation.
#[derive(Clone, Copy, Debug, PartialEq, Eq)]
pub struct DispatchHash(pub [u8; 32]);

/// What the registry reports, one record per successful operation.
#[derive(Clone, Copy, Debug, PartialEq, Eq)]
pub enum Event {
    /// An entity has issued a candidacy.
    CandidateAdded(AccountId),
    /// An entity withdrew its candidacy.
    CandidateWithdrew(AccountId),
    /// An artist was created from a candidate after approbation.
    CandidateApproved(AccountId),
    /// A candidate relayed a call.
    CandidateExecuted { dispatch_hash: DispatchHash, result: DispatchResult },
    /// An artist relayed a call.
    ArtistExecuted { dispatch_hash: DispatchHash, result: DispatchResult },
}

/// A registered name and the block at which it was recorded.
#[derive(Clone, Debug, PartialEq, Eq)]
pub struct ActorData {
    pub name: Vec<u8>,
    pub created_at: BlockNumber,
}

/// The record kept for an artist.
pub type ArtistData = ActorData;

/// The record kept for a candidate.
pub type CandidateData = ActorData;

/// The abstract content of an [`ActorData`].
pub struct ActorView {
    pub name: Seq<u8>,
    pub created_at: BlockNumber,
}

impl View for ActorData {
    type V = ActorView;

    open spec fn view(&self) -> ActorView {
        ActorView { name: self.name@, created_at: self.created_at }
    }
}

impl ActorData {
    /// A copy of this record.
    pub fn duplicate(&self) -> (r: ActorData)
        ensures
            r@ == self@,
    {
        ActorData { name: copy_bytes(&self.name), created_at: self.created_at }
    }
}

/// A copy of `v`.
pub fn copy_bytes(v: &Vec<u8>) -> (r: Vec<u8>)
    ensures
        r@ == v@,
{
    let mut r: Vec<u8> = Vec::new();
    let mut i: usize = 0;
    while i < v.len()
        invariant
            i <= v@.len(),
            r@ == v@.subrange(0, i as int),
        decreases v@.len() - i,
    {
        r.push(v[i]);
        i = i + 1;
    }
    assert(r@ =~= v@);
    r
}

/// The calls of this registry that a host can dispatch.
#[derive(Clone, Debug, PartialEq, Eq)]
pub enum Call {
    SubmitCandidacy { name: Vec<u8> },
    WithdrawCandidacy,
    ApproveCandidacy { who: AccountId },
}

} // verus!
