//! Properties of the registry that relate several operations or hold of
//! every state, proved over the abstract transitions.
use vstd::prelude::*;

use crate::genesis::{lemma_applied_wf, lemma_no_faulty_entry, GenesisConfig};
use crate::pallet::PalletView;
use crate::types::{
    AccountId, Call, DispatchError, DispatchHash, Error, Event, Origin, RawOrigin,
};

verus! {

/// No identity is ever both a candidate and an artist in a well-formed
/// registry.
pub proof fn lemma_mutual_exclusion(s: PalletView, who: AccountId)
    requires
        s.wf(),
    ensures
        !(s.is_candidate(who) && s.is_artist(who)),
{
}

/// Every call, from any origin, takes a well-formed registry to a
/// well-formed one; with the previous law, no sequence of calls makes an
/// identity both a candidate and an artist.
pub proof fn lemma_dispatch_preserves_wf(s: PalletView, origin: Origin, call: Call)
    requires
        s.wf(),
    ensures
        s.dispatch(origin, call).0.wf(),
{
    match call {
        Call::SubmitCandidacy { name } => {
            let (t, r) = s.submit_candidacy(origin, name@);
            if r is Ok {
                let who = origin->Signed_0;
                assert forall|x: AccountId| #[trigger] t.candidates.contains_key(x) implies t.candidates[x].name.len()
                    <= t.config.name_max_length by {
                    if x != who {
                        assert(s.candidates.contains_key(x));
                    }
                }
            }
        },
        Call::WithdrawCandidacy => {},
        Call::ApproveCandidacy { who } => {
            let (t, r) = s.approve_candidacy(origin, who);
            if r is Ok {
                assert forall|x: AccountId| #[trigger] t.artists.contains_key(x) implies t.artists[x].name.len()
                    <= t.config.name_max_length by {
                    if x != who {
                        assert(s.artists.contains_key(x));
                    }
                }
            }
        },
    }
}

/// Recording a relayed payload's outcome changes nothing but the event log,
/// so it too keeps the registry well formed.
pub proof fn lemma_record_execution_preserves_wf(s: PalletView, delegate: RawOrigin, dispatch_hash: DispatchHash, result: Result<(), DispatchError>)
    requires
        s.wf(),
    ensures
        s.record_execution(delegate, dispatch_hash, result).wf(),
        s.record_execution(delegate, dispatch_hash, result).candidates == s.candidates,
        s.record_execution(delegate, dispatch_hash, result).artists == s.artists,
        s.record_execution(delegate, dispatch_hash, result).accounts == s.accounts,
{
}

/// A genesis configuration that passes its check, applied to a well-formed
/// registry, leaves no identity both a candidate and an artist.
pub proof fn lemma_genesis_keeps_roles_apart(config: GenesisConfig, s: PalletView)
    requires
        s.wf(),
        config.acceptable_for(s),
    ensures
        config.applied_to(s).wf(),
        forall|who: AccountId|
            !(#[trigger] config.applied_to(s).is_candidate(who) && config.applied_to(s).is_artist(who)),
{
    lemma_no_faulty_entry(s, config.entries(), 0);
    lemma_applied_wf(s, config.entries(), config.artists@.len() as int, config.entries().len() as int);
}

/// A call that fails changes nothing: every check comes before the first
/// write.
pub proof fn lemma_failed_call_changes_nothing(s: PalletView, origin: Origin, call: Call)
    requires
        s.dispatch(origin, call).1 is Err,
    ensures
        s.dispatch(origin, call).0 == s,
{
}

/// Submitting a candidacy and then withdrawing it gives the account back
/// exactly the free and reserved balance it had before.
pub proof fn lemma_deposit_round_trip(s: PalletView, who: AccountId, name: Seq<u8>)
    requires
        s.wf(),
        s.submit_candidacy(Origin::Signed(who), name).1 is Ok,
    ensures
        ({
            let s1 = s.submit_candidacy(Origin::Signed(who), name).0;
            let (s2, r2) = s1.withdraw_candidacy(Origin::Signed(who));
            &&& r2 is Ok
            &&& s2.free_balance(who) == s.free_balance(who)
            &&& s2.reserved_balance(who) == s.reserved_balance(who)
            &&& !s2.is_candidate(who)
        }),
{
}

/// A submission with a name longer than the bound fails with `NameTooLong`
/// and changes nothing, whatever the state of the signer.
pub proof fn lemma_name_bound(s: PalletView, who: AccountId, name: Seq<u8>)
    requires
        name.len() > s.config.name_max_length,
    ensures
        s.submit_candidacy(Origin::Signed(who), name) == (s, Err::<(), DispatchError>(
            DispatchError::Module(Error::NameTooLong),
        )),
{
}

/// Approving an account that is neither a candidate nor an artist fails
/// with `CandidateNotFound` and changes nothing.
pub proof fn lemma_approve_missing_candidate(s: PalletView, who: AccountId)
    requires
        !s.is_candidate(who),
        !s.is_artist(who),
    ensures
        s.approve_candidacy(Origin::Root, who) == (s, Err::<(), DispatchError>(
            DispatchError::Module(Error::CandidateNotFound),
        )),
{
}

/// Promotion neither releases nor reserves funds: the deposit taken at
/// submission carries over to the artist.
pub proof fn lemma_approval_keeps_deposit(s: PalletView, origin: Origin, who: AccountId)
    ensures
        s.approve_candidacy(origin, who).0.accounts == s.accounts,
{
}

/// No signed account can approve itself, whatever its state: the call is
/// rejected for its origin and changes nothing.
pub proof fn lemma_self_approval_rejected(s: PalletView, who: AccountId)
    ensures
        s.approve_candidacy(Origin::Signed(who), who) == (s, Err::<(), DispatchError>(
            DispatchError::BadOrigin,
        )),
{
}

/// Relaying as an artist: a signer that is not an artist is refused with
/// `NotAnArtist`; an artist is handed the delegated origin `Artist(signer)`,
/// and whatever the host's dispatcher then returns for the payload is what
/// the `ArtistExecuted` event records, with nothing else changed.
pub proof fn lemma_call_as_artist_isolation(s: PalletView, who: AccountId, dispatch_hash: DispatchHash, result: Result<(), DispatchError>)
    ensures
        s.call_as_artist(Origin::Signed(who)) == (if s.is_artist(who) {
            Ok::<RawOrigin, DispatchError>(RawOrigin::Artist(who))
        } else {
            Err(DispatchError::Module(Error::NotAnArtist))
        }),
        s.record_execution(RawOrigin::Artist(who), dispatch_hash, result) == s.deposit_event(
            Event::ArtistExecuted { dispatch_hash, result },
        ),
{
}

/// Relaying as a candidate: a signer that is not a candidate is refused
/// with `NotACandidate`; a candidate is handed the delegated origin
/// `Candidate(signer)`, and whatever the host's dispatcher then returns for
/// the payload is what the `CandidateExecuted` event records, with nothing
/// else changed.
pub proof fn lemma_call_as_candidate_isolation(s: PalletView, who: AccountId, dispatch_hash: DispatchHash, result: Result<(), DispatchError>)
    ensures
        s.call_as_candidate(Origin::Signed(who)) == (if s.is_candidate(who) {
            Ok::<RawOrigin, DispatchError>(RawOrigin::Candidate(who))
        } else {
            Err(DispatchError::Module(Error::NotACandidate))
        }),
        s.record_execution(RawOrigin::Candidate(who), dispatch_hash, result) == s.deposit_event(
            Event::CandidateExecuted { dispatch_hash, result },
        ),
{
}

/// A delegated origin carries no capability that a call of the registry
/// itself needs: a registry call relayed under it is rejected with
/// `BadOrigin` and changes nothing.
pub proof fn lemma_delegated_origin_rejected(s: PalletView, delegate: RawOrigin, call: Call)
    ensures
        s.dispatch(Origin::Delegated(delegate), call) == (s, Err::<(), DispatchError>(
            DispatchError::BadOrigin,
        )),
{
}

} // verus!
