use vstd::hash_map::HashMapWithView;
use vstd::prelude::*;

use crate::balances::{
    account_of, ledger_wf, reserve_spec, unreserve_spec, AccountData, Balances,
};
use crate::types::{
    AccountId, ActorData, ActorView, ArtistData, BalanceOf, BlockNumber, Call,
    CandidateData, DispatchError, DispatchHash, DispatchResult, Error, Event, Origin, RawOrigin,
};

verus! {

broadcast use vstd::std_specs::hash::group_hash_axioms;

/// The fixed constants the registry is configured with.
#[derive(Clone, Copy, Debug, PartialEq, Eq, Structural)]
pub struct Config {
    /// The deposit reserved from an account while it is a candidate or an artist.
    pub creation_deposit_amount: BalanceOf,
    /// The maximum length of a registered name.
    pub name_max_length: u32,
}

/// The abstract state of the registry.
pub struct PalletView {
    pub config: Config,
    pub block_number: BlockNumber,
    pub accounts: Map<AccountId, AccountData>,
    pub candidates: Map<AccountId, ActorView>,
    pub artists: Map<AccountId, ActorView>,
    pub events: Seq<Event>,
}

/// The account that signed `origin`, or `BadOrigin`.
pub open spec fn signer_of(origin: Origin) -> Result<AccountId, DispatchError> {
    match origin {
        Origin::Signed(who) => Ok(who),
        _ => Err(DispatchError::BadOrigin),
    }
}

impl PalletView {
    /// Invariants of the registry: a sound ledger, no account both a
    /// candidate and an artist, and every stored name within bound.
    pub open spec fn wf(self) -> bool {
        &&& ledger_wf(self.accounts)
        &&& forall|who: AccountId|
            !(#[trigger] self.candidates.contains_key(who) && self.artists.contains_key(who))
        &&& forall|who: AccountId| #[trigger]
            self.candidates.contains_key(who) ==> self.candidates[who].name.len()
                <= self.config.name_max_length
        &&& forall|who: AccountId| #[trigger]
            self.artists.contains_key(who) ==> self.artists[who].name.len()
                <= self.config.name_max_length
    }

    pub open spec fn is_artist(self, who: AccountId) -> bool {
        self.artists.contains_key(who)
    }

    pub open spec fn is_candidate(self, who: AccountId) -> bool {
        self.candidates.contains_key(who)
    }

    pub open spec fn free_balance(self, who: AccountId) -> BalanceOf {
        account_of(self.accounts, who).free
    }

    pub open spec fn reserved_balance(self, who: AccountId) -> BalanceOf {
        account_of(self.accounts, who).reserved
    }

    pub open spec fn deposit_event(self, e: Event) -> PalletView {
        PalletView { events: self.events.push(e), ..self }
    }

    /// The signer of `origin` if it is an artist.
    pub open spec fn ensure_artist(self, origin: Origin) -> Result<AccountId, DispatchError> {
        match signer_of(origin) {
            Err(e) => Err(e),
            Ok(who) => if self.is_artist(who) {
                Ok(who)
            } else {
                Err(DispatchError::Module(Error::NotAnArtist))
            },
        }
    }

    /// The signer of `origin` if it is a candidate.
    pub open spec fn ensure_candidate(self, origin: Origin) -> Result<AccountId, DispatchError> {
        match signer_of(origin) {
            Err(e) => Err(e),
            Ok(who) => if self.is_candidate(who) {
                Ok(who)
            } else {
                Err(DispatchError::Module(Error::NotACandidate))
            },
        }
    }

    /// Registration of the signer as a candidate named `name`.
    pub open spec fn submit_candidacy(self, origin: Origin, name: Seq<u8>) -> (PalletView, DispatchResult) {
        match signer_of(origin) {
            Err(e) => (self, Err(e)),
            Ok(who) => if name.len() > self.config.name_max_length {
                (self, Err(DispatchError::Module(Error::NameTooLong)))
            } else if self.is_artist(who) {
                (self, Err(DispatchError::Module(Error::AlreadyAnArtist)))
            } else if self.is_candidate(who) {
                (self, Err(DispatchError::Module(Error::AlreadyACandidate)))
            } else {
                let (accounts, r) = reserve_spec(self.accounts, who, self.config.creation_deposit_amount);
                if r is Err {
                    (self, Err(DispatchError::Module(Error::NotEnoughFunds)))
                } else {
                    (
                        PalletView {
                            accounts,
                            candidates: self.candidates.insert(
                                who,
                                ActorView { name, created_at: self.block_number },
                            ),
                            ..self
                        }.deposit_event(Event::CandidateAdded(who)),
                        Ok(()),
                    )
                }
            },
        }
    }

    /// Withdrawal of the signer's candidacy, with its deposit released.
    pub open spec fn withdraw_candidacy(self, origin: Origin) -> (PalletView, DispatchResult) {
        match self.ensure_candidate(origin) {
            Err(e) => (self, Err(e)),
            Ok(who) => (
                PalletView {
                    accounts: unreserve_spec(self.accounts, who, self.config.creation_deposit_amount).0,
                    candidates: self.candidates.remove(who),
                    ..self
                }.deposit_event(Event::CandidateWithdrew(who)),
                Ok(()),
            ),
        }
    }

    /// Promotion of candidate `who` to artist by the administrative origin.
    /// The artist keeps the candidate's name and is stamped with the
    /// current block; the deposit stays reserved.
    pub open spec fn approve_candidacy(self, origin: Origin, who: AccountId) -> (PalletView, DispatchResult) {
        if origin != Origin::Root {
            (self, Err(DispatchError::BadOrigin))
        } else if self.is_artist(who) {
            (self, Err(DispatchError::Module(Error::AlreadyAnArtist)))
        } else if !self.is_candidate(who) {
            (self, Err(DispatchError::Module(Error::CandidateNotFound)))
        } else {
            (
                PalletView {
                    artists: self.artists.insert(
                        who,
                        ActorView { name: self.candidates[who].name, created_at: self.block_number },
                    ),
                    candidates: self.candidates.remove(who),
                    ..self
                }.deposit_event(Event::CandidateApproved(who)),
                Ok(()),
            )
        }
    }

    /// The delegated origin an artist's relayed payload runs under: the
    /// signer of `origin`, if it is an artist, acting as `Artist`.
    pub open spec fn call_as_artist(self, origin: Origin) -> Result<RawOrigin, DispatchError> {
        match self.ensure_artist(origin) {
            Err(e) => Err(e),
            Ok(who) => Ok(RawOrigin::Artist(who)),
        }
    }

    /// The delegated origin a candidate's relayed payload runs under: the
    /// signer of `origin`, if it is a candidate, acting as `Candidate`.
    pub open spec fn call_as_candidate(self, origin: Origin) -> Result<RawOrigin, DispatchError> {
        match self.ensure_candidate(origin) {
            Err(e) => Err(e),
            Ok(who) => Ok(RawOrigin::Candidate(who)),
        }
    }

    /// The registry once the host reports that a payload relayed under
    /// `delegate`, whose hash is `dispatch_hash`, ended with `result`.
    pub open spec fn record_execution(self, delegate: RawOrigin, dispatch_hash: DispatchHash, result: DispatchResult) -> PalletView {
        match delegate {
            RawOrigin::Artist(_) => self.deposit_event(Event::ArtistExecuted { dispatch_hash, result }),
            RawOrigin::Candidate(_) => self.deposit_event(Event::CandidateExecuted { dispatch_hash, result }),
        }
    }

    /// The effect of `call` made from `origin`.
    pub open spec fn dispatch(self, origin: Origin, call: Call) -> (PalletView, DispatchResult) {
        match call {
            Call::SubmitCandidacy { name } => self.submit_candidacy(origin, name@),
            Call::WithdrawCandidacy => self.withdraw_candidacy(origin),
            Call::ApproveCandidacy { who } => self.approve_candidacy(origin, who),
        }
    }
}

/// The view of a stored record map.
pub open spec fn records_view(m: Map<AccountId, ActorData>) -> Map<AccountId, ActorView> {
    Map::new(|who: AccountId| m.contains_key(who), |who: AccountId| m[who]@)
}

/// The registry: candidate and artist records, the ledger holding their
/// deposits, the current block and the events emitted so far.
pub struct Pallet {
    config: Config,
    block_number: BlockNumber,
    balances: Balances,
    candidates: HashMapWithView<AccountId, CandidateData>,
    artists: HashMapWithView<AccountId, ArtistData>,
    events: Vec<Event>,
}

impl View for Pallet {
    type V = PalletView;

    closed spec fn view(&self) -> PalletView {
        PalletView {
            config: self.config,
            block_number: self.block_number,
            accounts: self.balances@,
            candidates: records_view(self.candidates@),
            artists: records_view(self.artists@),
            events: self.events@,
        }
    }
}

impl Pallet {
    /// An empty registry over the ledger `balances`, at block 0.
    pub fn new(config: Config, balances: Balances) -> (r: Self)
        requires
            balances.wf(),
        ensures
            r@ == (PalletView {
                config,
                block_number: 0,
                accounts: balances@,
                candidates: Map::empty(),
                artists: Map::empty(),
                events: Seq::empty(),
            }),
            r@.wf(),
    {
        let r = Pallet {
            config,
            block_number: 0,
            balances,
            candidates: HashMapWithView::new(),
            artists: HashMapWithView::new(),
            events: Vec::new(),
        };
        assert(records_view(r.candidates@) =~= Map::empty());
        assert(records_view(r.artists@) =~= Map::empty());
        r
    }

    pub fn config(&self) -> (r: Config)
        ensures
            r == self@.config,
    {
        self.config
    }

    pub fn block_number(&self) -> (r: BlockNumber)
        ensures
            r == self@.block_number,
    {
        self.block_number
    }

    /// Moves the registry to block `n`.
    pub fn set_block_number(&mut self, n: BlockNumber)
        ensures
            final(self)@ == (PalletView { block_number: n, ..old(self)@ }),
    {
        self.block_number = n;
    }

    /// The ledger holding the deposits.
    pub fn balances(&self) -> (r: &Balances)
        ensures
            r@ == self@.accounts,
    {
        &self.balances
    }

    /// The events emitted so far, oldest first.
    pub fn events(&self) -> (r: &Vec<Event>)
        ensures
            r@ == self@.events,
    {
        &self.events
    }

    /// The most recent event, if any.
    pub fn last_event(&self) -> (r: Option<Event>)
        ensures
            r == (if self@.events.len() == 0 {
                None
            } else {
                Some(self@.events.last())
            }),
    {
        if self.events.len() == 0 {
            None
        } else {
            Some(self.events[self.events.len() - 1])
        }
    }

    fn deposit_event(&mut self, e: Event)
        ensures
            final(self)@ == old(self)@.deposit_event(e),
    {
        self.events.push(e);
    }

    /// Whether `who` is a certified artist.
    pub fn is_artist(&self, who: AccountId) -> (r: bool)
        ensures
            r == self@.is_artist(who),
    {
        self.artists.contains_key(&who)
    }

    /// Whether `who` is a candidate.
    pub fn is_candidate(&self, who: AccountId) -> (r: bool)
        ensures
            r == self@.is_candidate(who),
    {
        self.candidates.contains_key(&who)
    }

    /// Whether `who` is an actor of the registry as a whole; the registry
    /// has two kinds of actors, so it answers for neither.
    pub fn is_actor(&self, who: AccountId) -> (r: bool)
        ensures
            r == false,
    {
        false
    }

    /// Whether `who` is an artist or a candidate.
    pub fn contains(&self, who: AccountId) -> (r: bool)
        ensures
            r == (self@.is_artist(who) || self@.is_candidate(who)),
    {
        self.is_artist(who) || self.is_candidate(who)
    }

    /// The record of artist `who`.
    pub fn get_artist(&self, who: AccountId) -> (r: Option<ArtistData>)
        ensures
            match r {
                Some(a) => self@.is_artist(who) && a@ == self@.artists[who],
                None => !self@.is_artist(who),
            },
    {
        match self.artists.get(&who) {
            Some(a) => Some(a.duplicate()),
            None => None,
        }
    }

    /// The record of candidate `who`.
    pub fn get_candidate(&self, who: AccountId) -> (r: Option<CandidateData>)
        ensures
            match r {
                Some(c) => self@.is_candidate(who) && c@ == self@.candidates[who],
                None => !self@.is_candidate(who),
            },
    {
        match self.candidates.get(&who) {
            Some(c) => Some(c.duplicate()),
            None => None,
        }
    }

    /// The record of artist `who`.
    pub fn artist(&self, who: AccountId) -> (r: Option<ArtistData>)
        ensures
            match r {
                Some(a) => self@.is_artist(who) && a@ == self@.artists[who],
                None => !self@.is_artist(who),
            },
    {
        self.get_artist(who)
    }

    /// The record of candidate `who`.
    pub fn candidate(&self, who: AccountId) -> (r: Option<CandidateData>)
        ensures
            match r {
                Some(c) => self@.is_candidate(who) && c@ == self@.candidates[who],
                None => !self@.is_candidate(who),
            },
    {
        self.get_candidate(who)
    }

    /// The signer of `origin`, if it is a certified artist.
    pub fn ensure_artist(&self, origin: Origin) -> (r: Result<AccountId, DispatchError>)
        ensures
            r == self@.ensure_artist(origin),
    {
        let caller = ensure_signed(origin)?;
        if !self.is_artist(caller) {
            return Err(DispatchError::Module(Error::NotAnArtist));
        }
        Ok(caller)
    }

    /// The signer of `origin`, if it is a candidate.
    pub fn ensure_candidate(&self, origin: Origin) -> (r: Result<AccountId, DispatchError>)
        ensures
            r == self@.ensure_candidate(origin),
    {
        let caller = ensure_signed(origin)?;
        if !self.is_candidate(caller) {
            return Err(DispatchError::Module(Error::NotACandidate));
        }
        Ok(caller)
    }

    /// Reserves the creation deposit from `caller`; fails with
    /// `NotEnoughFunds`, changing nothing, when its free balance is short.
    pub fn reserve_deposit(&mut self, caller: AccountId) -> (r: DispatchResult)
        requires
            old(self)@.wf(),
        ensures
            final(self)@.wf(),
            ({
                let (accounts, res) = reserve_spec(old(self)@.accounts, caller, old(self)@.config.creation_deposit_amount);
                &&& final(self)@ == (PalletView { accounts, ..old(self)@ })
                &&& r == (if res is Ok { Ok(()) } else { Err(DispatchError::Module(Error::NotEnoughFunds)) })
            }),
    {
        match self.balances.reserve(caller, self.config.creation_deposit_amount) {
            Ok(()) => Ok(()),
            Err(_) => Err(DispatchError::Module(Error::NotEnoughFunds)),
        }
    }

    /// Releases the creation deposit of `to`, as far as it is reserved.
    /// Never fails.
    pub fn unreserve_deposit(&mut self, to: AccountId) -> (r: DispatchResult)
        requires
            old(self)@.wf(),
        ensures
            final(self)@.wf(),
            final(self)@ == (PalletView {
                accounts: unreserve_spec(old(self)@.accounts, to, old(self)@.config.creation_deposit_amount).0,
                ..old(self)@
            }),
            r == Ok::<(), DispatchError>(()),
    {
        let ghost before = self@;
        let _remaining = self.balances.unreserve(to, self.config.creation_deposit_amount);
        assert(self@.candidates == before.candidates);
        assert(self@.artists == before.artists);
        Ok(())
    }
}

/// The account that signed `origin`, or `BadOrigin`.
pub fn ensure_signed(origin: Origin) -> (r: Result<AccountId, DispatchError>)
    ensures
        r == signer_of(origin),
{
    match origin {
        Origin::Signed(who) => Ok(who),
        _ => Err(DispatchError::BadOrigin),
    }
}

proof fn lemma_records_insert(m: Map<AccountId, ActorData>, who: AccountId, rec: ActorData)
    ensures
        records_view(m.insert(who, rec)) == records_view(m).insert(who, rec@),
{
    assert(records_view(m.insert(who, rec)) =~= records_view(m).insert(who, rec@));
}

proof fn lemma_records_remove(m: Map<AccountId, ActorData>, who: AccountId)
    ensures
        records_view(m.remove(who)) == records_view(m).remove(who),
{
    assert(records_view(m.remove(who)) =~= records_view(m).remove(who));
}

impl Pallet {
    /// Registers the signer of `origin` as a candidate named `name`,
    /// reserving the creation deposit. Checks, in order: a signed origin,
    /// the name's length, that the signer is neither an artist nor a
    /// candidate, and its free balance; on any failure nothing changes.
    pub fn submit_candidacy(&mut self, origin: Origin, name: Vec<u8>) -> (r: DispatchResult)
        requires
            old(self)@.wf(),
        ensures
            final(self)@.wf(),
            (final(self)@, r) == old(self)@.submit_candidacy(origin, name@),
    {
        let caller = ensure_signed(origin)?;
        if name.len() > self.config.name_max_length as usize {
            return Err(DispatchError::Module(Error::NameTooLong));
        }
        if self.is_artist(caller) {
            return Err(DispatchError::Module(Error::AlreadyAnArtist));
        }
        if self.is_candidate(caller) {
            return Err(DispatchError::Module(Error::AlreadyACandidate));
        }
        let candidate = ActorData { name, created_at: self.block_number };
        self.reserve_deposit(caller)?;
        let ghost before = self@;
        proof {
            lemma_records_insert(self.candidates@, caller, candidate);
        }
        self.candidates.insert(caller, candidate);
        assert(self@.artists == before.artists);
        assert(self@.candidates == before.candidates.insert(caller, candidate@));
        self.deposit_event(Event::CandidateAdded(caller));
        Ok(())
    }

    /// Withdraws the candidacy of the signer of `origin` and releases its
    /// deposit. Fails, changing nothing, unless the signer is a candidate.
    pub fn withdraw_candidacy(&mut self, origin: Origin) -> (r: DispatchResult)
        requires
            old(self)@.wf(),
        ensures
            final(self)@.wf(),
            (final(self)@, r) == old(self)@.withdraw_candidacy(origin),
    {
        let caller = self.ensure_candidate(origin)?;
        let ghost before = self@;
        proof {
            lemma_records_remove(self.candidates@, caller);
        }
        self.candidates.remove(&caller);
        assert(self@.artists == before.artists);
        assert(self@.candidates == before.candidates.remove(caller));
        self.unreserve_deposit(caller)?;
        self.deposit_event(Event::CandidateWithdrew(caller));
        Ok(())
    }

    /// Promotes candidate `who` to artist. Only the administrative origin
    /// may do so; `who` must not be an artist already and must be a
    /// candidate. The artist keeps the name, is stamped with the current
    /// block and keeps its deposit reserved. On failure nothing changes.
    pub fn approve_candidacy(&mut self, origin: Origin, who: AccountId) -> (r: DispatchResult)
        requires
            old(self)@.wf(),
        ensures
            final(self)@.wf(),
            (final(self)@, r) == old(self)@.approve_candidacy(origin, who),
    {
        ensure_root(origin)?;
        if self.is_artist(who) {
            return Err(DispatchError::Module(Error::AlreadyAnArtist));
        }
        let ghost before = self@;
        let candidate = match self.candidates.remove(&who) {
            Some(c) => c,
            None => {
                return Err(DispatchError::Module(Error::CandidateNotFound));
            },
        };
        proof {
            lemma_records_remove(old(self).candidates@, who);
        }
        let artist = ActorData { name: candidate.name, created_at: self.block_number };
        proof {
            lemma_records_insert(self.artists@, who, artist);
        }
        self.artists.insert(who, artist);
        assert(self@.candidates == before.candidates.remove(who));
        assert(self@.artists == before.artists.insert(who, ActorView { name: before.candidates[who].name, created_at: before.block_number }));
        self.deposit_event(Event::CandidateApproved(who));
        Ok(())
    }
}

/// Succeeds only for the administrative origin.
pub fn ensure_root(origin: Origin) -> (r: Result<(), DispatchError>)
    ensures
        r == (if origin == Origin::Root { Ok(()) } else { Err(DispatchError::BadOrigin) }),
{
    match origin {
        Origin::Root => Ok(()),
        _ => Err(DispatchError::BadOrigin),
    }
}

impl Pallet {
    /// First half of an artist's relay: the delegated origin under which
    /// the host is to dispatch the payload, if the signer of `origin` is an
    /// artist. The host then hashes and dispatches the payload, and hands the
    /// outcome to [`Pallet::record_execution`].
    pub fn call_as_artist(&self, origin: Origin) -> (r: Result<RawOrigin, DispatchError>)
        ensures
            r == self@.call_as_artist(origin),
    {
        let caller = self.ensure_artist(origin)?;
        Ok(RawOrigin::Artist(caller))
    }

    /// First half of a candidate's relay: the delegated origin under which
    /// the host is to dispatch the payload, if the signer of `origin` is a
    /// candidate. The host then hashes and dispatches the payload, and hands
    /// the outcome to [`Pallet::record_execution`].
    pub fn call_as_candidate(&self, origin: Origin) -> (r: Result<RawOrigin, DispatchError>)
        ensures
            r == self@.call_as_candidate(origin),
    {
        let caller = self.ensure_candidate(origin)?;
        Ok(RawOrigin::Candidate(caller))
    }

    /// Second half of a relay: records what the host's dispatcher returned
    /// for the payload run under `delegate`, with the host's hash of it. The
    /// relay succeeds whatever `result` is; nothing but the event log
    /// changes.
    pub fn record_execution(&mut self, delegate: RawOrigin, dispatch_hash: DispatchHash, result: DispatchResult)
        ensures
            final(self)@ == old(self)@.record_execution(delegate, dispatch_hash, result),
    {
        match delegate {
            RawOrigin::Artist(_) => self.deposit_event(Event::ArtistExecuted { dispatch_hash, result }),
            RawOrigin::Candidate(_) => self.deposit_event(Event::CandidateExecuted { dispatch_hash, result }),
        }
    }

    /// Executes `call` made from `origin`.
    pub fn dispatch(&mut self, origin: Origin, call: Call) -> (r: DispatchResult)
        requires
            old(self)@.wf(),
        ensures
            final(self)@.wf(),
            (final(self)@, r) == old(self)@.dispatch(origin, call),
    {
        match call {
            Call::SubmitCandidacy { name } => self.submit_candidacy(origin, name),
            Call::WithdrawCandidacy => self.withdraw_candidacy(origin),
            Call::ApproveCandidacy { who } => self.approve_candidacy(origin, who),
        }
    }
}

/// The registry after a genesis entry for `who` named `name` is recorded:
/// the deposit is reserved and the record stamped with the current block.
pub open spec fn genesis_entry_spec(s: PalletView, who: AccountId, name: Seq<u8>, as_artist: bool) -> PalletView {
    let rec = ActorView { name, created_at: s.block_number };
    PalletView {
        accounts: reserve_spec(s.accounts, who, s.config.creation_deposit_amount).0,
        artists: if as_artist { s.artists.insert(who, rec) } else { s.artists },
        candidates: if as_artist { s.candidates } else { s.candidates.insert(who, rec) },
        ..s
    }
}

impl Pallet {
    /// Records a genesis entry. The caller has checked that `who` is not
    /// registered, that the name is within bound and that the deposit can
    /// be reserved.
    pub(crate) fn insert_genesis_entry(&mut self, who: AccountId, name: Vec<u8>, as_artist: bool)
        requires
            old(self)@.wf(),
            !old(self)@.is_artist(who),
            !old(self)@.is_candidate(who),
            name@.len() <= old(self)@.config.name_max_length,
            old(self)@.free_balance(who) >= old(self)@.config.creation_deposit_amount,
        ensures
            final(self)@.wf(),
            final(self)@ == genesis_entry_spec(old(self)@, who, name@, as_artist),
    {
        let ghost before = self@;
        let rec = ActorData { name, created_at: self.block_number };
        let _ = self.balances.reserve(who, self.config.creation_deposit_amount);
        if as_artist {
            proof {
                lemma_records_insert(self.artists@, who, rec);
            }
            self.artists.insert(who, rec);
        } else {
            proof {
                lemma_records_insert(self.candidates@, who, rec);
            }
            self.candidates.insert(who, rec);
        }
        assert(self@.accounts == reserve_spec(before.accounts, who, before.config.creation_deposit_amount).0);
        assert(self@ == genesis_entry_spec(before, who, rec@.name, as_artist));
    }
}

} // verus!
