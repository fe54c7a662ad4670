use vstd::prelude::*;

use crate::pallet::{genesis_entry_spec, Pallet, PalletView};
use crate::types::{copy_bytes, AccountId};

verus! {

/// The artists and candidates the registry starts with.
pub struct GenesisConfig {
    /// The existing artists at genesis.
    pub artists: Vec<(AccountId, Vec<u8>)>,
    /// The existing candidates at genesis.
    pub candidates: Vec<(AccountId, Vec<u8>)>,
}

/// Why a genesis configuration cannot be applied; each names the account of
/// the offending entry.
#[derive(Clone, Copy, Debug, PartialEq, Eq, Structural)]
pub enum GenesisError {
    /// The entry's name is longer than the configured maximum.
    NameTooLong(AccountId),
    /// The account is already registered, or listed before.
    AlreadyAdded(AccountId),
    /// The account cannot cover the creation deposit.
    NotEnoughFunds(AccountId),
}

/// A list of genesis entries with names as byte sequences.
pub open spec fn entries_view(v: Seq<(AccountId, Vec<u8>)>) -> Seq<(AccountId, Seq<u8>)> {
    v.map_values(|e: (AccountId, Vec<u8>)| (e.0, e.1@))
}

/// What is wrong, if anything, with entry `i` of `e`, checked against the
/// registry `s` and the entries before it.
pub open spec fn entry_error(s: PalletView, e: Seq<(AccountId, Seq<u8>)>, i: int) -> Option<GenesisError> {
    let (who, name) = e[i];
    if name.len() > s.config.name_max_length {
        Some(GenesisError::NameTooLong(who))
    } else if s.is_artist(who) || s.is_candidate(who) || exists|j: int| 0 <= j < i && #[trigger] e[j].0 == who {
        Some(GenesisError::AlreadyAdded(who))
    } else if s.free_balance(who) < s.config.creation_deposit_amount {
        Some(GenesisError::NotEnoughFunds(who))
    } else {
        None
    }
}

/// The error of the first faulty entry of `e` from index `i` on.
pub open spec fn first_error(s: PalletView, e: Seq<(AccountId, Seq<u8>)>, i: int) -> Option<GenesisError>
    decreases e.len() - i,
{
    if i < 0 || i >= e.len() {
        None
    } else {
        match entry_error(s, e, i) {
            Some(err) => Some(err),
            None => first_error(s, e, i + 1),
        }
    }
}

/// The registry after the first `i` entries of `e` are recorded; the first
/// `n_artists` of them as artists, the rest as candidates.
pub open spec fn applied(s: PalletView, e: Seq<(AccountId, Seq<u8>)>, n_artists: int, i: int) -> PalletView
    decreases i,
{
    if i <= 0 {
        s
    } else {
        let prev = applied(s, e, n_artists, i - 1);
        genesis_entry_spec(prev, e[i - 1].0, e[i - 1].1, i - 1 < n_artists)
    }
}

impl GenesisConfig {
    /// All entries, artists first.
    pub open spec fn entries(&self) -> Seq<(AccountId, Seq<u8>)> {
        entries_view(self.artists@) + entries_view(self.candidates@)
    }

    /// Whether this configuration can be applied to `s`: no entry is faulty.
    pub open spec fn acceptable_for(&self, s: PalletView) -> bool {
        first_error(s, self.entries(), 0) is None
    }

    /// The registry `s` with every entry of this configuration recorded.
    pub open spec fn applied_to(&self, s: PalletView) -> PalletView {
        applied(s, self.entries(), self.artists@.len() as int, self.entries().len() as int)
    }

    /// A configuration with no entries.
    pub fn default() -> (r: Self)
        ensures
            r.artists@.len() == 0,
            r.candidates@.len() == 0,
    {
        GenesisConfig { artists: Vec::new(), candidates: Vec::new() }
    }

    fn total(&self) -> (r: usize)
        requires
            self.artists@.len() + self.candidates@.len() <= usize::MAX,
        ensures
            r == self.entries().len(),
    {
        self.artists.len() + self.candidates.len()
    }

    fn entry_at(&self, i: usize) -> (r: (AccountId, &Vec<u8>))
        requires
            i < self.entries().len(),
        ensures
            r.0 == self.entries()[i as int].0,
            r.1@ == self.entries()[i as int].1,
    {
        if i < self.artists.len() {
            (self.artists[i].0, &self.artists[i].1)
        } else {
            let k = i - self.artists.len();
            (self.candidates[k].0, &self.candidates[k].1)
        }
    }

    /// Checks this configuration against `pallet` without changing it: the
    /// error of the first entry, artists first, whose name is beyond bound,
    /// whose account is already registered or listed before, or whose
    /// account cannot cover the deposit.
    pub fn check(&self, pallet: &Pallet) -> (r: Result<(), GenesisError>)
        requires
            self.artists@.len() + self.candidates@.len() <= usize::MAX,
        ensures
            r == (match first_error(pallet@, self.entries(), 0) {
                Some(err) => Err::<(), GenesisError>(err),
                None => Ok(()),
            }),
    {
        let ghost s = pallet@;
        let ghost e = self.entries();
        let n = self.total();
        let max_len = pallet.config().name_max_length;
        let deposit = pallet.config().creation_deposit_amount;
        let mut i: usize = 0;
        while i < n
            invariant
                s == pallet@,
                e == self.entries(),
                n == e.len(),
                max_len == s.config.name_max_length,
                deposit == s.config.creation_deposit_amount,
                i <= n,
                forall|j: int| 0 <= j < i ==> entry_error(s, e, j) is None,
            decreases n - i,
        {
            let (who, name) = self.entry_at(i);
            if name.len() > max_len as usize {
                proof { lemma_first_error_skips(s, e, 0, i as int); }
                return Err(GenesisError::NameTooLong(who));
            }
            let mut dup = pallet.contains(who);
            let mut j: usize = 0;
            while j < i
                invariant
                    i < n,
                    e == self.entries(),
                    n == e.len(),
                    who == e[i as int].0,
                    j <= i,
                    dup == (s.is_artist(who) || s.is_candidate(who) || exists|k: int| 0 <= k < j && #[trigger] e[k].0 == who),
                decreases i - j,
            {
                let (other, _) = self.entry_at(j);
                if other == who {
                    dup = true;
                }
                j = j + 1;
            }
            if dup {
                proof { lemma_first_error_skips(s, e, 0, i as int); }
                return Err(GenesisError::AlreadyAdded(who));
            }
            if pallet.balances().free_balance(who) < deposit {
                proof { lemma_first_error_skips(s, e, 0, i as int); }
                return Err(GenesisError::NotEnoughFunds(who));
            }
            i = i + 1;
        }
        proof { lemma_first_error_skips(s, e, 0, n as int); }
        Ok(())
    }

    /// Applies this configuration to `pallet`: every artist and candidate
    /// entry reserves the creation deposit and is recorded, stamped with the
    /// current block. A faulty configuration must abort start-up instead:
    /// callers run [`GenesisConfig::check`] first.
    pub fn build(&self, pallet: &mut Pallet)
        requires
            old(pallet)@.wf(),
            self.artists@.len() + self.candidates@.len() <= usize::MAX,
            self.acceptable_for(old(pallet)@),
        ensures
            final(pallet)@.wf(),
            final(pallet)@ == self.applied_to(old(pallet)@),
    {
        let ghost s = pallet@;
        let ghost e = self.entries();
        let n = self.total();
        proof { lemma_no_faulty_entry(s, e, 0); }
        let ghost n_artists = self.artists@.len() as int;
        let mut i: usize = 0;
        while i < n
            invariant
                e == self.entries(),
                n == e.len(),
                n_artists == self.artists@.len(),
                i <= n,
                s.wf(),
                pallet@.wf(),
                pallet@ == applied(s, e, n_artists, i as int),
                forall|j: int| 0 <= j < n ==> entry_error(s, e, j) is None,
            decreases n - i,
        {
            let (who, name) = self.entry_at(i);
            proof {
                assert forall|k: int| 0 <= k < i implies e[k].0 != who by {
                    if e[k].0 == who {
                        assert(entry_error(s, e, i as int) is Some);
                    }
                }
                lemma_applied_frame(s, e, n_artists, i as int, who);
            }
            let name = copy_bytes(name);
            pallet.insert_genesis_entry(who, name, i < self.artists.len());
            i = i + 1;
        }
    }
}

/// When the first error from `i` on is none, no entry from `i` on is faulty.
pub proof fn lemma_no_faulty_entry(s: PalletView, e: Seq<(AccountId, Seq<u8>)>, i: int)
    requires
        0 <= i <= e.len(),
        first_error(s, e, i) is None,
    ensures
        forall|j: int| i <= j < e.len() ==> entry_error(s, e, j) is None,
    decreases e.len() - i,
{
    if i < e.len() {
        lemma_no_faulty_entry(s, e, i + 1);
    }
}

/// When no entry in `[i, k)` is faulty, the first error from `i` on is the
/// first error from `k` on.
proof fn lemma_first_error_skips(s: PalletView, e: Seq<(AccountId, Seq<u8>)>, i: int, k: int)
    requires
        0 <= i <= k <= e.len(),
        forall|j: int| i <= j < k ==> entry_error(s, e, j) is None,
    ensures
        first_error(s, e, i) == first_error(s, e, k),
    decreases k - i,
{
    if i < k {
        lemma_first_error_skips(s, e, i + 1, k);
    }
}

/// Recording the first `i` entries leaves an account that none of them
/// names as it was.
pub proof fn lemma_applied_frame(s: PalletView, e: Seq<(AccountId, Seq<u8>)>, n_artists: int, i: int, who: AccountId)
    requires
        0 <= i <= e.len(),
        forall|k: int| 0 <= k < i ==> e[k].0 != who,
    ensures
        applied(s, e, n_artists, i).config == s.config,
        applied(s, e, n_artists, i).block_number == s.block_number,
        applied(s, e, n_artists, i).free_balance(who) == s.free_balance(who),
        applied(s, e, n_artists, i).is_artist(who) == s.is_artist(who),
        applied(s, e, n_artists, i).is_candidate(who) == s.is_candidate(who),
    decreases i,
{
    if i > 0 {
        lemma_applied_frame(s, e, n_artists, i - 1, who);
    }
}

/// Recording one acceptable entry keeps the registry well formed.
pub proof fn lemma_genesis_entry_wf(s: PalletView, who: AccountId, name: Seq<u8>, as_artist: bool)
    requires
        s.wf(),
        !s.is_artist(who),
        !s.is_candidate(who),
        name.len() <= s.config.name_max_length,
        s.free_balance(who) >= s.config.creation_deposit_amount,
    ensures
        genesis_entry_spec(s, who, name, as_artist).wf(),
{
    let t = genesis_entry_spec(s, who, name, as_artist);
    assert forall|x: AccountId| #[trigger] t.candidates.contains_key(x) implies t.candidates[x].name.len()
        <= t.config.name_max_length by {
        if x != who {
            assert(s.candidates.contains_key(x));
        }
    }
    assert forall|x: AccountId| #[trigger] t.artists.contains_key(x) implies t.artists[x].name.len()
        <= t.config.name_max_length by {
        if x != who {
            assert(s.artists.contains_key(x));
        }
    }
}

/// Recording the first `i` entries of a configuration with no faulty entry
/// keeps a well-formed registry well formed.
pub proof fn lemma_applied_wf(s: PalletView, e: Seq<(AccountId, Seq<u8>)>, n_artists: int, i: int)
    requires
        s.wf(),
        0 <= i <= e.len(),
        forall|j: int| 0 <= j < e.len() ==> entry_error(s, e, j) is None,
    ensures
        applied(s, e, n_artists, i).wf(),
    decreases i,
{
    if i > 0 {
        lemma_applied_wf(s, e, n_artists, i - 1);
        let who = e[i - 1].0;
        assert(entry_error(s, e, i - 1) is None);
        assert forall|k: int| 0 <= k < i - 1 implies e[k].0 != who by {
            if e[k].0 == who {
                assert(entry_error(s, e, i - 1) is Some);
            }
        }
        lemma_applied_frame(s, e, n_artists, i - 1, who);
        lemma_genesis_entry_wf(applied(s, e, n_artists, i - 1), who, e[i - 1].1, i - 1 < n_artists);
    }
}

} // verus!
