//! Membership registry for artists and candidates.
//!
//! An account registers as a candidate by reserving a fixed deposit, may
//! withdraw (getting the deposit back), and may be promoted to artist by an
//! administrative origin. Approved identities can relay calls under a
//! delegated origin. Every operation is stated as a transition on an abstract
//! view of the registry and proved against it.
pub mod balances;
pub mod genesis;
pub mod laws;
pub mod origins;
pub mod pallet;
pub mod types;

pub use balances::{AccountData, Balances, LedgerError};
pub use genesis::{GenesisConfig, GenesisError};
pub use origins::{EnsureArtist, EnsureCandidate};
pub use pallet::{ensure_root, ensure_signed, Config, Pallet, PalletView};
pub use types::{
    AccountId, ActorData, ActorView, ArtistData, BalanceOf, BlockNumber, Call, CandidateData,
    DispatchError, DispatchHash, DispatchResult, Error, Event, Origin, RawOrigin,
};
