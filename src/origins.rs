use vstd::prelude::*;

use crate::types::{AccountId, Origin, RawOrigin};

verus! {

/// Origin check that admits only a payload relayed by an artist, yielding
/// the artist's identity.
pub struct EnsureArtist;

/// Origin check that admits only a payload relayed by a candidate, yielding
/// the candidate's identity.
pub struct EnsureCandidate;

impl EnsureArtist {
    /// The artist behind `o`, or `o` itself when it is not an artist's
    /// delegated origin.
    pub fn try_origin(o: Origin) -> (r: Result<AccountId, Origin>)
        ensures
            r == (match o {
                Origin::Delegated(RawOrigin::Artist(id)) => Ok::<AccountId, Origin>(id),
                _ => Err(o),
            }),
    {
        match o {
            Origin::Delegated(RawOrigin::Artist(id)) => Ok(id),
            _ => Err(o),
        }
    }

    /// An origin that passes [`EnsureArtist::try_origin`]: the zero account
    /// acting as an artist.
    pub fn try_successful_origin() -> (r: Result<Origin, ()>)
        ensures
            r == Ok::<Origin, ()>(Origin::Delegated(RawOrigin::Artist(0))),
    {
        Ok(Origin::Delegated(RawOrigin::Artist(0)))
    }
}

impl EnsureCandidate {
    /// The candidate behind `o`, or `o` itself when it is not a candidate's
    /// delegated origin.
    pub fn try_origin(o: Origin) -> (r: Result<AccountId, Origin>)
        ensures
            r == (match o {
                Origin::Delegated(RawOrigin::Candidate(id)) => Ok::<AccountId, Origin>(id),
                _ => Err(o),
            }),
    {
        match o {
            Origin::Delegated(RawOrigin::Candidate(id)) => Ok(id),
            _ => Err(o),
        }
    }

    /// An origin that passes [`EnsureCandidate::try_origin`]: the zero
    /// account acting as a candidate.
    pub fn try_successful_origin() -> (r: Result<Origin, ()>)
        ensures
            r == Ok::<Origin, ()>(Origin::Delegated(RawOrigin::Candidate(0))),
    {
        Ok(Origin::Delegated(RawOrigin::Candidate(0)))
    }
}

} // verus!
