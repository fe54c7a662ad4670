use pallet_artists::{
    Balances, Call, DispatchError, DispatchHash, EnsureArtist, EnsureCandidate, Error, Event,
    GenesisConfig, GenesisError, LedgerError, Origin, Pallet, Config, RawOrigin,
};

const ALICE: u64 = 0;
const BOB: u64 = 1;
const JOHN: u64 = 2;
const POOR: u64 = 500;

const DEPOSIT: u64 = 10;

fn setup(include_genesis: bool) -> Pallet {
    let mut balances = Balances::new();
    for account_id in 0..100u64 {
        balances.make_free_balance_be(account_id, 100);
    }
    let mut pallet =
        Pallet::new(Config { creation_deposit_amount: DEPOSIT, name_max_length: 20 }, balances);
    if include_genesis {
        let genesis = GenesisConfig {
            artists: vec![(ALICE, b"Genesis Alice".to_vec())],
            candidates: vec![(BOB, b"Genesis Bob".to_vec())],
        };
        genesis.check(&pallet).unwrap();
        genesis.build(&mut pallet);
    }
    pallet.set_block_number(1);
    pallet
}

/// Payloads the host can run: the registry's own calls, and calls of other
/// modules that accept only an artist's or a candidate's delegated origin.
enum Payload {
    Registry(Call),
    ArtistOnly,
    CandidateOnly,
}

/// The host's content hash, standing in for a real digest of the payload.
fn hash_of(payload: &Payload) -> DispatchHash {
    match payload {
        Payload::Registry(_) => DispatchHash([1; 32]),
        Payload::ArtistOnly => DispatchHash([2; 32]),
        Payload::CandidateOnly => DispatchHash([3; 32]),
    }
}

/// The host's dispatcher.
fn host_dispatch(pallet: &mut Pallet, origin: Origin, payload: Payload) -> Result<(), DispatchError> {
    match payload {
        Payload::Registry(call) => pallet.dispatch(origin, call),
        Payload::ArtistOnly => {
            EnsureArtist::try_origin(origin).map(|_| ()).map_err(|_| DispatchError::BadOrigin)
        }
        Payload::CandidateOnly => {
            EnsureCandidate::try_origin(origin).map(|_| ()).map_err(|_| DispatchError::BadOrigin)
        }
    }
}

/// A whole relay as the host runs it: authorise, hash, dispatch, record.
fn relay(
    pallet: &mut Pallet,
    as_artist: bool,
    origin: Origin,
    payload: Payload,
) -> Result<(), DispatchError> {
    let delegate =
        if as_artist { pallet.call_as_artist(origin)? } else { pallet.call_as_candidate(origin)? };
    let dispatch_hash = hash_of(&payload);
    let result = host_dispatch(pallet, Origin::Delegated(delegate), payload);
    pallet.record_execution(delegate, dispatch_hash, result);
    Ok(())
}

#[test]
fn no_account_is_both_candidate_and_artist() {
    let mut pallet = setup(true);
    for who in 0..6u64 {
        let _ = pallet.submit_candidacy(Origin::Signed(who), b"someone".to_vec());
    }
    let _ = pallet.approve_candidacy(Origin::Root, 3);
    let _ = pallet.approve_candidacy(Origin::Root, BOB);
    let _ = pallet.withdraw_candidacy(Origin::Signed(4));
    for who in 0..6u64 {
        assert!(!(pallet.is_candidate(who) && pallet.is_artist(who)));
    }
    assert!(pallet.is_artist(3) && pallet.is_artist(BOB) && pallet.is_artist(ALICE));
    assert!(pallet.is_candidate(2) && pallet.is_candidate(5) && !pallet.is_candidate(4));
}

#[test]
fn submit_then_withdraw_restores_balance() {
    let mut pallet = setup(true);
    assert_eq!(pallet.submit_candidacy(Origin::Signed(JOHN), b"Johnny".to_vec()), Ok(()));
    assert_eq!(pallet.balances().free_balance(JOHN), 90);
    assert_eq!(pallet.balances().reserved_balance(JOHN), 10);
    assert_eq!(pallet.withdraw_candidacy(Origin::Signed(JOHN)), Ok(()));
    assert_eq!(pallet.balances().free_balance(JOHN), 100);
    assert_eq!(pallet.balances().reserved_balance(JOHN), 0);
    assert!(!pallet.is_candidate(JOHN));
}

#[test]
fn too_long_name_fails_before_role_checks() {
    let mut pallet = setup(true);
    let long = vec![b'a'; 21];
    assert_eq!(
        pallet.submit_candidacy(Origin::Signed(ALICE), long.clone()),
        Err(DispatchError::Module(Error::NameTooLong))
    );
    assert_eq!(
        pallet.submit_candidacy(Origin::Signed(JOHN), long),
        Err(DispatchError::Module(Error::NameTooLong))
    );
    assert_eq!(pallet.balances().reserved_balance(JOHN), 0);
    assert_eq!(pallet.events().len(), 0);
}

#[test]
fn name_of_exactly_max_length_is_accepted() {
    let mut pallet = setup(true);
    let name = vec![b'z'; 20];
    assert_eq!(pallet.submit_candidacy(Origin::Signed(JOHN), name.clone()), Ok(()));
    let record = pallet.get_candidate(JOHN).unwrap();
    assert_eq!(record.name, name);
    assert_eq!(record.created_at, 1);
}

#[test]
fn unsigned_submission_is_bad_origin() {
    let mut pallet = setup(true);
    assert_eq!(
        pallet.submit_candidacy(Origin::Unsigned, b"x".to_vec()),
        Err(DispatchError::BadOrigin)
    );
    assert_eq!(
        pallet.submit_candidacy(Origin::Root, b"x".to_vec()),
        Err(DispatchError::BadOrigin)
    );
    assert_eq!(pallet.withdraw_candidacy(Origin::Unsigned), Err(DispatchError::BadOrigin));
}

#[test]
fn submission_without_funds_fails() {
    let mut pallet = setup(true);
    assert_eq!(
        pallet.submit_candidacy(Origin::Signed(POOR), b"Poor".to_vec()),
        Err(DispatchError::Module(Error::NotEnoughFunds))
    );
    assert!(!pallet.is_candidate(POOR));
    assert_eq!(pallet.events().len(), 0);
}

#[test]
fn submission_with_exactly_the_deposit_succeeds() {
    let mut balances = Balances::new();
    balances.make_free_balance_be(7, DEPOSIT);
    let mut pallet =
        Pallet::new(Config { creation_deposit_amount: DEPOSIT, name_max_length: 20 }, balances);
    assert_eq!(pallet.submit_candidacy(Origin::Signed(7), b"Seven".to_vec()), Ok(()));
    assert_eq!(pallet.balances().free_balance(7), 0);
    assert_eq!(pallet.balances().reserved_balance(7), DEPOSIT);
}

#[test]
fn approving_a_missing_candidate_changes_nothing() {
    let mut pallet = setup(true);
    assert_eq!(
        pallet.approve_candidacy(Origin::Root, JOHN),
        Err(DispatchError::Module(Error::CandidateNotFound))
    );
    assert!(!pallet.is_artist(JOHN));
    assert_eq!(pallet.balances().free_balance(JOHN), 100);
    assert_eq!(pallet.events().len(), 0);
}

#[test]
fn nobody_approves_themselves() {
    let mut pallet = setup(true);
    for who in [ALICE, BOB, JOHN] {
        assert_eq!(pallet.approve_candidacy(Origin::Signed(who), who), Err(DispatchError::BadOrigin));
    }
    assert!(pallet.is_candidate(BOB));
    assert!(!pallet.is_artist(BOB));
}

#[test]
fn call_as_artist_requires_an_artist() {
    let mut pallet = setup(true);
    assert_eq!(
        relay(&mut pallet, true, Origin::Signed(BOB), Payload::ArtistOnly),
        Err(DispatchError::Module(Error::NotAnArtist))
    );
    assert_eq!(pallet.call_as_artist(Origin::Root), Err(DispatchError::BadOrigin));
    assert_eq!(pallet.call_as_artist(Origin::Signed(ALICE)), Ok(RawOrigin::Artist(ALICE)));
    assert_eq!(pallet.events().len(), 0);
}

#[test]
fn call_as_artist_records_inner_success() {
    let mut pallet = setup(true);
    assert_eq!(relay(&mut pallet, true, Origin::Signed(ALICE), Payload::ArtistOnly), Ok(()));
    assert_eq!(
        pallet.last_event(),
        Some(Event::ArtistExecuted { dispatch_hash: DispatchHash([2; 32]), result: Ok(()) })
    );
}

#[test]
fn call_as_artist_records_inner_bad_origin() {
    let mut pallet = setup(true);
    let payload = Payload::Registry(Call::ApproveCandidacy { who: BOB });
    assert_eq!(relay(&mut pallet, true, Origin::Signed(ALICE), payload), Ok(()));
    assert_eq!(
        pallet.last_event(),
        Some(Event::ArtistExecuted {
            dispatch_hash: DispatchHash([1; 32]),
            result: Err(DispatchError::BadOrigin),
        })
    );
    assert!(pallet.is_candidate(BOB));
    assert!(!pallet.is_artist(BOB));
    assert_eq!(relay(&mut pallet, true, Origin::Signed(ALICE), Payload::CandidateOnly), Ok(()));
    assert_eq!(
        pallet.last_event(),
        Some(Event::ArtistExecuted {
            dispatch_hash: DispatchHash([3; 32]),
            result: Err(DispatchError::BadOrigin),
        })
    );
}

#[test]
fn call_as_candidate_records_inner_outcome() {
    let mut pallet = setup(true);
    assert_eq!(
        relay(&mut pallet, false, Origin::Signed(ALICE), Payload::CandidateOnly),
        Err(DispatchError::Module(Error::NotACandidate))
    );
    assert_eq!(relay(&mut pallet, false, Origin::Signed(BOB), Payload::CandidateOnly), Ok(()));
    assert_eq!(
        pallet.last_event(),
        Some(Event::CandidateExecuted { dispatch_hash: DispatchHash([3; 32]), result: Ok(()) })
    );
    let payload = Payload::Registry(Call::WithdrawCandidacy);
    assert_eq!(relay(&mut pallet, false, Origin::Signed(BOB), payload), Ok(()));
    assert_eq!(
        pallet.last_event(),
        Some(Event::CandidateExecuted {
            dispatch_hash: DispatchHash([1; 32]),
            result: Err(DispatchError::BadOrigin),
        })
    );
    assert!(pallet.is_candidate(BOB));
    assert_eq!(pallet.balances().reserved_balance(BOB), DEPOSIT);
    assert_eq!(pallet.events().len(), 2);
}

#[test]
fn record_execution_appends_one_event() {
    let mut pallet = setup(true);
    pallet.record_execution(RawOrigin::Candidate(BOB), DispatchHash([9; 32]), Err(DispatchError::Module(Error::ArtistNotFound)));
    assert_eq!(
        pallet.events().clone(),
        vec![Event::CandidateExecuted {
            dispatch_hash: DispatchHash([9; 32]),
            result: Err(DispatchError::Module(Error::ArtistNotFound)),
        }]
    );
    assert!(pallet.is_candidate(BOB));
}

#[test]
fn dispatch_runs_the_named_call() {
    let mut pallet = setup(true);
    assert_eq!(
        pallet.dispatch(Origin::Signed(JOHN), Call::SubmitCandidacy { name: b"Jo".to_vec() }),
        Ok(())
    );
    assert!(pallet.is_candidate(JOHN));
    assert_eq!(pallet.dispatch(Origin::Root, Call::ApproveCandidacy { who: JOHN }), Ok(()));
    assert!(pallet.is_artist(JOHN));
    assert_eq!(
        pallet.dispatch(Origin::Signed(JOHN), Call::WithdrawCandidacy),
        Err(DispatchError::Module(Error::NotACandidate))
    );
}

#[test]
fn johnny_becomes_an_artist() {
    let mut pallet = setup(true);
    assert_eq!(pallet.submit_candidacy(Origin::Signed(JOHN), b"Johnny".to_vec()), Ok(()));
    assert_eq!(pallet.balances().free_balance(JOHN), 100 - DEPOSIT);
    assert_eq!(pallet.balances().reserved_balance(JOHN), DEPOSIT);
    assert!(pallet.is_candidate(JOHN));

    pallet.set_block_number(5);
    assert_eq!(pallet.approve_candidacy(Origin::Root, JOHN), Ok(()));
    assert!(pallet.is_artist(JOHN));
    assert!(!pallet.is_candidate(JOHN));
    assert_eq!(pallet.balances().reserved_balance(JOHN), DEPOSIT);
    assert_eq!(pallet.balances().free_balance(JOHN), 100 - DEPOSIT);
    let artist = pallet.artist(JOHN).unwrap();
    assert_eq!(artist.name, b"Johnny".to_vec());
    assert_eq!(artist.created_at, 5);

    assert_eq!(
        pallet.withdraw_candidacy(Origin::Signed(JOHN)),
        Err(DispatchError::Module(Error::NotACandidate))
    );
    assert_eq!(
        pallet.events().clone(),
        vec![Event::CandidateAdded(JOHN), Event::CandidateApproved(JOHN)]
    );
}

#[test]
fn genesis_reserves_deposits() {
    let pallet = setup(true);
    assert!(pallet.is_artist(ALICE) && pallet.is_candidate(BOB));
    assert!(pallet.contains(ALICE) && pallet.contains(BOB) && !pallet.contains(JOHN));
    assert!(!pallet.is_actor(ALICE));
    assert_eq!(pallet.balances().reserved_balance(ALICE), DEPOSIT);
    assert_eq!(pallet.balances().reserved_balance(BOB), DEPOSIT);
    assert_eq!(pallet.candidate(BOB).unwrap().name, b"Genesis Bob".to_vec());
    assert!(pallet.candidate(ALICE).is_none());
    assert!(pallet.artist(BOB).is_none());
}

fn fresh() -> Pallet {
    let mut balances = Balances::new();
    for account_id in 0..10u64 {
        balances.make_free_balance_be(account_id, 100);
    }
    Pallet::new(Config { creation_deposit_amount: DEPOSIT, name_max_length: 20 }, balances)
}

#[test]
fn genesis_records_checked_entries() {
    let mut pallet = fresh();
    let genesis = GenesisConfig {
        artists: vec![(ALICE, b"Alice".to_vec()), (3, b"Three".to_vec())],
        candidates: vec![(BOB, b"Bob".to_vec())],
    };
    assert_eq!(genesis.check(&pallet), Ok(()));
    genesis.build(&mut pallet);
    assert!(pallet.is_artist(ALICE) && pallet.is_artist(3) && pallet.is_candidate(BOB));
    assert_eq!(pallet.get_artist(3).unwrap().name, b"Three".to_vec());
    for who in [ALICE, BOB, 3] {
        assert_eq!(pallet.balances().free_balance(who), 100 - DEPOSIT);
        assert_eq!(pallet.balances().reserved_balance(who), DEPOSIT);
    }
    assert_eq!(pallet.events().len(), 0);
}

#[test]
fn genesis_rejects_a_duplicate_artist() {
    let pallet = fresh();
    let genesis = GenesisConfig {
        artists: vec![(ALICE, b"Alice".to_vec()), (ALICE, b"Alice again".to_vec())],
        candidates: vec![],
    };
    assert_eq!(genesis.check(&pallet), Err(GenesisError::AlreadyAdded(ALICE)));
    assert!(!pallet.is_artist(ALICE));
    assert_eq!(pallet.balances().reserved_balance(ALICE), 0);
}

#[test]
fn genesis_rejects_a_duplicate_candidate() {
    let pallet = fresh();
    let genesis = GenesisConfig {
        artists: vec![],
        candidates: vec![(BOB, b"Bob".to_vec()), (JOHN, b"John".to_vec()), (BOB, b"Bob".to_vec())],
    };
    assert_eq!(genesis.check(&pallet), Err(GenesisError::AlreadyAdded(BOB)));
    assert!(!pallet.is_candidate(BOB) && !pallet.is_candidate(JOHN));
}

#[test]
fn genesis_rejects_an_artist_listed_as_candidate() {
    let pallet = fresh();
    let genesis = GenesisConfig {
        artists: vec![(ALICE, b"Alice".to_vec())],
        candidates: vec![(ALICE, b"Alice".to_vec())],
    };
    assert_eq!(genesis.check(&pallet), Err(GenesisError::AlreadyAdded(ALICE)));
}

#[test]
fn genesis_rejects_long_names_and_missing_funds() {
    let pallet = fresh();
    let long = GenesisConfig { artists: vec![(ALICE, vec![b'a'; 21])], candidates: vec![] };
    assert_eq!(long.check(&pallet), Err(GenesisError::NameTooLong(ALICE)));
    let poor = GenesisConfig { artists: vec![], candidates: vec![(POOR, b"Poor".to_vec())] };
    assert_eq!(poor.check(&pallet), Err(GenesisError::NotEnoughFunds(POOR)));
    assert_eq!(pallet.events().len(), 0);
}

#[test]
fn empty_genesis_changes_nothing() {
    let mut pallet = fresh();
    let genesis = GenesisConfig::default();
    assert_eq!(genesis.check(&pallet), Ok(()));
    genesis.build(&mut pallet);
    assert!(!pallet.contains(ALICE));
    assert_eq!(pallet.balances().free_balance(ALICE), 100);
}

#[test]
fn delegated_origin_checks() {
    assert_eq!(EnsureArtist::try_origin(Origin::Delegated(RawOrigin::Artist(3))), Ok(3));
    assert_eq!(
        EnsureArtist::try_origin(Origin::Delegated(RawOrigin::Candidate(3))),
        Err(Origin::Delegated(RawOrigin::Candidate(3)))
    );
    assert_eq!(EnsureArtist::try_origin(Origin::Signed(3)), Err(Origin::Signed(3)));
    assert_eq!(EnsureCandidate::try_origin(Origin::Delegated(RawOrigin::Candidate(4))), Ok(4));
    assert_eq!(EnsureCandidate::try_origin(Origin::Root), Err(Origin::Root));
    assert_eq!(
        EnsureArtist::try_successful_origin(),
        Ok(Origin::Delegated(RawOrigin::Artist(0)))
    );
    assert_eq!(
        EnsureCandidate::try_successful_origin(),
        Ok(Origin::Delegated(RawOrigin::Candidate(0)))
    );
}

#[test]
fn ledger_reserve_and_unreserve() {
    let mut balances = Balances::new();
    balances.make_free_balance_be(1, 50);
    assert_eq!(balances.reserve(1, 60), Err(LedgerError::InsufficientBalance));
    assert_eq!(balances.free_balance(1), 50);
    assert_eq!(balances.reserve(1, 20), Ok(()));
    assert_eq!((balances.free_balance(1), balances.reserved_balance(1)), (30, 20));
    assert_eq!(balances.unreserve(1, 25), 5);
    assert_eq!((balances.free_balance(1), balances.reserved_balance(1)), (50, 0));
    assert_eq!(balances.free_balance(9), 0);
}

#[test]
fn ledger_free_balance_is_capped() {
    let mut balances = Balances::new();
    balances.make_free_balance_be(1, 100);
    assert_eq!(balances.reserve(1, 40), Ok(()));
    balances.make_free_balance_be(1, u64::MAX);
    assert_eq!(balances.free_balance(1), u64::MAX - 40);
    assert_eq!(balances.reserved_balance(1), 40);
}
