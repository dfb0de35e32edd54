use manual_seal::author::{
    extrinsic_submitted, extrinsic_watched, extrinsics_removed, insert_key, key_inserted,
    keys_rotated, pending_extrinsics, remove_extrinsic, rotate_keys, submit_extrinsic,
    watch_extrinsic, Author, AuthorError, ExtrinsicOrHash, InPoolTransaction, KeyInsertion,
    PoolFailure, Submission, WatchStep,
};
use manual_seal::extrinsic::{Extrinsic, FormatError};
use manual_seal::keyring::AccountKeyring;
use manual_seal::primitives::{BlockId, Bytes, H256};
use manual_seal::test_api::{uxt, TestApi};
use manual_seal::transaction_format::{ExtrinsicCodec, TransactionHash};

type Failure = &'static str;
type Xt = Extrinsic<Remark>;
type Reason = FormatError<&'static str>;

/// A remark: up to 255 bytes, written after the byte two and their number.
#[derive(Clone, Debug, PartialEq)]
struct Remark(Vec<u8>);

impl ExtrinsicCodec for Remark {
    type FormatError = &'static str;

    fn decode(bytes: &[u8]) -> Result<(Remark, usize), &'static str> {
        if bytes.len() < 2 || bytes[0] != 2 {
            return Err("no remark");
        }
        let read = 2 + usize::from(bytes[1]);
        if bytes.len() < read {
            return Err("cut off");
        }
        Ok((Remark(bytes[2..read].to_vec()), read))
    }

    fn encode(&self) -> Vec<u8> {
        let mut bytes = vec![2, self.0.len() as u8];
        bytes.extend_from_slice(&self.0);
        bytes
    }
}

/// A note: up to 255 bytes, written after their number, and nothing else.
#[derive(Debug, PartialEq)]
struct Note(Vec<u8>);

#[derive(Debug, PartialEq)]
enum NoteError {
    NoLength,
    WrongLength(usize),
}

impl ExtrinsicCodec for Note {
    type FormatError = NoteError;

    fn decode(bytes: &[u8]) -> Result<(Note, usize), NoteError> {
        match bytes.first() {
            None => Err(NoteError::NoLength),
            Some(length) if bytes.len() - 1 != usize::from(*length) => {
                Err(NoteError::WrongLength(bytes.len() - 1))
            }
            Some(_) => Ok((Note(bytes[1..].to_vec()), bytes.len())),
        }
    }

    fn encode(&self) -> Vec<u8> {
        let mut bytes = vec![self.0.len() as u8];
        bytes.extend_from_slice(&self.0);
        bytes
    }
}

/// A pool that knows a note by its first byte.
struct Notes;

impl TransactionHash<Note> for Notes {
    fn hash_of(&self, xt: &Note) -> H256 {
        H256([xt.0.first().copied().unwrap_or(0); 32])
    }
}

fn best() -> H256 {
    H256([7; 32])
}

#[test]
fn author_holds_its_services() {
    let author = Author::new("client", "pool", 3, true);
    assert_eq!(author.client, "client");
    assert_eq!(author.pool, "pool");
    assert_eq!(author.subscriptions, 3);
    assert!(author.keystore);
}

#[test]
fn key_with_a_four_byte_type_is_handed_to_the_store() {
    let request: Result<KeyInsertion, AuthorError<Reason, Failure>> =
        insert_key(String::from("babe"), String::from("//Alice"), Bytes(vec![1, 2]));
    match request {
        Ok(insertion) => {
            assert_eq!(insertion.key_type.0, *b"babe");
            assert_eq!(insertion.suri, "//Alice");
            assert_eq!(insertion.public, Bytes(vec![1, 2]));
        }
        Err(_) => panic!("the key was turned down"),
    }
}

#[test]
fn key_type_is_measured_in_bytes() {
    for text in vec!["", "bab", "babel", "b\u{e4}be"] {
        let request: Result<KeyInsertion, AuthorError<Reason, Failure>> =
            insert_key(String::from(text), String::new(), Bytes(vec![]));
        assert!(matches!(request, Err(AuthorError::BadKeyType)));
    }
    let request: Result<KeyInsertion, AuthorError<Reason, Failure>> =
        insert_key(String::from("\u{e4}\u{e4}"), String::new(), Bytes(vec![]));
    assert!(request.is_ok());
}

#[test]
fn failing_key_store_is_unavailable() {
    let report: Result<(), AuthorError<Reason, Failure>> = key_inserted(Err::<(), ()>(()));
    assert!(matches!(report, Err(AuthorError::KeyStoreUnavailable)));
    let report: Result<(), AuthorError<Reason, Failure>> = key_inserted(Ok::<(), ()>(()));
    assert!(report.is_ok());
}

#[test]
fn keys_are_rotated_at_the_best_block() {
    let request = rotate_keys(best());
    assert_eq!(request.at, BlockId::Hash(best()));
    assert_eq!(request.seed, None);
    let report: Result<Bytes, AuthorError<Reason, Failure>> = keys_rotated(Ok(vec![4, 5]));
    assert!(matches!(report, Ok(Bytes(keys)) if keys == vec![4, 5]));
    let report: Result<Bytes, AuthorError<Reason, Failure>> = keys_rotated(Err("no runtime"));
    assert!(matches!(report, Err(AuthorError::Client("no runtime"))));
}

#[test]
fn extrinsic_is_submitted_at_the_best_block() {
    let xt = uxt::<Remark>(AccountKeyring::Alice, 209);
    let request: Result<Submission<Xt>, AuthorError<Reason, Failure>> =
        submit_extrinsic(&Bytes(xt.encode()), best());
    match request {
        Ok(submission) => {
            assert_eq!(submission.at, BlockId::Hash(best()));
            assert_eq!(submission.extrinsic, xt);
        }
        Err(_) => panic!("the extrinsic was turned down"),
    }
}

#[test]
fn bytes_that_are_no_extrinsic_have_a_bad_format() {
    let request: Result<Submission<Xt>, AuthorError<Reason, Failure>> =
        submit_extrinsic(&Bytes(vec![]), best());
    assert!(matches!(request, Err(AuthorError::BadFormat(FormatError::NotEnoughData))));
    let request: Result<Submission<Xt>, AuthorError<Reason, Failure>> =
        submit_extrinsic(&Bytes(vec![9; 200]), best());
    assert!(matches!(request, Err(AuthorError::BadFormat(FormatError::Other("no remark")))));
}

#[test]
fn pool_failures_are_told_apart() {
    let report: Result<H256, AuthorError<Reason, Failure>> = extrinsic_submitted(Ok(best()));
    assert!(matches!(report, Ok(hash) if hash == best()));
    let report: Result<H256, AuthorError<Reason, Failure>> =
        extrinsic_submitted(Err(PoolFailure::Pool("banned")));
    assert!(matches!(report, Err(AuthorError::Pool("banned"))));
    let report: Result<H256, AuthorError<Reason, Failure>> =
        extrinsic_submitted(Err(PoolFailure::Other("no state")));
    assert!(matches!(report, Err(AuthorError::Verification("no state"))));
}

#[test]
fn pending_extrinsics_can_be_submitted_again() {
    let first = uxt::<Remark>(AccountKeyring::Alice, 209);
    let second = uxt::<Remark>(AccountKeyring::Bob, 210);
    let ready = vec![
        InPoolTransaction { hash: first.hash(), data: first.clone() },
        InPoolTransaction { hash: second.hash(), data: second.clone() },
    ];
    let pending = pending_extrinsics(&ready);
    assert_eq!(pending, vec![Bytes(first.encode()), Bytes(second.encode())]);
    let again: Result<Submission<Xt>, AuthorError<Reason, Failure>> = submit_extrinsic(&pending[1], best());
    assert!(matches!(again, Ok(submission) if submission.extrinsic == second));
}

#[test]
fn extrinsics_are_removed_by_encoding_or_hash() {
    let xt = uxt::<Remark>(AccountKeyring::Alice, 209);
    let request: Result<Vec<H256>, AuthorError<Reason, Failure>> = remove_extrinsic::<Xt, _, _>(&TestApi::default(), vec![
        ExtrinsicOrHash::Hash(H256([1; 32])),
        ExtrinsicOrHash::Extrinsic(Bytes(xt.encode())),
        ExtrinsicOrHash::Hash(xt.hash()),
    ]);
    match request {
        Ok(hashes) => assert_eq!(hashes, vec![H256([1; 32]), xt.hash(), xt.hash()]),
        Err(_) => panic!("the removal was turned down"),
    }
}

#[test]
fn removal_is_all_or_nothing() {
    let request: Result<Vec<H256>, AuthorError<Reason, Failure>> = remove_extrinsic::<Xt, _, _>(&TestApi::default(), vec![
        ExtrinsicOrHash::Hash(H256([1; 32])),
        ExtrinsicOrHash::Extrinsic(Bytes(vec![3])),
        ExtrinsicOrHash::Extrinsic(Bytes(vec![])),
    ]);
    assert!(matches!(request, Err(AuthorError::BadFormat(FormatError::Other("no remark")))));
    let request: Result<Vec<H256>, AuthorError<Reason, Failure>> = remove_extrinsic::<Xt, _, _>(&TestApi::default(), vec![]);
    assert!(matches!(request, Ok(hashes) if hashes.is_empty()));
}

#[test]
fn removed_extrinsics_are_reported_by_hash() {
    let xt = uxt::<Remark>(AccountKeyring::Alice, 209);
    let removed = vec![
        InPoolTransaction { hash: H256([2; 32]), data: xt.clone() },
        InPoolTransaction { hash: H256([1; 32]), data: xt },
    ];
    assert_eq!(extrinsics_removed(&removed), vec![H256([2; 32]), H256([1; 32])]);
}

#[test]
fn watched_extrinsic_is_submitted_or_its_subscriber_turned_away() {
    let xt = uxt::<Remark>(AccountKeyring::Alice, 209);
    let step: WatchStep<Xt, u8, Reason, Failure> = watch_extrinsic(&Bytes(xt.encode()), best());
    match step {
        WatchStep::Submit(submission) => {
            assert_eq!(submission.at, BlockId::Hash(best()));
            assert_eq!(submission.extrinsic, xt);
        }
        _ => panic!("the extrinsic was not submitted"),
    }
    let step: WatchStep<Xt, u8, Reason, Failure> = watch_extrinsic(&Bytes(vec![1, 2]), best());
    assert!(matches!(
        step,
        WatchStep::Reject(AuthorError::BadFormat(FormatError::NotEnoughData))
    ));
    let step: WatchStep<Xt, u8, Reason, Failure> = extrinsic_watched(Ok(6));
    assert!(matches!(step, WatchStep::Subscribe(6)));
    let step: WatchStep<Xt, u8, Reason, Failure> = extrinsic_watched(Err(PoolFailure::Pool("banned")));
    assert!(matches!(step, WatchStep::Reject(AuthorError::Pool("banned"))));
    let step: WatchStep<Xt, u8, Reason, Failure> = extrinsic_watched(Err(PoolFailure::Other("stale")));
    assert!(matches!(step, WatchStep::Reject(AuthorError::Verification("stale"))));
}

#[test]
fn extrinsics_are_those_of_the_pool() {
    let request: Result<Submission<Note>, AuthorError<NoteError, Failure>> =
        submit_extrinsic(&Bytes(vec![2, 40, 41]), best());
    match request {
        Ok(submission) => {
            assert_eq!(submission.at, BlockId::Hash(best()));
            assert_eq!(submission.extrinsic, Note(vec![40, 41]));
        }
        Err(_) => panic!("the note was turned down"),
    }
    let request: Result<Submission<Note>, AuthorError<NoteError, Failure>> =
        submit_extrinsic(&Bytes(vec![2, 40]), best());
    assert!(matches!(request, Err(AuthorError::BadFormat(NoteError::WrongLength(1)))));
}

#[test]
fn removal_goes_by_the_hashes_of_the_pool() {
    let by_encoding: Result<Vec<H256>, AuthorError<NoteError, Failure>> = remove_extrinsic::<Note, _, _>(
        &Notes,
        vec![
            ExtrinsicOrHash::Extrinsic(Bytes(vec![2, 40, 41])),
            ExtrinsicOrHash::Hash(H256([3; 32])),
        ],
    );
    let by_hash: Result<Vec<H256>, AuthorError<NoteError, Failure>> = remove_extrinsic::<Note, _, _>(
        &Notes,
        vec![ExtrinsicOrHash::Hash(H256([40; 32])), ExtrinsicOrHash::Hash(H256([3; 32]))],
    );
    match (by_encoding, by_hash) {
        (Ok(one), Ok(other)) => {
            assert_eq!(one, other);
            assert_eq!(one, vec![H256([40; 32]), H256([3; 32])]);
        }
        _ => panic!("the removal was turned down"),
    }
    let request: Result<Vec<H256>, AuthorError<NoteError, Failure>> = remove_extrinsic::<Note, _, _>(
        &Notes,
        vec![
            ExtrinsicOrHash::Extrinsic(Bytes(vec![])),
            ExtrinsicOrHash::Extrinsic(Bytes(vec![9])),
        ],
    );
    assert!(matches!(request, Err(AuthorError::BadFormat(NoteError::NoLength))));
}

#[test]
fn pending_notes_stand_for_their_pool_hashes() {
    let ready = vec![
        InPoolTransaction { hash: H256([8; 32]), data: Note(vec![8, 1]) },
        InPoolTransaction { hash: H256([7; 32]), data: Note(vec![7]) },
    ];
    let pending = pending_extrinsics(&ready);
    assert_eq!(pending, vec![Bytes(vec![2, 8, 1]), Bytes(vec![1, 7])]);
    let entries: Vec<ExtrinsicOrHash> =
        pending.into_iter().map(ExtrinsicOrHash::Extrinsic).collect();
    let request: Result<Vec<H256>, AuthorError<NoteError, Failure>> =
        remove_extrinsic::<Note, _, _>(&Notes, entries);
    assert!(matches!(request, Ok(hashes) if hashes == vec![H256([8; 32]), H256([7; 32])]));
}

#[test]
fn other_extrinsics_are_submitted_and_removed_too() {
    let other: Xt = Extrinsic::Other(Remark(vec![5, 6]));
    let request: Result<Submission<Xt>, AuthorError<Reason, Failure>> =
        submit_extrinsic(&Bytes(other.encode()), best());
    assert!(matches!(request, Ok(submission) if submission.extrinsic == other));
    let request: Result<Vec<H256>, AuthorError<Reason, Failure>> = remove_extrinsic::<Xt, _, _>(
        &TestApi::default(),
        vec![ExtrinsicOrHash::Extrinsic(Bytes(vec![2, 2, 5, 6]))],
    );
    assert!(matches!(request, Ok(hashes) if hashes == vec![other.hash()]));
}

#[test]
fn what_follows_the_extrinsic_is_ignored() {
    for xt in vec![uxt(AccountKeyring::Alice, 209), Extrinsic::Other(Remark(vec![5, 6]))] {
        let xt: Xt = xt;
        let mut followed = xt.encode();
        followed.extend(vec![1, 2, 3]);
        let request: Result<Submission<Xt>, AuthorError<Reason, Failure>> =
            submit_extrinsic(&Bytes(followed.clone()), best());
        match request {
            Ok(submission) => {
                assert_eq!(submission.at, BlockId::Hash(best()));
                assert_eq!(submission.extrinsic, xt);
            }
            Err(_) => panic!("the extrinsic was turned down"),
        }
        let step: WatchStep<Xt, u8, Reason, Failure> =
            watch_extrinsic(&Bytes(followed.clone()), best());
        assert!(matches!(step, WatchStep::Submit(submission) if submission.extrinsic == xt));
        let request: Result<Vec<H256>, AuthorError<Reason, Failure>> =
            remove_extrinsic::<Xt, _, _>(
                &TestApi::default(),
                vec![ExtrinsicOrHash::Extrinsic(Bytes(followed))],
            );
        assert!(matches!(request, Ok(hashes) if hashes == vec![xt.hash()]));
    }
}

#[test]
fn watch_ends_with_a_subscriber_accepted_or_turned_away() {
    for (bytes, outcome, accepted) in vec![
        (vec![1, 5], Ok(6), true),
        (vec![1, 5], Err(PoolFailure::Pool("banned")), false),
        (vec![1], Ok(6), false),
        (vec![1], Err(PoolFailure::Other("stale")), false),
    ] {
        let begun: WatchStep<Note, u8, NoteError, Failure> =
            watch_extrinsic(&Bytes(bytes), best());
        let end = match begun {
            WatchStep::Submit(_) => extrinsic_watched(outcome),
            decided => decided,
        };
        match end {
            WatchStep::Subscribe(watcher) => {
                assert!(accepted);
                assert_eq!(watcher, 6);
            }
            WatchStep::Reject(_) => assert!(!accepted),
            WatchStep::Submit(_) => panic!("the watch did not end"),
        }
    }
}
