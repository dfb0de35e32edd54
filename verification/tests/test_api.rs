use manual_seal::extrinsic::Extrinsic;
use manual_seal::keyring::AccountKeyring;
use manual_seal::primitives::{BlockId, H256};
use manual_seal::test_api::{
    index, number_of, pool, uxt, Modifier, Pool, TestApi, Unmodified, ValidTransaction,
};
use manual_seal::transaction_format::{ExtrinsicCodec, TransactionHash};

type Xt = Extrinsic<Remark>;

/// A remark: up to 255 bytes, written after the byte two and their number.
#[derive(Clone, Debug, PartialEq)]
struct Remark(Vec<u8>);

impl ExtrinsicCodec for Remark {
    type FormatError = &'static str;

    fn decode(bytes: &[u8]) -> Result<(Remark, usize), &'static str> {
        if bytes.len() < 2 || bytes[0] != 2 {
            return Err("no remark");
        }
        let read = 2 + usize::from(bytes[1]);
        if bytes.len() < read {
            return Err("cut off");
        }
        Ok((Remark(bytes[2..read].to_vec()), read))
    }

    fn encode(&self) -> Vec<u8> {
        let mut bytes = vec![2, self.0.len() as u8];
        bytes.extend_from_slice(&self.0);
        bytes
    }
}

fn transfer(who: AccountKeyring, nonce: u64) -> Xt {
    uxt(who, nonce)
}

struct Urgent;

impl Modifier for Urgent {
    fn modify(&self, validity: &mut ValidTransaction) {
        validity.priority = 90;
        validity.propagate = false;
    }
}

#[test]
fn transfer_whose_nonce_is_up_waits_for_nothing() {
    let validity = TestApi::default()
        .validate_transaction(&BlockId::Number(0), &transfer(AccountKeyring::Alice, 209));
    let expected = ValidTransaction {
        priority: 1,
        required: vec![],
        provided: vec![vec![209]],
        longevity: 64,
        propagate: true,
    };
    assert_eq!(validity, expected);
}

#[test]
fn later_transfer_waits_for_the_one_before() {
    let api = TestApi::default();
    let at = BlockId::Number(0);
    let later = api.validate_transaction(&at, &transfer(AccountKeyring::Alice, 211));
    assert_eq!(later.required, vec![vec![210]]);
    assert_eq!(later.provided, vec![vec![211]]);
    let before = api.validate_transaction(&at, &transfer(AccountKeyring::Alice, 210));
    assert_eq!(later.required, before.provided);
}

#[test]
fn only_the_low_byte_of_a_nonce_counts_for_its_tag() {
    let validity = TestApi::default()
        .validate_transaction(&BlockId::Number(0), &transfer(AccountKeyring::Alice, 257));
    assert_eq!(validity.required, vec![vec![0]]);
    assert_eq!(validity.provided, vec![vec![1]]);
    let up = TestApi::default()
        .validate_transaction(&BlockId::Number(47), &transfer(AccountKeyring::Alice, 256));
    assert!(up.required.is_empty());
    assert_eq!(up.provided, vec![vec![0]]);
}

#[test]
fn nonce_that_is_up_grows_with_the_chain() {
    assert_eq!(index(&BlockId::Number(0)), 209);
    assert_eq!(index(&BlockId::Number(1)), 210);
    assert_eq!(index(&BlockId::Hash(H256([5; 32]))), 209);
}

#[test]
fn blocks_have_numbers_and_hashes() {
    let api = TestApi::default();
    let by_hash = BlockId::Hash(H256([5; 32]));
    let by_number = BlockId::Number(9);
    assert_eq!(number_of(&by_hash), 0);
    assert_eq!(api.block_id_to_number(&by_hash), Some(0));
    assert_eq!(api.block_id_to_number(&by_number), Some(9));
    assert_eq!(api.block_id_to_hash(&by_hash), Some(H256([5; 32])));
    assert_eq!(api.block_id_to_hash(&by_number), Some(H256([0; 32])));
}

#[test]
fn modifier_has_the_last_word() {
    let api = TestApi { modifier: Urgent };
    let validity = api.validate_transaction(&BlockId::Number(0), &transfer(AccountKeyring::Bob, 209));
    assert_eq!(validity.priority, 90);
    assert!(!validity.propagate);
    assert_eq!(validity.longevity, 64);
    assert_eq!(validity.provided, vec![vec![209]]);
}

#[test]
fn hash_and_length_are_those_of_the_encoding() {
    let xt: Xt = uxt(AccountKeyring::Alice, 209);
    let (hash, length) = TestApi::default().hash_and_length(&xt);
    assert_eq!(hash, xt.hash());
    assert_eq!(length, 145);
    let other: Xt = Extrinsic::Other(Remark(vec![7]));
    assert!(!other.is_signed());
    let (hash, length) = TestApi::default().hash_and_length(&other);
    assert_eq!(hash, other.hash());
    assert_eq!(length, 3);
    assert_eq!(TestApi::default().hash_of(&other), hash);
}

#[test]
fn uxt_is_a_signed_transfer_of_one_unit() {
    let xt: Xt = uxt(AccountKeyring::Alice, 5);
    assert!(xt.is_signed());
    assert_eq!(xt.transfer().from, AccountKeyring::Alice.account_id());
    assert_eq!(xt.transfer().to, [0; 32]);
    assert_eq!(xt.transfer().amount, 1);
    assert_eq!(xt.transfer().nonce, 5);
    assert!(matches!(xt, Extrinsic::Transfer(_, _)));
}

#[test]
fn pool_has_default_options_and_the_default_api() {
    let made: Pool<u32, TestApi<Unmodified>> = pool();
    assert_eq!(made.options, 0);
    assert_eq!(made.api.modifier, Unmodified);
}

#[test]
fn validity_depends_on_nonce_and_block_number() {
    let api = TestApi { modifier: Urgent };
    let signed = transfer(AccountKeyring::Alice, 215);
    let mut large = *transfer(AccountKeyring::Bob, 215).transfer();
    large.amount = 1000;
    let unsigned: Xt = Extrinsic::Transfer(large, [0; 64]);
    assert!(!unsigned.is_signed());
    let by_number = api.validate_transaction(&BlockId::Number(0), &signed);
    let by_hash = api.validate_transaction(&BlockId::Hash(H256([9; 32])), &unsigned);
    assert_eq!(by_number, by_hash);
    assert_eq!(by_hash.required, vec![vec![214]]);
}
