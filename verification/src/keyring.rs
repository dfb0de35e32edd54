//! The well-known development accounts, and signatures by them.

use schnorrkel::derive::ChainCode;
use schnorrkel::{ExpansionMode, MiniSecretKey, PublicKey};
use vstd::bytes::spec_u64_to_le_bytes;
use vstd::prelude::*;
use vstd::utf8::{encode_utf8, is_ascii_chars, is_ascii_chars_encode_utf8};

use crate::extrinsic::{
    law_transfer_encoding_layout, law_transfer_encoding_length, AccountId, Extrinsic, Signature,
};

verus! {

/// The seed that all development accounts are derived from.
pub const DEV_SEED: [u8; 32] = [
    0xfa, 0xc7, 0x95, 0x9d, 0xbf, 0xe7, 0x2f, 0x05, 0x2e, 0x5a, 0x0c, 0x3c, 0x8d, 0x65, 0x30,
    0xf2, 0x02, 0xb0, 0x2f, 0xd8, 0xf9, 0xf5, 0xca, 0x35, 0x80, 0xec, 0x8d, 0xeb, 0x77, 0x97,
    0x47, 0x9e,
];

/// The context that transfers are signed in: "substrate".
pub const SIGNING_CONTEXT: [u8; 9] = [115, 117, 98, 115, 116, 114, 97, 116, 101];

/// The seed that hard derivation by `chain_code` makes of `seed`, its key being
/// expanded as in Ed25519.
pub uninterp spec fn sr25519_hard_derive(seed: Seq<u8>, chain_code: Seq<u8>) -> Seq<u8>;

/// The public key of `seed`, its key being expanded as in Ed25519.
pub uninterp spec fn sr25519_public(seed: Seq<u8>) -> Seq<u8>;

/// Whether `signature` is a signature by the holder of `public` over `message`
/// in `context`.
pub uninterp spec fn sr25519_verifies(
    public: Seq<u8>,
    context: Seq<u8>,
    message: Seq<u8>,
    signature: Seq<u8>,
) -> bool;

/// Calls `schnorrkel::MiniSecretKey::hard_derive_mini_secret_key` with no
/// further index bytes. Trusted: the result depends on the arguments alone.
#[verifier::external_body]
fn hard_derive(seed: &[u8; 32], chain_code: &[u8; 32]) -> (derived: [u8; 32])
    ensures
        derived@ == sr25519_hard_derive(seed@, chain_code@),
{
    let key = MiniSecretKey::from_bytes(seed).unwrap();
    let code = Some(ChainCode(*chain_code));
    key.hard_derive_mini_secret_key(code, b"", ExpansionMode::Ed25519).0.to_bytes()
}

/// Calls `schnorrkel::MiniSecretKey::expand_to_public`. Trusted: the result
/// depends on the seed alone.
#[verifier::external_body]
fn public_key(seed: &[u8; 32]) -> (public: [u8; 32])
    ensures
        public@ == sr25519_public(seed@),
{
    MiniSecretKey::from_bytes(seed).unwrap().expand_to_public(ExpansionMode::Ed25519).to_bytes()
}

/// Calls `schnorrkel::Keypair::sign_simple`. Trusted: the signature verifies
/// under the public key of the seed, for the same context and message. Which of
/// the many such signatures it is, is a matter of chance. Contexts and messages
/// whose length does not fit in 32 bits are left out: the call panics on them.
#[verifier::external_body]
fn sign_simple(seed: &[u8; 32], context: &[u8], message: &[u8]) -> (signature: [u8; 64])
    requires
        context@.len() <= u32::MAX,
        message@.len() <= u32::MAX,
    ensures
        sr25519_verifies(sr25519_public(seed@), context@, message@, signature@),
{
    let key = MiniSecretKey::from_bytes(seed).unwrap();
    key.expand_to_keypair(ExpansionMode::Ed25519).sign_simple(context, message).to_bytes()
}

/// Calls `schnorrkel::PublicKey::verify_simple`; bytes that are no public key
/// or no signature do not verify. Trusted: the result depends on the arguments
/// alone. Contexts and messages whose length does not fit in 32 bits are left
/// out: the call panics on them.
#[verifier::external_body]
fn verify_simple(public: &[u8; 32], context: &[u8], message: &[u8], signature: &[u8; 64]) -> (
verifies: bool)
    requires
        context@.len() <= u32::MAX,
        message@.len() <= u32::MAX,
    ensures
        verifies == sr25519_verifies(public@, context@, message@, signature@),
{
    match (PublicKey::from_bytes(public), schnorrkel::Signature::from_bytes(signature)) {
        (Ok(key), Ok(sig)) => key.verify_simple(context, message, &sig).is_ok(),
        _ => false,
    }
}

/// The chain code of the derivation step that is written `//name`: the SCALE
/// encoding of the name, filled up with zeros.
pub open spec fn hard_junction(name: Seq<u8>) -> Seq<u8> {
    Seq::new(
        32,
        |i: int|
            if i == 0 {
                (4 * name.len()) as u8
            } else if i <= name.len() {
                name[i - 1]
            } else {
                0u8
            },
    )
}

fn chain_code(name: &str) -> (code: [u8; 32])
    requires
        encode_utf8(name@).len() <= 31,
    ensures
        code@ == hard_junction(encode_utf8(name@)),
{
    let bytes = name.as_bytes();
    let len: usize = bytes.len();
    let mut code = [0u8;32];
    code[0] = (4 * len) as u8;
    let mut i: usize = 0;
    while i < len
        invariant
            0 <= i <= len <= 31,
            bytes@ == encode_utf8(name@),
            len == bytes@.len(),
            code@.len() == 32,
            code@[0] == (4 * len) as u8,
            forall|k: int| 1 <= k <= i ==> code@[k] == bytes@[k - 1],
            forall|k: int| i < k < 32 ==> code@[k] == 0u8,
        decreases len - i,
    {
        code[i + 1] = bytes[i];
        i = i + 1;
    }
    assert(code@ =~= hard_junction(encode_utf8(name@)));
    code
}

/// A development account.
#[derive(Clone, Copy, Debug, PartialEq, Eq, Structural)]
pub enum AccountKeyring {
    Alice,
    Bob,
    Charlie,
    Dave,
    Eve,
    Ferdie,
    One,
    Two,
}

impl AccountKeyring {
    /// The name that the account is derived by.
    pub open spec fn spec_name(self) -> Seq<char> {
        match self {
            AccountKeyring::Alice => "Alice"@,
            AccountKeyring::Bob => "Bob"@,
            AccountKeyring::Charlie => "Charlie"@,
            AccountKeyring::Dave => "Dave"@,
            AccountKeyring::Eve => "Eve"@,
            AccountKeyring::Ferdie => "Ferdie"@,
            AccountKeyring::One => "One"@,
            AccountKeyring::Two => "Two"@,
        }
    }

    /// The seed of the account.
    pub open spec fn spec_seed(self) -> Seq<u8> {
        sr25519_hard_derive(DEV_SEED@, hard_junction(encode_utf8(self.spec_name())))
    }

    /// The public key of the account.
    pub open spec fn spec_account_id(self) -> Seq<u8> {
        sr25519_public(self.spec_seed())
    }

    /// The name that the account is derived by.
    pub fn name(self) -> (name: &'static str)
        ensures
            name@ == self.spec_name(),
    {
        match self {
            AccountKeyring::Alice => "Alice",
            AccountKeyring::Bob => "Bob",
            AccountKeyring::Charlie => "Charlie",
            AccountKeyring::Dave => "Dave",
            AccountKeyring::Eve => "Eve",
            AccountKeyring::Ferdie => "Ferdie",
            AccountKeyring::One => "One",
            AccountKeyring::Two => "Two",
        }
    }

    proof fn lemma_name_is_short(self)
        ensures
            encode_utf8(self.spec_name()).len() <= 31,
    {
        reveal_strlit("Alice");
        reveal_strlit("Bob");
        reveal_strlit("Charlie");
        reveal_strlit("Dave");
        reveal_strlit("Eve");
        reveal_strlit("Ferdie");
        reveal_strlit("One");
        reveal_strlit("Two");
        assert(is_ascii_chars(self.spec_name()));
        is_ascii_chars_encode_utf8(self.spec_name());
    }

    fn seed(self) -> (seed: [u8; 32])
        ensures
            seed@ == self.spec_seed(),
    {
        proof {
            self.lemma_name_is_short();
        }
        hard_derive(&DEV_SEED, &chain_code(self.name()))
    }

    /// The account.
    pub fn account_id(self) -> (id: AccountId)
        ensures
            id@ == self.spec_account_id(),
    {
        public_key(&self.seed())
    }

    /// Signs `message`, which may be as long as 32 bits can count, with the
    /// account's key.
    pub fn sign(self, message: &[u8]) -> (signature: Signature)
        requires
            message@.len() <= u32::MAX,
        ensures
            sr25519_verifies(
                self.spec_account_id(),
                SIGNING_CONTEXT@,
                message@,
                signature@,
            ),
    {
        sign_simple(&self.seed(), &SIGNING_CONTEXT, message)
    }
}

impl<O> Extrinsic<O> {
    /// Whether an extrinsic is a transfer with its sender's signature.
    pub open spec fn spec_is_signed(self) -> bool {
        match self {
            Extrinsic::Transfer(transfer, signature) => sr25519_verifies(
                transfer.from@,
                SIGNING_CONTEXT@,
                transfer.encoding(),
                signature@,
            ),
            Extrinsic::Other(_) => false,
        }
    }

    /// Checks whether an extrinsic is a transfer with its sender's signature.
    pub fn is_signed(&self) -> (signed: bool)
        ensures
            signed == self.spec_is_signed(),
    {
        match self {
            Extrinsic::Transfer(transfer, signature) => {
                proof {
                    law_transfer_encoding_length(*transfer);
                }
                verify_simple(
                    &transfer.from,
                    &SIGNING_CONTEXT,
                    transfer.encode().as_slice(),
                    signature,
                )
            },
            Extrinsic::Other(_) => false,
        }
    }
}

/// Each account is derived by its own name.
pub proof fn law_accounts_are_derived_by_name(who: AccountKeyring, name: &'static str)
    requires
        call_ensures(AccountKeyring::name, (who,), name),
    ensures
        name@ == match who {
            AccountKeyring::Alice => seq!['A', 'l', 'i', 'c', 'e'],
            AccountKeyring::Bob => seq!['B', 'o', 'b'],
            AccountKeyring::Charlie => seq!['C', 'h', 'a', 'r', 'l', 'i', 'e'],
            AccountKeyring::Dave => seq!['D', 'a', 'v', 'e'],
            AccountKeyring::Eve => seq!['E', 'v', 'e'],
            AccountKeyring::Ferdie => seq!['F', 'e', 'r', 'd', 'i', 'e'],
            AccountKeyring::One => seq!['O', 'n', 'e'],
            AccountKeyring::Two => seq!['T', 'w', 'o'],
        },
        name@ == who.spec_name(),
{
    reveal_strlit("Alice");
    reveal_strlit("Bob");
    reveal_strlit("Charlie");
    reveal_strlit("Dave");
    reveal_strlit("Eve");
    reveal_strlit("Ferdie");
    reveal_strlit("One");
    reveal_strlit("Two");
}

/// An account is the public key of what hard derivation makes of the seed of
/// all development accounts. The chain code is 32 bytes long: four times the
/// length of the name, the name, and zeros.
pub proof fn law_account_derivation(who: AccountKeyring, id: AccountId, code: Seq<u8>)
    requires
        call_ensures(AccountKeyring::account_id, (who,), id),
        code.len() == 32,
        code[0] == 4 * encode_utf8(who.spec_name()).len(),
        code.subrange(1, 1 + encode_utf8(who.spec_name()).len() as int) == encode_utf8(
            who.spec_name(),
        ),
        forall|i: int| encode_utf8(who.spec_name()).len() < i < 32 ==> #[trigger] code[i] == 0,
    ensures
        id@ == sr25519_public(sr25519_hard_derive(DEV_SEED@, code)),
        id@ == who.spec_account_id(),
{
    let name = encode_utf8(who.spec_name());
    who.lemma_name_is_short();
    assert(code =~= hard_junction(name)) by {
        assert forall|i: int| 1 <= i <= name.len() implies code[i] == name[i - 1] by {
            assert(code.subrange(1, 1 + name.len() as int)[i - 1] == code[i]);
        }
    }
}

/// What an account signs verifies under its public key, in the context that is
/// written "substrate".
pub proof fn law_account_signs_whole_messages(
    who: AccountKeyring,
    message: &[u8],
    signature: Signature,
)
    requires
        call_ensures(AccountKeyring::sign, (who, message), signature),
    ensures
        sr25519_verifies(
            who.spec_account_id(),
            seq![115u8, 117u8, 98u8, 115u8, 116u8, 114u8, 97u8, 116u8, 101u8],
            message@,
            signature@,
        ),
{
    law_signing_context();
}

/// The context that transfers are signed in is written "substrate".
pub proof fn law_signing_context()
    ensures
        SIGNING_CONTEXT@ == seq![115u8, 117u8, 98u8, 115u8, 116u8, 114u8, 97u8, 116u8, 101u8],
{
    assert(SIGNING_CONTEXT@ =~= seq![115u8, 117u8, 98u8, 115u8, 116u8, 114u8, 97u8, 116u8, 101u8]);
}

/// A transfer counts as signed exactly if its signature verifies for its sender
/// over its whole encoding, with its nonce; nothing else counts as signed.
pub proof fn law_signed_over_the_whole_transfer<O>(xt: Extrinsic<O>, signed: bool)
    requires
        call_ensures(Extrinsic::<O>::is_signed, (&xt,), signed),
    ensures
        signed == xt.spec_is_signed(),
        match xt {
            Extrinsic::Transfer(transfer, signature) => signed == sr25519_verifies(
                transfer.from@,
                seq![115u8, 117u8, 98u8, 115u8, 116u8, 114u8, 97u8, 116u8, 101u8],
                transfer.from@ + transfer.to@ + spec_u64_to_le_bytes(transfer.amount)
                    + spec_u64_to_le_bytes(transfer.nonce),
                signature@,
            ),
            Extrinsic::Other(_) => !signed,
        },
{
    law_signing_context();
    if let Extrinsic::Transfer(transfer, _) = xt {
        law_transfer_encoding_layout(transfer);
    }
}

} // verus!
