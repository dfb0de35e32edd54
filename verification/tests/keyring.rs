use manual_seal::extrinsic::{Extrinsic, Transfer};
use manual_seal::keyring::AccountKeyring;

fn hex(text: &str) -> Vec<u8> {
    let digits: Vec<u32> = text.chars().map(|c| c.to_digit(16).unwrap()).collect();
    digits.chunks(2).map(|pair| (pair[0] * 16 + pair[1]) as u8).collect()
}

#[test]
fn development_accounts_have_their_well_known_keys() {
    let known = vec![
        (
            AccountKeyring::Alice,
            "d43593c715fdd31c61141abd04a99fd6822c8558854ccde39a5684e7a56da27d",
        ),
        (
            AccountKeyring::Bob,
            "8eaf04151687736326c9fea17e25fc5287613693c912909cb226aa4794f26a48",
        ),
        (
            AccountKeyring::Charlie,
            "90b5ab205c6974c9ea841be688864633dc9ca8a357843eeacf2314649965fe22",
        ),
        (
            AccountKeyring::Dave,
            "306721211d5404bd9da88e0204360a1a9ab8b87c66c1bc2fcdd37f3c2222cc20",
        ),
        (
            AccountKeyring::Eve,
            "e659a7a1628cdd93febc04a4e0646ea20e9f5f0ce097d9a05290d4a9e054df4e",
        ),
        (
            AccountKeyring::Ferdie,
            "1cbd2d43530a44705ad088af313e18f80b53ef16b36177cd4b77b846f2a5f07c",
        ),
    ];
    for (who, key) in known {
        assert_eq!(who.account_id().to_vec(), hex(key), "{}", who.name());
    }
}

#[test]
fn accounts_one_and_two_are_their_own() {
    let one = AccountKeyring::One.account_id();
    let two = AccountKeyring::Two.account_id();
    assert_ne!(one, two);
    assert_ne!(one, AccountKeyring::Alice.account_id());
}

#[test]
fn signature_holds_for_its_message_and_signer_only() {
    let transfer = Transfer {
        from: AccountKeyring::Bob.account_id(),
        to: [0; 32],
        amount: 3,
        nonce: 4,
    };
    let signature = AccountKeyring::Bob.sign(&transfer.encode());
    assert!(Extrinsic::<()>::Transfer(transfer, signature).is_signed());

    let other_amount = Transfer { amount: 4, ..transfer };
    assert!(!Extrinsic::<()>::Transfer(other_amount, signature).is_signed());

    let other_sender = Transfer { from: AccountKeyring::Eve.account_id(), ..transfer };
    assert!(!Extrinsic::<()>::Transfer(other_sender, signature).is_signed());

    assert!(!Extrinsic::<()>::Transfer(transfer, [0; 64]).is_signed());
}
