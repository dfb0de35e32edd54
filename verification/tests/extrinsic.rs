use manual_seal::extrinsic::{Extrinsic, FormatError, Transfer};
use manual_seal::hashing::blake2_256;
use manual_seal::transaction_format::ExtrinsicCodec;

type Xt = Extrinsic<Remark>;

/// A remark: up to 255 bytes, written after the byte two and their number.
#[derive(Clone, Debug, PartialEq)]
struct Remark(Vec<u8>);

impl ExtrinsicCodec for Remark {
    type FormatError = &'static str;

    fn decode(bytes: &[u8]) -> Result<(Remark, usize), &'static str> {
        if bytes.len() < 2 || bytes[0] != 2 {
            return Err("no remark");
        }
        let read = 2 + usize::from(bytes[1]);
        if bytes.len() < read {
            return Err("cut off");
        }
        Ok((Remark(bytes[2..read].to_vec()), read))
    }

    fn encode(&self) -> Vec<u8> {
        let mut bytes = vec![2, self.0.len() as u8];
        bytes.extend_from_slice(&self.0);
        bytes
    }
}

fn hex(text: &str) -> Vec<u8> {
    let digits: Vec<u32> = text.chars().map(|c| c.to_digit(16).unwrap()).collect();
    digits.chunks(2).map(|pair| (pair[0] * 16 + pair[1]) as u8).collect()
}

fn sample() -> Xt {
    let mut signature = [0u8; 64];
    for i in 0..64 {
        signature[i] = 100 + i as u8;
    }
    Extrinsic::Transfer(
        Transfer { from: [1; 32], to: [2; 32], amount: 0x0102030405060708, nonce: 513 },
        signature,
    )
}

#[test]
fn transfer_is_encoded_field_by_field() {
    let encoded = sample().transfer().encode();
    let mut expected = vec![1u8; 32];
    expected.extend(vec![2u8; 32]);
    expected.extend(vec![8, 7, 6, 5, 4, 3, 2, 1]);
    expected.extend(vec![1, 2, 0, 0, 0, 0, 0, 0]);
    assert_eq!(encoded, expected);
}

#[test]
fn extrinsic_is_encoded_with_its_variant_and_signature() {
    let encoded = sample().encode();
    assert_eq!(encoded.len(), 145);
    assert_eq!(encoded[0], 1);
    assert_eq!(encoded[1..81].to_vec(), sample().transfer().encode());
    assert_eq!(encoded[81], 100);
    assert_eq!(encoded[144], 163);
}

#[test]
fn decoding_undoes_encoding() {
    assert_eq!(Xt::decode(&sample().encode()), Ok((sample(), 145)));
    let other: Xt = Extrinsic::Other(Remark(vec![7, 8]));
    assert_eq!(Xt::decode(&other.encode()), Ok((other, 4)));
}

#[test]
fn what_follows_an_extrinsic_is_not_looked_at() {
    let mut bytes = sample().encode();
    bytes.extend(vec![9, 9, 9]);
    assert_eq!(Xt::decode(&bytes), Ok((sample(), 145)));
    let other: Xt = Extrinsic::Other(Remark(vec![7, 8]));
    let mut bytes = other.encode();
    bytes.extend(vec![1, 2, 3]);
    assert_eq!(Xt::decode(&bytes), Ok((other, 4)));
}

#[test]
fn short_bytes_are_not_enough_data() {
    assert_eq!(Xt::decode(&[]), Err(FormatError::NotEnoughData));
    assert_eq!(Xt::decode(&[1]), Err(FormatError::NotEnoughData));
    let bytes = sample().encode();
    assert_eq!(Xt::decode(&bytes[..144]), Err(FormatError::NotEnoughData));
}

#[test]
fn what_is_no_transfer_is_left_to_the_other_extrinsics() {
    let mut bytes = sample().encode();
    bytes[0] = 4;
    assert_eq!(Xt::decode(&bytes), Err(FormatError::Other("no remark")));
    assert_eq!(Xt::decode(&[0]), Err(FormatError::Other("no remark")));
    assert_eq!(Xt::decode(&[2, 3, 9]), Err(FormatError::Other("cut off")));
    assert_eq!(Xt::decode(&[2, 1, 9]), Ok((Extrinsic::Other(Remark(vec![9])), 3)));
}

#[test]
fn hash_is_blake2b_of_the_encoding() {
    assert_eq!(
        blake2_256(&[]).0.to_vec(),
        hex("0e5751c026e543b2e8ab2eb06099daa1d1e5df47778f7787faab45cdf12fe3a8")
    );
    assert_eq!(
        blake2_256(b"abc").0.to_vec(),
        hex("bddd813c634239723171ef3fee98579b94964e3bb1cb3e427262c8c068d52319")
    );
    assert_eq!(sample().hash(), blake2_256(&sample().encode()));
    let other: Xt = Extrinsic::Other(Remark(vec![7]));
    assert_eq!(other.hash(), blake2_256(&[2, 1, 7]));
}

#[test]
fn different_extrinsics_have_different_encodings() {
    let (transfer, signature) = match sample() {
        Extrinsic::Transfer(transfer, signature) => (transfer, signature),
        Extrinsic::Other(_) => panic!("the sample is a transfer"),
    };
    let more: Xt = Extrinsic::Transfer(Transfer { amount: 1, ..transfer }, signature);
    let later: Xt = Extrinsic::Transfer(Transfer { nonce: 514, ..transfer }, signature);
    let unsigned: Xt = Extrinsic::Transfer(transfer, [0; 64]);
    for other in vec![more, later, unsigned] {
        assert_ne!(other.encode(), sample().encode());
        assert_eq!(Xt::decode(&other.encode()), Ok((other, 145)));
    }
}
