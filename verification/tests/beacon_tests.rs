use beacon::beacon::{beacon_file_name, sub_file_name, Beacon, Message};
use beacon::crypto::{Keypair, PublicKey, SecretKey, Signature, SignatureError};

fn hex_bytes(s: &str) -> Vec<u8> {
    (0..s.len() / 2).map(|i| u8::from_str_radix(&s[2 * i..2 * i + 2], 16).unwrap()).collect()
}

const RFC_SECRET: &str = "9d61b19deffd5a60ba844af492ec2cc44449c5697b326919703bac031cae7f60";
const RFC_PUBLIC: &str = "d75a980182b10ab7d54bfed3c964073a0ee172f3daa62325af021a68f707511a";
const RFC_SIG: &str = "e5564300c360ac729086e2cc806e828a84877f1eb8e5d974d873e065224901555fb8821590a33bacc61e39701cf9b46bd25bf5f0595bbe24655141438e7a100b";

fn rfc_keypair() -> Keypair {
    let mut bytes = hex_bytes(RFC_SECRET);
    bytes.extend(hex_bytes(RFC_PUBLIC));
    Keypair::from_bytes(&bytes).unwrap()
}

#[test]
fn test_beacon() {
    let name = String::from("test");

    let b = Beacon::new(&name).unwrap();

    // what the beacon's file holds of its keys, read back
    let saved = b.keypair.to_bytes();
    let lb = Beacon { name: name.clone(), keypair: Keypair::from_bytes(&saved).unwrap() };

    let msg = b.create_message(true).unwrap();

    assert!(lb.keypair.public.verify(&msg.get_bytes_to_sign(), &msg.sig).is_ok());
    assert_eq!(lb.name, "test");
}

#[test]
fn bytes_to_sign_are_time_then_state() {
    let b = Beacon::new(&String::from("b")).unwrap();
    let m = b.create_message_at(true, 1);
    assert_eq!(m.get_bytes_to_sign(), vec![1, 0, 0, 0, 0, 0, 0, 0, 1]);
    let m = b.create_message_at(false, -1);
    assert_eq!(m.get_bytes_to_sign(), vec![255, 255, 255, 255, 255, 255, 255, 255, 0]);
    let m = b.create_message_at(true, 0x0102030405060708);
    assert_eq!(m.get_bytes_to_sign(), vec![8, 7, 6, 5, 4, 3, 2, 1, 1]);
}

#[test]
fn created_message_carries_state_time_and_key() {
    let b = Beacon::new(&String::from("lamp")).unwrap();
    let m = b.create_message_at(false, 1_600_000_000);
    assert!(!m.beacon_state);
    assert_eq!(m.broadcast_time, 1_600_000_000);
    assert_eq!(m.pubkey.to_bytes(), b.keypair.public.to_bytes());
    assert!(m.verify());
    let now = b.create_message(true).unwrap();
    assert!(now.beacon_state);
    assert!(now.broadcast_time > 1_600_000_000);
    assert!(now.broadcast_time >= 0);
    assert!(now.verify());
}

#[test]
fn tampered_message_fails_verification() {
    let b = Beacon::new(&String::from("door")).unwrap();
    let m = b.create_message_at(true, 42);
    let flipped = Message {
        beacon_state: false,
        broadcast_time: 42,
        pubkey: m.pubkey.clone(),
        sig: m.sig.clone(),
    };
    assert!(!flipped.verify());
    let later = Message {
        beacon_state: true,
        broadcast_time: 43,
        pubkey: m.pubkey.clone(),
        sig: m.sig.clone(),
    };
    assert!(!later.verify());
    let other = Beacon::new(&String::from("other")).unwrap();
    let wrong_key = Message {
        beacon_state: true,
        broadcast_time: 42,
        pubkey: other.keypair.public.clone(),
        sig: m.sig.clone(),
    };
    assert!(!wrong_key.verify());
    assert_eq!(
        other.keypair.public.verify(&m.get_bytes_to_sign(), &m.sig),
        Err(SignatureError::Verify)
    );
}

#[test]
fn rfc8032_first_vector() {
    let kp = rfc_keypair();
    assert_eq!(PublicKey::from_secret(&kp.secret).to_bytes(), hex_bytes(RFC_PUBLIC));
    let sig = kp.sign(b"");
    assert_eq!(sig.to_bytes(), hex_bytes(RFC_SIG));
    assert!(kp.public.verify(b"", &sig).is_ok());
    assert!(kp.public.verify(b"x", &sig).is_err());
}

#[test]
fn generated_keypair_is_consistent_and_round_trips() {
    let kp = Keypair::generate().unwrap();
    assert_eq!(PublicKey::from_secret(&kp.secret).to_bytes(), kp.public.to_bytes());
    let bytes = kp.to_bytes();
    assert_eq!(bytes.len(), 64);
    assert_eq!(&bytes[..32], kp.secret.as_bytes());
    assert_eq!(&bytes[32..], kp.public.as_bytes());
    let back = Keypair::from_bytes(&bytes).unwrap();
    assert_eq!(back.secret.to_bytes(), kp.secret.to_bytes());
    assert_eq!(back.public.to_bytes(), kp.public.to_bytes());
    let other = Keypair::generate().unwrap();
    assert_ne!(other.secret.to_bytes(), kp.secret.to_bytes());
}

#[test]
fn key_and_signature_errors() {
    assert_eq!(SecretKey::from_bytes(&[0u8; 31]).err(), Some(SignatureError::BytesLength));
    assert!(SecretKey::from_bytes(&[7u8; 32]).is_ok());
    assert_eq!(PublicKey::from_bytes(&[0u8; 33]).err(), Some(SignatureError::BytesLength));
    let mut refused = 0;
    for b in 0..=255u8 {
        let mut bytes = [0u8; 32];
        bytes[0] = b;
        match PublicKey::from_bytes(&bytes) {
            Ok(k) => assert_eq!(k.to_bytes(), bytes.to_vec()),
            Err(e) => {
                assert_eq!(e, SignatureError::PointDecompression);
                refused += 1;
            }
        }
    }
    assert!(refused > 0);
    assert_eq!(Signature::from_bytes(&[0u8; 63]).err(), Some(SignatureError::BytesLength));
    let mut sig = [0u8; 64];
    sig[63] = 0x20;
    assert_eq!(Signature::from_bytes(&sig).err(), Some(SignatureError::MalformedSignature));
    sig[63] = 0x1f;
    assert_eq!(Signature::from_bytes(&sig).unwrap().to_bytes(), sig.to_vec());
    let mut kp = vec![1u8; 32];
    kp.extend(hex_bytes(RFC_PUBLIC));
    assert!(Keypair::from_bytes(&kp).is_ok());
    assert_eq!(Keypair::from_bytes(&kp[..63]).err(), Some(SignatureError::BytesLength));
}

#[test]
fn inconsistent_keypair_signs_but_does_not_verify() {
    let mut bytes = vec![1u8; 32];
    bytes.extend(hex_bytes(RFC_PUBLIC));
    let kp = Keypair::from_bytes(&bytes).unwrap();
    let sig = kp.sign(b"hello");
    assert!(kp.public.verify(b"hello", &sig).is_err());
}

#[test]
fn file_names() {
    assert_eq!(beacon_file_name(&String::from("test")), "test.bcn");
    assert_eq!(sub_file_name(&String::from("test")), "test.bcs");
    assert_eq!(beacon_file_name(&String::new()), ".bcn");
}
