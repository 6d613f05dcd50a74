use netservices::error::{ErrorKind, IoError, SessionError};
use netservices::keys::{same_bytes, NodeKeys, PrivateKey, PublicKey, KEY_LEN};
use netservices::stream::hand_out;

#[test]
fn keys_compare_by_their_bytes() {
    let mut a = [7u8; 32];
    let b = [7u8; 32];
    assert!(same_bytes(&a, &b));
    a[31] = 8;
    assert!(!same_bytes(&a, &b));
    a[31] = 7;
    a[0] = 6;
    assert!(!same_bytes(&a, &b));
    assert_eq!(PublicKey::new(b), PublicKey::new([7u8; 32]));
    assert_ne!(PublicKey::new(a), PublicKey::new(b));
}

#[test]
fn a_public_key_has_thirty_two_bytes() {
    assert_eq!(KEY_LEN, 32);
    let bytes: Vec<u8> = (0..32).collect();
    let key = PublicKey::from_slice(&bytes).unwrap();
    assert_eq!(key.bytes.to_vec(), bytes);
    assert_eq!(PublicKey::from_slice(&bytes[..31]), None);
    assert_eq!(PublicKey::from_slice(&[0u8; 33]), None);
    assert_eq!(PublicKey::from_slice(&[]), None);
}

#[test]
fn an_identity_exposes_the_public_key_of_its_private_key() {
    let pair = ed25519_compact::KeyPair::from_seed(ed25519_compact::Seed::new([3; 32]));
    let mut seed = [0u8; 32];
    seed.copy_from_slice(&pair.sk[..32]);
    let private = PrivateKey::new(seed, *pair.pk);
    assert_eq!(private.seed_bytes(), &[3u8; 32]);
    assert_eq!(private.public_bytes(), &*pair.pk);
    assert_eq!(private.to_pk(), PublicKey::new(*pair.pk));
    let keys = NodeKeys::from(private.clone());
    assert_eq!(*keys.pk(), PublicKey::new(*pair.pk));
    assert_eq!(*keys.ecdh(), private);
    assert_eq!(keys.pk().bytes, *pair.sk.public_key());
}

#[test]
fn errors_keep_their_kind_and_code() {
    let plain = IoError::from_kind(ErrorKind::TimedOut);
    assert_eq!(plain.kind(), ErrorKind::TimedOut);
    assert_eq!(plain.code, None);
    assert!(!plain.would_block());
    let os = IoError::from_os(ErrorKind::WouldBlock, 11);
    assert_eq!(os.kind(), ErrorKind::WouldBlock);
    assert_eq!(os.code, Some(11));
    assert!(os.would_block());
}

#[test]
fn session_errors_come_down_to_io_errors() {
    let invalid = IoError::from_kind(ErrorKind::InvalidInput);
    assert_eq!(SessionError::<IoError>::InvalidLocalKey.into_io(), invalid);
    assert_eq!(SessionError::<IoError>::InvalidPeerKey.into_io(), invalid);
    assert_eq!(SessionError::<IoError>::Handshake.into_io(), invalid);
    let refused = IoError::from_os(ErrorKind::ConnectionRefused, 111);
    assert_eq!(SessionError::Connection(refused).into_io(), refused);
}

#[test]
fn waiting_plaintext_is_handed_out_up_to_the_limit() {
    let mut pending = vec![1, 2, 3, 4, 5];
    assert_eq!(hand_out(&mut pending, 2), vec![1, 2]);
    assert_eq!(pending, vec![3, 4, 5]);
    assert_eq!(hand_out(&mut pending, 0), Vec::<u8>::new());
    assert_eq!(hand_out(&mut pending, 3), vec![3, 4, 5]);
    assert!(pending.is_empty());
    assert_eq!(hand_out(&mut pending, 9), Vec::<u8>::new());
}
