//! The Noise XK handshake and the ciphers that come out of it, as the
//! noise framework of cyphernet provides them. Nothing here is proved: each
//! function states what the session relies on.

use vstd::prelude::*;
use cyphernet::encrypt::noise::{
    CipherState, HandshakePattern, InitiatorPattern, Keyset, NoiseState, OneWayPattern,
};
use cyphernet::{x25519, EcPk, Sha256};

verus! {

/// The state of one direction of an encrypted session: a key and the number
/// of messages that went under it.
#[verifier::external_type_specification]
#[verifier::external_body]
pub struct ExCipherState(CipherState);

/// The state of a Noise XK handshake over Curve25519, ChaCha20-Poly1305 and
/// SHA-256: a `NoiseState` of the noise framework. The verifier cannot be
/// told of the hash function among its type arguments, so the state is kept
/// out of its sight as a whole.
#[verifier::external_body]
pub struct Handshake {
    state: NoiseState<x25519::PrivateKey, Sha256>,
}

/// The number of bytes at the front of the next message from the peer that
/// the handshake reads as key material; zero where it waits for none.
pub uninterp spec fn handshake_need(handshake: Handshake) -> nat;

/// What a handshake in the given state has come to: nothing while it is
/// under way; once it is complete, what `NoiseState::Active` holds, which
/// is the cipher that the noise framework names the sending one, the cipher
/// that it names the receiving one, and the static key of the peer.
pub uninterp spec fn handshake_result(handshake: Handshake) -> Option<
    (CipherState, CipherState, Option<[u8; 32]>),
>;

/// The number of messages that went under the key of a cipher.
pub uninterp spec fn cipher_nonce(cipher: CipherState) -> nat;

/// What `CipherState::encrypt_with_ad` makes of a plaintext, with no
/// associated data, under a cipher in the given state: the ciphertext, or
/// nothing where the encryption fails.
pub uninterp spec fn ciphertext_of(cipher: CipherState, plaintext: Seq<u8>) -> Option<Seq<u8>>;

/// What `CipherState::decrypt_with_ad` makes of a ciphertext, with no
/// associated data, under a cipher in the given state: the plaintext, or
/// nothing where the ciphertext is not genuine.
pub uninterp spec fn plaintext_of(cipher: CipherState, ciphertext: Seq<u8>) -> Option<Seq<u8>>;

/// The bytes of a message that may be missing.
pub open spec fn message_bytes(message: Option<Vec<u8>>) -> Option<Seq<u8>> {
    match message {
        Some(bytes) => Some(bytes@),
        None => None,
    }
}

/// Calls `NoiseState::initialize` with the pattern XK, the role of the
/// initiator, no prologue and a key set made by `Keyset::noise_nn`, to which
/// the local static key and the static key expected of the peer are added.
/// An initiator begins by writing, so it waits for no bytes.
#[verifier::external_body]
pub(crate) fn xk_initiator(local: &[u8; 32], remote: &[u8; 32]) -> (handshake: Handshake)
    ensures
        handshake_need(handshake) == 0,
{
    let mut keyset: Keyset<x25519::PrivateKey> = Keyset::noise_nn();
    keyset.s = Some(ed25519_compact::x25519::SecretKey::new(*local).into());
    keyset.rs = Some(ed25519_compact::x25519::PublicKey::new(*remote).into());
    let pattern = HandshakePattern {
        initiator: InitiatorPattern::Xmitted,
        responder: OneWayPattern::Known,
    };
    Handshake { state: NoiseState::initialize::<32>(pattern, true, &[], keyset) }
}

/// Calls `NoiseState::initialize` with the pattern XK, the role of the
/// responder, no prologue and a key set made by `Keyset::noise_nn`, to which
/// the local static key is added.
#[verifier::external_body]
pub(crate) fn xk_responder(local: &[u8; 32]) -> (handshake: Handshake) {
    let mut keyset: Keyset<x25519::PrivateKey> = Keyset::noise_nn();
    keyset.s = Some(ed25519_compact::x25519::SecretKey::new(*local).into());
    let pattern = HandshakePattern {
        initiator: InitiatorPattern::Xmitted,
        responder: OneWayPattern::Known,
    };
    Handshake { state: NoiseState::initialize::<32>(pattern, false, &[], keyset) }
}

/// Calls `NoiseState::next_read_len`.
#[verifier::external_body]
pub(crate) fn handshake_read_len(handshake: &Handshake) -> (need: usize)
    ensures
        need == handshake_need(*handshake),
{
    handshake.state.next_read_len()
}

/// Calls `NoiseState::advance_with_payload`: the handshake reads `input` as
/// the next message of the peer, where it waits for one, and writes its own
/// next message with `payload` in it. The result is the handshake as the
/// call left it, that message, and the payload that the peer's message
/// held; none where the handshake failed. A handshake that failed is gone
/// with the call: the noise framework leaves such a state half done, and
/// advancing it again may give up.
///
/// The function reads the key material off the front of `input` without
/// looking at its length, so `input` has to be long enough. Nothing is
/// promised of the result: fresh random keys go into it, and the function
/// gives up where the operating system has no randomness to give.
#[verifier::external_body]
pub(crate) fn handshake_advance(handshake: Handshake, input: &[u8], payload: &[u8]) -> (r: Option<
    (Handshake, Vec<u8>, Vec<u8>),
>)
    requires
        input@.len() >= handshake_need(handshake),
{
    let mut handshake = handshake;
    match handshake.state.advance_with_payload(input, payload) {
        Ok((act, held)) => Some((handshake, act, held)),
        Err(_) => None,
    }
}

/// Looks whether the handshake is complete, and if so hands out copies of
/// what `NoiseState::Active` holds: the cipher that the noise framework
/// names the sending one, the cipher that it names the receiving one, and
/// the static key of the peer. The result depends on the state of the
/// handshake alone.
#[verifier::external_body]
pub(crate) fn handshake_outcome(handshake: &Handshake) -> (r: Option<
    (CipherState, CipherState, Option<[u8; 32]>),
>)
    ensures
        r == handshake_result(*handshake),
{
    match &handshake.state {
        NoiseState::Active { sending_cipher, receiving_cipher, remote_static_pubkey, .. } => Some(
            (
                sending_cipher.clone(),
                receiving_cipher.clone(),
                match remote_static_pubkey {
                    Some(key) => Some(key.to_pk_compressed()),
                    None => None,
                },
            ),
        ),
        _ => None,
    }
}

/// Calls `CipherState::nonce`.
#[verifier::external_body]
pub(crate) fn nonce_of(cipher: &CipherState) -> (nonce: u64)
    ensures
        nonce == cipher_nonce(*cipher),
{
    cipher.nonce()
}

/// Calls `CipherState::encrypt_with_ad` with no associated data. The
/// result depends on the state of the cipher and on the plaintext alone.
/// The function counts the message whether or not the encryption succeeds,
/// and the count must not run over.
#[verifier::external_body]
pub(crate) fn encrypt(cipher: &mut CipherState, plaintext: &[u8]) -> (ciphertext: Option<Vec<u8>>)
    requires
        cipher_nonce(*old(cipher)) < u64::MAX,
    ensures
        message_bytes(ciphertext) == ciphertext_of(*old(cipher), plaintext@),
        cipher_nonce(*final(cipher)) == cipher_nonce(*old(cipher)) + 1,
{
    cipher.encrypt_with_ad(&[], plaintext).ok()
}

/// Calls `CipherState::decrypt_with_ad` with no associated data. The
/// result depends on the state of the cipher and on the ciphertext alone.
/// The function counts the message only where the decryption succeeds, and
/// the count must not run over.
#[verifier::external_body]
pub(crate) fn decrypt(cipher: &mut CipherState, ciphertext: &[u8]) -> (plaintext: Option<Vec<u8>>)
    requires
        cipher_nonce(*old(cipher)) < u64::MAX,
    ensures
        message_bytes(plaintext) == plaintext_of(*old(cipher), ciphertext@),
        plaintext is Some ==> cipher_nonce(*final(cipher)) == cipher_nonce(*old(cipher)) + 1,
        plaintext is None ==> cipher_nonce(*final(cipher)) == cipher_nonce(*old(cipher)),
{
    cipher.decrypt_with_ad(&[], ciphertext).ok()
}

} // verus!
