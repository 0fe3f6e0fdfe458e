//! The handshake: the server proves that the client holds the private half
//! of a known RSA key, then hands it a fresh AES-256 session key.
//!
//! Server to client: the RSA ciphertext of a 128-byte random token. Client
//! to server: the token, decrypted. Server to client: the RSA ciphertext of
//! the 32-byte session key. The functions here make the decisions and the
//! cryptographic calls; the caller moves the bytes.

use vstd::prelude::*;
use crate::bytes::ct_eq;
use crate::crypto::{
    modulus_len_of, pkcs1v15_decrypt_of, random_bytes, rsa_decrypt, rsa_encrypt, rsa_key_size, AEAD_KEY_LEN,
};
use crate::frame::SessionCipher;

verus! {

/// Length of the authentication token.
pub const TOKEN_LEN: usize = 128;

/// Length of the session key.
pub const SESSION_KEY_LEN: usize = 32;

/// Why a handshake could not go on. Transport failures are the caller's.
#[derive(Debug, Clone, Copy, PartialEq, Eq, Structural)]
pub enum HandshakeError {
    /// An RSA encryption or decryption failed: a malformed key, or a
    /// ciphertext that does not match the modulus.
    Crypto,
    /// The decrypted session key does not have 32 bytes.
    SessionKeyLength,
}

/// How the server's side of a handshake ended.
pub enum ServerOutcome {
    /// The echoed token was wrong: the connection is closed quietly.
    Rejected,
    /// The peer is authenticated: `session_key` is for this side's cipher,
    /// `key_message` is to be sent to the peer.
    Accepted { session_key: Vec<u8>, key_message: Vec<u8> },
}

/// What an RSA encryption gave, as plain bytes.
pub open spec fn rsa_result(r: Result<Vec<u8>, rsa::Error>) -> Option<Seq<u8>> {
    match r {
        Ok(b) => Some(b@),
        Err(_) => None,
    }
}

/// Whether the server accepts `echo` as the answer to `token`.
pub open spec fn echo_accepted(token: Seq<u8>, echo: Seq<u8>) -> bool {
    echo == token
}

/// The client's reply to the challenge, given what decrypting it gave.
pub open spec fn reply_spec(decrypted: Option<Seq<u8>>) -> Result<Seq<u8>, HandshakeError> {
    match decrypted {
        Some(t) => Ok(t),
        None => Err(HandshakeError::Crypto),
    }
}

/// The client's session key, given what decrypting the key message gave.
pub open spec fn client_key_spec(decrypted: Option<Seq<u8>>) -> Result<Seq<u8>, HandshakeError> {
    match decrypted {
        Some(k) => if k.len() == SESSION_KEY_LEN { Ok(k) } else { Err(HandshakeError::SessionKeyLength) },
        None => Err(HandshakeError::Crypto),
    }
}

/// The plain view of the client's session-key result.
pub open spec fn cipher_result_view(r: Result<SessionCipher, HandshakeError>) -> Result<Seq<u8>, HandshakeError> {
    match r {
        Ok(c) => Ok(c.key()),
        Err(e) => Err(e),
    }
}

/// The plain view of a reply result.
pub open spec fn bytes_result_view(r: Result<Vec<u8>, HandshakeError>) -> Result<Seq<u8>, HandshakeError> {
    match r {
        Ok(b) => Ok(b@),
        Err(e) => Err(e),
    }
}

/// The server's side of a handshake, waiting for the echoed token.
pub struct ServerHandshake {
    token: Vec<u8>,
}

impl ServerHandshake {
    /// The token that the peer must echo.
    pub closed spec fn token(&self) -> Seq<u8> {
        self.token@
    }

    pub open spec fn wf(&self) -> bool {
        self.token().len() == TOKEN_LEN
    }

    /// The state after sending the challenge, from the token and what
    /// encrypting it gave.
    pub fn from_challenge(token: Vec<u8>, sealed: Result<Vec<u8>, rsa::Error>) -> (r: Result<(ServerHandshake, Vec<u8>), HandshakeError>)
        ensures
            r is Ok <==> sealed is Ok,
            r is Err ==> r->Err_0 == HandshakeError::Crypto,
            r is Ok ==> r->Ok_0.0.token() == token@ && Some(r->Ok_0.1@) == rsa_result(sealed),
    {
        match sealed {
            Ok(challenge) => Ok((ServerHandshake { token }, challenge)),
            Err(_) => Err(HandshakeError::Crypto),
        }
    }

    /// Draws a fresh token and encrypts it for the peer: the state, and the
    /// challenge to send.
    pub fn start(peer: &rsa::RsaPublicKey) -> (r: Result<(ServerHandshake, Vec<u8>), HandshakeError>)
        ensures
            r is Err ==> r->Err_0 == HandshakeError::Crypto,
            r is Ok ==> r->Ok_0.0.wf(),
    {
        let token = random_bytes(TOKEN_LEN);
        let sealed = rsa_encrypt(peer, &token);
        ServerHandshake::from_challenge(token, sealed)
    }

    /// Whether `echo` is the token, compared in constant time.
    pub fn echo_matches(&self, echo: &Vec<u8>) -> (r: bool)
        ensures
            r == echo_accepted(self.token(), echo@),
    {
        ct_eq(&self.token, echo)
    }

    /// Accepts the peer with `session_key`, given what encrypting it gave.
    pub fn accept_with(session_key: Vec<u8>, sealed: Result<Vec<u8>, rsa::Error>) -> (r: Result<ServerOutcome, HandshakeError>)
        ensures
            r is Ok <==> sealed is Ok,
            r is Err ==> r->Err_0 == HandshakeError::Crypto,
            r is Ok ==> (r->Ok_0 matches ServerOutcome::Accepted { session_key: k, key_message: m }
                && k@ == session_key@ && Some(m@) == rsa_result(sealed)),
    {
        match sealed {
            Ok(key_message) => Ok(ServerOutcome::Accepted { session_key, key_message }),
            Err(_) => Err(HandshakeError::Crypto),
        }
    }

    /// Judges the echoed token. A wrong one rejects the peer; a right one
    /// draws a fresh session key and encrypts it for the peer.
    pub fn conclude(&self, peer: &rsa::RsaPublicKey, echo: &Vec<u8>) -> (r: Result<ServerOutcome, HandshakeError>)
        ensures
            !echo_accepted(self.token(), echo@) ==> r matches Ok(ServerOutcome::Rejected),
            echo_accepted(self.token(), echo@) ==> !(r matches Ok(ServerOutcome::Rejected)),
            r is Err ==> r->Err_0 == HandshakeError::Crypto,
            r matches Ok(ServerOutcome::Accepted { session_key: k, key_message: _ }) ==> k@.len() == SESSION_KEY_LEN,
    {
        if !self.echo_matches(echo) {
            return Ok(ServerOutcome::Rejected);
        }
        let session_key = random_bytes(SESSION_KEY_LEN);
        let sealed = rsa_encrypt(peer, &session_key);
        ServerHandshake::accept_with(session_key, sealed)
    }
}

/// Length of the challenge and of the key message that a client with the
/// PKCS#8 DER private key `own` reads: the modulus length in bytes, or
/// `None` where the key does not parse.
pub fn ciphertext_len(own: &Vec<u8>) -> (r: Option<usize>)
    ensures
        r == modulus_len_of(own@),
{
    rsa_key_size(own)
}

/// The plain view of a decryption result.
pub open spec fn decrypted_view(d: Option<Vec<u8>>) -> Option<Seq<u8>> {
    match d {
        Some(b) => Some(b@),
        None => None,
    }
}

/// The client's reply, given what decrypting the challenge gave: the
/// recovered token, verbatim.
pub fn reply_from(decrypted: Option<Vec<u8>>) -> (r: Result<Vec<u8>, HandshakeError>)
    ensures
        bytes_result_view(r) == reply_spec(decrypted_view(decrypted)),
{
    match decrypted {
        Some(token) => Ok(token),
        None => Err(HandshakeError::Crypto),
    }
}

/// Decrypts the challenge with the client's own PKCS#8 DER private key: the
/// bytes to send back.
pub fn client_reply(own: &Vec<u8>, challenge: &Vec<u8>) -> (r: Result<Vec<u8>, HandshakeError>)
    ensures
        bytes_result_view(r) == reply_spec(pkcs1v15_decrypt_of(own@, challenge@)),
{
    reply_from(rsa_decrypt(own, challenge))
}

/// The client's session cipher, given what decrypting the key message gave.
pub fn session_from(decrypted: Option<Vec<u8>>) -> (r: Result<SessionCipher, HandshakeError>)
    ensures
        cipher_result_view(r) == client_key_spec(decrypted_view(decrypted)),
        r is Ok ==> r->Ok_0.wf(),
{
    match decrypted {
        Some(key) => {
            if key.len() == AEAD_KEY_LEN {
                Ok(SessionCipher::new(key))
            } else {
                Err(HandshakeError::SessionKeyLength)
            }
        },
        None => Err(HandshakeError::Crypto),
    }
}

/// Decrypts the key message with the client's own PKCS#8 DER private key:
/// the session cipher.
pub fn client_session(own: &Vec<u8>, key_message: &Vec<u8>) -> (r: Result<SessionCipher, HandshakeError>)
    ensures
        cipher_result_view(r) == client_key_spec(pkcs1v15_decrypt_of(own@, key_message@)),
        r is Ok ==> r->Ok_0.wf(),
{
    session_from(rsa_decrypt(own, key_message))
}

/// The client passes the token check exactly when what it recovered from
/// the challenge is the server's token: a client whose key decrypts the
/// challenge to the token always passes, and any other recovery fails.
pub proof fn lemma_echo_decides(server: ServerHandshake, recovered: Option<Seq<u8>>)
    ensures
        (reply_spec(recovered) is Ok && echo_accepted(server.token(), reply_spec(recovered)->Ok_0))
            <==> recovered == Some(server.token()),
{
}

/// Both ends hold the same session key when the client's decryption of the
/// key message gives back the key that the server encrypted.
pub proof fn lemma_session_keys_agree(server_key: Seq<u8>, recovered: Option<Seq<u8>>)
    requires
        server_key.len() == SESSION_KEY_LEN,
        recovered == Some(server_key),
    ensures
        client_key_spec(recovered) == Ok::<Seq<u8>, HandshakeError>(server_key),
{
}

/// Where a handshake stands, for either role.
#[derive(Debug, Clone, Copy, PartialEq, Eq, Structural)]
pub enum HandshakePhase {
    /// Server: the challenge is out, the echoed token is awaited.
    AwaitEcho,
    /// Client: the challenge is awaited.
    AwaitChallenge,
    /// Client: the token is echoed, the key message is awaited.
    AwaitKeyMessage,
    /// Over: established, rejected or failed.
    Finished,
}

/// The key that a role works with: the server knows the peer's public key,
/// the client holds its own private key, as PKCS#8 DER bytes.
pub enum RoleKey {
    Server(rsa::RsaPublicKey),
    Client(Vec<u8>),
}

/// What the caller is to do next with the transport.
pub enum HandshakeAction {
    /// Write `send` (which may be empty), then read exactly `read` bytes and
    /// hand them to `step`.
    Exchange { send: Vec<u8>, read: usize },
    /// Write `send` (which may be empty): the channel is keyed with `cipher`.
    Established { send: Vec<u8>, cipher: SessionCipher },
    /// Close the connection quietly: the peer is rejected.
    Close,
    /// Tear the connection down: a cryptographic operation failed.
    Fail { error: HandshakeError },
}

/// One handshake, in the server's or the client's role.
pub struct Handshake {
    key: RoleKey,
    phase: HandshakePhase,
    challenge: ServerHandshake,
}

impl Handshake {
    pub closed spec fn phase(&self) -> HandshakePhase {
        self.phase
    }

    pub closed spec fn is_server(&self) -> bool {
        self.key is Server
    }

    /// A client's own private key; empty for a server.
    pub closed spec fn own_key(&self) -> Seq<u8> {
        match self.key {
            RoleKey::Client(k) => k@,
            RoleKey::Server(_) => Seq::empty(),
        }
    }

    /// The token that a server awaits.
    pub closed spec fn token(&self) -> Seq<u8> {
        self.challenge.token()
    }

    /// A server awaits the echo of a 128-byte token; only a client whose key
    /// parses awaits the challenge or the key message.
    pub open spec fn wf(&self) -> bool {
        &&& self.phase() == HandshakePhase::AwaitEcho ==> self.is_server() && self.token().len() == TOKEN_LEN
        &&& (self.phase() == HandshakePhase::AwaitChallenge || self.phase() == HandshakePhase::AwaitKeyMessage)
            ==> !self.is_server() && modulus_len_of(self.own_key()) is Some
    }

    /// Opens the server's side: the challenge goes out, and the 128-byte echo
    /// is to be read.
    pub fn server(peer: rsa::RsaPublicKey) -> (r: (Handshake, HandshakeAction))
        ensures
            r.0.wf(),
            r.0.is_server(),
            r.1 is Exchange ==> r.0.phase() == HandshakePhase::AwaitEcho && r.1->Exchange_read == TOKEN_LEN,
            r.1 is Exchange || r.1 == (HandshakeAction::Fail { error: HandshakeError::Crypto }),
            r.1 is Fail ==> r.0.phase() == HandshakePhase::Finished,
    {
        match ServerHandshake::start(&peer) {
            Ok((challenge, send)) => (
                Handshake { key: RoleKey::Server(peer), phase: HandshakePhase::AwaitEcho, challenge },
                HandshakeAction::Exchange { send, read: TOKEN_LEN },
            ),
            Err(error) => (
                Handshake {
                    key: RoleKey::Server(peer),
                    phase: HandshakePhase::Finished,
                    challenge: ServerHandshake { token: Vec::new() },
                },
                HandshakeAction::Fail { error },
            ),
        }
    }

    /// Opens the client's side with its PKCS#8 DER private key: nothing is
    /// sent, and the challenge, one modulus long, is to be read. A key that
    /// does not parse fails at once.
    pub fn client(own: Vec<u8>) -> (r: (Handshake, HandshakeAction))
        ensures
            r.0.wf(),
            !r.0.is_server(),
            r.0.own_key() == own@,
            r.1 is Exchange <==> modulus_len_of(own@) is Some,
            r.1 is Exchange ==> r.0.phase() == HandshakePhase::AwaitChallenge && r.1->Exchange_send@.len() == 0
                && Some(r.1->Exchange_read) == modulus_len_of(own@),
            !(r.1 is Exchange) ==> r.0.phase() == HandshakePhase::Finished
                && r.1 == (HandshakeAction::Fail { error: HandshakeError::Crypto }),
    {
        match ciphertext_len(&own) {
            Some(read) => (
                Handshake {
                    key: RoleKey::Client(own),
                    phase: HandshakePhase::AwaitChallenge,
                    challenge: ServerHandshake { token: Vec::new() },
                },
                HandshakeAction::Exchange { send: Vec::new(), read },
            ),
            None => (
                Handshake {
                    key: RoleKey::Client(own),
                    phase: HandshakePhase::Finished,
                    challenge: ServerHandshake { token: Vec::new() },
                },
                HandshakeAction::Fail { error: HandshakeError::Crypto },
            ),
        }
    }

    /// Takes in the bytes that the last `Exchange` asked for.
    pub fn step(&mut self, received: &Vec<u8>) -> (r: HandshakeAction)
        requires
            old(self).wf(),
        ensures
            final(self).wf(),
            final(self).is_server() == old(self).is_server(),
            final(self).own_key() == old(self).own_key(),
            old(self).phase() == HandshakePhase::AwaitChallenge && r is Exchange
                ==> final(self).phase() == HandshakePhase::AwaitKeyMessage,
            !(old(self).phase() == HandshakePhase::AwaitChallenge && r is Exchange)
                ==> final(self).phase() == HandshakePhase::Finished,
            old(self).phase() != HandshakePhase::AwaitChallenge ==> !(r is Exchange),
            old(self).phase() == HandshakePhase::AwaitEcho ==> ((r is Close) <==> !echo_accepted(old(self).token(), received@)),
            old(self).phase() == HandshakePhase::AwaitChallenge
                ==> (r is Exchange <==> pkcs1v15_decrypt_of(old(self).own_key(), received@) is Some),
            old(self).phase() == HandshakePhase::AwaitChallenge && r is Exchange
                ==> Some(r->Exchange_send@) == pkcs1v15_decrypt_of(old(self).own_key(), received@)
                && Some(r->Exchange_read) == modulus_len_of(old(self).own_key()),
            old(self).phase() == HandshakePhase::AwaitKeyMessage ==> !(r is Close),
            old(self).phase() == HandshakePhase::AwaitKeyMessage ==> (r is Established || r is Fail),
            old(self).phase() == HandshakePhase::AwaitKeyMessage && r is Established
                ==> Ok::<Seq<u8>, HandshakeError>(r->Established_cipher.key())
                == client_key_spec(pkcs1v15_decrypt_of(old(self).own_key(), received@)),
            old(self).phase() == HandshakePhase::AwaitKeyMessage && r is Fail
                ==> Err::<Seq<u8>, HandshakeError>(r->Fail_error)
                == client_key_spec(pkcs1v15_decrypt_of(old(self).own_key(), received@)),
            old(self).phase() == HandshakePhase::AwaitKeyMessage && r is Established ==> r->Established_send@.len() == 0,
            old(self).phase() == HandshakePhase::Finished ==> r is Close,
            r is Established ==> r->Established_cipher.wf() && r->Established_cipher.key().len() == SESSION_KEY_LEN,
            r is Fail ==> r->Fail_error == HandshakeError::Crypto || (old(self).phase() == HandshakePhase::AwaitKeyMessage
                && r->Fail_error == HandshakeError::SessionKeyLength),
    {
        let (action, phase) = match (self.phase, &self.key) {
            (HandshakePhase::AwaitEcho, RoleKey::Server(peer)) => {
                match self.challenge.conclude(peer, received) {
                    Ok(ServerOutcome::Rejected) => (HandshakeAction::Close, HandshakePhase::Finished),
                    Ok(ServerOutcome::Accepted { session_key, key_message }) => (
                        HandshakeAction::Established { send: key_message, cipher: SessionCipher::new(session_key) },
                        HandshakePhase::Finished,
                    ),
                    Err(error) => (HandshakeAction::Fail { error }, HandshakePhase::Finished),
                }
            },
            (HandshakePhase::AwaitChallenge, RoleKey::Client(own)) => {
                match (client_reply(own, received), ciphertext_len(own)) {
                    (Ok(token), Some(read)) => (
                        HandshakeAction::Exchange { send: token, read },
                        HandshakePhase::AwaitKeyMessage,
                    ),
                    (Err(error), _) => (HandshakeAction::Fail { error }, HandshakePhase::Finished),
                    (Ok(_), None) => (HandshakeAction::Fail { error: HandshakeError::Crypto }, HandshakePhase::Finished),
                }
            },
            (HandshakePhase::AwaitKeyMessage, RoleKey::Client(own)) => {
                match client_session(own, received) {
                    Ok(cipher) => (HandshakeAction::Established { send: Vec::new(), cipher }, HandshakePhase::Finished),
                    Err(error) => (HandshakeAction::Fail { error }, HandshakePhase::Finished),
                }
            },
            _ => (HandshakeAction::Close, HandshakePhase::Finished),
        };
        self.phase = phase;
        action
    }
}

} // verus!
