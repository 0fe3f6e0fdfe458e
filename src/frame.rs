//! The session cipher and the frame codec of the encrypted channel.
//!
//! A frame is `[flag][nonce][ciphertext]`: one continuation byte (0 for a
//! final frame, 1 when more frames of the same message follow), a 12-byte
//! nonce and the AES-256-GCM-SIV ciphertext with its tag. The flag byte is
//! the associated data of the seal, so it cannot be altered unnoticed.

use vstd::prelude::*;
use crate::bytes::{append_all, copy_range, ct_eq};
use crate::crypto::{
    aead_open, aead_seal, gcm_siv_open, gcm_siv_seal, random_bytes, AEAD_KEY_LEN, AEAD_MAX_LEN,
    NONCE_LEN, TAG_LEN,
};

verus! {

/// Length of the flag byte and the nonce that precede the ciphertext.
pub const FRAME_HEADER_LEN: usize = 13;

/// Why a frame could not be encoded or decoded.
#[derive(Debug, Clone, Copy, PartialEq, Eq, Structural)]
pub enum FrameError {
    /// The frame's length or flag breaks the wire layout, or a plaintext
    /// length is not a multiple of the tag granularity.
    Format,
    /// The authentication tag does not check: corruption or tampering.
    AuthTagInvalid,
    /// The cipher refused the operation.
    Crypto,
    /// The freshly drawn nonce was already used in this session.
    NonceCollision,
    /// The session was torn down by a frame whose tag did not check; its key
    /// is not used again.
    SessionClosed,
}

/// The wire byte of a continuation flag.
pub open spec fn flag_byte(more: bool) -> u8 {
    if more { 1u8 } else { 0u8 }
}

/// A ciphertext length that the codec accepts: a positive multiple of the tag length.
pub open spec fn valid_ciphertext_len(n: int) -> bool {
    n > 0 && n % (TAG_LEN as int) == 0
}

/// A plaintext length that the codec accepts.
pub open spec fn valid_plaintext_len(n: int) -> bool {
    n % (TAG_LEN as int) == 0 && n <= AEAD_MAX_LEN
}

/// The bytes of a frame.
pub open spec fn frame_bytes(flag: u8, nonce: Seq<u8>, ct: Seq<u8>) -> Seq<u8> {
    seq![flag] + nonce + ct
}

/// Whether `bytes` has the length layout of a frame.
pub open spec fn well_laid_out(bytes: Seq<u8>) -> bool {
    bytes.len() > FRAME_HEADER_LEN && valid_ciphertext_len(bytes.len() - FRAME_HEADER_LEN)
}

/// What decoding `bytes` under `key` yields: the continuation flag and the
/// plaintext, or the error.
pub open spec fn decode_spec(key: Seq<u8>, bytes: Seq<u8>) -> Result<(bool, Seq<u8>), FrameError> {
    if !well_laid_out(bytes) {
        Err(FrameError::Format)
    } else {
        match gcm_siv_open(
            key,
            bytes.subrange(1, FRAME_HEADER_LEN as int),
            seq![bytes[0]],
            bytes.subrange(FRAME_HEADER_LEN as int, bytes.len() as int),
        ) {
            None => Err(FrameError::AuthTagInvalid),
            Some(pt) => if bytes[0] == 0u8 {
                Ok((false, pt))
            } else if bytes[0] == 1u8 {
                Ok((true, pt))
            } else {
                Err(FrameError::Format)
            },
        }
    }
}

/// A frame changed in transit, its length kept, never decodes to a plaintext
/// that the AEAD did not authenticate for exactly the changed nonce, flag and
/// ciphertext; where the AEAD refuses those, decoding reports `AuthTagInvalid`.
pub proof fn lemma_tampered_frame(key: Seq<u8>, frame: Seq<u8>, tampered: Seq<u8>)
    requires
        well_laid_out(frame),
        tampered.len() == frame.len(),
    ensures
        decode_spec(key, tampered) is Ok ==> gcm_siv_open(
            key,
            tampered.subrange(1, FRAME_HEADER_LEN as int),
            seq![tampered[0]],
            tampered.subrange(FRAME_HEADER_LEN as int, tampered.len() as int),
        ) == Some(decode_spec(key, tampered)->Ok_0.1),
        gcm_siv_open(
            key,
            tampered.subrange(1, FRAME_HEADER_LEN as int),
            seq![tampered[0]],
            tampered.subrange(FRAME_HEADER_LEN as int, tampered.len() as int),
        ) is None ==> decode_spec(key, tampered) == Err::<(bool, Seq<u8>), FrameError>(FrameError::AuthTagInvalid),
{
}

/// The plain view of a decoding result.
pub open spec fn decoded_view(r: Result<(bool, Vec<u8>), FrameError>) -> Result<(bool, Seq<u8>), FrameError> {
    match r {
        Ok((more, pt)) => Ok((more, pt@)),
        Err(e) => Err(e),
    }
}

/// The three fields of a frame, not yet authenticated.
pub struct FrameParts {
    pub flag: u8,
    pub nonce: Vec<u8>,
    pub ciphertext: Vec<u8>,
}

/// Splits a frame into its fields, checking its length layout only.
pub fn split_frame(bytes: &Vec<u8>) -> (r: Result<FrameParts, FrameError>)
    ensures
        r is Ok <==> well_laid_out(bytes@),
        r is Err ==> r->Err_0 == FrameError::Format,
        r is Ok ==> r->Ok_0.flag == bytes@[0] && r->Ok_0.nonce@ == bytes@.subrange(1, FRAME_HEADER_LEN as int)
            && r->Ok_0.ciphertext@ == bytes@.subrange(FRAME_HEADER_LEN as int, bytes@.len() as int),
{
    if bytes.len() <= FRAME_HEADER_LEN || (bytes.len() - FRAME_HEADER_LEN) % TAG_LEN != 0 {
        return Err(FrameError::Format);
    }
    let nonce = copy_range(bytes, 1, FRAME_HEADER_LEN);
    let ciphertext = copy_range(bytes, FRAME_HEADER_LEN, bytes.len());
    Ok(FrameParts { flag: bytes[0], nonce, ciphertext })
}

/// Lays the fields of a frame out as bytes.
pub fn join_frame(flag: u8, nonce: &Vec<u8>, ciphertext: &Vec<u8>) -> (r: Vec<u8>)
    ensures
        r@ == frame_bytes(flag, nonce@, ciphertext@),
{
    let mut out: Vec<u8> = Vec::new();
    out.push(flag);
    append_all(&mut out, nonce);
    append_all(&mut out, ciphertext);
    assert(out@ =~= frame_bytes(flag, nonce@, ciphertext@));
    out
}

/// A session's AES-256-GCM-SIV key. It makes no nonces: their freshness is
/// the codec's duty.
pub struct SessionCipher {
    key: Vec<u8>,
}

impl SessionCipher {
    /// The key bytes.
    pub closed spec fn key(&self) -> Seq<u8> {
        self.key@
    }

    pub closed spec fn wf(&self) -> bool {
        self.key@.len() == AEAD_KEY_LEN
    }

    /// Takes a 32-byte key.
    pub fn new(key: Vec<u8>) -> (r: SessionCipher)
        requires
            key@.len() == AEAD_KEY_LEN,
        ensures
            r.wf(),
            r.key() == key@,
    {
        SessionCipher { key }
    }

    /// The key's length in bytes.
    pub fn key_len(&self) -> (r: usize)
        ensures
            r == self.key().len(),
    {
        self.key.len()
    }

    /// Encrypts and authenticates `plaintext` together with `aad`.
    pub fn seal(&self, nonce: &Vec<u8>, aad: &Vec<u8>, plaintext: &Vec<u8>) -> (r: Result<Vec<u8>, FrameError>)
        requires
            self.wf(),
            nonce@.len() == NONCE_LEN,
        ensures
            r is Ok <==> plaintext@.len() <= AEAD_MAX_LEN && aad@.len() <= AEAD_MAX_LEN,
            r is Err ==> r->Err_0 == FrameError::Crypto,
            r is Ok ==> r->Ok_0@ == gcm_siv_seal(self.key(), nonce@, aad@, plaintext@),
            r is Ok ==> r->Ok_0@.len() == plaintext@.len() + TAG_LEN,
            r is Ok ==> gcm_siv_open(self.key(), nonce@, aad@, r->Ok_0@) == Some(plaintext@),
    {
        if plaintext.len() as u64 > AEAD_MAX_LEN || aad.len() as u64 > AEAD_MAX_LEN {
            return Err(FrameError::Crypto);
        }
        match aead_seal(&self.key, nonce, aad, plaintext) {
            Ok(ct) => Ok(ct),
            Err(_) => Err(FrameError::Crypto),
        }
    }

    /// Checks and decrypts `ciphertext`.
    pub fn open(&self, nonce: &Vec<u8>, aad: &Vec<u8>, ciphertext: &Vec<u8>) -> (r: Result<Vec<u8>, FrameError>)
        requires
            self.wf(),
            nonce@.len() == NONCE_LEN,
        ensures
            r is Ok <==> gcm_siv_open(self.key(), nonce@, aad@, ciphertext@) is Some,
            r is Ok ==> Some(r->Ok_0@) == gcm_siv_open(self.key(), nonce@, aad@, ciphertext@),
            r is Err ==> r->Err_0 == FrameError::AuthTagInvalid,
    {
        match aead_open(&self.key, nonce, aad, ciphertext) {
            Ok(pt) => Ok(pt),
            Err(_) => Err(FrameError::AuthTagInvalid),
        }
    }
}

/// The bytes of `pieces`, one after the other.
pub open spec fn concat(pieces: Seq<Seq<u8>>) -> Seq<u8>
    decreases pieces.len(),
{
    if pieces.len() == 0 {
        Seq::empty()
    } else {
        concat(pieces.drop_last()) + pieces.last()
    }
}

/// The plaintexts that `frames` decode to under `key`, in order.
pub open spec fn decoded_plaintexts(key: Seq<u8>, frames: Seq<Vec<u8>>) -> Seq<Seq<u8>> {
    Seq::new(frames.len(), |i: int| decode_spec(key, frames[i]@)->Ok_0.1)
}

/// `frames` carry one message under `key`: each decodes, each but the last
/// is flagged `more` and holds `chunk_len` bytes, and the last holds at most that.
pub open spec fn frames_of_message(key: Seq<u8>, frames: Seq<Vec<u8>>, chunk_len: int) -> bool {
    &&& frames.len() >= 1
    &&& forall|i: int| 0 <= i < frames.len() ==> (#[trigger] decode_spec(key, frames[i]@)) is Ok
    &&& forall|i: int| 0 <= i < frames.len() ==> (#[trigger] decode_spec(key, frames[i]@))->Ok_0.0 == (i + 1 < frames.len())
    &&& forall|i: int| 0 <= i < frames.len() ==> (#[trigger] decoded_plaintexts(key, frames)[i]).len() <= chunk_len
    &&& forall|i: int| 0 <= i < frames.len() - 1 ==> (#[trigger] decoded_plaintexts(key, frames)[i]).len() == chunk_len
}

/// One direction-agnostic encrypted channel: the session cipher and every
/// nonce that this side has sealed a frame with.
pub struct Session {
    cipher: SessionCipher,
    nonces: Vec<Vec<u8>>,
    torn_down: bool,
}

impl Session {
    /// The session key.
    pub closed spec fn key(&self) -> Seq<u8> {
        self.cipher.key()
    }

    /// The nonces of the frames encoded so far, oldest first.
    pub closed spec fn used_nonces(&self) -> Seq<Seq<u8>> {
        Seq::new(self.nonces@.len(), |i: int| self.nonces@[i]@)
    }

    /// Whether a frame whose tag did not check has ended the session.
    pub closed spec fn is_torn_down(&self) -> bool {
        self.torn_down
    }

    /// The key is 32 bytes long, and no nonce has been used twice.
    pub open spec fn wf(&self) -> bool {
        &&& self.key().len() == AEAD_KEY_LEN
        &&& self.used_nonces().no_duplicates()
        &&& forall|i: int| 0 <= i < self.used_nonces().len() ==> (#[trigger] self.used_nonces()[i]).len() == NONCE_LEN
    }

    /// A session over a 32-byte key, with no frame sent yet.
    pub fn new(key: Vec<u8>) -> (r: Session)
        requires
            key@.len() == AEAD_KEY_LEN,
        ensures
            r.wf(),
            r.key() == key@,
            r.used_nonces() == Seq::<Seq<u8>>::empty(),
            !r.is_torn_down(),
    {
        let r = Session { cipher: SessionCipher::new(key), nonces: Vec::new(), torn_down: false };
        assert(r.used_nonces() =~= Seq::<Seq<u8>>::empty());
        r
    }

    /// A session over the key that a handshake produced.
    pub fn from_cipher(cipher: SessionCipher) -> (r: Session)
        requires
            cipher.wf(),
        ensures
            r.wf(),
            r.key() == cipher.key(),
            r.used_nonces() == Seq::<Seq<u8>>::empty(),
            !r.is_torn_down(),
    {
        let r = Session { cipher, nonces: Vec::new(), torn_down: false };
        assert(r.used_nonces() =~= Seq::<Seq<u8>>::empty());
        r
    }

    /// Whether `nonce` was used by an earlier frame of this session.
    pub fn nonce_used(&self, nonce: &Vec<u8>) -> (r: bool)
        ensures
            r == self.used_nonces().contains(nonce@),
    {
        let mut i: usize = 0;
        while i < self.nonces.len()
            invariant
                i <= self.nonces@.len(),
                forall|j: int| 0 <= j < i ==> self.used_nonces()[j] != nonce@,
            decreases self.nonces@.len() - i,
        {
            if ct_eq(&self.nonces[i], nonce) {
                assert(self.used_nonces()[i as int] == nonce@);
                return true;
            }
            i = i + 1;
        }
        proof {
            if self.used_nonces().contains(nonce@) {
                let j = choose|j: int| 0 <= j < self.used_nonces().len() && self.used_nonces()[j] == nonce@;
                assert(self.used_nonces()[j] != nonce@);
            }
        }
        false
    }

    /// Seals one frame under `nonce`, which joins the session's history. A
    /// nonce already used by this session is refused.
    pub fn encode_frame_with_nonce(&mut self, more: bool, plaintext: &Vec<u8>, nonce: &Vec<u8>) -> (r: Result<Vec<u8>, FrameError>)
        requires
            old(self).wf(),
            nonce@.len() == NONCE_LEN,
        ensures
            final(self).wf(),
            final(self).key() == old(self).key(),
            final(self).is_torn_down() == old(self).is_torn_down(),
            old(self).is_torn_down() ==> r == Err::<Vec<u8>, FrameError>(FrameError::SessionClosed),
            !old(self).is_torn_down() && !valid_plaintext_len(plaintext@.len() as int)
                ==> r == Err::<Vec<u8>, FrameError>(FrameError::Format),
            !old(self).is_torn_down() && valid_plaintext_len(plaintext@.len() as int)
                ==> (r == Err::<Vec<u8>, FrameError>(FrameError::NonceCollision) <==> old(self).used_nonces().contains(nonce@)),
            !old(self).is_torn_down() && valid_plaintext_len(plaintext@.len() as int)
                ==> (r is Ok <==> !old(self).used_nonces().contains(nonce@)),
            r is Err ==> final(self).used_nonces() == old(self).used_nonces(),
            r is Ok ==> r->Ok_0@ == frame_bytes(flag_byte(more), nonce@, gcm_siv_seal(old(self).key(), nonce@, seq![flag_byte(more)], plaintext@)),
            r is Ok ==> r->Ok_0@.len() == FRAME_HEADER_LEN + plaintext@.len() + TAG_LEN,
            r is Ok ==> r->Ok_0@.subrange(1, FRAME_HEADER_LEN as int) == nonce@,
            r is Ok ==> final(self).used_nonces() == old(self).used_nonces().push(nonce@),
            r is Ok ==> decode_spec(old(self).key(), r->Ok_0@) == Ok::<(bool, Seq<u8>), FrameError>((more, plaintext@)),
    {
        if self.torn_down {
            return Err(FrameError::SessionClosed);
        }
        if plaintext.len() % TAG_LEN != 0 || plaintext.len() as u64 > AEAD_MAX_LEN {
            return Err(FrameError::Format);
        }
        if self.nonce_used(nonce) {
            return Err(FrameError::NonceCollision);
        }
        let flag: u8 = if more { 1 } else { 0 };
        let aad: Vec<u8> = vec![flag];
        assert(aad@ =~= seq![flag_byte(more)]);
        let ct = match self.cipher.seal(nonce, &aad, plaintext) {
            Ok(ct) => ct,
            Err(e) => { return Err(e); },
        };
        let bytes = join_frame(flag, nonce, &ct);
        proof {
            let b = bytes@;
            assert(b.subrange(1, FRAME_HEADER_LEN as int) =~= nonce@);
            assert(b.subrange(FRAME_HEADER_LEN as int, b.len() as int) =~= ct@);
            assert(seq![b[0]] =~= seq![flag_byte(more)]);
        }
        let ghost old_nonces = self.used_nonces();
        self.nonces.push(nonce.clone());
        proof {
            assert(self.used_nonces() =~= old_nonces.push(nonce@));
            assert forall|i: int, j: int| 0 <= i < j < self.used_nonces().len() implies
                self.used_nonces()[i] != self.used_nonces()[j] by {
                if j == old_nonces.len() {
                    assert(old_nonces[i] == self.used_nonces()[i]);
                    assert(old_nonces.contains(old_nonces[i]));
                } else {
                    assert(old_nonces[i] == self.used_nonces()[i]);
                    assert(old_nonces[j] == self.used_nonces()[j]);
                }
            }
        }
        Ok(bytes)
    }

    /// Seals one frame under a fresh random nonce, which joins the session's
    /// history. The plaintext length must be a multiple of 16 bytes; a longer
    /// message is split over frames flagged `more`.
    pub fn encode_frame(&mut self, more: bool, plaintext: &Vec<u8>) -> (r: Result<Vec<u8>, FrameError>)
        requires
            old(self).wf(),
        ensures
            final(self).wf(),
            final(self).key() == old(self).key(),
            final(self).is_torn_down() == old(self).is_torn_down(),
            old(self).is_torn_down() ==> r == Err::<Vec<u8>, FrameError>(FrameError::SessionClosed),
            !old(self).is_torn_down() && r is Err ==> r->Err_0 == FrameError::Format || r->Err_0 == FrameError::NonceCollision,
            r is Err ==> final(self).used_nonces() == old(self).used_nonces(),
            !old(self).is_torn_down() && valid_plaintext_len(plaintext@.len() as int) ==> r is Ok || r->Err_0 == FrameError::NonceCollision,
            !old(self).is_torn_down() && valid_plaintext_len(plaintext@.len() as int) && old(self).used_nonces().len() == 0
                ==> r is Ok,
            !old(self).is_torn_down() && !valid_plaintext_len(plaintext@.len() as int)
                ==> r == Err::<Vec<u8>, FrameError>(FrameError::Format),
            r is Ok ==> r->Ok_0@.len() == FRAME_HEADER_LEN + plaintext@.len() + TAG_LEN,
            r is Ok ==> ({
                let b = r->Ok_0@;
                let nonce = b.subrange(1, FRAME_HEADER_LEN as int);
                &&& nonce.len() == NONCE_LEN
                &&& !old(self).used_nonces().contains(nonce)
                &&& final(self).used_nonces() == old(self).used_nonces().push(nonce)
                &&& b == frame_bytes(flag_byte(more), nonce, gcm_siv_seal(old(self).key(), nonce, seq![flag_byte(more)], plaintext@))
                &&& decode_spec(old(self).key(), b) == Ok::<(bool, Seq<u8>), FrameError>((more, plaintext@))
            }),
    {
        let nonce = random_bytes(NONCE_LEN);
        self.encode_frame_with_nonce(more, plaintext, &nonce)
    }

    /// Checks and decrypts one frame: its continuation flag and plaintext.
    /// A length that breaks the layout is refused before any decryption. A
    /// frame whose tag does not check tears the session down for good.
    pub fn decode_frame(&mut self, bytes: &Vec<u8>) -> (r: Result<(bool, Vec<u8>), FrameError>)
        requires
            old(self).wf(),
        ensures
            final(self).wf(),
            final(self).key() == old(self).key(),
            final(self).used_nonces() == old(self).used_nonces(),
            old(self).is_torn_down() ==> r == Err::<(bool, Vec<u8>), FrameError>(FrameError::SessionClosed)
                && final(self).is_torn_down(),
            !old(self).is_torn_down() ==> decoded_view(r) == decode_spec(old(self).key(), bytes@),
            !old(self).is_torn_down() ==> (final(self).is_torn_down()
                <==> r == Err::<(bool, Vec<u8>), FrameError>(FrameError::AuthTagInvalid)),
    {
        if self.torn_down {
            return Err(FrameError::SessionClosed);
        }
        let parts = match split_frame(bytes) {
            Ok(p) => p,
            Err(e) => { return Err(e); },
        };
        let aad: Vec<u8> = vec![parts.flag];
        assert(aad@ =~= seq![bytes@[0]]);
        let pt = match self.cipher.open(&parts.nonce, &aad, &parts.ciphertext) {
            Ok(pt) => pt,
            Err(e) => {
                self.torn_down = true;
                return Err(e);
            },
        };
        if parts.flag == 0 {
            Ok((false, pt))
        } else if parts.flag == 1 {
            Ok((true, pt))
        } else {
            Err(FrameError::Format)
        }
    }
}

impl Session {
    /// Splits `message` over frames of `chunk_len` plaintext bytes, the last
    /// one shorter where needed and flagged final, the others flagged `more`.
    /// An empty message is one empty final frame.
    pub fn encode_message(&mut self, message: &Vec<u8>, chunk_len: usize) -> (r: Result<Vec<Vec<u8>>, FrameError>)
        requires
            old(self).wf(),
            chunk_len > 0,
            valid_plaintext_len(chunk_len as int),
        ensures
            final(self).wf(),
            final(self).key() == old(self).key(),
            final(self).is_torn_down() == old(self).is_torn_down(),
            old(self).is_torn_down() ==> r == Err::<Vec<Vec<u8>>, FrameError>(FrameError::SessionClosed),
            !old(self).is_torn_down() && r is Err ==> (r->Err_0 == FrameError::Format <==> !valid_plaintext_len(message@.len() as int)),
            !old(self).is_torn_down() && r is Err ==> r->Err_0 == FrameError::Format || r->Err_0 == FrameError::NonceCollision,
            !old(self).is_torn_down() && valid_plaintext_len(message@.len() as int) ==> r is Ok || r->Err_0 == FrameError::NonceCollision,
            !old(self).is_torn_down() && !valid_plaintext_len(message@.len() as int)
                ==> r == Err::<Vec<Vec<u8>>, FrameError>(FrameError::Format),
            !old(self).is_torn_down() && valid_plaintext_len(message@.len() as int) && message@.len() <= chunk_len
                && old(self).used_nonces().len() == 0 ==> r is Ok,
            r is Ok ==> frames_of_message(old(self).key(), r->Ok_0@, chunk_len as int),
            r is Ok ==> concat(decoded_plaintexts(old(self).key(), r->Ok_0@)) == message@,
    {
        if self.torn_down {
            return Err(FrameError::SessionClosed);
        }
        if message.len() % TAG_LEN != 0 || message.len() as u64 > AEAD_MAX_LEN {
            return Err(FrameError::Format);
        }
        let ghost key = self.key();
        let mut frames: Vec<Vec<u8>> = Vec::new();
        let mut pos: usize = 0;
        loop
            invariant
                self.wf(),
                self.key() == key,
                key == old(self).key(),
                !self.is_torn_down(),
                !old(self).is_torn_down(),
                pos <= message@.len(),
                pos % TAG_LEN == 0,
                message@.len() % (TAG_LEN as nat) == 0,
                message@.len() <= AEAD_MAX_LEN,
                chunk_len > 0,
                valid_plaintext_len(chunk_len as int),
                frames@.len() == 0 ==> pos == 0,
                frames@.len() == 0 ==> self.used_nonces() == old(self).used_nonces(),
                forall|i: int| 0 <= i < frames@.len() ==> (#[trigger] decode_spec(key, frames@[i]@)) is Ok,
                forall|i: int| 0 <= i < frames@.len() ==> (#[trigger] decode_spec(key, frames@[i]@))->Ok_0.0 == true,
                forall|i: int| 0 <= i < frames@.len() ==> (#[trigger] decoded_plaintexts(key, frames@)[i]).len() == chunk_len,
                concat(decoded_plaintexts(key, frames@)) == message@.subrange(0, pos as int),
                frames@.len() > 0 ==> pos < message@.len(),
            decreases message@.len() - pos,
        {
            let end: usize = if message.len() - pos > chunk_len { pos + chunk_len } else { message.len() };
            let more = end < message.len();
            let piece = copy_range(message, pos, end);
            assert(piece@.len() % (TAG_LEN as nat) == 0) by {
                assert(end == pos + chunk_len || end == message@.len());
            }
            let frame = match self.encode_frame(more, &piece) {
                Ok(f) => f,
                Err(e) => { return Err(e); },
            };
            let ghost prev = frames@;
            frames.push(frame);
            proof {
                let ps = decoded_plaintexts(key, frames@);
                assert(ps.drop_last() =~= decoded_plaintexts(key, prev));
                assert(ps.last() == piece@);
                assert(message@.subrange(0, end as int) =~= message@.subrange(0, pos as int) + piece@);
                assert forall|i: int| 0 <= i < prev.len() implies #[trigger] decode_spec(key, frames@[i]@) == decode_spec(key, prev[i]@) by {
                    assert(frames@[i] == prev[i]);
                }
            }
            if !more {
                proof {
                    assert(message@.subrange(0, end as int) =~= message@);
                    let ps = decoded_plaintexts(key, frames@);
                    assert forall|i: int| 0 <= i < frames@.len() implies (#[trigger] decoded_plaintexts(key, frames@)[i]).len() <= chunk_len by {
                        if i < prev.len() {
                            assert(frames@[i] == prev[i]);
                            assert(decoded_plaintexts(key, prev)[i] == ps[i]);
                        }
                    }
                    assert forall|i: int| 0 <= i < frames@.len() - 1 implies (#[trigger] decoded_plaintexts(key, frames@)[i]).len() == chunk_len by {
                        assert(frames@[i] == prev[i]);
                        assert(decoded_plaintexts(key, prev)[i] == ps[i]);
                    }
                }
                return Ok(frames);
            }
            proof {
                let ps = decoded_plaintexts(key, frames@);
                assert forall|i: int| 0 <= i < frames@.len() implies (#[trigger] decoded_plaintexts(key, frames@)[i]).len() == chunk_len by {
                    if i < prev.len() {
                        assert(frames@[i] == prev[i]);
                        assert(decoded_plaintexts(key, prev)[i] == ps[i]);
                    }
                }
            }
            pos = end;
        }
    }
}

} // verus!
