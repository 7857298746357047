//! The framing and encryption of IP Control messages.
//!
//! A message is ended by the terminator `\r`, padded to whole 16-byte blocks,
//! and encrypted with AES-128 in CBC mode under a fresh random IV; the IV
//! itself travels in front, encrypted with AES-128 in ECB mode. The key is
//! derived from the TV's key code with PBKDF2-HMAC-SHA256.
use vstd::prelude::*;
use vstd::string::to_string_from_display_ensures;
use vstd::utf8::encode_utf8;

use crate::constants::default_settings::{key_salt, DefaultSettings};
use crate::text::{chars_of, push_char, read_utf8_lossy, string_from_chars, utf8_lossy};
use openssl::error::ErrorStack;

verus! {

#[verifier::external_type_specification]
#[verifier::external_body]
pub struct ExErrorStack(ErrorStack);

#[verifier::external_type_specification]
#[verifier::external_body]
pub struct ExRandError(rand::Error);

/// The largest input handed to the cipher: OpenSSL takes lengths as `c_int`,
/// and the output buffer is one cipher block larger than the input.
pub const MAX_CIPHER_INPUT: usize = 0x7fff_ff00;

/// The largest message that `Encryption::encrypt` takes, in UTF-8 bytes.
pub const MAX_MESSAGE_LEN: usize = 0x7fff_0000;

/// The block chaining mode of AES.
#[derive(Debug, Clone, Copy, PartialEq, Eq, Structural)]
pub enum BlockMode {
    Ecb,
    Cbc,
}

/// Whether the cipher encrypts or decrypts.
#[derive(Debug, Clone, Copy, PartialEq, Eq, Structural)]
pub enum Direction {
    Encrypt,
    Decrypt,
}

/// What AES-128 in `mode`, without padding, makes of `data` under `key`
/// (and `iv`, in CBC mode), as OpenSSL computes it.
pub uninterp spec fn aes_128_unpadded(
    mode: BlockMode,
    direction: Direction,
    key: Seq<u8>,
    iv: Option<Seq<u8>>,
    data: Seq<u8>,
) -> Seq<u8>;

/// The key that PBKDF2-HMAC-SHA256 derives, `len` bytes long.
pub uninterp spec fn pbkdf2_hmac_sha256(
    pass: Seq<u8>,
    salt: Seq<u8>,
    iterations: nat,
    len: nat,
) -> Seq<u8>;

/// The bytes of an optional IV.
pub open spec fn iv_view(iv: Option<&[u8]>) -> Option<Seq<u8>> {
    match iv {
        Some(v) => Some(v@),
        None => None,
    }
}

/// One run of `openssl::symm::Crypter` over `data`, with padding turned off:
/// `Crypter::new` for AES-128 in `mode`, `pad(false)`, one `update` into a
/// buffer one cipher block longer than `data`, then `finalize`; the result
/// is what those two calls wrote. What comes out is a function of the
/// arguments alone, named `aes_128_unpadded`. When OpenSSL refuses the key,
/// the IV or the input (with padding off, one that is not whole blocks), the
/// error comes back; on which inputs that happens is left unsaid. The key is
/// the 16 bytes of AES-128 and a CBC IV one block of 16 bytes, so that the
/// lengths handed to OpenSSL fit its `c_int` and no IV length is changed.
#[verifier::external_body]
fn aes_128_crypt(
    mode: BlockMode,
    direction: Direction,
    key: &[u8],
    iv: Option<&[u8]>,
    data: &[u8],
) -> (r: Result<Vec<u8>, ErrorStack>)
    requires
        key.len() == 16,
        mode == BlockMode::Cbc ==> (iv is Some && iv->0.len() == 16),
        data.len() <= MAX_CIPHER_INPUT,
    ensures
        r matches Ok(out) ==> out@ == aes_128_unpadded(mode, direction, key@, iv_view(iv), data@),
{
    let cipher = match mode {
        BlockMode::Ecb => openssl::symm::Cipher::aes_128_ecb(),
        BlockMode::Cbc => openssl::symm::Cipher::aes_128_cbc(),
    };
    let symm_mode = match direction {
        Direction::Encrypt => openssl::symm::Mode::Encrypt,
        Direction::Decrypt => openssl::symm::Mode::Decrypt,
    };
    let mut crypter = openssl::symm::Crypter::new(cipher, symm_mode, key, iv)?;
    crypter.pad(false);
    let mut output = vec![0u8; data.len() + cipher.block_size()];
    let count = crypter.update(data, &mut output)?;
    let rest = crypter.finalize(&mut output[count..])?;
    output.truncate(count + rest);
    Ok(output)
}

/// `openssl::pkcs5::pbkdf2_hmac` with SHA-256, filling `key`. The key it
/// writes is a function of the password, the salt, the number of iterations
/// and the key's length, named `pbkdf2_hmac_sha256`. OpenSSL's failure is
/// passed on; when it happens is left unsaid.
#[verifier::external_body]
fn pbkdf2_sha256(pass: &[u8], salt: &[u8], iterations: usize, key: &mut Vec<u8>) -> (r: Result<
    (),
    ErrorStack,
>)
    requires
        pass.len() <= i32::MAX,
        salt.len() <= i32::MAX,
        iterations <= i32::MAX,
        old(key).len() <= i32::MAX,
    ensures
        final(key).len() == old(key).len(),
        r is Ok ==> final(key)@ == pbkdf2_hmac_sha256(
            pass@,
            salt@,
            iterations as nat,
            old(key).len() as nat,
        ),
{
    openssl::pkcs5::pbkdf2_hmac(
        pass,
        salt,
        iterations,
        openssl::hash::MessageDigest::sha256(),
        key.as_mut_slice(),
    )
}

/// Fills `buf` with bytes from the operating system's random source, through
/// `rand::rngs::OsRng` and `RngCore::try_fill_bytes`, which reports a failure
/// of the source as an error. Nothing is said of the bytes: they are random;
/// nor of when the source fails.
#[verifier::external_body]
fn fill_random(buf: &mut Vec<u8>) -> (r: Result<(), rand::Error>)
    ensures
        final(buf).len() == old(buf).len(),
{
    rand::RngCore::try_fill_bytes(&mut rand::rngs::OsRng, buf.as_mut_slice())
}

/// Why a message could not be encrypted.
#[derive(Debug)]
pub enum EncryptionError {
    /// The message holds the terminator character.
    TerminatorInMessage,
    /// OpenSSL failed.
    Crypto(ErrorStack),
    /// The operating system's random source failed.
    RandomSource(rand::Error),
    /// The IV decrypted from a reply is not one block long.
    MalformedIv,
}

impl EncryptionError {
    /// A description of the error.
    pub fn message(&self) -> (s: String)
        ensures
            self is TerminatorInMessage ==> s@ == terminator_message(),
            self is MalformedIv ==> s@ == malformed_iv_message(),
            self matches EncryptionError::Crypto(e) ==> to_string_from_display_ensures(e, s),
            self matches EncryptionError::RandomSource(e) ==> to_string_from_display_ensures(e, s),
    {
        match self {
            EncryptionError::TerminatorInMessage => String::from_str(
                "message must not include the message terminator character",
            ),
            EncryptionError::Crypto(e) => e.to_string(),
            EncryptionError::RandomSource(e) => e.to_string(),
            EncryptionError::MalformedIv => String::from_str("decrypted IV is not 16 bytes long"),
        }
    }
}

/// The error message for an IV that is not one block long.
pub open spec fn malformed_iv_message() -> Seq<char> {
    "decrypted IV is not 16 bytes long"@
}

/// `m` is the text that an OpenSSL error or a failure of the random source
/// shows.
pub open spec fn is_outside_error_text(m: String) -> bool {
    ||| exists|e: ErrorStack| to_string_from_display_ensures::<ErrorStack>(&e, m)
    ||| exists|e: rand::Error| to_string_from_display_ensures::<rand::Error>(&e, m)
}

/// The error message for a message that holds the terminator.
pub open spec fn terminator_message() -> Seq<char> {
    "message must not include the message terminator character"@
}

/// The message block: 16 bytes.
pub open spec fn block_size() -> nat {
    16
}

/// `m` padded to whole blocks. A message that already fills whole blocks
/// first gets a space; then `k` bytes of value `k` fill the last block.
pub open spec fn pad_bytes(m: Seq<u8>) -> Seq<u8> {
    let m1 = if m.len() % 16 == 0 { m.push(0x20u8) } else { m };
    let rem = m1.len() % 16;
    if rem != 0 {
        let k = (16 - rem) as nat;
        m1 + Seq::new(k, |i: int| k as u8)
    } else {
        m1
    }
}

/// The plaintext that carries `message`: its UTF-8 bytes, the terminator
/// `\r`, and the padding.
pub open spec fn plaintext_of(message: Seq<char>) -> Seq<u8> {
    pad_bytes(encode_utf8(message.push('\r')))
}

/// A character that `strip_end` removes from the end of a reply: `\r`, `\n`,
/// or one whose code, cut to its low byte, is at most 16.
pub open spec fn is_trailing_filler(c: char) -> bool {
    c == '\r' || c == '\n' || (c as u32) % 256 <= 16
}

/// `s` without its trailing filler characters.
pub open spec fn strip_end_spec(s: Seq<char>) -> Seq<char>
    decreases s.len(),
{
    if s.len() > 0 && is_trailing_filler(s.last()) {
        strip_end_spec(s.drop_last())
    } else {
        s
    }
}

/// Encrypts commands for the TV and decrypts its replies, under the key
/// derived from the TV's key code.
pub struct Encryption {
    key_code: String,
    settings: DefaultSettings,
}

impl Encryption {
    #[verifier::type_invariant]
    spec fn wf(self) -> bool {
        &&& self.settings.is_default()
        &&& encode_utf8(self.key_code@).len() <= i32::MAX
    }

    /// The key code the encryption key is derived from.
    pub closed spec fn key_code(self) -> Seq<char> {
        self.key_code@
    }

    /// The AES key: PBKDF2-HMAC-SHA256 of the key code's UTF-8 bytes with
    /// the protocol's salt, 2^14 iterations, 16 bytes.
    pub open spec fn key(self) -> Seq<u8> {
        pbkdf2_hmac_sha256(encode_utf8(self.key_code()), key_salt(), 16384, 16)
    }

    /// The encryption of `plaintext` under `iv`: the IV encrypted with
    /// AES-128-ECB, followed by the plaintext encrypted with AES-128-CBC.
    pub open spec fn ciphertext(self, iv: Seq<u8>, plaintext: Seq<u8>) -> Seq<u8> {
        aes_128_unpadded(BlockMode::Ecb, Direction::Encrypt, self.key(), None, iv)
            + aes_128_unpadded(BlockMode::Cbc, Direction::Encrypt, self.key(), Some(iv), plaintext)
    }

    /// The text that `decrypt` reads from `cipher_text`: the first block
    /// decrypted with AES-128-ECB gives the IV, the rest decrypted with
    /// AES-128-CBC under it gives the bytes, read as UTF-8 with invalid
    /// sequences replaced, and stripped of trailing filler.
    pub open spec fn plaintext_text(self, cipher_text: Seq<u8>) -> Seq<char> {
        let iv = self.decrypted_iv(cipher_text);
        let data = aes_128_unpadded(
            BlockMode::Cbc,
            Direction::Decrypt,
            self.key(),
            Some(iv),
            cipher_text.skip(16),
        );
        strip_end_spec(read_utf8_lossy(data))
    }

    /// The IV that `decrypt` reads from the first block of `cipher_text`.
    pub open spec fn decrypted_iv(self, cipher_text: Seq<u8>) -> Seq<u8> {
        aes_128_unpadded(BlockMode::Ecb, Direction::Decrypt, self.key(), None, cipher_text.take(16))
    }

    /// Makes the encryption for a key code.
    pub fn new(key_code: String) -> (e: Encryption)
        requires
            encode_utf8(key_code@).len() <= i32::MAX,
        ensures
            e.key_code() == key_code@,
    {
        let settings = DefaultSettings::default();
        Encryption { key_code, settings }
    }

    /// Encrypts a command under a fresh random IV. A command that holds the
    /// terminator `\r` is refused, unless the random source has already
    /// failed; a failure of OpenSSL or of the random source is passed on.
    pub fn encrypt(&self, message: &str) -> (r: Result<Vec<u8>, EncryptionError>)
        requires
            encode_utf8(message@).len() <= MAX_MESSAGE_LEN,
        ensures
            message@.contains('\r') ==> (r matches Err(EncryptionError::TerminatorInMessage)
                || r matches Err(EncryptionError::RandomSource(_))),
            r matches Err(EncryptionError::TerminatorInMessage) ==> message@.contains('\r'),
            r matches Err(e) ==> (e is TerminatorInMessage || e is Crypto || e is RandomSource),
            r matches Ok(v) ==> exists|iv: Seq<u8>|
                iv.len() == 16 && v@ == #[trigger] self.ciphertext(iv, plaintext_of(message@)),
    {
        let iv = match self.generate_random_iv() {
            Ok(iv) => iv,
            Err(e) => return Err(EncryptionError::RandomSource(e)),
        };
        self.encrypt_with_iv(message, iv.as_slice())
    }

    /// Encrypts a command under the given IV.
    pub fn encrypt_with_iv(&self, message: &str, iv: &[u8]) -> (r: Result<
        Vec<u8>,
        EncryptionError,
    >)
        requires
            encode_utf8(message@).len() <= MAX_MESSAGE_LEN,
            iv.len() == 16,
        ensures
            message@.contains('\r') ==> r matches Err(EncryptionError::TerminatorInMessage),
            r matches Err(EncryptionError::TerminatorInMessage) ==> message@.contains('\r'),
            r matches Err(e) ==> (e is TerminatorInMessage || e is Crypto),
            r matches Ok(v) ==> v@ == self.ciphertext(iv@, plaintext_of(message@)),
    {
        let terminated_message = match self.terminate_message(message) {
            Ok(m) => m,
            Err(_) => return Err(EncryptionError::TerminatorInMessage),
        };
        let terminated_bytes = terminated_message.as_str().as_bytes();
        proof {
            lemma_encode_utf8_push(message@, '\r');
            lemma_encode_one_len('\r');
        }
        let padded_message = self.pad_message(terminated_bytes);
        let iv_enc = match self.encrypt_ecb_iv(iv) {
            Ok(v) => v,
            Err(e) => return Err(EncryptionError::Crypto(e)),
        };
        let data_enc = match self.encrypt_cbc_message(iv, padded_message.as_slice()) {
            Ok(v) => v,
            Err(e) => return Err(EncryptionError::Crypto(e)),
        };
        Ok(concat_bytes(iv_enc.as_slice(), data_enc.as_slice()))
    }

    /// Decrypts a reply of the TV. The reply must hold at least the
    /// encrypted IV. An IV that does not decrypt to one block gives
    /// `MalformedIv`; a failure of OpenSSL is passed on.
    pub fn decrypt(&self, cipher_text: &[u8]) -> (r: Result<String, EncryptionError>)
        requires
            16 <= cipher_text.len() <= MAX_CIPHER_INPUT,
        ensures
            r matches Ok(s) ==> self.decrypted_iv(cipher_text@).len() == 16 && s@
                == self.plaintext_text(cipher_text@),
            r matches Err(e) ==> (e is Crypto || (e is MalformedIv && self.decrypted_iv(
                cipher_text@,
            ).len() != 16)),
    {
        proof {
            use_type_invariant(self);
        }
        let key_len = self.settings.encryption_key_length;
        let derived_key = match self.derive_key() {
            Ok(k) => k,
            Err(e) => return Err(EncryptionError::Crypto(e)),
        };
        let iv_enc = crate::text::slice_subrange(cipher_text, 0, key_len);
        let data_enc = crate::text::slice_subrange(cipher_text, key_len, cipher_text.len());
        assert(iv_enc@ =~= cipher_text@.take(16));
        assert(data_enc@ =~= cipher_text@.skip(16));
        let iv = match self.decrypt_ecb(derived_key.as_slice(), iv_enc) {
            Ok(v) => v,
            Err(e) => return Err(EncryptionError::Crypto(e)),
        };
        if iv.len() != 16 {
            return Err(EncryptionError::MalformedIv);
        }
        let decrypted = match self.decrypt_cbc(derived_key.as_slice(), iv.as_slice(), data_enc) {
            Ok(v) => v,
            Err(e) => return Err(EncryptionError::Crypto(e)),
        };
        let text = utf8_lossy(decrypted.as_slice());
        Ok(self.strip_end(text.as_str()))
    }

    fn generate_random_iv(&self) -> (r: Result<Vec<u8>, rand::Error>)
        ensures
            r matches Ok(iv) ==> iv.len() == 16,
    {
        proof {
            use_type_invariant(self);
        }
        let iv_length = self.settings.encryption_iv_length;
        let mut iv = zeroed(iv_length);
        fill_random(&mut iv)?;
        Ok(iv)
    }

    fn terminate_message(&self, message: &str) -> (r: Result<String, &'static str>)
        ensures
            r is Err <==> message@.contains('\r'),
            r matches Ok(s) ==> s@ == message@.push('\r'),
            r matches Err(e) ==> e@ == terminator_message(),
    {
        proof {
            use_type_invariant(self);
        }
        let terminator = self.settings.message_terminator;
        let chars = chars_of(message);
        let mut i: usize = 0;
        while i < chars.len()
            invariant
                i <= chars.len(),
                chars@ == message@,
                terminator == '\r',
                forall|j: int| 0 <= j < i ==> chars@[j] != '\r',
            decreases chars.len() - i,
        {
            if chars[i] == terminator {
                return Err("message must not include the message terminator character");
            }
            i = i + 1;
        }
        let mut terminated = String::from_str(message);
        push_char(&mut terminated, terminator);
        Ok(terminated)
    }

    fn pad_message(&self, message: &[u8]) -> (padded: Vec<u8>)
        requires
            message.len() <= MAX_CIPHER_INPUT - 16,
        ensures
            padded@ == pad_bytes(message@),
            padded@.len() <= message.len() + 17,
    {
        proof {
            use_type_invariant(self);
        }
        let block_size = self.settings.message_block_size;
        let mut new_message = vstd::slice::slice_to_vec(message);
        if new_message.len() % block_size == 0 {
            new_message.push(0x20u8);
        }
        let ghost m1 = new_message@;
        let remainder = new_message.len() % block_size;
        if remainder != 0 {
            let padding = block_size - remainder;
            let pad_byte = padding as u8;
            let mut i: usize = 0;
            while i < padding
                invariant
                    i <= padding,
                    padding < 16,
                    pad_byte == padding,
                    new_message@ == m1 + Seq::new(i as nat, |j: int| pad_byte),
                decreases padding - i,
            {
                new_message.push(pad_byte);
                i = i + 1;
                assert(new_message@ =~= m1 + Seq::new(i as nat, |j: int| pad_byte));
            }
            assert(new_message@ =~= m1 + Seq::new(padding as nat, |j: int| padding as u8));
        }
        new_message
    }

    fn derive_key(&self) -> (r: Result<Vec<u8>, ErrorStack>)
        ensures
            r matches Ok(k) ==> k@ == self.key() && k@.len() == 16,
    {
        proof {
            use_type_invariant(self);
        }
        let mut derived_key = zeroed(self.settings.encryption_key_length);
        let pass = self.key_code.as_str().as_bytes();
        let salt = self.settings.encryption_key_salt.as_slice();
        pbkdf2_sha256(pass, salt, self.settings.encryption_key_iterations as usize, &mut derived_key)?;
        Ok(derived_key)
    }

    fn encrypt_ecb_iv(&self, iv: &[u8]) -> (r: Result<Vec<u8>, ErrorStack>)
        requires
            iv.len() <= MAX_CIPHER_INPUT,
        ensures
            r matches Ok(v) ==> v@ == aes_128_unpadded(
                BlockMode::Ecb,
                Direction::Encrypt,
                self.key(),
                None,
                iv@,
            ),
    {
        let derived_key = self.derive_key()?;
        aes_128_crypt(BlockMode::Ecb, Direction::Encrypt, derived_key.as_slice(), None, iv)
    }

    fn encrypt_cbc_message(&self, iv: &[u8], padded_message: &[u8]) -> (r: Result<
        Vec<u8>,
        ErrorStack,
    >)
        requires
            iv.len() == 16,
            padded_message.len() <= MAX_CIPHER_INPUT,
        ensures
            r matches Ok(v) ==> v@ == aes_128_unpadded(
                BlockMode::Cbc,
                Direction::Encrypt,
                self.key(),
                Some(iv@),
                padded_message@,
            ),
    {
        let derived_key = self.derive_key()?;
        aes_128_crypt(
            BlockMode::Cbc,
            Direction::Encrypt,
            derived_key.as_slice(),
            Some(iv),
            padded_message,
        )
    }

    fn decrypt_ecb(&self, key: &[u8], data: &[u8]) -> (r: Result<Vec<u8>, ErrorStack>)
        requires
            key.len() == 16,
            data.len() <= MAX_CIPHER_INPUT,
        ensures
            r matches Ok(v) ==> v@ == aes_128_unpadded(
                BlockMode::Ecb,
                Direction::Decrypt,
                key@,
                None,
                data@,
            ),
    {
        aes_128_crypt(BlockMode::Ecb, Direction::Decrypt, key, None, data)
    }

    fn decrypt_cbc(&self, key: &[u8], iv: &[u8], data: &[u8]) -> (r: Result<Vec<u8>, ErrorStack>)
        requires
            key.len() == 16,
            iv.len() == 16,
            data.len() <= MAX_CIPHER_INPUT,
        ensures
            r matches Ok(v) ==> v@ == aes_128_unpadded(
                BlockMode::Cbc,
                Direction::Decrypt,
                key@,
                Some(iv@),
                data@,
            ),
    {
        aes_128_crypt(BlockMode::Cbc, Direction::Decrypt, key, Some(iv), data)
    }

    fn strip_end(&self, input: &str) -> (s: String)
        ensures
            s@ == strip_end_spec(input@),
    {
        let chars = chars_of(input);
        let mut end = chars.len();
        assert(chars@.take(chars.len() as int) =~= chars@);
        while end > 0 && is_filler(chars[end - 1])
            invariant
                end <= chars.len(),
                strip_end_spec(chars@) == strip_end_spec(chars@.take(end as int)),
            decreases end,
        {
            assert(chars@.take(end as int).drop_last() =~= chars@.take(end - 1));
            end = end - 1;
        }
        assert(chars@.take(end as int) =~= chars@.subrange(0, end as int));
        string_from_chars(crate::text::slice_subrange(chars.as_slice(), 0, end))
    }
}

/// Whether `strip_end` removes `c`.
fn is_filler(c: char) -> (b: bool)
    ensures
        b == is_trailing_filler(c),
{
    c == '\r' || c == '\n' || (c as u32) % 256 <= 16
}

/// `n` zero bytes.
fn zeroed(n: usize) -> (v: Vec<u8>)
    ensures
        v@ == Seq::new(n as nat, |i: int| 0u8),
{
    let mut v: Vec<u8> = Vec::new();
    let mut i: usize = 0;
    while i < n
        invariant
            i <= n,
            v@ == Seq::new(i as nat, |j: int| 0u8),
        decreases n - i,
    {
        v.push(0u8);
        i = i + 1;
        assert(v@ =~= Seq::new(i as nat, |j: int| 0u8));
    }
    v
}

/// `a` followed by `b`.
fn concat_bytes(a: &[u8], b: &[u8]) -> (v: Vec<u8>)
    ensures
        v@ == a@ + b@,
{
    let mut v = vstd::slice::slice_to_vec(a);
    let mut i: usize = 0;
    while i < b.len()
        invariant
            i <= b.len(),
            v@ == a@ + b@.take(i as int),
        decreases b.len() - i,
    {
        v.push(b[i]);
        i = i + 1;
        assert(v@ =~= a@ + b@.take(i as int));
    }
    assert(b@.take(b.len() as int) =~= b@);
    v
}

/// The UTF-8 encoding of a text is the concatenation of its characters'.
pub proof fn lemma_encode_utf8_concat(a: Seq<char>, b: Seq<char>)
    ensures
        encode_utf8(a + b) == encode_utf8(a) + encode_utf8(b),
    decreases a.len(),
{
    if a.len() == 0 {
        assert(a + b =~= b);
    } else {
        assert((a + b).drop_first() =~= a.drop_first() + b);
        lemma_encode_utf8_concat(a.drop_first(), b);
    }
}

/// A character is encoded in at most four bytes.
pub proof fn lemma_encode_one_len(c: char)
    ensures
        encode_utf8(seq![c]).len() <= 4,
{
    assert(seq![c].drop_first() =~= Seq::<char>::empty());
    assert(encode_utf8(seq![c]) == vstd::utf8::encode_scalar(c as u32) + encode_utf8(
        Seq::<char>::empty(),
    ));
}

/// Appending a character appends its encoding.
pub proof fn lemma_encode_utf8_push(a: Seq<char>, c: char)
    ensures
        encode_utf8(a.push(c)) == encode_utf8(a) + encode_utf8(seq![c]),
{
    assert(a.push(c) =~= a + seq![c]);
    lemma_encode_utf8_concat(a, seq![c]);
}

/// A character below 0x80 is encoded as the one byte of its code.
proof fn lemma_encode_ascii_char(c: char)
    requires
        (c as u32) < 0x80,
    ensures
        encode_utf8(seq![c]) == seq![(c as u32) as u8],
{
    let v = c as u32;
    assert((v & 0x7F) as u8 == v as u8) by (bit_vector)
        requires
            v < 0x80,
    ;
    assert(seq![c].drop_first() =~= Seq::<char>::empty());
    assert(encode_utf8(seq![c]) =~= vstd::utf8::encode_scalar(v) + encode_utf8(
        Seq::<char>::empty(),
    ));
}

/// The characters whose codes are the bytes of the padding of a block-filling
/// text: a space, then 15 characters of code 15.
pub open spec fn filler_after_full_block() -> Seq<char> {
    seq![' '] + Seq::new(15, |i: int| 15u32 as char)
}

/// `k` characters of code `k`.
pub open spec fn filler_chars(k: nat) -> Seq<char> {
    Seq::new(k, |i: int| k as u32 as char)
}

/// A text of characters below 0x80 is encoded as their codes.
proof fn lemma_encode_ascii(s: Seq<char>)
    requires
        forall|i: int| 0 <= i < s.len() ==> (#[trigger] s[i] as u32) < 0x80,
    ensures
        encode_utf8(s) == s.map_values(|c: char| (c as u32) as u8),
    decreases s.len(),
{
    if s.len() > 0 {
        lemma_encode_ascii(s.drop_first());
        assert(s =~= seq![s[0]] + s.drop_first());
        lemma_encode_utf8_concat(seq![s[0]], s.drop_first());
        lemma_encode_ascii_char(s[0]);
        assert(s.map_values(|c: char| (c as u32) as u8) =~= seq![(s[0] as u32) as u8]
            + s.drop_first().map_values(|c: char| (c as u32) as u8));
    } else {
        assert(s.map_values(|c: char| (c as u32) as u8) =~= Seq::<u8>::empty());
    }
}

/// Filler at the end of a text is stripped away.
proof fn lemma_strip_filler_suffix(a: Seq<char>, f: Seq<char>)
    requires
        forall|i: int| 0 <= i < f.len() ==> is_trailing_filler(#[trigger] f[i]),
    ensures
        strip_end_spec(a + f) == strip_end_spec(a),
    decreases f.len(),
{
    if f.len() > 0 {
        assert((a + f).drop_last() =~= a + f.drop_last());
        assert((a + f).last() == f.last());
        lemma_strip_filler_suffix(a, f.drop_last());
    } else {
        assert(a + f =~= a);
    }
}

/// The framing of a command, undone: reading back the plaintext that carries
/// a message `m` without the terminator gives `m` again, provided `m` does
/// not itself end in filler; when the terminated message fills whole blocks,
/// the padding begins with a space, and `m` comes back followed by `"\r "`.
/// The plaintext is valid UTF-8, so that its lossy reading is exact.
pub proof fn lemma_framing_round_trip(m: Seq<char>)
    requires
        !m.contains('\r'),
        m.len() == 0 || !is_trailing_filler(m.last()),
    ensures
        vstd::utf8::valid_utf8(plaintext_of(m)),
        strip_end_spec(vstd::utf8::decode_utf8(plaintext_of(m))) == (if encode_utf8(m).len() % 16
            == 15 {
            m + "\r "@
        } else {
            m
        }),
{
    let t = m.push('\r');
    let e = encode_utf8(t);
    lemma_encode_utf8_push(m, '\r');
    lemma_encode_ascii_char('\r');
    assert(e.len() == encode_utf8(m).len() + 1);
    let tail: Seq<char> = if e.len() % 16 == 0 {
        filler_after_full_block()
    } else {
        filler_chars((16 - e.len() % 16) as nat)
    };
    assert forall|i: int| 0 <= i < tail.len() implies (#[trigger] tail[i] as u32) < 0x80 by {}
    lemma_encode_ascii(tail);
    lemma_encode_utf8_concat(t, tail);
    assert(plaintext_of(m) == e + tail.map_values(|c: char| (c as u32) as u8)) by {
        if e.len() % 16 == 0 {
            let m1 = e.push(0x20u8);
            assert(m1.len() % 16 == 1);
            assert(pad_bytes(e) =~= m1 + Seq::new(15, |i: int| 15u8));
            assert(m1 + Seq::new(15, |i: int| 15u8) =~= e + tail.map_values(
                |c: char| (c as u32) as u8,
            ));
        } else {
            let k = (16 - e.len() % 16) as nat;
            assert(pad_bytes(e) =~= e + Seq::new(k, |i: int| k as u8));
            assert(Seq::new(k, |i: int| k as u8) =~= tail.map_values(|c: char| (c as u32) as u8));
        }
    }
    vstd::utf8::encode_utf8_valid_utf8(t + tail);
    vstd::utf8::encode_utf8_decode_utf8(t + tail);
    assert(vstd::utf8::decode_utf8(plaintext_of(m)) == t + tail);
    reveal_strlit("\r ");
    if e.len() % 16 == 0 {
        let fill = Seq::new(15, |i: int| 15u32 as char);
        assert(t + tail =~= (t + seq![' ']) + fill);
        lemma_strip_filler_suffix(t + seq![' '], fill);
        assert(t + seq![' '] =~= m + "\r "@);
    } else {
        lemma_strip_filler_suffix(m, seq!['\r'] + tail);
        assert(t + tail =~= m + (seq!['\r'] + tail));
    }
}

/// Padding fills whole blocks: the padded text is longer than the text, at
/// most 17 bytes longer, a whole number of 16-byte blocks, and begins with
/// the text.
pub proof fn lemma_padding_fills_blocks(m: Seq<u8>)
    ensures
        pad_bytes(m).len() % 16 == 0,
        m.len() < pad_bytes(m).len() <= m.len() + 17,
        pad_bytes(m).take(m.len() as int) == m,
{
    let m1 = if m.len() % 16 == 0 { m.push(0x20u8) } else { m };
    let k = (16 - m1.len() % 16) as nat;
    assert(m1.len() % 16 != 0);
    assert(pad_bytes(m) == m1 + Seq::new(k, |i: int| k as u8));
    assert(pad_bytes(m).take(m.len() as int) =~= m);
}

/// AES-128 undoes itself on this key, IV and plaintext: the IV encrypts to
/// one block that decrypts back to it, and the plaintext, encrypted in CBC
/// mode, decrypts back to it.
pub open spec fn aes_inverts(key: Seq<u8>, iv: Seq<u8>, plaintext: Seq<u8>) -> bool {
    let c_iv = aes_128_unpadded(BlockMode::Ecb, Direction::Encrypt, key, None, iv);
    let c = aes_128_unpadded(BlockMode::Cbc, Direction::Encrypt, key, Some(iv), plaintext);
    &&& c_iv.len() == 16
    &&& aes_128_unpadded(BlockMode::Ecb, Direction::Decrypt, key, None, c_iv) == iv
    &&& aes_128_unpadded(BlockMode::Cbc, Direction::Decrypt, key, Some(iv), c) == plaintext
}

/// What the TV reads of a command is the command: the text that `decrypt`
/// reads from the encryption of a message `m` is `m` again (followed by
/// `"\r "` when the terminated message fills whole blocks), for a message
/// without the terminator that does not end in filler, wherever AES-128
/// decryption undoes encryption.
pub proof fn lemma_command_round_trip(e: Encryption, m: Seq<char>, iv: Seq<u8>)
    requires
        !m.contains('\r'),
        m.len() == 0 || !is_trailing_filler(m.last()),
        aes_inverts(e.key(), iv, plaintext_of(m)),
    ensures
        e.plaintext_text(e.ciphertext(iv, plaintext_of(m))) == (if encode_utf8(m).len() % 16
            == 15 {
            m + "\r "@
        } else {
            m
        }),
{
    let c = e.ciphertext(iv, plaintext_of(m));
    let c_iv = aes_128_unpadded(BlockMode::Ecb, Direction::Encrypt, e.key(), None, iv);
    let c_data = aes_128_unpadded(
        BlockMode::Cbc,
        Direction::Encrypt,
        e.key(),
        Some(iv),
        plaintext_of(m),
    );
    assert(c.take(16) =~= c_iv);
    assert(c.skip(16) =~= c_data);
    lemma_framing_round_trip(m);
}

} // verus!
