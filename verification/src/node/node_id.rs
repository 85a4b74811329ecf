//! Identities of peers: Ed25519 public keys, the short local id derived from
//! them, and the full node id that adds the network address.

use vstd::prelude::*;

use vstd::string::StringSliceAdditionalSpecFns;

use crate::text::{chars_of, string_from_chars};

verus! {

/// An error of `data_encoding` while decoding text.
#[verifier::external_type_specification]
#[verifier::external_body]
pub struct ExDecodeError(data_encoding::DecodeError);

/// An error of `ed25519_dalek` (an invalid key or a failed verification).
#[verifier::external_type_specification]
#[verifier::external_body]
pub struct ExSignatureError(ed25519_dalek::SignatureError);

/// Lower-case hexadecimal digit of a value in `0..16`.
pub open spec fn hex_digit(n: int) -> char {
    if n < 10 {
        (48 + n) as char
    } else {
        (87 + n) as char
    }
}

/// Lower-case hexadecimal text of `bytes`: two digits per byte, high nibble first.
pub open spec fn hex_lower(bytes: Seq<u8>) -> Seq<char> {
    Seq::new(
        2 * bytes.len(),
        |i: int|
            if i % 2 == 0 {
                hex_digit((bytes[i / 2] / 16) as int)
            } else {
                hex_digit((bytes[i / 2] % 16) as int)
            },
    )
}

/// Value of one lower-case hexadecimal digit given as an ASCII byte.
pub open spec fn hex_value(b: u8) -> Option<int> {
    if 48 <= b <= 57 {
        Some(b - 48)
    } else if 97 <= b <= 102 {
        Some(b - 87)
    } else {
        None
    }
}

/// Decoding of lower-case hexadecimal text: `None` when the length is odd or a
/// byte is not a lower-case hexadecimal digit.
pub open spec fn hex_lower_decode(input: Seq<u8>) -> Option<Seq<u8>> {
    if input.len() % 2 == 0 && forall|i: int| 0 <= i < input.len() ==> #[trigger] hex_value(input[i]) is Some {
        Some(
            Seq::new(
                input.len() / 2,
                |i: int| (hex_value(input[2 * i])->0 * 16 + hex_value(input[2 * i + 1])->0) as u8,
            ),
        )
    } else {
        None
    }
}

/// Reading back the hexadecimal text of some bytes gives the bytes: what
/// [`PublicKey::to_hex`] writes, [`PublicKey::from_str`] reads.
pub proof fn law_hex_round_trip(b: Seq<u8>)
    ensures
        hex_lower_decode(vstd::utf8::encode_utf8(hex_lower(b))) == Some(b),
{
    let h = hex_lower(b);
    assert forall|i: int| 0 <= i < h.len() implies '\0' <= #[trigger] h[i] <= '\u{7f}' by {
        let byte = b[i / 2];
        assert(byte / 16 < 16 && byte % 16 < 16);
    }
    vstd::utf8::is_ascii_chars_encode_utf8(h);
    let e = vstd::utf8::encode_utf8(h);
    assert forall|i: int| 0 <= i < e.len() implies #[trigger] hex_value(e[i]) == Some(
        (if i % 2 == 0 { b[i / 2] / 16 } else { b[i / 2] % 16 }) as int,
    ) by {
        assert(h[i] as u8 == e[i]);
        let byte = b[i / 2];
        assert(byte / 16 < 16 && byte % 16 < 16);
    }
    assert forall|i: int| 0 <= i < e.len() implies #[trigger] hex_value(e[i]) is Some by {
        assert(hex_value(e[i]) == Some((if i % 2 == 0 { b[i / 2] / 16 } else { b[i / 2] % 16 }) as int));
    }
    let d = hex_lower_decode(e)->0;
    assert forall|i: int| 0 <= i < b.len() implies #[trigger] d[i] == b[i] by {
        assert(hex_value(e[2 * i]) == Some((b[i] / 16) as int));
        assert(hex_value(e[2 * i + 1]) == Some((b[i] % 16) as int));
        assert((2 * i) / 2 == i);
        assert((2 * i + 1) / 2 == i);
    }
    assert(d =~= b);
}

/// Whether 32 bytes are the compressed form of a point that `ed25519_dalek`
/// accepts as a public key (`VerifyingKey::from_bytes` succeeds).
pub uninterp spec fn ed25519_point_valid(bytes: Seq<u8>) -> bool;

/// The public key that `ed25519_dalek` derives from a 32-byte secret key.
pub uninterp spec fn ed25519_public_of_secret(secret: Seq<u8>) -> Seq<u8>;

/// Whether `VerifyingKey::verify_strict` accepts a signature of a message under a key.
pub uninterp spec fn ed25519_verify_strict(key: Seq<u8>, message: Seq<u8>, signature: Seq<u8>) -> bool;

/// The text of a key reads back as that key: [`PublicKey::to_hex`] writes
/// 64 bytes of text, and [`PublicKey::from_str`] decodes them to the key's
/// bytes, which every key holds as a valid point.
pub proof fn law_key_text_round_trip(pk: PublicKey)
    requires
        pk.is_valid(),
    ensures
        vstd::utf8::encode_utf8(hex_lower(pk@)).len() == 64,
        hex_lower_decode(vstd::utf8::encode_utf8(hex_lower(pk@))) == Some(pk@),
        ed25519_point_valid(pk@),
{
    law_hex_round_trip(pk@);
}

/// `data_encoding::HEXLOWER.encode`: two lower-case hexadecimal digits per byte,
/// high nibble first.
#[verifier::external_body]
fn hexlower_encode(bytes: &[u8]) -> (s: String)
    ensures
        s@ == hex_lower(bytes@),
{
    data_encoding::HEXLOWER.encode(bytes)
}

/// `data_encoding::HEXLOWER.decode_mut` into a 32-byte buffer. The call panics
/// unless the input holds exactly 64 bytes, hence the precondition. It succeeds
/// exactly when every byte is a lower-case hexadecimal digit, and then gives the
/// decoded bytes.
#[verifier::external_body]
fn hexlower_decode_32(input: &[u8]) -> (res: Result<[u8; 32], data_encoding::DecodeError>)
    requires
        input@.len() == 64,
    ensures
        match res {
            Ok(out) => hex_lower_decode(input@) == Some(out@),
            Err(_) => hex_lower_decode(input@) is None,
        },
{
    let mut out = [0u8; 32];
    match data_encoding::HEXLOWER.decode_mut(input, &mut out) {
        Ok(_) => Ok(out),
        Err(partial) => Err(partial.error),
    }
}

/// `ed25519_dalek::VerifyingKey::from_bytes`: succeeds exactly on valid
/// compressed points, and the key then holds the same 32 bytes.
#[verifier::external_body]
fn verifying_key_from_bytes(bytes: &[u8; 32]) -> (res: Result<[u8; 32], ed25519_dalek::SignatureError>)
    ensures
        res is Ok <==> ed25519_point_valid(bytes@),
        res matches Ok(b) ==> b@ == bytes@,
{
    match ed25519_dalek::VerifyingKey::from_bytes(bytes) {
        Ok(key) => Ok(key.to_bytes()),
        Err(e) => Err(e),
    }
}

/// `ed25519_dalek::SigningKey::verifying_key` of the signing key made from
/// 32 secret bytes (`SigningKey::from_bytes`). The key's bytes are the
/// compression of a curve point, which `VerifyingKey` keeps as the
/// decompression of those bytes, so `VerifyingKey::from_bytes` accepts them.
#[verifier::external_body]
fn signing_key_public(secret: &[u8; 32]) -> (public: [u8; 32])
    ensures
        public@ == ed25519_public_of_secret(secret@),
        ed25519_point_valid(public@),
{
    ed25519_dalek::SigningKey::from_bytes(secret).verifying_key().to_bytes()
}

/// `ed25519_dalek::VerifyingKey::verify_strict` of a signature given by its
/// 64 bytes, under the key given by its 32 bytes.
#[verifier::external_body]
fn verifying_key_verify_strict(key: &[u8; 32], message: &[u8], signature: &[u8; 64]) -> (res: Result<(), ed25519_dalek::SignatureError>)
    ensures
        res is Ok <==> ed25519_verify_strict(key@, message@, signature@),
{
    let signature = ed25519_dalek::Signature::from_bytes(signature);
    match ed25519_dalek::VerifyingKey::from_bytes(key) {
        Ok(key) => key.verify_strict(message, &signature),
        Err(e) => Err(e),
    }
}

/// `rand::random::<u8>()`: a byte from the thread-local generator.
#[verifier::external_body]
fn random_byte() -> u8 {
    rand::random::<u8>()
}

/// Whether two 32-byte arrays hold the same bytes.
pub fn bytes32_eq(a: &[u8; 32], b: &[u8; 32]) -> (r: bool)
    ensures
        r == (a@ == b@),
{
    let mut i: usize = 0;
    while i < 32
        invariant
            i <= 32,
            a@.len() == 32,
            b@.len() == 32,
            forall|j: int| 0 <= j < i ==> a@[j] == b@[j],
        decreases 32 - i,
    {
        if a[i] != b[i] {
            return false;
        }
        i = i + 1;
    }
    assert(a@ =~= b@);
    true
}

/// Why a text could not be read as a public key.
#[derive(Debug)]
#[allow(inconsistent_fields)]
pub enum KeyParsingError {
    /// The text is not lower-case hexadecimal.
    DecodeError { err: data_encoding::DecodeError },
    /// The bytes are not a valid Ed25519 public key.
    SignatureError { err: ed25519_dalek::SignatureError },
}

/// An Ed25519 public key, held as its 32 compressed bytes.
#[derive(Clone, Copy, Debug, PartialEq, Eq, Hash, PartialOrd, Ord)]
pub struct PublicKey {
    bytes: [u8; 32],
}

impl View for PublicKey {
    type V = Seq<u8>;

    closed spec fn view(&self) -> Seq<u8> {
        self.bytes@
    }
}

impl PublicKey {
    /// Every key holds a point that `ed25519_dalek` accepts.
    #[verifier::type_invariant]
    spec fn valid_point(&self) -> bool {
        ed25519_point_valid(self.bytes@)
    }

    /// Whether the bytes are a point that `ed25519_dalek` accepts.
    pub open spec fn is_valid(&self) -> bool {
        ed25519_point_valid(self@)
    }

    pub fn as_bytes(&self) -> (r: &[u8; 32])
        ensures
            r@ == self@,
            self.is_valid(),
    {
        proof {
            use_type_invariant(self);
        }
        &self.bytes
    }

    /// Reads a key from its 32 bytes; fails when they are not a valid point.
    pub fn from_bytes(bytes: &[u8; 32]) -> (res: Result<PublicKey, ed25519_dalek::SignatureError>)
        ensures
            res is Ok <==> ed25519_point_valid(bytes@),
            res matches Ok(k) ==> k@ == bytes@ && k.is_valid(),
    {
        match verifying_key_from_bytes(bytes) {
            Ok(b) => Ok(PublicKey { bytes: b }),
            Err(e) => Err(e),
        }
    }

    /// Reads a key from 64 lower-case hexadecimal digits (the form that
    /// [`LocalNodeId::to_hex`] writes). Text of another byte length is refused
    /// by the precondition: the decoder panics on it.
    pub fn from_str(s: &str) -> (res: Result<PublicKey, KeyParsingError>)
        requires
            s.spec_bytes().len() == 64,
        ensures
            match res {
                Ok(k) => hex_lower_decode(s.spec_bytes()) == Some(k@) && k.is_valid(),
                Err(KeyParsingError::DecodeError { .. }) => hex_lower_decode(s.spec_bytes()) is None,
                Err(KeyParsingError::SignatureError { .. }) => hex_lower_decode(s.spec_bytes()) matches Some(b)
                    && !ed25519_point_valid(b),
            },
    {
        let bytes = match hexlower_decode_32(s.as_bytes()) {
            Ok(b) => b,
            Err(err) => {
                return Err(KeyParsingError::DecodeError { err });
            },
        };
        match PublicKey::from_bytes(&bytes) {
            Ok(k) => Ok(k),
            Err(err) => Err(KeyParsingError::SignatureError { err }),
        }
    }

    /// The key as 64 lower-case hexadecimal digits; [`PublicKey::from_str`]
    /// reads the key back from them (see [`law_hex_round_trip`]).
    pub fn to_hex(&self) -> (s: String)
        ensures
            s@ == hex_lower(self@),
            self.is_valid(),
    {
        proof {
            use_type_invariant(self);
        }
        hexlower_encode(&self.bytes)
    }

    /// Whether two keys hold the same bytes.
    pub fn same_as(&self, other: &PublicKey) -> (r: bool)
        ensures
            r == (self@ == other@),
    {
        bytes32_eq(&self.bytes, &other.bytes)
    }
}

/// An Ed25519 secret key, held as its 32 bytes.
#[derive(Clone, Debug)]
pub struct SecretKey {
    bytes: [u8; 32],
}

impl SecretKey {
    pub closed spec fn secret_view(&self) -> Seq<u8> {
        self.bytes@
    }

    /// The public key that belongs to this secret key.
    pub fn public(&self) -> (k: PublicKey)
        ensures
            k@ == ed25519_public_of_secret(self.secret_view()),
            k.is_valid(),
    {
        PublicKey { bytes: signing_key_public(&self.bytes) }
    }

    /// The 32 secret bytes, from which `ed25519_dalek::SigningKey::from_bytes`
    /// makes the signing key.
    pub fn secret(&self) -> (r: [u8; 32])
        ensures
            r@ == self.secret_view(),
    {
        self.bytes
    }

    /// A secret key made of the given bytes.
    pub fn from_secret_bytes(bytes: [u8; 32]) -> (k: SecretKey)
        ensures
            k.secret_view() == bytes@,
    {
        SecretKey { bytes }
    }

    /// A fresh secret key of 32 random bytes.
    pub fn generate() -> (k: SecretKey) {
        let mut bytes = [0u8; 32];
        let mut i: usize = 0;
        while i < 32
            invariant
                i <= 32,
                bytes@.len() == 32,
            decreases 32 - i,
        {
            bytes[i] = random_byte();
            i = i + 1;
        }
        SecretKey { bytes }
    }
}

/// The identity of a node, independent of its network address.
#[derive(Debug, Clone, Copy, PartialEq, Eq, Hash, PartialOrd, Ord)]
pub struct LocalNodeId(pub PublicKey);

impl View for LocalNodeId {
    type V = Seq<u8>;

    open spec fn view(&self) -> Seq<u8> {
        self.0@
    }
}

impl LocalNodeId {
    /// Number of bytes of an id.
    pub const LENGTH: usize = 32;

    /// Makes a new `LocalNodeId` instance.
    pub fn new(id: PublicKey) -> (r: LocalNodeId)
        ensures
            r@ == id@,
            r.0 == id,
    {
        LocalNodeId(id)
    }

    pub fn as_bytes(&self) -> (r: &[u8; 32])
        ensures
            r@ == self@,
    {
        self.0.as_bytes()
    }

    /// The id as text: 64 lower-case hexadecimal digits.
    pub fn to_hex(&self) -> (s: String)
        ensures
            s@ == hex_lower(self@),
    {
        self.0.to_hex()
    }

    /// The first five characters of the id's text, to name a peer on screen.
    pub fn short(&self) -> (s: String)
        ensures
            s@ == hex_lower(self@).take(5),
    {
        let text = self.to_hex();
        let chars = chars_of(text.as_str());
        let mut head: Vec<char> = Vec::new();
        let mut i: usize = 0;
        while i < 5
            invariant
                i <= 5,
                chars@ == hex_lower(self@),
                chars@.len() == 64,
                head@ == chars@.take(i as int),
            decreases 5 - i,
        {
            head.push(chars[i]);
            assert(chars@.take(i as int).push(chars@[i as int]) =~= chars@.take(i + 1));
            i = i + 1;
        }
        string_from_chars(head.as_slice())
    }

    /// Returns the public key of this id.
    pub fn public(&self) -> (k: PublicKey)
        ensures
            k == self.0,
    {
        self.0
    }

    /// Checks a signature (given by its 64 bytes) of `message` under this id's key.
    pub fn verify(&self, message: &[u8], signature: &[u8; 64]) -> (res: Result<(), ed25519_dalek::SignatureError>)
        ensures
            res is Ok <==> ed25519_verify_strict(self@, message@, signature@),
    {
        verifying_key_verify_strict(&self.0.bytes, message, signature)
    }

    /// Whether two ids hold the same key.
    pub fn same_as(&self, other: &LocalNodeId) -> (r: bool)
        ensures
            r == (self@ == other@),
    {
        self.0.same_as(&other.0)
    }
}

/// A socket address: IPv4 address (as its 32-bit value) and port, or IPv6
/// address (as its 128-bit value), port, flow information and scope id.
#[derive(Debug, Clone, Copy, PartialEq, Eq, Hash, PartialOrd, Ord, Structural)]
#[allow(inconsistent_fields)]
pub enum NetAddress {
    V4 { ip: u32, port: u16 },
    V6 { ip: u128, port: u16, flowinfo: u32, scope_id: u32 },
}

impl NetAddress {
    pub open spec fn spec_port(self) -> u16 {
        match self {
            NetAddress::V4 { port, .. } => port,
            NetAddress::V6 { port, .. } => port,
        }
    }

    /// The port of the address.
    pub fn port(&self) -> (p: u16)
        ensures
            p == self.spec_port(),
    {
        match self {
            NetAddress::V4 { port, .. } => *port,
            NetAddress::V6 { port, .. } => *port,
        }
    }
}

/// The full identity of a node: where it listens and who it is.
#[derive(Clone, Copy, PartialEq, Eq, Hash, Debug, PartialOrd, Ord)]
pub struct NodeId {
    address: NetAddress,
    local_id: LocalNodeId,
}

impl View for NodeId {
    type V = (NetAddress, Seq<u8>);

    closed spec fn view(&self) -> (NetAddress, Seq<u8>) {
        (self.address, self.local_id@)
    }
}

impl NodeId {
    /// Makes a new `NodeId` instance.
    pub fn new(address: NetAddress, local_id: LocalNodeId) -> (r: NodeId)
        ensures
            r@ == (address, local_id@),
            r.spec_local_id() == local_id,
    {
        NodeId { address, local_id }
    }

    pub closed spec fn spec_local_id(&self) -> LocalNodeId {
        self.local_id
    }

    /// Returns the address part of the identifier.
    pub fn address(&self) -> (a: NetAddress)
        ensures
            a == self@.0,
    {
        self.address
    }

    /// Returns the local node identifier part of the identifier.
    pub fn local_id(&self) -> (r: &LocalNodeId)
        ensures
            r@ == self@.1,
            *r == self.spec_local_id(),
    {
        &self.local_id
    }

    /// Whether two node ids are the same (same address and same key).
    pub fn same_as(&self, other: &NodeId) -> (r: bool)
        ensures
            r == (self@ == other@),
    {
        let same_address = self.address == other.address;
        let same_key = self.local_id.same_as(&other.local_id);
        proof {
            if same_address && same_key {
                assert(self@ == other@);
            }
        }
        same_address && same_key
    }
}

} // verus!
