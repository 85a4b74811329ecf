//! TLS identity of peers: the server name that carries a node's public key,
//! and the checks that the certificate verifiers make with it.

use vstd::arithmetic::power2::pow2;
use vstd::prelude::*;
use vstd::string::StringSliceAdditionalSpecFns;

use crate::node::node_id::PublicKey;
use crate::text::{lemma_split_by_append_plain, lemma_split_by_append_sep, push_str, split_by, split_on, str_eq, views};

verus! {

/// Bit `k` of `bytes`, most significant bit of each byte first; zero past the end.
pub open spec fn bit_of(bytes: Seq<u8>, k: int) -> nat {
    if 0 <= k < 8 * bytes.len() {
        ((bytes[k / 8] as nat) / pow2((7 - k % 8) as nat)) % 2
    } else {
        0
    }
}

/// The five bits of group `i` of `bytes` as a number below 32.
pub open spec fn group_of(bytes: Seq<u8>, i: int) -> nat {
    16 * bit_of(bytes, 5 * i) + 8 * bit_of(bytes, 5 * i + 1) + 4 * bit_of(bytes, 5 * i + 2) + 2 * bit_of(bytes, 5 * i + 3)
        + bit_of(bytes, 5 * i + 4)
}

/// The DNSSEC base32 symbol of a number below 32: `0-9`, then `a-v`.
pub open spec fn base32_dnssec_symbol(d: nat) -> char {
    if d < 10 {
        (48 + d) as char
    } else {
        (97 + d - 10) as char
    }
}

/// The DNSSEC base32 text of `bytes`, as `data_encoding::BASE32_DNSSEC.encode`
/// writes it: the bits in groups of five, most significant first, the last
/// group filled up with zero bits, one symbol per group, and no padding.
pub open spec fn base32_dnssec(bytes: Seq<u8>) -> Seq<char> {
    Seq::new(((8 * bytes.len() + 4) / 5) as nat, |i: int| base32_dnssec_symbol(group_of(bytes, i)))
}

/// The bytes that `data_encoding::BASE32_DNSSEC.decode` gives for an input,
/// `None` when it refuses the input.
pub uninterp spec fn base32_dnssec_decode(input: Seq<u8>) -> Option<Seq<u8>>;

/// The DER `SubjectPublicKeyInfo` of an Ed25519 public key
/// (`ed25519_dalek`'s `EncodePublicKey::to_public_key_der`).
pub uninterp spec fn ed25519_spki_der(key: Seq<u8>) -> Seq<u8>;

/// Whether a character belongs to the DNSSEC base32 alphabet `0-9a-v`.
pub open spec fn is_base32_dnssec_symbol(c: char) -> bool {
    ('0' <= c && c <= '9') || ('a' <= c && c <= 'v')
}

/// The DNSSEC base32 text holds only symbols of its alphabet.
proof fn lemma_base32_dnssec_symbols(bytes: Seq<u8>)
    ensures
        forall|i: int| 0 <= i < base32_dnssec(bytes).len() ==> is_base32_dnssec_symbol(#[trigger] base32_dnssec(bytes)[i]),
{
    assert forall|i: int| 0 <= i < base32_dnssec(bytes).len() implies is_base32_dnssec_symbol(
        #[trigger] base32_dnssec(bytes)[i],
    ) by {
        let d = group_of(bytes, i);
        assert(d < 32);
    }
}

/// `data_encoding::BASE32_DNSSEC.encode` (symbols `0-9a-v`, bits most
/// significant first, no padding); as the crate documents for all its
/// encodings, decoding the text gives back the bytes.
#[verifier::external_body]
fn base32_dnssec_encode(bytes: &[u8]) -> (s: String)
    ensures
        s@ == base32_dnssec(bytes@),
        base32_dnssec_decode(vstd::utf8::encode_utf8(s@)) == Some(bytes@),
{
    data_encoding::BASE32_DNSSEC.encode(bytes)
}

/// `data_encoding::BASE32_DNSSEC.decode`.
#[verifier::external_body]
fn base32_dnssec_decode_bytes(input: &[u8]) -> (r: Option<Vec<u8>>)
    ensures
        match r {
            Some(v) => base32_dnssec_decode(input@) == Some(v@),
            None => base32_dnssec_decode(input@) is None,
        },
{
    data_encoding::BASE32_DNSSEC.decode(input).ok()
}

/// `EncodePublicKey::to_public_key_der` of the key with the given bytes
/// (`VerifyingKey::from_bytes`), as bytes. Both calls succeed on a valid key.
#[verifier::external_body]
fn spki_der_of(key: &[u8; 32]) -> (der: Vec<u8>)
    requires
        crate::node::node_id::ed25519_point_valid(key@),
    ensures
        der@ == ed25519_spki_der(key@),
{
    let key = ed25519_dalek::VerifyingKey::from_bytes(key).expect("valid key");
    ed25519_dalek::pkcs8::EncodePublicKey::to_public_key_der(&key).expect("valid key").into_vec()
}

/// The suffix that marks a peer name.
pub open spec fn name_suffix() -> Seq<char> {
    ".upaomo.invalid"@
}

/// The TLS server name of a peer: its key in DNSSEC base32, then `.upaomo.invalid`.
pub open spec fn tls_name(key: Seq<u8>) -> Seq<char> {
    base32_dnssec(key) + name_suffix()
}

/// The key bytes that a server name carries: the name must be three labels,
/// the last two `upaomo` and `invalid`, the first the DNSSEC base32 text of
/// 32 bytes that are a valid Ed25519 public key.
pub open spec fn decode_name(name: Seq<char>) -> Option<Seq<u8>> {
    let pieces = split_by(name, '.');
    if pieces.len() == 3 && pieces[1] == "upaomo"@ && pieces[2] == "invalid"@ {
        match base32_dnssec_decode(vstd::utf8::encode_utf8(pieces[0])) {
            Some(b) => if b.len() == 32 && crate::node::node_id::ed25519_point_valid(b) {
                Some(b)
            } else {
                None
            },
            None => None,
        }
    } else {
        None
    }
}

/// The server name of a peer with key `node_id`. Decoding it gives the key
/// back.
pub fn encode(node_id: PublicKey) -> (name: String)
    ensures
        name@ == tls_name(node_id@),
        node_id.is_valid(),
        decode_name(name@) == Some(node_id@),
{
    let b = base32_dnssec_encode(node_id.as_bytes());
    proof {
        lemma_base32_dnssec_symbols(node_id@);
    }
    let mut name = b.clone();
    push_str(&mut name, ".upaomo.invalid");
    proof {
        lemma_split_peer_name(b@);
    }
    name
}

/// The public key that a server name carries, if it is a peer name.
pub fn decode(name: &str) -> (key: Option<PublicKey>)
    ensures
        match key {
            Some(k) => decode_name(name@) == Some(k@) && k.is_valid(),
            None => decode_name(name@) is None,
        },
{
    let pieces = split_on(name, '.');
    proof {
        reveal_strlit("upaomo");
        reveal_strlit("invalid");
    }
    if pieces.len() != 3 || !str_eq(pieces[1].as_str(), "upaomo") || !str_eq(pieces[2].as_str(), "invalid") {
        return None;
    }
    assert(views(pieces@)[0] == pieces@[0]@);
    let bytes = match base32_dnssec_decode_bytes(pieces[0].as_str().as_bytes()) {
        Some(b) => b,
        None => {
            return None;
        },
    };
    if bytes.len() != 32 {
        return None;
    }
    let mut arr = [0u8; 32];
    let mut i: usize = 0;
    while i < 32
        invariant
            i <= 32,
            bytes@.len() == 32,
            arr@.len() == 32,
            forall|j: int| 0 <= j < i ==> arr@[j] == bytes@[j],
        decreases 32 - i,
    {
        arr[i] = bytes[i];
        i = i + 1;
    }
    assert(arr@ =~= bytes@);
    match PublicKey::from_bytes(&arr) {
        Ok(k) => Some(k),
        Err(_) => None,
    }
}

/// A name made of a label without dots and the peer suffix splits into that
/// label, `upaomo` and `invalid`.
proof fn lemma_split_peer_name(b: Seq<char>)
    requires
        forall|i: int| 0 <= i < b.len() ==> is_base32_dnssec_symbol(#[trigger] b[i]),
    ensures
        split_by(b + name_suffix(), '.') == seq![b, "upaomo"@, "invalid"@],
{
    reveal_strlit(".upaomo.invalid");
    reveal_strlit("upaomo");
    reveal_strlit("invalid");
    let e = Seq::<char>::empty();
    assert forall|i: int| 0 <= i < b.len() implies b[i] != '.' by {
        assert(is_base32_dnssec_symbol(b[i]));
    }
    lemma_split_by_append_plain(e, b, '.');
    assert(e + b =~= b);
    assert(split_by(e, '.') =~= seq![e]);
    let upaomo = "upaomo"@;
    let invalid = "invalid"@;
    lemma_split_by_append_sep(b, '.');
    lemma_split_by_append_plain(b.push('.'), upaomo, '.');
    lemma_split_by_append_sep(b.push('.') + upaomo, '.');
    lemma_split_by_append_plain((b.push('.') + upaomo).push('.'), invalid, '.');
    assert(b + name_suffix() =~= (b.push('.') + upaomo).push('.') + invalid);
    assert(split_by(b + name_suffix(), '.') =~= seq![b, upaomo, invalid]);
}

/// Why a certificate was refused.
#[derive(Clone, Copy, Debug, PartialEq, Eq, Structural)]
pub enum CertRejection {
    /// The server name is not a DNS name.
    UnsupportedNameType,
    /// The server name does not carry a public key.
    NotValidForName,
    /// The certificate has intermediates, or is not the key the name carries.
    UnknownIssuer,
}

/// Checks made on a server certificate.
#[derive(Debug, Default)]
pub struct ServerCertificateVerifier;

impl ServerCertificateVerifier {
    pub fn new() -> std::sync::Arc<ServerCertificateVerifier> {
        std::sync::Arc::new(ServerCertificateVerifier)
    }

    /// The outcome of checking a server certificate: the server name (`None`
    /// when it is not a DNS name) must carry a key, the chain must have no
    /// intermediates, and the end-entity certificate must be that key's
    /// `SubjectPublicKeyInfo`.
    pub fn verify_server_cert(
        &self,
        end_entity: &[u8],
        intermediates_count: usize,
        server_dns_name: Option<&str>,
    ) -> (r: Result<(), CertRejection>)
        ensures
            r == (match server_dns_name {
                None => Err(CertRejection::UnsupportedNameType),
                Some(n) => match decode_name(n@) {
                    None => Err(CertRejection::NotValidForName),
                    Some(k) => if intermediates_count != 0 {
                        Err(CertRejection::UnknownIssuer)
                    } else if ed25519_spki_der(k) != end_entity@ {
                        Err(CertRejection::UnknownIssuer)
                    } else {
                        Ok(())
                    },
                },
            }),
    {
        let dns_name = match server_dns_name {
            Some(n) => n,
            None => {
                return Err(CertRejection::UnsupportedNameType);
            },
        };
        let remote_peer_id = match decode(dns_name) {
            Some(k) => k,
            None => {
                return Err(CertRejection::NotValidForName);
            },
        };
        if intermediates_count != 0 {
            return Err(CertRejection::UnknownIssuer);
        }
        let der = spki_der_of(remote_peer_id.as_bytes());
        if !bytes_eq(der.as_slice(), end_entity) {
            return Err(CertRejection::UnknownIssuer);
        }
        Ok(())
    }
}

/// Checks made on a client certificate.
#[derive(Debug, Default)]
pub struct ClientCertificateVerifier;

impl ClientCertificateVerifier {
    pub fn new() -> std::sync::Arc<ClientCertificateVerifier> {
        std::sync::Arc::new(ClientCertificateVerifier)
    }

    /// A client presents its raw public key: the chain must have no intermediates.
    pub fn verify_client_cert(&self, intermediates_count: usize) -> (r: Result<(), CertRejection>)
        ensures
            r == (if intermediates_count != 0 {
                Err(CertRejection::UnknownIssuer)
            } else {
                Ok(())
            }),
    {
        if intermediates_count != 0 {
            Err(CertRejection::UnknownIssuer)
        } else {
            Ok(())
        }
    }
}

/// Whether two byte strings are equal.
pub fn bytes_eq(a: &[u8], b: &[u8]) -> (r: bool)
    ensures
        r == (a@ == b@),
{
    if a.len() != b.len() {
        return false;
    }
    let mut i: usize = 0;
    while i < a.len()
        invariant
            i <= a@.len(),
            a@.len() == b@.len(),
            forall|j: int| 0 <= j < i ==> a@[j] == b@[j],
        decreases a@.len() - i,
    {
        if a[i] != b[i] {
            return false;
        }
        i = i + 1;
    }
    assert(a@ =~= b@);
    true
}

} // verus!
