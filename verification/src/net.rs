//! Finding the public address of a node with STUN: which servers to ask, in
//! which order, and what a server's answer means.

use vstd::prelude::*;

use bytecodec::{DecodeExt, EncodeExt};
use stun_codec::net::SocketAddrEncoder;
use stun_codec::rfc5389::attributes::Software;
use stun_codec::rfc5389::{methods, Attribute};
use stun_codec::{Message, MessageClass, MessageDecoder, MessageEncoder, TransactionId};

use crate::node::node_id::NetAddress;

verus! {

/// A network endpoint (no state of its own).
pub struct Endpoint {}

/// The public STUN servers, asked in this order.
pub const PUB_STUN: [&'static str; 4] = [
    "stun.chat.bilibili.com:3478",
    "stun.miwifi.com:3478",
    "stun.hitv.com:3478",
    "stun.cdnbye.com:3478",
];

/// The transaction id of every binding request of the search.
pub const STUN_TRANSACTION_ID: [u8; 12] = [3u8, 3u8, 3u8, 3u8, 3u8, 3u8, 3u8, 3u8, 3u8, 3u8, 3u8, 3u8];

/// The software description that a binding request carries.
pub const STUN_SOFTWARE: &'static str = "rust-stun-client";

/// The bytes of a STUN binding request with the given transaction id and a
/// SOFTWARE attribute with the given description, as `stun_codec` encodes it
/// (`None` where it refuses).
pub uninterp spec fn stun_binding_request(transaction_id: Seq<u8>, software: Seq<char>) -> Option<Seq<u8>>;

/// Builds a STUN binding request (`stun_codec::Message::new` with class
/// `Request` and method `BINDING`), adds a `Software` attribute made by
/// `Software::new`, and encodes it with `MessageEncoder::encode_into_bytes`.
/// Claimed: the bytes are `stun_binding_request` of the two arguments, and
/// there are none when the description has 128 characters or more, which
/// `Software::new` refuses. Not claimed: that encoding succeeds otherwise.
#[verifier::external_body]
fn encode_binding_request(transaction_id: [u8; 12], software: &str) -> (r: Option<Vec<u8>>)
    ensures
        match r {
            Some(b) => stun_binding_request(transaction_id@, software@) == Some(b@),
            None => stun_binding_request(transaction_id@, software@) is None,
        },
        software@.len() >= 128 ==> r is None,
{
    let mut request = Message::<Attribute>::new(MessageClass::Request, methods::BINDING, TransactionId::new(transaction_id));
    let description = Software::new(software.to_string()).ok()?;
    request.add_attribute(Attribute::Software(description));
    MessageEncoder::<Attribute>::new().encode_into_bytes(request).ok()
}

/// The binding request that the search sends to each server: transaction id
/// `STUN_TRANSACTION_ID` and software description `STUN_SOFTWARE`.
pub fn binding_request() -> (r: Option<Vec<u8>>)
    ensures
        match r {
            Some(b) => stun_binding_request(STUN_TRANSACTION_ID@, STUN_SOFTWARE@) == Some(b@),
            None => stun_binding_request(STUN_TRANSACTION_ID@, STUN_SOFTWARE@) is None,
        },
{
    encode_binding_request(STUN_TRANSACTION_ID, STUN_SOFTWARE)
}

/// The class of a STUN message.
#[derive(Debug, Clone, Copy, PartialEq, Eq, Structural)]
pub enum StunClass {
    Request,
    Indication,
    SuccessResponse,
    ErrorResponse,
}

/// An attribute of a STUN response, as far as the address search reads it.
#[derive(Debug, Clone, Copy, PartialEq, Eq, Structural)]
pub enum StunAttribute {
    XorMappedAddress(NetAddress),
    MappedAddress(NetAddress),
    Other,
}

/// Why a STUN server gave no address.
#[derive(Debug, Clone, Copy, PartialEq, Eq, Structural)]
pub enum StunFailure {
    /// The response is not a success response.
    ServerError,
    /// The response could not be decoded or carries no mapped address.
    NoMappedAddress,
}

/// The first XOR-mapped address among the attributes, if any.
pub open spec fn first_xor_mapped(attrs: Seq<StunAttribute>) -> Option<NetAddress>
    decreases attrs.len(),
{
    if attrs.len() == 0 {
        None
    } else {
        match attrs[0] {
            StunAttribute::XorMappedAddress(a) => Some(a),
            _ => first_xor_mapped(attrs.drop_first()),
        }
    }
}

/// The first mapped address among the attributes, if any.
pub open spec fn first_mapped(attrs: Seq<StunAttribute>) -> Option<NetAddress>
    decreases attrs.len(),
{
    if attrs.len() == 0 {
        None
    } else {
        match attrs[0] {
            StunAttribute::MappedAddress(a) => Some(a),
            _ => first_mapped(attrs.drop_first()),
        }
    }
}

/// The address a STUN response gives: for a decoded success response, the
/// first XOR-mapped address, else the first mapped address.
pub open spec fn response_address(response: Option<(StunClass, Seq<StunAttribute>)>) -> Result<NetAddress, StunFailure> {
    match response {
        None => Err(StunFailure::NoMappedAddress),
        Some((class, attrs)) => if class != StunClass::SuccessResponse {
            Err(StunFailure::ServerError)
        } else {
            match first_xor_mapped(attrs) {
                Some(a) => Ok(a),
                None => match first_mapped(attrs) {
                    Some(a) => Ok(a),
                    None => Err(StunFailure::NoMappedAddress),
                },
            }
        },
    }
}

proof fn lemma_first_xor_step(attrs: Seq<StunAttribute>, i: int)
    requires
        0 <= i < attrs.len(),
        forall|j: int| 0 <= j < i ==> !(attrs[j] is XorMappedAddress),
    ensures
        first_xor_mapped(attrs) == first_xor_mapped(attrs.skip(i)),
    decreases i,
{
    if i > 0 {
        lemma_first_xor_step(attrs, i - 1);
        assert(attrs.skip(i - 1).drop_first() =~= attrs.skip(i));
    } else {
        assert(attrs.skip(0) =~= attrs);
    }
}

proof fn lemma_first_mapped_step(attrs: Seq<StunAttribute>, i: int)
    requires
        0 <= i < attrs.len(),
        forall|j: int| 0 <= j < i ==> !(attrs[j] is MappedAddress),
    ensures
        first_mapped(attrs) == first_mapped(attrs.skip(i)),
    decreases i,
{
    if i > 0 {
        lemma_first_mapped_step(attrs, i - 1);
        assert(attrs.skip(i - 1).drop_first() =~= attrs.skip(i));
    } else {
        assert(attrs.skip(0) =~= attrs);
    }
}

proof fn lemma_none_found_xor(attrs: Seq<StunAttribute>)
    requires
        forall|j: int| 0 <= j < attrs.len() ==> !(attrs[j] is XorMappedAddress),
    ensures
        first_xor_mapped(attrs) is None,
    decreases attrs.len(),
{
    if attrs.len() > 0 {
        lemma_none_found_xor(attrs.drop_first());
    }
}

proof fn lemma_none_found_mapped(attrs: Seq<StunAttribute>)
    requires
        forall|j: int| 0 <= j < attrs.len() ==> !(attrs[j] is MappedAddress),
    ensures
        first_mapped(attrs) is None,
    decreases attrs.len(),
{
    if attrs.len() > 0 {
        lemma_none_found_mapped(attrs.drop_first());
    }
}

fn first_address(attrs: &Vec<StunAttribute>) -> (r: Option<NetAddress>)
    ensures
        r == (match first_xor_mapped(attrs@) {
            Some(a) => Some(a),
            None => first_mapped(attrs@),
        }),
{
    let mut i: usize = 0;
    while i < attrs.len()
        invariant
            i <= attrs@.len(),
            forall|j: int| 0 <= j < i ==> !(attrs@[j] is XorMappedAddress),
        decreases attrs@.len() - i,
    {
        if let StunAttribute::XorMappedAddress(a) = attrs[i] {
            proof {
                lemma_first_xor_step(attrs@, i as int);
                assert(attrs@.skip(i as int)[0] == attrs@[i as int]);
            }
            return Some(a);
        }
        i = i + 1;
    }
    proof {
        lemma_none_found_xor(attrs@);
    }
    let mut k: usize = 0;
    while k < attrs.len()
        invariant
            k <= attrs@.len(),
            first_xor_mapped(attrs@) is None,
            forall|j: int| 0 <= j < k ==> !(attrs@[j] is MappedAddress),
        decreases attrs@.len() - k,
    {
        if let StunAttribute::MappedAddress(a) = attrs[k] {
            proof {
                lemma_first_mapped_step(attrs@, k as int);
                assert(attrs@.skip(k as int)[0] == attrs@[k as int]);
                assert(first_mapped(attrs@.skip(k as int)) == Some(a));
            }
            return Some(a);
        }
        k = k + 1;
    }
    proof {
        lemma_none_found_mapped(attrs@);
    }
    None
}

/// The address a STUN response gives. `response` is `None` when the
/// attribute part of the response could not be decoded; otherwise it gives
/// the class of the response and lists its attributes.
pub fn mapped_address(response: &Option<(StunClass, Vec<StunAttribute>)>) -> (r: Result<NetAddress, StunFailure>)
    ensures
        r == response_address(match response {
            Some((c, a)) => Some((*c, a@)),
            None => None,
        }),
{
    match response {
        None => Err(StunFailure::NoMappedAddress),
        Some((class, attrs)) => {
            let success = match class {
                StunClass::SuccessResponse => true,
                _ => false,
            };
            if !success {
                Err(StunFailure::ServerError)
            } else {
                match first_address(attrs) {
                    Some(a) => Ok(a),
                    None => Err(StunFailure::NoMappedAddress),
                }
            }
        },
    }
}

/// An attribute of a decoded STUN message as the address search reads it,
/// with the address `B` of the two address attributes.
#[derive(Debug, Clone, PartialEq, Eq)]
pub enum AddressAttribute<B> {
    XorMappedAddress(B),
    MappedAddress(B),
    Other,
}

/// The view of an attribute whose address is given by its bytes.
pub open spec fn attribute_bytes_view(a: AddressAttribute<Vec<u8>>) -> AddressAttribute<Seq<u8>> {
    match a {
        AddressAttribute::XorMappedAddress(b) => AddressAttribute::XorMappedAddress(b@),
        AddressAttribute::MappedAddress(b) => AddressAttribute::MappedAddress(b@),
        AddressAttribute::Other => AddressAttribute::Other,
    }
}

/// What `stun_codec`'s `MessageDecoder` makes of the bytes of a STUN message:
/// `None` when they are no STUN message, `Some(None)` when its attribute
/// part is broken, else the class and the attributes, each address written
/// in `stun_codec`'s socket address form (see [`address_of_bytes`]).
pub uninterp spec fn stun_decode(bytes: Seq<u8>) -> Option<Option<(StunClass, Seq<AddressAttribute<Seq<u8>>>)>>;

/// Decodes a STUN message with `MessageDecoder::<Attribute>::decode_from_bytes`
/// and converts it one for one: the class to [`StunClass`], the
/// `XorMappedAddress` and `MappedAddress` attributes to their addresses as
/// `stun_codec::net::SocketAddrEncoder` writes them, other attributes to
/// `Other`. Claimed: the result is `stun_decode` of the bytes.
#[verifier::external_body]
fn decode_stun_message(bytes: &[u8]) -> (r: Option<Option<(StunClass, Vec<AddressAttribute<Vec<u8>>>)>>)
    ensures
        match r {
            None => stun_decode(bytes@) is None,
            Some(None) => stun_decode(bytes@) == Some(None::<(StunClass, Seq<AddressAttribute<Seq<u8>>>)>),
            Some(Some((c, a))) => stun_decode(bytes@) == Some(Some((c, a@.map_values(|x| attribute_bytes_view(x))))),
        },
{
    let decoded = MessageDecoder::<Attribute>::new().decode_from_bytes(bytes).ok()?;
    let enc = |a| SocketAddrEncoder::new().encode_into_bytes(a).unwrap_or_default();
    Some(decoded.ok().map(|m| (match m.class() {
        MessageClass::Request => StunClass::Request,
        MessageClass::Indication => StunClass::Indication,
        MessageClass::SuccessResponse => StunClass::SuccessResponse,
        MessageClass::ErrorResponse => StunClass::ErrorResponse,
    }, m.attributes().map(|a| match a {
        Attribute::XorMappedAddress(x) => AddressAttribute::XorMappedAddress(enc(x.address())),
        Attribute::MappedAddress(x) => AddressAttribute::MappedAddress(enc(x.address())),
        _ => AddressAttribute::Other,
    }).collect())))
}

/// The big-endian number that bytes write.
pub open spec fn big_endian(b: Seq<u8>) -> nat
    decreases b.len(),
{
    if b.len() == 0 {
        0
    } else {
        big_endian(b.drop_last()) * 256 + b.last() as nat
    }
}

/// 256 to the power `n`.
pub open spec fn byte_range(n: nat) -> nat
    decreases n,
{
    if n == 0 {
        1
    } else {
        256 * byte_range((n - 1) as nat)
    }
}

proof fn lemma_big_endian_bound(b: Seq<u8>)
    ensures
        big_endian(b) < byte_range(b.len()),
    decreases b.len(),
{
    if b.len() > 0 {
        lemma_big_endian_bound(b.drop_last());
        let x = big_endian(b.drop_last());
        let r = byte_range((b.len() - 1) as nat);
        let l = b.last() as nat;
        assert(x * 256 + l < 256 * r) by (nonlinear_arith)
            requires
                x < r,
                l < 256,
        ;
    }
}

/// The address that bytes in `stun_codec`'s socket address form give: a zero
/// byte, the family (1 for IPv4, 2 for IPv6), the port (big-endian) and the
/// 4 or 16 bytes of the address. IPv6 addresses come with no flow
/// information and no scope, as its decoder makes them; other bytes give none.
pub open spec fn address_of_bytes(b: Seq<u8>) -> Option<NetAddress> {
    if b.len() == 8 && b[0] == 0 && b[1] == 1 {
        Some(NetAddress::V4 { ip: big_endian(b.subrange(4, 8)) as u32, port: big_endian(b.subrange(2, 4)) as u16 })
    } else if b.len() == 20 && b[0] == 0 && b[1] == 2 {
        Some(
            NetAddress::V6 {
                ip: big_endian(b.subrange(4, 20)) as u128,
                port: big_endian(b.subrange(2, 4)) as u16,
                flowinfo: 0,
                scope_id: 0,
            },
        )
    } else {
        None
    }
}

/// The attribute that the address search reads, from one with its address's bytes.
pub open spec fn attribute_of(a: AddressAttribute<Seq<u8>>) -> StunAttribute {
    match a {
        AddressAttribute::XorMappedAddress(b) => match address_of_bytes(b) {
            Some(x) => StunAttribute::XorMappedAddress(x),
            None => StunAttribute::Other,
        },
        AddressAttribute::MappedAddress(b) => match address_of_bytes(b) {
            Some(x) => StunAttribute::MappedAddress(x),
            None => StunAttribute::Other,
        },
        AddressAttribute::Other => StunAttribute::Other,
    }
}

/// A STUN response as the address search reads it, from its bytes.
pub open spec fn stun_response(bytes: Seq<u8>) -> Option<Option<(StunClass, Seq<StunAttribute>)>> {
    match stun_decode(bytes) {
        None => None,
        Some(None) => Some(None),
        Some(Some((c, attrs))) => Some(Some((c, attrs.map_values(|a| attribute_of(a))))),
    }
}

/// The big-endian number of `b[from..to]`, at most 16 bytes.
fn read_big_endian(b: &Vec<u8>, from: usize, to: usize) -> (r: u128)
    requires
        from <= to <= b@.len(),
        to - from <= 16,
    ensures
        r == big_endian(b@.subrange(from as int, to as int)),
{
    let mut r: u128 = 0;
    let mut i: usize = from;
    while i < to
        invariant
            from <= i <= to <= b@.len(),
            to - from <= 16,
            r == big_endian(b@.subrange(from as int, i as int)),
        decreases to - i,
    {
        proof {
            let s = b@.subrange(from as int, i as int + 1);
            assert(s.drop_last() =~= b@.subrange(from as int, i as int));
            lemma_big_endian_bound(s);
            assert(byte_range(16) == 0x1_0000_0000_0000_0000_0000_0000_0000_0000) by {
                reveal_with_fuel(byte_range, 17);
            }
            lemma_byte_range_mono(s.len(), 16);
        }
        r = r * 256 + b[i] as u128;
        i = i + 1;
    }
    r
}

proof fn lemma_byte_range_mono(a: nat, b: nat)
    requires
        a <= b,
    ensures
        byte_range(a) <= byte_range(b),
    decreases b,
{
    if a < b {
        lemma_byte_range_mono(a, (b - 1) as nat);
    }
}

/// The address of bytes in `stun_codec`'s socket address form.
fn address_from_bytes(b: &Vec<u8>) -> (r: Option<NetAddress>)
    ensures
        r == address_of_bytes(b@),
{
    if b.len() == 8 && b[0] == 0 && b[1] == 1 {
        let ip = read_big_endian(b, 4, 8);
        let port = read_big_endian(b, 2, 4);
        proof {
            lemma_big_endian_bound(b@.subrange(4, 8));
            lemma_big_endian_bound(b@.subrange(2, 4));
            assert(byte_range(4) == 0x1_0000_0000) by {
                reveal_with_fuel(byte_range, 5);
            }
            assert(byte_range(2) == 0x1_0000) by {
                reveal_with_fuel(byte_range, 3);
            }
        }
        Some(NetAddress::V4 { ip: ip as u32, port: port as u16 })
    } else if b.len() == 20 && b[0] == 0 && b[1] == 2 {
        let ip = read_big_endian(b, 4, 20);
        let port = read_big_endian(b, 2, 4);
        proof {
            lemma_big_endian_bound(b@.subrange(2, 4));
            assert(byte_range(2) == 0x1_0000) by {
                reveal_with_fuel(byte_range, 3);
            }
        }
        Some(NetAddress::V6 { ip, port: port as u16, flowinfo: 0, scope_id: 0 })
    } else {
        None
    }
}

/// The address that a STUN response, given by its bytes, carries: `None`
/// when the bytes are no STUN message; otherwise what [`mapped_address`]
/// makes of the decoded response.
pub fn response_bytes_address(bytes: &[u8]) -> (r: Option<Result<NetAddress, StunFailure>>)
    ensures
        r == (match stun_response(bytes@) {
            None => None,
            Some(resp) => Some(response_address(resp)),
        }),
{
    match decode_stun_message(bytes) {
        None => None,
        Some(None) => Some(mapped_address(&None)),
        Some(Some((class, attrs))) => {
            let ghost av = attrs@.map_values(|x| attribute_bytes_view(x));
            let mut out: Vec<StunAttribute> = Vec::new();
            let mut i: usize = 0;
            while i < attrs.len()
                invariant
                    i <= attrs@.len(),
                    av == attrs@.map_values(|x| attribute_bytes_view(x)),
                    out@ == av.map_values(|a| attribute_of(a)).take(i as int),
                decreases attrs@.len() - i,
            {
                let a = match &attrs[i] {
                    AddressAttribute::XorMappedAddress(b) => match address_from_bytes(b) {
                        Some(x) => StunAttribute::XorMappedAddress(x),
                        None => StunAttribute::Other,
                    },
                    AddressAttribute::MappedAddress(b) => match address_from_bytes(b) {
                        Some(x) => StunAttribute::MappedAddress(x),
                        None => StunAttribute::Other,
                    },
                    AddressAttribute::Other => StunAttribute::Other,
                };
                proof {
                    assert(av[i as int] == attribute_bytes_view(attrs@[i as int]));
                }
                out.push(a);
                proof {
                    assert(out@ =~= av.map_values(|a| attribute_of(a)).take(i + 1));
                }
                i = i + 1;
            }
            proof {
                assert(av.map_values(|a| attribute_of(a)).take(attrs@.len() as int) =~= av.map_values(|a| attribute_of(a)));
            }
            Some(mapped_address(&Some((class, out))))
        },
    }
}

/// Why the address search failed at one server: its text.
#[derive(Debug, Clone)]
pub struct StunError {
    pub message: String,
}

/// What the search does next.
#[derive(Debug)]
pub enum StunAction {
    /// Ask the server with this index.
    Query(usize),
    /// The search is over: the public address, or the last error (or
    /// `None` when there was no server to ask).
    Finished(Result<NetAddress, Option<StunError>>),
}

/// The search for the public address: servers are asked one after the other
/// until one answers with an address.
#[derive(Debug)]
pub struct StunSearch {
    server_count: usize,
    next: usize,
}

impl StunSearch {
    pub closed spec fn asked(&self) -> usize {
        self.next
    }

    pub closed spec fn servers(&self) -> usize {
        self.server_count
    }

    /// Starts a search over `server_count` servers: the first server is asked,
    /// or the search ends at once without servers.
    pub fn start(server_count: usize) -> (r: (StunSearch, StunAction))
        ensures
            r.0.servers() == server_count,
            r.0.asked() == (if server_count > 0 { 1usize } else { 0usize }),
            server_count > 0 ==> (r.1 matches StunAction::Query(i) && i == 0),
            server_count == 0 ==> r.1 matches StunAction::Finished(Err(None)),
    {
        if server_count == 0 {
            (StunSearch { server_count, next: 0 }, StunAction::Finished(Err(None)))
        } else {
            (StunSearch { server_count, next: 1 }, StunAction::Query(0))
        }
    }

    /// Takes the answer of the server last asked: an address ends the search;
    /// an error moves on to the next server, or ends the search with that
    /// error after the last one.
    pub fn on_answer(&mut self, answer: Result<NetAddress, StunError>) -> (action: StunAction)
        requires
            0 < old(self).asked() <= old(self).servers(),
        ensures
            final(self).servers() == old(self).servers(),
            answer matches Ok(a) ==> (action matches StunAction::Finished(Ok(b)) && b == a),
            answer is Err && old(self).asked() < old(self).servers() ==> (action matches StunAction::Query(i) && i
                == old(self).asked() && final(self).asked() == old(self).asked() + 1),
            answer is Err && old(self).asked() == old(self).servers() ==> (action matches StunAction::Finished(Err(Some(e)))
                && answer == Err::<NetAddress, StunError>(e)),
    {
        match answer {
            Ok(a) => StunAction::Finished(Ok(a)),
            Err(e) => {
                if self.next < self.server_count {
                    let i = self.next;
                    self.next = self.next + 1;
                    StunAction::Query(i)
                } else {
                    StunAction::Finished(Err(Some(e)))
                }
            },
        }
    }
}

} // verus!
