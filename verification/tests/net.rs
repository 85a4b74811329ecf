use p2p::net::{
    binding_request, mapped_address, response_bytes_address, StunAction, StunAttribute, StunClass, StunError, StunFailure, StunSearch, PUB_STUN,
    STUN_SOFTWARE, STUN_TRANSACTION_ID,
};
use p2p::node::node_id::NetAddress;
use bytecodec::EncodeExt;
use stun_codec::rfc5389::attributes::{MappedAddress, Software, XorMappedAddress};
use stun_codec::rfc5389::Attribute;
use stun_codec::MessageClass;

const A: NetAddress = NetAddress::V4 { ip: 0x01020304, port: 5000 };
const B: NetAddress = NetAddress::V4 { ip: 0x05060708, port: 6000 };

#[test]
fn stun_servers() {
    assert_eq!(PUB_STUN.len(), 4);
    assert_eq!(PUB_STUN[0], "stun.chat.bilibili.com:3478");
    assert_eq!(PUB_STUN[3], "stun.cdnbye.com:3478");
}

#[test]
fn stun_response_address() {
    let r = Some((StunClass::SuccessResponse, vec![StunAttribute::Other, StunAttribute::MappedAddress(B), StunAttribute::XorMappedAddress(A)]));
    assert_eq!(mapped_address(&r), Ok(A));
    let r = Some((StunClass::SuccessResponse, vec![StunAttribute::MappedAddress(B), StunAttribute::MappedAddress(A)]));
    assert_eq!(mapped_address(&r), Ok(B));
    let r = Some((StunClass::SuccessResponse, vec![StunAttribute::Other]));
    assert_eq!(mapped_address(&r), Err(StunFailure::NoMappedAddress));
    let r = Some((StunClass::ErrorResponse, vec![StunAttribute::XorMappedAddress(A)]));
    assert_eq!(mapped_address(&r), Err(StunFailure::ServerError));
    assert_eq!(mapped_address(&None), Err(StunFailure::NoMappedAddress));
}

fn err(m: &str) -> StunError {
    StunError { message: m.to_string() }
}

#[test]
fn stun_search_tries_servers_in_order() {
    let (mut s, a) = StunSearch::start(3);
    assert!(matches!(a, StunAction::Query(0)));
    assert!(matches!(s.on_answer(Err(err("x"))), StunAction::Query(1)));
    assert!(matches!(s.on_answer(Err(err("y"))), StunAction::Query(2)));
    match s.on_answer(Err(err("z"))) {
        StunAction::Finished(Err(Some(e))) => assert_eq!(e.message, "z"),
        other => panic!("unexpected {other:?}"),
    }
}

#[test]
fn stun_search_stops_at_first_address() {
    let (mut s, _) = StunSearch::start(3);
    assert!(matches!(s.on_answer(Ok(A)), StunAction::Finished(Ok(a)) if a == A));
    let (_, a) = StunSearch::start(0);
    assert!(matches!(a, StunAction::Finished(Err(None))));
}

#[test]
fn stun_answer_of_other_classes_is_a_server_error() {
    let r = Some((StunClass::Request, vec![StunAttribute::MappedAddress(A)]));
    assert_eq!(mapped_address(&r), Err(StunFailure::ServerError));
    let r = Some((StunClass::Indication, vec![StunAttribute::XorMappedAddress(A)]));
    assert_eq!(mapped_address(&r), Err(StunFailure::ServerError));
}

#[test]
fn stun_binding_request_bytes() {
    let b = binding_request().expect("request encodes");
    // header: binding request, length of the attributes, magic cookie, transaction id
    assert_eq!(&b[0..2], &[0x00, 0x01]);
    assert_eq!(&b[2..4], &[0x00, 0x14]);
    assert_eq!(&b[4..8], &[0x21, 0x12, 0xA4, 0x42]);
    assert_eq!(&b[8..20], &STUN_TRANSACTION_ID);
    // SOFTWARE attribute with the description
    assert_eq!(&b[20..24], &[0x80, 0x22, 0x00, 0x10]);
    assert_eq!(&b[24..], STUN_SOFTWARE.as_bytes());
    assert_eq!(b.len(), 40);
}

fn encoded_response(class: MessageClass, attrs: Vec<Attribute>) -> Vec<u8> {
    let mut m = stun_codec::Message::<Attribute>::new(
        class,
        stun_codec::rfc5389::methods::BINDING,
        stun_codec::TransactionId::new([3; 12]),
    );
    for a in attrs {
        m.add_attribute(a);
    }
    stun_codec::MessageEncoder::new().encode_into_bytes(m).unwrap()
}

#[test]
fn stun_response_bytes_give_the_address() {
    let v4 = || "1.2.3.4:5000".parse().unwrap();
    let other = || "5.6.7.8:6000".parse().unwrap();
    let bytes = encoded_response(
        MessageClass::SuccessResponse,
        vec![
            Attribute::Software(Software::new("s".to_string()).unwrap()),
            Attribute::MappedAddress(MappedAddress::new(other())),
            Attribute::XorMappedAddress(XorMappedAddress::new(v4())),
        ],
    );
    assert_eq!(response_bytes_address(&bytes), Some(Ok(A)));
    let bytes = encoded_response(MessageClass::SuccessResponse, vec![Attribute::MappedAddress(MappedAddress::new(other()))]);
    assert_eq!(response_bytes_address(&bytes), Some(Ok(B)));
    let v6 = "[2001:db8::1]:7000".parse().unwrap();
    let bytes = encoded_response(MessageClass::SuccessResponse, vec![Attribute::XorMappedAddress(XorMappedAddress::new(v6))]);
    assert_eq!(
        response_bytes_address(&bytes),
        Some(Ok(NetAddress::V6 { ip: 0x2001_0db8_0000_0000_0000_0000_0000_0001, port: 7000, flowinfo: 0, scope_id: 0 }))
    );
    let bytes = encoded_response(MessageClass::ErrorResponse, vec![Attribute::XorMappedAddress(XorMappedAddress::new(v4()))]);
    assert_eq!(response_bytes_address(&bytes), Some(Err(StunFailure::ServerError)));
    let bytes = encoded_response(MessageClass::SuccessResponse, vec![]);
    assert_eq!(response_bytes_address(&bytes), Some(Err(StunFailure::NoMappedAddress)));
    assert_eq!(response_bytes_address(&[1, 2, 3]), None);
}
