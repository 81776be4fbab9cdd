use stable_ipv6::record::{
    accept, find_address, record_candidate, AddrRecord, Attribute, AF_INET6, IFA_ADDRESS,
    IFA_F_SECONDARY, IFA_F_TEMPORARY,
};
use stable_ipv6::request::{build_dump_request, NLM_F_DUMP, NLM_F_REQUEST, RTM_GETADDR};
use stable_ipv6::stream::{
    decode_envelope, select_address, step, Body, Envelope, Event, Reply, Step, NLMSG_DONE,
    NLMSG_ERROR, RTM_NEWADDR,
};

const DOC_1: [u8; 16] = [0x20, 0x01, 0x0d, 0xb8, 0, 0, 0, 0, 0, 0, 0, 0, 0, 0, 0, 1];
const DOC_2: [u8; 16] = [0x20, 0x01, 0x0d, 0xb8, 0, 0, 0, 0, 0, 0, 0, 0, 0, 0, 0, 2];
const LOCAL_LABEL: u16 = 3;

fn addr_attr(bytes: &[u8]) -> Attribute {
    Attribute { kind: IFA_ADDRESS, payload: bytes.to_vec() }
}

fn record(family: u8, prefix_len: u8, flags: u8, scope: u8, attrs: Vec<Attribute>) -> AddrRecord {
    AddrRecord { family, prefix_len, flags, scope, index: 2, attrs }
}

fn stable(addr: [u8; 16]) -> AddrRecord {
    record(AF_INET6, 64, 0, 0, vec![addr_attr(&addr)])
}

fn data(r: AddrRecord) -> Event {
    Event::Received(Reply { nl_type: RTM_NEWADDR, body: Body::Record(r) })
}

fn done() -> Event {
    Event::Received(Reply { nl_type: NLMSG_DONE, body: Body::Empty })
}

#[test]
fn accepts_stable_global_record() {
    assert!(accept(&stable(DOC_1)));
}

#[test]
fn rejects_other_family() {
    assert!(!accept(&record(2, 64, 0, 0, vec![addr_attr(&DOC_1)])));
    assert!(!accept(&record(0, 64, 0, 0, vec![])));
}

#[test]
fn rejects_other_prefix_length() {
    for len in [0u8, 48, 63, 65, 128] {
        assert!(!accept(&record(AF_INET6, len, 0, 0, vec![addr_attr(&DOC_1)])));
    }
}

#[test]
fn rejects_non_global_scope() {
    for scope in [200u8, 253, 254, 255, 1] {
        assert!(!accept(&record(AF_INET6, 64, 0, scope, vec![addr_attr(&DOC_1)])));
    }
}

#[test]
fn rejects_secondary_and_temporary_flags() {
    assert_eq!(IFA_F_SECONDARY, 0x01);
    assert_eq!(IFA_F_TEMPORARY, 0x01);
    assert!(!accept(&record(AF_INET6, 64, 0x01, 0, vec![addr_attr(&DOC_1)])));
    assert!(!accept(&record(AF_INET6, 64, 0x81, 0, vec![addr_attr(&DOC_1)])));
    assert!(accept(&record(AF_INET6, 64, 0x80, 0, vec![addr_attr(&DOC_1)])));
}

#[test]
fn other_flag_bits_do_not_reject() {
    // 0x02 is the no-duplicate-detection bit, 0x80 the permanent bit.
    assert!(accept(&record(AF_INET6, 64, 0x02, 0, vec![addr_attr(&DOC_1)])));
    assert!(accept(&record(AF_INET6, 64, 0x82, 0, vec![addr_attr(&DOC_1)])));
    let evs = vec![data(record(AF_INET6, 64, 0x02, 0, vec![addr_attr(&DOC_1)])), done()];
    assert_eq!(select_address(evs), Some(DOC_1));
}

#[test]
fn accepted_record_yields_its_address() {
    assert_eq!(record_candidate(&stable(DOC_1)), Some(DOC_1));
}

#[test]
fn rejected_record_yields_nothing() {
    let r = record(AF_INET6, 64, 0, 253, vec![addr_attr(&DOC_1)]);
    assert_eq!(record_candidate(&r), None);
}

#[test]
fn short_address_payload_is_skipped_for_later_one() {
    let attrs = vec![
        Attribute { kind: LOCAL_LABEL, payload: DOC_2.to_vec() },
        addr_attr(&DOC_2[..4]),
        addr_attr(&DOC_1),
        addr_attr(&DOC_2),
    ];
    assert_eq!(find_address(&attrs), Some(DOC_1));
}

#[test]
fn record_with_only_malformed_address_yields_nothing() {
    let mut long = DOC_1.to_vec();
    long.push(0);
    let r = record(AF_INET6, 64, 0, 0, vec![addr_attr(&DOC_1[..15]), addr_attr(&long)]);
    assert_eq!(record_candidate(&r), None);
    assert_eq!(find_address(&vec![]), None);
}

#[test]
fn dump_request_fields() {
    let req = build_dump_request();
    assert_eq!(req.msg_type, RTM_GETADDR);
    assert_eq!(req.msg_type, 22);
    assert_eq!(req.nl_flags, NLM_F_REQUEST | NLM_F_DUMP);
    assert_eq!(req.nl_flags, 0x301);
    assert_eq!(req.family, 10);
    assert_eq!((req.prefix_len, req.flags, req.scope, req.index), (0, 0, 0, 0));
}

#[test]
fn envelope_classification() {
    let d = decode_envelope(Reply { nl_type: NLMSG_DONE, body: Body::Empty });
    assert!(matches!(d, Envelope::Done));
    let e = decode_envelope(Reply { nl_type: NLMSG_ERROR, body: Body::Empty });
    assert!(matches!(e, Envelope::KernelError));
    let k = decode_envelope(Reply { nl_type: RTM_NEWADDR, body: Body::KernelError });
    assert!(matches!(k, Envelope::KernelError));
    let r = decode_envelope(Reply { nl_type: RTM_NEWADDR, body: Body::Record(stable(DOC_1)) });
    assert!(matches!(r, Envelope::Data(rec) if rec.prefix_len == 64));
    let u = decode_envelope(Reply { nl_type: 21, body: Body::Record(stable(DOC_1)) });
    assert!(matches!(u, Envelope::Unknown));
    let n = decode_envelope(Reply { nl_type: RTM_NEWADDR, body: Body::Empty });
    assert!(matches!(n, Envelope::Unknown));
}

#[test]
fn first_accepted_match_wins() {
    let r1 = record(AF_INET6, 64, 0, 253, vec![addr_attr(&DOC_2)]);
    let evs = vec![data(r1), data(stable(DOC_1)), data(stable(DOC_2)), done()];
    assert_eq!(select_address(evs), Some(DOC_1));
}

#[test]
fn unknown_replies_are_passed_over() {
    let other = Event::Received(Reply { nl_type: 16, body: Body::Empty });
    let evs = vec![other, data(stable(DOC_2)), done()];
    assert_eq!(select_address(evs), Some(DOC_2));
}

#[test]
fn only_rejected_records_yield_none() {
    let evs = vec![
        data(record(2, 24, 0, 0, vec![addr_attr(&DOC_1[..4])])),
        data(record(AF_INET6, 64, 0x01, 0, vec![addr_attr(&DOC_1)])),
        data(record(AF_INET6, 128, 0, 0, vec![addr_attr(&DOC_1)])),
        done(),
        data(stable(DOC_2)),
    ];
    assert_eq!(select_address(evs), None);
}

#[test]
fn empty_dump_yields_none() {
    assert_eq!(select_address(vec![done()]), None);
    assert_eq!(select_address(vec![]), None);
}

#[test]
fn transport_failure_yields_none() {
    assert!(matches!(step(Event::TransportFailed), Step::Finish(None)));
    let evs = vec![Event::TransportFailed, data(stable(DOC_1))];
    assert_eq!(select_address(evs), None);
    let r1 = record(AF_INET6, 64, 0, 253, vec![addr_attr(&DOC_2)]);
    let evs = vec![data(r1), Event::TransportFailed, data(stable(DOC_1))];
    assert_eq!(select_address(evs), None);
}

#[test]
fn kernel_error_ends_query() {
    let err = Event::Received(Reply { nl_type: NLMSG_ERROR, body: Body::KernelError });
    assert_eq!(select_address(vec![err, data(stable(DOC_1))]), None);
}

#[test]
fn stream_end_without_done_yields_none() {
    assert!(matches!(step(Event::StreamEnded), Step::Finish(None)));
    assert_eq!(select_address(vec![Event::StreamEnded, data(stable(DOC_1))]), None);
}

#[test]
fn step_continues_past_rejected_and_finishes_on_match() {
    let r1 = record(AF_INET6, 64, 0x01, 0, vec![addr_attr(&DOC_1)]);
    assert!(matches!(step(data(r1)), Step::Continue));
    assert!(matches!(step(data(stable(DOC_2))), Step::Finish(Some(a)) if a == DOC_2));
    assert!(matches!(step(done()), Step::Finish(None)));
}
