use dns_a::{ares_error, AResults, AresError, Ipv4Addr};

/// Builds a well-formed A-record response: a 12-byte header with one
/// question and one answer record per address, each answer naming the
/// question through a compression pointer.
fn a_response(labels: &[&str], addrs: &[[u8; 4]]) -> Vec<u8> {
    let mut b: Vec<u8> = vec![0x12, 0x34, 0x81, 0x80];
    b.extend_from_slice(&[0x00, 0x01]);
    b.extend_from_slice(&(addrs.len() as u16).to_be_bytes());
    b.extend_from_slice(&[0x00, 0x00, 0x00, 0x00]);
    for l in labels {
        b.push(l.len() as u8);
        b.extend_from_slice(l.as_bytes());
    }
    b.push(0);
    b.extend_from_slice(&[0x00, 0x01, 0x00, 0x01]);
    for a in addrs {
        b.extend_from_slice(&[0xC0, 0x0C]);
        b.extend_from_slice(&[0x00, 0x01, 0x00, 0x01]);
        b.extend_from_slice(&[0x00, 0x00, 0x00, 0x3C]);
        b.extend_from_slice(&[0x00, 0x04]);
        b.extend_from_slice(a);
    }
    b
}

fn example_com_two_addrs() -> Vec<u8> {
    a_response(&["example", "com"], &[[10, 0, 0, 1], [10, 0, 0, 2]])
}

#[test]
fn parses_hostname_and_addresses_in_order() {
    let buf = example_com_two_addrs();
    let results = AResults::parse_from(&buf).unwrap();
    assert_eq!(results.hostname(), "example.com");
    let addrs = results.iter().collect_remaining();
    assert_eq!(
        addrs,
        vec![Ipv4Addr::new(10, 0, 0, 1), Ipv4Addr::new(10, 0, 0, 2)]
    );
}

#[test]
fn iter_twice_yields_identical_sequences() {
    let buf = example_com_two_addrs();
    let results = AResults::parse_from(&buf).unwrap();
    let first = results.iter().collect_remaining();
    let second = results.iter().collect_remaining();
    assert_eq!(first, second);
    assert_eq!(first.len(), 2);
    assert_eq!(results.hostname(), "example.com");
}

#[test]
fn into_iter_yields_same_sequence_as_iter() {
    let buf = example_com_two_addrs();
    let borrowed = AResults::parse_from(&buf).unwrap().iter().collect_remaining();
    let owning = AResults::parse_from(&buf).unwrap();
    let mut it = owning.into_iter();
    let mut collected: Vec<Ipv4Addr> = Vec::new();
    while let Some(a) = it.next() {
        assert_eq!(it.hostname(), "example.com");
        collected.push(a);
    }
    assert_eq!(collected, borrowed);
    assert!(it.next().is_none());
}

#[test]
fn zero_addresses_is_empty_iteration_not_error() {
    let buf = a_response(&["example", "com"], &[]);
    let results = AResults::parse_from(&buf).unwrap();
    assert_eq!(results.hostname(), "example.com");
    let mut it = results.iter();
    assert!(it.next().is_none());
    assert!(it.next().is_none());
    assert_eq!(results.iter().collect_remaining(), Vec::new());
}

#[test]
fn empty_buffer_is_bad_resp() {
    assert_eq!(AResults::parse_from(&[]).unwrap_err(), AresError::EBADRESP);
}

#[test]
fn truncated_header_is_bad_resp() {
    let buf = example_com_two_addrs();
    assert_eq!(
        AResults::parse_from(&buf[..11]).unwrap_err(),
        AresError::EBADRESP
    );
}

#[test]
fn wrong_question_count_is_bad_resp() {
    let mut buf = example_com_two_addrs();
    buf[5] = 2;
    assert_eq!(AResults::parse_from(&buf).unwrap_err(), AresError::EBADRESP);
}

#[test]
fn truncated_question_is_bad_name() {
    let buf = example_com_two_addrs();
    // Cut inside the first label of the question name.
    assert_eq!(
        AResults::parse_from(&buf[..15]).unwrap_err(),
        AresError::EBADNAME
    );
}

#[test]
fn reserved_label_tag_is_bad_name() {
    let mut buf = example_com_two_addrs();
    buf[12] = 0x40;
    assert_eq!(AResults::parse_from(&buf).unwrap_err(), AresError::EBADNAME);
}

#[test]
fn pointer_loop_is_bad_name() {
    let mut buf = example_com_two_addrs();
    // The first answer's name points at itself instead of the question.
    let p = 12 + 13 + 4;
    buf[p] = 0xC0;
    buf[p + 1] = p as u8;
    assert_eq!(AResults::parse_from(&buf).unwrap_err(), AresError::EBADNAME);
}

#[test]
fn truncated_answer_is_bad_resp() {
    let buf = example_com_two_addrs();
    let cut = buf.len() - 2;
    assert_eq!(
        AResults::parse_from(&buf[..cut]).unwrap_err(),
        AresError::EBADRESP
    );
}

#[test]
fn non_a_records_are_skipped() {
    let mut buf = a_response(&["example", "com"], &[[1, 2, 3, 4], [5, 6, 7, 8]]);
    // Turn the first answer into a CNAME-typed record; only the second
    // answer remains an A record.
    let first_type = 12 + 13 + 4 + 2 + 1;
    buf[first_type] = 5;
    let results = AResults::parse_from(&buf).unwrap();
    let addrs = results.iter().collect_remaining();
    assert_eq!(addrs, vec![Ipv4Addr::new(5, 6, 7, 8)]);
}

#[test]
fn non_internet_class_records_are_skipped() {
    let mut buf = a_response(&["example", "com"], &[[1, 2, 3, 4], [5, 6, 7, 8]]);
    let second_class = 12 + 13 + 4 + 16 + 2 + 2 + 1;
    buf[second_class] = 3;
    let results = AResults::parse_from(&buf).unwrap();
    let addrs = results.iter().collect_remaining();
    assert_eq!(addrs, vec![Ipv4Addr::new(1, 2, 3, 4)]);
}

#[test]
fn uncompressed_answer_names_are_accepted() {
    let mut b: Vec<u8> = vec![0, 0, 0x81, 0x80, 0, 1, 0, 1, 0, 0, 0, 0];
    b.extend_from_slice(&[2, b'h', b'i', 0]);
    b.extend_from_slice(&[0, 1, 0, 1]);
    b.extend_from_slice(&[2, b'h', b'i', 0]);
    b.extend_from_slice(&[0, 1, 0, 1, 0, 0, 0, 9, 0, 4, 192, 168, 0, 7]);
    let results = AResults::parse_from(&b).unwrap();
    assert_eq!(results.hostname(), "hi");
    assert_eq!(
        results.iter().collect_remaining(),
        vec![Ipv4Addr::new(192, 168, 0, 7)]
    );
}

#[test]
fn root_question_name_is_empty_hostname() {
    let mut b: Vec<u8> = vec![0, 0, 0, 0, 0, 1, 0, 0, 0, 0, 0, 0];
    b.push(0);
    b.extend_from_slice(&[0, 1, 0, 1]);
    let results = AResults::parse_from(&b).unwrap();
    assert_eq!(results.hostname(), "");
}

#[test]
fn octets_round_trip() {
    let a = Ipv4Addr::new(10, 0, 0, 1);
    assert_eq!(a.octets(), (10, 0, 0, 1));
}

#[test]
fn status_codes_map_to_their_variants() {
    assert_eq!(ares_error(1), AresError::ENODATA);
    assert_eq!(ares_error(2), AresError::EFORMERR);
    assert_eq!(ares_error(3), AresError::ESERVFAIL);
    assert_eq!(ares_error(4), AresError::ENOTFOUND);
    assert_eq!(ares_error(8), AresError::EBADNAME);
    assert_eq!(ares_error(10), AresError::EBADRESP);
    assert_eq!(ares_error(12), AresError::ETIMEOUT);
    assert_eq!(ares_error(15), AresError::ENOMEM);
    assert_eq!(ares_error(24), AresError::ECANCELLED);
    assert_eq!(ares_error(0), AresError::EUNKNOWN);
    assert_eq!(ares_error(99), AresError::EUNKNOWN);
    assert_eq!(ares_error(-1), AresError::EUNKNOWN);
}

#[test]
fn longest_legal_label_is_accepted() {
    let label = "a".repeat(63);
    let buf = a_response(&[&label, "net"], &[[9, 9, 9, 9]]);
    let results = AResults::parse_from(&buf).unwrap();
    assert_eq!(results.hostname(), format!("{}.net", label));
    assert_eq!(
        results.iter().collect_remaining(),
        vec![Ipv4Addr::new(9, 9, 9, 9)]
    );
}

#[test]
fn a_record_with_wrong_rdlength_is_skipped() {
    let mut buf = example_com_two_addrs();
    // Shrink the second answer's RDLENGTH: no longer a 4-byte address.
    let second_rdlen = 12 + 13 + 4 + 16 + 11;
    buf[second_rdlen] = 2;
    let results = AResults::parse_from(&buf).unwrap();
    assert_eq!(
        results.iter().collect_remaining(),
        vec![Ipv4Addr::new(10, 0, 0, 1)]
    );
}

#[test]
fn two_hop_compression_is_accepted() {
    let mut buf = example_com_two_addrs();
    // The second answer's name points at the first answer's name, which is
    // itself a pointer to the question name.
    let second_name = 12 + 13 + 4 + 16;
    buf[second_name + 1] = (12 + 13 + 4) as u8;
    let results = AResults::parse_from(&buf).unwrap();
    assert_eq!(results.hostname(), "example.com");
    assert_eq!(
        results.iter().collect_remaining(),
        vec![Ipv4Addr::new(10, 0, 0, 1), Ipv4Addr::new(10, 0, 0, 2)]
    );
}
