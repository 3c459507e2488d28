use firewire_protocols::fireworks::transaction::{
    next_seqnum, requested_response_code, EfwResponseCode, RESPONSE_OFFSET, SEQNUM_LIMIT,
};

#[test]
fn transaction_response_code() {
    let node = Some(0xffc1);
    assert_eq!(
        requested_response_code(node, true, RESPONSE_OFFSET, 0xffc1, true, 24),
        EfwResponseCode::Complete
    );
    assert_eq!(
        requested_response_code(None, true, RESPONSE_OFFSET, 0xffc1, true, 24),
        EfwResponseCode::DataError
    );
    assert_eq!(
        requested_response_code(node, false, RESPONSE_OFFSET, 0xffc1, true, 24),
        EfwResponseCode::TypeError
    );
    assert_eq!(
        requested_response_code(node, true, RESPONSE_OFFSET, 0xffc0, true, 24),
        EfwResponseCode::AddressError
    );
    assert_eq!(
        requested_response_code(node, true, RESPONSE_OFFSET + 4, 0xffc1, true, 24),
        EfwResponseCode::AddressError
    );
    assert_eq!(
        requested_response_code(node, true, RESPONSE_OFFSET, 0xffc1, false, 24),
        EfwResponseCode::DataError
    );
    assert_eq!(
        requested_response_code(node, true, RESPONSE_OFFSET, 0xffc1, true, 23),
        EfwResponseCode::DataError
    );
}

#[test]
fn transaction_seqnum() {
    assert_eq!(next_seqnum(0), 2);
    assert_eq!(next_seqnum(65530), 65532);
    assert_eq!(next_seqnum(65532), 0);
    assert_eq!(next_seqnum(65533), 0);

    let mut seqnum = 0;
    for _ in 0..100000 {
        seqnum = next_seqnum(seqnum);
        assert!(seqnum < SEQNUM_LIMIT);
        assert_eq!(seqnum % 2, 0);
    }
}
