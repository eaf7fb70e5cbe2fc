use uds::{
    encode_into, encoded_capacity, AncillaryBuf, Credentials, InvalidInput, Platform,
    SendRequest, MAX_SEND_FDS, MSG_NOSIGNAL,
};

const FDS_3_4_5: [u8; 32] = [
    28, 0, 0, 0, 0, 0, 0, 0, // length: header and three descriptors
    1, 0, 0, 0, // level
    1, 0, 0, 0, // type: descriptors
    3, 0, 0, 0, 4, 0, 0, 0, 5, 0, 0, 0, // descriptors
    0, 0, 0, 0, // padding
];

const CREDS_1000_1001_1002: [u8; 32] = [
    28, 0, 0, 0, 0, 0, 0, 0, // length: header and one record
    1, 0, 0, 0, // level
    2, 0, 0, 0, // type: credentials
    0xe8, 3, 0, 0, 0xe9, 3, 0, 0, 0xea, 3, 0, 0, // process, user, group
    0, 0, 0, 0, // padding
];

fn creds() -> Credentials {
    Credentials { pid: 1000, uid: 1001, gid: 1002 }
}

#[test]
fn capacity_of_control_data() {
    assert_eq!(encoded_capacity(false, 0), Ok(0));
    assert_eq!(encoded_capacity(true, 0), Ok(32));
    assert_eq!(encoded_capacity(false, 1), Ok(24));
    assert_eq!(encoded_capacity(false, 2), Ok(24));
    assert_eq!(encoded_capacity(false, 3), Ok(32));
    assert_eq!(encoded_capacity(true, 1), Ok(56));
    assert_eq!(encoded_capacity(true, 3), Ok(64));
    assert_eq!(encoded_capacity(false, MAX_SEND_FDS), Ok(0x400_0010));
    assert_eq!(encoded_capacity(true, MAX_SEND_FDS), Ok(0x400_0030));
}

#[test]
fn too_many_descriptors_have_no_capacity() {
    assert_eq!(MAX_SEND_FDS, 0xff_ffff);
    assert_eq!(encoded_capacity(false, MAX_SEND_FDS + 1), Err(InvalidInput::TooManyFds));
    assert_eq!(encoded_capacity(true, MAX_SEND_FDS + 1), Err(InvalidInput::TooManyFds));
    assert_eq!(encoded_capacity(false, usize::MAX), Err(InvalidInput::TooManyFds));
}

#[test]
fn capacity_for_receiving_is_capacity_for_sending() {
    for n in 0usize..300 {
        assert_eq!(encoded_capacity(false, n), Ok(AncillaryBuf::with_fd_capacity(n).capacity()));
    }
    assert_eq!(
        encoded_capacity(false, MAX_SEND_FDS),
        Ok(AncillaryBuf::with_fd_capacity(MAX_SEND_FDS).capacity())
    );
}

#[test]
fn descriptors_are_laid_out_in_one_block() {
    let mut buf = [0xaau8; 32];
    encode_into(&mut buf, None, &[3, 4, 5]);
    assert_eq!(buf, FDS_3_4_5);
}

#[test]
fn a_single_descriptor_is_followed_by_padding() {
    let mut buf = [0xaau8; 24];
    encode_into(&mut buf, None, &[-1]);
    assert_eq!(
        buf,
        [20, 0, 0, 0, 0, 0, 0, 0, 1, 0, 0, 0, 1, 0, 0, 0, 0xff, 0xff, 0xff, 0xff, 0, 0, 0, 0]
    );
}

#[test]
fn two_descriptors_need_no_padding() {
    let mut buf = [0xaau8; 24];
    encode_into(&mut buf, None, &[0x0102_0304, 7]);
    assert_eq!(buf, [24, 0, 0, 0, 0, 0, 0, 0, 1, 0, 0, 0, 1, 0, 0, 0, 4, 3, 2, 1, 7, 0, 0, 0]);
}

#[test]
fn credentials_are_laid_out_in_one_block() {
    let mut buf = [0xaau8; 32];
    encode_into(&mut buf, Some(creds()), &[]);
    assert_eq!(buf, CREDS_1000_1001_1002);
}

#[test]
fn credentials_come_before_descriptors() {
    let mut buf = [0xaau8; 64];
    encode_into(&mut buf, Some(creds()), &[3, 4, 5]);
    assert_eq!(buf[..32], CREDS_1000_1001_1002);
    assert_eq!(buf[32..], FDS_3_4_5);
}

#[test]
fn nothing_to_carry_is_an_empty_buffer() {
    let mut buf = [0u8; 0];
    encode_into(&mut buf, None, &[]);
    let request = SendRequest::new(&Platform::linux(), 0, 1, &[], None).unwrap();
    assert!(request.control().is_empty());
    assert!(request.control_on_stack());
}

#[test]
fn a_request_holds_flags_and_control_data() {
    let request = SendRequest::new(&Platform::linux(), 0x40, 2, &[3, 4, 5], Some(creds())).unwrap();
    assert_eq!(request.flags(), 0x40 | MSG_NOSIGNAL);
    assert_eq!(request.flags(), 0x4040);
    assert_eq!(request.control().len(), 64);
    assert_eq!(request.control()[..32], CREDS_1000_1001_1002);
    assert_eq!(request.control()[32..], FDS_3_4_5);
    assert!(request.control_on_stack());
}

#[test]
fn a_request_without_the_signal_flag() {
    let platform = Platform { nosignal: false, ..Platform::linux() };
    let request = SendRequest::new(&platform, 0x40, 1, &[3, 4, 5], None).unwrap();
    assert_eq!(request.flags(), 0x40);
    assert_eq!(request.control(), FDS_3_4_5);
    let request = SendRequest::new(&Platform::linux(), MSG_NOSIGNAL, 1, &[], None).unwrap();
    assert_eq!(request.flags(), MSG_NOSIGNAL);
}

#[test]
fn credentials_are_not_offered_where_there_are_none() {
    let platform = Platform { credentials: false, ..Platform::linux() };
    let request = SendRequest::new(&platform, 0, 1, &[3, 4, 5], Some(creds())).unwrap();
    assert_eq!(request.control(), FDS_3_4_5);
    let request = SendRequest::new(&platform, 0, 1, &[], Some(creds())).unwrap();
    assert!(request.control().is_empty());
}

#[test]
fn control_data_over_the_stack_capacity_is_allocated() {
    let fds: Vec<i32> = (0..60).collect();
    let request = SendRequest::new(&Platform::linux(), 0, 1, &fds, None).unwrap();
    assert_eq!(request.control().len(), 256);
    assert!(request.control_on_stack());
    let request = SendRequest::new(&Platform::linux(), 0, 1, &fds, Some(creds())).unwrap();
    assert_eq!(request.control().len(), 288);
    assert!(!request.control_on_stack());
    assert_eq!(request.control()[..32], CREDS_1000_1001_1002);
    assert_eq!(request.control()[32..40], [0, 1, 0, 0, 0, 0, 0, 0]);
    assert_eq!(request.control()[284..], [59, 0, 0, 0]);
    let fds: Vec<i32> = (0..61).collect();
    let request = SendRequest::new(&Platform::linux(), 0, 1, &fds, None).unwrap();
    assert_eq!(request.control().len(), 264);
    assert!(!request.control_on_stack());
    assert_eq!(request.control()[256..], [60, 0, 0, 0, 0, 0, 0, 0]);
}

#[test]
fn too_many_slices_are_refused() {
    let platform = Platform { max_slices: 1024, ..Platform::linux() };
    assert!(SendRequest::new(&platform, 0, 1024, &[1], None).is_ok());
    assert_eq!(
        SendRequest::new(&platform, 0, 1025, &[1], None).err(),
        Some(InvalidInput::TooManySlices)
    );
    assert!(SendRequest::new(&Platform::linux(), 0, usize::MAX, &[1], None).is_ok());
}

#[test]
fn too_many_descriptors_are_refused() {
    let fds = vec![0i32; MAX_SEND_FDS + 1];
    assert_eq!(
        SendRequest::new(&Platform::linux(), 0, 1, &fds, None).err(),
        Some(InvalidInput::TooManyFds)
    );
    let request = SendRequest::new(&Platform::linux(), 0, 1, &fds[1..], None).unwrap();
    assert_eq!(request.control().len(), 0x400_0010);
    assert_eq!(request.control()[..8], [0x0c, 0, 0, 4, 0, 0, 0, 0]);
    assert!(!request.control_on_stack());
}

#[test]
fn the_slice_count_is_looked_at_first() {
    let platform = Platform { max_slices: 4, ..Platform::linux() };
    let fds = vec![0i32; MAX_SEND_FDS + 1];
    assert_eq!(
        SendRequest::new(&platform, 0, 5, &fds, None).err(),
        Some(InvalidInput::TooManySlices)
    );
}

#[test]
fn refusals_say_what_was_refused() {
    assert_eq!(InvalidInput::TooManySlices.message(), "too many byte slices");
    assert_eq!(InvalidInput::TooManyFds.message(), "too many file descriptors");
    assert_eq!(InvalidInput::TooManyBuffers.message(), "too many content buffers");
    assert_eq!(InvalidInput::Misaligned.message(), "ancillary buffer is not properly aligned");
    assert_eq!(InvalidInput::TooBig.message(), "ancillary buffer is too big");
}
