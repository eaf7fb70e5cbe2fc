use uds::{
    Ancillary, AncillaryBuf, AncillaryItem, Credentials, Platform, SendRequest, MSG_CTRUNC,
};

#[derive(Debug, PartialEq)]
enum Found {
    Fds(Vec<i32>),
    Credentials(Credentials),
    Unsupported,
}

fn found(item: AncillaryItem) -> Found {
    match item {
        AncillaryItem::Fds(fds) => Found::Fds(fds.to_vec()),
        AncillaryItem::Credentials(creds) => Found::Credentials(creds),
        AncillaryItem::Unsupported => Found::Unsupported,
    }
}

fn received(platform: &Platform, request: &SendRequest) -> Vec<Found> {
    let control = request.control();
    let mut ancillary = Ancillary::new(platform, control, control.len(), 0);
    let mut found = Vec::new();
    while let Some(item) = ancillary.next() {
        found.push(self::found(item));
    }
    found
}

#[test]
fn descriptors_sent_are_descriptors_received() {
    let platform = Platform::linux();
    for k in 1usize..130 {
        let fds: Vec<i32> = (0..k as i32).map(|fd| fd * 7 - 3).collect();
        let request = SendRequest::new(&platform, 0, 1, &fds, None).unwrap();
        assert_eq!(received(&platform, &request), vec![Found::Fds(fds)]);
    }
}

#[test]
fn nothing_sent_is_nothing_received() {
    let platform = Platform::linux();
    let request = SendRequest::new(&platform, 0, 1, &[], None).unwrap();
    assert_eq!(received(&platform, &request), vec![]);
}

#[test]
fn credentials_sent_are_credentials_received() {
    let platform = Platform::linux();
    let creds = Credentials { pid: 4321, uid: 1000, gid: 100 };
    let request = SendRequest::new(&platform, 0, 1, &[], Some(creds)).unwrap();
    assert_eq!(received(&platform, &request), vec![Found::Credentials(creds)]);
    let request = SendRequest::new(&platform, 0, 1, &[9, 8], Some(creds)).unwrap();
    assert_eq!(
        received(&platform, &request),
        vec![Found::Credentials(creds), Found::Fds(vec![9, 8])]
    );
}

#[test]
fn a_receiver_without_credentials_still_finds_the_descriptors() {
    let creds = Credentials { pid: 4321, uid: 1000, gid: 100 };
    let request = SendRequest::new(&Platform::linux(), 0, 1, &[9, 8], Some(creds)).unwrap();
    let reader = Platform { credentials: false, ..Platform::linux() };
    assert_eq!(
        received(&reader, &request),
        vec![Found::Unsupported, Found::Fds(vec![9, 8])]
    );
}

#[test]
fn a_receiver_with_room_keeps_all_that_was_sent() {
    let platform = Platform::linux();
    for k in 0usize..20 {
        let fds: Vec<i32> = (100..100 + k as i32).collect();
        let request = SendRequest::new(&platform, 0, 1, &fds, None).unwrap();
        for m in k..k + 3 {
            let control = request.control();
            let mut ancillary = Ancillary::new(&platform, control, control.len(), 0);
            let mut fd_buf = vec![-1i32; m];
            let (kept, unwanted) = ancillary.take_fds(&mut fd_buf);
            assert_eq!(kept, k);
            assert_eq!(fd_buf[..k], fds[..]);
            assert!(unwanted.is_empty());
        }
    }
}

#[test]
fn a_receiver_without_room_closes_the_excess() {
    let platform = Platform::linux();
    for k in 1usize..20 {
        let fds: Vec<i32> = (100..100 + k as i32).collect();
        let request = SendRequest::new(&platform, 0, 1, &fds, None).unwrap();
        for m in 0..k {
            let control = request.control();
            let mut ancillary = Ancillary::new(&platform, control, control.len(), 0);
            let mut fd_buf = vec![-1i32; m];
            let (kept, unwanted) = ancillary.take_fds(&mut fd_buf);
            assert_eq!(kept, m);
            assert_eq!(unwanted.len(), k - m);
            assert_eq!(fd_buf[..], fds[..m]);
            assert_eq!(unwanted[..], fds[m..]);
        }
    }
}

#[test]
fn a_buffer_made_for_some_descriptors_holds_just_their_block() {
    let platform = Platform::linux();
    for n in 0usize..100 {
        let fds: Vec<i32> = (0..n as i32).collect();
        let request = SendRequest::new(&platform, 0, 1, &fds, None).unwrap();
        let mut buf = AncillaryBuf::with_fd_capacity(n);
        assert_eq!(buf.capacity(), request.control().len());
        buf.as_mut_slice().copy_from_slice(request.control());
        let mut ancillary = Ancillary::new(&platform, buf.as_slice(), buf.capacity(), 0);
        assert_eq!(ancillary.unclaimed_fds(), fds);
    }
}

#[test]
fn a_control_buffer_cut_short_gives_the_descriptors_that_fit() {
    let platform = Platform::linux();
    let request = SendRequest::new(&platform, 0, 1, &[5, 6, 7, 8], None).unwrap();
    let control = request.control();
    let mut ancillary = Ancillary::new(&platform, control, 24, MSG_CTRUNC);
    assert!(ancillary.ancillary_truncated());
    assert_eq!(ancillary.unclaimed_fds(), vec![5, 6]);
}

#[test]
fn discarding_fresh_items_gives_up_all_that_was_sent() {
    let platform = Platform::linux();
    let creds = Credentials { pid: 1, uid: 2, gid: 3 };
    for k in 0usize..40 {
        let fds: Vec<i32> = (50..50 + k as i32).collect();
        let request = SendRequest::new(&platform, 0, 1, &fds, Some(creds)).unwrap();
        let control = request.control();
        let mut ancillary = Ancillary::new(&platform, control, control.len(), 0);
        assert_eq!(ancillary.unclaimed_fds(), fds);
        assert_eq!(ancillary.next(), None);
    }
}
