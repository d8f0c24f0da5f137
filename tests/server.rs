use palmtop_preimage::error::{FailurePolicy, OracleError, Phase};
use palmtop_preimage::primitives::{Preimage, PreimageKey};
use palmtop_preimage::server::{OracleServer, OracleServerImpl};
use palmtop_preimage::stream::Cursor;

fn lookup(key: PreimageKey) -> Result<Preimage, OracleError> {
    let preimage = vec![1, 2, 3, 4];
    let preimage_key = [1; 32];
    if key == preimage_key {
        Ok(preimage.clone())
    } else {
        Err(OracleError::NotFound)
    }
}

#[test]
fn server_test_length_prefix() {
    let mut wtr = vec![];
    let len = 123;
    let expected = [0, 0, 0, 0, 0, 0, 0, 123];
    OracleServerImpl::<Cursor, Vec<u8>>::write_length_prefix(&mut wtr, len)
        .expect("Should not error");
    assert_eq!(wtr, expected);
}

#[test]
fn test_server() {
    let wtr = vec![];
    let rdr = Cursor::new(vec![1; 32]);
    let mut server = OracleServerImpl::new(rdr, wtr);
    let get_preimage = |key: PreimageKey| -> Result<Preimage, OracleError> {
        let preimage = vec![1, 2, 3, 4];
        let preimage_key = [1; 32];
        if key == preimage_key {
            Ok(preimage.clone())
        } else {
            Err(OracleError::NotFound)
        }
    };
    server
        .next_preimage_request(get_preimage)
        .expect("Should not error");
}

#[test]
fn server_writes_length_then_payload() {
    let mut server = OracleServerImpl::new(Cursor::new(vec![1; 32]), Vec::new());
    server.next_preimage_request(lookup).unwrap();
    assert_eq!(server.writer, vec![0, 0, 0, 0, 0, 0, 0, 4, 1, 2, 3, 4]);
    assert_eq!(server.reader.position(), 32);
}

#[test]
fn server_length_prefix_of_large_values() {
    let mut wtr = vec![];
    OracleServerImpl::<Cursor, Vec<u8>>::write_length_prefix(&mut wtr, 0x0102_0304_0506_0708).unwrap();
    assert_eq!(wtr, [1, 2, 3, 4, 5, 6, 7, 8]);
}

#[test]
fn server_sends_nothing_for_an_unknown_key() {
    let mut server = OracleServerImpl::new(Cursor::new(vec![2; 32]), Vec::new());
    assert_eq!(server.next_preimage_request(lookup), Err(OracleError::NotFound));
    assert!(server.writer.is_empty());
}

#[test]
fn server_answers_empty_for_an_unknown_key_when_told_to() {
    let mut server = OracleServerImpl::new(Cursor::new(vec![2; 32]), Vec::new())
        .with_failure_policy(FailurePolicy::Answer);
    assert_eq!(server.next_preimage_request(lookup), Err(OracleError::NotFound));
    assert_eq!(server.writer, vec![0; 8]);
}

#[test]
fn server_sees_the_end_of_requests() {
    let mut server = OracleServerImpl::new(Cursor::new(vec![]), Vec::new());
    assert_eq!(server.next_preimage_request(lookup), Err(OracleError::EndOfStream));
}

#[test]
fn server_reports_a_truncated_key() {
    let mut server = OracleServerImpl::new(Cursor::new(vec![1; 10]), Vec::new());
    assert_eq!(
        server.next_preimage_request(lookup),
        Err(OracleError::Transport(Phase::Request))
    );
    assert!(server.writer.is_empty());
}

#[test]
fn server_serves_requests_in_order() {
    let mut requests = vec![1u8; 32];
    requests.extend_from_slice(&[1u8; 32]);
    let mut server = OracleServerImpl::new(Cursor::new(requests), Vec::new());
    server.next_preimage_request(lookup).unwrap();
    server.next_preimage_request(lookup).unwrap();
    assert_eq!(server.next_preimage_request(lookup), Err(OracleError::EndOfStream));
    let one = vec![0, 0, 0, 0, 0, 0, 0, 4, 1, 2, 3, 4];
    assert_eq!(server.writer, [one.clone(), one].concat());
}

#[test]
fn server_respond_passes_a_lookup_error_through() {
    let mut server = OracleServerImpl::new(Cursor::new(vec![]), Vec::new());
    assert_eq!(server.respond(Err(OracleError::NotFound)), Err(OracleError::NotFound));
    assert!(server.writer.is_empty());
    assert_eq!(server.respond(Ok(vec![5, 6])), Ok(()));
    assert_eq!(server.writer, vec![0, 0, 0, 0, 0, 0, 0, 2, 5, 6]);
}
