use byteorder::{BigEndian, WriteBytesExt};
use palmtop_preimage::client::{OracleClient, OracleClientImpl};
use palmtop_preimage::error::{OracleError, Phase};
use palmtop_preimage::stream::Cursor;
use std::io::Write;

#[test]
fn client_test_length_prefix() {
    let mut wtr = vec![];
    let len = 123;
    wtr.write_u64::<BigEndian>(len as u64).unwrap();
    assert_eq!(wtr, [0, 0, 0, 0, 0, 0, 0, 123]);

    let mut client = OracleClientImpl::<Cursor, Cursor>::new(Cursor::new(wtr), Cursor::new(vec![]));
    let length = client.read_length_prefix().unwrap();
    assert_eq!(length, 123);
}

#[test]
fn test_client() {
    let mut wtr = vec![];
    let rdr_ref = vec![];
    let rdr = Cursor::new(rdr_ref);
    let preimage_key = [1; 32];
    let preimage = vec![1, 2, 3, 4];
    wtr.write_u64::<BigEndian>(preimage.len() as u64).unwrap();
    wtr.write_all(&preimage).unwrap();
    let mut client = OracleClientImpl::<Cursor, Cursor>::new(Cursor::new(wtr), rdr);
    let fetched = client.get(preimage_key).expect("Should not error");
    assert_eq!(fetched, preimage);
    assert_eq!(client.writer.position(), 32);
    assert_eq!(client.reader.position(), 12);
}

#[test]
fn client_sends_the_key_as_raw_bytes() {
    let key = [7u8; 32];
    let response = vec![0, 0, 0, 0, 0, 0, 0, 0];
    let mut client = OracleClientImpl::new(Cursor::new(response), Vec::new());
    let fetched = client.get(key).unwrap();
    assert!(fetched.is_empty());
    assert_eq!(client.writer, key.to_vec());
}

#[test]
fn client_round_trips_payloads_of_several_lengths() {
    for len in [0usize, 1, 7, 8, 255, 256, 1000] {
        let payload: Vec<u8> = (0..len).map(|i| (i * 31 % 251) as u8).collect();
        let mut wire = Vec::new();
        wire.write_u64::<BigEndian>(len as u64).unwrap();
        wire.extend_from_slice(&payload);
        wire.extend_from_slice(&[9, 9, 9]);
        let mut client = OracleClientImpl::new(Cursor::new(wire), Vec::new());
        assert_eq!(client.get([3; 32]).unwrap(), payload);
        assert_eq!(client.reader.position(), 8 + len);
    }
}

#[test]
fn client_reports_a_short_length_prefix() {
    let mut client = OracleClientImpl::new(Cursor::new(vec![0, 0, 0]), Vec::new());
    assert_eq!(client.get([1; 32]), Err(OracleError::Transport(Phase::LengthPrefix)));
}

#[test]
fn client_reports_a_short_payload() {
    let mut client = OracleClientImpl::new(Cursor::new(vec![0, 0, 0, 0, 0, 0, 0, 5, 1, 2]), Vec::new());
    assert_eq!(client.get([1; 32]), Err(OracleError::Transport(Phase::Payload)));
}

#[test]
fn client_reports_an_empty_stream_instead_of_hanging() {
    let mut client = OracleClientImpl::new(Cursor::new(vec![]), Vec::new());
    assert_eq!(client.get([2; 32]), Err(OracleError::Transport(Phase::LengthPrefix)));
}
