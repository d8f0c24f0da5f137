use palmtop_preimage::client::{OracleClient, OracleClientImpl};
use palmtop_preimage::error::{OracleError, Phase};
use palmtop_preimage::loopback::exchange_in_memory;
use palmtop_preimage::primitives::{Preimage, PreimageKey};
use palmtop_preimage::server::{OracleServer, OracleServerImpl};
use palmtop_preimage::stream::Cursor;

fn only_ones(key: PreimageKey) -> Result<Preimage, OracleError> {
    if key == [1; 32] {
        Ok(vec![1, 2, 3, 4])
    } else {
        Err(OracleError::NotFound)
    }
}

#[test]
fn exchange_returns_the_getter_payload() {
    assert_eq!(exchange_in_memory([1; 32], only_ones), Ok(vec![1, 2, 3, 4]));
}

#[test]
fn exchange_passes_the_lookup_error() {
    assert_eq!(exchange_in_memory([2; 32], only_ones), Err(OracleError::NotFound));
}

#[test]
fn exchange_carries_large_and_empty_payloads() {
    let big = |k: PreimageKey| -> Result<Preimage, OracleError> { Ok(vec![k[0]; 70_000]) };
    assert_eq!(exchange_in_memory([5; 32], big), Ok(vec![5; 70_000]));
    let empty = |_k: PreimageKey| -> Result<Preimage, OracleError> { Ok(Vec::new()) };
    assert_eq!(exchange_in_memory([5; 32], empty), Ok(Vec::new()));
}

#[test]
fn exchange_twice_gives_the_same_payload() {
    let hashlike = |k: PreimageKey| -> Result<Preimage, OracleError> {
        Ok(k.iter().map(|b| b.wrapping_mul(3)).collect())
    };
    let key = [9; 32];
    let first = exchange_in_memory(key, hashlike);
    let second = exchange_in_memory(key, hashlike);
    assert_eq!(first, second);
    assert_eq!(first, Ok(vec![27; 32]));
}

#[test]
fn request_then_response_leaves_no_extra_bytes() {
    let key = [1u8; 32];
    let mut first = OracleClientImpl::new(Cursor::new(vec![]), Vec::new());
    assert_eq!(first.get(key), Err(OracleError::Transport(Phase::LengthPrefix)));
    let request = first.writer;
    assert_eq!(request, vec![1; 32]);

    let mut server = OracleServerImpl::new(Cursor::new(request), Vec::new());
    server.next_preimage_request(only_ones).unwrap();
    let response = server.writer;
    assert_eq!(&response[..8], &[0, 0, 0, 0, 0, 0, 0, 4]);

    let len = response.len();
    let mut client = OracleClientImpl::new(Cursor::new(response), Vec::new());
    let length = client.read_length_prefix().unwrap();
    assert_eq!(length, 4);
    let mut again = OracleClientImpl::new(Cursor::new(client.reader.into_inner()), Vec::new());
    assert_eq!(again.get(key), Ok(vec![1, 2, 3, 4]));
    assert_eq!(again.reader.position(), len);
}

#[test]
fn unknown_key_fails_without_garbage() {
    let mut server = OracleServerImpl::new(Cursor::new(vec![2; 32]), Vec::new());
    assert_eq!(server.next_preimage_request(only_ones), Err(OracleError::NotFound));
    let mut client = OracleClientImpl::new(Cursor::new(server.writer), Vec::new());
    assert_eq!(client.get([2; 32]), Err(OracleError::Transport(Phase::LengthPrefix)));
}
