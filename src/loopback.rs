//! Exchanges over in-memory buffers, where a client and a server share no process
//! boundary: what one writes is what the other reads.

use vstd::prelude::*;
use crate::client::{OracleClient, OracleClientImpl};
use crate::error::OracleError;
use crate::primitives::{Preimage, PreimageKey};
use crate::server::{OracleServer, OracleServerImpl};
use crate::stream::{ByteSink, ByteSource, Cursor};
use crate::wire::{lemma_preimage_response_round_trip, lemma_u64_be_round_trip, preimage_response, u64_from_be};

verus! {

/// Two lookup results agree: the same bytes, or the same error.
pub open spec fn same_answer(a: Result<Preimage, OracleError>, b: Result<Preimage, OracleError>) -> bool {
    match (a, b) {
        (Ok(p), Ok(q)) => p@ == q@,
        (Err(e), Err(f)) => e == f,
        _ => false,
    }
}

/// A getter whose answer depends on the key alone.
pub open spec fn is_pure_getter<G: Fn(PreimageKey) -> Result<Preimage, OracleError>>(g: G) -> bool {
    forall|k: PreimageKey, a: Result<Preimage, OracleError>, b: Result<Preimage, OracleError>|
        #![trigger g.ensures((k,), a), g.ensures((k,), b)]
        g.ensures((k,), a) && g.ensures((k,), b) ==> same_answer(a, b)
}

/// `r` is what an exchange for `key` can give against `g`: the answer of one call of `g`
/// on `key`, carried to the client unchanged.
pub open spec fn exchanged<G: Fn(PreimageKey) -> Result<Preimage, OracleError>>(
    g: G,
    key: PreimageKey,
    r: Result<Preimage, OracleError>,
) -> bool {
    exists|lookup: Result<Preimage, OracleError>|
        #[trigger] g.ensures((key,), lookup) && same_answer(lookup, r)
}

/// Runs one preimage exchange for `key` over in-memory buffers: the key goes to a server
/// that answers it with `get_preimage`, and the server's response goes to a client that
/// requested `key`. An error of the getter comes back as it is.
pub fn exchange_in_memory<G>(key: PreimageKey, get_preimage: G) -> (r: Result<Preimage, OracleError>)
    where
        G: Fn(PreimageKey) -> Result<Preimage, OracleError>,
    requires
        forall|k: PreimageKey| get_preimage.requires((k,)),
    ensures
        exchanged(get_preimage, key, r),
{
    let mut request: Vec<u8> = Vec::new();
    let _ = request.write_all(key.as_slice());
    let mut server = OracleServerImpl::new(Cursor::new(request), Vec::new());
    let ghost g = get_preimage;
    let served = server.next_preimage_request(get_preimage);
    let ghost (k, lookup) = choose|k: PreimageKey, lookup: Result<Preimage, OracleError>|
        #[trigger] g.ensures((k,), lookup) && {
            &&& k@ == key@.take(32)
            &&& match lookup {
                Ok(p) => served is Ok && p@.len() <= usize::MAX && server.writer@ == Seq::<u8>::empty() + preimage_response(p@),
                Err(e) => served == Err::<(), OracleError>(e),
            }
        };
    proof {
        assert(key@.take(32) =~= key@);
        assert(k =~= key);
    }
    if let Err(e) = served {
        proof {
            assert(same_answer(lookup, Err::<Preimage, OracleError>(e)));
        }
        return Err(e);
    }
    let ghost p = lookup->Ok_0;
    let response = server.writer;
    let mut client = OracleClientImpl::new(Cursor::new(response), Vec::new());
    proof {
        assert(client.reader.pending() =~= preimage_response(p@) + Seq::<u8>::empty());
        lemma_preimage_response_round_trip(p@, Seq::<u8>::empty());
        lemma_u64_be_round_trip(p@.len() as u64);
        assert(u64_from_be(client.reader.pending()) == p@.len());
    }
    let r = client.get(key);
    proof {
        assert(r is Ok);
        assert(same_answer(lookup, r));
    }
    r
}

/// Two exchanges for the same key against a getter whose answer depends on the key alone
/// give the same result.
pub proof fn lemma_repeated_exchange_agrees<G: Fn(PreimageKey) -> Result<Preimage, OracleError>>(
    g: G,
    key: PreimageKey,
    first: Result<Preimage, OracleError>,
    second: Result<Preimage, OracleError>,
)
    requires
        is_pure_getter(g),
        exchanged(g, key, first),
        exchanged(g, key, second),
    ensures
        same_answer(first, second),
{
    let a = choose|a: Result<Preimage, OracleError>| #[trigger] g.ensures((key,), a) && same_answer(a, first);
    let b = choose|b: Result<Preimage, OracleError>| #[trigger] g.ensures((key,), b) && same_answer(b, second);
    assert(same_answer(a, b));
}

} // verus!
