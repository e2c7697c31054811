//! Connection IDs that the endpoints choose: the server derives its own from
//! the client's, the client draws its own at random.
use ring::hmac;
use ring::rand::{SecureRandom, SystemRandom};
use vstd::prelude::*;
use vstd::slice::slice_subrange;

use crate::bytes::copy_bytes;
use crate::packet::MAX_CONN_ID_LEN;

verus! {

/// Number of bytes in the secret that connection IDs are derived with.
pub const SEED_LEN: usize = 32;

/// The HMAC-SHA256 tag of `data` under `key`, as `ring::hmac::sign` computes it.
pub uninterp spec fn hmac_sha256(key: Seq<u8>, data: Seq<u8>) -> Seq<u8>;

/// Trusted: `ring::hmac::sign` with a SHA-256 key made of the bytes `key`.
///
/// The tag is a function of the key and of the data, and has 32 bytes.
#[verifier::external_body]
fn sign(key: &[u8], data: &[u8]) -> (tag: Vec<u8>)
    ensures
        tag@ == hmac_sha256(key@, data@),
        tag@.len() == 32,
{
    hmac::sign(&hmac::Key::new(hmac::HMAC_SHA256, key), data).as_ref().to_vec()
}

/// Trusted: `ring::rand::SystemRandom::fill` on a buffer of `len` bytes.
///
/// The bytes are random, so only their number is known; the system may also
/// fail to give any.
#[verifier::external_body]
fn random_bytes(len: usize) -> (bytes: Option<Vec<u8>>)
    ensures
        bytes matches Some(b) ==> b@.len() == len,
{
    let mut out = vec![0; len];
    match SystemRandom::new().fill(&mut out) {
        Ok(()) => Some(out),
        Err(_) => None,
    }
}

/// The secret from which a server derives the connection IDs that it hands out.
pub struct ConnIdSeed {
    key: Vec<u8>,
}

impl View for ConnIdSeed {
    type V = Seq<u8>;

    closed spec fn view(&self) -> Seq<u8> {
        self.key@
    }
}

/// The connection ID that a server with the secret `seed` gives to a client
/// that addressed its packet to `dcid`.
pub open spec fn derived_conn_id(seed: Seq<u8>, dcid: Seq<u8>) -> Seq<u8> {
    hmac_sha256(seed, dcid).take(MAX_CONN_ID_LEN as int)
}

impl ConnIdSeed {
    /// A secret made of the given bytes.
    pub fn from_bytes(key: Vec<u8>) -> (seed: Self)
        ensures
            seed@ == key@,
    {
        ConnIdSeed { key }
    }

    /// A random secret; `None` if the system has no randomness to give.
    pub fn generate() -> (seed: Option<Self>)
        ensures
            seed matches Some(s) ==> s@.len() == SEED_LEN,
    {
        match random_bytes(SEED_LEN) {
            Some(key) => Some(ConnIdSeed { key }),
            None => None,
        }
    }

    /// Derives the connection ID for a client that addressed its packet to
    /// `dcid`: the first bytes of the HMAC of `dcid`.
    pub fn derive(&self, dcid: &[u8]) -> (conn_id: Vec<u8>)
        ensures
            conn_id@ == derived_conn_id(self@, dcid@),
            conn_id@.len() == MAX_CONN_ID_LEN,
    {
        let tag: Vec<u8> = sign(self.key.as_slice(), dcid);
        let conn_id: Vec<u8> = copy_bytes(slice_subrange(tag.as_slice(), 0, MAX_CONN_ID_LEN));
        assert(conn_id@ =~= derived_conn_id(self@, dcid@));
        conn_id
    }
}

/// Draws a random connection ID for a new client connection; `None` if the
/// system has no randomness to give.
pub fn random_conn_id() -> (conn_id: Option<Vec<u8>>)
    ensures
        conn_id matches Some(id) ==> id@.len() == MAX_CONN_ID_LEN,
{
    random_bytes(MAX_CONN_ID_LEN)
}

/// The ID that a server derives is the start of the HMAC of the ID that was
/// addressed, under the secret of the server.
pub proof fn derived_ids_are_the_start_of_an_hmac(seed: Seq<u8>, dcid: Seq<u8>)
    requires
        hmac_sha256(seed, dcid).len() == 32,
    ensures
        derived_conn_id(seed, dcid).len() == 20,
        forall|i: int|
            0 <= i < 20 ==> #[trigger] derived_conn_id(seed, dcid)[i] == hmac_sha256(seed, dcid)[i],
{
}

} // verus!
