//! What the service relies on from the PPOPRF primitive.
//!
//! Nothing in this file is proved. Each item states, for one function of the
//! `ppoprf` or `curve25519-dalek` crate, what the rest of the library takes
//! for granted about it.

use vstd::prelude::*;

verus! {

/// Length in bytes of a compressed Ristretto point.
pub const POINT_LEN: usize = 32;

/// `ppoprf::ppoprf::Server`, of which the verifier sees nothing but the
/// names below.
#[verifier::external_type_specification]
#[verifier::external_body]
pub struct ExServer(ppoprf::ppoprf::Server);

/// `ppoprf::PPRFError`, which is handed on unread.
#[verifier::external_type_specification]
#[verifier::external_body]
pub struct ExPPRFError(ppoprf::PPRFError);

/// The epoch tags under which a server instance still evaluates: those it was
/// made with, less those punctured since.
pub uninterp spec fn active_tags(server: ppoprf::ppoprf::Server) -> Set<u8>;

/// The function that a server instance computes with its secret key: from an
/// active epoch tag and a compressed point to the compressed point that an
/// evaluation without proof returns.
pub uninterp spec fn evaluations(server: ppoprf::ppoprf::Server) -> Map<(u8, Seq<u8>), Seq<u8>>;

/// The bincode serialization of a server instance's public key.
pub uninterp spec fn public_key_bytes(server: ppoprf::ppoprf::Server) -> Seq<u8>;

/// Whether 32 bytes are the canonical encoding of a Ristretto point.
pub uninterp spec fn is_ristretto_point(bytes: Seq<u8>) -> bool;

/// `ppoprf::ppoprf::Server::new`: an instance is made, and it evaluates
/// under exactly the tags it was given. It can be made because a key that was
/// just set up evaluates under every tag. Its key is drawn at random, so
/// nothing is said of the key.
pub assume_specification[ ppoprf::ppoprf::Server::new ](
    mds: Vec<u8>,
) -> (made: Result<ppoprf::ppoprf::Server, ppoprf::PPRFError>)
    ensures
        made is Ok,
        made matches Ok(server) ==> forall|tag: u8| #[trigger]
            active_tags(server).contains(tag) <==> mds@.contains(tag),
;

/// `ppoprf::ppoprf::Server::puncture`: an active tag is always punctured. On
/// success the tag has left the active set and every other tag is where it
/// was; on failure the active set is as before. The public key is untouched
/// either way.
pub assume_specification[ ppoprf::ppoprf::Server::puncture ](
    server: &mut ppoprf::ppoprf::Server,
    md: u8,
) -> (done: Result<(), ppoprf::PPRFError>)
    ensures
        active_tags(*old(server)).contains(md) ==> done is Ok,
        done is Ok ==> active_tags(*final(server)) == active_tags(*old(server)).remove(md),
        done is Err ==> active_tags(*final(server)) == active_tags(*old(server)),
        public_key_bytes(*final(server)) == public_key_bytes(*old(server)),
;

/// `ppoprf::ppoprf::Server::eval` without a proof, on a point given as its 32
/// bytes: it succeeds exactly when the tag is active and the bytes decompress
/// to a point, and then returns the 32 bytes that the instance's function
/// gives for them, which are a compressed point in turn.
#[verifier::external_body]
pub(crate) fn evaluate(
    server: &ppoprf::ppoprf::Server,
    point: &Vec<u8>,
    epoch: u8,
) -> (out: Result<Vec<u8>, ppoprf::PPRFError>)
    requires
        point@.len() == POINT_LEN,
    ensures
        out is Ok <==> (active_tags(*server).contains(epoch) && is_ristretto_point(point@)),
        out matches Ok(bytes) ==> bytes@.len() == POINT_LEN,
        out matches Ok(bytes) ==> is_ristretto_point(bytes@),
        out matches Ok(bytes) ==> evaluations(*server).contains_pair((epoch, point@), bytes@),
{
    let point = ppoprf::ppoprf::Point::from(point.as_slice());
    server.eval(&point, epoch, false).map(|evaluation| evaluation.output.as_bytes().to_vec())
}

/// `ppoprf::ppoprf::ServerPublicKey::serialize_to_bincode` on the key that
/// `ppoprf::ppoprf::Server::get_public_key` hands out: the bytes of the
/// instance's serialized public key. There always are some: the encoding has
/// no size limit, and a key is a point and a map of known length to points.
#[verifier::external_body]
pub(crate) fn serialize_public_key(
    server: &ppoprf::ppoprf::Server,
) -> (out: Result<Vec<u8>, ppoprf::PPRFError>)
    ensures
        out is Ok,
        out matches Ok(bytes) ==> bytes@ == public_key_bytes(*server),
{
    server.get_public_key().serialize_to_bincode()
}

/// `curve25519_dalek::ristretto::CompressedRistretto::decompress` on 32
/// bytes: whether they are the canonical encoding of a point.
#[verifier::external_body]
pub(crate) fn decompresses(bytes: &Vec<u8>) -> (valid: bool)
    requires
        bytes@.len() == POINT_LEN,
    ensures
        valid == is_ristretto_point(bytes@),
{
    match curve25519_dalek::ristretto::CompressedRistretto::from_slice(bytes.as_slice()) {
        Ok(compressed) => compressed.decompress().is_some(),
        Err(_) => false,
    }
}

} // verus!
