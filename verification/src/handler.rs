//! What the service answers to a request, given the state it is in.

use crate::codec::{base64_bytes, base64_text, decode_base64, encode_base64};
use crate::oprf::{
    active_tags, decompresses, evaluate, evaluations, is_ristretto_point, public_key_bytes,
    serialize_public_key, POINT_LEN,
};
use crate::state::{text_of, OPRFServer};
use crate::MAX_POINTS;
use vstd::prelude::*;

verus! {

/// Request structure for the randomness endpoint.
#[derive(Debug)]
pub struct RandomnessRequest {
    /// Points to evaluate: base64-encoded compressed Ristretto points.
    pub points: Vec<String>,
    /// Optional request for evaluation within a specific epoch.
    pub epoch: Option<u8>,
}

/// Response structure for the randomness endpoint.
#[derive(Debug)]
pub struct RandomnessResponse {
    /// Resulting points from the evaluation: base64-encoded compressed
    /// points, one for each point of the request and in the same order.
    pub points: Vec<String>,
    /// Randomness epoch used in the evaluation.
    pub epoch: u8,
}

/// Response structure for the info endpoint.
#[derive(Debug)]
pub struct InfoResponse {
    /// Serialized public key of the current instance, base64-encoded.
    pub public_key: String,
    /// Currently active randomness epoch.
    pub current_epoch: u8,
    /// RFC 3339 timestamp of the next epoch rotation, once it is known.
    pub next_epoch_time: Option<String>,
    /// Maximum number of points accepted in a single request.
    pub max_points: usize,
}

/// Server error conditions.
#[derive(Clone, Copy, Debug, PartialEq, Eq, Structural)]
pub enum Error {
    /// The state could not be locked.
    LockFailure,
    /// The request holds no point.
    NoPoints,
    /// The request holds more points than a single request may.
    TooManyPoints,
    /// A point is not valid base64.
    Base64,
    /// A point is not the 32 bytes of a compressed Ristretto point.
    BadPoint,
    /// The request asks for an epoch that is not the current one.
    BadEpoch(u8),
    /// The instance does not evaluate under the current epoch.
    Oprf,
}

/// Status of a response that reports a fault of the client.
pub const BAD_REQUEST: u16 = 400;

/// Status of a response that reports a fault of the server.
pub const INTERNAL_SERVER_ERROR: u16 = 500;

impl Error {
    /// The HTTP status that reports the error: what is wrong with the
    /// request is the client's fault, the rest is the server's.
    pub open spec fn spec_status(&self) -> u16 {
        match *self {
            Error::LockFailure | Error::Oprf => INTERNAL_SERVER_ERROR,
            _ => BAD_REQUEST,
        }
    }

    #[verifier::when_used_as_spec(spec_status)]
    pub fn status(&self) -> (code: u16)
        ensures
            code == self.spec_status(),
    {
        match self {
            Error::LockFailure | Error::Oprf => INTERNAL_SERVER_ERROR,
            _ => BAD_REQUEST,
        }
    }

    /// A short description of the error for the body of the response.
    pub fn message(&self) -> (text: String)
        ensures
            text@.len() > 0,
    {
        let text = match self {
            Error::LockFailure => {
                proof {
                    reveal_strlit("Couldn't lock state: RwLock poisoned");
                }
                "Couldn't lock state: RwLock poisoned"
            },
            Error::NoPoints => {
                proof {
                    reveal_strlit("No points in the request");
                }
                "No points in the request"
            },
            Error::TooManyPoints => {
                proof {
                    reveal_strlit("Too many points for a single request");
                }
                "Too many points for a single request"
            },
            Error::Base64 => {
                proof {
                    reveal_strlit("Invalid base64 encoding");
                }
                "Invalid base64 encoding"
            },
            Error::BadPoint => {
                proof {
                    reveal_strlit("Invalid point");
                }
                "Invalid point"
            },
            Error::BadEpoch(_) => {
                proof {
                    reveal_strlit("Invalid epoch");
                }
                "Invalid epoch"
            },
            Error::Oprf => {
                proof {
                    reveal_strlit("PPOPRF error");
                }
                "PPOPRF error"
            },
        };
        text.to_owned()
    }
}

/// The texts of a list of strings.
pub open spec fn texts_of(strings: Seq<String>) -> Seq<Seq<char>> {
    strings.map_values(|text: String| text@)
}

/// What is wrong with a batch of `count` points, if its size is.
pub open spec fn size_fault(count: nat) -> Option<Error> {
    if count == 0 {
        Some(Error::NoPoints)
    } else if count > MAX_POINTS {
        Some(Error::TooManyPoints)
    } else {
        None
    }
}

/// What is wrong with decoded bytes as a point, if anything is.
pub open spec fn bytes_fault(bytes: Seq<u8>) -> Option<Error> {
    if bytes.len() != POINT_LEN || !is_ristretto_point(bytes) {
        Some(Error::BadPoint)
    } else {
        None
    }
}

/// What is wrong with the text of a point, if anything is.
pub open spec fn point_fault(text: Seq<char>) -> Option<Error> {
    match base64_bytes(text) {
        None => Some(Error::Base64),
        Some(bytes) => bytes_fault(bytes),
    }
}

/// The fault of the first point that has one.
pub open spec fn first_point_fault(texts: Seq<Seq<char>>) -> Option<Error>
    decreases texts.len(),
{
    if texts.len() == 0 {
        None
    } else {
        match first_point_fault(texts.drop_last()) {
            Some(fault) => Some(fault),
            None => point_fault(texts.last()),
        }
    }
}

/// What is wrong with asking for `requested` while `current` is the current
/// epoch, if anything is.
pub open spec fn epoch_fault(requested: Option<u8>, current: u8) -> Option<Error> {
    match requested {
        Some(epoch) if epoch != current => Some(Error::BadEpoch(epoch)),
        _ => None,
    }
}

/// The reason to reject a request while `current` is the current epoch, if
/// there is one. The rules are tried in this order: the batch is not empty;
/// it is not too large; each point is base64 for a compressed point; an
/// epoch that is asked for is the current one.
pub open spec fn request_fault(
    texts: Seq<Seq<char>>,
    requested: Option<u8>,
    current: u8,
) -> Option<Error> {
    if size_fault(texts.len()) is Some {
        size_fault(texts.len())
    } else if first_point_fault(texts) is Some {
        first_point_fault(texts)
    } else {
        epoch_fault(requested, current)
    }
}

/// `out` is the answer to a randomness request in `state`. A request with
/// a fault is rejected for it. Any other is answered with the current epoch
/// and, for each point in turn, the base64 text of its evaluation under
/// that epoch, which is a compressed point again, unless the instance no
/// longer serves the current epoch.
pub open spec fn answered(
    state: OPRFServer,
    texts: Seq<Seq<char>>,
    requested: Option<u8>,
    out: Result<RandomnessResponse, Error>,
) -> bool {
    match out {
        Ok(response) => {
            &&& request_fault(texts, requested, state.epoch) is None
            &&& active_tags(state.server).contains(state.epoch)
            &&& response.epoch == state.epoch
            &&& response.points@.len() == texts.len()
            &&& forall|i: int|
                0 <= i < texts.len() ==> #[trigger] response.points@[i]@ == base64_text(
                    evaluations(state.server)[(state.epoch, base64_bytes(texts[i]).unwrap())],
                )
            &&& forall|i: int|
                0 <= i < texts.len() ==> (#[trigger] base64_bytes(response.points@[i]@)
                    matches Some(bytes) && bytes.len() == POINT_LEN && is_ristretto_point(bytes))
        },
        Err(error) => match request_fault(texts, requested, state.epoch) {
            Some(fault) => error == fault,
            None => error == Error::Oprf && !active_tags(state.server).contains(state.epoch),
        },
    }
}

/// `response` is what the info endpoint reports of `state`.
pub open spec fn reported(state: OPRFServer, response: InfoResponse) -> bool {
    &&& response.public_key@ == base64_text(public_key_bytes(state.server))
    &&& response.current_epoch == state.epoch
    &&& text_of(response.next_epoch_time) == text_of(state.next_epoch_time)
    &&& response.max_points == MAX_POINTS
}

/// Identifying text for the root of the service.
pub fn welcome() -> (text: &'static str)
    ensures
        text@.len() > 0,
{
    proof {
        reveal_strlit("STAR randomness server\n");
    }
    "STAR randomness server\n"
}

/// Checks the number of points of a request.
pub fn check_batch_size(count: usize) -> (out: Result<(), Error>)
    ensures
        match out {
            Ok(()) => size_fault(count as nat) is None,
            Err(fault) => size_fault(count as nat) == Some(fault),
        },
{
    if count == 0 {
        Err(Error::NoPoints)
    } else if count > MAX_POINTS {
        Err(Error::TooManyPoints)
    } else {
        Ok(())
    }
}

/// Checks that decoded bytes are a compressed point, and hands them on.
pub fn check_point(bytes: Vec<u8>) -> (out: Result<Vec<u8>, Error>)
    ensures
        match out {
            Ok(point) => bytes_fault(bytes@) is None && point@ == bytes@,
            Err(fault) => bytes_fault(bytes@) == Some(fault),
        },
{
    if bytes.len() != POINT_LEN {
        Err(Error::BadPoint)
    } else if !decompresses(&bytes) {
        Err(Error::BadPoint)
    } else {
        Ok(bytes)
    }
}

/// Decodes one point of a request from its base64 text.
pub fn decode_point(text: &str) -> (out: Result<Vec<u8>, Error>)
    ensures
        match out {
            Ok(point) => point_fault(text@) is None && base64_bytes(text@) == Some(point@),
            Err(fault) => point_fault(text@) == Some(fault),
        },
{
    match decode_base64(text) {
        Ok(bytes) => check_point(bytes),
        Err(_) => Err(Error::Base64),
    }
}

/// Settles the epoch to evaluate under: the current one, which an epoch
/// asked for has to agree with.
pub fn check_epoch(requested: Option<u8>, current: u8) -> (out: Result<u8, Error>)
    ensures
        match out {
            Ok(epoch) => epoch_fault(requested, current) is None && epoch == current,
            Err(fault) => epoch_fault(requested, current) == Some(fault),
        },
{
    match requested {
        Some(epoch) if epoch != current => Err(Error::BadEpoch(epoch)),
        _ => Ok(current),
    }
}

/// A list of texts without a faulty point stays so when a sound one is added,
/// and gets the fault of a faulty one.
proof fn lemma_first_point_fault_step(texts: Seq<Seq<char>>, count: int)
    requires
        0 <= count < texts.len(),
        first_point_fault(texts.take(count)) is None,
    ensures
        first_point_fault(texts.take(count + 1)) == point_fault(texts[count]),
{
    assert(texts.take(count + 1).drop_last() =~= texts.take(count));
}

/// Process PPOPRF evaluation requests: every point of a sound request is
/// evaluated under the current epoch.
pub fn randomness(
    state: &OPRFServer,
    request: &RandomnessRequest,
) -> (out: Result<RandomnessResponse, Error>)
    ensures
        answered(*state, texts_of(request.points@), request.epoch, out),
{
    let ghost texts = texts_of(request.points@);
    let count: usize = request.points.len();
    match check_batch_size(count) {
        Ok(()) => {},
        Err(fault) => {
            return Err(fault);
        },
    }
    let mut decoded: Vec<Vec<u8>> = Vec::new();
    let mut i: usize = 0;
    assert(texts.take(0) =~= Seq::<Seq<char>>::empty());
    while i < count
        invariant
            i <= count,
            count == request.points@.len(),
            texts == texts_of(request.points@),
            size_fault(texts.len()) is None,
            first_point_fault(texts.take(i as int)) is None,
            decoded@.len() == i,
            forall|j: int|
                0 <= j < i ==> base64_bytes(texts[j]) == Some(#[trigger] decoded@[j]@)
                    && decoded@[j]@.len() == POINT_LEN && is_ristretto_point(decoded@[j]@),
        decreases count - i,
    {
        proof {
            lemma_first_point_fault_step(texts, i as int);
            assert(texts[i as int] == request.points@[i as int]@);
        }
        match decode_point(request.points[i].as_str()) {
            Ok(point) => {
                decoded.push(point);
            },
            Err(fault) => {
                proof {
                    lemma_fault_of_prefix(texts, i as int + 1);
                }
                return Err(fault);
            },
        }
        i += 1;
    }
    assert(texts.take(count as int) =~= texts);
    let epoch: u8 = match check_epoch(request.epoch, state.epoch) {
        Ok(epoch) => epoch,
        Err(fault) => {
            return Err(fault);
        },
    };
    let mut points: Vec<String> = Vec::new();
    let mut i: usize = 0;
    while i < count
        invariant
            i <= count,
            texts == texts_of(request.points@),
            request_fault(texts, request.epoch, state.epoch) is None,
            count == decoded@.len(),
            count == texts.len(),
            epoch == state.epoch,
            points@.len() == i,
            i > 0 ==> active_tags(state.server).contains(epoch),
            forall|j: int|
                0 <= j < count ==> base64_bytes(texts[j]) == Some(#[trigger] decoded@[j]@)
                    && decoded@[j]@.len() == POINT_LEN && is_ristretto_point(decoded@[j]@),
            forall|j: int|
                0 <= j < i ==> #[trigger] points@[j]@ == base64_text(
                    evaluations(state.server)[(epoch, base64_bytes(texts[j]).unwrap())],
                ),
            forall|j: int|
                0 <= j < i ==> (#[trigger] base64_bytes(points@[j]@) matches Some(bytes)
                    && bytes.len() == POINT_LEN && is_ristretto_point(bytes)),
        decreases count - i,
    {
        match evaluate(&state.server, &decoded[i], epoch) {
            Ok(bytes) => {
                points.push(encode_base64(&bytes));
            },
            Err(_) => {
                return Err(Error::Oprf);
            },
        }
        i += 1;
    }
    Ok(RandomnessResponse { points, epoch })
}

/// A fault among the first points of a list is the fault of the list.
proof fn lemma_fault_of_prefix(texts: Seq<Seq<char>>, count: int)
    requires
        0 <= count <= texts.len(),
        first_point_fault(texts.take(count)) is Some,
    ensures
        first_point_fault(texts) == first_point_fault(texts.take(count)),
    decreases texts.len() - count,
{
    if count < texts.len() {
        assert(texts.take(count + 1).drop_last() =~= texts.take(count));
        lemma_fault_of_prefix(texts, count + 1);
    } else {
        assert(texts.take(count) =~= texts);
    }
}

/// Process PPOPRF epoch and key requests: a snapshot of the state with the
/// base64 text of the serialized public key.
pub fn info(state: &OPRFServer) -> (out: Result<InfoResponse, Error>)
    ensures
        out matches Ok(response) && reported(*state, response),
{
    match serialize_public_key(&state.server) {
        Ok(bytes) => Ok(snapshot(state, encode_base64(&bytes))),
        Err(_) => Err(Error::Oprf),
    }
}

/// The snapshot of a state that goes out with the text of its public key.
pub fn snapshot(state: &OPRFServer, public_key: String) -> (response: InfoResponse)
    ensures
        response.public_key == public_key,
        response.current_epoch == state.epoch,
        text_of(response.next_epoch_time) == text_of(state.next_epoch_time),
        response.max_points == MAX_POINTS,
{
    let next_epoch_time = match &state.next_epoch_time {
        Some(text) => Some(text.clone()),
        None => None,
    };
    InfoResponse { public_key, current_epoch: state.epoch, next_epoch_time, max_points: MAX_POINTS }
}

/// A request that names an epoch is answered under that very epoch or not
/// at all, and while the state is sound a refusal is the client's fault.
pub proof fn lemma_named_epoch_is_kept(
    state: OPRFServer,
    config: crate::config::Config,
    texts: Seq<Seq<char>>,
    epoch: u8,
    out: Result<RandomnessResponse, Error>,
)
    requires
        state.wf(config),
        answered(state, texts, Some(epoch), out),
    ensures
        out matches Ok(response) ==> response.epoch == epoch && epoch == state.epoch,
        out matches Err(error) ==> error.status() == BAD_REQUEST,
{
    lemma_point_faults(texts);
}

/// A request for an epoch other than the current one, be it earlier or
/// later, is refused as the client's fault.
pub proof fn lemma_other_epoch_is_refused(
    state: OPRFServer,
    texts: Seq<Seq<char>>,
    epoch: u8,
    out: Result<RandomnessResponse, Error>,
)
    requires
        epoch != state.epoch,
        answered(state, texts, Some(epoch), out),
    ensures
        out matches Err(error) && error.status() == BAD_REQUEST,
{
    lemma_point_faults(texts);
}

/// A request without points is refused as the client's fault.
pub proof fn lemma_empty_batch_is_refused(
    state: OPRFServer,
    requested: Option<u8>,
    out: Result<RandomnessResponse, Error>,
)
    requires
        answered(state, Seq::empty(), requested, out),
    ensures
        out == Err::<RandomnessResponse, Error>(Error::NoPoints),
        Error::NoPoints.status() == BAD_REQUEST,
{
}

/// While the state is sound, a batch of sound points for the current epoch
/// is answered point for point if it holds between one and `MAX_POINTS`
/// points, and refused as the client's fault if it holds more.
pub proof fn lemma_batch_bounds(
    state: OPRFServer,
    config: crate::config::Config,
    texts: Seq<Seq<char>>,
    requested: Option<u8>,
    out: Result<RandomnessResponse, Error>,
)
    requires
        state.wf(config),
        first_point_fault(texts) is None,
        epoch_fault(requested, state.epoch) is None,
        answered(state, texts, requested, out),
    ensures
        1 <= texts.len() <= MAX_POINTS ==> (out matches Ok(response) && response.points@.len()
            == texts.len()),
        texts.len() > MAX_POINTS ==> out == Err::<RandomnessResponse, Error>(
            Error::TooManyPoints,
        ),
        Error::TooManyPoints.status() == BAD_REQUEST,
{
}

/// The cap on points that the info endpoint reports is the cap that the
/// randomness endpoint enforces: a batch is refused as too large exactly
/// when it is not empty and holds more points than reported.
pub proof fn lemma_reported_cap_is_enforced(
    state: OPRFServer,
    response: InfoResponse,
    texts: Seq<Seq<char>>,
    requested: Option<u8>,
    out: Result<RandomnessResponse, Error>,
)
    requires
        reported(state, response),
        answered(state, texts, requested, out),
    ensures
        texts.len() > response.max_points <==> out == Err::<RandomnessResponse, Error>(
            Error::TooManyPoints,
        ),
{
    lemma_point_faults(texts);
}

/// A faulty point is never blamed for the size of the batch or for its epoch.
pub proof fn lemma_point_faults(texts: Seq<Seq<char>>)
    ensures
        first_point_fault(texts) matches Some(fault) ==> fault == Error::Base64 || fault
            == Error::BadPoint,
    decreases texts.len(),
{
    if texts.len() > 0 {
        lemma_point_faults(texts.drop_last());
    }
}

} // verus!
