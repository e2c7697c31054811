//! Responses that a stream has not taken in full yet.
use std::collections::HashMap;

use quiche::{Connection, Error};
use vstd::prelude::*;
use vstd::slice::slice_subrange;
use vstd::string::StringExecFns;
use vstd::utf8::{decode_utf8, encode_utf8, valid_utf8};

use crate::bytes::copy_bytes;
use crate::quic::{
    after_stream_send, early_data, established, is_usable, send_answer, source_id, usable, writable,
    writable_streams,
};

verus! {

broadcast use vstd::std_specs::hash::group_hash_axioms;

/// A response of which the first `written` bytes were taken by the stream.
#[derive(Debug)]
pub struct PartialResponse {
    pub body: Vec<u8>,
    pub written: usize,
}

/// A partial response as a mathematical value.
pub struct ResponseView {
    pub body: Seq<u8>,
    pub written: nat,
}

impl View for PartialResponse {
    type V = ResponseView;

    open spec fn view(&self) -> ResponseView {
        ResponseView { body: self.body@, written: self.written as nat }
    }
}

impl ResponseView {
    /// Some of the response is still to be written.
    pub open spec fn pending(self) -> bool {
        self.written < self.body.len()
    }

    /// The bytes still to be written.
    pub open spec fn unsent(self) -> Seq<u8> {
        self.body.skip(self.written as int)
    }
}

/// The partial responses of a connection, by stream ID.
pub struct PartialResponses {
    map: HashMap<u64, PartialResponse>,
}

impl View for PartialResponses {
    type V = Map<u64, ResponseView>;

    closed spec fn view(&self) -> Map<u64, ResponseView> {
        self.map@.map_values(|r: PartialResponse| r@)
    }
}

/// Every response in the map has bytes still to be written.
pub open spec fn all_pending(m: Map<u64, ResponseView>) -> bool {
    forall|id: u64| #[trigger] m.contains_key(id) ==> m[id].pending()
}

/// What `stream_send` may answer when it was given `len` bytes.
pub open spec fn answer_fits(res: Result<usize, Error>, len: nat) -> bool {
    res matches Ok(n) ==> n <= len
}

/// What is left of a response after `stream_send` was given its unsent bytes
/// and answered `res`: nothing once the stream has taken the last byte or has
/// failed; `Done` takes nothing.
pub open spec fn after_send(resp: ResponseView, res: Result<usize, Error>) -> Option<ResponseView> {
    match res {
        Ok(n) => {
            let next = ResponseView { body: resp.body, written: resp.written + n as nat };
            if next.pending() {
                Some(next)
            } else {
                None
            }
        },
        Err(Error::Done) => Some(resp),
        Err(_) => None,
    }
}

/// The responses after `stream_send` was given the unsent bytes of the one on
/// stream `id` and answered `res`. Without a response there, nothing changes.
pub open spec fn responses_after_send(
    m: Map<u64, ResponseView>,
    id: u64,
    res: Result<usize, Error>,
) -> Map<u64, ResponseView> {
    if m.contains_key(id) {
        match after_send(m[id], res) {
            Some(resp) => m.insert(id, resp),
            None => m.remove(id),
        }
    } else {
        m
    }
}

/// The responses after `stream_send` was given a whole new response for stream
/// `id` and answered `res`: what was not taken waits there, unless the stream
/// failed.
pub open spec fn responses_after_start(
    m: Map<u64, ResponseView>,
    id: u64,
    body: Seq<u8>,
    res: Result<usize, Error>,
) -> Map<u64, ResponseView> {
    let written = match res {
        Ok(n) => n as nat,
        Err(_) => 0,
    };
    let failed = res matches Err(e) && !(e is Done);
    if failed || written >= body.len() {
        m
    } else {
        m.insert(id, ResponseView { body, written })
    }
}

/// No response was lost on the way from `before` to `after` but by being taken
/// in full or by a failure of its stream: each one left has the same body, and
/// not less of it written.
pub open spec fn responses_advance(
    before: Map<u64, ResponseView>,
    after: Map<u64, ResponseView>,
) -> bool {
    forall|id: u64| #[trigger]
        after.contains_key(id) ==> {
            &&& before.contains_key(id)
            &&& after[id].body == before[id].body
            &&& after[id].written >= before[id].written
        }
}

impl PartialResponses {
    /// Every response in the map has bytes still to be written.
    pub open spec fn wf(&self) -> bool {
        all_pending(self@)
    }

    /// No responses.
    pub fn new() -> (responses: Self)
        ensures
            responses.wf(),
            responses@ == Map::<u64, ResponseView>::empty(),
    {
        let responses = PartialResponses { map: HashMap::new() };
        assert(responses@ =~= Map::<u64, ResponseView>::empty());
        responses
    }

    /// The unsent bytes of the response on a stream, if there is one.
    pub fn unsent(&self, stream_id: u64) -> (body: Option<&[u8]>)
        requires
            self.wf(),
        ensures
            match body {
                Some(b) => self@.contains_key(stream_id) && b@ == self@[stream_id].unsent(),
                None => !self@.contains_key(stream_id),
            },
    {
        match self.map.get(&stream_id) {
            Some(resp) => {
                assert(self@.contains_key(stream_id));
                assert(self@[stream_id] == resp@);
                assert(self@[stream_id].pending());
                let body: &[u8] = slice_subrange(
                    resp.body.as_slice(),
                    resp.written,
                    resp.body.len(),
                );
                assert(body@ =~= resp@.unsent());
                Some(body)
            },
            None => None,
        }
    }

    /// Records what `stream_send` answered for the unsent bytes of the response
    /// on a stream.
    pub fn record_send(&mut self, stream_id: u64, res: Result<usize, Error>)
        requires
            old(self).wf(),
            old(self)@.contains_key(stream_id) ==> answer_fits(
                res,
                old(self)@[stream_id].unsent().len(),
            ),
        ensures
            final(self).wf(),
            final(self)@ == responses_after_send(old(self)@, stream_id, res),
    {
        let ghost before = self@;
        match self.map.remove(&stream_id) {
            Some(mut resp) => {
                let ghost first = resp@;
                assert(before.contains_key(stream_id));
                assert(before[stream_id] == first);
                assert(first.pending());
                let taken: usize = match res {
                    Ok(n) => n,
                    Err(Error::Done) => 0,
                    Err(_) => {
                        assert(self@ =~= responses_after_send(before, stream_id, res));
                        return ;
                    },
                };
                assert(first.unsent().len() == resp.body.len() - resp.written);
                resp.written = resp.written + taken;
                if resp.written != resp.body.len() {
                    self.map.insert(stream_id, resp);
                }
                assert(self@ =~= responses_after_send(before, stream_id, res));
            },
            None => {
                assert(self@ =~= before);
            },
        }
    }

    /// Records what `stream_send` answered for the whole of a new response.
    pub fn record_start(&mut self, stream_id: u64, body: Vec<u8>, res: Result<usize, Error>) -> (ok:
        bool)
        requires
            old(self).wf(),
            answer_fits(res, body@.len()),
        ensures
            final(self).wf(),
            final(self)@ == responses_after_start(old(self)@, stream_id, body@, res),
            ok == (res is Ok || res == Err::<usize, Error>(Error::Done)),
    {
        let ghost before = self@;
        let written: usize = match res {
            Ok(n) => n,
            Err(Error::Done) => 0,
            Err(_) => {
                return false;
            },
        };
        if written < body.len() {
            let resp = PartialResponse { body, written };
            self.map.insert(stream_id, resp);
            assert(self@ =~= before.insert(stream_id, resp@));
        }
        true
    }
}

/// What becomes of a connection and of the responses that wait on it when a
/// stream is written: it is given the unsent bytes of its response, once, as the
/// last of the stream. Without a response there nothing is sent.
pub open spec fn write_one(conn: Connection, m: Map<u64, ResponseView>, id: u64) -> (
    Connection,
    Map<u64, ResponseView>,
) {
    if m.contains_key(id) {
        let body = m[id].unsent();
        (
            after_stream_send(conn, id, body, true),
            responses_after_send(m, id, send_answer(conn, id, body, true)),
        )
    } else {
        (conn, m)
    }
}

/// The stream takes no more than the unsent bytes of its response.
pub open spec fn send_fits(conn: Connection, m: Map<u64, ResponseView>, id: u64) -> bool {
    m.contains_key(id) ==> answer_fits(
        send_answer(conn, id, m[id].unsent(), true),
        m[id].unsent().len(),
    )
}

/// Writes more of the response on a stream that takes data again.
///
/// The stream is given exactly the unsent bytes, as the last of the stream.
pub fn handle_writable(conn: &mut Connection, responses: &mut PartialResponses, stream_id: u64)
    requires
        old(responses).wf(),
    ensures
        final(responses).wf(),
        (*final(conn), final(responses)@) == write_one(*old(conn), old(responses)@, stream_id),
        old(responses)@.contains_key(stream_id) ==> *final(conn) == after_stream_send(
            *old(conn),
            stream_id,
            old(responses)@[stream_id].body.skip(old(responses)@[stream_id].written as int),
            true,
        ),
        !old(responses)@.contains_key(stream_id) ==> *final(conn) == *old(conn)
            && final(responses)@ == old(responses)@,
        source_id(*final(conn)) == source_id(*old(conn)),
        send_fits(*old(conn), old(responses)@, stream_id),
        responses_advance(old(responses)@, final(responses)@),
{
    let res: Result<usize, Error> = match responses.unsent(stream_id) {
        Some(body) => conn.stream_send(stream_id, body, true),
        None => {
            return ;
        },
    };
    responses.record_send(stream_id, res);
}

/// What becomes of a connection and of the responses that wait on it when the
/// streams from position `i` on are written, one after the other.
pub open spec fn write_all(
    conn: Connection,
    m: Map<u64, ResponseView>,
    streams: Seq<u64>,
    i: int,
) -> (Connection, Map<u64, ResponseView>)
    decreases streams.len() - i,
{
    if i < 0 || i >= streams.len() {
        (conn, m)
    } else {
        let (then, left) = write_one(conn, m, streams[i]);
        write_all(then, left, streams, i + 1)
    }
}

/// No stream takes more than the unsent bytes of its response when the streams
/// from position `i` on are written.
pub open spec fn sends_fit(
    conn: Connection,
    m: Map<u64, ResponseView>,
    streams: Seq<u64>,
    i: int,
) -> bool
    decreases streams.len() - i,
{
    if i < 0 || i >= streams.len() {
        true
    } else {
        let (then, left) = write_one(conn, m, streams[i]);
        send_fits(conn, m, streams[i]) && sends_fit(then, left, streams, i + 1)
    }
}

/// A connection goes from `conn` to `then`, and the responses that wait on it
/// from `before` to `after`, when every stream that takes data is written once,
/// in some order. Both stay as they are if no data may be exchanged on it.
pub open spec fn waiting_written(
    conn: Connection,
    before: Map<u64, ResponseView>,
    then: Connection,
    after: Map<u64, ResponseView>,
) -> bool {
    if usable(conn) {
        exists|streams: Seq<u64>|
            {
                &&& streams.no_duplicates()
                &&& streams.to_set() == writable_streams(conn)
                &&& sends_fit(conn, before, streams, 0)
                &&& (then, after) == #[trigger] write_all(conn, before, streams, 0)
            }
    } else {
        then == conn && after == before
    }
}

/// Writes more of every response that waits on a stream that takes data again,
/// if data may be exchanged on the connection.
pub fn write_waiting(conn: &mut Connection, responses: &mut PartialResponses)
    requires
        old(responses).wf(),
    ensures
        final(responses).wf(),
        responses_advance(old(responses)@, final(responses)@),
        waiting_written(*old(conn), old(responses)@, *final(conn), final(responses)@),
        !established(*old(conn)) && !early_data(*old(conn)) ==> *final(conn) == *old(conn)
            && final(responses)@ == old(responses)@,
        source_id(*final(conn)) == source_id(*old(conn)),
{
    if !is_usable(conn) {
        return ;
    }
    let streams: Vec<u64> = writable(conn);
    let ghost first = *conn;
    let ghost before = responses@;
    let mut i: usize = 0;
    while i < streams.len()
        invariant
            before == old(responses)@,
            source_id(*conn) == source_id(first),
            responses.wf(),
            responses_advance(before, responses@),
            i <= streams@.len(),
            write_all(first, before, streams@, 0) == write_all(
                *conn,
                responses@,
                streams@,
                i as int,
            ),
            sends_fit(first, before, streams@, 0) == sends_fit(
                *conn,
                responses@,
                streams@,
                i as int,
            ),
        decreases streams@.len() - i,
    {
        handle_writable(conn, responses, streams[i]);
        i += 1;
    }
}

/// Trusted: `String::from_utf8`, on a copy of the bytes. It succeeds exactly on
/// valid UTF-8, and gives the text that the bytes encode.
#[verifier::external_body]
fn utf8_text(bytes: &[u8]) -> (text: Option<String>)
    ensures
        match text {
            Some(t) => valid_utf8(bytes@) && t@ == decode_utf8(bytes@),
            None => !valid_utf8(bytes@),
        },
{
    String::from_utf8(bytes.to_vec()).ok()
}

/// Reads the text of a request; `None` if it is not valid UTF-8.
pub fn request_text(buf: &[u8]) -> (text: Option<String>)
    ensures
        match text {
            Some(t) => valid_utf8(buf@) && t@ == decode_utf8(buf@),
            None => !valid_utf8(buf@),
        },
{
    utf8_text(buf)
}

/// The text that answers a request: the request, announced as received, on a
/// line of its own.
pub open spec fn response_to(request: Seq<char>) -> Seq<char> {
    "收到："@ + request + "\n"@
}

/// Composes the response to a request.
pub fn response_text(request: &str) -> (text: String)
    ensures
        text@ == response_to(request@),
{
    let mut text: String = String::from_str("收到：");
    text.append(request);
    text.append("\n");
    text
}

/// Answers a request on its stream.
///
/// The stream is given the whole response, as the last of the stream; what it
/// does not take waits in `responses`. Returns whether there is something to
/// send, that is, whether the stream did not fail.
pub fn handle_stream(
    conn: &mut Connection,
    responses: &mut PartialResponses,
    stream_id: u64,
    request: &str,
) -> (wake: bool)
    requires
        old(responses).wf(),
    ensures
        final(responses).wf(),
        ({
            let body = encode_utf8(response_to(request@));
            let res = send_answer(*old(conn), stream_id, body, true);
            &&& final(responses)@ == responses_after_start(old(responses)@, stream_id, body, res)
            &&& *final(conn) == after_stream_send(*old(conn), stream_id, body, true)
            &&& source_id(*final(conn)) == source_id(*old(conn))
            &&& answer_fits(res, body.len())
            &&& wake == (res is Ok || res == Err::<usize, Error>(Error::Done))
        }),
{
    let text: String = response_text(request);
    let body: &[u8] = text.as_str().as_bytes();
    let res: Result<usize, Error> = conn.stream_send(stream_id, body, true);
    responses.record_start(stream_id, copy_bytes(body), res)
}

/// What `stream_send` took of a response when it answered `res`.
pub open spec fn bytes_taken(resp: Option<ResponseView>, res: Result<usize, Error>) -> Seq<u8> {
    match (resp, res) {
        (Some(r), Ok(n)) => r.unsent().take(n as int),
        _ => Seq::empty(),
    }
}

/// What is left of a response after a run of answers of `stream_send`, each to
/// the bytes that were unsent at the time.
pub open spec fn after_sends(resp: ResponseView, answers: Seq<Result<usize, Error>>) -> Option<
    ResponseView,
>
    decreases answers.len(),
{
    if answers.len() == 0 {
        Some(resp)
    } else {
        match after_sends(resp, answers.drop_last()) {
            Some(r) => after_send(r, answers.last()),
            None => None,
        }
    }
}

/// The bytes that the stream took over a run of answers of `stream_send`.
pub open spec fn bytes_sent(resp: ResponseView, answers: Seq<Result<usize, Error>>) -> Seq<u8>
    decreases answers.len(),
{
    if answers.len() == 0 {
        Seq::empty()
    } else {
        bytes_sent(resp, answers.drop_last()) + bytes_taken(
            after_sends(resp, answers.drop_last()),
            answers.last(),
        )
    }
}

/// A run of answers that `stream_send` can give to the unsent bytes, with no
/// failure among them.
pub open spec fn sends_without_failure(
    resp: ResponseView,
    answers: Seq<Result<usize, Error>>,
) -> bool
    decreases answers.len(),
{
    answers.len() == 0 || {
        &&& sends_without_failure(resp, answers.drop_last())
        &&& match answers.last() {
            Ok(n) => after_sends(resp, answers.drop_last()) matches Some(r) ==> n
                <= r.unsent().len(),
            Err(e) => e is Done,
        }
    }
}

/// The bytes still to be written, none if the response is gone.
pub open spec fn left_unsent(resp: Option<ResponseView>) -> Seq<u8> {
    match resp {
        Some(r) => r.unsent(),
        None => Seq::empty(),
    }
}

/// A response is delivered in full, in order and without repetition: what the
/// stream took so far, followed by what is still unsent, is always what was
/// unsent at first. So the response is given up only once all of it was taken.
pub proof fn response_delivered_in_full(resp: ResponseView, answers: Seq<Result<usize, Error>>)
    requires
        resp.pending(),
        sends_without_failure(resp, answers),
    ensures
        bytes_sent(resp, answers) + left_unsent(after_sends(resp, answers)) == resp.unsent(),
        after_sends(resp, answers) is None ==> bytes_sent(resp, answers) == resp.unsent(),
        after_sends(resp, answers) matches Some(r) ==> r.pending() && r.body == resp.body,
    decreases answers.len(),
{
    if answers.len() == 0 {
        assert(bytes_sent(resp, answers) + resp.unsent() =~= resp.unsent());
    } else {
        let init = answers.drop_last();
        response_delivered_in_full(resp, init);
        let sent = bytes_sent(resp, init);
        match after_sends(resp, init) {
            Some(r) => {
                match answers.last() {
                    Ok(n) => {
                        let next = ResponseView { body: r.body, written: r.written + n as nat };
                        let taken = r.unsent().take(n as int);
                        assert(r.unsent() =~= taken + next.unsent());
                        assert(sent + taken + next.unsent() =~= sent + r.unsent());
                        if !next.pending() {
                            assert(next.unsent() =~= Seq::empty());
                            assert(sent + taken =~= resp.unsent());
                        }
                    },
                    Err(_) => {
                        assert(sent + Seq::<u8>::empty() =~= sent);
                    },
                }
            },
            None => {
                assert(sent + Seq::<u8>::empty() =~= sent);
            },
        }
    }
}

/// The response on a stream, if there is one.
pub open spec fn response_on(m: Map<u64, ResponseView>, id: u64) -> Option<ResponseView> {
    if m.contains_key(id) {
        Some(m[id])
    } else {
        None
    }
}

/// What stream `id` answers when the streams from position `i` on are written;
/// `None` if it is given nothing.
pub open spec fn answer_of(
    conn: Connection,
    m: Map<u64, ResponseView>,
    streams: Seq<u64>,
    i: int,
    id: u64,
) -> Option<Result<usize, Error>>
    decreases streams.len() - i,
{
    if i < 0 || i >= streams.len() {
        None
    } else if streams[i] == id && m.contains_key(id) {
        Some(send_answer(conn, id, m[id].unsent(), true))
    } else {
        let (then, left) = write_one(conn, m, streams[i]);
        answer_of(then, left, streams, i + 1, id)
    }
}

/// When streams are written, each one is given its response at most once.
proof fn written_at_most_once(
    conn: Connection,
    m: Map<u64, ResponseView>,
    streams: Seq<u64>,
    i: int,
    id: u64,
)
    requires
        0 <= i,
        streams.no_duplicates(),
        sends_fit(conn, m, streams, i),
    ensures
        (forall|j: int| i <= j < streams.len() ==> streams[j] != id) ==> answer_of(
            conn,
            m,
            streams,
            i,
            id,
        ) is None,
        match answer_of(conn, m, streams, i, id) {
            Some(res) => m.contains_key(id) && answer_fits(res, m[id].unsent().len())
                && response_on(write_all(conn, m, streams, i).1, id) == after_send(m[id], res),
            None => response_on(write_all(conn, m, streams, i).1, id) == response_on(m, id),
        },
    decreases streams.len() - i,
{
    if i < streams.len() {
        let (then, left) = write_one(conn, m, streams[i]);
        written_at_most_once(then, left, streams, i + 1, id);
    }
}

/// One round of writing: the state of the connection when it begins, and the
/// streams that are written.
pub struct Round {
    pub conn: Connection,
    pub streams: Seq<u64>,
}

/// The responses that wait after rounds of writing.
pub open spec fn after_rounds(m: Map<u64, ResponseView>, rounds: Seq<Round>) -> Map<
    u64,
    ResponseView,
>
    decreases rounds.len(),
{
    if rounds.len() == 0 {
        m
    } else {
        let round = rounds.last();
        write_all(round.conn, after_rounds(m, rounds.drop_last()), round.streams, 0).1
    }
}

/// The bytes that stream `id` took over rounds of writing.
pub open spec fn taken_in_rounds(m: Map<u64, ResponseView>, rounds: Seq<Round>, id: u64) -> Seq<u8>
    decreases rounds.len(),
{
    if rounds.len() == 0 {
        Seq::empty()
    } else {
        let round = rounds.last();
        let before = after_rounds(m, rounds.drop_last());
        taken_in_rounds(m, rounds.drop_last(), id) + match answer_of(
            round.conn,
            before,
            round.streams,
            0,
            id,
        ) {
            Some(res) => bytes_taken(response_on(before, id), res),
            None => Seq::empty(),
        }
    }
}

/// Rounds of writing in which stream `id` does not fail.
pub open spec fn rounds_without_failure(
    m: Map<u64, ResponseView>,
    rounds: Seq<Round>,
    id: u64,
) -> bool
    decreases rounds.len(),
{
    rounds.len() == 0 || {
        let round = rounds.last();
        let before = after_rounds(m, rounds.drop_last());
        &&& rounds_without_failure(m, rounds.drop_last(), id)
        &&& round.streams.no_duplicates()
        &&& sends_fit(round.conn, before, round.streams, 0)
        &&& answer_of(round.conn, before, round.streams, 0, id) matches Some(Err(e)) ==> e is Done
    }
}

/// Whatever waits is delivered in full, over any number of rounds of writing and
/// beside any other streams: what the stream took so far, followed by what is
/// still unsent, is what was unsent at first. So a response is given up only
/// once all of it was taken.
pub proof fn waiting_responses_are_delivered(
    m: Map<u64, ResponseView>,
    rounds: Seq<Round>,
    id: u64,
)
    requires
        m.contains_key(id),
        m[id].pending(),
        rounds_without_failure(m, rounds, id),
    ensures
        taken_in_rounds(m, rounds, id) + left_unsent(response_on(after_rounds(m, rounds), id))
            == m[id].unsent(),
        !after_rounds(m, rounds).contains_key(id) ==> taken_in_rounds(m, rounds, id)
            == m[id].unsent(),
        response_on(after_rounds(m, rounds), id) matches Some(r) ==> r.pending(),
    decreases rounds.len(),
{
    if rounds.len() == 0 {
        assert(Seq::<u8>::empty() + m[id].unsent() =~= m[id].unsent());
    } else {
        let round = rounds.last();
        let before = after_rounds(m, rounds.drop_last());
        let sent = taken_in_rounds(m, rounds.drop_last(), id);
        waiting_responses_are_delivered(m, rounds.drop_last(), id);
        written_at_most_once(round.conn, before, round.streams, 0, id);
        match answer_of(round.conn, before, round.streams, 0, id) {
            Some(res) => {
                one_send_loses_nothing(before[id], res);
                let taken = bytes_taken(Some(before[id]), res);
                let left = left_unsent(after_send(before[id], res));
                assert(sent + taken + left =~= sent + (taken + left));
            },
            None => {
                assert(sent + Seq::<u8>::empty() =~= sent);
            },
        }
        if !after_rounds(m, rounds).contains_key(id) {
            let all = taken_in_rounds(m, rounds, id);
            assert(all + Seq::<u8>::empty() =~= all);
        }
    }
}

/// What a stream takes of a response, followed by what is left, is what was
/// unsent.
proof fn one_send_loses_nothing(resp: ResponseView, res: Result<usize, Error>)
    requires
        resp.pending(),
        answer_fits(res, resp.unsent().len()),
        res matches Err(e) ==> e is Done,
    ensures
        bytes_taken(Some(resp), res) + left_unsent(after_send(resp, res)) == resp.unsent(),
        after_send(resp, res) matches Some(r) ==> r.pending(),
{
    match res {
        Ok(n) => {
            let next = ResponseView { body: resp.body, written: resp.written + n as nat };
            let taken = resp.unsent().take(n as int);
            assert(resp.unsent() =~= taken + next.unsent());
            if !next.pending() {
                assert(next.unsent() =~= Seq::empty());
            }
        },
        Err(_) => {
            assert(Seq::<u8>::empty() + resp.unsent() =~= resp.unsent());
        },
    }
}

/// Writing on one stream leaves the responses on all others as they are.
pub proof fn streams_are_independent(
    m: Map<u64, ResponseView>,
    id: u64,
    other: u64,
    res: Result<usize, Error>,
)
    requires
        id != other,
    ensures
        responses_after_send(m, id, res).contains_key(other) == m.contains_key(other),
        m.contains_key(other) ==> responses_after_send(m, id, res)[other] == m[other],
{
}

/// What a stream answers is recorded for its response alone: bytes that it took
/// are taken off what waits, the response goes once all of it was taken or the
/// stream failed, and a stream that takes nothing for now changes nothing.
pub proof fn answers_are_recorded(
    m: Map<u64, ResponseView>,
    id: u64,
    other: u64,
    res: Result<usize, Error>,
)
    ensures
        ({
            let after = responses_after_send(m, id, res);
            &&& m.contains_key(id) ==> match res {
                Ok(n) => {
                    let written = m[id].written + n;
                    &&& after.contains_key(id) <==> written < m[id].body.len()
                    &&& after.contains_key(id) ==> after[id].body == m[id].body && after[id].written
                        == written
                },
                Err(Error::Done) => after.contains_key(id) && after[id] == m[id],
                Err(_) => !after.contains_key(id),
            }
            &&& !m.contains_key(id) ==> after == m
            &&& other != id ==> after.contains_key(other) == m.contains_key(other)
            &&& other != id && m.contains_key(other) ==> after[other] == m[other]
        }),
{
}

/// The unsent bytes of a waiting response, all of them and in order, are handed
/// to its stream as the last of the stream. So a response that waits no more, on a
/// stream that did not fail, has had its stream finished. Without a response
/// nothing is handed to the stream.
pub proof fn waiting_bytes_end_their_stream(conn: Connection, m: Map<u64, ResponseView>, id: u64)
    ensures
        m.contains_key(id) ==> {
            let unsent = m[id].body.subrange(m[id].written as int, m[id].body.len() as int);
            &&& m[id].pending() ==> write_one(conn, m, id).0 == after_stream_send(
                conn,
                id,
                unsent,
                true,
            )
            &&& m[id].pending() ==> write_one(conn, m, id).1 == responses_after_send(
                m,
                id,
                send_answer(conn, id, unsent, true),
            )
        },
        !m.contains_key(id) ==> write_one(conn, m, id).0 == conn && write_one(conn, m, id).1 == m,
        m.contains_key(id) ==> (m[id].pending() <==> m[id].written < m[id].body.len()),
{
    if m.contains_key(id) && m[id].pending() {
        let r = m[id];
        assert(r.unsent() =~= r.body.subrange(r.written as int, r.body.len() as int));
    }
}

/// A new response is handed to its stream whole. What the stream does not take
/// waits there, from the first byte that was not taken on; nothing waits if it
/// took all or failed. Every other stream keeps what waits on it.
pub proof fn rest_of_a_new_response_waits(
    m: Map<u64, ResponseView>,
    id: u64,
    other: u64,
    body: Seq<u8>,
    res: Result<usize, Error>,
)
    ensures
        ({
            let after = responses_after_start(m, id, body, res);
            &&& match res {
                Ok(n) => if n < body.len() {
                    after.contains_key(id) && after[id].body == body && after[id].written == n
                } else {
                    after == m
                },
                Err(Error::Done) => if body.len() > 0 {
                    after.contains_key(id) && after[id].body == body && after[id].written == 0
                } else {
                    after == m
                },
                Err(_) => after == m,
            }
            &&& other != id ==> after.contains_key(other) == m.contains_key(other)
            &&& other != id && m.contains_key(other) ==> after[other] == m[other]
        }),
{
}

/// Streams are written one after the other, none left out: one with a response is
/// given its unsent bytes as the last of the stream, in the state that the
/// connection has come to, and one without is passed.
pub proof fn streams_are_written_in_turn(
    conn: Connection,
    m: Map<u64, ResponseView>,
    streams: Seq<u64>,
    i: int,
)
    requires
        0 <= i <= streams.len(),
        all_pending(m),
    ensures
        i == streams.len() ==> write_all(conn, m, streams, i).0 == conn && write_all(
            conn,
            m,
            streams,
            i,
        ).1 == m,
        i < streams.len() && !m.contains_key(streams[i]) ==> write_all(conn, m, streams, i)
            == write_all(conn, m, streams, i + 1),
        i < streams.len() && m.contains_key(streams[i]) ==> {
            let id = streams[i];
            let unsent = m[id].body.subrange(m[id].written as int, m[id].body.len() as int);
            write_all(conn, m, streams, i) == write_all(
                after_stream_send(conn, id, unsent, true),
                responses_after_send(m, id, send_answer(conn, id, unsent, true)),
                streams,
                i + 1,
            )
        },
{
    if i < streams.len() {
        waiting_bytes_end_their_stream(conn, m, streams[i]);
    }
}

/// Waiting responses are written exactly where a connection takes data: on each
/// stream that it takes data on, once. Before that nothing happens.
pub proof fn waiting_responses_are_written_where_possible(
    conn: Connection,
    before: Map<u64, ResponseView>,
    then: Connection,
    after: Map<u64, ResponseView>,
)
    requires
        waiting_written(conn, before, then, after),
    ensures
        !established(conn) && !early_data(conn) ==> then == conn && after == before,
        established(conn) || early_data(conn) ==> exists|streams: Seq<u64>|
            {
                &&& streams.no_duplicates()
                &&& forall|id: u64|
                    streams.contains(id) <==> writable_streams(conn).contains(id)
                &&& (then, after) == #[trigger] write_all(conn, before, streams, 0)
            },
{
    if established(conn) || early_data(conn) {
        let streams = choose|streams: Seq<u64>|
            {
                &&& streams.no_duplicates()
                &&& streams.to_set() == writable_streams(conn)
                &&& sends_fit(conn, before, streams, 0)
                &&& (then, after) == #[trigger] write_all(conn, before, streams, 0)
            };
        assert forall|id: u64|
            streams.contains(id) <==> writable_streams(conn).contains(id) by {
            assert(streams.contains(id) <==> streams.to_set().contains(id));
        }
    }
}

/// A response repeats its request: it is the request, character for character,
/// after a notice of three characters and before the end of a line.
pub proof fn response_repeats_the_request(request: Seq<char>)
    ensures
        response_to(request).len() == request.len() + 4,
        response_to(request).subrange(0, 3) == seq!['收', '到', '：'],
        response_to(request).subrange(3, 3 + request.len() as int) == request,
        response_to(request).last() == '\n',
{
    reveal_strlit("收到：");
    reveal_strlit("\n");
    let text = response_to(request);
    assert(text.subrange(0, 3) =~= seq!['收', '到', '：']);
    assert(text.subrange(3, 3 + request.len() as int) =~= request);
}

} // verus!
