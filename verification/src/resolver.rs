//! The resolution engine: what a query is answered with.
//!
//! A query whose questions are all known to the name store is answered at
//! once. Any other query is forwarded as it came, and the upstream reply,
//! or its absence, decides the response.

use crate::address::Ipv4;
use crate::codec::{
    amended_wire, decode_query, decode_reply, decoded, encode_amended, encode_header, header_wire,
    is_header,
};
use crate::discovery::{after_started, first_address, key_of};
use crate::message::{
    answer_views, query_of, question_views, summary_views, upstream_of, Answer, AnswerView, Flags,
    MessageKind, Origin, OriginView, Query, QueryView, Question, QuestionView, Rcode,
    RecordSummary, RecordSummaryView, Response, ResponseView, Upstream, UpstreamView,
    OPCODE_QUERY,
};
use crate::name::same_name;
use crate::store::{lookup_in, NameStore};
use crate::text::{ascii_lower, to_lower};
use vstd::slice::slice_to_vec;
use vstd::prelude::*;

verus! {

/// The time to live, in seconds, of every answer given from the name store.
pub const ANSWER_TTL: u32 = 300;

/// The key under which a question is looked up in the name store: the
/// text of its name in lower case.
pub open spec fn lookup_key(question: QuestionView) -> Seq<char> {
    ascii_lower(question.text)
}

/// The address that the store has for a question, if any.
pub open spec fn hit(records: Map<Seq<char>, Ipv4>, question: QuestionView) -> Option<Ipv4> {
    lookup_in(records, lookup_key(question))
}

/// The header fields of the response to a query that the store answers in
/// full: a response to a standard query, authoritative, without recursion
/// on offer and without error.
pub open spec fn answered_flags() -> Flags {
    Flags {
        kind: MessageKind::Response,
        op_code: OPCODE_QUERY,
        authoritative: true,
        recursion_available: false,
        rcode: Rcode::NoError,
    }
}

/// The header fields of the response when no upstream reply can be used:
/// a response to a standard query, without recursion on offer, with the
/// code for a server failure. With answers the response is not
/// authoritative; without, it keeps the authoritative flag that every
/// response built here starts with.
pub open spec fn failure_flags(answers: nat) -> Flags {
    Flags {
        kind: MessageKind::Response,
        op_code: OPCODE_QUERY,
        authoritative: answers == 0,
        recursion_available: false,
        rcode: Rcode::ServFail,
    }
}

/// The answer to a question whose name has the address `address`.
pub open spec fn answer_for(question: QuestionView, address: Ipv4) -> AnswerView {
    AnswerView { name: question.name, ttl: ANSWER_TTL, address }
}

/// The answers that the store gives to `questions`: one for each question
/// it has an address for, in the order of the questions.
pub open spec fn local_answers(
    records: Map<Seq<char>, Ipv4>,
    questions: Seq<QuestionView>,
) -> Seq<AnswerView>
    decreases questions.len(),
{
    if questions.len() == 0 {
        Seq::empty()
    } else {
        let before = local_answers(records, questions.drop_last());
        match hit(records, questions.last()) {
            Some(address) => before.push(answer_for(questions.last(), address)),
            None => before,
        }
    }
}

/// Whether the store has an address for every one of `questions`.
pub open spec fn all_hit(records: Map<Seq<char>, Ipv4>, questions: Seq<QuestionView>) -> bool {
    forall|i: int| 0 <= i < questions.len() ==> (#[trigger] hit(records, questions[i])) is Some
}

/// Whether a query with `questions` is answered without forwarding: it
/// asks at least one question and the store knows them all.
pub open spec fn answered_locally(
    records: Map<Seq<char>, Ipv4>,
    questions: Seq<QuestionView>,
) -> bool {
    questions.len() > 0 && all_hit(records, questions)
}

/// What is kept of a query while it is with the upstream servers.
#[derive(Clone, Debug, PartialEq, Eq)]
pub struct Pending {
    /// The transaction id of the query.
    pub id: u16,
    /// The recursion-desired flag of the query.
    pub recursion_desired: bool,
    /// The questions of the query.
    pub questions: Vec<Question>,
    /// The answers that the store gave.
    pub local: Vec<Answer>,
}

/// A pending query as contracts see it.
pub struct PendingView {
    pub id: u16,
    pub recursion_desired: bool,
    pub questions: Seq<QuestionView>,
    pub local: Seq<AnswerView>,
}

impl View for Pending {
    type V = PendingView;

    open spec fn view(&self) -> PendingView {
        PendingView {
            id: self.id,
            recursion_desired: self.recursion_desired,
            questions: question_views(self.questions@),
            local: answer_views(self.local@),
        }
    }
}

/// The outcome of looking a query up in the store.
#[derive(Clone, Debug, PartialEq, Eq)]
pub enum Resolution {
    /// Every question was answered: this is the response.
    Answered(Response),
    /// A question was not answered: the query is to be forwarded.
    Forward(Pending),
}

/// A resolution as contracts see it.
pub enum ResolutionView {
    Answered(ResponseView),
    Forward(PendingView),
}

impl View for Resolution {
    type V = ResolutionView;

    open spec fn view(&self) -> ResolutionView {
        match self {
            Resolution::Answered(response) => ResolutionView::Answered(response@),
            Resolution::Forward(pending) => ResolutionView::Forward(pending@),
        }
    }
}

/// The response to a query that the store answers in full: authoritative,
/// without error, one answer per question.
pub open spec fn local_response(query: QueryView, records: Map<Seq<char>, Ipv4>) -> ResponseView {
    ResponseView {
        id: query.id,
        recursion_desired: query.recursion_desired,
        questions: query.questions,
        answers: local_answers(records, query.questions),
        origin: OriginView::Local { flags: answered_flags() },
    }
}

/// What is kept of a query that has to be forwarded.
pub open spec fn pending_of(query: QueryView, records: Map<Seq<char>, Ipv4>) -> PendingView {
    PendingView {
        id: query.id,
        recursion_desired: query.recursion_desired,
        questions: query.questions,
        local: local_answers(records, query.questions),
    }
}

/// The outcome of looking `query` up in a store with the records
/// `records`.
pub open spec fn resolution_of(query: QueryView, records: Map<Seq<char>, Ipv4>) -> ResolutionView {
    if answered_locally(records, query.questions) {
        ResolutionView::Answered(local_response(query, records))
    } else {
        ResolutionView::Forward(pending_of(query, records))
    }
}

/// Looks every question of `query` up in the store.
///
/// If the query asks at least one question and the store has an address
/// for each, the result is the authoritative response with one answer per
/// question, in question order. Otherwise the query is to be forwarded,
/// and the result holds the answers that the store did give.
pub fn resolve(query: Query, store: &NameStore) -> (resolution: Resolution)
    ensures
        resolution@ == resolution_of(query@, store@),
{
    let ghost asked = question_views(query.questions@);
    let mut answers: Vec<Answer> = Vec::new();
    let mut all = true;
    let mut i: usize = 0;
    while i < query.questions.len()
        invariant
            i <= query.questions.len(),
            asked == question_views(query.questions@),
            answer_views(answers@) == local_answers(store@, asked.take(i as int)),
            all == all_hit(store@, asked.take(i as int)),
        decreases query.questions.len() - i,
    {
        let question = &query.questions[i];
        let key = to_lower(question.text.as_str());
        let ghost before = answer_views(answers@);
        proof {
            assert(asked.take(i + 1).drop_last() =~= asked.take(i as int));
            assert(asked.take(i + 1).last() == question@);
        }
        match store.lookup(key.as_str()) {
            Some(address) => {
                let answer = Answer { name: question.name.duplicate(), ttl: ANSWER_TTL, address };
                answers.push(answer);
                proof {
                    assert(answer_views(answers@) =~= before.push(answer_for(question@, address)));
                }
            },
            None => {
                all = false;
            },
        }
        proof {
            let now = asked.take(i + 1);
            let was = asked.take(i as int);
            assert(forall|j: int| 0 <= j < was.len() ==> was[j] == now[j]);
            if all {
                assert forall|j: int| 0 <= j < now.len() implies (#[trigger] hit(
                    store@,
                    now[j],
                )) is Some by {
                    if j < i {
                        assert(hit(store@, was[j]) is Some);
                    }
                }
            } else {
                if all_hit(store@, now) {
                    if hit(store@, question@) is Some {
                        assert forall|j: int| 0 <= j < was.len() implies (#[trigger] hit(
                            store@,
                            was[j],
                        )) is Some by {
                            assert(hit(store@, now[j]) is Some);
                        }
                    } else {
                        assert(hit(store@, now[i as int]) is Some);
                    }
                }
            }
        }
        i = i + 1;
    }
    proof {
        assert(asked.take(i as int) =~= asked);
    }
    if all && query.questions.len() > 0 {
        let flags = Flags {
            kind: MessageKind::Response,
            op_code: OPCODE_QUERY,
            authoritative: true,
            recursion_available: false,
            rcode: Rcode::NoError,
        };
        Resolution::Answered(
            Response {
                id: query.id,
                recursion_desired: query.recursion_desired,
                questions: query.questions,
                answers,
                origin: Origin::Local { flags },
            },
        )
    } else {
        Resolution::Forward(
            Pending {
                id: query.id,
                recursion_desired: query.recursion_desired,
                questions: query.questions,
                local: answers,
            },
        )
    }
}

/// Whether an upstream record says what `answer` says: the same address
/// for the same name.
pub open spec fn same_record(record: RecordSummaryView, answer: AnswerView) -> bool {
    record.address == Some(answer.address) && same_name(record.name, answer.name)
}

/// Whether the upstream answer section already holds `answer`.
pub open spec fn represented(upstream: Seq<RecordSummaryView>, answer: AnswerView) -> bool {
    exists|i: int| 0 <= i < upstream.len() && same_record(#[trigger] upstream[i], answer)
}

/// The answers of `local` that the upstream answer section does not hold,
/// in their order.
pub open spec fn unrepresented(
    local: Seq<AnswerView>,
    upstream: Seq<RecordSummaryView>,
) -> Seq<AnswerView>
    decreases local.len(),
{
    if local.len() == 0 {
        Seq::empty()
    } else {
        let before = unrepresented(local.drop_last(), upstream);
        if represented(upstream, local.last()) {
            before
        } else {
            before.push(local.last())
        }
    }
}

/// The response when no upstream reply can be used: the answers the store
/// gave, under the header fields of a failure.
pub open spec fn failure_response(pending: PendingView) -> ResponseView {
    ResponseView {
        id: pending.id,
        recursion_desired: pending.recursion_desired,
        questions: pending.questions,
        answers: pending.local,
        origin: OriginView::Local { flags: failure_flags(pending.local.len()) },
    }
}

/// The response on top of a usable upstream reply: the reply with the
/// query's id, flag and questions, and with the store's answers appended
/// as far as the reply does not hold them already.
pub open spec fn merged_response(
    pending: PendingView,
    reply: Seq<u8>,
    upstream: UpstreamView,
) -> ResponseView {
    ResponseView {
        id: pending.id,
        recursion_desired: pending.recursion_desired,
        questions: pending.questions,
        answers: unrepresented(pending.local, upstream.answers),
        origin: OriginView::Upstream { reply },
    }
}

/// The response to a forwarded query, given the datagram that came back
/// and what the codec made of it. A datagram that cannot be read, or that
/// is not a response, is no better than none.
pub open spec fn response_after(
    pending: PendingView,
    reply: Seq<u8>,
    read: Option<UpstreamView>,
) -> ResponseView {
    match read {
        Some(upstream) if upstream.is_response => merged_response(pending, reply, upstream),
        _ => failure_response(pending),
    }
}

/// Whether the upstream answer section already holds `answer`.
fn is_represented(upstream: &Vec<RecordSummary>, answer: &Answer) -> (found: bool)
    ensures
        found == represented(summary_views(upstream@), answer@),
{
    let mut i: usize = 0;
    while i < upstream.len()
        invariant
            i <= upstream.len(),
            forall|j: int|
                0 <= j < i ==> !same_record(#[trigger] summary_views(upstream@)[j], answer@),
        decreases upstream.len() - i,
    {
        let record = &upstream[i];
        proof {
            assert(summary_views(upstream@)[i as int] == record@);
        }
        match record.address {
            Some(address) => {
                if address == answer.address && record.name.same_as(&answer.name) {
                    return true;
                }
            },
            None => {},
        }
        i = i + 1;
    }
    false
}

/// The response when no upstream reply can be used.
pub fn fail(pending: Pending) -> (response: Response)
    ensures
        response@ == failure_response(pending@),
{
    let flags = Flags {
        kind: MessageKind::Response,
        op_code: OPCODE_QUERY,
        authoritative: pending.local.len() == 0,
        recursion_available: false,
        rcode: Rcode::ServFail,
    };
    Response {
        id: pending.id,
        recursion_desired: pending.recursion_desired,
        questions: pending.questions,
        answers: pending.local,
        origin: Origin::Local { flags },
    }
}

/// The response to a forwarded query, given the datagram that came back
/// and what the codec made of it.
///
/// A reply that was read and is a response becomes the base: the response
/// is that reply with the query's id, flag and questions, and with the
/// store's answers behind the reply's own, except those that the reply
/// already holds. Any other reply gives the failure response.
pub fn merge(pending: Pending, reply: Vec<u8>, read: Option<Upstream>) -> (response: Response)
    ensures
        response@ == response_after(
            pending@,
            reply@,
            match read {
                Some(u) => Some(u@),
                None => None,
            },
        ),
{
    let upstream = match read {
        Some(u) => u,
        None => {
            return fail(pending);
        },
    };
    if !upstream.is_response {
        return fail(pending);
    }
    let ghost local = answer_views(pending.local@);
    let ghost theirs = summary_views(upstream.answers@);
    let mut kept: Vec<Answer> = Vec::new();
    let mut i: usize = 0;
    while i < pending.local.len()
        invariant
            i <= pending.local.len(),
            local == answer_views(pending.local@),
            theirs == summary_views(upstream.answers@),
            answer_views(kept@) == unrepresented(local.take(i as int), theirs),
        decreases pending.local.len() - i,
    {
        let answer = &pending.local[i];
        let ghost before = answer_views(kept@);
        proof {
            assert(local.take(i + 1).drop_last() =~= local.take(i as int));
            assert(local.take(i + 1).last() == answer@);
        }
        if !is_represented(&upstream.answers, answer) {
            let copy = Answer {
                name: answer.name.duplicate(),
                ttl: answer.ttl,
                address: answer.address,
            };
            kept.push(copy);
            proof {
                assert(answer_views(kept@) =~= before.push(answer@));
            }
        }
        i = i + 1;
    }
    proof {
        assert(local.take(i as int) =~= local);
    }
    Response {
        id: pending.id,
        recursion_desired: pending.recursion_desired,
        questions: pending.questions,
        answers: kept,
        origin: Origin::Upstream { reply },
    }
}

/// The datagram of a response that is built here: `None` where the codec
/// cannot write it.
///
/// The response is written on top of an empty message that holds its
/// header fields. Of a response on top of an upstream reply this says
/// nothing: what the codec writes for it is not fixed by the reply alone.
pub open spec fn built_wire(response: ResponseView) -> Option<Seq<u8>> {
    match response.origin {
        OriginView::Local { flags } => match header_wire(flags) {
            Some(header) => amended_wire(
                header,
                response.id,
                response.recursion_desired,
                response.questions,
                response.answers,
            ),
            None => None,
        },
        OriginView::Upstream { reply } => None,
    }
}

/// Writes a response as a datagram. `None` where the codec cannot write
/// it: a name, a class or an operation code that it does not take, a base
/// that it cannot read, or questions that do not fit a datagram. Records
/// that do not fit are left out and the datagram is marked as truncated.
///
/// For a response that is built here the datagram is the one that
/// `built_wire` names. For a response on top of an upstream reply the
/// codec decides, and nothing is said of the datagram.
pub fn encode(response: &Response) -> (wire: Option<Vec<u8>>)
    ensures
        response@.origin is Local ==> match wire {
            Some(w) => built_wire(response@) == Some(w@),
            None => built_wire(response@) is None,
        },
{
    match &response.origin {
        Origin::Local { flags } => {
            match encode_header(*flags) {
                Some(header) => {
                    proof {
                        assert(header_wire(*flags) == Some(header@));
                        assert(is_header(header@));
                    }
                    encode_amended(
                        header.as_slice(),
                        response.id,
                        response.recursion_desired,
                        &response.questions,
                        &response.answers,
                    )
                },
                None => None,
            }
        },
        Origin::Upstream { reply } => encode_amended(
            reply.as_slice(),
            response.id,
            response.recursion_desired,
            &response.questions,
            &response.answers,
        ),
    }
}

/// Why a query gets no response.
#[derive(Clone, Copy, Debug, PartialEq, Eq, Structural)]
pub enum QueryError {
    /// The datagram is not a DNS message.
    Malformed,
    /// The response cannot be written as a datagram.
    Unencodable,
}

/// What is to be done about a query after the store was asked.
#[derive(Clone, Debug, PartialEq, Eq)]
pub enum Dispatch {
    /// The store answered in full: `wire` is the datagram of `response`
    /// and is to be sent.
    Send { wire: Vec<u8>, response: Response },
    /// `datagram`, the query as it came, is to be forwarded, and the reply,
    /// or the news that none came, is to be handed to `finish_query` with
    /// `pending`.
    Forward { pending: Pending, datagram: Vec<u8> },
}

/// A dispatch as contracts see it.
pub enum DispatchView {
    Send { wire: Seq<u8>, response: ResponseView },
    Forward { pending: PendingView, datagram: Seq<u8> },
}

impl View for Dispatch {
    type V = DispatchView;

    open spec fn view(&self) -> DispatchView {
        match self {
            Dispatch::Send { wire, response } => DispatchView::Send {
                wire: wire@,
                response: response@,
            },
            Dispatch::Forward { pending, datagram } => DispatchView::Forward {
                pending: pending@,
                datagram: datagram@,
            },
        }
    }
}

/// What is done about the datagram `data` by a resolver whose store holds
/// `records`.
pub open spec fn handled(data: Seq<u8>, records: Map<Seq<char>, Ipv4>) -> Result<
    DispatchView,
    QueryError,
> {
    match decoded(data) {
        None => Err(QueryError::Malformed),
        Some(datagram) => match resolution_of(query_of(datagram), records) {
            ResolutionView::Answered(response) => match built_wire(response) {
                Some(wire) => Ok(DispatchView::Send { wire, response }),
                None => Err(QueryError::Unencodable),
            },
            ResolutionView::Forward(pending) => Ok(
                DispatchView::Forward { pending, datagram: data },
            ),
        },
    }
}

/// Takes an incoming datagram as far as the store can: a datagram that is
/// no DNS message is refused, a query that the store answers in full gets
/// its response, and any other query is to be forwarded unchanged.
pub fn handle_dns_query(data: &[u8], store: &NameStore) -> (outcome: Result<Dispatch, QueryError>)
    ensures
        match outcome {
            Ok(dispatch) => handled(data@, store@) == Ok::<DispatchView, QueryError>(dispatch@),
            Err(e) => handled(data@, store@) == Err::<DispatchView, QueryError>(e),
        },
{
    let query = match decode_query(data) {
        Some(q) => q,
        None => {
            return Err(QueryError::Malformed);
        },
    };
    match resolve(query, store) {
        Resolution::Answered(response) => match encode(&response) {
            Some(wire) => Ok(Dispatch::Send { wire, response }),
            None => Err(QueryError::Unencodable),
        },
        Resolution::Forward(pending) => Ok(
            Dispatch::Forward { pending, datagram: slice_to_vec(data) },
        ),
    }
}

/// The bytes of a datagram that may be missing.
pub open spec fn datagram_view(datagram: Option<Vec<u8>>) -> Option<Seq<u8>> {
    match datagram {
        Some(wire) => Some(wire@),
        None => None,
    }
}

/// The response to a forwarded query: on top of the reply if one came and
/// can be used, the failure response otherwise.
pub open spec fn response_to_forwarded(
    pending: PendingView,
    reply: Option<Seq<u8>>,
) -> ResponseView {
    match reply {
        Some(wire) => response_after(
            pending,
            wire,
            match decoded(wire) {
                Some(datagram) => Some(upstream_of(datagram)),
                None => None,
            },
        ),
        None => failure_response(pending),
    }
}

/// The response to a forwarded query. `reply` is the datagram of the first
/// upstream server that replied, or `None` if every server failed.
pub fn conclude(pending: Pending, reply: Option<Vec<u8>>) -> (response: Response)
    ensures
        response@ == response_to_forwarded(pending@, datagram_view(reply)),
{
    match reply {
        Some(wire) => {
            let upstream = decode_reply(wire.as_slice());
            merge(pending, wire, upstream)
        },
        None => fail(pending),
    }
}

/// The end of a forwarded query.
#[derive(Clone, Debug, PartialEq, Eq)]
pub struct Finished {
    /// The response that was handed to the codec.
    pub response: Response,
    /// The datagram for the client, `None` where the codec wrote none.
    pub wire: Option<Vec<u8>>,
}

/// Ends a forwarded query. `reply` is the datagram of the first upstream
/// server that replied, or `None` if every server failed.
///
/// The response is fixed by the query and the reply. So is the datagram of
/// a failure response. The datagram of a response on top of the upstream
/// reply is what the codec made of that response.
pub fn finish_query(pending: Pending, reply: Option<Vec<u8>>) -> (finished: Finished)
    ensures
        finished.response@ == response_to_forwarded(pending@, datagram_view(reply)),
        finished.response@.origin is Local ==> datagram_view(finished.wire) == built_wire(
            finished.response@,
        ),
{
    let response = conclude(pending, reply);
    let wire = encode(&response);
    Finished { response, wire }
}

/// The response that a query gets in the end: the local one if the store
/// answers it in full, else the one that follows from the upstream reply
/// `reply`, `None` standing for the failure of every server.
pub open spec fn response_to(
    query: QueryView,
    records: Map<Seq<char>, Ipv4>,
    reply: Option<Seq<u8>>,
) -> ResponseView {
    match resolution_of(query, records) {
        ResolutionView::Answered(response) => response,
        ResolutionView::Forward(pending) => response_to_forwarded(pending, reply),
    }
}

/// Every response echoes its query: the questions, all of them and in
/// their order, the transaction id and the recursion-desired flag are
/// those of the query, whatever the store holds and whatever came back
/// from upstream.
pub proof fn lemma_response_echoes_query(
    query: QueryView,
    records: Map<Seq<char>, Ipv4>,
    reply: Option<Seq<u8>>,
)
    ensures
        response_to(query, records, reply).questions == query.questions,
        response_to(query, records, reply).id == query.id,
        response_to(query, records, reply).recursion_desired == query.recursion_desired,
{
}

/// When the store knows every question, the answers are one per question,
/// in question order, each with the question's name, the fixed time to
/// live and the address on record.
pub proof fn lemma_one_answer_per_question(
    records: Map<Seq<char>, Ipv4>,
    questions: Seq<QuestionView>,
)
    requires
        all_hit(records, questions),
    ensures
        local_answers(records, questions).len() == questions.len(),
        forall|i: int|
            0 <= i < questions.len() ==> #[trigger] local_answers(records, questions)[i]
                == answer_for(questions[i], hit(records, questions[i])->0),
    decreases questions.len(),
{
    if questions.len() > 0 {
        let before = questions.drop_last();
        assert forall|i: int| 0 <= i < before.len() implies (#[trigger] hit(
            records,
            before[i],
        )) is Some by {
            assert(hit(records, questions[i]) is Some);
        }
        lemma_one_answer_per_question(records, before);
        assert(hit(records, questions.last()) is Some);
        assert forall|i: int| 0 <= i < questions.len() implies #[trigger] local_answers(
            records,
            questions,
        )[i] == answer_for(questions[i], hit(records, questions[i])->0) by {
            if i < before.len() {
                assert(local_answers(records, before)[i] == answer_for(
                    before[i],
                    hit(records, before[i])->0,
                ));
            }
        }
    }
}

/// A query that the store knows nothing of gets no answer from it.
pub proof fn lemma_no_hit_no_answer(records: Map<Seq<char>, Ipv4>, questions: Seq<QuestionView>)
    requires
        forall|i: int| 0 <= i < questions.len() ==> (#[trigger] hit(records, questions[i])) is None,
    ensures
        local_answers(records, questions).len() == 0,
    decreases questions.len(),
{
    if questions.len() > 0 {
        let before = questions.drop_last();
        assert forall|i: int| 0 <= i < before.len() implies (#[trigger] hit(
            records,
            before[i],
        )) is None by {
            assert(hit(records, questions[i]) is None);
        }
        lemma_no_hit_no_answer(records, before);
        assert(hit(records, questions[questions.len() - 1]) is None);
    }
}

/// Merging loses no answer of the store: each one is either appended to
/// the upstream reply or already held by it.
pub proof fn lemma_no_local_answer_lost(
    local: Seq<AnswerView>,
    upstream: Seq<RecordSummaryView>,
    i: int,
)
    requires
        0 <= i < local.len(),
    ensures
        represented(upstream, local[i]) || unrepresented(local, upstream).contains(local[i]),
    decreases local.len(),
{
    let before = local.drop_last();
    let kept = unrepresented(before, upstream);
    if i < before.len() {
        lemma_no_local_answer_lost(before, upstream, i);
        if !represented(upstream, local[i]) {
            let k = choose|k: int| 0 <= k < kept.len() && kept[k] == before[i];
            assert(unrepresented(local, upstream)[k] == local[i]);
        }
    } else {
        if !represented(upstream, local[i]) {
            assert(unrepresented(local, upstream)[kept.len() as int] == local[i]);
        }
    }
}

/// Every response that is built here is a response to a standard query
/// and offers no recursion; one that answers in full is authoritative and
/// without error, and a failure has the code for a server failure. Every
/// response on top of an upstream reply has a reply that was read as a
/// response.
pub proof fn lemma_response_header(
    query: QueryView,
    records: Map<Seq<char>, Ipv4>,
    reply: Option<Seq<u8>>,
)
    ensures
        match response_to(query, records, reply).origin {
            OriginView::Local { flags } => {
                &&& flags.kind == MessageKind::Response
                &&& flags.op_code == OPCODE_QUERY
                &&& !flags.recursion_available
                &&& answered_locally(records, query.questions) ==> flags.authoritative
                    && flags.rcode == Rcode::NoError
                &&& !answered_locally(records, query.questions) ==> flags.rcode
                    == Rcode::ServFail
            },
            OriginView::Upstream { reply: base } => {
                &&& reply == Some(base)
                &&& decoded(base) matches Some(datagram)
                &&& datagram.is_response
            },
        },
{
}

/// What discovery records, the resolver finds: once a started workload
/// was recorded, a question whose name in lower case is the workload's key
/// is answered with the recorded address.
pub proof fn lemma_recorded_workload_is_found(
    records: Map<Seq<char>, Ipv4>,
    workload: Seq<char>,
    addresses: Seq<Option<Ipv4>>,
    question: QuestionView,
)
    requires
        lookup_key(question) == key_of(workload),
        first_address(addresses) is Some,
        !records.contains_key(key_of(workload)),
    ensures
        hit(after_started(records, workload, addresses), question) == first_address(addresses),
{
}

} // verus!
