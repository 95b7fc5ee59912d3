//! The wire codec: datagrams to plain values and back.
//!
//! The DNS wire format is not written out here. Each function of this
//! module hands its work to the `trust-dns-proto` crate, and its contract
//! is believed, not proved.

use crate::address::Ipv4;
use crate::message::{
    answer_views, query_of, question_views, upstream_of, Answer, AnswerView, DatagramView, Flags,
    MessageKind, Query, Question, QuestionView, RecordSummary, Upstream,
};
use crate::name::DomainName;
use trust_dns_proto::op::{Message, MessageType, OpCode, Query as WireQuery, ResponseCode};
use trust_dns_proto::rr::rdata::A;
use trust_dns_proto::rr::{DNSClass, Name, RData, Record};
use vstd::prelude::*;

verus! {

/// What `Message::from_vec` makes of a datagram, as far as the resolver
/// reads it: `None` where it refuses the datagram.
pub uninterp spec fn decoded(wire: Seq<u8>) -> Option<DatagramView>;

/// The datagram that `Message::to_vec` writes for a message without
/// questions and records that has the id zero, no recursion desired and
/// the header fields `flags`: `None` where the operation code is none that
/// the codec knows or `to_vec` fails.
pub uninterp spec fn header_wire(flags: Flags) -> Option<Seq<u8>>;

/// The datagram that `Message::to_vec` writes for the header in `header`
/// after the id, the recursion-desired flag, the questions and the answers
/// were put in: `None` where a name or a class cannot be written or the
/// questions do not fit a datagram. Answers that do not fit are left out
/// and the datagram is marked as truncated.
pub uninterp spec fn amended_wire(
    header: Seq<u8>,
    id: u16,
    recursion_desired: bool,
    questions: Seq<QuestionView>,
    answers: Seq<AnswerView>,
) -> Option<Seq<u8>>;

/// Whether a datagram is a header that `encode_header` wrote.
pub open spec fn is_header(wire: Seq<u8>) -> bool {
    exists|flags: Flags| #[trigger] header_wire(flags) == Some(wire)
}

/// Reads a datagram as a query.
///
/// Calls `Message::from_vec` and copies out the id, the recursion-desired
/// flag and, for each question, the labels of the name (`Name::iter`), the
/// name as text (`Name::to_ascii`), the type and the class. The result
/// depends on the datagram alone.
#[verifier::external_body]
pub(crate) fn decode_query(wire: &[u8]) -> (query: Option<Query>)
    ensures
        match query {
            Some(q) => decoded(wire@) matches Some(d) && q@ == query_of(d),
            None => decoded(wire@) is None,
        },
{
    let m = Message::from_vec(wire).ok()?;
    let questions = m.queries().iter().map(|q| Question {
        name: DomainName { labels: q.name().iter().map(|l| l.to_vec()).collect() },
        text: q.name().to_ascii(),
        qtype: q.query_type().into(),
        qclass: q.query_class().into(),
    }).collect();
    Some(Query { id: m.id(), recursion_desired: m.recursion_desired(), questions })
}

/// Reads a datagram as an upstream reply.
///
/// Calls `Message::from_vec` and copies out whether the message type is
/// `Response` and, for each record of the answer section, the labels of
/// the owner name (`Name::iter`) and, from an `A` record, the address. The
/// result depends on the datagram alone.
#[verifier::external_body]
pub(crate) fn decode_reply(wire: &[u8]) -> (reply: Option<Upstream>)
    ensures
        match reply {
            Some(u) => decoded(wire@) matches Some(d) && u@ == upstream_of(d),
            None => decoded(wire@) is None,
        },
{
    let m = Message::from_vec(wire).ok()?;
    let answers = m.answers().iter().map(|r| RecordSummary {
        name: DomainName { labels: r.name().iter().map(|l| l.to_vec()).collect() },
        address: r.data().and_then(RData::as_a).map(|a| Ipv4::from_octets(a.octets())),
    }).collect();
    Some(Upstream { is_response: m.message_type() == MessageType::Response, answers })
}

/// Writes the header of a response that is built from scratch.
///
/// Makes a `Message` with `Message::new`, sets the message type, the
/// operation code (`OpCode::from_u8`), the authoritative flag, the
/// recursion-available flag and the response code
/// (`ResponseCode::from_low`) to the given values, and calls
/// `Message::to_vec` on it.
#[verifier::external_body]
pub(crate) fn encode_header(flags: Flags) -> (wire: Option<Vec<u8>>)
    ensures
        match wire {
            Some(w) => header_wire(flags) == Some(w@),
            None => header_wire(flags) is None,
        },
{
    let kind = match flags.kind {
        MessageKind::Query => MessageType::Query,
        MessageKind::Response => MessageType::Response,
    };
    let mut m = Message::new();
    m.set_message_type(kind).set_op_code(OpCode::from_u8(flags.op_code).ok()?);
    m.set_authoritative(flags.authoritative).set_recursion_available(flags.recursion_available);
    m.set_response_code(ResponseCode::from_low(flags.rcode.code()));
    m.to_vec().ok()
}

/// Writes the message in `base` with the query's id, flag and questions
/// put in and the answers appended.
///
/// Reads `base` with `Message::from_vec`, sets the id and the
/// recursion-desired flag, empties the question section
/// (`Message::take_queries`), adds one `Query` per question and, at the end
/// of the answer section, one `A` record of class IN per answer, and calls
/// `Message::to_vec`. Names go through `Name::from_labels` and classes
/// through `DNSClass::from_u16`; where one of these calls fails there is no
/// datagram. The other header fields and records are written as they were
/// read.
///
/// The result is named only where `base` is a header that `encode_header`
/// wrote. Another base may hold EDNS options, which the codec keeps in a
/// hash map and writes in the order in which the map is walked; of such a
/// datagram nothing is promised.
#[verifier::external_body]
pub(crate) fn encode_amended(
    base: &[u8],
    id: u16,
    recursion_desired: bool,
    questions: &Vec<Question>,
    answers: &Vec<Answer>,
) -> (wire: Option<Vec<u8>>)
    ensures
        is_header(base@) ==> match wire {
            Some(w) => amended_wire(
                base@,
                id,
                recursion_desired,
                question_views(questions@),
                answer_views(answers@),
            ) == Some(w@),
            None => amended_wire(
                base@,
                id,
                recursion_desired,
                question_views(questions@),
                answer_views(answers@),
            ) is None,
        },
{
    let mut m = Message::from_vec(base).ok()?;
    m.set_id(id).set_recursion_desired(recursion_desired).take_queries();
    for q in questions {
        let name = Name::from_labels(q.name.labels.clone()).ok()?;
        let mut query = WireQuery::query(name, q.qtype.into());
        query.set_query_class(DNSClass::from_u16(q.qclass).ok()?);
        m.add_query(query);
    }
    for a in answers {
        let name = Name::from_labels(a.name.labels.clone()).ok()?;
        m.add_answer(Record::from_rdata(name, a.ttl, RData::A(A(a.address.octets().into()))));
    }
    m.to_vec().ok()
}

} // verus!
