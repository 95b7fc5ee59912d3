//! DNS queries and responses as plain values.
//!
//! These types hold what the resolver reads and decides. Turning them into
//! datagrams and back is the codec's work.

use crate::address::Ipv4;
use crate::name::DomainName;
use vstd::prelude::*;

verus! {

/// One entry of a query's question section.
#[derive(Clone, Debug, PartialEq, Eq)]
pub struct Question {
    /// The domain name asked for, label by label.
    pub name: DomainName,
    /// The same name as text, in the form the codec writes names in. The
    /// name store is asked under the lower case of this text.
    pub text: String,
    /// The record type asked for.
    pub qtype: u16,
    /// The class asked for.
    pub qclass: u16,
}

/// A question as contracts see it.
pub struct QuestionView {
    pub name: Seq<Seq<u8>>,
    pub text: Seq<char>,
    pub qtype: u16,
    pub qclass: u16,
}

impl View for Question {
    type V = QuestionView;

    open spec fn view(&self) -> QuestionView {
        QuestionView {
            name: self.name@,
            text: self.text@,
            qtype: self.qtype,
            qclass: self.qclass,
        }
    }
}

/// An address record for the answer section.
#[derive(Clone, Debug, PartialEq, Eq)]
pub struct Answer {
    /// The owner name, as the question wrote it.
    pub name: DomainName,
    /// The time to live in seconds.
    pub ttl: u32,
    /// The address.
    pub address: Ipv4,
}

/// An answer as contracts see it.
pub struct AnswerView {
    pub name: Seq<Seq<u8>>,
    pub ttl: u32,
    pub address: Ipv4,
}

impl View for Answer {
    type V = AnswerView;

    open spec fn view(&self) -> AnswerView {
        AnswerView { name: self.name@, ttl: self.ttl, address: self.address }
    }
}

/// What the resolver reads of an incoming query.
#[derive(Clone, Debug, PartialEq, Eq)]
pub struct Query {
    /// The transaction id.
    pub id: u16,
    /// The recursion-desired flag.
    pub recursion_desired: bool,
    /// The questions, in the order of the datagram.
    pub questions: Vec<Question>,
}

/// A query as contracts see it.
pub struct QueryView {
    pub id: u16,
    pub recursion_desired: bool,
    pub questions: Seq<QuestionView>,
}

/// The views of a list of questions.
pub open spec fn question_views(questions: Seq<Question>) -> Seq<QuestionView> {
    Seq::new(questions.len(), |i: int| questions[i]@)
}

/// The views of a list of answers.
pub open spec fn answer_views(answers: Seq<Answer>) -> Seq<AnswerView> {
    Seq::new(answers.len(), |i: int| answers[i]@)
}

impl View for Query {
    type V = QueryView;

    open spec fn view(&self) -> QueryView {
        QueryView {
            id: self.id,
            recursion_desired: self.recursion_desired,
            questions: question_views(self.questions@),
        }
    }
}

/// The response codes that the resolver itself gives.
#[derive(Clone, Copy, Debug, PartialEq, Eq, Structural)]
pub enum Rcode {
    /// The query was answered.
    NoError,
    /// The query could not be answered in full.
    ServFail,
}

impl Rcode {
    /// The code as the header carries it.
    pub open spec fn spec_code(self) -> u8 {
        match self {
            Rcode::NoError => 0,
            Rcode::ServFail => 2,
        }
    }

    /// The code as the header carries it.
    #[verifier::when_used_as_spec(spec_code)]
    pub fn code(self) -> (c: u8)
        ensures
            c == self.spec_code(),
    {
        match self {
            Rcode::NoError => 0,
            Rcode::ServFail => 2,
        }
    }
}

/// Whether a message asks or answers.
#[derive(Clone, Copy, Debug, PartialEq, Eq, Structural)]
pub enum MessageKind {
    /// The message is a query.
    Query,
    /// The message is a response.
    Response,
}

/// The operation code of a standard query.
pub const OPCODE_QUERY: u8 = 0;

/// The header fields of a response that is built here, besides the id and
/// the recursion-desired flag, which are the query's.
#[derive(Clone, Copy, Debug, PartialEq, Eq, Structural)]
pub struct Flags {
    /// The message type.
    pub kind: MessageKind,
    /// The operation code.
    pub op_code: u8,
    /// The authoritative flag.
    pub authoritative: bool,
    /// The recursion-available flag.
    pub recursion_available: bool,
    /// The response code.
    pub rcode: Rcode,
}

/// Where the header fields and the records of a response come from.
#[derive(Clone, Debug, PartialEq, Eq)]
pub enum Origin {
    /// The response is built here: it has these header fields and holds no
    /// records but its answers.
    Local { flags: Flags },
    /// The response is an upstream reply, given as its datagram, with the
    /// query's id, flag and questions put in and the answers appended.
    Upstream { reply: Vec<u8> },
}

/// An origin as contracts see it.
pub enum OriginView {
    Local { flags: Flags },
    Upstream { reply: Seq<u8> },
}

impl View for Origin {
    type V = OriginView;

    open spec fn view(&self) -> OriginView {
        match self {
            Origin::Local { flags } => OriginView::Local { flags: *flags },
            Origin::Upstream { reply } => OriginView::Upstream { reply: reply@ },
        }
    }
}

/// A response of the resolver.
#[derive(Clone, Debug, PartialEq, Eq)]
pub struct Response {
    /// The transaction id.
    pub id: u16,
    /// The recursion-desired flag.
    pub recursion_desired: bool,
    /// The question section.
    pub questions: Vec<Question>,
    /// The address records that the name store contributes.
    pub answers: Vec<Answer>,
    /// Where everything else comes from.
    pub origin: Origin,
}

/// A response as contracts see it.
pub struct ResponseView {
    pub id: u16,
    pub recursion_desired: bool,
    pub questions: Seq<QuestionView>,
    pub answers: Seq<AnswerView>,
    pub origin: OriginView,
}

impl View for Response {
    type V = ResponseView;

    open spec fn view(&self) -> ResponseView {
        ResponseView {
            id: self.id,
            recursion_desired: self.recursion_desired,
            questions: question_views(self.questions@),
            answers: answer_views(self.answers@),
            origin: self.origin@,
        }
    }
}

/// What the resolver reads of one record of an answer section.
#[derive(Clone, Debug, PartialEq, Eq)]
pub struct RecordSummary {
    /// The owner name.
    pub name: DomainName,
    /// The address, if the record is an IPv4 address record.
    pub address: Option<Ipv4>,
}

/// A record summary as contracts see it.
pub struct RecordSummaryView {
    pub name: Seq<Seq<u8>>,
    pub address: Option<Ipv4>,
}

impl View for RecordSummary {
    type V = RecordSummaryView;

    open spec fn view(&self) -> RecordSummaryView {
        RecordSummaryView { name: self.name@, address: self.address }
    }
}

/// What the resolver reads of an upstream reply.
#[derive(Clone, Debug, PartialEq, Eq)]
pub struct Upstream {
    /// Whether the datagram says it is a response.
    pub is_response: bool,
    /// The answer section, in the order of the datagram.
    pub answers: Vec<RecordSummary>,
}

/// An upstream reply as contracts see it.
pub struct UpstreamView {
    pub is_response: bool,
    pub answers: Seq<RecordSummaryView>,
}

/// The views of a list of record summaries.
pub open spec fn summary_views(answers: Seq<RecordSummary>) -> Seq<RecordSummaryView> {
    Seq::new(answers.len(), |i: int| answers[i]@)
}

impl View for Upstream {
    type V = UpstreamView;

    open spec fn view(&self) -> UpstreamView {
        UpstreamView {
            is_response: self.is_response,
            answers: summary_views(self.answers@),
        }
    }
}

/// What a datagram holds, as far as the resolver reads it, be it a query
/// or a reply.
pub struct DatagramView {
    pub id: u16,
    pub is_response: bool,
    pub recursion_desired: bool,
    pub questions: Seq<QuestionView>,
    pub answers: Seq<RecordSummaryView>,
}

/// A datagram read as a query.
pub open spec fn query_of(datagram: DatagramView) -> QueryView {
    QueryView {
        id: datagram.id,
        recursion_desired: datagram.recursion_desired,
        questions: datagram.questions,
    }
}

/// A datagram read as an upstream reply.
pub open spec fn upstream_of(datagram: DatagramView) -> UpstreamView {
    UpstreamView { is_response: datagram.is_response, answers: datagram.answers }
}

} // verus!
