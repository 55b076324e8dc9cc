//! The requests that the driver sends and the responses that it reads, as
//! its own values.

use crate::address::Address;
use crate::concept::{
    concept_map_error, describes_concept_map, missing, unexpected, ConceptMap, ConceptMapProto,
    Numeric, NumericProto, NumericValueProto,
};
use crate::database::DatabaseInfo;
use crate::error::{Error, ErrorView, InternalError};
use crate::id::ID;
use crate::options::{Options, OptionsProto, SessionType, TransactionType};
use vstd::prelude::*;
use vstd::string::*;

verus! {

/// A query with its options.
#[derive(Clone, Debug)]
pub enum QueryRequest {
    Define { query: String, options: Options },
    Undefine { query: String, options: Options },
    Delete { query: String, options: Options },
    Match { query: String, options: Options },
    Insert { query: String, options: Options },
    Update { query: String, options: Options },
    MatchAggregate { query: String, options: Options },
    Explain { explainable_id: i64, options: Options },
    MatchGroup { query: String, options: Options },
    MatchGroupAggregate { query: String, options: Options },
}

/// What is sent within a transaction.
#[derive(Clone, Debug)]
pub enum TransactionRequest {
    Open {
        session_id: ID,
        transaction_type: TransactionType,
        options: Options,
        network_latency_millis: u64,
    },
    Commit,
    Rollback,
    Query(QueryRequest),
    Stream { request_id: ID },
}

/// What is sent to a server.
#[derive(Clone, Debug)]
pub enum Request {
    ServersAll,
    DatabasesContains { database_name: String },
    DatabaseCreate { database_name: String },
    DatabaseGet { database_name: String },
    DatabasesAll,
    DatabaseSchema { database_name: String },
    DatabaseTypeSchema { database_name: String },
    DatabaseRuleSchema { database_name: String },
    DatabaseDelete { database_name: String },
    SessionOpen { database_name: String, session_type: SessionType, options: Options },
    SessionClose { session_id: ID },
    SessionPulse { session_id: ID },
    Transaction(TransactionRequest),
}

/// What a server answers.
#[derive(Debug)]
pub enum Response {
    ServersAll { servers: Vec<Address> },
    DatabasesContains { contains: bool },
    DatabaseCreate,
    DatabaseGet { database: DatabaseInfo },
    DatabasesAll { databases: Vec<DatabaseInfo> },
    DatabaseDelete,
    DatabaseSchema { schema: String },
    DatabaseTypeSchema { schema: String },
    DatabaseRuleSchema { schema: String },
    SessionOpen { session_id: ID, server_duration_millis: u64 },
    SessionPulse,
    SessionClose,
    TransactionOpen,
}

/// Which schema of a database is asked for.
#[derive(Clone, Copy, Debug, PartialEq, Eq, Structural)]
pub enum SchemaKind {
    Full,
    Types,
    Rules,
}

impl Response {
    /// Reads the answer to `DatabasesContains`. Any other response is
    /// refused with an internal error.
    pub fn into_contains(self) -> (res: Result<bool, Error>)
        ensures
            match res {
                Ok(contains) => self matches Response::DatabasesContains { contains: c } && c
                    == contains,
                Err(error) => !(self is DatabasesContains) && error@ == unexpected(),
            },
    {
        match self {
            Response::DatabasesContains { contains } => Ok(contains),
            _ => Err(Error::InternalError(InternalError::UnexpectedResponseType)),
        }
    }

    /// Reads the answer to `DatabaseGet`. Any other response is refused
    /// with an internal error.
    pub fn into_database(self) -> (res: Result<DatabaseInfo, Error>)
        ensures
            match res {
                Ok(database) => self matches Response::DatabaseGet { database: d } && d
                    == database,
                Err(error) => !(self is DatabaseGet) && error@ == unexpected(),
            },
    {
        match self {
            Response::DatabaseGet { database } => Ok(database),
            _ => Err(Error::InternalError(InternalError::UnexpectedResponseType)),
        }
    }

    /// Reads the answer to `DatabasesAll`. Any other response is refused
    /// with an internal error.
    pub fn into_databases(self) -> (res: Result<Vec<DatabaseInfo>, Error>)
        ensures
            match res {
                Ok(databases) => self matches Response::DatabasesAll { databases: d } && d
                    == databases,
                Err(error) => !(self is DatabasesAll) && error@ == unexpected(),
            },
    {
        match self {
            Response::DatabasesAll { databases } => Ok(databases),
            _ => Err(Error::InternalError(InternalError::UnexpectedResponseType)),
        }
    }

    /// Reads the answer to `ServersAll`. Any other response is refused with
    /// an internal error.
    pub fn into_servers(self) -> (res: Result<Vec<Address>, Error>)
        ensures
            match res {
                Ok(servers) => self matches Response::ServersAll { servers: s } && s == servers,
                Err(error) => !(self is ServersAll) && error@ == unexpected(),
            },
    {
        match self {
            Response::ServersAll { servers } => Ok(servers),
            _ => Err(Error::InternalError(InternalError::UnexpectedResponseType)),
        }
    }

    /// Which schema the response holds, if it holds one.
    pub open spec fn schema_kind(self) -> Option<SchemaKind> {
        match self {
            Response::DatabaseSchema { schema } => Some(SchemaKind::Full),
            Response::DatabaseTypeSchema { schema } => Some(SchemaKind::Types),
            Response::DatabaseRuleSchema { schema } => Some(SchemaKind::Rules),
            _ => None,
        }
    }

    /// The schema that the response holds, if it holds one.
    pub open spec fn schema_text(self) -> Seq<char> {
        match self {
            Response::DatabaseSchema { schema } => schema@,
            Response::DatabaseTypeSchema { schema } => schema@,
            Response::DatabaseRuleSchema { schema } => schema@,
            _ => Seq::empty(),
        }
    }

    /// Reads the schema that was asked for. A response that holds another
    /// schema, or none, is refused with an internal error.
    pub fn into_schema(self, kind: SchemaKind) -> (res: Result<String, Error>)
        ensures
            match res {
                Ok(schema) => self.schema_kind() == Some(kind) && schema@ == self.schema_text(),
                Err(error) => self.schema_kind() != Some(kind) && error@ == unexpected(),
            },
    {
        match (kind, self) {
            (SchemaKind::Full, Response::DatabaseSchema { schema }) => Ok(schema),
            (SchemaKind::Types, Response::DatabaseTypeSchema { schema }) => Ok(schema),
            (SchemaKind::Rules, Response::DatabaseRuleSchema { schema }) => Ok(schema),
            _ => Err(Error::InternalError(InternalError::UnexpectedResponseType)),
        }
    }

    /// Reads the answer to `SessionOpen`: the id that the server gave the
    /// session, and how long the server took, in milliseconds. Any other
    /// response is refused with an internal error.
    pub fn into_session(self) -> (res: Result<(ID, u64), Error>)
        ensures
            match res {
                Ok((id, duration)) => self matches Response::SessionOpen {
                    session_id,
                    server_duration_millis,
                } && session_id == id && server_duration_millis == duration,
                Err(error) => !(self is SessionOpen) && error@ == unexpected(),
            },
    {
        match self {
            Response::SessionOpen { session_id, server_duration_millis } => Ok(
                (session_id, server_duration_millis),
            ),
            _ => Err(Error::InternalError(InternalError::UnexpectedResponseType)),
        }
    }
}

/// The queries that the wire knows.
#[derive(Clone, Copy, Debug, PartialEq, Eq, Structural)]
pub enum QueryKind {
    Define,
    Undefine,
    Delete,
    Match,
    Insert,
    Update,
    MatchAggregate,
}

/// A query as it is sent.
#[derive(Debug)]
pub struct QueryManagerReqProto {
    pub kind: QueryKind,
    pub query: String,
    pub options: OptionsProto,
}

/// The error that says that a query cannot be sent yet.
pub open spec fn not_implemented() -> ErrorView {
    ErrorView::Other("this kind of query is not implemented"@)
}

impl QueryRequest {
    /// How the query is sent, if it can be sent.
    pub open spec fn wire_kind(self) -> Option<QueryKind> {
        match self {
            QueryRequest::Define { .. } => Some(QueryKind::Define),
            QueryRequest::Undefine { .. } => Some(QueryKind::Undefine),
            QueryRequest::Delete { .. } => Some(QueryKind::Delete),
            QueryRequest::Match { .. } => Some(QueryKind::Match),
            QueryRequest::Insert { .. } => Some(QueryKind::Insert),
            QueryRequest::Update { .. } => Some(QueryKind::Update),
            QueryRequest::MatchAggregate { .. } => Some(QueryKind::MatchAggregate),
            _ => None,
        }
    }

    /// The text of the query, if it has one.
    pub open spec fn text(self) -> Seq<char> {
        match self {
            QueryRequest::Define { query, .. } => query@,
            QueryRequest::Undefine { query, .. } => query@,
            QueryRequest::Delete { query, .. } => query@,
            QueryRequest::Match { query, .. } => query@,
            QueryRequest::Insert { query, .. } => query@,
            QueryRequest::Update { query, .. } => query@,
            QueryRequest::MatchAggregate { query, .. } => query@,
            QueryRequest::MatchGroup { query, .. } => query@,
            QueryRequest::MatchGroupAggregate { query, .. } => query@,
            QueryRequest::Explain { .. } => Seq::empty(),
        }
    }

    /// The options of the query.
    pub open spec fn options(self) -> Options {
        match self {
            QueryRequest::Define { options, .. } => options,
            QueryRequest::Undefine { options, .. } => options,
            QueryRequest::Delete { options, .. } => options,
            QueryRequest::Match { options, .. } => options,
            QueryRequest::Insert { options, .. } => options,
            QueryRequest::Update { options, .. } => options,
            QueryRequest::MatchAggregate { options, .. } => options,
            QueryRequest::MatchGroup { options, .. } => options,
            QueryRequest::MatchGroupAggregate { options, .. } => options,
            QueryRequest::Explain { options, .. } => options,
        }
    }

    /// The query as it is sent: its kind, its text, and its options in
    /// their wire form. Explanations and grouped matches cannot be sent yet
    /// and are refused with an `Other` error.
    pub fn into_proto(self) -> (res: Result<QueryManagerReqProto, Error>)
        ensures
            match res {
                Ok(proto) => self.wire_kind() == Some(proto.kind) && proto.query@ == self.text()
                    && proto.options == self.options().wire(),
                Err(error) => self.wire_kind() is None && error@ == not_implemented(),
            },
    {
        let (kind, query, options) = match self {
            QueryRequest::Define { query, options } => (QueryKind::Define, query, options),
            QueryRequest::Undefine { query, options } => (QueryKind::Undefine, query, options),
            QueryRequest::Delete { query, options } => (QueryKind::Delete, query, options),
            QueryRequest::Match { query, options } => (QueryKind::Match, query, options),
            QueryRequest::Insert { query, options } => (QueryKind::Insert, query, options),
            QueryRequest::Update { query, options } => (QueryKind::Update, query, options),
            QueryRequest::MatchAggregate { query, options } => (
                QueryKind::MatchAggregate,
                query,
                options,
            ),
            _ => {
                return Err(
                    Error::Other(String::from_str("this kind of query is not implemented")),
                );
            },
        };
        Ok(QueryManagerReqProto { kind, query, options: options.into_proto() })
    }
}

/// A complete reply to a query, as the wire message holds it.
#[derive(Debug)]
pub enum QueryResProto {
    Define,
    Undefine,
    Delete,
    MatchAggregate { answer: Option<NumericProto> },
    /// A reply that the driver does not read yet.
    Unread,
}

/// A part of a streamed reply to a query, as the wire message holds it.
#[derive(Debug)]
pub enum QueryResPartProto {
    Match { answers: Vec<ConceptMapProto> },
    Insert { answers: Vec<ConceptMapProto> },
    /// A part that the driver does not read yet.
    Unread,
}

/// What a query answers.
#[derive(Debug)]
pub enum QueryResponse {
    Define,
    Undefine,
    Delete,
    Match { answers: Vec<ConceptMap> },
    Insert { answers: Vec<ConceptMap> },
    Update { answers: Vec<ConceptMap> },
    MatchAggregate { answer: Numeric },
    Explain,
    MatchGroup,
    MatchGroupAggregate,
}

/// The index of the first answer that cannot be read, at or after `from`,
/// or the number of answers if there is none.
pub open spec fn first_unreadable_answer(answers: Seq<ConceptMapProto>, from: int) -> int
    decreases answers.len() - from,
{
    if 0 <= from < answers.len() && concept_map_error(answers[from]) is None {
        first_unreadable_answer(answers, from + 1)
    } else {
        from
    }
}

/// Why the answers cannot be read, if they cannot: the error of the first
/// answer that cannot be read.
pub open spec fn answers_error(answers: Seq<ConceptMapProto>) -> Option<ErrorView> {
    let at = first_unreadable_answer(answers, 0);
    if at < answers.len() {
        concept_map_error(answers[at])
    } else {
        None
    }
}

/// Whether the answers are those that the messages describe, in order.
pub open spec fn describes_answers(results: Seq<ConceptMap>, answers: Seq<ConceptMapProto>)
    -> bool {
    &&& results.len() == answers.len()
    &&& forall|i: int|
        0 <= i < results.len() ==> describes_concept_map(#[trigger] results[i], answers[i])
}

/// Reads the answers of a part of a streamed reply, in order. Fails where
/// an answer cannot be read, with the error of the first such answer.
pub fn read_answers(answers: Vec<ConceptMapProto>) -> (res: Result<Vec<ConceptMap>, Error>)
    ensures
        match res {
            Ok(results) => answers_error(answers@) is None && describes_answers(
                results@,
                answers@,
            ),
            Err(error) => answers_error(answers@) == Some(error@),
        },
{
    let mut rest = answers;
    let ghost all = rest@;
    let mut results: Vec<ConceptMap> = Vec::new();
    let count = rest.len();
    let mut i: usize = 0;
    while i < count
        invariant
            i <= count,
            all == answers@,
            count == all.len(),
            rest@.len() == count - i,
            forall|j: int| 0 <= j < count - i ==> (#[trigger] rest@[j]) == all[i + j],
            results@.len() == i,
            first_unreadable_answer(all, 0) == first_unreadable_answer(all, i as int),
            forall|j: int| 0 <= j < i ==> describes_concept_map(#[trigger] results@[j], all[j]),
        decreases count - i,
    {
        let ghost before = rest@;
        let answer = rest.remove(0);
        assert forall|j: int| 0 <= j < count - i - 1 implies (#[trigger] rest@[j]) == all[i + 1
            + j] by {
            assert(rest@[j] == before[j + 1]);
        }
        assert(answer == all[i as int]);
        match ConceptMap::try_from_proto(answer) {
            Ok(result) => results.push(result),
            Err(error) => {
                return Err(error);
            },
        }
        i += 1;
    }
    Ok(results)
}

impl QueryResponse {
    /// Reads a complete reply to a query. Fails with `MissingResponseField`
    /// when the reply, or the answer of an aggregate, is missing, and with
    /// an internal error for a reply that the driver does not read.
    pub fn from_res(res: Option<QueryResProto>) -> (response: Result<QueryResponse, Error>)
        ensures
            match res {
                None => response matches Err(error) && error@ == missing("res"@),
                Some(QueryResProto::Define) => response matches Ok(QueryResponse::Define),
                Some(QueryResProto::Undefine) => response matches Ok(QueryResponse::Undefine),
                Some(QueryResProto::Delete) => response matches Ok(QueryResponse::Delete),
                Some(QueryResProto::MatchAggregate { answer: None }) => response matches Err(error)
                    && error@ == missing("answer"@),
                Some(
                    QueryResProto::MatchAggregate { answer: Some(NumericProto { value: None }) },
                ) => response matches Err(error) && error@ == missing("value"@),
                Some(
                    QueryResProto::MatchAggregate {
                        answer: Some(NumericProto { value: Some(value) }),
                    },
                ) => response matches Ok(QueryResponse::MatchAggregate { answer })
                    && answer == match value {
                    NumericValueProto::LongValue(long) => Numeric::Long(long),
                    NumericValueProto::DoubleValue(bits) => Numeric::Double(bits),
                    NumericValueProto::Nan => Numeric::NaN,
                },
                Some(QueryResProto::Unread) => response matches Err(error) && error@
                    == unexpected(),
            },
    {
        match res {
            None => Err(Error::MissingResponseField(String::from_str("res"))),
            Some(QueryResProto::Define) => Ok(QueryResponse::Define),
            Some(QueryResProto::Undefine) => Ok(QueryResponse::Undefine),
            Some(QueryResProto::Delete) => Ok(QueryResponse::Delete),
            Some(QueryResProto::MatchAggregate { answer }) => match answer {
                None => Err(Error::MissingResponseField(String::from_str("answer"))),
                Some(numeric) => match Numeric::try_from_proto(numeric) {
                    Ok(answer) => Ok(QueryResponse::MatchAggregate { answer }),
                    Err(error) => Err(error),
                },
            },
            Some(QueryResProto::Unread) => Err(
                Error::InternalError(InternalError::UnexpectedResponseType),
            ),
        }
    }

    /// Reads a part of a streamed reply to a query. Fails with
    /// `MissingResponseField` when the part is missing, with an internal
    /// error for a part that the driver does not read, and where an answer
    /// cannot be read.
    pub fn from_res_part(part: Option<QueryResPartProto>) -> (response: Result<
        QueryResponse,
        Error,
    >)
        ensures
            match part {
                None => response matches Err(error) && error@ == missing("res"@),
                Some(QueryResPartProto::Match { answers }) => match response {
                    Ok(QueryResponse::Match { answers: results }) => answers_error(answers@)
                        is None && describes_answers(results@, answers@),
                    Ok(_) => false,
                    Err(error) => answers_error(answers@) == Some(error@),
                },
                Some(QueryResPartProto::Insert { answers }) => match response {
                    Ok(QueryResponse::Insert { answers: results }) => answers_error(answers@)
                        is None && describes_answers(results@, answers@),
                    Ok(_) => false,
                    Err(error) => answers_error(answers@) == Some(error@),
                },
                Some(QueryResPartProto::Unread) => response matches Err(error) && error@
                    == unexpected(),
            },
    {
        match part {
            None => Err(Error::MissingResponseField(String::from_str("res"))),
            Some(QueryResPartProto::Match { answers }) => match read_answers(answers) {
                Ok(answers) => Ok(QueryResponse::Match { answers }),
                Err(error) => Err(error),
            },
            Some(QueryResPartProto::Insert { answers }) => match read_answers(answers) {
                Ok(answers) => Ok(QueryResponse::Insert { answers }),
                Err(error) => Err(error),
            },
            Some(QueryResPartProto::Unread) => Err(
                Error::InternalError(InternalError::UnexpectedResponseType),
            ),
        }
    }
}

} // verus!
