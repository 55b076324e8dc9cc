use typedb_client::concept::{
    ConceptKindProto, ConceptMapProto, ConceptProto, Numeric, NumericProto, NumericValueProto,
    TypeProto,
};
use typedb_client::message::{
    QueryKind, QueryRequest, QueryResPartProto, QueryResProto, QueryResponse, Request, Response,
    SchemaKind,
};
use typedb_client::{
    Address, Database, DatabaseInfo, DatabaseManager, Error, InternalError, Options, Phase,
    Strategy, TypeDBDatabaseManager, ID,
};

fn unexpected<T>(result: Result<T, Error>) -> bool {
    matches!(result, Err(Error::InternalError(InternalError::UnexpectedResponseType)))
}

fn answer(label: &str, encoding: i32) -> ConceptMapProto {
    let type_ = TypeProto { label: label.to_owned(), scope: String::new(), encoding, value_type: 0, is_root: false, is_abstract: false };
    ConceptMapProto { map: vec![("x".to_owned(), ConceptProto { concept: Some(ConceptKindProto::Type(type_)) })] }
}

#[test]
fn responses_are_read_by_their_kind() {
    assert_eq!(Response::DatabasesContains { contains: true }.into_contains().unwrap(), true);
    assert_eq!(Response::DatabasesContains { contains: false }.into_contains().unwrap(), false);
    assert!(unexpected(Response::DatabaseCreate.into_contains()));

    let database = DatabaseInfo { name: "test".to_owned(), replicas: Vec::new() };
    assert_eq!(Response::DatabaseGet { database }.into_database().unwrap().name, "test");
    assert!(unexpected(Response::DatabasesAll { databases: Vec::new() }.into_database()));

    let databases = vec![DatabaseInfo { name: "a".to_owned(), replicas: Vec::new() }];
    assert_eq!(Response::DatabasesAll { databases }.into_databases().unwrap()[0].name, "a");
    assert!(unexpected(Response::SessionPulse.into_databases()));

    let servers = vec![Address::parse("a:1").unwrap()];
    assert_eq!(Response::ServersAll { servers }.into_servers().unwrap()[0].to_string(), "a:1");
    assert!(unexpected(Response::SessionClose.into_servers()));

    let (id, duration) = Response::SessionOpen { session_id: ID::from_bytes(vec![1, 2]), server_duration_millis: 12 }.into_session().unwrap();
    assert_eq!(id.into_bytes(), vec![1, 2]);
    assert_eq!(duration, 12);
    assert!(unexpected(Response::TransactionOpen.into_session()));
}

#[test]
fn a_schema_is_read_only_where_it_was_asked_for() {
    let full = || Response::DatabaseSchema { schema: "define".to_owned() };
    let types = || Response::DatabaseTypeSchema { schema: "types".to_owned() };
    let rules = || Response::DatabaseRuleSchema { schema: "rules".to_owned() };
    assert_eq!(full().into_schema(SchemaKind::Full).unwrap(), "define");
    assert_eq!(types().into_schema(SchemaKind::Types).unwrap(), "types");
    assert_eq!(rules().into_schema(SchemaKind::Rules).unwrap(), "rules");
    assert!(unexpected(full().into_schema(SchemaKind::Types)));
    assert!(unexpected(types().into_schema(SchemaKind::Rules)));
    assert!(unexpected(rules().into_schema(SchemaKind::Full)));
    assert!(unexpected(Response::DatabaseDelete.into_schema(SchemaKind::Full)));
}

#[test]
fn queries_are_sent_by_their_kind() {
    let options = Options::new().infer(true).transaction_timeout(5_000);
    let sent = |request: QueryRequest| request.into_proto().unwrap();
    let query = "match $x sub thing;".to_owned();
    let proto = sent(QueryRequest::Match { query: query.clone(), options });
    assert_eq!(proto.kind, QueryKind::Match);
    assert_eq!(proto.query, "match $x sub thing;");
    assert_eq!(proto.options, options.into_proto());
    assert_eq!(proto.options.transaction_timeout_millis, Some(5_000));
    assert_eq!(sent(QueryRequest::Define { query: "define person sub entity;".to_owned(), options }).kind, QueryKind::Define);
    assert_eq!(sent(QueryRequest::Define { query: "define person sub entity;".to_owned(), options }).query, "define person sub entity;");
    assert_eq!(sent(QueryRequest::Undefine { query: query.clone(), options }).kind, QueryKind::Undefine);
    assert_eq!(sent(QueryRequest::Delete { query: query.clone(), options }).kind, QueryKind::Delete);
    assert_eq!(sent(QueryRequest::Insert { query: query.clone(), options }).kind, QueryKind::Insert);
    assert_eq!(sent(QueryRequest::Update { query: query.clone(), options }).kind, QueryKind::Update);
    assert_eq!(sent(QueryRequest::MatchAggregate { query: query.clone(), options }).kind, QueryKind::MatchAggregate);
}

#[test]
fn queries_that_are_not_implemented_are_refused() {
    let options = Options::new();
    let refused = |request: QueryRequest| matches!(request.into_proto(), Err(Error::Other(message)) if message == "this kind of query is not implemented");
    assert!(refused(QueryRequest::Explain { explainable_id: 1, options }));
    assert!(refused(QueryRequest::MatchGroup { query: String::new(), options }));
    assert!(refused(QueryRequest::MatchGroupAggregate { query: String::new(), options }));
}

#[test]
fn complete_replies_are_read() {
    assert!(matches!(QueryResponse::from_res(Some(QueryResProto::Define)), Ok(QueryResponse::Define)));
    assert!(matches!(QueryResponse::from_res(Some(QueryResProto::Undefine)), Ok(QueryResponse::Undefine)));
    assert!(matches!(QueryResponse::from_res(Some(QueryResProto::Delete)), Ok(QueryResponse::Delete)));
    let aggregate = QueryResProto::MatchAggregate { answer: Some(NumericProto { value: Some(NumericValueProto::LongValue(5)) }) };
    assert!(matches!(QueryResponse::from_res(Some(aggregate)), Ok(QueryResponse::MatchAggregate { answer: Numeric::Long(5) })));
    assert!(matches!(QueryResponse::from_res(Some(QueryResProto::MatchAggregate { answer: None })), Err(Error::MissingResponseField(f)) if f == "answer"));
    let empty = QueryResProto::MatchAggregate { answer: Some(NumericProto { value: None }) };
    assert!(matches!(QueryResponse::from_res(Some(empty)), Err(Error::MissingResponseField(f)) if f == "value"));
    assert!(matches!(QueryResponse::from_res(None), Err(Error::MissingResponseField(f)) if f == "res"));
    assert!(unexpected(QueryResponse::from_res(Some(QueryResProto::Unread))));
}

#[test]
fn parts_of_replies_are_read() {
    let five: Vec<ConceptMapProto> = ["thing", "entity", "relation", "attribute", "person"].iter().map(|l| answer(l, 1)).collect();
    match QueryResponse::from_res_part(Some(QueryResPartProto::Match { answers: five })) {
        Ok(QueryResponse::Match { answers }) => {
            assert_eq!(answers.len(), 5);
            assert_eq!(answers[4].map[0].0, "x");
        }
        other => panic!("unexpected: {:?}", other),
    }
    match QueryResponse::from_res_part(Some(QueryResPartProto::Insert { answers: vec![answer("a", 1)] })) {
        Ok(QueryResponse::Insert { answers }) => assert_eq!(answers.len(), 1),
        other => panic!("unexpected: {:?}", other),
    }
    let broken = vec![answer("a", 1), answer("b", 7), answer("c", 1)];
    assert!(matches!(
        QueryResponse::from_res_part(Some(QueryResPartProto::Match { answers: broken })),
        Err(Error::InternalError(InternalError::EnumOutOfBounds))
    ));
    assert!(matches!(QueryResponse::from_res_part(None), Err(Error::MissingResponseField(f)) if f == "res"));
    assert!(unexpected(QueryResponse::from_res_part(Some(QueryResPartProto::Unread))));
}

fn database() -> Database {
    Database::named("test", vec![Address::parse("a:1").unwrap()])
}

#[test]
fn deleting_runs_on_the_primary_only() {
    let operation = database().delete();
    assert!(matches!(operation.request, Request::DatabaseDelete { database_name } if database_name == "test"));
    assert_eq!(operation.run.strategy(), Strategy::PrimaryReplica);
    assert_eq!(operation.run.phase(), Phase::Idle);
    assert_eq!(operation.run.database().name(), "test");
}

#[test]
fn reading_a_schema_runs_failsafe() {
    let operation = database().schema();
    assert!(matches!(operation.request, Request::DatabaseSchema { database_name } if database_name == "test"));
    assert_eq!(operation.run.strategy(), Strategy::Failsafe);
    let operation = database().type_schema();
    assert!(matches!(operation.request, Request::DatabaseTypeSchema { database_name } if database_name == "test"));
    assert_eq!(operation.run.strategy(), Strategy::Failsafe);
    let operation = database().rule_schema();
    assert!(matches!(operation.request, Request::DatabaseRuleSchema { database_name } if database_name == "test"));
    assert_eq!(operation.run.strategy(), Strategy::Failsafe);
}

#[test]
fn the_manager_s_operations_run_failsafe() {
    let manager = DatabaseManager::new(vec![Address::parse("a:1").unwrap()]);
    let operation = manager.contains(database());
    assert!(matches!(operation.request, Request::DatabasesContains { database_name } if database_name == "test"));
    assert_eq!(operation.run.strategy(), Strategy::Failsafe);
    let operation = manager.create(database());
    assert!(matches!(operation.request, Request::DatabaseCreate { database_name } if database_name == "test"));
    assert_eq!(operation.run.strategy(), Strategy::Failsafe);
    assert!(matches!(TypeDBDatabaseManager {}.create("test"), Request::DatabaseCreate { database_name } if database_name == "test"));
}
