use sirix_shell::{DeleteContextScopes, DeleteContextScopesImpl, DeleteExplicitScope,
    DeleteNodeOpts, DeleteOpts, DeleteOptsImpl, DeleteScopeTypes, InfoOpts, ReadOpts,
    RevisionType};

#[test]
fn revision_number_line() {
    let r = RevisionType::Revision { number: 42, end_number: None };
    assert_eq!(r.display_string(), "number: 42".to_string());
}

#[test]
fn revision_number_range_line() {
    let r = RevisionType::Revision { number: 3, end_number: Some(15) };
    assert_eq!(r.display_string(), "start-revision: 3, end-revision: 15".to_string());
}

#[test]
fn revision_timestamp_line() {
    let r = RevisionType::Timestamp { timestamp: "t0".to_string(), end_timestamp: None };
    assert_eq!(r.display_string(), "timestamp: t0".to_string());
}

#[test]
fn revision_timestamp_range_line() {
    let r = RevisionType::Timestamp {
        timestamp: "t0".to_string(),
        end_timestamp: Some("t1".to_string()),
    };
    assert_eq!(r.display_string(), "start-timestamp: t0, end-timestamp: t1".to_string());
}

#[test]
fn read_line_with_defaults() {
    let opts = ReadOpts {
        nodekey: None,
        max_depth: None,
        limit: None,
        skip: None,
        revision: None,
        database: None,
        resource: None,
        type_: None,
        metadata: None,
    };
    assert_eq!(
        opts.display_string(),
        "nodekey: NULL, maxdepth: NULL, revision: NULL".to_string()
    );
}

#[test]
fn read_line_with_values() {
    let opts = ReadOpts {
        nodekey: Some(123456789012345678901234567890),
        max_depth: Some(4),
        limit: None,
        skip: None,
        revision: Some(RevisionType::Revision { number: 7, end_number: None }),
        database: None,
        resource: None,
        type_: None,
        metadata: None,
    };
    assert_eq!(
        opts.display_string(),
        "nodekey: 123456789012345678901234567890, maxdepth: 4, revision: number: 7".to_string()
    );
}

#[test]
fn delete_node_line_with_context_location() {
    let opts = DeleteNodeOpts { nodekey: 5, etag: None, database: None, resource: None };
    assert_eq!(opts.display_string(), "resource: <context>, nodekey: 5".to_string());
}

#[test]
fn delete_node_line_with_negative_nodekey_and_etag() {
    let opts = DeleteNodeOpts {
        nodekey: -17,
        etag: Some("abc123".to_string()),
        database: Some("db".to_string()),
        resource: Some("r".to_string()),
    };
    assert_eq!(
        opts.display_string(),
        "resource: db/r, nodekey: -17, etag: abc123".to_string()
    );
}

#[test]
fn revision_number_extremes() {
    let r = RevisionType::Revision { number: u64::MAX, end_number: Some(0) };
    assert_eq!(
        r.display_string(),
        "start-revision: 18446744073709551615, end-revision: 0".to_string()
    );
}

#[test]
fn delete_node_line_with_extreme_nodekeys() {
    let min = DeleteNodeOpts { nodekey: i128::MIN, etag: None, database: None, resource: None };
    assert_eq!(
        min.display_string(),
        "resource: <context>, nodekey: -170141183460469231731687303715884105728".to_string()
    );
    let max = DeleteNodeOpts { nodekey: i128::MAX, etag: None, database: None, resource: None };
    assert_eq!(
        max.display_string(),
        "resource: <context>, nodekey: 170141183460469231731687303715884105727".to_string()
    );
}

#[test]
fn read_line_with_largest_nodekey() {
    let opts = ReadOpts {
        nodekey: Some(u128::MAX),
        max_depth: None,
        limit: None,
        skip: None,
        revision: None,
        database: None,
        resource: None,
        type_: None,
        metadata: None,
    };
    assert_eq!(
        opts.display_string(),
        "nodekey: 340282366920938463463374607431768211455, maxdepth: NULL, revision: NULL"
            .to_string()
    );
}

#[test]
fn delete_scope_lines() {
    let server = DeleteScopeTypes::Context(DeleteContextScopes {
        opts: DeleteContextScopesImpl::Server,
    });
    assert_eq!(server.display_string(), "ServerContext".to_string());
    let database = DeleteContextScopes { opts: DeleteContextScopesImpl::Database };
    assert_eq!(database.display_string(), "DatabaseContext".to_string());
    let resource = DeleteContextScopesImpl::Resource;
    assert_eq!(resource.display_string(), "ResourceContext".to_string());
}

#[test]
fn delete_explicit_lines() {
    let db = DeleteExplicitScope::Database { database: "mydb".to_string() };
    assert_eq!(db.display_string(), "mydb".to_string());
    let res = DeleteExplicitScope::Resource {
        database: "mydb".to_string(),
        resource: "notes".to_string(),
    };
    assert_eq!(res.display_string(), "mydb/notes".to_string());
}

#[test]
fn delete_opts_delegate() {
    let opts = DeleteOpts {
        opts: DeleteOptsImpl::Scope(DeleteScopeTypes::Explicit(DeleteExplicitScope::Database {
            database: "mydb".to_string(),
        })),
    };
    assert_eq!(opts.display_string(), "mydb".to_string());
    let node = DeleteOpts {
        opts: DeleteOptsImpl::Node(DeleteNodeOpts {
            nodekey: 0,
            etag: None,
            database: None,
            resource: None,
        }),
    };
    assert_eq!(node.display_string(), "resource: <context>, nodekey: 0".to_string());
}

#[test]
fn info_lines() {
    let db = InfoOpts {
        server: false,
        with_resources: false,
        database: Some("mydb".to_string()),
        type_: None,
    };
    assert_eq!(db.display_string(), "database: mydb".to_string());
    let srv = InfoOpts { server: true, with_resources: false, database: None, type_: None };
    assert_eq!(srv.display_string(), "server".to_string());
    let srv_res = InfoOpts { server: true, with_resources: true, database: None, type_: None };
    assert_eq!(srv_res.display_string(), "server with_resources".to_string());
}
