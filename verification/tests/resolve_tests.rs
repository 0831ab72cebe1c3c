use sirix_shell::{resolve_info, resolve_read, Context, ContextOptsImpl, ContextStruct,
    DatabaseOpts, Format, InfoOpts, InfoTarget, MetadataMode, ReadOpts, ReadTarget, ResolveError,
    RevisionArg, RevisionType, SingleRevision, parse_metadata};

fn empty_read() -> ReadOpts {
    ReadOpts {
        nodekey: None,
        max_depth: None,
        limit: None,
        skip: None,
        revision: None,
        database: None,
        resource: None,
        type_: None,
        metadata: None,
    }
}

#[test]
fn context_database_then_bare_read_fails_without_resource() {
    let mut ctx = ContextStruct { context: Context::Server("http://host".to_string()) };
    let applied = ctx.apply_context_command(ContextOptsImpl::Database(DatabaseOpts {
        database: "mydb".to_string(),
        db_type: "json".to_string(),
    }));
    assert_eq!(applied, Ok(()));
    assert_eq!(
        ctx.context,
        Context::Database {
            server: "http://host".to_string(),
            database: "mydb".to_string(),
            db_type: Format::Json,
        }
    );
    let r = resolve_read(empty_read(), &ctx.context);
    assert_eq!(r, Err(ResolveError::NoResourceSelected));
}

#[test]
fn bare_read_from_server_context_fails() {
    let ctx = Context::Server("http://host".to_string());
    assert_eq!(resolve_read(empty_read(), &ctx), Err(ResolveError::NoResourceSelected));
}

#[test]
fn read_fills_everything_from_resource_context() {
    let ctx = Context::Resource {
        server: "http://host".to_string(),
        database: "mydb".to_string(),
        db_type: Format::Xml,
        resource: "r1".to_string(),
    };
    let r = resolve_read(empty_read(), &ctx);
    assert_eq!(
        r,
        Ok(ReadTarget {
            database: "mydb".to_string(),
            resource: "r1".to_string(),
            db_type: Format::Xml,
            nodekey: None,
            max_depth: None,
            limit: None,
            skip: None,
            revision: None,
            metadata: None,
        })
    );
}

#[test]
fn read_from_database_context_with_explicit_resource() {
    let ctx = Context::Database {
        server: "http://host".to_string(),
        database: "mydb".to_string(),
        db_type: Format::Json,
    };
    let opts = ReadOpts { resource: Some("r2".to_string()), ..empty_read() };
    let r = resolve_read(opts, &ctx);
    assert_eq!(
        r,
        Ok(ReadTarget {
            database: "mydb".to_string(),
            resource: "r2".to_string(),
            db_type: Format::Json,
            nodekey: None,
            max_depth: None,
            limit: None,
            skip: None,
            revision: None,
            metadata: None,
        })
    );
}

#[test]
fn read_with_explicit_target_carries_options_through() {
    let ctx = Context::Server("http://host".to_string());
    let opts = ReadOpts {
        nodekey: Some(7),
        max_depth: Some(2),
        limit: Some(10),
        skip: Some(1),
        revision: Some(RevisionType::Revision { number: 4, end_number: None }),
        database: Some("mydb".to_string()),
        resource: Some("r1".to_string()),
        type_: Some("json".to_string()),
        metadata: Some("all".to_string()),
    };
    let r = resolve_read(opts, &ctx);
    assert_eq!(
        r,
        Ok(ReadTarget {
            database: "mydb".to_string(),
            resource: "r1".to_string(),
            db_type: Format::Json,
            nodekey: Some(7),
            max_depth: Some(2),
            limit: Some(10),
            skip: Some(1),
            revision: Some(RevisionArg::SingleRevision(SingleRevision::Number(4))),
            metadata: Some(MetadataMode::All),
        })
    );
}

#[test]
fn read_with_database_but_no_format_fails() {
    let ctx = Context::Server("http://host".to_string());
    let opts = ReadOpts {
        database: Some("mydb".to_string()),
        resource: Some("r1".to_string()),
        ..empty_read()
    };
    assert_eq!(resolve_read(opts, &ctx), Err(ResolveError::MissingFormat));
}

#[test]
fn read_with_database_but_no_resource_fails() {
    let ctx = Context::Server("http://host".to_string());
    let opts = ReadOpts {
        database: Some("mydb".to_string()),
        type_: Some("json".to_string()),
        ..empty_read()
    };
    assert_eq!(resolve_read(opts, &ctx), Err(ResolveError::NoResourceSelected));
}

#[test]
fn metadata_tokens() {
    assert_eq!(parse_metadata(&Some("all".to_string())), Some(MetadataMode::All));
    assert_eq!(parse_metadata(&Some("key-and-child".to_string())), Some(MetadataMode::KeyAndChild));
    assert_eq!(parse_metadata(&Some("key".to_string())), Some(MetadataMode::Key));
    assert_eq!(parse_metadata(&Some("other".to_string())), None);
    assert_eq!(parse_metadata(&None), None);
}

fn empty_info() -> InfoOpts {
    InfoOpts { server: false, with_resources: false, database: None, type_: None }
}

#[test]
fn info_defaults_to_server_wide() {
    assert_eq!(resolve_info(empty_info()), Ok(InfoTarget::Server { with_resources: false }));
}

#[test]
fn info_server_wide_with_resources() {
    let opts = InfoOpts { server: true, with_resources: true, ..empty_info() };
    assert_eq!(resolve_info(opts), Ok(InfoTarget::Server { with_resources: true }));
}

#[test]
fn info_on_a_database() {
    let opts = InfoOpts {
        database: Some("mydb".to_string()),
        type_: Some("xml".to_string()),
        ..empty_info()
    };
    assert_eq!(
        resolve_info(opts),
        Ok(InfoTarget::Database { database: "mydb".to_string(), db_type: Format::Xml })
    );
}

#[test]
fn info_database_without_format_fails() {
    let opts = InfoOpts { database: Some("mydb".to_string()), ..empty_info() };
    assert_eq!(resolve_info(opts), Err(ResolveError::MissingFormat));
}

#[test]
fn info_with_resources_conflicts_with_database() {
    let opts = InfoOpts {
        with_resources: true,
        database: Some("mydb".to_string()),
        type_: Some("json".to_string()),
        ..empty_info()
    };
    assert_eq!(resolve_info(opts), Err(ResolveError::ConflictingFlags));
}
