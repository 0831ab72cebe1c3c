//! The `read` command: its parsed shape, and its resolution against the
//! session context into a fully specified read operation.

use vstd::prelude::*;
use vstd::string::StringExecFns;
use crate::context::{spec_parse_format, Context, ContextView, Format, parse_format};
use crate::error::ResolveError;
use crate::revision::{spec_build_revision_arg, build_revision_arg, RevisionArg, RevisionArgView,
    RevisionType, RevisionTypeView};

verus! {

/// An optional read modifier asking for structural metadata alongside or
/// instead of plain content.
#[derive(Clone, Copy, Debug, PartialEq, Eq, Structural)]
pub enum MetadataMode {
    All,
    KeyAndChild,
    Key,
}

/// A parsed `read` command, before resolution. A field left `None` is
/// filled from the session context or from the store's defaults.
#[derive(Clone, Debug, PartialEq, Eq)]
pub struct ReadOpts {
    /// The nodekey to read from; the root when absent.
    pub nodekey: Option<u128>,
    /// The maximum depth to read to; unbounded when absent.
    pub max_depth: Option<u64>,
    /// The maximum number of top-level nodes to return; all when absent.
    pub limit: Option<u64>,
    /// The last top-level node to skip; none when absent.
    pub skip: Option<u64>,
    /// The revision or revision range to read; the latest when absent.
    pub revision: Option<RevisionType>,
    /// An explicitly named database; needs `type_` with it.
    pub database: Option<String>,
    /// An explicitly named resource.
    pub resource: Option<String>,
    /// An explicit format token, `"json"` or `"xml"`.
    pub type_: Option<String>,
    /// A metadata token, `"all"`, `"key"` or `"key-and-child"`.
    pub metadata: Option<String>,
}

/// The mathematical shape of a [`ReadOpts`].
pub struct ReadOptsView {
    pub nodekey: Option<u128>,
    pub max_depth: Option<u64>,
    pub limit: Option<u64>,
    pub skip: Option<u64>,
    pub revision: Option<RevisionTypeView>,
    pub database: Option<Seq<char>>,
    pub resource: Option<Seq<char>>,
    pub type_: Option<Seq<char>>,
    pub metadata: Option<Seq<char>>,
}

impl View for ReadOpts {
    type V = ReadOptsView;

    open spec fn view(&self) -> ReadOptsView {
        ReadOptsView {
            nodekey: self.nodekey,
            max_depth: self.max_depth,
            limit: self.limit,
            skip: self.skip,
            revision: self.revision.deep_view(),
            database: self.database.deep_view(),
            resource: self.resource.deep_view(),
            type_: self.type_.deep_view(),
            metadata: self.metadata.deep_view(),
        }
    }
}

/// A fully specified read, ready to hand to the store client: nothing in
/// it is left to the context any more.
#[derive(Clone, Debug, PartialEq, Eq)]
pub struct ReadTarget {
    pub database: String,
    pub resource: String,
    pub db_type: Format,
    pub nodekey: Option<u128>,
    pub max_depth: Option<u64>,
    pub limit: Option<u64>,
    pub skip: Option<u64>,
    pub revision: Option<RevisionArg>,
    pub metadata: Option<MetadataMode>,
}

/// The mathematical shape of a [`ReadTarget`].
pub struct ReadTargetView {
    pub database: Seq<char>,
    pub resource: Seq<char>,
    pub db_type: Format,
    pub nodekey: Option<u128>,
    pub max_depth: Option<u64>,
    pub limit: Option<u64>,
    pub skip: Option<u64>,
    pub revision: Option<RevisionArgView>,
    pub metadata: Option<MetadataMode>,
}

impl View for ReadTarget {
    type V = ReadTargetView;

    open spec fn view(&self) -> ReadTargetView {
        ReadTargetView {
            database: self.database@,
            resource: self.resource@,
            db_type: self.db_type,
            nodekey: self.nodekey,
            max_depth: self.max_depth,
            limit: self.limit,
            skip: self.skip,
            revision: self.revision.deep_view(),
            metadata: self.metadata,
        }
    }
}

/// The metadata mode a user token selects; an unknown token, which the
/// grammar does not admit, falls to no metadata at all.
pub open spec fn spec_parse_metadata(metadata: Option<Seq<char>>) -> Option<MetadataMode> {
    match metadata {
        Some(s) => if s == "all"@ {
            Some(MetadataMode::All)
        } else if s == "key-and-child"@ {
            Some(MetadataMode::KeyAndChild)
        } else if s == "key"@ {
            Some(MetadataMode::Key)
        } else {
            None
        },
        None => None,
    }
}

/// Turns an optional metadata token into a [`MetadataMode`].
pub fn parse_metadata(metadata: &Option<String>) -> (r: Option<MetadataMode>)
    ensures
        r == spec_parse_metadata(metadata.deep_view()),
{
    match metadata {
        Some(s) => if *s == String::from_str("all") {
            Some(MetadataMode::All)
        } else if *s == String::from_str("key-and-child") {
            Some(MetadataMode::KeyAndChild)
        } else if *s == String::from_str("key") {
            Some(MetadataMode::Key)
        } else {
            None
        },
        None => None,
    }
}

/// Resolution of a `read` against the current context.
///
/// With an explicit database the command must stand on its own: it is
/// refused with `MissingFormat` when no format comes with the database,
/// and with `NoResourceSelected` when no resource is named. Without one,
/// the context supplies what the command omits: a `Resource` context
/// supplies database, format and resource (an explicit resource or format
/// still wins); a `Database` context supplies database and format, but a
/// resource must then be named; a bare `Server` context supplies nothing,
/// so the read is refused with `NoResourceSelected`.
pub open spec fn spec_resolve_read(opts: ReadOptsView, c: ContextView) -> Result<
    ReadTargetView,
    ResolveError,
> {
    let metadata = spec_parse_metadata(opts.metadata);
    let revision = spec_build_revision_arg(opts.revision);
    match opts.database {
        Some(database) => match opts.type_ {
            None => Err(ResolveError::MissingFormat),
            Some(t) => match opts.resource {
                None => Err(ResolveError::NoResourceSelected),
                Some(resource) => Ok(
                    ReadTargetView {
                        database,
                        resource,
                        db_type: spec_parse_format(t),
                        nodekey: opts.nodekey,
                        max_depth: opts.max_depth,
                        limit: opts.limit,
                        skip: opts.skip,
                        revision,
                        metadata,
                    },
                ),
            },
        },
        None => match c {
            ContextView::Resource { database, db_type, resource, .. } => Ok(
                ReadTargetView {
                    database,
                    resource: match opts.resource {
                        Some(r) => r,
                        None => resource,
                    },
                    db_type: match opts.type_ {
                        Some(t) => spec_parse_format(t),
                        None => db_type,
                    },
                    nodekey: opts.nodekey,
                    max_depth: opts.max_depth,
                    limit: opts.limit,
                    skip: opts.skip,
                    revision,
                    metadata,
                },
            ),
            ContextView::Database { database, db_type, .. } => match opts.resource {
                None => Err(ResolveError::NoResourceSelected),
                Some(resource) => Ok(
                    ReadTargetView {
                        database,
                        resource,
                        db_type: match opts.type_ {
                            Some(t) => spec_parse_format(t),
                            None => db_type,
                        },
                        nodekey: opts.nodekey,
                        max_depth: opts.max_depth,
                        limit: opts.limit,
                        skip: opts.skip,
                        revision,
                        metadata,
                    },
                ),
            },
            ContextView::Server { .. } => Err(ResolveError::NoResourceSelected),
        },
    }
}

/// Resolves a `read` command to a fully specified operation, exactly as
/// [`spec_resolve_read`] says. The context is only read, never changed.
pub fn resolve_read(opts: ReadOpts, context: &Context) -> (r: Result<ReadTarget, ResolveError>)
    ensures
        match r {
            Ok(t) => spec_resolve_read(opts@, context@) == Ok::<ReadTargetView, ResolveError>(t@),
            Err(e) => spec_resolve_read(opts@, context@) == Err::<ReadTargetView, ResolveError>(e),
        },
{
    let metadata = parse_metadata(&opts.metadata);
    let revision = build_revision_arg(opts.revision);
    match opts.database {
        Some(database) => match opts.type_ {
            None => Err(ResolveError::MissingFormat),
            Some(t) => match opts.resource {
                None => Err(ResolveError::NoResourceSelected),
                Some(resource) => Ok(
                    ReadTarget {
                        database,
                        resource,
                        db_type: parse_format(&t),
                        nodekey: opts.nodekey,
                        max_depth: opts.max_depth,
                        limit: opts.limit,
                        skip: opts.skip,
                        revision,
                        metadata,
                    },
                ),
            },
        },
        None => match context {
            Context::Resource { database, db_type, resource, .. } => Ok(
                ReadTarget {
                    database: database.clone(),
                    resource: match opts.resource {
                        Some(r) => r,
                        None => resource.clone(),
                    },
                    db_type: match opts.type_ {
                        Some(t) => parse_format(&t),
                        None => *db_type,
                    },
                    nodekey: opts.nodekey,
                    max_depth: opts.max_depth,
                    limit: opts.limit,
                    skip: opts.skip,
                    revision,
                    metadata,
                },
            ),
            Context::Database { database, db_type, .. } => match opts.resource {
                None => Err(ResolveError::NoResourceSelected),
                Some(resource) => Ok(
                    ReadTarget {
                        database: database.clone(),
                        resource,
                        db_type: match opts.type_ {
                            Some(t) => parse_format(&t),
                            None => *db_type,
                        },
                        nodekey: opts.nodekey,
                        max_depth: opts.max_depth,
                        limit: opts.limit,
                        skip: opts.skip,
                        revision,
                        metadata,
                    },
                ),
            },
            Context::Server(_) => Err(ResolveError::NoResourceSelected),
        },
    }
}

} // verus!
