//! The shapes a `delete` command can take, and the resolution of its
//! scope — context-implied or explicitly named — into one concrete
//! deletion target.

use vstd::prelude::*;
use crate::context::{Context, ContextView};
use crate::error::ResolveError;

verus! {

/// A parsed `delete` command.
#[derive(Clone, Debug, PartialEq, Eq)]
pub struct DeleteOpts {
    pub opts: DeleteOptsImpl,
}

/// Either a scope delete (server, database or resource) or the delete of
/// a single node inside a resource.
#[derive(Clone, Debug, PartialEq, Eq)]
pub enum DeleteOptsImpl {
    Scope(DeleteScopeTypes),
    Node(DeleteNodeOpts),
}

/// The delete of one node, named by its nodekey, with an optional etag
/// guard; database and resource default to the context.
#[derive(Clone, Debug, PartialEq, Eq)]
pub struct DeleteNodeOpts {
    pub nodekey: i128,
    pub etag: Option<String>,
    pub database: Option<String>,
    pub resource: Option<String>,
}

/// A context-relative delete scope.
#[derive(Clone, Debug, PartialEq, Eq)]
pub struct DeleteContextScopes {
    pub opts: DeleteContextScopesImpl,
}

/// The granularity a context-relative delete asks for: whatever the
/// session context currently points at, at that depth.
#[derive(Clone, Copy, Debug, PartialEq, Eq, Structural)]
pub enum DeleteContextScopesImpl {
    /// Delete all databases and their resources.
    Server,
    /// Delete the entire database of the current context.
    Database,
    /// Delete the entire resource of the current context.
    Resource,
}

/// A delete scope named outright; it never consults the context.
#[derive(Clone, Debug, PartialEq, Eq)]
pub enum DeleteExplicitScope {
    /// Delete a database by name.
    Database { database: String },
    /// Delete a resource by database and resource name.
    Resource { database: String, resource: String },
}

/// A delete scope, context-relative or explicit. The grammar never
/// supplies both at once.
#[derive(Clone, Debug, PartialEq, Eq)]
pub enum DeleteScopeTypes {
    Context(DeleteContextScopes),
    Explicit(DeleteExplicitScope),
}

/// The mathematical shape of a [`DeleteExplicitScope`].
pub enum DeleteExplicitScopeView {
    Database { database: Seq<char> },
    Resource { database: Seq<char>, resource: Seq<char> },
}

/// The mathematical shape of a [`DeleteScopeTypes`].
pub enum DeleteScopeTypesView {
    Context(DeleteContextScopesImpl),
    Explicit(DeleteExplicitScopeView),
}

impl View for DeleteExplicitScope {
    type V = DeleteExplicitScopeView;

    open spec fn view(&self) -> DeleteExplicitScopeView {
        match self {
            DeleteExplicitScope::Database { database } => DeleteExplicitScopeView::Database {
                database: database@,
            },
            DeleteExplicitScope::Resource { database, resource } => DeleteExplicitScopeView::Resource {
                database: database@,
                resource: resource@,
            },
        }
    }
}

impl View for DeleteScopeTypes {
    type V = DeleteScopeTypesView;

    open spec fn view(&self) -> DeleteScopeTypesView {
        match self {
            DeleteScopeTypes::Context(scope) => DeleteScopeTypesView::Context(scope.opts),
            DeleteScopeTypes::Explicit(scope) => DeleteScopeTypesView::Explicit(scope@),
        }
    }
}

/// One concrete deletion target, ready to hand to the store client.
#[derive(Clone, Debug, PartialEq, Eq)]
pub enum DeleteTarget {
    /// Every database on the server.
    EntireServer,
    /// One database, with everything in it.
    Database { database: String },
    /// One resource of one database.
    Resource { database: String, resource: String },
}

/// The mathematical shape of a [`DeleteTarget`].
pub enum DeleteTargetView {
    EntireServer,
    Database { database: Seq<char> },
    Resource { database: Seq<char>, resource: Seq<char> },
}

impl View for DeleteTarget {
    type V = DeleteTargetView;

    open spec fn view(&self) -> DeleteTargetView {
        match self {
            DeleteTarget::EntireServer => DeleteTargetView::EntireServer,
            DeleteTarget::Database { database } => DeleteTargetView::Database { database: database@ },
            DeleteTarget::Resource { database, resource } => DeleteTargetView::Resource {
                database: database@,
                resource: resource@,
            },
        }
    }
}

/// Resolution of a delete scope against the current context.
///
/// A context-relative `Server` scope is an unconditional full wipe and
/// never depends on what the context holds. A context-relative `Database`
/// or `Resource` scope needs the context to hold a matching-or-deeper
/// scope, else it is refused with `InsufficientContext` and nothing is
/// deleted. An explicit scope never consults the context and always
/// resolves to the names it carries.
pub open spec fn spec_resolve_delete_scope(
    scope: DeleteScopeTypesView,
    c: ContextView,
) -> Result<DeleteTargetView, ResolveError> {
    match scope {
        DeleteScopeTypesView::Context(DeleteContextScopesImpl::Server) => Ok(
            DeleteTargetView::EntireServer,
        ),
        DeleteScopeTypesView::Context(DeleteContextScopesImpl::Database) => match c {
            ContextView::Database { database, .. } => Ok(DeleteTargetView::Database { database }),
            ContextView::Resource { database, .. } => Ok(DeleteTargetView::Database { database }),
            ContextView::Server { .. } => Err(ResolveError::InsufficientContext),
        },
        DeleteScopeTypesView::Context(DeleteContextScopesImpl::Resource) => match c {
            ContextView::Resource { database, resource, .. } => Ok(
                DeleteTargetView::Resource { database, resource },
            ),
            _ => Err(ResolveError::InsufficientContext),
        },
        DeleteScopeTypesView::Explicit(DeleteExplicitScopeView::Database { database }) => Ok(
            DeleteTargetView::Database { database },
        ),
        DeleteScopeTypesView::Explicit(DeleteExplicitScopeView::Resource { database, resource }) => Ok(
            DeleteTargetView::Resource { database, resource },
        ),
    }
}

/// Resolves a delete scope to one concrete target, exactly as
/// [`spec_resolve_delete_scope`] says; on failure nothing is deleted and
/// the context is untouched (it is never written here at all).
pub fn resolve_delete_scope(
    scope: DeleteScopeTypes,
    context: &Context,
) -> (r: Result<DeleteTarget, ResolveError>)
    ensures
        match r {
            Ok(t) => spec_resolve_delete_scope(scope@, context@)
                == Ok::<DeleteTargetView, ResolveError>(t@),
            Err(e) => spec_resolve_delete_scope(scope@, context@)
                == Err::<DeleteTargetView, ResolveError>(e),
        },
{
    match scope {
        DeleteScopeTypes::Context(scope) => match scope.opts {
            DeleteContextScopesImpl::Server => Ok(DeleteTarget::EntireServer),
            DeleteContextScopesImpl::Database => match context {
                Context::Database { database, .. } => Ok(
                    DeleteTarget::Database { database: database.clone() },
                ),
                Context::Resource { database, .. } => Ok(
                    DeleteTarget::Database { database: database.clone() },
                ),
                Context::Server(_) => Err(ResolveError::InsufficientContext),
            },
            DeleteContextScopesImpl::Resource => match context {
                Context::Resource { database, resource, .. } => Ok(
                    DeleteTarget::Resource { database: database.clone(), resource: resource.clone() },
                ),
                _ => Err(ResolveError::InsufficientContext),
            },
        },
        DeleteScopeTypes::Explicit(scope) => match scope {
            DeleteExplicitScope::Database { database } => Ok(DeleteTarget::Database { database }),
            DeleteExplicitScope::Resource { database, resource } => Ok(
                DeleteTarget::Resource { database, resource },
            ),
        },
    }
}

/// A context-relative `Server` delete resolves to the entire server,
/// whatever the session context holds.
pub proof fn lemma_server_scope_ignores_context(c: ContextView)
    ensures
        spec_resolve_delete_scope(
            DeleteScopeTypesView::Context(DeleteContextScopesImpl::Server),
            c,
        ) == Ok::<DeleteTargetView, ResolveError>(DeleteTargetView::EntireServer),
{
}

/// An explicit delete scope resolves to the names it carries, whatever
/// the session context holds.
pub proof fn lemma_explicit_scope_ignores_context(s: DeleteExplicitScopeView, c: ContextView)
    ensures
        spec_resolve_delete_scope(DeleteScopeTypesView::Explicit(s), c) == match s {
            DeleteExplicitScopeView::Database { database } => Ok::<DeleteTargetView, ResolveError>(
                DeleteTargetView::Database { database },
            ),
            DeleteExplicitScopeView::Resource { database, resource } => Ok::<
                DeleteTargetView,
                ResolveError,
            >(DeleteTargetView::Resource { database, resource }),
        },
{
}

} // verus!
