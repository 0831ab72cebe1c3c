//! Core logic of an interactive shell for a remote, revisioned document
//! store that groups JSON and XML resources into databases.
//!
//! The library owns the session-context state machine, the rules that let
//! commands omit a database, resource or format when the context supplies
//! one, the normalization of user revision specifications into a single
//! query-argument shape, and the resolution of delete-scope commands into
//! one concrete deletion target. Network transport, line editing and the
//! command-line grammar live outside, around this crate.

mod context;
mod delete;
mod display;
mod error;
mod info;
mod read;
mod revision;

pub use context::{Context, ContextError, ContextOpts, ContextOptsImpl, ContextOptsImplView,
    ContextStruct, ContextView, DatabaseAndResourceOpts, DatabaseOpts, Format, ResourceOpts};
pub use context::{format_db_type, get_server_string, lemma_context_commands_preserve_server,
    lemma_enter_database_preserves_server, parse_format, spec_apply_context, spec_enter_database, spec_enter_resource, spec_enter_server,
    spec_format_db_type, spec_parse_format, spec_prompt};
pub use delete::{DeleteContextScopes, DeleteContextScopesImpl, DeleteExplicitScope,
    DeleteExplicitScopeView, DeleteNodeOpts, DeleteOpts, DeleteOptsImpl, DeleteScopeTypes,
    DeleteScopeTypesView, DeleteTarget, DeleteTargetView};
pub use delete::{lemma_explicit_scope_ignores_context, lemma_server_scope_ignores_context,
    resolve_delete_scope, spec_resolve_delete_scope};
pub use display::{spec_dec_digit, spec_dec_of, spec_dec_of_int, spec_delete_node_location,
    spec_display_context_scope, spec_display_delete, spec_display_delete_node,
    spec_display_explicit_scope, spec_display_info, spec_display_read, spec_display_revision,
    spec_display_scope};
pub use error::ResolveError;
pub use info::{InfoOpts, InfoOptsView, InfoTarget, InfoTargetView, resolve_info,
    spec_resolve_info};
pub use read::{MetadataMode, ReadOpts, ReadOptsView, ReadTarget, ReadTargetView};
pub use read::{parse_metadata, resolve_read, spec_parse_metadata, spec_resolve_read};
pub use revision::{RevisionArg, RevisionArgView, RevisionType, RevisionTypeView};
pub use revision::{SingleRevision, SingleRevisionView, TwoRevisions, TwoRevisionsView};
pub use revision::{build_revision_arg, spec_build_revision_arg};
