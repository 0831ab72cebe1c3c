//! The `info` command: its parsed shape, and its resolution into either a
//! server-wide or a per-database information request.

use vstd::prelude::*;
use crate::context::{spec_parse_format, Format, parse_format};
use crate::error::ResolveError;

verus! {

/// A parsed `info` command.
#[derive(Clone, Debug, PartialEq, Eq)]
pub struct InfoOpts {
    /// Ask about the entire server. The grammar keeps this flag apart
    /// from an explicit database; resolution goes by `database` alone.
    pub server: bool,
    /// Include resource listings in server-wide info; only meaningful
    /// without an explicit database.
    pub with_resources: bool,
    /// Ask about one database by name.
    pub database: Option<String>,
    /// An explicit format token, `"json"` or `"xml"`.
    pub type_: Option<String>,
}

/// The mathematical shape of an [`InfoOpts`].
pub struct InfoOptsView {
    pub server: bool,
    pub with_resources: bool,
    pub database: Option<Seq<char>>,
    pub type_: Option<Seq<char>>,
}

impl View for InfoOpts {
    type V = InfoOptsView;

    open spec fn view(&self) -> InfoOptsView {
        InfoOptsView {
            server: self.server,
            with_resources: self.with_resources,
            database: self.database.deep_view(),
            type_: self.type_.deep_view(),
        }
    }
}

/// A fully specified information request.
#[derive(Clone, Debug, PartialEq, Eq)]
pub enum InfoTarget {
    /// Server-wide info, with or without the resource listings.
    Server { with_resources: bool },
    /// Info about one database, answered in the given format.
    Database { database: String, db_type: Format },
}

/// The mathematical shape of an [`InfoTarget`].
pub enum InfoTargetView {
    Server { with_resources: bool },
    Database { database: Seq<char>, db_type: Format },
}

impl View for InfoTarget {
    type V = InfoTargetView;

    open spec fn view(&self) -> InfoTargetView {
        match self {
            InfoTarget::Server { with_resources } => InfoTargetView::Server {
                with_resources: *with_resources,
            },
            InfoTarget::Database { database, db_type } => InfoTargetView::Database {
                database: database@,
                db_type: *db_type,
            },
        }
    }
}

/// Resolution of an `info` command. It never consults the session
/// context: without an explicit database it falls back to server-wide
/// info. Asking for resource listings together with an explicit database
/// is refused with `ConflictingFlags`, a database without a format with
/// `MissingFormat`.
pub open spec fn spec_resolve_info(opts: InfoOptsView) -> Result<InfoTargetView, ResolveError> {
    match opts.database {
        Some(database) => if opts.with_resources {
            Err(ResolveError::ConflictingFlags)
        } else {
            match opts.type_ {
                None => Err(ResolveError::MissingFormat),
                Some(t) => Ok(InfoTargetView::Database { database, db_type: spec_parse_format(t) }),
            }
        },
        None => Ok(InfoTargetView::Server { with_resources: opts.with_resources }),
    }
}

/// Resolves an `info` command, exactly as [`spec_resolve_info`] says.
pub fn resolve_info(opts: InfoOpts) -> (r: Result<InfoTarget, ResolveError>)
    ensures
        match r {
            Ok(t) => spec_resolve_info(opts@) == Ok::<InfoTargetView, ResolveError>(t@),
            Err(e) => spec_resolve_info(opts@) == Err::<InfoTargetView, ResolveError>(e),
        },
{
    match opts.database {
        Some(database) => if opts.with_resources {
            Err(ResolveError::ConflictingFlags)
        } else {
            match opts.type_ {
                None => Err(ResolveError::MissingFormat),
                Some(t) => Ok(InfoTarget::Database { database, db_type: parse_format(&t) }),
            }
        },
        None => Ok(InfoTarget::Server { with_resources: opts.with_resources }),
    }
}

} // verus!
