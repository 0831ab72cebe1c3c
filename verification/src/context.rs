//! The session context: which server, database and resource the shell is
//! currently pointed at, and the transitions between those scopes.

use vstd::prelude::*;
use vstd::string::StringExecFns;

verus! {

/// The data representation of a database and its resources.
#[derive(Clone, Copy, Debug, PartialEq, Eq, Structural)]
pub enum Format {
    Json,
    Xml,
}

/// Why a context transition was refused. A refused transition leaves the
/// session context unchanged.
#[derive(Clone, Copy, Debug, PartialEq, Eq, Structural)]
pub enum ContextError {
    /// A resource scope was requested without a database: neither named
    /// explicitly nor supplied by a current `Database` context.
    ResourceRequiresDatabase,
    /// A database was named explicitly but no format came with it.
    MissingFormat,
}

/// The session context. A resource cannot exist without a database and a
/// database cannot exist without a server, so the three scopes form a
/// closed sum, each deeper shape carrying all shallower names.
#[derive(Clone, Debug, PartialEq, Eq)]
pub enum Context {
    Server(String),
    Database { server: String, database: String, db_type: Format },
    Resource { server: String, database: String, db_type: Format, resource: String },
}

/// The mathematical shape of a [`Context`]: the same three scopes over
/// sequences of characters.
pub enum ContextView {
    Server { server: Seq<char> },
    Database { server: Seq<char>, database: Seq<char>, db_type: Format },
    Resource { server: Seq<char>, database: Seq<char>, db_type: Format, resource: Seq<char> },
}

impl View for Context {
    type V = ContextView;

    open spec fn view(&self) -> ContextView {
        match self {
            Context::Server(server) => ContextView::Server { server: server@ },
            Context::Database { server, database, db_type } => ContextView::Database {
                server: server@,
                database: database@,
                db_type: *db_type,
            },
            Context::Resource { server, database, db_type, resource } => ContextView::Resource {
                server: server@,
                database: database@,
                db_type: *db_type,
                resource: resource@,
            },
        }
    }
}

impl ContextView {
    /// The server address, available in every scope.
    pub open spec fn server_of(self) -> Seq<char> {
        match self {
            ContextView::Server { server } => server,
            ContextView::Database { server, .. } => server,
            ContextView::Resource { server, .. } => server,
        }
    }
}

/// Selecting a database scope: always succeeds and carries the current
/// server address over, whatever scope the context held before.
pub open spec fn spec_enter_database(c: ContextView, database: Seq<char>, db_type: Format) -> ContextView {
    ContextView::Database { server: c.server_of(), database, db_type }
}

/// Resetting to the bare server scope: always succeeds.
pub open spec fn spec_enter_server(c: ContextView) -> ContextView {
    ContextView::Server { server: c.server_of() }
}

/// Selecting a resource scope. With an explicit database (which must bring
/// a format) the resource hangs directly off the server address and any
/// prior selection is ignored. Without one, the current context must
/// already be a `Database` scope, whose name and format the resource
/// inherits; from a `Server` or `Resource` scope the transition is refused.
pub open spec fn spec_enter_resource(
    c: ContextView,
    resource: Seq<char>,
    db_type: Option<Format>,
    database: Option<Seq<char>>,
) -> Result<ContextView, ContextError> {
    match database {
        Some(database) => match db_type {
            Some(db_type) => Ok(
                ContextView::Resource { server: c.server_of(), database, db_type, resource },
            ),
            None => Err(ContextError::MissingFormat),
        },
        None => match c {
            ContextView::Database { server, database, db_type } => Ok(
                ContextView::Resource { server, database, db_type, resource },
            ),
            _ => Err(ContextError::ResourceRequiresDatabase),
        },
    }
}

impl Context {
    /// The server address as a fresh string, available in every scope.
    pub fn as_server_string(&self) -> (r: String)
        ensures
            r@ == self@.server_of(),
    {
        match self {
            Context::Server(server) => server.clone(),
            Context::Database { server, .. } => server.clone(),
            Context::Resource { server, .. } => server.clone(),
        }
    }

    /// Resets to the `Server` scope over the same server address.
    pub fn enter_server(&self) -> (r: Context)
        ensures
            r@ == spec_enter_server(self@),
    {
        Context::Server(self.as_server_string())
    }

    /// Selects a database scope; total, keeps the server address.
    pub fn enter_database(&self, database: String, db_type: Format) -> (r: Context)
        ensures
            r@ == spec_enter_database(self@, database@, db_type),
    {
        Context::Database { server: self.as_server_string(), database, db_type }
    }

    /// Selects a resource scope, or refuses without changing anything:
    /// see [`spec_enter_resource`] for the exact rule.
    pub fn enter_resource(
        &self,
        resource: String,
        db_type: Option<Format>,
        database: Option<String>,
    ) -> (r: Result<Context, ContextError>)
        ensures
            match r {
                Ok(c) => spec_enter_resource(self@, resource@, db_type, database.deep_view())
                    == Ok::<ContextView, ContextError>(c@),
                Err(e) => spec_enter_resource(self@, resource@, db_type, database.deep_view())
                    == Err::<ContextView, ContextError>(e),
            },
    {
        match database {
            Some(database) => match db_type {
                Some(db_type) => Ok(
                    Context::Resource { server: self.as_server_string(), database, db_type, resource },
                ),
                None => Err(ContextError::MissingFormat),
            },
            None => match self {
                Context::Database { server, database, db_type } => Ok(
                    Context::Resource {
                        server: server.clone(),
                        database: database.clone(),
                        db_type: *db_type,
                        resource,
                    },
                ),
                _ => Err(ContextError::ResourceRequiresDatabase),
            },
        }
    }
}

/// The server address of a context taken by value.
pub fn get_server_string(context: Context) -> (r: String)
    ensures
        r@ == context@.server_of(),
{
    match context {
        Context::Server(server) => server,
        Context::Database { server, .. } => server,
        Context::Resource { server, .. } => server,
    }
}

/// The label under which a format is shown.
pub open spec fn spec_format_db_type(db_type: Format) -> Seq<char> {
    match db_type {
        Format::Json => "JSON"@,
        Format::Xml => "XML"@,
    }
}

/// The upper-case label of a format, as shown in prompts.
pub fn format_db_type(db_type: Format) -> (r: String)
    ensures
        r@ == spec_format_db_type(db_type),
{
    match db_type {
        Format::Json => String::from_str("JSON"),
        Format::Xml => String::from_str("XML"),
    }
}

/// The format a user token selects: `"json"` means JSON, anything else
/// falls to XML. The grammar only admits `"json"` and `"xml"`.
pub open spec fn spec_parse_format(s: Seq<char>) -> Format {
    if s == "json"@ {
        Format::Json
    } else {
        Format::Xml
    }
}

/// Turns a user-supplied format token into a [`Format`].
pub fn parse_format(s: &String) -> (r: Format)
    ensures
        r == spec_parse_format(s@),
{
    if *s == String::from_str("json") {
        Format::Json
    } else {
        Format::Xml
    }
}

/// Every transition into a database scope keeps the server address.
pub proof fn lemma_enter_database_preserves_server(c: ContextView, database: Seq<char>, db_type: Format)
    ensures
        spec_enter_database(c, database, db_type).server_of() == c.server_of(),
{
}

/// No `context` command, of any shape, changes the server address: a
/// session stays on the server it was seeded with.
pub proof fn lemma_context_commands_preserve_server(c: ContextView, opts: ContextOptsImplView)
    ensures
        match spec_apply_context(c, opts) {
            Ok(c2) => c2.server_of() == c.server_of(),
            Err(_) => true,
        },
{
}

/// The session's mutable slot for the current context, owned by the
/// command loop and updated only by successful `context` commands.
pub struct ContextStruct {
    pub context: Context,
}

impl View for ContextStruct {
    type V = ContextView;

    open spec fn view(&self) -> ContextView {
        self.context@
    }
}

/// A parsed `context` command.
#[derive(Clone, Debug, PartialEq, Eq)]
pub struct ContextOpts {
    pub opts: ContextOptsImpl,
}

/// The four shapes a `context` command can take.
#[derive(Clone, Debug, PartialEq, Eq)]
pub enum ContextOptsImpl {
    /// Back to the bare server scope.
    Server,
    /// Select a database.
    Database(DatabaseOpts),
    /// Select a resource under an explicitly named database.
    DatabaseAndResource(DatabaseAndResourceOpts),
    /// Select a resource under the database of the current context.
    Resource(ResourceOpts),
}

/// A database selection: its name and its format token.
#[derive(Clone, Debug, PartialEq, Eq)]
pub struct DatabaseOpts {
    pub database: String,
    pub db_type: String,
}

/// A resource selection that names its database and format outright.
#[derive(Clone, Debug, PartialEq, Eq)]
pub struct DatabaseAndResourceOpts {
    pub database: String,
    pub db_type: String,
    pub resource: String,
}

/// A resource selection that leans on the current context for its
/// database and format.
#[derive(Clone, Debug, PartialEq, Eq)]
pub struct ResourceOpts {
    pub resource: String,
}

/// The mathematical shape of a [`ContextOptsImpl`].
pub enum ContextOptsImplView {
    Server,
    Database { database: Seq<char>, db_type: Seq<char> },
    DatabaseAndResource { database: Seq<char>, db_type: Seq<char>, resource: Seq<char> },
    Resource { resource: Seq<char> },
}

impl View for ContextOptsImpl {
    type V = ContextOptsImplView;

    open spec fn view(&self) -> ContextOptsImplView {
        match self {
            ContextOptsImpl::Server => ContextOptsImplView::Server,
            ContextOptsImpl::Database(o) => ContextOptsImplView::Database {
                database: o.database@,
                db_type: o.db_type@,
            },
            ContextOptsImpl::DatabaseAndResource(o) => ContextOptsImplView::DatabaseAndResource {
                database: o.database@,
                db_type: o.db_type@,
                resource: o.resource@,
            },
            ContextOptsImpl::Resource(o) => ContextOptsImplView::Resource { resource: o.resource@ },
        }
    }
}

/// What a `context` command does to the session context: the transition
/// of the matching shape, with format tokens parsed on the way.
pub open spec fn spec_apply_context(c: ContextView, opts: ContextOptsImplView) -> Result<
    ContextView,
    ContextError,
> {
    match opts {
        ContextOptsImplView::Server => Ok(spec_enter_server(c)),
        ContextOptsImplView::Database { database, db_type } => Ok(
            spec_enter_database(c, database, spec_parse_format(db_type)),
        ),
        ContextOptsImplView::DatabaseAndResource { database, db_type, resource } =>
            spec_enter_resource(c, resource, Some(spec_parse_format(db_type)), Some(database)),
        ContextOptsImplView::Resource { resource } => spec_enter_resource(c, resource, None, None),
    }
}

impl ContextStruct {
    /// Runs one `context` command against the held context. On success
    /// the context becomes the transition's result; on failure it is
    /// left exactly as it was, and the error says why.
    pub fn apply_context_command(&mut self, opts: ContextOptsImpl) -> (r: Result<(), ContextError>)
        ensures
            match r {
                Ok(()) => spec_apply_context(old(self)@, opts@)
                    == Ok::<ContextView, ContextError>(final(self)@),
                Err(e) => spec_apply_context(old(self)@, opts@)
                    == Err::<ContextView, ContextError>(e) && final(self)@ == old(self)@,
            },
    {
        match opts {
            ContextOptsImpl::Server => {
                self.context = self.context.enter_server();
                Ok(())
            },
            ContextOptsImpl::Database(o) => {
                let db_type = parse_format(&o.db_type);
                self.context = self.context.enter_database(o.database, db_type);
                Ok(())
            },
            ContextOptsImpl::DatabaseAndResource(o) => {
                let db_type = parse_format(&o.db_type);
                match self.context.enter_resource(o.resource, Some(db_type), Some(o.database)) {
                    Ok(c) => {
                        self.context = c;
                        Ok(())
                    },
                    Err(e) => Err(e),
                }
            },
            ContextOptsImpl::Resource(o) => {
                match self.context.enter_resource(o.resource, None, None) {
                    Ok(c) => {
                        self.context = c;
                        Ok(())
                    },
                    Err(e) => Err(e),
                }
            },
        }
    }
}

/// The prompt that reflects a context: a bare `>> ` at server scope, the
/// database (and resource, at resource scope) with the format's label in
/// parentheses otherwise.
pub open spec fn spec_prompt(c: ContextView) -> Seq<char> {
    match c {
        ContextView::Server { .. } => ">> "@,
        ContextView::Database { database, db_type, .. } => database + " ("@
            + spec_format_db_type(db_type) + ") >> "@,
        ContextView::Resource { database, db_type, resource, .. } => database + "/"@ + resource
            + " ("@ + spec_format_db_type(db_type) + ") >> "@,
    }
}

impl Context {
    /// The prompt the shell shows for this context.
    pub fn prompt_string(&self) -> (r: String)
        ensures
            r@ == spec_prompt(self@),
    {
        match self {
            Context::Server(_) => String::from_str(">> "),
            Context::Database { database, db_type, .. } => {
                let mut s = database.clone();
                s.append(" (");
                let label = format_db_type(*db_type);
                s.append(label.as_str());
                s.append(") >> ");
                s
            },
            Context::Resource { database, db_type, resource, .. } => {
                let mut s = database.clone();
                s.append("/");
                s.append(resource.as_str());
                s.append(" (");
                let label = format_db_type(*db_type);
                s.append(label.as_str());
                s.append(") >> ");
                s
            },
        }
    }
}

} // verus!
