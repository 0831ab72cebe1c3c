//! One-line textual summaries of parsed commands, with exact contracts:
//! each method pins the whole string, down to the decimal digits.

use vstd::prelude::*;
use vstd::string::StringExecFns;
use crate::delete::{DeleteContextScopes, DeleteContextScopesImpl, DeleteExplicitScope,
    DeleteExplicitScopeView, DeleteOpts, DeleteOptsImpl, DeleteNodeOpts, DeleteScopeTypes,
    DeleteScopeTypesView};
use crate::info::{InfoOpts, InfoOptsView};
use crate::read::{ReadOpts, ReadOptsView};
use crate::revision::{RevisionType, RevisionTypeView};

verus! {

/// The character of one decimal digit.
pub open spec fn spec_dec_digit(d: nat) -> char {
    if d == 0 {
        '0'
    } else if d == 1 {
        '1'
    } else if d == 2 {
        '2'
    } else if d == 3 {
        '3'
    } else if d == 4 {
        '4'
    } else if d == 5 {
        '5'
    } else if d == 6 {
        '6'
    } else if d == 7 {
        '7'
    } else if d == 8 {
        '8'
    } else {
        '9'
    }
}

/// The decimal digits of a natural number, most significant first, with
/// no leading zeros (a single `'0'` for zero).
pub open spec fn spec_dec_of(n: nat) -> Seq<char>
    decreases n,
{
    if n < 10 {
        seq![spec_dec_digit(n)]
    } else {
        spec_dec_of(n / 10).push(spec_dec_digit(n % 10))
    }
}

/// The decimal rendering of an integer: a leading minus sign for a
/// negative value, the plain digits otherwise.
pub open spec fn spec_dec_of_int(n: int) -> Seq<char> {
    if n < 0 {
        seq!['-'] + spec_dec_of((-n) as nat)
    } else {
        spec_dec_of(n as nat)
    }
}

/// Relies on u64's `Display` impl, through `ToString::to_string`: the
/// decimal digits of the value, no sign, no leading zeros.
#[verifier::external_body]
fn u64_to_string(n: u64) -> (r: String)
    ensures
        r@ == spec_dec_of(n as nat),
{
    n.to_string()
}

/// Relies on u128's `Display` impl, through `ToString::to_string`: the
/// decimal digits of the value, no sign, no leading zeros.
#[verifier::external_body]
fn u128_to_string(n: u128) -> (r: String)
    ensures
        r@ == spec_dec_of(n as nat),
{
    n.to_string()
}

/// Relies on i128's `Display` impl, through `ToString::to_string`: the
/// decimal digits, with a leading `'-'` for a negative value.
#[verifier::external_body]
fn i128_to_string(n: i128) -> (r: String)
    ensures
        r@ == spec_dec_of_int(n as int),
{
    n.to_string()
}

/// The summary of a revision specification: its kind, its value, and the
/// end value when the specification is a range.
pub open spec fn spec_display_revision(r: RevisionTypeView) -> Seq<char> {
    match r {
        RevisionTypeView::Timestamp { timestamp, end_timestamp } => match end_timestamp {
            Some(end) => "start-timestamp: "@ + timestamp + ", end-timestamp: "@ + end,
            None => "timestamp: "@ + timestamp,
        },
        RevisionTypeView::Revision { number, end_number } => match end_number {
            Some(end) => "start-revision: "@ + spec_dec_of(number as nat) + ", end-revision: "@
                + spec_dec_of(end as nat),
            None => "number: "@ + spec_dec_of(number as nat),
        },
    }
}

impl RevisionType {
    /// One line naming the revision or revision range.
    pub fn display_string(&self) -> (r: String)
        ensures
            r@ == spec_display_revision(self@),
    {
        match self {
            RevisionType::Timestamp { timestamp, end_timestamp } => match end_timestamp {
                Some(end) => {
                    let mut s = String::from_str("start-timestamp: ");
                    s.append(timestamp.as_str());
                    s.append(", end-timestamp: ");
                    s.append(end.as_str());
                    s
                },
                None => {
                    let mut s = String::from_str("timestamp: ");
                    s.append(timestamp.as_str());
                    s
                },
            },
            RevisionType::Revision { number, end_number } => match end_number {
                Some(end) => {
                    let mut s = String::from_str("start-revision: ");
                    let start_digits = u64_to_string(*number);
                    s.append(start_digits.as_str());
                    s.append(", end-revision: ");
                    let end_digits = u64_to_string(*end);
                    s.append(end_digits.as_str());
                    s
                },
                None => {
                    let mut s = String::from_str("number: ");
                    let digits = u64_to_string(*number);
                    s.append(digits.as_str());
                    s
                },
            },
        }
    }
}

/// The summary of a `read` command: nodekey, maximum depth and revision,
/// each shown as `NULL` when absent.
pub open spec fn spec_display_read(opts: ReadOptsView) -> Seq<char> {
    "nodekey: "@ + match opts.nodekey {
        Some(n) => spec_dec_of(n as nat),
        None => "NULL"@,
    } + ", maxdepth: "@ + match opts.max_depth {
        Some(n) => spec_dec_of(n as nat),
        None => "NULL"@,
    } + ", revision: "@ + match opts.revision {
        Some(r) => spec_display_revision(r),
        None => "NULL"@,
    }
}

impl ReadOpts {
    /// One line naming the read's nodekey, depth bound and revision.
    pub fn display_string(&self) -> (r: String)
        ensures
            r@ == spec_display_read(self@),
    {
        let mut s = String::from_str("nodekey: ");
        match self.nodekey {
            Some(n) => {
                let digits = u128_to_string(n);
                s.append(digits.as_str());
            },
            None => s.append("NULL"),
        }
        s.append(", maxdepth: ");
        match self.max_depth {
            Some(n) => {
                let digits = u64_to_string(n);
                s.append(digits.as_str());
            },
            None => s.append("NULL"),
        }
        s.append(", revision: ");
        match &self.revision {
            Some(rev) => {
                let line = rev.display_string();
                s.append(line.as_str());
            },
            None => s.append("NULL"),
        }
        s
    }
}

/// The location a node delete points at: its database — `<context>` when
/// left to the context — and its resource, when named.
pub open spec fn spec_delete_node_location(database: Option<Seq<char>>, resource: Option<Seq<char>>) -> Seq<char> {
    let database = match database {
        Some(d) => d,
        None => "<context>"@,
    };
    match resource {
        Some(r) => database + "/"@ + r,
        None => database,
    }
}

/// The summary of a node delete: its location and nodekey, and the etag
/// guard when one is given.
pub open spec fn spec_display_delete_node(
    nodekey: int,
    etag: Option<Seq<char>>,
    database: Option<Seq<char>>,
    resource: Option<Seq<char>>,
) -> Seq<char> {
    let location = spec_delete_node_location(database, resource);
    match etag {
        Some(etag) => "resource: "@ + location + ", nodekey: "@ + spec_dec_of_int(nodekey)
            + ", etag: "@ + etag,
        None => "resource: "@ + location + ", nodekey: "@ + spec_dec_of_int(nodekey),
    }
}

impl DeleteNodeOpts {
    /// One line naming the node delete's location, nodekey and etag.
    pub fn display_string(&self) -> (r: String)
        ensures
            r@ == spec_display_delete_node(
                self.nodekey as int,
                self.etag.deep_view(),
                self.database.deep_view(),
                self.resource.deep_view(),
            ),
    {
        let mut location = match &self.database {
            Some(database) => database.clone(),
            None => String::from_str("<context>"),
        };
        match &self.resource {
            Some(resource) => {
                location.append("/");
                location.append(resource.as_str());
            },
            None => {},
        }
        let mut s = String::from_str("resource: ");
        s.append(location.as_str());
        s.append(", nodekey: ");
        let digits = i128_to_string(self.nodekey);
        s.append(digits.as_str());
        match &self.etag {
            Some(etag) => {
                s.append(", etag: ");
                s.append(etag.as_str());
            },
            None => {},
        }
        s
    }
}

/// The summary of an explicit delete scope: the database name, with the
/// resource name behind a slash when one is named.
pub open spec fn spec_display_explicit_scope(s: DeleteExplicitScopeView) -> Seq<char> {
    match s {
        DeleteExplicitScopeView::Database { database } => database,
        DeleteExplicitScopeView::Resource { database, resource } => database + "/"@ + resource,
    }
}

impl DeleteExplicitScope {
    /// One line naming the explicit scope.
    pub fn display_string(&self) -> (r: String)
        ensures
            r@ == spec_display_explicit_scope(self@),
    {
        match self {
            DeleteExplicitScope::Database { database } => database.clone(),
            DeleteExplicitScope::Resource { database, resource } => {
                let mut s = database.clone();
                s.append("/");
                s.append(resource.as_str());
                s
            },
        }
    }
}

/// The label of a context-relative delete scope.
pub open spec fn spec_display_context_scope(s: DeleteContextScopesImpl) -> Seq<char> {
    match s {
        DeleteContextScopesImpl::Server => "ServerContext"@,
        DeleteContextScopesImpl::Database => "DatabaseContext"@,
        DeleteContextScopesImpl::Resource => "ResourceContext"@,
    }
}

impl DeleteContextScopesImpl {
    /// The scope's label.
    pub fn display_string(&self) -> (r: String)
        ensures
            r@ == spec_display_context_scope(*self),
    {
        match self {
            DeleteContextScopesImpl::Server => String::from_str("ServerContext"),
            DeleteContextScopesImpl::Database => String::from_str("DatabaseContext"),
            DeleteContextScopesImpl::Resource => String::from_str("ResourceContext"),
        }
    }
}

impl DeleteContextScopes {
    /// The held scope's label.
    pub fn display_string(&self) -> (r: String)
        ensures
            r@ == spec_display_context_scope(self.opts),
    {
        self.opts.display_string()
    }
}

/// The summary of a delete scope of either kind.
pub open spec fn spec_display_scope(s: DeleteScopeTypesView) -> Seq<char> {
    match s {
        DeleteScopeTypesView::Context(scope) => spec_display_context_scope(scope),
        DeleteScopeTypesView::Explicit(scope) => spec_display_explicit_scope(scope),
    }
}

impl DeleteScopeTypes {
    /// One line naming the scope.
    pub fn display_string(&self) -> (r: String)
        ensures
            r@ == spec_display_scope(self@),
    {
        match self {
            DeleteScopeTypes::Context(scope) => scope.display_string(),
            DeleteScopeTypes::Explicit(scope) => scope.display_string(),
        }
    }
}

/// The summary of a `delete` command of either shape.
pub open spec fn spec_display_delete(opts: &DeleteOptsImpl) -> Seq<char> {
    match opts {
        DeleteOptsImpl::Scope(scope) => spec_display_scope(scope@),
        DeleteOptsImpl::Node(node) => spec_display_delete_node(
            node.nodekey as int,
            node.etag.deep_view(),
            node.database.deep_view(),
            node.resource.deep_view(),
        ),
    }
}

impl DeleteOptsImpl {
    /// One line naming the delete's target.
    pub fn display_string(&self) -> (r: String)
        ensures
            r@ == spec_display_delete(self),
    {
        match self {
            DeleteOptsImpl::Scope(scope) => scope.display_string(),
            DeleteOptsImpl::Node(node) => node.display_string(),
        }
    }
}

impl DeleteOpts {
    /// One line naming the delete's target.
    pub fn display_string(&self) -> (r: String)
        ensures
            r@ == spec_display_delete(&self.opts),
    {
        self.opts.display_string()
    }
}

/// The summary of an `info` command: the named database, or the server
/// scope with or without its resource listings.
pub open spec fn spec_display_info(opts: InfoOptsView) -> Seq<char> {
    match opts.database {
        Some(database) => "database: "@ + database,
        None => if opts.with_resources {
            "server with_resources"@
        } else {
            "server"@
        },
    }
}

impl InfoOpts {
    /// One line naming the info request's scope.
    pub fn display_string(&self) -> (r: String)
        ensures
            r@ == spec_display_info(self@),
    {
        match &self.database {
            Some(database) => {
                let mut s = String::from_str("database: ");
                s.append(database.as_str());
                s
            },
            None => if self.with_resources {
                String::from_str("server with_resources")
            } else {
                String::from_str("server")
            },
        }
    }
}

} // verus!
