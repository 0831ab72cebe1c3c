//! Normalization of user revision specifications — a point in history by
//! number or by timestamp, alone or as a range — into the single
//! query-argument shape the store client takes.

use vstd::prelude::*;

verus! {

/// A revision specification as the user gives it: one kind, with an
/// optional end value that turns the point into a range.
#[derive(Clone, Debug, PartialEq, Eq)]
pub enum RevisionType {
    /// A moment in history, with an optional end timestamp for a series.
    Timestamp { timestamp: String, end_timestamp: Option<String> },
    /// A revision number, with an optional end number for a series.
    Revision { number: u64, end_number: Option<u64> },
}

/// The mathematical shape of a [`RevisionType`].
pub enum RevisionTypeView {
    Timestamp { timestamp: Seq<char>, end_timestamp: Option<Seq<char>> },
    Revision { number: u64, end_number: Option<u64> },
}

impl View for RevisionType {
    type V = RevisionTypeView;

    open spec fn view(&self) -> RevisionTypeView {
        match self {
            RevisionType::Timestamp { timestamp, end_timestamp } => RevisionTypeView::Timestamp {
                timestamp: timestamp@,
                end_timestamp: end_timestamp.deep_view(),
            },
            RevisionType::Revision { number, end_number } => RevisionTypeView::Revision {
                number: *number,
                end_number: *end_number,
            },
        }
    }
}

impl DeepView for RevisionType {
    type V = RevisionTypeView;

    open spec fn deep_view(&self) -> RevisionTypeView {
        self.view()
    }
}

/// One point in history, by number or by timestamp.
#[derive(Clone, Debug, PartialEq, Eq)]
pub enum SingleRevision {
    Number(u64),
    Timestamp(String),
}

/// A range of history between two points of the same kind. That both
/// endpoints are of one kind is enforced by this very shape; whether the
/// range runs forward is left to the store.
#[derive(Clone, Debug, PartialEq, Eq)]
pub enum TwoRevisions {
    Number(u64, u64),
    Timestamp(String, String),
}

/// The normalized revision argument of a read: one point or one range.
#[derive(Clone, Debug, PartialEq, Eq)]
pub enum RevisionArg {
    SingleRevision(SingleRevision),
    TwoRevisions(TwoRevisions),
}

/// The mathematical shape of a [`SingleRevision`].
pub enum SingleRevisionView {
    Number(u64),
    Timestamp(Seq<char>),
}

/// The mathematical shape of a [`TwoRevisions`].
pub enum TwoRevisionsView {
    Number(u64, u64),
    Timestamp(Seq<char>, Seq<char>),
}

/// The mathematical shape of a [`RevisionArg`].
pub enum RevisionArgView {
    SingleRevision(SingleRevisionView),
    TwoRevisions(TwoRevisionsView),
}

impl View for SingleRevision {
    type V = SingleRevisionView;

    open spec fn view(&self) -> SingleRevisionView {
        match self {
            SingleRevision::Number(n) => SingleRevisionView::Number(*n),
            SingleRevision::Timestamp(t) => SingleRevisionView::Timestamp(t@),
        }
    }
}

impl View for TwoRevisions {
    type V = TwoRevisionsView;

    open spec fn view(&self) -> TwoRevisionsView {
        match self {
            TwoRevisions::Number(a, b) => TwoRevisionsView::Number(*a, *b),
            TwoRevisions::Timestamp(a, b) => TwoRevisionsView::Timestamp(a@, b@),
        }
    }
}

impl View for RevisionArg {
    type V = RevisionArgView;

    open spec fn view(&self) -> RevisionArgView {
        match self {
            RevisionArg::SingleRevision(s) => RevisionArgView::SingleRevision(s@),
            RevisionArg::TwoRevisions(t) => RevisionArgView::TwoRevisions(t@),
        }
    }
}

impl DeepView for RevisionArg {
    type V = RevisionArgView;

    open spec fn deep_view(&self) -> RevisionArgView {
        self.view()
    }
}

/// The total mapping from a revision specification to the normalized
/// argument: no input asks for no revision argument (the store then picks
/// the latest revision); a lone value becomes a single point; a value with
/// an end becomes a range of the same kind. Nothing here can fail, and no
/// order between the endpoints of a range is enforced.
pub open spec fn spec_build_revision_arg(revision: Option<RevisionTypeView>) -> Option<RevisionArgView> {
    match revision {
        None => None,
        Some(RevisionTypeView::Revision { number, end_number }) => match end_number {
            Some(end) => Some(RevisionArgView::TwoRevisions(TwoRevisionsView::Number(number, end))),
            None => Some(RevisionArgView::SingleRevision(SingleRevisionView::Number(number))),
        },
        Some(RevisionTypeView::Timestamp { timestamp, end_timestamp }) => match end_timestamp {
            Some(end) => Some(
                RevisionArgView::TwoRevisions(TwoRevisionsView::Timestamp(timestamp, end)),
            ),
            None => Some(RevisionArgView::SingleRevision(SingleRevisionView::Timestamp(timestamp))),
        },
    }
}

/// Normalizes an optional revision specification into an optional
/// query argument, exactly as [`spec_build_revision_arg`] says.
pub fn build_revision_arg(revision: Option<RevisionType>) -> (r: Option<RevisionArg>)
    ensures
        r.deep_view() == spec_build_revision_arg(revision.deep_view()),
{
    match revision {
        None => None,
        Some(RevisionType::Revision { number, end_number }) => match end_number {
            Some(end) => Some(RevisionArg::TwoRevisions(TwoRevisions::Number(number, end))),
            None => Some(RevisionArg::SingleRevision(SingleRevision::Number(number))),
        },
        Some(RevisionType::Timestamp { timestamp, end_timestamp }) => match end_timestamp {
            Some(end) => Some(RevisionArg::TwoRevisions(TwoRevisions::Timestamp(timestamp, end))),
            None => Some(RevisionArg::SingleRevision(SingleRevision::Timestamp(timestamp))),
        },
    }
}

} // verus!
