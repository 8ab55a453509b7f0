//! The credential store adapter: one secret under a fixed identity.
//!
//! The operating system keeps the secret. Setting, reading and deleting it
//! are calls into the platform's credential facility, made by the caller of
//! this module; what the facility reported is handed to [`on_set`],
//! [`on_get`] or [`on_delete`], which decide the result of the operation.
//!
//! Two rules shape these decisions. A missing secret is no failure: reading
//! it yields "absent", deleting it succeeds. And a failure is told apart by
//! whether the facility could be reached at all.

use vstd::prelude::*;
use crate::error::{Error, ErrorKind, ErrorView};

verus! {

/// Service name under which the secret is filed.
pub const SERVICE_NAME: &'static str = "rally-notifier";

/// Account name under which the secret is filed.
pub const ACCOUNT_NAME: &'static str = "rally-api-key";

/// The ways in which the platform's credential facility fails.
#[derive(Clone, Copy, Debug, PartialEq, Eq, Structural)]
pub enum StoreFault {
    /// The platform's storage system failed at run time.
    PlatformFailure,
    /// The storage that holds saved items could not be accessed.
    NoStorageAccess,
    /// Nothing is stored under the identity.
    NoEntry,
    /// What is stored is not UTF-8 text.
    BadEncoding,
    /// An attribute of the entry is longer than the platform allows.
    TooLong,
    /// An attribute of the entry is not valid.
    Invalid,
    /// More than one stored item matches the identity.
    Ambiguous,
    /// A failure of a kind not listed here.
    Other,
}

/// A failed call into the credential facility: the fault, and the platform's
/// own words for it.
#[derive(Clone, Debug, PartialEq, Eq)]
pub struct StoreFailure {
    pub fault: StoreFault,
    pub detail: String,
}

/// The mathematical content of a [`StoreFailure`].
pub ghost struct StoreFailureView {
    pub fault: StoreFault,
    pub detail: Seq<char>,
}

impl View for StoreFailure {
    type V = StoreFailureView;

    open spec fn view(&self) -> StoreFailureView {
        StoreFailureView { fault: self.fault, detail: self.detail@ }
    }
}

/// Whether a fault means that the facility itself was out of reach, rather
/// than that one operation on it went wrong.
pub open spec fn is_unreachable(fault: StoreFault) -> bool {
    fault is PlatformFailure || fault is NoStorageAccess
}

/// The error for a failed call: unavailable where the facility was out of
/// reach, else the kind that belongs to the operation. The detail is kept.
pub open spec fn store_error(failure: StoreFailureView, otherwise: ErrorKind) -> ErrorView {
    ErrorView {
        kind: if is_unreachable(failure.fault) {
            ErrorKind::StoreUnavailable
        } else {
            otherwise
        },
        message: failure.detail,
    }
}

/// The result of setting the secret, given what the facility reported.
pub open spec fn set_result(report: Result<(), StoreFailureView>) -> Result<(), ErrorView> {
    match report {
        Ok(()) => Ok(()),
        Err(failure) => Err(store_error(failure, ErrorKind::StoreWriteFailed)),
    }
}

/// The result of reading the secret, given what the facility reported: the
/// stored text, absence where nothing is stored, else the failure.
pub open spec fn get_result(report: Result<Seq<char>, StoreFailureView>) -> Result<
    Option<Seq<char>>,
    ErrorView,
> {
    match report {
        Ok(secret) => Ok(Some(secret)),
        Err(failure) => if failure.fault is NoEntry {
            Ok(None)
        } else {
            Err(store_error(failure, ErrorKind::StoreReadFailed))
        },
    }
}

/// The result of deleting the secret, given what the facility reported:
/// success also where nothing was stored.
pub open spec fn delete_result(report: Result<(), StoreFailureView>) -> Result<(), ErrorView> {
    match report {
        Ok(()) => Ok(()),
        Err(failure) => if failure.fault is NoEntry {
            Ok(())
        } else {
            Err(store_error(failure, ErrorKind::StoreWriteFailed))
        },
    }
}

/// The content of a report that carries no value.
pub open spec fn report_view(report: Result<(), StoreFailure>) -> Result<(), StoreFailureView> {
    match report {
        Ok(()) => Ok(()),
        Err(failure) => Err(failure@),
    }
}

/// The content of a report that carries the stored text.
pub open spec fn read_report_view(report: Result<String, StoreFailure>) -> Result<
    Seq<char>,
    StoreFailureView,
> {
    match report {
        Ok(secret) => Ok(secret@),
        Err(failure) => Err(failure@),
    }
}

/// The content of the result of an operation that yields no value.
pub open spec fn done_view(result: Result<(), Error>) -> Result<(), ErrorView> {
    match result {
        Ok(()) => Ok(()),
        Err(error) => Err(error@),
    }
}

/// The content of the result of reading the secret.
pub open spec fn secret_view(result: Result<Option<String>, Error>) -> Result<
    Option<Seq<char>>,
    ErrorView,
> {
    match result {
        Ok(secret) => Ok(secret.deep_view()),
        Err(error) => Err(error@),
    }
}

/// Turns a failed call into the error of the operation it belonged to.
fn fail(failure: StoreFailure, otherwise: ErrorKind) -> (error: Error)
    ensures
        error@ == store_error(failure@, otherwise),
{
    let kind = match failure.fault {
        StoreFault::PlatformFailure | StoreFault::NoStorageAccess => ErrorKind::StoreUnavailable,
        _ => otherwise,
    };
    Error { kind, message: failure.detail }
}

/// Decides the result of setting the secret from what the facility reported.
pub fn on_set(report: Result<(), StoreFailure>) -> (result: Result<(), Error>)
    ensures
        done_view(result) == set_result(report_view(report)),
{
    match report {
        Ok(()) => Ok(()),
        Err(failure) => Err(fail(failure, ErrorKind::StoreWriteFailed)),
    }
}

/// Decides the result of reading the secret from what the facility reported.
///
/// The stored text comes back untouched. Where nothing is stored the result
/// is `Ok(None)`, which no failure ever yields.
pub fn on_get(report: Result<String, StoreFailure>) -> (result: Result<Option<String>, Error>)
    ensures
        secret_view(result) == get_result(read_report_view(report)),
{
    match report {
        Ok(secret) => Ok(Some(secret)),
        Err(failure) => match failure.fault {
            StoreFault::NoEntry => Ok(None),
            _ => Err(fail(failure, ErrorKind::StoreReadFailed)),
        },
    }
}

/// Decides the result of deleting the secret from what the facility
/// reported. Deleting what is not there succeeds.
pub fn on_delete(report: Result<(), StoreFailure>) -> (result: Result<(), Error>)
    ensures
        done_view(result) == delete_result(report_view(report)),
{
    match report {
        Ok(()) => Ok(()),
        Err(failure) => match failure.fault {
            StoreFault::NoEntry => Ok(()),
            _ => Err(fail(failure, ErrorKind::StoreWriteFailed)),
        },
    }
}

// The adapter against a store that works.
//
// The facility is outside this crate, and nothing here can say how it
// behaves. What can be said is how the adapter's results follow one another
// when the facility is in reach, serves every call, and keeps exactly one
// cell under the identity. The cell is modelled as an `Option`: the stored
// text, or `None` where nothing is stored. A call on an empty cell reports
// `NoEntry` with some detail, which the laws leave arbitrary.

/// What such a store reports to a read.
pub open spec fn read_report(cell: Option<Seq<char>>, detail: Seq<char>) -> Result<
    Seq<char>,
    StoreFailureView,
> {
    match cell {
        Some(secret) => Ok(secret),
        None => Err(StoreFailureView { fault: StoreFault::NoEntry, detail }),
    }
}

/// What such a store reports to a removal.
pub open spec fn removal_report(cell: Option<Seq<char>>, detail: Seq<char>) -> Result<
    (),
    StoreFailureView,
> {
    match cell {
        Some(_) => Ok(()),
        None => Err(StoreFailureView { fault: StoreFault::NoEntry, detail }),
    }
}

/// Setting `secret`: the cell afterwards, and the adapter's result.
pub open spec fn set_on(cell: Option<Seq<char>>, secret: Seq<char>) -> (
    Option<Seq<char>>,
    Result<(), ErrorView>,
) {
    (Some(secret), set_result(Ok(())))
}

/// Reading: the cell afterwards, which is the cell before, and the adapter's
/// result.
pub open spec fn get_on(cell: Option<Seq<char>>, detail: Seq<char>) -> (
    Option<Seq<char>>,
    Result<Option<Seq<char>>, ErrorView>,
) {
    (cell, get_result(read_report(cell, detail)))
}

/// Deleting: the cell afterwards, which is empty, and the adapter's result.
pub open spec fn delete_on(cell: Option<Seq<char>>, detail: Seq<char>) -> (
    Option<Seq<char>>,
    Result<(), ErrorView>,
) {
    (None, delete_result(removal_report(cell, detail)))
}

/// Reading after setting yields what was set, whatever the cell held before.
pub proof fn law_get_after_set(cell: Option<Seq<char>>, secret: Seq<char>, detail: Seq<char>)
    ensures
        set_on(cell, secret).1 == Ok::<(), ErrorView>(()),
        get_on(set_on(cell, secret).0, detail).1 == Ok::<Option<Seq<char>>, ErrorView>(
            Some(secret),
        ),
{
}

/// Reading after setting and deleting yields absence, and no error.
pub proof fn law_get_after_set_and_delete(
    cell: Option<Seq<char>>,
    secret: Seq<char>,
    first: Seq<char>,
    second: Seq<char>,
)
    ensures
        ({
            let stored = set_on(cell, secret).0;
            let deleted = delete_on(stored, first);
            &&& deleted.1 == Ok::<(), ErrorView>(())
            &&& get_on(deleted.0, second).1 == Ok::<Option<Seq<char>>, ErrorView>(None)
        }),
{
}

/// Deleting where nothing is stored succeeds, and reading still yields
/// absence.
pub proof fn law_delete_when_absent(first: Seq<char>, second: Seq<char>)
    ensures
        delete_on(None, first).1 == Ok::<(), ErrorView>(()),
        get_on(delete_on(None, first).0, second).1 == Ok::<Option<Seq<char>>, ErrorView>(None),
{
}

/// Deleting twice is deleting once: the second removal succeeds like the
/// first and leaves the cell as the first left it.
pub proof fn law_delete_twice(cell: Option<Seq<char>>, first: Seq<char>, second: Seq<char>)
    ensures
        delete_on(cell, first).1 == Ok::<(), ErrorView>(()),
        delete_on(delete_on(cell, first).0, second) == delete_on(cell, first),
{
}

/// Absence is told apart from every failure: reading yields `Ok(None)`
/// exactly when the facility reported that nothing is stored.
pub proof fn law_absence_is_no_failure(report: Result<Seq<char>, StoreFailureView>)
    ensures
        get_result(report) == Ok::<Option<Seq<char>>, ErrorView>(None) <==> (report matches Err(
            failure,
        ) && failure.fault is NoEntry),
        get_result(report) is Err <==> (report matches Err(failure) && !(failure.fault is NoEntry)),
{
}

} // verus!
