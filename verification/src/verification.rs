//! Participant verification: what the identity service said of each
//! candidate, and the one error that reports every candidate it did not
//! confirm.

use vstd::prelude::*;
use crate::errors::ServiceError;
use crate::errors::INTERNAL_ERROR;
use crate::errors::NOT_FOUND;
use crate::ident::format_uuid;
use crate::ident::uuid_text;

verus! {

/// Why a lookup did not confirm a user.
#[derive(Debug)]
pub enum LookupFault {
    /// The identity service reports the user absent.
    NotFound,
    /// The call could not complete: a timeout or a transport error.
    Unavailable,
    /// The identity service answered with another fault, described here.
    Other(String),
}

/// A candidate that was not confirmed, and why.
#[derive(Debug)]
pub struct VerificationFailure {
    pub user_uid: u128,
    pub fault: LookupFault,
}

/// A copy of a fault.
pub fn copy_fault(fault: &LookupFault) -> (copy: LookupFault)
    ensures
        copy == *fault,
{
    match fault {
        LookupFault::NotFound => LookupFault::NotFound,
        LookupFault::Unavailable => LookupFault::Unavailable,
        LookupFault::Other(detail) => LookupFault::Other(detail.clone()),
    }
}

/// The gRPC status code of a call that was cancelled, as a timeout on the
/// caller's side cancels it.
pub const CODE_CANCELLED: i32 = 1;

/// The gRPC status code of a call whose deadline passed.
pub const CODE_DEADLINE_EXCEEDED: i32 = 4;

/// The gRPC status code of an entity that was not found.
pub const CODE_NOT_FOUND: i32 = 5;

/// The gRPC status code of a service that cannot be reached.
pub const CODE_UNAVAILABLE: i32 = 14;

/// The fault that the status of a failed lookup stands for, by the number of
/// its gRPC status code: the user is absent, the call could not complete, or
/// the service answered with another fault, which is then described by
/// `text`.
pub open spec fn fault_for(code: i32, text: String) -> LookupFault {
    if code == CODE_NOT_FOUND {
        LookupFault::NotFound
    } else if code == CODE_UNAVAILABLE || code == CODE_DEADLINE_EXCEEDED || code == CODE_CANCELLED {
        LookupFault::Unavailable
    } else {
        LookupFault::Other(text)
    }
}

/// The fault that the status of a failed lookup stands for, by the number of
/// its gRPC status code and the text that describes it.
pub fn classify(code: i32, text: String) -> (fault: LookupFault)
    ensures
        fault == fault_for(code, text),
{
    if code == CODE_NOT_FOUND {
        LookupFault::NotFound
    } else if code == CODE_UNAVAILABLE || code == CODE_DEADLINE_EXCEEDED || code == CODE_CANCELLED {
        LookupFault::Unavailable
    } else {
        LookupFault::Other(text)
    }
}

/// What a fault says of a user.
pub open spec fn fault_text(user_uid: u128, fault: LookupFault) -> Seq<char> {
    match fault {
        LookupFault::NotFound => "User "@ + uuid_text(user_uid) + " not found"@,
        LookupFault::Unavailable => "gRPC server unavailable"@,
        LookupFault::Other(detail) => "gRPC error: "@ + detail@,
    }
}

/// The status of a failed lookup: an absent user is not found, any other
/// fault is a failure on the server's side.
pub open spec fn fault_status(fault: LookupFault) -> u16 {
    match fault {
        LookupFault::NotFound => NOT_FOUND,
        _ => INTERNAL_ERROR,
    }
}

/// The error of one failed lookup.
pub fn lookup_error(user_uid: u128, fault: &LookupFault) -> (e: ServiceError)
    ensures
        e.is(fault_text(user_uid, *fault), fault_status(*fault)),
{
    match fault {
        LookupFault::NotFound => {
            let mut message = String::from_str("User ");
            message.append(format_uuid(user_uid).as_str());
            message.append(" not found");
            ServiceError::not_found(message.as_str())
        },
        LookupFault::Unavailable => ServiceError::internal_error("gRPC server unavailable"),
        LookupFault::Other(detail) => {
            let message = String::from_str("gRPC error: ").concat(detail.as_str());
            ServiceError::internal_error(message.as_str())
        },
    }
}

/// The line that reports one candidate that was not confirmed.
pub open spec fn failure_line(failure: VerificationFailure) -> Seq<char> {
    "User "@ + uuid_text(failure.user_uid) + " not found: "@ + fault_text(
        failure.user_uid,
        failure.fault,
    )
}

/// The line that reports one candidate that was not confirmed.
pub fn describe_failure(failure: &VerificationFailure) -> (line: String)
    ensures
        line@ == failure_line(*failure),
{
    let mut line = String::from_str("User ");
    line.append(format_uuid(failure.user_uid).as_str());
    line.append(" not found: ");
    line.append(lookup_error(failure.user_uid, &failure.fault).message.as_str());
    line
}

/// The error that rejects a single candidate who was not confirmed.
pub fn rejected_participant(user_uid: u128, fault: &LookupFault) -> (e: ServiceError)
    ensures
        e.is(
            failure_line(VerificationFailure { user_uid, fault: *fault }),
            NOT_FOUND,
        ),
{
    let failure = VerificationFailure { user_uid, fault: copy_fault(fault) };
    let line = describe_failure(&failure);
    ServiceError::not_found(line.as_str())
}

/// The outcome of the `i`-th lookup: `None` where the user was confirmed. A
/// lookup without an outcome did not complete.
pub open spec fn outcome_at(outcomes: Seq<Option<LookupFault>>, i: int) -> Option<LookupFault> {
    if 0 <= i < outcomes.len() {
        outcomes[i]
    } else {
        Some(LookupFault::Unavailable)
    }
}

/// The failures among the first `n` candidates, in their order.
pub open spec fn failures_upto(
    users: Seq<u128>,
    outcomes: Seq<Option<LookupFault>>,
    n: int,
) -> Seq<VerificationFailure>
    decreases n,
{
    if n <= 0 {
        Seq::empty()
    } else {
        let earlier = failures_upto(users, outcomes, n - 1);
        match outcome_at(outcomes, n - 1) {
            None => earlier,
            Some(fault) => earlier.push(VerificationFailure { user_uid: users[n - 1], fault }),
        }
    }
}

/// Every candidate that was not confirmed, each with its fault, in the order
/// of the candidates. The `i`-th outcome belongs to the `i`-th candidate.
pub open spec fn failures_of(users: Seq<u128>, outcomes: Seq<Option<LookupFault>>) -> Seq<
    VerificationFailure,
> {
    failures_upto(users, outcomes, users.len() as int)
}

/// Whether every candidate was confirmed.
pub open spec fn all_confirmed(users: Seq<u128>, outcomes: Seq<Option<LookupFault>>) -> bool {
    forall|i: int| 0 <= i < users.len() ==> outcome_at(outcomes, i) is None
}

/// There is no failure exactly if every candidate was confirmed, and every
/// failure names a candidate.
pub proof fn lemma_failures_upto(users: Seq<u128>, outcomes: Seq<Option<LookupFault>>, n: int)
    requires
        0 <= n <= users.len(),
    ensures
        failures_upto(users, outcomes, n).len() == 0 <==> forall|i: int|
            0 <= i < n ==> outcome_at(outcomes, i) is None,
        failures_upto(users, outcomes, n).len() <= n,
        forall|k: int|
            0 <= k < failures_upto(users, outcomes, n).len() ==> users.contains(
                (#[trigger] failures_upto(users, outcomes, n)[k]).user_uid,
            ),
    decreases n,
{
    if n > 0 {
        lemma_failures_upto(users, outcomes, n - 1);
        let earlier = failures_upto(users, outcomes, n - 1);
        let all = failures_upto(users, outcomes, n);
        assert(users.contains(users[n - 1]));
        assert forall|k: int| 0 <= k < all.len() implies users.contains((#[trigger] all[k]).user_uid) by {
            if k < earlier.len() {
                assert(all[k] == earlier[k]);
            }
        }
        if forall|i: int| 0 <= i < n ==> outcome_at(outcomes, i) is None {
            assert(outcome_at(outcomes, n - 1) is None);
        }
    }
}

/// Verification fails as a whole as soon as one candidate is not confirmed:
/// the list of failures is empty exactly if every candidate was confirmed.
pub proof fn lemma_no_failure_iff_all_confirmed(
    users: Seq<u128>,
    outcomes: Seq<Option<LookupFault>>,
)
    ensures
        failures_of(users, outcomes).len() == 0 <==> all_confirmed(users, outcomes),
{
    lemma_failures_upto(users, outcomes, users.len() as int);
}

/// A candidate among the first `n` that was not confirmed is listed with its
/// fault among their failures.
pub proof fn lemma_failure_listed_upto(
    users: Seq<u128>,
    outcomes: Seq<Option<LookupFault>>,
    n: int,
    i: int,
)
    requires
        0 <= i < n <= users.len(),
        outcome_at(outcomes, i) is Some,
    ensures
        failures_upto(users, outcomes, n).contains(
            VerificationFailure { user_uid: users[i], fault: outcome_at(outcomes, i)->Some_0 },
        ),
    decreases n,
{
    let wanted = VerificationFailure { user_uid: users[i], fault: outcome_at(outcomes, i)->Some_0 };
    let earlier = failures_upto(users, outcomes, n - 1);
    let all = failures_upto(users, outcomes, n);
    if i == n - 1 {
        assert(all[earlier.len() as int] == wanted);
    } else {
        lemma_failure_listed_upto(users, outcomes, n - 1, i);
        let k = choose|k: int| 0 <= k < earlier.len() && earlier[k] == wanted;
        assert(all[k] == wanted);
    }
}

/// The list of failures is complete: every candidate that was not confirmed
/// is in it, with its fault.
pub proof fn lemma_every_failure_listed(
    users: Seq<u128>,
    outcomes: Seq<Option<LookupFault>>,
    i: int,
)
    requires
        0 <= i < users.len(),
        outcome_at(outcomes, i) is Some,
    ensures
        failures_of(users, outcomes).contains(
            VerificationFailure { user_uid: users[i], fault: outcome_at(outcomes, i)->Some_0 },
        ),
{
    lemma_failure_listed_upto(users, outcomes, users.len() as int, i);
}

/// Collects every candidate that was not confirmed. All outcomes are looked
/// at: the first failure does not end the collection.
pub fn collect_failures(users: &Vec<u128>, outcomes: &Vec<Option<LookupFault>>) -> (failures: Vec<
    VerificationFailure,
>)
    ensures
        failures@ == failures_of(users@, outcomes@),
{
    let mut failures: Vec<VerificationFailure> = Vec::new();
    let mut i: usize = 0;
    while i < users.len()
        invariant
            i <= users.len(),
            failures@ == failures_upto(users@, outcomes@, i as int),
        decreases users.len() - i,
    {
        if i < outcomes.len() {
            match &outcomes[i] {
                None => {},
                Some(fault) => {
                    failures.push(VerificationFailure { user_uid: users[i], fault: copy_fault(fault) });
                },
            }
        } else {
            failures.push(VerificationFailure { user_uid: users[i], fault: LookupFault::Unavailable });
        }
        i += 1;
    }
    failures
}

/// The lines of the first `n` failures, separated by `"; "`.
pub open spec fn joined_lines(failures: Seq<VerificationFailure>, n: int) -> Seq<char>
    decreases n,
{
    if n <= 0 {
        Seq::empty()
    } else if n == 1 {
        failure_line(failures[0])
    } else {
        joined_lines(failures, n - 1) + "; "@ + failure_line(failures[n - 1])
    }
}

/// The message that reports every failure.
pub open spec fn aggregate_text(failures: Seq<VerificationFailure>) -> Seq<char> {
    joined_lines(failures, failures.len() as int)
}

/// The one error that reports every candidate that was not confirmed.
pub fn aggregate(failures: &Vec<VerificationFailure>) -> (e: ServiceError)
    ensures
        e.is(aggregate_text(failures@), NOT_FOUND),
{
    let mut message = String::new();
    let mut i: usize = 0;
    while i < failures.len()
        invariant
            i <= failures.len(),
            message@ == joined_lines(failures@, i as int),
        decreases failures.len() - i,
    {
        if i > 0 {
            message.append("; ");
        }
        message.append(describe_failure(&failures[i]).as_str());
        proof {
            if i == 0 {
                assert(message@ =~= failure_line(failures@[0]));
            }
        }
        i += 1;
    }
    ServiceError::not_found(message.as_str())
}

} // verus!
