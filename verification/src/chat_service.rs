//! Chat creation and membership: the decisions around the identity service
//! and the store.
//!
//! Creating a chat takes three steps. [`begin`] checks the request and, if
//! it passes, yields a [`PendingChat`] that names the users to look up. The
//! server looks every one of them up and hands all outcomes to
//! [`PendingChat::conclude`], which either rejects the request, naming every
//! user that was not confirmed, or yields the [`ChatPlan`] that the store
//! inserts in one transaction. No plan exists before every participant has
//! been confirmed.

use vstd::prelude::*;
use crate::errors::ServiceError;
use crate::errors::BAD_REQUEST;
use crate::errors::INTERNAL_ERROR;
use crate::errors::NOT_FOUND;
use crate::ident::format_uuid;
use crate::ident::identifier_from;
use crate::ident::uuid_parse_result;
use crate::ident::uuid_parse_str;
use crate::ident::uuid_text;
use crate::models::CreateChatDTO;
use crate::verification::aggregate;
use crate::verification::aggregate_text;
use crate::verification::all_confirmed;
use crate::verification::collect_failures;
use crate::verification::failures_of;
use crate::verification::lemma_no_failure_iff_all_confirmed;
use crate::verification::LookupFault;

verus! {

/// Whether the first `end` items hold `wanted`.
pub fn occurs_before(items: &Vec<u128>, end: usize, wanted: u128) -> (found: bool)
    requires
        end <= items.len(),
    ensures
        found == exists|k: int| 0 <= k < end && items@[k] == wanted,
{
    let mut i: usize = 0;
    while i < end
        invariant
            i <= end <= items.len(),
            forall|k: int| 0 <= k < i ==> items@[k] != wanted,
        decreases end - i,
    {
        if items[i] == wanted {
            return true;
        }
        i += 1;
    }
    false
}

/// Whether an identifier appears more than once.
pub fn has_duplicates(items: &Vec<u128>) -> (found: bool)
    ensures
        found == !items@.no_duplicates(),
{
    let mut i: usize = 0;
    while i < items.len()
        invariant
            i <= items.len(),
            forall|a: int, b: int| 0 <= a < b < i ==> items@[a] != items@[b],
        decreases items.len() - i,
    {
        if occurs_before(items, i, items[i]) {
            return true;
        }
        i += 1;
    }
    false
}

/// Why a list of participants is refused, if it is: an empty list first,
/// then one that names a user twice.
pub open spec fn participants_fault(participants: Seq<u128>) -> Option<Seq<char>> {
    if participants.len() == 0 {
        Some("Chat must have at least one participant"@)
    } else if !participants.no_duplicates() {
        Some("Duplicate participants are not allowed"@)
    } else {
        None
    }
}

/// Checks the participants of a request: there is at least one, and none
/// twice.
pub fn validate_participants(participants: &Vec<u128>) -> (r: Result<(), ServiceError>)
    ensures
        match participants_fault(participants@) {
            Some(message) => r is Err && r->Err_0.is(message, BAD_REQUEST),
            None => r is Ok,
        },
{
    if participants.len() == 0 {
        return Err(ServiceError::bad_request("Chat must have at least one participant"));
    }
    if has_duplicates(participants) {
        return Err(ServiceError::bad_request("Duplicate participants are not allowed"));
    }
    Ok(())
}

/// A request that passed the checks and waits for its participants to be
/// verified.
pub struct PendingChat {
    request: CreateChatDTO,
}

/// One membership row of a chat that is to be created.
#[derive(Clone, Copy, Debug)]
pub struct Membership {
    pub chat_uid: u128,
    pub user_uid: u128,
}

/// What the store inserts, all of it or nothing: one chat and one membership
/// for each participant.
#[derive(Debug)]
pub struct ChatPlan {
    pub chat_uid: u128,
    pub name: Option<String>,
    pub participants: Vec<u128>,
}

/// Checks a request to create a chat. A request without participants, or one
/// that names a user twice, is rejected here, before any lookup.
pub fn begin(request: CreateChatDTO) -> (r: Result<PendingChat, ServiceError>)
    ensures
        match participants_fault(request.participants@) {
            Some(message) => r is Err && r->Err_0.is(message, BAD_REQUEST),
            None => r is Ok && r->Ok_0.request() == request,
        },
{
    match validate_participants(&request.participants) {
        Err(e) => Err(e),
        Ok(()) => Ok(PendingChat { request }),
    }
}

/// Calls `uuid::Uuid::new_v4` and hands back the number of the identifier.
/// Trusted; nothing is claimed of the number, which is drawn at random.
#[verifier::external_body]
pub(crate) fn random_uuid() -> u128 {
    uuid::Uuid::new_v4().as_u128()
}

impl PendingChat {
    /// The request that is waiting.
    pub closed spec fn request(&self) -> CreateChatDTO {
        self.request
    }

    /// What holds of every pending request: it has participants, each once.
    #[verifier::type_invariant]
    pub closed spec fn checked(&self) -> bool {
        self.request.participants@.len() > 0 && self.request.participants@.no_duplicates()
    }

    /// The users to look up, one lookup each: the participants in the order
    /// of the request.
    pub fn lookups(&self) -> (users: Vec<u128>)
        ensures
            users@ == self.request().participants@,
            users@.no_duplicates(),
            users@.len() > 0,
    {
        proof {
            use_type_invariant(self);
        }
        let mut users: Vec<u128> = Vec::new();
        let mut i: usize = 0;
        while i < self.request.participants.len()
            invariant
                i <= self.request.participants.len(),
                users@ == self.request.participants@.subrange(0, i as int),
            decreases self.request.participants.len() - i,
        {
            users.push(self.request.participants[i]);
            assert(users@ =~= self.request.participants@.subrange(0, i + 1));
            i += 1;
        }
        assert(users@ =~= self.request.participants@);
        users
    }

    /// Concludes the verification under a chosen chat identifier. The `i`-th
    /// outcome is that of the `i`-th lookup, `None` where the user was
    /// confirmed; a lookup without an outcome counts as one that did not
    /// complete. With every participant confirmed, the result is the plan to
    /// insert; with any participant not confirmed, it is one not-found error
    /// that names every such participant, and there is nothing to insert.
    pub fn conclude_as(self, outcomes: &Vec<Option<LookupFault>>, chat_uid: u128) -> (r: Result<
        ChatPlan,
        ServiceError,
    >)
        ensures
            all_confirmed(self.request().participants@, outcomes@) <==> r is Ok,
            r is Ok ==> r->Ok_0.chat_uid == chat_uid && r->Ok_0.name == self.request().name
                && r->Ok_0.participants == self.request().participants,
            r is Ok ==> r->Ok_0.participants@.len() > 0 && r->Ok_0.participants@.no_duplicates(),
            r is Err ==> r->Err_0.is(
                aggregate_text(failures_of(self.request().participants@, outcomes@)),
                NOT_FOUND,
            ),
    {
        proof {
            use_type_invariant(&self);
            lemma_no_failure_iff_all_confirmed(self.request.participants@, outcomes@);
        }
        let failures = collect_failures(&self.request.participants, outcomes);
        if failures.len() > 0 {
            return Err(aggregate(&failures));
        }
        Ok(ChatPlan { chat_uid, name: self.request.name, participants: self.request.participants })
    }

    /// Concludes the verification under a fresh chat identifier, which is
    /// chosen before anything is inserted.
    pub fn conclude(self, outcomes: &Vec<Option<LookupFault>>) -> (r: Result<ChatPlan, ServiceError>)
        ensures
            all_confirmed(self.request().participants@, outcomes@) <==> r is Ok,
            r is Ok ==> r->Ok_0.name == self.request().name && r->Ok_0.participants
                == self.request().participants,
            r is Ok ==> r->Ok_0.participants@.len() > 0 && r->Ok_0.participants@.no_duplicates(),
            r is Err ==> r->Err_0.is(
                aggregate_text(failures_of(self.request().participants@, outcomes@)),
                NOT_FOUND,
            ),
    {
        let chat_uid = random_uuid();
        self.conclude_as(outcomes, chat_uid)
    }
}

impl ChatPlan {
    /// The membership rows of the plan: one for each participant, in their
    /// order, all of this chat.
    pub fn memberships(&self) -> (rows: Vec<Membership>)
        ensures
            rows@.len() == self.participants@.len(),
            forall|i: int|
                0 <= i < rows@.len() ==> (#[trigger] rows@[i]).chat_uid == self.chat_uid
                    && rows@[i].user_uid == self.participants@[i],
    {
        let mut rows: Vec<Membership> = Vec::new();
        let mut i: usize = 0;
        while i < self.participants.len()
            invariant
                i <= self.participants.len(),
                rows@.len() == i,
                forall|k: int|
                    0 <= k < i ==> (#[trigger] rows@[k]).chat_uid == self.chat_uid
                        && rows@[k].user_uid == self.participants@[k],
            decreases self.participants.len() - i,
        {
            rows.push(Membership { chat_uid: self.chat_uid, user_uid: self.participants[i] });
            i += 1;
        }
        rows
    }
}

/// The step of the creating transaction at which the store failed.
#[derive(Clone, Copy, Debug)]
pub enum TransactionStage {
    Begin,
    InsertChat,
    InsertParticipant(u128),
    Commit,
}

/// What is reported when the store fails at a stage, before the store's own
/// words.
pub open spec fn stage_text(stage: TransactionStage) -> Seq<char> {
    match stage {
        TransactionStage::Begin => "Transaction error: "@,
        TransactionStage::InsertChat => "Error creating a chat room: "@,
        TransactionStage::InsertParticipant(user_uid) => "Error adding participant "@ + uuid_text(
            user_uid,
        ) + ": "@,
        TransactionStage::Commit => "Transaction commit error: "@,
    }
}

/// The error of a creating transaction that failed at `stage` and was rolled
/// back, with the store's own words in `detail`.
pub fn transaction_failure(stage: TransactionStage, detail: &str) -> (e: ServiceError)
    ensures
        e.is(stage_text(stage) + detail@, INTERNAL_ERROR),
{
    let mut message = match stage {
        TransactionStage::Begin => String::from_str("Transaction error: "),
        TransactionStage::InsertChat => String::from_str("Error creating a chat room: "),
        TransactionStage::InsertParticipant(user_uid) => {
            let mut prefix = String::from_str("Error adding participant ");
            prefix.append(format_uuid(user_uid).as_str());
            prefix.append(": ");
            prefix
        },
        TransactionStage::Commit => String::from_str("Transaction commit error: "),
    };
    message.append(detail);
    ServiceError::internal_error(message.as_str())
}

/// Why a user cannot be added to a chat, if so: the chat must exist, and the
/// user may not be a member of it already.
pub open spec fn admission_fault(chat_uid: u128, chat_exists: bool, already_member: bool) -> Option<
    (Seq<char>, u16),
> {
    if !chat_exists {
        Some(("Chat with uid "@ + uuid_text(chat_uid) + " not found"@, NOT_FOUND))
    } else if already_member {
        Some(("The user is already a member of the chat room"@, BAD_REQUEST))
    } else {
        None
    }
}

/// Decides whether a user may be added to a chat, given what the store says
/// of the chat and of the membership. No membership exists twice.
pub fn admit_participant(chat_uid: u128, chat_exists: bool, already_member: bool) -> (r: Result<
    (),
    ServiceError,
>)
    ensures
        match admission_fault(chat_uid, chat_exists, already_member) {
            Some(fault) => r is Err && r->Err_0.is(fault.0, fault.1),
            None => r is Ok,
        },
{
    if !chat_exists {
        let mut message = String::from_str("Chat with uid ");
        message.append(format_uuid(chat_uid).as_str());
        message.append(" not found");
        return Err(ServiceError::not_found(message.as_str()));
    }
    if already_member {
        return Err(ServiceError::bad_request("The user is already a member of the chat room"));
    }
    Ok(())
}

/// The outcome of removing a participant, given the number of memberships
/// that the store deleted.
pub fn removal_outcome(rows_affected: u64) -> (r: Result<(), ServiceError>)
    ensures
        rows_affected == 0 ==> r is Err && r->Err_0.is(
            "Participant not found in chat"@,
            NOT_FOUND,
        ),
        rows_affected > 0 ==> r is Ok,
{
    if rows_affected == 0 {
        return Err(ServiceError::not_found("Participant not found in chat"));
    }
    Ok(())
}

/// The outcome of reading a chat and a user from text, in the order given by
/// `user_first`, given what the parser made of each.
pub open spec fn pair_parsed(
    chat: Result<u128, Seq<char>>,
    user: Result<u128, Seq<char>>,
    user_first: bool,
    r: Result<(u128, u128), ServiceError>,
) -> bool {
    match (chat, user) {
        (Ok(chat_uid), Ok(user_uid)) => r == Ok::<(u128, u128), ServiceError>((chat_uid, user_uid)),
        (Err(why), Ok(_)) => r is Err && r->Err_0.is("Invalid UUID: "@ + why, BAD_REQUEST),
        (Ok(_), Err(why)) => r is Err && r->Err_0.is("Invalid UUID: "@ + why, BAD_REQUEST),
        (Err(chat_why), Err(user_why)) => r is Err && r->Err_0.is(
            "Invalid UUID: "@ + (if user_first {
                user_why
            } else {
                chat_why
            }),
            BAD_REQUEST,
        ),
    }
}

/// Reads the chat and the user of a request to add a participant. The user
/// is read first.
pub fn add_participant(chat_uid: &str, user_uid: &str) -> (r: Result<(u128, u128), ServiceError>)
    ensures
        pair_parsed(uuid_parse_result(chat_uid@), uuid_parse_result(user_uid@), true, r),
{
    let user = match identifier_from(uuid_parse_str(user_uid), "Invalid UUID: ") {
        Ok(user) => user,
        Err(e) => {
            return Err(e);
        },
    };
    let chat = match identifier_from(uuid_parse_str(chat_uid), "Invalid UUID: ") {
        Ok(chat) => chat,
        Err(e) => {
            return Err(e);
        },
    };
    Ok((chat, user))
}

/// Reads the chat and the user of a request to remove a participant. The
/// chat is read first.
pub fn remove_participant(chat_uid: &str, user_uid: &str) -> (r: Result<(u128, u128), ServiceError>)
    ensures
        pair_parsed(uuid_parse_result(chat_uid@), uuid_parse_result(user_uid@), false, r),
{
    let chat = match identifier_from(uuid_parse_str(chat_uid), "Invalid UUID: ") {
        Ok(chat) => chat,
        Err(e) => {
            return Err(e);
        },
    };
    let user = match identifier_from(uuid_parse_str(user_uid), "Invalid UUID: ") {
        Ok(user) => user,
        Err(e) => {
            return Err(e);
        },
    };
    Ok((chat, user))
}

} // verus!
