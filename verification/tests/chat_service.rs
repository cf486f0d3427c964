use chat_core::chat_service::add_participant;
use chat_core::chat_service::admit_participant;
use chat_core::chat_service::begin;
use chat_core::chat_service::has_duplicates;
use chat_core::chat_service::occurs_before;
use chat_core::chat_service::remove_participant;
use chat_core::chat_service::removal_outcome;
use chat_core::chat_service::transaction_failure;
use chat_core::chat_service::validate_participants;
use chat_core::chat_service::TransactionStage;
use chat_core::models::CreateChatDTO;
use chat_core::verification::LookupFault;

const A: u128 = 0xa;
const B: u128 = 0xb;
const C: u128 = 0xc;
const B_TEXT: &str = "00000000-0000-0000-0000-00000000000b";
const C_TEXT: &str = "00000000-0000-0000-0000-00000000000c";

fn request(participants: Vec<u128>) -> CreateChatDTO {
    CreateChatDTO { participants, name: Some("team".to_string()) }
}

#[test]
fn empty_participants_are_rejected() {
    let e = validate_participants(&vec![]).unwrap_err();
    assert_eq!(e.message, "Chat must have at least one participant");
    assert_eq!(e.status_code, 400);
}

#[test]
fn duplicate_participants_are_rejected() {
    let e = validate_participants(&vec![A, A]).unwrap_err();
    assert_eq!(e.message, "Duplicate participants are not allowed");
    assert_eq!(e.status_code, 400);
    assert!(validate_participants(&vec![A, B, C, B]).is_err());
}

#[test]
fn distinct_participants_are_accepted() {
    assert!(validate_participants(&vec![A]).is_ok());
    assert!(validate_participants(&vec![A, B, C]).is_ok());
}

#[test]
fn has_duplicates_finds_a_repeat() {
    assert!(!has_duplicates(&vec![]));
    assert!(!has_duplicates(&vec![1, 2, 3]));
    assert!(has_duplicates(&vec![1, 2, 1]));
    assert!(has_duplicates(&vec![2, 2]));
}

#[test]
fn occurs_before_looks_at_the_prefix_only() {
    assert!(occurs_before(&vec![1, 2, 3], 2, 2));
    assert!(!occurs_before(&vec![1, 2, 3], 2, 3));
    assert!(!occurs_before(&vec![1, 2, 3], 0, 1));
}

#[test]
fn creation_with_duplicates_fails_before_any_lookup() {
    let e = begin(request(vec![A, A])).err().unwrap();
    assert_eq!(e.message, "Duplicate participants are not allowed");
    assert_eq!(e.status_code, 400);
}

#[test]
fn creation_without_participants_fails_before_any_lookup() {
    let e = begin(CreateChatDTO { participants: vec![], name: None }).err().unwrap();
    assert_eq!(e.message, "Chat must have at least one participant");
    assert_eq!(e.status_code, 400);
}

#[test]
fn pending_chat_asks_for_one_lookup_per_participant() {
    let pending = begin(request(vec![C, A, B])).ok().unwrap();
    assert_eq!(pending.lookups(), vec![C, A, B]);
}

#[test]
fn creation_with_an_absent_participant_fails_entirely() {
    let pending = begin(request(vec![A, B, C])).ok().unwrap();
    let outcomes = vec![None, Some(LookupFault::NotFound), None];
    let e = pending.conclude_as(&outcomes, 99).err().unwrap();
    assert_eq!(e.status_code, 404);
    assert_eq!(e.message, format!("User {} not found: User {} not found", B_TEXT, B_TEXT));
}

#[test]
fn creation_reports_every_participant_that_failed() {
    let pending = begin(request(vec![A, B, C])).ok().unwrap();
    let outcomes = vec![None, Some(LookupFault::NotFound), Some(LookupFault::Unavailable)];
    let e = pending.conclude_as(&outcomes, 99).err().unwrap();
    assert_eq!(e.status_code, 404);
    assert_eq!(
        e.message,
        format!(
            "User {} not found: User {} not found; User {} not found: gRPC server unavailable",
            B_TEXT, B_TEXT, C_TEXT
        )
    );
}

#[test]
fn creation_with_missing_outcomes_fails() {
    let pending = begin(request(vec![A, B])).ok().unwrap();
    let e = pending.conclude_as(&vec![None], 99).err().unwrap();
    assert_eq!(e.message, format!("User {} not found: gRPC server unavailable", B_TEXT));
}

#[test]
fn creation_with_all_confirmed_yields_the_plan() {
    let pending = begin(request(vec![A, B])).ok().unwrap();
    let plan = pending.conclude_as(&vec![None, None], 99).ok().unwrap();
    assert_eq!(plan.chat_uid, 99);
    assert_eq!(plan.name.as_deref(), Some("team"));
    assert_eq!(plan.participants, vec![A, B]);
    let rows = plan.memberships();
    assert_eq!(rows.len(), 2);
    assert_eq!((rows[0].chat_uid, rows[0].user_uid), (99, A));
    assert_eq!((rows[1].chat_uid, rows[1].user_uid), (99, B));
}

#[test]
fn conclude_picks_an_identifier_for_the_chat() {
    let first = begin(request(vec![A])).ok().unwrap().conclude(&vec![None]).ok().unwrap();
    let second = begin(request(vec![A])).ok().unwrap().conclude(&vec![None]).ok().unwrap();
    assert_eq!(first.participants, vec![A]);
    assert_eq!(first.memberships()[0].chat_uid, first.chat_uid);
    assert_ne!(first.chat_uid, second.chat_uid);
    assert!(begin(request(vec![A])).ok().unwrap().conclude(&vec![Some(LookupFault::NotFound)]).is_err());
}

#[test]
fn transaction_failure_names_the_stage() {
    let e = transaction_failure(TransactionStage::Begin, "pool closed");
    assert_eq!((e.message.as_str(), e.status_code), ("Transaction error: pool closed", 500));
    let e = transaction_failure(TransactionStage::InsertChat, "x");
    assert_eq!((e.message.as_str(), e.status_code), ("Error creating a chat room: x", 500));
    let e = transaction_failure(TransactionStage::InsertParticipant(B), "duplicate key");
    assert_eq!(e.message, format!("Error adding participant {}: duplicate key", B_TEXT));
    assert_eq!(e.status_code, 500);
    let e = transaction_failure(TransactionStage::Commit, "x");
    assert_eq!((e.message.as_str(), e.status_code), ("Transaction commit error: x", 500));
}

#[test]
fn admit_participant_needs_the_chat() {
    let e = admit_participant(B, false, false).unwrap_err();
    assert_eq!(e.message, format!("Chat with uid {} not found", B_TEXT));
    assert_eq!(e.status_code, 404);
    assert_eq!(admit_participant(B, false, true).unwrap_err().status_code, 404);
}

#[test]
fn admit_participant_refuses_a_second_membership() {
    let e = admit_participant(B, true, true).unwrap_err();
    assert_eq!(e.message, "The user is already a member of the chat room");
    assert_eq!(e.status_code, 400);
    assert!(admit_participant(B, true, false).is_ok());
}

#[test]
fn removal_of_nothing_is_not_found() {
    let e = removal_outcome(0).unwrap_err();
    assert_eq!(e.message, "Participant not found in chat");
    assert_eq!(e.status_code, 404);
    assert!(removal_outcome(1).is_ok());
}

#[test]
fn add_participant_reads_the_user_first() {
    assert_eq!(add_participant(B_TEXT, C_TEXT).unwrap(), (B, C));
    let e = add_participant("bad chat", "bad-user").unwrap_err();
    let why = uuid::Uuid::parse_str("bad-user").unwrap_err();
    assert_eq!(e.message, format!("Invalid UUID: {}", why));
    assert_eq!(e.status_code, 400);
    assert!(add_participant("bad chat", C_TEXT).is_err());
}

#[test]
fn remove_participant_reads_the_chat_first() {
    assert_eq!(remove_participant(B_TEXT, C_TEXT).unwrap(), (B, C));
    let e = remove_participant("bad chat", "bad-user").unwrap_err();
    let why = uuid::Uuid::parse_str("bad chat").unwrap_err();
    assert_eq!(e.message, format!("Invalid UUID: {}", why));
    assert!(remove_participant(B_TEXT, "bad-user").is_err());
}
