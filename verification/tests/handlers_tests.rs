use trade_monitor::common::handlers::{
    append_chunk, invitation_reply, new_invitation_code, new_session_token, outcome_status, refusal_message,
    refusal_status, require_active, sign_in_reply, PayloadError, Refusal, MAX_SIZE,
};
use trade_monitor::models::db_data::Account;
use trade_monitor::models::http_data::{AccountByBitRe, AccountPapiRe, CreateInvitationProRes, SignInProRes};

#[test]
fn body_grows_up_to_the_limit() {
    let mut body = Vec::new();
    assert_eq!(append_chunk(&mut body, &[1, 2, 3]), Ok(()));
    assert_eq!(append_chunk(&mut body, &[4]), Ok(()));
    assert_eq!(body, vec![1, 2, 3, 4]);
    let big = vec![0u8; MAX_SIZE - 4];
    assert_eq!(append_chunk(&mut body, &big), Ok(()));
    assert_eq!(body.len(), MAX_SIZE);
    assert_eq!(append_chunk(&mut body, &[9]), Err(PayloadError::Overflow));
    assert_eq!(body.len(), MAX_SIZE);
    assert_eq!(append_chunk(&mut body, &[]), Ok(()));
}

#[test]
fn a_single_oversized_chunk_is_refused() {
    let mut body = Vec::new();
    let big = vec![0u8; MAX_SIZE + 1];
    assert_eq!(append_chunk(&mut body, &big), Err(PayloadError::Overflow));
    assert!(body.is_empty());
}

#[test]
fn refusals_and_status() {
    assert_eq!(refusal_status(Refusal::BodyTooLarge), 400);
    assert_eq!(refusal_message(Refusal::BodyTooLarge), "overflow");
    assert_eq!(refusal_status(Refusal::NotActive), 404);
    assert_eq!(refusal_message(Refusal::NotActive), "account not active");
    assert_eq!(refusal_status(Refusal::AccountMissing), 404);
    assert_eq!(refusal_message(Refusal::AccountMissing), "account not exist");
    assert_eq!(require_active(true), Ok(()));
    assert_eq!(require_active(false), Err(Refusal::NotActive));
    assert_eq!(outcome_status(true), 200);
    assert_eq!(outcome_status(false), 404);
}

#[test]
fn tokens_are_alphanumeric() {
    let t = new_session_token();
    assert_eq!(t.chars().count(), 15);
    assert!(t.chars().all(|c| c.is_ascii_alphanumeric()));
    let c = new_invitation_code();
    assert_eq!(c.chars().count(), 5);
    assert!(c.chars().all(|c| c.is_ascii_alphanumeric()));
}

#[test]
fn sign_in_and_invitation_replies() {
    let acc = Account { acc_id: 2, acc_name: "ann".to_string(), acc_password: "pw".to_string(), admin: "true".to_string() };
    let r = sign_in_reply(&acc, vec![SignInProRes { name: "p".to_string(), id: "1".to_string() }], "tok".to_string());
    assert_eq!(r.name, "ann");
    assert_eq!(r.account, 2);
    assert_eq!(r.admin, "true");
    assert_eq!(r.products.len(), 1);
    assert_eq!(r.token, "tok");
    let inv = invitation_reply(
        "ann".to_string(),
        vec![CreateInvitationProRes { code: "c".to_string(), status: "success".to_string(), max: 10 }],
    );
    assert_eq!(inv.name, "ann");
    assert_eq!(inv.invitation, vec![CreateInvitationProRes { code: "c".to_string(), status: "success".to_string(), max: 10 }]);
    assert!(AccountByBitRe::new().bybit_subs.is_empty());
    assert!(AccountPapiRe::new().papi_subs.is_empty());
}
