use question_poster::account::{Account, SigningFailed};
use question_poster::post::{broadcast_request, receipt, signed_request, submit_post, Receipt};
use question_poster::request::submit_transaction_request;
use question_poster::response::PostError;

const WORDS: &str = "lemon kidney crack item paper history lady column govern model tool auction";

fn author() -> Account {
    match Account::new(String::from("BC1YLauthor"), String::from(WORDS)) {
        Ok(account) => account,
        Err(error) => panic!("{:?}", error),
    }
}

#[test]
fn submit_post_hands_in_the_text_under_the_account_address() {
    let request = submit_post(&author(), "Why \"now\"?");
    assert_eq!(request.url, "https://node.deso.org/api/v0/submit-post");
    assert!(request.body.contains("\"Body\": \"Why \\\"now\\\"?\""));
    assert!(request.body.contains("\"UpdaterPublicKeyBase58Check\": \"BC1YLauthor\""));
}

#[test]
fn broadcast_request_fails_without_an_answer() {
    assert_eq!(broadcast_request(&author(), None), Err(PostError::NetworkFailure));
}

#[test]
fn broadcast_request_fails_on_an_answer_that_is_no_json() {
    assert_eq!(broadcast_request(&author(), Some("oops")), Err(PostError::DecodeFailure));
}

#[test]
fn broadcast_request_fails_on_an_answer_without_transaction() {
    let account = author();
    assert_eq!(broadcast_request(&account, Some("{}")), Err(PostError::DecodeFailure));
    assert_eq!(
        broadcast_request(&account, Some("{\"error\": \"bad request\"}")),
        Err(PostError::DecodeFailure)
    );
    assert_eq!(
        broadcast_request(&account, Some("{\"TransactionHex\": 17}")),
        Err(PostError::DecodeFailure)
    );
}

#[test]
fn broadcast_request_fails_where_nothing_can_be_signed() {
    let account = author();
    assert_eq!(
        broadcast_request(&account, Some("{\"TransactionHex\": \"\"}")),
        Err(PostError::SigningFailure)
    );
    assert_eq!(
        broadcast_request(&account, Some("{\"TransactionHex\": \"nohex\"}")),
        Err(PostError::SigningFailure)
    );
}

#[test]
fn broadcast_request_carries_the_signed_transaction() {
    let account = author();
    let signed = account.sign("0a0b0c0d").unwrap();
    let request = broadcast_request(&account, Some("{\"TransactionHex\": \"0a0b0c0d\"}")).unwrap();
    assert_eq!(request, submit_transaction_request(&signed));
    assert_eq!(request.url, "https://node.deso.org/api/v0/submit-transaction");
    assert!(!request.body.contains("\"0a0b0c0d\""));
}

#[test]
fn signed_request_follows_the_signer() {
    assert_eq!(signed_request(Err(SigningFailed)), Err(PostError::SigningFailure));
    assert_eq!(
        signed_request(Ok(String::from("0a0b"))),
        Ok(submit_transaction_request("0a0b"))
    );
}

#[test]
fn receipt_fails_without_an_answer() {
    assert_eq!(receipt(None), Err(PostError::NetworkFailure));
}

#[test]
fn receipt_fails_on_an_answer_that_is_no_json() {
    assert_eq!(receipt(Some("Bad Gateway")), Err(PostError::DecodeFailure));
}

#[test]
fn receipt_names_the_hash_of_the_transaction() {
    assert_eq!(
        receipt(Some("{\"TxnHashHex\": \"c0ffee\", \"Transaction\": {\"a\": 1}}")),
        Ok(Receipt { txn_hash_hex: String::from("c0ffee") })
    );
}

#[test]
fn receipt_fails_on_an_answer_without_hash() {
    assert_eq!(receipt(Some("{}")), Err(PostError::DecodeFailure));
    assert_eq!(receipt(Some("{\"error\": \"rejected\"}")), Err(PostError::DecodeFailure));
    assert_eq!(receipt(Some("{\"TxnHashHex\": 12}")), Err(PostError::DecodeFailure));
}
