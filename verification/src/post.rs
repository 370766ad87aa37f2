//! One attempt to publish a question: hand in the post, sign the
//! transaction that the node answers with, broadcast it.
//!
//! The requests themselves are made by the caller. This module says what
//! to send and what each answer leads to.

use vstd::prelude::*;
use crate::account::{sign_spec, Account, SigningFailed};
use crate::request::{
    submit_post_request, submit_post_spec, submit_transaction_request, submit_transaction_spec,
    Request, RequestView,
};
use crate::response::{
    decode_reply, field, reply_members, text_of, transaction_hex, transaction_hex_key,
    txn_hash_hex, txn_hash_hex_key, PostError,
};

verus! {

/// What a successful attempt leaves: the hash of the transaction, as the
/// node's answer names it.
#[derive(Clone, Debug, PartialEq, Eq)]
pub struct Receipt {
    pub txn_hash_hex: String,
}

/// What a receipt stands for in contracts.
pub struct ReceiptView {
    pub txn_hash_hex: Seq<char>,
}

impl View for Receipt {
    type V = ReceiptView;

    open spec fn view(&self) -> ReceiptView {
        ReceiptView { txn_hash_hex: self.txn_hash_hex@ }
    }
}

/// A request or the failure that stands in its place, in contracts.
pub open spec fn request_view(outcome: Result<Request, PostError>) -> Result<
    RequestView,
    PostError,
> {
    match outcome {
        Ok(request) => Ok(request@),
        Err(error) => Err(error),
    }
}

/// A receipt or the failure that stands in its place, in contracts.
pub open spec fn receipt_view(outcome: Result<Receipt, PostError>) -> Result<
    ReceiptView,
    PostError,
> {
    match outcome {
        Ok(receipt) => Ok(receipt@),
        Err(error) => Err(error),
    }
}

/// The request that follows the signer's answer: the broadcast of what was
/// signed, or a signing failure.
pub open spec fn signed_request_spec(signed: Option<Seq<char>>) -> Result<RequestView, PostError> {
    match signed {
        Some(hex) => Ok(submit_transaction_spec(hex)),
        None => Err(PostError::SigningFailure),
    }
}

/// What follows the answer to a handed-in post: the unsigned transaction
/// in it is signed with `key` and broadcast. A missing answer, an answer
/// that is no JSON or holds no `TransactionHex`, and a transaction that
/// cannot be signed each fail the attempt.
pub open spec fn broadcast_spec(key: Seq<u8>, reply: Option<Seq<char>>) -> Result<
    RequestView,
    PostError,
> {
    match reply_members(reply) {
        Ok(members) => match field(members, transaction_hex_key()) {
            Ok(hex) => signed_request_spec(sign_spec(key, hex)),
            Err(error) => Err(error),
        },
        Err(error) => Err(error),
    }
}

/// What follows the answer to a broadcast: the attempt has succeeded where
/// the answer is JSON and holds a `TxnHashHex`, which is the receipt.
pub open spec fn receipt_spec(reply: Option<Seq<char>>) -> Result<ReceiptView, PostError> {
    match reply_members(reply) {
        Ok(members) => match field(members, txn_hash_hex_key()) {
            Ok(hash) => Ok(ReceiptView { txn_hash_hex: hash }),
            Err(error) => Err(error),
        },
        Err(error) => Err(error),
    }
}

/// The first request of an attempt: it hands in the text under the
/// account's address.
pub fn submit_post(account: &Account, text: &str) -> (request: Request)
    ensures
        request@ == submit_post_spec(text@, account@.address),
{
    submit_post_request(text, account.address())
}

/// The second request of an attempt, from the answer to the first.
pub fn broadcast_request(account: &Account, reply: Option<&str>) -> (outcome: Result<
    Request,
    PostError,
>)
    ensures
        request_view(outcome) == broadcast_spec(account@.key, text_of(reply)),
{
    match decode_reply(reply) {
        Ok(response) => match transaction_hex(&response) {
            Ok(hex) => signed_request(account.sign(hex.as_str())),
            Err(error) => Err(error),
        },
        Err(error) => Err(error),
    }
}

/// The request that follows the signer's answer.
pub fn signed_request(signed: Result<String, SigningFailed>) -> (outcome: Result<
    Request,
    PostError,
>)
    ensures
        request_view(outcome) == signed_request_spec(
            match signed {
                Ok(hex) => Some(hex@),
                Err(_) => None,
            },
        ),
{
    match signed {
        Ok(hex) => Ok(submit_transaction_request(hex.as_str())),
        Err(_) => Err(PostError::SigningFailure),
    }
}

/// The end of an attempt, from the answer to the broadcast.
pub fn receipt(reply: Option<&str>) -> (outcome: Result<Receipt, PostError>)
    ensures
        receipt_view(outcome) == receipt_spec(text_of(reply)),
{
    match decode_reply(reply) {
        Ok(response) => match txn_hash_hex(&response) {
            Ok(hash) => Ok(Receipt { txn_hash_hex: hash }),
            Err(error) => Err(error),
        },
        Err(error) => Err(error),
    }
}

} // verus!
