use question_poster::account::Account;
use question_poster::post::{submit_post, Receipt};
use question_poster::event::{Action, Event, Notice, Step};
use question_poster::posting_loop::{PostingLoop, DEFAULT_INTERVAL_SECS};
use question_poster::question::Question;
use question_poster::request::{submit_transaction_request, Request};
use question_poster::response::PostError;
use question_poster::shuffler::Shuffler;
use question_poster::state::Phase;

const MNEMONIC: &str = "lemon kidney crack item paper history lady column govern model tool auction";
const UNSIGNED: &str = "{\"TransactionHex\": \"0a0b0c0d0e\"}";
const HASHED: &str = "{\"TxnHashHex\": \"c0ffee\"}";

fn poster() -> Account {
    match Account::new(String::from("BC1YLposter"), String::from(MNEMONIC)) {
        Ok(account) => account,
        Err(error) => panic!("{:?}", error),
    }
}

fn fresh_loop() -> PostingLoop {
    PostingLoop::new(poster(), Shuffler::fixed(), 60)
}

fn file(text: &str) -> Event {
    Event::FileRead { contents: Some(String::from(text)) }
}

fn reply(text: &str) -> Event {
    Event::Replied { body: Some(String::from(text)) }
}

fn no_reply() -> Event {
    Event::Replied { body: None }
}

fn attempt_of(index: usize, text: &str) -> Notice {
    Notice::Attempt { index, text: String::from(text) }
}

fn hand_in(text: &str) -> Action {
    Action::Send { request: submit_post(&poster(), text) }
}

fn broadcast() -> Action {
    let signed = poster().sign("0a0b0c0d0e").unwrap();
    Action::Send { request: submit_transaction_request(&signed) }
}

fn posted() -> Notice {
    Notice::Posted { receipt: Receipt { txn_hash_hex: String::from("c0ffee") } }
}

fn sleep() -> Action {
    Action::Sleep { seconds: 60 }
}

fn batch_texts(posting: &PostingLoop) -> Vec<String> {
    let mut texts = Vec::new();
    let mut index = 0;
    while let Some(question) = posting.question(index) {
        texts.push(question.text().to_string());
        index += 1;
    }
    texts
}

/// Runs one whole successful attempt from the answer to the handed-in post on.
fn succeed(posting: &mut PostingLoop) {
    assert_eq!(posting.step(reply(UNSIGNED)), Some(Step { notices: vec![], action: broadcast() }));
    assert_eq!(posting.step(reply(HASHED)), Some(Step { notices: vec![posted()], action: sleep() }));
}

#[test]
fn new_loop_waits_for_the_file_and_asks_for_it() {
    let posting = fresh_loop();
    assert_eq!(posting.phase(), Phase::LoadingQuestions);
    assert_eq!(posting.cursor(), 0);
    assert_eq!(posting.batch_len(), 0);
    assert_eq!(posting.interval_secs(), 60);
    assert_eq!(posting.question(0), None);
    assert_eq!(
        posting.start(),
        Step { notices: vec![Notice::Loading], action: Action::ReadQuestions }
    );
    assert_eq!(DEFAULT_INTERVAL_SECS, 43200);
}

#[test]
fn three_questions_are_posted_in_shuffled_order_with_a_wait_after_each() {
    let mut posting = fresh_loop();
    let first = posting.step(file("A\nB\nC\n"));
    assert_eq!(batch_texts(&posting), vec!["A", "C", "B"]);
    assert_eq!(
        first,
        Some(Step { notices: vec![Notice::Total { count: 3 }, attempt_of(0, "A")], action: hand_in("A") })
    );
    succeed(&mut posting);
    assert_eq!(posting.cursor(), 1);
    assert_eq!(
        posting.step(Event::Woke),
        Some(Step { notices: vec![attempt_of(1, "C")], action: hand_in("C") })
    );
    succeed(&mut posting);
    assert_eq!(posting.cursor(), 2);
    assert_eq!(
        posting.step(Event::Woke),
        Some(Step { notices: vec![attempt_of(2, "B")], action: hand_in("B") })
    );
    succeed(&mut posting);
    assert_eq!(posting.cursor(), 3);
    assert_eq!(posting.phase(), Phase::Waiting);
    assert_eq!(
        posting.step(Event::Woke),
        Some(Step { notices: vec![Notice::Loading], action: Action::ReadQuestions })
    );
    assert_eq!(posting.phase(), Phase::LoadingQuestions);
}

#[test]
fn broadcast_that_fails_once_is_repeated_for_the_same_question() {
    let mut posting = fresh_loop();
    posting.step(file("A\nB\nC\n"));
    assert_eq!(posting.step(reply(UNSIGNED)), Some(Step { notices: vec![], action: broadcast() }));
    assert_eq!(
        posting.step(no_reply()),
        Some(Step {
            notices: vec![Notice::Failed { error: PostError::NetworkFailure }],
            action: sleep(),
        })
    );
    assert_eq!(posting.cursor(), 0);
    assert_eq!(
        posting.step(Event::Woke),
        Some(Step { notices: vec![attempt_of(0, "A")], action: hand_in("A") })
    );
    succeed(&mut posting);
    assert_eq!(posting.cursor(), 1);
    assert_eq!(
        posting.step(Event::Woke),
        Some(Step { notices: vec![attempt_of(1, "C")], action: hand_in("C") })
    );
}

#[test]
fn question_that_always_fails_keeps_the_cursor() {
    let mut posting = fresh_loop();
    posting.step(file("A\nB\nC\n"));
    succeed(&mut posting);
    posting.step(Event::Woke);
    let failures = [
        (no_reply(), PostError::NetworkFailure),
        (reply("<html>"), PostError::DecodeFailure),
        (reply("{\"error\": \"rejected\"}"), PostError::DecodeFailure),
        (reply("{\"TransactionHex\": \"\"}"), PostError::SigningFailure),
        (reply("{\"TransactionHex\": \"zz\"}"), PostError::SigningFailure),
    ];
    for round in 0..25 {
        let (event, error) = failures[round % failures.len()].clone();
        assert_eq!(
            posting.step(event),
            Some(Step { notices: vec![Notice::Failed { error }], action: sleep() })
        );
        assert_eq!(posting.cursor(), 1);
        assert_eq!(posting.phase(), Phase::Waiting);
        assert_eq!(
            posting.step(Event::Woke),
            Some(Step { notices: vec![attempt_of(1, "C")], action: hand_in("C") })
        );
        assert_eq!(posting.cursor(), 1);
    }
    for _ in 0..5 {
        assert_eq!(posting.step(reply(UNSIGNED)), Some(Step { notices: vec![], action: broadcast() }));
        assert_eq!(
            posting.step(reply("gateway timeout")),
            Some(Step {
                notices: vec![Notice::Failed { error: PostError::DecodeFailure }],
                action: sleep(),
            })
        );
        assert_eq!(posting.cursor(), 1);
        posting.step(Event::Woke);
    }
    assert_eq!(batch_texts(&posting), vec!["A", "C", "B"]);
}

#[test]
fn file_is_read_again_only_after_a_full_drain() {
    let mut posting = fresh_loop();
    posting.step(file("old one\nold two\n"));
    assert_eq!(batch_texts(&posting), vec!["old one", "old two"]);
    succeed(&mut posting);
    // The file changes here; the loop does not ask for it while a question is left.
    let next = posting.step(Event::Woke).unwrap();
    assert_eq!(next, Step { notices: vec![attempt_of(1, "old two")], action: hand_in("old two") });
    assert_eq!(posting.step(file("new\n")), None);
    assert_eq!(batch_texts(&posting), vec!["old one", "old two"]);
    succeed(&mut posting);
    assert_eq!(
        posting.step(Event::Woke),
        Some(Step { notices: vec![Notice::Loading], action: Action::ReadQuestions })
    );
    assert_eq!(
        posting.step(file("new first\nnew second\nnew third\n")),
        Some(Step {
            notices: vec![Notice::Total { count: 3 }, attempt_of(0, "new first")],
            action: hand_in("new first"),
        })
    );
    assert_eq!(posting.cursor(), 0);
    assert_eq!(batch_texts(&posting), vec!["new first", "new third", "new second"]);
}

#[test]
fn unreadable_file_ends_the_loop() {
    let mut posting = fresh_loop();
    assert_eq!(
        posting.step(Event::FileRead { contents: None }),
        Some(Step { notices: vec![Notice::Unreadable], action: Action::Terminate })
    );
    assert_eq!(posting.phase(), Phase::Terminated);
    assert_eq!(posting.step(Event::Woke), None);
    assert_eq!(posting.step(file("A\n")), None);
    assert_eq!(posting.step(no_reply()), None);
    assert_eq!(posting.phase(), Phase::Terminated);
}

#[test]
fn file_without_questions_is_read_again_at_once() {
    let mut posting = fresh_loop();
    assert_eq!(
        posting.step(file("")),
        Some(Step {
            notices: vec![Notice::Total { count: 0 }, Notice::Loading],
            action: Action::ReadQuestions,
        })
    );
    assert_eq!(posting.phase(), Phase::LoadingQuestions);
    assert_eq!(posting.batch_len(), 0);
}

#[test]
fn event_that_answers_nothing_is_passed_over() {
    let mut posting = fresh_loop();
    assert_eq!(posting.step(Event::Woke), None);
    assert_eq!(posting.step(reply(HASHED)), None);
    posting.step(file("A\n"));
    assert_eq!(posting.step(Event::Woke), None);
    assert_eq!(posting.step(file("B\n")), None);
    assert_eq!(posting.phase(), Phase::AwaitingUnsigned);
    posting.step(reply(UNSIGNED));
    assert_eq!(posting.step(Event::Woke), None);
    assert_eq!(posting.phase(), Phase::AwaitingBroadcast);
    posting.step(reply(HASHED));
    assert_eq!(posting.step(reply(HASHED)), None);
    assert_eq!(posting.step(file("B\n")), None);
    assert_eq!(posting.phase(), Phase::Waiting);
    assert_eq!(posting.cursor(), 1);
    assert_eq!(batch_texts(&posting), vec!["A"]);
}

#[test]
fn answer_to_the_broadcast_without_hash_does_not_complete_the_attempt() {
    let mut posting = fresh_loop();
    posting.step(file("A\n"));
    posting.step(reply(UNSIGNED));
    assert_eq!(
        posting.step(reply("{\"error\": \"rejected\"}")),
        Some(Step {
            notices: vec![Notice::Failed { error: PostError::DecodeFailure }],
            action: sleep(),
        })
    );
    assert_eq!(posting.cursor(), 0);
    assert_eq!(
        posting.step(Event::Woke),
        Some(Step { notices: vec![attempt_of(0, "A")], action: hand_in("A") })
    );
}

#[test]
fn decisions_take_the_outcomes_as_given() {
    let mut posting = fresh_loop();
    let batch = vec![Question::new(String::from("x")), Question::new(String::from("y"))];
    assert_eq!(posting.sent(Err(PostError::NetworkFailure)), None);
    assert_eq!(posting.settle(Err(PostError::NetworkFailure)), None);
    assert_eq!(posting.wake(), None);
    assert_eq!(
        posting.load(Some(batch)),
        Some(Step { notices: vec![Notice::Total { count: 2 }, attempt_of(0, "x")], action: hand_in("x") })
    );
    assert_eq!(posting.load(None), None);
    let request = Request { url: String::from("u"), body: String::from("b") };
    assert_eq!(
        posting.sent(Ok(request.clone())),
        Some(Step { notices: vec![], action: Action::Send { request } })
    );
    assert_eq!(
        posting.settle(Err(PostError::DecodeFailure)),
        Some(Step { notices: vec![Notice::Failed { error: PostError::DecodeFailure }], action: sleep() })
    );
    assert_eq!(posting.cursor(), 0);
    assert_eq!(
        posting.wake(),
        Some(Step { notices: vec![attempt_of(0, "x")], action: hand_in("x") })
    );
    assert_eq!(
        posting.sent(Err(PostError::SigningFailure)),
        Some(Step { notices: vec![Notice::Failed { error: PostError::SigningFailure }], action: sleep() })
    );
    posting.wake();
    posting.sent(Ok(Request { url: String::from("u"), body: String::from("b") }));
    assert_eq!(
        posting.settle(Ok(Receipt { txn_hash_hex: String::from("ab") })),
        Some(Step {
            notices: vec![Notice::Posted { receipt: Receipt { txn_hash_hex: String::from("ab") } }],
            action: sleep(),
        })
    );
    assert_eq!(posting.cursor(), 1);
    assert_eq!(posting.phase(), Phase::Waiting);
}

#[test]
fn configured_interval_is_what_the_loop_sleeps() {
    let mut posting = PostingLoop::new(poster(), Shuffler::fixed(), DEFAULT_INTERVAL_SECS);
    posting.step(file("A\n"));
    assert_eq!(
        posting.step(no_reply()),
        Some(Step {
            notices: vec![Notice::Failed { error: PostError::NetworkFailure }],
            action: Action::Sleep { seconds: 43200 },
        })
    );
}
