//! The two requests of the posting protocol: where they go and what they
//! carry.

use vstd::prelude::*;
use vstd::string::StringExecFns;
use crate::text::string_push;

verus! {

/// An HTTP POST that the caller is asked to make.
#[derive(Clone, Debug, PartialEq, Eq)]
pub struct Request {
    pub url: String,
    pub body: String,
}

/// What a request stands for in contracts.
pub struct RequestView {
    pub url: Seq<char>,
    pub body: Seq<char>,
}

impl View for Request {
    type V = RequestView;

    open spec fn view(&self) -> RequestView {
        RequestView { url: self.url@, body: self.body@ }
    }
}

/// Where a post is handed in to get its unsigned transaction.
pub open spec fn submit_post_url() -> Seq<char> {
    "https://node.deso.org/api/v0/submit-post"@
}

/// Where a signed transaction is broadcast.
pub open spec fn submit_transaction_url() -> Seq<char> {
    "https://node.deso.org/api/v0/submit-transaction"@
}

/// A character as it stands inside a JSON string of a request: a double
/// quote gets a backslash in front, every other character stays.
pub open spec fn escaped_char(c: char) -> Seq<char> {
    if c == '"' {
        seq!['\\', '"']
    } else {
        seq![c]
    }
}

/// A text with each of its double quotes escaped.
pub open spec fn escape_quotes(text: Seq<char>) -> Seq<char>
    decreases text.len(),
{
    if text.len() == 0 {
        Seq::empty()
    } else {
        escape_quotes(text.drop_last()) + escaped_char(text.last())
    }
}

/// The body that hands in a post with the given text for the given author.
pub open spec fn submit_post_body(text: Seq<char>, address: Seq<char>) -> Seq<char> {
    "\n    {\n        \"BodyObj\": {\n            \"Body\": \""@ + escape_quotes(text)
        + "\",\n            \"ImageURLs\": [],\n            \"VideoURLs\": []\n        },\n        \"IsTutorial\": false,\n        \"IsHidden\": false,\n        \"MinFeeRateNanosPerKB\": 1000,\n        \"ParentStakeID\": \"\",\n        \"PostHashHexToModify\": \"\",\n        \"RepostedPostHashHex\": \"\",\n        \"UpdaterPublicKeyBase58Check\": \""@
        + address + "\"\n    }"@
}

/// The body that broadcasts a signed transaction.
pub open spec fn submit_transaction_body(signed_hex: Seq<char>) -> Seq<char> {
    "\n        {\n            \"TransactionHex\": \""@ + signed_hex + "\"\n        }\n        "@
}

/// The request that hands in a post.
pub open spec fn submit_post_spec(text: Seq<char>, address: Seq<char>) -> RequestView {
    RequestView { url: submit_post_url(), body: submit_post_body(text, address) }
}

/// The request that broadcasts a signed transaction.
pub open spec fn submit_transaction_spec(signed_hex: Seq<char>) -> RequestView {
    RequestView { url: submit_transaction_url(), body: submit_transaction_body(signed_hex) }
}

/// Escapes the double quotes of a text.
pub fn escape(text: &str) -> (escaped: String)
    ensures
        escaped@ == escape_quotes(text@),
{
    broadcast use vstd::string::group_string_axioms;
    let mut escaped = String::new();
    let ghost mut seen: Seq<char> = Seq::empty();
    let chars = text.chars();
    for c in it: chars
        invariant
            it.seq() == text@,
            seen == text@.take(it.index()),
            escaped@ == escape_quotes(seen),
    {
        let ghost before = seen;
        proof {
            seen = text@.take(it.index() + 1);
            assert(seen.drop_last() == before);
            assert(seen.last() == c);
        }
        if c == '"' {
            string_push(&mut escaped, '\\');
            string_push(&mut escaped, '"');
            assert(escaped@ =~= escape_quotes(before) + seq!['\\', '"']);
        } else {
            string_push(&mut escaped, c);
            assert(escaped@ =~= escape_quotes(before) + seq![c]);
        }
    }
    assert(seen == text@);
    escaped
}

/// Builds the request that hands in a post.
pub fn submit_post_request(text: &str, address: &str) -> (request: Request)
    ensures
        request@ == submit_post_spec(text@, address@),
{
    let escaped = escape(text);
    let mut body = String::from_str(
        "\n    {\n        \"BodyObj\": {\n            \"Body\": \"",
    );
    body.append(escaped.as_str());
    body.append(
        "\",\n            \"ImageURLs\": [],\n            \"VideoURLs\": []\n        },\n        \"IsTutorial\": false,\n        \"IsHidden\": false,\n        \"MinFeeRateNanosPerKB\": 1000,\n        \"ParentStakeID\": \"\",\n        \"PostHashHexToModify\": \"\",\n        \"RepostedPostHashHex\": \"\",\n        \"UpdaterPublicKeyBase58Check\": \"",
    );
    body.append(address);
    body.append("\"\n    }");
    Request { url: String::from_str("https://node.deso.org/api/v0/submit-post"), body }
}

/// Builds the request that broadcasts a signed transaction.
pub fn submit_transaction_request(signed_hex: &str) -> (request: Request)
    ensures
        request@ == submit_transaction_spec(signed_hex@),
{
    let mut body = String::from_str("\n        {\n            \"TransactionHex\": \"");
    body.append(signed_hex);
    body.append("\"\n        }\n        ");
    Request { url: String::from_str("https://node.deso.org/api/v0/submit-transaction"), body }
}

} // verus!
