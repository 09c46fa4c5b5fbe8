//! The texts that are sent to the client.
use crate::json::{json_string, law_quoted_can_be_told, quoted};
use crate::text::{decimal, is_digit, lemma_decimal, push_decimal};
use vstd::prelude::*;
use vstd::string::*;

verus! {

/// The answer when nothing more can be read from the client.
pub open spec fn parse_error_json() -> Seq<char> {
    "{\"jsonrpc\": \"2.0\", \"error\": {\"code\": -32700, \"message\": \"Parse error\"}, \"id\": null}"@
}

/// The answer to the request `id` when it fails for the reason `message`. The code is that of a
/// method that was not found, whatever the reason.
pub open spec fn failure_json(id: nat, message: Seq<char>) -> Seq<char> {
    "{\"jsonrpc\":\"2.0\",\"id\":"@ + decimal(id) + ",\"error\":{\"code\":-32601,\"message\":"@
        + quoted(message) + "}}"@
}

/// The answer to the request `id` when it succeeds with `data`, a JSON text.
pub open spec fn success_json(id: nat, data: Seq<char>) -> Seq<char> {
    "{\"jsonrpc\":\"2.0\",\"id\":"@ + decimal(id) + ",\"result\":"@ + data + "}"@
}

/// The notification called `method`, which has no parameters.
pub open spec fn notification_json(method: Seq<char>) -> Seq<char> {
    "{\"jsonrpc\":\"2.0\",\"method\":"@ + quoted(method) + ",\"params\":null}"@
}

/// The answer when nothing more can be read from the client.
pub fn parse_error_text() -> (text: String)
    ensures
        text@ == parse_error_json(),
{
    "{\"jsonrpc\": \"2.0\", \"error\": {\"code\": -32700, \"message\": \"Parse error\"}, \"id\": null}".to_owned()
}

/// The answer to the request `id` when it fails for the reason `message`.
pub fn failure_text(id: usize, message: &str) -> (text: String)
    ensures
        text@ == failure_json(id as nat, message@),
        text@ == "{\"jsonrpc\":\"2.0\",\"id\":"@ + decimal(id as nat)
            + ",\"error\":{\"code\":-32601,\"message\":"@ + quoted(message@) + "}}"@,
{
    let mut text: String = "{\"jsonrpc\":\"2.0\",\"id\":".to_owned();
    push_decimal(&mut text, id);
    text.append(",\"error\":{\"code\":-32601,\"message\":");
    text.append(json_string(message).as_str());
    text.append("}}");
    text
}

/// The answer to the request `id` when it succeeds with `data`, a JSON text.
pub fn success_text(id: usize, data: &str) -> (text: String)
    ensures
        text@ == success_json(id as nat, data@),
        text@ == "{\"jsonrpc\":\"2.0\",\"id\":"@ + decimal(id as nat) + ",\"result\":"@ + data@
            + "}"@,
{
    let mut text: String = "{\"jsonrpc\":\"2.0\",\"id\":".to_owned();
    push_decimal(&mut text, id);
    text.append(",\"result\":");
    text.append(data);
    text.append("}");
    text
}

/// The notification called `method`, which has no parameters.
pub fn notification_text(method: &str) -> (text: String)
    ensures
        text@ == notification_json(method@),
        text@ == "{\"jsonrpc\":\"2.0\",\"method\":"@ + quoted(method@) + ",\"params\":null}"@,
{
    let mut text: String = "{\"jsonrpc\":\"2.0\",\"method\":".to_owned();
    text.append(json_string(method).as_str());
    text.append(",\"params\":null}");
    text
}

/// A way to the client. All that is sent goes through [`Output::response`].
pub trait Output {
    /// Sends a text.
    fn response(&self, output: String);

    /// Tells the client that nothing more can be read from it.
    fn parse_error(&self)
        default_ensures
            exists|text: String|
                text@ == parse_error_json() && #[trigger] call_ensures(
                    Self::response,
                    (self, text),
                    (),
                ),
    {
        let text = parse_error_text();
        self.response(text);
    }

    /// Answers the request `id` with a failure.
    fn failure(&self, id: usize, message: &str)
        default_ensures
            exists|text: String|
                text@ == failure_json(id as nat, message@) && #[trigger] call_ensures(
                    Self::response,
                    (self, text),
                    (),
                ),
    {
        let text = failure_text(id, message);
        self.response(text);
    }

    /// Answers the request `id` with `data`, a JSON text.
    fn success(&self, id: usize, data: &str)
        default_ensures
            exists|text: String|
                text@ == success_json(id as nat, data@) && #[trigger] call_ensures(
                    Self::response,
                    (self, text),
                    (),
                ),
    {
        let text = success_text(id, data);
        self.response(text);
    }

    /// Sends the notification called `message`.
    fn notify(&self, message: &str)
        default_ensures
            exists|text: String|
                text@ == notification_json(message@) && #[trigger] call_ensures(
                    Self::response,
                    (self, text),
                    (),
                ),
    {
        let text = notification_text(message);
        self.response(text);
    }
}

/// A number and what follows it can be told apart if no digit follows.
proof fn lemma_number_can_be_told(a: nat, b: nat, after_a: Seq<char>, after_b: Seq<char>)
    requires
        decimal(a) + after_a == decimal(b) + after_b,
        after_a.len() > 0,
        after_b.len() > 0,
        !is_digit(after_a[0]),
        !is_digit(after_b[0]),
    ensures
        a == b,
        after_a == after_b,
{
    lemma_decimal(a);
    lemma_decimal(b);
    let left = decimal(a) + after_a;
    let right = decimal(b) + after_b;
    let k = decimal(a).len() as int;
    let l = decimal(b).len() as int;
    assert(left[k] == after_a[0]);
    assert(right[l] == after_b[0]);
    if k < l {
        assert(right[k] == decimal(b)[k]);
    } else if l < k {
        assert(left[l] == decimal(a)[l]);
    }
    assert(left.take(k) == decimal(a));
    assert(right.take(l) == decimal(b));
    assert(left.skip(k) == after_a);
    assert(right.skip(l) == after_b);
}

/// What comes behind the number of the request in an answer.
proof fn lemma_behind_the_opening(a: nat, b: nat, after_a: Seq<char>, after_b: Seq<char>)
    requires
        "{\"jsonrpc\":\"2.0\",\"id\":"@ + decimal(a) + after_a
            == "{\"jsonrpc\":\"2.0\",\"id\":"@ + decimal(b) + after_b,
        after_a.len() > 0,
        after_b.len() > 0,
        !is_digit(after_a[0]),
        !is_digit(after_b[0]),
    ensures
        a == b,
        after_a == after_b,
{
    let opening = "{\"jsonrpc\":\"2.0\",\"id\":"@;
    let left = opening + decimal(a) + after_a;
    let right = opening + decimal(b) + after_b;
    assert(left.skip(opening.len() as int) == decimal(a) + after_a);
    assert(right.skip(opening.len() as int) == decimal(b) + after_b);
    lemma_number_can_be_told(a, b, after_a, after_b);
}

/// From the answer to a request that succeeded, its number and its result can be told.
pub proof fn law_success_can_be_told(a: nat, data_a: Seq<char>, b: nat, data_b: Seq<char>)
    requires
        success_json(a, data_a) == success_json(b, data_b),
    ensures
        a == b,
        data_a == data_b,
{
    reveal_strlit(",\"result\":");
    reveal_strlit("}");
    let opening = "{\"jsonrpc\":\"2.0\",\"id\":"@;
    let key = ",\"result\":"@;
    let after_a = key + data_a + "}"@;
    let after_b = key + data_b + "}"@;
    assert(success_json(a, data_a) == opening + decimal(a) + after_a);
    assert(success_json(b, data_b) == opening + decimal(b) + after_b);
    lemma_behind_the_opening(a, b, after_a, after_b);
    assert(after_a.subrange(key.len() as int, after_a.len() - 1) == data_a);
    assert(after_b.subrange(key.len() as int, after_b.len() - 1) == data_b);
}

/// From the answer to a request that failed, its number and the reason can be told.
pub proof fn law_failure_can_be_told(a: nat, message_a: Seq<char>, b: nat, message_b: Seq<char>)
    requires
        failure_json(a, message_a) == failure_json(b, message_b),
    ensures
        a == b,
        message_a == message_b,
{
    reveal_strlit(",\"error\":{\"code\":-32601,\"message\":");
    let opening = "{\"jsonrpc\":\"2.0\",\"id\":"@;
    let key = ",\"error\":{\"code\":-32601,\"message\":"@;
    let after_a = key + quoted(message_a) + "}}"@;
    let after_b = key + quoted(message_b) + "}}"@;
    assert(failure_json(a, message_a) == opening + decimal(a) + after_a);
    assert(failure_json(b, message_b) == opening + decimal(b) + after_b);
    lemma_behind_the_opening(a, b, after_a, after_b);
    assert(after_a.skip(key.len() as int) == quoted(message_a) + "}}"@);
    assert(after_b.skip(key.len() as int) == quoted(message_b) + "}}"@);
    law_quoted_can_be_told(message_a, message_b, "}}"@, "}}"@);
}

/// No answer says both that a request succeeded and that one failed.
pub proof fn law_failure_is_no_success(a: nat, message: Seq<char>, b: nat, data: Seq<char>)
    ensures
        failure_json(a, message) != success_json(b, data),
{
    reveal_strlit(",\"error\":{\"code\":-32601,\"message\":");
    reveal_strlit(",\"result\":");
    let opening = "{\"jsonrpc\":\"2.0\",\"id\":"@;
    let after_a = ",\"error\":{\"code\":-32601,\"message\":"@ + quoted(message) + "}}"@;
    let after_b = ",\"result\":"@ + data + "}"@;
    assert(failure_json(a, message) == opening + decimal(a) + after_a);
    assert(success_json(b, data) == opening + decimal(b) + after_b);
    if failure_json(a, message) == success_json(b, data) {
        lemma_behind_the_opening(a, b, after_a, after_b);
        assert(after_a[2] == 'e');
        assert(after_b[2] == 'r');
    }
}

} // verus!
