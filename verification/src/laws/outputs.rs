//! What is sent to the client, letter by letter.
use crate::json::{all_escaped, escaped, quoted};
use crate::output::{
    failure_json, failure_text, notification_json, notification_text, parse_error_json,
    parse_error_text, success_json, success_text, Output,
};
use crate::text::decimal;
use vstd::prelude::*;

verus! {

/// The answer to a request that succeeds is an object of three members: the version, the number of
/// the request, and the data, as they are, for a result.
pub proof fn law_success_is_written_out(id: usize, data: &str, text: String)
    requires
        call_ensures(success_text, (id, data), text),
    ensures
        text@ == "{\"jsonrpc\":\"2.0\",\"id\":"@ + decimal(id as nat) + ",\"result\":"@ + data@
            + "}"@,
        text@ == success_json(id as nat, data@),
{
}

/// The answer to a request that fails is an object of three members: the version, the number of the
/// request, and an error with the code of a method that was not found and the reason.
pub proof fn law_failure_is_written_out(id: usize, message: &str, text: String)
    requires
        call_ensures(failure_text, (id, message), text),
    ensures
        text@ == "{\"jsonrpc\":\"2.0\",\"id\":"@ + decimal(id as nat)
            + ",\"error\":{\"code\":-32601,\"message\":"@ + quoted(message@) + "}}"@,
        text@ == failure_json(id as nat, message@),
{
}

/// A notification is an object of three members: the version, its name, and no parameters.
pub proof fn law_notification_is_written_out(method: &str, text: String)
    requires
        call_ensures(notification_text, (method,), text),
    ensures
        text@ == "{\"jsonrpc\":\"2.0\",\"method\":"@ + quoted(method@) + ",\"params\":null}"@,
        text@ == notification_json(method@),
{
}

/// The answer to the end of the input is always the same.
pub proof fn law_parse_error_is_written_out(text: String)
    requires
        call_ensures(parse_error_text, (), text),
    ensures
        text@
            == "{\"jsonrpc\": \"2.0\", \"error\": {\"code\": -32700, \"message\": \"Parse error\"}, \"id\": null}"@,
        text@ == parse_error_json(),
{
}

/// What the answers are, of every number: also of one that no `usize` holds.
pub proof fn law_answers_are_written_out(id: nat, text: Seq<char>)
    ensures
        success_json(id, text) == "{\"jsonrpc\":\"2.0\",\"id\":"@ + decimal(id) + ",\"result\":"@ + text
            + "}"@,
        failure_json(id, text) == "{\"jsonrpc\":\"2.0\",\"id\":"@ + decimal(id)
            + ",\"error\":{\"code\":-32601,\"message\":"@ + quoted(text) + "}}"@,
        notification_json(text) == "{\"jsonrpc\":\"2.0\",\"method\":"@ + quoted(text)
            + ",\"params\":null}"@,
{
}

/// An output that has no ways of its own and sends nothing anywhere.
pub struct Unsent {}

impl Output for Unsent {
    fn response(&self, output: String) {
    }
}

/// An output that has no ways of its own sends the answers and notifications as they are written
/// out.
pub proof fn law_outputs_send_what_is_written_out(output: &Unsent, id: usize, text: &str)
    ensures
        call_ensures(<Unsent as Output>::success, (output, id, text), ()) ==> exists|sent: String|
            sent@ == "{\"jsonrpc\":\"2.0\",\"id\":"@ + decimal(id as nat) + ",\"result\":"@ + text@
                + "}"@ && #[trigger] call_ensures(<Unsent as Output>::response, (output, sent), ()),
        call_ensures(<Unsent as Output>::failure, (output, id, text), ()) ==> exists|sent: String|
            sent@ == "{\"jsonrpc\":\"2.0\",\"id\":"@ + decimal(id as nat)
                + ",\"error\":{\"code\":-32601,\"message\":"@ + quoted(text@) + "}}"@
                && #[trigger] call_ensures(<Unsent as Output>::response, (output, sent), ()),
        call_ensures(<Unsent as Output>::notify, (output, text), ()) ==> exists|sent: String|
            sent@ == "{\"jsonrpc\":\"2.0\",\"method\":"@ + quoted(text@) + ",\"params\":null}"@
                && #[trigger] call_ensures(<Unsent as Output>::response, (output, sent), ()),
        call_ensures(<Unsent as Output>::parse_error, (output,), ()) ==> exists|sent: String|
            sent@
                == "{\"jsonrpc\": \"2.0\", \"error\": {\"code\": -32700, \"message\": \"Parse error\"}, \"id\": null}"@
                && #[trigger] call_ensures(<Unsent as Output>::response, (output, sent), ()),
{
}

/// A text without quotation marks, backslashes and control characters is quoted as it is.
pub proof fn law_plain_texts_are_quoted_as_they_are(text: Seq<char>)
    requires
        forall|i: int|
            0 <= i < text.len() ==> (#[trigger] text[i]) != '"' && text[i] != '\\' && text[i] as int
                >= 32,
    ensures
        quoted(text) == seq!['"'] + text + seq!['"'],
{
    lemma_plain(text);
}

/// One character more is quoted by what stands for it just before the closing quotation mark.
pub proof fn law_quoting_goes_by_character(text: Seq<char>, c: char)
    ensures
        quoted(text.push(c)) == quoted(text).drop_last() + (if c == '"' {
            seq!['\\', '"']
        } else if c == '\\' {
            seq!['\\', '\\']
        } else if c as int == 8 {
            seq!['\\', 'b']
        } else if c as int == 9 {
            seq!['\\', 't']
        } else if c as int == 10 {
            seq!['\\', 'n']
        } else if c as int == 12 {
            seq!['\\', 'f']
        } else if c as int == 13 {
            seq!['\\', 'r']
        } else if (c as int) < 16 {
            seq![
                '\\',
                'u',
                '0',
                '0',
                '0',
                if (c as int) < 10 {
                    (48 + c as int) as char
                } else {
                    (87 + c as int) as char
                },
            ]
        } else if (c as int) < 32 {
            seq![
                '\\',
                'u',
                '0',
                '0',
                '1',
                if (c as int) < 26 {
                    (32 + c as int) as char
                } else {
                    (71 + c as int) as char
                },
            ]
        } else {
            seq![c]
        }) + seq!['"'],
        quoted(Seq::empty()) == seq!['"', '"'],
{
    lemma_escaped_push(text, c);
    assert(quoted(text).drop_last() == seq!['"'] + all_escaped(text));
    if 16 <= (c as int) && (c as int) < 32 {
        assert((c as int) / 16 == 1 && (c as int) % 16 == (c as int) - 16);
    } else if (c as int) < 16 {
        assert((c as int) / 16 == 0 && (c as int) % 16 == (c as int));
    }
    assert(quoted(Seq::empty()) == seq!['"', '"']);
}

/// Plain texts are escaped as they are.
proof fn lemma_plain(text: Seq<char>)
    requires
        forall|i: int|
            0 <= i < text.len() ==> (#[trigger] text[i]) != '"' && text[i] != '\\' && text[i] as int
                >= 32,
    ensures
        all_escaped(text) == text,
    decreases text.len(),
{
    if text.len() > 0 {
        let rest = text.drop_first();
        assert forall|i: int| 0 <= i < rest.len() implies (#[trigger] rest[i]) != '"' && rest[i]
            != '\\' && rest[i] as int >= 32 by {
            assert(rest[i] == text[i + 1]);
        }
        lemma_plain(rest);
        assert(text[0] != '"' && text[0] != '\\' && text[0] as int >= 32);
        assert(seq![text[0]] + rest == text);
    }
}

/// One character more is escaped at the end.
proof fn lemma_escaped_push(text: Seq<char>, c: char)
    ensures
        all_escaped(text.push(c)) == all_escaped(text) + escaped(c),
    decreases text.len(),
{
    if text.len() == 0 {
        assert(text.push(c).drop_first() == text);
        assert(all_escaped(text) == Seq::<char>::empty());
        assert(all_escaped(text.push(c)) == escaped(c));
    } else {
        lemma_escaped_push(text.drop_first(), c);
        assert(text.push(c).drop_first() == text.drop_first().push(c));
        assert(text.push(c)[0] == text[0]);
        assert(all_escaped(text.push(c)) == all_escaped(text) + escaped(c));
    }
}

} // verus!
