# rls_server

The protocol core of a language server, verified with Verus: framing, reading and answering the
JSON-RPC messages of an editor.

- `src/text.rs`: decimal numbers, words, white space, letter case
- `src/frame.rs`: the `Content-Length` framing, written and read
- `src/json.rs`: the calls into `serde_json`, and what is relied on of them
- `src/params.rs`: the parameters of messages, as `languageserver_types` takes them
- `src/message.rs`: the messages, and how they are read out of JSON
- `src/reader.rs`: `MessageReader`, where messages come from
- `src/output.rs`: `Output`, where answers go, and the texts of the answers
- `src/capabilities.rs`: what the server offers
- `src/service.rs`: `LsService`, which tells what is to be done about each message

What holds of the library as a whole is stated in the functions whose names start with `law_`.
Above all: what is framed reads back, a request is answered under its own number, one that is not
known is refused, and after a shutdown nothing but the notification to exit is heeded.

`app/` puts the library on standard input and output. It turns parameters and results from and
into the types of `languageserver-types` and hands the work on a project to an `ActionHandler`.
