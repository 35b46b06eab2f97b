//! The line protocol between the bridge and the engine: one JSON record per
//! line, `{"type": ..., "payload": ...}`, commands going out and events
//! coming in.
use vstd::prelude::*;
use crate::json::{
    debug_string, debug_text, empty_map, entries_of, into_object, json_is_null, json_str, json_text,
    map_get, map_insert, map_remove, null_value, object_entries, object_value, parse_json,
    parsed_json, string_value, to_json_text,
};

verus! {

/// The text of `a` equals the text of `b`.
pub fn same_text(a: &str, b: &str) -> (r: bool)
    ensures
        r == (a@ == b@),
{
    String::from_str(a) == String::from_str(b)
}

/// The kinds of command the bridge sends to the engine.
#[derive(Clone, Copy, Debug, PartialEq, Eq, Structural)]
pub enum CommandKind {
    Init,
    SendMessage,
    Disconnect,
}

/// The `type` field of a command of each kind.
pub open spec fn kind_name(k: CommandKind) -> Seq<char> {
    match k {
        CommandKind::Init => "init"@,
        CommandKind::SendMessage => "send_message"@,
        CommandKind::Disconnect => "disconnect"@,
    }
}

/// An outbound command.
pub struct IpcCommand {
    pub kind: CommandKind,
    pub payload: serde_json::Value,
}

/// The line that carries a command whose payload has the JSON text
/// `payload_text`.
pub open spec fn command_line(kind: CommandKind, payload_text: Seq<char>) -> Seq<char> {
    "{\"type\":\""@ + kind_name(kind) + "\",\"payload\":"@ + payload_text + "}\n"@
}

/// The wire name of a command kind.
pub fn kind_text(kind: CommandKind) -> (r: &'static str)
    ensures
        r@ == kind_name(kind),
{
    match kind {
        CommandKind::Init => "init",
        CommandKind::SendMessage => "send_message",
        CommandKind::Disconnect => "disconnect",
    }
}

/// Writes a command as one line of JSON, ending in a line break.
pub fn encode_command(cmd: &IpcCommand) -> (r: String)
    ensures
        r@ == command_line(cmd.kind, json_text(cmd.payload)),
        r@.len() > 0 && r@.last() == '\n',
        !r@.drop_last().contains('\n'),
{
    let mut line = String::from_str("{\"type\":\"");
    line.append(kind_text(cmd.kind));
    line.append("\",\"payload\":");
    let body = to_json_text(&cmd.payload);
    line.append(body.as_str());
    line.append("}\n");
    proof {
        reveal_strlit("{\"type\":\"");
        reveal_strlit("\",\"payload\":");
        reveal_strlit("}\n");
        reveal_strlit("init");
        reveal_strlit("send_message");
        reveal_strlit("disconnect");
        let head = "{\"type\":\""@ + kind_name(cmd.kind) + "\",\"payload\":"@ + json_text(cmd.payload) + "}"@;
        reveal_strlit("}");
        assert(line@ =~= head.push('\n'));
        assert(line@.drop_last() =~= head);
        assert(!head.contains('\n')) by {
            assert forall|i: int| 0 <= i < head.len() implies head[i] != '\n' by {
                let a = "{\"type\":\""@;
                let k = kind_name(cmd.kind);
                let b = "\",\"payload\":"@;
                let t = json_text(cmd.payload);
                if i < a.len() {
                } else if i < a.len() + k.len() {
                    assert(head[i] == k[i - a.len()]);
                } else if i < a.len() + k.len() + b.len() {
                } else if i < a.len() + k.len() + b.len() + t.len() {
                    assert(head[i] == t[i - a.len() - k.len() - b.len()]);
                } else {
                }
            }
        }
    }
    line
}

/// The payload of an `init` command: the stored credentials and keys under
/// `auth_data`, each `null` when nothing is stored.
pub open spec fn init_payload_holds(payload: serde_json::Value, creds: Option<serde_json::Value>, keys: Option<serde_json::Value>) -> bool {
    match entries_of(payload) {
        Some(top) => top.dom() == set!["auth_data"@] && match entries_of(top["auth_data"@]) {
            Some(auth) => auth.dom() == set!["creds"@, "keys"@]
                && stored_or_null(auth["creds"@], creds)
                && stored_or_null(auth["keys"@], keys),
            None => false,
        },
        None => false,
    }
}

/// `v` is the stored value, or `null` when there is none.
pub open spec fn stored_or_null(v: serde_json::Value, stored: Option<serde_json::Value>) -> bool {
    match stored {
        Some(s) => v == s,
        None => json_is_null(v),
    }
}

fn value_or_null(v: Option<serde_json::Value>) -> (r: serde_json::Value)
    ensures
        stored_or_null(r, v),
{
    match v {
        Some(x) => x,
        None => null_value(),
    }
}

/// The `init` command that starts a generation with the stored snapshot.
pub fn init_command(creds: Option<serde_json::Value>, keys: Option<serde_json::Value>) -> (r: IpcCommand)
    ensures
        r.kind == CommandKind::Init,
        init_payload_holds(r.payload, creds, keys),
{
    let mut auth = empty_map();
    map_insert(&mut auth, String::from_str("creds"), value_or_null(creds));
    map_insert(&mut auth, String::from_str("keys"), value_or_null(keys));
    let ghost auth_entries = object_entries(auth);
    let mut top = empty_map();
    map_insert(&mut top, String::from_str("auth_data"), object_value(auth));
    let payload = object_value(top);
    proof {
        reveal_strlit("creds");
        reveal_strlit("keys");
        assert("creds"@.len() != "keys"@.len());
        assert(auth_entries.dom() =~= set!["creds"@, "keys"@]);
        assert(object_entries(top).dom() =~= set!["auth_data"@]);
    }
    IpcCommand { kind: CommandKind::Init, payload }
}

/// The `send_message` command: the recipient under `jid`, the text under
/// `content`.
pub fn send_message_command(jid: String, content: String) -> (r: IpcCommand)
    ensures
        r.kind == CommandKind::SendMessage,
        entries_of(r.payload) is Some,
        entries_of(r.payload)->Some_0.dom() == set!["jid"@, "content"@],
        json_str(entries_of(r.payload)->Some_0["jid"@]) == Some(jid@),
        json_str(entries_of(r.payload)->Some_0["content"@]) == Some(content@),
{
    let ghost (j, c) = (jid@, content@);
    let mut m = empty_map();
    map_insert(&mut m, String::from_str("jid"), string_value(jid));
    map_insert(&mut m, String::from_str("content"), string_value(content));
    proof {
        assert(object_entries(m).dom() =~= set!["jid"@, "content"@]);
        reveal_strlit("jid");
        reveal_strlit("content");
        assert("jid"@.len() != "content"@.len());
    }
    IpcCommand { kind: CommandKind::SendMessage, payload: object_value(m) }
}

/// The `disconnect` command, with an empty object as payload.
pub fn disconnect_command() -> (r: IpcCommand)
    ensures
        r.kind == CommandKind::Disconnect,
        entries_of(r.payload) == Some(crate::json::no_entries()),
{
    IpcCommand { kind: CommandKind::Disconnect, payload: object_value(empty_map()) }
}

/// An inbound event.
pub struct IpcEvent {
    pub kind: String,
    pub payload: serde_json::Value,
}

/// The type and payload of the event that a JSON value carries: an object
/// with a string under `type` and any value under `payload`.
pub open spec fn event_of(v: serde_json::Value) -> Option<(Seq<char>, serde_json::Value)> {
    match entries_of(v) {
        Some(e) => if e.contains_key("type"@) && e.contains_key("payload"@) {
            match json_str(e["type"@]) {
                Some(t) => Some((t, e["payload"@])),
                None => None,
            }
        } else {
            None
        },
        None => None,
    }
}

/// The event that a line carries, if it is JSON of the event's shape.
pub open spec fn event_of_line(line: Seq<char>) -> Option<(Seq<char>, serde_json::Value)> {
    match parsed_json(line) {
        Some(v) => event_of(v),
        None => None,
    }
}

/// Reads an event from one line of the engine's output; `None` for a line
/// that is not JSON or not of the event's shape.
pub fn decode_event(line: &str) -> (r: Option<IpcEvent>)
    ensures
        match event_of_line(line@) {
            Some((t, p)) => r is Some && r->Some_0.kind@ == t && r->Some_0.payload == p,
            None => r is None,
        },
{
    let v = match parse_json(line) {
        Some(v) => v,
        None => {
            return None;
        },
    };
    let mut fields = match into_object(v) {
        Ok(m) => m,
        Err(_) => {
            return None;
        },
    };
    let kind = match map_get(&fields, "type") {
        Some(t) => match t.as_str() {
            Some(s) => String::from_str(s),
            None => {
                return None;
            },
        },
        None => {
            return None;
        },
    };
    match map_remove(&mut fields, "payload") {
        Some(payload) => Some(IpcEvent { kind, payload }),
        None => None,
    }
}

/// What the bridge does with an event.
pub enum Dispatch {
    /// Hands a notification to the host under a name.
    Notify { name: String, payload: String },
    /// Replaces the stored credentials with the value.
    StoreCreds(serde_json::Value),
    /// Merges the value into the stored key store.
    MergeKeys(serde_json::Value),
    /// Nothing.
    Ignore,
}

/// A dispatch as the contracts read it.
pub enum DispatchView {
    Notify(Seq<char>, Seq<char>),
    StoreCreds(serde_json::Value),
    MergeKeys(serde_json::Value),
    Ignore,
}

impl View for Dispatch {
    type V = DispatchView;

    open spec fn view(&self) -> DispatchView {
        match self {
            Dispatch::Notify { name, payload } => DispatchView::Notify(name@, payload@),
            Dispatch::StoreCreds(v) => DispatchView::StoreCreds(*v),
            Dispatch::MergeKeys(v) => DispatchView::MergeKeys(*v),
            Dispatch::Ignore => DispatchView::Ignore,
        }
    }
}

/// A notification of the event's own name whose payload is the event's text.
pub open spec fn notify_text(name: Seq<char>, payload: serde_json::Value) -> DispatchView {
    match json_str(payload) {
        Some(t) => DispatchView::Notify(name, t),
        None => DispatchView::Ignore,
    }
}

/// What an `auth_update` payload asks: `{type: "creds" | "keys", data}`.
pub open spec fn auth_update_of(payload: serde_json::Value) -> DispatchView {
    match entries_of(payload) {
        Some(e) => if e.contains_key("type"@) && e.contains_key("data"@) {
            match json_str(e["type"@]) {
                Some(t) => if t == "creds"@ {
                    DispatchView::StoreCreds(e["data"@])
                } else if t == "keys"@ {
                    DispatchView::MergeKeys(e["data"@])
                } else {
                    DispatchView::Ignore
                },
                None => DispatchView::Ignore,
            }
        } else {
            DispatchView::Ignore
        },
        None => DispatchView::Ignore,
    }
}

/// The dispatch table for an event of type `kind`.
pub open spec fn dispatch_of(kind: Seq<char>, payload: serde_json::Value) -> DispatchView {
    if kind == "qr_code"@ {
        notify_text(kind, payload)
    } else if kind == "connection_status"@ {
        notify_text(kind, payload)
    } else if kind == "message"@ {
        DispatchView::Notify("message"@, "New Message: "@ + debug_text(payload))
    } else if kind == "auth_update"@ {
        auth_update_of(payload)
    } else {
        DispatchView::Ignore
    }
}

fn notify_if_text(name: &str, payload: &serde_json::Value) -> (r: Dispatch)
    ensures
        r@ == notify_text(name@, *payload),
{
    match payload.as_str() {
        Some(t) => Dispatch::Notify { name: String::from_str(name), payload: String::from_str(t) },
        None => Dispatch::Ignore,
    }
}

fn auth_update(payload: serde_json::Value) -> (r: Dispatch)
    ensures
        r@ == auth_update_of(payload),
{
    let mut fields = match into_object(payload) {
        Ok(m) => m,
        Err(_) => {
            return Dispatch::Ignore;
        },
    };
    let is_creds;
    let is_keys;
    match map_get(&fields, "type") {
        Some(t) => match t.as_str() {
            Some(s) => {
                is_creds = same_text(s, "creds");
                is_keys = same_text(s, "keys");
            },
            None => {
                return Dispatch::Ignore;
            },
        },
        None => {
            return Dispatch::Ignore;
        },
    }
    match map_remove(&mut fields, "data") {
        Some(data) => if is_creds {
            Dispatch::StoreCreds(data)
        } else if is_keys {
            Dispatch::MergeKeys(data)
        } else {
            Dispatch::Ignore
        },
        None => Dispatch::Ignore,
    }
}

/// Decides what to do with an event, by the dispatch table.
pub fn dispatch(event: IpcEvent) -> (r: Dispatch)
    ensures
        r@ == dispatch_of(event.kind@, event.payload),
{
    let kind = event.kind.as_str();
    if same_text(kind, "qr_code") {
        notify_if_text("qr_code", &event.payload)
    } else if same_text(kind, "connection_status") {
        notify_if_text("connection_status", &event.payload)
    } else if same_text(kind, "message") {
        let mut text = String::from_str("New Message: ");
        let shown = debug_string(&event.payload);
        text.append(shown.as_str());
        Dispatch::Notify { name: String::from_str("message"), payload: text }
    } else if same_text(kind, "auth_update") {
        auth_update(event.payload)
    } else {
        Dispatch::Ignore
    }
}

/// What a line of the engine's output leads to: a line that does not carry
/// an event is dropped and leads to nothing.
pub open spec fn line_dispatch(line: Seq<char>) -> DispatchView {
    match event_of_line(line) {
        Some((t, p)) => dispatch_of(t, p),
        None => DispatchView::Ignore,
    }
}

/// Handles one line of the engine's output.
pub fn handle_line(line: &str) -> (r: Dispatch)
    ensures
        r@ == line_dispatch(line@),
{
    match decode_event(line) {
        Some(event) => dispatch(event),
        None => Dispatch::Ignore,
    }
}

/// What the reader performs for a run of lines, in order: the dispatch of
/// each line that leads to something.
pub open spec fn performed(lines: Seq<Seq<char>>) -> Seq<DispatchView>
    decreases lines.len(),
{
    if lines.len() == 0 {
        Seq::empty()
    } else {
        let rest = performed(lines.drop_last());
        match line_dispatch(lines.last()) {
            DispatchView::Ignore => rest,
            d => rest.push(d),
        }
    }
}

proof fn lemma_performed_concat(a: Seq<Seq<char>>, b: Seq<Seq<char>>)
    ensures
        performed(a + b) == performed(a) + performed(b),
    decreases b.len(),
{
    if b.len() == 0 {
        assert(a + b =~= a);
        assert(performed(a) + performed(b) =~= performed(a));
    } else {
        lemma_performed_concat(a, b.drop_last());
        assert((a + b).drop_last() =~= a + b.drop_last());
        assert((a + b).last() == b.last());
        match line_dispatch(b.last()) {
            DispatchView::Ignore => {},
            d => {
                assert(performed(a) + performed(b.drop_last()).push(d) =~= (performed(a)
                    + performed(b.drop_last())).push(d));
            },
        }
    }
}

/// A line that is not JSON, standing anywhere among the engine's output, is
/// dropped: the reader performs for the lines around it exactly what it
/// performs without it, so every later event is still handled.
pub proof fn lemma_malformed_line_dropped(before: Seq<Seq<char>>, bad: Seq<char>, after: Seq<Seq<char>>)
    requires
        parsed_json(bad) is None,
    ensures
        line_dispatch(bad) == DispatchView::Ignore,
        performed(before + seq![bad] + after) == performed(before + after),
{
    lemma_performed_concat(before + seq![bad], after);
    lemma_performed_concat(before, seq![bad]);
    lemma_performed_concat(before, after);
    assert(seq![bad].drop_last() =~= Seq::<Seq<char>>::empty());
    assert(seq![bad].last() == bad);
    assert(line_dispatch(bad) == DispatchView::Ignore);
    assert(performed(Seq::<Seq<char>>::empty()) == Seq::<DispatchView>::empty());
    assert(performed(seq![bad]) =~= Seq::<DispatchView>::empty());
    assert(performed(before) + performed(seq![bad]) =~= performed(before));
}

} // verus!
