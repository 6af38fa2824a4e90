//! The browser extension's answers, read.
//!
//! The extension pins a direct element reference, refuses when the element is detached or the
//! page navigated, and verifies every write by reading it back. Silence is refusal: if nothing
//! answers, the destination is lost.

use crate::bridge::BridgeError;
use crate::pipeline::{DeliveryError, Liveness};
use crate::text::{chars_of, is_word, push_str};
use vstd::prelude::*;

verus! {

/// One line the extension sent, as far as the program reads it. A field that is absent, or of
/// another type, is `None`; `host` and `describe` are read from the answer's `target`.
#[derive(Debug, Clone, PartialEq, Eq)]
pub struct Reply {
    pub id: Option<u64>,
    pub ok: Option<bool>,
    pub error: Option<String>,
    pub host: Option<String>,
    pub describe: Option<String>,
    pub alive: Option<bool>,
    pub why: Option<String>,
    pub delivered: Option<bool>,
    pub refused: Option<String>,
}

/// A reply, by value.
pub struct ReplyView {
    pub id: Option<u64>,
    pub ok: Option<bool>,
    pub error: Option<Seq<char>>,
    pub host: Option<Seq<char>>,
    pub describe: Option<Seq<char>>,
    pub alive: Option<bool>,
    pub why: Option<Seq<char>>,
    pub delivered: Option<bool>,
    pub refused: Option<Seq<char>>,
}

impl View for Reply {
    type V = ReplyView;

    open spec fn view(&self) -> ReplyView {
        ReplyView {
            id: self.id,
            ok: self.ok,
            error: opt_view(self.error),
            host: opt_view(self.host),
            describe: opt_view(self.describe),
            alive: self.alive,
            why: opt_view(self.why),
            delivered: self.delivered,
            refused: opt_view(self.refused),
        }
    }
}

pub open spec fn reply_view(r: Option<Reply>) -> Option<ReplyView> {
    match r {
        Some(reply) => Some(reply@),
        None => None,
    }
}

/// What the JSON line `line` says, read into a reply and taken by value; `None` when it is not
/// JSON.
pub uninterp spec fn reply_of_json(line: Seq<char>) -> Option<ReplyView>;

/// `serde_json::from_str` into a `serde_json::Value`, then the fields the program reads: `id`,
/// `ok`, `error`, `target.host`, `target.describe`, `alive`, `why`, `delivered`, `refused`.
#[verifier::external_body]
fn parse_reply(line: &str) -> (r: Option<Reply>)
    ensures
        reply_view(r) == reply_of_json(line@),
{
    let v: serde_json::Value = serde_json::from_str(line).ok()?;
    let text = |x: &serde_json::Value| x.as_str().map(String::from);
    Some(Reply {
        id: v["id"].as_u64(),
        ok: v["ok"].as_bool(),
        error: text(&v["error"]),
        host: text(&v["target"]["host"]),
        describe: text(&v["target"]["describe"]),
        alive: v["alive"].as_bool(),
        why: text(&v["why"]),
        delivered: v["delivered"].as_bool(),
        refused: text(&v["refused"]),
    })
}

/// The fields of a line: those of its reply, or none at all when it is not JSON.
pub open spec fn fields_of(line: Seq<char>) -> ReplyView {
    match reply_of_json(line) {
        Some(rv) => rv,
        None => ReplyView {
            id: None,
            ok: None,
            error: None,
            host: None,
            describe: None,
            alive: None,
            why: None,
            delivered: None,
            refused: None,
        },
    }
}

/// Which request a line answers: its `id`, 0 when it has none; `None` for a line that is not
/// JSON, which is dropped.
pub fn reply_id(line: &str) -> (r: Option<u64>)
    ensures
        r == match reply_of_json(line@) {
            None => None,
            Some(rv) => Some(
                match rv.id {
                    Some(i) => i,
                    None => 0u64,
                },
            ),
        },
{
    match parse_reply(line) {
        None => None,
        Some(reply) => Some(
            match reply.id {
                Some(i) => i,
                None => 0,
            },
        ),
    }
}

/// Read the extension's line answering `pin`.
pub fn read_pin_reply(line: &str) -> (r: Result<String, String>)
    ensures
        res_view(r) == pin_answer(
            fields_of(line@).ok,
            fields_of(line@).error,
            fields_of(line@).host,
            fields_of(line@).describe,
        ),
{
    match parse_reply(line) {
        Some(reply) => pin_reply(reply.ok, reply.error, reply.host, reply.describe),
        None => pin_reply(None, None, None, None),
    }
}

/// Read the extension's line answering `status`.
pub fn read_status_reply(line: &str) -> (l: Liveness)
    ensures
        fields_of(line@).alive == Some(true) ==> l is Alive,
        fields_of(line@).alive != Some(true) ==> (l matches Liveness::Dead { reason } && reason@
            == match fields_of(line@).why {
            Some(w) => w,
            None => "unknown"@,
        }),
{
    match parse_reply(line) {
        Some(reply) => status_reply(reply.alive, reply.why),
        None => status_reply(None, None),
    }
}

/// Read the extension's line answering `deliver`.
pub fn read_deliver_reply(line: &str) -> (r: Result<(), DeliveryError>)
    ensures
        fields_of(line@).delivered == Some(true) ==> r is Ok,
        fields_of(line@).delivered != Some(true) ==> r == Err::<(), DeliveryError>(
            refusal(fields_of(line@).refused),
        ),
{
    match parse_reply(line) {
        Some(reply) => deliver_reply(reply.delivered, reply.refused),
        None => deliver_reply(None, None),
    }
}

/// The label of a pinned web field, or the extension's reason for not pinning. `ok`, `error`,
/// `host` and `describe` are the answer's fields, `None` where absent or of another type.
pub open spec fn pin_answer(
    ok: Option<bool>,
    error: Option<Seq<char>>,
    host: Option<Seq<char>>,
    describe: Option<Seq<char>>,
) -> Result<Seq<char>, Seq<char>> {
    if ok != Some(true) {
        Err(
            match error {
                Some(e) => e,
                None => "no-editable-field-focused"@,
            },
        )
    } else {
        Ok(
            match host {
                Some(h) => h,
                None => "a web page"@,
            } + " — "@ + match describe {
                Some(d) => d,
                None => "text field"@,
            },
        )
    }
}

pub open spec fn opt_view(o: Option<String>) -> Option<Seq<char>> {
    match o {
        Some(s) => Some(s@),
        None => None,
    }
}

pub open spec fn res_view(r: Result<String, String>) -> Result<Seq<char>, Seq<char>> {
    match r {
        Ok(s) => Ok(s@),
        Err(e) => Err(e@),
    }
}

/// Read the extension's answer to `pin`.
pub fn pin_reply(
    ok: Option<bool>,
    error: Option<String>,
    host: Option<String>,
    describe: Option<String>,
) -> (r: Result<String, String>)
    ensures
        res_view(r) == pin_answer(ok, opt_view(error), opt_view(host), opt_view(describe)),
{
    if ok != Some(true) {
        return Err(
            match error {
                Some(e) => e,
                None => "no-editable-field-focused".to_owned(),
            },
        );
    }
    let mut label = String::new();
    match &host {
        Some(h) => push_str(&mut label, h.as_str()),
        None => push_str(&mut label, "a web page"),
    }
    push_str(&mut label, " — ");
    match &describe {
        Some(d) => push_str(&mut label, d.as_str()),
        None => push_str(&mut label, "text field"),
    }
    Ok(label)
}

/// The reason given when the bridge itself failed a `pin` request.
pub open spec fn bridge_failure_code(e: BridgeError) -> Seq<char> {
    match e {
        BridgeError::NotConnected => "browser-extension-not-connected"@,
        BridgeError::NoResponse => "browser-did-not-answer"@,
        BridgeError::Transport(m) => m@,
    }
}

pub fn bridge_failure(e: BridgeError) -> (r: String)
    ensures
        r@ == bridge_failure_code(e),
{
    match e {
        BridgeError::NotConnected => "browser-extension-not-connected".to_owned(),
        BridgeError::NoResponse => "browser-did-not-answer".to_owned(),
        BridgeError::Transport(m) => m,
    }
}

/// Read the answer to `status`: alive only when the extension says so in as many words.
pub fn status_reply(alive: Option<bool>, why: Option<String>) -> (l: Liveness)
    ensures
        alive == Some(true) ==> l is Alive,
        alive != Some(true) ==> (l matches Liveness::Dead { reason } && reason@ == match why {
            Some(w) => w@,
            None => "unknown"@,
        }),
{
    if alive == Some(true) {
        Liveness::Alive
    } else {
        match why {
            Some(w) => Liveness::Dead { reason: w },
            None => Liveness::dead("unknown"),
        }
    }
}

/// What a refusal from the extension means.
pub open spec fn refusal(refused: Option<Seq<char>>) -> DeliveryError {
    match refused {
        Some(r) => if r == "element-detached"@ || r == "not-in-document"@ || r
            == "page-navigated"@ {
            DeliveryError::DestinationLost
        } else if r == "secure-field"@ {
            DeliveryError::RefusedSecureField
        } else {
            DeliveryError::NotVerified
        },
        None => DeliveryError::NotVerified,
    }
}

/// Read the answer to `deliver`. The extension verifies by read-back, so anything but an
/// explicit `delivered` is a write that did not land.
pub fn deliver_reply(delivered: Option<bool>, refused: Option<String>) -> (r: Result<
    (),
    DeliveryError,
>)
    ensures
        delivered == Some(true) ==> r is Ok,
        delivered != Some(true) ==> r == Err::<(), DeliveryError>(refusal(opt_view(refused))),
{
    if delivered == Some(true) {
        return Ok(());
    }
    match refused {
        Some(r) => {
            let c = chars_of(r.as_str());
            let c = c.as_slice();
            if is_word(c, "element-detached") || is_word(c, "not-in-document") || is_word(
                c,
                "page-navigated",
            ) {
                Err(DeliveryError::DestinationLost)
            } else if is_word(c, "secure-field") {
                Err(DeliveryError::RefusedSecureField)
            } else {
                Err(DeliveryError::NotVerified)
            }
        },
        None => Err(DeliveryError::NotVerified),
    }
}

} // verus!
