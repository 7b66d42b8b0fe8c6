use vstd::prelude::*;
use crate::outcome::{opt_view, FlowResult};
use crate::url_text::{decode_query_pairs, pairs_view, query_pairs_of, url_parses};

verus! {

/// The value of the last pair whose name is `key`, if any: repeated query
/// parameters resolve to their last occurrence.
pub open spec fn last_value(pairs: Seq<(Seq<char>, Seq<char>)>, key: Seq<char>) -> Option<
    Seq<char>,
>
    decreases pairs.len(),
{
    if pairs.len() == 0 {
        None
    } else if pairs.last().0 == key {
        Some(pairs.last().1)
    } else {
        last_value(pairs.drop_last(), key)
    }
}

/// `r` is the outcome that the query `pairs` of a redirect to `redirect` gives:
/// a code means success, whatever else is there; otherwise a failure that
/// carries the provider's error, if any.
pub open spec fn classified(r: FlowResult, pairs: Seq<(Seq<char>, Seq<char>)>, redirect: Seq<char>) -> bool {
    match last_value(pairs, "code"@) {
        Some(c) => match r {
            FlowResult::Success { code, state, redirect_uri } => code@ == c && opt_view(state)
                == last_value(pairs, "state"@) && redirect_uri@ == redirect,
            _ => false,
        },
        None => match r {
            FlowResult::Failure { error, redirect_uri } => opt_view(error) == last_value(
                pairs,
                "error"@,
            ) && opt_view(redirect_uri) == Some(redirect),
            _ => false,
        },
    }
}

/// Origin of the loopback listener, without the port.
pub const LOOPBACK_ORIGIN: &'static str = "http://127.0.0.1";

/// Error text of a redirect whose URL does not parse.
pub const CALLBACK_PARSE_FAILED: &'static str = "callback URL parse failed";

/// The full URL that a request line's target stands for on the listener.
pub open spec fn callback_url(target: Seq<char>) -> Seq<char> {
    LOOPBACK_ORIGIN@ + target
}

/// `r` is the outcome of a request for `target` (path and query) that reached
/// the listener serving `redirect`.
pub open spec fn callback_outcome(r: FlowResult, target: Seq<char>, redirect: Seq<char>) -> bool {
    let url = callback_url(target);
    if url_parses(url) {
        classified(r, query_pairs_of(url), redirect)
    } else {
        match r {
            FlowResult::Failure { error, redirect_uri } => opt_view(error) == Some(
                CALLBACK_PARSE_FAILED@,
            ) && opt_view(redirect_uri) == Some(redirect),
            _ => false,
        }
    }
}

/// The value of the last pair named `key`.
pub fn find_last(pairs: &Vec<(String, String)>, key: &String) -> (r: Option<String>)
    ensures
        opt_view(r) == last_value(pairs_view(pairs@), key@),
{
    let ghost pv = pairs_view(pairs@);
    let mut i: usize = pairs.len();
    assert(pv.take(i as int) =~= pv);
    while i > 0
        invariant
            i <= pairs.len(),
            pv == pairs_view(pairs@),
            pv.len() == pairs.len(),
            last_value(pv, key@) == last_value(pv.take(i as int), key@),
        decreases i,
    {
        let ghost t = pv.take(i as int);
        assert(t.last() == pv[i - 1]);
        assert(t.drop_last() =~= pv.take(i - 1));
        if pairs[i - 1].0 == *key {
            return Some(pairs[i - 1].1.clone());
        }
        i = i - 1;
    }
    assert(pv.take(0) =~= Seq::<(Seq<char>, Seq<char>)>::empty());
    None
}

/// Classifies the decoded query pairs of a redirect to `redirect_uri`.
pub fn classify_query(pairs: &Vec<(String, String)>, redirect_uri: &String) -> (r: FlowResult)
    ensures
        classified(r, pairs_view(pairs@), redirect_uri@),
{
    let code = find_last(pairs, &String::from_str("code"));
    match code {
        Some(code) => FlowResult::Success {
            code,
            state: find_last(pairs, &String::from_str("state")),
            redirect_uri: redirect_uri.clone(),
        },
        None => FlowResult::Failure {
            error: find_last(pairs, &String::from_str("error")),
            redirect_uri: Some(redirect_uri.clone()),
        },
    }
}

/// The outcome of a request for `target` (the request line's path and
/// query) that reached the listener serving `redirect_uri`.
pub fn callback_result(target: &str, redirect_uri: &String) -> (r: FlowResult)
    ensures
        callback_outcome(r, target@, redirect_uri@),
{
    let url = String::from_str(LOOPBACK_ORIGIN).concat(target);
    match decode_query_pairs(url.as_str()) {
        Ok(pairs) => classify_query(&pairs, redirect_uri),
        Err(_) => FlowResult::Failure {
            error: Some(CALLBACK_PARSE_FAILED.to_owned()),
            redirect_uri: Some(redirect_uri.clone()),
        },
    }
}

/// Page shown to the browser once a code was captured.
pub const SUCCESS_PAGE: &'static str = r#"<!DOCTYPE html>
<html>
<head>
    <title>Authentication Successful</title>
    <style>
        body { font-family: -apple-system, BlinkMacSystemFont, 'Segoe UI', Roboto, sans-serif;
               display: flex; justify-content: center; align-items: center; height: 100vh;
               margin: 0; background: #1a1a2e; color: #eee; }
        .container { text-align: center; padding: 2rem; }
        .success { color: #10b981; font-size: 3rem; margin-bottom: 1rem; }
        h1 { margin: 0 0 1rem 0; }
        p { color: #888; }
    </style>
</head>
<body>
    <div class="container">
        <div class="success">✓</div>
        <h1>Authentication Successful</h1>
        <p>You can close this window and return to Puffin.</p>
    </div>
</body>
</html>"#;

/// Page shown to the browser when no code was captured.
pub const FAILURE_PAGE: &'static str = r#"<!DOCTYPE html>
<html>
<head>
    <title>Authentication Failed</title>
    <style>
        body { font-family: -apple-system, BlinkMacSystemFont, 'Segoe UI', Roboto, sans-serif;
               display: flex; justify-content: center; align-items: center; height: 100vh;
               margin: 0; background: #1a1a2e; color: #eee; }
        .container { text-align: center; padding: 2rem; }
        .error { color: #ef4444; font-size: 3rem; margin-bottom: 1rem; }
        h1 { margin: 0 0 1rem 0; }
        p { color: #888; }
    </style>
</head>
<body>
    <div class="container">
        <div class="error">✗</div>
        <h1>Authentication Failed</h1>
        <p>Please close this window and try again in Puffin.</p>
    </div>
</body>
</html>"#;

/// Content type of the page answered to the browser.
pub const PAGE_CONTENT_TYPE: &'static str = "text/html; charset=utf-8";

/// Status code of the page answered to the browser.
pub const PAGE_STATUS: u16 = 200;

/// Error text of a listener that could not bind its port.
pub const SERVER_START_FAILED: &'static str = "server start failed";

/// The page that answers a redirect whose outcome is `result`.
pub fn response_page(result: &FlowResult) -> (r: &'static str)
    ensures
        r@ == if result is Success { SUCCESS_PAGE@ } else { FAILURE_PAGE@ },
{
    if result.is_success() {
        SUCCESS_PAGE
    } else {
        FAILURE_PAGE
    }
}

/// What happened to the listener while it waited.
#[derive(Clone, Debug)]
pub enum ListenerEvent {
    /// The server could not be bound to its port.
    BindFailed,
    /// A request arrived; `target` is its path and query.
    Request { target: String },
    /// The deadline passed with no request.
    Elapsed,
    /// The server failed while waiting; carries its message.
    ServerError(String),
}

/// What the listener's driver must do next.
#[derive(Clone, Debug)]
pub enum ListenerAction {
    /// Hand `result` to the coordinator and stop.
    Publish(FlowResult),
    /// Answer the request with `page` (best effort), then hand `result` to the
    /// coordinator and stop.
    RespondAndPublish { page: &'static str, result: FlowResult },
    /// A result was already published: drop the request unanswered.
    Discard,
}

/// `r` is the outcome of `event` on a listener serving `redirect`.
pub open spec fn event_outcome(r: FlowResult, event: ListenerEvent, redirect: Seq<char>) -> bool {
    match event {
        ListenerEvent::BindFailed => match r {
            FlowResult::Failure { error, redirect_uri } => opt_view(error) == Some(
                SERVER_START_FAILED@,
            ) && opt_view(redirect_uri) == Some(redirect),
            _ => false,
        },
        ListenerEvent::Request { target } => callback_outcome(r, target@, redirect),
        ListenerEvent::Elapsed => match r {
            FlowResult::Timeout { redirect_uri } => redirect_uri@ == redirect,
            _ => false,
        },
        ListenerEvent::ServerError(m) => match r {
            FlowResult::Failure { error, redirect_uri } => opt_view(error) == Some(m@)
                && opt_view(redirect_uri) == Some(redirect),
            _ => false,
        },
    }
}

/// The one-shot callback listener of one flow: it publishes the outcome of
/// the first event and discards every later one.
pub struct CallbackListener {
    pub redirect_uri: String,
    pub published: Option<FlowResult>,
}

/// `after` and `action` are what `handle` gives for `event` on `before`.
pub open spec fn handled(
    before: CallbackListener,
    event: ListenerEvent,
    after: CallbackListener,
    action: ListenerAction,
) -> bool {
    if before.published is Some {
        after == before && action is Discard
    } else {
        &&& after.redirect_uri == before.redirect_uri
        &&& after.published is Some
        &&& event_outcome(after.published->Some_0, event, before.redirect_uri@)
        &&& match action {
            ListenerAction::Publish(r) => !(event is Request) && r == after.published->Some_0,
            ListenerAction::RespondAndPublish { page, result } => event is Request && result
                == after.published->Some_0 && page@ == (if result is Success {
                SUCCESS_PAGE@
            } else {
                FAILURE_PAGE@
            }),
            ListenerAction::Discard => false,
        }
    }
}

impl CallbackListener {
    /// A listener for the flow whose redirect URI is `redirect_uri`, with
    /// nothing published yet.
    pub fn new(redirect_uri: String) -> (r: CallbackListener)
        ensures
            r.redirect_uri == redirect_uri,
            r.published is None,
    {
        CallbackListener { redirect_uri, published: None }
    }

    /// Whether the outcome has been published.
    pub fn is_done(&self) -> (r: bool)
        ensures
            r == self.published is Some,
    {
        self.published.is_some()
    }

    /// Decides what `event` leads to; only the first event publishes.
    pub fn handle(&mut self, event: ListenerEvent) -> (action: ListenerAction)
        ensures
            handled(*old(self), event, *final(self), action),
    {
        if self.published.is_some() {
            return ListenerAction::Discard;
        }
        let result = match &event {
            ListenerEvent::BindFailed => FlowResult::Failure {
                error: Some(SERVER_START_FAILED.to_owned()),
                redirect_uri: Some(self.redirect_uri.clone()),
            },
            ListenerEvent::Request { target } => callback_result(target.as_str(), &self.redirect_uri),
            ListenerEvent::Elapsed => FlowResult::Timeout { redirect_uri: self.redirect_uri.clone() },
            ListenerEvent::ServerError(m) => FlowResult::Failure {
                error: Some(m.clone()),
                redirect_uri: Some(self.redirect_uri.clone()),
            },
        };
        self.published = Some(result.duplicate());
        if matches!(event, ListenerEvent::Request { .. }) {
            ListenerAction::RespondAndPublish { page: response_page(&result), result }
        } else {
            ListenerAction::Publish(result)
        }
    }
}

/// Once a listener has published, a second event changes neither the
/// published outcome nor the listener, and is discarded: one flow publishes
/// exactly one outcome, that of its first event.
pub proof fn lemma_single_publish(
    l0: CallbackListener,
    e1: ListenerEvent,
    l1: CallbackListener,
    a1: ListenerAction,
    e2: ListenerEvent,
    l2: CallbackListener,
    a2: ListenerAction,
)
    requires
        l0.published is None,
        handled(l0, e1, l1, a1),
        handled(l1, e2, l2, a2),
    ensures
        l2.published is Some,
        l2.published == l1.published,
        event_outcome(l2.published->Some_0, e1, l0.redirect_uri@),
        a2 is Discard,
        !(a1 is Discard),
{
}

} // verus!
