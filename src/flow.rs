use vstd::prelude::*;
use crate::callback::LOOPBACK_ORIGIN;
use crate::outcome::{is_port_exhaustion, port_exhaustion, FlowError, FlowResult};
use crate::port::{find_available_port, in_scan_range};
use crate::url_text::{
    append_query_pairs, field_fits, parse_error_text, MAX_FIELD_CHARS, url_parses, with_query_pairs,
};

verus! {

/// What the caller asks for: the provider's authorization endpoint, the
/// client identifier, the scope and the anti-forgery state token.
#[derive(Clone, Debug)]
pub struct FlowRequest {
    pub auth_url_base: String,
    pub client_id: String,
    pub scope: String,
    pub state: String,
}

impl FlowRequest {
    /// Every field is short enough for the URL machinery.
    pub open spec fn fits(&self) -> bool {
        field_fits(self.auth_url_base@) && field_fits(self.client_id@) && field_fits(self.scope@)
            && field_fits(self.state@)
    }

    /// Whether every field is short enough for the URL machinery.
    pub fn within_limits(&self) -> (r: bool)
        ensures
            r == self.fits(),
    {
        self.auth_url_base.as_str().unicode_len() <= MAX_FIELD_CHARS
            && self.client_id.as_str().unicode_len() <= MAX_FIELD_CHARS
            && self.scope.as_str().unicode_len() <= MAX_FIELD_CHARS
            && self.state.as_str().unicode_len() <= MAX_FIELD_CHARS
    }
}

/// What a started flow works with: its port, its redirect URI and the
/// authorization URL to open in the browser.
#[derive(Clone, Debug)]
pub struct FlowPlan {
    pub port: u16,
    pub redirect_uri: String,
    pub auth_url: String,
}

/// How long the listener waits for the redirect, in milliseconds.
pub const DEFAULT_DEADLINE_MS: u64 = 300000;

/// How much longer than the listener the coordinator waits, so that a result
/// published at the deadline still reaches it.
pub const DELIVERY_GRACE_MS: u64 = 1000;

pub open spec fn digit_char(d: nat) -> char {
    if d == 0 {
        '0'
    } else if d == 1 {
        '1'
    } else if d == 2 {
        '2'
    } else if d == 3 {
        '3'
    } else if d == 4 {
        '4'
    } else if d == 5 {
        '5'
    } else if d == 6 {
        '6'
    } else if d == 7 {
        '7'
    } else if d == 8 {
        '8'
    } else {
        '9'
    }
}

/// Decimal digits of `n`, most significant first, without leading zeros.
pub open spec fn decimal(n: nat) -> Seq<char>
    decreases n,
{
    if n < 10 {
        seq![digit_char(n)]
    } else {
        decimal(n / 10).push(digit_char(n % 10))
    }
}

proof fn lemma_decimal_len(n: nat)
    ensures
        decimal(n).len() <= n + 1,
    decreases n,
{
    if n >= 10 {
        lemma_decimal_len(n / 10);
    }
}

/// The redirect URI of a listener on `port`.
pub open spec fn redirect_uri_of(port: u16) -> Seq<char> {
    LOOPBACK_ORIGIN@ + ":"@ + decimal(port as nat)
}

/// The query pairs appended to the authorization endpoint, in order.
pub open spec fn authorization_query(
    client_id: Seq<char>,
    redirect_uri: Seq<char>,
    scope: Seq<char>,
    state: Seq<char>,
) -> Seq<(Seq<char>, Seq<char>)> {
    seq![
        ("client_id"@, client_id),
        ("redirect_uri"@, redirect_uri),
        ("response_type"@, "code"@),
        ("scope"@, scope),
        ("access_type"@, "offline"@),
        ("prompt"@, "consent"@),
        ("state"@, state),
    ]
}

fn digit_text(d: u16) -> (r: &'static str)
    requires
        d < 10,
    ensures
        r@ == seq![digit_char(d as nat)],
{
    proof {
        reveal_strlit("0");
        reveal_strlit("1");
        reveal_strlit("2");
        reveal_strlit("3");
        reveal_strlit("4");
        reveal_strlit("5");
        reveal_strlit("6");
        reveal_strlit("7");
        reveal_strlit("8");
        reveal_strlit("9");
    }
    if d == 0 {
        "0"
    } else if d == 1 {
        "1"
    } else if d == 2 {
        "2"
    } else if d == 3 {
        "3"
    } else if d == 4 {
        "4"
    } else if d == 5 {
        "5"
    } else if d == 6 {
        "6"
    } else if d == 7 {
        "7"
    } else if d == 8 {
        "8"
    } else {
        "9"
    }
}

/// The decimal text of `n`.
pub fn decimal_text(n: u16) -> (r: String)
    ensures
        r@ == decimal(n as nat),
    decreases n,
{
    if n < 10 {
        String::from_str(digit_text(n))
    } else {
        let high = decimal_text(n / 10);
        high.concat(digit_text(n % 10))
    }
}

/// The redirect URI that a flow listening on `port` registers.
pub fn loopback_redirect_uri(port: u16) -> (r: String)
    ensures
        r@ == redirect_uri_of(port),
        field_fits(r@),
{
    proof {
        reveal_strlit("http://127.0.0.1");
        reveal_strlit(":");
        lemma_decimal_len(port as nat);
    }
    let uri = String::from_str(LOOPBACK_ORIGIN).concat(":");
    uri.concat(decimal_text(port).as_str())
}

/// The redirect URI without its port, for display before any flow has
/// chosen one.
pub fn get_oauth_redirect_uri() -> (r: String)
    ensures
        r@ == LOOPBACK_ORIGIN@,
{
    String::from_str(LOOPBACK_ORIGIN)
}

/// The authorization URL: `base` with the flow's parameters appended to its
/// query, or `MalformedInput` when `base` is no absolute URL.
pub fn build_authorization_url(
    base: &str,
    client_id: &str,
    scope: &str,
    state: &str,
    redirect_uri: &str,
) -> (r: Result<String, FlowError>)
    requires
        field_fits(base@),
        field_fits(client_id@),
        field_fits(scope@),
        field_fits(state@),
        field_fits(redirect_uri@),
    ensures
        r is Ok == url_parses(base@),
        match r {
            Ok(u) => u@ == with_query_pairs(
                base@,
                authorization_query(client_id@, redirect_uri@, scope@, state@),
            ),
            Err(e) => e is MalformedInput,
        },
{
    let mut pairs: Vec<(String, String)> = Vec::new();
    pairs.push((String::from_str("client_id"), String::from_str(client_id)));
    pairs.push((String::from_str("redirect_uri"), String::from_str(redirect_uri)));
    pairs.push((String::from_str("response_type"), String::from_str("code")));
    pairs.push((String::from_str("scope"), String::from_str(scope)));
    pairs.push((String::from_str("access_type"), String::from_str("offline")));
    pairs.push((String::from_str("prompt"), String::from_str("consent")));
    pairs.push((String::from_str("state"), String::from_str(state)));
    let ghost expected = authorization_query(client_id@, redirect_uri@, scope@, state@);
    assert(crate::url_text::pairs_view(pairs@) =~= expected);
    proof {
        reveal_strlit("client_id");
        reveal_strlit("redirect_uri");
        reveal_strlit("response_type");
        reveal_strlit("code");
        reveal_strlit("scope");
        reveal_strlit("access_type");
        reveal_strlit("offline");
        reveal_strlit("prompt");
        reveal_strlit("consent");
        reveal_strlit("state");
        assert forall|i: int| 0 <= i < pairs@.len() implies field_fits(#[trigger] pairs@[i].0@)
            && field_fits(pairs@[i].1@) by {
            assert(pairs@[i].0@ == expected[i].0 && pairs@[i].1@ == expected[i].1);
        }
    }
    match append_query_pairs(base, &pairs) {
        Ok(u) => Ok(u),
        Err(e) => Err(FlowError::MalformedInput(parse_error_text(&e))),
    }
}

/// Checks the request before anything is allocated: `MalformedInput` when the
/// authorization base URL is no absolute URL.
pub fn check_request(request: &FlowRequest) -> (r: Result<(), FlowError>)
    requires
        field_fits(request.auth_url_base@),
    ensures
        r is Ok == url_parses(request.auth_url_base@),
        match r {
            Ok(_) => true,
            Err(e) => e is MalformedInput,
        },
{
    // Appending no pairs leaves the URL as parsed: only the parse decides.
    let empty: Vec<(String, String)> = Vec::new();
    match append_query_pairs(request.auth_url_base.as_str(), &empty) {
        Ok(_) => Ok(()),
        Err(e) => Err(FlowError::MalformedInput(parse_error_text(&e))),
    }
}

/// Where the port scan leaves a flow.
#[derive(Clone, Debug)]
pub enum PortScanOutcome {
    /// A port was found: the flow goes on with this plan.
    Ready(FlowPlan),
    /// No port was free: the flow is over with this outcome.
    Ended(FlowResult),
}

/// Plans the flow once the port scan is over: when it found no port, the
/// flow ends with the "no available port" failure, which has no redirect
/// URI; when the base URL does not parse, `MalformedInput`; else the port,
/// its redirect URI and the authorization URL.
pub fn plan_flow(request: &FlowRequest, port: Option<u16>) -> (r: Result<PortScanOutcome, FlowError>)
    requires
        request.fits(),
    ensures
        match port {
            None => match r {
                Ok(PortScanOutcome::Ended(res)) => is_port_exhaustion(res),
                _ => false,
            },
            Some(p) => if url_parses(request.auth_url_base@) {
                match r {
                    Ok(PortScanOutcome::Ready(plan)) => plan_for(*request, p, plan),
                    _ => false,
                }
            } else {
                r matches Err(FlowError::MalformedInput(_))
            },
        },
{
    match port {
        None => Ok(PortScanOutcome::Ended(port_exhaustion())),
        Some(p) => {
            let redirect_uri = loopback_redirect_uri(p);
            let auth_url = build_authorization_url(
                request.auth_url_base.as_str(),
                request.client_id.as_str(),
                request.scope.as_str(),
                request.state.as_str(),
                redirect_uri.as_str(),
            );
            match auth_url {
                Ok(auth_url) => Ok(PortScanOutcome::Ready(FlowPlan { port: p, redirect_uri, auth_url })),
                Err(e) => Err(e),
            }
        },
    }
}

/// How long the coordinator waits for a listener whose deadline is
/// `deadline_ms`: that same deadline plus the delivery grace.
pub fn coordinator_wait_ms(deadline_ms: u64) -> (r: u64)
    ensures
        r == if deadline_ms as int + DELIVERY_GRACE_MS as int <= u64::MAX as int {
            (deadline_ms + DELIVERY_GRACE_MS) as u64
        } else {
            u64::MAX
        },
{
    deadline_ms.saturating_add(DELIVERY_GRACE_MS)
}

/// `plan` is the plan of `request` on `port`.
pub open spec fn plan_for(request: FlowRequest, port: u16, plan: FlowPlan) -> bool {
    &&& plan.port == port
    &&& plan.redirect_uri@ == redirect_uri_of(port)
    &&& plan.auth_url@ == with_query_pairs(
        request.auth_url_base@,
        authorization_query(request.client_id@, redirect_uri_of(port), request.scope@, request.state@),
    )
}

/// Runs one flow. `probe` tries to bind a port, `start` starts the listener
/// for the plan and opens its authorization URL in the browser, and `wait`
/// blocks until the listener publishes or the coordinator's deadline passes.
/// A malformed base URL ends the flow before any port is probed; no free
/// port ends it, before anything is started, with the "no available port"
/// failure; a failed launch ends it without
/// waiting; a wait that yields nothing is a timeout.
pub fn start_flow<P, S, W>(request: &FlowRequest, probe: P, start: S, wait: W) -> (r: Result<
    FlowResult,
    FlowError,
>) where P: Fn(u16) -> bool, S: FnOnce(FlowPlan) -> Result<(), String>, W: FnOnce() -> Option<
    FlowResult,
>
    requires
        request.fits(),
        forall|p: u16| #[trigger] probe.requires((p,)),
        forall|plan: FlowPlan| #[trigger] start.requires((plan,)),
        wait.requires(()),
    ensures
        (r matches Err(FlowError::MalformedInput(_))) == !url_parses(request.auth_url_base@),
        r matches Err(FlowError::LaunchFailure(m)) ==> exists|plan: FlowPlan, launched: Result<(), String>|
            {
                &&& launched matches Err(e) && e == m
                &&& in_scan_range(plan.port as int)
                &&& probe.ensures((plan.port,), true)
                &&& plan_for(*request, plan.port, plan)
                &&& #[trigger] start.ensures((plan,), launched)
            },
        r matches Ok(res) ==> (is_port_exhaustion(res) && forall|q: u16| #[trigger]
            in_scan_range(q as int) ==> probe.ensures((q,), false)) || exists|
            plan: FlowPlan,
            launched: Result<(), String>,
        |
            {
                &&& launched is Ok
                &&& in_scan_range(plan.port as int)
                &&& probe.ensures((plan.port,), true)
                &&& plan_for(*request, plan.port, plan)
                &&& #[trigger] start.ensures((plan,), launched)
                &&& (wait.ensures((), Some(res)) || (wait.ensures((), None::<FlowResult>)
                    && res == FlowResult::Timeout { redirect_uri: plan.redirect_uri }))
            },
{
    match check_request(request) {
        Err(e) => {
            return Err(e);
        },
        Ok(_) => {},
    }
    let port = find_available_port(probe);
    let plan = match plan_flow(request, port) {
        Ok(PortScanOutcome::Ready(plan)) => plan,
        Ok(PortScanOutcome::Ended(res)) => {
            return Ok(res);
        },
        Err(e) => {
            return Err(e);
        },
    };
    let ghost planned = plan;
    assert(in_scan_range(planned.port as int) && probe.ensures((planned.port,), true));
    let redirect_uri = plan.redirect_uri.clone();
    let launch = start(plan);
    assert(start.ensures((planned,), launch));
    match launch {
        Err(m) => Err(FlowError::LaunchFailure(m)),
        Ok(()) => {
            let received = wait();
            match received {
                Some(res) => Ok(res),
                None => Ok(FlowResult::Timeout { redirect_uri }),
            }
        },
    }
}

} // verus!
