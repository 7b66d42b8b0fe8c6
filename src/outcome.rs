use vstd::prelude::*;

verus! {

/// The one terminal outcome of an authorization attempt.
#[derive(Clone, Debug)]
pub enum FlowResult {
    /// The provider redirected back with an authorization code.
    Success { code: String, state: Option<String>, redirect_uri: String },
    /// The provider reported an error, the redirect could not be read, the
    /// listener failed, or no port was free; `error` is `None` when nothing
    /// said why, and `redirect_uri` is `None` when no port was ever chosen.
    Failure { error: Option<String>, redirect_uri: Option<String> },
    /// No redirect arrived before the deadline.
    Timeout { redirect_uri: String },
}

/// Errors that end a flow before any callback can be awaited.
#[derive(Clone, Debug)]
pub enum FlowError {
    /// The authorization base URL does not parse; carries the parser's message.
    MalformedInput(String),
    /// The browser could not be opened; carries the launcher's message.
    LaunchFailure(String),
}

/// The flat record handed to the application's front end.
#[derive(Clone, Debug)]
pub struct OAuthResult {
    pub code: Option<String>,
    pub state: Option<String>,
    pub error: Option<String>,
    pub redirect_uri: Option<String>,
}

pub open spec fn opt_view(o: Option<String>) -> Option<Seq<char>> {
    match o {
        Some(s) => Some(s@),
        None => None,
    }
}

/// Error text of a flow that found no free port.
pub const NO_AVAILABLE_PORT: &'static str = "no available port";

/// `r` is the outcome of a flow that found no free port.
pub open spec fn is_port_exhaustion(r: FlowResult) -> bool {
    match r {
        FlowResult::Failure { error, redirect_uri } => opt_view(error) == Some(NO_AVAILABLE_PORT@)
            && redirect_uri is None,
        _ => false,
    }
}

/// The outcome of a flow that found no free port.
pub fn port_exhaustion() -> (r: FlowResult)
    ensures
        is_port_exhaustion(r),
{
    FlowResult::Failure { error: Some(NO_AVAILABLE_PORT.to_owned()), redirect_uri: None }
}

/// Text of the `error` field of a timed-out flow.
pub const TIMEOUT_MESSAGE: &'static str = "OAuth timeout - no callback received";

impl FlowResult {
    /// A field-by-field copy.
    pub fn duplicate(&self) -> (r: FlowResult)
        ensures
            r == *self,
    {
        match self {
            FlowResult::Success { code, state, redirect_uri } => FlowResult::Success {
                code: code.clone(),
                state: state.clone(),
                redirect_uri: redirect_uri.clone(),
            },
            FlowResult::Failure { error, redirect_uri } => FlowResult::Failure {
                error: error.clone(),
                redirect_uri: redirect_uri.clone(),
            },
            FlowResult::Timeout { redirect_uri } => FlowResult::Timeout {
                redirect_uri: redirect_uri.clone(),
            },
        }
    }

    pub fn is_success(&self) -> (r: bool)
        ensures
            r == self is Success,
    {
        matches!(self, FlowResult::Success { .. })
    }

    /// Flattens the outcome into the record that the front end reads.
    pub fn to_oauth_result(&self) -> (r: OAuthResult)
        ensures
            match self {
                FlowResult::Success { code, state, redirect_uri } => opt_view(r.code) == Some(
                    code@,
                ) && opt_view(r.state) == opt_view(*state) && r.error is None && opt_view(
                    r.redirect_uri,
                ) == Some(redirect_uri@),
                FlowResult::Failure { error, redirect_uri } => r.code is None && r.state is None
                    && opt_view(r.error) == opt_view(*error) && opt_view(r.redirect_uri) == opt_view(
                    *redirect_uri,
                ),
                FlowResult::Timeout { redirect_uri } => r.code is None && r.state is None
                    && opt_view(r.error) == Some(TIMEOUT_MESSAGE@) && opt_view(r.redirect_uri)
                    == Some(redirect_uri@),
            },
    {
        match self {
            FlowResult::Success { code, state, redirect_uri } => OAuthResult {
                code: Some(code.clone()),
                state: state.clone(),
                error: None,
                redirect_uri: Some(redirect_uri.clone()),
            },
            FlowResult::Failure { error, redirect_uri } => OAuthResult {
                code: None,
                state: None,
                error: error.clone(),
                redirect_uri: redirect_uri.clone(),
            },
            FlowResult::Timeout { redirect_uri } => OAuthResult {
                code: None,
                state: None,
                error: Some(TIMEOUT_MESSAGE.to_owned()),
                redirect_uri: Some(redirect_uri.clone()),
            },
        }
    }
}

impl FlowError {
    /// The message shown to the caller for this error.
    pub fn message(&self) -> (r: String)
        ensures
            match self {
                FlowError::MalformedInput(m) => r@ == m@,
                FlowError::LaunchFailure(m) => r@ == "Failed to open browser: "@ + m@,
            },
    {
        match self {
            FlowError::MalformedInput(m) => m.clone(),
            FlowError::LaunchFailure(m) => String::from_str("Failed to open browser: ").concat(
                m.as_str(),
            ),
        }
    }
}

} // verus!
