//! Decisions of the market data session: retrying the fetch of the session
//! token and reacting to the status of a data request.  The requests
//! themselves are made by the caller, which reports what came back.

use vstd::prelude::*;

verus! {

/// How many times the session token is asked for before giving up.
pub const MAX_RETRIES: usize = 5;

/// What one request for the session token came back with.
#[derive(Debug, Clone, Copy, PartialEq, Eq, Structural)]
pub enum CrumbOutcome {
    /// The token came back with status 200.
    Received,
    /// The service refused the request as unauthorized.
    Unauthorized,
    /// Any other status.
    OtherStatus,
    /// The request did not reach the service.
    NetworkError,
}

/// What to do after a request for the session token.
#[derive(Debug, Clone, Copy, PartialEq, Eq, Structural)]
pub enum CrumbAction {
    /// Keep the token.
    Accept,
    /// Wait, then ask again.
    RetryAfterDelay,
    /// Give up: still unauthorized after the last attempt.
    FailUnauthorized,
    /// Give up: an unexpected status.
    FailStatus,
    /// Give up: no connection after the last attempt.
    FailNetwork,
}

/// Decides what follows attempt `attempt` (counting from 1) of fetching the
/// session token: a refusal or a failed connection is retried until the last
/// attempt, any other status ends the fetch.
pub fn crumb_action(attempt: usize, outcome: CrumbOutcome) -> (r: CrumbAction)
    requires
        1 <= attempt <= MAX_RETRIES,
    ensures
        r == match outcome {
            CrumbOutcome::Received => CrumbAction::Accept,
            CrumbOutcome::Unauthorized => if attempt == MAX_RETRIES {
                CrumbAction::FailUnauthorized
            } else {
                CrumbAction::RetryAfterDelay
            },
            CrumbOutcome::OtherStatus => CrumbAction::FailStatus,
            CrumbOutcome::NetworkError => if attempt == MAX_RETRIES {
                CrumbAction::FailNetwork
            } else {
                CrumbAction::RetryAfterDelay
            },
        },
        r == CrumbAction::RetryAfterDelay ==> attempt < MAX_RETRIES,
{
    match outcome {
        CrumbOutcome::Received => CrumbAction::Accept,
        CrumbOutcome::Unauthorized => {
            if attempt == MAX_RETRIES {
                CrumbAction::FailUnauthorized
            } else {
                CrumbAction::RetryAfterDelay
            }
        },
        CrumbOutcome::OtherStatus => CrumbAction::FailStatus,
        CrumbOutcome::NetworkError => {
            if attempt == MAX_RETRIES {
                CrumbAction::FailNetwork
            } else {
                CrumbAction::RetryAfterDelay
            }
        },
    }
}

/// The status a data request came back with.
#[derive(Debug, Clone, Copy, PartialEq, Eq, Structural)]
pub enum ResponseStatus {
    /// Status 200.
    Success,
    /// Too many requests.
    TooManyRequests,
    /// Any other status.
    Other,
}

/// What to do with the response to a data request.
#[derive(Debug, Clone, Copy, PartialEq, Eq, Structural)]
pub enum ResponseAction {
    /// Read the body and return it.
    Return,
    /// Wait, then send the same request again.
    WaitAndRetry,
    /// Fetch a new session token, then send the request again.
    RefreshAndRetry,
    /// Give up with the status.
    Fail,
}

/// The state of one data request across its retries.
pub struct RequestState {
    /// Whether the request is a POST (queries) rather than a GET.
    pub is_post: bool,
    /// Whether the session token was already refreshed for this request.
    pub tried_refresh: bool,
}

impl RequestState {
    /// A new request.
    pub fn new(is_post: bool) -> (s: RequestState)
        ensures
            s.is_post == is_post,
            !s.tried_refresh,
    {
        RequestState { is_post, tried_refresh: false }
    }

    /// Decides what follows a response with status `status`, when the session
    /// has a token or not: success returns, a throttled query waits and
    /// retries, any other failure refreshes the token once and retries, and
    /// fails after that.  Refreshing marks the request as refreshed.
    pub fn on_response(&mut self, status: ResponseStatus, has_crumb: bool) -> (r: ResponseAction)
        ensures
            r == if status == ResponseStatus::Success {
                ResponseAction::Return
            } else if status == ResponseStatus::TooManyRequests && old(self).is_post {
                ResponseAction::WaitAndRetry
            } else if !old(self).tried_refresh && has_crumb {
                ResponseAction::RefreshAndRetry
            } else {
                ResponseAction::Fail
            },
            final(self).is_post == old(self).is_post,
            final(self).tried_refresh == (old(self).tried_refresh || r == ResponseAction::RefreshAndRetry),
            r == ResponseAction::RefreshAndRetry ==> !old(self).tried_refresh,
    {
        match status {
            ResponseStatus::Success => ResponseAction::Return,
            ResponseStatus::TooManyRequests if self.is_post => ResponseAction::WaitAndRetry,
            _ => {
                if !self.tried_refresh && has_crumb {
                    self.tried_refresh = true;
                    ResponseAction::RefreshAndRetry
                } else {
                    ResponseAction::Fail
                }
            },
        }
    }
}

} // verus!
