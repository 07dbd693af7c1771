//! The service's two endpoints and the handlers behind them.

pub mod health_check;
pub mod subscriptions;

use vstd::prelude::*;

verus! {

/// Path of the liveness probe.
pub const HEALTH_CHECK_PATH: &'static str = "/health_check";

/// Path under which sign-ups are posted.
pub const SUBSCRIPTIONS_PATH: &'static str = "/subscriptions";

/// An HTTP method that the service serves.
#[derive(Clone, Copy, Debug, PartialEq, Eq, Structural)]
pub enum Method {
    Get,
    Post,
}

/// An operation of the service. There are exactly two.
#[derive(Clone, Copy, Debug, PartialEq, Eq, Structural)]
pub enum Endpoint {
    /// The liveness probe, answered by [`health_check::health_check`].
    HealthCheck,
    /// Sign-up, answered by [`subscriptions::subscribe`].
    Subscriptions,
}

impl Endpoint {
    /// The method under which the endpoint is registered.
    pub open spec fn method_of(self) -> Method {
        match self {
            Endpoint::HealthCheck => Method::Get,
            Endpoint::Subscriptions => Method::Post,
        }
    }

    /// The path under which the endpoint is registered.
    pub open spec fn path_of(self) -> Seq<char> {
        match self {
            Endpoint::HealthCheck => HEALTH_CHECK_PATH@,
            Endpoint::Subscriptions => SUBSCRIPTIONS_PATH@,
        }
    }

    /// The method under which the endpoint is registered: `GET` for the
    /// liveness probe, `POST` for sign-up.
    pub fn method(self) -> (method: Method)
        ensures
            method == self.method_of(),
    {
        match self {
            Endpoint::HealthCheck => Method::Get,
            Endpoint::Subscriptions => Method::Post,
        }
    }

    /// The path under which the endpoint is registered.
    pub fn path(self) -> (path: &'static str)
        ensures
            path@ == self.path_of(),
    {
        match self {
            Endpoint::HealthCheck => HEALTH_CHECK_PATH,
            Endpoint::Subscriptions => SUBSCRIPTIONS_PATH,
        }
    }
}

/// The routes that a server registers, in the order of registration.
pub fn endpoints() -> (table: [Endpoint; 2])
    ensures
        table@ == seq![Endpoint::HealthCheck, Endpoint::Subscriptions],
{
    [Endpoint::HealthCheck, Endpoint::Subscriptions]
}

} // verus!
