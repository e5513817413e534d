//! The per-request builder: it carries the inbound request, the target
//! service and the verification opt-out until the caller performs the
//! send.

use vstd::prelude::*;
use crate::request::CanisterRequest;

verus! {

/// What a single gateway request needs.
pub struct HttpGatewayRequestArgs {
    /// The request to make to the backend service.
    pub canister_request: CanisterRequest,
    /// The principal of the service to call.
    pub canister_id: candid::Principal,
}

/// The request arguments together with the agent to use.
pub struct HttpGatewayRequestBuilderArgs<'a> {
    pub request_args: HttpGatewayRequestArgs,
    pub agent: &'a ic_agent::Agent,
}

/// A one-shot request builder.
pub struct HttpGatewayRequestBuilder<'a> {
    args: HttpGatewayRequestBuilderArgs<'a>,
    skip_verification: bool,
}

impl<'a> HttpGatewayRequestBuilder<'a> {
    /// The arguments this builder carries.
    pub closed spec fn args_spec(&self) -> HttpGatewayRequestBuilderArgs<'a> {
        self.args
    }

    /// Whether this builder opts out of verification.
    pub closed spec fn skip_spec(&self) -> bool {
        self.skip_verification
    }

    /// A builder for the given arguments; verification is on by default.
    pub fn new(args: HttpGatewayRequestBuilderArgs<'a>) -> (r: Self)
        ensures
            r.args_spec() == args,
            !r.skip_spec(),
    {
        HttpGatewayRequestBuilder { args, skip_verification: false }
    }

    /// Opts out of response verification. Unsafe in the protocol sense:
    /// only raw, uncertified domains may legitimately skip verification.
    pub fn unsafe_set_skip_verification(&mut self, skip_verification: bool)
        ensures
            final(self).args_spec() == old(self).args_spec(),
            final(self).skip_spec() == skip_verification,
    {
        self.skip_verification = skip_verification;
    }

    /// Surrenders the builder's parts to the caller that performs the
    /// send.
    pub fn into_parts(self) -> (r: (HttpGatewayRequestArgs, &'a ic_agent::Agent, bool))
        ensures
            r.0 == self.args_spec().request_args,
            r.1 == self.args_spec().agent,
            r.2 == self.skip_spec(),
    {
        (self.args.request_args, self.args.agent, self.skip_verification)
    }
}

} // verus!
