//! The client-facing entry point: a gateway client holding the shared
//! agent handle, and its builder.

use vstd::prelude::*;
use crate::error::{AgentCallError, HttpGatewayError, HttpGatewayResult};
use crate::request_builder::{
    HttpGatewayRequestArgs, HttpGatewayRequestBuilder, HttpGatewayRequestBuilderArgs,
};

verus! {

/// Arguments for creating a gateway client.
pub struct HttpGatewayClientArgs {
    pub agent: ic_agent::Agent,
}

/// A gateway client: the agent handle that every request made through this
/// client shares.
pub struct HttpGatewayClient {
    agent: ic_agent::Agent,
}

impl HttpGatewayClient {
    /// The agent this client holds.
    pub closed spec fn agent_spec(&self) -> ic_agent::Agent {
        self.agent
    }
}

/// Relies on `ic_agent::AgentBuilder`: it builds an agent addressing the
/// given URL. `with_url` panics on a string that does not parse as a URL,
/// so the `requires` admits only the default endpoint, which does.
#[verifier::external_body]
fn build_default_agent(url: &str) -> Result<ic_agent::Agent, String>
    requires
        url@ == "https://icp-api.io"@,
{
    ic_agent::Agent::builder().with_url(url).build().map_err(|e| format!("{}", e))
}

impl HttpGatewayClient {
    /// A client over the given agent.
    pub fn new(args: HttpGatewayClientArgs) -> (r: Self)
        ensures
            r.agent_spec() == args.agent,
    {
        HttpGatewayClient { agent: args.agent }
    }

    /// A fresh client builder.
    pub fn builder() -> (r: HttpGatewayClientBuilder)
        ensures
            r.agent_spec() is None,
    {
        HttpGatewayClientBuilder::new()
    }

    /// Starts a request through this client.
    pub fn request<'a>(&'a self, args: HttpGatewayRequestArgs) -> (r: HttpGatewayRequestBuilder<
        'a,
    >)
        ensures
            r.args_spec().request_args == args,
            *r.args_spec().agent == self.agent_spec(),
            !r.skip_spec(),
    {
        HttpGatewayRequestBuilder::new(
            HttpGatewayRequestBuilderArgs { request_args: args, agent: &self.agent },
        )
    }
}

/// Builds a gateway client; without an agent, one addressing the default
/// API gateway is built.
pub struct HttpGatewayClientBuilder {
    agent: Option<ic_agent::Agent>,
}

impl HttpGatewayClientBuilder {
    /// The agent chosen so far.
    pub closed spec fn agent_spec(&self) -> Option<ic_agent::Agent> {
        self.agent
    }
}

impl HttpGatewayClientBuilder {
    /// A builder with no agent chosen yet.
    pub fn new() -> (r: Self)
        ensures
            r.agent_spec() is None,
    {
        HttpGatewayClientBuilder { agent: None }
    }

    /// Chooses the agent the client will use.
    pub fn with_agent(self, agent: ic_agent::Agent) -> (r: Self)
        ensures
            r.agent_spec() == Some(agent),
    {
        HttpGatewayClientBuilder { agent: Some(agent) }
    }

    /// Builds the client. With an agent chosen the build always succeeds;
    /// otherwise a default agent is built, which may fail.
    pub fn build(self) -> (r: HttpGatewayResult<HttpGatewayClient>)
        ensures
            self.agent_spec() matches Some(a) ==> (r matches Ok(c) && c.agent_spec() == a),
    {
        match self.agent {
            Some(agent) => Ok(HttpGatewayClient::new(HttpGatewayClientArgs { agent })),
            None => match build_default_agent("https://icp-api.io") {
                Ok(agent) => Ok(HttpGatewayClient::new(HttpGatewayClientArgs { agent })),
                Err(m) => Err(HttpGatewayError::Transport(AgentCallError::Other(m))),
            },
        }
    }
}

impl Default for HttpGatewayClientBuilder {
    /// The same as `new`: a builder with no agent chosen.
    fn default() -> (r: Self)
        ensures
            r.agent_spec() is None,
    {
        HttpGatewayClientBuilder::new()
    }
}

} // verus!
