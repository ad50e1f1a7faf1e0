//! The client of the engine: how to connect to it, and what to build with it.
use vstd::prelude::*;

use super::grpc::event_client::EventClient;
use crate::config::{HatchetConfig, TlsStrategy};
use crate::duration::Duration;
use crate::error::{ErrorView, HatchetError};
use crate::runnables::{
    TaskBuilder, WorkflowBuilder, DEFAULT_EXECUTION_TIMEOUT_SECS, DEFAULT_SCHEDULE_TIMEOUT_SECS,
};
use crate::text::{joined, part_before};
use crate::worker::worker::WorkerBuilder;

verus! {

/// How long a connection may be silent before the engine is asked whether it is there, in
/// seconds.
pub const KEEPALIVE_INTERVAL_SECS: u64 = 10;

/// How long the engine may take to answer that, in seconds.
pub const KEEPALIVE_TIMEOUT_SECS: u64 = 60;

/// How the connection to the engine is to be opened.
#[derive(Debug)]
pub struct ChannelPlan {
    pub uri: String,
    /// The name that the engine's certificate must bear, where the connection is encrypted.
    pub tls_domain: Option<String>,
    pub keep_alive_interval: Duration,
    pub keep_alive_timeout: Duration,
    pub keep_alive_while_idle: bool,
}

/// The model of a [`ChannelPlan`].
#[verifier::ext_equal]
pub struct ChannelPlanView {
    pub uri: Seq<char>,
    pub tls_domain: Option<Seq<char>>,
    pub keep_alive_interval: nat,
    pub keep_alive_timeout: nat,
    pub keep_alive_while_idle: bool,
}

impl View for ChannelPlan {
    type V = ChannelPlanView;

    open spec fn view(&self) -> ChannelPlanView {
        ChannelPlanView {
            uri: self.uri@,
            tls_domain: match self.tls_domain {
                Some(domain) => Some(domain@),
                None => None,
            },
            keep_alive_interval: self.keep_alive_interval@,
            keep_alive_timeout: self.keep_alive_timeout@,
            keep_alive_while_idle: self.keep_alive_while_idle,
        }
    }
}

/// How the connection to an address is to be opened. Where it is encrypted, the certificate
/// must bear the part of the address before the port.
pub open spec fn plan_of(grpc_address: Seq<char>, tls_strategy: TlsStrategy) -> ChannelPlanView {
    ChannelPlanView {
        uri: match tls_strategy {
            TlsStrategy::Plaintext => "http://"@ + grpc_address,
            TlsStrategy::Tls => "https://"@ + grpc_address,
        },
        tls_domain: match tls_strategy {
            TlsStrategy::Plaintext => None,
            TlsStrategy::Tls => Some(crate::text::before(grpc_address, ':')),
        },
        keep_alive_interval: (KEEPALIVE_INTERVAL_SECS as nat) * 1_000_000_000,
        keep_alive_timeout: (KEEPALIVE_TIMEOUT_SECS as nat) * 1_000_000_000,
        keep_alive_while_idle: true,
    }
}

/// Why `tonic` refuses a text as a URI, or `None` where it takes it.
pub uninterp spec fn uri_refusal(uri: Seq<char>) -> Option<Seq<char>>;

/// `tonic::transport::Channel::from_shared`: what the error displays where it refuses the
/// text, or `None` where it takes it. What it makes of a text that it takes is left out.
#[verifier::external_body]
fn refusal_of_uri(uri: &str) -> (refusal: Option<String>)
    ensures
        match refusal {
            Some(text) => uri_refusal(uri@) == Some(text@),
            None => uri_refusal(uri@) is None,
        },
{
    match tonic::transport::Channel::from_shared(uri.to_owned()) {
        Ok(_) => None,
        Err(e) => Some(e.to_string()),
    }
}

/// Plans the connection to an address.
pub fn channel_plan(grpc_address: &str, tls_strategy: TlsStrategy) -> (plan: ChannelPlan)
    ensures
        plan@ == plan_of(grpc_address@, tls_strategy),
{
    let (uri, tls_domain) = match tls_strategy {
        TlsStrategy::Plaintext => (joined("http://", grpc_address), None),
        TlsStrategy::Tls => (
            joined("https://", grpc_address),
            Some(part_before(grpc_address, ':')),
        ),
    };
    ChannelPlan {
        uri,
        tls_domain,
        keep_alive_interval: Duration::from_secs(KEEPALIVE_INTERVAL_SECS),
        keep_alive_timeout: Duration::from_secs(KEEPALIVE_TIMEOUT_SECS),
        keep_alive_while_idle: true,
    }
}

/// The plan, unless its URI was refused.
pub fn checked_plan(plan: ChannelPlan, refusal: Option<String>) -> (res: Result<
    ChannelPlan,
    HatchetError,
>)
    ensures
        match refusal {
            Some(text) => res matches Err(e) && e@ == ErrorView::InvalidUri(text@),
            None => res matches Ok(checked) && checked == plan,
        },
{
    match refusal {
        Some(text) => Err(HatchetError::InvalidUri(text)),
        None => Ok(plan),
    }
}

/// The domain that a certificate must bear is the whole address or what stands before its
/// first colon; it holds no colon itself.
pub proof fn law_domain_is_the_address_without_its_port(grpc_address: Seq<char>)
    ensures
        ({
            let domain = plan_of(grpc_address, TlsStrategy::Tls).tls_domain->0;
            &&& domain.is_prefix_of(grpc_address)
            &&& !domain.contains(':')
            &&& domain.len() < grpc_address.len() ==> grpc_address[domain.len() as int] == ':'
        }),
{
    crate::text::lemma_before(grpc_address, ':');
}

/// A key that authenticates requests to a REST interface.
#[derive(Debug)]
pub struct ApiKey {
    pub prefix: Option<String>,
    pub key: String,
}

/// How the engine's REST interface is to be used.
#[derive(Debug)]
pub struct RestConfiguration {
    pub base_path: String,
    pub user_agent: Option<String>,
    /// A user name, and a password where there is one.
    pub basic_auth: Option<(String, Option<String>)>,
    pub oauth_access_token: Option<String>,
    pub bearer_access_token: Option<String>,
    pub api_key: Option<ApiKey>,
}

/// What a client is made from, where it takes its settings from the environment.
#[derive(Debug)]
pub struct TokenArguments {
    pub server_url: String,
    pub grpc_broadcast_address: String,
    pub token: String,
    pub tls_strategy: &'static str,
}

/// A client together with how to open its connection.
#[derive(Debug)]
pub struct Connection {
    pub channel: ChannelPlan,
    pub hatchet: Hatchet,
}

/// The main client for interacting with the engine.
#[derive(Debug)]
pub struct Hatchet {
    server_url: String,
    api_token: String,
    tenant_id: String,
}

/// The model of a [`Hatchet`].
#[verifier::ext_equal]
pub struct HatchetView {
    pub server_url: Seq<char>,
    pub api_token: Seq<char>,
    pub tenant_id: Seq<char>,
}

impl View for Hatchet {
    type V = HatchetView;

    closed spec fn view(&self) -> HatchetView {
        HatchetView {
            server_url: self.server_url@,
            api_token: self.api_token@,
            tenant_id: self.tenant_id@,
        }
    }
}

impl Hatchet {
    /// The settings of the environment as the arguments of [`Hatchet::from_token`]. A problem
    /// with the settings is handed on.
    pub fn from_env(config: Result<HatchetConfig, HatchetError>) -> (res: Result<
        TokenArguments,
        HatchetError,
    >)
        ensures
            match config {
                Ok(config) => res matches Ok(arguments) && arguments.server_url
                    == config.server_url && arguments.grpc_broadcast_address
                    == config.grpc_address && arguments.token == config.api_token
                    && arguments.tls_strategy@ == config.tls_strategy.named(),
                Err(e) => res matches Err(same) && same == e,
            },
    {
        match config {
            Ok(config) => Ok(
                TokenArguments {
                    server_url: config.server_url,
                    grpc_broadcast_address: config.grpc_address,
                    token: config.api_token,
                    tls_strategy: config.tls_strategy.name(),
                },
            ),
            Err(e) => Err(e),
        }
    }

    /// How to connect to the address, or the error where it does not make a URI.
    pub fn create_channel(grpc_address: &str, tls_strategy: TlsStrategy) -> (res: Result<
        ChannelPlan,
        HatchetError,
    >)
        ensures
            match uri_refusal(plan_of(grpc_address@, tls_strategy).uri) {
                Some(text) => res matches Err(e) && e@ == ErrorView::InvalidUri(text),
                None => res matches Ok(plan) && plan@ == plan_of(grpc_address@, tls_strategy),
            },
    {
        let plan = channel_plan(grpc_address, tls_strategy);
        let refusal = refusal_of_uri(plan.uri.as_str());
        checked_plan(plan, refusal)
    }

    /// The result of opening a channel as planned, where what was opened is given, or what the
    /// problem displays.
    pub fn channel_opened<C>(opened: Result<C, String>) -> (res: Result<C, HatchetError>)
        ensures
            match opened {
                Ok(channel) => res matches Ok(same) && same == channel,
                Err(text) => res matches Err(e) && e@ == ErrorView::GrpcConnect(text@),
            },
    {
        match opened {
            Ok(channel) => Ok(channel),
            Err(text) => Err(HatchetError::GrpcConnect(text)),
        }
    }

    /// A client with the token, and how to open its connection. The settings are what was made
    /// of the token and the name of the TLS strategy; a problem with them is handed on, and
    /// comes before one with the address.
    pub fn from_token(
        server_url: &str,
        grpc_broadcast_address: &str,
        config: Result<HatchetConfig, HatchetError>,
    ) -> (res: Result<Connection, HatchetError>)
        ensures
            match config {
                Err(e) => res matches Err(same) && same == e,
                Ok(config) => match uri_refusal(
                    plan_of(grpc_broadcast_address@, config.tls_strategy).uri,
                ) {
                    Some(text) => res matches Err(e) && e@ == ErrorView::InvalidUri(text),
                    None => res matches Ok(connection) && connection.channel@ == plan_of(
                        grpc_broadcast_address@,
                        config.tls_strategy,
                    ) && connection.hatchet@ == (HatchetView {
                        server_url: server_url@,
                        api_token: config.api_token@,
                        tenant_id: config.tenant_id@,
                    }),
                },
            },
    {
        let config = match config {
            Ok(config) => config,
            Err(e) => {
                return Err(e);
            },
        };
        match Self::create_channel(grpc_broadcast_address, config.tls_strategy) {
            Ok(channel) => Ok(
                Connection {
                    channel,
                    hatchet: Hatchet {
                        server_url: server_url.to_owned(),
                        api_token: config.api_token,
                        tenant_id: config.tenant_id,
                    },
                },
            ),
            Err(e) => Err(e),
        }
    }

    /// A copy of the client.
    pub fn copied(&self) -> (copy: Hatchet)
        ensures
            copy@ == self@,
    {
        Hatchet {
            server_url: self.server_url.clone(),
            api_token: self.api_token.clone(),
            tenant_id: self.tenant_id.clone(),
        }
    }

    /// The client of the event service, with the same token.
    pub fn event_client(&self) -> (client: EventClient)
        ensures
            client@ == self@.api_token,
    {
        EventClient::new(self.api_token.clone())
    }

    /// The token that authenticates the client.
    pub fn api_token(&self) -> (token: &str)
        ensures
            token@ == self@.api_token,
    {
        self.api_token.as_str()
    }

    /// The tenant whose crons and schedules are managed.
    pub fn tenant_id(&self) -> (tenant_id: &str)
        ensures
            tenant_id@ == self@.tenant_id,
    {
        self.tenant_id.as_str()
    }

    /// How the engine's REST interface is to be used: at the server's URL, with the token and
    /// no other credential.
    pub fn rest_configuration(&self) -> (configuration: RestConfiguration)
        ensures
            configuration.base_path@ == self@.server_url,
            configuration.bearer_access_token matches Some(token) && token@ == self@.api_token,
            configuration.user_agent is None,
            configuration.basic_auth is None,
            configuration.oauth_access_token is None,
            configuration.api_key is None,
    {
        RestConfiguration {
            base_path: self.server_url.clone(),
            user_agent: None,
            basic_auth: None,
            oauth_access_token: None,
            bearer_access_token: Some(self.api_token.clone()),
            api_key: None,
        }
    }

    /// The result of installing the layer for the whole process, where the reason is given for
    /// which it could not be.
    pub fn init_tracing(installed: Result<(), String>) -> (res: Result<(), HatchetError>)
        ensures
            match installed {
                Ok(()) => res is Ok,
                Err(reason) => res matches Err(e) && e@ == ErrorView::InternalError(reason@),
            },
    {
        match installed {
            Ok(()) => Ok(()),
            Err(reason) => Err(HatchetError::InternalError(reason)),
        }
    }

    /// A builder for a new workflow: a collection of tasks that a worker can execute, often
    /// forming a directed acyclic graph.
    pub fn workflow(&self, name: &str) -> (builder: WorkflowBuilder)
        ensures
            builder.name matches Some(given) && given@ == name@,
            builder.client matches Some(client) && client@ == self@,
            builder.description is None,
            builder.version is None,
            builder.on_events is None,
            builder.cron_triggers is None,
            builder.default_priority is None,
    {
        WorkflowBuilder::new().name(name.to_owned()).client(self.copied())
    }

    /// A builder for a new task: a unit of work that a worker can execute, with the function
    /// that handles it. Unless other limits are set, five minutes are allowed for scheduling the
    /// task and one minute for executing it.
    pub fn task<F>(&self, name: &str, handler: F) -> (builder: TaskBuilder<F>)
        ensures
            builder.name matches Some(given) && given@ == name@,
            builder.handler == Some(handler),
            builder.client matches Some(client) && client@ == self@,
            builder.description is None,
            builder.version is None,
            builder.on_events is None,
            builder.cron_triggers is None,
            builder.default_priority is None,
            builder.retries is None,
            builder.schedule_timeout is None,
            builder.execution_timeout is None,
            crate::runnables::timeout_or(
                builder.schedule_timeout,
                DEFAULT_SCHEDULE_TIMEOUT_SECS,
            ) == 300_000_000_000,
            crate::runnables::timeout_or(
                builder.execution_timeout,
                DEFAULT_EXECUTION_TIMEOUT_SECS,
            ) == 60_000_000_000,
    {
        TaskBuilder::new().name(name.to_owned()).handler(handler).client(self.copied())
    }

    /// A builder for a new worker: a container for tasks, which it executes once started.
    pub fn worker<E, P>(&self, name: &str) -> (builder: WorkerBuilder<E, P>)
        ensures
            builder.name matches Some(given) && given@ == name@,
            builder.client matches Some(client) && client@ == self@,
            builder.slots is None,
            builder.labels is None,
            builder.tasks is None,
            builder.workflows is None,
    {
        WorkerBuilder::new().name(name.to_owned()).client(self.copied())
    }
}

/// The URI of a plan is the address behind its scheme. The scheme and the domain of a
/// certificate go by whether the connection is encrypted.
pub proof fn law_a_plan_reaches_its_address(grpc_address: Seq<char>, tls_strategy: TlsStrategy)
    ensures
        ({
            let plan = plan_of(grpc_address, tls_strategy);
            &&& tls_strategy == TlsStrategy::Tls ==> plan.uri.take(8) == seq![
                'h',
                't',
                't',
                'p',
                's',
                ':',
                '/',
                '/',
            ] && plan.uri.skip(8) == grpc_address
            &&& tls_strategy == TlsStrategy::Plaintext ==> plan.uri.take(7) == seq![
                'h',
                't',
                't',
                'p',
                ':',
                '/',
                '/',
            ] && plan.uri.skip(7) == grpc_address
            &&& plan.tls_domain is Some <==> tls_strategy == TlsStrategy::Tls
        }),
{
    reveal_strlit("http://");
    reveal_strlit("https://");
    let plan = plan_of(grpc_address, tls_strategy);
    assert("http://"@ =~= seq!['h', 't', 't', 'p', ':', '/', '/']);
    assert("https://"@ =~= seq!['h', 't', 't', 'p', 's', ':', '/', '/']);
    if tls_strategy == TlsStrategy::Tls {
        assert(plan.uri.take(8) =~= "https://"@);
        assert(plan.uri.skip(8) =~= grpc_address);
    } else {
        assert(plan.uri.take(7) =~= "http://"@);
        assert(plan.uri.skip(7) =~= grpc_address);
    }
}

/// Every connection is kept alive, also while it is idle: the engine is asked for a sign of life
/// after ten seconds, and has a minute to answer.
pub proof fn law_every_connection_is_kept_alive(grpc_address: Seq<char>, tls_strategy: TlsStrategy)
    ensures
        plan_of(grpc_address, tls_strategy).keep_alive_interval == 10 * 1_000_000_000,
        plan_of(grpc_address, tls_strategy).keep_alive_timeout == 60 * 1_000_000_000,
        plan_of(grpc_address, tls_strategy).keep_alive_while_idle,
{
}

/// The model of a plan says what the plan says.
pub proof fn law_the_model_of_a_plan_says_what_the_plan_says(plan: ChannelPlan)
    ensures
        plan@.uri == plan.uri@,
        plan@.tls_domain is Some <==> plan.tls_domain is Some,
        plan.tls_domain matches Some(domain) ==> plan@.tls_domain == Some(domain@),
        plan@.keep_alive_interval == plan.keep_alive_interval@,
        plan@.keep_alive_timeout == plan.keep_alive_timeout@,
        plan@.keep_alive_while_idle == plan.keep_alive_while_idle,
{
}

/// A client uses the token, tenant and server that it was made with for everything that it hands
/// out, and each copy of it does too.
pub proof fn law_a_client_hands_out_its_own_settings(
    server_url: &str,
    address: &str,
    config: HatchetConfig,
    made: Result<Connection, HatchetError>,
    copy: Hatchet,
    events: EventClient,
    rest: RestConfiguration,
    token: &str,
    tenant: &str,
)
    requires
        call_ensures(Hatchet::from_token, (server_url, address, Ok(config)), made),
        made matches Ok(connection) ==> {
            &&& call_ensures(Hatchet::copied, (&connection.hatchet,), copy)
            &&& call_ensures(Hatchet::event_client, (&copy,), events)
            &&& call_ensures(Hatchet::rest_configuration, (&copy,), rest)
            &&& call_ensures(Hatchet::api_token, (&copy,), token)
            &&& call_ensures(Hatchet::tenant_id, (&copy,), tenant)
        },
    ensures
        made matches Ok(connection) ==> {
            &&& events@ == config.api_token@
            &&& token@ == config.api_token@
            &&& tenant@ == config.tenant_id@
            &&& rest.base_path@ == server_url@
            &&& rest.bearer_access_token matches Some(bearer) && bearer@ == config.api_token@
            &&& rest.basic_auth is None && rest.oauth_access_token is None && rest.api_key is None
            &&& connection.channel.tls_domain is Some <==> config.tls_strategy == TlsStrategy::Tls
        },
{
    law_a_plan_reaches_its_address(address@, config.tls_strategy);
}

/// A client that cannot be made is refused for the problem with its settings where there is one,
/// and else for an address that makes no URI; the settings of the environment are handed on as
/// they are.
pub proof fn law_why_a_client_is_refused(
    server_url: &str,
    address: &str,
    config: HatchetConfig,
    problem: HatchetError,
    made: Result<Connection, HatchetError>,
    refused: Result<Connection, HatchetError>,
    handed_on: Result<TokenArguments, HatchetError>,
)
    requires
        call_ensures(Hatchet::from_token, (server_url, address, Ok(config)), made),
        call_ensures(Hatchet::from_token, (server_url, address, Err(problem)), refused),
        call_ensures(Hatchet::from_env, (Ok(config),), handed_on),
    ensures
        refused matches Err(e) && e == problem,
        made is Err <==> uri_refusal(plan_of(address@, config.tls_strategy).uri) is Some,
        made matches Err(e) ==> e@ == ErrorView::InvalidUri(
            uri_refusal(plan_of(address@, config.tls_strategy).uri)->0,
        ),
        handed_on matches Ok(arguments) && arguments.server_url == config.server_url
            && arguments.grpc_broadcast_address == config.grpc_address && arguments.token
            == config.api_token && (arguments.tls_strategy@ == "tls"@ <==> config.tls_strategy
            == TlsStrategy::Tls),
{
    crate::config::law_strategies_have_their_documented_names(config.tls_strategy);
}

/// What a client starts to build bears the name that it was given and the client's own settings,
/// and a task the handler that it was given.
pub proof fn law_what_a_client_starts_to_build<F, E, P>(
    client: &Hatchet,
    name: &str,
    handler: F,
    workflow: WorkflowBuilder,
    task: TaskBuilder<F>,
    worker: WorkerBuilder<E, P>,
)
    requires
        call_ensures(Hatchet::workflow, (client, name), workflow),
        call_ensures(Hatchet::task::<F>, (client, name, handler), task),
        call_ensures(Hatchet::worker::<E, P>, (client, name), worker),
    ensures
        workflow.name matches Some(given) && given@ == name@,
        workflow.client matches Some(own) && own@ == client@,
        task.name matches Some(given) && given@ == name@,
        task.client matches Some(own) && own@ == client@,
        task.handler == Some(handler),
        task.schedule_timeout is None && task.execution_timeout is None && task.retries is None,
        worker.name matches Some(given) && given@ == name@,
        worker.client matches Some(own) && own@ == client@,
        worker.slots is None && worker.labels is None,
{
}

/// A channel that was opened is the one that is used, and what stands in the way of a channel or
/// of the log is told in its own words.
pub proof fn law_what_was_opened_is_used<C>(
    opened: Result<C, String>,
    res: Result<C, HatchetError>,
    installed: Result<(), String>,
    ready: Result<(), HatchetError>,
)
    requires
        call_ensures(Hatchet::channel_opened::<C>, (opened,), res),
        call_ensures(Hatchet::init_tracing, (installed,), ready),
    ensures
        res is Ok <==> opened is Ok,
        opened is Ok ==> res->Ok_0 == opened->Ok_0,
        opened is Err ==> res->Err_0@ == ErrorView::GrpcConnect(opened->Err_0@),
        ready is Ok <==> installed is Ok,
        installed is Err ==> ready->Err_0@ == ErrorView::InternalError(installed->Err_0@),
{
}

/// The plan of a channel is made for the address and the way of securing it that were asked for;
/// it is refused exactly where its address cannot be read, with the reason for that.
pub proof fn law_a_plan_is_refused_only_for_its_address(
    grpc_address: &str,
    tls_strategy: TlsStrategy,
    plan: ChannelPlan,
    refusal: Option<String>,
    checked: Result<ChannelPlan, HatchetError>,
    res: Result<ChannelPlan, HatchetError>,
)
    requires
        call_ensures(channel_plan, (grpc_address, tls_strategy), plan),
        call_ensures(checked_plan, (plan, refusal), checked),
        call_ensures(Hatchet::create_channel, (grpc_address, tls_strategy), res),
    ensures
        checked is Ok <==> refusal is None,
        refusal is None ==> checked->Ok_0 == plan,
        refusal is Some ==> checked->Err_0@ == ErrorView::InvalidUri(refusal->0@),
        res is Ok <==> uri_refusal(plan@.uri) is None,
        res is Ok ==> res->Ok_0@ == plan@,
        res is Err ==> res->Err_0@ == ErrorView::InvalidUri(uri_refusal(plan@.uri)->0),
{
}

} // verus!
