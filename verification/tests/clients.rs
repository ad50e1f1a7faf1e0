use hatchet_sdk::clients::grpc::event_client::EventClient;
use hatchet_sdk::clients::hatchet::{channel_plan, checked_plan};
use hatchet_sdk::config::{HatchetConfig, TlsStrategy};
use hatchet_sdk::duration::Duration;
use hatchet_sdk::utils::Timestamp;
use hatchet_sdk::{Hatchet, HatchetError};

fn config(tls_strategy: TlsStrategy) -> HatchetConfig {
    HatchetConfig {
        server_url: String::from("https://app.example.com"),
        grpc_address: String::from("engine.example.com:443"),
        api_token: String::from("token"),
        tls_strategy,
        tenant_id: String::from("tenant"),
    }
}

#[test]
fn a_plaintext_channel() {
    let plan = Hatchet::create_channel("localhost:7077", TlsStrategy::Plaintext).unwrap();
    assert_eq!(plan.uri, "http://localhost:7077");
    assert_eq!(plan.tls_domain, None);
    assert_eq!(plan.keep_alive_interval, Duration::from_secs(10));
    assert_eq!(plan.keep_alive_timeout, Duration::from_secs(60));
    assert!(plan.keep_alive_while_idle);
}

#[test]
fn an_encrypted_channel() {
    let plan = Hatchet::create_channel("engine.example.com:443", TlsStrategy::Tls).unwrap();
    assert_eq!(plan.uri, "https://engine.example.com:443");
    assert_eq!(plan.tls_domain, Some(String::from("engine.example.com")));
    let plan = channel_plan("engine", TlsStrategy::Tls);
    assert_eq!(plan.tls_domain, Some(String::from("engine")));
}

#[test]
fn an_address_that_makes_no_uri_is_refused() {
    let refused = Hatchet::create_channel("not an address", TlsStrategy::Plaintext).unwrap_err();
    assert_eq!(refused, HatchetError::InvalidUri(String::from("invalid uri character")));
    let empty = Hatchet::create_channel("", TlsStrategy::Tls).unwrap_err();
    assert_eq!(empty, HatchetError::InvalidUri(String::from("empty string")));
    let plan = channel_plan("a", TlsStrategy::Plaintext);
    assert_eq!(
        checked_plan(plan, Some(String::from("why"))).unwrap_err(),
        HatchetError::InvalidUri(String::from("why"))
    );
    assert!(checked_plan(channel_plan("a", TlsStrategy::Plaintext), None).is_ok());
}

#[test]
fn settings_of_the_environment_are_handed_on() {
    let arguments = Hatchet::from_env(Ok(config(TlsStrategy::Tls))).unwrap();
    assert_eq!(arguments.server_url, "https://app.example.com");
    assert_eq!(arguments.grpc_broadcast_address, "engine.example.com:443");
    assert_eq!(arguments.token, "token");
    assert_eq!(arguments.tls_strategy, "tls");
    let arguments = Hatchet::from_env(Ok(config(TlsStrategy::Plaintext))).unwrap();
    assert_eq!(arguments.tls_strategy, "none");
    let problem = || HatchetError::InternalError(String::from("no token"));
    assert_eq!(Hatchet::from_env(Err(problem())).unwrap_err(), problem());
}

#[test]
fn a_client_is_wired_with_its_token() {
    let connection = Hatchet::from_token(
        "https://given.example.com",
        "engine.example.com:443",
        Ok(config(TlsStrategy::Tls)),
    )
    .unwrap();
    assert_eq!(connection.channel.uri, "https://engine.example.com:443");
    let hatchet = connection.hatchet;
    assert_eq!(hatchet.api_token(), "token");
    assert_eq!(hatchet.tenant_id(), "tenant");
    let rest = hatchet.rest_configuration();
    assert_eq!(rest.base_path, "https://given.example.com");
    assert_eq!(rest.bearer_access_token, Some(String::from("token")));
    assert_eq!(rest.user_agent, None);
    assert_eq!(rest.oauth_access_token, None);
    assert_eq!(rest.basic_auth, None);
    assert!(rest.api_key.is_none());
}

#[test]
fn problems_with_the_settings_come_before_those_with_the_address() {
    let problem = || HatchetError::InternalError(String::from("bad token"));
    assert_eq!(Hatchet::from_token("s", "not an address", Err(problem())).unwrap_err(), problem());
    assert!(matches!(
        Hatchet::from_token("s", "not an address", Ok(config(TlsStrategy::Plaintext))),
        Err(HatchetError::InvalidUri(_))
    ));
}

#[test]
fn builders_get_the_name_and_the_client() {
    let connection =
        Hatchet::from_token("s", "localhost:1", Ok(config(TlsStrategy::Plaintext))).unwrap();
    let workflow = connection.hatchet.workflow("my-workflow");
    assert_eq!(workflow.name, Some(String::from("my-workflow")));
    assert_eq!(workflow.client.unwrap().api_token(), "token");
    let task = connection.hatchet.task("my-task", 5u8);
    assert_eq!(task.name, Some(String::from("my-task")));
    assert_eq!(task.handler, Some(5));
    assert_eq!(task.client.unwrap().tenant_id(), "tenant");
}

#[test]
fn a_log_line_is_sent_with_the_token() {
    let client = EventClient::new(String::from("token"));
    let request = client
        .put_log(
            "run",
            String::from("hello"),
            Some(String::from("INFO")),
            String::from("{}"),
            Some(2),
            Some(Duration::from_secs(9)),
        )
        .ok()
        .unwrap();
    assert_eq!(request.message.task_run_external_id, "run");
    assert_eq!(request.message.created_at, Some(Timestamp { seconds: 9, nanos: 0 }));
    assert_eq!(request.message.message, "hello");
    assert_eq!(request.message.level, Some(String::from("INFO")));
    assert_eq!(request.message.metadata, "{}");
    assert_eq!(request.message.task_retry_count, Some(2));
    assert_eq!(request.metadata.len(), 1);
    assert_eq!(request.metadata.get("authorization").unwrap().to_str().unwrap(), "Bearer token");
}

#[test]
fn a_chunk_is_sent_with_the_token() {
    let client = EventClient::new(String::from("token"));
    let request = client
        .put_stream_event("run", vec![1, 2], Some(3), Some(Duration::from_secs(9)))
        .ok()
        .unwrap();
    assert_eq!(request.message.task_run_external_id, "run");
    assert_eq!(request.message.created_at, Some(Timestamp { seconds: 9, nanos: 0 }));
    assert_eq!(request.message.message, [1, 2]);
    assert_eq!(request.message.metadata, "");
    assert_eq!(request.message.event_index, Some(3));
    assert_eq!(request.metadata.get("authorization").unwrap().to_str().unwrap(), "Bearer token");
}

#[test]
fn nothing_is_sent_without_a_clock_or_a_token_that_can_be_sent() {
    let client = EventClient::new(String::from("to\nken"));
    let refused = client.put_stream_event("run", vec![], None, Some(Duration::from_secs(9)));
    assert_eq!(
        refused.err(),
        Some(HatchetError::InvalidAuthHeader(String::from("failed to parse metadata value")))
    );
    let clockless = client.put_log("run", String::new(), None, String::new(), None, None);
    assert_eq!(clockless.err(), Some(HatchetError::SystemTimeError));
}

#[test]
fn what_the_engine_answers_is_handed_on() {
    assert_eq!(EventClient::answered(Ok(())), Ok(()));
    assert_eq!(
        EventClient::answered(Err(String::from("unavailable"))),
        Err(HatchetError::GrpcErrorStatus(String::from("unavailable")))
    );
    assert_eq!(Hatchet::channel_opened(Ok(7u8)), Ok(7));
    assert_eq!(
        Hatchet::channel_opened::<u8>(Err(String::from("transport error"))),
        Err(HatchetError::GrpcConnect(String::from("transport error")))
    );
    assert_eq!(Hatchet::init_tracing(Ok(())), Ok(()));
    assert_eq!(
        Hatchet::init_tracing(Err(String::from("already set"))),
        Err(HatchetError::InternalError(String::from("already set")))
    );
}
