use pact_consumer_nif::builders::interaction_builder;
use pact_consumer_nif::builders::pact_builder;
use pact_consumer_nif::builders::request_builder;
use pact_consumer_nif::builders::response_builder;
use pact_consumer_nif::error::ErrorKind;
use pact_consumer_nif::json::JsonValue;
use pact_consumer_nif::mock_server::{
    is_idle, path, receiving_result, release_result, sending_result, start, state, stop, unsent_request, url,
    worker_step, Command,
    CommandChannel, LiveServer, NifValidatingMockServer, PathAnswer, ResponseChannel, WorkerAction, WorkerEvent,
    WorkerState,
};
use pact_consumer_nif::models::interaction::InteractionResource;
use pact_consumer_nif::models::v4::http_parts::Body;
use pact_consumer_nif::patterns::{JsonObjectKey, NifJsonMatcher, NifJsonPattern};

fn live() -> LiveServer {
    LiveServer {
        url: "http://127.0.0.1:4321/".to_string(),
        paths: vec![
            PathAnswer { suffix: "/orders".to_string(), url: "http://127.0.0.1:4321/orders".to_string() },
            PathAnswer { suffix: "orders/1".to_string(), url: "http://127.0.0.1:4321/orders/1".to_string() },
            PathAnswer { suffix: "/orders".to_string(), url: "http://127.0.0.1:4321/other".to_string() },
        ],
    }
}

fn started(server: Option<LiveServer>) -> NifValidatingMockServer {
    start(&pact_builder::new_v4("consumer".to_string(), "provider".to_string()), server)
}

#[test]
fn the_url_is_the_same_each_time_until_the_server_is_stopped() {
    let mut server = started(Some(live()));
    assert_eq!(state(&server), WorkerState::Starting);
    let first = url(&mut server).unwrap();
    let second = url(&mut server).unwrap();
    assert_eq!(first, "http://127.0.0.1:4321/");
    assert_eq!(first, second);
    assert_eq!(state(&server), WorkerState::Running);
    assert!(stop(&mut server).is_ok());
    assert_eq!(state(&server), WorkerState::Stopped);
    let error = url(&mut server).unwrap_err();
    assert_eq!(error.kind(), ErrorKind::ChannelClosed);
    assert_eq!(error.detail, "unable_send_command");
    assert_eq!(path(&mut server, "/orders".to_string()).unwrap_err().kind(), ErrorKind::ChannelClosed);
    assert!(is_idle(&server));
}

#[test]
fn stopping_twice_is_safe() {
    let mut server = started(Some(live()));
    assert!(stop(&mut server).is_ok());
    assert!(stop(&mut server).is_ok());
    assert_eq!(state(&server), WorkerState::Stopped);
    assert!(is_idle(&server));

    let mut failed = started(None);
    assert!(stop(&mut failed).is_ok());
    assert!(stop(&mut failed).is_ok());
    assert_eq!(state(&failed), WorkerState::Stopped);
}

#[test]
fn a_path_is_placed_under_the_url_of_the_server() {
    let mut server = started(Some(live()));
    assert_eq!(path(&mut server, "/orders".to_string()).unwrap(), "http://127.0.0.1:4321/orders");
    assert_eq!(path(&mut server, "orders/1".to_string()).unwrap(), "http://127.0.0.1:4321/orders/1");
    assert_eq!(url(&mut server).unwrap(), "http://127.0.0.1:4321/");
    assert_eq!(state(&server), WorkerState::Running);
    assert!(is_idle(&server));
}

#[test]
fn a_path_the_server_fails_on_takes_the_worker_down() {
    let mut server = started(Some(live()));
    let error = path(&mut server, "//".to_string()).unwrap_err();
    assert_eq!(error.kind(), ErrorKind::ServerUnavailable);
    assert_eq!(error.detail, "unable_receive_response");
    assert_eq!(state(&server), WorkerState::Stopped);
    let error = url(&mut server).unwrap_err();
    assert_eq!(error.kind(), ErrorKind::ServerUnavailable);
    assert_eq!(error.detail, "unable_send_command");
    assert_eq!(path(&mut server, "/orders".to_string()).unwrap_err().kind(), ErrorKind::ServerUnavailable);
    assert!(stop(&mut server).is_ok());
    assert_eq!(url(&mut server).unwrap_err().kind(), ErrorKind::ChannelClosed);
}

#[test]
fn a_server_that_does_not_come_up_answers_nothing() {
    let mut server = started(None);
    assert_eq!(state(&server), WorkerState::Starting);
    assert!(is_idle(&server));
    let error = url(&mut server).unwrap_err();
    assert_eq!(error.kind(), ErrorKind::ServerUnavailable);
    assert_eq!(state(&server), WorkerState::Stopped);
    for _ in 0..3 {
        assert_eq!(url(&mut server).unwrap_err().kind(), ErrorKind::ServerUnavailable);
        assert_eq!(path(&mut server, "/orders".to_string()).unwrap_err().kind(), ErrorKind::ServerUnavailable);
    }
    assert!(is_idle(&server));
    assert!(stop(&mut server).is_ok());
    assert_eq!(url(&mut server).unwrap_err().kind(), ErrorKind::ChannelClosed);
    assert!(is_idle(&server));
}

#[test]
fn the_worker_decides_by_its_state_and_what_happened() {
    let step = |state: WorkerState, event: WorkerEvent| {
        let (next, action) = worker_step(state, event);
        (next, format!("{:?}", action))
    };
    let exit = || (WorkerState::Stopped, "Exit".to_string());
    assert_eq!(step(WorkerState::Starting, WorkerEvent::Started), (WorkerState::Running, "Receive".to_string()));
    assert_eq!(step(WorkerState::Starting, WorkerEvent::StartFailed), exit());
    assert_eq!(step(WorkerState::Starting, WorkerEvent::Received(Command::Url)), exit());
    assert_eq!(
        step(WorkerState::Running, WorkerEvent::Received(Command::Url)),
        (WorkerState::Running, "AnswerUrl".to_string())
    );
    assert_eq!(
        step(WorkerState::Running, WorkerEvent::Received(Command::Path("/a".to_string()))),
        (WorkerState::Running, "AnswerPath(\"/a\")".to_string())
    );
    assert_eq!(step(WorkerState::Running, WorkerEvent::Received(Command::Stop)), exit());
    assert_eq!(step(WorkerState::Running, WorkerEvent::Sent), (WorkerState::Running, "Receive".to_string()));
    assert_eq!(step(WorkerState::Running, WorkerEvent::Disconnected), exit());
    assert_eq!(step(WorkerState::Running, WorkerEvent::Started), exit());
    assert_eq!(step(WorkerState::Stopped, WorkerEvent::Started), exit());
    assert_eq!(step(WorkerState::Stopped, WorkerEvent::Received(Command::Url)), exit());
    assert_eq!(step(WorkerState::Stopped, WorkerEvent::Sent), exit());
    assert!(matches!(
        worker_step(WorkerState::Running, WorkerEvent::Received(Command::Path("x".to_string()))).1,
        WorkerAction::AnswerPath(suffix) if suffix == "x"
    ));
}

#[test]
fn a_send_that_fails_means_the_channel_is_closed() {
    assert!(sending_result(true).is_ok());
    let error = sending_result(false).unwrap_err();
    assert_eq!(error.kind(), ErrorKind::ChannelClosed);
    assert_eq!(error.detail, "unable_send_command");
    assert!(release_result(true).is_ok());
    assert!(release_result(false).is_ok());
}

#[test]
fn a_request_that_cannot_be_sent_fails_by_the_way_the_worker_stopped() {
    let released = unsent_request(true);
    assert_eq!(released.kind(), ErrorKind::ChannelClosed);
    assert_eq!(released.detail, "unable_send_command");
    let gone = unsent_request(false);
    assert_eq!(gone.kind(), ErrorKind::ServerUnavailable);
    assert_eq!(gone.detail, "unable_send_command");
}

#[test]
fn a_missing_answer_means_the_server_is_unavailable() {
    assert_eq!(receiving_result(Some("http://x/".to_string())).unwrap(), "http://x/");
    let error = receiving_result(None).unwrap_err();
    assert_eq!(error.kind(), ErrorKind::ServerUnavailable);
    assert_eq!(error.detail, "unable_receive_response");
}

#[test]
fn a_queue_holds_one_entry_and_fails_once_its_other_end_is_gone() {
    let mut commands = CommandChannel::new();
    assert!(commands.receive().is_none());
    commands.send(Command::Path("/a".to_string())).unwrap();
    assert!(matches!(commands.receive(), Some(Command::Path(suffix)) if suffix == "/a"));
    assert!(commands.receive().is_none());
    commands.send(Command::Url).unwrap();
    commands.disconnect();
    assert!(commands.receive().is_none());
    assert_eq!(commands.send(Command::Stop).unwrap_err().kind(), ErrorKind::ChannelClosed);
    assert!(commands.receive().is_none());

    let mut responses = ResponseChannel::new();
    responses.send("one".to_string());
    assert_eq!(responses.receive().unwrap(), "one");
    responses.send("two".to_string());
    responses.disconnect();
    assert_eq!(responses.receive().unwrap(), "two");
    assert_eq!(responses.receive().unwrap_err().kind(), ErrorKind::ServerUnavailable);
}

#[test]
fn the_server_finds_a_path_at_its_first_answer() {
    let server = live();
    assert_eq!(server.resolve(&"/orders".to_string()).as_deref(), Some("http://127.0.0.1:4321/orders"));
    assert_eq!(server.resolve(&"orders/1".to_string()).as_deref(), Some("http://127.0.0.1:4321/orders/1"));
    assert!(server.resolve(&"/".to_string()).is_none());
}

#[test]
fn a_created_order_accepts_a_number_for_its_quantity_and_rejects_a_word() {
    let body = NifJsonPattern::Object(vec![(
        JsonObjectKey("qty".to_string()),
        NifJsonPattern::Matcher(NifJsonMatcher::Like(Box::new(NifJsonPattern::Number(1f64.to_bits())))),
    )]);
    let mut interaction = interaction_builder::new("create order".to_string(), String::new());
    request_builder::post(&mut interaction.request);
    request_builder::json_body(&mut interaction.request, body).unwrap();
    response_builder::status(&mut interaction.response, 201);

    let mut pact = pact_builder::new_v4("shop".to_string(), "orders".to_string());
    pact_builder::push_interaction(&mut pact, &interaction_builder::build_v4(&interaction)).unwrap();
    let mut server = started(Some(live()));
    assert_eq!(url(&mut server).unwrap(), "http://127.0.0.1:4321/");

    let (description, request, response) = match &pact.interactions[0].inner {
        InteractionResource::SynchronousHttp { description, request, response, .. } => {
            (description, request, response)
        }
        other => panic!("not a request and response: {:?}", other),
    };
    assert_eq!(description, "create order");
    assert_eq!(response.status, 201);
    let rule = match &request.body {
        Body::Json(pattern) => pattern.to_match_rule().unwrap(),
        other => panic!("not a JSON body: {:?}", other),
    };
    let order = |qty: JsonValue| JsonValue::Object(vec![("qty".to_string(), qty)]);
    assert!(rule.rule.accepts(&order(JsonValue::Number(7f64.to_bits()))).is_accepted());
    assert!(rule.rule.accepts(&order(JsonValue::String("seven".to_string()))).is_rejected());
    assert!(rule.example.same_as(&order(JsonValue::Number(1f64.to_bits()))));
    assert!(stop(&mut server).is_ok());
}
