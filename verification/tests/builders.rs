use pact_consumer_nif::builders::interaction_builder;
use pact_consumer_nif::builders::message_builder;
use pact_consumer_nif::builders::pact_builder;
use pact_consumer_nif::builders::request_builder;
use pact_consumer_nif::builders::response_builder;
use pact_consumer_nif::builders::{check_content_type, check_contents, check_json, resolution_result, Resolution};
use pact_consumer_nif::error::ErrorKind;
use pact_consumer_nif::json::JsonValue;
use pact_consumer_nif::models::interaction::{InteractionResource, NifInteraction};
use pact_consumer_nif::models::v4::async_message::{bytes, MessageContents};
use pact_consumer_nif::models::v4::http_parts::{header_values, query_values, Body};
use pact_consumer_nif::patterns::{
    JsonObjectKey, NifJsonMatcher, NifJsonPattern, NifStringMatcher, NifStringPattern,
};

fn shown<T: std::fmt::Debug>(value: &T) -> String {
    format!("{:?}", value)
}

fn string_regex(regex: &str, example: &str) -> NifStringPattern {
    NifStringPattern::Matcher(NifStringMatcher::MatchingRegex {
        regex: regex.to_string(),
        example: example.to_string(),
    })
}

fn literal(text: &str) -> NifStringPattern {
    NifStringPattern::String(text.to_string())
}

fn qty_pattern() -> NifJsonPattern {
    NifJsonPattern::Object(vec![(
        JsonObjectKey("qty".to_string()),
        NifJsonPattern::Matcher(NifJsonMatcher::Like(Box::new(NifJsonPattern::Number(1f64.to_bits())))),
    )])
}

fn message(description: &str) -> NifInteraction {
    message_builder::build(&message_builder::new(description.to_string()))
}

fn http(description: &str) -> NifInteraction {
    interaction_builder::build_v4(&interaction_builder::new(description.to_string(), String::new()))
}

#[test]
fn a_new_request_is_get_slash_without_anything_else() {
    let builder = request_builder::default();
    assert_eq!(builder.request.method, "GET");
    assert_eq!(shown(&builder.request.path), shown(&literal("/")));
    assert!(builder.request.path_expression.is_none());
    assert!(builder.request.query.is_empty());
    assert!(builder.request.headers.is_empty());
    assert!(matches!(builder.request.body, Body::Missing));
}

#[test]
fn the_method_is_what_was_set_last() {
    let mut builder = request_builder::default();
    request_builder::post(&mut builder);
    assert_eq!(builder.request.method, "POST");
    request_builder::put(&mut builder);
    assert_eq!(builder.request.method, "PUT");
    request_builder::delete(&mut builder);
    assert_eq!(builder.request.method, "DELETE");
    request_builder::get(&mut builder);
    assert_eq!(builder.request.method, "GET");
    request_builder::method(&mut builder, "PATCH".to_string());
    assert_eq!(builder.request.method, "PATCH");
    assert_eq!(shown(&builder.request.path), shown(&literal("/")));
}

#[test]
fn the_path_can_come_from_the_provider_state() {
    let mut builder = request_builder::default();
    request_builder::path(&mut builder, "/orders".to_string());
    assert_eq!(shown(&builder.request.path), shown(&literal("/orders")));
    assert!(builder.request.path_expression.is_none());
    request_builder::path_from_provider_state(&mut builder, "/orders/${id}".to_string(), "/orders/1".to_string());
    assert_eq!(shown(&builder.request.path), shown(&literal("/orders/1")));
    assert_eq!(builder.request.path_expression.as_deref(), Some("/orders/${id}"));
}

#[test]
fn query_parameters_and_headers_keep_the_order_they_were_added_in() {
    let mut builder = request_builder::default();
    request_builder::query_param(&mut builder, "page".to_string(), "1".to_string());
    request_builder::query_param(&mut builder, "tag".to_string(), "a".to_string());
    request_builder::query_param(&mut builder, "tag".to_string(), "b".to_string());
    let query: Vec<(&str, &str)> =
        builder.request.query.iter().map(|p| (p.key.as_str(), p.value.as_str())).collect();
    assert_eq!(query, vec![("page", "1"), ("tag", "a"), ("tag", "b")]);

    request_builder::header(&mut builder, "Accept".to_string(), literal("text/plain")).unwrap();
    request_builder::header_from_provider_state(
        &mut builder,
        "Authorization".to_string(),
        "token".to_string(),
        string_regex("^Bearer ", "Bearer x"),
    )
    .unwrap();
    request_builder::content_type(&mut builder, "application/json".to_string());
    request_builder::html(&mut builder);
    request_builder::json_utf8(&mut builder);
    let names: Vec<&str> = builder.request.headers.iter().map(|h| h.name.as_str()).collect();
    assert_eq!(names, vec!["Accept", "Authorization", "content-type", "content-type", "content-type"]);
    assert!(builder.request.headers[0].expression.is_none());
    assert_eq!(builder.request.headers[1].expression.as_deref(), Some("token"));
    assert_eq!(shown(&builder.request.headers[2].value), shown(&literal("application/json")));
    assert_eq!(shown(&builder.request.headers[3].value), shown(&literal("text/html")));
    assert_eq!(
        shown(&builder.request.headers[4].value),
        shown(&string_regex("^application/json; charset=(utf|UTF)-8$", "application/json; charset=utf-8"))
    );
}

#[test]
fn the_json_utf8_header_accepts_both_spellings_of_the_character_set() {
    let mut builder = response_builder::default();
    response_builder::json_utf8(&mut builder);
    let parts = builder.response.headers[0].value.to_match_rule().unwrap();
    assert!(parts.accepts_own_example().is_accepted());
    assert!(parts.rule.accepts(&JsonValue::String("application/json; charset=UTF-8".to_string())).is_accepted());
    assert!(parts.rule.accepts(&JsonValue::String("application/json".to_string())).is_rejected());
}

#[test]
fn a_header_with_an_invalid_regex_is_refused_and_changes_nothing() {
    let mut builder = request_builder::default();
    request_builder::header(&mut builder, "Accept".to_string(), literal("text/plain")).unwrap();
    let before = shown(&builder);
    let error = request_builder::header(&mut builder, "X".to_string(), string_regex("(", "x")).unwrap_err();
    assert_eq!(error.kind(), ErrorKind::InvalidPattern);
    assert_eq!(error.detail, "(");
    assert_eq!(shown(&builder), before);
    let error = request_builder::header_from_provider_state(
        &mut builder,
        "X".to_string(),
        "x".to_string(),
        string_regex("[", "x"),
    )
    .unwrap_err();
    assert_eq!(error.kind(), ErrorKind::InvalidPattern);
    assert_eq!(shown(&builder), before);
}

#[test]
fn setting_a_body_replaces_the_body_that_was_there() {
    let mut builder = request_builder::default();
    request_builder::body(&mut builder, "Hello".to_string());
    assert!(matches!(&builder.request.body, Body::Text { text, content_type: None } if text == "Hello"));
    request_builder::body2(&mut builder, "<a/>".to_string(), "application/xml".to_string()).unwrap();
    assert!(matches!(
        &builder.request.body,
        Body::Text { text, content_type: Some(content_type) } if text == "<a/>" && content_type == "application/xml"
    ));
    request_builder::json_body(&mut builder, qty_pattern()).unwrap();
    assert!(matches!(&builder.request.body, Body::Json(pattern) if shown(pattern) == shown(&qty_pattern())));
    request_builder::body_matching(&mut builder, string_regex("^(True|False)$", "True")).unwrap();
    assert!(matches!(&builder.request.body, Body::Matching { content_type: None, .. }));
    request_builder::body_matching2(&mut builder, literal("a,b"), "text/csv".to_string()).unwrap();
    assert!(matches!(
        &builder.request.body,
        Body::Matching { pattern, content_type: Some(content_type) }
            if shown(pattern) == shown(&literal("a,b")) && content_type == "text/csv"
    ));
    assert_eq!(builder.request.method, "GET");
}

#[test]
fn a_body_that_fails_its_checks_is_refused_and_the_old_body_stays() {
    let mut builder = request_builder::default();
    request_builder::body(&mut builder, "Hello".to_string());
    let before = shown(&builder);

    let error = request_builder::body2(&mut builder, "x".to_string(), "not a content type".to_string()).unwrap_err();
    assert_eq!(error.kind(), ErrorKind::InvalidArgument);
    assert_eq!(error.detail, "not a content type");
    assert_eq!(shown(&builder), before);

    let invalid = NifJsonPattern::Array(vec![NifJsonPattern::Matcher(NifJsonMatcher::MatchingRegex {
        regex: "+".to_string(),
        example: "x".to_string(),
    })]);
    let error = request_builder::json_body(&mut builder, invalid).unwrap_err();
    assert_eq!(error.kind(), ErrorKind::InvalidPattern);
    assert_eq!(error.detail, "+");
    assert_eq!(shown(&builder), before);

    let error = request_builder::body_matching(&mut builder, string_regex("(", "x")).unwrap_err();
    assert_eq!(error.kind(), ErrorKind::InvalidPattern);
    assert_eq!(shown(&builder), before);

    let error =
        request_builder::body_matching2(&mut builder, string_regex("(", "x"), "no type".to_string()).unwrap_err();
    assert_eq!(error.kind(), ErrorKind::InvalidPattern);
    let error = request_builder::body_matching2(&mut builder, literal("x"), "no type".to_string()).unwrap_err();
    assert_eq!(error.kind(), ErrorKind::InvalidArgument);
    assert_eq!(error.detail, "no type");
    assert_eq!(shown(&builder), before);
}

#[test]
fn a_request_is_built_the_same_in_both_representations() {
    let mut builder = request_builder::default();
    request_builder::post(&mut builder);
    request_builder::path(&mut builder, "/orders".to_string());
    request_builder::json_body(&mut builder, qty_pattern()).unwrap();
    let legacy = request_builder::build(&builder);
    let extended = request_builder::build_v4(&builder);
    assert_eq!(shown(&legacy.inner), shown(&builder.request));
    assert_eq!(shown(&extended), shown(&builder.request));
    assert_eq!(shown(&request_builder::build(&builder)), shown(&legacy));
}

#[test]
fn a_new_response_has_status_200_and_nothing_else() {
    let builder = response_builder::default();
    assert_eq!(builder.response.status, 200);
    assert!(builder.response.headers.is_empty());
    assert!(matches!(builder.response.body, Body::Missing));
}

#[test]
fn the_status_is_what_was_set_last() {
    let mut builder = response_builder::default();
    response_builder::created(&mut builder);
    assert_eq!(builder.response.status, 201);
    response_builder::no_content(&mut builder);
    assert_eq!(builder.response.status, 204);
    response_builder::forbidden(&mut builder);
    assert_eq!(builder.response.status, 403);
    response_builder::not_found(&mut builder);
    assert_eq!(builder.response.status, 404);
    response_builder::ok(&mut builder);
    assert_eq!(builder.response.status, 200);
    response_builder::status(&mut builder, 418);
    assert_eq!(builder.response.status, 418);
}

#[test]
fn a_response_takes_headers_and_bodies_like_a_request() {
    let mut builder = response_builder::default();
    response_builder::header(&mut builder, "Location".to_string(), string_regex("^/orders/[0-9]+$", "/orders/1"))
        .unwrap();
    response_builder::header_from_provider_state(
        &mut builder,
        "ETag".to_string(),
        "etag".to_string(),
        literal("abc"),
    )
    .unwrap();
    response_builder::content_type(&mut builder, "text/plain".to_string());
    response_builder::html(&mut builder);
    let names: Vec<&str> = builder.response.headers.iter().map(|h| h.name.as_str()).collect();
    assert_eq!(names, vec!["Location", "ETag", "content-type", "content-type"]);
    assert!(response_builder::header(&mut builder, "X".to_string(), string_regex("(", "x")).is_err());
    assert_eq!(builder.response.headers.len(), 4);

    response_builder::body(&mut builder, "Hello".to_string());
    assert!(matches!(&builder.response.body, Body::Text { text, content_type: None } if text == "Hello"));
    response_builder::body2(&mut builder, "Hello".to_string(), "text/plain".to_string()).unwrap();
    assert!(matches!(&builder.response.body, Body::Text { content_type: Some(t), .. } if t == "text/plain"));
    assert!(response_builder::body2(&mut builder, "Hello".to_string(), "/".to_string()).is_err());
    response_builder::json_body(&mut builder, "text".to_string());
    assert!(matches!(
        &builder.response.body,
        Body::Json(pattern) if shown(pattern) == shown(&NifJsonPattern::String("text".to_string()))
    ));
    response_builder::body_matching(&mut builder, "text".to_string());
    assert!(matches!(
        &builder.response.body,
        Body::Matching { pattern, content_type: None } if shown(pattern) == shown(&literal("text"))
    ));
    response_builder::body_matching2(&mut builder, "a,b".to_string(), "text/csv".to_string()).unwrap();
    assert!(matches!(&builder.response.body, Body::Matching { content_type: Some(t), .. } if t == "text/csv"));
    let before = shown(&builder);
    let error = response_builder::body_matching2(&mut builder, "a,b".to_string(), "csv".to_string()).unwrap_err();
    assert_eq!(error.kind(), ErrorKind::InvalidArgument);
    assert_eq!(error.detail, "csv");
    assert_eq!(shown(&builder), before);
    assert_eq!(shown(&response_builder::build(&builder).inner), shown(&response_builder::build_v4(&builder)));
}

#[test]
fn contents_are_taken_down_once_they_are_checked_and_the_generator_has_made_them() {
    let mut builder = response_builder::default();
    response_builder::contents(
        &mut builder,
        "application/protobuf".to_string(),
        "{\"name\": \"x\"}".to_string(),
        Resolution::Resolved,
    )
    .unwrap();
    assert!(matches!(
        &builder.response.body,
        Body::Contents { content_type, definition }
            if content_type == "application/protobuf" && definition == "{\"name\": \"x\"}"
    ));
    let before = shown(&builder);

    let error = response_builder::contents(
        &mut builder,
        "application/json".to_string(),
        "{name".to_string(),
        Resolution::Resolved,
    )
    .unwrap_err();
    assert_eq!(error.kind(), ErrorKind::InvalidDefinition);
    assert_eq!(error.detail, "{name");
    assert_eq!(shown(&builder), before);

    let error =
        response_builder::contents(&mut builder, "json".to_string(), "{}".to_string(), Resolution::Resolved)
            .unwrap_err();
    assert_eq!(error.kind(), ErrorKind::InvalidArgument);
    assert_eq!(error.detail, "json");
    assert_eq!(shown(&builder), before);

    let error = response_builder::contents(
        &mut builder,
        "json".to_string(),
        "{".to_string(),
        Resolution::Failed("never asked".to_string()),
    )
    .unwrap_err();
    assert_eq!(error.kind(), ErrorKind::InvalidDefinition);
    assert_eq!(shown(&builder), before);
}

#[test]
fn what_the_content_generator_reports_reaches_the_caller_and_changes_nothing() {
    let mut builder = response_builder::default();
    response_builder::body(&mut builder, "Hello".to_string());
    let before = shown(&builder);

    let error = response_builder::contents(
        &mut builder,
        "application/protobuf".to_string(),
        "{}".to_string(),
        Resolution::UnknownContentType,
    )
    .unwrap_err();
    assert_eq!(error.kind(), ErrorKind::UnknownContentType);
    assert_eq!(error.detail, "application/protobuf");
    assert_eq!(shown(&builder), before);

    let error = response_builder::contents(
        &mut builder,
        "application/protobuf".to_string(),
        "{}".to_string(),
        Resolution::Failed("no descriptor".to_string()),
    )
    .unwrap_err();
    assert_eq!(error.kind(), ErrorKind::PluginFailure);
    assert_eq!(error.detail, "no descriptor");
    assert_eq!(shown(&builder), before);

    let error = response_builder::contents_resolved(
        &mut builder,
        "text/csv".to_string(),
        "\"a,b\"".to_string(),
        Resolution::UnknownContentType,
    )
    .unwrap_err();
    assert_eq!(error.kind(), ErrorKind::UnknownContentType);
    assert_eq!(error.detail, "text/csv");
    assert_eq!(shown(&builder), before);

    let error = response_builder::contents_resolved(
        &mut builder,
        "text/csv".to_string(),
        "\"a,b\"".to_string(),
        Resolution::Failed("boom".to_string()),
    )
    .unwrap_err();
    assert_eq!(error.kind(), ErrorKind::PluginFailure);
    assert_eq!(error.detail, "boom");
    assert_eq!(shown(&builder), before);

    response_builder::contents_resolved(
        &mut builder,
        "text/csv".to_string(),
        "\"a,b\"".to_string(),
        Resolution::Resolved,
    )
    .unwrap();
    assert!(matches!(
        &builder.response.body,
        Body::Contents { content_type, definition } if content_type == "text/csv" && definition == "\"a,b\""
    ));
    assert_eq!(builder.response.status, 200);
}

#[test]
fn checks_of_text_say_what_is_wrong_with_it() {
    assert!(check_content_type(&"application/json; charset=utf-8".to_string()).is_ok());
    assert!(check_content_type(&"text/plain".to_string()).is_ok());
    assert_eq!(check_content_type(&"".to_string()).unwrap_err().kind(), ErrorKind::InvalidArgument);
    assert_eq!(check_content_type(&"text".to_string()).unwrap_err().detail, "text");

    assert!(check_json(&"{\"a\": [1, 2.5, null, true, \"x\"]}".to_string(), ErrorKind::InvalidArgument).is_ok());
    assert!(check_json(&"7".to_string(), ErrorKind::InvalidArgument).is_ok());
    let error = check_json(&"{\"a\": }".to_string(), ErrorKind::InvalidArgument).unwrap_err();
    assert_eq!(error.kind(), ErrorKind::InvalidArgument);
    assert_eq!(error.detail, "{\"a\": }");
    assert_eq!(check_json(&"".to_string(), ErrorKind::InvalidDefinition).unwrap_err().kind(), ErrorKind::InvalidDefinition);

    assert!(check_contents(&"text/plain".to_string(), &"\"x\"".to_string()).is_ok());
}

#[test]
fn what_the_content_generator_reports_is_surfaced_as_it_is() {
    let content_type = "application/protobuf".to_string();
    assert!(resolution_result(&content_type, Resolution::Resolved).is_ok());
    let error = resolution_result(&content_type, Resolution::UnknownContentType).unwrap_err();
    assert_eq!(error.kind(), ErrorKind::UnknownContentType);
    assert_eq!(error.detail, "application/protobuf");
    let error = resolution_result(&content_type, Resolution::Failed("no descriptor".to_string())).unwrap_err();
    assert_eq!(error.kind(), ErrorKind::PluginFailure);
    assert_eq!(error.detail, "no descriptor");
}

#[test]
fn a_new_interaction_holds_its_description_and_the_default_request_and_response() {
    let builder = interaction_builder::new("create order".to_string(), "http".to_string());
    assert_eq!(builder.description, "create order");
    assert_eq!(builder.interaction_type, "http");
    assert!(builder.provider_states.is_empty());
    assert!(builder.comments.is_empty());
    assert!(builder.test_name.is_none() && builder.key.is_none() && builder.transport.is_none());
    assert!(builder.pending.is_none());
    assert_eq!(shown(&builder.request), shown(&request_builder::default()));
    assert_eq!(shown(&builder.response), shown(&response_builder::default()));
}

#[test]
fn provider_states_keep_the_order_they_were_given_in() {
    let mut builder = interaction_builder::new("i".to_string(), String::new());
    interaction_builder::given(&mut builder, "an order exists".to_string());
    interaction_builder::given_with_params(&mut builder, "a user".to_string(), "{\"id\": 7}".to_string()).unwrap();
    interaction_builder::given(&mut builder, "stock is low".to_string());
    let states: Vec<(&str, Option<&str>)> =
        builder.provider_states.iter().map(|s| (s.name.as_str(), s.params.as_deref())).collect();
    assert_eq!(
        states,
        vec![("an order exists", None), ("a user", Some("{\"id\": 7}")), ("stock is low", None)]
    );
}

#[test]
fn parameters_that_are_not_json_are_refused_and_change_nothing() {
    let mut builder = interaction_builder::new("i".to_string(), String::new());
    interaction_builder::given(&mut builder, "an order exists".to_string());
    let before = shown(&builder);
    let error =
        interaction_builder::given_with_params(&mut builder, "a user".to_string(), "{id: 7".to_string()).unwrap_err();
    assert_eq!(error.kind(), ErrorKind::InvalidArgument);
    assert_eq!(error.detail, "{id: 7");
    assert_eq!(shown(&builder), before);

    let mut message = message_builder::new("m".to_string());
    let before = shown(&message);
    let error = message_builder::given_with_params(&mut message, "a user".to_string(), "nope".to_string()).unwrap_err();
    assert_eq!(error.kind(), ErrorKind::InvalidArgument);
    assert_eq!(shown(&message), before);
}

#[test]
fn an_interaction_takes_request_and_response_as_their_builders_hold_them() {
    let mut request = request_builder::default();
    request_builder::post(&mut request);
    let mut response = response_builder::default();
    response_builder::created(&mut response);
    let mut builder = interaction_builder::new("create order".to_string(), String::new());
    interaction_builder::request(&mut builder, &request);
    interaction_builder::response(&mut builder, &response);
    request_builder::delete(&mut request);
    response_builder::not_found(&mut response);
    assert_eq!(builder.request.request.method, "POST");
    assert_eq!(builder.response.response.status, 201);
}

#[test]
fn building_twice_gives_the_same_interaction_and_leaves_the_builder_alone() {
    let mut builder = interaction_builder::new("create order".to_string(), String::new());
    interaction_builder::given(&mut builder, "stock".to_string());
    interaction_builder::with_key(&mut builder, "k1".to_string());
    interaction_builder::comment(&mut builder, "first".to_string());
    request_builder::json_body(&mut builder.request, qty_pattern()).unwrap();
    let before = shown(&builder);
    let first = interaction_builder::build(&builder);
    let second = interaction_builder::build(&builder);
    assert_eq!(shown(&first), shown(&second));
    let third = interaction_builder::build_v4(&builder);
    let fourth = interaction_builder::build_v4(&builder);
    assert_eq!(shown(&third), shown(&fourth));
    assert_eq!(shown(&builder), before);

    interaction_builder::comment(&mut builder, "second".to_string());
    assert_eq!(shown(&interaction_builder::build(&builder)), shown(&first));
    assert_ne!(shown(&interaction_builder::build_v4(&builder)), shown(&third));
}

#[test]
fn the_legacy_representation_leaves_out_what_it_has_no_place_for() {
    let mut builder = interaction_builder::new("create order".to_string(), String::new());
    interaction_builder::given(&mut builder, "stock".to_string());
    interaction_builder::with_key(&mut builder, "k1".to_string());
    interaction_builder::pending(&mut builder, true);
    interaction_builder::comment(&mut builder, "a".to_string());
    interaction_builder::comment(&mut builder, "b".to_string());
    interaction_builder::test_name(&mut builder, "orders_test".to_string());
    interaction_builder::transport(&mut builder, "https".to_string());
    response_builder::created(&mut builder.response);

    match interaction_builder::build(&builder).inner {
        InteractionResource::RequestResponse { description, provider_states, request, response } => {
            assert_eq!(description, "create order");
            assert_eq!(provider_states.len(), 1);
            assert_eq!(request.inner.method, "GET");
            assert_eq!(response.inner.status, 201);
        }
        other => panic!("not the legacy representation: {:?}", other),
    }
    match interaction_builder::build_v4(&builder).inner {
        InteractionResource::SynchronousHttp {
            key, description, provider_states, response, comments, test_name, pending, transport, ..
        } => {
            assert_eq!(key.as_deref(), Some("k1"));
            assert_eq!(description, "create order");
            assert_eq!(provider_states[0].name, "stock");
            assert_eq!(response.status, 201);
            assert_eq!(comments, vec!["a".to_string(), "b".to_string()]);
            assert_eq!(test_name.as_deref(), Some("orders_test"));
            assert!(pending);
            assert_eq!(transport.as_deref(), Some("https"));
        }
        other => panic!("not the extended representation: {:?}", other),
    }
}

#[test]
fn an_interaction_is_pending_only_if_it_was_said_to_be() {
    let mut builder = interaction_builder::new("i".to_string(), String::new());
    let pending = |builder: &interaction_builder::NifInteractionBuilder| match interaction_builder::build_v4(builder).inner {
        InteractionResource::SynchronousHttp { pending, .. } => pending,
        _ => panic!("not the extended representation"),
    };
    assert!(!pending(&builder));
    interaction_builder::pending(&mut builder, false);
    assert!(!pending(&builder));
    interaction_builder::pending(&mut builder, true);
    assert!(pending(&builder));
}

#[test]
fn a_message_is_built_from_what_was_said_of_it() {
    let mut builder = message_builder::new("order created".to_string());
    message_builder::given(&mut builder, "an order".to_string());
    message_builder::given_with_params(&mut builder, "a user".to_string(), "{\"id\": 1}".to_string()).unwrap();
    message_builder::with_key(&mut builder, "m1".to_string());
    message_builder::pending(&mut builder, true);
    message_builder::comment(&mut builder, "note".to_string());
    message_builder::test_name(&mut builder, "messages_test".to_string());
    message_builder::json_body(&mut builder, qty_pattern()).unwrap();
    let before = shown(&builder);
    let built = message_builder::build(&builder);
    assert!(built.is_message());
    match &built.inner {
        InteractionResource::AsynchronousMessage(message) => {
            assert_eq!(message.description, "order created");
            assert_eq!(message.provider_states.len(), 2);
            assert_eq!(message.provider_states[1].params.as_deref(), Some("{\"id\": 1}"));
            assert_eq!(message.key.as_deref(), Some("m1"));
            assert!(message.pending);
            assert_eq!(message.comments, vec!["note".to_string()]);
            assert_eq!(message.test_name.as_deref(), Some("messages_test"));
            assert!(matches!(&message.body, Body::Json(pattern) if shown(pattern) == shown(&qty_pattern())));
            assert!(matches!(message.contents, MessageContents::Missing));
            assert!(bytes(message).is_empty());
        }
        other => panic!("not a message: {:?}", other),
    }
    assert_eq!(shown(&message_builder::build(&builder)), shown(&built));
    assert_eq!(shown(&builder), before);

    let invalid = NifJsonPattern::Matcher(NifJsonMatcher::MatchingRegex {
        regex: "(".to_string(),
        example: "x".to_string(),
    });
    let error = message_builder::json_body(&mut builder, invalid).unwrap_err();
    assert_eq!(error.kind(), ErrorKind::InvalidPattern);
    assert_eq!(shown(&builder), before);
}

#[test]
fn the_bytes_of_a_message_are_its_payload_or_nothing() {
    assert_eq!(MessageContents::Present(vec![1, 2, 3]).bytes(), vec![1, 2, 3]);
    assert_eq!(MessageContents::Present(Vec::new()).bytes(), Vec::<u8>::new());
    assert_eq!(MessageContents::Missing.bytes(), Vec::<u8>::new());
    assert_eq!(MessageContents::Empty.bytes(), Vec::<u8>::new());
    assert_eq!(MessageContents::Null.bytes(), Vec::<u8>::new());

    match message("m").inner {
        InteractionResource::AsynchronousMessage(mut message) => {
            message.contents = MessageContents::Present(b"{\"qty\":1}".to_vec());
            assert_eq!(bytes(&message), b"{\"qty\":1}".to_vec());
            assert_eq!(bytes(&message.clone()), b"{\"qty\":1}".to_vec());
        }
        _ => panic!("not a message"),
    }
}

#[test]
fn a_contract_starts_empty_in_the_format_it_was_made_for() {
    let legacy = pact_builder::new("consumer".to_string(), "provider".to_string());
    assert!(!pact_builder::is_v4(&legacy));
    assert_eq!(legacy.consumer, "consumer");
    assert_eq!(legacy.provider, "provider");
    assert!(legacy.interactions.is_empty() && legacy.plugins.is_empty());
    let extended = pact_builder::new_v4("c".to_string(), "p".to_string());
    assert!(pact_builder::is_v4(&extended));
    assert!(extended.interactions.is_empty());
    assert!(pact_builder::messages(&extended).is_empty());
}

#[test]
fn pushed_interactions_stand_in_the_order_they_were_pushed() {
    let mut pact = pact_builder::new_v4("c".to_string(), "p".to_string());
    for description in ["one", "two", "three"] {
        pact_builder::push_interaction(&mut pact, &http(description)).unwrap();
    }
    pact_builder::push_interaction(&mut pact, &http("one")).unwrap();
    let descriptions: Vec<String> = pact
        .interactions
        .iter()
        .map(|i| match &i.inner {
            InteractionResource::SynchronousHttp { description, .. } => description.clone(),
            _ => panic!("not a request and response"),
        })
        .collect();
    assert_eq!(descriptions, vec!["one", "two", "three", "one"]);
}

#[test]
fn messages_are_listed_in_the_order_they_were_pushed_among_the_rest() {
    let mut pact = pact_builder::new_v4("c".to_string(), "p".to_string());
    pact_builder::push_interaction(&mut pact, &http("h1")).unwrap();
    pact_builder::push_interaction(&mut pact, &message("m1")).unwrap();
    pact_builder::push_interaction(&mut pact, &message("m2")).unwrap();
    pact_builder::push_interaction(&mut pact, &http("h2")).unwrap();
    pact_builder::push_interaction(&mut pact, &message("m3")).unwrap();
    let listed: Vec<String> = pact_builder::messages(&pact).into_iter().map(|m| m.description).collect();
    assert_eq!(listed, vec!["m1", "m2", "m3"]);
    assert_eq!(pact.interactions.len(), 5);
}

#[test]
fn a_legacy_contract_takes_no_messages() {
    let mut pact = pact_builder::new("c".to_string(), "p".to_string());
    pact_builder::push_interaction(&mut pact, &http("h1")).unwrap();
    let legacy = interaction_builder::build(&interaction_builder::new("h2".to_string(), String::new()));
    pact_builder::push_interaction(&mut pact, &legacy).unwrap();
    let before = shown(&pact);
    let error = pact_builder::push_interaction(&mut pact, &message("order created")).unwrap_err();
    assert_eq!(error.kind(), ErrorKind::InvalidArgument);
    assert_eq!(error.detail, "order created");
    assert_eq!(shown(&pact), before);
    assert!(pact_builder::messages(&pact).is_empty());
}

#[test]
fn a_plugin_is_recorded_once() {
    let mut pact = pact_builder::new_v4("c".to_string(), "p".to_string());
    pact_builder::activate_plugin(&mut pact, "protobuf".to_string(), None);
    pact_builder::activate_plugin(&mut pact, "csv".to_string(), Some("0.0.3".to_string()));
    pact_builder::activate_plugin(&mut pact, "protobuf".to_string(), None);
    pact_builder::activate_plugin(&mut pact, "csv".to_string(), Some("0.0.3".to_string()));
    pact_builder::activate_plugin(&mut pact, "csv".to_string(), None);
    let plugins: Vec<(&str, Option<&str>)> =
        pact.plugins.iter().map(|p| (p.name.as_str(), p.version.as_deref())).collect();
    assert_eq!(plugins, vec![("protobuf", None), ("csv", Some("0.0.3")), ("csv", None)]);
    assert!(pact.interactions.is_empty());
    assert_eq!(shown(&pact.clone()), shown(&pact));
}

#[test]
fn a_name_stands_for_all_the_headers_and_parameters_that_carry_it() {
    let mut builder = request_builder::default();
    request_builder::header(&mut builder, "Accept".to_string(), literal("text/plain")).unwrap();
    request_builder::header(&mut builder, "X-Trace".to_string(), string_regex("^[0-9]+$", "1")).unwrap();
    request_builder::header(&mut builder, "Accept".to_string(), literal("application/json")).unwrap();
    request_builder::query_param(&mut builder, "tag".to_string(), "a".to_string());
    request_builder::query_param(&mut builder, "page".to_string(), "1".to_string());
    request_builder::query_param(&mut builder, "tag".to_string(), "b".to_string());

    let accept = header_values(&builder.request.headers, &"Accept".to_string());
    assert_eq!(shown(&accept), shown(&vec![literal("text/plain"), literal("application/json")]));
    let trace = header_values(&builder.request.headers, &"X-Trace".to_string());
    assert_eq!(shown(&trace), shown(&vec![string_regex("^[0-9]+$", "1")]));
    assert!(header_values(&builder.request.headers, &"accept".to_string()).is_empty());
    assert!(header_values(&Vec::new(), &"Accept".to_string()).is_empty());

    assert_eq!(query_values(&builder.request.query, &"tag".to_string()), vec!["a", "b"]);
    assert_eq!(query_values(&builder.request.query, &"page".to_string()), vec!["1"]);
    assert!(query_values(&builder.request.query, &"size".to_string()).is_empty());
}
