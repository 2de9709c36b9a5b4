use rpot::events::ClientEventType;
use rpot::logging::logging::{EventLogger, EventLoggerType, Logger};
use rpot::model::EventType;
use rpot::webhook::{HttpMethod, WebhookError, CONNECTED_COLOR, DISCONNECTED_COLOR};
use rpot::webhook_model::{MaybeWebhook, Webhook, WebhookRequest, WebhookResponse};

fn description(w: &Webhook) -> String {
    w.message_embed.as_ref().unwrap().description.clone().unwrap()
}

#[test]
fn a_log_must_start_with_a_connect() {
    let mut w = Webhook::new("1.2.3.4:5".to_string(), "https://hook".to_string());
    let err = w.push(EventType::Auth, Some("pw".to_string())).unwrap_err();
    assert_eq!(err, WebhookError::NotConnected);
    assert_eq!(err.to_string(), "You can only push to a new Webhook when the event type is ClientConnect");
    assert!(w.message_embed.is_none());
    assert!(w.message_id.is_none());
}

#[test]
fn connect_creates_the_message() {
    let mut w = Webhook::new("1.2.3.4:5".to_string(), "https://hook".to_string());
    let call = w.push(EventType::ClientConnect, None).unwrap();
    assert_eq!(call.method, HttpMethod::Post);
    assert_eq!(call.url, "https://hook");
    assert_eq!(call.request.embeds.len(), 1);
    let e = &call.request.embeds[0];
    assert_eq!(e.author.name, "1.2.3.4:5");
    assert_eq!(e.color, CONNECTED_COLOR);
    assert_eq!(e.color, 0xFF8700);
    assert_eq!(e.description, Some("```Client connected```".to_string()));
    assert_eq!(e.footer.text, "RPot \u{2022} https://github.com/Paddyk45/rpot");
}

#[test]
fn later_events_edit_the_message() {
    let mut w = Webhook::new("peer".to_string(), "https://hook".to_string());
    w.push(EventType::ClientConnect, None).unwrap();
    assert!(w.record_status(200));
    w.record_message(WebhookResponse { id: "123".to_string() });
    let call = w.push(EventType::Auth, Some("pa`ss".to_string())).unwrap();
    assert_eq!(call.method, HttpMethod::Patch);
    assert_eq!(call.url, "https://hook/messages/123");
    assert_eq!(
        description(&w),
        "```Client connected``````\nClient logged in\n Password: pass```"
    );
    w.push(EventType::RunCommand, Some("seed".to_string())).unwrap();
    assert!(description(&w).ends_with("```\nClient executed command\n Command: seed```"));
    assert_eq!(w.message_embed.as_ref().unwrap().color, CONNECTED_COLOR);
    let call = w.push(EventType::ClientDisconnect, None).unwrap();
    assert!(description(&w).ends_with("```\nClient disconnected```"));
    assert_eq!(call.request.embeds[0].color, DISCONNECTED_COLOR);
    assert_eq!(DISCONNECTED_COLOR, 15672064);
}

#[test]
fn a_rejected_request_stops_the_log() {
    let mut w = Webhook::new("peer".to_string(), "https://hook".to_string());
    w.push(EventType::ClientConnect, None).unwrap();
    assert!(!w.record_status(404));
    assert_eq!(w.message_id, Some("ERROR".to_string()));
    let before = description(&w);
    let err = w.push(EventType::RunCommand, Some("x".to_string())).unwrap_err();
    assert_eq!(err, WebhookError::InitialRequestFailed);
    assert_eq!(err.to_string(), "Initial Webhook request returned error");
    assert_eq!(description(&w), before);
    assert!(w.is_consistent());
}

#[test]
fn invalid_events_have_no_placeholder() {
    let mut w = Webhook::new("peer".to_string(), "u".to_string());
    w.push(EventType::ClientConnect, None).unwrap();
    w.record_message(WebhookResponse { id: "1".to_string() });
    w.push(EventType::Invalid, Some("``".to_string())).unwrap();
    assert!(description(&w).ends_with("```\nInvalid Event Type```"));
}

#[test]
fn maybe_webhook_and_request() {
    let m: MaybeWebhook = None.into();
    assert!(m.0.is_none());
    let m: MaybeWebhook = Some(Webhook::new("a".to_string(), "b".to_string())).into();
    assert_eq!(m.0.unwrap().webhook_url, "b");
    assert!(WebhookRequest::new().embeds.is_empty());
    assert_eq!(WebhookError::EmptyEmbed.to_string(), "Empty Embed");
}

#[test]
fn logger_sets_up_each_configured_logger() {
    let l = Logger::new(
        vec![EventLoggerType::StdOut, EventLoggerType::DiscordWebhook("https://x".to_string())],
        "9.9.9.9:1".to_string(),
    );
    assert_eq!(l.data.peer_addr, "9.9.9.9:1");
    assert_eq!(l.logger_instances.len(), 2);
    assert!(matches!(l.logger_instances[0], EventLogger::StdOut(_)));
    match &l.logger_instances[1] {
        EventLogger::DiscordWebhook(w) => {
            assert_eq!(w.peer_addr, "9.9.9.9:1");
            assert_eq!(w.webhook_url, "https://x");
            assert!(w.message_id.is_none());
        }
        _ => panic!("expected a webhook"),
    }
}

#[test]
fn client_events_read_like_webhook_events() {
    for e in [ClientEventType::Connect, ClientEventType::Auth, ClientEventType::RunCommand, ClientEventType::Disconnect] {
        let t: EventType = e.into();
        assert_eq!(e.to_string(), t.to_string());
    }
    assert_eq!(ClientEventType::Connect.to_string(), "Client connected");
}
