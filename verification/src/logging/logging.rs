//! The set of loggers of one connection.
use vstd::prelude::*;

use crate::logging::stdout::StdOutLogger;
use crate::logging::traits::RpotLogger;
use crate::webhook_model::{Webhook, WebhookView};

verus! {

/// A logger to be set up for each connection.
#[derive(Debug, Clone)]
pub enum EventLoggerType {
    /// A Discord webhook, by its URL.
    DiscordWebhook(String),
    /// Standard output.
    StdOut,
}

/// A logger set up for one connection.
#[derive(Debug)]
pub enum EventLogger {
    DiscordWebhook(Webhook),
    StdOut(StdOutLogger),
}

/// What the loggers know of a connection.
#[derive(Debug, Clone)]
pub struct LoggerData {
    pub peer_addr: String,
}

/// A logger of any kind, held by value.
pub struct RpotLoggerWrapper<T: RpotLogger> {
    pub instance: T,
}

/// The loggers of one connection.
pub struct Logger {
    pub logger_instances: Vec<EventLogger>,
    pub data: LoggerData,
}

/// The logger set up from its configuration for the client at `peer`: a
/// fresh webhook log, or standard output.
pub open spec fn set_up_from(l: EventLogger, t: EventLoggerType, peer: Seq<char>) -> bool {
    match (t, l) {
        (EventLoggerType::DiscordWebhook(url), EventLogger::DiscordWebhook(w)) => w@ == (WebhookView {
            peer_addr: peer,
            webhook_url: url@,
            message_id: None,
            message_embed: None,
        }),
        (EventLoggerType::StdOut, EventLogger::StdOut(_)) => true,
        _ => false,
    }
}

impl Logger {
    /// Sets up the configured loggers for the client at `peer_addr`, one
    /// for each entry, in order.
    pub fn new(event_loggers: Vec<EventLoggerType>, peer_addr: String) -> (l: Logger)
        ensures
            l.data.peer_addr@ == peer_addr@,
            l.logger_instances@.len() == event_loggers@.len(),
            forall|i: int|
                0 <= i < event_loggers@.len() ==> set_up_from(
                    #[trigger] l.logger_instances@[i],
                    event_loggers@[i],
                    peer_addr@,
                ),
    {
        let data = LoggerData { peer_addr };
        let mut instances: Vec<EventLogger> = Vec::new();
        let mut i: usize = 0;
        while i < event_loggers.len()
            invariant
                i <= event_loggers@.len(),
                instances@.len() == i,
                forall|j: int|
                    0 <= j < i ==> set_up_from(
                        #[trigger] instances@[j],
                        event_loggers@[j],
                        data.peer_addr@,
                    ),
            decreases event_loggers@.len() - i,
        {
            let instance = match &event_loggers[i] {
                EventLoggerType::DiscordWebhook(url) => EventLogger::DiscordWebhook(
                    Webhook::new(data.peer_addr.clone(), url.clone()),
                ),
                EventLoggerType::StdOut => EventLogger::StdOut(StdOutLogger::create(data.clone())),
            };
            instances.push(instance);
            i = i + 1;
        }
        Logger { logger_instances: instances, data }
    }
}

} // verus!
