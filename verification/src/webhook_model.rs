//! The Discord webhook messages the server keeps its log in.
use vstd::prelude::*;

use crate::model::opt_chars;

verus! {

/// The body of a request to the webhook.
#[derive(Debug)]
pub struct WebhookRequest {
    pub embeds: Vec<Embed>,
}

impl WebhookRequest {
    /// A request with no embeds.
    pub fn new() -> (r: Self)
        ensures
            r.embeds@.len() == 0,
    {
        Self { embeds: Vec::new() }
    }
}

/// One embed of a webhook message.
#[derive(Debug, Clone)]
pub struct Embed {
    pub author: Author,
    pub description: Option<String>,
    pub color: u32,
    pub footer: Footer,
}

/// The author line of an embed.
#[derive(Debug, Clone)]
pub struct Author {
    pub name: String,
}

/// The footer line of an embed.
#[derive(Debug, Clone)]
pub struct Footer {
    pub text: String,
}

/// What the webhook answers to a request: the id of the message.
#[derive(Debug)]
pub struct WebhookResponse {
    pub id: String,
}

/// The log of one connection: a single webhook message, created when the
/// client connects and edited as events follow.
#[derive(Debug)]
pub struct Webhook {
    pub peer_addr: String,
    pub webhook_url: String,
    pub message_id: Option<String>,
    pub message_embed: Option<Embed>,
}

/// The log of a connection, when a webhook is configured.
pub struct MaybeWebhook(pub Option<Webhook>);

/// An embed with its texts taken as character sequences.
pub struct EmbedView {
    pub author: Seq<char>,
    pub description: Option<Seq<char>>,
    pub color: u32,
    pub footer: Seq<char>,
}

impl View for Embed {
    type V = EmbedView;

    open spec fn view(&self) -> EmbedView {
        EmbedView {
            author: self.author.name@,
            description: opt_chars(self.description),
            color: self.color,
            footer: self.footer.text@,
        }
    }
}

/// A webhook log with its texts taken as character sequences.
pub struct WebhookView {
    pub peer_addr: Seq<char>,
    pub webhook_url: Seq<char>,
    pub message_id: Option<Seq<char>>,
    pub message_embed: Option<EmbedView>,
}

impl View for Webhook {
    type V = WebhookView;

    open spec fn view(&self) -> WebhookView {
        WebhookView {
            peer_addr: self.peer_addr@,
            webhook_url: self.webhook_url@,
            message_id: opt_chars(self.message_id),
            message_embed: match self.message_embed {
                Some(e) => Some(e@),
                None => None,
            },
        }
    }
}

impl WebhookView {
    /// A message is only known once it has an embed.
    pub open spec fn wf(self) -> bool {
        self.message_id is Some ==> self.message_embed is Some
    }
}

/// The views of the embeds of a request.
pub open spec fn embed_views(v: Seq<Embed>) -> Seq<EmbedView> {
    v.map_values(|e: Embed| e@)
}

} // verus!
