//! Keeping one connection's log in a Discord webhook message: what each
//! event adds to it, and which request creates or edits the message.
use vstd::prelude::*;

use crate::model::{opt_chars, EventType};
use crate::text::{
    codeblock, gen_codeblock, law_backtick_free_text_is_kept, law_backtick_removal_is_per_character,
    remove_backticks, without_backticks,
};
use crate::webhook_model::{
    Author, Embed, EmbedView, Footer, MaybeWebhook, Webhook, WebhookRequest, WebhookResponse,
    WebhookView, embed_views,
};

verus! {

/// The colour of a connection's message while the client is connected.
pub const CONNECTED_COLOR: u32 = 0xFF8700;

/// The colour of a connection's message once the client has left.
pub const DISCONNECTED_COLOR: u32 = 15672064;

/// Why an event could not be logged.
#[derive(Debug, Clone, Copy, PartialEq, Eq, Structural)]
pub enum WebhookError {
    /// A log's first event must be the client connecting.
    NotConnected,
    /// The request that created (or last edited) the message failed.
    InitialRequestFailed,
    /// There is no message to send.
    EmptyEmbed,
    /// The webhook answered with a status other than 200.
    Rejected,
}

impl WebhookError {
    /// The text that describes the error.
    pub open spec fn text(self) -> Seq<char> {
        match self {
            WebhookError::NotConnected => "You can only push to a new Webhook when the event type is ClientConnect"@,
            WebhookError::InitialRequestFailed => "Initial Webhook request returned error"@,
            WebhookError::EmptyEmbed => "Empty Embed"@,
            WebhookError::Rejected => "Discord API returned non-200 status code."@,
        }
    }

    /// The text that describes the error.
    pub fn to_string(&self) -> (s: String)
        ensures
            s@ == self.text(),
    {
        match self {
            WebhookError::NotConnected => "You can only push to a new Webhook when the event type is ClientConnect".to_owned(),
            WebhookError::InitialRequestFailed => "Initial Webhook request returned error".to_owned(),
            WebhookError::EmptyEmbed => "Empty Embed".to_owned(),
            WebhookError::Rejected => "Discord API returned non-200 status code.".to_owned(),
        }
    }
}

/// How a request reaches the webhook.
#[derive(Debug, Clone, Copy, PartialEq, Eq, Structural)]
pub enum HttpMethod {
    /// Creates the message.
    Post,
    /// Edits the message.
    Patch,
}

/// A request to be sent to the webhook (with `wait=true` in the query).
#[derive(Debug)]
pub struct WebhookCall {
    pub method: HttpMethod,
    pub url: String,
    pub request: WebhookRequest,
}

/// The footer of every log message.
pub open spec fn footer_text() -> Seq<char> {
    "RPot \u{2022} https://github.com/Paddyk45/rpot"@
}

/// The embed a log starts with when the client connects.
pub open spec fn first_embed(peer_addr: Seq<char>) -> EmbedView {
    EmbedView {
        author: peer_addr,
        description: Some(codeblock("Client connected"@)),
        color: CONNECTED_COLOR,
        footer: footer_text(),
    }
}

/// What introduces an event's payload in the log.
pub open spec fn placeholder(e: EventType) -> Seq<char> {
    match e {
        EventType::Auth => "\n Password: "@,
        EventType::RunCommand => "\n Command: "@,
        _ => ""@,
    }
}

/// The code block an event adds to the log; backticks are taken out of the
/// payload so that it cannot end the block.
pub open spec fn event_entry(e: EventType, payload: Option<Seq<char>>) -> Seq<char> {
    let p = match payload {
        Some(s) => s,
        None => Seq::empty(),
    };
    codeblock("\n"@ + e.text() + placeholder(e) + without_backticks(p))
}

/// The message id that marks a log whose request failed.
pub open spec fn error_marker() -> Seq<char> {
    "ERROR"@
}

/// The log after an event, or why the event cannot be logged.
pub open spec fn pushed(w: WebhookView, e: EventType, payload: Option<Seq<char>>) -> Result<
    WebhookView,
    WebhookError,
> {
    match w.message_id {
        None => if e is ClientConnect {
            Ok(WebhookView { message_embed: Some(first_embed(w.peer_addr)), ..w })
        } else {
            Err(WebhookError::NotConnected)
        },
        Some(id) => if id == error_marker() {
            Err(WebhookError::InitialRequestFailed)
        } else {
            let em = w.message_embed.unwrap();
            let old_desc = match em.description {
                Some(d) => d,
                None => Seq::empty(),
            };
            Ok(
                WebhookView {
                    message_embed: Some(
                        EmbedView {
                            description: Some(old_desc + event_entry(e, payload)),
                            color: if e is ClientDisconnect {
                                DISCONNECTED_COLOR
                            } else {
                                em.color
                            },
                            ..em
                        },
                    ),
                    ..w
                },
            )
        },
    }
}

/// Where the request for a log goes: the webhook itself to create the
/// message, the message under it to edit it.
pub open spec fn request_url(w: WebhookView) -> Seq<char> {
    match w.message_id {
        None => w.webhook_url,
        Some(id) => w.webhook_url + "/messages/"@ + id,
    }
}

/// Whether the request creates or edits the message.
pub open spec fn request_method(w: WebhookView) -> HttpMethod {
    match w.message_id {
        None => HttpMethod::Post,
        Some(_) => HttpMethod::Patch,
    }
}

/// The request that sends a log with an embed: its method, its address and
/// a body holding that one embed.
pub open spec fn call_for(call: WebhookCall, w: WebhookView) -> bool {
    &&& w.message_embed is Some
    &&& call.method == request_method(w)
    &&& call.url@ == request_url(w)
    &&& embed_views(call.request.embeds@) == seq![w.message_embed.unwrap()]
}

/// A log's first event must be the client connecting, which starts the
/// message with the connection embed.
pub proof fn law_log_starts_with_connect(w: WebhookView, e: EventType, payload: Option<Seq<char>>)
    requires
        w.message_id is None,
    ensures
        e is ClientConnect ==> pushed(w, e, payload) == Ok::<WebhookView, WebhookError>(
            WebhookView { message_embed: Some(first_embed(w.peer_addr)), ..w },
        ),
        !(e is ClientConnect) ==> pushed(w, e, payload) == Err::<WebhookView, WebhookError>(
            WebhookError::NotConnected,
        ),
{
}

/// Once a request for the log has failed (or its status was not 200, see
/// `record_status`), every later event is refused and the log stays as it
/// is.
pub proof fn law_failed_log_refuses_events(
    w: WebhookView,
    e: EventType,
    payload: Option<Seq<char>>,
)
    requires
        w.message_id == Some(error_marker()),
    ensures
        pushed(w, e, payload) == Err::<WebhookView, WebhookError>(
            WebhookError::InitialRequestFailed,
        ),
{
}

/// Events only ever add to the end of the log: what was there stays, the
/// event's block follows it, and only the description and colour change.
pub proof fn law_log_only_grows(w: WebhookView, e: EventType, payload: Option<Seq<char>>)
    requires
        w.wf(),
        w.message_id is Some,
    ensures
        pushed(w, e, payload) matches Ok(w2) ==> {
            let old_desc = match w.message_embed.unwrap().description {
                Some(d) => d,
                None => Seq::empty(),
            };
            let new_desc = w2.message_embed.unwrap().description.unwrap();
            &&& new_desc == old_desc + event_entry(e, payload)
            &&& old_desc.is_prefix_of(new_desc)
            &&& w2.peer_addr == w.peer_addr
            &&& w2.webhook_url == w.webhook_url
            &&& w2.message_id == w.message_id
            &&& w2.message_embed.unwrap().author == w.message_embed.unwrap().author
            &&& w2.message_embed.unwrap().footer == w.message_embed.unwrap().footer
        },
{
    if let Ok(w2) = pushed(w, e, payload) {
        let old_desc = match w.message_embed.unwrap().description {
            Some(d) => d,
            None => Seq::empty(),
        };
        let new_desc = w2.message_embed.unwrap().description.unwrap();
        assert(new_desc.subrange(0, old_desc.len() as int) =~= old_desc);
    }
}

/// A logged disconnect turns the message red; other events keep its colour.
pub proof fn law_disconnect_turns_red(w: WebhookView, e: EventType, payload: Option<Seq<char>>)
    requires
        w.wf(),
        w.message_id is Some,
    ensures
        pushed(w, e, payload) matches Ok(w2) ==> w2.message_embed.unwrap().color == (if e is ClientDisconnect {
            DISCONNECTED_COLOR
        } else {
            w.message_embed.unwrap().color
        }),
{
}

/// A payload cannot end the code block it is logged in: no backtick of it
/// is kept.
pub proof fn law_payload_cannot_close_block(p: Seq<char>)
    ensures
        !without_backticks(p).contains('`'),
{
    let f = |c: char| c != '`';
    if without_backticks(p).contains('`') {
        let i = choose|i: int| 0 <= i < without_backticks(p).len() && without_backticks(p)[i] == '`';
        p.lemma_filter_pred(f, i);
    }
}

/// The block an event adds to the log is three backticks, a line break,
/// the event's text, its placeholder, the payload, and three backticks; a
/// payload without backticks appears in it whole.
pub proof fn law_event_entry_keeps_payload(e: EventType, s: Seq<char>)
    requires
        !s.contains('`'),
    ensures
        event_entry(e, Some(s)) == "```"@ + "\n"@ + e.text() + placeholder(e) + s + "```"@,
{
    law_backtick_free_text_is_kept(s);
    assert(event_entry(e, Some(s)) =~= "```"@ + "\n"@ + e.text() + placeholder(e) + s + "```"@);
}

/// The payload part of an entry is made piecewise: a payload made of two
/// parts shows the kept characters of each, one after the other, and an
/// absent payload shows as an empty one.
pub proof fn law_event_entry_is_piecewise(e: EventType, a: Seq<char>, b: Seq<char>)
    ensures
        event_entry(e, Some(a + b)) == "```"@ + "\n"@ + e.text() + placeholder(e)
            + without_backticks(a) + without_backticks(b) + "```"@,
        event_entry(e, None) == event_entry(e, Some(Seq::empty())),
{
    law_backtick_removal_is_per_character(a, b, 'a');
    assert(event_entry(e, Some(a + b)) =~= "```"@ + "\n"@ + e.text() + placeholder(e)
        + without_backticks(a) + without_backticks(b) + "```"@);
}

fn copy_embed(e: &Embed) -> (r: Embed)
    ensures
        r@ == e@,
{
    Embed {
        author: Author { name: e.author.name.clone() },
        description: match &e.description {
            Some(d) => Some(d.clone()),
            None => None,
        },
        color: e.color,
        footer: Footer { text: e.footer.text.clone() },
    }
}

fn placeholder_str(e: &EventType) -> (s: &'static str)
    ensures
        s@ == placeholder(*e),
{
    match e {
        EventType::Auth => "\n Password: ",
        EventType::RunCommand => "\n Command: ",
        _ => "",
    }
}

/// Builds the code block an event adds to the log.
pub fn gen_event_entry(event: &EventType, payload: &Option<String>) -> (s: String)
    ensures
        s@ == event_entry(*event, opt_chars(*payload)),
{
    let mut body = "\n".to_owned();
    let name = event.to_string();
    body.append(name.as_str());
    body.append(placeholder_str(event));
    let cleaned = match payload {
        Some(p) => remove_backticks(p.as_str()),
        None => remove_backticks(""),
    };
    proof {
        reveal_strlit("");
        if payload.is_none() {
            assert(""@ =~= Seq::<char>::empty());
        }
    }
    body.append(cleaned.as_str());
    gen_codeblock(body.as_str())
}

impl From<Option<Webhook>> for MaybeWebhook {
    fn from(value: Option<Webhook>) -> (r: Self) {
        MaybeWebhook(value)
    }
}

impl vstd::std_specs::convert::FromSpecImpl<Option<Webhook>> for MaybeWebhook {
    open spec fn obeys_from_spec() -> bool {
        true
    }

    open spec fn from_spec(value: Option<Webhook>) -> MaybeWebhook {
        MaybeWebhook(value)
    }
}

impl Webhook {
    /// A log for a client at `peer_addr`, kept at the webhook `webhook_url`;
    /// no message exists yet.
    pub fn new(peer_addr: String, webhook_url: String) -> (w: Self)
        ensures
            w@ == (WebhookView {
                peer_addr: peer_addr@,
                webhook_url: webhook_url@,
                message_id: None,
                message_embed: None,
            }),
            w@.wf(),
    {
        Self { peer_addr, webhook_url, message_id: None, message_embed: None }
    }

    /// Whether the log is in a state it can be in: a message id only once
    /// there is an embed.
    pub fn is_consistent(&self) -> (r: bool)
        ensures
            r == self@.wf(),
    {
        self.message_id.is_none() || self.message_embed.is_some()
    }

    /// Adds an event to the log and gives the request that sends the log
    /// to the webhook.
    pub fn push(&mut self, event: EventType, payload: Option<String>) -> (r: Result<
        WebhookCall,
        WebhookError,
    >)
        requires
            old(self)@.wf(),
        ensures
            final(self)@.wf(),
            match pushed(old(self)@, event, opt_chars(payload)) {
                Ok(w) => final(self)@ == w && (r matches Ok(call) && call_for(call, w)),
                Err(e) => final(self)@ == old(self)@ && r == Err::<WebhookCall, WebhookError>(e),
            },
    {
        match &self.message_id {
            None => {
                match event {
                    EventType::ClientConnect => {},
                    _ => {
                        return Err(WebhookError::NotConnected);
                    },
                }
                let description = gen_codeblock("Client connected");
                self.message_embed = Some(
                    Embed {
                        author: Author { name: self.peer_addr.clone() },
                        color: CONNECTED_COLOR,
                        description: Some(description),
                        footer: Footer {
                            text: "RPot \u{2022} https://github.com/Paddyk45/rpot".to_owned(),
                        },
                    },
                );
            },
            Some(msgid) => {
                let marker = "ERROR".to_owned();
                if *msgid == marker {
                    return Err(WebhookError::InitialRequestFailed);
                }
                let entry = gen_event_entry(&event, &payload);
                let mut em = self.message_embed.take().unwrap();
                let mut desc = match em.description.take() {
                    Some(d) => d,
                    None => String::new(),
                };
                desc.append(entry.as_str());
                if matches!(event, EventType::ClientDisconnect) {
                    em.color = DISCONNECTED_COLOR;
                }
                em.description = Some(desc);
                self.message_embed = Some(em);
            },
        }
        self.create_or_update()
    }

    /// The request that sends the log to the webhook.
    fn create_or_update(&self) -> (r: Result<WebhookCall, WebhookError>)
        ensures
            self.message_embed is None ==> r == Err::<WebhookCall, WebhookError>(
                WebhookError::EmptyEmbed,
            ),
            self.message_embed is Some ==> (r matches Ok(call) && call_for(call, self@)),
    {
        let embed = match &self.message_embed {
            None => {
                return Err(WebhookError::EmptyEmbed);
            },
            Some(e) => copy_embed(e),
        };
        let (method, url) = match &self.message_id {
            None => (HttpMethod::Post, self.webhook_url.clone()),
            Some(msgid) => {
                let mut url = self.webhook_url.clone();
                url.append("/messages/");
                url.append(msgid.as_str());
                (HttpMethod::Patch, url)
            },
        };
        let mut webhook_request = WebhookRequest::new();
        webhook_request.embeds.push(embed);
        assert(embed_views(webhook_request.embeds@) =~= seq![self@.message_embed.unwrap()]);
        Ok(WebhookCall { method, url, request: webhook_request })
    }

    /// Notes the status the webhook answered with; any status but 200 marks
    /// the log as failed. Returns whether the status was 200.
    pub fn record_status(&mut self, status: u16) -> (accepted: bool)
        requires
            old(self).message_embed is Some,
        ensures
            accepted == (status == 200),
            accepted ==> final(self)@ == old(self)@,
            !accepted ==> final(self)@ == (WebhookView {
                message_id: Some(error_marker()),
                ..old(self)@
            }),
            final(self)@.wf(),
    {
        if status != 200 {
            self.message_id = Some("ERROR".to_owned());
            false
        } else {
            true
        }
    }

    /// Notes the id of the message the webhook created or edited.
    pub fn record_message(&mut self, response: WebhookResponse)
        requires
            old(self).message_embed is Some,
        ensures
            final(self)@ == (WebhookView { message_id: Some(response.id@), ..old(self)@ }),
            final(self)@.wf(),
    {
        self.message_id = Some(response.id);
    }
}

} // verus!
