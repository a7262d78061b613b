//! The session: the registry of active channels, the acknowledgement
//! protocol of a subscription change, and the ordered buffer of events.
//!
//! The session performs no input or output. A transport loop hands it what
//! arrived and carries out the [`Action`] it answers with.

use vstd::prelude::*;
use std::collections::VecDeque;
use std::sync::Arc;
use crate::models::{
    channel_models, ChannelModel, EventData, PendingEvent, Symbol, WsChannel, WsError,
    WsMessageType, WsResponse, WsResponseData,
};
use crate::codec::{
    login_message, login_text, login_time, ping, ping_text, subscription_message,
    subscription_text,
};
use crate::signer::signature;

verus! {

/// The address of the exchange's WebSocket service.
pub const ENDPOINT: &'static str = "wss://ftx.com/ws";

/// The seconds between two keepalive messages.
pub const KEEPALIVE_SECONDS: u64 = 15;

/// How many responses may pass after a request before its acknowledgement
/// counts as missing.
pub const CONFIRMATION_LIMIT: usize = 100;

/// What a subscription change asks for.
#[derive(Clone, Copy, Debug, PartialEq, Eq, Structural)]
pub enum RequestKind {
    Subscribe,
    Unsubscribe,
    UnsubscribeAll,
}

/// Where a subscription change stands with its current channel.
#[derive(Clone, Copy, Debug, PartialEq, Eq, Structural)]
pub enum Phase {
    /// The request for the current channel is still to be sent.
    Sending,
    /// The request was sent, and so many other responses were seen since.
    Waiting(usize),
    /// Every channel of the batch was acknowledged.
    Confirmed,
    /// The acknowledgement for the current channel did not arrive in time.
    Missing,
}

/// The current channel of a subscription change, by its index in the batch,
/// and the phase it is in.
#[derive(Clone, Copy, Debug, PartialEq, Eq, Structural)]
pub struct Progress {
    pub index: usize,
    pub phase: Phase,
}

/// What the transport loop has to do next for a subscription change.
#[derive(Debug, PartialEq, Eq)]
pub enum Action {
    /// Send this text frame, then report it with [`Request::sent`].
    Send(String),
    /// Fetch the next response and hand it to
    /// [`FtxWebsocket::subscribe_or_unsubscribe`].
    Receive,
    /// The change is over, with this outcome.
    Finished(Result<(), WsError>),
}

/// What the transport produced while a response was awaited.
#[derive(Debug, PartialEq, Eq)]
pub enum Inbound {
    /// The keepalive interval elapsed.
    Tick,
    /// A text frame arrived and was decoded.
    Frame(WsResponse),
    /// A frame arrived that carries no text.
    Other,
}

/// What follows from one [`Inbound`].
#[derive(Debug, PartialEq, Eq)]
pub enum Fetch {
    /// Send this keepalive message and wait again.
    Ping(String),
    /// Wait again.
    Again,
    /// This response is the next one.
    Response(WsResponse),
}

/// Whether a message of this kind acknowledges a request of that kind.
pub open spec fn acknowledges(kind: RequestKind, message: WsMessageType) -> bool {
    match kind {
        RequestKind::Subscribe => message == WsMessageType::Subscribed,
        _ => message == WsMessageType::Unsubscribed,
    }
}

/// The events that a response carries, in order: one per trade of a trade
/// list, one for any other payload, none without a payload and none for a
/// pong.
pub open spec fn events_of(response: WsResponse) -> Seq<PendingEvent> {
    if response.kind == WsMessageType::Pong {
        Seq::empty()
    } else {
        match response.data {
            None => Seq::empty(),
            Some(WsResponseData::Trades(trades)) => Seq::new(
                trades@.len(),
                |i: int| (response.market, EventData::Trade(trades@[i])),
            ),
            Some(WsResponseData::OrderbookData(d)) => seq![(response.market, EventData::OrderbookData(d))],
            Some(WsResponseData::Fill(d)) => seq![(response.market, EventData::Fill(d))],
            Some(WsResponseData::Ticker(d)) => seq![(response.market, EventData::Ticker(d))],
            Some(WsResponseData::Order(d)) => seq![(response.market, EventData::Order(d))],
        }
    }
}

/// Whether a response of this kind is taken as the awaited acknowledgement.
pub open spec fn consumed(kind: RequestKind, progress: Progress, message: WsMessageType) -> bool {
    progress.phase is Waiting && message != WsMessageType::Pong && acknowledges(kind, message)
}

/// The progress of a change over `len` channels after a response of kind
/// `message`.
pub open spec fn progress_after(
    kind: RequestKind,
    len: nat,
    progress: Progress,
    message: WsMessageType,
) -> Progress {
    match progress.phase {
        Phase::Waiting(seen) => if message == WsMessageType::Pong {
            progress
        } else if acknowledges(kind, message) {
            if progress.index + 1 < len {
                Progress { index: (progress.index + 1) as usize, phase: Phase::Sending }
            } else {
                Progress { index: (progress.index + 1) as usize, phase: Phase::Confirmed }
            }
        } else if seen + 1 < CONFIRMATION_LIMIT {
            Progress { index: progress.index, phase: Phase::Waiting((seen + 1) as usize) }
        } else {
            Progress { index: progress.index, phase: Phase::Missing }
        },
        _ => progress,
    }
}

/// The events that a response adds to the buffer while a change is under
/// way: all it carries, unless it is taken as the acknowledgement.
pub open spec fn buffered(kind: RequestKind, progress: Progress, response: WsResponse) -> Seq<PendingEvent> {
    if consumed(kind, progress, response.kind) {
        Seq::empty()
    } else {
        events_of(response)
    }
}

/// The channels of `active` that are not in `batch`, in their order.
pub open spec fn without(active: Seq<ChannelModel>, batch: Seq<ChannelModel>) -> Seq<ChannelModel> {
    active.filter(|c: ChannelModel| !batch.contains(c))
}

/// The active set after a step of a change from `before` to `after`: it
/// changes only when an unsubscription is confirmed as a whole.
pub open spec fn active_after(
    kind: RequestKind,
    batch: Seq<ChannelModel>,
    before: Progress,
    after: Progress,
    active: Seq<ChannelModel>,
) -> Seq<ChannelModel> {
    if before.phase is Waiting && after.phase is Confirmed {
        match kind {
            RequestKind::Subscribe => active,
            RequestKind::Unsubscribe => without(active, batch),
            RequestKind::UnsubscribeAll => Seq::empty(),
        }
    } else {
        active
    }
}

/// The first `k` channels of `batch` may all be added to a session.
pub open spec fn admits(authenticated: bool, batch: Seq<ChannelModel>, k: int) -> bool {
    &&& 0 <= k <= batch.len()
    &&& forall|j: int| 0 <= j < k ==> authenticated || !(#[trigger] batch[j]).requires_authentication()
}

/// Channel `k` of `batch` needs a login that the session lacks.
pub open spec fn refuses(authenticated: bool, batch: Seq<ChannelModel>, k: int) -> bool {
    0 <= k < batch.len() && !authenticated && batch[k].requires_authentication()
}

/// The first `k` channels of `batch` are all in `active`.
pub open spec fn covers(active: Seq<ChannelModel>, batch: Seq<ChannelModel>, k: int) -> bool {
    &&& 0 <= k <= batch.len()
    &&& forall|j: int| 0 <= j < k ==> active.contains(#[trigger] batch[j])
}

/// The progress of a change over `len` channels before anything was sent.
pub open spec fn initial_progress(len: nat) -> Progress {
    if len == 0 {
        Progress { index: 0, phase: Phase::Confirmed }
    } else {
        Progress { index: 0, phase: Phase::Sending }
    }
}

proof fn filter_push<A>(s: Seq<A>, x: A, p: spec_fn(A) -> bool)
    ensures
        s.push(x).filter(p) == if p(x) {
            s.filter(p).push(x)
        } else {
            s.filter(p)
        },
{
    reveal(Seq::filter);
    assert(s.push(x).drop_last() =~= s);
}

fn copy_channels(channels: &[WsChannel]) -> (out: Vec<WsChannel>)
    ensures
        out@ == channels@,
{
    let mut out: Vec<WsChannel> = Vec::new();
    let mut i: usize = 0;
    while i < channels.len()
        invariant
            i <= channels.len(),
            out@ == channels@.take(i as int),
        decreases channels.len() - i,
    {
        out.push(channels[i].clone());
        i += 1;
        assert(out@ =~= channels@.take(i as int));
    }
    assert(channels@.take(channels.len() as int) =~= channels@);
    out
}

fn is_among(channels: &[WsChannel], channel: &WsChannel) -> (found: bool)
    ensures
        found == channel_models(channels@).contains(channel@),
{
    let mut i: usize = 0;
    while i < channels.len()
        invariant
            i <= channels.len(),
            forall|j: int| 0 <= j < i ==> channel_models(channels@)[j] != channel@,
        decreases channels.len() - i,
    {
        if channels[i] == *channel {
            assert(channel_models(channels@)[i as int] == channel@);
            return true;
        }
        i += 1;
    }
    false
}

/// A subscription change under way: its kind, its batch of channels, and
/// how far it has come.
#[derive(Debug)]
pub struct Request {
    kind: RequestKind,
    channels: Vec<WsChannel>,
    progress: Progress,
}

impl Request {
    pub closed spec fn kind(&self) -> RequestKind {
        self.kind
    }

    /// The channels of the change, in the order in which they are requested.
    pub closed spec fn batch(&self) -> Seq<ChannelModel> {
        channel_models(self.channels@)
    }

    pub closed spec fn progress(&self) -> Progress {
        self.progress
    }

    /// The current channel exists while the change is not confirmed, and
    /// fewer responses than the limit were counted.
    #[verifier::type_invariant]
    spec fn wf(&self) -> bool {
        match self.progress.phase {
            Phase::Sending => self.progress.index < self.channels@.len(),
            Phase::Waiting(seen) => self.progress.index < self.channels@.len() && seen
                < CONFIRMATION_LIMIT,
            Phase::Confirmed => self.progress.index == self.channels@.len(),
            Phase::Missing => self.progress.index < self.channels@.len(),
        }
    }

    /// The message that asks for this kind of change on `channel`.
    pub open spec fn message(kind: RequestKind, channel: ChannelModel) -> Seq<char> {
        subscription_text(kind is Subscribe, channel)
    }

    pub fn state(&self) -> (progress: Progress)
        ensures
            progress == self.progress(),
            self.batch().len() <= usize::MAX,
    {
        let len: usize = self.channels.len();
        assert(self.batch().len() == len);
        self.progress
    }

    pub fn change(&self) -> (kind: RequestKind)
        ensures
            kind == self.kind(),
    {
        self.kind
    }

    /// What to do next: send the request for the current channel, fetch a
    /// response, or stop with the outcome.
    pub fn action(&self) -> (action: Action)
        ensures
            self.progress().phase is Sending ==> self.progress().index < self.batch().len(),
            match self.progress().phase {
                Phase::Sending => action matches Action::Send(text) && text@ == Self::message(
                    self.kind(),
                    self.batch()[self.progress().index as int],
                ),
                Phase::Waiting(_) => action == Action::Receive,
                Phase::Confirmed => action == Action::Finished(Ok(())),
                Phase::Missing => action == Action::Finished(
                    Err(WsError::MissingSubscriptionConfirmation),
                ),
            },
    {
        proof {
            use_type_invariant(self);
        }
        match self.progress.phase {
            Phase::Sending => {
                let subscribe = match self.kind {
                    RequestKind::Subscribe => true,
                    _ => false,
                };
                Action::Send(subscription_message(&self.channels[self.progress.index], subscribe))
            },
            Phase::Waiting(_) => Action::Receive,
            Phase::Confirmed => Action::Finished(Ok(())),
            Phase::Missing => Action::Finished(Err(WsError::MissingSubscriptionConfirmation)),
        }
    }

    /// Records that the request for the current channel went out.
    pub fn sent(&mut self)
        ensures
            final(self).kind() == old(self).kind(),
            final(self).batch() == old(self).batch(),
            final(self).progress() == (if old(self).progress().phase is Sending {
                Progress { index: old(self).progress().index, phase: Phase::Waiting(0) }
            } else {
                old(self).progress()
            }),
    {
        proof {
            use_type_invariant(&*self);
        }
        match self.progress.phase {
            Phase::Sending => {
                self.progress = Progress { index: self.progress.index, phase: Phase::Waiting(0) };
            },
            _ => {},
        }
    }
}

/// Receives the events of a session, each with its instrument if it has
/// one.
pub trait EventHandler: Send + Sync {
    fn on_event(&self, event: EventData, symbol: Option<Symbol>);
}

/// The state of one connection: the active channels in the order in which
/// they were subscribed, the events that wait for the consumer, whether
/// the session logged in, and the handler that was registered last.
pub struct FtxWebsocket {
    channels: Vec<WsChannel>,
    buf: VecDeque<PendingEvent>,
    is_authenticated: bool,
    event_handler: Option<Arc<dyn EventHandler>>,
}

fn copy_symbol(market: &Option<Symbol>) -> (out: Option<Symbol>)
    ensures
        out == *market,
{
    match market {
        Some(s) => Some(s.clone()),
        None => None,
    }
}

impl FtxWebsocket {
    /// The active channels, oldest subscription first.
    pub closed spec fn active(&self) -> Seq<ChannelModel> {
        channel_models(self.channels@)
    }

    /// The events that wait for the consumer, oldest first.
    pub closed spec fn pending(&self) -> Seq<PendingEvent> {
        self.buf@
    }

    pub closed spec fn authenticated(&self) -> bool {
        self.is_authenticated
    }

    /// The registered handler, if there is one.
    pub closed spec fn handler(&self) -> Option<Arc<dyn EventHandler>> {
        self.event_handler
    }

    /// Whether a session with these credentials logs in, and so needs the
    /// time of its start.
    pub fn logs_in(key: &Option<String>, secret: &Option<String>) -> (both: bool)
        ensures
            both == (key is Some && secret is Some),
    {
        key.is_some() && secret.is_some()
    }

    /// Starts a session at `timestamp_ms`, the time since the Unix epoch in
    /// milliseconds. With both a key and a secret the session counts as
    /// logged in, and the login message to send comes with it.
    pub fn connect(
        key: Option<String>,
        secret: Option<String>,
        subaccount: Option<String>,
        timestamp_ms: u128,
    ) -> (opened: (Self, Option<String>))
        ensures
            opened.0.active() == Seq::<ChannelModel>::empty(),
            opened.0.pending() == Seq::<PendingEvent>::empty(),
            opened.0.authenticated() == (key is Some && secret is Some),
            opened.0.handler() is None,
            match (key, secret) {
                (Some(k), Some(s)) => opened.1 matches Some(text) && text@ == login_text(
                    k@,
                    signature(vstd::utf8::encode_utf8(s@), timestamp_ms as nat),
                    login_time(timestamp_ms),
                    match subaccount {
                        Some(a) => Some(a@),
                        None => None,
                    },
                ),
                _ => opened.1 is None,
            },
    {
        let login = match (&key, &secret) {
            (Some(k), Some(s)) => {
                let label = match &subaccount {
                    Some(a) => Some(a.as_str()),
                    None => None,
                };
                Some(login_message(k.as_str(), s.as_str(), label, timestamp_ms))
            },
            _ => None,
        };
        let session = FtxWebsocket {
            channels: Vec::new(),
            buf: VecDeque::new(),
            is_authenticated: login.is_some(),
            event_handler: None,
        };
        assert(session.active() =~= Seq::<ChannelModel>::empty());
        (session, login)
    }

    /// Registers `handler` in place of any earlier one.
    pub fn add_event_handler(&mut self, handler: Arc<dyn EventHandler>)
        ensures
            final(self).handler() == Some(handler),
            final(self).active() == old(self).active(),
            final(self).pending() == old(self).pending(),
            final(self).authenticated() == old(self).authenticated(),
    {
        let registered = Some(handler);
        self.event_handler = registered;
    }

    /// Hands one event to the registered handler, and says whether there
    /// was one.
    pub fn dispatch(&self, event: EventData, symbol: Option<Symbol>) -> (delivered: bool)
        ensures
            delivered == (self.handler() is Some),
    {
        match &self.event_handler {
            Some(handler) => {
                handler.on_event(event, symbol);
                true
            },
            None => false,
        }
    }

    pub fn is_authenticated(&self) -> (r: bool)
        ensures
            r == self.authenticated(),
    {
        self.is_authenticated
    }

    /// The active channels, oldest subscription first.
    pub fn channels(&self) -> (channels: &Vec<WsChannel>)
        ensures
            channel_models(channels@) == self.active(),
    {
        &self.channels
    }

    /// Starts a subscription to `channels`. Each channel is added to the
    /// active set at once, up to the first that needs a login the session
    /// lacks; such a channel refuses the whole call.
    pub fn subscribe(&mut self, channels: &[WsChannel]) -> (started: Result<Request, WsError>)
        ensures
            final(self).pending() == old(self).pending(),
            final(self).authenticated() == old(self).authenticated(),
            final(self).handler() == old(self).handler(),
            refuses(old(self).authenticated(), channel_models(channels@), 0) ==> started is Err
                && final(self).active() == old(self).active(),
            match started {
                Ok(request) => {
                    &&& admits(old(self).authenticated(), channel_models(channels@), channels@.len() as int)
                    &&& final(self).active() == old(self).active() + channel_models(channels@)
                    &&& request.kind() == RequestKind::Subscribe
                    &&& request.batch() == channel_models(channels@)
                    &&& request.progress() == initial_progress(channels@.len())
                },
                Err(e) => {
                    &&& e == WsError::SocketNotAuthenticated
                    &&& exists|k: int|
                        {
                            &&& admits(old(self).authenticated(), channel_models(channels@), k)
                            &&& refuses(old(self).authenticated(), channel_models(channels@), k)
                            &&& final(self).active() == old(self).active() + channel_models(
                                channels@,
                            ).take(k)
                        }
                },
            },
    {
        let ghost batch = channel_models(channels@);
        let mut i: usize = 0;
        while i < channels.len()
            invariant
                i <= channels.len(),
                batch == channel_models(channels@),
                admits(self.is_authenticated, batch, i as int),
                self.active() == old(self).active() + batch.take(i as int),
                self.buf == old(self).buf,
                self.is_authenticated == old(self).is_authenticated,
                self.event_handler == old(self).event_handler,
            decreases channels.len() - i,
        {
            if channels[i].requires_authentication() && !self.is_authenticated {
                assert(refuses(self.is_authenticated, batch, i as int));
                return Err(WsError::SocketNotAuthenticated);
            }
            let ghost before = self.active();
            self.channels.push(channels[i].clone());
            assert(self.active() =~= before.push(batch[i as int]));
            assert(batch.take(i + 1) =~= batch.take(i as int).push(batch[i as int]));
            i += 1;
            assert(self.active() =~= old(self).active() + batch.take(i as int));
        }
        assert(batch.take(channels.len() as int) =~= batch);
        let progress = if channels.len() == 0 {
            Progress { index: 0, phase: Phase::Confirmed }
        } else {
            Progress { index: 0, phase: Phase::Sending }
        };
        Ok(Request { kind: RequestKind::Subscribe, channels: copy_channels(channels), progress })
    }

    /// Starts an unsubscription from `channels`, all of which must be
    /// active: the first that is not refuses the call. The active set
    /// changes only once the whole batch is acknowledged.
    pub fn unsubscribe(&self, channels: &[WsChannel]) -> (started: Result<Request, WsError>)
        ensures
            started is Err <==> exists|k: int|
                0 <= k < channels@.len() && !self.active().contains(
                    #[trigger] channel_models(channels@)[k],
                ),
            match started {
                Ok(request) => {
                    &&& covers(self.active(), channel_models(channels@), channels@.len() as int)
                    &&& request.kind() == RequestKind::Unsubscribe
                    &&& request.batch() == channel_models(channels@)
                    &&& request.progress() == initial_progress(channels@.len())
                },
                Err(e) => exists|k: int|
                    {
                        &&& covers(self.active(), channel_models(channels@), k)
                        &&& k < channels@.len()
                        &&& !self.active().contains(channel_models(channels@)[k])
                        &&& e matches WsError::NotSubscribedToThisChannel(c) && c@ == channel_models(
                            channels@,
                        )[k]
                    },
            },
    {
        let ghost batch = channel_models(channels@);
        let mut i: usize = 0;
        while i < channels.len()
            invariant
                i <= channels.len(),
                batch == channel_models(channels@),
                covers(self.active(), batch, i as int),
            decreases channels.len() - i,
        {
            if !is_among(self.channels.as_slice(), &channels[i]) {
                assert(batch[i as int] == channels[i as int]@);
                return Err(WsError::NotSubscribedToThisChannel(channels[i].clone()));
            }
            assert(batch[i as int] == channels[i as int]@);
            i += 1;
        }
        let progress = if channels.len() == 0 {
            Progress { index: 0, phase: Phase::Confirmed }
        } else {
            Progress { index: 0, phase: Phase::Sending }
        };
        Ok(Request { kind: RequestKind::Unsubscribe, channels: copy_channels(channels), progress })
    }

    /// Starts an unsubscription from every active channel. Once it is
    /// acknowledged as a whole the active set is empty.
    pub fn unsubscribe_all(&self) -> (request: Request)
        ensures
            request.kind() == RequestKind::UnsubscribeAll,
            request.batch() == self.active(),
            request.progress() == initial_progress(self.active().len()),
    {
        let progress = if self.channels.len() == 0 {
            Progress { index: 0, phase: Phase::Confirmed }
        } else {
            Progress { index: 0, phase: Phase::Sending }
        };
        Request {
            kind: RequestKind::UnsubscribeAll,
            channels: copy_channels(self.channels.as_slice()),
            progress,
        }
    }

    fn remove(&mut self, batch: &Vec<WsChannel>)
        ensures
            final(self).active() == without(old(self).active(), channel_models(batch@)),
            final(self).pending() == old(self).pending(),
            final(self).authenticated() == old(self).authenticated(),
            final(self).handler() == old(self).handler(),
    {
        let ghost gone = channel_models(batch@);
        let ghost keep = |c: ChannelModel| !gone.contains(c);
        let mut kept: Vec<WsChannel> = Vec::new();
        let mut i: usize = 0;
        proof {
            reveal(Seq::filter);
            assert(channel_models(self.channels@.take(0)) =~= Seq::<ChannelModel>::empty());
        }
        while i < self.channels.len()
            invariant
                i <= self.channels.len(),
                gone == channel_models(batch@),
                keep == |c: ChannelModel| !gone.contains(c),
                self.channels == old(self).channels,
                self.buf == old(self).buf,
                self.is_authenticated == old(self).is_authenticated,
                self.event_handler == old(self).event_handler,
                channel_models(kept@) == channel_models(self.channels@.take(i as int)).filter(keep),
            decreases self.channels.len() - i,
        {
            let ghost before = channel_models(self.channels@.take(i as int));
            proof {
                filter_push(before, self.channels@[i as int]@, keep);
                assert(channel_models(self.channels@.take(i + 1)) =~= before.push(
                    self.channels@[i as int]@,
                ));
            }
            if !is_among(batch.as_slice(), &self.channels[i]) {
                let ghost old_kept = channel_models(kept@);
                kept.push(self.channels[i].clone());
                assert(channel_models(kept@) =~= old_kept.push(self.channels@[i as int]@));
            }
            i += 1;
        }
        assert(self.channels@.take(self.channels.len() as int) =~= self.channels@);
        self.channels = kept;
    }

    /// Queues the events that `response` carries, behind those that wait.
    pub fn add_to_buffer(&mut self, response: WsResponse)
        ensures
            final(self).pending() == old(self).pending() + events_of(response),
            final(self).active() == old(self).active(),
            final(self).authenticated() == old(self).authenticated(),
            final(self).handler() == old(self).handler(),
    {
        let ghost events = events_of(response);
        let WsResponse { market, kind, data } = response;
        if kind == WsMessageType::Pong {
            assert(self.pending() =~= old(self).pending() + events);
            return ;
        }
        match data {
            None => {
                assert(self.pending() =~= old(self).pending() + events);
            },
            Some(WsResponseData::Trades(trades)) => {
                let mut i: usize = 0;
                while i < trades.len()
                    invariant
                        i <= trades.len(),
                        events.len() == trades@.len(),
                        forall|j: int| 0 <= j < trades@.len() ==> events[j] == (market, EventData::Trade(trades@[j])),
                        self.channels == old(self).channels,
                        self.is_authenticated == old(self).is_authenticated,
                self.event_handler == old(self).event_handler,
                        self.buf@ == old(self).buf@ + events.take(i as int),
                    decreases trades.len() - i,
                {
                    self.buf.push_back((copy_symbol(&market), EventData::Trade(trades[i].clone())));
                    i += 1;
                    assert(self.buf@ =~= old(self).buf@ + events.take(i as int));
                }
                assert(events.take(trades.len() as int) =~= events);
            },
            Some(WsResponseData::OrderbookData(d)) => {
                self.buf.push_back((market, EventData::OrderbookData(d)));
                assert(self.pending() =~= old(self).pending() + events);
            },
            Some(WsResponseData::Fill(d)) => {
                self.buf.push_back((market, EventData::Fill(d)));
                assert(self.pending() =~= old(self).pending() + events);
            },
            Some(WsResponseData::Ticker(d)) => {
                self.buf.push_back((market, EventData::Ticker(d)));
                assert(self.pending() =~= old(self).pending() + events);
            },
            Some(WsResponseData::Order(d)) => {
                self.buf.push_back((market, EventData::Order(d)));
                assert(self.pending() =~= old(self).pending() + events);
            },
        }
    }

    /// Takes one response into a subscription change that waits for its
    /// acknowledgement. The awaited acknowledgement moves the change on to
    /// its next channel, and the last one of an unsubscription removes the
    /// batch from the active set. Any other response is counted and its
    /// events are queued; a pong is neither.
    pub fn subscribe_or_unsubscribe(&mut self, request: &mut Request, response: WsResponse)
        ensures
            final(request).kind() == old(request).kind(),
            final(request).batch() == old(request).batch(),
            final(request).progress() == progress_after(
                old(request).kind(),
                old(request).batch().len(),
                old(request).progress(),
                response.kind,
            ),
            final(self).pending() == old(self).pending() + buffered(
                old(request).kind(),
                old(request).progress(),
                response,
            ),
            final(self).active() == active_after(
                old(request).kind(),
                old(request).batch(),
                old(request).progress(),
                final(request).progress(),
                old(self).active(),
            ),
            final(self).authenticated() == old(self).authenticated(),
            final(self).handler() == old(self).handler(),
    {
        proof {
            use_type_invariant(&*request);
        }
        let seen: usize = match request.progress.phase {
            Phase::Waiting(seen) => seen,
            _ => {
                self.add_to_buffer(response);
                return ;
            },
        };
        let acknowledged = match request.kind {
            RequestKind::Subscribe => response.kind == WsMessageType::Subscribed,
            _ => response.kind == WsMessageType::Unsubscribed,
        };
        if response.kind == WsMessageType::Pong {
            assert(self.pending() =~= old(self).pending() + Seq::<PendingEvent>::empty());
        } else if acknowledged {
            let len: usize = request.channels.len();
            assert(request.batch().len() == len);
            let next: usize = request.progress.index + 1;
            assert(self.pending() =~= old(self).pending() + Seq::<PendingEvent>::empty());
            if next < len {
                request.progress = Progress { index: next, phase: Phase::Sending };
            } else {
                request.progress = Progress { index: next, phase: Phase::Confirmed };
                match request.kind {
                    RequestKind::Subscribe => {},
                    RequestKind::Unsubscribe => {
                        self.remove(&request.channels);
                    },
                    RequestKind::UnsubscribeAll => {
                        self.channels.clear();
                        assert(self.active() =~= Seq::<ChannelModel>::empty());
                    },
                }
            }
        } else {
            self.add_to_buffer(response);
            if seen + 1 < CONFIRMATION_LIMIT {
                request.progress = Progress { index: request.progress.index, phase: Phase::Waiting(seen + 1) };
            } else {
                request.progress = Progress { index: request.progress.index, phase: Phase::Missing };
            }
        }
    }

    /// Hands out the oldest event that waits, if there is one.
    pub fn poll_next(&mut self) -> (event: Option<PendingEvent>)
        ensures
            final(self).active() == old(self).active(),
            final(self).authenticated() == old(self).authenticated(),
            final(self).handler() == old(self).handler(),
            match event {
                Some(e) => {
                    &&& old(self).pending().len() > 0
                    &&& e == old(self).pending()[0]
                    &&& final(self).pending() == old(self).pending().drop_first()
                },
                None => old(self).pending().len() == 0 && final(self).pending() == old(self).pending(),
            },
    {
        self.buf.pop_front()
    }

    /// How many events wait at least, and that no upper bound is known.
    pub fn size_hint(&self) -> (hint: (usize, Option<usize>))
        ensures
            hint.0 == self.pending().len(),
            hint.1 is None,
    {
        (self.buf.len(), None)
    }
}

/// Decides what follows from one thing that the transport produced: a tick
/// asks for a keepalive message, a pong and a frame without text are passed
/// over, and any other decoded frame is the next response.
pub fn next_response(inbound: Inbound) -> (fetch: Fetch)
    ensures
        match inbound {
            Inbound::Tick => fetch matches Fetch::Ping(text) && text@ == ping_text(),
            Inbound::Frame(response) => if response.kind == WsMessageType::Pong {
                fetch == Fetch::Again
            } else {
                fetch == Fetch::Response(response)
            },
            Inbound::Other => fetch == Fetch::Again,
        },
{
    match inbound {
        Inbound::Tick => Fetch::Ping(ping()),
        Inbound::Frame(response) => {
            if response.kind == WsMessageType::Pong {
                Fetch::Again
            } else {
                Fetch::Response(response)
            }
        },
        Inbound::Other => Fetch::Again,
    }
}

} // verus!
