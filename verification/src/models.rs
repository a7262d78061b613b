//! The data that travels through a session: channels, decoded responses,
//! queued events and errors.

use vstd::prelude::*;

verus! {

/// Identifier of a tradeable market.
pub type Symbol = String;

/// A subscription topic of the exchange.
#[derive(Debug)]
pub enum WsChannel {
    Orderbook(Symbol),
    Trades(Symbol),
    Ticker(Symbol),
    Fills,
    Orders,
}

/// The mathematical value of a [`WsChannel`]: its variant and the characters
/// of its instrument.
pub ghost enum ChannelModel {
    Orderbook(Seq<char>),
    Trades(Seq<char>),
    Ticker(Seq<char>),
    Fills,
    Orders,
}

impl View for WsChannel {
    type V = ChannelModel;

    open spec fn view(&self) -> ChannelModel {
        match self {
            WsChannel::Orderbook(s) => ChannelModel::Orderbook(s@),
            WsChannel::Trades(s) => ChannelModel::Trades(s@),
            WsChannel::Ticker(s) => ChannelModel::Ticker(s@),
            WsChannel::Fills => ChannelModel::Fills,
            WsChannel::Orders => ChannelModel::Orders,
        }
    }
}

impl ChannelModel {
    /// Account-scoped channels are only served to an authenticated session.
    pub open spec fn requires_authentication(self) -> bool {
        self is Fills || self is Orders
    }

    /// The channel's name on the wire.
    pub open spec fn wire_tag(self) -> Seq<char> {
        match self {
            ChannelModel::Orderbook(_) => "orderbook"@,
            ChannelModel::Trades(_) => "trades"@,
            ChannelModel::Ticker(_) => "ticker"@,
            ChannelModel::Fills => "fills"@,
            ChannelModel::Orders => "orders"@,
        }
    }

    /// The instrument named in a request for the channel; empty for an
    /// account-scoped channel.
    pub open spec fn market(self) -> Seq<char> {
        match self {
            ChannelModel::Orderbook(s) => s,
            ChannelModel::Trades(s) => s,
            ChannelModel::Ticker(s) => s,
            ChannelModel::Fills => Seq::empty(),
            ChannelModel::Orders => Seq::empty(),
        }
    }
}

/// The values of a sequence of channels.
pub open spec fn channel_models(channels: Seq<WsChannel>) -> Seq<ChannelModel> {
    channels.map_values(|c: WsChannel| c@)
}

impl WsChannel {
    pub fn requires_authentication(&self) -> (r: bool)
        ensures
            r == self@.requires_authentication(),
    {
        match self {
            WsChannel::Fills => true,
            WsChannel::Orders => true,
            _ => false,
        }
    }

    pub fn wire_tag(&self) -> (tag: &'static str)
        ensures
            tag@ == self@.wire_tag(),
    {
        match self {
            WsChannel::Orderbook(_) => "orderbook",
            WsChannel::Trades(_) => "trades",
            WsChannel::Ticker(_) => "ticker",
            WsChannel::Fills => "fills",
            WsChannel::Orders => "orders",
        }
    }

    pub fn market(&self) -> (market: &str)
        ensures
            market@ == self@.market(),
    {
        match self {
            WsChannel::Orderbook(s) => s.as_str(),
            WsChannel::Trades(s) => s.as_str(),
            WsChannel::Ticker(s) => s.as_str(),
            WsChannel::Fills => {
                proof {
                    reveal_strlit("");
                    assert(""@ =~= Seq::<char>::empty());
                }
                ""
            },
            WsChannel::Orders => {
                proof {
                    reveal_strlit("");
                    assert(""@ =~= Seq::<char>::empty());
                }
                ""
            },
        }
    }
}

impl Clone for WsChannel {
    fn clone(&self) -> (r: Self)
        ensures
            r == *self,
    {
        match self {
            WsChannel::Orderbook(s) => WsChannel::Orderbook(s.clone()),
            WsChannel::Trades(s) => WsChannel::Trades(s.clone()),
            WsChannel::Ticker(s) => WsChannel::Ticker(s.clone()),
            WsChannel::Fills => WsChannel::Fills,
            WsChannel::Orders => WsChannel::Orders,
        }
    }
}

impl PartialEq for WsChannel {
    fn eq(&self, other: &Self) -> (r: bool) {
        match (self, other) {
            (WsChannel::Orderbook(a), WsChannel::Orderbook(b)) => *a == *b,
            (WsChannel::Trades(a), WsChannel::Trades(b)) => *a == *b,
            (WsChannel::Ticker(a), WsChannel::Ticker(b)) => *a == *b,
            (WsChannel::Fills, WsChannel::Fills) => true,
            (WsChannel::Orders, WsChannel::Orders) => true,
            _ => false,
        }
    }
}

impl Eq for WsChannel {}

impl vstd::std_specs::cmp::PartialEqSpecImpl for WsChannel {
    open spec fn obeys_eq_spec() -> bool {
        true
    }

    open spec fn eq_spec(&self, other: &Self) -> bool {
        self@ == other@
    }
}

/// The kind of a decoded inbound frame.
#[derive(Clone, Copy, Debug, PartialEq, Eq, Structural)]
pub enum WsMessageType {
    Error,
    Subscribed,
    Unsubscribed,
    Info,
    Partial,
    Update,
    Pong,
}

/// One trade, carried as the JSON text of its entry in a trade list.
#[derive(Debug, PartialEq, Eq)]
pub struct Trade {
    pub json: String,
}

/// An order book snapshot or update, carried as JSON text.
#[derive(Debug, PartialEq, Eq)]
pub struct OrderbookData {
    pub json: String,
}

/// A fill of one of the account's orders, carried as JSON text.
#[derive(Debug, PartialEq, Eq)]
pub struct Fill {
    pub json: String,
}

/// A ticker update, carried as JSON text.
#[derive(Debug, PartialEq, Eq)]
pub struct Ticker {
    pub json: String,
}

/// A change of one of the account's orders, carried as JSON text.
#[derive(Debug, PartialEq, Eq)]
pub struct Order {
    pub json: String,
}

impl Clone for Trade {
    fn clone(&self) -> (r: Self)
        ensures
            r == *self,
    {
        Trade { json: self.json.clone() }
    }
}

/// The payload of a decoded inbound frame.
#[derive(Debug, PartialEq, Eq)]
pub enum WsResponseData {
    Trades(Vec<Trade>),
    OrderbookData(OrderbookData),
    Fill(Fill),
    Ticker(Ticker),
    Order(Order),
}

/// A decoded inbound frame.
#[derive(Debug, PartialEq, Eq)]
pub struct WsResponse {
    pub market: Option<Symbol>,
    pub kind: WsMessageType,
    pub data: Option<WsResponseData>,
}

/// What a consumer receives: one item of market or account data.
#[derive(Debug, PartialEq, Eq)]
pub enum EventData {
    Trade(Trade),
    OrderbookData(OrderbookData),
    Fill(Fill),
    Ticker(Ticker),
    Order(Order),
}

/// An event queued for delivery, with the instrument it belongs to, if any.
pub type PendingEvent = (Option<Symbol>, EventData);

/// Why a subscription change was refused or did not complete.
#[derive(Debug, PartialEq, Eq)]
pub enum WsError {
    /// An account-scoped channel was requested on a session without login.
    SocketNotAuthenticated,
    /// The channel is not in the active set.
    NotSubscribedToThisChannel(WsChannel),
    /// The exchange did not acknowledge the request in time.
    MissingSubscriptionConfirmation,
}

} // verus!
