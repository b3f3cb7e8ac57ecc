//! The socket session core: credentials, the optimistic login flag, and
//! the command channel that the caller-facing operations fill. The
//! surrounding loop writes what is drained here, reads one frame at a
//! time, and asks `classify` what to do with it; the keepalive cadence is
//! decided by `ping_tick`.

use vstd::prelude::*;

use crate::channel::Received;
use crate::channel::Sender;
use crate::channel::WsMessageView;
use crate::clock::now_ms;
use crate::frames::channel_frame;
use crate::frames::channel_frame_spec;
use crate::frames::grouped_frame;
use crate::frames::grouped_frame_spec;
use crate::frames::login_frame;
use crate::frames::login_frame_spec;
use crate::frames::market_frame;
use crate::frames::market_frame_spec;
use crate::frames::ping_frame;
use crate::frames::ping_frame_spec;
use crate::signer::hex_of;
use crate::signer::hmac_sha256;
use crate::signer::login_signing_string;
use crate::signer::login_signing_string_spec;
use crate::signer::sign;

verus! {

/// How many loop iterations pass between self-initiated keepalive pings.
pub const PING_INTERVAL: u64 = 20;

/// Advances the keepalive counter by one iteration: at the interval the
/// counter resets and a ping is owed, otherwise it just counts up.
pub fn ping_tick(counter: u64) -> (r: (u64, bool))
    ensures
        r.1 == (counter + 1 >= PING_INTERVAL),
        r.0 == if counter + 1 >= PING_INTERVAL {
            0u64
        } else {
            (counter + 1) as u64
        },
{
    if counter >= PING_INTERVAL - 1 {
        (0, true)
    } else {
        (counter + 1, false)
    }
}

/// The state the session layer owns: the credentials, the command
/// channel, and the optimistic login flag — set the moment a login frame
/// is enqueued, never confirmed, and never reset on disconnect.
pub struct WebSockets {
    api_key: String,
    secret_key: String,
    sender: Sender,
    login_status: bool,
}

/// The parts of the session state that no operation changes: the
/// credentials and the liveness of the command channel.
pub open spec fn same_identity(a: WebSockets, b: WebSockets) -> bool {
    a.spec_api_key() == b.spec_api_key() && a.spec_secret_key() == b.spec_secret_key()
        && a.wf() == b.wf()
}

impl WebSockets {
    pub closed spec fn spec_api_key(&self) -> Seq<char> {
        self.api_key@
    }

    pub closed spec fn spec_secret_key(&self) -> Seq<char> {
        self.secret_key@
    }

    /// The outbound commands waiting to be drained, oldest first.
    pub closed spec fn spec_queue(&self) -> Seq<WsMessageView> {
        self.sender@
    }

    /// The optimistic login flag.
    pub closed spec fn spec_login_status(&self) -> bool {
        self.login_status
    }

    /// Well-formedness: the session's own command channel is open.
    pub closed spec fn wf(&self) -> bool {
        !self.sender.spec_closed()
    }

    /// A fresh session: the given credentials (absent keys become empty),
    /// an empty command queue, and no login — a new session never
    /// inherits authentication.
    pub fn new(api_key: Option<String>, secret_key: Option<String>) -> (r: WebSockets)
        ensures
            r.wf(),
            r.spec_api_key() == match api_key {
                Some(k) => k@,
                None => Seq::<char>::empty(),
            },
            r.spec_secret_key() == match secret_key {
                Some(k) => k@,
                None => Seq::<char>::empty(),
            },
            r.spec_queue() == Seq::<WsMessageView>::empty(),
            !r.spec_login_status(),
    {
        let key = match api_key {
            Some(k) => k,
            None => String::new(),
        };
        let secret = match secret_key {
            Some(k) => k,
            None => String::new(),
        };
        WebSockets { api_key: key, secret_key: secret, sender: Sender::new(), login_status: false }
    }

    /// Enqueues a keepalive ping frame.
    pub fn ping(&mut self)
        requires
            old(self).wf(),
        ensures
            same_identity(*old(self), *final(self)),
            final(self).spec_login_status() == old(self).spec_login_status(),
            final(self).spec_queue() == old(self).spec_queue().push(
                WsMessageView::Text(ping_frame_spec()),
            ),
    {
        let frame = ping_frame();
        let _ = self.sender.send(frame.as_str());
    }

    /// Enqueues a subscription to the ticker channel of a market.
    pub fn subscribe_ticker(&mut self, symbol: &str)
        requires
            old(self).wf(),
        ensures
            same_identity(*old(self), *final(self)),
            final(self).spec_login_status() == old(self).spec_login_status(),
            final(self).spec_queue() == old(self).spec_queue().push(
                WsMessageView::Text(market_frame_spec("subscribe"@, "ticker"@, symbol@)),
            ),
    {
        let frame = market_frame("subscribe", "ticker", symbol);
        let _ = self.sender.send(frame.as_str());
    }

    /// Enqueues a subscription to the trades channel of a market.
    pub fn subscribe_trades(&mut self, symbol: &str)
        requires
            old(self).wf(),
        ensures
            same_identity(*old(self), *final(self)),
            final(self).spec_login_status() == old(self).spec_login_status(),
            final(self).spec_queue() == old(self).spec_queue().push(
                WsMessageView::Text(market_frame_spec("subscribe"@, "trades"@, symbol@)),
            ),
    {
        let frame = market_frame("subscribe", "trades", symbol);
        let _ = self.sender.send(frame.as_str());
    }

    /// Enqueues a subscription to the order-book channel of a market.
    pub fn subscribe_orderbook(&mut self, symbol: &str)
        requires
            old(self).wf(),
        ensures
            same_identity(*old(self), *final(self)),
            final(self).spec_login_status() == old(self).spec_login_status(),
            final(self).spec_queue() == old(self).spec_queue().push(
                WsMessageView::Text(market_frame_spec("subscribe"@, "orderbook"@, symbol@)),
            ),
    {
        let frame = market_frame("subscribe", "orderbook", symbol);
        let _ = self.sender.send(frame.as_str());
    }

    /// Enqueues a subscription to the grouped order-book channel of a
    /// market at a grouping step.
    pub fn subscribe_orderbook_grouped(&mut self, symbol: &str, group: i64)
        requires
            old(self).wf(),
        ensures
            same_identity(*old(self), *final(self)),
            final(self).spec_login_status() == old(self).spec_login_status(),
            final(self).spec_queue() == old(self).spec_queue().push(
                WsMessageView::Text(
                    grouped_frame_spec("subscribe"@, "orderbookGrouped"@, symbol@, group as int),
                ),
            ),
    {
        let frame = grouped_frame("subscribe", "orderbookGrouped", symbol, group);
        let _ = self.sender.send(frame.as_str());
    }

    /// Enqueues an unsubscription naming the channel and, when given, the
    /// market and the grouping. A grouping without a market is not
    /// meaningful and not accepted.
    pub fn unsubscribe(&mut self, channel: String, symbol: Option<String>, grouping: Option<i64>)
        requires
            old(self).wf(),
            grouping is Some ==> symbol is Some,
        ensures
            same_identity(*old(self), *final(self)),
            final(self).spec_login_status() == old(self).spec_login_status(),
            symbol is None ==> final(self).spec_queue() == old(self).spec_queue().push(
                WsMessageView::Text(channel_frame_spec("unsubscribe"@, channel@)),
            ),
            grouping is None ==> (symbol matches Some(m) ==> final(self).spec_queue() == old(
                self,
            ).spec_queue().push(
                WsMessageView::Text(market_frame_spec("unsubscribe"@, channel@, m@)),
            )),
            symbol matches Some(m) ==> (grouping matches Some(g) ==> final(self).spec_queue()
                == old(self).spec_queue().push(
                WsMessageView::Text(grouped_frame_spec("unsubscribe"@, channel@, m@, g as int)),
            )),
    {
        let frame = match (&symbol, &grouping) {
            (None, _) => channel_frame("unsubscribe", channel.as_str()),
            (Some(m), None) => market_frame("unsubscribe", channel.as_str(), m.as_str()),
            (Some(m), Some(g)) => grouped_frame(
                "unsubscribe",
                channel.as_str(),
                m.as_str(),
                *g,
            ),
        };
        let _ = self.sender.send(frame.as_str());
    }

    /// Enqueues a login frame signed at timestamp `ts` and optimistically
    /// marks the session authenticated — the flag flips before any server
    /// acknowledgement.
    pub fn login_at(&mut self, ts: i64)
        requires
            old(self).wf(),
        ensures
            same_identity(*old(self), *final(self)),
            final(self).spec_login_status(),
            final(self).spec_queue() == old(self).spec_queue().push(
                WsMessageView::Text(
                    login_frame_spec(
                        old(self).spec_api_key(),
                        hex_of(
                            hmac_sha256(
                                old(self).spec_secret_key(),
                                login_signing_string_spec(ts as int),
                            ),
                        ),
                        ts as int,
                    ),
                ),
            ),
    {
        let payload = login_signing_string(ts);
        let signature = sign(self.secret_key.as_str(), payload.as_str());
        let frame = login_frame(self.api_key.as_str(), signature.as_str(), ts);
        let _ = self.sender.send(frame.as_str());
        self.login_status = true;
    }

    /// Enqueues a login frame signed at the current time. Whatever the
    /// clock returned, one login frame at that timestamp is enqueued and
    /// the session is optimistically marked authenticated.
    pub fn login(&mut self)
        requires
            old(self).wf(),
        ensures
            same_identity(*old(self), *final(self)),
            final(self).spec_login_status(),
            exists|ts: int|
                final(self).spec_queue() == old(self).spec_queue().push(
                    WsMessageView::Text(
                        login_frame_spec(
                            old(self).spec_api_key(),
                            hex_of(
                                hmac_sha256(
                                    old(self).spec_secret_key(),
                                    login_signing_string_spec(ts),
                                ),
                            ),
                            ts,
                        ),
                    ),
                ),
    {
        let ts = now_ms();
        self.login_at(ts);
        proof {
            assert(final(self).spec_queue() == old(self).spec_queue().push(
                WsMessageView::Text(
                    login_frame_spec(
                        old(self).spec_api_key(),
                        hex_of(
                            hmac_sha256(
                                old(self).spec_secret_key(),
                                login_signing_string_spec(ts as int),
                            ),
                        ),
                        ts as int,
                    ),
                ),
            ));
        }
    }

    /// Enqueues a subscription to the private fills channel, logging in
    /// first when the session is not yet marked authenticated.
    pub fn subscribe_fills(&mut self)
        requires
            old(self).wf(),
        ensures
            same_identity(*old(self), *final(self)),
            final(self).spec_login_status(),
            old(self).spec_login_status() ==> final(self).spec_queue() == old(
                self,
            ).spec_queue().push(
                WsMessageView::Text(channel_frame_spec("subscribe"@, "fills"@)),
            ),
            !old(self).spec_login_status() ==> exists|ts: int|
                final(self).spec_queue() == old(self).spec_queue().push(
                    WsMessageView::Text(
                        login_frame_spec(
                            old(self).spec_api_key(),
                            hex_of(
                                hmac_sha256(
                                    old(self).spec_secret_key(),
                                    login_signing_string_spec(ts),
                                ),
                            ),
                            ts,
                        ),
                    ),
                ).push(WsMessageView::Text(channel_frame_spec("subscribe"@, "fills"@))),
    {
        if !self.login_status {
            self.login();
        }
        let frame = channel_frame("subscribe", "fills");
        let _ = self.sender.send(frame.as_str());
    }

    /// Enqueues a subscription to the private orders channel, logging in
    /// first when the session is not yet marked authenticated.
    pub fn subscribe_orders(&mut self)
        requires
            old(self).wf(),
        ensures
            same_identity(*old(self), *final(self)),
            final(self).spec_login_status(),
            old(self).spec_login_status() ==> final(self).spec_queue() == old(
                self,
            ).spec_queue().push(
                WsMessageView::Text(channel_frame_spec("subscribe"@, "orders"@)),
            ),
            !old(self).spec_login_status() ==> exists|ts: int|
                final(self).spec_queue() == old(self).spec_queue().push(
                    WsMessageView::Text(
                        login_frame_spec(
                            old(self).spec_api_key(),
                            hex_of(
                                hmac_sha256(
                                    old(self).spec_secret_key(),
                                    login_signing_string_spec(ts),
                                ),
                            ),
                            ts,
                        ),
                    ),
                ).push(WsMessageView::Text(channel_frame_spec("subscribe"@, "orders"@))),
    {
        if !self.login_status {
            self.login();
        }
        let frame = channel_frame("subscribe", "orders");
        let _ = self.sender.send(frame.as_str());
    }

    /// Enqueues a subscription to the private payments channel, logging
    /// in first when the session is not yet marked authenticated.
    pub fn subscribe_ftxpay(&mut self)
        requires
            old(self).wf(),
        ensures
            same_identity(*old(self), *final(self)),
            final(self).spec_login_status(),
            old(self).spec_login_status() ==> final(self).spec_queue() == old(
                self,
            ).spec_queue().push(
                WsMessageView::Text(channel_frame_spec("subscribe"@, "ftxpay"@)),
            ),
            !old(self).spec_login_status() ==> exists|ts: int|
                final(self).spec_queue() == old(self).spec_queue().push(
                    WsMessageView::Text(
                        login_frame_spec(
                            old(self).spec_api_key(),
                            hex_of(
                                hmac_sha256(
                                    old(self).spec_secret_key(),
                                    login_signing_string_spec(ts),
                                ),
                            ),
                            ts,
                        ),
                    ),
                ).push(WsMessageView::Text(channel_frame_spec("subscribe"@, "ftxpay"@))),
    {
        if !self.login_status {
            self.login();
        }
        let frame = channel_frame("subscribe", "ftxpay");
        let _ = self.sender.send(frame.as_str());
    }

    /// Whether the session has optimistically been marked authenticated.
    pub fn is_authenticated(&self) -> (r: bool)
        ensures
            r == self.spec_login_status(),
    {
        self.login_status
    }

    /// Takes the oldest queued command for the loop to write, in the
    /// order the commands were enqueued. An open, drained queue yields
    /// `Empty`.
    pub fn try_recv(&mut self) -> (r: Received)
        ensures
            same_identity(*old(self), *final(self)),
            final(self).spec_login_status() == old(self).spec_login_status(),
            old(self).spec_queue().len() > 0 ==> (r matches Received::Message(m) && m@ == old(
                self,
            ).spec_queue()[0]) && final(self).spec_queue() == old(self).spec_queue().drop_first(),
            old(self).spec_queue().len() == 0 ==> final(self).spec_queue() == old(
                self,
            ).spec_queue() && (if old(self).wf() {
                r is Empty
            } else {
                r is Disconnected
            }),
    {
        self.sender.try_recv()
    }
}

} // verus!
