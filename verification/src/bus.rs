use vstd::prelude::*;

use crate::codec::spec_encode_fields;
use crate::dispatcher::{
    error_event, process_managed_accounts, process_next_valid_id, process_order_notifications,
    process_response, spec_dispatch_decision, spec_error_notice, DispatchDecision, ErrorNotice,
};
use crate::errors::BusError;
use crate::framer::{encode_frame, spec_frame, MAX_FRAME};
use crate::messages::{spec_read_string, IncomingKind, RequestMessage, ResponseMessage};
use crate::recorder::{spec_recorded, MessageRecorder, RecordFile};
use crate::router::SenderHash;
use crate::sink::{channel_pair, ResponsePacketPromise};
use crossbeam::channel::Sender;

verus! {

/// The request id that means "unspecified / broadcast".
pub const UNSPECIFIED_REQUEST_ID: i32 = -1;

/// What a send primitive hands the transport: the framed bytes, and the
/// capture to write if recording is on.
pub struct OutboundFrame {
    /// The payload with its 4-byte big-endian length prefix.
    pub frame: Vec<u8>,
    /// The capture of this payload, when recording is enabled.
    pub record: Option<RecordFile>,
}

/// The state of the message bus: the two router maps, the notification
/// slots the dispatcher fills, the connection-level error channel, the
/// recorder, and the negotiated server version.
pub struct MessageBusCore {
    requests: SenderHash<ResponseMessage>,
    orders: SenderHash<ResponseMessage>,
    recorder: MessageRecorder,
    next_order_id: Option<i32>,
    managed_accounts: Option<String>,
    connection_errors: Vec<ErrorNotice>,
    server_version: i32,
    connection_time: Option<String>,
    closed: bool,
}

impl MessageBusCore {
    /// The request map: request id to sink.
    pub closed spec fn spec_requests(&self) -> Map<i32, Sender<ResponseMessage>> {
        self.requests@
    }

    /// The order map: order id to sink.
    pub closed spec fn spec_orders(&self) -> Map<i32, Sender<ResponseMessage>> {
        self.orders@
    }

    /// The recorder with its shared record counter.
    pub closed spec fn spec_recorder(&self) -> MessageRecorder {
        self.recorder
    }

    /// The single slot the next valid order id is published to.
    pub closed spec fn spec_next_order_id(&self) -> Option<i32> {
        self.next_order_id
    }

    /// The single slot the managed-accounts list is published to.
    pub closed spec fn spec_managed_accounts(&self) -> Option<String> {
        self.managed_accounts
    }

    /// The connection-level error channel, oldest first.
    pub closed spec fn spec_errors(&self) -> Seq<ErrorNotice> {
        self.connection_errors@
    }

    /// The server version negotiated at handshake.
    pub closed spec fn spec_server_version(&self) -> i32 {
        self.server_version
    }

    /// The connection time reported at handshake.
    pub closed spec fn spec_connection_time(&self) -> Option<String> {
        self.connection_time
    }

    /// Whether the bus has failed permanently.
    pub closed spec fn spec_closed(&self) -> bool {
        self.closed
    }

    /// A fresh bus for a connection with the given negotiated version; no
    /// registrations, empty slots, not yet failed.
    pub fn new(server_version: i32, recorder: MessageRecorder) -> (r: MessageBusCore)
        ensures
            r.spec_requests() == Map::<i32, Sender<ResponseMessage>>::empty(),
            r.spec_orders() == Map::<i32, Sender<ResponseMessage>>::empty(),
            r.spec_recorder() == recorder,
            r.spec_next_order_id() is None,
            r.spec_managed_accounts() is None,
            r.spec_errors() == Seq::<ErrorNotice>::empty(),
            r.spec_server_version() == server_version,
            r.spec_connection_time() is None,
            !r.spec_closed(),
    {
        let r = MessageBusCore {
            requests: SenderHash::new(),
            orders: SenderHash::new(),
            recorder,
            next_order_id: None,
            managed_accounts: None,
            connection_errors: Vec::new(),
            server_version,
            connection_time: None,
            closed: false,
        };
        proof {
            assert(r.spec_errors() =~= Seq::<ErrorNotice>::empty());
        }
        r
    }

    /// The negotiated server version.
    pub fn server_version(&self) -> (r: i32)
        ensures
            r == self.spec_server_version(),
    {
        self.server_version
    }

    /// The connection time reported at handshake, if it has been set.
    pub fn connection_time(&self) -> (r: Option<String>)
        ensures
            r is Some <==> self.spec_connection_time() is Some,
            r matches Some(s) ==> (self.spec_connection_time() matches Some(t) && s@ == t@),
    {
        match &self.connection_time {
            Some(t) => Some(t.clone()),
            None => None,
        }
    }

    /// Store the connection time reported at handshake.
    pub fn set_connection_time(&mut self, t: String)
        ensures
            final (self).spec_connection_time() == Some(t),
            final (self).spec_requests() == old(self).spec_requests(),
            final (self).spec_orders() == old(self).spec_orders(),
            final (self).spec_recorder() == old(self).spec_recorder(),
            final (self).spec_next_order_id() == old(self).spec_next_order_id(),
            final (self).spec_managed_accounts() == old(self).spec_managed_accounts(),
            final (self).spec_errors() == old(self).spec_errors(),
            final (self).spec_server_version() == old(self).spec_server_version(),
            final (self).spec_closed() == old(self).spec_closed(),
    {
        self.connection_time = Some(t);
    }

    /// Mark the bus permanently failed; send primitives refuse from here
    /// on.
    pub fn mark_closed(&mut self)
        ensures
            final (self).spec_closed(),
            final (self).spec_requests() == old(self).spec_requests(),
            final (self).spec_orders() == old(self).spec_orders(),
            final (self).spec_recorder() == old(self).spec_recorder(),
            final (self).spec_next_order_id() == old(self).spec_next_order_id(),
            final (self).spec_managed_accounts() == old(self).spec_managed_accounts(),
            final (self).spec_errors() == old(self).spec_errors(),
            final (self).spec_server_version() == old(self).spec_server_version(),
            final (self).spec_connection_time() == old(self).spec_connection_time(),
    {
        self.closed = true;
    }

    /// Shut the bus down: mark it failed and drop every registered sink,
    /// so every consumer observes the end of its stream. No in-flight
    /// request is retried.
    pub fn shutdown(&mut self)
        ensures
            final (self).spec_closed(),
            final (self).spec_requests() == Map::<i32, Sender<ResponseMessage>>::empty(),
            final (self).spec_orders() == Map::<i32, Sender<ResponseMessage>>::empty(),
            final (self).spec_recorder() == old(self).spec_recorder(),
            final (self).spec_next_order_id() == old(self).spec_next_order_id(),
            final (self).spec_managed_accounts() == old(self).spec_managed_accounts(),
            final (self).spec_errors() == old(self).spec_errors(),
            final (self).spec_server_version() == old(self).spec_server_version(),
            final (self).spec_connection_time() == old(self).spec_connection_time(),
    {
        self.closed = true;
        self.requests.clear();
        self.orders.clear();
    }

    /// Whether the bus has failed permanently.
    pub fn is_closed(&self) -> (r: bool)
        ensures
            r == self.spec_closed(),
    {
        self.closed
    }

    /// Register a sink under a request id; a sink already there is
    /// orphaned.
    pub fn add_request(&mut self, request_id: i32, sender: Sender<ResponseMessage>)
        ensures
            final (self).spec_requests() == old(self).spec_requests().insert(request_id, sender),
            final (self).spec_orders() == old(self).spec_orders(),
            final (self).spec_recorder() == old(self).spec_recorder(),
            final (self).spec_next_order_id() == old(self).spec_next_order_id(),
            final (self).spec_managed_accounts() == old(self).spec_managed_accounts(),
            final (self).spec_errors() == old(self).spec_errors(),
            final (self).spec_server_version() == old(self).spec_server_version(),
            final (self).spec_connection_time() == old(self).spec_connection_time(),
            final (self).spec_closed() == old(self).spec_closed(),
    {
        let _ = self.requests.insert(request_id, sender);
    }

    /// Register a sink under an order id; a sink already there is orphaned.
    pub fn add_order(&mut self, order_id: i32, sender: Sender<ResponseMessage>)
        ensures
            final (self).spec_orders() == old(self).spec_orders().insert(order_id, sender),
            final (self).spec_requests() == old(self).spec_requests(),
            final (self).spec_recorder() == old(self).spec_recorder(),
            final (self).spec_next_order_id() == old(self).spec_next_order_id(),
            final (self).spec_managed_accounts() == old(self).spec_managed_accounts(),
            final (self).spec_errors() == old(self).spec_errors(),
            final (self).spec_server_version() == old(self).spec_server_version(),
            final (self).spec_connection_time() == old(self).spec_connection_time(),
            final (self).spec_closed() == old(self).spec_closed(),
    {
        let _ = self.orders.insert(order_id, sender);
    }

    /// Unregister a request id: cancellation or drop of its response
    /// stream. After this the router holds no sink under the id;
    /// cancelling twice changes nothing more.
    pub fn cancel_request(&mut self, request_id: i32)
        ensures
            final (self).spec_requests() == old(self).spec_requests().remove(request_id),
            !final (self).spec_requests().contains_key(request_id),
            final (self).spec_orders() == old(self).spec_orders(),
            final (self).spec_recorder() == old(self).spec_recorder(),
            final (self).spec_next_order_id() == old(self).spec_next_order_id(),
            final (self).spec_managed_accounts() == old(self).spec_managed_accounts(),
            final (self).spec_errors() == old(self).spec_errors(),
            final (self).spec_server_version() == old(self).spec_server_version(),
            final (self).spec_connection_time() == old(self).spec_connection_time(),
            final (self).spec_closed() == old(self).spec_closed(),
    {
        let _ = self.requests.remove(request_id);
    }

    /// Unregister an order id, as `cancel_request` does for requests.
    pub fn cancel_order(&mut self, order_id: i32)
        ensures
            final (self).spec_orders() == old(self).spec_orders().remove(order_id),
            !final (self).spec_orders().contains_key(order_id),
            final (self).spec_requests() == old(self).spec_requests(),
            final (self).spec_recorder() == old(self).spec_recorder(),
            final (self).spec_next_order_id() == old(self).spec_next_order_id(),
            final (self).spec_managed_accounts() == old(self).spec_managed_accounts(),
            final (self).spec_errors() == old(self).spec_errors(),
            final (self).spec_server_version() == old(self).spec_server_version(),
            final (self).spec_connection_time() == old(self).spec_connection_time(),
            final (self).spec_closed() == old(self).spec_closed(),
    {
        let _ = self.orders.remove(order_id);
    }

    /// Whether a sink is registered under the request id.
    pub fn contains_request(&self, request_id: i32) -> (r: bool)
        ensures
            r == self.spec_requests().contains_key(request_id),
    {
        self.requests.contains(request_id)
    }

    /// Whether a sink is registered under the order id.
    pub fn contains_order(&self, order_id: i32) -> (r: bool)
        ensures
            r == self.spec_orders().contains_key(order_id),
    {
        self.orders.contains(order_id)
    }

    /// Frame an outbound payload and capture it: the 4-byte big-endian
    /// length prefix before the encoded fields. Refused once the bus is
    /// closed, and for payloads over `MAX_FRAME` bytes. No registration:
    /// this is the raw framed send.
    pub fn write_message(&mut self, message: &RequestMessage) -> (r: Result<
        OutboundFrame,
        BusError,
    >)
        ensures
            final (self).spec_requests() == old(self).spec_requests(),
            final (self).spec_orders() == old(self).spec_orders(),
            final (self).spec_next_order_id() == old(self).spec_next_order_id(),
            final (self).spec_managed_accounts() == old(self).spec_managed_accounts(),
            final (self).spec_errors() == old(self).spec_errors(),
            final (self).spec_server_version() == old(self).spec_server_version(),
            final (self).spec_connection_time() == old(self).spec_connection_time(),
            final (self).spec_closed() == old(self).spec_closed(),
            old(self).spec_closed() ==> (r matches Err(e) && e == BusError::TransportClosed
                && final (self).spec_recorder() == old(self).spec_recorder()),
            !old(self).spec_closed() && spec_encode_fields(message@).len() > MAX_FRAME ==> (
            r matches Err(e) && e == BusError::FrameTooLarge && final (self).spec_recorder()
                == old(self).spec_recorder()),
            !old(self).spec_closed() && spec_encode_fields(message@).len() <= MAX_FRAME ==> (
            r matches Ok(f) && f.frame@ == spec_frame(spec_encode_fields(message@))
                && spec_recorded(
                old(self).spec_recorder(),
                final (self).spec_recorder(),
                f.record,
                spec_encode_fields(message@),
                true,
            )),
    {
        if self.closed {
            return Err(BusError::TransportClosed);
        }
        let payload = message.encode();
        match encode_frame(&payload) {
            Ok(frame) => {
                let record = self.recorder.record_request(message);
                Ok(OutboundFrame { frame, record })
            },
            Err(e) => Err(e),
        }
    }

    /// The send primitive for a request: register the sink under the
    /// request id first, then frame the payload, so no reply can race past
    /// the registration. The response stream handle comes back beside the
    /// frame; the registration stays until cancelled.
    pub fn write_message_for_request(&mut self, request_id: i32, message: &RequestMessage) -> (r:
        Result<(OutboundFrame, ResponsePacketPromise), BusError>)
        ensures
            final (self).spec_orders() == old(self).spec_orders(),
            final (self).spec_next_order_id() == old(self).spec_next_order_id(),
            final (self).spec_managed_accounts() == old(self).spec_managed_accounts(),
            final (self).spec_errors() == old(self).spec_errors(),
            final (self).spec_server_version() == old(self).spec_server_version(),
            final (self).spec_connection_time() == old(self).spec_connection_time(),
            final (self).spec_closed() == old(self).spec_closed(),
            old(self).spec_closed() ==> (r matches Err(e) && e == BusError::TransportClosed
                && final (self).spec_requests() == old(self).spec_requests() && final (
            self).spec_recorder() == old(self).spec_recorder()),
            !old(self).spec_closed() ==> final (self).spec_requests().dom() == old(
                self,
            ).spec_requests().dom().insert(request_id),
            !old(self).spec_closed() && spec_encode_fields(message@).len() > MAX_FRAME ==> (
            r matches Err(e) && e == BusError::FrameTooLarge && final (self).spec_recorder()
                == old(self).spec_recorder()),
            !old(self).spec_closed() && spec_encode_fields(message@).len() <= MAX_FRAME ==> (
            r matches Ok(p) && p.0.frame@ == spec_frame(spec_encode_fields(message@))
                && spec_recorded(
                old(self).spec_recorder(),
                final (self).spec_recorder(),
                p.0.record,
                spec_encode_fields(message@),
                true,
            )),
    {
        if self.closed {
            return Err(BusError::TransportClosed);
        }
        let (sender, receiver) = channel_pair::<ResponseMessage>();
        let (signals_out, _signals_in) = channel_pair::<i32>();
        let _ = self.requests.insert(request_id, sender);
        let payload = message.encode();
        match encode_frame(&payload) {
            Ok(frame) => {
                let record = self.recorder.record_request(message);
                Ok((OutboundFrame { frame, record }, ResponsePacketPromise::new(
                    receiver,
                    signals_out,
                )))
            },
            Err(e) => Err(e),
        }
    }

    /// The send primitive for an order: as `write_message_for_request`,
    /// against the order map.
    pub fn send_order_message(&mut self, order_id: i32, message: &RequestMessage) -> (r: Result<
        (OutboundFrame, ResponsePacketPromise),
        BusError,
    >)
        ensures
            final (self).spec_requests() == old(self).spec_requests(),
            final (self).spec_next_order_id() == old(self).spec_next_order_id(),
            final (self).spec_managed_accounts() == old(self).spec_managed_accounts(),
            final (self).spec_errors() == old(self).spec_errors(),
            final (self).spec_server_version() == old(self).spec_server_version(),
            final (self).spec_connection_time() == old(self).spec_connection_time(),
            final (self).spec_closed() == old(self).spec_closed(),
            old(self).spec_closed() ==> (r matches Err(e) && e == BusError::TransportClosed
                && final (self).spec_orders() == old(self).spec_orders() && final (
            self).spec_recorder() == old(self).spec_recorder()),
            !old(self).spec_closed() ==> final (self).spec_orders().dom() == old(
                self,
            ).spec_orders().dom().insert(order_id),
            !old(self).spec_closed() && spec_encode_fields(message@).len() > MAX_FRAME ==> (
            r matches Err(e) && e == BusError::FrameTooLarge && final (self).spec_recorder()
                == old(self).spec_recorder()),
            !old(self).spec_closed() && spec_encode_fields(message@).len() <= MAX_FRAME ==> (
            r matches Ok(p) && p.0.frame@ == spec_frame(spec_encode_fields(message@))
                && spec_recorded(
                old(self).spec_recorder(),
                final (self).spec_recorder(),
                p.0.record,
                spec_encode_fields(message@),
                true,
            )),
    {
        if self.closed {
            return Err(BusError::TransportClosed);
        }
        let (sender, receiver) = channel_pair::<ResponseMessage>();
        let (signals_out, _signals_in) = channel_pair::<i32>();
        let _ = self.orders.insert(order_id, sender);
        let payload = message.encode();
        match encode_frame(&payload) {
            Ok(frame) => {
                let record = self.recorder.record_request(message);
                Ok((OutboundFrame { frame, record }, ResponsePacketPromise::new(
                    receiver,
                    signals_out,
                )))
            },
            Err(e) => Err(e),
        }
    }

    /// Capture a payload coming in, under the next id of the same counter
    /// the send paths use.
    pub fn record_response(&mut self, message: &ResponseMessage) -> (r: Option<RecordFile>)
        ensures
            spec_recorded(
                old(self).spec_recorder(),
                final (self).spec_recorder(),
                r,
                spec_encode_fields(message@),
                false,
            ),
            final (self).spec_requests() == old(self).spec_requests(),
            final (self).spec_orders() == old(self).spec_orders(),
            final (self).spec_next_order_id() == old(self).spec_next_order_id(),
            final (self).spec_managed_accounts() == old(self).spec_managed_accounts(),
            final (self).spec_errors() == old(self).spec_errors(),
            final (self).spec_server_version() == old(self).spec_server_version(),
            final (self).spec_connection_time() == old(self).spec_connection_time(),
            final (self).spec_closed() == old(self).spec_closed(),
    {
        self.recorder.record_response(message)
    }

    /// Classify one decoded payload and route it: errors by their third
    /// field, with `-1` meaning a connection-level event; the next valid
    /// order id and the account list to their single slots; order
    /// notifications by order id before request id; everything else by
    /// request id, request map before order map. The maps themselves never
    /// change here.
    pub fn dispatch_message(&mut self, message: ResponseMessage) -> (r: DispatchDecision)
        ensures
            r == spec_dispatch_decision(
                message@,
                old(self).spec_server_version(),
                old(self).spec_requests().dom(),
                old(self).spec_orders().dom(),
            ),
            final (self).spec_requests() == old(self).spec_requests(),
            final (self).spec_orders() == old(self).spec_orders(),
            final (self).spec_recorder() == old(self).spec_recorder(),
            final (self).spec_server_version() == old(self).spec_server_version(),
            final (self).spec_connection_time() == old(self).spec_connection_time(),
            final (self).spec_closed() == old(self).spec_closed(),
            r matches DispatchDecision::PublishNextOrderId(oid) ==> final (
            self).spec_next_order_id() == Some(oid),
            !(r is PublishNextOrderId) ==> final (self).spec_next_order_id() == old(
                self,
            ).spec_next_order_id(),
            r is PublishManagedAccounts ==> (spec_read_string(message@, 2) matches Ok(cs) && final (
            self).spec_managed_accounts() matches Some(a) && a@ == cs),
            !(r is PublishManagedAccounts) ==> final (self).spec_managed_accounts() == old(
                self,
            ).spec_managed_accounts(),
            r is BroadcastError ==> (spec_error_notice(
                message@,
                old(self).spec_server_version(),
            ) matches Ok(t) && final (self).spec_errors().len() == old(self).spec_errors().len() + 1
                && final (self).spec_errors().drop_last() == old(self).spec_errors() && final (
            self).spec_errors().last().request_id == t.0 && final (
            self).spec_errors().last().error_code == t.1 && final (
            self).spec_errors().last().message@ == t.2 && final (
            self).spec_errors().last().advanced_order_reject_json@ == t.3),
            !(r is BroadcastError) ==> final (self).spec_errors() == old(self).spec_errors(),
    {
        match message.message_type() {
            IncomingKind::Error => {
                let request_id = match message.peek_int(2) {
                    Ok(v) => v,
                    Err(_) => -1,
                };
                if request_id == UNSPECIFIED_REQUEST_ID {
                    match error_event(self.server_version, message) {
                        Ok(notice) => {
                            let ghost pre = self.connection_errors@;
                            self.connection_errors.push(notice);
                            proof {
                                assert(self.connection_errors@.drop_last() =~= pre);
                            }
                            DispatchDecision::BroadcastError
                        },
                        Err(_) => DispatchDecision::Dropped,
                    }
                } else {
                    process_response(&self.requests, &self.orders, message)
                }
            },
            IncomingKind::NextValidId => {
                match process_next_valid_id(self.server_version, message) {
                    Some(oid) => {
                        self.next_order_id = Some(oid);
                        DispatchDecision::PublishNextOrderId(oid)
                    },
                    None => DispatchDecision::Dropped,
                }
            },
            IncomingKind::ManagedAccounts => {
                match process_managed_accounts(self.server_version, message) {
                    Some(accounts) => {
                        self.managed_accounts = Some(accounts);
                        DispatchDecision::PublishManagedAccounts
                    },
                    None => DispatchDecision::Dropped,
                }
            },
            IncomingKind::OrderStatus => process_order_notifications(
                message,
                &self.requests,
                &self.orders,
            ),
            IncomingKind::OpenOrder => process_order_notifications(
                message,
                &self.requests,
                &self.orders,
            ),
            IncomingKind::ExecutionData => process_order_notifications(
                message,
                &self.requests,
                &self.orders,
            ),
            IncomingKind::OpenOrderEnd => process_order_notifications(
                message,
                &self.requests,
                &self.orders,
            ),
            IncomingKind::ExecutionDataEnd => process_order_notifications(
                message,
                &self.requests,
                &self.orders,
            ),
            IncomingKind::CommissionsReport => process_order_notifications(
                message,
                &self.requests,
                &self.orders,
            ),
            _ => process_response(&self.requests, &self.orders, message),
        }
    }

    /// Take the next valid order id out of its single slot.
    pub fn next_order_id(&mut self) -> (r: Option<i32>)
        ensures
            r == old(self).spec_next_order_id(),
            final (self).spec_next_order_id() is None,
            final (self).spec_requests() == old(self).spec_requests(),
            final (self).spec_orders() == old(self).spec_orders(),
            final (self).spec_recorder() == old(self).spec_recorder(),
            final (self).spec_managed_accounts() == old(self).spec_managed_accounts(),
            final (self).spec_errors() == old(self).spec_errors(),
            final (self).spec_server_version() == old(self).spec_server_version(),
            final (self).spec_connection_time() == old(self).spec_connection_time(),
            final (self).spec_closed() == old(self).spec_closed(),
    {
        self.next_order_id.take()
    }

    /// Take the managed-accounts list out of its single slot.
    pub fn managed_accounts(&mut self) -> (r: Option<String>)
        ensures
            r == old(self).spec_managed_accounts(),
            final (self).spec_managed_accounts() is None,
            final (self).spec_requests() == old(self).spec_requests(),
            final (self).spec_orders() == old(self).spec_orders(),
            final (self).spec_recorder() == old(self).spec_recorder(),
            final (self).spec_next_order_id() == old(self).spec_next_order_id(),
            final (self).spec_errors() == old(self).spec_errors(),
            final (self).spec_server_version() == old(self).spec_server_version(),
            final (self).spec_connection_time() == old(self).spec_connection_time(),
            final (self).spec_closed() == old(self).spec_closed(),
    {
        self.managed_accounts.take()
    }

    /// Take the oldest connection-level error off the error channel.
    pub fn next_connection_error(&mut self) -> (r: Option<ErrorNotice>)
        ensures
            old(self).spec_errors().len() == 0 ==> r is None && final (self).spec_errors() == old(
                self,
            ).spec_errors(),
            old(self).spec_errors().len() > 0 ==> (r matches Some(n) && n == old(
                self,
            ).spec_errors()[0] && final (self).spec_errors() == old(self).spec_errors().skip(1)),
            final (self).spec_requests() == old(self).spec_requests(),
            final (self).spec_orders() == old(self).spec_orders(),
            final (self).spec_recorder() == old(self).spec_recorder(),
            final (self).spec_next_order_id() == old(self).spec_next_order_id(),
            final (self).spec_managed_accounts() == old(self).spec_managed_accounts(),
            final (self).spec_server_version() == old(self).spec_server_version(),
            final (self).spec_connection_time() == old(self).spec_connection_time(),
            final (self).spec_closed() == old(self).spec_closed(),
    {
        if self.connection_errors.len() == 0 {
            None
        } else {
            let n = self.connection_errors.remove(0);
            proof {
                assert(self.connection_errors@ =~= old(self).spec_errors().skip(1));
            }
            Some(n)
        }
    }
}

} // verus!
