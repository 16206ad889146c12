use vstd::prelude::*;

use crate::errors::BusError;
use crate::messages::{
    spec_message_type, spec_opt_int, spec_order_id, spec_read_int, spec_read_string,
    spec_request_id, IncomingKind, ResponseMessage,
};
use crate::router::SenderHash;
use crate::server_versions::ADVANCED_ORDER_REJECT;

verus! {

/// A server-reported error, parsed from an error payload.
pub struct ErrorNotice {
    /// The request the error speaks of; `-1` for a connection-level error.
    pub request_id: i32,
    /// The server's error code; `0` on the oldest payload form.
    pub error_code: i32,
    /// The server's error text.
    pub message: String,
    /// The trailing JSON blob sent since `ADVANCED_ORDER_REJECT`; empty
    /// before that.
    pub advanced_order_reject_json: String,
}

/// Where the dispatcher sent one payload.
#[derive(Clone, Copy, Debug, PartialEq, Eq, Structural)]
pub enum DispatchDecision {
    /// Handed to the request sink registered under the id.
    ToRequest(i32),
    /// Handed to the order sink registered under the id.
    ToOrder(i32),
    /// A connection-level error, put on the error channel.
    BroadcastError,
    /// The next valid order id, put in its single slot.
    PublishNextOrderId(i32),
    /// The managed-accounts list, put in its single slot.
    PublishManagedAccounts,
    /// An id was extracted but no sink is registered under it; logged and
    /// discarded.
    Miss(i32),
    /// No id could be extracted, or a field would not parse; logged and
    /// discarded.
    Dropped,
}

/// The id-bearing fields of an error payload read together:
/// `(request_id, error_code, message, advanced_order_reject_json)`. The
/// oldest payload form (version below two) carries the text alone.
pub open spec fn spec_error_notice(fields: Seq<Seq<u8>>, server_version: i32) -> Result<
    (i32, i32, Seq<char>, Seq<char>),
    BusError,
> {
    match spec_read_int(fields, 1) {
        Err(e) => Err(e),
        Ok(version) => if version < 2 {
            match spec_read_string(fields, 2) {
                Err(e) => Err(e),
                Ok(msg) => Ok((-1i32, 0i32, msg, Seq::empty())),
            }
        } else {
            match spec_read_int(fields, 2) {
                Err(e) => Err(e),
                Ok(rid) => match spec_read_int(fields, 3) {
                    Err(e) => Err(e),
                    Ok(code) => match spec_read_string(fields, 4) {
                        Err(e) => Err(e),
                        Ok(msg) => if server_version >= ADVANCED_ORDER_REJECT {
                            match spec_read_string(fields, 5) {
                                Err(e) => Err(e),
                                Ok(json) => Ok((rid, code, msg, json)),
                            }
                        } else {
                            Ok((rid, code, msg, Seq::empty()))
                        },
                    },
                },
            }
        },
    }
}

/// The request id an error payload routes by: its third field, or `-1`
/// when that field is missing or malformed.
pub open spec fn spec_error_route_id(fields: Seq<Seq<u8>>) -> i32 {
    match spec_opt_int(fields, 2) {
        Some(v) => v,
        None => -1i32,
    }
}

/// Routing by request id: the request map is searched first, then the
/// order map; an id in neither is a miss.
pub open spec fn spec_route_by_request(id: i32, requests: Set<i32>, orders: Set<i32>) -> DispatchDecision {
    if requests.contains(id) {
        DispatchDecision::ToRequest(id)
    } else if orders.contains(id) {
        DispatchDecision::ToOrder(id)
    } else {
        DispatchDecision::Miss(id)
    }
}

/// Order-notification routing: the order id of the payload is preferred;
/// with none, the request id; with neither, the payload is dropped.
pub open spec fn spec_order_notification_route(
    fields: Seq<Seq<u8>>,
    requests: Set<i32>,
    orders: Set<i32>,
) -> DispatchDecision {
    match spec_order_id(fields) {
        Some(oid) => if orders.contains(oid) {
            DispatchDecision::ToOrder(oid)
        } else {
            DispatchDecision::Miss(oid)
        },
        None => match spec_request_id(fields) {
            Some(rid) => if requests.contains(rid) {
                DispatchDecision::ToRequest(rid)
            } else {
                DispatchDecision::Miss(rid)
            },
            None => DispatchDecision::Dropped,
        },
    }
}

/// The request id a payload routes by on the default path: the id its kind
/// carries, or `-1`.
pub open spec fn spec_default_route_id(fields: Seq<Seq<u8>>) -> i32 {
    match spec_request_id(fields) {
        Some(v) => v,
        None => -1i32,
    }
}

/// The fate of one payload: the classification of its first field decides,
/// then the maps are searched in the order the kind fixes.
pub open spec fn spec_dispatch_decision(
    fields: Seq<Seq<u8>>,
    server_version: i32,
    requests: Set<i32>,
    orders: Set<i32>,
) -> DispatchDecision {
    match spec_message_type(fields) {
        IncomingKind::Error => {
            let rid = spec_error_route_id(fields);
            if rid == -1 {
                if spec_error_notice(fields, server_version) is Ok {
                    DispatchDecision::BroadcastError
                } else {
                    DispatchDecision::Dropped
                }
            } else {
                spec_route_by_request(rid, requests, orders)
            }
        },
        IncomingKind::NextValidId => match spec_opt_int(fields, 2) {
            Some(oid) => DispatchDecision::PublishNextOrderId(oid),
            None => DispatchDecision::Dropped,
        },
        IncomingKind::ManagedAccounts => if spec_read_string(fields, 2) is Ok {
            DispatchDecision::PublishManagedAccounts
        } else {
            DispatchDecision::Dropped
        },
        IncomingKind::OrderStatus => spec_order_notification_route(fields, requests, orders),
        IncomingKind::OpenOrder => spec_order_notification_route(fields, requests, orders),
        IncomingKind::ExecutionData => spec_order_notification_route(fields, requests, orders),
        IncomingKind::OpenOrderEnd => spec_order_notification_route(fields, requests, orders),
        IncomingKind::ExecutionDataEnd => spec_order_notification_route(fields, requests, orders),
        IncomingKind::CommissionsReport => spec_order_notification_route(
            fields,
            requests,
            orders,
        ),
        _ => spec_route_by_request(spec_default_route_id(fields), requests, orders),
    }
}

/// Parse a connection-level error payload into an `ErrorNotice`.
pub fn error_event(server_version: i32, packet: ResponseMessage) -> (r: Result<
    ErrorNotice,
    BusError,
>)
    ensures
        spec_error_notice(packet@, server_version) matches Ok(t) ==> (r matches Ok(n)
            && n.request_id == t.0 && n.error_code == t.1 && n.message@ == t.2
            && n.advanced_order_reject_json@ == t.3),
        spec_error_notice(packet@, server_version) matches Err(e) ==> (r matches Err(e2) && e2
            == e),
{
    let version = match packet.peek_int(1) {
        Ok(v) => v,
        Err(e) => {
            return Err(e);
        },
    };
    if version < 2 {
        let msg = match packet.peek_string(2) {
            Ok(s) => s,
            Err(e) => {
                return Err(e);
            },
        };
        Ok(
            ErrorNotice {
                request_id: -1,
                error_code: 0,
                message: msg,
                advanced_order_reject_json: String::new(),
            },
        )
    } else {
        let request_id = match packet.peek_int(2) {
            Ok(v) => v,
            Err(e) => {
                return Err(e);
            },
        };
        let error_code = match packet.peek_int(3) {
            Ok(v) => v,
            Err(e) => {
                return Err(e);
            },
        };
        let message = match packet.peek_string(4) {
            Ok(s) => s,
            Err(e) => {
                return Err(e);
            },
        };
        let advanced_order_reject_json = if server_version >= ADVANCED_ORDER_REJECT {
            match packet.peek_string(5) {
                Ok(s) => s,
                Err(e) => {
                    return Err(e);
                },
            }
        } else {
            String::new()
        };
        Ok(ErrorNotice { request_id, error_code, message, advanced_order_reject_json })
    }
}

/// The next valid order id carried by a `NextValidId` payload, after the
/// kind and version fields.
pub fn process_next_valid_id(server_version: i32, packet: ResponseMessage) -> (r: Option<i32>)
    ensures
        r == spec_opt_int(packet@, 2),
{
    let _ = server_version;
    match packet.peek_int(2) {
        Ok(v) => Some(v),
        Err(_) => None,
    }
}

/// The comma-separated account list carried by a `ManagedAccounts`
/// payload, after the kind and version fields.
pub fn process_managed_accounts(server_version: i32, packet: ResponseMessage) -> (r: Option<
    String,
>)
    ensures
        spec_read_string(packet@, 2) matches Ok(cs) ==> (r matches Some(s) && s@ == cs),
        spec_read_string(packet@, 2) is Err ==> r is None,
{
    let _ = server_version;
    match packet.peek_string(2) {
        Ok(s) => Some(s),
        Err(_) => None,
    }
}

/// Default routing: by the request id the payload carries, request map
/// first, then order map.
pub fn process_response(
    requests: &SenderHash<ResponseMessage>,
    orders: &SenderHash<ResponseMessage>,
    message: ResponseMessage,
) -> (r: DispatchDecision)
    ensures
        r == spec_route_by_request(
            spec_default_route_id(message@),
            requests@.dom(),
            orders@.dom(),
        ),
{
    let request_id = match message.request_id() {
        Some(v) => v,
        None => -1i32,
    };
    if requests.contains(request_id) {
        let _ = requests.send(request_id, message);
        DispatchDecision::ToRequest(request_id)
    } else if orders.contains(request_id) {
        let _ = orders.send(request_id, message);
        DispatchDecision::ToOrder(request_id)
    } else {
        DispatchDecision::Miss(request_id)
    }
}

/// Order-notification routing: by the payload's order id when it carries
/// one, else by its request id, else dropped.
pub fn process_order_notifications(
    message: ResponseMessage,
    requests: &SenderHash<ResponseMessage>,
    orders: &SenderHash<ResponseMessage>,
) -> (r: DispatchDecision)
    ensures
        r == spec_order_notification_route(message@, requests@.dom(), orders@.dom()),
{
    match message.order_id() {
        Some(order_id) => {
            if orders.contains(order_id) {
                let _ = orders.send(order_id, message);
                DispatchDecision::ToOrder(order_id)
            } else {
                DispatchDecision::Miss(order_id)
            }
        },
        None => {
            match message.request_id() {
                Some(request_id) => {
                    if requests.contains(request_id) {
                        let _ = requests.send(request_id, message);
                        DispatchDecision::ToRequest(request_id)
                    } else {
                        DispatchDecision::Miss(request_id)
                    }
                },
                None => DispatchDecision::Dropped,
            }
        },
    }
}

/// Routing uniqueness: a reply of a kind routed by request id, carrying
/// request id `id` registered in the request map, goes to that request's
/// sink — the decision names exactly one target.
pub proof fn lemma_routing_uniqueness(
    fields: Seq<Seq<u8>>,
    server_version: i32,
    requests: Set<i32>,
    orders: Set<i32>,
    id: i32,
)
    requires
        requests.contains(id),
        spec_request_id(fields) == Some(id),
        id != -1,
        spec_order_id(fields) is None,
    ensures
        spec_dispatch_decision(fields, server_version, requests, orders)
            == DispatchDecision::ToRequest(id),
{
}

/// Tie-break: when one id is registered in both maps, a
/// non-order-notification reply carrying it as request id goes to the
/// request sink.
pub proof fn lemma_tie_break(
    fields: Seq<Seq<u8>>,
    server_version: i32,
    requests: Set<i32>,
    orders: Set<i32>,
    id: i32,
)
    requires
        requests.contains(id),
        orders.contains(id),
        spec_request_id(fields) == Some(id),
        id != -1,
        spec_message_type(fields) == IncomingKind::Error || spec_message_type(fields)
            == IncomingKind::Other,
    ensures
        spec_dispatch_decision(fields, server_version, requests, orders)
            == DispatchDecision::ToRequest(id),
{
}

} // verus!
