use vstd::prelude::*;

use crate::codec::{
    fields_ok, no_nul, spec_encode_fields, spec_i32_digits, spec_parse_i32, spec_split_fields,
    encode_fields, i32_to_digits, lemma_parse_render_i32, parse_i32_field, split_fields,
};
use crate::errors::{BusError, DecodeErrorKind};
use vstd::string::StringSliceAdditionalSpecFns;
use vstd::string::StrSliceExecFns;

verus! {

/// The inbound message-type discriminator: the first field of a response
/// payload, as far as routing cares about it.
#[derive(Clone, Copy, Debug, PartialEq, Eq, Structural)]
pub enum IncomingKind {
    OrderStatus,
    Error,
    OpenOrder,
    NextValidId,
    ExecutionData,
    ManagedAccounts,
    OpenOrderEnd,
    ExecutionDataEnd,
    CommissionsReport,
    /// Any other well-formed discriminator: routed by request id.
    Other,
    /// The first field is missing or not an integer.
    NotValid,
}

/// The classification of a message-type code.
pub open spec fn spec_kind_from_code(c: i32) -> IncomingKind {
    if c == 3 {
        IncomingKind::OrderStatus
    } else if c == 4 {
        IncomingKind::Error
    } else if c == 5 {
        IncomingKind::OpenOrder
    } else if c == 9 {
        IncomingKind::NextValidId
    } else if c == 11 {
        IncomingKind::ExecutionData
    } else if c == 15 {
        IncomingKind::ManagedAccounts
    } else if c == 53 {
        IncomingKind::OpenOrderEnd
    } else if c == 55 {
        IncomingKind::ExecutionDataEnd
    } else if c == 59 {
        IncomingKind::CommissionsReport
    } else {
        IncomingKind::Other
    }
}

/// Classify a message-type code.
pub fn kind_from_code(c: i32) -> (r: IncomingKind)
    ensures
        r == spec_kind_from_code(c),
{
    match c {
        3 => IncomingKind::OrderStatus,
        4 => IncomingKind::Error,
        5 => IncomingKind::OpenOrder,
        9 => IncomingKind::NextValidId,
        11 => IncomingKind::ExecutionData,
        15 => IncomingKind::ManagedAccounts,
        53 => IncomingKind::OpenOrderEnd,
        55 => IncomingKind::ExecutionDataEnd,
        59 => IncomingKind::CommissionsReport,
        _ => IncomingKind::Other,
    }
}

/// The kind of a payload: its first field read as a message-type code.
pub open spec fn spec_message_type(fields: Seq<Seq<u8>>) -> IncomingKind {
    if fields.len() == 0 {
        IncomingKind::NotValid
    } else {
        match spec_parse_i32(fields[0]) {
            Ok(c) => spec_kind_from_code(c),
            Err(_) => IncomingKind::NotValid,
        }
    }
}

/// Field `i` of a payload read as an `i32`, with the reason when it cannot
/// be.
pub open spec fn spec_read_int(fields: Seq<Seq<u8>>, i: int) -> Result<i32, BusError> {
    if !(0 <= i < fields.len()) {
        Err(
            BusError::Decode {
                field_index: i as usize,
                kind: DecodeErrorKind::MissingField,
            },
        )
    } else {
        match spec_parse_i32(fields[i]) {
            Ok(v) => Ok(v),
            Err(k) => Err(BusError::Decode { field_index: i as usize, kind: k }),
        }
    }
}

/// Field `i` of a payload read as an `i32`, or nothing when absent or
/// malformed.
pub open spec fn spec_opt_int(fields: Seq<Seq<u8>>, i: int) -> Option<i32> {
    match spec_read_int(fields, i) {
        Ok(v) => Some(v),
        Err(_) => None,
    }
}

/// The request id a payload carries, by the field schema of its kind:
/// errors carry it third; execution data first after the kind; plain
/// replies carry `kind, version, request_id`. Kinds that carry none give
/// nothing.
pub open spec fn spec_request_id(fields: Seq<Seq<u8>>) -> Option<i32> {
    match spec_message_type(fields) {
        IncomingKind::Error => spec_opt_int(fields, 2),
        IncomingKind::ExecutionData => spec_opt_int(fields, 1),
        IncomingKind::ExecutionDataEnd => spec_opt_int(fields, 2),
        IncomingKind::Other => spec_opt_int(fields, 2),
        _ => None,
    }
}

/// The order id a payload carries: order status and open order carry it
/// right after the kind; execution data carries it third. Other kinds carry
/// none.
pub open spec fn spec_order_id(fields: Seq<Seq<u8>>) -> Option<i32> {
    match spec_message_type(fields) {
        IncomingKind::OrderStatus => spec_opt_int(fields, 1),
        IncomingKind::OpenOrder => spec_opt_int(fields, 1),
        IncomingKind::ExecutionData => spec_opt_int(fields, 2),
        _ => None,
    }
}

/// Field `i` of a payload decoded as text, with the reason when it cannot
/// be.
pub open spec fn spec_read_string(fields: Seq<Seq<u8>>, i: int) -> Result<Seq<char>, BusError> {
    if !(0 <= i < fields.len()) {
        Err(
            BusError::Decode {
                field_index: i as usize,
                kind: DecodeErrorKind::MissingField,
            },
        )
    } else if !vstd::utf8::valid_utf8(fields[i]) {
        Err(
            BusError::Decode {
                field_index: i as usize,
                kind: DecodeErrorKind::InvalidUtf8,
            },
        )
    } else {
        Ok(vstd::utf8::decode_utf8(fields[i]))
    }
}

/// Relies on `String::from_utf8`: it succeeds exactly on valid UTF-8 and
/// then yields the decoded characters.
#[verifier::external_body]
fn string_from_utf8(bytes: Vec<u8>) -> (r: Option<String>)
    ensures
        r is Some <==> vstd::utf8::valid_utf8(bytes@),
        r matches Some(s) ==> s@ == vstd::utf8::decode_utf8(bytes@),
{
    String::from_utf8(bytes).ok()
}

/// An inbound payload, split into fields, with a cursor for field-by-field
/// extraction.
#[derive(Clone, Debug)]
pub struct ResponseMessage {
    fields: Vec<Vec<u8>>,
    cursor: usize,
}

impl View for ResponseMessage {
    type V = Seq<Seq<u8>>;

    closed spec fn view(&self) -> Seq<Seq<u8>> {
        self.fields@.map_values(|f: Vec<u8>| f@)
    }
}

impl ResponseMessage {
    /// Where the cursor stands: the index of the next field to extract.
    pub closed spec fn spec_cursor(&self) -> int {
        self.cursor as int
    }

    /// Split a raw payload into its fields; the cursor starts at the first.
    pub fn from_payload(payload: &Vec<u8>) -> (r: ResponseMessage)
        ensures
            r@ == spec_split_fields(payload@),
            r.spec_cursor() == 0,
    {
        ResponseMessage { fields: split_fields(payload), cursor: 0 }
    }

    /// Split a payload given as text (the terminators written as `\0`).
    pub fn from(s: &str) -> (r: ResponseMessage)
        ensures
            r@ == spec_split_fields(s.spec_bytes()),
            r.spec_cursor() == 0,
    {
        let bytes = s.as_bytes_vec();
        ResponseMessage { fields: split_fields(&bytes), cursor: 0 }
    }

    /// How many fields the payload has.
    pub fn field_count(&self) -> (r: usize)
        ensures
            r == self@.len(),
    {
        self.fields.len()
    }

    /// The message-type discriminator in the first field.
    pub fn message_type(&self) -> (r: IncomingKind)
        ensures
            r == spec_message_type(self@),
    {
        if self.fields.len() == 0 {
            IncomingKind::NotValid
        } else {
            proof {
                assert(self@[0] == self.fields@[0]@);
            }
            match parse_i32_field(&self.fields[0]) {
                Ok(c) => kind_from_code(c),
                Err(_) => IncomingKind::NotValid,
            }
        }
    }

    /// Read field `i` as an integer without moving the cursor.
    pub fn peek_int(&self, i: usize) -> (r: Result<i32, BusError>)
        ensures
            r == spec_read_int(self@, i as int),
    {
        if i >= self.fields.len() {
            Err(
                BusError::Decode {
                    field_index: i,
                    kind: DecodeErrorKind::MissingField,
                },
            )
        } else {
            proof {
                assert(self@[i as int] == self.fields@[i as int]@);
            }
            match parse_i32_field(&self.fields[i]) {
                Ok(v) => Ok(v),
                Err(k) => Err(BusError::Decode { field_index: i, kind: k }),
            }
        }
    }

    /// Read field `i` as text without moving the cursor.
    pub fn peek_string(&self, i: usize) -> (r: Result<String, BusError>)
        ensures
            spec_read_string(self@, i as int) matches Ok(cs) ==> (r matches Ok(s) && s@ == cs),
            spec_read_string(self@, i as int) matches Err(e) ==> (r matches Err(e2) && e2 == e),
    {
        if i >= self.fields.len() {
            return Err(
                BusError::Decode {
                    field_index: i,
                    kind: DecodeErrorKind::MissingField,
                },
            );
        }
        proof {
            assert(self@[i as int] == self.fields@[i as int]@);
        }
        let field = self.fields[i].clone();
        let ghost fv = self@[i as int];
        proof {
            assert(field@ == fv);
        }
        match string_from_utf8(field) {
            Some(s) => Ok(s),
            None => Err(
                BusError::Decode {
                    field_index: i,
                    kind: DecodeErrorKind::InvalidUtf8,
                },
            ),
        }
    }

    /// Step over the field under the cursor without parsing it.
    pub fn skip(&mut self)
        ensures
            final (self)@ == old(self)@,
            old(self).spec_cursor() < old(self)@.len() ==> final (self).spec_cursor() == old(
                self,
            ).spec_cursor() + 1,
            old(self).spec_cursor() >= old(self)@.len() ==> final (self).spec_cursor() == old(
                self,
            ).spec_cursor(),
    {
        if self.cursor < self.fields.len() {
            self.cursor = self.cursor + 1;
        }
    }

    /// Read the field under the cursor as an integer and step past it; a
    /// missing field leaves the cursor where it stands.
    pub fn next_int(&mut self) -> (r: Result<i32, BusError>)
        ensures
            final (self)@ == old(self)@,
            r == spec_read_int(old(self)@, old(self).spec_cursor()),
            old(self).spec_cursor() < old(self)@.len() ==> final (self).spec_cursor() == old(
                self,
            ).spec_cursor() + 1,
            old(self).spec_cursor() >= old(self)@.len() ==> final (self).spec_cursor() == old(
                self,
            ).spec_cursor(),
    {
        if self.cursor >= self.fields.len() {
            return Err(
                BusError::Decode {
                    field_index: self.cursor,
                    kind: DecodeErrorKind::MissingField,
                },
            );
        }
        proof {
            assert(self@[self.cursor as int] == self.fields@[self.cursor as int]@);
        }
        let r = match parse_i32_field(&self.fields[self.cursor]) {
            Ok(v) => Ok(v),
            Err(k) => Err(BusError::Decode { field_index: self.cursor, kind: k }),
        };
        self.cursor = self.cursor + 1;
        r
    }

    /// Read the field under the cursor as text and step past it; a missing
    /// field leaves the cursor where it stands.
    pub fn next_string(&mut self) -> (r: Result<String, BusError>)
        ensures
            final (self)@ == old(self)@,
            spec_read_string(old(self)@, old(self).spec_cursor()) matches Ok(cs) ==> (r matches Ok(
                s,
            ) && s@ == cs),
            spec_read_string(old(self)@, old(self).spec_cursor()) matches Err(e) ==> (r matches Err(
                e2,
            ) && e2 == e),
            old(self).spec_cursor() < old(self)@.len() ==> final (self).spec_cursor() == old(
                self,
            ).spec_cursor() + 1,
            old(self).spec_cursor() >= old(self)@.len() ==> final (self).spec_cursor() == old(
                self,
            ).spec_cursor(),
    {
        if self.cursor >= self.fields.len() {
            return Err(
                BusError::Decode {
                    field_index: self.cursor,
                    kind: DecodeErrorKind::MissingField,
                },
            );
        }
        proof {
            assert(self@[self.cursor as int] == self.fields@[self.cursor as int]@);
        }
        let field = self.fields[self.cursor].clone();
        let ghost fv = self@[self.cursor as int];
        proof {
            assert(field@ == fv);
        }
        let r = match string_from_utf8(field) {
            Some(s) => Ok(s),
            None => Err(
                BusError::Decode {
                    field_index: self.cursor,
                    kind: DecodeErrorKind::InvalidUtf8,
                },
            ),
        };
        self.cursor = self.cursor + 1;
        r
    }

    /// The request id this payload carries, if its kind carries one.
    pub fn request_id(&self) -> (r: Option<i32>)
        ensures
            r == spec_request_id(self@),
    {
        match self.message_type() {
            IncomingKind::Error => self.opt_int(2),
            IncomingKind::ExecutionData => self.opt_int(1),
            IncomingKind::ExecutionDataEnd => self.opt_int(2),
            IncomingKind::Other => self.opt_int(2),
            _ => None,
        }
    }

    /// The order id this payload carries, if its kind carries one.
    pub fn order_id(&self) -> (r: Option<i32>)
        ensures
            r == spec_order_id(self@),
    {
        match self.message_type() {
            IncomingKind::OrderStatus => self.opt_int(1),
            IncomingKind::OpenOrder => self.opt_int(1),
            IncomingKind::ExecutionData => self.opt_int(2),
            _ => None,
        }
    }

    fn opt_int(&self, i: usize) -> (r: Option<i32>)
        ensures
            r == spec_opt_int(self@, i as int),
    {
        match self.peek_int(i) {
            Ok(v) => Some(v),
            Err(_) => None,
        }
    }

    /// Re-join the fields into one payload, a terminator after each field.
    pub fn encode(&self) -> (r: Vec<u8>)
        ensures
            r@ == spec_encode_fields(self@),
    {
        encode_fields(&self.fields)
    }
}

/// An outbound payload under construction: typed values appended as
/// terminator-free fields.
#[derive(Clone, Debug)]
pub struct RequestMessage {
    fields: Vec<Vec<u8>>,
}

impl View for RequestMessage {
    type V = Seq<Seq<u8>>;

    closed spec fn view(&self) -> Seq<Seq<u8>> {
        self.fields@.map_values(|f: Vec<u8>| f@)
    }
}

impl RequestMessage {
    /// An empty payload.
    pub fn new() -> (r: RequestMessage)
        ensures
            r@ == Seq::<Seq<u8>>::empty(),
            fields_ok(r@),
    {
        let r = RequestMessage { fields: Vec::new() };
        proof {
            assert(r@ =~= Seq::<Seq<u8>>::empty());
        }
        r
    }

    /// Append one raw field; it must not hold the terminator byte.
    pub fn push_field(&mut self, f: Vec<u8>)
        requires
            no_nul(f@),
        ensures
            final (self)@ == old(self)@.push(f@),
            fields_ok(old(self)@) ==> fields_ok(final (self)@),
    {
        let ghost pre = self@;
        self.fields.push(f);
        proof {
            assert(self@ =~= pre.push(f@));
            if fields_ok(pre) {
                assert forall|i: int| 0 <= i < self@.len() implies no_nul(#[trigger] self@[i]) by {
                    if i < pre.len() {
                        assert(self@[i] == pre[i]);
                    }
                }
            }
        }
    }

    /// Append an integer field in ASCII decimal.
    pub fn push_int(&mut self, v: i32)
        ensures
            final (self)@ == old(self)@.push(spec_i32_digits(v)),
            fields_ok(old(self)@) ==> fields_ok(final (self)@),
    {
        proof {
            lemma_parse_render_i32(v);
        }
        let f = i32_to_digits(v);
        self.push_field(f);
    }

    /// Append an optional integer; absence encodes as the empty field.
    pub fn push_optional_int(&mut self, v: Option<i32>)
        ensures
            v matches Some(x) ==> final (self)@ == old(self)@.push(spec_i32_digits(x)),
            v is None ==> final (self)@ == old(self)@.push(Seq::<u8>::empty()),
            fields_ok(old(self)@) ==> fields_ok(final (self)@),
    {
        match v {
            Some(x) => self.push_int(x),
            None => {
                let f: Vec<u8> = Vec::new();
                self.push_field(f);
            },
        }
    }

    /// Append a boolean field: `"1"` for true, `"0"` for false.
    pub fn push_bool(&mut self, b: bool)
        ensures
            b ==> final (self)@ == old(self)@.push(seq![49u8]),
            !b ==> final (self)@ == old(self)@.push(seq![48u8]),
            fields_ok(old(self)@) ==> fields_ok(final (self)@),
    {
        let mut f: Vec<u8> = Vec::new();
        if b {
            f.push(49u8);
            proof {
                assert(f@ =~= seq![49u8]);
            }
        } else {
            f.push(48u8);
            proof {
                assert(f@ =~= seq![48u8]);
            }
        }
        self.push_field(f);
    }

    /// Append a text field; it must not hold the terminator byte.
    pub fn push_str(&mut self, s: &str)
        requires
            no_nul(s.spec_bytes()),
        ensures
            final (self)@ == old(self)@.push(s.spec_bytes()),
            fields_ok(old(self)@) ==> fields_ok(final (self)@),
    {
        let f = s.as_bytes_vec();
        self.push_field(f);
    }

    /// How many fields have been appended.
    pub fn field_count(&self) -> (r: usize)
        ensures
            r == self@.len(),
    {
        self.fields.len()
    }

    /// Join the fields into one payload, a terminator after each field.
    pub fn encode(&self) -> (r: Vec<u8>)
        ensures
            r@ == spec_encode_fields(self@),
    {
        encode_fields(&self.fields)
    }
}

} // verus!
