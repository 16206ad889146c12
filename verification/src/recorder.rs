use vstd::prelude::*;

use crate::codec::{
    all_digits, is_ascii_digit, lemma_nat_digits_shape, spec_encode_fields, spec_nat_digits, u32_to_digits,
};
use crate::messages::{RequestMessage, ResponseMessage};
use vstd::string::StringExecFns;

verus! {

/// The character of one decimal digit value.
pub open spec fn spec_digit_char(d: int) -> char {
    if d == 0 {
        '0'
    } else if d == 1 {
        '1'
    } else if d == 2 {
        '2'
    } else if d == 3 {
        '3'
    } else if d == 4 {
        '4'
    } else if d == 5 {
        '5'
    } else if d == 6 {
        '6'
    } else if d == 7 {
        '7'
    } else if d == 8 {
        '8'
    } else {
        '9'
    }
}

/// The decimal digits of a nonnegative number, as characters.
pub open spec fn spec_nat_digit_chars(n: int) -> Seq<char> {
    spec_nat_digits(n).map_values(|b: u8| spec_digit_char(b - 48))
}

/// A record id padded with zeros to at least four places.
pub open spec fn spec_padded_id(id: int) -> Seq<char> {
    let ds = spec_nat_digit_chars(id);
    if ds.len() >= 4 {
        ds
    } else {
        Seq::new((4 - ds.len()) as nat, |i: int| '0') + ds
    }
}

/// The capture file for record `id`: `{dir}/{id:04}-request.msg` for a sent
/// payload, `-response.msg` for a received one.
pub open spec fn spec_record_file_name(dir: Seq<char>, id: int, request: bool) -> Seq<char> {
    dir + seq!['/'] + spec_padded_id(id) + (if request {
        "-request.msg"@
    } else {
        "-response.msg"@
    })
}

/// A payload as it is captured: the terminator byte rewritten to `'|'` for
/// readability.
pub open spec fn spec_display_bytes(p: Seq<u8>) -> Seq<u8> {
    p.map_values(|b: u8| if b == 0 { 124u8 } else { b })
}

/// How one recording step relates a recorder's state before and after, and
/// the record it produced: when enabled and not exhausted, the payload was
/// captured under the next id of the shared counter.
pub open spec fn spec_recorded(
    before: MessageRecorder,
    after: MessageRecorder,
    record: Option<RecordFile>,
    payload: Seq<u8>,
    request: bool,
) -> bool {
    &&& after.spec_enabled() == before.spec_enabled()
    &&& after.spec_dir() == before.spec_dir()
    &&& (!before.spec_enabled() ==> record is None && after.spec_next_record_id()
        == before.spec_next_record_id())
    &&& (before.spec_enabled() && before.spec_next_record_id() < u32::MAX ==> {
        &&& after.spec_next_record_id() == before.spec_next_record_id() + 1
        &&& record matches Some(f) && f.path@ == spec_record_file_name(
            before.spec_dir(),
            before.spec_next_record_id(),
            request,
        ) && f.contents@ == spec_display_bytes(payload)
    })
    &&& (before.spec_enabled() && before.spec_next_record_id() == u32::MAX ==> record is None
        && after.spec_next_record_id() == before.spec_next_record_id())
}

/// Recording sequence: two captures in a row, whichever direction each
/// serves, take strictly increasing ids of the one shared counter, and
/// their file names carry those ids.
pub proof fn lemma_record_ids_strictly_increase(
    r0: MessageRecorder,
    r1: MessageRecorder,
    r2: MessageRecorder,
    rec1: Option<RecordFile>,
    rec2: Option<RecordFile>,
    p1: Seq<u8>,
    p2: Seq<u8>,
    d1: bool,
    d2: bool,
)
    requires
        spec_recorded(r0, r1, rec1, p1, d1),
        spec_recorded(r1, r2, rec2, p2, d2),
        r0.spec_enabled(),
        r0.spec_next_record_id() + 1 < u32::MAX,
    ensures
        r1.spec_next_record_id() == r0.spec_next_record_id() + 1,
        r2.spec_next_record_id() == r0.spec_next_record_id() + 2,
        rec1 matches Some(f) && f.path@ == spec_record_file_name(
            r0.spec_dir(),
            r0.spec_next_record_id(),
            d1,
        ),
        rec2 matches Some(f) && f.path@ == spec_record_file_name(
            r0.spec_dir(),
            r0.spec_next_record_id() + 1,
            d2,
        ),
{
}

/// One capture ready to be written: where, and what.
pub struct RecordFile {
    /// The full path of the capture file.
    pub path: String,
    /// The payload with terminators rewritten to `'|'`.
    pub contents: Vec<u8>,
}

fn digit_str(d: u8) -> (r: &'static str)
    requires
        d < 10,
    ensures
        r@ == seq![spec_digit_char(d as int)],
{
    proof {
        reveal_strlit("0");
        reveal_strlit("1");
        reveal_strlit("2");
        reveal_strlit("3");
        reveal_strlit("4");
        reveal_strlit("5");
        reveal_strlit("6");
        reveal_strlit("7");
        reveal_strlit("8");
        reveal_strlit("9");
    }
    match d {
        0 => "0",
        1 => "1",
        2 => "2",
        3 => "3",
        4 => "4",
        5 => "5",
        6 => "6",
        7 => "7",
        8 => "8",
        _ => "9",
    }
}

/// Append the decimal form of `n` to `out`.
fn append_u32_chars(out: &mut String, n: u32)
    ensures
        final (out)@ == old(out)@ + spec_nat_digit_chars(n as int),
{
    let digits = u32_to_digits(n);
    proof {
        lemma_nat_digits_shape(n as int);
    }
    let ghost chars = spec_nat_digit_chars(n as int);
    let mut i: usize = 0;
    while i < digits.len()
        invariant
            i <= digits@.len(),
            digits@ == spec_nat_digits(n as int),
            all_digits(digits@),
            chars == spec_nat_digit_chars(n as int),
            out@ == old(out)@ + chars.take(i as int),
        decreases digits@.len() - i,
    {
        let b = digits[i];
        assert(is_ascii_digit(digits@[i as int])) by {
            assert(all_digits(digits@));
        }
        let s = digit_str(b - 48);
        out.append(s);
        proof {
            assert(chars[i as int] == spec_digit_char(digits@[i as int] - 48));
            assert(out@ =~= old(out)@ + chars.take(i + 1));
        }
        i = i + 1;
    }
    proof {
        assert(chars.take(chars.len() as int) =~= chars);
    }
}

/// Append the record id, zero-padded to at least four places.
fn append_padded_id(out: &mut String, id: u32)
    ensures
        final (out)@ == old(out)@ + spec_padded_id(id as int),
{
    proof {
        reveal_strlit("");
        reveal_strlit("0");
        reveal_strlit("00");
        reveal_strlit("000");
        lemma_nat_digits_shape(id as int);
    }
    let pad: &'static str = if id >= 1000 {
        ""
    } else if id >= 100 {
        "0"
    } else if id >= 10 {
        "00"
    } else {
        "000"
    };
    proof {
        lemma_digit_count(id as int);
        let ds = spec_nat_digit_chars(id as int);
        if id >= 1000 {
            assert(pad@ =~= Seq::<char>::empty());
        } else {
            assert(pad@ =~= Seq::new((4 - ds.len()) as nat, |i: int| '0'));
        }
    }
    out.append(pad);
    append_u32_chars(out, id);
    proof {
        assert(out@ =~= old(out)@ + spec_padded_id(id as int));
    }
}

/// How many digits a number has, by its size.
proof fn lemma_digit_count(n: int)
    requires
        n >= 0,
    ensures
        spec_nat_digit_chars(n).len() == spec_nat_digits(n).len(),
        n < 10 ==> spec_nat_digits(n).len() == 1,
        10 <= n < 100 ==> spec_nat_digits(n).len() == 2,
        100 <= n < 1000 ==> spec_nat_digits(n).len() == 3,
        1000 <= n < 10000 ==> spec_nat_digits(n).len() == 4,
        n >= 1000 ==> spec_nat_digits(n).len() >= 4,
    decreases n,
{
    if n >= 10 {
        lemma_digit_count(n / 10);
    }
}

/// The optional byte-faithful capture of sent and received payloads: each
/// record gets the next id of one counter shared by both directions.
pub struct MessageRecorder {
    enabled: bool,
    recording_dir: String,
    next_record_id: u32,
}

impl MessageRecorder {
    /// Whether records are produced at all.
    pub closed spec fn spec_enabled(&self) -> bool {
        self.enabled
    }

    /// The directory the capture files go to.
    pub closed spec fn spec_dir(&self) -> Seq<char> {
        self.recording_dir@
    }

    /// The id the next record will carry.
    pub closed spec fn spec_next_record_id(&self) -> int {
        self.next_record_id as int
    }

    /// A recorder for the given capture directory, or a disabled one.
    pub fn new(recording_dir: Option<String>) -> (r: MessageRecorder)
        ensures
            r.spec_next_record_id() == 0,
            recording_dir matches Some(d) ==> r.spec_enabled() && r.spec_dir() == d@,
            recording_dir is None ==> !r.spec_enabled(),
    {
        match recording_dir {
            Some(dir) => MessageRecorder { enabled: true, recording_dir: dir, next_record_id: 0 },
            None => MessageRecorder {
                enabled: false,
                recording_dir: String::new(),
                next_record_id: 0,
            },
        }
    }

    /// The capture file path for a sent payload under `record_id`.
    pub fn request_file(&self, record_id: u32) -> (r: String)
        ensures
            r@ == spec_record_file_name(self.spec_dir(), record_id as int, true),
    {
        self.file_name(record_id, true)
    }

    /// The capture file path for a received payload under `record_id`.
    pub fn response_file(&self, record_id: u32) -> (r: String)
        ensures
            r@ == spec_record_file_name(self.spec_dir(), record_id as int, false),
    {
        self.file_name(record_id, false)
    }

    fn file_name(&self, record_id: u32, request: bool) -> (r: String)
        ensures
            r@ == spec_record_file_name(self.spec_dir(), record_id as int, request),
    {
        proof {
            reveal_strlit("/");
        }
        let mut out = self.recording_dir.clone();
        out.append("/");
        proof {
            assert(out@ =~= self.spec_dir() + seq!['/']);
        }
        append_padded_id(&mut out, record_id);
        if request {
            out.append("-request.msg");
        } else {
            out.append("-response.msg");
        }
        proof {
            assert(out@ =~= spec_record_file_name(self.spec_dir(), record_id as int, request));
        }
        out
    }

    /// Capture a payload going out. When enabled, the record takes the next
    /// id of the shared counter, so record ids grow strictly across sent
    /// and received payloads together.
    pub fn record_request(&mut self, message: &RequestMessage) -> (r: Option<RecordFile>)
        ensures
            !old(self).spec_enabled() ==> r is None && *final (self) == *old(self),
            final (self).spec_enabled() == old(self).spec_enabled(),
            final (self).spec_dir() == old(self).spec_dir(),
            old(self).spec_enabled() && old(self).spec_next_record_id() < u32::MAX ==> {
                &&& final (self).spec_next_record_id() == old(self).spec_next_record_id() + 1
                &&& r matches Some(f) && f.path@ == spec_record_file_name(
                    old(self).spec_dir(),
                    old(self).spec_next_record_id(),
                    true,
                ) && f.contents@ == spec_display_bytes(spec_encode_fields(message@))
            },
            old(self).spec_enabled() && old(self).spec_next_record_id() == u32::MAX ==> r is None
                && *final (self) == *old(self),
    {
        let payload = message.encode();
        self.record(payload, true)
    }

    /// Capture a payload coming in, under the next id of the same counter.
    pub fn record_response(&mut self, message: &ResponseMessage) -> (r: Option<RecordFile>)
        ensures
            !old(self).spec_enabled() ==> r is None && *final (self) == *old(self),
            final (self).spec_enabled() == old(self).spec_enabled(),
            final (self).spec_dir() == old(self).spec_dir(),
            old(self).spec_enabled() && old(self).spec_next_record_id() < u32::MAX ==> {
                &&& final (self).spec_next_record_id() == old(self).spec_next_record_id() + 1
                &&& r matches Some(f) && f.path@ == spec_record_file_name(
                    old(self).spec_dir(),
                    old(self).spec_next_record_id(),
                    false,
                ) && f.contents@ == spec_display_bytes(spec_encode_fields(message@))
            },
            old(self).spec_enabled() && old(self).spec_next_record_id() == u32::MAX ==> r is None
                && *final (self) == *old(self),
    {
        let payload = message.encode();
        self.record(payload, false)
    }

    fn record(&mut self, payload: Vec<u8>, request: bool) -> (r: Option<RecordFile>)
        ensures
            !old(self).spec_enabled() ==> r is None && *final (self) == *old(self),
            final (self).spec_enabled() == old(self).spec_enabled(),
            final (self).spec_dir() == old(self).spec_dir(),
            old(self).spec_enabled() && old(self).spec_next_record_id() < u32::MAX ==> {
                &&& final (self).spec_next_record_id() == old(self).spec_next_record_id() + 1
                &&& r matches Some(f) && f.path@ == spec_record_file_name(
                    old(self).spec_dir(),
                    old(self).spec_next_record_id(),
                    request,
                ) && f.contents@ == spec_display_bytes(payload@)
            },
            old(self).spec_enabled() && old(self).spec_next_record_id() == u32::MAX ==> r is None
                && *final (self) == *old(self),
    {
        if !self.enabled {
            return None;
        }
        if self.next_record_id == u32::MAX {
            return None;
        }
        let record_id = self.next_record_id;
        self.next_record_id = self.next_record_id + 1;
        let path = self.file_name(record_id, request);
        let mut contents: Vec<u8> = Vec::new();
        let mut i: usize = 0;
        while i < payload.len()
            invariant
                i <= payload@.len(),
                contents@ == spec_display_bytes(payload@).take(i as int),
            decreases payload@.len() - i,
        {
            let b = payload[i];
            if b == 0 {
                contents.push(124u8);
            } else {
                contents.push(b);
            }
            proof {
                assert(contents@ =~= spec_display_bytes(payload@).take(i + 1));
            }
            i = i + 1;
        }
        proof {
            assert(spec_display_bytes(payload@).take(payload@.len() as int) =~= spec_display_bytes(
                payload@,
            ));
        }
        Some(RecordFile { path, contents })
    }
}

} // verus!
