use vstd::prelude::*;

use crate::errors::DecodeErrorKind;

verus! {

/// True when no byte of `s` is the field terminator `0x00`.
pub open spec fn no_nul(s: Seq<u8>) -> bool {
    forall|i: int| 0 <= i < s.len() ==> s[i] != 0
}

/// True when no field of `fields` holds the terminator byte.
pub open spec fn fields_ok(fields: Seq<Seq<u8>>) -> bool {
    forall|i: int| 0 <= i < fields.len() ==> no_nul(#[trigger] fields[i])
}

/// A payload: every field followed by one terminator byte.
pub open spec fn spec_encode_fields(fields: Seq<Seq<u8>>) -> Seq<u8>
    decreases fields.len(),
{
    if fields.len() == 0 {
        Seq::empty()
    } else {
        fields[0] + seq![0u8] + spec_encode_fields(fields.skip(1))
    }
}

/// Index of the first terminator byte in `p`, or `p.len()` if there is none.
pub open spec fn first_nul(p: Seq<u8>) -> int
    decreases p.len(),
{
    if p.len() == 0 {
        0
    } else if p[0] == 0 {
        0
    } else {
        1 + first_nul(p.skip(1))
    }
}

/// The fields of a payload: the chunks before each terminator byte; a
/// trailing chunk without a terminator counts as a final field.
pub open spec fn spec_split_fields(p: Seq<u8>) -> Seq<Seq<u8>>
    decreases p.len(),
{
    if p.len() == 0 {
        Seq::empty()
    } else {
        let k = first_nul(p);
        if !(0 <= k < p.len()) {
            seq![p]
        } else {
            seq![p.subrange(0, k)] + spec_split_fields(p.skip(k + 1))
        }
    }
}

pub proof fn lemma_first_nul_bounds(p: Seq<u8>)
    ensures
        0 <= first_nul(p) <= p.len(),
        first_nul(p) < p.len() ==> p[first_nul(p)] == 0,
        forall|j: int| 0 <= j < first_nul(p) ==> p[j] != 0,
    decreases p.len(),
{
    if p.len() == 0 {
    } else if p[0] == 0 {
    } else {
        lemma_first_nul_bounds(p.skip(1));
        assert forall|j: int| 0 <= j < first_nul(p) implies p[j] != 0 by {
            if j > 0 {
                assert(p.skip(1)[j - 1] == p[j]);
            }
        }
    }
}

pub proof fn lemma_first_nul_of_terminated(a: Seq<u8>, b: Seq<u8>)
    requires
        no_nul(a),
    ensures
        first_nul(a + seq![0u8] + b) == a.len(),
    decreases a.len(),
{
    let p = a + seq![0u8] + b;
    if a.len() == 0 {
        assert(p[0] == 0);
    } else {
        assert(p[0] == a[0]);
        lemma_first_nul_of_terminated(a.skip(1), b);
        assert(p.skip(1) =~= a.skip(1) + seq![0u8] + b);
    }
}

/// Splitting takes one terminated field off the front.
pub proof fn lemma_split_terminated(a: Seq<u8>, b: Seq<u8>)
    requires
        no_nul(a),
    ensures
        spec_split_fields(a + seq![0u8] + b) == seq![a] + spec_split_fields(b),
{
    let p = a + seq![0u8] + b;
    lemma_first_nul_of_terminated(a, b);
    assert(first_nul(p) == a.len() < p.len());
    assert(p.subrange(0, a.len() as int) =~= a);
    assert(p.skip(a.len() as int + 1) =~= b);
    assert(spec_split_fields(p) =~= seq![a] + spec_split_fields(b));
}

/// A payload without a terminator is one field, or none when empty.
pub proof fn lemma_split_unterminated(a: Seq<u8>)
    requires
        no_nul(a),
    ensures
        a.len() == 0 ==> spec_split_fields(a) == Seq::<Seq<u8>>::empty(),
        a.len() > 0 ==> spec_split_fields(a) == seq![a],
{
    lemma_first_nul_bounds(a);
    if a.len() > 0 {
        assert(first_nul(a) == a.len());
    }
}

/// Encoding appends to the back one field at a time.
pub proof fn lemma_encode_fields_push(fields: Seq<Seq<u8>>, f: Seq<u8>)
    ensures
        spec_encode_fields(fields.push(f)) == spec_encode_fields(fields) + f + seq![0u8],
    decreases fields.len(),
{
    if fields.len() == 0 {
        assert(fields.push(f)[0] == f);
        assert(fields.push(f).skip(1) =~= Seq::<Seq<u8>>::empty());
        assert(spec_encode_fields(Seq::<Seq<u8>>::empty()) == Seq::<u8>::empty());
        assert(spec_encode_fields(fields.push(f)) =~= f + seq![0u8]);
        assert(spec_encode_fields(fields) + f + seq![0u8] =~= f + seq![0u8]);
    } else {
        lemma_encode_fields_push(fields.skip(1), f);
        assert(fields.push(f).skip(1) =~= fields.skip(1).push(f));
        assert(fields.push(f)[0] == fields[0]);
        assert(spec_encode_fields(fields.push(f)) =~= spec_encode_fields(fields) + f + seq![
            0u8,
        ]);
    }
}

/// Field round-trip: a sequence of terminator-free fields — empty and
/// trailing empty fields included — survives encoding and re-parsing.
pub proof fn lemma_fields_round_trip(fields: Seq<Seq<u8>>)
    requires
        fields_ok(fields),
    ensures
        spec_split_fields(spec_encode_fields(fields)) == fields,
    decreases fields.len(),
{
    if fields.len() == 0 {
    } else {
        assert(no_nul(fields[0]));
        assert(fields_ok(fields.skip(1))) by {
            assert(forall|i: int|
                0 <= i < fields.skip(1).len() ==> fields.skip(1)[i] == fields[i + 1]);
        }
        lemma_fields_round_trip(fields.skip(1));
        lemma_split_terminated(fields[0], spec_encode_fields(fields.skip(1)));
        assert(seq![fields[0]] + fields.skip(1) =~= fields);
    }
}

/// Join `fields` into one payload, a terminator byte after each field.
pub fn encode_fields(fields: &Vec<Vec<u8>>) -> (r: Vec<u8>)
    ensures
        r@ == spec_encode_fields(fields@.map_values(|f: Vec<u8>| f@)),
{
    let ghost all = fields@.map_values(|f: Vec<u8>| f@);
    let mut out: Vec<u8> = Vec::new();
    let mut i: usize = 0;
    while i < fields.len()
        invariant
            i <= fields@.len(),
            all == fields@.map_values(|f: Vec<u8>| f@),
            out@ == spec_encode_fields(all.take(i as int)),
        decreases fields@.len() - i,
    {
        let field = &fields[i];
        let mut j: usize = 0;
        while j < field.len()
            invariant
                j <= field@.len(),
                field@ == all[i as int],
                i < all.len(),
                out@ == spec_encode_fields(all.take(i as int)) + field@.subrange(0, j as int),
            decreases field@.len() - j,
        {
            out.push(field[j]);
            assert(out@ =~= spec_encode_fields(all.take(i as int)) + field@.subrange(
                0,
                j + 1,
            ));
            j = j + 1;
        }
        out.push(0u8);
        proof {
            lemma_encode_fields_push(all.take(i as int), all[i as int]);
            assert(all.take(i as int).push(all[i as int]) =~= all.take(i + 1));
            assert(field@.subrange(0, field@.len() as int) =~= field@);
            assert(out@ =~= spec_encode_fields(all.take(i as int)) + field@ + seq![0u8]);
        }
        i = i + 1;
    }
    proof {
        assert(all.take(all.len() as int) =~= all);
    }
    out
}

/// Split a payload into its fields at each terminator byte.
pub fn split_fields(payload: &Vec<u8>) -> (r: Vec<Vec<u8>>)
    ensures
        r@.map_values(|f: Vec<u8>| f@) == spec_split_fields(payload@),
{
    let mut out: Vec<Vec<u8>> = Vec::new();
    let mut cur: Vec<u8> = Vec::new();
    let mut i: usize = 0;
    proof {
        assert(cur@ + payload@.skip(0) =~= payload@);
        assert(out@.map_values(|f: Vec<u8>| f@) + spec_split_fields(payload@)
            =~= spec_split_fields(payload@));
    }
    while i < payload.len()
        invariant
            i <= payload@.len(),
            no_nul(cur@),
            spec_split_fields(payload@) == out@.map_values(|f: Vec<u8>| f@)
                + spec_split_fields(cur@ + payload@.skip(i as int)),
        decreases payload@.len() - i,
    {
        let b = payload[i];
        if b == 0 {
            proof {
                lemma_split_terminated(cur@, payload@.skip(i + 1));
                assert(cur@ + payload@.skip(i as int) =~= cur@ + seq![0u8] + payload@.skip(
                    i + 1,
                ));
                assert(out@.push(cur).map_values(|f: Vec<u8>| f@) =~= out@.map_values(
                    |f: Vec<u8>| f@,
                ).push(cur@));
                assert(out@.map_values(|f: Vec<u8>| f@) + (seq![cur@] + spec_split_fields(
                    payload@.skip(i + 1),
                )) =~= out@.map_values(|f: Vec<u8>| f@).push(cur@) + spec_split_fields(
                    payload@.skip(i + 1),
                ));
            }
            out.push(cur);
            cur = Vec::new();
        } else {
            proof {
                assert(cur@.push(b) + payload@.skip(i + 1) =~= cur@ + payload@.skip(i as int));
            }
            cur.push(b);
        }
        i = i + 1;
    }
    proof {
        assert(cur@ + payload@.skip(payload@.len() as int) =~= cur@);
        lemma_split_unterminated(cur@);
    }
    if cur.len() > 0 {
        proof {
            assert(out@.push(cur).map_values(|f: Vec<u8>| f@) =~= out@.map_values(
                |f: Vec<u8>| f@,
            ).push(cur@));
            assert(out@.map_values(|f: Vec<u8>| f@) + seq![cur@] =~= out@.map_values(
                |f: Vec<u8>| f@,
            ).push(cur@));
        }
        out.push(cur);
    } else {
        proof {
            assert(out@.map_values(|f: Vec<u8>| f@) + Seq::<Seq<u8>>::empty() =~= out@.map_values(
                |f: Vec<u8>| f@,
            ));
        }
    }
    out
}

/// `0x30 ..= 0x39`: an ASCII decimal digit.
pub open spec fn is_ascii_digit(b: u8) -> bool {
    48 <= b <= 57
}

/// True when `s` is made of decimal digits only.
pub open spec fn all_digits(s: Seq<u8>) -> bool {
    forall|i: int| 0 <= i < s.len() ==> is_ascii_digit(#[trigger] s[i])
}

/// The value of a digit string, leading zeros allowed.
pub open spec fn digits_value(s: Seq<u8>) -> int
    decreases s.len(),
{
    if s.len() == 0 {
        0
    } else {
        digits_value(s.drop_last()) * 10 + (s.last() - 48)
    }
}

pub proof fn lemma_digits_value_nonneg(s: Seq<u8>)
    requires
        all_digits(s),
    ensures
        digits_value(s) >= 0,
    decreases s.len(),
{
    if s.len() > 0 {
        assert(all_digits(s.drop_last()));
        lemma_digits_value_nonneg(s.drop_last());
    }
}

/// What an ASCII decimal field means as an `i32`: an optional minus sign,
/// then at least one digit; out-of-range values are told apart from
/// malformed text.
pub open spec fn spec_parse_i32(s: Seq<u8>) -> Result<i32, DecodeErrorKind> {
    if s.len() >= 1 && s[0] == 45 {
        let d = s.skip(1);
        if d.len() == 0 || !all_digits(d) {
            Err(DecodeErrorKind::NotAnInteger)
        } else if digits_value(d) > 0x80000000 {
            Err(DecodeErrorKind::OutOfRange)
        } else {
            Ok((-digits_value(d)) as i32)
        }
    } else if s.len() == 0 || !all_digits(s) {
        Err(DecodeErrorKind::NotAnInteger)
    } else if digits_value(s) > 0x7fffffff {
        Err(DecodeErrorKind::OutOfRange)
    } else {
        Ok(digits_value(s) as i32)
    }
}

/// Parse an ASCII decimal field as an `i32`, exactly as `spec_parse_i32`
/// reads it.
pub fn parse_i32_field(s: &Vec<u8>) -> (r: Result<i32, DecodeErrorKind>)
    ensures
        r == spec_parse_i32(s@),
{
    let neg = s.len() >= 1 && s[0] == 45;
    let start: usize = if neg {
        1
    } else {
        0
    };
    if s.len() == start {
        return Err(DecodeErrorKind::NotAnInteger);
    }
    let ghost d = s@.skip(start as int);
    proof {
        if !neg {
            assert(d =~= s@);
        }
    }
    let mut acc: u64 = 0;
    let mut i: usize = start;
    while i < s.len()
        invariant
            start <= i <= s@.len(),
            neg == (s@.len() >= 1 && s@[0] == 45),
            start == (if neg { 1int } else { 0int }),
            s@.len() > start,
            d == s@.skip(start as int),
            all_digits(d.take(i - start)),
            digits_value(d.take(i - start)) < 0x100000000 ==> acc == digits_value(
                d.take(i - start),
            ),
            digits_value(d.take(i - start)) >= 0x100000000 ==> acc >= 0x100000000,
            acc <= 0xfffffffff,
        decreases s@.len() - i,
    {
        let b = s[i];
        if b < 48 || b > 57 {
            proof {
                assert(d[i - start] == s@[i as int]);
                assert(!is_ascii_digit(d[i - start]));
                assert(!all_digits(d));
                if !neg {
                    assert(!all_digits(s@));
                }
            }
            return Err(DecodeErrorKind::NotAnInteger);
        }
        proof {
            let p = d.take(i - start + 1);
            assert(p.drop_last() =~= d.take(i - start));
            assert(p.last() == s@[i as int]);
            lemma_digits_value_nonneg(d.take(i - start));
        }
        if acc >= 0x100000000 {
            acc = 0x100000000;
        } else {
            acc = acc * 10 + ((b - 48) as u64);
        }
        i = i + 1;
    }
    proof {
        assert(d.take(i - start) =~= d);
    }
    if neg {
        proof {
            if digits_value(d) <= 0x80000000 {
                lemma_digits_value_nonneg(d);
            }
        }
        if acc > 0x80000000 {
            Err(DecodeErrorKind::OutOfRange)
        } else {
            let v: i64 = -(acc as i64);
            Ok(v as i32)
        }
    } else {
        if acc > 0x7fffffff {
            Err(DecodeErrorKind::OutOfRange)
        } else {
            Ok(acc as i32)
        }
    }
}

/// The decimal digits of a nonnegative number, leading zeros trimmed.
pub open spec fn spec_nat_digits(n: int) -> Seq<u8>
    recommends
        n >= 0,
    decreases n,
{
    if n < 10 {
        seq![(48 + n) as u8]
    } else {
        spec_nat_digits(n / 10).push((48 + n % 10) as u8)
    }
}

/// The ASCII form of an `i32`: a minus sign before the digits of the
/// magnitude when negative.
pub open spec fn spec_i32_digits(v: i32) -> Seq<u8> {
    if v >= 0 {
        spec_nat_digits(v as int)
    } else {
        seq![45u8] + spec_nat_digits(-(v as int))
    }
}

pub proof fn lemma_nat_digits_shape(n: int)
    requires
        n >= 0,
    ensures
        spec_nat_digits(n).len() >= 1,
        all_digits(spec_nat_digits(n)),
        no_nul(spec_nat_digits(n)),
    decreases n,
{
    if n >= 10 {
        lemma_nat_digits_shape(n / 10);
        let d = spec_nat_digits(n / 10);
        assert forall|i: int| 0 <= i < d.push((48 + n % 10) as u8).len() implies is_ascii_digit(
            #[trigger] d.push((48 + n % 10) as u8)[i],
        ) by {
            if i < d.len() {
                assert(d.push((48 + n % 10) as u8)[i] == d[i]);
            }
        }
    }
}

pub proof fn lemma_nat_digits_value(n: int)
    requires
        n >= 0,
    ensures
        digits_value(spec_nat_digits(n)) == n,
    decreases n,
{
    if n < 10 {
        let s = spec_nat_digits(n);
        assert(s =~= seq![(48 + n) as u8]);
        assert(s.drop_last() =~= Seq::<u8>::empty());
        assert(digits_value(Seq::<u8>::empty()) == 0);
        assert(s.last() == (48 + n) as u8);
        assert((48 + n) as u8 == 48 + n);
        assert(digits_value(s) == digits_value(s.drop_last()) * 10 + (s.last() - 48));
    } else {
        lemma_nat_digits_value(n / 10);
        let s = spec_nat_digits(n / 10).push((48 + n % 10) as u8);
        assert(s.drop_last() =~= spec_nat_digits(n / 10));
        assert(s.last() == (48 + n % 10) as u8);
        assert((48 + n % 10) as u8 == 48 + n % 10);
        assert(digits_value(s) == digits_value(s.drop_last()) * 10 + (s.last() - 48));
        assert(n / 10 * 10 + n % 10 == n);
    }
}

/// The rendered form of an `i32` parses back to the same value.
pub proof fn lemma_parse_render_i32(v: i32)
    ensures
        no_nul(spec_i32_digits(v)),
        spec_parse_i32(spec_i32_digits(v)) == Ok::<i32, DecodeErrorKind>(v),
{
    if v >= 0 {
        lemma_nat_digits_shape(v as int);
        lemma_nat_digits_value(v as int);
        let s = spec_i32_digits(v);
        assert(is_ascii_digit(s[0]));
        assert(s[0] != 45);
    } else {
        let m = -(v as int);
        lemma_nat_digits_shape(m);
        lemma_nat_digits_value(m);
        let s = spec_i32_digits(v);
        assert(s[0] == 45);
        assert(s.skip(1) =~= spec_nat_digits(m));
        assert(m <= 0x80000000);
        assert forall|i: int| 0 <= i < s.len() implies s[i] != 0 by {
            if i >= 1 {
                assert(s[i] == spec_nat_digits(m)[i - 1]);
            }
        }
    }
}

/// Render a nonnegative number as its decimal digits.
pub fn u32_to_digits(n: u32) -> (r: Vec<u8>)
    ensures
        r@ == spec_nat_digits(n as int),
{
    let mut tmp: Vec<u8> = Vec::new();
    let mut m: u32 = n;
    while m >= 10
        invariant
            spec_nat_digits(n as int) == spec_nat_digits(m as int) + tmp@.reverse(),
        decreases m,
    {
        let d: u8 = 48 + (m % 10) as u8;
        proof {
            assert(spec_nat_digits(m as int) == spec_nat_digits(m as int / 10).push(
                (48 + m as int % 10) as u8,
            ));
            assert(tmp@.push(d).reverse() =~= seq![d] + tmp@.reverse());
            assert(spec_nat_digits(m as int / 10).push(d) + tmp@.reverse()
                =~= spec_nat_digits(m as int / 10) + (seq![d] + tmp@.reverse()));
        }
        tmp.push(d);
        m = m / 10;
    }
    let d: u8 = 48 + m as u8;
    proof {
        assert(spec_nat_digits(m as int) =~= seq![d]);
        assert(tmp@.push(d).reverse() =~= seq![d] + tmp@.reverse());
    }
    tmp.push(d);
    let ghost goal = spec_nat_digits(n as int);
    proof {
        assert(tmp@.reverse() =~= goal);
    }
    let mut r: Vec<u8> = Vec::new();
    let mut j: usize = tmp.len();
    while j > 0
        invariant
            j <= tmp@.len(),
            tmp@.reverse() == goal,
            r@.len() == tmp@.len() - j,
            forall|k: int| 0 <= k < r@.len() ==> r@[k] == goal[k],
        decreases j,
    {
        j = j - 1;
        proof {
            assert(tmp@.reverse()[tmp@.len() - 1 - j] == tmp@[j as int]);
        }
        r.push(tmp[j]);
    }
    proof {
        assert(r@ =~= goal);
    }
    r
}

/// Render an `i32` as ASCII decimal, minus sign included.
pub fn i32_to_digits(v: i32) -> (r: Vec<u8>)
    ensures
        r@ == spec_i32_digits(v),
{
    if v >= 0 {
        u32_to_digits(v as u32)
    } else {
        let m64: i64 = -(v as i64);
        let m: u32 = m64 as u32;
        let digits = u32_to_digits(m);
        let mut r: Vec<u8> = Vec::new();
        r.push(45u8);
        let mut i: usize = 0;
        while i < digits.len()
            invariant
                i <= digits@.len(),
                r@ == seq![45u8] + digits@.subrange(0, i as int),
            decreases digits@.len() - i,
        {
            r.push(digits[i]);
            assert(r@ =~= seq![45u8] + digits@.subrange(0, i + 1));
            i = i + 1;
        }
        proof {
            assert(digits@.subrange(0, digits@.len() as int) =~= digits@);
        }
        r
    }
}

} // verus!
