//! The wire codec: the provider transmits every numeric field as its decimal
//! string, so serialization and deserialization each perform an explicit
//! integer/string conversion, and a record travels as a flat set of string
//! fields. Requests carry the two credential fields merged into the same
//! flat object as the payload.

use vstd::prelude::*;

use crate::record::{Record, RecordModel, RecordType, spec_type_of_wire, spec_wire_name};

verus! {

// ---------------------------------------------------------------------------
// Decimal strings
// ---------------------------------------------------------------------------

pub open spec fn is_digit(c: char) -> bool {
    '0' as int <= c as int <= '9' as int
}

pub open spec fn digit_val(c: char) -> int {
    c as int - '0' as int
}

pub open spec fn char_of_digit(d: int) -> char {
    if d == 0 {
        '0'
    } else if d == 1 {
        '1'
    } else if d == 2 {
        '2'
    } else if d == 3 {
        '3'
    } else if d == 4 {
        '4'
    } else if d == 5 {
        '5'
    } else if d == 6 {
        '6'
    } else if d == 7 {
        '7'
    } else if d == 8 {
        '8'
    } else {
        '9'
    }
}

/// The decimal rendering of a non-negative integer, without sign or
/// leading zeros (a single `'0'` for zero).
pub open spec fn spec_decimal(n: int) -> Seq<char>
    recommends
        n >= 0,
    decreases n,
{
    if n < 10 {
        seq![char_of_digit(n)]
    } else {
        spec_decimal(n / 10).push(char_of_digit(n % 10))
    }
}

/// The integer a digit string denotes (0 for the empty string).
pub open spec fn spec_decimal_val(s: Seq<char>) -> int
    decreases s.len(),
{
    if s.len() == 0 {
        0
    } else {
        spec_decimal_val(s.drop_last()) * 10 + digit_val(s.last())
    }
}

pub open spec fn all_digits(s: Seq<char>) -> bool {
    forall|i: int| 0 <= i < s.len() ==> is_digit(#[trigger] s[i])
}

/// A string this codec accepts as a numeric field: non-empty, digits only,
/// and small enough for the unsigned integers the record model carries.
pub open spec fn valid_decimal(s: Seq<char>) -> bool {
    &&& s.len() > 0
    &&& all_digits(s)
    &&& spec_decimal_val(s) <= u32::MAX
}

proof fn lemma_digit_round_trip(d: int)
    requires
        0 <= d < 10,
    ensures
        is_digit(char_of_digit(d)),
        digit_val(char_of_digit(d)) == d,
{
    assert('0' as int == 48);
    assert('1' as int == 49);
    assert('2' as int == 50);
    assert('3' as int == 51);
    assert('4' as int == 52);
    assert('5' as int == 53);
    assert('6' as int == 54);
    assert('7' as int == 55);
    assert('8' as int == 56);
    assert('9' as int == 57);
}

proof fn lemma_decimal_val_nonneg(s: Seq<char>)
    requires
        all_digits(s),
    ensures
        spec_decimal_val(s) >= 0,
    decreases s.len(),
{
    if s.len() > 0 {
        assert(all_digits(s.drop_last()));
        lemma_decimal_val_nonneg(s.drop_last());
    }
}

/// Extending a digit string never lowers its value: the value of any
/// prefix is at most the value of the whole.
proof fn lemma_decimal_val_prefix_le(s: Seq<char>, i: int)
    requires
        all_digits(s),
        0 <= i <= s.len(),
    ensures
        spec_decimal_val(s.subrange(0, i)) <= spec_decimal_val(s),
    decreases s.len() - i,
{
    if i < s.len() {
        let t = s.subrange(0, i + 1);
        assert(t.drop_last() =~= s.subrange(0, i));
        assert(all_digits(s.subrange(0, i)));
        lemma_decimal_val_nonneg(s.subrange(0, i));
        assert(spec_decimal_val(t) == spec_decimal_val(s.subrange(0, i)) * 10 + digit_val(s[i]));
        assert(spec_decimal_val(s.subrange(0, i)) <= spec_decimal_val(t)) by (nonlinear_arith)
            requires
                spec_decimal_val(t) == spec_decimal_val(s.subrange(0, i)) * 10 + digit_val(s[i]),
                spec_decimal_val(s.subrange(0, i)) >= 0,
                digit_val(s[i]) >= 0,
        ;
        lemma_decimal_val_prefix_le(s, i + 1);
        assert(s.subrange(0, s.len() as int) =~= s);
    } else {
        assert(s.subrange(0, i) =~= s);
    }
}

fn digit_str(d: u32) -> (r: &'static str)
    requires
        d < 10,
    ensures
        r@ =~= seq![char_of_digit(d as int)],
{
    if d == 0 {
        let r = "0";
        proof { reveal_strlit("0"); }
        r
    } else if d == 1 {
        let r = "1";
        proof { reveal_strlit("1"); }
        r
    } else if d == 2 {
        let r = "2";
        proof { reveal_strlit("2"); }
        r
    } else if d == 3 {
        let r = "3";
        proof { reveal_strlit("3"); }
        r
    } else if d == 4 {
        let r = "4";
        proof { reveal_strlit("4"); }
        r
    } else if d == 5 {
        let r = "5";
        proof { reveal_strlit("5"); }
        r
    } else if d == 6 {
        let r = "6";
        proof { reveal_strlit("6"); }
        r
    } else if d == 7 {
        let r = "7";
        proof { reveal_strlit("7"); }
        r
    } else if d == 8 {
        let r = "8";
        proof { reveal_strlit("8"); }
        r
    } else {
        let r = "9";
        proof { reveal_strlit("9"); }
        r
    }
}

/// Renders an unsigned integer as the decimal string the wire expects.
pub fn serialize(val: u32) -> (r: String)
    ensures
        r@ == spec_decimal(val as int),
    decreases val,
{
    let d = digit_str(val % 10);
    if val < 10 {
        d.to_owned()
    } else {
        let mut s = serialize(val / 10);
        s.append(d);
        proof {
            assert(spec_decimal(val as int) == spec_decimal(val as int / 10).push(
                char_of_digit(val as int % 10),
            ));
            assert(s@ =~= spec_decimal(val as int / 10).push(char_of_digit(val as int % 10)));
        }
        s
    }
}

fn char_to_digit(c: char) -> (r: Option<u32>)
    ensures
        r is Some <==> is_digit(c),
        r matches Some(d) ==> d == digit_val(c) && d < 10,
{
    let x = c as u32;
    if 48 <= x && x <= 57 {
        Some(x - 48)
    } else {
        None
    }
}

/// Parses a decimal string into an unsigned integer, accepting exactly the
/// non-empty all-digit strings whose value fits; anything else is refused.
pub fn deserialize(s: &str) -> (r: Option<u32>)
    ensures
        r is Some <==> valid_decimal(s@),
        r matches Some(v) ==> v as int == spec_decimal_val(s@),
{
    let len = s.unicode_len();
    if len == 0 {
        return None;
    }
    let mut acc: u32 = 0;
    let mut i: usize = 0;
    while i < len
        invariant
            0 <= i <= len,
            len == s@.len(),
            forall|j: int| 0 <= j < i ==> is_digit(#[trigger] s@[j]),
            acc as int == spec_decimal_val(s@.subrange(0, i as int)),
        decreases len - i,
    {
        let c = s.get_char(i);
        let ghost pre = s@.subrange(0, i as int);
        let ghost ext = s@.subrange(0, i as int + 1);
        proof {
            assert(ext.drop_last() =~= pre);
            assert(spec_decimal_val(ext) == spec_decimal_val(pre) * 10 + digit_val(s@[i as int]));
        }
        match char_to_digit(c) {
            None => {
                assert(!all_digits(s@));
                return None;
            },
            Some(d) => {
                if acc > (u32::MAX - d) / 10 {
                    proof {
                        assert(spec_decimal_val(ext) > u32::MAX) by (nonlinear_arith)
                            requires
                                spec_decimal_val(ext) == acc as int * 10 + d,
                                d < 10,
                                acc as int > (u32::MAX - d) as int / 10,
                        ;
                        if valid_decimal(s@) {
                            lemma_decimal_val_prefix_le(s@, i as int + 1);
                        }
                    }
                    return None;
                }
                proof {
                    assert(acc as int * 10 + d <= u32::MAX) by (nonlinear_arith)
                        requires
                            d < 10,
                            0 <= acc as int <= (u32::MAX - d) as int / 10,
                    ;
                }
                acc = acc * 10 + d;
            },
        }
        i += 1;
    }
    proof {
        assert(s@.subrange(0, len as int) =~= s@);
    }
    Some(acc)
}

/// Law: the decimal codec round-trips every unsigned integer — the
/// rendering of `n` is a string this codec accepts, and it parses back
/// to `n` exactly.
pub proof fn lemma_decimal_round_trip(n: u32)
    ensures
        valid_decimal(spec_decimal(n as int)),
        spec_decimal_val(spec_decimal(n as int)) == n as int,
    decreases n,
{
    let s = spec_decimal(n as int);
    if n < 10 {
        lemma_digit_round_trip(n as int);
        assert(s =~= seq![char_of_digit(n as int)]);
        assert(s.drop_last() =~= Seq::<char>::empty());
        assert(s.last() == char_of_digit(n as int));
        assert(spec_decimal_val(Seq::<char>::empty()) == 0);
        assert(spec_decimal_val(s) == spec_decimal_val(s.drop_last()) * 10 + digit_val(s.last()));
    } else {
        lemma_decimal_round_trip(n / 10);
        lemma_digit_round_trip(n as int % 10);
        let head = spec_decimal(n as int / 10);
        assert(s == head.push(char_of_digit(n as int % 10)));
        assert(s.drop_last() =~= head);
        assert(s.last() == char_of_digit(n as int % 10));
        assert(forall|i: int| 0 <= i < s.len() ==> is_digit(#[trigger] s[i])) by {
            assert(forall|i: int| 0 <= i < head.len() ==> s[i] == #[trigger] head[i]);
        }
        assert(spec_decimal_val(s) == (n as int / 10) * 10 + (n as int % 10));
        assert(n as int == (n as int / 10) * 10 + (n as int % 10));
    }
}

// ---------------------------------------------------------------------------
// Flat field lists
// ---------------------------------------------------------------------------

/// The value of the first field named `key`, in the order the fields stand.
pub open spec fn spec_lookup(fs: Seq<(Seq<char>, Seq<char>)>, key: Seq<char>) -> Option<Seq<char>>
    decreases fs.len(),
{
    if fs.len() == 0 {
        None
    } else if fs[0].0 == key {
        Some(fs[0].1)
    } else {
        spec_lookup(fs.drop_first(), key)
    }
}

/// Compares two strings by their characters.
pub fn str_eq(a: &str, b: &str) -> (r: bool)
    ensures
        r == (a@ == b@),
{
    let sa: String = a.to_owned();
    let sb: String = b.to_owned();
    sa == sb
}

/// Finds the first field named `key` in a flat field list.
pub fn lookup(fs: &Vec<(String, String)>, key: &str) -> (r: Option<String>)
    ensures
        match r {
            Some(v) => spec_lookup(fs.deep_view(), key@) == Some(v@),
            None => spec_lookup(fs.deep_view(), key@) is None,
        },
{
    let ghost dv = fs.deep_view();
    proof {
        assert(dv.skip(0) =~= dv);
    }
    let mut i: usize = 0;
    while i < fs.len()
        invariant
            0 <= i <= fs.len(),
            dv == fs.deep_view(),
            dv.len() == fs.len(),
            spec_lookup(dv, key@) == spec_lookup(dv.skip(i as int), key@),
        decreases fs.len() - i,
    {
        proof {
            assert(dv.skip(i as int)[0] == dv[i as int]);
            assert(dv.skip(i as int).drop_first() =~= dv.skip(i as int + 1));
        }
        if str_eq(fs[i].0.as_str(), key) {
            return Some(fs[i].1.clone());
        }
        i += 1;
    }
    proof {
        assert(dv.skip(fs.len() as int) =~= Seq::<(Seq<char>, Seq<char>)>::empty());
    }
    None
}

// ---------------------------------------------------------------------------
// Record payloads
// ---------------------------------------------------------------------------

/// The outbound payload of a record: its five wire fields, with `ttl` and
/// `prio` rendered as decimal strings. The `id` is path-level data and is
/// never part of a payload.
pub open spec fn spec_record_fields(r: RecordModel) -> Seq<(Seq<char>, Seq<char>)> {
    seq![
        ("name"@, r.name),
        ("type"@, spec_wire_name(r.typ)),
        ("content"@, r.content),
        ("ttl"@, spec_decimal(r.ttl as int)),
        ("prio"@, spec_decimal(r.priority as int)),
    ]
}

/// Builds the outbound field list of a record.
pub fn record_fields(r: &Record) -> (fs: Vec<(String, String)>)
    ensures
        fs.deep_view() =~= spec_record_fields(r@),
{
    let mut fs: Vec<(String, String)> = Vec::new();
    fs.push(("name".to_owned(), r.name.clone()));
    fs.push(("type".to_owned(), r.typ.wire_name().to_owned()));
    fs.push(("content".to_owned(), r.content.clone()));
    fs.push(("ttl".to_owned(), serialize(r.ttl)));
    fs.push(("prio".to_owned(), serialize(r.priority)));
    fs
}

/// Why a flat field list failed to decode into a record.
#[derive(Debug)]
pub enum DecodeError {
    /// A required field is absent.
    Missing { field: String },
    /// A numeric field does not hold a decimal string.
    NotANumber { field: String },
    /// The `type` field names no known record type.
    UnknownType { value: String },
}

/// What decoding a flat field list yields, stated over character sequences.
pub enum DecodeOutcome {
    Decoded { record: RecordModel },
    MissingField { field: Seq<char> },
    BadNumber { field: Seq<char> },
    BadType { value: Seq<char> },
}

/// The decode of one record payload: the five wire fields are required,
/// numeric fields must hold decimal strings, the type must name a known
/// variant; an absent `id` decodes as 0 (a record not yet created).
/// Fields are checked in the order name, type, content, ttl, prio, id.
pub open spec fn spec_decode_record(fs: Seq<(Seq<char>, Seq<char>)>) -> DecodeOutcome {
    if spec_lookup(fs, "name"@) is None {
        DecodeOutcome::MissingField { field: "name"@ }
    } else if spec_lookup(fs, "type"@) is None {
        DecodeOutcome::MissingField { field: "type"@ }
    } else if spec_type_of_wire(spec_lookup(fs, "type"@)->0) is None {
        DecodeOutcome::BadType { value: spec_lookup(fs, "type"@)->0 }
    } else if spec_lookup(fs, "content"@) is None {
        DecodeOutcome::MissingField { field: "content"@ }
    } else if spec_lookup(fs, "ttl"@) is None {
        DecodeOutcome::MissingField { field: "ttl"@ }
    } else if !valid_decimal(spec_lookup(fs, "ttl"@)->0) {
        DecodeOutcome::BadNumber { field: "ttl"@ }
    } else if spec_lookup(fs, "prio"@) is None {
        DecodeOutcome::MissingField { field: "prio"@ }
    } else if !valid_decimal(spec_lookup(fs, "prio"@)->0) {
        DecodeOutcome::BadNumber { field: "prio"@ }
    } else if spec_lookup(fs, "id"@) matches Some(v) && !valid_decimal(v) {
        DecodeOutcome::BadNumber { field: "id"@ }
    } else {
        DecodeOutcome::Decoded {
            record: RecordModel {
                id: (match spec_lookup(fs, "id"@) {
                    Some(v) => spec_decimal_val(v),
                    None => 0,
                }) as u32,
                name: spec_lookup(fs, "name"@)->0,
                typ: spec_type_of_wire(spec_lookup(fs, "type"@)->0)->0,
                content: spec_lookup(fs, "content"@)->0,
                ttl: spec_decimal_val(spec_lookup(fs, "ttl"@)->0) as u32,
                priority: spec_decimal_val(spec_lookup(fs, "prio"@)->0) as u32,
            },
        }
    }
}

/// Whether an executable decode result states exactly the given outcome.
pub open spec fn decode_result_matches(r: Result<Record, DecodeError>, out: DecodeOutcome) -> bool {
    match r {
        Ok(rec) => out matches DecodeOutcome::Decoded { record } && record == rec@,
        Err(DecodeError::Missing { field }) => out matches DecodeOutcome::MissingField {
            field: f,
        } && f == field@,
        Err(DecodeError::NotANumber { field }) => out matches DecodeOutcome::BadNumber {
            field: f,
        } && f == field@,
        Err(DecodeError::UnknownType { value }) => out matches DecodeOutcome::BadType {
            value: v,
        } && v == value@,
    }
}

fn type_of_wire(s: &str) -> (r: Option<RecordType>)
    ensures
        r == spec_type_of_wire(s@),
{
    if str_eq(s, "A") {
        Some(RecordType::A)
    } else if str_eq(s, "MX") {
        Some(RecordType::MX)
    } else if str_eq(s, "CNAME") {
        Some(RecordType::CNAME)
    } else if str_eq(s, "ALIAS") {
        Some(RecordType::ALIAS)
    } else if str_eq(s, "TXT") {
        Some(RecordType::TXT)
    } else if str_eq(s, "NS") {
        Some(RecordType::NS)
    } else if str_eq(s, "AAAA") {
        Some(RecordType::AAAA)
    } else if str_eq(s, "SRV") {
        Some(RecordType::SRV)
    } else if str_eq(s, "TLSA") {
        Some(RecordType::TLSA)
    } else if str_eq(s, "CAA") {
        Some(RecordType::CAA)
    } else {
        None
    }
}

/// Decodes one record from its flat field list.
pub fn decode_record(fs: &Vec<(String, String)>) -> (r: Result<Record, DecodeError>)
    ensures
        decode_result_matches(r, spec_decode_record(fs.deep_view())),
{
    let name = match lookup(fs, "name") {
        Some(v) => v,
        None => {
            return Err(DecodeError::Missing { field: "name".to_owned() });
        },
    };
    let type_text = match lookup(fs, "type") {
        Some(v) => v,
        None => {
            return Err(DecodeError::Missing { field: "type".to_owned() });
        },
    };
    let typ = match type_of_wire(type_text.as_str()) {
        Some(t) => t,
        None => {
            return Err(DecodeError::UnknownType { value: type_text });
        },
    };
    let content = match lookup(fs, "content") {
        Some(v) => v,
        None => {
            return Err(DecodeError::Missing { field: "content".to_owned() });
        },
    };
    let ttl = match lookup(fs, "ttl") {
        Some(v) => match deserialize(v.as_str()) {
            Some(n) => n,
            None => {
                return Err(DecodeError::NotANumber { field: "ttl".to_owned() });
            },
        },
        None => {
            return Err(DecodeError::Missing { field: "ttl".to_owned() });
        },
    };
    let priority = match lookup(fs, "prio") {
        Some(v) => match deserialize(v.as_str()) {
            Some(n) => n,
            None => {
                return Err(DecodeError::NotANumber { field: "prio".to_owned() });
            },
        },
        None => {
            return Err(DecodeError::Missing { field: "prio".to_owned() });
        },
    };
    let id = match lookup(fs, "id") {
        Some(v) => match deserialize(v.as_str()) {
            Some(n) => n,
            None => {
                return Err(DecodeError::NotANumber { field: "id".to_owned() });
            },
        },
        None => 0,
    };
    Ok(Record { id, name, typ, content, ttl, priority })
}

/// The text a decode failure reports, naming the offending field or value.
pub open spec fn spec_decode_error_text(out: DecodeOutcome) -> Seq<char> {
    match out {
        DecodeOutcome::Decoded { .. } => Seq::empty(),
        DecodeOutcome::MissingField { field } => "missing field "@ + field,
        DecodeOutcome::BadNumber { field } => "invalid number in field "@ + field,
        DecodeOutcome::BadType { value } => "unknown record type "@ + value,
    }
}

/// The outcome an executable decode error stands for.
pub open spec fn decode_error_outcome(e: DecodeError) -> DecodeOutcome {
    match e {
        DecodeError::Missing { field } => DecodeOutcome::MissingField { field: field@ },
        DecodeError::NotANumber { field } => DecodeOutcome::BadNumber { field: field@ },
        DecodeError::UnknownType { value } => DecodeOutcome::BadType { value: value@ },
    }
}

impl DecodeError {
    /// The human-readable description of this decode failure.
    pub fn text(&self) -> (r: String)
        ensures
            r@ == spec_decode_error_text(decode_error_outcome(*self)),
    {
        match self {
            DecodeError::Missing { field } => {
                let mut s = "missing field ".to_owned();
                s.append(field.as_str());
                s
            },
            DecodeError::NotANumber { field } => {
                let mut s = "invalid number in field ".to_owned();
                s.append(field.as_str());
                s
            },
            DecodeError::UnknownType { value } => {
                let mut s = "unknown record type ".to_owned();
                s.append(value.as_str());
                s
            },
        }
    }
}

/// The decode of a whole zone listing: every object decodes in order, and
/// the first failure is the failure of the whole.
pub open spec fn spec_decode_all(objs: Seq<Seq<(Seq<char>, Seq<char>)>>) -> Result<
    Seq<RecordModel>,
    DecodeOutcome,
>
    decreases objs.len(),
{
    if objs.len() == 0 {
        Ok(Seq::empty())
    } else {
        match spec_decode_record(objs[0]) {
            DecodeOutcome::Decoded { record } => match spec_decode_all(objs.drop_first()) {
                Ok(rest) => Ok(seq![record] + rest),
                Err(e) => Err(e),
            },
            failure => Err(failure),
        }
    }
}

/// Whether an executable list decode states exactly the given outcome.
pub open spec fn decode_all_matches(
    r: Result<Vec<Record>, DecodeError>,
    out: Result<Seq<RecordModel>, DecodeOutcome>,
) -> bool {
    match r {
        Ok(recs) => out == Ok::<_, DecodeOutcome>(crate::record::records_view(recs@)),
        Err(e) => out matches Err(failure) && decode_result_matches(
            Err::<Record, DecodeError>(e),
            failure,
        ),
    }
}

/// Decodes a zone listing from its flat field lists.
pub fn decode_records(objs: &Vec<Vec<(String, String)>>) -> (r: Result<Vec<Record>, DecodeError>)
    ensures
        decode_all_matches(r, spec_decode_all(objs.deep_view())),
{
    let ghost dv = objs.deep_view();
    let mut out: Vec<Record> = Vec::new();
    let mut i: usize = 0;
    proof {
        assert(dv.skip(0) =~= dv);
        assert(crate::record::records_view(out@) =~= Seq::<RecordModel>::empty());
    }
    while i < objs.len()
        invariant
            0 <= i <= objs.len(),
            dv == objs.deep_view(),
            dv.len() == objs.len(),
            spec_decode_all(dv) == (match spec_decode_all(dv.skip(i as int)) {
                Ok(rest) => Ok::<_, DecodeOutcome>(crate::record::records_view(out@) + rest),
                Err(e) => Err::<Seq<RecordModel>, _>(e),
            }),
        decreases objs.len() - i,
    {
        proof {
            assert(dv.skip(i as int)[0] == dv[i as int]);
            assert(dv.skip(i as int).drop_first() =~= dv.skip(i as int + 1));
        }
        let ghost pre = crate::record::records_view(out@);
        match decode_record(&objs[i]) {
            Ok(rec) => {
                out.push(rec);
                proof {
                    assert(crate::record::records_view(out@) =~= pre + seq![rec@]);
                    match spec_decode_all(dv.skip(i as int + 1)) {
                        Ok(rest) => {
                            assert((pre + (seq![rec@] + rest)) =~= ((pre + seq![rec@]) + rest));
                        },
                        Err(_) => {},
                    }
                }
            },
            Err(e) => {
                return Err(e);
            },
        }
        i += 1;
    }
    proof {
        assert(dv.skip(objs.len() as int) =~= Seq::<Seq<(Seq<char>, Seq<char>)>>::empty());
        assert(crate::record::records_view(out@) + Seq::<RecordModel>::empty() =~= crate::record::records_view(out@));
    }
    Ok(out)
}

proof fn lemma_type_wire_round_trip(t: RecordType)
    ensures
        spec_type_of_wire(spec_wire_name(t)) == Some(t),
{
    reveal_strlit("A");
    reveal_strlit("MX");
    reveal_strlit("CNAME");
    reveal_strlit("ALIAS");
    reveal_strlit("TXT");
    reveal_strlit("NS");
    reveal_strlit("AAAA");
    reveal_strlit("SRV");
    reveal_strlit("TLSA");
    reveal_strlit("CAA");
    assert(("A"@).len() == 1);
    assert(("MX"@).len() == 2);
    assert(("CNAME"@).len() == 5);
    assert(("ALIAS"@).len() == 5);
    assert(("TXT"@).len() == 3);
    assert(("NS"@).len() == 2);
    assert(("AAAA"@).len() == 4);
    assert(("SRV"@).len() == 3);
    assert(("TLSA"@).len() == 4);
    assert(("CAA"@).len() == 3);
    assert(("MX"@)[0] != ("NS"@)[0]);
    assert(("CNAME"@)[0] != ("ALIAS"@)[0]);
    assert(("TXT"@)[0] != ("SRV"@)[0]);
    assert(("TXT"@)[0] != ("CAA"@)[0]);
    assert(("SRV"@)[0] != ("CAA"@)[0]);
    assert(("AAAA"@)[0] != ("TLSA"@)[0]);
}

/// Law: encoding a record's outbound payload and then decoding that payload
/// yields a record whose `ttl` and `priority` are the same integers despite
/// the string wire representation — and whose name, type and content are
/// unchanged too. The `id`, never part of an outbound payload, decodes as 0.
pub proof fn lemma_record_round_trip(r: RecordModel)
    ensures
        ({
            let out = spec_decode_record(spec_record_fields(r));
            &&& out matches DecodeOutcome::Decoded { record }
            &&& record.ttl == r.ttl
            &&& record.priority == r.priority
            &&& record.name == r.name
            &&& record.typ == r.typ
            &&& record.content == r.content
            &&& record.id == 0
        }),
{
    reveal_with_fuel(spec_lookup, 7);
    reveal_strlit("name");
    reveal_strlit("type");
    reveal_strlit("content");
    reveal_strlit("ttl");
    reveal_strlit("prio");
    reveal_strlit("id");
    assert(("name"@)[0] != ("type"@)[0]);
    assert(("name"@)[0] != ("prio"@)[0]);
    assert(("type"@)[0] != ("prio"@)[0]);
    assert(("name"@).len() == 4);
    assert(("type"@).len() == 4);
    assert(("content"@).len() == 7);
    assert(("ttl"@).len() == 3);
    assert(("prio"@).len() == 4);
    assert(("id"@).len() == 2);
    assert("name"@ != "content"@ && "name"@ != "ttl"@ && "name"@ != "id"@);
    assert("type"@ != "content"@ && "type"@ != "ttl"@ && "type"@ != "id"@);
    assert("content"@ != "ttl"@ && "content"@ != "prio"@ && "content"@ != "id"@);
    assert("ttl"@ != "prio"@ && "ttl"@ != "id"@);
    assert("prio"@ != "id"@);
    let fs = spec_record_fields(r);
    let t1 = fs.drop_first();
    let t2 = t1.drop_first();
    let t3 = t2.drop_first();
    let t4 = t3.drop_first();
    let t5 = t4.drop_first();
    assert(t1 =~= seq![
        ("type"@, spec_wire_name(r.typ)),
        ("content"@, r.content),
        ("ttl"@, spec_decimal(r.ttl as int)),
        ("prio"@, spec_decimal(r.priority as int)),
    ]);
    assert(t2 =~= seq![
        ("content"@, r.content),
        ("ttl"@, spec_decimal(r.ttl as int)),
        ("prio"@, spec_decimal(r.priority as int)),
    ]);
    assert(t3 =~= seq![
        ("ttl"@, spec_decimal(r.ttl as int)),
        ("prio"@, spec_decimal(r.priority as int)),
    ]);
    assert(t4 =~= seq![("prio"@, spec_decimal(r.priority as int))]);
    assert(t5 =~= Seq::<(Seq<char>, Seq<char>)>::empty());
    assert(spec_lookup(fs, "name"@) == Some(r.name));
    assert(spec_lookup(fs, "type"@) == Some(spec_wire_name(r.typ)));
    assert(spec_lookup(fs, "content"@) == Some(r.content));
    assert(spec_lookup(fs, "ttl"@) == Some(spec_decimal(r.ttl as int)));
    assert(spec_lookup(fs, "prio"@) == Some(spec_decimal(r.priority as int)));
    assert(spec_lookup(fs, "id"@) is None);
    lemma_type_wire_round_trip(r.typ);
    lemma_decimal_round_trip(r.ttl);
    lemma_decimal_round_trip(r.priority);
}

/// Law: a numeric field that does not hold a decimal string fails the
/// decode with an error naming that field. The numeric fields are checked
/// in the order ttl, prio, id, after the non-numeric fields.
pub proof fn lemma_decode_names_bad_number(fs: Seq<(Seq<char>, Seq<char>)>)
    requires
        spec_lookup(fs, "name"@) is Some,
        spec_lookup(fs, "type"@) matches Some(t) && spec_type_of_wire(t) is Some,
        spec_lookup(fs, "content"@) is Some,
        spec_lookup(fs, "ttl"@) is Some,
        spec_lookup(fs, "prio"@) is Some,
    ensures
        !valid_decimal(spec_lookup(fs, "ttl"@)->0) ==> spec_decode_record(fs)
            == (DecodeOutcome::BadNumber { field: "ttl"@ }),
        valid_decimal(spec_lookup(fs, "ttl"@)->0) && !valid_decimal(spec_lookup(fs, "prio"@)->0)
            ==> spec_decode_record(fs) == (DecodeOutcome::BadNumber { field: "prio"@ }),
        valid_decimal(spec_lookup(fs, "ttl"@)->0) && valid_decimal(spec_lookup(fs, "prio"@)->0)
            && (spec_lookup(fs, "id"@) matches Some(v) && !valid_decimal(v))
            ==> spec_decode_record(fs) == (DecodeOutcome::BadNumber { field: "id"@ }),
{
}

// ---------------------------------------------------------------------------
// The request envelope
// ---------------------------------------------------------------------------

/// Every outbound call merges the two credential fields and the payload's
/// fields into one flat object; a call with no payload sends only the
/// credentials.
pub open spec fn spec_envelope(
    api_key: Seq<char>,
    secret_api_key: Seq<char>,
    payload: Seq<(Seq<char>, Seq<char>)>,
) -> Seq<(Seq<char>, Seq<char>)> {
    seq![("apikey"@, api_key), ("secretapikey"@, secret_api_key)] + payload
}

/// Builds the flat field list of an authenticated request.
pub fn envelope_fields(api_key: &String, secret_api_key: &String, payload: Vec<(String, String)>) -> (fs: Vec<
    (String, String),
>)
    ensures
        fs.deep_view() =~= spec_envelope(api_key@, secret_api_key@, payload.deep_view()),
{
    let ghost pv = payload.deep_view();
    let mut fs: Vec<(String, String)> = Vec::new();
    fs.push(("apikey".to_owned(), api_key.clone()));
    fs.push(("secretapikey".to_owned(), secret_api_key.clone()));
    let mut payload = payload;
    let ghost two = fs.deep_view();
    fs.append(&mut payload);
    proof {
        assert(fs.deep_view() =~= two + pv);
    }
    fs
}

} // verus!
