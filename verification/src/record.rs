//! The typed representation of one DNS resource record and its identity
//! rules. Two records occupy the same reconciliation slot when their `name`
//! and `type` agree; the provider-assigned `id` plays no part in matching.

use vstd::prelude::*;

verus! {

/// The closed set of record types the provider understands. The
/// reconciliation logic only ever acts on `A` records; the remaining
/// variants exist so that a full zone listing decodes.
#[derive(Clone, Copy, Debug, PartialEq, Eq, Structural)]
pub enum RecordType {
    A,
    MX,
    CNAME,
    ALIAS,
    TXT,
    NS,
    AAAA,
    SRV,
    TLSA,
    CAA,
}

/// The exact uppercase name a record type carries on the wire.
pub open spec fn spec_wire_name(t: RecordType) -> Seq<char> {
    match t {
        RecordType::A => "A"@,
        RecordType::MX => "MX"@,
        RecordType::CNAME => "CNAME"@,
        RecordType::ALIAS => "ALIAS"@,
        RecordType::TXT => "TXT"@,
        RecordType::NS => "NS"@,
        RecordType::AAAA => "AAAA"@,
        RecordType::SRV => "SRV"@,
        RecordType::TLSA => "TLSA"@,
        RecordType::CAA => "CAA"@,
    }
}

/// The record type a wire name denotes, if any: the inverse of
/// `spec_wire_name` on exact uppercase names, `None` elsewhere.
pub open spec fn spec_type_of_wire(s: Seq<char>) -> Option<RecordType> {
    if s == "A"@ {
        Some(RecordType::A)
    } else if s == "MX"@ {
        Some(RecordType::MX)
    } else if s == "CNAME"@ {
        Some(RecordType::CNAME)
    } else if s == "ALIAS"@ {
        Some(RecordType::ALIAS)
    } else if s == "TXT"@ {
        Some(RecordType::TXT)
    } else if s == "NS"@ {
        Some(RecordType::NS)
    } else if s == "AAAA"@ {
        Some(RecordType::AAAA)
    } else if s == "SRV"@ {
        Some(RecordType::SRV)
    } else if s == "TLSA"@ {
        Some(RecordType::TLSA)
    } else if s == "CAA"@ {
        Some(RecordType::CAA)
    } else {
        None
    }
}

impl RecordType {
    /// The uppercase name this type serializes to.
    pub fn wire_name(&self) -> (r: &'static str)
        ensures
            r@ == spec_wire_name(*self),
    {
        match self {
            RecordType::A => "A",
            RecordType::MX => "MX",
            RecordType::CNAME => "CNAME",
            RecordType::ALIAS => "ALIAS",
            RecordType::TXT => "TXT",
            RecordType::NS => "NS",
            RecordType::AAAA => "AAAA",
            RecordType::SRV => "SRV",
            RecordType::TLSA => "TLSA",
            RecordType::CAA => "CAA",
        }
    }
}

/// One DNS resource record as known to the provider. An `id` of 0 stands
/// for a record not yet created; an empty `name` denotes the zone apex.
#[derive(Debug)]
pub struct Record {
    pub id: u32,
    pub name: String,
    pub typ: RecordType,
    pub content: String,
    pub ttl: u32,
    pub priority: u32,
}

/// The mathematical image of a `Record`: its strings as character sequences.
pub struct RecordModel {
    pub id: u32,
    pub name: Seq<char>,
    pub typ: RecordType,
    pub content: Seq<char>,
    pub ttl: u32,
    pub priority: u32,
}

impl View for Record {
    type V = RecordModel;

    open spec fn view(&self) -> RecordModel {
        RecordModel {
            id: self.id,
            name: self.name@,
            typ: self.typ,
            content: self.content@,
            ttl: self.ttl,
            priority: self.priority,
        }
    }
}

impl Clone for Record {
    fn clone(&self) -> (r: Self)
        ensures
            r@ == self@,
    {
        Record {
            id: self.id,
            name: self.name.clone(),
            typ: self.typ,
            content: self.content.clone(),
            ttl: self.ttl,
            priority: self.priority,
        }
    }
}

/// The sequence of record models a sequence of records stands for.
pub open spec fn records_view(rs: Seq<Record>) -> Seq<RecordModel> {
    rs.map_values(|r: Record| r@)
}

} // verus!
