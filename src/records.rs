//! The provider's DNS records and the envelopes it answers with.
use vstd::prelude::*;
use crate::bounded::{MaxLenString, MinMaxValueU16, TTLU32};

verus! {

#[derive(Debug, Clone)]
pub struct Meta {
    pub auto_added: Option<bool>,
    pub source: Option<String>,
}

#[derive(Debug, Clone)]
pub struct CAAData {
    pub flags: Option<u8>,
    pub tag: Option<String>,
    pub value: Option<String>,
}

/// `type_` is the field `type` on the wire.
#[derive(Debug, Clone)]
pub struct CERTData {
    pub algorithm: Option<u8>,
    pub certificate: Option<String>,
    pub key_tag: Option<u16>,
    pub type_: Option<u16>,
}

#[derive(Debug, Clone)]
pub struct DNSKEYData {
    pub algorithm: Option<u8>,
    pub flags: Option<u16>,
    pub protocol: Option<u16>,
    pub public_key: Option<String>,
}

#[derive(Debug, Clone)]
pub struct DSData {
    pub algorithm: Option<u8>,
    pub digest: Option<String>,
    pub digest_type: Option<u8>,
    pub key_tag: Option<u16>,
}

#[derive(Debug, Clone)]
pub struct HTTPSData {
    pub priority: Option<u16>,
    pub target: Option<String>,
    pub value: Option<String>,
}

#[derive(Debug, Clone)]
pub struct URIData {
    pub content: Option<String>,
    pub weight: Option<u16>,
}

/// The kind-specific part of a record, keyed by the provider's `type` field.
/// `Other` stands for every kind this library does not know.
#[derive(Debug, Clone)]
pub enum TypeSpecificData {
    A { content: String, proxied: Option<bool> },
    AAAA { content: String, proxied: Option<bool> },
    CAA { content: String, data: CAAData },
    CERT { content: String, data: CERTData },
    CNAME { content: String },
    DNSKEY { content: String, data: DNSKEYData },
    DS { content: String, data: DSData },
    HTTPS { content: String, data: HTTPSData },
    LOC { content: String },
    MX { content: String, priority: u16 },
    NAPTR { content: String },
    NS { content: String },
    PTR { content: String },
    SMIMEA { content: String },
    SRV { content: String },
    SSHFP { content: String },
    SVCB { content: String },
    TLSA { content: String },
    TXT { content: String },
    URI { content: String, data: URIData },
    Other,
}

/// Read access to the common attributes of a record.
pub trait Record {
    /// The record's kind-specific part.
    spec fn type_data_of(&self) -> TypeSpecificData;

    /// The record's display name.
    spec fn name_of(&self) -> MaxLenString<255>;

    /// The provider's identifier, once the record exists at the provider.
    spec fn id_of(&self) -> Option<MaxLenString<32>>;

    fn get_type_data(&self) -> (r: &TypeSpecificData)
        ensures
            *r == self.type_data_of(),
    ;

    fn get_name(&self) -> (r: &MaxLenString<255>)
        ensures
            *r == self.name_of(),
    ;

    fn get_id(&self) -> (r: Option<&MaxLenString<32>>)
        ensures
            match r {
                Some(i) => self.id_of() == Some(*i),
                None => self.id_of() is None,
            },
    ;

    spec fn comment_of(&self) -> Option<String>;

    spec fn tags_of(&self) -> Option<Vec<String>>;

    spec fn ttl_of(&self) -> Option<TTLU32>;

    fn get_comment(&self) -> (r: &Option<String>)
        ensures
            *r == self.comment_of(),
    ;

    fn get_tags(&self) -> (r: &Option<Vec<String>>)
        ensures
            *r == self.tags_of(),
    ;

    fn get_ttl(&self) -> (r: &Option<TTLU32>)
        ensures
            *r == self.ttl_of(),
    ;
}

/// A record as the provider lists it.
#[derive(Debug, Clone)]
pub struct RecordResponse {
    pub type_data: TypeSpecificData,
    pub name: MaxLenString<255>,
    pub comment: Option<String>,
    pub created_on: String,
    pub id: MaxLenString<32>,
    pub locked: bool,
    pub meta: Option<Meta>,
    pub modified_on: String,
    pub proxiable: bool,
    pub tags: Option<Vec<String>>,
    pub ttl: Option<TTLU32>,
    pub zone_id: Option<MaxLenString<32>>,
    pub zone_name: String,
}

impl Record for RecordResponse {
    open spec fn type_data_of(&self) -> TypeSpecificData {
        self.type_data
    }

    open spec fn name_of(&self) -> MaxLenString<255> {
        self.name
    }

    open spec fn id_of(&self) -> Option<MaxLenString<32>> {
        Some(self.id)
    }

    open spec fn comment_of(&self) -> Option<String> {
        self.comment
    }

    open spec fn tags_of(&self) -> Option<Vec<String>> {
        self.tags
    }

    open spec fn ttl_of(&self) -> Option<TTLU32> {
        self.ttl
    }

    fn get_comment(&self) -> (r: &Option<String>) {
        &self.comment
    }

    fn get_id(&self) -> (r: Option<&MaxLenString<32>>) {
        Some(&self.id)
    }

    fn get_name(&self) -> (r: &MaxLenString<255>) {
        &self.name
    }

    fn get_tags(&self) -> (r: &Option<Vec<String>>) {
        &self.tags
    }

    fn get_ttl(&self) -> (r: &Option<TTLU32>) {
        &self.ttl
    }

    fn get_type_data(&self) -> (r: &TypeSpecificData) {
        &self.type_data
    }
}

#[derive(Debug, Clone)]
pub struct Message {
    pub code: MinMaxValueU16<1000, 65535>,
    pub message: String,
}

#[derive(Debug, Clone, Copy)]
pub struct ResultInfo {
    pub count: u16,
    pub page: u16,
    pub per_page: u16,
    pub total_count: u16,
}

/// Envelope of a record listing.
#[derive(Debug, Clone)]
pub struct ListResponse {
    pub result: Vec<RecordResponse>,
    pub errors: Vec<Message>,
    pub messages: Vec<Message>,
    pub success: bool,
    pub result_info: Option<ResultInfo>,
}

/// Envelope of a record update.
#[derive(Debug, Clone)]
pub struct PatchResponse {
    pub result: RecordResponse,
    pub errors: Vec<Message>,
    pub messages: Vec<Message>,
    pub success: bool,
}

} // verus!
