use vstd::prelude::*;

use crate::common::{get_str, str_spec, text_is};
use crate::error::{result_view, Error, ErrorModel, Result};
use crate::value::{lemma_find_at, members_model, FieldModel, Member, ValueModel};

verus! {

broadcast use vstd::string::group_string_axioms;

/// The type of a DNS record.
#[derive(Clone, Copy, Debug, PartialEq, Eq, Structural)]
pub enum RecordType {
    A,
    Aaaa,
    Afsdb,
    Alias,
    Caa,
    Cert,
    CName,
    HInfo,
    Https,
    IpSecKey,
    Loc,
    Mx,
    NaPtr,
    Ns,
    OpenPgpKey,
    Ptr,
    Rp,
    SmimeA,
    Soa,
    Srv,
    SshFp,
    Svcb,
    Tlsa,
    Txt,
    Uri,
    Url,
}

impl RecordType {
    /// The wire token of each variant.
    pub open spec fn token_spec(self) -> Seq<char> {
        match self {
            RecordType::A => "A"@,
            RecordType::Aaaa => "AAAA"@,
            RecordType::Afsdb => "AFSDB"@,
            RecordType::Alias => "ALIAS"@,
            RecordType::Caa => "CAA"@,
            RecordType::Cert => "CERT"@,
            RecordType::CName => "CNAME"@,
            RecordType::HInfo => "HINFO"@,
            RecordType::Https => "HTTPS"@,
            RecordType::IpSecKey => "IPSECKEY"@,
            RecordType::Loc => "LOC"@,
            RecordType::Mx => "MX"@,
            RecordType::NaPtr => "NAPTR"@,
            RecordType::Ns => "NS"@,
            RecordType::OpenPgpKey => "OPENPGPKEY"@,
            RecordType::Ptr => "PTR"@,
            RecordType::Rp => "RP"@,
            RecordType::SmimeA => "SMIMEA"@,
            RecordType::Soa => "SOA"@,
            RecordType::Srv => "SRV"@,
            RecordType::SshFp => "SSHFP"@,
            RecordType::Svcb => "SVCB"@,
            RecordType::Tlsa => "TLSA"@,
            RecordType::Txt => "TXT"@,
            RecordType::Uri => "URI"@,
            RecordType::Url => "URL"@,
        }
    }

    /// The variant that a wire token names, if any.
    pub open spec fn parse_spec(t: Seq<char>) -> Option<RecordType> {
        if t == "A"@ {
            Some(RecordType::A)
        } else if t == "AAAA"@ {
            Some(RecordType::Aaaa)
        } else if t == "AFSDB"@ {
            Some(RecordType::Afsdb)
        } else if t == "ALIAS"@ {
            Some(RecordType::Alias)
        } else if t == "CAA"@ {
            Some(RecordType::Caa)
        } else if t == "CERT"@ {
            Some(RecordType::Cert)
        } else if t == "CNAME"@ {
            Some(RecordType::CName)
        } else if t == "HINFO"@ {
            Some(RecordType::HInfo)
        } else if t == "HTTPS"@ {
            Some(RecordType::Https)
        } else if t == "IPSECKEY"@ {
            Some(RecordType::IpSecKey)
        } else if t == "LOC"@ {
            Some(RecordType::Loc)
        } else if t == "MX"@ {
            Some(RecordType::Mx)
        } else if t == "NAPTR"@ {
            Some(RecordType::NaPtr)
        } else if t == "NS"@ {
            Some(RecordType::Ns)
        } else if t == "OPENPGPKEY"@ {
            Some(RecordType::OpenPgpKey)
        } else if t == "PTR"@ {
            Some(RecordType::Ptr)
        } else if t == "RP"@ {
            Some(RecordType::Rp)
        } else if t == "SMIMEA"@ {
            Some(RecordType::SmimeA)
        } else if t == "SOA"@ {
            Some(RecordType::Soa)
        } else if t == "SRV"@ {
            Some(RecordType::Srv)
        } else if t == "SSHFP"@ {
            Some(RecordType::SshFp)
        } else if t == "SVCB"@ {
            Some(RecordType::Svcb)
        } else if t == "TLSA"@ {
            Some(RecordType::Tlsa)
        } else if t == "TXT"@ {
            Some(RecordType::Txt)
        } else if t == "URI"@ {
            Some(RecordType::Uri)
        } else if t == "URL"@ {
            Some(RecordType::Url)
        } else {
            None
        }
    }

    /// The wire token of this variant.
    pub fn token(&self) -> (r: &'static str)
        ensures
            r@ == self.token_spec(),
    {
        match self {
            RecordType::A => "A",
            RecordType::Aaaa => "AAAA",
            RecordType::Afsdb => "AFSDB",
            RecordType::Alias => "ALIAS",
            RecordType::Caa => "CAA",
            RecordType::Cert => "CERT",
            RecordType::CName => "CNAME",
            RecordType::HInfo => "HINFO",
            RecordType::Https => "HTTPS",
            RecordType::IpSecKey => "IPSECKEY",
            RecordType::Loc => "LOC",
            RecordType::Mx => "MX",
            RecordType::NaPtr => "NAPTR",
            RecordType::Ns => "NS",
            RecordType::OpenPgpKey => "OPENPGPKEY",
            RecordType::Ptr => "PTR",
            RecordType::Rp => "RP",
            RecordType::SmimeA => "SMIMEA",
            RecordType::Soa => "SOA",
            RecordType::Srv => "SRV",
            RecordType::SshFp => "SSHFP",
            RecordType::Svcb => "SVCB",
            RecordType::Tlsa => "TLSA",
            RecordType::Txt => "TXT",
            RecordType::Uri => "URI",
            RecordType::Url => "URL",
        }
    }

    /// The variant that a wire token names; an unknown token is an error that carries it.
    pub fn from_token(t: &String) -> (r: Result<RecordType>)
        ensures
            match r {
                Ok(v) => RecordType::parse_spec(t@) == Some(v),
                Err(e) => RecordType::parse_spec(t@) is None && e.model() == ErrorModel::UnknownVariant(
                    "RecordType"@,
                    t@,
                ),
            },
    {
        if text_is(t, "A") {
            Ok(RecordType::A)
        } else if text_is(t, "AAAA") {
            Ok(RecordType::Aaaa)
        } else if text_is(t, "AFSDB") {
            Ok(RecordType::Afsdb)
        } else if text_is(t, "ALIAS") {
            Ok(RecordType::Alias)
        } else if text_is(t, "CAA") {
            Ok(RecordType::Caa)
        } else if text_is(t, "CERT") {
            Ok(RecordType::Cert)
        } else if text_is(t, "CNAME") {
            Ok(RecordType::CName)
        } else if text_is(t, "HINFO") {
            Ok(RecordType::HInfo)
        } else if text_is(t, "HTTPS") {
            Ok(RecordType::Https)
        } else if text_is(t, "IPSECKEY") {
            Ok(RecordType::IpSecKey)
        } else if text_is(t, "LOC") {
            Ok(RecordType::Loc)
        } else if text_is(t, "MX") {
            Ok(RecordType::Mx)
        } else if text_is(t, "NAPTR") {
            Ok(RecordType::NaPtr)
        } else if text_is(t, "NS") {
            Ok(RecordType::Ns)
        } else if text_is(t, "OPENPGPKEY") {
            Ok(RecordType::OpenPgpKey)
        } else if text_is(t, "PTR") {
            Ok(RecordType::Ptr)
        } else if text_is(t, "RP") {
            Ok(RecordType::Rp)
        } else if text_is(t, "SMIMEA") {
            Ok(RecordType::SmimeA)
        } else if text_is(t, "SOA") {
            Ok(RecordType::Soa)
        } else if text_is(t, "SRV") {
            Ok(RecordType::Srv)
        } else if text_is(t, "SSHFP") {
            Ok(RecordType::SshFp)
        } else if text_is(t, "SVCB") {
            Ok(RecordType::Svcb)
        } else if text_is(t, "TLSA") {
            Ok(RecordType::Tlsa)
        } else if text_is(t, "TXT") {
            Ok(RecordType::Txt)
        } else if text_is(t, "URI") {
            Ok(RecordType::Uri)
        } else if text_is(t, "URL") {
            Ok(RecordType::Url)
        } else {
            Err(Error::UnknownVariant("RecordType".to_owned(), t.clone()))
        }
    }
}

/// Every variant has a non-empty wire token, and decoding that token gives the variant
/// back; so no two variants share a token.
pub proof fn lemma_record_type_tokens(a: RecordType, b: RecordType)
    ensures
        a.token_spec().len() > 0,
        RecordType::parse_spec(a.token_spec()) == Some(a),
        a != b ==> a.token_spec() != b.token_spec(),
{
    lemma_record_type_round_trip(a);
    lemma_record_type_round_trip(b);
}

proof fn lemma_record_type_round_trip(a: RecordType)
    ensures
        a.token_spec().len() > 0,
        RecordType::parse_spec(a.token_spec()) == Some(a),
{
    reveal_strlit("A");
    reveal_strlit("AAAA");
    reveal_strlit("AFSDB");
    reveal_strlit("ALIAS");
    reveal_strlit("CAA");
    reveal_strlit("CERT");
    reveal_strlit("CNAME");
    reveal_strlit("HINFO");
    reveal_strlit("HTTPS");
    reveal_strlit("IPSECKEY");
    reveal_strlit("LOC");
    reveal_strlit("MX");
    reveal_strlit("NAPTR");
    reveal_strlit("NS");
    reveal_strlit("OPENPGPKEY");
    reveal_strlit("PTR");
    reveal_strlit("RP");
    reveal_strlit("SMIMEA");
    reveal_strlit("SOA");
    reveal_strlit("SRV");
    reveal_strlit("SSHFP");
    reveal_strlit("SVCB");
    reveal_strlit("TLSA");
    reveal_strlit("TXT");
    reveal_strlit("URI");
    reveal_strlit("URL");
    assert("A"@.len() == 1);
    assert("AAAA"@.len() == 4);
    assert("AFSDB"@.len() == 5);
    assert("ALIAS"@.len() == 5);
    assert("CAA"@.len() == 3);
    assert("CERT"@.len() == 4);
    assert("CNAME"@.len() == 5);
    assert("HINFO"@.len() == 5);
    assert("HTTPS"@.len() == 5);
    assert("IPSECKEY"@.len() == 8);
    assert("LOC"@.len() == 3);
    assert("MX"@.len() == 2);
    assert("NAPTR"@.len() == 5);
    assert("NS"@.len() == 2);
    assert("OPENPGPKEY"@.len() == 10);
    assert("PTR"@.len() == 3);
    assert("RP"@.len() == 2);
    assert("SMIMEA"@.len() == 6);
    assert("SOA"@.len() == 3);
    assert("SRV"@.len() == 3);
    assert("SSHFP"@.len() == 5);
    assert("SVCB"@.len() == 4);
    assert("TLSA"@.len() == 4);
    assert("TXT"@.len() == 3);
    assert("URI"@.len() == 3);
    assert("URL"@.len() == 3);
    assert("AAAA"@[0] != "CERT"@[0]);
    assert("AAAA"@[0] != "SVCB"@[0]);
    assert("AAAA"@[0] != "TLSA"@[0]);
    assert("AFSDB"@[1] != "ALIAS"@[1]);
    assert("AFSDB"@[0] != "CNAME"@[0]);
    assert("AFSDB"@[0] != "HINFO"@[0]);
    assert("AFSDB"@[0] != "HTTPS"@[0]);
    assert("AFSDB"@[0] != "NAPTR"@[0]);
    assert("AFSDB"@[0] != "SSHFP"@[0]);
    assert("ALIAS"@[0] != "CNAME"@[0]);
    assert("ALIAS"@[0] != "HINFO"@[0]);
    assert("ALIAS"@[0] != "HTTPS"@[0]);
    assert("ALIAS"@[0] != "NAPTR"@[0]);
    assert("ALIAS"@[0] != "SSHFP"@[0]);
    assert("CAA"@[0] != "LOC"@[0]);
    assert("CAA"@[0] != "PTR"@[0]);
    assert("CAA"@[0] != "SOA"@[0]);
    assert("CAA"@[0] != "SRV"@[0]);
    assert("CAA"@[0] != "TXT"@[0]);
    assert("CAA"@[0] != "URI"@[0]);
    assert("CAA"@[0] != "URL"@[0]);
    assert("CERT"@[0] != "SVCB"@[0]);
    assert("CERT"@[0] != "TLSA"@[0]);
    assert("CNAME"@[0] != "HINFO"@[0]);
    assert("CNAME"@[0] != "HTTPS"@[0]);
    assert("CNAME"@[0] != "NAPTR"@[0]);
    assert("CNAME"@[0] != "SSHFP"@[0]);
    assert("HINFO"@[1] != "HTTPS"@[1]);
    assert("HINFO"@[0] != "NAPTR"@[0]);
    assert("HINFO"@[0] != "SSHFP"@[0]);
    assert("HTTPS"@[0] != "NAPTR"@[0]);
    assert("HTTPS"@[0] != "SSHFP"@[0]);
    assert("LOC"@[0] != "PTR"@[0]);
    assert("LOC"@[0] != "SOA"@[0]);
    assert("LOC"@[0] != "SRV"@[0]);
    assert("LOC"@[0] != "TXT"@[0]);
    assert("LOC"@[0] != "URI"@[0]);
    assert("LOC"@[0] != "URL"@[0]);
    assert("MX"@[0] != "NS"@[0]);
    assert("MX"@[0] != "RP"@[0]);
    assert("NAPTR"@[0] != "SSHFP"@[0]);
    assert("NS"@[0] != "RP"@[0]);
    assert("PTR"@[0] != "SOA"@[0]);
    assert("PTR"@[0] != "SRV"@[0]);
    assert("PTR"@[0] != "TXT"@[0]);
    assert("PTR"@[0] != "URI"@[0]);
    assert("PTR"@[0] != "URL"@[0]);
    assert("SOA"@[1] != "SRV"@[1]);
    assert("SOA"@[0] != "TXT"@[0]);
    assert("SOA"@[0] != "URI"@[0]);
    assert("SOA"@[0] != "URL"@[0]);
    assert("SRV"@[0] != "TXT"@[0]);
    assert("SRV"@[0] != "URI"@[0]);
    assert("SRV"@[0] != "URL"@[0]);
    assert("SVCB"@[0] != "TLSA"@[0]);
    assert("TXT"@[0] != "URI"@[0]);
    assert("TXT"@[0] != "URL"@[0]);
    assert("URI"@[2] != "URL"@[2]);
}

/// How a URL record redirects.
#[derive(Clone, Copy, Debug, PartialEq, Eq, Structural)]
pub enum RedirectType {
    Permanent,
    Temporary,
    Frame,
}

impl RedirectType {
    /// The wire token of each variant.
    pub open spec fn token_spec(self) -> Seq<char> {
        match self {
            RedirectType::Permanent => "HEADER301"@,
            RedirectType::Temporary => "HEADER302"@,
            RedirectType::Frame => "FRAME"@,
        }
    }

    /// The variant that a wire token names, if any.
    pub open spec fn parse_spec(t: Seq<char>) -> Option<RedirectType> {
        if t == "HEADER301"@ {
            Some(RedirectType::Permanent)
        } else if t == "HEADER302"@ {
            Some(RedirectType::Temporary)
        } else if t == "FRAME"@ {
            Some(RedirectType::Frame)
        } else {
            None
        }
    }

    /// The wire token of this variant.
    pub fn token(&self) -> (r: &'static str)
        ensures
            r@ == self.token_spec(),
    {
        match self {
            RedirectType::Permanent => "HEADER301",
            RedirectType::Temporary => "HEADER302",
            RedirectType::Frame => "FRAME",
        }
    }

    /// The variant that a wire token names; an unknown token is an error that carries it.
    pub fn from_token(t: &String) -> (r: Result<RedirectType>)
        ensures
            match r {
                Ok(v) => RedirectType::parse_spec(t@) == Some(v),
                Err(e) => RedirectType::parse_spec(t@) is None && e.model() == ErrorModel::UnknownVariant(
                    "RedirectType"@,
                    t@,
                ),
            },
    {
        if text_is(t, "HEADER301") {
            Ok(RedirectType::Permanent)
        } else if text_is(t, "HEADER302") {
            Ok(RedirectType::Temporary)
        } else if text_is(t, "FRAME") {
            Ok(RedirectType::Frame)
        } else {
            Err(Error::UnknownVariant("RedirectType".to_owned(), t.clone()))
        }
    }
}

/// Every variant has a non-empty wire token, and decoding that token gives the variant
/// back; so no two variants share a token.
pub proof fn lemma_redirect_type_tokens(a: RedirectType, b: RedirectType)
    ensures
        a.token_spec().len() > 0,
        RedirectType::parse_spec(a.token_spec()) == Some(a),
        a != b ==> a.token_spec() != b.token_spec(),
{
    lemma_redirect_type_round_trip(a);
    lemma_redirect_type_round_trip(b);
}

proof fn lemma_redirect_type_round_trip(a: RedirectType)
    ensures
        a.token_spec().len() > 0,
        RedirectType::parse_spec(a.token_spec()) == Some(a),
{
    reveal_strlit("HEADER301");
    reveal_strlit("HEADER302");
    reveal_strlit("FRAME");
    assert("HEADER301"@.len() == 9);
    assert("HEADER302"@.len() == 9);
    assert("FRAME"@.len() == 5);
    assert("HEADER301"@[8] != "HEADER302"@[8]);
}

/// Whether the account serves a zone as master or as slave.
#[derive(Clone, Copy, Debug, PartialEq, Eq, Structural)]
pub enum DomainRole {
    Master,
    Slave,
}

impl DomainRole {
    /// The wire token of each variant.
    pub open spec fn token_spec(self) -> Seq<char> {
        match self {
            DomainRole::Master => "MASTER"@,
            DomainRole::Slave => "SLAVE"@,
        }
    }

    /// The variant that a wire token names, if any.
    pub open spec fn parse_spec(t: Seq<char>) -> Option<DomainRole> {
        if t == "MASTER"@ {
            Some(DomainRole::Master)
        } else if t == "SLAVE"@ {
            Some(DomainRole::Slave)
        } else {
            None
        }
    }

    /// The wire token of this variant.
    pub fn token(&self) -> (r: &'static str)
        ensures
            r@ == self.token_spec(),
    {
        match self {
            DomainRole::Master => "MASTER",
            DomainRole::Slave => "SLAVE",
        }
    }

    /// The variant that a wire token names; an unknown token is an error that carries it.
    pub fn from_token(t: &String) -> (r: Result<DomainRole>)
        ensures
            match r {
                Ok(v) => DomainRole::parse_spec(t@) == Some(v),
                Err(e) => DomainRole::parse_spec(t@) is None && e.model() == ErrorModel::UnknownVariant(
                    "DomainRole"@,
                    t@,
                ),
            },
    {
        if text_is(t, "MASTER") {
            Ok(DomainRole::Master)
        } else if text_is(t, "SLAVE") {
            Ok(DomainRole::Slave)
        } else {
            Err(Error::UnknownVariant("DomainRole".to_owned(), t.clone()))
        }
    }
}

/// Every variant has a non-empty wire token, and decoding that token gives the variant
/// back; so no two variants share a token.
pub proof fn lemma_domain_role_tokens(a: DomainRole, b: DomainRole)
    ensures
        a.token_spec().len() > 0,
        DomainRole::parse_spec(a.token_spec()) == Some(a),
        a != b ==> a.token_spec() != b.token_spec(),
{
    lemma_domain_role_round_trip(a);
    lemma_domain_role_round_trip(b);
}

proof fn lemma_domain_role_round_trip(a: DomainRole)
    ensures
        a.token_spec().len() > 0,
        DomainRole::parse_spec(a.token_spec()) == Some(a),
{
    reveal_strlit("MASTER");
    reveal_strlit("SLAVE");
    assert("MASTER"@.len() == 6);
    assert("SLAVE"@.len() == 5);
}
impl View for RecordType {
    type V = RecordType;

    open spec fn view(&self) -> RecordType {
        *self
    }
}

/// What reading the field `key` as a `RecordType` token yields.
pub open spec fn record_type_spec(fields: Seq<FieldModel>, key: Seq<char>) -> core::result::Result<
    RecordType,
    ErrorModel,
> {
    match str_spec(fields, key) {
        Err(e) => Err(e),
        Ok(t) => match RecordType::parse_spec(t) {
            Some(x) => Ok(x),
            None => Err(ErrorModel::UnknownVariant("RecordType"@, t)),
        },
    }
}

/// Reads the field `key` as a `RecordType` token.
pub fn get_record_type(members: &Vec<Member>, key: String) -> (r: Result<RecordType>)
    ensures
        result_view(r) == record_type_spec(members_model(members@), key@),
{
    match get_str(members, key) {
        Err(e) => Err(e),
        Ok(t) => RecordType::from_token(&t),
    }
}

impl View for RedirectType {
    type V = RedirectType;

    open spec fn view(&self) -> RedirectType {
        *self
    }
}

/// What reading the field `key` as a `RedirectType` token yields.
pub open spec fn redirect_type_spec(fields: Seq<FieldModel>, key: Seq<char>) -> core::result::Result<
    RedirectType,
    ErrorModel,
> {
    match str_spec(fields, key) {
        Err(e) => Err(e),
        Ok(t) => match RedirectType::parse_spec(t) {
            Some(x) => Ok(x),
            None => Err(ErrorModel::UnknownVariant("RedirectType"@, t)),
        },
    }
}

/// Reads the field `key` as a `RedirectType` token.
pub fn get_redirect_type(members: &Vec<Member>, key: String) -> (r: Result<RedirectType>)
    ensures
        result_view(r) == redirect_type_spec(members_model(members@), key@),
{
    match get_str(members, key) {
        Err(e) => Err(e),
        Ok(t) => RedirectType::from_token(&t),
    }
}

impl View for DomainRole {
    type V = DomainRole;

    open spec fn view(&self) -> DomainRole {
        *self
    }
}

/// What reading the field `key` as a `DomainRole` token yields.
pub open spec fn domain_role_spec(fields: Seq<FieldModel>, key: Seq<char>) -> core::result::Result<
    DomainRole,
    ErrorModel,
> {
    match str_spec(fields, key) {
        Err(e) => Err(e),
        Ok(t) => match DomainRole::parse_spec(t) {
            Some(x) => Ok(x),
            None => Err(ErrorModel::UnknownVariant("DomainRole"@, t)),
        },
    }
}

/// Reads the field `key` as a `DomainRole` token.
pub fn get_domain_role(members: &Vec<Member>, key: String) -> (r: Result<DomainRole>)
    ensures
        result_view(r) == domain_role_spec(members_model(members@), key@),
{
    match get_str(members, key) {
        Err(e) => Err(e),
        Ok(t) => DomainRole::from_token(&t),
    }
}

/// Information on a slave nameserver.
#[derive(Clone, Debug, PartialEq)]
pub struct SlaveDns {
    pub hostname: String,
    pub address: String,
}

/// The content of a `SlaveDns`.
pub struct SlaveDnsModel {
    pub hostname: Seq<char>,
    pub address: Seq<char>,
}

impl View for SlaveDns {
    type V = SlaveDnsModel;

    open spec fn view(&self) -> SlaveDnsModel {
        SlaveDnsModel { hostname: self.hostname@, address: self.address@ }
    }
}

/// What decoding a slave nameserver struct yields; both fields are required.
pub open spec fn slave_dns_spec(fields: Seq<FieldModel>) -> core::result::Result<
    SlaveDnsModel,
    ErrorModel,
> {
    match str_spec(fields, "hostname"@) {
        Err(e) => Err(e),
        Ok(hostname) => match str_spec(fields, "address"@) {
            Err(e) => Err(e),
            Ok(address) => Ok(SlaveDnsModel { hostname, address }),
        },
    }
}

impl SlaveDns {
    /// Decodes a slave nameserver struct.
    pub fn decode(members: &Vec<Member>) -> (r: Result<SlaveDns>)
        ensures
            result_view(r) == slave_dns_spec(members_model(members@)),
    {
        let hostname = match get_str(members, "hostname".to_owned()) {
            Ok(s) => s,
            Err(e) => return Err(e),
        };
        let address = match get_str(members, "address".to_owned()) {
            Ok(s) => s,
            Err(e) => return Err(e),
        };
        Ok(SlaveDns { hostname, address })
    }
}

/// The struct that carries a slave nameserver.
pub open spec fn slave_dns_fields(s: SlaveDnsModel) -> Seq<FieldModel> {
    seq![
        FieldModel { key: "hostname"@, value: ValueModel::Str(s.hostname) },
        FieldModel { key: "address"@, value: ValueModel::Str(s.address) },
    ]
}

/// Decoding the struct that carries a slave nameserver gives it back.
pub proof fn lemma_slave_dns_round_trip(s: SlaveDnsModel)
    ensures
        slave_dns_spec(slave_dns_fields(s)) == Ok::<SlaveDnsModel, ErrorModel>(s),
{
    reveal_strlit("hostname");
    reveal_strlit("address");
    assert("hostname"@.len() == 8);
    assert("address"@.len() == 7);    let f = slave_dns_fields(s);
    lemma_find_at(f, "hostname"@, 0);
    lemma_find_at(f, "address"@, 1);
}

} // verus!
