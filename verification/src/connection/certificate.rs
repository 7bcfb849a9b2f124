//! The server's certificate: what the user is shown of it, and its public key.
use vstd::prelude::*;

use rustls::pki_types::ServerName;
use sha2::{Digest, Sha256};
use x509_cert::der::asn1::{Any, BitString, PrintableStringRef, Utf8StringRef};
use x509_cert::der::oid::ObjectIdentifier;
use x509_cert::der::{Decode, Encode};
use x509_cert::name::RdnSequence;
use x509_cert::spki::SubjectPublicKeyInfo;
use x509_cert::time::Time;
use x509_cert::Certificate;

use crate::bytes;
use crate::messages;
use crate::messages::{CertificateInfo, CertificateView, ConnectionError, ConnectionErrorView};
use crate::text;
use crate::views;

verus! {

/// `x509_cert::name::RdnSequence`: a distinguished name.
#[verifier::external_type_specification]
#[verifier::external_body]
pub struct ExRdnSequence(RdnSequence);

/// `x509_cert::time::Time`: a moment.
#[verifier::external_type_specification]
#[verifier::external_body]
pub struct ExTime(Time);

/// `x509_cert::spki::SubjectPublicKeyInfo`: a public key.
#[verifier::external_type_specification]
#[verifier::external_body]
#[verifier::reject_recursive_types(Params)]
#[verifier::reject_recursive_types(Key)]
pub struct ExSubjectPublicKeyInfo<Params, Key>(SubjectPublicKeyInfo<Params, Key>);

/// `x509_cert::der::asn1::Any`: parameters of a public key.
#[verifier::external_type_specification]
#[verifier::external_body]
pub struct ExAny(Any);

/// `x509_cert::der::asn1::BitString`: the bits of a public key.
#[verifier::external_type_specification]
#[verifier::external_body]
pub struct ExBitString(BitString);

/// `rustls::pki_types::ServerName`, carried through without being looked into.
#[verifier::external_type_specification]
#[verifier::external_body]
pub struct ExServerName<'a>(ServerName<'a>);

/// What the SHA-256 digest of bytes is.
pub uninterp spec fn sha256(data: Seq<u8>) -> Seq<u8>;

/// `Sha256::digest` gives 32 bytes, which depend on nothing but the data. How they
/// depend on them is left unsaid.
#[verifier::external_body]
fn sha256_digest(data: &[u8]) -> (digest: Vec<u8>)
    ensures
        digest@ == sha256(data@),
        digest@.len() == 32,
{
    Sha256::digest(data).to_vec()
}

/// What name `ServerName` makes of a text.
pub uninterp spec fn server_name(host: Seq<char>) -> Option<ServerName<'static>>;

/// `ServerName::try_from` gives a name or none, which depends on nothing but the
/// text. Which texts are names is left unsaid.
#[verifier::external_body]
fn read_server_name(host: String) -> (name: Option<ServerName<'static>>)
    ensures
        name == server_name(host@),
{
    ServerName::try_from(host).ok()
}

/// One attribute of a distinguished name.
#[derive(Debug)]
pub struct NameAttribute {
    /// The type of the attribute, as it is encoded.
    pub oid: Vec<u8>,
    /// The value, where it is a UTF-8 string.
    pub utf8: Option<String>,
    /// The value, where it is a printable string.
    pub printable: Option<String>,
}

/// The view of `NameAttribute`.
pub struct AttributeView {
    /// The type of the attribute, as it is encoded.
    pub oid: Seq<u8>,
    /// The value, where it is a UTF-8 string.
    pub utf8: Option<Seq<char>>,
    /// The value, where it is a printable string.
    pub printable: Option<Seq<char>>,
}

impl View for NameAttribute {
    type V = AttributeView;

    open spec fn view(&self) -> AttributeView {
        AttributeView {
            oid: self.oid@,
            utf8: views::option_view(self.utf8),
            printable: views::option_view(self.printable),
        }
    }
}

/// The attributes of a distinguished name, in their order.
pub uninterp spec fn name_attributes(name: RdnSequence) -> Seq<AttributeView>;

/// Hands out the attributes of an `RdnSequence`, in their order: of each the bytes
/// of its type, and its value where `decode_as` reads it as a UTF-8 string and where
/// it reads it as a printable string.
#[verifier::external_body]
fn attributes_of(name: &RdnSequence) -> (attributes: Vec<NameAttribute>)
    ensures
        views::seq_view(attributes@) == name_attributes(*name),
{
    let all = name.0.iter().flat_map(|rdn| rdn.0.iter());
    all.map(|a| NameAttribute {
        oid: a.oid.as_bytes().to_vec(),
        utf8: a.value.decode_as::<Utf8StringRef<'_>>().ok().map(|s| s.to_string()),
        printable: a.value.decode_as::<PrintableStringRef<'_>>().ok().map(|s| s.to_string()),
    }).collect()
}

/// How a moment is written out.
pub uninterp spec fn moment_text(t: Time) -> Seq<char>;

/// `Display` of a moment gives a text that depends on nothing but the moment. How it
/// is written is left unsaid.
#[verifier::external_body]
fn write_moment(t: &Time) -> (s: String)
    ensures
        s@ == moment_text(*t),
{
    t.to_string()
}

/// The encoding of a public key, or why there is none.
pub uninterp spec fn encoded_key(key: SubjectPublicKeyInfo<Any, BitString>) -> Result<
    Seq<u8>,
    Seq<char>,
>;

/// `to_der` gives the encoding of a public key or an error, which depends on nothing
/// but the key. How a key is encoded is left unsaid.
#[verifier::external_body]
fn encode_key(key: &SubjectPublicKeyInfo<Any, BitString>) -> (r: Result<Vec<u8>, String>)
    ensures
        views::result_view(r) == encoded_key(*key),
{
    key.to_der().map_err(|e| e.to_string())
}

/// The parts of a certificate that are looked at.
pub struct CertificateParts {
    /// The subject.
    pub subject: RdnSequence,
    /// The issuer.
    pub issuer: RdnSequence,
    /// The first moment of validity.
    pub not_before: Time,
    /// The last moment of validity.
    pub not_after: Time,
    /// The public key.
    pub public_key: SubjectPublicKeyInfo<Any, BitString>,
}

/// The view of `CertificateParts`.
pub struct PartsView {
    /// The attributes of the subject.
    pub subject: Seq<AttributeView>,
    /// The attributes of the issuer.
    pub issuer: Seq<AttributeView>,
    /// The first moment of validity.
    pub not_before: Seq<char>,
    /// The last moment of validity.
    pub not_after: Seq<char>,
    /// The public key, encoded, or why it could not be.
    pub public_key: Result<Seq<u8>, Seq<char>>,
}

impl View for CertificateParts {
    type V = PartsView;

    open spec fn view(&self) -> PartsView {
        PartsView {
            subject: name_attributes(self.subject),
            issuer: name_attributes(self.issuer),
            not_before: moment_text(self.not_before),
            not_after: moment_text(self.not_after),
            public_key: encoded_key(self.public_key),
        }
    }
}

/// What `Certificate::from_der` reads in bytes.
pub uninterp spec fn read_certificate(der: Seq<u8>) -> Result<PartsView, Seq<char>>;

/// `Certificate::from_der` gives a certificate or an error, which depends on
/// nothing but the bytes. Which bytes are a certificate is left unsaid.
#[verifier::external_body]
fn decode_certificate(der: &[u8]) -> (r: Result<CertificateParts, String>)
    ensures
        views::result_view(r) == read_certificate(der@),
{
    let tbs = Certificate::from_der(der).map_err(|e| e.to_string())?.tbs_certificate;
    Ok(CertificateParts {
        subject: tbs.subject,
        issuer: tbs.issuer,
        not_before: tbs.validity.not_before,
        not_after: tbs.validity.not_after,
        public_key: tbs.subject_public_key_info,
    })
}

/// Bytes in base sixteen, with colons between them.
pub open spec fn colon_hex(bytes: Seq<u8>) -> Seq<char>
    decreases bytes.len(),
{
    if bytes.len() == 0 {
        Seq::empty()
    } else if bytes.len() == 1 {
        text::hex_byte(bytes[0])
    } else {
        colon_hex(bytes.drop_last()) + ":"@ + text::hex_byte(bytes.last())
    }
}

/// The fingerprint of a digest.
pub open spec fn fingerprint(digest: Seq<u8>) -> Seq<char> {
    "SHA256:"@ + colon_hex(digest)
}

/// The fingerprint of a digest: its bytes in base sixteen, with colons between
/// them.
pub fn format_fingerprint(bytes: &[u8]) -> (s: String)
    ensures
        s@ == fingerprint(bytes@),
{
    let mut s = String::new();
    s.push_str("SHA256:");
    let mut i: usize = 0;
    assert(bytes@.take(0) == Seq::<u8>::empty());
    while i < bytes.len()
        invariant
            i <= bytes@.len(),
            s@ == fingerprint(bytes@.take(i as int)),
        decreases bytes@.len() - i,
    {
        proof {
            let longer = bytes@.take(i + 1);
            assert(longer.drop_last() == bytes@.take(i as int));
            assert(longer.last() == bytes@[i as int]);
        }
        if i > 0 {
            s.push_str(":");
        }
        text::push_hex_byte(&mut s, bytes[i]);
        i = i + 1;
        assert(s@ == fingerprint(bytes@.take(i as int)));
    }
    assert(bytes@.take(bytes@.len() as int) == bytes@);
    s
}

/// The text of an attribute: as a UTF-8 string, or else as a printable string.
pub open spec fn attribute_text(a: AttributeView) -> Option<Seq<char>> {
    match a.utf8 {
        Some(s) => Some(s),
        None => a.printable,
    }
}

/// The text of the first attribute of the type that has one.
pub open spec fn first_attribute_text(attributes: Seq<AttributeView>, oid: Seq<u8>) -> Option<
    Seq<char>,
>
    decreases attributes.len(),
{
    if attributes.len() == 0 {
        None
    } else if attributes[0].oid == oid && attribute_text(attributes[0]) is Some {
        attribute_text(attributes[0])
    } else {
        first_attribute_text(attributes.skip(1), oid)
    }
}

/// The text of the first attribute that has the type and a text.
pub fn first_attribute(attributes: &[NameAttribute], oid: &[u8]) -> (r: Option<String>)
    ensures
        views::option_view(r) == first_attribute_text(views::seq_view(attributes@), oid@),
{
    let ghost all = views::seq_view(attributes@);
    let mut i: usize = 0;
    assert(all.skip(0) == all);
    while i < attributes.len()
        invariant
            i <= attributes@.len(),
            all == views::seq_view(attributes@),
            first_attribute_text(all.skip(i as int), oid@) == first_attribute_text(all, oid@),
        decreases attributes@.len() - i,
    {
        assert(all.skip(i as int)[0] == attributes@[i as int]@);
        assert(all.skip(i as int).skip(1) == all.skip(i + 1));
        if bytes::same_bytes(attributes[i].oid.as_slice(), oid) {
            if let Some(s) = &attributes[i].utf8 {
                return Some(s.clone());
            }
            if let Some(s) = &attributes[i].printable {
                return Some(s.clone());
            }
        }
        i = i + 1;
    }
    assert(all.skip(all.len() as int).len() == 0);
    None
}

/// A digit.
pub open spec fn is_digit(c: char) -> bool {
    '0' <= c <= '9'
}

/// The number at the end of a text, 0 where there is none.
pub open spec fn last_number(s: Seq<char>) -> nat
    decreases s.len(),
{
    if s.len() == 0 || !is_digit(s.last()) {
        0
    } else {
        last_number(s.drop_last()) * 10 + (s.last() as int - '0' as int) as nat
    }
}

/// A text of digits and dots.
pub open spec fn is_dotted(s: Seq<char>) -> bool {
    forall|i: int| 0 <= i < s.len() ==> is_digit(#[trigger] s[i]) || s[i] == '.'
}

/// Every number in the digits and dots at the start of a text fits in 32 bits, and
/// the text is of moderate length.
pub open spec fn numbers_fit(s: Seq<char>) -> bool {
    &&& s.len() <= 1024
    &&& forall|n: int|
        0 <= n <= s.len() && is_dotted(s.take(n)) ==> #[trigger] last_number(s.take(n))
            <= u32::MAX
}

/// The bytes of the attribute type that a text names.
pub uninterp spec fn attribute_type(oid: Seq<char>) -> Option<Seq<u8>>;

/// `ObjectIdentifier::new` reads a text as an attribute type or gives an error,
/// which depends on nothing but the text; the type is handed out as it is encoded.
/// The common name is 55 04 03 and the organization 55 04 0A. Which other texts are
/// types, and how those are encoded, is left unsaid. A number of more than 32 bits
/// can make the call panic, and it calls itself once for each character.
#[verifier::external_body]
fn read_attribute_type(oid: &str) -> (r: Option<Vec<u8>>)
    requires
        numbers_fit(oid@),
    ensures
        views::option_view(r) == attribute_type(oid@),
        oid@ == "2.5.4.3"@ ==> views::option_view(r) == Some(seq![0x55u8, 4, 3]),
        oid@ == "2.5.4.10"@ ==> views::option_view(r) == Some(seq![0x55u8, 4, 10]),
{
    ObjectIdentifier::new(oid).ok().map(|oid| oid.as_bytes().to_vec())
}

/// The text that a name has for an attribute type.
pub open spec fn attribute_value(attributes: Seq<AttributeView>, oid: Seq<char>) -> Option<
    Seq<char>,
> {
    match attribute_type(oid) {
        Some(t) => first_attribute_text(attributes, t),
        None => None,
    }
}

/// The common name among attributes.
pub open spec fn common_name(attributes: Seq<AttributeView>) -> Option<Seq<char>> {
    first_attribute_text(attributes, seq![0x55u8, 4, 3])
}

/// The organization among attributes.
pub open spec fn organization(attributes: Seq<AttributeView>) -> Option<Seq<char>> {
    first_attribute_text(attributes, seq![0x55u8, 4, 10])
}

/// The text of the first attribute of a name that has the type and a text. No
/// number in the text of the type takes more than 32 bits, and it is no longer than
/// 1024 characters.
pub fn extract_rdn_value(name: &RdnSequence, oid: &str) -> (r: Option<String>)
    requires
        numbers_fit(oid@),
    ensures
        views::option_view(r) == attribute_value(name_attributes(*name), oid@),
        oid@ == "2.5.4.3"@ ==> views::option_view(r) == common_name(name_attributes(*name)),
        oid@ == "2.5.4.10"@ ==> views::option_view(r) == organization(name_attributes(*name)),
{
    match read_attribute_type(oid) {
        Some(t) => {
            let attributes = attributes_of(name);
            first_attribute(attributes.as_slice(), t.as_slice())
        },
        None => None,
    }
}

/// The type of the common name.
pub const OID_COMMON_NAME: &'static str = "2.5.4.3";

/// The type of the organization.
pub const OID_ORGANIZATION: &'static str = "2.5.4.10";

/// The numbers in the known types fit.
proof fn lemma_known_types_fit()
    ensures
        numbers_fit("2.5.4.3"@),
        numbers_fit("2.5.4.10"@),
{
    reveal_strlit("2.5.4.3");
    reveal_strlit("2.5.4.10");
    lemma_short_numbers_fit("2.5.4.3"@);
    lemma_short_numbers_fit("2.5.4.10"@);
}

/// A text of at most nine characters has numbers that fit.
proof fn lemma_short_numbers_fit(s: Seq<char>)
    requires
        s.len() <= 9,
    ensures
        numbers_fit(s),
{
    assert forall|n: int| 0 <= n <= s.len() && is_dotted(s.take(n)) implies #[trigger] last_number(
        s.take(n),
    ) <= u32::MAX by {
        lemma_last_number_bound(s.take(n));
    }
}

/// A number has no more digits than the text.
proof fn lemma_last_number_bound(s: Seq<char>)
    requires
        s.len() <= 9,
    ensures
        last_number(s) < 1_000_000_000,
        s.len() <= 8 ==> last_number(s) < 100_000_000,
        s.len() <= 7 ==> last_number(s) < 10_000_000,
        s.len() <= 6 ==> last_number(s) < 1_000_000,
        s.len() <= 5 ==> last_number(s) < 100_000,
        s.len() <= 4 ==> last_number(s) < 10_000,
        s.len() <= 3 ==> last_number(s) < 1_000,
        s.len() <= 2 ==> last_number(s) < 100,
        s.len() <= 1 ==> last_number(s) < 10,
        s.len() == 0 ==> last_number(s) == 0,
    decreases s.len(),
{
    if s.len() > 0 {
        lemma_last_number_bound(s.drop_last());
    }
}

/// The issuer as the user is shown it: its common name, or else its organization.
pub open spec fn issuer_text(issuer: Seq<AttributeView>) -> Seq<char> {
    match common_name(issuer) {
        Some(cn) => cn,
        None => match organization(issuer) {
            Some(org) => org,
            None => "Unknown"@,
        },
    }
}

/// What the user is shown of a certificate with the given parts and digest.
pub open spec fn certificate_view(p: PartsView, digest: Seq<u8>) -> CertificateView {
    CertificateView {
        fingerprint: fingerprint(digest),
        common_name: common_name(p.subject),
        organization: organization(p.subject),
        issuer: issuer_text(p.issuer),
        not_before: p.not_before,
        not_after: p.not_after,
    }
}

/// What a certificate with the given parts and digest comes to: what the user is
/// shown, and the public key.
pub open spec fn certificate_outcome(p: PartsView, digest: Seq<u8>) -> Result<
    (CertificateView, Seq<u8>),
    ConnectionErrorView,
> {
    match p.public_key {
        Ok(key) => Ok((certificate_view(p, digest), key)),
        Err(e) => Err(ConnectionErrorView::TlsError("Failed to encode public key: "@ + e)),
    }
}

/// The view of a certificate with its key.
pub open spec fn keyed_view(r: Result<(CertificateInfo, Vec<u8>), ConnectionError>) -> Result<
    (CertificateView, Seq<u8>),
    ConnectionErrorView,
> {
    match r {
        Ok((info, key)) => Ok((info@, key@)),
        Err(e) => Err(e@),
    }
}

/// What the user is shown of a certificate with the given parts and digest, and
/// its public key.
pub fn certificate_details(parts: CertificateParts, digest: &[u8]) -> (r: Result<
    (CertificateInfo, Vec<u8>),
    ConnectionError,
>)
    ensures
        keyed_view(r) == certificate_outcome(parts@, digest@),
{
    let fingerprint = format_fingerprint(digest);
    proof {
        lemma_known_types_fit();
    }
    let common_name = extract_rdn_value(&parts.subject, OID_COMMON_NAME);
    let organization = extract_rdn_value(&parts.subject, OID_ORGANIZATION);
    let issuer = match extract_rdn_value(&parts.issuer, OID_COMMON_NAME) {
        Some(cn) => cn,
        None => match extract_rdn_value(&parts.issuer, OID_ORGANIZATION) {
            Some(org) => org,
            None => "Unknown".to_owned(),
        },
    };
    let mut info = CertificateInfo::new(
        fingerprint.as_str(),
        issuer.as_str(),
        write_moment(&parts.not_before).as_str(),
        write_moment(&parts.not_after).as_str(),
    );
    if let Some(cn) = common_name {
        info = info.with_common_name(cn.as_str());
    }
    if let Some(org) = organization {
        info = info.with_organization(org.as_str());
    }
    match encode_key(&parts.public_key) {
        Ok(key) => Ok((info, key)),
        Err(e) => Err(
            ConnectionError::TlsError(text::prefixed("Failed to encode public key: ", e.as_str())),
        ),
    }
}

/// What the certificates of a server come to.
pub open spec fn chain_outcome(chain: Option<Seq<Seq<u8>>>) -> Result<
    (CertificateView, Seq<u8>),
    ConnectionErrorView,
> {
    match chain {
        None => Err(ConnectionErrorView::TlsError("No peer certificates"@)),
        Some(certificates) => if certificates.len() == 0 {
            Err(ConnectionErrorView::TlsError("Empty certificate chain"@))
        } else {
            match read_certificate(certificates[0]) {
                Err(e) => Err(
                    ConnectionErrorView::TlsError("Failed to parse certificate: "@ + e),
                ),
                Ok(parts) => certificate_outcome(parts, sha256(certificates[0])),
            }
        },
    }
}

/// The view of the certificates of a server.
pub open spec fn chain_view(chain: Option<Vec<Vec<u8>>>) -> Option<Seq<Seq<u8>>> {
    match chain {
        Some(certificates) => Some(views::seq_view(certificates@)),
        None => None,
    }
}

/// What the user is shown of the first certificate of a server, and its public key.
pub fn extract_certificate_info(chain: Option<Vec<Vec<u8>>>) -> (r: Result<
    (CertificateInfo, Vec<u8>),
    ConnectionError,
>)
    ensures
        keyed_view(r) == chain_outcome(chain_view(chain)),
{
    match chain {
        None => Err(ConnectionError::TlsError("No peer certificates".to_owned())),
        Some(certificates) => {
            if certificates.len() == 0 {
                return Err(ConnectionError::TlsError("Empty certificate chain".to_owned()));
            }
            let der = certificates[0].as_slice();
            match decode_certificate(der) {
                Err(e) => Err(
                    ConnectionError::TlsError(
                        text::prefixed("Failed to parse certificate: ", e.as_str()),
                    ),
                ),
                Ok(parts) => {
                    let digest = sha256_digest(der);
                    certificate_details(parts, digest.as_slice())
                },
            }
        },
    }
}

/// The name by which the server is addressed.
pub fn parse_server_name(host: &str) -> (r: Result<ServerName<'static>, ConnectionError>)
    ensures
        match r {
            Ok(name) => server_name(host@) == Some(name),
            Err(e) => server_name(host@) is None && e@ == ConnectionErrorView::TlsError(
                "Invalid server name: "@ + host@,
            ),
        },
{
    match read_server_name(host.to_owned()) {
        Some(name) => Ok(name),
        None => Err(ConnectionError::TlsError(text::prefixed("Invalid server name: ", host))),
    }
}

/// How long bytes in base sixteen with colons are.
proof fn lemma_colon_hex_len(bytes: Seq<u8>)
    ensures
        bytes.len() == 0 ==> colon_hex(bytes).len() == 0,
        bytes.len() > 0 ==> colon_hex(bytes).len() == 3 * bytes.len() - 1,
    decreases bytes.len(),
{
    reveal_strlit(":");
    if bytes.len() > 1 {
        lemma_colon_hex_len(bytes.drop_last());
    }
}

/// Two bytes that are written the same are the same.
proof fn lemma_hex_byte_differs(a: u8, b: u8)
    requires
        text::hex_byte(a) == text::hex_byte(b),
    ensures
        a == b,
{
    assert(text::hex_byte(a)[0] == text::hex_byte(b)[0]);
    assert(text::hex_byte(a)[1] == text::hex_byte(b)[1]);
    let x = (a / 16) as int;
    let y = (b / 16) as int;
    let u = (a % 16) as int;
    let v = (b % 16) as int;
    assert(text::upper_digit(x) as u32 == if x < 10 {
        48 + x
    } else {
        55 + x
    });
    assert(text::upper_digit(y) as u32 == if y < 10 {
        48 + y
    } else {
        55 + y
    });
    assert(text::upper_digit(u) as u32 == if u < 10 {
        48 + u
    } else {
        55 + u
    });
    assert(text::upper_digit(v) as u32 == if v < 10 {
        48 + v
    } else {
        55 + v
    });
}

/// The end of bytes in base sixteen with colons is the last byte.
proof fn lemma_colon_hex_end(bytes: Seq<u8>)
    requires
        bytes.len() > 0,
    ensures
        colon_hex(bytes).len() == 3 * bytes.len() - 1,
        colon_hex(bytes).skip(3 * bytes.len() - 3) == text::hex_byte(bytes.last()),
        bytes.len() > 1 ==> colon_hex(bytes).take(3 * bytes.len() - 4) == colon_hex(
            bytes.drop_last(),
        ),
{
    reveal_strlit(":");
    lemma_colon_hex_len(bytes);
    if bytes.len() > 1 {
        lemma_colon_hex_len(bytes.drop_last());
        let head = colon_hex(bytes.drop_last());
        let tail = text::hex_byte(bytes.last());
        assert((head + ":"@ + tail).skip(head.len() as int + 1) =~= tail);
        assert((head + ":"@ + tail).take(head.len() as int) =~= head);
    } else {
        assert(colon_hex(bytes).skip(0) =~= text::hex_byte(bytes.last()));
    }
}

/// Bytes that are written the same are the same.
proof fn lemma_colon_hex_differs(a: Seq<u8>, b: Seq<u8>)
    requires
        colon_hex(a) == colon_hex(b),
    ensures
        a == b,
    decreases a.len(),
{
    lemma_colon_hex_len(a);
    lemma_colon_hex_len(b);
    if a.len() > 0 {
        lemma_colon_hex_end(a);
        lemma_colon_hex_end(b);
        lemma_hex_byte_differs(a.last(), b.last());
        if a.len() > 1 {
            lemma_colon_hex_differs(a.drop_last(), b.drop_last());
        }
        assert(a.drop_last() =~= b.drop_last());
        assert(a =~= a.drop_last().push(a.last()));
        assert(b =~= b.drop_last().push(b.last()));
    }
}

/// A fingerprint belongs to one digest only.
pub proof fn law_fingerprint_determines_digest(a: Seq<u8>, b: Seq<u8>)
    requires
        fingerprint(a) == fingerprint(b),
    ensures
        a == b,
{
    let n = "SHA256:"@.len() as int;
    assert(fingerprint(a).skip(n) == colon_hex(a));
    assert(fingerprint(b).skip(n) == colon_hex(b));
    lemma_colon_hex_differs(a, b);
}

/// Bytes in base sixteen with colons are ASCII.
proof fn lemma_colon_hex_ascii(bytes: Seq<u8>)
    ensures
        vstd::utf8::is_ascii_chars(colon_hex(bytes)),
    decreases bytes.len(),
{
    reveal_strlit(":");
    if bytes.len() > 1 {
        lemma_colon_hex_ascii(bytes.drop_last());
    }
}

/// A fingerprint of any digest can be shown, and is shown whole or by its first 47
/// characters.
pub proof fn law_fingerprint_can_be_shown(digest: Seq<u8>)
    ensures
        messages::cuttable(fingerprint(digest)),
        fingerprint(digest).len() <= 50 ==> messages::shown_fingerprint(fingerprint(digest))
            == fingerprint(digest),
        fingerprint(digest).len() > 50 ==> messages::shown_fingerprint(fingerprint(digest))
            == fingerprint(digest).take(47) + "..."@,
{
    let f = fingerprint(digest);
    reveal_strlit("SHA256:");
    lemma_colon_hex_ascii(digest);
    assert(vstd::utf8::is_ascii_chars(f));
    let bytes = vstd::utf8::encode_utf8(f);
    vstd::utf8::is_ascii_chars_encode_utf8(f);
    vstd::utf8::encode_utf8_valid_utf8(f);
    assert(bytes.len() == f.len());
    if f.len() > 50 {
        vstd::utf8::is_char_boundary_iff_not_is_continuation_byte(bytes, 47);
        let head = f.take(47);
        assert(vstd::utf8::is_ascii_chars(head));
        vstd::utf8::is_ascii_chars_encode_utf8(head);
        assert(bytes.subrange(0, 47) == vstd::utf8::encode_utf8(head));
        vstd::utf8::encode_utf8_decode_utf8(head);
    }
}

/// The name and the organization that are shown are those of the subject, the issuer
/// is the issuer's name, or its organization where it has no name; the times are those
/// of the certificate.
pub proof fn law_certificate_shows_its_parts(p: PartsView, digest: Seq<u8>)
    ensures
        ({
            let c = certificate_view(p, digest);
            &&& c.fingerprint == fingerprint(digest)
            &&& c.common_name == common_name(p.subject)
            &&& c.organization == organization(p.subject)
            &&& c.not_before == p.not_before && c.not_after == p.not_after
            &&& common_name(p.issuer) is Some ==> c.issuer == common_name(p.issuer)->0
            &&& common_name(p.issuer) is None && organization(p.issuer) is Some ==> c.issuer
                == organization(p.issuer)->0
            &&& common_name(p.issuer) is None && organization(p.issuer) is None ==> c.issuer
                == "Unknown"@
        }),
{
}

/// The value of an attribute is that of the first one of its type that has a text.
pub proof fn law_first_attribute_counts(
    before: Seq<AttributeView>,
    a: AttributeView,
    after: Seq<AttributeView>,
    oid: Seq<u8>,
)
    requires
        a.oid == oid,
        attribute_text(a) is Some,
        forall|i: int|
            0 <= i < before.len() ==> (#[trigger] before[i]).oid != oid || attribute_text(
                before[i],
            ) is None,
    ensures
        first_attribute_text(before + seq![a] + after, oid) == attribute_text(a),
        first_attribute_text(before, oid) is None,
        a.utf8 is Some ==> attribute_text(a) == a.utf8,
        a.utf8 is None ==> attribute_text(a) == a.printable,
    decreases before.len(),
{
    let whole = before + seq![a] + after;
    if before.len() > 0 {
        let tail = before.skip(1);
        assert forall|i: int| 0 <= i < tail.len() implies (#[trigger] tail[i]).oid != oid
            || attribute_text(tail[i]) is None by {
            assert(tail[i] == before[i + 1]);
        }
        law_first_attribute_counts(tail, a, after, oid);
        assert(whole.skip(1) =~= tail + seq![a] + after);
        assert(whole[0] == before[0]);
    } else {
        assert(whole[0] == a);
    }
}

/// The types of attributes: 2.5.4.3 is the common name, 2.5.4.10 the organization.
pub proof fn law_attribute_types(a: AttributeView)
    requires
        attribute_text(a) is Some,
    ensures
        a.oid == seq![0x55u8, 0x04, 0x03] ==> common_name(seq![a]) == attribute_text(a)
            && organization(seq![a]) is None,
        a.oid == seq![0x55u8, 0x04, 0x0A] ==> organization(seq![a]) == attribute_text(a)
            && common_name(seq![a]) is None,
{
    reveal_with_fuel(first_attribute_text, 2);
    assert(seq![a].skip(1) =~= Seq::<AttributeView>::empty());
    assert(seq![0x55u8, 4, 3][2] != seq![0x55u8, 4, 10][2]);
}

/// What is shown is the first certificate of the chain, with its fingerprint and its
/// key; the rest of the chain does not matter, and a chain without one is an error.
pub proof fn law_first_certificate_is_shown(first: Seq<u8>, rest: Seq<Seq<u8>>)
    ensures
        chain_outcome(Some(seq![first] + rest)) == chain_outcome(Some(seq![first])),
        chain_outcome(None) matches Err(ConnectionErrorView::TlsError(_)),
        chain_outcome(Some(Seq::empty())) matches Err(ConnectionErrorView::TlsError(_)),
        match chain_outcome(Some(seq![first] + rest)) {
            Ok((c, key)) => {
                &&& read_certificate(first) is Ok
                &&& read_certificate(first)->Ok_0.public_key == Ok::<Seq<u8>, Seq<char>>(key)
                &&& c.fingerprint == fingerprint(sha256(first))
                &&& c.common_name == common_name(read_certificate(first)->Ok_0.subject)
            },
            Err(ConnectionErrorView::TlsError(s)) => match read_certificate(first) {
                Err(e) => e.is_suffix_of(s),
                Ok(p) => p.public_key matches Err(e) && e.is_suffix_of(s),
            },
            Err(_) => false,
        },
{
    let chain = seq![first] + rest;
    assert(chain[0] == first);
    match read_certificate(first) {
        Err(e) => {
            let s = "Failed to parse certificate: "@ + e;
            assert(s.subrange(s.len() - e.len(), s.len() as int) =~= e);
        },
        Ok(p) => match p.public_key {
            Err(e) => {
                let s = "Failed to encode public key: "@ + e;
                assert(s.subrange(s.len() - e.len(), s.len() as int) =~= e);
            },
            Ok(_) => {},
        },
    }
}

/// A fingerprint names its method and then has two digits in upper case for each byte,
/// with colons between them.
pub proof fn law_fingerprint_is_written_out(digest: Seq<u8>, i: int)
    requires
        0 <= i < digest.len(),
    ensures
        fingerprint(digest).len() == 6 + 3 * digest.len(),
        "SHA256:"@.is_prefix_of(fingerprint(digest)),
        fingerprint(digest).subrange(7 + 3 * i, 9 + 3 * i) == text::hex_byte(digest[i]),
        i + 1 < digest.len() ==> fingerprint(digest)[9 + 3 * i] == ':',
{
    reveal_strlit("SHA256:");
    lemma_colon_hex_places(digest, i);
    let f = fingerprint(digest);
    assert(f.subrange(0, 7) =~= "SHA256:"@);
    assert(f.subrange(7 + 3 * i, 9 + 3 * i) =~= colon_hex(digest).subrange(3 * i, 3 * i + 2));
}

/// The places of the digits.
proof fn lemma_colon_hex_places(bytes: Seq<u8>, i: int)
    requires
        0 <= i < bytes.len(),
    ensures
        colon_hex(bytes).len() == 3 * bytes.len() - 1,
        colon_hex(bytes).subrange(3 * i, 3 * i + 2) == text::hex_byte(bytes[i]),
        i + 1 < bytes.len() ==> colon_hex(bytes)[3 * i + 2] == ':',
    decreases bytes.len(),
{
    reveal_strlit(":");
    if bytes.len() == 1 {
        assert(colon_hex(bytes).subrange(0, 2) =~= text::hex_byte(bytes[0]));
    } else {
        let before = bytes.drop_last();
        if i + 1 < bytes.len() {
            lemma_colon_hex_places(before, i);
            assert(colon_hex(bytes).subrange(3 * i, 3 * i + 2) =~= colon_hex(before).subrange(
                3 * i,
                3 * i + 2,
            ));
        } else {
            lemma_colon_hex_places(before, 0);
            assert(colon_hex(bytes).subrange(3 * i, 3 * i + 2) =~= text::hex_byte(bytes[i]));
        }
    }
}

} // verus!
