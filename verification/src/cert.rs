//! What the gateway reads out of a client certificate.

use vstd::prelude::*;
use vstd::utf8::{decode_utf8, valid_utf8};
use x509_parser::prelude::{FromDer, X509Certificate};

use crate::clock::{nanoseconds, representable, TimeSpan, UtcTime};
use crate::text::{
    is_blank, law_blank_is_white_space_throughout, trimmed, utf8_fault, utf8_text, white_space,
};

verus! {

/// The fields of a certificate that the gateway decides on: the first CN of the
/// subject as it stands there, and the validity in seconds since 1970.
#[derive(Debug)]
pub struct CertFields {
    pub common_name: Option<Vec<u8>>,
    pub not_before: i64,
    pub not_after: i64,
}

/// The first CN, the start and the end of validity.
pub type CertModel = (Option<Seq<u8>>, i64, i64);

impl View for CertFields {
    type V = CertModel;

    open spec fn view(&self) -> CertModel {
        (
            match self.common_name {
                Some(cn) => Some(cn@),
                None => None,
            },
            self.not_before,
            self.not_after,
        )
    }
}

/// What a DER encoding says, where it is that of an X.509 certificate, and
/// otherwise what the parser says of it.
pub uninterp spec fn certificate(der: Seq<u8>) -> Result<(Option<Seq<u8>>, i64, i64), Seq<char>>;

/// `X509Certificate::from_der` of the crate x509-parser, with the fields that are
/// used: the raw value of the first CN in the subject, and both ends of the
/// validity in seconds since 1970. The contract names the result, which depends
/// on the bytes alone; where they do not parse, it is the text of the parser's
/// error.
#[verifier::external_body]
pub(crate) fn parse_certificate(der: &[u8]) -> (r: Result<CertFields, String>)
    ensures
        match r {
            Ok(fields) => certificate(der@) == Ok::<CertModel, Seq<char>>(fields@),
            Err(cause) => certificate(der@) == Err::<CertModel, Seq<char>>(cause@),
        },
{
    match X509Certificate::from_der(der) {
        Ok((_, cert)) => Ok(CertFields {
            common_name: cert.subject().iter_common_name().next().map(|cn| cn.as_slice().to_vec()),
            not_before: cert.validity().not_before.timestamp(),
            not_after: cert.validity().not_after.timestamp(),
        }),
        Err(e) => Err(e.to_string()),
    }
}

/// Why a client certificate is of no use.
#[derive(Debug, PartialEq, Eq)]
pub enum CertError {
    NotPresented,
    EmptyChain,
    Unparsable { cause: String },
    NoCn,
    CnNotUtf8 { cause: String },
    CnEmpty,
    NotBeforeOutOfRange,
    NotAfterOutOfRange,
}

/// An error, with the characters of its cause.
pub enum CertErrorModel {
    NotPresented,
    EmptyChain,
    Unparsable { cause: Seq<char> },
    NoCn,
    CnNotUtf8 { cause: Seq<char> },
    CnEmpty,
    NotBeforeOutOfRange,
    NotAfterOutOfRange,
}

impl View for CertError {
    type V = CertErrorModel;

    open spec fn view(&self) -> CertErrorModel {
        match self {
            CertError::NotPresented => CertErrorModel::NotPresented,
            CertError::EmptyChain => CertErrorModel::EmptyChain,
            CertError::Unparsable { cause } => CertErrorModel::Unparsable { cause: cause@ },
            CertError::NoCn => CertErrorModel::NoCn,
            CertError::CnNotUtf8 { cause } => CertErrorModel::CnNotUtf8 { cause: cause@ },
            CertError::CnEmpty => CertErrorModel::CnEmpty,
            CertError::NotBeforeOutOfRange => CertErrorModel::NotBeforeOutOfRange,
            CertError::NotAfterOutOfRange => CertErrorModel::NotAfterOutOfRange,
        }
    }
}

/// The words for an error, without its cause.
pub open spec fn cert_error_words(e: CertErrorModel) -> Seq<char> {
    match e {
        CertErrorModel::NotPresented => "no client certificate presented"@,
        CertErrorModel::EmptyChain => "empty client certificate chain"@,
        CertErrorModel::Unparsable { .. } => "cannot parse client certificate"@,
        CertErrorModel::NoCn => "client certificate has no CN"@,
        CertErrorModel::CnNotUtf8 { .. } => "client certificate CN is not UTF-8"@,
        CertErrorModel::CnEmpty => "client certificate CN is empty"@,
        CertErrorModel::NotBeforeOutOfRange => "client certificate not_before out of range"@,
        CertErrorModel::NotAfterOutOfRange => "client certificate not_after out of range"@,
    }
}

/// The cause of an error, where it has one.
pub open spec fn cert_error_cause(e: CertErrorModel) -> Option<Seq<char>> {
    match e {
        CertErrorModel::Unparsable { cause } => Some(cause),
        CertErrorModel::CnNotUtf8 { cause } => Some(cause),
        _ => None,
    }
}

impl CertError {
    /// The words for the error, without its cause.
    pub fn text(&self) -> (r: &'static str)
        ensures
            r@ == cert_error_words(self@),
    {
        match self {
            CertError::NotPresented => "no client certificate presented",
            CertError::EmptyChain => "empty client certificate chain",
            CertError::Unparsable { .. } => "cannot parse client certificate",
            CertError::NoCn => "client certificate has no CN",
            CertError::CnNotUtf8 { .. } => "client certificate CN is not UTF-8",
            CertError::CnEmpty => "client certificate CN is empty",
            CertError::NotBeforeOutOfRange => "client certificate not_before out of range",
            CertError::NotAfterOutOfRange => "client certificate not_after out of range",
        }
    }

    /// The cause of the error, where it has one.
    pub fn cause(&self) -> (r: Option<&str>)
        ensures
            match r {
                Some(cause) => cert_error_cause(self@) == Some(cause@),
                None => cert_error_cause(self@) is None,
            },
    {
        match self {
            CertError::Unparsable { cause } => Some(cause.as_str()),
            CertError::CnNotUtf8 { cause } => Some(cause.as_str()),
            _ => None,
        }
    }
}

/// What the leaf of a certificate chain says, or why there is none.
pub open spec fn leaf(chain: Option<Seq<Vec<u8>>>) -> Result<CertModel, CertErrorModel> {
    match chain {
        None => Err(CertErrorModel::NotPresented),
        Some(certs) => if certs.len() == 0 {
            Err(CertErrorModel::EmptyChain)
        } else {
            match certificate(certs[0]@) {
                Ok(model) => Ok(model),
                Err(cause) => Err(CertErrorModel::Unparsable { cause }),
            }
        },
    }
}

/// The chain that a peer presented.
pub open spec fn presented(chain: Option<Vec<Vec<u8>>>) -> Option<Seq<Vec<u8>>> {
    match chain {
        Some(certs) => Some(certs@),
        None => None,
    }
}

/// Reads the leaf of the chain that the peer presented, each certificate in DER.
pub fn peer_leaf_cert(chain: &Option<Vec<Vec<u8>>>) -> (r: Result<CertFields, CertError>)
    ensures
        match r {
            Ok(fields) => leaf(presented(*chain)) == Ok::<CertModel, CertErrorModel>(fields@),
            Err(e) => leaf(presented(*chain)) == Err::<CertModel, CertErrorModel>(e@),
        },
{
    match chain {
        None => Err(CertError::NotPresented),
        Some(certs) => {
            if certs.is_empty() {
                return Err(CertError::EmptyChain);
            }
            match parse_certificate(certs[0].as_slice()) {
                Ok(fields) => Ok(fields),
                Err(cause) => Err(CertError::Unparsable { cause }),
            }
        },
    }
}

/// The CN that a certificate gives a client, or why it gives none.
pub open spec fn client_cn(cert: CertModel) -> Result<Seq<char>, CertErrorModel> {
    match cert.0 {
        None => Err(CertErrorModel::NoCn),
        Some(raw) => if !valid_utf8(raw) {
            Err(CertErrorModel::CnNotUtf8 { cause: utf8_fault(raw) })
        } else if trimmed(decode_utf8(raw)).len() == 0 {
            Err(CertErrorModel::CnEmpty)
        } else {
            Ok(decode_utf8(raw))
        },
    }
}

/// The CN of a certificate: text, and not blank.
pub fn cert_cn(cert: &CertFields) -> (r: Result<String, CertError>)
    ensures
        match r {
            Ok(cn) => client_cn(cert@) == Ok::<Seq<char>, CertErrorModel>(cn@),
            Err(e) => client_cn(cert@) == Err::<Seq<char>, CertErrorModel>(e@),
        },
{
    match &cert.common_name {
        None => Err(CertError::NoCn),
        Some(raw) => match utf8_text(raw.as_slice()) {
            Err(cause) => Err(CertError::CnNotUtf8 { cause }),
            Ok(cn) => {
                if is_blank(cn.as_str()) {
                    Err(CertError::CnEmpty)
                } else {
                    Ok(cn)
                }
            },
        },
    }
}

/// How long a certificate is valid in all, and how long from a point in time on, in
/// nanoseconds.
pub open spec fn policy_numbers(cert: CertModel, now: (i64, u32)) -> Result<
    (int, int),
    CertErrorModel,
> {
    if !representable(cert.1 as int) {
        Err(CertErrorModel::NotBeforeOutOfRange)
    } else if !representable(cert.2 as int) {
        Err(CertErrorModel::NotAfterOutOfRange)
    } else {
        Ok(
            (
                nanoseconds((cert.2, 0u32)) - nanoseconds((cert.1, 0u32)),
                nanoseconds((cert.2, 0u32)) - nanoseconds(now),
            ),
        )
    }
}

/// How long a certificate is valid in all, and how long from a point in time on.
pub fn cert_policy_numbers(cert: &CertFields, now: &UtcTime) -> (r: Result<
    (TimeSpan, TimeSpan),
    CertError,
>)
    ensures
        match r {
            Ok((validity, left)) => policy_numbers(cert@, now@) == Ok::<(int, int), CertErrorModel>(
                (validity@, left@),
            ),
            Err(e) => policy_numbers(cert@, now@) == Err::<(int, int), CertErrorModel>(e@),
        },
{
    let not_before = match UtcTime::new(cert.not_before, 0) {
        Some(t) => t,
        None => {
            return Err(CertError::NotBeforeOutOfRange);
        },
    };
    let not_after = match UtcTime::new(cert.not_after, 0) {
        Some(t) => t,
        None => {
            return Err(CertError::NotAfterOutOfRange);
        },
    };
    Ok((not_after.since(&not_before), not_after.since(now)))
}

/// A chain is read by its first certificate, whatever follows it: what that one parses
/// to decides, or the parser's error.
pub proof fn law_first_certificate_decides(certs: Seq<Vec<u8>>)
    requires
        certs.len() > 0,
    ensures
        match certificate(certs[0]@) {
            Ok(cert) => leaf(Some(certs)) == Ok::<CertModel, CertErrorModel>(cert),
            Err(cause) => leaf(Some(certs)) == Err::<CertModel, CertErrorModel>(
                CertErrorModel::Unparsable { cause },
            ),
        },
{
}

/// Two chains with the same first certificate say the same.
pub proof fn law_rest_of_the_chain_does_not_matter(a: Seq<Vec<u8>>, b: Seq<Vec<u8>>)
    requires
        a.len() > 0,
        b.len() > 0,
        a[0]@ == b[0]@,
    ensures
        leaf(Some(a)) == leaf(Some(b)),
{
}

/// A peer that presents no chain, or an empty one, has no certificate.
pub proof fn law_no_certificate_is_an_error(certs: Seq<Vec<u8>>)
    ensures
        leaf(None) == Err::<CertModel, CertErrorModel>(CertErrorModel::NotPresented),
        certs.len() == 0 ==> leaf(Some(certs)) == Err::<CertModel, CertErrorModel>(
            CertErrorModel::EmptyChain,
        ),
{
}

/// The client is called by the certificate's CN, as it stands there: every character of
/// it, white space included. A CN that is missing, not text or blank names no client.
pub proof fn law_client_is_called_by_the_cn(not_before: i64, not_after: i64, raw: Seq<u8>)
    ensures
        client_cn((None, not_before, not_after)) == Err::<Seq<char>, CertErrorModel>(
            CertErrorModel::NoCn,
        ),
        !valid_utf8(raw) ==> client_cn((Some(raw), not_before, not_after)) == Err::<
            Seq<char>,
            CertErrorModel,
        >(CertErrorModel::CnNotUtf8 { cause: utf8_fault(raw) }),
        valid_utf8(raw) && (forall|k: int|
            0 <= k < decode_utf8(raw).len() ==> white_space(#[trigger] decode_utf8(raw)[k]))
            ==> client_cn((Some(raw), not_before, not_after)) == Err::<Seq<char>, CertErrorModel>(
            CertErrorModel::CnEmpty,
        ),
        valid_utf8(raw) && (exists|k: int|
            0 <= k < decode_utf8(raw).len() && !white_space(#[trigger] decode_utf8(raw)[k]))
            ==> client_cn((Some(raw), not_before, not_after)) == Ok::<Seq<char>, CertErrorModel>(
            decode_utf8(raw),
        ),
{
    law_blank_is_white_space_throughout(decode_utf8(raw));
}

/// The numbers of the policy are the times from the start of validity, and from now, to
/// its end; a certificate whose validity has no date gives none.
pub proof fn law_policy_goes_by_the_validity(
    cn: Option<Seq<u8>>,
    not_before: i64,
    not_after: i64,
    now: (i64, u32),
)
    ensures
        ({
            let numbers = policy_numbers((cn, not_before, not_after), now);
            if !representable(not_before as int) {
                numbers == Err::<(int, int), CertErrorModel>(CertErrorModel::NotBeforeOutOfRange)
            } else if !representable(not_after as int) {
                numbers == Err::<(int, int), CertErrorModel>(CertErrorModel::NotAfterOutOfRange)
            } else {
                numbers == Ok::<(int, int), CertErrorModel>(
                    (
                        (not_after - not_before) * 1_000_000_000,
                        (not_after - now.0) * 1_000_000_000 - now.1,
                    ),
                )
            }
        }),
{
}

/// Each error says what is wrong with the certificate.
pub proof fn law_certificate_errors_have_their_words(cause: Seq<char>)
    ensures
        cert_error_words(CertErrorModel::NotPresented) == "no client certificate presented"@,
        cert_error_words(CertErrorModel::EmptyChain) == "empty client certificate chain"@,
        cert_error_words(CertErrorModel::Unparsable { cause })
            == "cannot parse client certificate"@,
        cert_error_words(CertErrorModel::NoCn) == "client certificate has no CN"@,
        cert_error_words(CertErrorModel::CnNotUtf8 { cause })
            == "client certificate CN is not UTF-8"@,
        cert_error_words(CertErrorModel::CnEmpty) == "client certificate CN is empty"@,
        cert_error_words(CertErrorModel::NotBeforeOutOfRange)
            == "client certificate not_before out of range"@,
        cert_error_words(CertErrorModel::NotAfterOutOfRange)
            == "client certificate not_after out of range"@,
{
}

/// The errors that have a cause carry it unchanged.
pub proof fn law_causes_are_kept(e: CertErrorModel)
    ensures
        match e {
            CertErrorModel::Unparsable { cause } => cert_error_cause(e) == Some(cause),
            CertErrorModel::CnNotUtf8 { cause } => cert_error_cause(e) == Some(cause),
            _ => cert_error_cause(e) is None,
        },
{
}

/// What the models say of a certificate, of an error and of a chain is what these hold.
pub proof fn law_certificate_models_are_faithful(
    cert: CertFields,
    e: CertError,
    chain: Option<Vec<Vec<u8>>>,
)
    ensures
        match cert.common_name {
            Some(cn) => cert@.0 == Some(cn@),
            None => cert@.0 is None,
        },
        cert@.1 == cert.not_before,
        cert@.2 == cert.not_after,
        match e {
            CertError::NotPresented => e@ is NotPresented,
            CertError::EmptyChain => e@ is EmptyChain,
            CertError::Unparsable { cause } => e@ == (CertErrorModel::Unparsable { cause: cause@ }),
            CertError::NoCn => e@ is NoCn,
            CertError::CnNotUtf8 { cause } => e@ == (CertErrorModel::CnNotUtf8 { cause: cause@ }),
            CertError::CnEmpty => e@ is CnEmpty,
            CertError::NotBeforeOutOfRange => e@ is NotBeforeOutOfRange,
            CertError::NotAfterOutOfRange => e@ is NotAfterOutOfRange,
        },
        match chain {
            Some(certs) => presented(chain) == Some(certs@),
            None => presented(chain) is None,
        },
{
}

} // verus!
