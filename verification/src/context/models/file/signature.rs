//! Authenticode signature state of a file, and the decisions that turn trust-provider
//! results into it.
//!
//! Querying the trust provider is I/O and happens outside the library; the library decides
//! what the answers mean.
use vstd::prelude::*;

use crate::helpers::format::{hex_upper_bytes, hex_upper_pairs};
use crate::helpers::text::{
    ascii_lower, ascii_lowercase, chars_of, contains, seq_contains, utf16_decode_lossy, utf16_lossy,
};

verus! {

/// No signature is present.
pub const TRUST_E_NOSIGNATURE: u32 = 0x800B0100;
/// The signing certificate has expired.
pub const CERT_E_EXPIRED: u32 = 0x800B0101;
/// The signing certificate was revoked.
pub const CERT_E_REVOKED: u32 = 0x800B010C;
/// The chain ends in an untrusted root.
pub const CERT_E_UNTRUSTEDROOT: u32 = 0x800B0109;
/// The signer is explicitly distrusted.
pub const TRUST_E_EXPLICIT_DISTRUST: u32 = 0x800B0111;
/// The file's digest does not match its signature.
pub const TRUST_E_BAD_DIGEST: u32 = 0x80096010;
/// The file was not found.
pub const ERROR_FILE_NOT_FOUND: u32 = 2;

/// Outcome of signature verification.
#[derive(Debug, Clone, Copy, PartialEq, Eq, Structural, Hash)]
pub enum SignatureStatus {
    /// Not yet checked.
    Unchecked,
    /// Signed and trusted.
    SignedVerified,
    /// Signed, chain ends in an untrusted root.
    SignedUntrustedRoot,
    /// Signed with an expired certificate.
    SignedExpired,
    /// Signed with a revoked or distrusted certificate.
    SignedRevoked,
    /// The signature does not match the content.
    InvalidSignature,
    /// No signature.
    Unsigned,
    /// Verification could not be performed.
    VerificationFailed,
}

/// Where the signature was found.
#[derive(Debug, Clone, Copy, PartialEq, Eq, Structural, Hash)]
pub enum SignatureType {
    /// Embedded in the file.
    Embedded,
    /// In a system catalog.
    Catalog,
}

/// Signature state of a file.
#[derive(Debug, Clone, PartialEq, Eq)]
pub struct DigitalSignature {
    /// Verification outcome.
    pub status: SignatureStatus,
    /// Where the signature was found.
    pub signature_type: Option<SignatureType>,
    /// Subject of the signing certificate.
    pub signer_name: Option<String>,
    /// Issuer of the signing certificate.
    pub issuer_name: Option<String>,
    /// The signer or issuer is Microsoft.
    pub is_microsoft: bool,
    /// Raw result code of the trust provider.
    pub win32_error: u32,
    /// When verification ran.
    pub verification_timestamp: i64,
}

/// The status a trust-provider result code stands for.
pub open spec fn status_of_code(code: u32) -> SignatureStatus {
    if code == 0 {
        SignatureStatus::SignedVerified
    } else if code == CERT_E_UNTRUSTEDROOT {
        SignatureStatus::SignedUntrustedRoot
    } else if code == CERT_E_EXPIRED {
        SignatureStatus::SignedExpired
    } else if code == CERT_E_REVOKED || code == TRUST_E_EXPLICIT_DISTRUST {
        SignatureStatus::SignedRevoked
    } else if code == TRUST_E_BAD_DIGEST {
        SignatureStatus::InvalidSignature
    } else {
        SignatureStatus::Unsigned
    }
}

/// An embedded check with this status settles the verdict (a signature is present).
pub open spec fn conclusive(s: SignatureStatus) -> bool {
    s is SignedVerified || s is SignedUntrustedRoot || s is SignedExpired || s is SignedRevoked
        || s is InvalidSignature
}

/// The name mentions one of Microsoft's signing identities, ASCII case-insensitively.
pub open spec fn names_microsoft(s: Seq<char>) -> bool {
    let l = ascii_lower(s);
    seq_contains(l, "microsoft windows"@) || seq_contains(l, "microsoft corporation"@)
        || seq_contains(l, "microsoft operating system"@) || seq_contains(
        l,
        "microsoft windows production"@,
    )
}

/// The optional name is present and mentions Microsoft.
pub open spec fn opt_names_microsoft(s: Option<Seq<char>>) -> bool {
    match s {
        Some(n) => names_microsoft(n),
        None => false,
    }
}

/// The view of an optional string.
pub open spec fn opt_view(s: Option<String>) -> Option<Seq<char>> {
    match s {
        Some(v) => Some(v@),
        None => None,
    }
}

/// The status a trust-provider result code stands for.
pub fn status_from_trust_code(code: u32) -> (s: SignatureStatus)
    ensures
        s == status_of_code(code),
{
    if code == 0 {
        SignatureStatus::SignedVerified
    } else if code == CERT_E_UNTRUSTEDROOT {
        SignatureStatus::SignedUntrustedRoot
    } else if code == CERT_E_EXPIRED {
        SignatureStatus::SignedExpired
    } else if code == CERT_E_REVOKED || code == TRUST_E_EXPLICIT_DISTRUST {
        SignatureStatus::SignedRevoked
    } else if code == TRUST_E_BAD_DIGEST {
        SignatureStatus::InvalidSignature
    } else {
        SignatureStatus::Unsigned
    }
}

fn mentions_microsoft(s: &str) -> (b: bool)
    ensures
        b == names_microsoft(s@),
{
    let raw = chars_of(s);
    let l = ascii_lowercase(&raw);
    let a = chars_of("microsoft windows");
    let b = chars_of("microsoft corporation");
    let c = chars_of("microsoft operating system");
    let d = chars_of("microsoft windows production");
    contains(&l, &a) || contains(&l, &b) || contains(&l, &c) || contains(&l, &d)
}

/// The signer or the issuer is one of Microsoft's signing identities.
pub fn check_is_microsoft(signer: Option<&str>, issuer: Option<&str>) -> (b: bool)
    ensures
        b == (opt_names_microsoft(
            match signer {
                Some(s) => Some(s@),
                None => None,
            },
        ) || opt_names_microsoft(
            match issuer {
                Some(s) => Some(s@),
                None => None,
            },
        )),
{
    let s = match signer {
        Some(s) => mentions_microsoft(s),
        None => false,
    };
    let i = match issuer {
        Some(i) => mentions_microsoft(i),
        None => false,
    };
    s || i
}

fn opt_as_str(s: &Option<String>) -> (r: Option<&str>)
    ensures
        match r {
            Some(v) => opt_view(*s) == Some(v@),
            None => s is None,
        },
{
    match s {
        Some(v) => Some(v.as_str()),
        None => None,
    }
}

impl DigitalSignature {
    /// Not yet checked: no signature data, error 0, timestamp 0.
    pub fn unchecked() -> (d: Self)
        ensures
            d.status == SignatureStatus::Unchecked,
            d.signature_type is None,
            d.signer_name is None,
            d.issuer_name is None,
            !d.is_microsoft,
            d.win32_error == 0,
            d.verification_timestamp == 0,
    {
        DigitalSignature {
            status: SignatureStatus::Unchecked,
            signature_type: None,
            signer_name: None,
            issuer_name: None,
            is_microsoft: false,
            win32_error: 0,
            verification_timestamp: 0,
        }
    }

    /// Checked at `timestamp` and found unsigned.
    pub fn unsigned(timestamp: i64) -> (d: Self)
        ensures
            d.status == SignatureStatus::Unsigned,
            d.signature_type is None,
            d.signer_name is None,
            d.issuer_name is None,
            !d.is_microsoft,
            d.win32_error == TRUST_E_NOSIGNATURE,
            d.verification_timestamp == timestamp,
    {
        DigitalSignature {
            status: SignatureStatus::Unsigned,
            signature_type: None,
            signer_name: None,
            issuer_name: None,
            is_microsoft: false,
            win32_error: TRUST_E_NOSIGNATURE,
            verification_timestamp: timestamp,
        }
    }

    /// A signature is present and cryptographically intact (verified, untrusted root or
    /// expired).
    pub fn is_signed(&self) -> (b: bool)
        ensures
            b == (self.status is SignedVerified || self.status is SignedUntrustedRoot
                || self.status is SignedExpired),
    {
        match self.status {
            SignatureStatus::SignedVerified
            | SignatureStatus::SignedUntrustedRoot
            | SignatureStatus::SignedExpired => true,
            _ => false,
        }
    }

    /// The signature is verified and trusted.
    pub fn is_trusted(&self) -> (b: bool)
        ensures
            b == self.status is SignedVerified,
    {
        match self.status {
            SignatureStatus::SignedVerified => true,
            _ => false,
        }
    }

    /// Trusted and signed by Microsoft.
    pub fn is_microsoft(&self) -> (b: bool)
        ensures
            b == (self.is_microsoft && self.status is SignedVerified),
    {
        self.is_microsoft && self.is_trusted()
    }

    /// No signature is present.
    pub fn is_unsigned(&self) -> (b: bool)
        ensures
            b == self.status is Unsigned,
    {
        match self.status {
            SignatureStatus::Unsigned => true,
            _ => false,
        }
    }

    /// The verdict from the trust provider's answers about an existing file.
    ///
    /// `embedded_code` is the result of verifying the embedded signature. When it settles
    /// the verdict (see [`embedded_names_needed`]), `embedded_names` holds the certificate
    /// names read from the file. Otherwise, when no embedded signature exists
    /// ([`catalog_needed`]), `catalog` holds the catalog check's result code and names, if
    /// a catalog covers the file.
    pub fn from_trust_results(
        timestamp: i64,
        embedded_code: u32,
        embedded_names: (Option<String>, Option<String>),
        catalog: Option<(u32, Option<String>, Option<String>)>,
    ) -> (d: Self)
        ensures
            conclusive(status_of_code(embedded_code)) ==> d == (DigitalSignature {
                status: status_of_code(embedded_code),
                signature_type: Some(SignatureType::Embedded),
                signer_name: embedded_names.0,
                issuer_name: embedded_names.1,
                is_microsoft: opt_names_microsoft(opt_view(embedded_names.0))
                    || opt_names_microsoft(opt_view(embedded_names.1)),
                win32_error: embedded_code,
                verification_timestamp: timestamp,
            }),
            !conclusive(status_of_code(embedded_code)) && embedded_code == TRUST_E_NOSIGNATURE
                && catalog is Some ==> {
                let (code, signer, issuer) = catalog.unwrap();
                &&& d.status == status_of_code(code)
                &&& d.signature_type == Some(SignatureType::Catalog)
                &&& opt_view(d.signer_name) == Some(
                    match signer {
                        Some(s) => s@,
                        None => "Microsoft Windows"@,
                    },
                )
                &&& opt_view(d.issuer_name) == Some(
                    match issuer {
                        Some(s) => s@,
                        None => "Microsoft Root Certificate Authority"@,
                    },
                )
                &&& d.is_microsoft == (opt_names_microsoft(opt_view(d.signer_name))
                    || opt_names_microsoft(opt_view(d.issuer_name)))
                &&& d.win32_error == code
                &&& d.verification_timestamp == timestamp
            },
            !conclusive(status_of_code(embedded_code)) && (embedded_code != TRUST_E_NOSIGNATURE
                || catalog is None) ==> d == (DigitalSignature {
                status: SignatureStatus::Unsigned,
                signature_type: None,
                signer_name: None,
                issuer_name: None,
                is_microsoft: false,
                win32_error: embedded_code,
                verification_timestamp: timestamp,
            }),
    {
        let status = status_from_trust_code(embedded_code);
        if embedded_names_needed(embedded_code) {
            let (signer_name, issuer_name) = embedded_names;
            let is_microsoft = check_is_microsoft(
                opt_as_str(&signer_name),
                opt_as_str(&issuer_name),
            );
            return DigitalSignature {
                status,
                signature_type: Some(SignatureType::Embedded),
                signer_name,
                issuer_name,
                is_microsoft,
                win32_error: embedded_code,
                verification_timestamp: timestamp,
            };
        }
        if catalog_needed(embedded_code) {
            if let Some((code, signer, issuer)) = catalog {
                let signer_name = match signer {
                    Some(s) => s,
                    None => "Microsoft Windows".to_owned(),
                };
                let issuer_name = match issuer {
                    Some(s) => s,
                    None => "Microsoft Root Certificate Authority".to_owned(),
                };
                let is_microsoft = check_is_microsoft(
                    Some(signer_name.as_str()),
                    Some(issuer_name.as_str()),
                );
                return DigitalSignature {
                    status: status_from_trust_code(code),
                    signature_type: Some(SignatureType::Catalog),
                    signer_name: Some(signer_name),
                    issuer_name: Some(issuer_name),
                    is_microsoft,
                    win32_error: code,
                    verification_timestamp: timestamp,
                };
            }
        }
        DigitalSignature {
            status: SignatureStatus::Unsigned,
            signature_type: None,
            signer_name: None,
            issuer_name: None,
            is_microsoft: false,
            win32_error: embedded_code,
            verification_timestamp: timestamp,
        }
    }

    /// The verdict for a path that does not exist: verification failed with
    /// `ERROR_FILE_NOT_FOUND`.
    pub fn file_not_found(timestamp: i64) -> (d: Self)
        ensures
            d.status == SignatureStatus::VerificationFailed,
            d.signature_type is None,
            d.signer_name is None,
            d.issuer_name is None,
            !d.is_microsoft,
            d.win32_error == ERROR_FILE_NOT_FOUND,
            d.verification_timestamp == timestamp,
    {
        DigitalSignature {
            status: SignatureStatus::VerificationFailed,
            signature_type: None,
            signer_name: None,
            issuer_name: None,
            is_microsoft: false,
            win32_error: ERROR_FILE_NOT_FOUND,
            verification_timestamp: timestamp,
        }
    }
}

/// A certificate name from the units the system wrote: `len` counts the terminating null,
/// so a name exists only when `len` exceeds 1 (see [`name_from_units`]).
pub open spec fn name_text(units: Seq<u16>, len: nat) -> Option<Seq<char>> {
    if len > 1 {
        Some(utf16_lossy(units.take(len - 1)))
    } else {
        None
    }
}

/// The certificate name held by the first `len` units of `units`, terminator included.
pub fn name_from_units(units: &[u16], len: u32) -> (r: Option<String>)
    requires
        len <= units@.len(),
    ensures
        opt_view(r) == name_text(units@, len as nat),
{
    if len > 1 {
        let n = (len - 1) as usize;
        let mut v: Vec<u16> = Vec::new();
        let mut i: usize = 0;
        while i < n
            invariant
                n == len - 1,
                len <= units@.len(),
                i <= n,
                v@ == units@.take(i as int),
            decreases n - i,
        {
            v.push(units[i]);
            i = i + 1;
            assert(v@ =~= units@.take(i as int));
        }
        Some(utf16_decode_lossy(v.as_slice()))
    } else {
        None
    }
}

/// The member tag a catalog lists a file under: its hash in upper-case hexadecimal.
pub fn catalog_member_tag(hash: &[u8]) -> (s: String)
    ensures
        s@ == hex_upper_bytes(hash@),
{
    hex_upper_pairs(hash)
}

/// The embedded check settled the verdict, so the certificate names of the file are needed.
pub fn embedded_names_needed(embedded_code: u32) -> (b: bool)
    ensures
        b == conclusive(status_of_code(embedded_code)),
{
    match status_from_trust_code(embedded_code) {
        SignatureStatus::SignedVerified
        | SignatureStatus::SignedUntrustedRoot
        | SignatureStatus::SignedExpired
        | SignatureStatus::SignedRevoked
        | SignatureStatus::InvalidSignature => true,
        _ => false,
    }
}

/// No embedded signature exists, so the system catalogs are to be consulted.
pub fn catalog_needed(embedded_code: u32) -> (b: bool)
    ensures
        b == (!conclusive(status_of_code(embedded_code)) && embedded_code == TRUST_E_NOSIGNATURE),
{
    !embedded_names_needed(embedded_code) && embedded_code == TRUST_E_NOSIGNATURE
}

/// A verdict is trusted only when signed, and Microsoft only when trusted.
pub proof fn lemma_verdict_hierarchy(d: DigitalSignature)
    ensures
        (d.is_microsoft && d.status is SignedVerified) ==> d.status is SignedVerified,
        d.status is SignedVerified ==> (d.status is SignedVerified || d.status is SignedUntrustedRoot
            || d.status is SignedExpired),
        d.status is Unsigned ==> !(d.status is SignedVerified || d.status is SignedUntrustedRoot
            || d.status is SignedExpired),
{
}

} // verus!
