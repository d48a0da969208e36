//! The identity of this peer: a private RSA key, the self-signed certificate that
//! carries its public key, and the identifier derived from that public key.
//! The key material and the certificates are `openssl` values.
use vstd::prelude::*;
use openssl::asn1::Asn1Time;
use openssl::error::ErrorStack;
use openssl::hash::MessageDigest;
use openssl::pkey::{PKey, Private, Public};
use openssl::rsa::Rsa;
use openssl::x509::{X509, X509Builder, X509Name, X509NameBuilder};
use crate::identifier::{hex_string, lemma_hex_string_ascii, lemma_identifier_view, Identifier};
use vstd::string::StringExecFns;
use vstd::string::StringSliceAdditionalSpecFns;

verus! {

#[verifier::external_type_specification]
#[verifier::external_body]
pub struct ExErrorStack(ErrorStack);

#[verifier::external_type_specification]
#[verifier::external_body]
pub struct ExPrivate(Private);

#[verifier::external_type_specification]
#[verifier::external_body]
pub struct ExPublic(Public);

#[verifier::external_type_specification]
#[verifier::external_body]
#[verifier::reject_recursive_types(T)]
pub struct ExPKey<T>(PKey<T>);

#[verifier::external_type_specification]
#[verifier::external_body]
#[verifier::reject_recursive_types(T)]
pub struct ExRsa<T>(Rsa<T>);

#[verifier::external_type_specification]
#[verifier::external_body]
pub struct ExX509(X509);

#[verifier::external_type_specification]
#[verifier::external_body]
pub struct ExX509Name(X509Name);

#[verifier::external_type_specification]
#[verifier::external_body]
pub struct ExX509NameBuilder(X509NameBuilder);

#[verifier::external_type_specification]
#[verifier::external_body]
pub struct ExX509Builder(X509Builder);

#[verifier::external_type_specification]
#[verifier::external_body]
pub struct ExAsn1Time(Asn1Time);

#[verifier::external_type_specification]
#[verifier::external_body]
pub struct ExMessageDigest(MessageDigest);

/// The SHA-256 digest of `data`.
pub uninterp spec fn sha256_digest(data: Seq<u8>) -> Seq<u8>;

/// The DER-encoded SubjectPublicKeyInfo (`i2d_PUBKEY`) of the public half of a private key;
/// `None` where openssl cannot encode it.
pub uninterp spec fn private_key_spki(key: PKey<Private>) -> Option<Seq<u8>>;

/// The DER-encoded SubjectPublicKeyInfo (`i2d_PUBKEY`) of a public key; `None` where openssl
/// cannot encode it.
pub uninterp spec fn public_key_spki(key: PKey<Public>) -> Option<Seq<u8>>;

/// The PKCS#8 PEM text of a private key; `None` where openssl cannot write it.
pub uninterp spec fn private_key_pem(key: PKey<Private>) -> Option<Seq<u8>>;

/// The size in bits of the modulus of an RSA key.
pub uninterp spec fn rsa_bits(key: Rsa<Private>) -> u32;

/// The size in bits of a private key (`PKey::bits`).
pub uninterp spec fn private_key_bits(key: PKey<Private>) -> u32;

/// The number (`Nid`) of a digest algorithm (`MessageDigest::type_`).
pub uninterp spec fn digest_nid(md: MessageDigest) -> i32;

/// The entries of a distinguished name under construction, in order: field name and text.
pub uninterp spec fn name_builder_entries(b: X509NameBuilder) -> Seq<(Seq<char>, Seq<char>)>;

/// The entries of a distinguished name, in order: field name and text.
pub uninterp spec fn name_entries(n: X509Name) -> Seq<(Seq<char>, Seq<char>)>;

/// The number of the SHA-256 digest algorithm (`Nid::SHA256`).
pub open spec fn sha256_nid() -> i32 {
    672
}

/// What a certificate holds, as far as this library sets or reads it: the version field,
/// the entries of the subject and issuer names, the SubjectPublicKeyInfo DER of the key it
/// carries (as openssl reads and encodes that key; `None` where it was not set or openssl
/// cannot), and the key it was signed with (as `private_key_spki` gives it) together with
/// the number of the digest used. `None` where it was not set.
pub struct CertificateFields {
    pub version: Option<i32>,
    pub subject: Option<Seq<(Seq<char>, Seq<char>)>>,
    pub issuer: Option<Seq<(Seq<char>, Seq<char>)>>,
    pub public_key: Option<Seq<u8>>,
    pub signer: Option<(Option<Seq<u8>>, i32)>,
}

/// What a certificate under construction holds.
pub uninterp spec fn builder_fields(b: X509Builder) -> CertificateFields;

/// What a certificate holds.
pub uninterp spec fn certificate_fields(c: X509) -> CertificateFields;

/// `openssl::sha::sha256`: the SHA-256 digest of `data`, 32 bytes.
#[verifier::external_body]
fn sha256(data: &[u8]) -> (r: [u8; 32])
    ensures
        r@ == sha256_digest(data@),
{
    openssl::sha::sha256(data)
}

/// `PKey::public_key_to_der` of a public key: its DER-encoded SubjectPublicKeyInfo, or an
/// error where openssl cannot encode the key.
#[verifier::external_body]
fn public_key_der(key: &PKey<Public>) -> (r: Result<Vec<u8>, ErrorStack>)
    ensures
        match r {
            Ok(d) => public_key_spki(*key) == Some(d@),
            Err(_) => public_key_spki(*key) is None,
        },
{
    key.public_key_to_der()
}

/// `PKey::public_key_to_der` of a private key: the DER-encoded SubjectPublicKeyInfo of
/// its public half, or an error where openssl cannot encode it.
#[verifier::external_body]
fn private_key_public_der(key: &PKey<Private>) -> (r: Result<Vec<u8>, ErrorStack>)
    ensures
        match r {
            Ok(d) => private_key_spki(*key) == Some(d@),
            Err(_) => private_key_spki(*key) is None,
        },
{
    key.public_key_to_der()
}

/// `X509Ref::public_key`: the public key that a certificate carries, or an error where
/// openssl cannot read it (then the certificate's key has no encoding either).
#[verifier::external_body]
fn certificate_public_key(cert: &X509) -> (r: Result<PKey<Public>, ErrorStack>)
    ensures
        match r {
            Ok(k) => public_key_spki(k) == certificate_fields(*cert).public_key,
            Err(_) => certificate_fields(*cert).public_key is None,
        },
{
    cert.public_key()
}

/// `Rsa::generate`: a new RSA key pair of `bits` bits. The key is random: only its size
/// is stated.
#[verifier::external_body]
fn rsa_generate(bits: u32) -> (r: Result<Rsa<Private>, ErrorStack>)
    ensures
        r matches Ok(k) ==> rsa_bits(k) == bits,
{
    Rsa::generate(bits)
}

/// `PKey::from_rsa`: the RSA key pair as a `PKey`, of the same size.
#[verifier::external_body]
fn pkey_from_rsa(rsa: Rsa<Private>) -> (r: Result<PKey<Private>, ErrorStack>)
    ensures
        r matches Ok(k) ==> private_key_bits(k) == rsa_bits(rsa),
{
    PKey::from_rsa(rsa)
}

/// `X509NameBuilder::new`: an empty distinguished name.
#[verifier::external_body]
fn name_builder_new() -> (r: Result<X509NameBuilder, ErrorStack>)
    ensures
        r matches Ok(b) ==> name_builder_entries(b) == Seq::<(Seq<char>, Seq<char>)>::empty(),
{
    X509NameBuilder::new()
}

/// `X509NameBuilder::append_entry_by_text`: adds the entry `field = value`. It panics on a
/// field with a NUL character and on a value longer than `c_int::MAX` bytes.
#[verifier::external_body]
fn name_append_entry(builder: &mut X509NameBuilder, field: &str, value: &str) -> (r: Result<
    (),
    ErrorStack,
>)
    requires
        forall|i: int| 0 <= i < field@.len() ==> field@[i] != '\0',
        value.spec_bytes().len() <= i32::MAX,
    ensures
        r is Ok ==> name_builder_entries(*final(builder)) == name_builder_entries(*old(builder)).push(
            (field@, value@),
        ),
{
    builder.append_entry_by_text(field, value)
}

/// `X509NameBuilder::build`: the name built, with the entries appended.
#[verifier::external_body]
fn name_build(builder: X509NameBuilder) -> (r: X509Name)
    ensures
        name_entries(r) == name_builder_entries(builder),
{
    builder.build()
}

/// `Asn1Time::days_from_now`: the time `days` days from now. The time is not modelled. It
/// multiplies the days into seconds in a `c_long`, which overflows past 24855 days where
/// that type has 32 bits.
#[verifier::external_body]
fn days_from_now(days: u32) -> Result<Asn1Time, ErrorStack>
    requires
        days * 86400 <= i32::MAX,
{
    Asn1Time::days_from_now(days)
}

/// `X509Builder::new`: an empty certificate.
#[verifier::external_body]
fn cert_builder_new() -> (r: Result<X509Builder, ErrorStack>)
    ensures
        r matches Ok(b) ==> builder_fields(b) == (CertificateFields {
            version: None,
            subject: None,
            issuer: None,
            public_key: None,
            signer: None,
        }),
{
    X509Builder::new()
}

/// `X509Builder::set_version`: sets the version field.
#[verifier::external_body]
fn cert_set_version(builder: &mut X509Builder, version: i32) -> (r: Result<(), ErrorStack>)
    ensures
        r is Ok ==> builder_fields(*final(builder)) == (CertificateFields {
            version: Some(version),
            ..builder_fields(*old(builder))
        }),
{
    builder.set_version(version)
}

/// `X509Builder::set_not_before`: sets the start of validity, which is not modelled; the
/// other fields stay.
#[verifier::external_body]
fn cert_set_not_before(builder: &mut X509Builder, time: &Asn1Time) -> (r: Result<(), ErrorStack>)
    ensures
        r is Ok ==> builder_fields(*final(builder)) == builder_fields(*old(builder)),
{
    builder.set_not_before(time)
}

/// `X509Builder::set_not_after`: sets the end of validity, which is not modelled; the
/// other fields stay.
#[verifier::external_body]
fn cert_set_not_after(builder: &mut X509Builder, time: &Asn1Time) -> (r: Result<(), ErrorStack>)
    ensures
        r is Ok ==> builder_fields(*final(builder)) == builder_fields(*old(builder)),
{
    builder.set_not_after(time)
}

/// `X509Builder::set_subject_name`: the subject becomes `name`.
#[verifier::external_body]
fn cert_set_subject_name(builder: &mut X509Builder, name: &X509Name) -> (r: Result<(), ErrorStack>)
    ensures
        r is Ok ==> builder_fields(*final(builder)) == (CertificateFields {
            subject: Some(name_entries(*name)),
            ..builder_fields(*old(builder))
        }),
{
    builder.set_subject_name(name)
}

/// `X509Builder::set_issuer_name`: the issuer becomes `name`.
#[verifier::external_body]
fn cert_set_issuer_name(builder: &mut X509Builder, name: &X509Name) -> (r: Result<(), ErrorStack>)
    ensures
        r is Ok ==> builder_fields(*final(builder)) == (CertificateFields {
            issuer: Some(name_entries(*name)),
            ..builder_fields(*old(builder))
        }),
{
    builder.set_issuer_name(name)
}

/// `X509Builder::set_pubkey`: the certificate carries the public half of `key`.
#[verifier::external_body]
fn cert_set_pubkey(builder: &mut X509Builder, key: &PKey<Private>) -> (r: Result<(), ErrorStack>)
    ensures
        r is Ok ==> builder_fields(*final(builder)) == (CertificateFields {
            public_key: private_key_spki(*key),
            ..builder_fields(*old(builder))
        }),
{
    builder.set_pubkey(key)
}

/// `MessageDigest::sha256`: the SHA-256 digest algorithm.
#[verifier::external_body]
fn digest_sha256() -> (r: MessageDigest)
    ensures
        digest_nid(r) == sha256_nid(),
{
    MessageDigest::sha256()
}

/// `X509Builder::sign`: signs the certificate with `key` and the digest `hash`.
#[verifier::external_body]
fn cert_sign(builder: &mut X509Builder, key: &PKey<Private>, hash: MessageDigest) -> (r: Result<
    (),
    ErrorStack,
>)
    ensures
        r is Ok ==> builder_fields(*final(builder)) == (CertificateFields {
            signer: Some((private_key_spki(*key), digest_nid(hash))),
            ..builder_fields(*old(builder))
        }),
{
    builder.sign(key, hash)
}

/// `X509Builder::build`: the certificate built, holding what was set.
#[verifier::external_body]
fn cert_build(builder: X509Builder) -> (r: X509)
    ensures
        certificate_fields(r) == builder_fields(builder),
{
    builder.build()
}

/// `PKey::private_key_to_pem_pkcs8`: the private key, PEM-encoded in PKCS#8, or an error
/// where openssl cannot write it.
#[verifier::external_body]
fn private_key_to_pem(key: &PKey<Private>) -> (r: Result<Vec<u8>, ErrorStack>)
    ensures
        match r {
            Ok(p) => private_key_pem(*key) == Some(p@),
            Err(_) => private_key_pem(*key) is None,
        },
{
    key.private_key_to_pem_pkcs8()
}

/// `PKey::private_key_from_pem`: the private key that a PEM text holds; reading the PKCS#8
/// PEM text that openssl wrote for a key succeeds and gives a key with the same public half
/// and size. It panics on a text longer than `c_int::MAX` bytes. Which other texts it
/// accepts is not stated.
#[verifier::external_body]
fn private_key_from_pem(pem: &[u8]) -> (r: Result<PKey<Private>, ErrorStack>)
    requires
        pem@.len() <= i32::MAX,
    ensures
        r is Err ==> forall|k0: PKey<Private>|
            #![trigger private_key_pem(k0)]
            private_key_pem(k0) != Some(pem@),
        r matches Ok(k) ==> forall|k0: PKey<Private>|
            #![trigger private_key_pem(k0)]
            private_key_pem(k0) == Some(pem@) ==> private_key_spki(k) == private_key_spki(k0)
                && private_key_bits(k) == private_key_bits(k0),
{
    PKey::private_key_from_pem(pem)
}

/// `X509::clone`: another handle to the same certificate.
#[verifier::external_body]
fn certificate_clone(cert: &X509) -> (r: X509)
    ensures
        certificate_fields(r) == certificate_fields(*cert),
{
    cert.clone()
}

/// The text of an `ErrorStack` (its `Display`).
#[verifier::external_body]
fn error_stack_message(e: &ErrorStack) -> String {
    format!("{}", e)
}

/// The number of bits of a generated key.
pub const KEY_BITS: u32 = 2048;

/// The X.509 version field of a generated certificate (2: version 3).
pub const CERTIFICATE_VERSION: i32 = 2;

/// The number of days that a generated certificate is valid.
pub const CERTIFICATE_VALIDITY_DAYS: u32 = 712;

impl Identifier {
    /// The identifier of the public key whose DER-encoded SubjectPublicKeyInfo is `der`:
    /// its SHA-256 digest.
    pub fn from_public_key_der(der: &[u8]) -> (r: Identifier)
        ensures
            r@ == sha256_digest(der@),
    {
        let digest = sha256(der);
        let r = Identifier::copy_from_slice(digest.as_slice());
        match r {
            Ok(id) => {
                assert(digest@.take(32) =~= digest@);
                id
            },
            Err(_) => {
                assert(false);
                Identifier::default()
            },
        }
    }

    /// The identifier of a public key: the SHA-256 digest of its DER-encoded
    /// SubjectPublicKeyInfo. It fails where openssl cannot encode the key.
    pub fn from_public_key(key: &PKey<Public>) -> (r: Result<Identifier, ErrorStack>)
        ensures
            r is Ok <==> public_key_spki(*key) is Some,
            r matches Ok(id) ==> public_key_spki(*key) matches Some(der) && id@ == sha256_digest(
                der,
            ),
    {
        let der = public_key_der(key)?;
        Ok(Identifier::from_public_key_der(der.as_slice()))
    }

    /// The identifier of the public key that a certificate carries. It fails where openssl
    /// cannot read or encode that key.
    pub fn from_x509_certificate(x509: &X509) -> (r: Result<Identifier, ErrorStack>)
        ensures
            r is Ok <==> certificate_fields(*x509).public_key is Some,
            r matches Ok(id) ==> certificate_fields(*x509).public_key matches Some(der) && id@
                == sha256_digest(der),
    {
        let key = certificate_public_key(x509)?;
        Identifier::from_public_key(&key)
    }
}

/// The identifier of the peer that presented `certificate` on a connection: the SHA-256
/// digest of the public key it carries; a peer that presented none is refused.
pub fn identify_peer(certificate: Option<X509>) -> (r: Result<Identifier, String>)
    ensures
        certificate is None ==> (r matches Err(e) && e@ == "Client did not provide a certificate"@),
        certificate is Some ==> (r matches Err(e) ==> exists|detail: Seq<char>|
            e@ == "Unable to generate identifier from certificate: "@ + detail),
        certificate matches Some(c) ==> (r is Ok <==> certificate_fields(c).public_key is Some),
        r matches Ok(id) ==> certificate matches Some(c) && certificate_fields(c).public_key matches Some(
            der,
        ) && id@ == sha256_digest(der),
{
    let cert = match certificate {
        Some(c) => c,
        None => return Err("Client did not provide a certificate".to_string()),
    };
    match Identifier::from_x509_certificate(&cert) {
        Ok(id) => Ok(id),
        Err(e) => {
            let detail = error_stack_message(&e);
            let message = String::from_str("Unable to generate identifier from certificate: ").concat(
                detail.as_str(),
            );
            assert(message@ == "Unable to generate identifier from certificate: "@ + detail@);
            Err(message)
        },
    }
}

/// This peer's identity.
pub struct Identity {
    /// The identifier: the SHA-256 digest of the public key.
    pub identifier: Identifier,
    /// The private key.
    pub key: PKey<Private>,
    /// The self-signed certificate of the public key.
    pub cert: X509,
}

/// Why an identity could not be copied.
#[derive(Debug)]
pub enum IdentityError {
    /// openssl failed.
    Openssl(ErrorStack),
    /// The PEM text of the private key is longer than openssl reads back in one piece.
    KeyTooLong,
}

/// The distinguished name `CN=<identifier in hexadecimal>` of the peer `id`.
pub open spec fn common_name_entries(id: Seq<u8>) -> Seq<(Seq<char>, Seq<char>)> {
    seq![("CN"@, hex_string(id))]
}

impl Identity {
    /// A new identity: a 2048-bit RSA key, its identifier (the SHA-256 digest of the key's
    /// SubjectPublicKeyInfo), and a self-signed certificate (version field 2, SHA-256)
    /// carrying that key, whose subject and issuer are `CN=<identifier in hexadecimal>`,
    /// valid from now for 712 days. The key is random; any openssl step may fail.
    pub fn generate() -> (r: Result<Identity, ErrorStack>)
        ensures
            r matches Ok(id) ==> {
                &&& private_key_spki(id.key) matches Some(der)
                &&& id.identifier@ == sha256_digest(der)
                &&& private_key_bits(id.key) == 2048
                &&& certificate_fields(id.cert) == (CertificateFields {
                    version: Some(2),
                    subject: Some(common_name_entries(id.identifier@)),
                    issuer: Some(common_name_entries(id.identifier@)),
                    public_key: private_key_spki(id.key),
                    signer: Some((private_key_spki(id.key), sha256_nid())),
                })
            },
    {
        let key = rsa_generate(KEY_BITS)?;
        let private_key = pkey_from_rsa(key)?;
        let der = private_key_public_der(&private_key)?;
        let identifier = Identifier::from_public_key_der(der.as_slice());
        let common_name = identifier.to_hex_string();
        let field = "CN";
        proof {
            reveal_strlit("CN");
            lemma_hex_string_ascii(identifier@);
            lemma_identifier_view(identifier, identifier);
        }
        let mut name_builder = name_builder_new()?;
        name_append_entry(&mut name_builder, field, common_name.as_str())?;
        let x509_name = name_build(name_builder);
        assert(name_entries(x509_name) =~= common_name_entries(identifier@));
        let not_before = days_from_now(0)?;
        let not_after = days_from_now(CERTIFICATE_VALIDITY_DAYS)?;
        let mut builder = cert_builder_new()?;
        cert_set_version(&mut builder, CERTIFICATE_VERSION)?;
        cert_set_not_before(&mut builder, &not_before)?;
        cert_set_not_after(&mut builder, &not_after)?;
        cert_set_subject_name(&mut builder, &x509_name)?;
        cert_set_issuer_name(&mut builder, &x509_name)?;
        cert_set_pubkey(&mut builder, &private_key)?;
        cert_sign(&mut builder, &private_key, digest_sha256())?;
        let cert = cert_build(builder);
        Ok(Identity { identifier, key: private_key, cert })
    }

    /// A copy of this identity: the same identifier, the private key read back from its
    /// PKCS#8 PEM form (the same public half and size), and the same certificate. It fails
    /// where openssl does, or where the PEM text is longer than openssl reads back.
    pub fn try_clone(&self) -> (r: Result<Identity, IdentityError>)
        ensures
            r matches Ok(id) ==> {
                &&& id.identifier == self.identifier
                &&& private_key_spki(id.key) == private_key_spki(self.key)
                &&& private_key_bits(id.key) == private_key_bits(self.key)
                &&& certificate_fields(id.cert) == certificate_fields(self.cert)
            },
            r is Ok <==> (private_key_pem(self.key) matches Some(p) && p.len() <= i32::MAX),
            r matches Err(IdentityError::KeyTooLong) ==> (private_key_pem(self.key) matches Some(p)
                && p.len() > i32::MAX),
    {
        let pem = match private_key_to_pem(&self.key) {
            Ok(p) => p,
            Err(e) => return Err(IdentityError::Openssl(e)),
        };
        if pem.len() > 0x7fff_ffff {
            return Err(IdentityError::KeyTooLong);
        }
        let key = match private_key_from_pem(pem.as_slice()) {
            Ok(k) => k,
            Err(e) => return Err(IdentityError::Openssl(e)),
        };
        assert(private_key_pem(self.key) == Some(pem@));
        Ok(Identity { identifier: self.identifier, key, cert: certificate_clone(&self.cert) })
    }
}

} // verus!
