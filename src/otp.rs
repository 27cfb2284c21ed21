use vstd::prelude::*;
use totp_rs::{Algorithm, Secret, SecretParseError, TotpUrlError, TOTP};
use crate::error::AuthError;
use crate::params::OTPResponseType;
use crate::user::User;

verus! {

/// totp_rs's shared secret: raw bytes, or their base32 text.
#[verifier::external_type_specification]
pub struct ExSecret(Secret);

/// totp_rs's hash algorithms (without the optional Steam variant).
#[verifier::external_type_specification]
pub struct ExAlgorithm(Algorithm);

/// A configured TOTP generator and checker; its fields are public.
#[verifier::external_type_specification]
pub struct ExTotp(TOTP);

/// Why totp_rs refused to build a generator.
#[verifier::external_type_specification]
#[verifier::external_body]
pub struct ExTotpUrlError(TotpUrlError);

/// Why totp_rs could not read a base32 secret.
#[verifier::external_type_specification]
#[verifier::external_body]
pub struct ExSecretParseError(SecretParseError);

/// The system clock stands before the Unix epoch.
#[verifier::external_type_specification]
#[verifier::external_body]
pub struct ExSystemTimeError(std::time::SystemTimeError);

/// The bytes that base32 text (RFC 4648 alphabet, no padding) decodes to, if it
/// is valid.
pub uninterp spec fn base32_decoded(s: Seq<char>) -> Option<Seq<u8>>;

/// Relies on totp_rs::Secret::generate_secret: a raw secret of 20 random bytes.
pub assume_specification[ Secret::generate_secret ]() -> (r: Secret)
    ensures
        match r {
            Secret::Raw(b) => b@.len() == 20,
            Secret::Encoded(_) => false,
        },
;

/// Relies on totp_rs::Secret::to_bytes: a raw secret is copied, a base32 one is
/// decoded and fails exactly when it is not valid base32.
pub assume_specification[ Secret::to_bytes ](s: &Secret) -> (r: Result<Vec<u8>, SecretParseError>)
    ensures
        match s {
            Secret::Raw(b) => r is Ok && r->Ok_0@ == b@,
            Secret::Encoded(t) => match base32_decoded(t@) {
                Some(b) => r is Ok && r->Ok_0@ == b,
                None => r is Err,
            },
        },
;

/// Relies on totp_rs::TOTP::new: it fails exactly when the digit count is outside
/// 6..=8, the secret is shorter than 16 bytes, or the issuer or the account name
/// holds a colon; otherwise the generator holds the values given.
pub assume_specification[ TOTP::new ](
    algorithm: Algorithm,
    digits: usize,
    skew: u8,
    step: u64,
    secret: Vec<u8>,
    issuer: Option<String>,
    account_name: String,
) -> (r: Result<TOTP, TotpUrlError>)
    ensures
        (r is Ok) <==> (6 <= digits <= 8 && secret@.len() >= 16 && !(issuer is Some
            && issuer->0@.contains(':')) && !account_name@.contains(':')),
        match r {
            Ok(t) => t.algorithm == algorithm && t.digits == digits && t.skew == skew && t.step
                == step && t.secret == secret && t.issuer == issuer && t.account_name
                == account_name,
            Err(_) => true,
        },
;

/// The base32 text (RFC 4648 alphabet, no padding) of some bytes.
pub uninterp spec fn base32_encoded(b: Seq<u8>) -> Seq<char>;

/// A character of the RFC 4648 base32 alphabet.
pub open spec fn is_base32_char(c: char) -> bool {
    ('A' <= c && c <= 'Z') || ('2' <= c && c <= '7')
}

/// Relies on totp_rs::TOTP::get_secret_base32 (base32::encode without padding):
/// one alphabet character for each five bits of the secret, rounded up, which
/// base32::decode turns back into the secret.
pub assume_specification[ TOTP::get_secret_base32 ](t: &TOTP) -> (r: String)
    ensures
        r@ == base32_encoded(t.secret@),
        r@.len() == (8 * t.secret@.len() + 4) / 5,
        forall|i: int| 0 <= i < r@.len() ==> is_base32_char(#[trigger] r@[i]),
        base32_decoded(r@) == Some(t.secret@),
;

/// The otpauth provisioning URI of a generator with these settings.
pub uninterp spec fn otpauth_url(
    algorithm: Algorithm,
    digits: usize,
    step: u64,
    secret: Seq<u8>,
    issuer: Option<Seq<char>>,
    account: Seq<char>,
) -> Seq<char>;

/// The text of an optional issuer.
pub open spec fn issuer_view(issuer: Option<String>) -> Option<Seq<char>> {
    match issuer {
        Some(s) => Some(s@),
        None => None,
    }
}

/// The provisioning URI of a generator.
pub open spec fn url_of(t: TOTP) -> Seq<char> {
    otpauth_url(t.algorithm, t.digits, t.step, t.secret@, issuer_view(t.issuer), t.account_name@)
}

/// Relies on totp_rs::TOTP::get_url: the otpauth URI, built from the
/// generator's algorithm, digits, step, secret, issuer and account alone.
pub assume_specification[ TOTP::get_url ](t: &TOTP) -> (r: String)
    ensures
        r@ == otpauth_url(
            t.algorithm,
            t.digits,
            t.step,
            t.secret@,
            issuer_view(t.issuer),
            t.account_name@,
        ),
;

/// The PNG image of a text's QR code, or `None` when it cannot be drawn.
pub uninterp spec fn qr_png_of(text: Seq<char>) -> Option<Seq<u8>>;

/// The same image as base64 text, or `None` when it cannot be drawn.
pub uninterp spec fn qr_base64_of(text: Seq<char>) -> Option<Seq<char>>;

/// Relies on totp_rs::TOTP::get_qr_png (qrcodegen_image::draw_png of the
/// provisioning URI): the image depends on the URI alone.
pub assume_specification[ TOTP::get_qr_png ](t: &TOTP) -> (r: Result<Vec<u8>, String>)
    ensures
        match r {
            Ok(b) => qr_png_of(url_of(*t)) == Some(b@),
            Err(_) => qr_png_of(url_of(*t)) is None,
        },
;

/// Relies on totp_rs::TOTP::get_qr_base64 (qrcodegen_image::draw_base64 of the
/// provisioning URI): the text depends on the URI alone.
pub assume_specification[ TOTP::get_qr_base64 ](t: &TOTP) -> (r: Result<String, String>)
    ensures
        match r {
            Ok(b) => qr_base64_of(url_of(*t)) == Some(b@),
            Err(_) => qr_base64_of(url_of(*t)) is None,
        },
;

/// Relies on totp_rs::TOTP::check_current: whether the code matches the current
/// time step or one within the skew; it reads the system clock, so nothing is
/// promised of the answer. It computes `now / step - skew` and raises ten to the
/// digit count, so the step, skew and digits are those this service builds
/// with. A clock that reads under 30 s past the Unix epoch would still make
/// that subtraction underflow.
pub assume_specification[ TOTP::check_current ](t: &TOTP, token: &str) -> (r: Result<bool, std::time::SystemTimeError>)
    requires
        t.step == 30,
        t.skew <= 1,
        6 <= t.digits <= 8,
;

/// The issuer named in every provisioning URI.
pub open spec fn issuer_spec() -> Seq<char> {
    seq!['I', 't', 's', 'u', 'k', 'i', 'S', 'e', 'r', 'v', 'e', 'r']
}

/// The bytes a secret stands for, when it can be read.
pub open spec fn secret_bytes(s: Secret) -> Option<Seq<u8>> {
    match s {
        Secret::Raw(b) => Some(b@),
        Secret::Encoded(t) => base32_decoded(t@),
    }
}

/// Whether a generator for `email` can be built on these secret bytes: the
/// secret is long enough and the account name holds no colon.
pub open spec fn otp_buildable(bytes: Seq<u8>, email: Seq<char>) -> bool {
    bytes.len() >= 16 && !email.contains(':')
}

/// The generator of this service: SHA-1, six digits, one step of skew, 30 s
/// steps, the service as issuer and the user's email as account.
pub open spec fn service_otp(t: TOTP, bytes: Seq<u8>, email: Seq<char>) -> bool {
    &&& t.algorithm == Algorithm::SHA1
    &&& t.digits == 6
    &&& t.skew == 1
    &&& t.step == 30
    &&& t.secret@ == bytes
    &&& t.issuer is Some && t.issuer->0@ == issuer_spec()
    &&& t.account_name@ == email
}

/// Builds the generator for `user` on the secret given, or on a fresh random
/// secret of 20 bytes when none is given.
pub fn generate_otp(user: &User, secret: Option<Secret>) -> (r: Result<TOTP, AuthError>)
    ensures
        match secret {
            None => match r {
                Ok(t) => service_otp(t, t.secret@, user.email@) && t.secret@.len() == 20
                    && !user.email@.contains(':'),
                Err(e) => e == AuthError::TransportFailure && user.email@.contains(':'),
            },
            Some(s) => match r {
                Ok(t) => secret_bytes(s) == Some(t.secret@) && service_otp(t, t.secret@, user.email@)
                    && otp_buildable(t.secret@, user.email@),
                Err(e) => e == AuthError::TransportFailure && !(secret_bytes(s) is Some
                    && otp_buildable(secret_bytes(s)->0, user.email@)),
            },
        },
{
    let secret = match secret {
        Some(s) => s,
        None => Secret::generate_secret(),
    };
    let bytes = match secret.to_bytes() {
        Ok(b) => b,
        Err(_) => {
            return Err(AuthError::TransportFailure);
        },
    };
    let issuer = String::from_str("ItsukiServer");
    proof {
        reveal_strlit("ItsukiServer");
        assert(issuer@ =~= issuer_spec());
        assert(!issuer@.contains(':'));
    }
    match TOTP::new(Algorithm::SHA1, 6, 1, 30, bytes, Some(issuer), user.email.clone()) {
        Ok(t) => Ok(t),
        Err(_) => Err(AuthError::TransportFailure),
    }
}

/// What enabling the second factor hands out: exactly one rendering of the
/// new secret.
pub enum OtpProvisioning {
    SecretKey(String),
    Url(String),
    QrPng(Vec<u8>),
    QrBase64(String),
}

/// Whether `r` is the rendering of `t`'s secret that `rt` asks for (`Url` where
/// none is given): the secret key, the provisioning URI, or its QR image as PNG
/// bytes or base64 text; a QR image that cannot be drawn is an engine failure.
pub open spec fn provision_outcome(
    t: TOTP,
    rt: Option<OTPResponseType>,
    r: Result<OtpProvisioning, AuthError>,
) -> bool {
    match rt {
        Some(OTPResponseType::SecretKey) => match r {
            Ok(OtpProvisioning::SecretKey(k)) => k@ == base32_encoded(t.secret@),
            _ => false,
        },
        Some(OTPResponseType::QrPng) => match qr_png_of(url_of(t)) {
            Some(png) => match r {
                Ok(OtpProvisioning::QrPng(b)) => b@ == png,
                _ => false,
            },
            None => r == Err::<OtpProvisioning, AuthError>(AuthError::TransportFailure),
        },
        Some(OTPResponseType::QrBase64) => match qr_base64_of(url_of(t)) {
            Some(text) => match r {
                Ok(OtpProvisioning::QrBase64(b)) => b@ == text,
                _ => false,
            },
            None => r == Err::<OtpProvisioning, AuthError>(AuthError::TransportFailure),
        },
        _ => match r {
            Ok(OtpProvisioning::Url(u)) => u@ == url_of(t),
            _ => false,
        },
    }
}

/// Renders the generator's secret as the response type asks (`Url` where none is
/// given). The text forms always succeed; drawing a QR code may fail.
pub fn build_otp_response(otp: &TOTP, response_type: Option<OTPResponseType>) -> (r: Result<
    OtpProvisioning,
    AuthError,
>)
    ensures
        provision_outcome(*otp, response_type, r),
{
    let response_type = match response_type {
        Some(t) => t,
        None => OTPResponseType::Url,
    };
    match response_type {
        OTPResponseType::SecretKey => Ok(OtpProvisioning::SecretKey(otp.get_secret_base32())),
        OTPResponseType::Url => Ok(OtpProvisioning::Url(otp.get_url())),
        OTPResponseType::QrPng => match otp.get_qr_png() {
            Ok(bytes) => Ok(OtpProvisioning::QrPng(bytes)),
            Err(_) => Err(AuthError::TransportFailure),
        },
        OTPResponseType::QrBase64 => match otp.get_qr_base64() {
            Ok(text) => Ok(OtpProvisioning::QrBase64(text)),
            Err(_) => Err(AuthError::TransportFailure),
        },
    }
}

} // verus!
