use otp_auth::error::AuthError;
use otp_auth::otp::{build_otp_response, generate_otp, OtpProvisioning};
use otp_auth::params::OTPResponseType;
use otp_auth::user::User;
use totp_rs::{Algorithm, Secret};

fn user(email: &str) -> User {
    User::new(email.to_string(), "pw".to_string())
}

#[test]
fn generate_otp_fresh_secret() {
    let t = generate_otp(&user("a@x.com"), None).unwrap();
    assert_eq!(t.secret.len(), 20);
    assert_eq!(t.algorithm, Algorithm::SHA1);
    assert_eq!(t.digits, 6);
    assert_eq!(t.skew, 1);
    assert_eq!(t.step, 30);
    assert_eq!(t.issuer, Some("ItsukiServer".to_string()));
    assert_eq!(t.account_name, "a@x.com");
}

#[test]
fn generate_otp_from_encoded_secret() {
    let key = "JBSWY3DPEHPK3PXPJBSWY3DPEHPK3PXP".to_string();
    let t = generate_otp(&user("a@x.com"), Some(Secret::Encoded(key.clone()))).unwrap();
    assert_eq!(t.secret, Secret::Encoded(key.clone()).to_bytes().unwrap());
    assert_eq!(t.get_secret_base32(), key);
}

#[test]
fn generate_otp_rejects_bad_secrets() {
    let short = Secret::Raw(vec![1u8; 15]);
    assert_eq!(generate_otp(&user("a@x.com"), Some(short)).err(), Some(AuthError::TransportFailure));
    let bad = Secret::Encoded("1!".to_string());
    assert_eq!(generate_otp(&user("a@x.com"), Some(bad)).err(), Some(AuthError::TransportFailure));
    let long = Secret::Raw(vec![1u8; 16]);
    assert!(generate_otp(&user("a@x.com"), Some(long)).is_ok());
}

#[test]
fn build_otp_response_secret_key() {
    let t = generate_otp(&user("a@x.com"), Some(Secret::Raw(vec![0u8; 20]))).unwrap();
    match build_otp_response(&t, Some(OTPResponseType::SecretKey)).unwrap() {
        OtpProvisioning::SecretKey(k) => assert_eq!(k, "AAAAAAAAAAAAAAAAAAAAAAAAAAAAAAAA"),
        _ => panic!("expected the secret key"),
    }
}

#[test]
fn build_otp_response_default_is_url() {
    let t = generate_otp(&user("a@x.com"), Some(Secret::Raw(vec![0u8; 20]))).unwrap();
    match build_otp_response(&t, None).unwrap() {
        OtpProvisioning::Url(u) => assert_eq!(
            u,
            "otpauth://totp/ItsukiServer:a%40x.com?secret=AAAAAAAAAAAAAAAAAAAAAAAAAAAAAAAA&issuer=ItsukiServer"
        ),
        _ => panic!("expected a URL"),
    }
}

#[test]
fn user_response_hides_password() {
    let mut u = user("a@x.com");
    let v = u.to_response_value();
    assert_eq!(v.email, "a@x.com");
    assert!(!v.otp_enabled);
    u.otp_verified = Some(false);
    assert!(!u.to_response_value().otp_enabled);
    u.otp_verified = Some(true);
    assert!(u.to_response_value().otp_enabled);
    let d = u.duplicate();
    assert_eq!(d.password, "pw");
    assert_eq!(d.otp_verified, Some(true));
}

#[test]
fn error_messages() {
    assert_eq!(AuthError::InvalidCredential.message(), "Invalid credential.");
    assert_eq!(AuthError::Forbidden.message(), "User has to sign in to disable 2FA.");
    assert_eq!(AuthError::Unauthorized.message(), "No user found for the current session.");
}

#[test]
fn build_otp_response_renders_the_generator() {
    let t = generate_otp(&user("a@x.com"), None).unwrap();
    match build_otp_response(&t, Some(OTPResponseType::Url)).unwrap() {
        OtpProvisioning::Url(u) => assert_eq!(u, t.get_url()),
        _ => panic!("expected a URL"),
    }
    match build_otp_response(&t, Some(OTPResponseType::QrPng)).unwrap() {
        OtpProvisioning::QrPng(b) => assert_eq!(b, t.get_qr_png().unwrap()),
        _ => panic!("expected a PNG"),
    }
    match build_otp_response(&t, Some(OTPResponseType::QrBase64)).unwrap() {
        OtpProvisioning::QrBase64(b) => assert_eq!(b, t.get_qr_base64().unwrap()),
        _ => panic!("expected base64 text"),
    }
}

#[test]
fn secret_key_reads_back_as_the_secret() {
    let t = generate_otp(&user("a@x.com"), None).unwrap();
    let key = t.get_secret_base32();
    assert_eq!(key.len(), 32);
    assert!(key.chars().all(|c| c.is_ascii_uppercase() || ('2'..='7').contains(&c)));
    assert_eq!(Secret::Encoded(key).to_bytes().unwrap(), t.secret);
}

#[test]
fn every_error_has_its_message() {
    assert_eq!(AuthError::Conflict.message(), "User with this email exists.");
    assert_eq!(AuthError::NotFound.message(), "User does not exist.");
    assert_eq!(AuthError::PreconditionFailed.message(), "User does not have otp enabled.");
    assert_eq!(AuthError::TransportFailure.message(), "Error in the one-time-password engine.");
}
