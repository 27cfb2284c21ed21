use vstd::prelude::*;

verus! {

/// The body of a registration or sign-in request.
pub struct RegisterSignInBodyParameter {
    pub email: String,
    pub password: String,
}

/// How a newly issued one-time-password secret is handed out.
#[derive(Debug, Clone, Copy, PartialEq, Eq, Structural)]
pub enum OTPResponseType {
    /// The base32 secret itself.
    SecretKey,
    /// The otpauth URI, which authenticator apps read from a QR code.
    Url,
    /// A PNG image of that QR code.
    QrPng,
    /// The same PNG image as base64 text.
    QrBase64,
}

/// The query of an enable request; no response type means `Url`.
pub struct OTPResponseTypeQueryParameter {
    pub response_type: Option<OTPResponseType>,
}

/// The body of a verification request.
pub struct VerifyOTPParameter {
    pub otp_token: String,
}

} // verus!
