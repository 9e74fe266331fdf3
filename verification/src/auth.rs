//! Account identity and the pure decisions of the login flow.
//!
//! The HTTP exchanges of the Microsoft device-code flow are outside this
//! library: the application performs them and hands the status codes and
//! response bodies to the decision functions here, which classify them
//! exactly. The library only ever sees an account as a bag of plain
//! values.

use vstd::prelude::*;
use crate::external::new_uuid_string;
use crate::text::{
    str_chars, chars_string, contains_sub, has_substring, append_str, append_chars, u32_dec_chars,
    dec_chars,
};

verus! {

/// How an account authenticates.
#[derive(Clone, Copy, PartialEq, Eq, Structural, Debug)]
pub enum AccountType {
    Microsoft,
    Offline,
}

/// A player identity, as the launch pipeline consumes it.
#[derive(Clone, Debug)]
pub struct Account {
    pub uuid: String,
    pub name: String,
    pub access_token: Option<String>,
    pub refresh_token: Option<String>,
    pub account_type: AccountType,
    pub skin_url: Option<String>,
    pub cape_url: Option<String>,
    pub expires_at: Option<i64>,
}

impl Account {
    /// A fresh offline account: a random UUID, the given name, and the
    /// dummy access token `"0"`.
    pub fn new_offline(name: &str) -> (r: Account)
        ensures
            r.name@ == name@,
            r.uuid@.len() == 36,
            r.access_token matches Some(t) && t@ == "0"@,
            r.refresh_token is None,
            r.account_type == AccountType::Offline,
            r.skin_url is None,
            r.cape_url is None,
            r.expires_at is None,
    {
        let uuid = new_uuid_string();
        let name_s = chars_string(&str_chars(name));
        Account {
            uuid,
            name: name_s,
            access_token: Some(chars_string(&str_chars("0"))),
            refresh_token: None,
            account_type: AccountType::Offline,
            skin_url: None,
            cape_url: None,
            expires_at: None,
        }
    }
}

/// What can go wrong while authenticating.
#[derive(Debug)]
pub enum AuthError {
    Network(String),
    Protocol(String),
    Pending,
    Expired,
    Denied,
    Unexpected(String),
}

impl AuthError {
    /// The error rendered as a message, one fixed phrase per variant.
    pub fn message(&self) -> (r: String)
        ensures
            match self {
                AuthError::Network(e) => r@ == "Network error: "@ + e@,
                AuthError::Protocol(e) => r@ == "Protocol error: "@ + e@,
                AuthError::Pending => r@ == "Authorization pending"@,
                AuthError::Expired => r@ == "Authorization expired"@,
                AuthError::Denied => r@ == "Authorization denied"@,
                AuthError::Unexpected(e) => r@ == "Unexpected error: "@ + e@,
            },
    {
        match self {
            AuthError::Network(e) => {
                let mut v = str_chars("Network error: ");
                append_str(&mut v, e.as_str());
                chars_string(&v)
            },
            AuthError::Protocol(e) => {
                let mut v = str_chars("Protocol error: ");
                append_str(&mut v, e.as_str());
                chars_string(&v)
            },
            AuthError::Pending => chars_string(&str_chars("Authorization pending")),
            AuthError::Expired => chars_string(&str_chars("Authorization expired")),
            AuthError::Denied => chars_string(&str_chars("Authorization denied")),
            AuthError::Unexpected(e) => {
                let mut v = str_chars("Unexpected error: ");
                append_str(&mut v, e.as_str());
                chars_string(&v)
            },
        }
    }
}

/// The device-code grant a login starts from.
#[derive(Clone, Debug)]
pub struct DeviceCodeResponse {
    pub user_code: String,
    pub device_code: String,
    pub verification_uri: String,
    pub expires_in: u64,
    pub interval: u64,
}

/// A token grant from the identity service.
#[derive(Clone, Debug)]
pub struct TokenResponse {
    pub access_token: String,
    pub refresh_token: Option<String>,
    pub expires_in: u64,
}

/// A fully logged-in Microsoft account.
#[derive(Clone, Debug)]
pub struct MicrosoftAccount {
    pub uuid: String,
    pub username: String,
    pub access_token: String,
    pub mc_access_token: String,
    pub xbox_token: String,
    pub refresh_token: String,
    pub expires_at: i64,
}

/// Decide what a token-poll HTTP response means, from the status code and
/// the raw body. A 400 body naming a pending, expired, or denied grant
/// maps to the corresponding error; any other non-2xx status is a
/// protocol error quoting status and body; a 2xx response is no error and
/// is left to the caller to parse.
pub fn classify_token_poll(status: u16, body: &str) -> (r: Option<AuthError>)
    ensures
        if status == 400 && has_substring(body@, "authorization_pending"@) {
            r matches Some(a) && a is Pending
        } else if status == 400 && has_substring(body@, "expired_token"@) {
            r matches Some(a) && a is Expired
        } else if status == 400 && has_substring(body@, "access_denied"@) {
            r matches Some(a) && a is Denied
        } else if !(200 <= status < 300) {
            r matches Some(a) && (a matches AuthError::Protocol(m) && m@ == "HTTP "@ + dec_chars(
                status as int,
            ) + ": "@ + body@)
        } else {
            r is None
        },
{
    let bc = str_chars(body);
    if status == 400 {
        if contains_sub(&bc, &str_chars("authorization_pending")) {
            return Some(AuthError::Pending);
        }
        if contains_sub(&bc, &str_chars("expired_token")) {
            return Some(AuthError::Expired);
        }
        if contains_sub(&bc, &str_chars("access_denied")) {
            return Some(AuthError::Denied);
        }
    }
    if !(200 <= status && status < 300) {
        let mut v = str_chars("HTTP ");
        let digits = u32_dec_chars(status as u32);
        append_chars(&mut v, &digits);
        append_str(&mut v, ": ");
        append_chars(&mut v, &bc);
        return Some(AuthError::Protocol(chars_string(&v)));
    }
    None
}

/// The user-facing message for an Xbox authorization (XSTS) error code;
/// the codes with a known cause get a specific message, every other code
/// the generic one.
pub fn xsts_error_message(code: u64) -> (r: String)
    ensures
        code == 2148916233 ==> r@ == "Tu cuenta no tiene un perfil de Xbox. Por favor, crea uno en xbox.com."@,
        code == 2148916235 ==> r@ == "Tu cuenta no tiene acceso a Xbox Live en esta región."@,
        code == 2148916238 ==> r@
            == "Tu cuenta es de un menor de edad. Necesitas que un adulto la añada a una familia de Microsoft."@,
        code != 2148916233 && code != 2148916235 && code != 2148916238 ==> r@
            == "Error en la autorización de Xbox (XSTS)."@,
{
    if code == 2148916233 {
        chars_string(&str_chars("Tu cuenta no tiene un perfil de Xbox. Por favor, crea uno en xbox.com."))
    } else if code == 2148916235 {
        chars_string(&str_chars("Tu cuenta no tiene acceso a Xbox Live en esta región."))
    } else if code == 2148916238 {
        chars_string(
            &str_chars(
                "Tu cuenta es de un menor de edad. Necesitas que un adulto la añada a una familia de Microsoft.",
            ),
        )
    } else {
        chars_string(&str_chars("Error en la autorización de Xbox (XSTS)."))
    }
}

/// The user-facing message for a game-services login failure, keyed by
/// the error tag of the response body.
pub fn login_error_message(error_type: &str) -> (r: String)
    ensures
        error_type@ == "NOT_FOUND"@ ==> r@ == "Tu cuenta no parece tener Minecraft comprado."@,
        error_type@ != "NOT_FOUND"@ && error_type@ == "CONSTRAINT_VIOLATION"@ ==> r@
            == "Error de validación (CONSTRAINT_VIOLATION). Revisa que el token XSTS sea para Minecraft."@,
        error_type@ != "NOT_FOUND"@ && error_type@ != "CONSTRAINT_VIOLATION"@ && has_substring(
            error_type@,
            "Invalid app registration"@,
        ) ==> r@ == "Error: Aplicación no registrada para Minecraft. Revisa los permisos en Azure."@,
        error_type@ != "NOT_FOUND"@ && error_type@ != "CONSTRAINT_VIOLATION"@ && !has_substring(
            error_type@,
            "Invalid app registration"@,
        ) ==> r@ == "Error al iniciar sesión en los servicios de Minecraft."@,
{
    let ec = str_chars(error_type);
    if crate::text::chars_eq(&ec, &str_chars("NOT_FOUND")) {
        chars_string(&str_chars("Tu cuenta no parece tener Minecraft comprado."))
    } else if crate::text::chars_eq(&ec, &str_chars("CONSTRAINT_VIOLATION")) {
        chars_string(
            &str_chars(
                "Error de validación (CONSTRAINT_VIOLATION). Revisa que el token XSTS sea para Minecraft.",
            ),
        )
    } else if contains_sub(&ec, &str_chars("Invalid app registration")) {
        chars_string(
            &str_chars("Error: Aplicación no registrada para Minecraft. Revisa los permisos en Azure."),
        )
    } else {
        chars_string(&str_chars("Error al iniciar sesión en los servicios de Minecraft."))
    }
}

/// The authorization header value that logs an Xbox identity into the
/// game services.
pub fn identity_token(uhs: &str, xsts_token: &str) -> (r: String)
    ensures
        r@ == "XBL3.0 x="@ + uhs@ + ";"@ + xsts_token@,
{
    let mut v = str_chars("XBL3.0 x=");
    append_str(&mut v, uhs);
    append_str(&mut v, ";");
    append_str(&mut v, xsts_token);
    chars_string(&v)
}

/// When a token granted now, lasting `expires_in` seconds, expires:
/// the sum, clamped into the `i64` range.
pub fn expiry_timestamp(now: i64, expires_in: u64) -> (r: i64)
    ensures
        now + expires_in <= i64::MAX ==> r == now + expires_in,
        now + expires_in > i64::MAX ==> r == i64::MAX,
{
    let sum: i128 = now as i128 + expires_in as i128;
    if sum > i64::MAX as i128 {
        i64::MAX
    } else {
        sum as i64
    }
}

} // verus!
