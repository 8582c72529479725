//! The authentication methods this client knows by name.

use vstd::prelude::*;

use crate::json::str_eq;

verus! {

/// The authentication methods that a login flow can name.
#[derive(Clone, Copy, Debug, PartialEq, Eq, Structural)]
pub enum AuthenticationTypes {
    Password,
    Captcha,
    Oauth2,
    Email,
    Msisdn,
    Token,
    Dummy,
}

/// The wire text of each authentication method.
pub open spec fn auth_type_text(t: AuthenticationTypes) -> Seq<char> {
    match t {
        AuthenticationTypes::Password => "m.login.password"@,
        AuthenticationTypes::Captcha => "m.login.recaptcha"@,
        AuthenticationTypes::Oauth2 => "m.login.oauth2"@,
        AuthenticationTypes::Email => "m.login.email.identity"@,
        AuthenticationTypes::Msisdn => "m.login.msisdn"@,
        AuthenticationTypes::Token => "m.login.token"@,
        AuthenticationTypes::Dummy => "m.login.dummy"@,
    }
}

/// The wire text of each authentication method.
pub fn auth_type_as_str(t: &AuthenticationTypes) -> (s: &'static str)
    ensures
        s@ == auth_type_text(*t),
{
    match t {
        AuthenticationTypes::Password => "m.login.password",
        AuthenticationTypes::Captcha => "m.login.recaptcha",
        AuthenticationTypes::Oauth2 => "m.login.oauth2",
        AuthenticationTypes::Email => "m.login.email.identity",
        AuthenticationTypes::Msisdn => "m.login.msisdn",
        AuthenticationTypes::Token => "m.login.token",
        AuthenticationTypes::Dummy => "m.login.dummy",
    }
}

/// The authentication method that a wire text names, if any. The set is
/// closed: a text outside it has no method, and a flow list naming one
/// fails to decode.
pub open spec fn auth_type_of(s: Seq<char>) -> Option<AuthenticationTypes> {
    if s == "m.login.password"@ {
        Some(AuthenticationTypes::Password)
    } else if s == "m.login.recaptcha"@ {
        Some(AuthenticationTypes::Captcha)
    } else if s == "m.login.oauth2"@ {
        Some(AuthenticationTypes::Oauth2)
    } else if s == "m.login.email.identity"@ {
        Some(AuthenticationTypes::Email)
    } else if s == "m.login.msisdn"@ {
        Some(AuthenticationTypes::Msisdn)
    } else if s == "m.login.token"@ {
        Some(AuthenticationTypes::Token)
    } else if s == "m.login.dummy"@ {
        Some(AuthenticationTypes::Dummy)
    } else {
        None
    }
}

/// Decode an authentication method's wire text.
pub fn auth_type_from_str(s: &str) -> (t: Option<AuthenticationTypes>)
    ensures
        t == auth_type_of(s@),
{
    if str_eq(s, "m.login.password") {
        Some(AuthenticationTypes::Password)
    } else if str_eq(s, "m.login.recaptcha") {
        Some(AuthenticationTypes::Captcha)
    } else if str_eq(s, "m.login.oauth2") {
        Some(AuthenticationTypes::Oauth2)
    } else if str_eq(s, "m.login.email.identity") {
        Some(AuthenticationTypes::Email)
    } else if str_eq(s, "m.login.msisdn") {
        Some(AuthenticationTypes::Msisdn)
    } else if str_eq(s, "m.login.token") {
        Some(AuthenticationTypes::Token)
    } else if str_eq(s, "m.login.dummy") {
        Some(AuthenticationTypes::Dummy)
    } else {
        None
    }
}

/// Every authentication method's wire text decodes back to that method.
pub proof fn lemma_auth_type_round_trip(t: AuthenticationTypes)
    ensures
        auth_type_of(auth_type_text(t)) == Some(t),
{
    reveal_strlit("m.login.password");
    reveal_strlit("m.login.recaptcha");
    reveal_strlit("m.login.oauth2");
    reveal_strlit("m.login.email.identity");
    reveal_strlit("m.login.msisdn");
    reveal_strlit("m.login.token");
    reveal_strlit("m.login.dummy");
    assert("m.login.password"@.len() == 16);
    assert("m.login.recaptcha"@.len() == 17);
    assert("m.login.oauth2"@.len() == 14);
    assert("m.login.email.identity"@.len() == 22);
    assert("m.login.msisdn"@.len() == 14);
    assert("m.login.token"@.len() == 13);
    assert("m.login.dummy"@.len() == 13);
    assert("m.login.oauth2"@[8] == 'o');
    assert("m.login.msisdn"@[8] == 'm');
    assert("m.login.token"@[8] == 't');
    assert("m.login.dummy"@[8] == 'd');
    match t {
        AuthenticationTypes::Password => {
            assert(auth_type_of(auth_type_text(t)) == Some(t));
        },
        AuthenticationTypes::Captcha => {
            assert(auth_type_of(auth_type_text(t)) == Some(t));
        },
        AuthenticationTypes::Oauth2 => {
            assert(auth_type_of(auth_type_text(t)) == Some(t));
        },
        AuthenticationTypes::Email => {
            assert(auth_type_of(auth_type_text(t)) == Some(t));
        },
        AuthenticationTypes::Msisdn => {
            assert(auth_type_of(auth_type_text(t)) == Some(t));
        },
        AuthenticationTypes::Token => {
            assert(auth_type_of(auth_type_text(t)) == Some(t));
        },
        AuthenticationTypes::Dummy => {
            assert(auth_type_of(auth_type_text(t)) == Some(t));
        },
    }
}

} // verus!
