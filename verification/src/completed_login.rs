//! [`CompletedLogin`]: the result of a successful login completion.

use vstd::prelude::*;

use crate::extra::ExtraFields;
use crate::session_state::TokenResponse;
use crate::text::{opt_str, opt_text};
use crate::time::Timestamp;

verus! {

/// The standard OIDC address claim.
#[derive(Debug, Clone)]
pub struct AddressClaims {
    /// Full mailing address, formatted for display.
    pub formatted: Option<String>,
    /// Street address.
    pub street_address: Option<String>,
    /// City or locality.
    pub locality: Option<String>,
    /// State, province, prefecture, or region.
    pub region: Option<String>,
    /// Zip code or postal code.
    pub postal_code: Option<String>,
    /// Country name.
    pub country: Option<String>,
}

/// The standard OIDC profile claims. The subject is not among them: it is a
/// registered claim of the token itself ([`CompletedLogin::subject`]).
#[derive(Debug, Clone)]
pub struct ProfileClaims {
    /// Full name in displayable form.
    pub name: Option<String>,
    /// Given name(s).
    pub given_name: Option<String>,
    /// Surname(s).
    pub family_name: Option<String>,
    /// Middle name(s).
    pub middle_name: Option<String>,
    /// Casual name.
    pub nickname: Option<String>,
    /// Preferred username.
    pub preferred_username: Option<String>,
    /// Profile URL.
    pub profile: Option<String>,
    /// URL of the profile picture.
    pub picture: Option<String>,
    /// URL of a Web page or blog.
    pub website: Option<String>,
    /// Preferred e-mail address.
    pub email: Option<String>,
    /// Whether the e-mail address was verified.
    pub email_verified: Option<bool>,
    /// Gender.
    pub gender: Option<String>,
    /// Birthday, as an ISO 8601 `YYYY-MM-DD` date.
    pub birthdate: Option<String>,
    /// Time zone, by its IANA name.
    pub zoneinfo: Option<String>,
    /// Locale, as a BCP47 language tag.
    pub locale: Option<String>,
    /// Preferred telephone number.
    pub phone_number: Option<String>,
    /// Whether the telephone number was verified.
    pub phone_number_verified: Option<bool>,
    /// Preferred postal address.
    pub address: Option<AddressClaims>,
    /// When the claims were last updated.
    pub updated_at: Option<Timestamp>,
}

impl Default for ProfileClaims {
    fn default() -> (p: Self)
        ensures
            p == (ProfileClaims {
                name: None,
                given_name: None,
                family_name: None,
                middle_name: None,
                nickname: None,
                preferred_username: None,
                profile: None,
                picture: None,
                website: None,
                email: None,
                email_verified: None,
                gender: None,
                birthdate: None,
                zoneinfo: None,
                locale: None,
                phone_number: None,
                phone_number_verified: None,
                address: None,
                updated_at: None,
            }),
    {
        ProfileClaims {
            name: None,
            given_name: None,
            family_name: None,
            middle_name: None,
            nickname: None,
            preferred_username: None,
            profile: None,
            picture: None,
            website: None,
            email: None,
            email_verified: None,
            gender: None,
            birthdate: None,
            zoneinfo: None,
            locale: None,
            phone_number: None,
            phone_number_verified: None,
            address: None,
            updated_at: None,
        }
    }
}

/// The claims of a validated ID token.
#[derive(Debug, Clone)]
pub struct IdTokenClaims {
    /// The nonce the token answers.
    pub nonce: Option<String>,
    /// When the user authenticated, in seconds since the epoch.
    pub auth_time: Option<u64>,
    /// The authentication context class.
    pub acr: Option<String>,
    /// The authentication methods.
    pub amr: Vec<String>,
    /// The authorized party.
    pub azp: Option<String>,
    /// The session ID (`sid`) claim, if present.
    pub sid: Option<String>,
    /// The standard profile claims.
    pub profile: ProfileClaims,
    /// The claims beyond the standard ones.
    pub extra: ExtraFields,
}

impl Default for IdTokenClaims {
    fn default() -> (c: Self)
        ensures
            c.nonce is None,
            c.auth_time is None,
            c.acr is None,
            c.amr@.len() == 0,
            c.azp is None,
            c.sid is None,
            call_ensures(ProfileClaims::default, (), c.profile),
            c.extra@.len() == 0,
    {
        IdTokenClaims {
            nonce: None,
            auth_time: None,
            acr: None,
            amr: Vec::new(),
            azp: None,
            sid: None,
            profile: ProfileClaims::default(),
            extra: ExtraFields::default(),
        }
    }
}

/// The token response and validated identity claims from a completed login
/// (claims present only for OIDC flows).
pub struct CompletedLogin {
    token_response: TokenResponse,
    subject: Option<String>,
    id_token_claims: Option<IdTokenClaims>,
}

/// The parts of a [`CompletedLogin`].
pub struct CompletedLoginView {
    /// The token response.
    pub token_response: TokenResponse,
    /// The subject of the validated ID token.
    pub subject: Option<String>,
    /// The validated ID token claims.
    pub id_token_claims: Option<IdTokenClaims>,
}

impl View for CompletedLogin {
    type V = CompletedLoginView;

    closed spec fn view(&self) -> CompletedLoginView {
        CompletedLoginView {
            token_response: self.token_response,
            subject: self.subject,
            id_token_claims: self.id_token_claims,
        }
    }
}

impl CompletedLogin {
    /// Pairs a token response with what the validated ID token says.
    pub fn new(
        token_response: TokenResponse,
        subject: Option<String>,
        id_token_claims: Option<IdTokenClaims>,
    ) -> (c: Self)
        ensures
            c@ == (CompletedLoginView { token_response, subject, id_token_claims }),
    {
        CompletedLogin { token_response, subject, id_token_claims }
    }

    /// Returns the token response.
    #[must_use]
    pub fn token_response(&self) -> (t: &TokenResponse)
        ensures
            *t == self@.token_response,
    {
        &self.token_response
    }

    /// Returns the subject (`sub`) from the validated ID token, present only
    /// for OIDC flows.
    #[must_use]
    pub fn subject(&self) -> (s: Option<&str>)
        ensures
            opt_str(s) == opt_text(self@.subject),
    {
        match &self.subject {
            Some(s) => Some(s.as_str()),
            None => None,
        }
    }

    /// Returns the validated ID token claims, present only for OIDC flows.
    #[must_use]
    pub fn id_token_claims(&self) -> (c: Option<&IdTokenClaims>)
        ensures
            match c {
                Some(claims) => self@.id_token_claims == Some(*claims),
                None => self@.id_token_claims is None,
            },
    {
        self.id_token_claims.as_ref()
    }

    /// Consumes the `CompletedLogin`, returning its parts.
    #[must_use]
    pub fn into_parts(self) -> (parts: (TokenResponse, Option<String>, Option<IdTokenClaims>))
        ensures
            parts == (self@.token_response, self@.subject, self@.id_token_claims),
    {
        (self.token_response, self.subject, self.id_token_claims)
    }

    /// The subject, as a session keeps it.
    pub(crate) fn subject_cloned(&self) -> (s: Option<String>)
        ensures
            s == self@.subject,
    {
        self.subject.clone()
    }
}

/// A completed login hands out what it was made of.
pub proof fn law_login_keeps_its_parts(
    token_response: TokenResponse,
    subject: Option<String>,
    id_token_claims: Option<IdTokenClaims>,
    c: CompletedLogin,
    shown: Option<&str>,
    parts: (TokenResponse, Option<String>, Option<IdTokenClaims>),
)
    requires
        call_ensures(CompletedLogin::new, (token_response, subject, id_token_claims), c),
        call_ensures(CompletedLogin::subject, (&c,), shown),
        call_ensures(CompletedLogin::into_parts, (c,), parts),
    ensures
        parts.0 == token_response,
        parts.1 == subject,
        parts.2 == id_token_claims,
        shown is Some <==> subject is Some,
        shown matches Some(s) ==> s@ == subject->0@,
{
}

} // verus!
