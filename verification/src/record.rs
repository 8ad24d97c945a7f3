//! The credential record, the token pair a provider grants, and the rules
//! that decide when a record is fresh.

use vstd::prelude::*;
use crate::json::{
    i64_member, json_i64_member, json_string_literal, json_text_member, string_literal,
    text_member, text_view,
};
use crate::text::{signed_decimal, signed_decimal_of};

verus! {

/// Seconds before expiry from which an access token counts as stale.
pub const REFRESH_LOOKAHEAD_SECS: i64 = 300;

/// The one persisted credential record.
#[derive(Debug, PartialEq, Eq)]
pub struct TokenData {
    /// Opaque bearer string sent in authorization headers.
    pub access_token: String,
    /// Exchanged for a new pair when the access token nears expiry.
    pub refresh_token: String,
    /// Unix timestamp (seconds) at which the access token expires.
    pub expires_at: i64,
    /// Identity the provider resolved for the access token.
    pub username: String,
}

/// Mathematical model of a [`TokenData`].
pub struct TokenDataView {
    pub access_token: Seq<char>,
    pub refresh_token: Seq<char>,
    pub expires_at: int,
    pub username: Seq<char>,
}

impl View for TokenData {
    type V = TokenDataView;

    open spec fn view(&self) -> TokenDataView {
        TokenDataView {
            access_token: self.access_token@,
            refresh_token: self.refresh_token@,
            expires_at: self.expires_at as int,
            username: self.username@,
        }
    }
}

/// An access/refresh token pair as the provider hands it out, with the
/// lifetime it reports for the access token.
#[derive(Debug, PartialEq, Eq)]
pub struct TokenGrant {
    pub access_token: String,
    pub refresh_token: String,
    /// Seconds the access token stays valid, counted from issuance.
    pub expires_in: i64,
}

/// Mathematical model of a [`TokenGrant`].
pub struct TokenGrantView {
    pub access_token: Seq<char>,
    pub refresh_token: Seq<char>,
    pub expires_in: int,
}

impl View for TokenGrant {
    type V = TokenGrantView;

    open spec fn view(&self) -> TokenGrantView {
        TokenGrantView {
            access_token: self.access_token@,
            refresh_token: self.refresh_token@,
            expires_in: self.expires_in as int,
        }
    }
}

/// A record needs refreshing once `now` is within the lookahead window of
/// its expiry, or past it.
pub open spec fn needs_refresh(expires_at: int, now: int) -> bool {
    now >= expires_at - REFRESH_LOOKAHEAD_SECS
}

/// Whether the expiry of `grant`, issued at `now`, fits a timestamp.
pub open spec fn issuable(grant: TokenGrantView, now: int) -> bool {
    i64::MIN <= now + grant.expires_in <= i64::MAX
}

/// The record that `grant` becomes when issued at `now` to `username`: the
/// expiry is the issuance time plus the reported lifetime.
pub open spec fn issued(grant: TokenGrantView, username: Seq<char>, now: int) -> TokenDataView {
    TokenDataView {
        access_token: grant.access_token,
        refresh_token: grant.refresh_token,
        expires_at: now + grant.expires_in,
        username,
    }
}

/// Model of an optional record.
pub open spec fn record_view(record: Option<TokenData>) -> Option<TokenDataView> {
    match record {
        Some(record) => Some(record@),
        None => None,
    }
}

/// The record made of the four members of a stored document, where all of
/// them are present.
pub open spec fn record_of(
    access_token: Option<Seq<char>>,
    refresh_token: Option<Seq<char>>,
    expires_at: Option<i64>,
    username: Option<Seq<char>>,
) -> Option<TokenDataView> {
    if access_token is Some && refresh_token is Some && expires_at is Some && username is Some {
        Some(
            TokenDataView {
                access_token: access_token->0,
                refresh_token: refresh_token->0,
                expires_at: expires_at->0 as int,
                username: username->0,
            },
        )
    } else {
        None
    }
}

/// The record that a stored document decodes to, if it holds one.
pub open spec fn decoded_record(document: Seq<char>) -> Option<TokenDataView> {
    record_of(
        json_text_member(document, "access_token"@),
        json_text_member(document, "refresh_token"@),
        json_i64_member(document, "expires_at"@),
        json_text_member(document, "username"@),
    )
}

/// The stored document for a record: a pretty-printed JSON object with the
/// four members in declaration order.
pub open spec fn encoded_record(record: TokenDataView) -> Seq<char> {
    "{\n  \"access_token\": "@ + json_string_literal(record.access_token)
        + ",\n  \"refresh_token\": "@ + json_string_literal(record.refresh_token)
        + ",\n  \"expires_at\": "@ + signed_decimal_of(record.expires_at)
        + ",\n  \"username\": "@ + json_string_literal(record.username) + "\n}"@
}

/// Whether the stored document of `record` decodes to `record` again.
pub open spec fn loads_back(record: TokenDataView) -> bool {
    decoded_record(encoded_record(record)) == Some(record)
}

/// The record made of the four members of a record is that record. So a
/// stored document decodes to the record it was written from wherever the
/// JSON reader hands back the four members as they were written. That it
/// does is not shown here: [`TokenData::to_checked_json`] finds out for each
/// record that is saved.
pub proof fn lemma_members_make_the_record(record: TokenDataView)
    requires
        i64::MIN <= record.expires_at <= i64::MAX,
    ensures
        record_of(
            Some(record.access_token),
            Some(record.refresh_token),
            Some(record.expires_at as i64),
            Some(record.username),
        ) == Some(record),
{
}

impl TokenData {
    /// Whether the access token is within the lookahead window of its expiry
    /// at time `now`.
    pub fn is_stale(&self, now: i64) -> (stale: bool)
        ensures
            stale == needs_refresh(self.expires_at as int, now as int),
    {
        match self.expires_at.checked_sub(REFRESH_LOOKAHEAD_SECS) {
            Some(threshold) => now >= threshold,
            None => true,
        }
    }

    /// Turns a grant into a record for `username`, issued at `now`. There is
    /// no record where the expiry would not fit a timestamp.
    pub fn issue(grant: TokenGrant, username: String, now: i64) -> (record: Option<TokenData>)
        ensures
            record_view(record) == if issuable(grant@, now as int) {
                Some(issued(grant@, username@, now as int))
            } else {
                None
            },
    {
        match now.checked_add(grant.expires_in) {
            Some(expires_at) => Some(
                TokenData {
                    access_token: grant.access_token,
                    refresh_token: grant.refresh_token,
                    expires_at,
                    username,
                },
            ),
            None => None,
        }
    }

    /// Builds a record from the four members of a stored document; `None`
    /// where one is missing.
    pub fn from_members(
        access_token: Option<String>,
        refresh_token: Option<String>,
        expires_at: Option<i64>,
        username: Option<String>,
    ) -> (record: Option<TokenData>)
        ensures
            record_view(record) == record_of(
                text_view(access_token),
                text_view(refresh_token),
                expires_at,
                text_view(username),
            ),
    {
        match (access_token, refresh_token, expires_at, username) {
            (Some(access_token), Some(refresh_token), Some(expires_at), Some(username)) => Some(
                TokenData { access_token, refresh_token, expires_at, username },
            ),
            _ => None,
        }
    }

    /// Decodes a stored document; `None` where it is not a JSON object with
    /// the four members of a record.
    pub fn from_json(document: &str) -> (record: Option<TokenData>)
        ensures
            record_view(record) == decoded_record(document@),
    {
        let access_token = text_member(document, "access_token");
        let refresh_token = text_member(document, "refresh_token");
        let expires_at = i64_member(document, "expires_at");
        let username = text_member(document, "username");
        TokenData::from_members(access_token, refresh_token, expires_at, username)
    }

    /// Encodes the record as the document to store and reads the document
    /// back: the document is handed out only where it decodes to this
    /// record again, so that what is saved is what a later load finds.
    pub fn to_checked_json(&self) -> (document: Option<String>)
        ensures
            match document {
                Some(text) => loads_back(self@) && text@ == encoded_record(self@),
                None => !loads_back(self@),
            },
    {
        let text = self.to_json();
        match TokenData::from_json(text.as_str()) {
            Some(back) => {
                if back.access_token == self.access_token && back.refresh_token
                    == self.refresh_token && back.expires_at == self.expires_at && back.username
                    == self.username {
                    Some(text)
                } else {
                    None
                }
            },
            None => None,
        }
    }

    /// Encodes the record as the document to store.
    pub fn to_json(&self) -> (document: String)
        ensures
            document@ == encoded_record(self@),
    {
        let mut document = String::from_str("{\n  \"access_token\": ");
        document.append(string_literal(self.access_token.as_str()).as_str());
        document.append(",\n  \"refresh_token\": ");
        document.append(string_literal(self.refresh_token.as_str()).as_str());
        document.append(",\n  \"expires_at\": ");
        document.append(signed_decimal(self.expires_at).as_str());
        document.append(",\n  \"username\": ");
        document.append(string_literal(self.username.as_str()).as_str());
        document.append("\n}");
        document
    }
}

impl Clone for TokenData {
    fn clone(&self) -> (copy: Self)
        ensures
            copy == *self,
    {
        TokenData {
            access_token: self.access_token.clone(),
            refresh_token: self.refresh_token.clone(),
            expires_at: self.expires_at,
            username: self.username.clone(),
        }
    }
}

impl Clone for TokenGrant {
    fn clone(&self) -> (copy: Self)
        ensures
            copy == *self,
    {
        TokenGrant {
            access_token: self.access_token.clone(),
            refresh_token: self.refresh_token.clone(),
            expires_in: self.expires_in,
        }
    }
}

} // verus!
