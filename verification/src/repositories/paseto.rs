//! Refresh tokens as PASETO v4: signed (`public`) on issue with the token's
//! id, secret, secret key, version and times as claims; and read back
//! (`local`) with a 32-byte key, through `rusty_paseto`.
use crate::domain::RefreshToken;
use crate::errors::{repo_error, RepositoryError, RepositoryResult};
use crate::ids::{uuid_text, uuid_to_string};
use crate::text::has_prefix;
use rusty_paseto::prelude::{
    CustomClaim, GenericBuilderError, GenericParserError, Key, Local, PasetoAsymmetricPrivateKey, PasetoSymmetricKey, Public, V4, ExpirationClaim, IssuedAtClaim, NotBeforeClaim, PasetoBuilder, PasetoParser,
    TokenIdentifierClaim,
};
use vstd::prelude::*;
use vstd::utf8::encode_utf8;

verus! {

#[verifier::external_type_specification]
#[verifier::external_body]
pub struct ExGenericBuilderError(GenericBuilderError);

#[verifier::external_type_specification]
#[verifier::external_body]
pub struct ExGenericParserError(GenericParserError);

/// The claims of a token: its id, the custom claims as name and value
/// texts, and the issue, expiry and not-before times as RFC 3339 texts.
#[derive(Debug)]
pub struct PasetoClaims {
    pub token_id: String,
    pub custom: Vec<(String, String)>,
    pub issued_at: String,
    pub expiration: String,
    pub not_before: String,
}

/// The custom claims of a token, taken by views.
pub open spec fn custom_view(custom: Seq<(String, String)>) -> Seq<(Seq<char>, Seq<char>)> {
    custom.map_values(|c: (String, String)| (c.0@, c.1@))
}

/// What signing claims as a V4 public PASETO gives under a 64-byte secret
/// key: the token, or `None` when the crate refuses a claim. The claims are
/// the token id, the custom claims, and the issue, expiry and not-before
/// times; each is set over the builder's defaults.
pub uninterp spec fn paseto_v4_public_token(
    key: Seq<u8>,
    token_id: Seq<char>,
    custom: Seq<(Seq<char>, Seq<char>)>,
    times: (Seq<char>, Seq<char>, Seq<char>),
) -> Option<Seq<char>>;

/// What decrypting a V4 local PASETO under a 32-byte key gives, before any
/// check of its times against the clock: the payload rendered as JSON text,
/// or `None` when the token does not decrypt or its payload is not JSON.
pub uninterp spec fn paseto_v4_local_payload(key: Seq<u8>, token: Seq<char>) -> Option<Seq<char>>;

/// Calls `PasetoBuilder::<V4, Public>::default()`, sets each claim through
/// `set_claim`, and signs with the 64-byte key. Trusted: the result is
/// `paseto_v4_public_token` of the key and the claims. The builder keeps its
/// claims in a map but renders them through `serde_json`'s ordered map, and
/// Ed25519 signing is deterministic, so the token is a function of these.
#[verifier::external_body]
fn paseto_v4_public_sign(private_key: &[u8], claims: &PasetoClaims) -> (res: Result<String, GenericBuilderError>)
    requires
        private_key@.len() == 64,
    ensures
        res is Ok <==> paseto_v4_public_token(private_key@, claims.token_id@, custom_view(claims.custom@), (claims.issued_at@, claims.expiration@, claims.not_before@)) is Some,
        res matches Ok(t) ==> paseto_v4_public_token(private_key@, claims.token_id@, custom_view(claims.custom@), (claims.issued_at@, claims.expiration@, claims.not_before@)) == Some(t@),
{
    let key = Key::<64>::try_from(private_key)?;
    let pk = PasetoAsymmetricPrivateKey::<V4, Public>::from(&key);
    let mut builder = PasetoBuilder::<V4, Public>::default();
    builder.set_claim(TokenIdentifierClaim::from(claims.token_id.as_str()));
    for (name, value) in claims.custom.iter() {
        builder.set_claim(CustomClaim::try_from((name.as_str(), value.as_str()))?);
    }
    builder.set_claim(IssuedAtClaim::try_from(claims.issued_at.as_str())?);
    builder.set_claim(ExpirationClaim::try_from(claims.expiration.as_str())?);
    builder.set_claim(NotBeforeClaim::try_from(claims.not_before.as_str())?);
    builder.build(&pk)
}

/// Calls `to_string` on a builder error. Trusted for nothing: the text is
/// the crate's.
#[verifier::external_body]
fn builder_error_text(e: &GenericBuilderError) -> (res: String) {
    e.to_string()
}

/// Why the parser refused a token: a check of its claims, which it makes
/// only on a payload it decrypted and read as JSON, or a token it could not
/// decrypt or read.
#[derive(Debug)]
pub enum PasetoRefusal {
    Claims(GenericParserError),
    Unreadable(GenericParserError),
}

/// The texts of the claim checks that `PasetoParser::<V4, Local>::default()`
/// makes: an expired token, a token used before its not-before time, a time
/// that is not RFC 3339, a missing expiry, and a not-before that is not a
/// text.
pub open spec fn claim_refusal_text(m: Seq<char>) -> bool {
    ||| m == "This token is expired"@
    ||| has_prefix(m, "The token cannot be used before "@)
    ||| has_prefix(m, "The value "@)
    ||| m == "The expected claim 'exp' was not found in the payload"@
    ||| m == "Could not convert claim 'nbf' to the expected data type"@
}

/// The texts of a token the parser could not decrypt or read as JSON.
pub open spec fn unreadable_text(m: Seq<char>) -> bool {
    ||| m == "A paseto cipher error occurred"@
    ||| m == "The payload was unable to be serialized into json"@
}

/// Calls `PasetoParser::<V4, Local>::default().parse` with the 32-byte key,
/// renders the payload, and tells a refusal by the claim checks from one
/// of the token. Trusted: a payload that comes back is
/// `paseto_v4_local_payload` of the key and token; the claim checks run only
/// after the token decrypted and its payload read as JSON, so a refusal by
/// them means that payload exists, and any other refusal means it does not.
/// Which claim checks pass depends on the clock.
#[verifier::external_body]
fn paseto_v4_local_parse(key: &[u8], token: &str) -> (res: Result<String, PasetoRefusal>)
    requires
        key@.len() == 32,
    ensures
        res matches Ok(p) ==> paseto_v4_local_payload(key@, token@) == Some(p@),
        res matches Err(PasetoRefusal::Claims(_)) ==> paseto_v4_local_payload(key@, token@) is Some,
        res matches Err(PasetoRefusal::Unreadable(_)) ==> paseto_v4_local_payload(key@, token@) is None,
{
    let key = Key::<32>::try_from(key).map_err(|e| PasetoRefusal::Unreadable(GenericParserError::from(e)))?;
    let paseto_key = PasetoSymmetricKey::<V4, Local>::from(key);
    let parsed = PasetoParser::<V4, Local>::default().parse(token, &paseto_key);
    match parsed {
        Ok(p) => Ok(p.to_string()),
        Err(e @ GenericParserError::ClaimError { .. }) => Err(PasetoRefusal::Claims(e)),
        Err(e) => Err(PasetoRefusal::Unreadable(e)),
    }
}

/// Calls `to_string` on the parser's error. Trusted: the text is the
/// crate's; a refusal by the claim checks has one of their texts, any other
/// refusal the cipher's or the JSON's; none begins with `Paseto`.
#[verifier::external_body]
fn parser_error_text(e: &PasetoRefusal) -> (res: String)
    ensures
        !has_prefix(res@, "Paseto"@),
        e matches PasetoRefusal::Claims(_) ==> claim_refusal_text(res@),
        e matches PasetoRefusal::Unreadable(_) ==> unreadable_text(res@),
{
    match e {
        PasetoRefusal::Claims(e) => e.to_string(),
        PasetoRefusal::Unreadable(e) => e.to_string(),
    }
}

/// The custom claims of a refresh token: its secret, its secret key and its
/// version, under those names.
pub open spec fn refresh_custom_claims(secret: Seq<char>, secret_key: Seq<char>, version: Seq<char>) -> Seq<
    (Seq<char>, Seq<char>),
> {
    seq![("secret"@, secret), ("secret_key"@, secret_key), ("version"@, version)]
}

/// The claims of a refresh token's PASETO: the token's id text as token
/// id; its secret, secret key and version as custom claims; and the issue,
/// expiry and not-before times as given.
pub fn refresh_token_claims(
    rt: &RefreshToken,
    secret: &str,
    secret_key: &str,
    issued_at: String,
    expire: String,
    notbefore: String,
) -> (res: PasetoClaims)
    ensures
        res.token_id@ == uuid_text(rt.token_id),
        custom_view(res.custom@) == refresh_custom_claims(secret@, secret_key@, rt.token_version@),
        res.issued_at == issued_at,
        res.expiration == expire,
        res.not_before == notbefore,
{
    let mut custom: Vec<(String, String)> = Vec::new();
    custom.push(("secret".to_owned(), secret.to_owned()));
    custom.push(("secret_key".to_owned(), secret_key.to_owned()));
    custom.push(("version".to_owned(), rt.token_version.clone()));
    proof {
        assert(custom_view(custom@) =~= refresh_custom_claims(secret@, secret_key@, rt.token_version@));
    }
    PasetoClaims {
        token_id: uuid_to_string(rt.token_id),
        custom,
        issued_at,
        expiration: expire,
        not_before: notbefore,
    }
}

/// The answer to a signing key that is not 64 bytes.
pub open spec fn signing_key_failure() -> (Seq<char>, u16) {
    ("invalid hex key: Key was not in the correct format"@, 500)
}

/// The answer to a reading key that is not 32 bytes.
pub open spec fn reading_key_failure() -> (Seq<char>, u16) {
    ("Paseto key must be 32 bytes"@, 500)
}

/// Issues and reads refresh token PASETOs.
pub trait PasetoRepository {
    /// Signs the claims of a refresh token with a 64-byte key: the token of
    /// `refresh_token_claims`, which the crate gives or refuses. A key of
    /// another length is refused; a failure of the crate is answered with
    /// its text and code 500.
    fn encrypt(
        &self,
        private_key: &Vec<u8>,
        rt: RefreshToken,
        secret: &str,
        secret_key: &str,
        issued_at: String,
        expire: String,
        notbefore: String,
    ) -> (res: RepositoryResult<String>)
        ensures
            private_key@.len() != 64 ==> (res matches Err(e) && e@ == signing_key_failure()),
            private_key@.len() == 64 ==> {
                let token = paseto_v4_public_token(
                    private_key@,
                    uuid_text(rt.token_id),
                    refresh_custom_claims(secret@, secret_key@, rt.token_version@),
                    (issued_at@, expire@, notbefore@),
                );
                &&& res is Ok <==> token is Some
                &&& res matches Ok(t) ==> token == Some(t@)
            },
            res matches Err(e) ==> e.code == 500,
    ;

    /// Reads a token with a key whose text is 32 bytes: a payload that comes
    /// back is the token's, decrypted under the UTF-8 of the key. A key of
    /// another length is refused; a failure of the crate, the clock's
    /// verdict on the times among them, is answered with its text and code
    /// 500.
    fn decrypt(&self, key: String, token: &str) -> (res: RepositoryResult<String>)
        ensures
            encode_utf8(key@).len() != 32 ==> (res matches Err(e) && e@
                == reading_key_failure()),
            encode_utf8(key@).len() == 32 ==> !(res matches Err(e) && e@ == reading_key_failure()),
            encode_utf8(key@).len() == 32 ==> (res matches Err(e) ==> if paseto_v4_local_payload(
                encode_utf8(key@),
                token@,
            ) is Some {
                claim_refusal_text(e.message@)
            } else {
                unreadable_text(e.message@)
            }),
            res matches Ok(p) ==> encode_utf8(key@).len() == 32 && paseto_v4_local_payload(
                encode_utf8(key@),
                token@,
            ) == Some(p@),
            res matches Err(e) ==> e.code == 500,
    ;
}

/// The PASETO repository of refresh tokens.
pub struct PasetoRepositoryImpl {}

impl PasetoRepositoryImpl {
    pub fn new() -> (res: Self) {
        PasetoRepositoryImpl {  }
    }
}

/// An error of the crate, answered with its text.
fn crate_error(text: String) -> (res: RepositoryError)
    ensures
        res.message == text,
        res.code == 500,
{
    RepositoryError::new(text, 500)
}

impl PasetoRepository for PasetoRepositoryImpl {
    fn encrypt(
        &self,
        private_key: &Vec<u8>,
        rt: RefreshToken,
        secret: &str,
        secret_key: &str,
        issued_at: String,
        expire: String,
        notbefore: String,
    ) -> (res: RepositoryResult<String>) {
        if private_key.len() != 64 {
            return Err(repo_error("invalid hex key: Key was not in the correct format", 500));
        }
        let claims = refresh_token_claims(&rt, secret, secret_key, issued_at, expire, notbefore);
        let signed = paseto_v4_public_sign(private_key.as_slice(), &claims);
        match signed {
            Ok(token) => Ok(token),
            Err(e) => Err(crate_error(builder_error_text(&e))),
        }
    }

    fn decrypt(&self, key: String, token: &str) -> (res: RepositoryResult<String>) {
        let bytes = key.as_str().as_bytes();
        if bytes.len() != 32 {
            return Err(repo_error("Paseto key must be 32 bytes", 500));
        }
        match paseto_v4_local_parse(bytes, token) {
            Ok(payload) => Ok(payload),
            Err(e) => {
                let text = parser_error_text(&e);
                proof {
                    reveal_strlit("Paseto");
                    reveal_strlit("Paseto key must be 32 bytes");
                    assert(reading_key_failure().0.take(6) =~= "Paseto"@);
                }
                Err(crate_error(text))
            },
        }
    }
}

} // verus!
