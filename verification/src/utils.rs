//! The collected client data: the JSON document that names the operation,
//! the challenge and the caller's origin.
//!
//! The exact text of the document is hashed and later checked by the relying
//! party, so the order of its members and the absence of the optional ones are
//! part of the protocol.

use crate::error::SignError;
use vstd::prelude::*;
use vstd::string::StringExecFns;

verus! {

/// The error of `url::Url::parse`, carried through unread.
#[verifier::external_type_specification]
#[verifier::external_body]
pub struct ExUrlParseError(url::ParseError);

/// The error of `serde_json::to_string`, carried through unread.
#[verifier::external_type_specification]
#[verifier::external_body]
pub struct ExJsonError(serde_json::Error);

/// The token binding state of the connection to the relying party.
#[derive(Debug, Clone)]
pub struct TokenBinding {
    pub status: String,
    pub id: Option<String>,
}

/// The collected client data of a signing operation. Its type is always
/// `webauthn.get` and is therefore no field. This crate constructs it with
/// both optional members absent.
#[derive(Debug, Clone)]
pub struct CollectedClientData {
    pub challenge: String,
    pub origin: String,
    pub cross_origin: Option<bool>,
    pub token_binding: Option<TokenBinding>,
}

/// The Unicode serialization of the origin of the URL that a text parses to:
/// scheme, host and, where it is not the scheme's default, port. `None`
/// where the text is no absolute URL.
pub uninterp spec fn url_origin_serialization(text: Seq<char>) -> Option<Seq<char>>;

/// A text as a JSON string literal, quotes included.
pub uninterp spec fn json_string_literal(text: Seq<char>) -> Seq<char>;

/// `url::Url::parse`, then `Url::origin` and `Origin::unicode_serialization`
/// on the parsed URL. Trusted: parsing fails exactly where the text has no
/// origin serialization, and the three calls otherwise return it.
#[verifier::external_body]
pub(crate) fn serialized_origin(text: &str) -> (r: Result<String, url::ParseError>)
    ensures
        r matches Ok(origin) ==> url_origin_serialization(text@) == Some(origin@),
        r is Err ==> url_origin_serialization(text@) is None,
{
    match url::Url::parse(text) {
        Ok(parsed) => Ok(parsed.origin().unicode_serialization()),
        Err(e) => Err(e),
    }
}

/// `serde_json::to_string` on a string slice. Trusted: the call succeeds and
/// returns the text as a JSON string literal. It cannot fail here: the crate
/// documents failure only for a `Serialize` impl that fails or a map with keys
/// that are no strings, and serializing a `str` writes its escaped characters
/// into a `Vec` and does nothing else.
#[verifier::external_body]
pub(crate) fn json_string(text: &str) -> (r: Result<String, serde_json::Error>)
    ensures
        r is Ok,
        r matches Ok(literal) ==> literal@ == json_string_literal(text@),
{
    serde_json::to_string(text)
}

/// The document for a challenge and an origin that are already written as
/// JSON string literals, with the text of the optional members behind them.
/// The operation type comes first and is always `webauthn.get`.
pub open spec fn client_data_document_with(
    challenge_literal: Seq<char>,
    origin_literal: Seq<char>,
    optional_members: Seq<char>,
) -> Seq<char> {
    "{\"type\":\"webauthn.get\",\"challenge\":"@ + challenge_literal + ",\"origin\":"@
        + origin_literal + optional_members + "}"@
}

/// The document with both optional members absent. An absent member is left
/// out; it is not written as `null`.
pub open spec fn client_data_document(challenge_literal: Seq<char>, origin_literal: Seq<char>) -> Seq<
    char,
> {
    client_data_document_with(challenge_literal, origin_literal, Seq::empty())
}

/// The client data for a challenge and a normalized origin.
pub open spec fn client_data_json(challenge: Seq<char>, origin: Seq<char>) -> Seq<char> {
    client_data_document(json_string_literal(challenge), json_string_literal(origin))
}

/// The member `crossOrigin`, with the comma before it, or nothing.
pub open spec fn cross_origin_member(cross_origin: Option<bool>) -> Seq<char> {
    match cross_origin {
        Some(true) => ",\"crossOrigin\":true"@,
        Some(false) => ",\"crossOrigin\":false"@,
        None => Seq::empty(),
    }
}

/// The value of the member `id` of a token binding: a string literal, or
/// `null` where there is none.
pub open spec fn token_binding_id_value(id_literal: Option<Seq<char>>) -> Seq<char> {
    match id_literal {
        Some(literal) => literal,
        None => "null"@,
    }
}

/// The member `tokenBinding` for a status and an identifier that are already
/// written as JSON string literals, with the comma before it.
pub open spec fn token_binding_member(status_literal: Seq<char>, id_literal: Option<Seq<char>>) -> Seq<
    char,
> {
    ",\"tokenBinding\":{\"status\":"@ + status_literal + ",\"id\":"@ + token_binding_id_value(
        id_literal,
    ) + "}"@
}

impl TokenBinding {
    /// The member `tokenBinding` for this binding.
    pub open spec fn member(&self) -> Seq<char> {
        token_binding_member(
            json_string_literal(self.status@),
            match self.id {
                Some(id) => Some(json_string_literal(id@)),
                None => None,
            },
        )
    }
}

impl CollectedClientData {
    /// The text of the optional members that are present.
    pub open spec fn optional_members(&self) -> Seq<char> {
        cross_origin_member(self.cross_origin) + match self.token_binding {
            Some(binding) => binding.member(),
            None => Seq::empty(),
        }
    }

    /// The canonical JSON text: `type`, `challenge`, `origin`, then
    /// `crossOrigin` and `tokenBinding` where they are present.
    pub open spec fn json(&self) -> Seq<char> {
        client_data_document_with(
            json_string_literal(self.challenge@),
            json_string_literal(self.origin@),
            self.optional_members(),
        )
    }

    /// The client data of a signing operation: both optional members absent.
    pub fn for_assertion(challenge: String, origin: String) -> (data: Self)
        ensures
            data.challenge == challenge,
            data.origin == origin,
            data.cross_origin is None,
            data.token_binding is None,
    {
        CollectedClientData { challenge, origin, cross_origin: None, token_binding: None }
    }

    /// Serializes the client data.
    pub fn to_json(&self) -> (document: String)
        ensures
            document@ == self.json(),
    {
        let challenge_literal = json_string(self.challenge.as_str()).unwrap();
        let origin_literal = json_string(self.origin.as_str()).unwrap();
        let mut optional = write_cross_origin(self.cross_origin);
        match &self.token_binding {
            Some(binding) => {
                let status_literal = json_string(binding.status.as_str()).unwrap();
                let member = match &binding.id {
                    Some(id) => {
                        let id_literal = json_string(id.as_str()).unwrap();
                        write_token_binding(status_literal.as_str(), Some(id_literal.as_str()))
                    },
                    None => write_token_binding(status_literal.as_str(), None),
                };
                optional.append(member.as_str());
            },
            None => {
                assert(optional@ + Seq::<char>::empty() =~= optional@);
            },
        }
        assemble_client_data_with(
            challenge_literal.as_str(),
            origin_literal.as_str(),
            optional.as_str(),
        )
    }
}

/// Writes the member `crossOrigin` where it is present.
pub fn write_cross_origin(cross_origin: Option<bool>) -> (member: String)
    ensures
        member@ == cross_origin_member(cross_origin),
{
    match cross_origin {
        Some(true) => String::from_str(",\"crossOrigin\":true"),
        Some(false) => String::from_str(",\"crossOrigin\":false"),
        None => String::new(),
    }
}

/// Writes the member `tokenBinding` around two JSON string literals.
pub fn write_token_binding(status_literal: &str, id_literal: Option<&str>) -> (member: String)
    ensures
        member@ == token_binding_member(
            status_literal@,
            match id_literal {
                Some(literal) => Some(literal@),
                None => None,
            },
        ),
{
    let mut member = String::from_str(",\"tokenBinding\":{\"status\":");
    member.append(status_literal);
    member.append(",\"id\":");
    match id_literal {
        Some(literal) => member.append(literal),
        None => member.append("null"),
    }
    member.append("}");
    member
}

/// Writes the document around two JSON string literals and the text of the
/// optional members.
pub fn assemble_client_data_with(
    challenge_literal: &str,
    origin_literal: &str,
    optional_members: &str,
) -> (document: String)
    ensures
        document@ == client_data_document_with(
            challenge_literal@,
            origin_literal@,
            optional_members@,
        ),
{
    let mut document = String::from_str("{\"type\":\"webauthn.get\",\"challenge\":");
    document.append(challenge_literal);
    document.append(",\"origin\":");
    document.append(origin_literal);
    document.append(optional_members);
    document.append("}");
    document
}

/// Writes the document without optional members around two JSON string
/// literals.
pub fn assemble_client_data(challenge_literal: &str, origin_literal: &str) -> (document: String)
    ensures
        document@ == client_data_document(challenge_literal@, origin_literal@),
{
    let document = assemble_client_data_with(challenge_literal, origin_literal, "");
    proof {
        reveal_strlit("");
        assert(""@ =~= Seq::<char>::empty());
    }
    document
}

/// Builds the client data for a signing operation.
///
/// The origin is parsed as a URL and reduced to scheme, host and port; the
/// challenge is taken as it is. Fails, with `InvalidOrigin`, exactly where
/// the origin does not parse.
pub fn client_data(origin: String, challenge_str: String) -> (r: Result<String, SignError>)
    ensures
        match url_origin_serialization(origin@) {
            Some(normalized) => r matches Ok(document) && document@ == client_data_json(
                challenge_str@,
                normalized,
            ),
            None => r matches Err(e) && e == SignError::InvalidOrigin,
        },
{
    let caller_origin = match serialized_origin(origin.as_str()) {
        Ok(normalized) => normalized,
        Err(_) => {
            return Err(SignError::InvalidOrigin);
        },
    };
    let collected_client_data = CollectedClientData::for_assertion(challenge_str, caller_origin);
    proof {
        lemma_absent_members_leave_no_trace(collected_client_data);
    }
    Ok(collected_client_data.to_json())
}

/// Client data without optional members is the plain document of its
/// challenge and origin: nothing stands for what is absent.
pub proof fn lemma_absent_members_leave_no_trace(data: CollectedClientData)
    requires
        data.cross_origin is None,
        data.token_binding is None,
    ensures
        data.json() == client_data_json(data.challenge@, data.origin@),
{
    assert(data.optional_members() =~= Seq::<char>::empty());
}

/// Whatever the challenge, the origin and the optional members are, the
/// document begins with the member `type`, and its value is `webauthn.get`.
pub proof fn lemma_document_names_the_signing_type(data: CollectedClientData)
    ensures
        "{\"type\":\"webauthn.get\","@.is_prefix_of(data.json()),
        data.json().last() == '}',
{
    reveal_strlit("{\"type\":\"webauthn.get\",");
    reveal_strlit("{\"type\":\"webauthn.get\",\"challenge\":");
    reveal_strlit("}");
    let opening = "{\"type\":\"webauthn.get\","@;
    let first = "{\"type\":\"webauthn.get\",\"challenge\":"@;
    assert(opening =~= first.subrange(0, opening.len() as int));
    assert(first =~= data.json().subrange(0, first.len() as int));
    assert(opening =~= data.json().subrange(0, opening.len() as int));
}

} // verus!
