//! Credentials: opaque JSON payloads kept under a type and a name.

use vstd::prelude::*;
use crate::error::{EngineError, ErrorView};
use crate::json::Json;

verus! {

/// One stored credential.
#[derive(Debug)]
pub struct Credential {
    pub credential_type: String,
    pub name: String,
    pub value: serde_json::Value,
}

/// A [`Credential`] by content.
pub struct CredentialView {
    pub credential_type: Seq<char>,
    pub name: Seq<char>,
    pub value: Json,
}

impl View for Credential {
    type V = CredentialView;

    open spec fn view(&self) -> CredentialView {
        CredentialView {
            credential_type: self.credential_type@,
            name: self.name@,
            value: crate::json::value_model(self.value),
        }
    }
}

/// A list of credentials, by content.
pub open spec fn credentials_view(credentials: Seq<Credential>) -> Seq<CredentialView> {
    credentials.map_values(|c: Credential| c@)
}

/// What a credential store answered, by content.
pub open spec fn answer_view(answer: Result<serde_json::Value, EngineError>) -> Result<
    Json,
    ErrorView,
> {
    match answer {
        Ok(value) => Ok(crate::json::value_model(value)),
        Err(e) => Err(e@),
    }
}

/// Where plugins get their credentials from.
///
/// A store may say in `answers` what it can answer to a request; the
/// contracts of the plugins are stated over that. A store that does not say
/// leaves every answer open.
pub trait CredentialStorage: Send + Sync {
    /// Whether the store may give `answer` when asked for the payload kept
    /// for `project` under `credential_type` and `name`.
    open spec fn answers(
        &self,
        project: u128,
        credential_type: Seq<char>,
        name: Seq<char>,
        answer: Result<Json, ErrorView>,
    ) -> bool {
        true
    }

    /// The payload kept for `project` under `credential_type` and `name`.
    fn get_credential(&self, project: u128, credential_type: &str, name: &str) -> (answer: Result<
        serde_json::Value,
        EngineError,
    >)
        ensures
            self.answers(project, credential_type@, name@, answer_view(answer)),
    ;
}

/// The payload of the first credential at or after position `from` with the
/// given type and name.
pub open spec fn first_credential(
    credentials: Seq<CredentialView>,
    credential_type: Seq<char>,
    name: Seq<char>,
    from: int,
) -> Option<Json>
    decreases credentials.len() - from,
{
    if from < 0 || from >= credentials.len() {
        None
    } else if credentials[from].credential_type == credential_type && credentials[from].name
        == name {
        Some(credentials[from].value)
    } else {
        first_credential(credentials, credential_type, name, from + 1)
    }
}

/// What a lookup in a list of credentials gives: the payload of the first
/// credential with the given type and name, or `CredentialNotFound` with
/// both.
pub open spec fn lookup(
    credentials: Seq<CredentialView>,
    credential_type: Seq<char>,
    name: Seq<char>,
) -> Result<Json, ErrorView> {
    match first_credential(credentials, credential_type, name, 0) {
        Some(value) => Ok(value),
        None => Err(ErrorView::CredentialNotFound(credential_type, name)),
    }
}

/// The credentials of one project, as a plain list.
pub struct SimpleCredentials {
    creds: Vec<Credential>,
}

impl View for SimpleCredentials {
    type V = Seq<CredentialView>;

    closed spec fn view(&self) -> Seq<CredentialView> {
        credentials_view(self.creds@)
    }
}

impl SimpleCredentials {
    /// A store that holds `creds`, in their order.
    pub fn new(creds: Vec<Credential>) -> (store: SimpleCredentials)
        ensures
            store@ == credentials_view(creds@),
    {
        SimpleCredentials { creds }
    }
}

impl CredentialStorage for SimpleCredentials {
    /// The answer is what `lookup` finds in the list. The list belongs to
    /// one project, so `project` is not looked at.
    open spec fn answers(
        &self,
        project: u128,
        credential_type: Seq<char>,
        name: Seq<char>,
        answer: Result<Json, ErrorView>,
    ) -> bool {
        answer == lookup(self@, credential_type, name)
    }

    fn get_credential(&self, project: u128, credential_type: &str, name: &str) -> (found: Result<
        serde_json::Value,
        EngineError,
    >)
    {
        let ghost all = self@;
        let mut i: usize = 0;
        while i < self.creds.len()
            invariant
                i <= self.creds.len(),
                all == credentials_view(self.creds@),
                first_credential(all, credential_type@, name@, 0) == first_credential(
                    all,
                    credential_type@,
                    name@,
                    i as int,
                ),
            decreases self.creds.len() - i,
        {
            assert(all[i as int] == self.creds[i as int]@);
            let cred = &self.creds[i];
            if cred.credential_type.as_str().eq(credential_type) && cred.name.as_str().eq(name) {
                return Ok(crate::json::value_clone(&cred.value));
            }
            i += 1;
        }
        Err(EngineError::CredentialNotFound(credential_type.to_owned(), name.to_owned()))
    }
}

} // verus!
