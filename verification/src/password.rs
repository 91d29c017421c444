//! The request and the answer of a credential lookup. The store itself
//! belongs to the operating system: the program asks it with the attributes
//! built here and hands back what it found.

use vstd::prelude::*;
use vstd::string::StringExecFns;

verus! {

/// Why a lookup gave no password.
#[derive(Clone, Copy, Debug, PartialEq, Eq, Structural)]
pub enum PasswordError {
    /// The store holds nothing under the attributes.
    NotFound,
}

impl PasswordError {
    /// The text of the error.
    pub fn message(&self) -> (text: String)
        ensures
            text@ == "No password found"@,
    {
        match self {
            PasswordError::NotFound => "No password found".to_owned(),
        }
    }
}

/// One attribute of a stored secret: its name and its value.
pub struct Attribute {
    /// The attribute's name.
    pub name: String,
    /// The attribute's value.
    pub value: String,
}

/// The attributes that identify the secret of `account` at `service`: the
/// service under `service`, then the account under `account`.
pub fn build_attributes(service: &str, account: &str) -> (attributes: Vec<Attribute>)
    ensures
        attributes@.len() == 2,
        attributes@[0].name@ == "service"@,
        attributes@[0].value@ == service@,
        attributes@[1].name@ == "account"@,
        attributes@[1].value@ == account@,
{
    let mut attributes: Vec<Attribute> = Vec::new();
    attributes.push(Attribute { name: "service".to_owned(), value: service.to_owned() });
    attributes.push(Attribute { name: "account".to_owned(), value: account.to_owned() });
    attributes
}

/// The label under which the secret of `account` at `service` is stored:
/// the service, a slash, the account.
pub fn label(service: &str, account: &str) -> (label: String)
    ensures
        label@ == service@ + "/"@ + account@,
{
    let mut label: String = service.to_owned();
    label.append("/");
    label.append(account);
    label
}

/// The view of a lookup's outcome.
pub open spec fn outcome_view(r: Result<String, PasswordError>) -> Result<Seq<char>, PasswordError> {
    match r {
        Ok(s) => Ok(s@),
        Err(e) => Err(e),
    }
}

/// What a lookup yields, by what the store found.
pub open spec fn lookup_result(found: Option<Seq<char>>) -> Result<Seq<char>, PasswordError> {
    match found {
        Some(password) => Ok(password),
        None => Err(PasswordError::NotFound),
    }
}

/// The view of what a store found.
pub open spec fn found_view(found: Option<String>) -> Option<Seq<char>> {
    match found {
        Some(s) => Some(s@),
        None => None,
    }
}

/// Turns what the store found into the lookup's outcome: the password, or
/// `NotFound` where the store holds none.
pub fn get_password(found: Option<String>) -> (r: Result<String, PasswordError>)
    ensures
        outcome_view(r) == lookup_result(found_view(found)),
{
    match found {
        Some(password) => Ok(password),
        None => Err(PasswordError::NotFound),
    }
}

/// The lookup of a secret that an earlier keychain binding stored: it is
/// found and answered as any other.
pub fn get_password_keytar(found: Option<String>) -> (r: Result<String, PasswordError>)
    ensures
        outcome_view(r) == lookup_result(found_view(found)),
{
    get_password(found)
}

/// The name under which a secret service registers on the session bus.
pub open spec fn secret_service_name() -> Seq<char> {
    "org.freedesktop.secrets"@
}

/// Tells from the names registered on the session bus whether a secret
/// service runs: whether its name is among them.
pub fn has_password_management(names: &Vec<String>) -> (found: bool)
    ensures
        found == exists|i: int| 0 <= i < names@.len() && (#[trigger] names@[i])@
            == secret_service_name(),
{
    let wanted: String = "org.freedesktop.secrets".to_owned();
    let mut i: usize = 0;
    while i < names.len()
        invariant
            i <= names.len(),
            wanted@ == secret_service_name(),
            forall|k: int| 0 <= k < i ==> (#[trigger] names@[k])@ != secret_service_name(),
        decreases names.len() - i,
    {
        if names[i] == wanted {
            return true;
        }
        i = i + 1;
    }
    false
}

} // verus!
