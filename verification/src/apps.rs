//! OAuth client applications: the record, its public view, and creation
//! with a freshly drawn client identifier.

use vstd::prelude::*;

use crate::crypto::{is_alphanumeric_char, random_alphanumeric};

verus! {

/// Whether an application's clients can keep a secret.
#[derive(Debug, Clone, Copy, PartialEq, Eq, Structural)]
pub enum ClientType {
    /// Browser or native clients that cannot hold a secret.
    Public,
    /// Server-side clients that authenticate with a secret.
    Confidential,
}

/// A registered client application.
#[derive(Debug, Clone, PartialEq, Eq)]
pub struct Application {
    pub id: String,
    pub name: String,
    pub slug: String,
    pub icon: String,
    pub client_type: ClientType,
    pub client_id: String,
    pub client_secret: Option<String>,
    pub redirect_uris: Vec<String>,
    pub allowed_groups: Vec<String>,
}

/// The public view of an application: everything but the client secret.
#[derive(Debug, Clone, PartialEq, Eq)]
pub struct PublicApplication {
    pub id: String,
    pub name: String,
    pub slug: String,
    pub icon: String,
    pub client_type: ClientType,
    pub client_id: String,
    pub redirect_uris: Vec<String>,
    pub allowed_groups: Vec<String>,
}

/// The submitted form for creating or editing an application.
#[derive(Debug, Clone, PartialEq, Eq)]
pub struct EditApplicationBody {
    pub name: String,
    pub slug: String,
    pub icon: String,
    pub client_type: ClientType,
    pub redirect_uris: Vec<String>,
    pub allowed_groups: Vec<String>,
}

impl Application {
    /// The public view of this application; the client secret never
    /// leaves.
    pub fn to_public(&self) -> (r: PublicApplication)
        ensures
            r.id@ == self.id@,
            r.name@ == self.name@,
            r.slug@ == self.slug@,
            r.icon@ == self.icon@,
            r.client_type == self.client_type,
            r.client_id@ == self.client_id@,
            r.redirect_uris@ == self.redirect_uris@,
            r.allowed_groups@ == self.allowed_groups@,
    {
        PublicApplication {
            id: self.id.clone(),
            name: self.name.clone(),
            slug: self.slug.clone(),
            icon: self.icon.clone(),
            client_type: self.client_type,
            client_id: self.client_id.clone(),
            redirect_uris: clone_strings(&self.redirect_uris),
            allowed_groups: clone_strings(&self.allowed_groups),
        }
    }
}

/// Clone a vector of strings, element for element.
fn clone_strings(v: &Vec<String>) -> (r: Vec<String>)
    ensures
        r@ == v@,
{
    let mut out: Vec<String> = Vec::new();
    let mut i: usize = 0;
    while i < v.len()
        invariant
            i <= v@.len(),
            out@ =~= v@.take(i as int),
        decreases v@.len() - i,
    {
        out.push(v[i].clone());
        i = i + 1;
    }
    proof {
        assert(v@.take(v@.len() as int) =~= v@);
        assert(out@ =~= v@);
    }
    out
}

/// Draw a fresh 24-character alphanumeric client identifier.
pub fn generate_client_id() -> (r: String)
    ensures
        r@.len() == 24,
        forall|i: int| 0 <= i < r@.len() ==> is_alphanumeric_char(#[trigger] r@[i]),
{
    random_alphanumeric(24)
}

/// Build a new application record from the submitted form: a fresh client
/// identifier, no client secret yet, and an empty record identifier for
/// the persistence layer to assign on insert.
pub fn create_application(body: &EditApplicationBody) -> (r: Application)
    ensures
        r.id@.len() == 0,
        r.name@ == body.name@,
        r.slug@ == body.slug@,
        r.icon@ == body.icon@,
        r.client_type == body.client_type,
        r.client_id@.len() == 24,
        r.client_secret is None,
        r.redirect_uris@ == body.redirect_uris@,
        r.allowed_groups@ == body.allowed_groups@,
{
    Application {
        id: String::new(),
        name: body.name.clone(),
        slug: body.slug.clone(),
        icon: body.icon.clone(),
        client_type: body.client_type,
        client_id: generate_client_id(),
        client_secret: None,
        redirect_uris: clone_strings(&body.redirect_uris),
        allowed_groups: clone_strings(&body.allowed_groups),
    }
}

} // verus!
