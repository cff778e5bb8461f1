use crate::screen::EntityKind;
use vstd::prelude::*;

verus! {

/// A customer record of the accounting service.
#[derive(Debug, Clone)]
pub struct Customer {
    pub id: Option<String>,
    pub customer_number: Option<String>,
    pub name: Option<String>,
    pub email: Option<String>,
    pub phone: Option<String>,
    pub website: Option<String>,
    pub is_active: Option<bool>,
}

impl Default for Customer {
    fn default() -> (r: Customer)
        ensures
            r.id is None,
            r.customer_number is None,
            r.name is None,
            r.email is None,
            r.phone is None,
            r.website is None,
            r.is_active is None,
    {
        Customer {
            id: None,
            customer_number: None,
            name: None,
            email: None,
            phone: None,
            website: None,
            is_active: None,
        }
    }
}

/// An invoice record of the accounting service.
#[derive(Debug, Clone)]
pub struct Invoice {
    pub id: Option<String>,
    pub invoice_number: Option<String>,
    pub customer_id: Option<String>,
    pub remarks: Option<String>,
}

impl Default for Invoice {
    fn default() -> (r: Invoice)
        ensures
            r.id is None,
            r.invoice_number is None,
            r.customer_id is None,
            r.remarks is None,
    {
        Invoice { id: None, invoice_number: None, customer_id: None, remarks: None }
    }
}

/// An article (product or service) record of the accounting service.
#[derive(Debug, Clone)]
pub struct Article {
    pub id: Option<String>,
    pub number: Option<String>,
    pub name: Option<String>,
    pub is_active: Option<bool>,
}

impl Default for Article {
    fn default() -> (r: Article)
        ensures
            r.id is None,
            r.number is None,
            r.name is None,
            r.is_active is None,
    {
        Article { id: None, number: None, name: None, is_active: None }
    }
}

/// The access credential that authorises calls to the service. The expiry
/// is an absolute time in seconds since the Unix epoch.
#[derive(Debug, Clone)]
pub struct Credential {
    pub access_token: String,
    pub expires_at: u64,
    pub refresh_token: Option<String>,
}

impl Credential {
    pub fn new(access_token: String, expires_at: u64, refresh_token: Option<String>) -> (r: Credential)
        ensures
            r.access_token == access_token,
            r.expires_at == expires_at,
            r.refresh_token == refresh_token,
    {
        Credential { access_token, expires_at, refresh_token }
    }

    /// The credential of a stored record, or `None` where the record lacks
    /// the token or the expiry: a damaged record counts as no credential.
    pub fn from_record(
        access_token: Option<String>,
        expires_at: Option<u64>,
        refresh_token: Option<String>,
    ) -> (r: Option<Credential>)
        ensures
            r is Some <==> access_token is Some && expires_at is Some,
            r matches Some(c) ==> Some(c.access_token) == access_token && Some(c.expires_at)
                == expires_at && c.refresh_token == refresh_token,
    {
        match (access_token, expires_at) {
            (Some(access_token), Some(expires_at)) => Some(
                Credential { access_token, expires_at, refresh_token },
            ),
            _ => None,
        }
    }

    pub fn duplicate(&self) -> (r: Credential)
        ensures
            r == *self,
    {
        let refresh_token = match &self.refresh_token {
            Some(t) => Some(t.clone()),
            None => None,
        };
        Credential {
            access_token: self.access_token.clone(),
            expires_at: self.expires_at,
            refresh_token,
        }
    }
}

/// Which page of a list to fetch, and how many records a page holds.
/// `None` leaves the choice to the service (the first page, its default size).
#[derive(Debug, Clone, Copy, PartialEq, Eq, Structural)]
pub struct PaginationParams {
    pub page: Option<u32>,
    pub pagesize: Option<u32>,
}

impl PaginationParams {
    pub fn new() -> (r: PaginationParams)
        ensures
            r.page is None,
            r.pagesize is None,
    {
        PaginationParams { page: None, pagesize: None }
    }

    pub fn page(self, page: u32) -> (r: PaginationParams)
        ensures
            r.page == Some(page),
            r.pagesize == self.pagesize,
    {
        PaginationParams { page: Some(page), ..self }
    }

    pub fn pagesize(self, pagesize: u32) -> (r: PaginationParams)
        ensures
            r.page == self.page,
            r.pagesize == Some(pagesize),
    {
        PaginationParams { pagesize: Some(pagesize), ..self }
    }
}

/// A list call for the remote service to perform. It holds its own copy of
/// everything it needs, so it can run apart from the session.
#[derive(Debug, Clone)]
pub struct ListRequest {
    pub kind: EntityKind,
    pub access_token: String,
    pub params: PaginationParams,
}

/// A create call for the remote service to perform: one value per form
/// field, `None` for an optional field left empty.
#[derive(Debug, Clone)]
pub struct CreateRequest {
    pub kind: EntityKind,
    pub access_token: String,
    pub fields: Vec<Option<String>>,
}

/// The calls that can be made for one record kind.
#[derive(Debug, Clone)]
pub struct Endpoint {
    pub kind: EntityKind,
    pub access_token: String,
}

impl Endpoint {
    pub fn list(&self, params: PaginationParams) -> (r: ListRequest)
        ensures
            r.kind == self.kind,
            r.access_token@ == self.access_token@,
            r.params == params,
    {
        ListRequest { kind: self.kind, access_token: self.access_token.clone(), params }
    }

    pub fn create(&self, fields: Vec<Option<String>>) -> (r: CreateRequest)
        ensures
            r.kind == self.kind,
            r.access_token@ == self.access_token@,
            r.fields == fields,
    {
        CreateRequest { kind: self.kind, access_token: self.access_token.clone(), fields }
    }
}

/// A client of the accounting service, bound to one credential.
#[derive(Debug, Clone)]
pub struct Client {
    pub token: Credential,
}

impl Client {
    pub fn new(token: Credential) -> (r: Client)
        ensures
            r.token == token,
    {
        Client { token }
    }

    pub fn get_access_token(&self) -> (r: &Credential)
        ensures
            *r == self.token,
    {
        &self.token
    }

    pub fn endpoint(&self, kind: EntityKind) -> (r: Endpoint)
        ensures
            r.kind == kind,
            r.access_token@ == self.token.access_token@,
    {
        Endpoint { kind, access_token: self.token.access_token.clone() }
    }

    /// The customer calls.
    pub fn customers(&self) -> (r: Endpoint)
        ensures
            r.kind == EntityKind::Customer,
            r.access_token@ == self.token.access_token@,
    {
        self.endpoint(EntityKind::Customer)
    }

    /// The invoice calls.
    pub fn invoices(&self) -> (r: Endpoint)
        ensures
            r.kind == EntityKind::Invoice,
            r.access_token@ == self.token.access_token@,
    {
        self.endpoint(EntityKind::Invoice)
    }

    /// The article calls.
    pub fn articles(&self) -> (r: Endpoint)
        ensures
            r.kind == EntityKind::Article,
            r.access_token@ == self.token.access_token@,
    {
        self.endpoint(EntityKind::Article)
    }
}

} // verus!
