use vstd::prelude::*;

verus! {

/// The record categories that the remote service manages.
#[derive(Debug, Clone, Copy, PartialEq, Eq, Structural)]
pub enum EntityKind {
    Customer,
    Invoice,
    Article,
}

/// Number of form fields that a create form of `kind` collects.
pub open spec fn required_fields(kind: EntityKind) -> nat {
    match kind {
        EntityKind::Customer => 4,
        EntityKind::Invoice => 3,
        EntityKind::Article => 2,
    }
}

/// Whether field `i` of a create form of `kind` may be left out: such a
/// field submitted empty is sent as "no value".
pub open spec fn field_optional(kind: EntityKind, i: int) -> bool {
    match kind {
        EntityKind::Customer => i == 3,
        EntityKind::Invoice => i == 1,
        EntityKind::Article => false,
    }
}

impl EntityKind {
    pub fn required_fields(&self) -> (r: usize)
        ensures
            r == required_fields(*self),
    {
        match self {
            EntityKind::Customer => 4,
            EntityKind::Invoice => 3,
            EntityKind::Article => 2,
        }
    }

    pub fn field_optional(&self, i: usize) -> (r: bool)
        ensures
            r == field_optional(*self, i as int),
    {
        match self {
            EntityKind::Customer => i == 3,
            EntityKind::Invoice => i == 1,
            EntityKind::Article => false,
        }
    }
}

/// The screens of the session. Detail and edit screens carry the
/// identifier of their record, never a list position.
#[derive(Debug, Clone)]
pub enum Screen {
    Home,
    Auth,
    Dashboard,
    Customers,
    CustomerCreate,
    CustomerEdit(String),
    CustomerDetail(String),
    Invoices,
    InvoiceCreate,
    InvoiceEdit(String),
    InvoiceDetail(String),
    Articles,
    ArticleCreate,
    ArticleEdit(String),
    ArticleDetail(String),
    Search,
    Export,
    Help,
}

/// The list screen of each record kind.
pub open spec fn list_screen(kind: EntityKind) -> Screen {
    match kind {
        EntityKind::Customer => Screen::Customers,
        EntityKind::Invoice => Screen::Invoices,
        EntityKind::Article => Screen::Articles,
    }
}

/// The create screen of each record kind.
pub open spec fn create_screen(kind: EntityKind) -> Screen {
    match kind {
        EntityKind::Customer => Screen::CustomerCreate,
        EntityKind::Invoice => Screen::InvoiceCreate,
        EntityKind::Article => Screen::ArticleCreate,
    }
}

/// The record kind whose list a screen shows, if it is a list screen.
pub open spec fn list_kind(s: Screen) -> Option<EntityKind> {
    match s {
        Screen::Customers => Some(EntityKind::Customer),
        Screen::Invoices => Some(EntityKind::Invoice),
        Screen::Articles => Some(EntityKind::Article),
        _ => None,
    }
}

/// The screens that Tab and Shift+Tab cycle through, in order.
pub open spec fn is_primary(s: Screen) -> bool {
    s is Home || s is Customers || s is Invoices || s is Articles || s is Help
}

/// The primary screen after `s`; any other screen stays.
pub open spec fn next_primary(s: Screen) -> Screen {
    match s {
        Screen::Home => Screen::Customers,
        Screen::Customers => Screen::Invoices,
        Screen::Invoices => Screen::Articles,
        Screen::Articles => Screen::Help,
        Screen::Help => Screen::Home,
        _ => s,
    }
}

/// The primary screen before `s`; any other screen stays.
pub open spec fn prev_primary(s: Screen) -> Screen {
    match s {
        Screen::Home => Screen::Help,
        Screen::Customers => Screen::Home,
        Screen::Invoices => Screen::Customers,
        Screen::Articles => Screen::Invoices,
        Screen::Help => Screen::Articles,
        _ => s,
    }
}

/// `n` steps forward through the primary screens.
pub open spec fn forward(s: Screen, n: nat) -> Screen
    decreases n,
{
    if n == 0 {
        s
    } else {
        forward(next_primary(s), (n - 1) as nat)
    }
}

/// `n` steps back through the primary screens.
pub open spec fn backward(s: Screen, n: nat) -> Screen
    decreases n,
{
    if n == 0 {
        s
    } else {
        backward(prev_primary(s), (n - 1) as nat)
    }
}

proof fn lemma_forward_step(s: Screen, n: nat)
    ensures
        forward(s, n + 1) == next_primary(forward(s, n)),
    decreases n,
{
    if n == 0 {
        assert(forward(next_primary(s), 0) == next_primary(s));
    } else {
        lemma_forward_step(next_primary(s), (n - 1) as nat);
    }
}

/// Cycling forward from a primary screen and then back as many times
/// returns to that screen.
pub proof fn lemma_cycle_round_trip(s: Screen, n: nat)
    requires
        is_primary(s),
    ensures
        backward(forward(s, n), n) == s,
    decreases n,
{
    if n > 0 {
        let m = (n - 1) as nat;
        lemma_forward_step(s, m);
        lemma_cycle_round_trip(s, m);
        assert(prev_primary(next_primary(forward(s, m))) == forward(s, m)) by {
            lemma_forward_primary(s, m);
        }
    }
}

proof fn lemma_forward_primary(s: Screen, n: nat)
    requires
        is_primary(s),
    ensures
        is_primary(forward(s, n)),
    decreases n,
{
    if n > 0 {
        lemma_forward_primary(next_primary(s), (n - 1) as nat);
    }
}

impl Screen {
    /// A copy of this screen, identifiers included.
    pub fn duplicate(&self) -> (r: Screen)
        ensures
            r == *self,
    {
        match self {
            Screen::Home => Screen::Home,
            Screen::Auth => Screen::Auth,
            Screen::Dashboard => Screen::Dashboard,
            Screen::Customers => Screen::Customers,
            Screen::CustomerCreate => Screen::CustomerCreate,
            Screen::CustomerEdit(id) => Screen::CustomerEdit(id.clone()),
            Screen::CustomerDetail(id) => Screen::CustomerDetail(id.clone()),
            Screen::Invoices => Screen::Invoices,
            Screen::InvoiceCreate => Screen::InvoiceCreate,
            Screen::InvoiceEdit(id) => Screen::InvoiceEdit(id.clone()),
            Screen::InvoiceDetail(id) => Screen::InvoiceDetail(id.clone()),
            Screen::Articles => Screen::Articles,
            Screen::ArticleCreate => Screen::ArticleCreate,
            Screen::ArticleEdit(id) => Screen::ArticleEdit(id.clone()),
            Screen::ArticleDetail(id) => Screen::ArticleDetail(id.clone()),
            Screen::Search => Screen::Search,
            Screen::Export => Screen::Export,
            Screen::Help => Screen::Help,
        }
    }

    pub fn list_kind(&self) -> (r: Option<EntityKind>)
        ensures
            r == list_kind(*self),
    {
        match self {
            Screen::Customers => Some(EntityKind::Customer),
            Screen::Invoices => Some(EntityKind::Invoice),
            Screen::Articles => Some(EntityKind::Article),
            _ => None,
        }
    }

    pub fn is_primary(&self) -> (r: bool)
        ensures
            r == is_primary(*self),
    {
        match self {
            Screen::Home | Screen::Customers | Screen::Invoices | Screen::Articles | Screen::Help => true,
            _ => false,
        }
    }

    pub fn next_primary(&self) -> (r: Screen)
        ensures
            r == next_primary(*self),
    {
        match self {
            Screen::Home => Screen::Customers,
            Screen::Customers => Screen::Invoices,
            Screen::Invoices => Screen::Articles,
            Screen::Articles => Screen::Help,
            Screen::Help => Screen::Home,
            _ => self.duplicate(),
        }
    }

    pub fn prev_primary(&self) -> (r: Screen)
        ensures
            r == prev_primary(*self),
    {
        match self {
            Screen::Home => Screen::Help,
            Screen::Customers => Screen::Home,
            Screen::Invoices => Screen::Customers,
            Screen::Articles => Screen::Invoices,
            Screen::Help => Screen::Articles,
            _ => self.duplicate(),
        }
    }
}

/// Whether keys move through screens or type into a form.
#[derive(Debug, Clone, Copy, PartialEq, Eq, Structural)]
pub enum InputMode {
    Normal,
    Editing,
}

} // verus!
