use crate::collection::{CollectionState, clamp_selection};
use crate::form::{FormBuffer, completes_form, payload_field};
use crate::records::{
    Article, Client, CreateRequest, Credential, Customer, Invoice, ListRequest, PaginationParams,
};
use crate::screen::{
    EntityKind, InputMode, Screen, create_screen, is_primary, list_kind, list_screen,
    next_primary, prev_primary, required_fields,
};
use crate::text::{joined, opt_text};
use vstd::prelude::*;

verus! {

/// Number of entries of the home menu.
pub const HOME_MENU_ITEMS: usize = 5;

/// Number of records that one list call asks for.
pub const LIST_PAGE_SIZE: u32 = 50;

/// The screen that each entry of the home menu opens.
pub open spec fn home_target(i: int) -> Screen {
    if i == 0 {
        Screen::Customers
    } else if i == 1 {
        Screen::Invoices
    } else if i == 2 {
        Screen::CustomerCreate
    } else if i == 3 {
        Screen::InvoiceCreate
    } else {
        Screen::Help
    }
}

/// Whether `r` lists the first page of `kind` with the credential of `c`.
pub open spec fn is_list_request(r: ListRequest, kind: EntityKind, c: Client) -> bool {
    &&& r.kind == kind
    &&& r.access_token@ == c.token.access_token@
    &&& r.params == PaginationParams { page: None, pagesize: Some(LIST_PAGE_SIZE) }
}

/// The message shown when a list call of `kind` failed, before the cause.
pub open spec fn load_failure_prefix(kind: EntityKind) -> Seq<char> {
    match kind {
        EntityKind::Customer => "Failed to load customers: "@,
        EntityKind::Invoice => "Failed to load invoices: "@,
        EntityKind::Article => "Failed to load articles: "@,
    }
}

/// The message shown when a record of `kind` was created.
pub open spec fn created_message(kind: EntityKind) -> Seq<char> {
    match kind {
        EntityKind::Customer => "Customer created successfully"@,
        EntityKind::Invoice => "Invoice created successfully"@,
        EntityKind::Article => "Article created successfully"@,
    }
}

/// The message shown when a create call of `kind` failed, before the cause.
pub open spec fn create_failure_prefix(kind: EntityKind) -> Seq<char> {
    match kind {
        EntityKind::Customer => "Failed to create customer: "@,
        EntityKind::Invoice => "Failed to create invoice: "@,
        EntityKind::Article => "Failed to create article: "@,
    }
}

/// The message shown while the authorization URL is being asked for.
pub open spec fn authorizing_message() -> Seq<char> {
    "Starting OAuth flow..."@
}

/// The message shown once the authorization URL is there.
pub open spec fn authorization_url_message() -> Seq<char> {
    "Copy the URL above and open in browser"@
}

/// The message shown when no authorization URL could be had, before the cause.
pub open spec fn authorization_failure_prefix() -> Seq<char> {
    "Failed to start authorization: "@
}

fn load_failure_text(kind: EntityKind) -> (r: &'static str)
    ensures
        r@ == load_failure_prefix(kind),
{
    match kind {
        EntityKind::Customer => "Failed to load customers: ",
        EntityKind::Invoice => "Failed to load invoices: ",
        EntityKind::Article => "Failed to load articles: ",
    }
}

fn created_text(kind: EntityKind) -> (r: &'static str)
    ensures
        r@ == created_message(kind),
{
    match kind {
        EntityKind::Customer => "Customer created successfully",
        EntityKind::Invoice => "Invoice created successfully",
        EntityKind::Article => "Article created successfully",
    }
}

fn create_failure_text(kind: EntityKind) -> (r: &'static str)
    ensures
        r@ == create_failure_prefix(kind),
{
    match kind {
        EntityKind::Customer => "Failed to create customer: ",
        EntityKind::Invoice => "Failed to create invoice: ",
        EntityKind::Article => "Failed to create article: ",
    }
}

/// Work that the session hands to its surroundings. The result of a load
/// or refresh comes back through `App::apply_list`, that of a create
/// through `App::finish_create`, that of authorization through
/// `App::authorization_started` or `App::authorization_failed`.
#[derive(Debug)]
pub enum Effect {
    Nothing,
    /// Ask the authorization service for a URL for the user to visit.
    Authorize,
    /// Perform a list call now, before the next key is read.
    Load(ListRequest),
    /// Perform a list call in the background.
    Refresh(ListRequest),
    /// Perform a create call now, before the next key is read.
    Create(CreateRequest),
}

/// What a list call brought back.
#[derive(Debug)]
pub enum ListOutcome {
    Customers(Vec<Customer>),
    Invoices(Vec<Invoice>),
    Articles(Vec<Article>),
    Failed(EntityKind, String),
}

/// The whole state of an interactive session.
pub struct App {
    pub screen: Screen,
    pub previous_screen: Option<Screen>,
    pub input_mode: InputMode,
    pub client: Option<Client>,
    pub customers: CollectionState<Customer>,
    pub invoices: CollectionState<Invoice>,
    pub articles: CollectionState<Article>,
    pub menu_selected: usize,
    pub form: FormBuffer,
    pub status_message: Option<String>,
    pub error_message: Option<String>,
    pub oauth_url: Option<String>,
    pub oauth_waiting: bool,
}

impl App {
    /// The invariant of a session: each list's selection points at a
    /// record (or is 0), the menu selection at an entry, a form is held
    /// only while editing, and one being edited still lacks a field.
    pub open spec fn wf(&self) -> bool {
        &&& self.customers.wf()
        &&& self.invoices.wf()
        &&& self.articles.wf()
        &&& self.menu_selected < HOME_MENU_ITEMS
        &&& self.input_mode == InputMode::Normal ==> self.form.is_clear()
        &&& self.input_mode == InputMode::Editing ==> self.form.collected.len() < required_fields(
            self.form.kind,
        )
    }

    /// The session with the list of `kind` marked as loading.
    pub open spec fn load_started(self, kind: EntityKind) -> App {
        match kind {
            EntityKind::Customer => App {
                customers: CollectionState { loading: true, last_error: None, ..self.customers },
                ..self
            },
            EntityKind::Invoice => App {
                invoices: CollectionState { loading: true, last_error: None, ..self.invoices },
                ..self
            },
            EntityKind::Article => App {
                articles: CollectionState { loading: true, last_error: None, ..self.articles },
                ..self
            },
        }
    }

    /// The session after a list call of `kind` was asked for: marked as
    /// loading where there is a client to make the call.
    pub open spec fn after_load_request(self, kind: EntityKind) -> App {
        if self.client is Some {
            self.load_started(kind)
        } else {
            self
        }
    }

    /// `r` is the list call of `kind` that `self` makes, or nothing
    /// without a client.
    pub open spec fn load_request(self, kind: EntityKind, r: Option<ListRequest>) -> bool {
        match self.client {
            Some(c) => r matches Some(req) && is_list_request(req, kind, c),
            None => r is None,
        }
    }

    /// `r` is the effect of asking for a list call of `kind`: a load where
    /// there is a client to make it, else nothing.
    pub open spec fn load_effect(self, kind: EntityKind, r: Effect) -> bool {
        match self.client {
            Some(c) => r matches Effect::Load(req) && is_list_request(req, kind, c),
            None => r is Nothing,
        }
    }

    /// The session once a create form of `kind` is opened, empty.
    pub open spec fn form_started(self, next: App, kind: EntityKind) -> bool {
        &&& next == (App { input_mode: InputMode::Editing, form: next.form, ..self })
        &&& next.form.kind == kind
        &&& next.form.is_clear()
    }

    /// The detail screen that Enter opens on the list of `kind`: that of
    /// the selected record, if there is one and it has an identifier.
    pub open spec fn selected_detail(self, kind: EntityKind) -> Option<Screen> {
        match kind {
            EntityKind::Customer => if self.customers.items.len() > 0 {
                match self.customers.items@[self.customers.selected as int].id {
                    Some(id) => Some(Screen::CustomerDetail(id)),
                    None => None,
                }
            } else {
                None
            },
            EntityKind::Invoice => if self.invoices.items.len() > 0 {
                match self.invoices.items@[self.invoices.selected as int].id {
                    Some(id) => Some(Screen::InvoiceDetail(id)),
                    None => None,
                }
            } else {
                None
            },
            EntityKind::Article => if self.articles.items.len() > 0 {
                match self.articles.items@[self.articles.selected as int].id {
                    Some(id) => Some(Screen::ArticleDetail(id)),
                    None => None,
                }
            } else {
                None
            },
        }
    }

    /// Enter while editing a form: the typed text becomes the next field.
    /// With that the form is complete when its kind needs no more fields;
    /// then it is cleared, editing ends, and its fields go out in one create
    /// call (where there is a client to make it).
    pub open spec fn enter_while_editing(self, next: App, r: Effect) -> bool {
        let kind = self.form.kind;
        let fields = self.form.collected@.push(self.form.live);
        if completes_form(kind, self.form.collected.len() as nat) {
            &&& next == (App { input_mode: InputMode::Normal, form: next.form, ..self })
            &&& next.form.kind == kind
            &&& next.form.is_clear()
            &&& match self.client {
                Some(c) => {
                    &&& r matches Effect::Create(req)
                    &&& req.kind == kind
                    &&& req.access_token@ == c.token.access_token@
                    &&& req.fields@.len() == fields.len()
                    &&& forall|i: int|
                        0 <= i < fields.len() ==> opt_text(#[trigger] req.fields@[i])
                            == payload_field(kind, i, fields[i]@)
                },
                None => r is Nothing,
            }
        } else {
            &&& next == (App { form: next.form, ..self })
            &&& next.form.kind == kind
            &&& next.form.collected@ == fields
            &&& next.form.live@.len() == 0
            &&& r is Nothing
        }
    }

    /// Enter outside a form: on home, opens the selected menu entry (a list
    /// is loaded, a create form opened); on a list, opens the selected
    /// record, remembering the list; on the authorization screen, asks for
    /// an authorization URL unless that is under way.
    pub open spec fn enter_while_normal(self, next: App, r: Effect) -> bool {
        match self.screen {
            Screen::Home => {
                let target = home_target(self.menu_selected as int);
                match target {
                    Screen::Customers => next == (App { screen: target, ..self }).after_load_request(
                        EntityKind::Customer,
                    ) && self.load_effect(EntityKind::Customer, r),
                    Screen::Invoices => next == (App { screen: target, ..self }).after_load_request(
                        EntityKind::Invoice,
                    ) && self.load_effect(EntityKind::Invoice, r),
                    Screen::CustomerCreate => (App { screen: target, ..self }).form_started(
                        next,
                        EntityKind::Customer,
                    ) && r is Nothing,
                    Screen::InvoiceCreate => (App { screen: target, ..self }).form_started(
                        next,
                        EntityKind::Invoice,
                    ) && r is Nothing,
                    _ => next == (App { screen: target, ..self }) && r is Nothing,
                }
            },
            Screen::Auth => if self.oauth_waiting {
                next == self && r is Nothing
            } else {
                &&& next == (App {
                    oauth_waiting: true,
                    status_message: next.status_message,
                    ..self
                })
                &&& opt_text(next.status_message) == Some(authorizing_message())
                &&& r is Authorize
            },
            _ => r is Nothing && match list_kind(self.screen) {
                Some(kind) => match self.selected_detail(kind) {
                    Some(d) => next == (App {
                        previous_screen: Some(list_screen(kind)),
                        screen: d,
                        ..self
                    }),
                    None => next == self,
                },
                None => next == self,
            },
        }
    }

    /// A typed character while editing goes into the field being typed.
    /// Outside a form: `r` refreshes the list on screen in the background
    /// (with a client), `n` opens the create form of that list
    /// (remembering the list), `h` and `?` open help.
    pub open spec fn char_outcome(self, c: char, next: App, r: Effect) -> bool {
        if self.input_mode == InputMode::Editing {
            &&& next == (App { form: next.form, ..self })
            &&& next.form.kind == self.form.kind
            &&& next.form.collected == self.form.collected
            &&& next.form.live@ == self.form.live@.push(c)
            &&& r is Nothing
        } else if c == 'r' {
            match (self.client, list_kind(self.screen)) {
                (Some(cl), Some(kind)) => {
                    &&& next == self.load_started(kind)
                    &&& r matches Effect::Refresh(req)
                    &&& is_list_request(req, kind, cl)
                },
                _ => next == self && r is Nothing,
            }
        } else if c == 'n' {
            r is Nothing && match list_kind(self.screen) {
                Some(kind) => (App {
                    previous_screen: Some(list_screen(kind)),
                    screen: create_screen(kind),
                    ..self
                }).form_started(next, kind),
                None => next == self,
            }
        } else if c == 'h' || c == '?' {
            next == (App { screen: Screen::Help, ..self }) && r is Nothing
        } else {
            next == self && r is Nothing
        }
    }

    /// Tab and Shift+Tab: with a client, a primary screen gives way to
    /// `target`, whose list (if it shows one) is loaded; else nothing moves.
    pub open spec fn cycle_outcome(self, target: Screen, next: App, r: Effect) -> bool {
        if self.client is Some && is_primary(self.screen) {
            match list_kind(target) {
                Some(kind) => next == (App { screen: target, ..self }).after_load_request(kind)
                    && self.load_effect(kind, r),
                None => next == (App { screen: target, ..self }) && r is Nothing,
            }
        } else {
            next == self && r is Nothing
        }
    }

    /// `self` is `before` after a list call of `kind` failed with `cause`:
    /// that list keeps its records and selection, stops loading and holds
    /// the cause; the other lists are as they were.
    pub open spec fn list_failed(self, before: App, kind: EntityKind, cause: Seq<char>) -> bool {
        &&& kind != EntityKind::Customer ==> self.customers == before.customers
        &&& kind != EntityKind::Invoice ==> self.invoices == before.invoices
        &&& kind != EntityKind::Article ==> self.articles == before.articles
        &&& match kind {
            EntityKind::Customer => self.customers.items == before.customers.items
                && self.customers.selected == before.customers.selected && !self.customers.loading
                && opt_text(self.customers.last_error) == Some(cause),
            EntityKind::Invoice => self.invoices.items == before.invoices.items
                && self.invoices.selected == before.invoices.selected && !self.invoices.loading
                && opt_text(self.invoices.last_error) == Some(cause),
            EntityKind::Article => self.articles.items == before.articles.items
                && self.articles.selected == before.articles.selected && !self.articles.loading
                && opt_text(self.articles.last_error) == Some(cause),
        }
    }

    /// A new session. With a stored credential it opens on the home
    /// screen, signed in; without one, on the authorization screen.
    pub fn new(token: Option<Credential>) -> (r: App)
        ensures
            r.wf(),
            r.screen == (if token is Some {
                Screen::Home
            } else {
                Screen::Auth
            }),
            r.client == (match token {
                Some(t) => Some(Client { token: t }),
                None => None,
            }),
            r.previous_screen is None,
            r.input_mode == InputMode::Normal,
            r.customers.items.len() == 0 && !r.customers.loading && r.customers.last_error is None,
            r.invoices.items.len() == 0 && !r.invoices.loading && r.invoices.last_error is None,
            r.articles.items.len() == 0 && !r.articles.loading && r.articles.last_error is None,
            r.menu_selected == 0,
            r.status_message is None,
            r.error_message is None,
            r.oauth_url is None,
            !r.oauth_waiting,
    {
        let screen = match &token {
            Some(_) => Screen::Home,
            None => Screen::Auth,
        };
        let client = match token {
            Some(t) => Some(Client::new(t)),
            None => None,
        };
        App {
            screen,
            previous_screen: None,
            input_mode: InputMode::Normal,
            client,
            customers: CollectionState::new(),
            invoices: CollectionState::new(),
            articles: CollectionState::new(),
            menu_selected: 0,
            form: FormBuffer::new(EntityKind::Customer),
            status_message: None,
            error_message: None,
            oauth_url: None,
            oauth_waiting: false,
        }
    }

    /// Whether the process may exit: only outside a form being edited.
    pub fn can_quit(&self) -> (r: bool)
        ensures
            r == (self.input_mode == InputMode::Normal),
            !r == (self.input_mode == InputMode::Editing),
    {
        match self.input_mode {
            InputMode::Normal => true,
            InputMode::Editing => false,
        }
    }

    /// Escape: aborts a form being edited, discarding all of it; else
    /// returns to the remembered screen (clearing the error), or home.
    pub fn handle_escape(&mut self)
        requires
            old(self).wf(),
        ensures
            final(self).wf(),
            old(self).input_mode == InputMode::Editing ==> *final(self) == (App {
                input_mode: InputMode::Normal,
                form: final(self).form,
                ..*old(self)
            }) && final(self).form.is_clear() && final(self).form.kind == old(self).form.kind,
            old(self).input_mode == InputMode::Normal ==> (match old(self).previous_screen {
                Some(p) => *final(self) == (App {
                    screen: p,
                    previous_screen: None,
                    error_message: None,
                    ..*old(self)
                }),
                None => *final(self) == (App { screen: Screen::Home, ..*old(self) }),
            }),
    {
        match self.input_mode {
            InputMode::Editing => {
                self.input_mode = InputMode::Normal;
                self.form.clear();
            },
            InputMode::Normal => {
                let prev = self.previous_screen.take();
                match prev {
                    Some(p) => {
                        self.screen = p;
                        self.error_message = None;
                    },
                    None => {
                        self.screen = Screen::Home;
                    },
                }
            },
        }
    }

    /// Up: one record up on a list screen, one entry up on the home menu.
    pub fn handle_up(&mut self)
        requires
            old(self).wf(),
        ensures
            final(self).wf(),
            *final(self) == (App {
                customers: final(self).customers,
                invoices: final(self).invoices,
                articles: final(self).articles,
                menu_selected: final(self).menu_selected,
                ..*old(self)
            }),
            final(self).customers == (if old(self).screen is Customers {
                old(self).customers.moved_up()
            } else {
                old(self).customers
            }),
            final(self).invoices == (if old(self).screen is Invoices {
                old(self).invoices.moved_up()
            } else {
                old(self).invoices
            }),
            final(self).articles == (if old(self).screen is Articles {
                old(self).articles.moved_up()
            } else {
                old(self).articles
            }),
            final(self).menu_selected == (if old(self).screen is Home {
                (if old(self).menu_selected > 0 {
                old(self).menu_selected - 1
            } else {
                0
            })
            } else {
                old(self).menu_selected as int
            }),
    {
        match self.screen {
            Screen::Customers => self.customers.move_up(),
            Screen::Invoices => self.invoices.move_up(),
            Screen::Articles => self.articles.move_up(),
            Screen::Home => {
                if self.menu_selected > 0 {
                    self.menu_selected = self.menu_selected - 1;
                }
            },
            _ => {},
        }
    }

    /// Down: one record down on a list screen, one entry down on the home
    /// menu, stopping at the last.
    pub fn handle_down(&mut self)
        requires
            old(self).wf(),
        ensures
            final(self).wf(),
            *final(self) == (App {
                customers: final(self).customers,
                invoices: final(self).invoices,
                articles: final(self).articles,
                menu_selected: final(self).menu_selected,
                ..*old(self)
            }),
            final(self).customers == (if old(self).screen is Customers {
                old(self).customers.moved_down()
            } else {
                old(self).customers
            }),
            final(self).invoices == (if old(self).screen is Invoices {
                old(self).invoices.moved_down()
            } else {
                old(self).invoices
            }),
            final(self).articles == (if old(self).screen is Articles {
                old(self).articles.moved_down()
            } else {
                old(self).articles
            }),
            final(self).menu_selected == (if old(self).screen is Home {
                (if old(self).menu_selected + 1 < HOME_MENU_ITEMS {
                old(self).menu_selected + 1
            } else {
                old(self).menu_selected as int
            })
            } else {
                old(self).menu_selected as int
            }),
    {
        match self.screen {
            Screen::Customers => self.customers.move_down(),
            Screen::Invoices => self.invoices.move_down(),
            Screen::Articles => self.articles.move_down(),
            Screen::Home => {
                if self.menu_selected + 1 < HOME_MENU_ITEMS {
                    self.menu_selected = self.menu_selected + 1;
                }
            },
            _ => {},
        }
    }

    /// Asks for the first page of the list of `kind`, marking it as loading.
    /// Nothing happens without a client.
    pub fn request_list(&mut self, kind: EntityKind) -> (r: Option<ListRequest>)
        ensures
            *final(self) == old(self).after_load_request(kind),
            old(self).load_request(kind, r),
    {
        match &self.client {
            Some(c) => {
                let params = PaginationParams::new().pagesize(LIST_PAGE_SIZE);
                let req = match kind {
                    EntityKind::Customer => c.customers().list(params),
                    EntityKind::Invoice => c.invoices().list(params),
                    EntityKind::Article => c.articles().list(params),
                };
                match kind {
                    EntityKind::Customer => self.customers.begin_load(),
                    EntityKind::Invoice => self.invoices.begin_load(),
                    EntityKind::Article => self.articles.begin_load(),
                }
                Some(req)
            },
            None => None,
        }
    }

    fn load_list(&mut self, kind: EntityKind) -> (r: Effect)
        ensures
            *final(self) == old(self).after_load_request(kind),
            old(self).load_effect(kind, r),
    {
        match self.request_list(kind) {
            Some(req) => Effect::Load(req),
            None => Effect::Nothing,
        }
    }

    /// Asks for the first page of customers; see `request_list`.
    pub fn load_customers(&mut self) -> (r: Option<ListRequest>)
        ensures
            *final(self) == old(self).after_load_request(EntityKind::Customer),
            old(self).load_request(EntityKind::Customer, r),
    {
        self.request_list(EntityKind::Customer)
    }

    /// Asks for the first page of invoices; see `request_list`.
    pub fn load_invoices(&mut self) -> (r: Option<ListRequest>)
        ensures
            *final(self) == old(self).after_load_request(EntityKind::Invoice),
            old(self).load_request(EntityKind::Invoice, r),
    {
        self.request_list(EntityKind::Invoice)
    }

    /// Asks for the first page of articles; see `request_list`.
    pub fn load_articles(&mut self) -> (r: Option<ListRequest>)
        ensures
            *final(self) == old(self).after_load_request(EntityKind::Article),
            old(self).load_request(EntityKind::Article, r),
    {
        self.request_list(EntityKind::Article)
    }

    fn start_form(&mut self, kind: EntityKind)
        ensures
            old(self).form_started(*final(self), kind),
    {
        self.input_mode = InputMode::Editing;
        self.form = FormBuffer::new(kind);
    }

    fn open_selected(&mut self, kind: EntityKind)
        requires
            old(self).wf(),
        ensures
            match old(self).selected_detail(kind) {
                Some(d) => *final(self) == (App {
                    previous_screen: Some(list_screen(kind)),
                    screen: d,
                    ..*old(self)
                }),
                None => *final(self) == *old(self),
            },
    {
        let detail = match kind {
            EntityKind::Customer => if self.customers.items.len() > 0 {
                match &self.customers.items[self.customers.selected].id {
                    Some(id) => Some(Screen::CustomerDetail(id.clone())),
                    None => None,
                }
            } else {
                None
            },
            EntityKind::Invoice => if self.invoices.items.len() > 0 {
                match &self.invoices.items[self.invoices.selected].id {
                    Some(id) => Some(Screen::InvoiceDetail(id.clone())),
                    None => None,
                }
            } else {
                None
            },
            EntityKind::Article => if self.articles.items.len() > 0 {
                match &self.articles.items[self.articles.selected].id {
                    Some(id) => Some(Screen::ArticleDetail(id.clone())),
                    None => None,
                }
            } else {
                None
            },
        };
        match detail {
            Some(d) => {
                self.previous_screen = Some(match kind {
                    EntityKind::Customer => Screen::Customers,
                    EntityKind::Invoice => Screen::Invoices,
                    EntityKind::Article => Screen::Articles,
                });
                self.screen = d;
            },
            None => {},
        }
    }

    fn handle_home_enter(&mut self) -> (r: Effect)
        requires
            old(self).wf(),
            old(self).screen is Home,
            old(self).input_mode == InputMode::Normal,
        ensures
            old(self).enter_while_normal(*final(self), r),
    {
        match self.menu_selected {
            0 => {
                self.screen = Screen::Customers;
                self.load_list(EntityKind::Customer)
            },
            1 => {
                self.screen = Screen::Invoices;
                self.load_list(EntityKind::Invoice)
            },
            2 => {
                self.screen = Screen::CustomerCreate;
                self.start_form(EntityKind::Customer);
                Effect::Nothing
            },
            3 => {
                self.screen = Screen::InvoiceCreate;
                self.start_form(EntityKind::Invoice);
                Effect::Nothing
            },
            _ => {
                self.screen = Screen::Help;
                Effect::Nothing
            },
        }
    }

    fn confirm_form_field(&mut self) -> (r: Effect)
        requires
            old(self).wf(),
            old(self).input_mode == InputMode::Editing,
        ensures
            old(self).enter_while_editing(*final(self), r),
    {
        let complete = self.form.confirm_field();
        if !complete {
            return Effect::Nothing;
        }
        let fields = self.form.payload();
        self.form.clear();
        self.input_mode = InputMode::Normal;
        match &self.client {
            Some(c) => {
                let req = c.endpoint(self.form.kind).create(fields);
                Effect::Create(req)
            },
            None => Effect::Nothing,
        }
    }

    /// Enter. While editing, confirms the field being typed and submits a
    /// completed form; else acts on the screen.
    pub fn handle_enter(&mut self) -> (r: Effect)
        requires
            old(self).wf(),
        ensures
            final(self).wf(),
            old(self).input_mode == InputMode::Editing ==> old(self).enter_while_editing(
                *final(self),
                r,
            ),
            old(self).input_mode == InputMode::Normal ==> old(self).enter_while_normal(
                *final(self),
                r,
            ),
    {
        if self.input_mode == InputMode::Editing {
            return self.confirm_form_field();
        }
        match self.screen {
            Screen::Home => self.handle_home_enter(),
            Screen::Customers => {
                self.open_selected(EntityKind::Customer);
                Effect::Nothing
            },
            Screen::Invoices => {
                self.open_selected(EntityKind::Invoice);
                Effect::Nothing
            },
            Screen::Articles => {
                self.open_selected(EntityKind::Article);
                Effect::Nothing
            },
            Screen::Auth => {
                if self.oauth_waiting {
                    Effect::Nothing
                } else {
                    self.oauth_waiting = true;
                    self.status_message = Some(String::from_str("Starting OAuth flow..."));
                    Effect::Authorize
                }
            },
            _ => Effect::Nothing,
        }
    }

    /// A character key; see `char_outcome`.
    pub fn handle_char(&mut self, c: char) -> (r: Effect)
        requires
            old(self).wf(),
        ensures
            final(self).wf(),
            old(self).char_outcome(c, *final(self), r),
    {
        if self.input_mode == InputMode::Editing {
            self.form.type_char(c);
            return Effect::Nothing;
        }
        if c == 'r' {
            if self.client.is_some() {
                match self.screen.list_kind() {
                    Some(kind) => match self.request_list(kind) {
                        Some(req) => Effect::Refresh(req),
                        None => Effect::Nothing,
                    },
                    None => Effect::Nothing,
                }
            } else {
                Effect::Nothing
            }
        } else if c == 'n' {
            match self.screen.list_kind() {
                Some(kind) => {
                    let back = self.screen.duplicate();
                    self.previous_screen = Some(back);
                    self.screen = match kind {
                        EntityKind::Customer => Screen::CustomerCreate,
                        EntityKind::Invoice => Screen::InvoiceCreate,
                        EntityKind::Article => Screen::ArticleCreate,
                    };
                    self.start_form(kind);
                },
                None => {},
            }
            Effect::Nothing
        } else if c == 'h' || c == '?' {
            self.screen = Screen::Help;
            Effect::Nothing
        } else {
            Effect::Nothing
        }
    }

    fn cycle_to(&mut self, target: Screen) -> (r: Effect)
        requires
            old(self).wf(),
        ensures
            old(self).cycle_outcome(target, *final(self), r),
    {
        if self.client.is_some() && self.screen.is_primary() {
            let kind = target.list_kind();
            self.screen = target;
            match kind {
                Some(k) => self.load_list(k),
                None => Effect::Nothing,
            }
        } else {
            Effect::Nothing
        }
    }

    /// Tab: the next primary screen; see `cycle_outcome`.
    pub fn next_screen(&mut self) -> (r: Effect)
        requires
            old(self).wf(),
        ensures
            final(self).wf(),
            old(self).cycle_outcome(next_primary(old(self).screen), *final(self), r),
    {
        let target = self.screen.next_primary();
        self.cycle_to(target)
    }

    /// Shift+Tab: the previous primary screen; see `cycle_outcome`.
    pub fn previous_screen(&mut self) -> (r: Effect)
        requires
            old(self).wf(),
        ensures
            final(self).wf(),
            old(self).cycle_outcome(prev_primary(old(self).screen), *final(self), r),
    {
        let target = self.screen.prev_primary();
        self.cycle_to(target)
    }

    /// Takes in what a list call brought back, whether it was a load or a
    /// background refresh: the records replace those held (keeping the
    /// selection in range) and the error clears; a failure keeps the
    /// records held and is shown. Results apply in the order they arrive.
    pub fn apply_list(&mut self, outcome: ListOutcome)
        requires
            old(self).wf(),
        ensures
            final(self).wf(),
            match outcome {
                ListOutcome::Customers(items) => {
                    &&& *final(self) == (App {
                        customers: final(self).customers,
                        error_message: None,
                        ..*old(self)
                    })
                    &&& final(self).customers.items == items
                    &&& final(self).customers.selected == clamp_selection(
                        old(self).customers.selected as int,
                        items.len() as int,
                    )
                    &&& !final(self).customers.loading
                    &&& final(self).customers.last_error is None
                },
                ListOutcome::Invoices(items) => {
                    &&& *final(self) == (App {
                        invoices: final(self).invoices,
                        error_message: None,
                        ..*old(self)
                    })
                    &&& final(self).invoices.items == items
                    &&& final(self).invoices.selected == clamp_selection(
                        old(self).invoices.selected as int,
                        items.len() as int,
                    )
                    &&& !final(self).invoices.loading
                    &&& final(self).invoices.last_error is None
                },
                ListOutcome::Articles(items) => {
                    &&& *final(self) == (App {
                        articles: final(self).articles,
                        error_message: None,
                        ..*old(self)
                    })
                    &&& final(self).articles.items == items
                    &&& final(self).articles.selected == clamp_selection(
                        old(self).articles.selected as int,
                        items.len() as int,
                    )
                    &&& !final(self).articles.loading
                    &&& final(self).articles.last_error is None
                },
                ListOutcome::Failed(kind, cause) => {
                    &&& *final(self) == (App {
                        customers: final(self).customers,
                        invoices: final(self).invoices,
                        articles: final(self).articles,
                        error_message: final(self).error_message,
                        ..*old(self)
                    })
                    &&& opt_text(final(self).error_message) == Some(
                        load_failure_prefix(kind) + cause@,
                    )
                    &&& final(self).list_failed(*old(self), kind, cause@)
                },
            },
    {
        match outcome {
            ListOutcome::Customers(items) => {
                self.customers.finish_load(items);
                self.error_message = None;
            },
            ListOutcome::Invoices(items) => {
                self.invoices.finish_load(items);
                self.error_message = None;
            },
            ListOutcome::Articles(items) => {
                self.articles.finish_load(items);
                self.error_message = None;
            },
            ListOutcome::Failed(kind, cause) => {
                self.error_message = Some(joined(load_failure_text(kind), &cause));
                match kind {
                    EntityKind::Customer => self.customers.fail_load(cause),
                    EntityKind::Invoice => self.invoices.fail_load(cause),
                    EntityKind::Article => self.articles.fail_load(cause),
                }
            },
        }
    }

    /// Takes in the outcome of the create call of a form of `kind`. On
    /// success the list of that kind is shown and loaded again; on failure
    /// the cause is shown and the screen stays. The form was already
    /// cleared when it was submitted, so a new attempt starts afresh.
    pub fn finish_create(&mut self, kind: EntityKind, outcome: Result<(), String>) -> (r: Effect)
        requires
            old(self).wf(),
        ensures
            final(self).wf(),
            match outcome {
                Ok(()) => {
                    &&& *final(self) == (App {
                        screen: list_screen(kind),
                        status_message: final(self).status_message,
                        ..old(self).after_load_request(kind)
                    })
                    &&& opt_text(final(self).status_message) == Some(created_message(kind))
                    &&& old(self).load_effect(kind, r)
                },
                Err(cause) => {
                    &&& *final(self) == (App {
                        error_message: final(self).error_message,
                        ..*old(self)
                    })
                    &&& opt_text(final(self).error_message) == Some(
                        create_failure_prefix(kind) + cause@,
                    )
                    &&& r is Nothing
                },
            },
    {
        match outcome {
            Ok(()) => {
                self.screen = match kind {
                    EntityKind::Customer => Screen::Customers,
                    EntityKind::Invoice => Screen::Invoices,
                    EntityKind::Article => Screen::Articles,
                };
                self.status_message = Some(String::from_str(created_text(kind)));
                self.load_list(kind)
            },
            Err(cause) => {
                self.error_message = Some(joined(create_failure_text(kind), &cause));
                Effect::Nothing
            },
        }
    }

    /// The authorization URL is there: it is shown with directions.
    pub fn authorization_started(&mut self, url: String)
        requires
            old(self).wf(),
        ensures
            final(self).wf(),
            *final(self) == (App {
                oauth_url: Some(url),
                status_message: final(self).status_message,
                ..*old(self)
            }),
            opt_text(final(self).status_message) == Some(authorization_url_message()),
    {
        self.oauth_url = Some(url);
        self.status_message = Some(String::from_str("Copy the URL above and open in browser"));
    }

    /// No authorization URL could be had: the cause is shown and Enter may
    /// ask again.
    pub fn authorization_failed(&mut self, cause: String)
        requires
            old(self).wf(),
        ensures
            final(self).wf(),
            *final(self) == (App {
                oauth_waiting: false,
                error_message: final(self).error_message,
                ..*old(self)
            }),
            opt_text(final(self).error_message) == Some(authorization_failure_prefix() + cause@),
    {
        self.oauth_waiting = false;
        self.error_message = Some(joined("Failed to start authorization: ", &cause));
    }

    /// The credential that the store should persist: the one the session
    /// holds, if any.
    pub fn save_token(&self) -> (r: Option<Credential>)
        ensures
            r == (match self.client {
                Some(c) => Some(c.token),
                None => None::<Credential>,
            }),
    {
        match &self.client {
            Some(c) => Some(c.get_access_token().duplicate()),
            None => None,
        }
    }

    /// Left: bound to nothing yet.
    pub fn handle_left(&mut self)
        ensures
            *final(self) == *old(self),
    {
    }

    /// Right: bound to nothing yet.
    pub fn handle_right(&mut self)
        ensures
            *final(self) == *old(self),
    {
    }

    /// Backspace: removes the last typed character of the field being
    /// edited; does nothing outside a form.
    pub fn handle_backspace(&mut self)
        requires
            old(self).wf(),
        ensures
            final(self).wf(),
            old(self).input_mode == InputMode::Editing ==> *final(self) == (App {
                form: final(self).form,
                ..*old(self)
            }) && final(self).form.kind == old(self).form.kind && final(self).form.collected
                == old(self).form.collected && final(self).form.live@ == (if old(
                self,
            ).form.live@.len() == 0 {
                old(self).form.live@
            } else {
                old(self).form.live@.drop_last()
            }),
            old(self).input_mode == InputMode::Normal ==> *final(self) == *old(self),
    {
        if self.input_mode == InputMode::Editing {
            self.form.backspace();
        }
    }
}

} // verus!
