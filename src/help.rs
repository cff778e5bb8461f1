use crate::screen::Screen;
use vstd::prelude::*;

verus! {

/// Help content for one screen: a title, a one-line description, key
/// bindings with what they do, and usage tips.
pub struct ScreenHelp {
    pub title: &'static str,
    pub description: &'static str,
    pub shortcuts: Vec<(&'static str, &'static str)>,
    pub tips: Vec<&'static str>,
}

/// What a `ScreenHelp` holds, as text.
pub ghost struct HelpView {
    pub title: Seq<char>,
    pub description: Seq<char>,
    pub shortcuts: Seq<(Seq<char>, Seq<char>)>,
    pub tips: Seq<Seq<char>>,
}

impl View for ScreenHelp {
    type V = HelpView;

    open spec fn view(&self) -> HelpView {
        HelpView {
            title: self.title@,
            description: self.description@,
            shortcuts: self.shortcuts@.map_values(|p: (&'static str, &'static str)| (p.0@, p.1@)),
            tips: self.tips@.map_values(|t: &'static str| t@),
        }
    }
}

/// The help content of each screen.
pub open spec fn screen_help(screen: Screen) -> HelpView {
    match screen {
        Screen::Home => HelpView {
            title: "Home Screen"@,
            description: "Main landing screen showing navigation options"@,
            shortcuts: seq![
                ("Tab/Shift+Tab"@, "Navigate between screens"@),
                ("d"@, "Go to Dashboard"@),
                ("c"@, "Go to Customers"@),
                ("i"@, "Go to Invoices"@),
                ("a"@, "Go to Articles"@),
                ("s or /"@, "Open Search"@),
                ("h or ?"@, "Show this Help"@),
                ("q"@, "Quit application"@),
            ],
            tips: seq![
                "Use Tab to quickly cycle through all screens"@,
                "Press 'r' on any list screen to refresh data"@,
                "All keyboard shortcuts are case-insensitive"@,
            ],
        },
        Screen::Dashboard => HelpView {
            title: "Dashboard"@,
            description: "Overview of key statistics and recent activity"@,
            shortcuts: seq![
                ("r"@, "Refresh statistics"@),
                ("c"@, "Go to Customers"@),
                ("i"@, "Go to Invoices"@),
                ("a"@, "Go to Articles"@),
                ("Esc"@, "Back to Home"@),
            ],
            tips: seq![
                "Dashboard auto-refreshes if configured in settings"@,
                "Statistics are calculated from loaded data"@,
                "Recent activity shows last 7 and 30 days"@,
            ],
        },
        Screen::Customers => HelpView {
            title: "Customers List"@,
            description: "View and manage all customers"@,
            shortcuts: seq![
                ("↑/↓"@, "Navigate list"@),
                ("←/→"@, "Previous/Next page"@),
                ("Enter"@, "View customer details"@),
                ("n"@, "Create new customer"@),
                ("o"@, "Cycle sort options"@),
                ("r"@, "Refresh customer list"@),
                ("b"@, "Toggle batch selection mode"@),
                ("f"@, "Toggle filter panel"@),
                ("Space"@, "Select/deselect (in batch mode)"@),
            ],
            tips: seq![
                "Batch mode allows multi-select for bulk operations"@,
                "Filters persist within the current session"@,
                "Sort by Name, Email, or Customer Number"@,
            ],
        },
        Screen::Invoices => HelpView {
            title: "Invoices List"@,
            description: "View and manage all invoices"@,
            shortcuts: seq![
                ("↑/↓"@, "Navigate list"@),
                ("←/→"@, "Previous/Next page"@),
                ("Enter"@, "View invoice details"@),
                ("n"@, "Create new invoice"@),
                ("o"@, "Cycle sort options"@),
                ("r"@, "Refresh invoice list"@),
                ("b"@, "Toggle batch selection mode"@),
            ],
            tips: seq![
                "Invoices can be sorted by number, date, or amount"@,
                "Use batch mode to select multiple invoices"@,
                "Export functionality available from Export screen"@,
            ],
        },
        Screen::Articles => HelpView {
            title: "Articles List"@,
            description: "View and manage all articles/products"@,
            shortcuts: seq![
                ("↑/↓"@, "Navigate list"@),
                ("←/→"@, "Previous/Next page"@),
                ("Enter"@, "View article details"@),
                ("n"@, "Create new article"@),
                ("o"@, "Cycle sort options"@),
                ("r"@, "Refresh article list"@),
                ("b"@, "Toggle batch selection mode"@),
                ("f"@, "Toggle filter panel"@),
            ],
            tips: seq![
                "Articles represent products or services you sell"@,
                "Set sales price and purchase price for margin tracking"@,
                "Inactive articles are hidden by default in forms"@,
            ],
        },
        Screen::Search => HelpView {
            title: "Search"@,
            description: "Search across customers and invoices"@,
            shortcuts: seq![
                ("Type"@, "Enter search query"@),
                ("Enter"@, "Execute search"@),
                ("m"@, "Cycle search mode (All/Customers/Invoices)"@),
                ("Esc"@, "Clear search / Go back"@),
            ],
            tips: seq![
                "Search is case-insensitive"@,
                "Results update as you type"@,
                "Use 'm' to search only customers or invoices"@,
            ],
        },
        Screen::Export => HelpView {
            title: "Export Data"@,
            description: "Export data to CSV or JSON format"@,
            shortcuts: seq![
                ("↑/↓"@, "Select export format"@),
                ("Enter"@, "Execute export"@),
                ("Esc"@, "Cancel and go back"@),
            ],
            tips: seq![
                "Default format can be set in config file"@,
                "Exports include all loaded data"@,
                "Files are timestamped automatically"@,
                "Export directory configurable in settings"@,
            ],
        },
        Screen::CustomerDetail(_) => HelpView {
            title: "Customer Details"@,
            description: "View detailed information for a customer"@,
            shortcuts: seq![
                ("e"@, "Edit customer"@),
                ("x"@, "Delete customer (with confirmation)"@),
                ("Esc"@, "Back to customers list"@),
            ],
            tips: seq![
                "Delete requires confirmation to prevent accidents"@,
                "Changes sync with the API immediately"@,
            ],
        },
        Screen::InvoiceDetail(_) => HelpView {
            title: "Invoice Details"@,
            description: "View detailed information for an invoice"@,
            shortcuts: seq![
                ("e"@, "Edit invoice"@),
                ("x"@, "Delete invoice (with confirmation)"@),
                ("Esc"@, "Back to invoices list"@),
            ],
            tips: seq![
                "Invoice rows are displayed with full details"@,
                "Total amounts include VAT calculations"@,
            ],
        },
        Screen::ArticleDetail(_) => HelpView {
            title: "Article Details"@,
            description: "View detailed information for an article"@,
            shortcuts: seq![
                ("e"@, "Edit article"@),
                ("x"@, "Delete article (with confirmation)"@),
                ("Esc"@, "Back to articles list"@),
            ],
            tips: seq![
                "Active status controls visibility in forms"@,
                "Price changes apply to future transactions only"@,
            ],
        },
        Screen::CustomerCreate | Screen::CustomerEdit(_) => HelpView {
            title: "Customer Form"@,
            description: "Create or edit customer information"@,
            shortcuts: seq![
                ("Tab"@, "Next field"@),
                ("Shift+Tab"@, "Previous field"@),
                ("Enter"@, "Submit form"@),
                ("Esc"@, "Cancel and go back"@),
            ],
            tips: seq![
                "Email validation is performed automatically"@,
                "Website field is optional"@,
                "All changes require form submission"@,
            ],
        },
        Screen::InvoiceCreate | Screen::InvoiceEdit(_) => HelpView {
            title: "Invoice Form"@,
            description: "Create or edit invoice"@,
            shortcuts: seq![
                ("Tab"@, "Next field"@),
                ("Shift+Tab"@, "Previous field"@),
                ("Enter"@, "Submit form"@),
                ("Esc"@, "Cancel and go back"@),
            ],
            tips: seq![
                "Customer ID must match an existing customer"@,
                "Amount validation ensures positive values"@,
                "Remarks field is optional"@,
            ],
        },
        Screen::ArticleCreate | Screen::ArticleEdit(_) => HelpView {
            title: "Article Form"@,
            description: "Create or edit article/product"@,
            shortcuts: seq![
                ("Tab"@, "Next field"@),
                ("Shift+Tab"@, "Previous field"@),
                ("Enter"@, "Submit form"@),
                ("Esc"@, "Cancel and go back"@),
            ],
            tips: seq![
                "Name is required"@,
                "Price must be a positive number"@,
                "Use descriptive names for better organization"@,
            ],
        },
        Screen::Help => HelpView {
            title: "Help & Keyboard Shortcuts"@,
            description: "Comprehensive help and shortcut reference"@,
            shortcuts: seq![
                ("Esc"@, "Close help"@),
                ("↑/↓"@, "Scroll help text"@),
            ],
            tips: seq![
                "Context-specific help available on each screen"@,
                "Press 'h' or '?' from any screen for help"@,
                "Configuration file: ~/.config/spiris-tui/config.toml"@,
            ],
        },
        Screen::Auth => HelpView {
            title: "Authentication"@,
            description: "OAuth2 authentication flow"@,
            shortcuts: seq![
                ("Enter"@, "Start OAuth flow"@),
                ("Esc"@, "Cancel"@),
            ],
            tips: seq![
                "Requires SPIRIS_CLIENT_ID environment variable"@,
                "Token is saved locally for future sessions"@,
                "Open the provided URL in your browser"@,
            ],
        },
    }
}

/// Help content for a screen.
pub fn get_screen_help(screen: &Screen) -> (r: ScreenHelp)
    ensures
        r@ == screen_help(*screen),
{
    let r = match screen {
        Screen::Home => ScreenHelp {
            title: "Home Screen",
            description: "Main landing screen showing navigation options",
            shortcuts: vec![
                ("Tab/Shift+Tab", "Navigate between screens"),
                ("d", "Go to Dashboard"),
                ("c", "Go to Customers"),
                ("i", "Go to Invoices"),
                ("a", "Go to Articles"),
                ("s or /", "Open Search"),
                ("h or ?", "Show this Help"),
                ("q", "Quit application"),
            ],
            tips: vec![
                "Use Tab to quickly cycle through all screens",
                "Press 'r' on any list screen to refresh data",
                "All keyboard shortcuts are case-insensitive",
            ],
        },
        Screen::Dashboard => ScreenHelp {
            title: "Dashboard",
            description: "Overview of key statistics and recent activity",
            shortcuts: vec![
                ("r", "Refresh statistics"),
                ("c", "Go to Customers"),
                ("i", "Go to Invoices"),
                ("a", "Go to Articles"),
                ("Esc", "Back to Home"),
            ],
            tips: vec![
                "Dashboard auto-refreshes if configured in settings",
                "Statistics are calculated from loaded data",
                "Recent activity shows last 7 and 30 days",
            ],
        },
        Screen::Customers => ScreenHelp {
            title: "Customers List",
            description: "View and manage all customers",
            shortcuts: vec![
                ("↑/↓", "Navigate list"),
                ("←/→", "Previous/Next page"),
                ("Enter", "View customer details"),
                ("n", "Create new customer"),
                ("o", "Cycle sort options"),
                ("r", "Refresh customer list"),
                ("b", "Toggle batch selection mode"),
                ("f", "Toggle filter panel"),
                ("Space", "Select/deselect (in batch mode)"),
            ],
            tips: vec![
                "Batch mode allows multi-select for bulk operations",
                "Filters persist within the current session",
                "Sort by Name, Email, or Customer Number",
            ],
        },
        Screen::Invoices => ScreenHelp {
            title: "Invoices List",
            description: "View and manage all invoices",
            shortcuts: vec![
                ("↑/↓", "Navigate list"),
                ("←/→", "Previous/Next page"),
                ("Enter", "View invoice details"),
                ("n", "Create new invoice"),
                ("o", "Cycle sort options"),
                ("r", "Refresh invoice list"),
                ("b", "Toggle batch selection mode"),
            ],
            tips: vec![
                "Invoices can be sorted by number, date, or amount",
                "Use batch mode to select multiple invoices",
                "Export functionality available from Export screen",
            ],
        },
        Screen::Articles => ScreenHelp {
            title: "Articles List",
            description: "View and manage all articles/products",
            shortcuts: vec![
                ("↑/↓", "Navigate list"),
                ("←/→", "Previous/Next page"),
                ("Enter", "View article details"),
                ("n", "Create new article"),
                ("o", "Cycle sort options"),
                ("r", "Refresh article list"),
                ("b", "Toggle batch selection mode"),
                ("f", "Toggle filter panel"),
            ],
            tips: vec![
                "Articles represent products or services you sell",
                "Set sales price and purchase price for margin tracking",
                "Inactive articles are hidden by default in forms",
            ],
        },
        Screen::Search => ScreenHelp {
            title: "Search",
            description: "Search across customers and invoices",
            shortcuts: vec![
                ("Type", "Enter search query"),
                ("Enter", "Execute search"),
                ("m", "Cycle search mode (All/Customers/Invoices)"),
                ("Esc", "Clear search / Go back"),
            ],
            tips: vec![
                "Search is case-insensitive",
                "Results update as you type",
                "Use 'm' to search only customers or invoices",
            ],
        },
        Screen::Export => ScreenHelp {
            title: "Export Data",
            description: "Export data to CSV or JSON format",
            shortcuts: vec![
                ("↑/↓", "Select export format"),
                ("Enter", "Execute export"),
                ("Esc", "Cancel and go back"),
            ],
            tips: vec![
                "Default format can be set in config file",
                "Exports include all loaded data",
                "Files are timestamped automatically",
                "Export directory configurable in settings",
            ],
        },
        Screen::CustomerDetail(_) => ScreenHelp {
            title: "Customer Details",
            description: "View detailed information for a customer",
            shortcuts: vec![
                ("e", "Edit customer"),
                ("x", "Delete customer (with confirmation)"),
                ("Esc", "Back to customers list"),
            ],
            tips: vec![
                "Delete requires confirmation to prevent accidents",
                "Changes sync with the API immediately",
            ],
        },
        Screen::InvoiceDetail(_) => ScreenHelp {
            title: "Invoice Details",
            description: "View detailed information for an invoice",
            shortcuts: vec![
                ("e", "Edit invoice"),
                ("x", "Delete invoice (with confirmation)"),
                ("Esc", "Back to invoices list"),
            ],
            tips: vec![
                "Invoice rows are displayed with full details",
                "Total amounts include VAT calculations",
            ],
        },
        Screen::ArticleDetail(_) => ScreenHelp {
            title: "Article Details",
            description: "View detailed information for an article",
            shortcuts: vec![
                ("e", "Edit article"),
                ("x", "Delete article (with confirmation)"),
                ("Esc", "Back to articles list"),
            ],
            tips: vec![
                "Active status controls visibility in forms",
                "Price changes apply to future transactions only",
            ],
        },
        Screen::CustomerCreate | Screen::CustomerEdit(_) => ScreenHelp {
            title: "Customer Form",
            description: "Create or edit customer information",
            shortcuts: vec![
                ("Tab", "Next field"),
                ("Shift+Tab", "Previous field"),
                ("Enter", "Submit form"),
                ("Esc", "Cancel and go back"),
            ],
            tips: vec![
                "Email validation is performed automatically",
                "Website field is optional",
                "All changes require form submission",
            ],
        },
        Screen::InvoiceCreate | Screen::InvoiceEdit(_) => ScreenHelp {
            title: "Invoice Form",
            description: "Create or edit invoice",
            shortcuts: vec![
                ("Tab", "Next field"),
                ("Shift+Tab", "Previous field"),
                ("Enter", "Submit form"),
                ("Esc", "Cancel and go back"),
            ],
            tips: vec![
                "Customer ID must match an existing customer",
                "Amount validation ensures positive values",
                "Remarks field is optional",
            ],
        },
        Screen::ArticleCreate | Screen::ArticleEdit(_) => ScreenHelp {
            title: "Article Form",
            description: "Create or edit article/product",
            shortcuts: vec![
                ("Tab", "Next field"),
                ("Shift+Tab", "Previous field"),
                ("Enter", "Submit form"),
                ("Esc", "Cancel and go back"),
            ],
            tips: vec![
                "Name is required",
                "Price must be a positive number",
                "Use descriptive names for better organization",
            ],
        },
        Screen::Help => ScreenHelp {
            title: "Help & Keyboard Shortcuts",
            description: "Comprehensive help and shortcut reference",
            shortcuts: vec![
                ("Esc", "Close help"),
                ("↑/↓", "Scroll help text"),
            ],
            tips: vec![
                "Context-specific help available on each screen",
                "Press 'h' or '?' from any screen for help",
                "Configuration file: ~/.config/spiris-tui/config.toml",
            ],
        },
        Screen::Auth => ScreenHelp {
            title: "Authentication",
            description: "OAuth2 authentication flow",
            shortcuts: vec![
                ("Enter", "Start OAuth flow"),
                ("Esc", "Cancel"),
            ],
            tips: vec![
                "Requires SPIRIS_CLIENT_ID environment variable",
                "Token is saved locally for future sessions",
                "Open the provided URL in your browser",
            ],
        },
    };
    assert(r@.shortcuts =~= screen_help(*screen).shortcuts);
    assert(r@.tips =~= screen_help(*screen).tips);
    r
}

/// The status-bar key hints of a screen; `batch_mode` is whether a list
/// screen is selecting several records at once.
pub open spec fn context_shortcuts(screen: Screen, batch_mode: bool) -> Seq<Seq<char>> {
    let common = seq!["q:Quit"@, "h:Help"@];
    let specific = match screen {
        Screen::Home => seq!["d:Dashboard"@, "c:Customers"@, "i:Invoices"@],
        Screen::Customers | Screen::Invoices | Screen::Articles => if batch_mode {
            seq!["Space:Select"@, "b:Exit Batch"@, "Enter:View"@]
        } else {
            seq!["n:New"@, "b:Batch"@, "f:Filter"@, "Enter:View"@]
        },
        Screen::CustomerDetail(_) | Screen::InvoiceDetail(_) | Screen::ArticleDetail(_) => seq![
            "e:Edit"@,
            "x:Delete"@,
            "Esc:Back"@,
        ],
        Screen::Search => seq!["m:Mode"@, "Enter:Search"@],
        Screen::Export => seq!["Enter:Export"@, "Esc:Cancel"@],
        _ => seq!["Esc:Back"@],
    };
    common + specific
}

/// The status-bar key hints of a screen, common ones first.
pub fn get_context_shortcuts(screen: &Screen, batch_mode: bool) -> (r: Vec<String>)
    ensures
        r@.map_values(|s: String| s@) == context_shortcuts(*screen, batch_mode),
{
    let mut shortcuts: Vec<String> = Vec::new();
    shortcuts.push(String::from_str("q:Quit"));
    shortcuts.push(String::from_str("h:Help"));
    match screen {
        Screen::Home => {
            shortcuts.push(String::from_str("d:Dashboard"));
            shortcuts.push(String::from_str("c:Customers"));
            shortcuts.push(String::from_str("i:Invoices"));
        },
        Screen::Customers | Screen::Invoices | Screen::Articles => {
            if batch_mode {
                shortcuts.push(String::from_str("Space:Select"));
                shortcuts.push(String::from_str("b:Exit Batch"));
            } else {
                shortcuts.push(String::from_str("n:New"));
                shortcuts.push(String::from_str("b:Batch"));
                shortcuts.push(String::from_str("f:Filter"));
            }
            shortcuts.push(String::from_str("Enter:View"));
        },
        Screen::CustomerDetail(_) | Screen::InvoiceDetail(_) | Screen::ArticleDetail(_) => {
            shortcuts.push(String::from_str("e:Edit"));
            shortcuts.push(String::from_str("x:Delete"));
            shortcuts.push(String::from_str("Esc:Back"));
        },
        Screen::Search => {
            shortcuts.push(String::from_str("m:Mode"));
            shortcuts.push(String::from_str("Enter:Search"));
        },
        Screen::Export => {
            shortcuts.push(String::from_str("Enter:Export"));
            shortcuts.push(String::from_str("Esc:Cancel"));
        },
        _ => {
            shortcuts.push(String::from_str("Esc:Back"));
        },
    }
    assert(shortcuts@.map_values(|s: String| s@) =~= context_shortcuts(*screen, batch_mode));
    shortcuts
}

} // verus!
