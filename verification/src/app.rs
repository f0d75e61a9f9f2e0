//! The state of the account switcher and its reactions to key presses and to
//! the outcomes of the outside work it asks for.
//!
//! The library never performs that work itself: a step returns a `Command`
//! (read a key from the store, copy text to the clipboard, switch the Git
//! identity, ...), the caller carries it out and hands the outcome back as a
//! `Reply`. Until the reply arrives the state remembers what it waits for.

use vstd::prelude::*;
use crate::db::{Account, AccountView};
use crate::laws::{key_step_keeps_selection_in_bounds, reply_step_keeps_selection_in_bounds};
use crate::text::{pop_char, push_char};
use crate::email::{is_valid_email, regex_compiles, regex_finds_match, EMAIL_PATTERN};

verus! {

/// The tabs of the interface.
#[derive(Debug, PartialEq, Eq, Structural, Clone, Copy)]
pub enum Tab {
    Accounts,
    Help,
}

impl Default for Tab {
    fn default() -> (t: Tab)
        ensures
            t == Tab::Accounts,
    {
        Tab::Accounts
    }
}

/// Whether typed characters go to a form.
#[derive(Debug, PartialEq, Eq, Structural, Clone, Copy)]
pub enum InputMode {
    Normal,
    Editing,
}

impl Default for InputMode {
    fn default() -> (m: InputMode)
        ensures
            m == InputMode::Normal,
    {
        InputMode::Normal
    }
}

/// The dialog shown over the tabs, if any.
#[derive(Debug, PartialEq, Eq, Structural, Clone, Copy)]
pub enum PopupType {
    AddAccount,
    RemoveConfirmation,
    /// No dialog.
    Closed,
}

/// The field of the new-account form that receives typed characters.
#[derive(Debug, PartialEq, Eq, Structural, Clone, Copy)]
pub enum AddAccountField {
    Name,
    Email,
}

/// The keys the interface tells apart.
#[derive(Debug, PartialEq, Eq, Structural, Clone, Copy)]
pub enum KeyCode {
    Char(char),
    Tab,
    BackTab,
    Up,
    Down,
    Enter,
    Esc,
    Backspace,
    Other,
}

/// A key press; `control` holds when Control, and no other modifier, was held.
#[derive(Debug, PartialEq, Eq, Structural, Clone, Copy)]
pub struct KeyEvent {
    pub code: KeyCode,
    pub control: bool,
}

/// The outside work whose outcome the state waits for.
#[derive(Debug, PartialEq, Eq, Structural, Clone, Copy)]
pub enum Pending {
    /// The public key of an account was asked for.
    SshKey,
    /// A public key was handed to the clipboard.
    Clipboard,
    /// The account at this index was asked to become the Git identity.
    Switch(usize),
    /// A new account was asked to be created.
    Add,
    /// The account at this index was asked to be removed.
    Remove(usize),
    /// The accounts were asked for after a creation.
    ReloadAfterAdd,
    /// The accounts were asked for after the removal of the account at this index.
    ReloadAfterRemove(usize),
}

/// Outside work for the caller to carry out.
#[derive(Debug)]
pub enum Command {
    /// Read the stored public key of the account with this address.
    FetchSshKey { email: String },
    /// Put this text on the clipboard.
    CopyToClipboard { text: String },
    /// Make the account with this address the Git identity.
    SwitchAccount { email: String },
    /// Create an account, with a new key pair, and make it the Git identity.
    AddAccount { name: String, email: String },
    /// Delete the account with this address.
    RemoveAccount { email: String },
    /// List the stored accounts.
    ListAccounts,
}

/// A command as plain values.
pub enum CommandView {
    FetchSshKey { email: Seq<char> },
    CopyToClipboard { text: Seq<char> },
    SwitchAccount { email: Seq<char> },
    AddAccount { name: Seq<char>, email: Seq<char> },
    RemoveAccount { email: Seq<char> },
    ListAccounts,
}

impl View for Command {
    type V = CommandView;

    open spec fn view(&self) -> CommandView {
        match self {
            Command::FetchSshKey { email } => CommandView::FetchSshKey { email: email@ },
            Command::CopyToClipboard { text } => CommandView::CopyToClipboard { text: text@ },
            Command::SwitchAccount { email } => CommandView::SwitchAccount { email: email@ },
            Command::AddAccount { name, email } => CommandView::AddAccount { name: name@, email: email@ },
            Command::RemoveAccount { email } => CommandView::RemoveAccount { email: email@ },
            Command::ListAccounts => CommandView::ListAccounts,
        }
    }
}

/// The view of an optional command.
pub open spec fn command_view(c: Option<Command>) -> Option<CommandView> {
    match c {
        Some(c) => Some(c@),
        None => None,
    }
}

/// The outcome of a command, as the caller reports it; an error is its message.
#[derive(Debug)]
pub enum Reply {
    /// The public key that was read.
    SshKey(Result<String, String>),
    /// Whether the clipboard took the text.
    Clipboard(Result<(), String>),
    /// Whether the identity was switched.
    Switched(Result<(), String>),
    /// The new account's public key.
    Added(Result<String, String>),
    /// Whether the account was removed.
    Removed(Result<(), String>),
    /// The stored accounts.
    Accounts(Result<Vec<Account>, String>),
}

/// The views of a sequence of accounts.
pub open spec fn account_views(s: Seq<Account>) -> Seq<AccountView> {
    s.map_values(|a: Account| a@)
}

/// A reply as plain values.
pub enum ReplyView {
    SshKey(Result<Seq<char>, Seq<char>>),
    Clipboard(Result<(), Seq<char>>),
    Switched(Result<(), Seq<char>>),
    Added(Result<Seq<char>, Seq<char>>),
    Removed(Result<(), Seq<char>>),
    Accounts(Result<Seq<AccountView>, Seq<char>>),
}

/// The view of a textual outcome.
pub open spec fn text_result_view(r: Result<String, String>) -> Result<Seq<char>, Seq<char>> {
    match r {
        Ok(s) => Ok(s@),
        Err(e) => Err(e@),
    }
}

/// The view of an outcome without a value.
pub open spec fn unit_result_view(r: Result<(), String>) -> Result<(), Seq<char>> {
    match r {
        Ok(()) => Ok(()),
        Err(e) => Err(e@),
    }
}

impl View for Reply {
    type V = ReplyView;

    open spec fn view(&self) -> ReplyView {
        match self {
            Reply::SshKey(r) => ReplyView::SshKey(text_result_view(*r)),
            Reply::Clipboard(r) => ReplyView::Clipboard(unit_result_view(*r)),
            Reply::Switched(r) => ReplyView::Switched(unit_result_view(*r)),
            Reply::Added(r) => ReplyView::Added(text_result_view(*r)),
            Reply::Removed(r) => ReplyView::Removed(unit_result_view(*r)),
            Reply::Accounts(r) => ReplyView::Accounts(
                match r {
                    Ok(v) => Ok(account_views(v@)),
                    Err(e) => Err(e@),
                },
            ),
        }
    }
}

/// The state of the interface as plain values.
#[verifier::ext_equal]
pub struct AppModel {
    pub running: bool,
    pub accounts: Seq<AccountView>,
    /// The account under the cursor.
    pub selected: Option<usize>,
    /// The account shown as the Git identity.
    pub current: Option<usize>,
    pub tab: Tab,
    pub input_mode: InputMode,
    pub status: Seq<char>,
    pub popup: PopupType,
    pub new_name: Seq<char>,
    pub new_email: Seq<char>,
    pub focus: AddAccountField,
    pub pending: Option<Pending>,
}

/// The title of a tab.
pub open spec fn tab_name(t: Tab) -> Seq<char> {
    match t {
        Tab::Accounts => "Accounts"@,
        Tab::Help => "Help"@,
    }
}

/// The tab that follows `t`; with two tabs it is also the one before.
pub open spec fn other_tab(t: Tab) -> Tab {
    match t {
        Tab::Accounts => Tab::Help,
        Tab::Help => Tab::Accounts,
    }
}

/// The status message after a change of tab.
pub open spec fn tab_status(t: Tab) -> Seq<char> {
    "Switched to "@ + tab_name(t) + " tab"@
}

/// The other field of the new-account form.
pub open spec fn other_field(f: AddAccountField) -> AddAccountField {
    match f {
        AddAccountField::Name => AddAccountField::Email,
        AddAccountField::Email => AddAccountField::Name,
    }
}

/// Whether an address passes the e-mail check.
pub open spec fn email_accepted(email: Seq<char>) -> bool {
    regex_compiles(EMAIL_PATTERN@) && regex_finds_match(EMAIL_PATTERN@, email)
}

/// The accounts after the one with address `email` became the Git identity:
/// exactly the accounts with that address are marked active.
pub open spec fn mark_active(s: Seq<AccountView>, email: Seq<char>) -> Seq<AccountView> {
    s.map_values(|a: AccountView| AccountView { email: a.email, name: a.name, is_active: a.email == email })
}

/// Whether `r` is the index of the first account with address `email`.
pub open spec fn first_with_email(s: Seq<AccountView>, email: Seq<char>, r: Option<usize>) -> bool {
    match r {
        Some(i) => i < s.len() && s[i as int].email == email && forall|j: int| 0 <= j < i ==> s[j].email != email,
        None => forall|j: int| 0 <= j < s.len() ==> s[j].email != email,
    }
}

impl AppModel {
    /// The selection, if any, points at an account.
    pub open spec fn selection_in_bounds(self) -> bool {
        self.selected matches Some(i) ==> i < self.accounts.len()
    }

    /// Whether moving the cursor down would step past the largest index,
    /// which the arithmetic cannot hold.
    pub open spec fn cursor_at_index_limit(self) -> bool {
        self.accounts.len() > 0 && self.selected == Some(usize::MAX)
    }

    /// The state with a new status message.
    pub open spec fn with_status(self, msg: Seq<char>) -> AppModel {
        AppModel { status: msg, ..self }
    }

    /// The state after the interface was told to stop.
    pub open spec fn quit(self) -> AppModel {
        AppModel { running: false, ..self }
    }

    /// The state after a change to tab `t`.
    pub open spec fn switch_to_tab(self, t: Tab) -> AppModel {
        AppModel { tab: t, status: tab_status(t), ..self }
    }

    /// The state after a move to the next tab.
    pub open spec fn next_tab(self) -> AppModel {
        self.switch_to_tab(other_tab(self.tab))
    }

    /// The state after a move to the previous tab.
    pub open spec fn previous_tab(self) -> AppModel {
        self.next_tab()
    }

    /// The state after the cursor moved up, wrapping from the first account
    /// to the last; with no accounts nothing changes.
    pub open spec fn select_previous_account(self) -> AppModel {
        if self.accounts.len() == 0 {
            self
        } else {
            let i: usize = match self.selected {
                None => 0,
                Some(i) => if i == 0 { (self.accounts.len() - 1) as usize } else { (i - 1) as usize },
            };
            AppModel { selected: Some(i), status: "Selected previous account"@, ..self }
        }
    }

    /// The state after the cursor moved down, wrapping from the last account
    /// to the first; with no accounts nothing changes.
    pub open spec fn select_next_account(self) -> AppModel {
        if self.accounts.len() == 0 {
            self
        } else {
            let i: usize = match self.selected {
                None => 0,
                Some(i) => if i == self.accounts.len() - 1 { 0 } else { (i + 1) as usize },
            };
            AppModel { selected: Some(i), status: "Selected next account"@, ..self }
        }
    }

    /// The state after the new-account form was opened, empty.
    pub open spec fn open_add_form(self) -> AppModel {
        AppModel {
            popup: PopupType::AddAccount,
            new_name: Seq::empty(),
            new_email: Seq::empty(),
            input_mode: InputMode::Editing,
            ..self
        }
    }

    /// The state after the removal was asked to be confirmed, which needs a
    /// selected account.
    pub open spec fn ask_removal(self) -> AppModel {
        if self.selected is Some {
            AppModel { popup: PopupType::RemoveConfirmation, ..self }
        } else {
            self
        }
    }

    /// The state after the form's focus moved to the other field.
    pub open spec fn toggle_focus(self) -> AppModel {
        AppModel { focus: other_field(self.focus), ..self }
    }

    /// The state after `c` was typed into the focused field.
    pub open spec fn type_char(self, c: char) -> AppModel {
        match self.focus {
            AddAccountField::Name => AppModel { new_name: self.new_name.push(c), ..self },
            AddAccountField::Email => AppModel { new_email: self.new_email.push(c), ..self },
        }
    }

    /// The state after the last character of the focused field was erased.
    pub open spec fn erase_char(self) -> AppModel {
        match self.focus {
            AddAccountField::Name => AppModel {
                new_name: if self.new_name.len() > 0 { self.new_name.drop_last() } else { self.new_name },
                ..self
            },
            AddAccountField::Email => AppModel {
                new_email: if self.new_email.len() > 0 { self.new_email.drop_last() } else { self.new_email },
                ..self
            },
        }
    }

    /// The state after the new-account form was cancelled.
    pub open spec fn cancel_add_form(self) -> AppModel {
        AppModel { popup: PopupType::Closed, input_mode: InputMode::Normal, ..self }
    }

    /// The state after the removal dialog was closed.
    pub open spec fn close_dialog(self) -> AppModel {
        AppModel { popup: PopupType::Closed, ..self }
    }

    /// The state with `p` awaited.
    pub open spec fn awaiting(self, p: Pending) -> AppModel {
        AppModel { pending: Some(p), ..self }
    }

    /// The state with nothing awaited.
    pub open spec fn settled(self) -> AppModel {
        AppModel { pending: None, ..self }
    }

    /// Copying the public key of the account at `index`: it is asked for when
    /// the account exists.
    pub open spec fn copy_ssh_key_to_clipboard(self, index: usize) -> (AppModel, Option<CommandView>) {
        if index < self.accounts.len() {
            (self.awaiting(Pending::SshKey), Some(CommandView::FetchSshKey { email: self.accounts[index as int].email }))
        } else {
            (self, None)
        }
    }

    /// Making the account at `index` the Git identity: it is asked for when
    /// the account exists.
    pub open spec fn set_active_account(self, index: usize) -> (AppModel, Option<CommandView>) {
        if index < self.accounts.len() {
            (self.awaiting(Pending::Switch(index)), Some(CommandView::SwitchAccount { email: self.accounts[index as int].email }))
        } else {
            (self, None)
        }
    }

    /// Submitting the new-account form: both fields must be filled and the
    /// address must pass the e-mail check before the account is asked for.
    pub open spec fn submit_new_account(self) -> (AppModel, Option<CommandView>) {
        if self.new_name.len() > 0 && self.new_email.len() > 0 {
            if email_accepted(self.new_email) {
                (self.awaiting(Pending::Add), Some(CommandView::AddAccount { name: self.new_name, email: self.new_email }))
            } else {
                (self.with_status("Invalid email format. Please enter a valid email."@), None)
            }
        } else {
            (self.with_status("Invalid input. Name and email are required."@), None)
        }
    }

    /// Removing the selected account: it is asked for when the selection
    /// points at an account.
    pub open spec fn remove_account(self) -> (AppModel, Option<CommandView>) {
        match self.selected {
            Some(i) => if i < self.accounts.len() {
                (self.awaiting(Pending::Remove(i)), Some(CommandView::RemoveAccount { email: self.accounts[i as int].email }))
            } else {
                (self, None)
            },
            None => (self, None),
        }
    }
}

/// The reaction to a key press with no dialog open and the form not in use.
pub open spec fn normal_key_step(m: AppModel, key: KeyEvent) -> (AppModel, Option<CommandView>) {
    match key.code {
        KeyCode::Char(c) => if c == 'q' {
            (m.quit(), None)
        } else if c == 'c' && key.control {
            (m.quit(), None)
        } else if c == 'h' {
            (m.switch_to_tab(Tab::Help), None)
        } else if c == '1' {
            (m.switch_to_tab(Tab::Accounts), None)
        } else if c == 'a' {
            (m.open_add_form(), None)
        } else if c == 'r' {
            (m.ask_removal(), None)
        } else if c == ' ' {
            match m.selected {
                Some(i) => m.set_active_account(i),
                None => (m, None),
            }
        } else {
            (m, None)
        },
        KeyCode::Tab => (m.next_tab(), None),
        KeyCode::BackTab => (m.previous_tab(), None),
        KeyCode::Up => (m.select_previous_account(), None),
        KeyCode::Down => (m.select_next_account(), None),
        KeyCode::Enter => match m.selected {
            Some(i) => m.copy_ssh_key_to_clipboard(i),
            None => (m, None),
        },
        _ => (m, None),
    }
}

/// The reaction to a key press while the new-account form is open.
pub open spec fn add_form_key_step(m: AppModel, key: KeyEvent) -> (AppModel, Option<CommandView>) {
    match key.code {
        KeyCode::Enter => if m.new_name.len() > 0 && m.new_email.len() > 0 {
            m.submit_new_account()
        } else {
            (m.with_status("Please fill both name and email"@), None)
        },
        KeyCode::Esc => (m.cancel_add_form(), None),
        KeyCode::Up | KeyCode::Down | KeyCode::Tab | KeyCode::BackTab => (m.toggle_focus(), None),
        KeyCode::Char(c) => (m.type_char(c), None),
        KeyCode::Backspace => (m.erase_char(), None),
        _ => (m, None),
    }
}

/// The reaction to a key press while the removal waits for confirmation.
pub open spec fn removal_key_step(m: AppModel, key: KeyEvent) -> (AppModel, Option<CommandView>) {
    match key.code {
        KeyCode::Char(c) => if c == 'y' || c == 'Y' {
            let (m2, cmd) = m.remove_account();
            (m2.close_dialog(), cmd)
        } else if c == 'n' || c == 'N' {
            (m.close_dialog(), None)
        } else {
            (m, None)
        },
        KeyCode::Esc => (m.close_dialog(), None),
        _ => (m, None),
    }
}

/// The reaction to a key press: the new state and the command to carry out.
/// While outside work is awaited, key presses are dropped.
pub open spec fn key_step(m: AppModel, key: KeyEvent) -> (AppModel, Option<CommandView>) {
    if m.pending is Some {
        (m, None)
    } else {
        match m.popup {
            PopupType::Closed => match m.input_mode {
                InputMode::Normal => normal_key_step(m, key),
                InputMode::Editing => (m, None),
            },
            PopupType::AddAccount => add_form_key_step(m, key),
            PopupType::RemoveConfirmation => removal_key_step(m, key),
        }
    }
}

/// The accounts a listing gives: none where it failed.
pub open spec fn listed_accounts(r: Result<Seq<AccountView>, Seq<char>>) -> Seq<AccountView> {
    match r {
        Ok(s) => s,
        Err(_) => Seq::empty(),
    }
}

/// The reaction to the outcome of the awaited work: the new state and the
/// next command. A reply that does not answer the awaited work changes nothing.
pub open spec fn reply_step(m: AppModel, reply: ReplyView) -> (AppModel, Option<CommandView>) {
    match (m.pending, reply) {
        (Some(Pending::SshKey), ReplyView::SshKey(Ok(key))) =>
            (m.awaiting(Pending::Clipboard), Some(CommandView::CopyToClipboard { text: key })),
        (Some(Pending::SshKey), ReplyView::SshKey(Err(e))) =>
            (m.settled().with_status("Failed to get SSH key: "@ + e), None),
        (Some(Pending::Clipboard), ReplyView::Clipboard(Ok(()))) =>
            (m.settled().with_status("SSH key copied to clipboard"@), None),
        (Some(Pending::Clipboard), ReplyView::Clipboard(Err(e))) =>
            (m.settled().with_status("Failed to copy SSH key: "@ + e), None),
        (Some(Pending::Switch(i)), ReplyView::Switched(Ok(()))) =>
            if i < m.accounts.len() {
                (AppModel {
                    accounts: mark_active(m.accounts, m.accounts[i as int].email),
                    current: Some(i),
                    selected: Some(i),
                    status: "Activated account: "@ + m.accounts[i as int].name,
                    pending: None,
                    ..m
                }, None)
            } else {
                (m.settled(), None)
            },
        (Some(Pending::Switch(_)), ReplyView::Switched(Err(e))) =>
            (m.settled().with_status("Failed to switch account: "@ + e), None),
        (Some(Pending::Add), ReplyView::Added(Ok(_))) =>
            (AppModel {
                status: "New account added successfully!"@,
                new_name: Seq::empty(),
                new_email: Seq::empty(),
                popup: PopupType::Closed,
                input_mode: InputMode::Normal,
                pending: Some(Pending::ReloadAfterAdd),
                ..m
            }, Some(CommandView::ListAccounts)),
        (Some(Pending::Add), ReplyView::Added(Err(e))) =>
            (m.settled().with_status("Failed to add account: "@ + e), None),
        (Some(Pending::Remove(i)), ReplyView::Removed(Ok(()))) =>
            if i < m.accounts.len() {
                (m.awaiting(Pending::ReloadAfterRemove(i)).with_status("Removed account: "@ + m.accounts[i as int].name),
                 Some(CommandView::ListAccounts))
            } else {
                (m.settled(), None)
            },
        (Some(Pending::Remove(_)), ReplyView::Removed(Err(e))) =>
            (m.settled().with_status("Failed to remove account: "@ + e), None),
        (Some(Pending::ReloadAfterAdd), ReplyView::Accounts(r)) =>
            (AppModel { accounts: listed_accounts(r), pending: None, ..m }, None),
        (Some(Pending::ReloadAfterRemove(i)), ReplyView::Accounts(r)) => {
            let s = listed_accounts(r);
            (AppModel {
                accounts: s,
                selected: if s.len() == 0 {
                    None
                } else if i < s.len() - 1 {
                    Some(i)
                } else {
                    Some((s.len() - 1) as usize)
                },
                pending: None,
                ..m
            }, None)
        },
        _ => (m, None),
    }
}

/// The accounts with exactly those whose address is `email` marked active.
fn mark_accounts_active(accounts: &Vec<Account>, email: &String) -> (r: Vec<Account>)
    ensures
        r.len() == accounts.len(),
        account_views(r@) == mark_active(account_views(accounts@), email@),
{
    let mut r: Vec<Account> = Vec::new();
    let mut k: usize = 0;
    while k < accounts.len()
        invariant
            k <= accounts.len(),
            r.len() == k,
            forall|j: int| 0 <= j < k ==> #[trigger] r@[j]@ == (AccountView {
                email: accounts@[j].email@,
                name: accounts@[j].name@,
                is_active: accounts@[j].email@ == email@,
            }),
        decreases accounts.len() - k,
    {
        let a = &accounts[k];
        let is_active = a.email == *email;
        r.push(Account { email: a.email.clone(), name: a.name.clone(), is_active });
        k = k + 1;
    }
    assert(account_views(r@) =~= mark_active(account_views(accounts@), email@));
    r
}

/// The state of the interface.
#[derive(Debug)]
pub struct App {
    running: bool,
    accounts: Vec<Account>,
    active_account_index: Option<usize>,
    current_tab: Tab,
    input_mode: InputMode,
    status_message: String,
    active_account: Option<usize>,
    popup: PopupType,
    new_account_name: String,
    new_account_email: String,
    add_account_focus: AddAccountField,
    pending: Option<Pending>,
}

impl View for App {
    type V = AppModel;

    closed spec fn view(&self) -> AppModel {
        AppModel {
            running: self.running,
            accounts: account_views(self.accounts@),
            selected: self.active_account_index,
            current: self.active_account,
            tab: self.current_tab,
            input_mode: self.input_mode,
            status: self.status_message@,
            popup: self.popup,
            new_name: self.new_account_name@,
            new_email: self.new_account_email@,
            focus: self.add_account_focus,
            pending: self.pending,
        }
    }
}

impl App {
    fn set_status(&mut self, message: &str)
        ensures
            final(self)@ == old(self)@.with_status(message@),
    {
        self.status_message = message.to_string();
    }

    fn quit(&mut self)
        ensures
            final(self)@ == old(self)@.quit(),
    {
        self.running = false;
    }

    fn current_tab_name(&self) -> (name: &'static str)
        ensures
            name@ == tab_name(self@.tab),
    {
        match self.current_tab {
            Tab::Accounts => "Accounts",
            Tab::Help => "Help",
        }
    }

    fn switch_to_tab(&mut self, tab: Tab)
        ensures
            final(self)@ == old(self)@.switch_to_tab(tab),
    {
        self.current_tab = tab;
        let message = String::from_str("Switched to ").concat(self.current_tab_name()).concat(" tab");
        self.set_status(message.as_str());
    }

    fn next_tab(&mut self)
        ensures
            final(self)@ == old(self)@.next_tab(),
    {
        let next = match self.current_tab {
            Tab::Accounts => Tab::Help,
            Tab::Help => Tab::Accounts,
        };
        self.switch_to_tab(next);
    }

    fn previous_tab(&mut self)
        ensures
            final(self)@ == old(self)@.previous_tab(),
    {
        // With two tabs the previous one is the next one.
        self.next_tab();
    }

    fn select_previous_account(&mut self)
        ensures
            final(self)@ == old(self)@.select_previous_account(),
    {
        if !self.accounts.is_empty() {
            let i: usize = match self.active_account_index {
                None => 0,
                Some(i) => if i == 0 { self.accounts.len() - 1 } else { i - 1 },
            };
            self.active_account_index = Some(i);
            self.set_status("Selected previous account");
        }
    }

    fn select_next_account(&mut self)
        requires
            !old(self)@.cursor_at_index_limit(),
        ensures
            final(self)@ == old(self)@.select_next_account(),
    {
        if !self.accounts.is_empty() {
            let i: usize = match self.active_account_index {
                None => 0,
                Some(i) => if i == self.accounts.len() - 1 { 0 } else { i + 1 },
            };
            self.active_account_index = Some(i);
            self.set_status("Selected next account");
        }
    }

    fn copy_ssh_key_to_clipboard(&mut self, index: usize) -> (cmd: Option<Command>)
        ensures
            (final(self)@, command_view(cmd)) == old(self)@.copy_ssh_key_to_clipboard(index),
    {
        if index < self.accounts.len() {
            let email = self.accounts[index].email.clone();
            self.pending = Some(Pending::SshKey);
            Some(Command::FetchSshKey { email })
        } else {
            None
        }
    }

    fn set_active_account(&mut self, index: usize) -> (cmd: Option<Command>)
        ensures
            (final(self)@, command_view(cmd)) == old(self)@.set_active_account(index),
    {
        if index < self.accounts.len() {
            let email = self.accounts[index].email.clone();
            self.pending = Some(Pending::Switch(index));
            Some(Command::SwitchAccount { email })
        } else {
            None
        }
    }

    fn submit_new_account(&mut self) -> (cmd: Option<Command>)
        ensures
            (final(self)@, command_view(cmd)) == old(self)@.submit_new_account(),
    {
        if !self.new_account_name.as_str().is_empty() && !self.new_account_email.as_str().is_empty() {
            if is_valid_email(self.new_account_email.as_str()) {
                self.pending = Some(Pending::Add);
                Some(Command::AddAccount {
                    name: self.new_account_name.clone(),
                    email: self.new_account_email.clone(),
                })
            } else {
                self.set_status("Invalid email format. Please enter a valid email.");
                None
            }
        } else {
            self.set_status("Invalid input. Name and email are required.");
            None
        }
    }

    fn remove_account(&mut self) -> (cmd: Option<Command>)
        ensures
            (final(self)@, command_view(cmd)) == old(self)@.remove_account(),
    {
        match self.active_account_index {
            Some(index) => if index < self.accounts.len() {
                let email = self.accounts[index].email.clone();
                self.pending = Some(Pending::Remove(index));
                Some(Command::RemoveAccount { email })
            } else {
                None
            },
            None => None,
        }
    }
}

impl App {
    fn normal_key(&mut self, key: KeyEvent) -> (cmd: Option<Command>)
        requires
            key.code == KeyCode::Down ==> !old(self)@.cursor_at_index_limit(),
        ensures
            (final(self)@, command_view(cmd)) == normal_key_step(old(self)@, key),
    {
        match key.code {
            KeyCode::Char(c) => if c == 'q' {
                self.quit();
                None
            } else if c == 'c' && key.control {
                self.quit();
                None
            } else if c == 'h' {
                self.switch_to_tab(Tab::Help);
                None
            } else if c == '1' {
                self.switch_to_tab(Tab::Accounts);
                None
            } else if c == 'a' {
                self.popup = PopupType::AddAccount;
                self.new_account_name = String::new();
                self.new_account_email = String::new();
                self.input_mode = InputMode::Editing;
                None
            } else if c == 'r' {
                if self.active_account_index.is_some() {
                    self.popup = PopupType::RemoveConfirmation;
                }
                None
            } else if c == ' ' {
                match self.active_account_index {
                    Some(index) => self.set_active_account(index),
                    None => None,
                }
            } else {
                None
            },
            KeyCode::Tab => {
                self.next_tab();
                None
            },
            KeyCode::BackTab => {
                self.previous_tab();
                None
            },
            KeyCode::Up => {
                self.select_previous_account();
                None
            },
            KeyCode::Down => {
                self.select_next_account();
                None
            },
            KeyCode::Enter => match self.active_account_index {
                Some(index) => self.copy_ssh_key_to_clipboard(index),
                None => None,
            },
            _ => None,
        }
    }

    fn add_form_key(&mut self, key: KeyEvent) -> (cmd: Option<Command>)
        ensures
            (final(self)@, command_view(cmd)) == add_form_key_step(old(self)@, key),
    {
        match key.code {
            KeyCode::Enter => {
                if !self.new_account_name.as_str().is_empty() && !self.new_account_email.as_str().is_empty() {
                    self.submit_new_account()
                } else {
                    self.set_status("Please fill both name and email");
                    None
                }
            },
            KeyCode::Esc => {
                self.popup = PopupType::Closed;
                self.input_mode = InputMode::Normal;
                None
            },
            KeyCode::Up | KeyCode::Down | KeyCode::Tab | KeyCode::BackTab => {
                self.add_account_focus = match self.add_account_focus {
                    AddAccountField::Name => AddAccountField::Email,
                    AddAccountField::Email => AddAccountField::Name,
                };
                None
            },
            KeyCode::Char(c) => {
                match self.add_account_focus {
                    AddAccountField::Name => push_char(&mut self.new_account_name, c),
                    AddAccountField::Email => push_char(&mut self.new_account_email, c),
                }
                None
            },
            KeyCode::Backspace => {
                match self.add_account_focus {
                    AddAccountField::Name => {
                        pop_char(&mut self.new_account_name);
                    },
                    AddAccountField::Email => {
                        pop_char(&mut self.new_account_email);
                    },
                }
                None
            },
            _ => None,
        }
    }

    fn removal_key(&mut self, key: KeyEvent) -> (cmd: Option<Command>)
        ensures
            (final(self)@, command_view(cmd)) == removal_key_step(old(self)@, key),
    {
        match key.code {
            KeyCode::Char(c) => if c == 'y' || c == 'Y' {
                let cmd = self.remove_account();
                self.popup = PopupType::Closed;
                cmd
            } else if c == 'n' || c == 'N' {
                self.popup = PopupType::Closed;
                None
            } else {
                None
            },
            KeyCode::Esc => {
                self.popup = PopupType::Closed;
                None
            },
            _ => None,
        }
    }

    /// Reacts to a key press. Returns the outside work to carry out, whose
    /// outcome goes to `handle_reply`. Left out is the one key press whose
    /// arithmetic overflows: moving the cursor down from the largest index.
    pub fn handle_key_event(&mut self, key: KeyEvent) -> (cmd: Option<Command>)
        requires
            !(key.code == KeyCode::Down && old(self)@.pending is None && old(self)@.popup == PopupType::Closed
                && old(self)@.input_mode == InputMode::Normal && old(self)@.cursor_at_index_limit()),
        ensures
            (final(self)@, command_view(cmd)) == key_step(old(self)@, key),
            old(self)@.selection_in_bounds() ==> final(self)@.selection_in_bounds(),
    {
        proof {
            assert(self@.accounts.len() == self.accounts.len());
            if self@.selection_in_bounds() {
                key_step_keeps_selection_in_bounds(self@, key);
            }
        }
        if self.pending.is_some() {
            return None;
        }
        match self.popup {
            PopupType::Closed => match self.input_mode {
                InputMode::Normal => self.normal_key(key),
                InputMode::Editing => None,
            },
            PopupType::AddAccount => self.add_form_key(key),
            PopupType::RemoveConfirmation => self.removal_key(key),
        }
    }

    /// Reacts to the outcome of the outside work last asked for. Returns the
    /// next piece of work, if any.
    pub fn handle_reply(&mut self, reply: Reply) -> (cmd: Option<Command>)
        ensures
            (final(self)@, command_view(cmd)) == reply_step(old(self)@, reply@),
            old(self)@.selection_in_bounds() && old(self)@.pending != Some(Pending::ReloadAfterAdd)
                ==> final(self)@.selection_in_bounds(),
    {
        proof {
            if self@.selection_in_bounds() && self@.pending != Some(Pending::ReloadAfterAdd) {
                match &reply {
                    Reply::Accounts(Ok(v)) => {
                        assert(account_views(v@).len() == v.len());
                    },
                    _ => {},
                }
                reply_step_keeps_selection_in_bounds(self@, reply@);
            }
        }
        self.step_reply(reply)
    }

    #[verifier::rlimit(40)]
    fn step_reply(&mut self, reply: Reply) -> (cmd: Option<Command>)
        ensures
            (final(self)@, command_view(cmd)) == reply_step(old(self)@, reply@),
    {
        match (self.pending, reply) {
            (Some(Pending::SshKey), Reply::SshKey(Ok(key))) => {
                self.pending = Some(Pending::Clipboard);
                Some(Command::CopyToClipboard { text: key })
            },
            (Some(Pending::SshKey), Reply::SshKey(Err(e))) => {
                self.pending = None;
                self.status_message = String::from_str("Failed to get SSH key: ").concat(e.as_str());
                None
            },
            (Some(Pending::Clipboard), Reply::Clipboard(Ok(()))) => {
                self.pending = None;
                self.set_status("SSH key copied to clipboard");
                None
            },
            (Some(Pending::Clipboard), Reply::Clipboard(Err(e))) => {
                self.pending = None;
                self.status_message = String::from_str("Failed to copy SSH key: ").concat(e.as_str());
                None
            },
            (Some(Pending::Switch(i)), Reply::Switched(Ok(()))) => {
                if i < self.accounts.len() {
                    let email = self.accounts[i].email.clone();
                    let ghost before = account_views(self.accounts@);
                    let marked = mark_accounts_active(&self.accounts, &email);
                    assert(account_views(marked@)[i as int] == mark_active(before, email@)[i as int]);
                    assert(marked@[i as int].name@ == before[i as int].name);
                    self.accounts = marked;
                    self.active_account = Some(i);
                    self.active_account_index = Some(i);
                    self.status_message = String::from_str("Activated account: ").concat(self.accounts[i].name.as_str());
                    self.pending = None;
                } else {
                    self.pending = None;
                }
                None
            },
            (Some(Pending::Switch(_)), Reply::Switched(Err(e))) => {
                self.pending = None;
                self.status_message = String::from_str("Failed to switch account: ").concat(e.as_str());
                None
            },
            (Some(Pending::Add), Reply::Added(Ok(_))) => {
                self.set_status("New account added successfully!");
                self.new_account_name = String::new();
                self.new_account_email = String::new();
                self.popup = PopupType::Closed;
                self.input_mode = InputMode::Normal;
                self.pending = Some(Pending::ReloadAfterAdd);
                Some(Command::ListAccounts)
            },
            (Some(Pending::Add), Reply::Added(Err(e))) => {
                self.pending = None;
                self.status_message = String::from_str("Failed to add account: ").concat(e.as_str());
                None
            },
            (Some(Pending::Remove(i)), Reply::Removed(Ok(()))) => {
                if i < self.accounts.len() {
                    self.pending = Some(Pending::ReloadAfterRemove(i));
                    self.status_message = String::from_str("Removed account: ").concat(self.accounts[i].name.as_str());
                    Some(Command::ListAccounts)
                } else {
                    self.pending = None;
                    None
                }
            },
            (Some(Pending::Remove(_)), Reply::Removed(Err(e))) => {
                self.pending = None;
                self.status_message = String::from_str("Failed to remove account: ").concat(e.as_str());
                None
            },
            (Some(Pending::ReloadAfterAdd), Reply::Accounts(r)) => {
                self.accounts = match r {
                    Ok(v) => v,
                    Err(_) => Vec::new(),
                };
                self.pending = None;
                None
            },
            (Some(Pending::ReloadAfterRemove(i)), Reply::Accounts(r)) => {
                self.accounts = match r {
                    Ok(v) => v,
                    Err(_) => Vec::new(),
                };
                if self.accounts.is_empty() {
                    self.active_account_index = None;
                } else {
                    let last: usize = self.accounts.len() - 1;
                    self.active_account_index = Some(if i < last { i } else { last });
                }
                self.pending = None;
                None
            },
            _ => None,
        }
    }
}

/// The state the interface starts in, before any accounts are read.
pub open spec fn initial_model() -> AppModel {
    AppModel {
        running: false,
        accounts: Seq::empty(),
        selected: None,
        current: None,
        tab: Tab::Accounts,
        input_mode: InputMode::Normal,
        status: Seq::empty(),
        popup: PopupType::Closed,
        new_name: Seq::empty(),
        new_email: Seq::empty(),
        focus: AddAccountField::Name,
        pending: None,
    }
}

/// The index of the first account with address `email`.
fn position_of_email(accounts: &Vec<Account>, email: &String) -> (r: Option<usize>)
    ensures
        first_with_email(account_views(accounts@), email@, r),
{
    let mut k: usize = 0;
    while k < accounts.len()
        invariant
            k <= accounts.len(),
            forall|j: int| 0 <= j < k ==> #[trigger] accounts@[j].email@ != email@,
        decreases accounts.len() - k,
    {
        if accounts[k].email == *email {
            return Some(k);
        }
        k = k + 1;
    }
    None
}

impl Default for App {
    fn default() -> (a: App)
        ensures
            a@ == initial_model(),
    {
        App {
            running: false,
            accounts: Vec::new(),
            active_account_index: None,
            current_tab: Tab::default(),
            input_mode: InputMode::default(),
            status_message: String::new(),
            active_account: None,
            popup: PopupType::Closed,
            new_account_name: String::new(),
            new_account_email: String::new(),
            add_account_focus: AddAccountField::Name,
            pending: None,
        }
    }
}

impl App {
    /// The interface as it starts: running, with the stored accounts (none if
    /// they could not be read), a welcome message, and the cursor and the
    /// active mark on the first account whose address is the current Git
    /// user's, if Git names one.
    pub fn new(accounts: Result<Vec<Account>, String>, current_user: Result<Account, String>) -> (app: App)
        ensures
            app@.running,
            app@.accounts == listed_accounts(
                match accounts {
                    Ok(v) => Ok(account_views(v@)),
                    Err(e) => Err(e@),
                },
            ),
            app@.tab == Tab::Accounts,
            app@.input_mode == InputMode::Normal,
            app@.status == "Welcome to GitSwitch-Tui!"@,
            app@.popup == PopupType::Closed,
            app@.new_name == Seq::<char>::empty(),
            app@.new_email == Seq::<char>::empty(),
            app@.focus == AddAccountField::Name,
            app@.pending is None,
            app@.current == app@.selected,
            match current_user {
                Ok(user) => first_with_email(app@.accounts, user.email@, app@.selected),
                Err(_) => app@.selected is None,
            },
            app@.selection_in_bounds(),
    {
        let accounts = match accounts {
            Ok(v) => v,
            Err(_) => Vec::new(),
        };
        let mut app = App {
            running: true,
            accounts,
            active_account_index: None,
            current_tab: Tab::default(),
            input_mode: InputMode::default(),
            status_message: String::new(),
            active_account: None,
            popup: PopupType::Closed,
            new_account_name: String::new(),
            new_account_email: String::new(),
            add_account_focus: AddAccountField::Name,
            pending: None,
        };
        app.status_message = String::from_str("Welcome to GitSwitch-Tui!");
        if let Ok(user) = current_user {
            if let Some(index) = position_of_email(&app.accounts, &user.email) {
                app.active_account_index = Some(index);
                app.active_account = Some(index);
            }
        }
        app
    }

    /// Whether the interface should keep going.
    pub fn is_running(&self) -> (r: bool)
        ensures
            r == self@.running,
    {
        self.running
    }

    /// The stored accounts as last read.
    pub fn accounts(&self) -> (r: &Vec<Account>)
        ensures
            account_views(r@) == self@.accounts,
    {
        &self.accounts
    }

    /// The index of the account under the cursor.
    pub fn selected_index(&self) -> (r: Option<usize>)
        ensures
            r == self@.selected,
    {
        self.active_account_index
    }

    /// The index of the account shown as the Git identity.
    pub fn current_index(&self) -> (r: Option<usize>)
        ensures
            r == self@.current,
    {
        self.active_account
    }

    /// The tab on show.
    pub fn current_tab(&self) -> (r: Tab)
        ensures
            r == self@.tab,
    {
        self.current_tab
    }

    /// The position of the tab on show among the tab titles.
    pub fn tab_index(&self) -> (r: usize)
        ensures
            r == (match self@.tab {
                Tab::Accounts => 0usize,
                Tab::Help => 1usize,
            }),
    {
        match self.current_tab {
            Tab::Accounts => 0,
            Tab::Help => 1,
        }
    }

    /// Whether typed characters go to the form.
    pub fn input_mode(&self) -> (r: InputMode)
        ensures
            r == self@.input_mode,
    {
        self.input_mode
    }

    /// The dialog on show.
    pub fn popup(&self) -> (r: PopupType)
        ensures
            r == self@.popup,
    {
        self.popup
    }

    /// The form field that receives typed characters.
    pub fn focus(&self) -> (r: AddAccountField)
        ensures
            r == self@.focus,
    {
        self.add_account_focus
    }

    /// The outside work awaited, if any.
    pub fn pending(&self) -> (r: Option<Pending>)
        ensures
            r == self@.pending,
    {
        self.pending
    }

    /// The status line.
    pub fn status_message(&self) -> (r: &str)
        ensures
            r@ == self@.status,
    {
        self.status_message.as_str()
    }

    /// The name typed into the form.
    pub fn new_account_name(&self) -> (r: &str)
        ensures
            r@ == self@.new_name,
    {
        self.new_account_name.as_str()
    }

    /// The address typed into the form.
    pub fn new_account_email(&self) -> (r: &str)
        ensures
            r@ == self@.new_email,
    {
        self.new_account_email.as_str()
    }
}


/// One line of the account list.
pub struct AccountEntry {
    pub name: String,
    pub email: String,
    /// Whether the account is shown as the Git identity.
    pub highlighted: bool,
}

/// The panel that describes the account under the cursor.
pub enum AccountDetail {
    NoSelection,
    Selected { name: String, email: String, is_current: bool },
}

/// The dialog to draw over the tabs.
pub enum Dialog {
    Hidden,
    AddAccount { name: String, email: String, focus: AddAccountField },
    ConfirmRemoval { name: String, email: String },
    /// The removal dialog is open but the selection points past the accounts.
    AccountNotFound,
    /// The removal dialog is open but nothing is selected.
    NoAccountSelected,
}

impl App {
    /// The lines of the account list, one per account in order.
    pub fn account_entries(&self) -> (v: Vec<AccountEntry>)
        ensures
            v.len() == self@.accounts.len(),
            forall|i: int| 0 <= i < v.len() ==> {
                &&& (#[trigger] v@[i]).name@ == self@.accounts[i].name
                &&& v@[i].email@ == self@.accounts[i].email
                &&& v@[i].highlighted == (self@.current == Some(i as usize))
            },
    {
        let mut v: Vec<AccountEntry> = Vec::new();
        let mut k: usize = 0;
        while k < self.accounts.len()
            invariant
                k <= self.accounts.len(),
                v.len() == k,
                forall|i: int| 0 <= i < k ==> {
                    &&& (#[trigger] v@[i]).name@ == self.accounts@[i].name@
                    &&& v@[i].email@ == self.accounts@[i].email@
                    &&& v@[i].highlighted == (self.active_account == Some(i as usize))
                },
            decreases self.accounts.len() - k,
        {
            let highlighted = match self.active_account {
                Some(c) => c == k,
                None => false,
            };
            v.push(AccountEntry {
                name: self.accounts[k].name.clone(),
                email: self.accounts[k].email.clone(),
                highlighted,
            });
            k = k + 1;
        }
        v
    }

    /// The panel for the account under the cursor, which must exist.
    pub fn account_detail(&self) -> (d: AccountDetail)
        requires
            self@.selection_in_bounds(),
        ensures
            match self@.selected {
                None => d is NoSelection,
                Some(i) => match d {
                    AccountDetail::Selected { name, email, is_current } => {
                        &&& name@ == self@.accounts[i as int].name
                        &&& email@ == self@.accounts[i as int].email
                        &&& is_current == (self@.current == Some(i))
                    },
                    AccountDetail::NoSelection => false,
                },
            },
    {
        match self.active_account_index {
            None => AccountDetail::NoSelection,
            Some(i) => {
                let is_current = match self.active_account {
                    Some(c) => c == i,
                    None => false,
                };
                AccountDetail::Selected {
                    name: self.accounts[i].name.clone(),
                    email: self.accounts[i].email.clone(),
                    is_current,
                }
            },
        }
    }

    /// The dialog to draw, with what it shows.
    pub fn dialog(&self) -> (d: Dialog)
        ensures
            match self@.popup {
                PopupType::Closed => d is Hidden,
                PopupType::AddAccount => match d {
                    Dialog::AddAccount { name, email, focus } => {
                        &&& name@ == self@.new_name
                        &&& email@ == self@.new_email
                        &&& focus == self@.focus
                    },
                    _ => false,
                },
                PopupType::RemoveConfirmation => match self@.selected {
                    None => d is NoAccountSelected,
                    Some(i) => if i < self@.accounts.len() {
                        match d {
                            Dialog::ConfirmRemoval { name, email } => {
                                &&& name@ == self@.accounts[i as int].name
                                &&& email@ == self@.accounts[i as int].email
                            },
                            _ => false,
                        }
                    } else {
                        d is AccountNotFound
                    },
                },
            },
    {
        match self.popup {
            PopupType::Closed => Dialog::Hidden,
            PopupType::AddAccount => Dialog::AddAccount {
                name: self.new_account_name.clone(),
                email: self.new_account_email.clone(),
                focus: self.add_account_focus,
            },
            PopupType::RemoveConfirmation => match self.active_account_index {
                None => Dialog::NoAccountSelected,
                Some(i) => if i < self.accounts.len() {
                    Dialog::ConfirmRemoval {
                        name: self.accounts[i].name.clone(),
                        email: self.accounts[i].email.clone(),
                    }
                } else {
                    Dialog::AccountNotFound
                },
            },
        }
    }
}

} // verus!
