use gitswitch::app::{
    AccountDetail, AddAccountField, App, Command, Dialog, InputMode, KeyCode, KeyEvent, Pending,
    PopupType, Reply, Tab,
};
use gitswitch::db::Account;
use gitswitch::layout::{centered_rect, side_percentage, Area};

fn account(name: &str, email: &str, is_active: bool) -> Account {
    Account { email: email.to_string(), name: name.to_string(), is_active }
}

fn key(code: KeyCode) -> KeyEvent {
    KeyEvent { code, control: false }
}

fn three_accounts() -> Vec<Account> {
    vec![
        account("Ann", "ann@example.com", false),
        account("Bob", "bob@example.com", true),
        account("Cy", "cy@example.org", false),
    ]
}

fn app_with_three() -> App {
    App::new(Ok(three_accounts()), Ok(account("Bob", "bob@example.com", true)))
}

fn press(app: &mut App, code: KeyCode) -> Option<Command> {
    app.handle_key_event(key(code))
}

#[test]
fn new_selects_current_git_user() {
    let app = app_with_three();
    assert!(app.is_running());
    assert_eq!(app.accounts().len(), 3);
    assert_eq!(app.selected_index(), Some(1));
    assert_eq!(app.current_index(), Some(1));
    assert_eq!(app.status_message(), "Welcome to GitSwitch-Tui!");
    assert_eq!(app.current_tab(), Tab::Accounts);
    assert_eq!(app.popup(), PopupType::Closed);
    assert_eq!(app.input_mode(), InputMode::Normal);
    assert_eq!(app.pending(), None);
}

#[test]
fn new_without_known_user_selects_nothing() {
    let app = App::new(Ok(three_accounts()), Err("No current user found".to_string()));
    assert_eq!(app.selected_index(), None);
    let app = App::new(Ok(three_accounts()), Ok(account("Zed", "zed@example.com", false)));
    assert_eq!(app.selected_index(), None);
    assert_eq!(app.current_index(), None);
}

#[test]
fn new_with_unreadable_store_has_no_accounts() {
    let app = App::new(Err("no such table".to_string()), Ok(account("Bob", "bob@example.com", true)));
    assert!(app.accounts().is_empty());
    assert_eq!(app.selected_index(), None);
}

#[test]
fn new_picks_first_account_with_the_address() {
    let accounts = vec![account("A", "x@y.zz", false), account("B", "x@y.zz", false)];
    let app = App::new(Ok(accounts), Ok(account("B", "x@y.zz", false)));
    assert_eq!(app.selected_index(), Some(0));
}

#[test]
fn default_state_is_stopped_and_empty() {
    let app = App::default();
    assert!(!app.is_running());
    assert!(app.accounts().is_empty());
    assert_eq!(app.status_message(), "");
    assert_eq!(app.focus(), AddAccountField::Name);
    assert_eq!(Tab::default(), Tab::Accounts);
    assert_eq!(InputMode::default(), InputMode::Normal);
}

#[test]
fn tab_key_switches_and_reports() {
    let mut app = app_with_three();
    assert!(press(&mut app, KeyCode::Tab).is_none());
    assert_eq!(app.current_tab(), Tab::Help);
    assert_eq!(app.tab_index(), 1);
    assert_eq!(app.status_message(), "Switched to Help tab");
    press(&mut app, KeyCode::Tab);
    assert_eq!(app.current_tab(), Tab::Accounts);
    assert_eq!(app.tab_index(), 0);
    assert_eq!(app.status_message(), "Switched to Accounts tab");
    press(&mut app, KeyCode::BackTab);
    assert_eq!(app.current_tab(), Tab::Help);
}

#[test]
fn letter_keys_pick_tabs() {
    let mut app = app_with_three();
    press(&mut app, KeyCode::Char('h'));
    assert_eq!(app.current_tab(), Tab::Help);
    assert_eq!(app.status_message(), "Switched to Help tab");
    press(&mut app, KeyCode::Char('1'));
    assert_eq!(app.current_tab(), Tab::Accounts);
    assert_eq!(app.status_message(), "Switched to Accounts tab");
}

#[test]
fn quit_keys_stop_the_interface() {
    let mut app = app_with_three();
    press(&mut app, KeyCode::Char('c'));
    assert!(app.is_running());
    app.handle_key_event(KeyEvent { code: KeyCode::Char('c'), control: true });
    assert!(!app.is_running());
    let mut app = app_with_three();
    press(&mut app, KeyCode::Char('q'));
    assert!(!app.is_running());
    press(&mut app, KeyCode::Tab);
    assert!(!app.is_running());
}

#[test]
fn cursor_wraps_both_ways() {
    let mut app = app_with_three();
    press(&mut app, KeyCode::Down);
    assert_eq!(app.selected_index(), Some(2));
    assert_eq!(app.status_message(), "Selected next account");
    press(&mut app, KeyCode::Down);
    assert_eq!(app.selected_index(), Some(0));
    press(&mut app, KeyCode::Up);
    assert_eq!(app.selected_index(), Some(2));
    assert_eq!(app.status_message(), "Selected previous account");
    press(&mut app, KeyCode::Up);
    assert_eq!(app.selected_index(), Some(1));
}

#[test]
fn cursor_starts_at_first_account() {
    let mut app = App::new(Ok(three_accounts()), Err(String::new()));
    press(&mut app, KeyCode::Up);
    assert_eq!(app.selected_index(), Some(0));
    let mut app = App::new(Ok(three_accounts()), Err(String::new()));
    press(&mut app, KeyCode::Down);
    assert_eq!(app.selected_index(), Some(0));
}

#[test]
fn cursor_without_accounts_does_nothing() {
    let mut app = App::new(Ok(vec![]), Err(String::new()));
    press(&mut app, KeyCode::Down);
    press(&mut app, KeyCode::Up);
    assert_eq!(app.selected_index(), None);
    assert_eq!(app.status_message(), "Welcome to GitSwitch-Tui!");
}

#[test]
fn down_then_up_returns() {
    let mut app = app_with_three();
    press(&mut app, KeyCode::Down);
    press(&mut app, KeyCode::Up);
    assert_eq!(app.selected_index(), Some(1));
}

#[test]
fn add_form_typing_and_erasing() {
    let mut app = app_with_three();
    press(&mut app, KeyCode::Char('a'));
    assert_eq!(app.popup(), PopupType::AddAccount);
    assert_eq!(app.input_mode(), InputMode::Editing);
    for c in "Dee".chars() {
        press(&mut app, KeyCode::Char(c));
    }
    press(&mut app, KeyCode::Down);
    assert_eq!(app.focus(), AddAccountField::Email);
    for c in "d@e.fgx".chars() {
        press(&mut app, KeyCode::Char(c));
    }
    press(&mut app, KeyCode::Backspace);
    assert_eq!(app.new_account_name(), "Dee");
    assert_eq!(app.new_account_email(), "d@e.fg");
    press(&mut app, KeyCode::Up);
    assert_eq!(app.focus(), AddAccountField::Name);
    press(&mut app, KeyCode::Char('q'));
    assert!(app.is_running());
    assert_eq!(app.new_account_name(), "Deeq");
    press(&mut app, KeyCode::Backspace);
    assert_eq!(app.new_account_name(), "Dee");
}

#[test]
fn erasing_an_empty_field_keeps_it_empty() {
    let mut app = app_with_three();
    press(&mut app, KeyCode::Char('a'));
    press(&mut app, KeyCode::Backspace);
    assert_eq!(app.new_account_name(), "");
}

#[test]
fn add_form_escape_closes() {
    let mut app = app_with_three();
    press(&mut app, KeyCode::Char('a'));
    press(&mut app, KeyCode::Char('x'));
    press(&mut app, KeyCode::Esc);
    assert_eq!(app.popup(), PopupType::Closed);
    assert_eq!(app.input_mode(), InputMode::Normal);
    assert_eq!(app.new_account_name(), "x");
    press(&mut app, KeyCode::Char('a'));
    assert_eq!(app.new_account_name(), "");
}

#[test]
fn add_form_needs_both_fields() {
    let mut app = app_with_three();
    press(&mut app, KeyCode::Char('a'));
    press(&mut app, KeyCode::Char('x'));
    assert!(press(&mut app, KeyCode::Enter).is_none());
    assert_eq!(app.status_message(), "Please fill both name and email");
    assert_eq!(app.popup(), PopupType::AddAccount);
}

#[test]
fn add_form_rejects_bad_address() {
    let mut app = app_with_three();
    press(&mut app, KeyCode::Char('a'));
    press(&mut app, KeyCode::Char('x'));
    press(&mut app, KeyCode::Tab);
    for c in "not-an-address".chars() {
        press(&mut app, KeyCode::Char(c));
    }
    assert!(press(&mut app, KeyCode::Enter).is_none());
    assert_eq!(app.status_message(), "Invalid email format. Please enter a valid email.");
    assert_eq!(app.pending(), None);
}

fn fill_form(app: &mut App, name: &str, email: &str) {
    press(app, KeyCode::Char('a'));
    for c in name.chars() {
        press(app, KeyCode::Char(c));
    }
    press(app, KeyCode::Tab);
    for c in email.chars() {
        press(app, KeyCode::Char(c));
    }
}

#[test]
fn add_account_flow() {
    let mut app = app_with_three();
    fill_form(&mut app, "Dee", "dee@example.net");
    match press(&mut app, KeyCode::Enter) {
        Some(Command::AddAccount { name, email }) => {
            assert_eq!(name, "Dee");
            assert_eq!(email, "dee@example.net");
        }
        other => panic!("unexpected {:?}", other),
    }
    assert_eq!(app.pending(), Some(Pending::Add));
    assert!(press(&mut app, KeyCode::Char('q')).is_none());
    assert!(app.is_running());
    let next = app.handle_reply(Reply::Added(Ok("ssh-ed25519 AAAA dee@example.net".to_string())));
    assert!(matches!(next, Some(Command::ListAccounts)));
    assert_eq!(app.status_message(), "New account added successfully!");
    assert_eq!(app.popup(), PopupType::Closed);
    assert_eq!(app.input_mode(), InputMode::Normal);
    assert_eq!(app.new_account_name(), "");
    let mut listed = three_accounts();
    listed.push(account("Dee", "dee@example.net", true));
    assert!(app.handle_reply(Reply::Accounts(Ok(listed))).is_none());
    assert_eq!(app.accounts().len(), 4);
    assert_eq!(app.pending(), None);
    assert_eq!(app.selected_index(), Some(1));
}

#[test]
fn add_account_failure_keeps_form() {
    let mut app = app_with_three();
    fill_form(&mut app, "Dee", "dee@example.net");
    press(&mut app, KeyCode::Enter);
    assert!(app.handle_reply(Reply::Added(Err("disk full".to_string()))).is_none());
    assert_eq!(app.status_message(), "Failed to add account: disk full");
    assert_eq!(app.popup(), PopupType::AddAccount);
    assert_eq!(app.new_account_name(), "Dee");
    assert_eq!(app.pending(), None);
}

#[test]
fn failed_listing_after_add_empties_the_list() {
    let mut app = app_with_three();
    fill_form(&mut app, "Dee", "dee@example.net");
    press(&mut app, KeyCode::Enter);
    app.handle_reply(Reply::Added(Ok(String::new())));
    app.handle_reply(Reply::Accounts(Err("locked".to_string())));
    assert!(app.accounts().is_empty());
    assert_eq!(app.selected_index(), Some(1));
}

#[test]
fn copy_key_flow() {
    let mut app = app_with_three();
    match press(&mut app, KeyCode::Enter) {
        Some(Command::FetchSshKey { email }) => assert_eq!(email, "bob@example.com"),
        other => panic!("unexpected {:?}", other),
    }
    match app.handle_reply(Reply::SshKey(Ok("ssh-ed25519 KEY".to_string()))) {
        Some(Command::CopyToClipboard { text }) => assert_eq!(text, "ssh-ed25519 KEY"),
        other => panic!("unexpected {:?}", other),
    }
    assert_eq!(app.pending(), Some(Pending::Clipboard));
    assert!(app.handle_reply(Reply::Clipboard(Ok(()))).is_none());
    assert_eq!(app.status_message(), "SSH key copied to clipboard");
    assert_eq!(app.pending(), None);
}

#[test]
fn copy_key_failures() {
    let mut app = app_with_three();
    press(&mut app, KeyCode::Enter);
    assert!(app.handle_reply(Reply::SshKey(Err("no key".to_string()))).is_none());
    assert_eq!(app.status_message(), "Failed to get SSH key: no key");
    press(&mut app, KeyCode::Enter);
    app.handle_reply(Reply::SshKey(Ok("k".to_string())));
    app.handle_reply(Reply::Clipboard(Err("no display".to_string())));
    assert_eq!(app.status_message(), "Failed to copy SSH key: no display");
}

#[test]
fn enter_without_selection_does_nothing() {
    let mut app = App::new(Ok(three_accounts()), Err(String::new()));
    assert!(press(&mut app, KeyCode::Enter).is_none());
    assert!(press(&mut app, KeyCode::Char(' ')).is_none());
    press(&mut app, KeyCode::Char('r'));
    assert_eq!(app.popup(), PopupType::Closed);
    assert_eq!(app.pending(), None);
}

#[test]
fn switch_account_flow() {
    let mut app = app_with_three();
    press(&mut app, KeyCode::Down);
    match press(&mut app, KeyCode::Char(' ')) {
        Some(Command::SwitchAccount { email }) => assert_eq!(email, "cy@example.org"),
        other => panic!("unexpected {:?}", other),
    }
    assert_eq!(app.pending(), Some(Pending::Switch(2)));
    assert!(app.handle_reply(Reply::Switched(Ok(()))).is_none());
    assert_eq!(app.status_message(), "Activated account: Cy");
    let flags: Vec<bool> = app.accounts().iter().map(|a| a.is_active).collect();
    assert_eq!(flags, vec![false, false, true]);
    assert_eq!(app.current_index(), Some(2));
    assert_eq!(app.selected_index(), Some(2));
}

#[test]
fn switch_account_failure() {
    let mut app = app_with_three();
    press(&mut app, KeyCode::Char(' '));
    app.handle_reply(Reply::Switched(Err("git missing".to_string())));
    assert_eq!(app.status_message(), "Failed to switch account: git missing");
    assert_eq!(app.accounts()[1].is_active, true);
    assert_eq!(app.accounts()[0].is_active, false);
}

#[test]
fn switch_marks_every_account_with_the_address() {
    let accounts = vec![account("A", "same@x.io", false), account("B", "other@x.io", true), account("C", "same@x.io", false)];
    let mut app = App::new(Ok(accounts), Ok(account("A", "same@x.io", false)));
    press(&mut app, KeyCode::Char(' '));
    app.handle_reply(Reply::Switched(Ok(())));
    let flags: Vec<bool> = app.accounts().iter().map(|a| a.is_active).collect();
    assert_eq!(flags, vec![true, false, true]);
}

#[test]
fn remove_account_flow() {
    let mut app = app_with_three();
    press(&mut app, KeyCode::Down);
    press(&mut app, KeyCode::Char('r'));
    assert_eq!(app.popup(), PopupType::RemoveConfirmation);
    match app.dialog() {
        Dialog::ConfirmRemoval { name, email } => {
            assert_eq!(name, "Cy");
            assert_eq!(email, "cy@example.org");
        }
        _ => panic!("expected the confirmation"),
    }
    match press(&mut app, KeyCode::Char('Y')) {
        Some(Command::RemoveAccount { email }) => assert_eq!(email, "cy@example.org"),
        other => panic!("unexpected {:?}", other),
    }
    assert_eq!(app.popup(), PopupType::Closed);
    assert!(matches!(app.handle_reply(Reply::Removed(Ok(()))), Some(Command::ListAccounts)));
    assert_eq!(app.status_message(), "Removed account: Cy");
    let listed = vec![account("Ann", "ann@example.com", false), account("Bob", "bob@example.com", true)];
    app.handle_reply(Reply::Accounts(Ok(listed)));
    assert_eq!(app.accounts().len(), 2);
    assert_eq!(app.selected_index(), Some(1));
    assert_eq!(app.pending(), None);
}

#[test]
fn remove_last_remaining_account() {
    let mut app = App::new(Ok(vec![account("Ann", "ann@example.com", true)]), Ok(account("Ann", "ann@example.com", true)));
    press(&mut app, KeyCode::Char('r'));
    press(&mut app, KeyCode::Char('y'));
    app.handle_reply(Reply::Removed(Ok(())));
    app.handle_reply(Reply::Accounts(Ok(vec![])));
    assert_eq!(app.selected_index(), None);
    assert_eq!(app.current_index(), Some(0));
}

#[test]
fn remove_keeps_index_when_others_follow() {
    let mut app = App::new(Ok(three_accounts()), Ok(account("Ann", "ann@example.com", false)));
    press(&mut app, KeyCode::Char('r'));
    press(&mut app, KeyCode::Char('y'));
    app.handle_reply(Reply::Removed(Ok(())));
    let listed = vec![account("Bob", "bob@example.com", true), account("Cy", "cy@example.org", false)];
    app.handle_reply(Reply::Accounts(Ok(listed)));
    assert_eq!(app.selected_index(), Some(0));
}

#[test]
fn remove_failure_and_cancel() {
    let mut app = app_with_three();
    press(&mut app, KeyCode::Char('r'));
    press(&mut app, KeyCode::Char('x'));
    assert_eq!(app.popup(), PopupType::RemoveConfirmation);
    press(&mut app, KeyCode::Char('n'));
    assert_eq!(app.popup(), PopupType::Closed);
    press(&mut app, KeyCode::Char('r'));
    press(&mut app, KeyCode::Esc);
    assert_eq!(app.popup(), PopupType::Closed);
    press(&mut app, KeyCode::Char('r'));
    press(&mut app, KeyCode::Char('N'));
    assert_eq!(app.popup(), PopupType::Closed);
    press(&mut app, KeyCode::Char('r'));
    press(&mut app, KeyCode::Char('y'));
    app.handle_reply(Reply::Removed(Err("busy".to_string())));
    assert_eq!(app.status_message(), "Failed to remove account: busy");
    assert_eq!(app.accounts().len(), 3);
}

#[test]
fn unexpected_reply_is_ignored() {
    let mut app = app_with_three();
    assert!(app.handle_reply(Reply::Clipboard(Ok(()))).is_none());
    assert_eq!(app.status_message(), "Welcome to GitSwitch-Tui!");
    press(&mut app, KeyCode::Enter);
    assert!(app.handle_reply(Reply::Removed(Ok(()))).is_none());
    assert_eq!(app.pending(), Some(Pending::SshKey));
}

#[test]
fn account_list_and_detail_views() {
    let mut app = app_with_three();
    let entries = app.account_entries();
    assert_eq!(entries.len(), 3);
    assert_eq!(entries[0].name, "Ann");
    assert_eq!(entries[2].email, "cy@example.org");
    assert_eq!(entries.iter().map(|e| e.highlighted).collect::<Vec<_>>(), vec![false, true, false]);
    match app.account_detail() {
        AccountDetail::Selected { name, email, is_current } => {
            assert_eq!(name, "Bob");
            assert_eq!(email, "bob@example.com");
            assert!(is_current);
        }
        AccountDetail::NoSelection => panic!("expected a selection"),
    }
    press(&mut app, KeyCode::Down);
    match app.account_detail() {
        AccountDetail::Selected { is_current, .. } => assert!(!is_current),
        AccountDetail::NoSelection => panic!("expected a selection"),
    }
    let app = App::new(Ok(three_accounts()), Err(String::new()));
    assert!(matches!(app.account_detail(), AccountDetail::NoSelection));
}

#[test]
fn dialog_views() {
    let mut app = app_with_three();
    assert!(matches!(app.dialog(), Dialog::Hidden));
    press(&mut app, KeyCode::Char('a'));
    press(&mut app, KeyCode::Char('z'));
    match app.dialog() {
        Dialog::AddAccount { name, email, focus } => {
            assert_eq!(name, "z");
            assert_eq!(email, "");
            assert_eq!(focus, AddAccountField::Name);
        }
        _ => panic!("expected the form"),
    }
    press(&mut app, KeyCode::Esc);
    press(&mut app, KeyCode::Char('r'));
    match app.dialog() {
        Dialog::ConfirmRemoval { name, .. } => assert_eq!(name, "Bob"),
        _ => panic!("expected the confirmation"),
    }
}

#[test]
fn centred_box_margins() {
    assert_eq!(side_percentage(60), 20);
    assert_eq!(side_percentage(20), 40);
    assert_eq!(side_percentage(100), 0);
    assert_eq!(side_percentage(0), 50);
    assert_eq!(side_percentage(33), 33);
}

#[test]
fn centred_box_in_area() {
    let c = centered_rect(60, 20, Area { x: 0, y: 0, width: 100, height: 50 });
    assert_eq!(c, Area { x: 20, y: 20, width: 60, height: 10 });
    let c = centered_rect(50, 50, Area { x: 10, y: 4, width: 40, height: 20 });
    assert_eq!(c, Area { x: 20, y: 9, width: 20, height: 10 });
    let c = centered_rect(100, 100, Area { x: 3, y: 2, width: 7, height: 5 });
    assert_eq!(c, Area { x: 3, y: 2, width: 7, height: 5 });
}

#[test]
fn keys_work_with_cursor_past_the_accounts() {
    let mut app = app_with_three();
    let mut form = |app: &mut App| {
        press(app, KeyCode::Char('a'));
        for c in "Dee".chars() {
            press(app, KeyCode::Char(c));
        }
        press(app, KeyCode::Tab);
        for c in "dee@example.net".chars() {
            press(app, KeyCode::Char(c));
        }
        press(app, KeyCode::Enter);
    };
    form(&mut app);
    app.handle_reply(Reply::Added(Ok(String::new())));
    app.handle_reply(Reply::Accounts(Ok(vec![account("Dee", "dee@example.net", true)])));
    assert_eq!(app.selected_index(), Some(1));
    press(&mut app, KeyCode::Tab);
    assert_eq!(app.current_tab(), Tab::Help);
    press(&mut app, KeyCode::Down);
    assert_eq!(app.selected_index(), Some(2));
    press(&mut app, KeyCode::Up);
    assert_eq!(app.selected_index(), Some(1));
    assert!(press(&mut app, KeyCode::Enter).is_none());
    assert!(press(&mut app, KeyCode::Char(' ')).is_none());
    press(&mut app, KeyCode::Char('r'));
    assert!(matches!(app.dialog(), Dialog::AccountNotFound));
    assert!(press(&mut app, KeyCode::Char('y')).is_none());
    assert_eq!(app.popup(), PopupType::Closed);
}
