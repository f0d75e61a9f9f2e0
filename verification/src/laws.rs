//! Properties of the interface's reactions that hold across steps.

use vstd::prelude::*;
use crate::app::{
    email_accepted, key_step, reply_step, AddAccountField, AppModel, CommandView, InputMode, KeyCode, KeyEvent,
    Pending, PopupType, ReplyView,
};
use crate::db::{AccountView, USER_EMAIL_KEY, USER_NAME_KEY};
use crate::store::{
    add_awaited, remove_awaited, switch_awaited, git_set, git_unset, git_get, lookup_awaited, ActionView, add_step, fail, failure, flag_says_active, lookup_step, remove_step, succeeded, switch_step, AddModel, AddStage,
    LookupModel, LookupStage, OutcomeView, RemoveModel, RemoveStage, StepView, SwitchModel, SwitchStage,
};

verus! {

/// Whether the mode matches the dialog: typed characters go to the form
/// exactly when the new-account form is open.
pub open spec fn mode_matches_dialog(m: AppModel) -> bool {
    (m.popup == PopupType::AddAccount) <==> (m.input_mode == InputMode::Editing)
}

/// A key press with no dialog open, outside the form and with nothing awaited.
pub open spec fn idle(m: AppModel) -> bool {
    m.pending is None && m.popup == PopupType::Closed && m.input_mode == InputMode::Normal
}

/// A key press with only this code held.
pub open spec fn plain(code: KeyCode) -> KeyEvent {
    KeyEvent { code, control: false }
}

/// Moving to the next tab twice comes back to the same tab, and moving to
/// the previous tab is moving to the next one.
pub proof fn tab_cycle(m: AppModel)
    ensures
        m.next_tab().next_tab().tab == m.tab,
        m.previous_tab() == m.next_tab(),
        m.next_tab().tab != m.tab,
{
}

/// Pressing Tab twice in the idle state shows the same tab again.
pub proof fn tab_key_twice(m: AppModel)
    requires
        idle(m),
    ensures
        key_step(key_step(m, plain(KeyCode::Tab)).0, plain(KeyCode::Tab)).0.tab == m.tab,
        key_step(m, plain(KeyCode::BackTab)) == key_step(m, plain(KeyCode::Tab)),
{
}

/// Moving the cursor keeps it on an account, and with no accounts leaves
/// the state as it was.
pub proof fn selection_moves_stay_in_bounds(m: AppModel)
    requires
        m.selection_in_bounds(),
        m.accounts.len() <= usize::MAX,
    ensures
        m.accounts.len() > 0 ==> m.select_next_account().selection_in_bounds(),
        m.accounts.len() > 0 ==> m.select_previous_account().selection_in_bounds(),
        m.accounts.len() == 0 ==> m.select_next_account() == m && m.select_previous_account() == m,
{
}

/// The cursor wraps around: down from the last account goes to the first,
/// up from the first goes to the last.
pub proof fn selection_wraps(m: AppModel)
    requires
        0 < m.accounts.len() <= usize::MAX,
    ensures
        m.selected == Some((m.accounts.len() - 1) as usize) ==> m.select_next_account().selected == Some(0usize),
        m.selected == Some(0usize) ==> m.select_previous_account().selected == Some((m.accounts.len() - 1) as usize),
{
}

/// Down then up, or up then down, brings the cursor back to the account it
/// was on.
pub proof fn selection_moves_undo(m: AppModel)
    requires
        m.selection_in_bounds(),
        m.accounts.len() <= usize::MAX,
        m.selected is Some,
    ensures
        m.select_next_account().select_previous_account().selected == m.selected,
        m.select_previous_account().select_next_account().selected == m.selected,
{
}

/// A key press keeps the cursor on an account.
pub proof fn key_step_keeps_selection_in_bounds(m: AppModel, key: KeyEvent)
    requires
        m.selection_in_bounds(),
        m.accounts.len() <= usize::MAX,
    ensures
        key_step(m, key).0.selection_in_bounds(),
        key_step(m, key).0.accounts == m.accounts,
{
}

/// A reply keeps the cursor on an account, but for the listing that follows
/// the creation of an account: that one keeps the index as it was, which
/// points past the accounts when the new list is shorter.
pub proof fn reply_step_keeps_selection_in_bounds(m: AppModel, reply: ReplyView)
    requires
        m.selection_in_bounds(),
        reply matches ReplyView::Accounts(Ok(s)) ==> s.len() <= usize::MAX,
        m.pending != Some(Pending::ReloadAfterAdd),
    ensures
        reply_step(m, reply).0.selection_in_bounds(),
{
}

/// After the listing that follows a creation, the cursor is on an account
/// exactly when it was on an index below the length of the new list.
pub proof fn reload_after_add_selection(m: AppModel, reply: ReplyView)
    requires
        m.pending == Some(Pending::ReloadAfterAdd),
        reply is Accounts,
    ensures
        reply_step(m, reply).0.selected == m.selected,
        reply_step(m, reply).0.selection_in_bounds() <==> (m.selected matches Some(i) ==> i < reply_step(m, reply).0.accounts.len()),
{
}

/// Typed characters go to the form exactly when the form is open, whatever
/// keys and replies come.
pub proof fn steps_keep_mode_matching_dialog(m: AppModel, key: KeyEvent, reply: ReplyView)
    requires
        mode_matches_dialog(m),
    ensures
        mode_matches_dialog(key_step(m, key).0),
        mode_matches_dialog(reply_step(m, reply).0),
{
}

/// Once stopped, the interface stays stopped.
pub proof fn stopping_is_final(m: AppModel, key: KeyEvent, reply: ReplyView)
    requires
        !m.running,
    ensures
        !key_step(m, key).0.running,
        !reply_step(m, reply).0.running,
{
}

/// `q`, and Control-`c`, stop the interface in the idle state.
pub proof fn quit_keys_stop(m: AppModel)
    requires
        idle(m),
    ensures
        !key_step(m, plain(KeyCode::Char('q'))).0.running,
        !key_step(m, KeyEvent { code: KeyCode::Char('c'), control: true }).0.running,
        key_step(m, plain(KeyCode::Char('c'))) == (m, None::<CommandView>),
{
}

/// While outside work is awaited, key presses change nothing.
pub proof fn keys_wait_for_replies(m: AppModel, key: KeyEvent)
    requires
        m.pending is Some,
    ensures
        key_step(m, key) == (m, None::<CommandView>),
{
}

/// A key press in a state that awaits nothing asks for outside work exactly
/// when the new state awaits its outcome.
pub proof fn key_commands_are_awaited(m: AppModel, key: KeyEvent)
    requires
        m.pending is None,
    ensures
        key_step(m, key).1 is Some <==> key_step(m, key).0.pending is Some,
{
}

/// A reply is either ignored, leaving the state and asking for nothing, or
/// answers the awaited work: then the next command is asked for exactly when
/// its outcome is awaited.
pub proof fn reply_commands_are_awaited(m: AppModel, reply: ReplyView)
    ensures
        reply_step(m, reply) == (m, None::<CommandView>)
            || (reply_step(m, reply).1 is Some <==> reply_step(m, reply).0.pending is Some),
{
}

/// In the new-account form, typing a character and erasing it gives back
/// the state as it was (while outside work is awaited both keys are dropped).
pub proof fn typing_then_erasing(m: AppModel, c: char)
    requires
        m.popup == PopupType::AddAccount,
    ensures
        key_step(key_step(m, plain(KeyCode::Char(c))).0, plain(KeyCode::Backspace)) == (m, None::<CommandView>),
{
    if m.pending is None {
        let m1 = key_step(m, plain(KeyCode::Char(c))).0;
        match m.focus {
            AddAccountField::Name => assert(m1.new_name.drop_last() =~= m.new_name),
            AddAccountField::Email => assert(m1.new_email.drop_last() =~= m.new_email),
        }
    }
}

/// In the new-account form, moving the focus twice gives back the state as
/// it was, and with nothing awaited the first move changes the field.
pub proof fn focus_toggle_twice(m: AppModel)
    requires
        m.popup == PopupType::AddAccount,
    ensures
        key_step(key_step(m, plain(KeyCode::Up)).0, plain(KeyCode::Down)) == (m, None::<CommandView>),
        m.pending is None ==> key_step(m, plain(KeyCode::Up)).0.focus != m.focus,
{
}

/// Opening the new-account form starts it empty, and cancelling it closes
/// the form and keeps what was typed aside from the dialog and mode.
pub proof fn add_form_open_and_cancel(m: AppModel)
    requires
        idle(m),
    ensures
        key_step(m, plain(KeyCode::Char('a'))).0.popup == PopupType::AddAccount,
        key_step(m, plain(KeyCode::Char('a'))).0.new_name.len() == 0,
        key_step(m, plain(KeyCode::Char('a'))).0.new_email.len() == 0,
        key_step(key_step(m, plain(KeyCode::Char('a'))).0, plain(KeyCode::Esc)).0.popup == PopupType::Closed,
        key_step(key_step(m, plain(KeyCode::Char('a'))).0, plain(KeyCode::Esc)).0.input_mode == InputMode::Normal,
{
}

/// A new account is asked for only with both fields filled and an address
/// that passes the e-mail check, and then with exactly what was typed.
pub proof fn creation_needs_valid_input(m: AppModel)
    requires
        m.pending is None,
        m.popup == PopupType::AddAccount,
    ensures
        key_step(m, plain(KeyCode::Enter)).1 is Some <==> (m.new_name.len() > 0 && m.new_email.len() > 0
            && email_accepted(m.new_email)),
        key_step(m, plain(KeyCode::Enter)).1 is Some ==> key_step(m, plain(KeyCode::Enter)).1
            == Some(CommandView::AddAccount { name: m.new_name, email: m.new_email }),
{
}

/// After a successful switch to the account at `i`, exactly the accounts with
/// its address are marked active, names and addresses are kept, and the
/// cursor and the active mark are on it.
pub proof fn switch_marks_exactly_one_address(m: AppModel, i: usize)
    requires
        m.pending == Some(Pending::Switch(i)),
        i < m.accounts.len(),
    ensures
        ({
            let m2 = reply_step(m, ReplyView::Switched(Ok(()))).0;
            &&& m2.accounts.len() == m.accounts.len()
            &&& forall|j: int| 0 <= j < m.accounts.len() ==> {
                &&& (#[trigger] m2.accounts[j]).is_active == (m.accounts[j].email == m.accounts[i as int].email)
                &&& m2.accounts[j].name == m.accounts[j].name
                &&& m2.accounts[j].email == m.accounts[j].email
            }
            &&& m2.accounts[i as int].is_active
            &&& m2.selected == Some(i)
            &&& m2.current == Some(i)
            &&& m2.pending is None
        }),
{
}

/// After the listing that follows a removal, the cursor is on the account
/// that took the removed one's place, or on the last one, or nowhere if none
/// is left.
pub proof fn reload_after_remove_selection(m: AppModel, i: usize, listed: Seq<AccountView>)
    requires
        m.pending == Some(Pending::ReloadAfterRemove(i)),
        listed.len() <= usize::MAX,
    ensures
        ({
            let m2 = reply_step(m, ReplyView::Accounts(Ok(listed))).0;
            &&& m2.accounts == listed
            &&& listed.len() == 0 ==> m2.selected is None
            &&& listed.len() > 0 ==> m2.selected == Some(if i < listed.len() - 1 { i } else { (listed.len() - 1) as usize })
            &&& m2.selection_in_bounds()
        }),
{
}

/// The order of the stages of a creation.
pub open spec fn add_rank(s: AddStage) -> int {
    match s {
        AddStage::OpenStore => 0,
        AddStage::Deactivate => 1,
        AddStage::StoreAccount => 2,
        AddStage::CreateKeyDir => 3,
        AddStage::ClearKeyFiles => 4,
        AddStage::GenerateKeys => 5,
        AddStage::ReadKeys => 6,
        AddStage::StoreKeys => 7,
        AddStage::SetGitName => 8,
        AddStage::SetGitEmail => 9,
        AddStage::Finished => 10,
    }
}

/// The order of the stages of a removal.
pub open spec fn remove_rank(s: RemoveStage) -> int {
    match s {
        RemoveStage::OpenStore => 0,
        RemoveStage::ReadFlag => 1,
        RemoveStage::DeleteAccount => 2,
        RemoveStage::DeleteKeys => 3,
        RemoveStage::UnsetGitName => 4,
        RemoveStage::UnsetGitEmail => 5,
        RemoveStage::RemoveKeyFiles => 6,
        RemoveStage::Finished => 7,
    }
}

/// The order of the stages of a switch.
pub open spec fn switch_rank(s: SwitchStage) -> int {
    match s {
        SwitchStage::OpenStore => 0,
        SwitchStage::Deactivate => 1,
        SwitchStage::Activate => 2,
        SwitchStage::ReadName => 3,
        SwitchStage::OpenKeyStore => 4,
        SwitchStage::ReadKeys => 5,
        SwitchStage::WriteKeys => 6,
        SwitchStage::SetGitName => 7,
        SwitchStage::SetGitEmail => 8,
        SwitchStage::Finished => 9,
    }
}

/// The order of the stages of a lookup.
pub open spec fn lookup_rank(s: LookupStage) -> int {
    match s {
        LookupStage::GetGitName => 0,
        LookupStage::GetGitEmail => 1,
        LookupStage::OpenStore => 2,
        LookupStage::ReadFlag => 3,
        LookupStage::Finished => 4,
    }
}

/// Every step of an operation moves it to a later stage, and it asks for
/// more work exactly when it has not finished; so each operation ends after
/// a bounded number of steps.
pub proof fn operations_progress(
    a: AddModel,
    r: RemoveModel,
    s: SwitchModel,
    l: LookupModel,
    o: OutcomeView,
)
    ensures
        a.stage != AddStage::Finished ==> add_rank(add_step(a, o).0.stage) > add_rank(a.stage)
            && (add_step(a, o).1 is Perform <==> add_step(a, o).0.stage != AddStage::Finished),
        r.stage != RemoveStage::Finished ==> remove_rank(remove_step(r, o).0.stage) > remove_rank(r.stage)
            && (remove_step(r, o).1 is Perform <==> remove_step(r, o).0.stage != RemoveStage::Finished),
        s.stage != SwitchStage::Finished ==> switch_rank(switch_step(s, o).0.stage) > switch_rank(s.stage)
            && (switch_step(s, o).1 is Perform <==> switch_step(s, o).0.stage != SwitchStage::Finished),
        l.stage != LookupStage::Finished ==> lookup_rank(lookup_step(l, o).0.stage) > lookup_rank(l.stage)
            && (lookup_step(l, o).1 is Perform <==> lookup_step(l, o).0.stage != LookupStage::Finished),
{
}

/// A failed piece of work ends the operation with its message; the only
/// failures that do not are those of removing old key files, and of reading
/// the active flag, which then counts as inactive.
pub proof fn failures_end_operations(a: AddModel, r: RemoveModel, s: SwitchModel, l: LookupModel, o: OutcomeView)
    requires
        !succeeded(o),
    ensures
        a.stage != AddStage::Finished && a.stage != AddStage::ClearKeyFiles
            ==> add_step(a, o).1 == fail::<Seq<u8>>(o) && add_step(a, o).0.stage == AddStage::Finished,
        r.stage != RemoveStage::Finished && r.stage != RemoveStage::ReadFlag && r.stage != RemoveStage::RemoveKeyFiles
            ==> remove_step(r, o).1 == fail::<()>(o) && remove_step(r, o).0.stage == RemoveStage::Finished,
        s.stage != SwitchStage::Finished
            ==> switch_step(s, o).1 == fail::<()>(o) && switch_step(s, o).0.stage == SwitchStage::Finished,
        l.stage != LookupStage::Finished && l.stage != LookupStage::ReadFlag
            ==> lookup_step(l, o).1 == fail::<AccountView>(o) && lookup_step(l, o).0.stage == LookupStage::Finished,
        r.stage == RemoveStage::ReadFlag ==> !remove_step(r, o).0.was_active,
        l.stage == LookupStage::ReadFlag ==> (lookup_step(l, o).1 matches StepView::Finished(Ok(u)) && !u.is_active),
{
}

/// The Git identity changes only once the rest is in place: a creation sets
/// it only after the new key pair was stored, a switch only after the key
/// files were written, and a removal unsets it only when the removed account
/// was read as active and its rows were deleted.
pub proof fn git_identity_changes_last(a: AddModel, r: RemoveModel, s: SwitchModel, o: OutcomeView)
    ensures
        add_step(a, o).0.stage == AddStage::SetGitName && a.stage != AddStage::SetGitName
            ==> a.stage == AddStage::StoreKeys && succeeded(o),
        switch_step(s, o).0.stage == SwitchStage::SetGitName && s.stage != SwitchStage::SetGitName
            ==> s.stage == SwitchStage::WriteKeys && succeeded(o),
        remove_step(r, o).0.stage == RemoveStage::UnsetGitName && r.stage != RemoveStage::UnsetGitName
            ==> r.stage == RemoveStage::DeleteKeys && succeeded(o) && r.was_active,
        remove_step(r, o).0.was_active && !r.was_active ==> r.stage == RemoveStage::ReadFlag && flag_says_active(o),
{
}

/// A creation ends well only after setting the Git address, with the public
/// key it read from the new key files; a lookup ends well only from reading
/// the active flag, with the name and address that Git gave.
pub proof fn results_of_operations(a: AddModel, l: LookupModel, o: OutcomeView)
    ensures
        a.stage != AddStage::Finished ==> (add_step(a, o).1 matches StepView::Finished(Ok(key))
            ==> a.stage == AddStage::SetGitEmail && key == a.public_key),
        a.stage == AddStage::ReadKeys && succeeded(o) && o is KeyPair
            ==> add_step(a, o).0.public_key == o->KeyPair_0->Ok_0.1,
        l.stage != LookupStage::Finished && l.stage != LookupStage::ReadFlag
            ==> (lookup_step(l, o).1 matches StepView::Finished(Ok(u)) ==> false),
        l.stage == LookupStage::ReadFlag ==> (lookup_step(l, o).1 matches StepView::Finished(Ok(u))
            && u.name == l.name && u.email == l.email),
{
}

/// Past the reading of the Git identity, a lookup holds a non-empty name and
/// address.
pub open spec fn lookup_identity_checked(l: LookupModel) -> bool {
    (l.stage == LookupStage::OpenStore || l.stage == LookupStage::ReadFlag) ==> l.name.len() > 0 && l.email.len() > 0
}

/// A lookup keeps its identity checked from its start on, so it ends well
/// only with a non-empty name and address.
pub proof fn lookup_results_have_identity(l: LookupModel, o: OutcomeView)
    requires
        lookup_identity_checked(l),
        l.stage != LookupStage::Finished,
    ensures
        lookup_identity_checked(lookup_step(l, o).0),
        lookup_step(l, o).1 matches StepView::Finished(Ok(u)) ==> u.name.len() > 0 && u.email.len() > 0,
{
}

/// Whether an action only reads: Git configuration reads, opening the store
/// and reading the active flag.
pub open spec fn reads_only(a: ActionView) -> bool {
    ||| a == (ActionView::Git { args: git_get(USER_NAME_KEY@) })
    ||| a == (ActionView::Git { args: git_get(USER_EMAIL_KEY@) })
    ||| a is OpenStore
    ||| a is ReadActiveFlag
}

/// The lookup of the current user asks only for reads, at its start and at
/// every step: it changes neither the store, nor the Git configuration, nor
/// the key files.
pub proof fn lookup_only_reads(l: LookupModel, o: OutcomeView)
    ensures
        reads_only(lookup_awaited(l)),
        lookup_step(l, o).1 matches StepView::Perform(a) ==> reads_only(a),
{
}

/// Enter in the idle state asks for the public key of the account under the
/// cursor, whichever account carries the active mark, and awaits it.
pub proof fn enter_copies_key_under_cursor(m: AppModel, i: usize)
    requires
        idle(m),
        m.selected == Some(i),
        i < m.accounts.len(),
    ensures
        key_step(m, plain(KeyCode::Enter)).1 == Some(CommandView::FetchSshKey { email: m.accounts[i as int].email }),
        key_step(m, plain(KeyCode::Enter)).0.pending == Some(Pending::SshKey),
        key_step(m, plain(KeyCode::Enter)).0.accounts == m.accounts,
        key_step(m, plain(KeyCode::Enter)).0.selected == m.selected,
{
}

/// Enter or Space with nothing under the cursor asks for nothing.
pub proof fn keys_without_cursor_ask_nothing(m: AppModel)
    requires
        idle(m),
        m.selected is None,
    ensures
        key_step(m, plain(KeyCode::Enter)) == (m, None::<CommandView>),
        key_step(m, plain(KeyCode::Char(' '))) == (m, None::<CommandView>),
{
}

/// Space in the idle state asks to switch to the account under the cursor
/// and remembers which account that is.
pub proof fn space_switches_to_account_under_cursor(m: AppModel, i: usize)
    requires
        idle(m),
        m.selected == Some(i),
        i < m.accounts.len(),
    ensures
        key_step(m, plain(KeyCode::Char(' '))).1 == Some(CommandView::SwitchAccount { email: m.accounts[i as int].email }),
        key_step(m, plain(KeyCode::Char(' '))).0.pending == Some(Pending::Switch(i)),
        key_step(m, plain(KeyCode::Char(' '))).0.accounts == m.accounts,
{
}

/// Confirming a removal asks to remove the account under the cursor and
/// closes the dialog.
pub proof fn confirming_removes_account_under_cursor(m: AppModel, i: usize, c: char)
    requires
        m.pending is None,
        m.popup == PopupType::RemoveConfirmation,
        m.selected == Some(i),
        i < m.accounts.len(),
        c == 'y' || c == 'Y',
    ensures
        key_step(m, plain(KeyCode::Char(c))).1 == Some(CommandView::RemoveAccount { email: m.accounts[i as int].email }),
        key_step(m, plain(KeyCode::Char(c))).0.pending == Some(Pending::Remove(i)),
        key_step(m, plain(KeyCode::Char(c))).0.popup == PopupType::Closed,
        key_step(m, plain(KeyCode::Char(c))).0.accounts == m.accounts,
{
}

/// The key that was read is the text that goes to the clipboard.
pub proof fn fetched_key_goes_to_clipboard(m: AppModel, key: Seq<char>)
    requires
        m.pending == Some(Pending::SshKey),
    ensures
        reply_step(m, ReplyView::SshKey(Ok(key))).1 == Some(CommandView::CopyToClipboard { text: key }),
        reply_step(m, ReplyView::SshKey(Ok(key))).0.pending == Some(Pending::Clipboard),
{
}

/// In the form, a typed character goes to the end of the focused field and
/// Backspace erases the last character of the focused field, if it has one;
/// the other field, the focus and the dialog stay as they were.
pub proof fn form_keys_edit_only_focused_field(m: AppModel, c: char)
    requires
        m.pending is None,
        m.popup == PopupType::AddAccount,
    ensures
        ({
            let t = key_step(m, plain(KeyCode::Char(c))).0;
            let e = key_step(m, plain(KeyCode::Backspace)).0;
            &&& t.focus == m.focus && e.focus == m.focus
            &&& t.popup == m.popup && e.popup == m.popup
            &&& m.focus == AddAccountField::Name ==> {
                &&& t.new_name == m.new_name.push(c) && t.new_email == m.new_email
                &&& e.new_email == m.new_email
                &&& m.new_name.len() > 0 ==> e.new_name == m.new_name.subrange(0, m.new_name.len() - 1)
            }
            &&& m.focus == AddAccountField::Email ==> {
                &&& t.new_email == m.new_email.push(c) && t.new_name == m.new_name
                &&& e.new_name == m.new_name
                &&& m.new_email.len() > 0 ==> e.new_email == m.new_email.subrange(0, m.new_email.len() - 1)
            }
            &&& key_step(m, plain(KeyCode::Char(c))).1 is None && key_step(m, plain(KeyCode::Backspace)).1 is None
        }),
{
}

/// Backspace on an empty focused field changes nothing.
pub proof fn erasing_empty_field_changes_nothing(m: AppModel)
    requires
        m.popup == PopupType::AddAccount,
        m.focus == AddAccountField::Name ==> m.new_name.len() == 0,
        m.focus == AddAccountField::Email ==> m.new_email.len() == 0,
    ensures
        key_step(m, plain(KeyCode::Backspace)) == (m, None::<CommandView>),
{
    assert(m.new_name.len() == 0 ==> m.new_name == Seq::<char>::empty());
}

/// Every action of a removal that names an account names the address being
/// removed, and the address never changes while the removal runs.
pub proof fn removal_names_its_account(m: RemoveModel, o: OutcomeView)
    ensures
        remove_step(m, o).0.email == m.email,
        ({
            let a = remove_awaited(m);
            &&& a matches ActionView::ReadActiveFlag { email } ==> email == m.email
            &&& a matches ActionView::DeleteAccount { email } ==> email == m.email
            &&& a matches ActionView::DeleteKeys { email } ==> email == m.email
            &&& a matches ActionView::Git { args } ==> args == git_unset(USER_NAME_KEY@) || args == git_unset(USER_EMAIL_KEY@)
        }),
        m.stage == RemoveStage::ReadFlag ==> remove_step(m, o).1 == StepView::<()>::Perform(ActionView::DeleteAccount { email: m.email }),
        m.stage == RemoveStage::DeleteAccount && succeeded(o) ==> remove_step(m, o).1 == StepView::<()>::Perform(ActionView::DeleteKeys { email: m.email }),
        m.stage == RemoveStage::OpenStore && succeeded(o) ==> remove_step(m, o).1 == StepView::<()>::Perform(ActionView::ReadActiveFlag { email: m.email }),
{
}

/// Every action of a switch that names an account names the address being
/// switched to; the address never changes; the Git name set is the name read
/// from the store, and the key files get the key pair read from the store.
pub proof fn switch_names_its_account(m: SwitchModel, o: OutcomeView, name: Seq<char>, keys: (Seq<u8>, Seq<u8>))
    ensures
        switch_step(m, o).0.email == m.email,
        ({
            let a = switch_awaited(m);
            &&& a matches ActionView::ActivateAccount { email } ==> email == m.email
            &&& a matches ActionView::ReadName { email } ==> email == m.email
            &&& a matches ActionView::ReadKeyPair { email } ==> email == m.email
            &&& a matches ActionView::WriteKeyFiles { private_key, public_key } ==> private_key == m.private_key && public_key == m.public_key
        }),
        m.stage == SwitchStage::Deactivate && succeeded(o) ==> switch_step(m, o).1 == StepView::<()>::Perform(ActionView::ActivateAccount { email: m.email }),
        m.stage == SwitchStage::Activate && succeeded(o) ==> switch_step(m, o).1 == StepView::<()>::Perform(ActionView::ReadName { email: m.email }),
        m.stage == SwitchStage::ReadName ==> switch_step(m, OutcomeView::Text(Ok(name))).0.name == name,
        m.stage == SwitchStage::ReadKeys ==> switch_step(m, OutcomeView::KeyPair(Ok(keys))).1
            == StepView::<()>::Perform(ActionView::WriteKeyFiles { private_key: keys.0, public_key: keys.1 }),
        m.stage == SwitchStage::WriteKeys && succeeded(o) ==> switch_step(m, o).1
            == StepView::<()>::Perform(ActionView::Git { args: git_set(USER_NAME_KEY@, m.name) }),
        m.stage == SwitchStage::SetGitName && succeeded(o) ==> switch_step(m, o).1
            == StepView::<()>::Perform(ActionView::Git { args: git_set(USER_EMAIL_KEY@, m.email) }),
        m.stage != SwitchStage::ReadName && m.stage != SwitchStage::ReadKeys ==> switch_step(m, o).0.name == m.name
            && switch_step(m, o).0.private_key == m.private_key && switch_step(m, o).0.public_key == m.public_key,
{
}

/// Every action of a creation that names the account names its address and
/// name as given; they never change; the key pair stored is the one read
/// from the new key files.
pub proof fn creation_names_its_account(m: AddModel, o: OutcomeView, keys: (Seq<u8>, Seq<u8>))
    ensures
        add_step(m, o).0.email == m.email,
        add_step(m, o).0.name == m.name,
        ({
            let a = add_awaited(m);
            &&& a matches ActionView::UpsertAccount { email, name } ==> email == m.email && name == m.name
            &&& a matches ActionView::GenerateKeyFiles { email } ==> email == m.email
            &&& a matches ActionView::UpsertKeys { email, private_key, public_key } ==> email == m.email
                && private_key == m.private_key && public_key == m.public_key
            &&& a matches ActionView::Git { args } ==> args == git_set(USER_NAME_KEY@, m.name) || args == git_set(USER_EMAIL_KEY@, m.email)
        }),
        m.stage == AddStage::ReadKeys ==> add_step(m, OutcomeView::KeyPair(Ok(keys))).1
            == StepView::<Seq<u8>>::Perform(ActionView::UpsertKeys { email: m.email, private_key: keys.0, public_key: keys.1 }),
        m.stage == AddStage::StoreKeys && succeeded(o) ==> add_step(m, o).1
            == StepView::<Seq<u8>>::Perform(ActionView::Git { args: git_set(USER_NAME_KEY@, m.name) }),
        m.stage == AddStage::SetGitName && succeeded(o) ==> add_step(m, o).1
            == StepView::<Seq<u8>>::Perform(ActionView::Git { args: git_set(USER_EMAIL_KEY@, m.email) }),
        m.stage == AddStage::Deactivate && succeeded(o) ==> add_step(m, o).1
            == StepView::<Seq<u8>>::Perform(ActionView::UpsertAccount { email: m.email, name: m.name }),
{
}

/// The lookup's account is active exactly when the flag it read says true:
/// a flag read as false, or not read at all, gives an inactive account. Its
/// name and address are those Git gave.
pub proof fn lookup_activity_is_the_flag_read(l: LookupModel, b: bool, e: Seq<char>)
    requires
        l.stage == LookupStage::ReadFlag,
    ensures
        lookup_step(l, OutcomeView::Flag(Ok(b))).1
            == StepView::Finished(Ok(AccountView { email: l.email, name: l.name, is_active: b })),
        lookup_step(l, OutcomeView::Flag(Err(e))).1
            == StepView::Finished(Ok(AccountView { email: l.email, name: l.name, is_active: false })),
{
}

/// The lookup reads the flag of the address Git gave, and that address is
/// the one it reports.
pub proof fn lookup_reads_flag_of_git_address(l: LookupModel, o: OutcomeView, text: Seq<char>)
    ensures
        lookup_awaited(l) matches ActionView::ReadActiveFlag { email } ==> email == l.email,
        l.stage == LookupStage::GetGitEmail && l.name.len() > 0 && text.len() > 0
            ==> lookup_step(l, OutcomeView::Text(Ok(text))).0.email == text
            && lookup_step(l, OutcomeView::Text(Ok(text))).1 == StepView::<AccountView>::Perform(ActionView::OpenStore),
        l.stage == LookupStage::GetGitName ==> lookup_step(l, OutcomeView::Text(Ok(text))).0.name == text,
        l.stage != LookupStage::GetGitName && l.stage != LookupStage::GetGitEmail ==> lookup_step(l, o).0.name == l.name
            && lookup_step(l, o).0.email == l.email,
{
}

} // verus!
