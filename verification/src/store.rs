//! The account operations that touch the store, the key files and Git, as
//! step machines: each step names one piece of outside work, the caller
//! carries it out and hands back its outcome, and the machine decides what
//! comes next. Any failure that is not explicitly ignored ends the operation
//! with its message.

use vstd::prelude::*;
use crate::db::{
    active_flag, check_identity, config_get_args, config_set_args, config_unset_args, current_user_account,
    no_current_user_message, string_views, Account, AccountView, USER_EMAIL_KEY, USER_NAME_KEY,
};

verus! {

/// One piece of outside work.
#[derive(Debug)]
pub enum Action {
    /// Open the account store.
    OpenStore,
    /// Mark every stored account inactive.
    DeactivateAll,
    /// Store the account, marked active, replacing one with the same address.
    UpsertAccount { email: String, name: String },
    /// Store the account's key pair, replacing an earlier one.
    UpsertKeys { email: String, private_key: Vec<u8>, public_key: Vec<u8> },
    /// Mark the account with this address active.
    ActivateAccount { email: String },
    /// Delete the account with this address.
    DeleteAccount { email: String },
    /// Delete the key pair stored for this address.
    DeleteKeys { email: String },
    /// Read whether the account with this address is marked active.
    ReadActiveFlag { email: String },
    /// Read the name of the account with this address.
    ReadName { email: String },
    /// Read the key pair stored for this address.
    ReadKeyPair { email: String },
    /// Run `git` with these arguments; its outcome is what it printed.
    Git { args: Vec<String> },
    /// Create the directory of the key files.
    CreateKeyDir,
    /// Delete the key files; a failure is of no consequence.
    RemoveKeyFiles,
    /// Run `ssh-keygen` to write a new key pair, commented with this address,
    /// to the key files.
    GenerateKeyFiles { email: String },
    /// Read the key files.
    ReadKeyFiles,
    /// Write this key pair to the key files.
    WriteKeyFiles { private_key: Vec<u8>, public_key: Vec<u8> },
}

/// An action as plain values.
pub enum ActionView {
    OpenStore,
    DeactivateAll,
    UpsertAccount { email: Seq<char>, name: Seq<char> },
    UpsertKeys { email: Seq<char>, private_key: Seq<u8>, public_key: Seq<u8> },
    ActivateAccount { email: Seq<char> },
    DeleteAccount { email: Seq<char> },
    DeleteKeys { email: Seq<char> },
    ReadActiveFlag { email: Seq<char> },
    ReadName { email: Seq<char> },
    ReadKeyPair { email: Seq<char> },
    Git { args: Seq<Seq<char>> },
    CreateKeyDir,
    RemoveKeyFiles,
    GenerateKeyFiles { email: Seq<char> },
    ReadKeyFiles,
    WriteKeyFiles { private_key: Seq<u8>, public_key: Seq<u8> },
}

impl View for Action {
    type V = ActionView;

    open spec fn view(&self) -> ActionView {
        match self {
            Action::OpenStore => ActionView::OpenStore,
            Action::DeactivateAll => ActionView::DeactivateAll,
            Action::UpsertAccount { email, name } => ActionView::UpsertAccount { email: email@, name: name@ },
            Action::UpsertKeys { email, private_key, public_key } => ActionView::UpsertKeys {
                email: email@,
                private_key: private_key@,
                public_key: public_key@,
            },
            Action::ActivateAccount { email } => ActionView::ActivateAccount { email: email@ },
            Action::DeleteAccount { email } => ActionView::DeleteAccount { email: email@ },
            Action::DeleteKeys { email } => ActionView::DeleteKeys { email: email@ },
            Action::ReadActiveFlag { email } => ActionView::ReadActiveFlag { email: email@ },
            Action::ReadName { email } => ActionView::ReadName { email: email@ },
            Action::ReadKeyPair { email } => ActionView::ReadKeyPair { email: email@ },
            Action::Git { args } => ActionView::Git { args: string_views(args@) },
            Action::CreateKeyDir => ActionView::CreateKeyDir,
            Action::RemoveKeyFiles => ActionView::RemoveKeyFiles,
            Action::GenerateKeyFiles { email } => ActionView::GenerateKeyFiles { email: email@ },
            Action::ReadKeyFiles => ActionView::ReadKeyFiles,
            Action::WriteKeyFiles { private_key, public_key } => ActionView::WriteKeyFiles {
                private_key: private_key@,
                public_key: public_key@,
            },
        }
    }
}

/// The outcome of an action; an error is its message.
#[derive(Debug)]
pub enum Outcome {
    /// Of an action that gives nothing back.
    Done(Result<(), String>),
    /// Of `ReadActiveFlag`.
    Flag(Result<bool, String>),
    /// Of `ReadName` and `Git`.
    Text(Result<String, String>),
    /// Of `ReadKeyPair` and `ReadKeyFiles`: the private key, then the public one.
    KeyPair(Result<(Vec<u8>, Vec<u8>), String>),
}

/// An outcome as plain values.
pub enum OutcomeView {
    Done(Result<(), Seq<char>>),
    Flag(Result<bool, Seq<char>>),
    Text(Result<Seq<char>, Seq<char>>),
    KeyPair(Result<(Seq<u8>, Seq<u8>), Seq<char>>),
}

impl View for Outcome {
    type V = OutcomeView;

    open spec fn view(&self) -> OutcomeView {
        match self {
            Outcome::Done(r) => OutcomeView::Done(
                match r {
                    Ok(()) => Ok(()),
                    Err(e) => Err(e@),
                },
            ),
            Outcome::Flag(r) => OutcomeView::Flag(
                match r {
                    Ok(b) => Ok(*b),
                    Err(e) => Err(e@),
                },
            ),
            Outcome::Text(r) => OutcomeView::Text(
                match r {
                    Ok(s) => Ok(s@),
                    Err(e) => Err(e@),
                },
            ),
            Outcome::KeyPair(r) => OutcomeView::KeyPair(
                match r {
                    Ok((p, q)) => Ok((p@, q@)),
                    Err(e) => Err(e@),
                },
            ),
        }
    }
}

/// Whether `o` is the kind of outcome that `a` gives.
pub open spec fn answers(a: ActionView, o: OutcomeView) -> bool {
    match a {
        ActionView::ReadActiveFlag { .. } => o is Flag,
        ActionView::ReadName { .. } | ActionView::Git { .. } => o is Text,
        ActionView::ReadKeyPair { .. } | ActionView::ReadKeyFiles => o is KeyPair,
        _ => o is Done,
    }
}

/// Whether `o` reports a success.
pub open spec fn succeeded(o: OutcomeView) -> bool {
    match o {
        OutcomeView::Done(r) => r is Ok,
        OutcomeView::Flag(r) => r is Ok,
        OutcomeView::Text(r) => r is Ok,
        OutcomeView::KeyPair(r) => r is Ok,
    }
}

/// The message of a failed outcome.
pub open spec fn failure(o: OutcomeView) -> Seq<char> {
    match o {
        OutcomeView::Done(r) => r->Err_0,
        OutcomeView::Flag(r) => r->Err_0,
        OutcomeView::Text(r) => r->Err_0,
        OutcomeView::KeyPair(r) => r->Err_0,
    }
}

/// What comes after an outcome: more work, or the end of the operation with
/// its result.
#[derive(Debug)]
pub enum Step<T> {
    Perform(Action),
    Finished(Result<T, String>),
}

/// A step as plain values.
pub enum StepView<V> {
    Perform(ActionView),
    Finished(Result<V, Seq<char>>),
}

/// The view of a step whose result is a value that is its own view.
pub open spec fn plain_step_view<T>(s: Step<T>) -> StepView<T> {
    match s {
        Step::Perform(a) => StepView::Perform(a@),
        Step::Finished(Ok(v)) => StepView::Finished(Ok(v)),
        Step::Finished(Err(e)) => StepView::Finished(Err(e@)),
    }
}

/// The view of a step whose result is a byte vector.
pub open spec fn bytes_step_view(s: Step<Vec<u8>>) -> StepView<Seq<u8>> {
    match s {
        Step::Perform(a) => StepView::Perform(a@),
        Step::Finished(Ok(v)) => StepView::Finished(Ok(v@)),
        Step::Finished(Err(e)) => StepView::Finished(Err(e@)),
    }
}

/// The view of a step whose result is an account.
pub open spec fn account_step_view(s: Step<Account>) -> StepView<AccountView> {
    match s {
        Step::Perform(a) => StepView::Perform(a@),
        Step::Finished(Ok(v)) => StepView::Finished(Ok(v@)),
        Step::Finished(Err(e)) => StepView::Finished(Err(e@)),
    }
}

/// The step that ends an operation with the message of a failed outcome.
pub open spec fn fail<V>(o: OutcomeView) -> StepView<V> {
    StepView::Finished(Err(failure(o)))
}

/// The message of a failed outcome, taken out of it.
fn take_failure(o: Outcome) -> (e: String)
    requires
        !succeeded(o@),
    ensures
        e@ == failure(o@),
{
    match o {
        Outcome::Done(r) => match r {
            Err(e) => e,
            Ok(_) => String::new(),
        },
        Outcome::Flag(r) => match r {
            Err(e) => e,
            Ok(_) => String::new(),
        },
        Outcome::Text(r) => match r {
            Err(e) => e,
            Ok(_) => String::new(),
        },
        Outcome::KeyPair(r) => match r {
            Err(e) => e,
            Ok(_) => String::new(),
        },
    }
}

/// Whether an outcome reports a success.
fn is_success(o: &Outcome) -> (r: bool)
    ensures
        r == succeeded(o@),
{
    match o {
        Outcome::Done(r) => r.is_ok(),
        Outcome::Flag(r) => r.is_ok(),
        Outcome::Text(r) => r.is_ok(),
        Outcome::KeyPair(r) => r.is_ok(),
    }
}

/// The arguments of `git` that set a global value, as plain values.
pub open spec fn git_set(key: Seq<char>, value: Seq<char>) -> Seq<Seq<char>> {
    seq!["config"@, "--global"@, key, value]
}

/// The arguments of `git` that read a global value, as plain values.
pub open spec fn git_get(key: Seq<char>) -> Seq<Seq<char>> {
    seq!["config"@, "--global"@, key]
}

/// The arguments of `git` that remove a global value, as plain values.
pub open spec fn git_unset(key: Seq<char>) -> Seq<Seq<char>> {
    seq!["config"@, "--global"@, "--unset"@, key]
}

/// Whether `outcome` is the kind of outcome that `action` gives.
pub fn outcome_answers(action: &Action, outcome: &Outcome) -> (r: bool)
    ensures
        r == answers(action@, outcome@),
{
    match action {
        Action::ReadActiveFlag { .. } => match outcome {
            Outcome::Flag(_) => true,
            _ => false,
        },
        Action::ReadName { .. } | Action::Git { .. } => match outcome {
            Outcome::Text(_) => true,
            _ => false,
        },
        Action::ReadKeyPair { .. } | Action::ReadKeyFiles => match outcome {
            Outcome::KeyPair(_) => true,
            _ => false,
        },
        _ => match outcome {
            Outcome::Done(_) => true,
            _ => false,
        },
    }
}

/// Where the creation of an account stands.
#[derive(Debug, PartialEq, Eq, Structural, Clone, Copy)]
pub enum AddStage {
    OpenStore,
    Deactivate,
    StoreAccount,
    CreateKeyDir,
    ClearKeyFiles,
    GenerateKeys,
    ReadKeys,
    StoreKeys,
    SetGitName,
    SetGitEmail,
    Finished,
}

/// The creation of an account: it becomes the only active one, gets a new
/// key pair, and becomes the Git identity. Its result is the public key.
#[derive(Debug)]
pub struct AddAccountJob {
    name: String,
    email: String,
    private_key: Vec<u8>,
    public_key: Vec<u8>,
    stage: AddStage,
}

/// The creation of an account as plain values.
#[verifier::ext_equal]
pub struct AddModel {
    pub name: Seq<char>,
    pub email: Seq<char>,
    pub private_key: Seq<u8>,
    pub public_key: Seq<u8>,
    pub stage: AddStage,
}

impl View for AddAccountJob {
    type V = AddModel;

    closed spec fn view(&self) -> AddModel {
        AddModel {
            name: self.name@,
            email: self.email@,
            private_key: self.private_key@,
            public_key: self.public_key@,
            stage: self.stage,
        }
    }
}

/// The work a creation waits for at its stage.
pub open spec fn add_awaited(m: AddModel) -> ActionView {
    match m.stage {
        AddStage::OpenStore => ActionView::OpenStore,
        AddStage::Deactivate => ActionView::DeactivateAll,
        AddStage::StoreAccount => ActionView::UpsertAccount { email: m.email, name: m.name },
        AddStage::CreateKeyDir => ActionView::CreateKeyDir,
        AddStage::ClearKeyFiles => ActionView::RemoveKeyFiles,
        AddStage::GenerateKeys => ActionView::GenerateKeyFiles { email: m.email },
        AddStage::ReadKeys => ActionView::ReadKeyFiles,
        AddStage::StoreKeys => ActionView::UpsertKeys {
            email: m.email,
            private_key: m.private_key,
            public_key: m.public_key,
        },
        AddStage::SetGitName => ActionView::Git { args: git_set(USER_NAME_KEY@, m.name) },
        AddStage::SetGitEmail => ActionView::Git { args: git_set(USER_EMAIL_KEY@, m.email) },
        AddStage::Finished => ActionView::OpenStore,
    }
}

/// The creation moved on to stage `stage`, asking for that stage's work.
pub open spec fn add_go(m: AddModel, stage: AddStage) -> (AddModel, StepView<Seq<u8>>) {
    let m2 = AddModel { stage, ..m };
    (m2, StepView::Perform(add_awaited(m2)))
}

/// The reaction of a creation to the outcome of the work it waited for.
pub open spec fn add_step(m: AddModel, o: OutcomeView) -> (AddModel, StepView<Seq<u8>>) {
    if m.stage == AddStage::ClearKeyFiles {
        add_go(m, AddStage::GenerateKeys)
    } else if !succeeded(o) {
        (AddModel { stage: AddStage::Finished, ..m }, fail(o))
    } else {
        match m.stage {
            AddStage::OpenStore => add_go(m, AddStage::Deactivate),
            AddStage::Deactivate => add_go(m, AddStage::StoreAccount),
            AddStage::StoreAccount => add_go(m, AddStage::CreateKeyDir),
            AddStage::CreateKeyDir => add_go(m, AddStage::ClearKeyFiles),
            AddStage::GenerateKeys => add_go(m, AddStage::ReadKeys),
            AddStage::ReadKeys => {
                let keys = o->KeyPair_0->Ok_0;
                add_go(AddModel { private_key: keys.0, public_key: keys.1, ..m }, AddStage::StoreKeys)
            },
            AddStage::StoreKeys => add_go(m, AddStage::SetGitName),
            AddStage::SetGitName => add_go(m, AddStage::SetGitEmail),
            _ => (AddModel { stage: AddStage::Finished, ..m }, StepView::Finished(Ok(m.public_key))),
        }
    }
}

impl AddAccountJob {
    /// Starts the creation of the account `name` with address `email`: the
    /// store is to be opened first.
    pub fn start(name: String, email: String) -> (r: (AddAccountJob, Action))
        ensures
            r.0@ == (AddModel {
                name: name@,
                email: email@,
                private_key: Seq::empty(),
                public_key: Seq::empty(),
                stage: AddStage::OpenStore,
            }),
            r.1@ == ActionView::OpenStore,
    {
        let job = AddAccountJob { name, email, private_key: Vec::new(), public_key: Vec::new(), stage: AddStage::OpenStore };
        (job, Action::OpenStore)
    }

    /// Whether the creation has ended.
    pub fn is_finished(&self) -> (r: bool)
        ensures
            r == (self@.stage == AddStage::Finished),
    {
        self.stage == AddStage::Finished
    }

    fn awaited(&self) -> (a: Action)
        ensures
            a@ == add_awaited(self@),
    {
        match self.stage {
            AddStage::OpenStore => Action::OpenStore,
            AddStage::Deactivate => Action::DeactivateAll,
            AddStage::StoreAccount => Action::UpsertAccount { email: self.email.clone(), name: self.name.clone() },
            AddStage::CreateKeyDir => Action::CreateKeyDir,
            AddStage::ClearKeyFiles => Action::RemoveKeyFiles,
            AddStage::GenerateKeys => Action::GenerateKeyFiles { email: self.email.clone() },
            AddStage::ReadKeys => Action::ReadKeyFiles,
            AddStage::StoreKeys => Action::UpsertKeys {
                email: self.email.clone(),
                private_key: self.private_key.clone(),
                public_key: self.public_key.clone(),
            },
            AddStage::SetGitName => Action::Git { args: config_set_args(USER_NAME_KEY, self.name.as_str()) },
            AddStage::SetGitEmail => Action::Git { args: config_set_args(USER_EMAIL_KEY, self.email.as_str()) },
            AddStage::Finished => Action::OpenStore,
        }
    }

    /// Takes the outcome of the awaited work and says what comes next. A
    /// failure ends the creation with its message, but for the removal of
    /// old key files, whose outcome does not matter.
    pub fn advance(&mut self, outcome: Outcome) -> (step: Step<Vec<u8>>)
        requires
            old(self)@.stage != AddStage::Finished,
            answers(add_awaited(old(self)@), outcome@),
        ensures
            (final(self)@, bytes_step_view(step)) == add_step(old(self)@, outcome@),
    {
        if self.stage == AddStage::ClearKeyFiles {
            self.stage = AddStage::GenerateKeys;
            return Step::Perform(self.awaited());
        }
        if !is_success(&outcome) {
            self.stage = AddStage::Finished;
            return Step::Finished(Err(take_failure(outcome)));
        }
        match self.stage {
            AddStage::OpenStore => self.stage = AddStage::Deactivate,
            AddStage::Deactivate => self.stage = AddStage::StoreAccount,
            AddStage::StoreAccount => self.stage = AddStage::CreateKeyDir,
            AddStage::CreateKeyDir => self.stage = AddStage::ClearKeyFiles,
            AddStage::GenerateKeys => self.stage = AddStage::ReadKeys,
            AddStage::ReadKeys => {
                match outcome {
                    Outcome::KeyPair(Ok((private_key, public_key))) => {
                        self.private_key = private_key;
                        self.public_key = public_key;
                    },
                    _ => {},
                }
                self.stage = AddStage::StoreKeys;
            },
            AddStage::StoreKeys => self.stage = AddStage::SetGitName,
            AddStage::SetGitName => self.stage = AddStage::SetGitEmail,
            _ => {
                self.stage = AddStage::Finished;
                return Step::Finished(Ok(self.public_key.clone()));
            },
        }
        Step::Perform(self.awaited())
    }
}

/// Whether a `ReadActiveFlag` outcome says the account is active; a failed
/// read counts as inactive.
pub open spec fn flag_says_active(o: OutcomeView) -> bool {
    o == OutcomeView::Flag(Ok(true))
}

/// Where the removal of an account stands.
#[derive(Debug, PartialEq, Eq, Structural, Clone, Copy)]
pub enum RemoveStage {
    OpenStore,
    ReadFlag,
    DeleteAccount,
    DeleteKeys,
    UnsetGitName,
    UnsetGitEmail,
    RemoveKeyFiles,
    Finished,
}

/// The removal of an account and its key pair; when it was the active one,
/// the Git identity and the key files go too.
#[derive(Debug)]
pub struct RemoveAccountJob {
    email: String,
    was_active: bool,
    stage: RemoveStage,
}

/// The removal of an account as plain values.
#[verifier::ext_equal]
pub struct RemoveModel {
    pub email: Seq<char>,
    pub was_active: bool,
    pub stage: RemoveStage,
}

impl View for RemoveAccountJob {
    type V = RemoveModel;

    closed spec fn view(&self) -> RemoveModel {
        RemoveModel { email: self.email@, was_active: self.was_active, stage: self.stage }
    }
}

/// The work a removal waits for at its stage.
pub open spec fn remove_awaited(m: RemoveModel) -> ActionView {
    match m.stage {
        RemoveStage::OpenStore => ActionView::OpenStore,
        RemoveStage::ReadFlag => ActionView::ReadActiveFlag { email: m.email },
        RemoveStage::DeleteAccount => ActionView::DeleteAccount { email: m.email },
        RemoveStage::DeleteKeys => ActionView::DeleteKeys { email: m.email },
        RemoveStage::UnsetGitName => ActionView::Git { args: git_unset(USER_NAME_KEY@) },
        RemoveStage::UnsetGitEmail => ActionView::Git { args: git_unset(USER_EMAIL_KEY@) },
        RemoveStage::RemoveKeyFiles => ActionView::RemoveKeyFiles,
        RemoveStage::Finished => ActionView::OpenStore,
    }
}

/// The removal moved on to stage `stage`, asking for that stage's work.
pub open spec fn remove_go(m: RemoveModel, stage: RemoveStage) -> (RemoveModel, StepView<()>) {
    let m2 = RemoveModel { stage, ..m };
    (m2, StepView::Perform(remove_awaited(m2)))
}

/// The reaction of a removal to the outcome of the work it waited for.
pub open spec fn remove_step(m: RemoveModel, o: OutcomeView) -> (RemoveModel, StepView<()>) {
    if m.stage == RemoveStage::RemoveKeyFiles {
        (RemoveModel { stage: RemoveStage::Finished, ..m }, StepView::Finished(Ok(())))
    } else if m.stage == RemoveStage::ReadFlag {
        remove_go(RemoveModel { was_active: flag_says_active(o), ..m }, RemoveStage::DeleteAccount)
    } else if !succeeded(o) {
        (RemoveModel { stage: RemoveStage::Finished, ..m }, fail(o))
    } else {
        match m.stage {
            RemoveStage::OpenStore => remove_go(m, RemoveStage::ReadFlag),
            RemoveStage::DeleteAccount => remove_go(m, RemoveStage::DeleteKeys),
            RemoveStage::DeleteKeys => if m.was_active {
                remove_go(m, RemoveStage::UnsetGitName)
            } else {
                (RemoveModel { stage: RemoveStage::Finished, ..m }, StepView::Finished(Ok(())))
            },
            RemoveStage::UnsetGitName => remove_go(m, RemoveStage::UnsetGitEmail),
            _ => remove_go(m, RemoveStage::RemoveKeyFiles),
        }
    }
}

impl RemoveAccountJob {
    /// Starts the removal of the account with address `email`: the store is
    /// to be opened first.
    pub fn start(email: String) -> (r: (RemoveAccountJob, Action))
        ensures
            r.0@ == (RemoveModel { email: email@, was_active: false, stage: RemoveStage::OpenStore }),
            r.1@ == ActionView::OpenStore,
    {
        (RemoveAccountJob { email, was_active: false, stage: RemoveStage::OpenStore }, Action::OpenStore)
    }

    /// Whether the removal has ended.
    pub fn is_finished(&self) -> (r: bool)
        ensures
            r == (self@.stage == RemoveStage::Finished),
    {
        self.stage == RemoveStage::Finished
    }

    fn awaited(&self) -> (a: Action)
        ensures
            a@ == remove_awaited(self@),
    {
        match self.stage {
            RemoveStage::OpenStore => Action::OpenStore,
            RemoveStage::ReadFlag => Action::ReadActiveFlag { email: self.email.clone() },
            RemoveStage::DeleteAccount => Action::DeleteAccount { email: self.email.clone() },
            RemoveStage::DeleteKeys => Action::DeleteKeys { email: self.email.clone() },
            RemoveStage::UnsetGitName => Action::Git { args: config_unset_args(USER_NAME_KEY) },
            RemoveStage::UnsetGitEmail => Action::Git { args: config_unset_args(USER_EMAIL_KEY) },
            RemoveStage::RemoveKeyFiles => Action::RemoveKeyFiles,
            RemoveStage::Finished => Action::OpenStore,
        }
    }

    /// Takes the outcome of the awaited work and says what comes next. A
    /// failure ends the removal with its message, but for the read of the
    /// active flag, where it counts as inactive, and for the removal of the
    /// key files, whose outcome does not matter.
    pub fn advance(&mut self, outcome: Outcome) -> (step: Step<()>)
        requires
            old(self)@.stage != RemoveStage::Finished,
            answers(remove_awaited(old(self)@), outcome@),
        ensures
            (final(self)@, plain_step_view(step)) == remove_step(old(self)@, outcome@),
    {
        if self.stage == RemoveStage::RemoveKeyFiles {
            self.stage = RemoveStage::Finished;
            return Step::Finished(Ok(()));
        }
        if self.stage == RemoveStage::ReadFlag {
            self.was_active = match outcome {
                Outcome::Flag(r) => active_flag(r),
                _ => false,
            };
            self.stage = RemoveStage::DeleteAccount;
            return Step::Perform(self.awaited());
        }
        if !is_success(&outcome) {
            self.stage = RemoveStage::Finished;
            return Step::Finished(Err(take_failure(outcome)));
        }
        match self.stage {
            RemoveStage::OpenStore => self.stage = RemoveStage::ReadFlag,
            RemoveStage::DeleteAccount => self.stage = RemoveStage::DeleteKeys,
            RemoveStage::DeleteKeys => if self.was_active {
                self.stage = RemoveStage::UnsetGitName;
            } else {
                self.stage = RemoveStage::Finished;
                return Step::Finished(Ok(()));
            },
            RemoveStage::UnsetGitName => self.stage = RemoveStage::UnsetGitEmail,
            _ => self.stage = RemoveStage::RemoveKeyFiles,
        }
        Step::Perform(self.awaited())
    }
}

/// Where a switch of the Git identity stands.
#[derive(Debug, PartialEq, Eq, Structural, Clone, Copy)]
pub enum SwitchStage {
    OpenStore,
    Deactivate,
    Activate,
    ReadName,
    OpenKeyStore,
    ReadKeys,
    WriteKeys,
    SetGitName,
    SetGitEmail,
    Finished,
}

/// The switch to the account with a given address: it becomes the only
/// active one, its key pair goes to the key files, and its name and address
/// become the Git identity.
#[derive(Debug)]
pub struct SwitchAccountJob {
    email: String,
    name: String,
    private_key: Vec<u8>,
    public_key: Vec<u8>,
    stage: SwitchStage,
}

/// A switch as plain values.
#[verifier::ext_equal]
pub struct SwitchModel {
    pub email: Seq<char>,
    pub name: Seq<char>,
    pub private_key: Seq<u8>,
    pub public_key: Seq<u8>,
    pub stage: SwitchStage,
}

impl View for SwitchAccountJob {
    type V = SwitchModel;

    closed spec fn view(&self) -> SwitchModel {
        SwitchModel {
            email: self.email@,
            name: self.name@,
            private_key: self.private_key@,
            public_key: self.public_key@,
            stage: self.stage,
        }
    }
}

/// The work a switch waits for at its stage.
pub open spec fn switch_awaited(m: SwitchModel) -> ActionView {
    match m.stage {
        SwitchStage::OpenStore => ActionView::OpenStore,
        SwitchStage::Deactivate => ActionView::DeactivateAll,
        SwitchStage::Activate => ActionView::ActivateAccount { email: m.email },
        SwitchStage::ReadName => ActionView::ReadName { email: m.email },
        SwitchStage::OpenKeyStore => ActionView::OpenStore,
        SwitchStage::ReadKeys => ActionView::ReadKeyPair { email: m.email },
        SwitchStage::WriteKeys => ActionView::WriteKeyFiles { private_key: m.private_key, public_key: m.public_key },
        SwitchStage::SetGitName => ActionView::Git { args: git_set(USER_NAME_KEY@, m.name) },
        SwitchStage::SetGitEmail => ActionView::Git { args: git_set(USER_EMAIL_KEY@, m.email) },
        SwitchStage::Finished => ActionView::OpenStore,
    }
}

/// The switch moved on to stage `stage`, asking for that stage's work.
pub open spec fn switch_go(m: SwitchModel, stage: SwitchStage) -> (SwitchModel, StepView<()>) {
    let m2 = SwitchModel { stage, ..m };
    (m2, StepView::Perform(switch_awaited(m2)))
}

/// The reaction of a switch to the outcome of the work it waited for.
pub open spec fn switch_step(m: SwitchModel, o: OutcomeView) -> (SwitchModel, StepView<()>) {
    if !succeeded(o) {
        (SwitchModel { stage: SwitchStage::Finished, ..m }, fail(o))
    } else {
        match m.stage {
            SwitchStage::OpenStore => switch_go(m, SwitchStage::Deactivate),
            SwitchStage::Deactivate => switch_go(m, SwitchStage::Activate),
            SwitchStage::Activate => switch_go(m, SwitchStage::ReadName),
            SwitchStage::ReadName => switch_go(SwitchModel { name: o->Text_0->Ok_0, ..m }, SwitchStage::OpenKeyStore),
            SwitchStage::OpenKeyStore => switch_go(m, SwitchStage::ReadKeys),
            SwitchStage::ReadKeys => {
                let keys = o->KeyPair_0->Ok_0;
                switch_go(SwitchModel { private_key: keys.0, public_key: keys.1, ..m }, SwitchStage::WriteKeys)
            },
            SwitchStage::WriteKeys => switch_go(m, SwitchStage::SetGitName),
            SwitchStage::SetGitName => switch_go(m, SwitchStage::SetGitEmail),
            _ => (SwitchModel { stage: SwitchStage::Finished, ..m }, StepView::Finished(Ok(()))),
        }
    }
}

impl SwitchAccountJob {
    /// Starts the switch to the account with address `email`: the store is to
    /// be opened first.
    pub fn start(email: String) -> (r: (SwitchAccountJob, Action))
        ensures
            r.0@ == (SwitchModel {
                email: email@,
                name: Seq::empty(),
                private_key: Seq::empty(),
                public_key: Seq::empty(),
                stage: SwitchStage::OpenStore,
            }),
            r.1@ == ActionView::OpenStore,
    {
        let job = SwitchAccountJob {
            email,
            name: String::new(),
            private_key: Vec::new(),
            public_key: Vec::new(),
            stage: SwitchStage::OpenStore,
        };
        (job, Action::OpenStore)
    }

    /// Whether the switch has ended.
    pub fn is_finished(&self) -> (r: bool)
        ensures
            r == (self@.stage == SwitchStage::Finished),
    {
        self.stage == SwitchStage::Finished
    }

    fn awaited(&self) -> (a: Action)
        ensures
            a@ == switch_awaited(self@),
    {
        match self.stage {
            SwitchStage::OpenStore => Action::OpenStore,
            SwitchStage::Deactivate => Action::DeactivateAll,
            SwitchStage::Activate => Action::ActivateAccount { email: self.email.clone() },
            SwitchStage::ReadName => Action::ReadName { email: self.email.clone() },
            SwitchStage::OpenKeyStore => Action::OpenStore,
            SwitchStage::ReadKeys => Action::ReadKeyPair { email: self.email.clone() },
            SwitchStage::WriteKeys => Action::WriteKeyFiles {
                private_key: self.private_key.clone(),
                public_key: self.public_key.clone(),
            },
            SwitchStage::SetGitName => Action::Git { args: config_set_args(USER_NAME_KEY, self.name.as_str()) },
            SwitchStage::SetGitEmail => Action::Git { args: config_set_args(USER_EMAIL_KEY, self.email.as_str()) },
            SwitchStage::Finished => Action::OpenStore,
        }
    }

    /// Takes the outcome of the awaited work and says what comes next; a
    /// failure ends the switch with its message.
    pub fn advance(&mut self, outcome: Outcome) -> (step: Step<()>)
        requires
            old(self)@.stage != SwitchStage::Finished,
            answers(switch_awaited(old(self)@), outcome@),
        ensures
            (final(self)@, plain_step_view(step)) == switch_step(old(self)@, outcome@),
    {
        if !is_success(&outcome) {
            self.stage = SwitchStage::Finished;
            return Step::Finished(Err(take_failure(outcome)));
        }
        match self.stage {
            SwitchStage::OpenStore => self.stage = SwitchStage::Deactivate,
            SwitchStage::Deactivate => self.stage = SwitchStage::Activate,
            SwitchStage::Activate => self.stage = SwitchStage::ReadName,
            SwitchStage::ReadName => {
                match outcome {
                    Outcome::Text(Ok(name)) => self.name = name,
                    _ => {},
                }
                self.stage = SwitchStage::OpenKeyStore;
            },
            SwitchStage::OpenKeyStore => self.stage = SwitchStage::ReadKeys,
            SwitchStage::ReadKeys => {
                match outcome {
                    Outcome::KeyPair(Ok((private_key, public_key))) => {
                        self.private_key = private_key;
                        self.public_key = public_key;
                    },
                    _ => {},
                }
                self.stage = SwitchStage::WriteKeys;
            },
            SwitchStage::WriteKeys => self.stage = SwitchStage::SetGitName,
            SwitchStage::SetGitName => self.stage = SwitchStage::SetGitEmail,
            _ => {
                self.stage = SwitchStage::Finished;
                return Step::Finished(Ok(()));
            },
        }
        Step::Perform(self.awaited())
    }
}

/// Where the lookup of the current Git user stands.
#[derive(Debug, PartialEq, Eq, Structural, Clone, Copy)]
pub enum LookupStage {
    GetGitName,
    GetGitEmail,
    OpenStore,
    ReadFlag,
    Finished,
}

/// The lookup of the current Git user: the name and address Git holds, and
/// whether the store marks that address active.
#[derive(Debug)]
pub struct CurrentUserJob {
    name: String,
    email: String,
    stage: LookupStage,
}

/// A lookup as plain values.
#[verifier::ext_equal]
pub struct LookupModel {
    pub name: Seq<char>,
    pub email: Seq<char>,
    pub stage: LookupStage,
}

impl View for CurrentUserJob {
    type V = LookupModel;

    closed spec fn view(&self) -> LookupModel {
        LookupModel { name: self.name@, email: self.email@, stage: self.stage }
    }
}

/// The work a lookup waits for at its stage.
pub open spec fn lookup_awaited(m: LookupModel) -> ActionView {
    match m.stage {
        LookupStage::GetGitName => ActionView::Git { args: git_get(USER_NAME_KEY@) },
        LookupStage::GetGitEmail => ActionView::Git { args: git_get(USER_EMAIL_KEY@) },
        LookupStage::OpenStore => ActionView::OpenStore,
        LookupStage::ReadFlag => ActionView::ReadActiveFlag { email: m.email },
        LookupStage::Finished => ActionView::OpenStore,
    }
}

/// The lookup moved on to stage `stage`, asking for that stage's work.
pub open spec fn lookup_go(m: LookupModel, stage: LookupStage) -> (LookupModel, StepView<AccountView>) {
    let m2 = LookupModel { stage, ..m };
    (m2, StepView::Perform(lookup_awaited(m2)))
}

/// The reaction of a lookup to the outcome of the work it waited for.
pub open spec fn lookup_step(m: LookupModel, o: OutcomeView) -> (LookupModel, StepView<AccountView>) {
    if m.stage == LookupStage::ReadFlag {
        (LookupModel { stage: LookupStage::Finished, ..m }, StepView::Finished(
            Ok(AccountView { email: m.email, name: m.name, is_active: flag_says_active(o) }),
        ))
    } else if !succeeded(o) {
        (LookupModel { stage: LookupStage::Finished, ..m }, fail(o))
    } else {
        match m.stage {
            LookupStage::GetGitName => lookup_go(LookupModel { name: o->Text_0->Ok_0, ..m }, LookupStage::GetGitEmail),
            LookupStage::GetGitEmail => {
                let email = o->Text_0->Ok_0;
                if m.name.len() > 0 && email.len() > 0 {
                    lookup_go(LookupModel { email, ..m }, LookupStage::OpenStore)
                } else {
                    (LookupModel { email, stage: LookupStage::Finished, ..m }, StepView::Finished(Err(no_current_user_message())))
                }
            },
            _ => lookup_go(m, LookupStage::ReadFlag),
        }
    }
}

impl CurrentUserJob {
    /// Starts the lookup: Git is to be asked for the user's name first.
    pub fn start() -> (r: (CurrentUserJob, Action))
        ensures
            r.0@ == (LookupModel { name: Seq::empty(), email: Seq::empty(), stage: LookupStage::GetGitName }),
            r.1@ == (ActionView::Git { args: git_get(USER_NAME_KEY@) }),
    {
        let job = CurrentUserJob { name: String::new(), email: String::new(), stage: LookupStage::GetGitName };
        let action = job.awaited();
        (job, action)
    }

    /// Whether the lookup has ended.
    pub fn is_finished(&self) -> (r: bool)
        ensures
            r == (self@.stage == LookupStage::Finished),
    {
        self.stage == LookupStage::Finished
    }

    fn awaited(&self) -> (a: Action)
        ensures
            a@ == lookup_awaited(self@),
    {
        match self.stage {
            LookupStage::GetGitName => Action::Git { args: config_get_args(USER_NAME_KEY) },
            LookupStage::GetGitEmail => Action::Git { args: config_get_args(USER_EMAIL_KEY) },
            LookupStage::OpenStore => Action::OpenStore,
            LookupStage::ReadFlag => Action::ReadActiveFlag { email: self.email.clone() },
            LookupStage::Finished => Action::OpenStore,
        }
    }

    /// Takes the outcome of the awaited work and says what comes next. A
    /// failure ends the lookup with its message, but for the read of the
    /// active flag, where it counts as inactive; an empty name or address
    /// ends it with "No current user found".
    pub fn advance(&mut self, outcome: Outcome) -> (step: Step<Account>)
        requires
            old(self)@.stage != LookupStage::Finished,
            answers(lookup_awaited(old(self)@), outcome@),
        ensures
            (final(self)@, account_step_view(step)) == lookup_step(old(self)@, outcome@),
    {
        if self.stage == LookupStage::ReadFlag {
            self.stage = LookupStage::Finished;
            let lookup = match outcome {
                Outcome::Flag(r) => r,
                _ => Ok(false),
            };
            return Step::Finished(Ok(current_user_account(self.name.clone(), self.email.clone(), lookup)));
        }
        if !is_success(&outcome) {
            self.stage = LookupStage::Finished;
            return Step::Finished(Err(take_failure(outcome)));
        }
        match self.stage {
            LookupStage::GetGitName => {
                match outcome {
                    Outcome::Text(Ok(name)) => self.name = name,
                    _ => {},
                }
                self.stage = LookupStage::GetGitEmail;
            },
            LookupStage::GetGitEmail => {
                match outcome {
                    Outcome::Text(Ok(email)) => self.email = email,
                    _ => {},
                }
                match check_identity(self.name.as_str(), self.email.as_str()) {
                    Ok(()) => self.stage = LookupStage::OpenStore,
                    Err(message) => {
                        self.stage = LookupStage::Finished;
                        return Step::Finished(Err(message));
                    },
                }
            },
            _ => self.stage = LookupStage::ReadFlag,
        }
        Step::Perform(self.awaited())
    }
}

} // verus!
