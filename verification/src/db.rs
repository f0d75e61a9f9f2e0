//! Account records, and the text that goes to and comes back from the `git`
//! and `ssh-keygen` commands that keep the active identity in place.

use vstd::prelude::*;
use vstd::utf8::{decode_utf8, valid_utf8};
use crate::text::{lossy_decode, strict_decode, trim, trimmed, utf8_lossy};

verus! {

/// One stored identity.
#[derive(Debug, Clone)]
pub struct Account {
    pub email: String,
    pub name: String,
    pub is_active: bool,
}

/// An account as plain values.
pub struct AccountView {
    pub email: Seq<char>,
    pub name: Seq<char>,
    pub is_active: bool,
}

impl View for Account {
    type V = AccountView;

    open spec fn view(&self) -> AccountView {
        AccountView { email: self.email@, name: self.name@, is_active: self.is_active }
    }
}

/// The key pair stored for an account.
pub struct SSHKey {
    pub email: String,
    pub private_key: Vec<u8>,
    pub public_key: Vec<u8>,
}

/// The configuration key that holds the Git user's name.
pub const USER_NAME_KEY: &'static str = "user.name";

/// The configuration key that holds the Git user's e-mail address.
pub const USER_EMAIL_KEY: &'static str = "user.email";

/// The message of a failed lookup of the current Git user.
pub open spec fn no_current_user_message() -> Seq<char> {
    "No current user found"@
}

/// Views of a sequence of strings.
pub open spec fn string_views(v: Seq<String>) -> Seq<Seq<char>> {
    v.map_values(|s: String| s@)
}

/// Builds an account from a stored row, whose activity flag is an integer
/// that means active when it is 1.
pub fn account_from_row(name: String, email: String, is_active: i32) -> (a: Account)
    ensures
        a@ == (AccountView { email: email@, name: name@, is_active: is_active == 1 }),
{
    Account { name, email, is_active: is_active == 1 }
}

/// What a `git` invocation reports: on success its standard output, else its
/// standard error; either decoded leniently as UTF-8 and trimmed.
pub fn git_command_result(success: bool, stdout: &[u8], stderr: &[u8]) -> (r: Result<String, String>)
    ensures
        success ==> (r matches Ok(out) && out@ == trimmed(utf8_lossy(stdout@))),
        !success ==> (r matches Err(err) && err@ == trimmed(utf8_lossy(stderr@))),
        success && valid_utf8(stdout@) ==> (r matches Ok(out) && out@ == trimmed(decode_utf8(stdout@))),
        !success && valid_utf8(stderr@) ==> (r matches Err(err) && err@ == trimmed(decode_utf8(stderr@))),
{
    if success {
        let text = lossy_decode(stdout);
        Ok(trim(text.as_str()).to_string())
    } else {
        let text = lossy_decode(stderr);
        Err(trim(text.as_str()).to_string())
    }
}

/// Checks the name and e-mail address that Git reports for the current user:
/// both must be non-empty.
pub fn check_identity(name: &str, email: &str) -> (r: Result<(), String>)
    ensures
        r is Ok <==> (name@.len() > 0 && email@.len() > 0),
        r matches Err(msg) ==> msg@ == no_current_user_message(),
{
    if name.is_empty() || email.is_empty() {
        Err(String::from_str("No current user found"))
    } else {
        Ok(())
    }
}

/// Whether the store's answer to "is this account active?" says yes; an
/// answer that could not be read counts as no.
pub fn active_flag(lookup: Result<bool, String>) -> (active: bool)
    ensures
        active == (lookup == Ok::<bool, String>(true)),
{
    match lookup {
        Ok(flag) => flag,
        Err(_) => false,
    }
}

/// The current user as Git names them; `lookup` is what the account store
/// says of the address being active, and a failed lookup counts as inactive.
pub fn current_user_account(name: String, email: String, lookup: Result<bool, String>) -> (a: Account)
    ensures
        a@ == (AccountView { email: email@, name: name@, is_active: lookup == Ok::<bool, String>(true) }),
{
    let is_active = active_flag(lookup);
    Account { name, email, is_active }
}

/// The stored public key as text: its bytes decoded as UTF-8, or the decoding
/// error's message where they are not well-formed.
pub fn public_key_text(bytes: Vec<u8>) -> (r: Result<String, String>)
    ensures
        r is Ok <==> valid_utf8(bytes@),
        r matches Ok(s) ==> s@ == decode_utf8(bytes@),
{
    match strict_decode(bytes) {
        Ok(s) => Ok(s),
        Err(e) => Err(e.to_string()),
    }
}

/// Arguments of `git` that set a global configuration value.
pub fn config_set_args(key: &str, value: &str) -> (args: Vec<String>)
    ensures
        string_views(args@) == seq!["config"@, "--global"@, key@, value@],
{
    let mut args: Vec<String> = Vec::new();
    args.push(String::from_str("config"));
    args.push(String::from_str("--global"));
    args.push(key.to_string());
    args.push(value.to_string());
    proof {
        assert(string_views(args@) =~= seq!["config"@, "--global"@, key@, value@]);
    }
    args
}

/// Arguments of `git` that read a global configuration value.
pub fn config_get_args(key: &str) -> (args: Vec<String>)
    ensures
        string_views(args@) == seq!["config"@, "--global"@, key@],
{
    let mut args: Vec<String> = Vec::new();
    args.push(String::from_str("config"));
    args.push(String::from_str("--global"));
    args.push(key.to_string());
    proof {
        assert(string_views(args@) =~= seq!["config"@, "--global"@, key@]);
    }
    args
}

/// Arguments of `git` that remove a global configuration value.
pub fn config_unset_args(key: &str) -> (args: Vec<String>)
    ensures
        string_views(args@) == seq!["config"@, "--global"@, "--unset"@, key@],
{
    let mut args: Vec<String> = Vec::new();
    args.push(String::from_str("config"));
    args.push(String::from_str("--global"));
    args.push(String::from_str("--unset"));
    args.push(key.to_string());
    proof {
        assert(string_views(args@) =~= seq!["config"@, "--global"@, "--unset"@, key@]);
    }
    args
}

/// Arguments of `ssh-keygen` that write a new ed25519 key pair without a
/// passphrase to `key_path`, commented with the account's address.
pub fn keygen_args(key_path: &str, email: &str) -> (args: Vec<String>)
    ensures
        string_views(args@) == seq!["-t"@, "ed25519"@, "-f"@, key_path@, "-N"@, ""@, "-C"@, email@],
{
    let mut args: Vec<String> = Vec::new();
    args.push(String::from_str("-t"));
    args.push(String::from_str("ed25519"));
    args.push(String::from_str("-f"));
    args.push(key_path.to_string());
    args.push(String::from_str("-N"));
    args.push(String::from_str(""));
    args.push(String::from_str("-C"));
    args.push(email.to_string());
    proof {
        assert(string_views(args@) =~= seq!["-t"@, "ed25519"@, "-f"@, key_path@, "-N"@, ""@, "-C"@, email@]);
    }
    args
}

} // verus!
