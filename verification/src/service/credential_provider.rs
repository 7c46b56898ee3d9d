//! The module that logs a user on: putting it on a machine and taking it off.

use crate::commands::{self, Command, CommandView, OnFailure};
use vstd::prelude::*;
use vstd::string::StringExecFns;

verus! {

/// The path to use for a file of the module: the one that was given, or the one
/// beside the program.
pub fn source_path(given: Option<String>, beside: String) -> (path: String)
    ensures
        path == match given {
            Some(p) => p,
            None => beside,
        },
{
    match given {
        Some(p) => p,
        None => beside,
    }
}

pub open spec fn missing(name: Seq<char>, path: Seq<char>, option: Seq<char>) -> Seq<char> {
    name + " not found at "@ + path + ". Build crates/cred-provider-win first, or pass "@ + option
        + "."@
}

fn missing_text(name: &str, path: &str, option: &str) -> (message: String)
    ensures
        message@ == missing(name@, path@, option@),
{
    let mut message: String = crate::text::copy(name);
    message.append(" not found at ");
    message.append(path);
    message.append(". Build crates/cred-provider-win first, or pass ");
    message.append(option);
    message.append(".");
    message
}

/// Whether the two files of the module are there. The library is looked for first.
pub fn check_sources(dll: &str, dll_exists: bool, reg: &str, reg_exists: bool) -> (r: Result<
    (),
    String,
>)
    ensures
        r is Ok <==> dll_exists && reg_exists,
        r matches Err(message) ==> message@ == if !dll_exists {
            missing("phantom_cp.dll"@, dll@, "--cp-dll"@)
        } else {
            missing("phantom_cp.reg"@, reg@, "--cp-reg"@)
        },
{
    if !dll_exists {
        return Err(missing_text("phantom_cp.dll", dll, "--cp-dll"));
    }
    if !reg_exists {
        return Err(missing_text("phantom_cp.reg", reg, "--cp-reg"));
    }
    Ok(())
}

/// The command that registers the module by the settings in `reg`.
pub fn install_credential_provider(reg: &str) -> (c: Command)
    ensures
        c@ == (CommandView {
            program: "reg"@,
            args: seq!["import"@, reg@],
            on_failure: OnFailure::Stop,
        }),
{
    let c: Command = commands::command("reg", vec!["import", reg], OnFailure::Stop);
    assert(c@.args =~= seq!["import"@, reg@]);
    c
}

/// The command that deletes a key of the registry.
pub open spec fn key_removal(key: Seq<char>) -> CommandView {
    CommandView {
        program: "reg"@,
        args: seq!["delete"@, key, "/f"@],
        on_failure: OnFailure::Ignore,
    }
}

fn remove_key(key: &str) -> (c: Command)
    ensures
        c@ == key_removal(key@),
{
    let c: Command = commands::command("reg", vec!["delete", key, "/f"], OnFailure::Ignore);
    assert(c@.args =~= key_removal(key@).args);
    c
}

/// The commands that take the module out of the registry.
pub fn uninstall_credential_provider() -> (out: Vec<Command>)
    ensures
        commands::views(out@) == seq![
            key_removal(
                "HKLM\\SOFTWARE\\Microsoft\\Windows\\CurrentVersion\\Authentication\\Credential Providers\\{ccd145e9-71bb-4e91-a604-2ee449adfd54}"@,
            ),
            key_removal("HKCR\\CLSID\\{ccd145e9-71bb-4e91-a604-2ee449adfd54}"@),
        ],
{
    vec![
        remove_key(
            "HKLM\\SOFTWARE\\Microsoft\\Windows\\CurrentVersion\\Authentication\\Credential Providers\\{ccd145e9-71bb-4e91-a604-2ee449adfd54}",
        ),
        remove_key("HKCR\\CLSID\\{ccd145e9-71bb-4e91-a604-2ee449adfd54}"),
    ]
}

/// What was given is used, and the file beside the program only where nothing was; the
/// first file that is not there is the one that is named.
pub proof fn law_given_module_is_used(
    given: Option<String>,
    beside: String,
    path: String,
    dll: &str,
    dll_exists: bool,
    reg: &str,
    reg_exists: bool,
    r: Result<(), String>,
)
    requires
        call_ensures(source_path, (given, beside), path),
        call_ensures(check_sources, (dll, dll_exists, reg, reg_exists), r),
    ensures
        given is Some ==> given == Some(path),
        given is None ==> path == beside,
        dll_exists && reg_exists ==> r is Ok,
        !dll_exists ==> (r matches Err(m) && m@ == missing(
            "phantom_cp.dll"@,
            dll@,
            "--cp-dll"@,
        )),
        dll_exists && !reg_exists ==> (r matches Err(m) && m@ == missing(
            "phantom_cp.reg"@,
            reg@,
            "--cp-reg"@,
        )),
{
}

} // verus!
