//! Putting the service on a machine and taking it off again.
//!
//! Every command is built here; the program around the library runs them and
//! says what came of it.

use crate::commands::{self, Command, CommandView, OnFailure};
use crate::parse;
use crate::text;
use vstd::prelude::*;
use vstd::string::StringExecFns;

verus! {

pub open spec fn service_name() -> Seq<char> {
    "PhantomServer"@
}

pub open spec fn display_name() -> Seq<char> {
    "Phantom Remote Desktop Server"@
}

/// What the service runs.
pub open spec fn bin_path_of(exe: Seq<char>) -> Seq<char> {
    "\""@ + exe + "\" --service"@
}

/// The command line that the service runs.
pub fn bin_path(exe: &str) -> (path: String)
    ensures
        path@ == bin_path_of(exe@),
{
    let mut path: String = String::from_str("\"");
    path.append(exe);
    path.append("\" --service");
    path
}

/// Whether the program runs from the place that it is installed to, so that there
/// is nothing to copy. Case does not matter in paths.
pub fn same_exe(running: &str, installed: &str) -> (same: bool)
    ensures
        same == text::same_ignoring_case(running@, installed@),
{
    text::eq_ignore_case(running, installed)
}

/// How the service is registered: changed if it is there, and otherwise created.
pub open spec fn registration(exists: bool, exe: Seq<char>) -> CommandView {
    let common = seq![
        service_name(),
        "binPath="@,
        bin_path_of(exe),
        "start="@,
        "auto"@,
        "obj="@,
        "LocalSystem"@,
    ];
    CommandView {
        program: "sc"@,
        args: if exists {
            seq!["config"@] + common
        } else {
            seq!["create"@] + common + seq!["DisplayName="@, display_name()]
        },
        on_failure: OnFailure::Stop,
    }
}

/// The command that registers the service for the program at `exe`.
pub fn register_service(exists: bool, exe: &str) -> (c: Command)
    ensures
        c@ == registration(exists, exe@),
{
    let path: String = bin_path(exe);
    if exists {
        let c: Command = commands::command(
            "sc",
            vec![
                "config",
                "PhantomServer",
                "binPath=",
                path.as_str(),
                "start=",
                "auto",
                "obj=",
                "LocalSystem",
            ],
            OnFailure::Stop,
        );
        assert(c@.args =~= registration(exists, exe@).args);
        c
    } else {
        let c: Command = commands::command(
            "sc",
            vec![
                "create",
                "PhantomServer",
                "binPath=",
                path.as_str(),
                "start=",
                "auto",
                "obj=",
                "LocalSystem",
                "DisplayName=",
                "Phantom Remote Desktop Server",
            ],
            OnFailure::Stop,
        );
        assert(c@.args =~= registration(exists, exe@).args);
        c
    }
}

/// The key that crash dumps of the server are set up under.
pub open spec fn dump_key() -> Seq<char> {
    "HKLM\\SOFTWARE\\Microsoft\\Windows\\Windows Error Reporting\\LocalDumps\\phantom-server.exe"@
}

pub open spec fn dump_value(name: Seq<char>, kind: Seq<char>, data: Seq<char>) -> CommandView {
    CommandView {
        program: "reg"@,
        args: seq!["add"@, dump_key(), "/v"@, name, "/t"@, kind, "/d"@, data, "/f"@],
        on_failure: OnFailure::Warn,
    }
}

fn dump_command(name: &str, kind: &str, data: &str) -> (c: Command)
    ensures
        c@ == dump_value(name@, kind@, data@),
{
    let c: Command = commands::command(
        "reg",
        vec![
            "add",
            "HKLM\\SOFTWARE\\Microsoft\\Windows\\Windows Error Reporting\\LocalDumps\\phantom-server.exe",
            "/v",
            name,
            "/t",
            kind,
            "/d",
            data,
            "/f",
        ],
        OnFailure::Warn,
    );
    assert(c@.args =~= dump_value(name@, kind@, data@).args);
    c
}

/// The commands that have full crash dumps kept in `folder`, five at most.
pub fn configure_crash_dumps(folder: &str) -> (out: Vec<Command>)
    ensures
        commands::views(out@) == seq![
            dump_value("DumpFolder"@, "REG_EXPAND_SZ"@, folder@),
            dump_value("DumpType"@, "REG_DWORD"@, "2"@),
            dump_value("DumpCount"@, "REG_DWORD"@, "5"@),
        ],
{
    vec![
        dump_command("DumpFolder", "REG_EXPAND_SZ", folder),
        dump_command("DumpType", "REG_DWORD", "2"),
        dump_command("DumpCount", "REG_DWORD", "5"),
    ]
}

/// What the service is described as.
pub open spec fn description() -> Seq<char> {
    "Phantom remote desktop server — provides remote access including pre-login lock screen."@
}

/// The commands that follow the registration: what the service is described as,
/// and that it starts again by itself when it fails.
pub open spec fn recovery() -> Seq<CommandView> {
    seq![
        CommandView {
            program: "sc"@,
            args: seq!["description"@, service_name(), description()],
            on_failure: OnFailure::Ignore,
        },
        CommandView {
            program: "sc"@,
            args: seq![
                "failure"@,
                service_name(),
                "reset="@,
                "86400"@,
                "actions="@,
                "restart/5000/restart/5000/restart/30000"@,
            ],
            on_failure: OnFailure::Ignore,
        },
        CommandView {
            program: "sc"@,
            args: seq!["failureflag"@, service_name(), "1"@],
            on_failure: OnFailure::Ignore,
        },
    ]
}

/// The commands that describe the service and have it start again after a crash.
pub fn recovery_commands() -> (out: Vec<Command>)
    ensures
        commands::views(out@) == recovery(),
{
    let a: Command = commands::command(
        "sc",
        vec![
            "description",
            "PhantomServer",
            "Phantom remote desktop server — provides remote access including pre-login lock screen.",
        ],
        OnFailure::Ignore,
    );
    let b: Command = commands::command(
        "sc",
        vec![
            "failure",
            "PhantomServer",
            "reset=",
            "86400",
            "actions=",
            "restart/5000/restart/5000/restart/30000",
        ],
        OnFailure::Ignore,
    );
    let c: Command = commands::command(
        "sc",
        vec!["failureflag", "PhantomServer", "1"],
        OnFailure::Ignore,
    );
    assert(a@.args =~= recovery()[0].args);
    assert(b@.args =~= recovery()[1].args);
    assert(c@.args =~= recovery()[2].args);
    vec![a, b, c]
}

/// The command that takes the service's rule out of the firewall.
pub open spec fn firewall_removal() -> CommandView {
    CommandView {
        program: "netsh"@,
        args: seq!["advfirewall"@, "firewall"@, "delete"@, "rule"@, "name=PhantomServer"@],
        on_failure: OnFailure::Ignore,
    }
}

/// The command that lets everyone connect to the program at `exe`, on any port.
pub open spec fn firewall_rule(exe: Seq<char>) -> CommandView {
    CommandView {
        program: "netsh"@,
        args: seq![
            "advfirewall"@,
            "firewall"@,
            "add"@,
            "rule"@,
            "name=PhantomServer"@,
            "dir=in"@,
            "action=allow"@,
            "program="@ + exe,
            "enable=yes"@,
            "profile=any"@,
            "description=Phantom Remote Desktop Server — allow inbound connections to phantom-server.exe"@,
        ],
        on_failure: OnFailure::Warn,
    }
}

pub fn uninstall_firewall_rule() -> (c: Command)
    ensures
        c@ == firewall_removal(),
{
    let c: Command = commands::command(
        "netsh",
        vec!["advfirewall", "firewall", "delete", "rule", "name=PhantomServer"],
        OnFailure::Ignore,
    );
    assert(c@.args =~= firewall_removal().args);
    c
}

/// The commands that put the service's rule into the firewall: an old one goes
/// first, so that there is never more than one.
pub fn install_firewall_rule(exe: &str) -> (out: Vec<Command>)
    ensures
        commands::views(out@) == seq![firewall_removal(), firewall_rule(exe@)],
{
    let remove: Command = uninstall_firewall_rule();
    let mut program: String = String::from_str("program=");
    program.append(exe);
    let c: Command = commands::command(
        "netsh",
        vec![
            "advfirewall",
            "firewall",
            "add",
            "rule",
            "name=PhantomServer",
            "dir=in",
            "action=allow",
            program.as_str(),
            "enable=yes",
            "profile=any",
            "description=Phantom Remote Desktop Server — allow inbound connections to phantom-server.exe",
        ],
        OnFailure::Warn,
    );
    assert(c@.args =~= firewall_rule(exe@).args);
    vec![remove, c]
}

/// The command that ends every server process but the one with the number `me`.
pub open spec fn killing_others(me: u32) -> CommandView {
    CommandView {
        program: "taskkill"@,
        args: seq![
            "/F"@,
            "/FI"@,
            "IMAGENAME eq phantom-server.exe"@,
            "/FI"@,
            "PID ne "@ + text::decimal(me as nat),
        ],
        on_failure: OnFailure::Ignore,
    }
}

pub fn kill_other_phantom_server_processes(me: u32) -> (c: Command)
    ensures
        c@ == killing_others(me),
{
    let mut filter: String = String::from_str("PID ne ");
    text::push_decimal(&mut filter, me as u64);
    let c: Command = commands::command(
        "taskkill",
        vec!["/F", "/FI", "IMAGENAME eq phantom-server.exe", "/FI", filter.as_str()],
        OnFailure::Ignore,
    );
    assert(c@.args =~= killing_others(me).args);
    c
}

/// The command that ends the process of the service.
pub open spec fn killing_service() -> CommandView {
    CommandView {
        program: "taskkill"@,
        args: seq!["/F"@, "/FI"@, "SERVICES eq PhantomServer"@],
        on_failure: OnFailure::Ignore,
    }
}

pub fn kill_service() -> (c: Command)
    ensures
        c@ == killing_service(),
{
    let c: Command = commands::command(
        "taskkill",
        vec!["/F", "/FI", "SERVICES eq PhantomServer"],
        OnFailure::Ignore,
    );
    assert(c@.args =~= killing_service().args);
    c
}

/// Whether the service runs, by what the system says of it, where it knows it.
pub fn service_is_running(status: Option<&str>) -> (running: bool)
    ensures
        running == (status matches Some(s) && text::occurs(s@, "RUNNING"@)),
{
    match status {
        Some(s) => text::contains(s, "RUNNING"),
        None => false,
    }
}

/// How often it is looked whether the service has stopped by itself.
pub const STOP_POLLS: u32 = 30;

/// How often it is looked once it was killed.
pub const KILL_POLLS: u32 = 10;

/// The pause between two looks, in milliseconds.
pub const STOP_POLL_MS: u64 = 500;

/// Waiting for a running service to stop.
#[derive(Debug, Clone, Copy, PartialEq, Eq, Structural)]
pub struct StopWait {
    left: u32,
    killed: bool,
}

/// How the wait goes on.
#[derive(Debug, PartialEq, Eq)]
pub enum StopStep {
    /// Look whether the service still runs.
    Look,
    /// Kill it.
    Kill,
    /// Give up.
    GiveUp(String),
}

impl StopWait {
    /// The looks that are left before something else is done.
    pub closed spec fn left(&self) -> u32 {
        self.left
    }

    /// The service was killed.
    pub closed spec fn was_killed(&self) -> bool {
        self.killed
    }

    pub open spec fn wf(&self) -> bool {
        self.left() <= if self.was_killed() {
            KILL_POLLS
        } else {
            STOP_POLLS
        }
    }

    /// How many looks there are still to come at most.
    pub open spec fn looks_left(&self) -> int {
        self.left() + if self.was_killed() {
            0
        } else {
            KILL_POLLS as int
        }
    }

    pub fn new() -> (wait: StopWait)
        ensures
            wait.left() == STOP_POLLS,
            !wait.was_killed(),
            wait.wf(),
    {
        StopWait { left: STOP_POLLS, killed: false }
    }

    /// What comes next while the service still runs.
    pub fn next(&self) -> (step: StopStep)
        ensures
            step is Look <==> self.left() > 0,
            step is Kill <==> self.left() == 0 && !self.was_killed(),
            step matches StopStep::GiveUp(message) ==> message@
                == "existing PhantomServer service is still running after stop/kill"@,
    {
        if self.left > 0 {
            StopStep::Look
        } else if !self.killed {
            StopStep::Kill
        } else {
            StopStep::GiveUp(
                String::from_str(
                    "existing PhantomServer service is still running after stop/kill",
                ),
            )
        }
    }

    /// It was looked, and the service runs.
    pub fn on_running(&mut self)
        ensures
            final(self).left() == if old(self).left() > 0 {
                old(self).left() - 1
            } else {
                0
            },
            final(self).was_killed() == old(self).was_killed(),
            old(self).wf() ==> final(self).wf(),
    {
        if self.left > 0 {
            self.left = self.left - 1;
        }
    }

    /// It was killed.
    pub fn on_killed(&mut self)
        ensures
            final(self).left() == KILL_POLLS,
            final(self).was_killed(),
            final(self).wf(),
    {
        self.left = KILL_POLLS;
        self.killed = true;
    }
}

/// What the driver of a GPU is set to.
#[derive(Debug, PartialEq, Eq)]
pub enum GpuSetup {
    /// There is no GPU to set up.
    NoGpu,
    /// What the tool printed makes no sense.
    Unclear(String),
    /// It shows pictures already.
    Ready { name: String },
    /// It has to be switched over to show pictures.
    Switch { name: String, mode: String },
}

/// The place of the first comma, or the length if there is none.
pub open spec fn first_comma(line: Seq<char>) -> int
    decreases line.len(),
{
    if line.len() == 0 {
        0
    } else if line[0] == ',' {
        0
    } else {
        1 + first_comma(line.skip(1))
    }
}

/// Reads what the GPU's tool prints: the mode of the driver, a comma, and the name.
pub fn setup_nvidia_gpu(printed: Option<&str>) -> (setup: GpuSetup)
    ensures
        ({
            let line = match printed {
                Some(p) => parse::trimmed(p@),
                None => Seq::empty(),
            };
            let comma = first_comma(line);
            let mode = parse::trimmed(line.take(comma));
            let name = parse::trimmed(line.skip(comma + 1));
            match setup {
                GpuSetup::NoGpu => line.len() == 0,
                GpuSetup::Unclear(l) => line.len() > 0 && comma == line.len() && l@ == line,
                GpuSetup::Ready { name: n } => 0 <= comma < line.len() && mode == "WDDM"@ && n@
                    == name,
                GpuSetup::Switch { name: n, mode: m } => 0 <= comma < line.len() && mode != "WDDM"@
                    && n@ == name && m@ == mode,
            }
        }),
{
    let line: String = match printed {
        Some(p) => parse::trim(p),
        None => String::new(),
    };
    let chars: Vec<char> = text::chars_of(line.as_str());
    let total: usize = chars.len();
    if total == 0 {
        return GpuSetup::NoGpu;
    }
    let mut comma: usize = 0;
    assert(line@.skip(0) == line@);
    while comma < total && chars[comma] != ','
        invariant
            comma <= total == chars@.len(),
            chars@ == line@,
            first_comma(line@) == comma + first_comma(line@.skip(comma as int)),
        decreases total - comma,
    {
        assert(line@.skip(comma as int).skip(1) == line@.skip(comma + 1));
        comma = comma + 1;
    }
    if comma == total {
        assert(line@.skip(total as int) == Seq::<char>::empty());
        return GpuSetup::Unclear(line);
    }
    assert(line@.subrange(0, comma as int) == line@.take(comma as int));
    assert(line@.subrange(comma + 1, total as int) == line@.skip(comma + 1));
    let head: String = text::text_of(chars.as_slice(), 0, comma);
    let tail: String = text::text_of(chars.as_slice(), comma + 1, total);
    let mode: String = parse::trim(head.as_str());
    let name: String = parse::trim(tail.as_str());
    if text::same(mode.as_str(), "WDDM") {
        GpuSetup::Ready { name }
    } else {
        GpuSetup::Switch { name, mode }
    }
}

/// Whether the machine has to be started again: only if the driver was switched over,
/// and that worked.
pub fn reboot_needed(setup: &GpuSetup, switched: bool) -> (needed: bool)
    ensures
        needed == (setup is Switch && switched),
{
    match setup {
        GpuSetup::Switch { .. } => switched,
        _ => false,
    }
}

/// How a command that registers or removes the service is judged.
pub fn check_sc(action: &str, success: bool, status: &str) -> (r: Result<(), String>)
    ensures
        r is Ok <==> success,
        r matches Err(message) ==> message@ == "sc "@ + action@ + " failed with "@ + status@
            + ". Run as Administrator."@,
{
    if success {
        return Ok(());
    }
    let mut message: String = String::from_str("sc ");
    message.append(action);
    message.append(" failed with ");
    message.append(status);
    message.append(". Run as Administrator.");
    Err(message)
}

/// The commands that take the service off a machine, in order. Each may fail but the
/// one that deletes the service; the last two come only once it is deleted.
pub open spec fn removal(me: u32) -> Seq<CommandView> {
    seq![
        CommandView {
            program: "sc"@,
            args: seq!["stop"@, service_name()],
            on_failure: OnFailure::Ignore,
        },
        killing_service(),
        killing_others(me),
        CommandView {
            program: "sc"@,
            args: seq!["delete"@, service_name()],
            on_failure: OnFailure::Stop,
        },
        firewall_removal(),
        CommandView {
            program: "schtasks"@,
            args: seq!["/Delete"@, "/TN"@, "PhantomServer"@, "/F"@],
            on_failure: OnFailure::Ignore,
        },
    ]
}

/// The commands that take the service off a machine. The process that runs them has
/// the number `me`.
pub fn uninstall_service(me: u32) -> (out: Vec<Command>)
    ensures
        commands::views(out@) == removal(me),
{
    let stop: Command = commands::command("sc", vec!["stop", "PhantomServer"], OnFailure::Ignore);
    let delete: Command = commands::command(
        "sc",
        vec!["delete", "PhantomServer"],
        OnFailure::Stop,
    );
    let task: Command = commands::command(
        "schtasks",
        vec!["/Delete", "/TN", "PhantomServer", "/F"],
        OnFailure::Ignore,
    );
    assert(stop@.args =~= removal(me)[0].args);
    assert(delete@.args =~= removal(me)[3].args);
    assert(task@.args =~= removal(me)[5].args);
    vec![
        stop,
        kill_service(),
        kill_other_phantom_server_processes(me),
        delete,
        uninstall_firewall_rule(),
        task,
    ]
}

/// The commands that have crash dumps kept in `dumps`, where there is such a directory.
pub open spec fn dump_values(dumps: Option<Seq<char>>) -> Seq<CommandView> {
    match dumps {
        Some(dir) => seq![
            dump_value("DumpFolder"@, "REG_EXPAND_SZ"@, dir),
            dump_value("DumpType"@, "REG_DWORD"@, "2"@),
            dump_value("DumpCount"@, "REG_DWORD"@, "5"@),
        ],
        None => Seq::empty(),
    }
}

/// The commands that put the service on a machine once its program is in place at
/// `exe`: it is registered, described and set to start again after a crash, crash
/// dumps are kept in `dumps` if that directory could be made, and the firewall lets
/// viewers through.
pub open spec fn installation(exists: bool, exe: Seq<char>, dumps: Option<Seq<char>>) -> Seq<
    CommandView,
> {
    seq![registration(exists, exe)] + recovery() + dump_values(dumps) + seq![
        firewall_removal(),
        firewall_rule(exe),
    ]
}

fn append_all(out: &mut Vec<Command>, more: Vec<Command>)
    ensures
        commands::views(final(out)@) == commands::views(old(out)@) + commands::views(more@),
{
    let ghost first = out@;
    let ghost all = more@;
    for c in it: more
        invariant
            it.seq() == all,
            commands::views(out@) == commands::views(first) + commands::views(
                all.take(it.index() as int),
            ),
    {
        let ghost earlier = out@;
        let ghost k = it.index() as int;
        out.push(c);
        assert(c == all[k]);
        assert(commands::views(out@) =~= commands::views(earlier).push(all[k]@));
        assert(commands::views(all.take(k + 1)) =~= commands::views(all.take(k)).push(all[k]@));
    }
    assert(all.take(all.len() as int) == all);
}

/// The commands that put the service on a machine, in order. There is no `dumps` where
/// the directory for crash dumps could not be made.
pub fn install_service(exists: bool, exe: &str, dumps: Option<&str>) -> (out: Vec<Command>)
    ensures
        commands::views(out@) == installation(
            exists,
            exe@,
            match dumps {
                Some(dir) => Some(dir@),
                None => None,
            },
        ),
{
    let mut out: Vec<Command> = vec![register_service(exists, exe)];
    assert(commands::views(out@) =~= seq![registration(exists, exe@)]);
    append_all(&mut out, recovery_commands());
    if let Some(dir) = dumps {
        append_all(&mut out, configure_crash_dumps(dir));
    }
    append_all(&mut out, install_firewall_rule(exe));
    assert(commands::views(out@) =~= installation(
        exists,
        exe@,
        match dumps {
            Some(dir) => Some(dir@),
            None => None,
        },
    ));
    out
}

/// The command that starts the service.
pub open spec fn starting() -> CommandView {
    CommandView {
        program: "sc"@,
        args: seq!["start"@, service_name()],
        on_failure: OnFailure::StopUnlessRun,
    }
}

/// The last step of the installation: the service is started, unless the machine has to
/// be restarted first. That the command cannot be run fails the installation; that the
/// service does not start only gets told.
pub fn start_service(reboot: bool) -> (start: Option<Command>)
    ensures
        start is None <==> reboot,
        start matches Some(command) ==> command@ == starting(),
{
    if reboot {
        return None;
    }
    let start: Command = commands::command(
        "sc",
        vec!["start", "PhantomServer"],
        OnFailure::StopUnlessRun,
    );
    assert(start@.args =~= starting().args);
    Some(start)
}

/// Uninstalling never ends the process that does it before it is done: the one
/// command that goes by the program's name leaves that process out.
pub proof fn law_uninstall_spares_itself(me: u32, i: int)
    requires
        0 <= i < removal(me).len(),
        removal(me)[i].program == "taskkill"@,
        removal(me)[i].args.contains("IMAGENAME eq phantom-server.exe"@),
    ensures
        removal(me)[i].args.contains("PID ne "@ + text::decimal(me as nat)),
{
    reveal_strlit("taskkill");
    reveal_strlit("sc");
    reveal_strlit("netsh");
    reveal_strlit("schtasks");
    reveal_strlit("/F");
    reveal_strlit("/FI");
    reveal_strlit("SERVICES eq PhantomServer");
    reveal_strlit("IMAGENAME eq phantom-server.exe");
    assert("taskkill"@[0] != "schtasks"@[0]);
    assert("taskkill"@.len() == 8 && "sc"@.len() == 2 && "netsh"@.len() == 5);
    assert("IMAGENAME eq phantom-server.exe"@.len() == 31);
    assert("SERVICES eq PhantomServer"@.len() == 25);
    if i == 1 {
        let args = killing_service().args;
        assert(forall|k: int| 0 <= k < args.len() ==> args[k].len() != 31);
        assert(false);
    } else {
        assert(i == 2);
        assert(killing_others(me).args[4] == "PID ne "@ + text::decimal(me as nat));
    }
}

/// The wait for the service to stop ends: every look uses one up, and killing it
/// uses up those of the first round.
pub proof fn law_stop_wait_ends(before: StopWait, after: StopWait)
    requires
        before.wf(),
    ensures
        before.looks_left() <= STOP_POLLS + KILL_POLLS,
        before.left() > 0 && after.left() == before.left() - 1 && after.was_killed()
            == before.was_killed() ==> after.looks_left() < before.looks_left(),
        before.left() == 0 && !before.was_killed() && after.left() == KILL_POLLS
            && after.was_killed() ==> after.looks_left() == before.looks_left(),
{
}

/// What is put on a machine is taken off again: the service, by its name, and its
/// rule in the firewall.
pub proof fn law_uninstall_undoes_install(
    exists: bool,
    exe: Seq<char>,
    dumps: Option<Seq<char>>,
    me: u32,
)
    ensures
        installation(exists, exe, dumps)[0].args[1] == removal(me)[3].args[1],
        installation(exists, exe, dumps).last().args[4] == removal(me)[4].args[4],
{
}

/// The wait for a service to stop begins with thirty looks; once those are used up the
/// service is killed, which gives ten more, and only after those it is given up.
pub proof fn law_stop_is_awaited_then_forced(wait: StopWait, fresh: StopWait, step: StopStep)
    requires
        call_ensures(StopWait::new, (), fresh),
        call_ensures(StopWait::next, (&wait,), step),
    ensures
        fresh.left() == 30 && !fresh.was_killed(),
        step is GiveUp ==> wait.left() == 0 && wait.was_killed(),
        step is Kill ==> wait.left() == 0 && !wait.was_killed(),
        step is Look <==> wait.left() > 0,
        forall|w: &mut StopWait, out: ()| #[trigger] call_ensures(StopWait::on_running, (w,), out)
            ==> (*w).left() > 0 ==> (*final(w)).left() + 1 == (*w).left() && (*final(w)).was_killed() == (*w).was_killed(),
        forall|w: &mut StopWait, out: ()| #[trigger] call_ensures(StopWait::on_killed, (w,), out)
            ==> (*final(w)).left() == 10 && (*final(w)).was_killed(),
{
}

/// A service that is there is changed and one that is not is created, in both cases to run
/// the quoted program by itself and as the system; only a new one gets a name to be shown.
pub proof fn law_registering_fits_what_is_there(there: bool, exe: &str, c: Command)
    requires
        call_ensures(register_service, (there, exe), c),
    ensures
        c@.program == "sc"@,
        c@.args[0] == if there {
            "config"@
        } else {
            "create"@
        },
        c@.args[1] == "PhantomServer"@,
        c@.args[3] == "\""@ + exe@ + "\" --service"@,
        c@.args[5] == "auto"@,
        c@.args[7] == "LocalSystem"@,
        there <==> c@.args.len() == 8,
        !there ==> c@.args.len() == 10 && c@.args[9] == "Phantom Remote Desktop Server"@,
        c@.on_failure is Stop,
{
}

/// Installing registers first, lets viewers in last and in between sets up what follows a
/// crash; what keeps dumps is there exactly if there is a directory for them.
pub proof fn law_installing_goes_in_order(
    there: bool,
    exe: &str,
    dumps: Option<&str>,
    out: Vec<Command>,
)
    requires
        call_ensures(install_service, (there, exe, dumps), out),
    ensures
        out@.len() == if dumps is Some {
            9int
        } else {
            6
        },
        out@[0]@ == registration(there, exe@),
        out@[0]@.on_failure is Stop,
        forall|i: int|
            0 < i < out@.len() ==> !((#[trigger] commands::views(out@)[i]).on_failure is Stop),
        commands::views(out@).last().args.contains("program="@ + exe@),
        commands::views(out@).last().args.contains("dir=in"@),
        commands::views(out@).last().args.contains("action=allow"@),
        commands::views(out@)[out@.len() - 2].args.contains("delete"@),
        dumps matches Some(dir) ==> commands::views(out@)[4].args.contains(dir@),
{
    let all = commands::views(out@);
    assert(all.len() == out@.len());
    assert(all[0] == out@[0]@);
    assert(all.last() == firewall_rule(exe@));
    assert(firewall_rule(exe@).args[7] == "program="@ + exe@);
    assert(firewall_rule(exe@).args[5] == "dir=in"@);
    assert(firewall_rule(exe@).args[6] == "action=allow"@);
    assert(all[all.len() - 2] == firewall_removal());
    assert(firewall_removal().args[2] == "delete"@);
    if let Some(dir) = dumps {
        assert(all[4] == dump_value("DumpFolder"@, "REG_EXPAND_SZ"@, dir@));
        assert(all[4].args[7] == dir@);
    }
}

/// Taking the service off stops it, ends what is left of it, deletes it, and only then
/// takes out what belonged to it; nothing but a failed deletion stops that.
pub proof fn law_uninstalling_goes_in_order(me: u32, out: Vec<Command>)
    requires
        call_ensures(uninstall_service, (me,), out),
    ensures
        out@.len() == 6,
        commands::views(out@)[0].args == seq!["stop"@, "PhantomServer"@],
        commands::views(out@)[3].args == seq!["delete"@, "PhantomServer"@],
        forall|i: int|
            0 <= i < 6 ==> ((#[trigger] commands::views(out@)[i]).on_failure is Stop <==> i == 3),
        commands::views(out@)[1].program == "taskkill"@,
        commands::views(out@)[2].program == "taskkill"@,
        commands::views(out@)[4].program == "netsh"@,
        commands::views(out@)[5].program == "schtasks"@,
{
    assert(commands::views(out@).len() == out@.len());
}

/// The first comma of a line is a comma, and what stands before it is none.
pub proof fn law_first_comma_is_the_first(line: Seq<char>)
    ensures
        0 <= first_comma(line) <= line.len(),
        first_comma(line) < line.len() ==> line[first_comma(line)] == ',',
        forall|i: int| 0 <= i < first_comma(line) ==> line[i] != ',',
    decreases line.len(),
{
    if line.len() > 0 && line[0] != ',' {
        let rest = line.skip(1);
        law_first_comma_is_the_first(rest);
        assert forall|i: int| 0 <= i < first_comma(line) implies line[i] != ',' by {
            if i > 0 {
                assert(line[i] == rest[i - 1]);
            }
        }
    }
}

/// A restart is needed only after a driver that did not show pictures was switched over.
pub proof fn law_restart_follows_a_switch(
    setup: GpuSetup,
    switched: bool,
    needed: bool,
    start: Option<Command>,
)
    requires
        call_ensures(reboot_needed, (&setup, switched), needed),
        call_ensures(start_service, (needed,), start),
    ensures
        needed ==> setup is Switch && switched,
        setup is Switch && switched ==> start is None,
        setup is Ready || setup is NoGpu || setup is Unclear || !switched ==> start is Some,
        start matches Some(c) ==> c@.program == "sc"@ && c@.args == seq![
            "start"@,
            "PhantomServer"@,
        ],
{
}

/// The program is in place exactly where the two paths differ in case alone.
pub proof fn law_same_program_by_path(a: &str, b: &str, same: bool, back: bool)
    requires
        call_ensures(same_exe, (a, b), same),
        call_ensures(same_exe, (b, a), back),
    ensures
        same == back,
        a@ == b@ ==> same,
{
}

/// A tool that prints nothing has no GPU to set up; a line without a comma is unclear; a
/// driver in the mode that shows pictures is ready, and one in any other is switched, by
/// the name after the comma.
pub proof fn law_driver_mode_stands_before_the_comma(
    printed: Option<&str>,
    setup: GpuSetup,
    mode: Seq<char>,
    name: Seq<char>,
)
    requires
        call_ensures(setup_nvidia_gpu, (printed,), setup),
        !mode.contains(','),
    ensures
        printed is None ==> setup is NoGpu,
        printed matches Some(p) ==> {
            let line = parse::trimmed(p@);
            &&& setup is NoGpu <==> line.len() == 0
            &&& line.len() > 0 && !line.contains(',') ==> setup is Unclear
            &&& line == mode + ","@ + name ==> {
                &&& setup is Ready <==> parse::trimmed(mode) == "WDDM"@
                &&& setup is Switch <==> parse::trimmed(mode) != "WDDM"@
                &&& setup matches GpuSetup::Ready { name: n } ==> n@ == parse::trimmed(name)
                &&& setup matches GpuSetup::Switch { name: n, mode: m } ==> n@ == parse::trimmed(
                    name,
                ) && m@ == parse::trimmed(mode)
            }
        },
{
    reveal_strlit(",");
    if let Some(p) = printed {
        let line = parse::trimmed(p@);
        law_first_comma_is_the_first(line);
        let comma = first_comma(line);
        if line == mode + ","@ + name {
            let at = mode.len() as int;
            assert(line[at] == ',');
            if comma < at {
                assert(line[comma] == mode[comma]);
                assert(mode.contains(mode[comma]));
            }
            assert(comma == at);
            assert(line.take(comma) =~= mode);
            assert(line.skip(comma + 1) =~= name);
        }
        if !line.contains(',') && comma < line.len() {
            assert(line.contains(line[comma]));
        }
    }
}

} // verus!
