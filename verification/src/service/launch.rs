//! Starting an agent in a session, and finding and ending its processes.

use crate::parse;
use crate::service::desktop_kind::AgentDesktopKind;
use crate::text;
use vstd::prelude::*;
use vstd::string::StringExecFns;

verus! {

/// Whose rights an agent is started with.
#[derive(Debug, Clone, Copy, PartialEq, Eq, Structural)]
pub enum LaunchToken {
    /// Those of the shell in the session.
    Shell,
    /// Those of the user who is logged on.
    ActiveUser,
    /// Those of the service, moved into the session.
    System,
}

/// The command line of an agent.
pub open spec fn agent_command(exe: Seq<char>, session: u32) -> Seq<char> {
    "\""@ + exe + "\" --agent-mode --ipc-session "@ + text::decimal(session as nat)
        + " --listen 127.0.0.1:9910 --no-encrypt"@
}

/// The command line that starts an agent in `session`.
pub fn agent_command_line(exe: &str, session: u32) -> (line: String)
    ensures
        line@ == agent_command(exe@, session),
{
    let mut line: String = String::from_str("\"");
    line.append(exe);
    line.append("\" --agent-mode --ipc-session ");
    text::push_decimal(&mut line, session as u64);
    line.append(" --listen 127.0.0.1:9910 --no-encrypt");
    line
}

/// The first rights to try. On the normal desktop a user's come first, with which
/// input can be injected; the secure desktop is open to the system only.
pub open spec fn first_of(kind: AgentDesktopKind) -> LaunchToken {
    match kind {
        AgentDesktopKind::Default => LaunchToken::Shell,
        AgentDesktopKind::Winlogon => LaunchToken::System,
    }
}

pub open spec fn after_of(token: LaunchToken) -> Option<LaunchToken> {
    match token {
        LaunchToken::Shell => Some(LaunchToken::ActiveUser),
        LaunchToken::ActiveUser => Some(LaunchToken::System),
        LaunchToken::System => None,
    }
}

pub fn first_token(kind: AgentDesktopKind) -> (token: LaunchToken)
    ensures
        token == first_of(kind),
{
    match kind {
        AgentDesktopKind::Default => LaunchToken::Shell,
        AgentDesktopKind::Winlogon => LaunchToken::System,
    }
}

/// The rights to try when starting with `token` failed.
pub fn token_after(token: LaunchToken) -> (next: Option<LaunchToken>)
    ensures
        next == after_of(token),
{
    match token {
        LaunchToken::Shell => Some(LaunchToken::ActiveUser),
        LaunchToken::ActiveUser => Some(LaunchToken::System),
        LaunchToken::System => None,
    }
}

/// The desktops to try with a token, in order.
pub open spec fn desktops_of(token: LaunchToken, kind: AgentDesktopKind) -> Seq<Seq<char>> {
    if token == LaunchToken::System && kind == AgentDesktopKind::Winlogon {
        seq!["winsta0\\winlogon"@, "winsta0\\default"@]
    } else {
        seq!["winsta0\\default"@]
    }
}

pub fn desktop_names(token: LaunchToken, kind: AgentDesktopKind) -> (names: Vec<String>)
    ensures
        parse::views(names@) == desktops_of(token, kind),
{
    let names: Vec<String> = match (token, kind) {
        (LaunchToken::System, AgentDesktopKind::Winlogon) => vec![
            String::from_str("winsta0\\winlogon"),
            String::from_str("winsta0\\default"),
        ],
        _ => vec![String::from_str("winsta0\\default")],
    };
    assert(parse::views(names@) =~= desktops_of(token, kind));
    names
}

/// What the token is called in the log.
pub open spec fn label_of(token: LaunchToken) -> Seq<char> {
    match token {
        LaunchToken::Shell => "explorer shell"@,
        LaunchToken::ActiveUser => "active user"@,
        LaunchToken::System => "SYSTEM"@,
    }
}

pub fn token_label(token: LaunchToken) -> (label: &'static str)
    ensures
        label@ == label_of(token),
{
    match token {
        LaunchToken::Shell => "explorer shell",
        LaunchToken::ActiveUser => "active user",
        LaunchToken::System => "SYSTEM",
    }
}

/// A process as the system lists it. The session may not be known.
#[derive(Debug, PartialEq, Eq)]
pub struct ProcessEntry {
    pub exe: String,
    pub pid: u32,
    pub parent: u32,
    pub session: Option<u32>,
}

/// The process is program `name` in `session`.
pub open spec fn runs_in(p: ProcessEntry, name: Seq<char>, session: u32) -> bool {
    text::same_ignoring_case(p.exe@, name) && p.session == Some(session)
}

/// The first process of program `name` in `session`.
pub fn find_process_in_session(processes: &Vec<ProcessEntry>, name: &str, session: u32) -> (pid:
    Option<u32>)
    ensures
        pid is None <==> forall|i: int|
            0 <= i < processes@.len() ==> !runs_in(#[trigger] processes@[i], name@, session),
        pid matches Some(found) ==> exists|i: int|
            {
                &&& 0 <= i < processes@.len()
                &&& runs_in(#[trigger] processes@[i], name@, session)
                &&& processes@[i].pid == found
                &&& forall|j: int| 0 <= j < i ==> !runs_in(#[trigger] processes@[j], name@, session)
            },
{
    let total: usize = processes.len();
    let mut i: usize = 0;
    while i < total
        invariant
            i <= total == processes@.len(),
            forall|j: int| 0 <= j < i ==> !runs_in(#[trigger] processes@[j], name@, session),
        decreases total - i,
    {
        let p: &ProcessEntry = &processes[i];
        if text::eq_ignore_case(p.exe.as_str(), name) {
            if let Some(s) = p.session {
                if s == session {
                    assert(runs_in(processes@[i as int], name@, session));
                    return Some(p.pid);
                }
            }
        }
        i = i + 1;
    }
    None
}

/// The process is an agent of ours that was left behind in a session of users other
/// than `target`.
pub open spec fn is_lingering(p: ProcessEntry, me: u32, target: u32) -> bool {
    &&& text::same_ignoring_case(p.exe@, "phantom-server.exe"@)
    &&& p.pid != me
    &&& p.parent == me
    &&& p.session matches Some(s) && s != 0 && s != target
}

/// The lingering agents among the first `n` processes.
pub open spec fn lingering(processes: Seq<ProcessEntry>, me: u32, target: u32, n: int) -> Seq<u32>
    decreases n,
{
    if n <= 0 {
        Seq::empty()
    } else if is_lingering(processes[n - 1], me, target) {
        lingering(processes, me, target, n - 1).push(processes[n - 1].pid)
    } else {
        lingering(processes, me, target, n - 1)
    }
}

/// The processes to end before an agent is started in session `target`.
pub fn kill_lingering_agents_for_other_sessions(
    processes: &Vec<ProcessEntry>,
    me: u32,
    target: u32,
) -> (pids: Vec<u32>)
    ensures
        pids@ == lingering(processes@, me, target, processes@.len() as int),
{
    let total: usize = processes.len();
    let mut pids: Vec<u32> = Vec::new();
    let mut i: usize = 0;
    while i < total
        invariant
            i <= total == processes@.len(),
            pids@ == lingering(processes@, me, target, i as int),
        decreases total - i,
    {
        let p: &ProcessEntry = &processes[i];
        let stray: bool = match p.session {
            Some(s) => s != 0 && s != target,
            None => false,
        };
        if stray && p.pid != me && p.parent == me && text::eq_ignore_case(
            p.exe.as_str(),
            "phantom-server.exe",
        ) {
            pids.push(p.pid);
        }
        i = i + 1;
    }
    pids
}

/// A process that was started, by its handle and number.
#[derive(Debug, Clone, Copy, PartialEq, Eq, Structural)]
pub struct WinProcessHandle {
    pub handle_valid: bool,
    pub pid: u32,
}

/// How a wait for a process ended.
#[derive(Debug, Clone, Copy, PartialEq, Eq, Structural)]
pub enum ProcessWait {
    Ended,
    TimedOut,
    Failed,
}

impl WinProcessHandle {
    /// There is a process to wait for.
    pub open spec fn is_known(self) -> bool {
        self.handle_valid && self.pid != 0
    }

    /// Whether there is a process to wait for.
    pub fn known(&self) -> (known: bool)
        ensures
            known == self.is_known(),
    {
        self.handle_valid && self.pid != 0
    }

    /// Whether the process is known to have ended within the wait.
    pub fn wait(&self, wait: ProcessWait) -> (ended: bool)
        ensures
            ended == (self.is_known() && wait is Ended),
    {
        if !self.known() {
            return false;
        }
        match wait {
            ProcessWait::Ended => true,
            _ => false,
        }
    }

    /// Whether the process is known to have ended after it was to be terminated.
    pub fn terminate_and_wait(&self, terminated: bool, wait: ProcessWait) -> (ended: bool)
        ensures
            ended == (self.is_known() && terminated && wait is Ended),
    {
        if !self.known() || !terminated {
            return false;
        }
        match wait {
            ProcessWait::Ended => true,
            _ => false,
        }
    }

    /// The exit code of the process, if it has ended. Nothing is known of a process
    /// without a handle; a wait that fails counts as an end.
    pub fn try_wait(&self, wait: ProcessWait, exit_code: u32) -> (code: Option<u32>)
        ensures
            code == if self.is_known() && !(wait is TimedOut) {
                Some(exit_code)
            } else {
                None
            },
    {
        if !self.known() {
            return None;
        }
        match wait {
            ProcessWait::TimedOut => None,
            _ => Some(exit_code),
        }
    }
}

/// The words of a line stand for a session with a user: the number of the session is
/// one of them, and a name goes before it that is not one of the system's own.
pub open spec fn user_at(words: Seq<Seq<char>>, session: u32, i: int) -> bool {
    &&& 2 <= i < words.len()
    &&& parse::number_value(words[i], u32::MAX as nat) == Some(session as nat)
    &&& words[i - 1] != "services"@
    &&& words[i - 1] != "console"@
}

/// The user that the words of a line name for `session`, looking from word `i` on.
pub open spec fn user_in(words: Seq<Seq<char>>, session: u32, i: int) -> Option<Seq<char>>
    decreases words.len() - i,
{
    if i >= words.len() {
        None
    } else if user_at(words, session, i) {
        Some(words[i - 1])
    } else {
        user_in(words, session, i + 1)
    }
}

/// The user that lines name for `session`, looking from line `k` on.
pub open spec fn user_among(lines: Seq<Seq<char>>, session: u32, k: int) -> Option<Seq<char>>
    decreases lines.len() - k,
{
    if k >= lines.len() {
        None
    } else {
        match user_in(parse::words(lines[k]), session, 0) {
            Some(user) => Some(user),
            None => user_among(lines, session, k + 1),
        }
    }
}

fn find_user(line: &str, session: u32) -> (user: Option<String>)
    ensures
        text::option_view(user) == user_in(parse::words(line@), session, 0),
{
    let words: Vec<String> = parse::split_words(line);
    let ghost all = parse::words(line@);
    let total: usize = words.len();
    assert(all.len() == words@.len());
    let mut i: usize = 0;
    while i < total
        invariant
            i <= total == words@.len(),
            parse::views(words@) == all,
            all == parse::words(line@),
            all.len() == total,
            user_in(all, session, 0) == user_in(all, session, i as int),
        decreases total - i,
    {
        assert(all[i as int] == words@[i as int]@);
        let chars: Vec<char> = text::chars_of(words[i].as_str());
        if let Some(id) = parse::parse_number(chars.as_slice(), 0xffff_ffff) {
            if id == session && i >= 2 {
                assert(all[i - 1] == words@[i - 1]@);
                let name: &str = words[i - 1].as_str();
                if !text::same(name, "services") && !text::same(name, "console") {
                    return Some(text::copy(name));
                }
            }
        }
        i = i + 1;
    }
    None
}

/// The user whose session has the number `session`, by the system's list of sessions.
pub fn get_session_username(printed: &str, session: u32) -> (user: Option<String>)
    ensures
        text::option_view(user) == user_among(parse::pieces(printed@, '\n'), session, 0),
{
    let lines: Vec<String> = parse::split(printed, '\n');
    let ghost all = parse::pieces(printed@, '\n');
    let total: usize = lines.len();
    assert(all.len() == lines@.len());
    let mut k: usize = 0;
    while k < total
        invariant
            k <= total == lines@.len(),
            parse::views(lines@) == all,
            all == parse::pieces(printed@, '\n'),
            all.len() == total,
            user_among(all, session, 0) == user_among(all, session, k as int),
        decreases total - k,
    {
        assert(all[k as int] == lines@[k as int]@);
        let user: Option<String> = find_user(lines[k].as_str(), session);
        if user.is_some() {
            return user;
        }
        k = k + 1;
    }
    None
}

/// An agent for the secure desktop is only ever started with the rights of the
/// system, and that desktop is only ever asked for with them.
pub proof fn law_secure_desktop_is_systems(token: LaunchToken, kind: AgentDesktopKind)
    ensures
        kind == AgentDesktopKind::Winlogon ==> first_of(kind) == LaunchToken::System,
        desktops_of(token, kind).contains("winsta0\\winlogon"@) ==> token == LaunchToken::System
            && kind == AgentDesktopKind::Winlogon,
{
    reveal_strlit("winsta0\\winlogon");
    reveal_strlit("winsta0\\default");
    assert("winsta0\\winlogon"@.len() != "winsta0\\default"@.len());
}

/// Whatever rights are tried first, those of the system are tried last.
pub proof fn law_system_is_the_last_resort(kind: AgentDesktopKind)
    ensures
        first_of(kind) == LaunchToken::System || after_of(first_of(kind)) == Some(
            LaunchToken::ActiveUser,
        ) && after_of(LaunchToken::ActiveUser) == Some(LaunchToken::System),
        after_of(LaunchToken::System) is None,
{
}

/// Ending agents that linger spares the service itself, the target session and
/// whatever the service did not start.
pub proof fn law_killing_is_limited(
    processes: Seq<ProcessEntry>,
    me: u32,
    target: u32,
    n: int,
    k: int,
)
    requires
        0 <= n <= processes.len(),
        0 <= k < lingering(processes, me, target, n).len(),
    ensures
        lingering(processes, me, target, n)[k] != me,
        exists|i: int|
            0 <= i < n && #[trigger] processes[i].pid == lingering(processes, me, target, n)[k]
                && processes[i].parent == me && processes[i].session != Some(target),
    decreases n,
{
    if n > 0 {
        if k < lingering(processes, me, target, n - 1).len() {
            law_killing_is_limited(processes, me, target, n - 1, k);
        } else {
            assert(processes[n - 1].pid == lingering(processes, me, target, n)[k]);
        }
    }
}

/// The user's own rights are tried first on the user's desktop, from the shell's to the
/// system's and each once; on the secure desktop only the system's are.
pub proof fn law_rights_are_tried_from_the_least(
    kind: AgentDesktopKind,
    first: LaunchToken,
    token: LaunchToken,
    next: Option<LaunchToken>,
)
    requires
        call_ensures(first_token, (kind,), first),
        call_ensures(token_after, (token,), next),
    ensures
        kind is Default <==> first is Shell,
        kind is Winlogon <==> first is System,
        token is Shell <==> next == Some(LaunchToken::ActiveUser),
        token is ActiveUser <==> next == Some(LaunchToken::System),
        token is System <==> next is None,
{
}

/// Every agent is tried on the user's desktop in the end; the secure desktop comes before
/// it, and only for an agent of the system that is meant for it.
pub proof fn law_desktops_are_tried_in_order(
    token: LaunchToken,
    kind: AgentDesktopKind,
    names: Vec<String>,
)
    requires
        call_ensures(desktop_names, (token, kind), names),
    ensures
        names@.len() > 0,
        names@.last()@ == "winsta0\\default"@,
        names@.len() == 2 <==> token is System && kind is Winlogon,
        names@.len() <= 2,
        names@.len() == 2 ==> names@[0]@ == "winsta0\\winlogon"@,
{
    assert(parse::views(names@).len() == names@.len());
    assert(parse::views(names@).last() == names@.last()@);
    assert(names@.len() == 2 ==> parse::views(names@)[0] == names@[0]@);
}

/// A process is found only if it is the program, in whatever case, and in the session.
pub proof fn law_found_process_is_in_the_session(
    processes: Vec<ProcessEntry>,
    name: &str,
    session: u32,
    pid: Option<u32>,
)
    requires
        call_ensures(find_process_in_session, (&processes, name, session), pid),
    ensures
        pid matches Some(found) ==> exists|i: int|
            0 <= i < processes@.len() && (#[trigger] processes@[i]).pid == found
                && processes@[i].session == Some(session) && text::same_ignoring_case(
                processes@[i].exe@,
                name@,
            ),
        (exists|i: int|
            0 <= i < processes@.len() && (#[trigger] processes@[i]).session == Some(session)
                && processes@[i].exe@ == name@) ==> pid is Some,
{
    if exists|i: int|
        0 <= i < processes@.len() && (#[trigger] processes@[i]).session == Some(session)
            && processes@[i].exe@ == name@ {
        let i = choose|i: int|
            0 <= i < processes@.len() && (#[trigger] processes@[i]).session == Some(session)
                && processes@[i].exe@ == name@;
        assert(runs_in(processes@[i], name@, session));
    }
    if let Some(found) = pid {
        let i = choose|i: int|
            {
                &&& 0 <= i < processes@.len()
                &&& runs_in(#[trigger] processes@[i], name@, session)
                &&& processes@[i].pid == found
                &&& forall|j: int| 0 <= j < i ==> !runs_in(#[trigger] processes@[j], name@, session)
            };
        assert(processes@[i].pid == found);
    }
}

proof fn lemma_lingering_is_found(
    processes: Seq<ProcessEntry>,
    me: u32,
    target: u32,
    n: int,
    i: int,
)
    requires
        0 <= i < n <= processes.len(),
        is_lingering(processes[i], me, target),
    ensures
        lingering(processes, me, target, n).contains(processes[i].pid),
    decreases n,
{
    let before = lingering(processes, me, target, n - 1);
    if i == n - 1 {
        assert(before.push(processes[i].pid)[before.len() as int] == processes[i].pid);
    } else {
        lemma_lingering_is_found(processes, me, target, n - 1, i);
        let k = choose|k: int| 0 <= k < before.len() && before[k] == processes[i].pid;
        let after = lingering(processes, me, target, n);
        assert(after[k] == processes[i].pid);
    }
}

/// Every agent that this process started and that is left in another session of a user is
/// ended before one is started in `target`.
pub proof fn law_no_agent_is_left_behind(
    processes: Vec<ProcessEntry>,
    me: u32,
    target: u32,
    pids: Vec<u32>,
    i: int,
)
    requires
        call_ensures(
            kill_lingering_agents_for_other_sessions,
            (&processes, me, target),
            pids,
        ),
        0 <= i < processes@.len(),
        processes@[i].exe@ == "phantom-server.exe"@,
        processes@[i].parent == me,
        processes@[i].pid != me,
        processes@[i].session is Some,
        processes@[i].session != Some(0u32),
        processes@[i].session != Some(target),
    ensures
        pids@.contains(processes@[i].pid),
{
    lemma_lingering_is_found(processes@, me, target, processes@.len() as int, i);
}

/// The command line of an agent begins with the program in quotes and names the session.
pub proof fn law_agent_is_told_its_session(exe: &str, session: u32, line: String)
    requires
        call_ensures(agent_command_line, (exe, session), line),
    ensures
        line@ == "\""@ + exe@ + "\" --agent-mode --ipc-session "@ + text::decimal(session as nat)
            + " --listen 127.0.0.1:9910 --no-encrypt"@,
        line@.subrange(1, 1 + exe@.len() as int) == exe@,
{
    reveal_strlit("\"");
    assert(line@.subrange(1, 1 + exe@.len() as int) =~= exe@);
}

/// What a process is known to have done, it has done: without a process nothing has ended,
/// and a wait that ran out is no end.
pub proof fn law_ends_are_not_made_up(
    process: WinProcessHandle,
    wait: ProcessWait,
    terminated: bool,
    exit_code: u32,
    waited: bool,
    killed: bool,
    code: Option<u32>,
)
    requires
        call_ensures(WinProcessHandle::wait, (&process, wait), waited),
        call_ensures(WinProcessHandle::terminate_and_wait, (&process, terminated, wait), killed),
        call_ensures(WinProcessHandle::try_wait, (&process, wait, exit_code), code),
    ensures
        waited || killed || code is Some ==> process.handle_valid && process.pid != 0,
        wait is TimedOut ==> !waited && !killed && code is None,
        killed <==> waited && terminated,
        waited <==> process.handle_valid && process.pid != 0 && wait is Ended,
        code is Some ==> code == Some(exit_code),
        process.handle_valid && process.pid != 0 && !(wait is TimedOut) ==> code is Some,
{
}

/// A user of a session is a word right before its number, and never the system's own.
proof fn lemma_user_in(words: Seq<Seq<char>>, session: u32, i: int)
    requires
        i >= 0,
    ensures
        user_in(words, session, i) matches Some(user) ==> exists|k: int|
            i <= k < words.len() && k >= 2 && #[trigger] words[k - 1] == user && parse::number_value(
                words[k],
                u32::MAX as nat,
            ) == Some(session as nat) && user != "services"@ && user != "console"@,
    decreases words.len() - i,
{
    if i < words.len() {
        if user_at(words, session, i) {
            assert(words[i - 1] == words[i - 1]);
        } else {
            lemma_user_in(words, session, i + 1);
        }
    }
}

/// The user that is found for a session stands right before its number on some line, and
/// is neither the services' nor the console's own name.
pub proof fn law_user_stands_before_the_number(
    lines: Seq<Seq<char>>,
    session: u32,
    k: int,
)
    requires
        k >= 0,
    ensures
        user_among(lines, session, k) matches Some(user) ==> user != "services"@ && user
            != "console"@ && exists|l: int, w: int|
            k <= l < lines.len() && 2 <= w < #[trigger] parse::words(lines[l]).len()
                && #[trigger] parse::words(lines[l])[w - 1] == user && parse::number_value(
                parse::words(lines[l])[w],
                u32::MAX as nat,
            ) == Some(session as nat),
    decreases lines.len() - k,
{
    if k < lines.len() {
        let words = parse::words(lines[k]);
        lemma_user_in(words, session, 0);
        match user_in(words, session, 0) {
            Some(user) => {
                let w = choose|w: int|
                    0 <= w < words.len() && w >= 2 && #[trigger] words[w - 1] == user
                        && parse::number_value(words[w], u32::MAX as nat) == Some(session as nat)
                        && user != "services"@ && user != "console"@;
                assert(parse::words(lines[k])[w - 1] == user);
            },
            None => {
                law_user_stands_before_the_number(lines, session, k + 1);
            },
        }
    }
}

} // verus!
