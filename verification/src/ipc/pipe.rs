//! The pipes themselves: their names, who may open them, and how calls on
//! them end.

use crate::clock::MS;
use crate::text;
use vstd::prelude::*;
use vstd::string::StringExecFns;

verus! {

/// Size of a pipe's buffers.
pub const PIPE_BUFFER_SIZE: u32 = 4194304;

/// Windows' code for an operation that goes on in the background.
pub const ERROR_IO_PENDING_CODE: u32 = 997;

/// Windows' code for a pipe that is being closed.
pub const ERROR_NO_DATA_CODE: u32 = 232;

/// Windows' code for a pipe that is connected already.
pub const ERROR_PIPE_CONNECTED_CODE: u32 = 535;

/// The attributes of the group that stands for one interactive logon.
pub const SE_GROUP_LOGON_ID: u32 = 0xc000_0000;

/// The wait that never ends.
pub const INFINITE: u32 = 0xffff_ffff;

/// How often opening a pipe is tried.
pub const OPEN_ATTEMPTS: u32 = 50;

/// How long to wait between two tries.
pub const OPEN_PAUSE: u64 = 200 * MS;

/// The name of the pipe from the agent to the service.
pub open spec fn up_name(session_id: u32, generation: u64) -> Seq<char> {
    "\\\\.\\pipe\\PhantomIPC_up_"@ + text::decimal(session_id as nat) + "_"@ + text::decimal(
        generation as nat,
    )
}

/// The name of the pipe from the service to the agent.
pub open spec fn down_name(session_id: u32, generation: u64) -> Seq<char> {
    "\\\\.\\pipe\\PhantomIPC_down_"@ + text::decimal(session_id as nat) + "_"@ + text::decimal(
        generation as nat,
    )
}

/// The names of the two pipes of a session: up, then down. The generation
/// keeps an agent and its replacement apart.
pub fn pipe_names(session_id: u32, generation: u64) -> (names: (String, String))
    ensures
        names.0@ == up_name(session_id, generation),
        names.1@ == down_name(session_id, generation),
{
    let mut up = text::copy("\\\\.\\pipe\\PhantomIPC_up_");
    text::push_decimal(&mut up, session_id as u64);
    up.append("_");
    text::push_decimal(&mut up, generation);
    let mut down = text::copy("\\\\.\\pipe\\PhantomIPC_down_");
    text::push_decimal(&mut down, session_id as u64);
    down.append("_");
    text::push_decimal(&mut down, generation);
    (up, down)
}

/// Two pairs of numbers with an underscore between them are the same text only
/// if they are the same numbers.
proof fn lemma_pair_injective(root: Seq<char>, a: (nat, nat), b: (nat, nat))
    requires
        root + text::decimal(a.0) + "_"@ + text::decimal(a.1) == root + text::decimal(b.0) + "_"@
            + text::decimal(b.1),
    ensures
        a == b,
{
    reveal_strlit("_");
    let left = root + text::decimal(a.0) + "_"@ + text::decimal(a.1);
    let right = root + text::decimal(b.0) + "_"@ + text::decimal(b.1);
    text::lemma_decimal_is_digits(a.0);
    text::lemma_decimal_is_digits(b.0);
    text::lemma_decimal_is_digits(a.1);
    text::lemma_decimal_is_digits(b.1);
    let m = root.len() as int;
    let la = text::decimal(a.0).len() as int;
    let lb = text::decimal(b.0).len() as int;
    assert(left[m + la] == '_');
    assert(right[m + lb] == '_');
    if la < lb {
        assert(right[m + la] == text::decimal(b.0)[la]);
    }
    if lb < la {
        assert(left[m + lb] == text::decimal(a.0)[lb]);
    }
    assert(left.subrange(m, m + la) =~= text::decimal(a.0));
    assert(right.subrange(m, m + la) =~= text::decimal(b.0));
    text::lemma_decimal_injective(a.0, b.0);
    assert(left.skip(m + la + 1) =~= text::decimal(a.1));
    assert(right.skip(m + la + 1) =~= text::decimal(b.1));
    text::lemma_decimal_injective(a.1, b.1);
}

/// No two sessions or generations share a pipe, and neither do the two
/// directions.
pub proof fn law_pipe_names_are_distinct(a: (u32, u64), b: (u32, u64))
    ensures
        up_name(a.0, a.1) == up_name(b.0, b.1) ==> a == b,
        down_name(a.0, a.1) == down_name(b.0, b.1) ==> a == b,
        up_name(a.0, a.1) != down_name(b.0, b.1),
{
    let pa = (a.0 as nat, a.1 as nat);
    let pb = (b.0 as nat, b.1 as nat);
    if up_name(a.0, a.1) == up_name(b.0, b.1) {
        lemma_pair_injective("\\\\.\\pipe\\PhantomIPC_up_"@, pa, pb);
    }
    if down_name(a.0, a.1) == down_name(b.0, b.1) {
        lemma_pair_injective("\\\\.\\pipe\\PhantomIPC_down_"@, pa, pb);
    }
    reveal_strlit("\\\\.\\pipe\\PhantomIPC_up_");
    reveal_strlit("\\\\.\\pipe\\PhantomIPC_down_");
    assert(up_name(a.0, a.1)[20] == 'u');
    assert(down_name(b.0, b.1)[20] == 'd');
}

/// Who may open the pipes of a session: the system, administrators, and the
/// one logon that owns the session, where somebody is logged on.
pub open spec fn sddl(logon_sid: Option<Seq<char>>) -> Seq<char> {
    match logon_sid {
        Some(sid) => "D:P(A;;GA;;;SY)(A;;GA;;;BA)(A;;GA;;;"@ + sid + ")"@,
        None => "D:P(A;;GA;;;SY)(A;;GA;;;BA)"@,
    }
}

/// The access list of the pipes of a session.
pub fn pipe_security_sddl(logon_sid: Option<&str>) -> (out: String)
    ensures
        out@ == sddl(
            match logon_sid {
                Some(sid) => Some(sid@),
                None => None,
            },
        ),
{
    match logon_sid {
        Some(sid) => {
            let mut out = text::copy("D:P(A;;GA;;;SY)(A;;GA;;;BA)(A;;GA;;;");
            out.append(sid);
            out.append(")");
            out
        },
        None => text::copy("D:P(A;;GA;;;SY)(A;;GA;;;BA)"),
    }
}

/// Two logons are never given the same access list, and a logged-on session
/// never that of an empty one.
pub proof fn law_sddl_names_the_logon(a: Option<Seq<char>>, b: Option<Seq<char>>)
    requires
        sddl(a) == sddl(b),
    ensures
        a == b,
{
    reveal_strlit("D:P(A;;GA;;;SY)(A;;GA;;;BA)(A;;GA;;;");
    reveal_strlit("D:P(A;;GA;;;SY)(A;;GA;;;BA)");
    reveal_strlit(")");
    let n = "D:P(A;;GA;;;SY)(A;;GA;;;BA)(A;;GA;;;"@.len() as int;
    match (a, b) {
        (Some(x), Some(y)) => {
            assert(sddl(a).len() == n + x.len() + 1);
            assert(sddl(b).len() == n + y.len() + 1);
            assert(sddl(a).subrange(n, n + x.len()) =~= x);
            assert(sddl(b).subrange(n, n + y.len()) =~= y);
        },
        (Some(x), None) => {
            assert(sddl(a).len() == n + x.len() + 1);
        },
        (None, Some(y)) => {
            assert(sddl(b).len() == n + y.len() + 1);
        },
        _ => {},
    }
}

/// The first group of a token that stands for its logon: its attributes hold
/// every bit of `SE_GROUP_LOGON_ID`.
pub fn logon_group(attributes: &[u32]) -> (index: Option<usize>)
    ensures
        match index {
            Some(i) => {
                &&& i < attributes@.len()
                &&& attributes@[i as int] & SE_GROUP_LOGON_ID == SE_GROUP_LOGON_ID
                &&& forall|j: int|
                    0 <= j < i ==> #[trigger] attributes@[j] & SE_GROUP_LOGON_ID
                        != SE_GROUP_LOGON_ID
            },
            None => forall|j: int|
                0 <= j < attributes@.len() ==> #[trigger] attributes@[j] & SE_GROUP_LOGON_ID
                    != SE_GROUP_LOGON_ID,
        },
{
    let mut i: usize = 0;
    while i < attributes.len()
        invariant
            i <= attributes@.len(),
            forall|j: int|
                0 <= j < i ==> #[trigger] attributes@[j] & SE_GROUP_LOGON_ID != SE_GROUP_LOGON_ID,
        decreases attributes@.len() - i,
    {
        if attributes[i] & SE_GROUP_LOGON_ID == SE_GROUP_LOGON_ID {
            return Some(i);
        }
        i += 1;
    }
    None
}

/// The error code `hresult` stands for the Windows error `code`: as an
/// HRESULT, whose upper half is 0x8007, or as the bare code.
pub open spec fn stands_for(hresult: i32, code: u32) -> bool {
    ||| crate::bytes::bits_of(hresult) == 0x8007_0000u32 | code
    ||| crate::bytes::bits_of(hresult) == code
}

/// Whether an error is the Windows error `code`.
pub fn is_win32_error(hresult: i32, code: u32) -> (yes: bool)
    ensures
        yes == stands_for(hresult, code),
{
    let bits: u32 = crate::bytes::to_bits(hresult);
    bits == 0x8007_0000u32 | code || bits == code
}

/// The wait for a timeout in milliseconds: as long as 32 bits reach, and for
/// ever without one.
pub fn duration_to_wait_ms(timeout_ms: Option<u64>) -> (wait: u32)
    ensures
        wait == match timeout_ms {
            None => INFINITE,
            Some(ms) => if ms < u32::MAX {
                ms as u32
            } else {
                u32::MAX
            },
        },
{
    match timeout_ms {
        None => INFINITE,
        Some(ms) => if ms < 0xffff_ffff {
            ms as u32
        } else {
            0xffff_ffff
        },
    }
}

/// What a call to connect a pipe came to.
#[derive(Debug, Clone, Copy, PartialEq, Eq, Structural)]
pub enum ConnectOutcome {
    Connected,
    /// The other side is gone again.
    Gone,
    /// Wait for it.
    Pending,
    Failed,
}

/// What a call to connect a pipe came to, from its error if it has one.
pub fn connect_outcome(error: Option<i32>) -> (outcome: ConnectOutcome)
    ensures
        outcome == match error {
            None => ConnectOutcome::Connected,
            Some(e) => if stands_for(e, ERROR_PIPE_CONNECTED_CODE) {
                ConnectOutcome::Connected
            } else if stands_for(e, ERROR_NO_DATA_CODE) {
                ConnectOutcome::Gone
            } else if stands_for(e, ERROR_IO_PENDING_CODE) {
                ConnectOutcome::Pending
            } else {
                ConnectOutcome::Failed
            },
        },
{
    match error {
        None => ConnectOutcome::Connected,
        Some(e) => {
            if is_win32_error(e, ERROR_PIPE_CONNECTED_CODE) {
                ConnectOutcome::Connected
            } else if is_win32_error(e, ERROR_NO_DATA_CODE) {
                ConnectOutcome::Gone
            } else if is_win32_error(e, ERROR_IO_PENDING_CODE) {
                ConnectOutcome::Pending
            } else {
                ConnectOutcome::Failed
            }
        },
    }
}

/// The time left for the second pipe after the first took `spent` of
/// `timeout`; none if it took more.
pub fn remaining(timeout: u64, spent: u64) -> (left: Option<u64>)
    ensures
        left == if spent <= timeout {
            Some((timeout - spent) as u64)
        } else {
            None
        },
{
    if spent <= timeout {
        Some(timeout - spent)
    } else {
        None
    }
}

/// Whether to wait after a failed try to open a pipe: not after the last.
pub fn pause_after(attempt: u32, attempts: u32) -> (pause: bool)
    ensures
        pause == (attempt + 1 < attempts),
{
    attempts > 0 && attempt < attempts - 1
}

/// A transfer of `len` bytes in pieces.
#[derive(Debug, Clone, Copy, PartialEq, Eq, Structural)]
pub struct Transfer {
    pub len: usize,
    pub offset: usize,
}

/// The other side closed the pipe.
#[derive(Debug, Clone, Copy, PartialEq, Eq, Structural)]
pub struct Disconnected;

impl Transfer {
    /// A transfer that has moved nothing yet.
    pub fn new(len: usize) -> (transfer: Self)
        ensures
            transfer == (Transfer { len, offset: 0 }),
    {
        Transfer { len, offset: 0 }
    }

    /// Whether everything was moved.
    pub fn is_done(&self) -> (done: bool)
        ensures
            done == (self.offset >= self.len),
    {
        self.offset >= self.len
    }

    /// A piece of `moved` bytes went through. None at all means that the other
    /// side is gone.
    pub fn advance(&mut self, moved: u32) -> (out: Result<(), Disconnected>)
        requires
            old(self).offset + moved <= usize::MAX,
        ensures
            moved == 0 ==> out is Err && *final(self) == *old(self),
            moved > 0 ==> out is Ok && *final(self) == (Transfer {
                offset: (old(self).offset + moved) as usize,
                ..*old(self)
            }),
    {
        if moved == 0 {
            return Err(Disconnected);
        }
        self.offset = self.offset + moved as usize;
        Ok(())
    }
}

/// A wait is as long as it was asked to be, or for ever; one that does not fit is the
/// longest that does.
pub proof fn law_wait_is_as_long_as_asked(timeout: Option<u64>, wait: u32)
    requires
        call_ensures(duration_to_wait_ms, (timeout,), wait),
    ensures
        timeout is None ==> wait == 0xffff_ffff,
        timeout matches Some(ms) ==> wait <= ms,
        timeout matches Some(ms) ==> (ms <= 0xffff_ffff ==> wait == ms) && (ms > 0xffff_ffff
            ==> wait == 0xffff_ffff),
{
}

/// What the first pipe used of the time is not there for the second.
pub proof fn law_both_pipes_share_the_time(timeout: u64, spent: u64, left: Option<u64>)
    requires
        call_ensures(remaining, (timeout, spent), left),
    ensures
        left matches Some(rest) ==> rest + spent == timeout,
        left is None <==> spent > timeout,
{
}

/// Opening a pipe pauses after every try but the last.
pub proof fn law_no_pause_after_the_last_try(attempt: u32, attempts: u32, pause: bool)
    requires
        attempt < attempts,
        call_ensures(pause_after, (attempt, attempts), pause),
    ensures
        !pause <==> attempt == attempts - 1,
{
}

/// A transfer begins with nothing moved, is done once all was moved, and each piece counts
/// in full; a piece of nothing means that the other side is gone.
pub proof fn law_transfer_counts_what_moved(
    len: usize,
    fresh: Transfer,
    t: Transfer,
    done: bool,
    moved: u32,
)
    requires
        call_ensures(Transfer::new, (len,), fresh),
        call_ensures(Transfer::is_done, (&t,), done),
    ensures
        fresh.offset == 0 && fresh.len == len,
        done <==> t.len <= t.offset,
        forall|x: &mut Transfer, r: Result<(), Disconnected>|
            (*x).offset + moved <= usize::MAX && #[trigger] call_ensures(
                Transfer::advance,
                (x, moved),
                r,
            ) ==> (r is Err <==> moved == 0) && (*final(x)).offset == (*x).offset + moved && (*final(x)).len == (*x).len,
{
}

/// An error that carries a Windows code is known as that code, bare or not, and connecting
/// is judged by three of them alone.
pub proof fn law_connecting_is_judged_by_code(error: Option<i32>, outcome: ConnectOutcome)
    requires
        call_ensures(connect_outcome, (error,), outcome),
    ensures
        error is None ==> outcome is Connected,
        error == Some(535i32) ==> outcome is Connected,
        error == Some(232i32) ==> outcome is Gone,
        error == Some(997i32) ==> outcome is Pending,
        error matches Some(e) ==> outcome is Connected ==> stands_for(e, 535),
        error matches Some(e) ==> outcome is Gone ==> stands_for(e, 232),
        error matches Some(e) ==> outcome is Pending ==> stands_for(e, 997),
        error matches Some(e) ==> outcome is Failed ==> !stands_for(e, 535) && !stands_for(e, 232)
            && !stands_for(e, 997),
{
    assert(0x8007_0000u32 | 535 != 232) by (bit_vector);
    assert(0x8007_0000u32 | 232 == 0x8007_00e8u32) by (bit_vector);
    assert(0x8007_0000u32 | 535 == 0x8007_0217u32) by (bit_vector);
    assert(0x8007_0000u32 | 997 == 0x8007_03e5u32) by (bit_vector);
}

/// A pipe holds four mebibytes and is tried fifty times, a fifth of a second apart; the
/// group of a logon is known by its two topmost bits.
pub proof fn law_pipe_limits()
    ensures
        PIPE_BUFFER_SIZE == 4 * 1024 * 1024,
        OPEN_ATTEMPTS == 50,
        OPEN_PAUSE * 5 == 1_000_000_000,
        SE_GROUP_LOGON_ID == 0x8000_0000 + 0x4000_0000,
{
}

} // verus!
