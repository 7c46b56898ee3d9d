//! Files on their way from and to a viewer.
//!
//! A file comes in chunks that must follow each other without a gap. It is
//! written under a name of its own and takes its place only once its hash is
//! right, beside and never over a file that is there already.

use crate::bytes;
use crate::digest::{hashed, sha256_of, Digest, Sha256, MAX_HASHED};
use crate::parse;
use crate::text;
use std::collections::{HashMap, HashSet};
use std::path::Path;
use vstd::prelude::*;
use vstd::string::StringExecFns;

verus! {

broadcast use vstd::std_specs::hash::group_hash_axioms;

/// How long an offered file waits to be accepted, in seconds.
pub const ACCEPT_TIMEOUT_S: u64 = 30;

/// How much of a file goes into one message at most, in bytes.
pub const CHUNK_SIZE: usize = 262144;

/// What the two sides say to each other about a file.
#[derive(Debug, Clone, PartialEq, Eq)]
pub enum TransferMessage {
    Offer { transfer_id: u64, name: String, size: u64 },
    Accept { transfer_id: u64 },
    Chunk { transfer_id: u64, offset: u64, data: Vec<u8> },
    Done { transfer_id: u64, sha256: Sha256 },
    Cancel { transfer_id: u64, reason: String },
}

/// A file that is coming in, and the hash of what has been written of it.
pub struct FileReceiver {
    temp_name: String,
    final_name: String,
    received: u64,
    expected: u64,
    hash: Digest,
}

/// What there is of a file that is coming in.
pub struct IncomingFile {
    /// The name that it is written under.
    pub temp_name: Seq<char>,
    /// The name that it is to have.
    pub final_name: Seq<char>,
    /// What has been written.
    pub written: Seq<u8>,
    /// How many bytes were announced.
    pub expected: u64,
}

/// The file with some more bytes written.
pub open spec fn grown(file: IncomingFile, data: Seq<u8>) -> IncomingFile {
    IncomingFile { written: file.written + data, ..file }
}

/// What was written of the file has this hash.
pub open spec fn has_hash(file: IncomingFile, sha256: Seq<u8>) -> bool {
    sha256 == sha256_of(file.written)
}

impl FileReceiver {
    #[verifier::type_invariant]
    spec fn inv(self) -> bool {
        &&& self.received == hashed(self.hash).len()
        &&& self.received <= MAX_HASHED
    }
}

impl View for FileReceiver {
    type V = IncomingFile;

    closed spec fn view(&self) -> IncomingFile {
        IncomingFile {
            temp_name: self.temp_name@,
            final_name: self.final_name@,
            written: hashed(self.hash),
            expected: self.expected,
        }
    }
}

/// The files that are coming in, and those that wait to be accepted.
pub struct ServerFileTransfer {
    receivers: HashMap<u64, FileReceiver>,
    waiting: HashSet<u64>,
    drives: bool,
}

/// A path that begins with two separators, of this system or another: it may name
/// another machine, or be one that is taken literally.
pub open spec fn begins_abroad(path: Seq<char>) -> bool {
    path.len() >= 2 && (path[0] == '/' || path[0] == '\\') && (path[1] == '/' || path[1] == '\\')
}

/// A path that is taken apart alike on every system: nothing in it separates
/// components but slashes, and it does not begin with the name of a drive or of
/// another machine.
pub open spec fn is_portable(path: Seq<char>) -> bool {
    &&& !path.contains('\\')
    &&& !names_drive(path)
    &&& !begins_abroad(path)
}

/// A name and no more: it is not empty, holds no slash, and does not stand for a
/// directory.
pub open spec fn is_plain(name: Seq<char>) -> bool {
    name.len() > 0 && !name.contains('/') && name != "."@ && name != ".."@
}

/// A name that a system with drives takes for one on a drive.
pub open spec fn names_drive(name: Seq<char>) -> bool {
    name.len() >= 2 && name[1] == ':'
}

/// A name that stays in the directory that it is put in, on a system with drives or
/// without.
pub open spec fn stays_inside(name: Seq<char>, drives: bool) -> bool {
    is_plain(name) && !(drives && names_drive(name))
}

/// The last component of a path, if it is a name. Slashes at the end do not count,
/// and neither does a component that stands for the same place.
pub open spec fn last_name(path: Seq<char>) -> Option<Seq<char>>
    decreases path.len(),
{
    let cut = parse::last_place(path, '/');
    let tail = path.skip(cut + 1);
    if tail.len() == 0 || tail == "."@ {
        if 0 <= cut < path.len() {
            last_name(path.take(cut))
        } else {
            None
        }
    } else if tail == ".."@ {
        None
    } else {
        Some(tail)
    }
}

/// The last component of a path, by `std::path::Path::file_name`: repeated slashes
/// and components that are a single dot are passed over, and a path that ends in
/// `..` or has no components has none. What separates components depends on the
/// system, so of a path that is not taken apart alike everywhere only this is
/// claimed: its last component is not empty and stands for no directory, and it
/// holds no slash, unless the path is one that Windows takes literally.
#[verifier::external_body]
fn file_name(path: &str) -> (found: Option<String>)
    ensures
        is_portable(path@) ==> text::option_view(found) == last_name(path@),
        found matches Some(n) ==> n@.len() > 0 && n@ != "."@ && n@ != ".."@,
        !begins_abroad(path@) ==> (found matches Some(n) ==> is_plain(n@)),
{
    Path::new(path).file_name().map(|name| name.to_string_lossy().to_string())
}

/// The name to write under while a file is coming in.
pub open spec fn temp_of(name: Seq<char>) -> Seq<char> {
    "."@ + name + ".phantom_tmp"@
}

/// The name that stands in for a path without one.
pub open spec fn stand_in(transfer_id: u64) -> Seq<char> {
    "file_"@ + text::decimal(transfer_id as nat)
}

/// The name for a file whose path ends in `found`: that, unless it would take the file
/// out of the directory that files are received into.
pub open spec fn name_of(found: Option<Seq<char>>, transfer_id: u64, drives: bool) -> Seq<char> {
    match found {
        Some(n) => if stays_inside(n, drives) {
            n
        } else {
            stand_in(transfer_id)
        },
        None => stand_in(transfer_id),
    }
}

fn check_inside(name: &str, drives: bool) -> (inside: bool)
    ensures
        inside == stays_inside(name@, drives),
{
    let chars: Vec<char> = text::chars_of(name);
    if chars.len() == 0 || text::same(name, ".") || text::same(name, "..") {
        return false;
    }
    if drives && chars.len() >= 2 && chars[1] == ':' {
        return false;
    }
    let mut i: usize = 0;
    while i < chars.len()
        invariant
            i <= chars@.len(),
            chars@ == name@,
            forall|j: int| 0 <= j < i ==> name@[j] != '/',
        decreases chars@.len() - i,
    {
        if chars[i] == '/' {
            assert(name@[i as int] == '/');
            return false;
        }
        i = i + 1;
    }
    true
}

/// The name for a file whose path ends in `found`.
pub fn safe_name(found: Option<String>, transfer_id: u64, drives: bool) -> (name: String)
    ensures
        name@ == name_of(text::option_view(found), transfer_id, drives),
{
    if let Some(n) = found {
        if check_inside(n.as_str(), drives) {
            return n;
        }
    }
    let mut name: String = String::from_str("file_");
    text::push_decimal(&mut name, transfer_id);
    name
}

/// The name of a file that is offered under a path of the viewer's: its last
/// component, or one made of the number of the transfer. Whatever the path, the
/// file stays in the directory for it; `drives` says whether the system has drives.
pub fn offered_name(path: &str, transfer_id: u64, drives: bool) -> (name: String)
    ensures
        is_portable(path@) ==> name@ == name_of(last_name(path@), transfer_id, drives),
        stays_inside(name@, drives),
{
    let found: Option<String> = file_name(path);
    proof {
        law_offered_file_stays_inside(text::option_view(found), transfer_id, drives);
    }
    safe_name(found, transfer_id, drives)
}

fn temp_name(name: &str) -> (temp: String)
    ensures
        temp@ == temp_of(name@),
{
    let mut temp: String = String::from_str(".");
    temp.append(name);
    temp.append(".phantom_tmp");
    temp
}

/// What to do with the file once all of it is there.
#[derive(Debug, Clone, PartialEq, Eq)]
pub enum DoneOutcome {
    /// There is no such transfer.
    Ignored,
    /// The file takes its place.
    MoveInto { temp_name: String, final_name: String },
    /// The hash is wrong, or no name is free: the file goes.
    Discard { temp_name: String, error: String },
}

pub open spec fn out_of_order(expected: nat, offset: u64) -> Seq<char> {
    "file chunk out of order: expected offset "@ + text::decimal(expected) + ", got "@
        + text::decimal(offset as nat)
}

pub open spec fn mismatch(transfer_id: u64) -> Seq<char> {
    "SHA-256 mismatch for transfer "@ + text::decimal(transfer_id as nat)
}

pub open spec fn no_free_name(name: Seq<char>) -> Seq<char> {
    "no free name for "@ + name
}

/// The name that a file is offered under whose path ends in `found`.
pub open spec fn sent_name(found: Option<Seq<char>>) -> Seq<char> {
    match found {
        Some(n) => n,
        None => "file"@,
    }
}

/// The name for a path without one is a name and no more.
proof fn lemma_default_name_is_plain()
    ensures
        is_plain("file"@),
{
    reveal_strlit("file");
    reveal_strlit(".");
    reveal_strlit("..");
    let name = "file"@;
    assert(name.len() == 4 && "."@.len() == 1 && ".."@.len() == 2);
    assert(name[0] == 'f' && name[1] == 'i' && name[2] == 'l' && name[3] == 'e');
    assert(forall|i: int| 0 <= i < name.len() ==> name[i] != '/');
}

/// The message offers a file.
pub open spec fn is_offer(
    message: TransferMessage,
    transfer_id: u64,
    name: Seq<char>,
    size: u64,
) -> bool {
    message matches TransferMessage::Offer { transfer_id: id, name: n, size: bytes } && id
        == transfer_id && n@ == name && bytes == size
}

impl ServerFileTransfer {
    /// The files that are coming in, by the numbers of their transfers.
    pub closed spec fn incoming(&self) -> Map<u64, IncomingFile> {
        self.receivers@.map_values(|r: FileReceiver| r@)
    }

    /// The transfers that wait for the viewer to accept them.
    pub closed spec fn awaited(&self) -> Set<u64> {
        self.waiting@
    }

    /// Names are those of a system with drives.
    pub closed spec fn has_drives(&self) -> bool {
        self.drives
    }

    /// No file yet, on a system with drives or without.
    pub fn new(drives: bool) -> (transfers: ServerFileTransfer)
        ensures
            transfers.has_drives() == drives,
            transfers.incoming() == Map::<u64, IncomingFile>::empty(),
            transfers.awaited() == Set::<u64>::empty(),
    {
        let transfers = ServerFileTransfer {
            receivers: HashMap::new(),
            waiting: HashSet::new(),
            drives,
        };
        assert(transfers.incoming() =~= Map::<u64, IncomingFile>::empty());
        transfers
    }

    /// The names for a file that is offered under `path`: the one to write under and
    /// the one that it is to have.
    pub fn offer_names(&self, path: &str, transfer_id: u64) -> (names: (String, String))
        ensures
            is_portable(path@) ==> names.1@ == name_of(
                last_name(path@),
                transfer_id,
                self.has_drives(),
            ),
            stays_inside(names.1@, self.has_drives()),
            names.0@ == temp_of(names.1@),
    {
        let name: String = offered_name(path, transfer_id, self.drives);
        (temp_name(name.as_str()), name)
    }

    /// The file to receive could be made: the offer is accepted. The file is to have
    /// the last component of `path` for its name, and stays in the directory for it
    /// whatever the path. A transfer of the same number starts again.
    pub fn on_file_offer(&mut self, transfer_id: u64, path: &str, size: u64) -> (reply:
        TransferMessage)
        ensures
            reply == (TransferMessage::Accept { transfer_id }),
            final(self).has_drives() == old(self).has_drives(),
            final(self).awaited() == old(self).awaited(),
            final(self).incoming().remove(transfer_id) == old(self).incoming().remove(transfer_id),
            final(self).incoming().contains_key(transfer_id),
            ({
                let file = final(self).incoming()[transfer_id];
                &&& is_portable(path@) ==> file.final_name == name_of(
                    last_name(path@),
                    transfer_id,
                    old(self).has_drives(),
                )
                &&& stays_inside(file.final_name, old(self).has_drives())
                &&& file.temp_name == temp_of(file.final_name)
                &&& file.written == Seq::<u8>::empty()
                &&& file.expected == size
            }),
    {
        let names: (String, String) = self.offer_names(path, transfer_id);
        let receiver: FileReceiver = FileReceiver {
            temp_name: names.0,
            final_name: names.1,
            received: 0,
            expected: size,
            hash: Digest::new(),
        };
        self.receivers.insert(transfer_id, receiver);
        assert(self.incoming().remove(transfer_id) =~= old(self).incoming().remove(transfer_id));
        TransferMessage::Accept { transfer_id }
    }

    /// A chunk came in: says whether it is to be written. One of a transfer that
    /// is not known is ignored; one that does not follow what is there is refused.
    pub fn check_chunk(&self, transfer_id: u64, offset: u64) -> (r: Result<bool, String>)
        ensures
            r is Err <==> self.incoming().contains_key(transfer_id)
                && self.incoming()[transfer_id].written.len() != offset,
            r matches Ok(write) ==> write == self.incoming().contains_key(transfer_id),
            r matches Err(message) ==> message@ == out_of_order(
                self.incoming()[transfer_id].written.len(),
                offset,
            ),
    {
        match self.receivers.get(&transfer_id) {
            Some(receiver) => {
                proof {
                    use_type_invariant(receiver);
                }
                if offset != receiver.received {
                    let mut message: String = String::from_str(
                        "file chunk out of order: expected offset ",
                    );
                    text::push_decimal(&mut message, receiver.received);
                    message.append(", got ");
                    text::push_decimal(&mut message, offset);
                    return Err(message);
                }
                Ok(true)
            },
            None => Ok(false),
        }
    }

    /// A chunk was written: it follows what is there, in the file and in the hash.
    pub fn on_written(&mut self, transfer_id: u64, data: &[u8])
        requires
            old(self).incoming().contains_key(transfer_id) ==> old(
                self,
            ).incoming()[transfer_id].written.len() + data@.len() <= MAX_HASHED,
        ensures
            final(self).has_drives() == old(self).has_drives(),
            final(self).awaited() == old(self).awaited(),
            final(self).incoming() == if old(self).incoming().contains_key(transfer_id) {
                old(self).incoming().insert(
                    transfer_id,
                    grown(old(self).incoming()[transfer_id], data@),
                )
            } else {
                old(self).incoming()
            },
    {
        match self.receivers.remove(&transfer_id) {
            Some(receiver) => {
                proof {
                    use_type_invariant(&receiver);
                }
                let FileReceiver { temp_name, final_name, received, expected, hash } = receiver;
                let mut hash: Digest = hash;
                hash.update(data);
                let receiver: FileReceiver = FileReceiver {
                    temp_name,
                    final_name,
                    received: received + data.len() as u64,
                    expected,
                    hash,
                };
                let ghost file = receiver@;
                self.receivers.insert(transfer_id, receiver);
                assert(self.incoming() =~= old(self).incoming().insert(transfer_id, file));
            },
            None => {
                assert(self.incoming() =~= old(self).incoming());
            },
        }
    }

    /// The viewer says that all of the file is there and has the hash `announced`. A
    /// file that has it takes its place: under its own name, or under the first name
    /// with a number that is not `taken`. Either way the transfer is over.
    pub fn on_file_done<F: Fn(&str) -> bool>(
        &mut self,
        transfer_id: u64,
        announced: &Sha256,
        taken: F,
    ) -> (out: DoneOutcome)
        requires
            forall|asked: &str| call_requires(taken, (asked,)),
        ensures
            final(self).has_drives() == old(self).has_drives(),
            final(self).awaited() == old(self).awaited(),
            final(self).incoming() == old(self).incoming().remove(transfer_id),
            out is Ignored <==> !old(self).incoming().contains_key(transfer_id),
            old(self).incoming().contains_key(transfer_id) ==> {
                let file = old(self).incoming()[transfer_id];
                let right = has_hash(file, announced@);
                match out {
                    DoneOutcome::Ignored => false,
                    DoneOutcome::MoveInto { temp_name, final_name } => {
                        &&& right
                        &&& temp_name@ == file.temp_name
                        &&& is_free_name(taken, file.final_name, final_name@)
                    },
                    DoneOutcome::Discard { temp_name, error } => {
                        &&& temp_name@ == file.temp_name
                        &&& if right {
                            &&& error@ == no_free_name(file.final_name)
                            &&& all_taken(taken, file.final_name)
                        } else {
                            error@ == mismatch(transfer_id)
                        }
                    },
                }
            },
    {
        let removed: Option<FileReceiver> = self.receivers.remove(&transfer_id);
        assert(self.incoming() =~= old(self).incoming().remove(transfer_id));
        match removed {
            Some(receiver) => {
                proof {
                    use_type_invariant(&receiver);
                }
                let FileReceiver { temp_name, final_name, received: _, expected: _, hash } =
                    receiver;
                let computed: Sha256 = hash.finish();
                if !bytes::equal(announced, &computed) {
                    let mut error: String = String::from_str("SHA-256 mismatch for transfer ");
                    text::push_decimal(&mut error, transfer_id);
                    return DoneOutcome::Discard { temp_name, error };
                }
                match unique_path(final_name.as_str(), taken) {
                    Some(free) => DoneOutcome::MoveInto { temp_name, final_name: free },
                    None => {
                        let mut error: String = String::from_str("no free name for ");
                        error.append(final_name.as_str());
                        DoneOutcome::Discard { temp_name, error }
                    },
                }
            },
            None => DoneOutcome::Ignored,
        }
    }

    /// The viewer gives up: names the file to delete, if there is one.
    pub fn on_file_cancel(&mut self, transfer_id: u64) -> (delete: Option<String>)
        ensures
            final(self).has_drives() == old(self).has_drives(),
            final(self).awaited() == old(self).awaited(),
            final(self).incoming() == old(self).incoming().remove(transfer_id),
            text::option_view(delete) == if old(self).incoming().contains_key(transfer_id) {
                Some(old(self).incoming()[transfer_id].temp_name)
            } else {
                None
            },
    {
        let removed: Option<FileReceiver> = self.receivers.remove(&transfer_id);
        assert(self.incoming() =~= old(self).incoming().remove(transfer_id));
        match removed {
            Some(receiver) => {
                let FileReceiver { temp_name, .. } = receiver;
                Some(temp_name)
            },
            None => None,
        }
    }

    /// The viewer takes a file that was offered: says whether a sender waits for it.
    pub fn on_file_accept(&mut self, transfer_id: u64) -> (start: bool)
        ensures
            start == old(self).awaited().contains(transfer_id),
            final(self).has_drives() == old(self).has_drives(),
            final(self).awaited() == old(self).awaited().remove(transfer_id),
            final(self).incoming() == old(self).incoming(),
    {
        self.waiting.remove(&transfer_id)
    }

    /// A file of `size` bytes whose path ends in `found` is offered to the viewer, and
    /// waits to be accepted.
    pub fn offer_file(&mut self, transfer_id: u64, found: Option<String>, size: u64) -> (offer:
        TransferMessage)
        ensures
            final(self).has_drives() == old(self).has_drives(),
            final(self).awaited() == old(self).awaited().insert(transfer_id),
            final(self).incoming() == old(self).incoming(),
            is_offer(offer, transfer_id, sent_name(text::option_view(found)), size),
    {
        self.waiting.insert(transfer_id);
        let name: String = match found {
            Some(n) => n,
            None => String::from_str("file"),
        };
        TransferMessage::Offer { transfer_id, name, size }
    }

    /// The file at `path` is offered to the viewer by the last component of its path,
    /// and waits to be accepted.
    pub fn initiate_send(&mut self, transfer_id: u64, path: &str, size: u64) -> (offer:
        TransferMessage)
        ensures
            final(self).has_drives() == old(self).has_drives(),
            final(self).awaited() == old(self).awaited().insert(transfer_id),
            final(self).incoming() == old(self).incoming(),
            offer matches TransferMessage::Offer { transfer_id: id, size: n, name } && id
                == transfer_id && n == size && (!begins_abroad(path@) ==> is_plain(name@)),
            is_portable(path@) ==> is_offer(offer, transfer_id, sent_name(last_name(path@)), size),
    {
        proof {
            lemma_default_name_is_plain();
        }
        let found: Option<String> = file_name(path);
        self.offer_file(transfer_id, found, size)
    }
}

/// How the wait for an offer to be accepted ended.
#[derive(Debug, Clone, Copy, PartialEq, Eq, Structural)]
pub enum AcceptWait {
    Accepted,
    TimedOut,
    /// Whoever would have said so died before the wait.
    LostBefore,
    /// Whoever would have said so died during the wait.
    LostDuring,
}

pub open spec fn wait_error(wait: AcceptWait) -> Seq<char> {
    match wait {
        AcceptWait::Accepted => Seq::empty(),
        AcceptWait::TimedOut => "file offer not accepted within 30s"@,
        AcceptWait::LostBefore => "accept signal mutex poisoned"@,
        AcceptWait::LostDuring => "accept signal mutex poisoned during wait"@,
    }
}

/// Whether sending begins, or why it does not.
pub fn check_accepted(wait: AcceptWait) -> (r: Result<(), String>)
    ensures
        r is Ok <==> wait is Accepted,
        r matches Err(message) ==> message@ == wait_error(wait),
{
    match wait {
        AcceptWait::Accepted => Ok(()),
        AcceptWait::TimedOut => Err(String::from_str("file offer not accepted within 30s")),
        AcceptWait::LostBefore => Err(String::from_str("accept signal mutex poisoned")),
        AcceptWait::LostDuring => Err(
            String::from_str("accept signal mutex poisoned during wait"),
        ),
    }
}

/// A file that is going out, and the hash of what has gone out of it.
pub struct FileSender {
    transfer_id: u64,
    offset: u64,
    hash: Digest,
}

impl FileSender {
    #[verifier::type_invariant]
    spec fn inv(self) -> bool {
        &&& self.offset == hashed(self.hash).len()
        &&& self.offset <= MAX_HASHED
    }

    /// The number of the transfer.
    pub closed spec fn id(&self) -> u64 {
        self.transfer_id
    }

    /// What has gone out.
    pub closed spec fn sent(&self) -> Seq<u8> {
        hashed(self.hash)
    }

    pub fn new(transfer_id: u64) -> (sender: FileSender)
        ensures
            sender.id() == transfer_id,
            sender.sent() == Seq::<u8>::empty(),
    {
        FileSender { transfer_id, offset: 0, hash: Digest::new() }
    }

    /// How many bytes have gone out.
    pub fn offset(&self) -> (bytes: u64)
        ensures
            bytes == self.sent().len(),
    {
        proof {
            use_type_invariant(self);
        }
        self.offset
    }

    /// The next bytes were read from the file: they go out as one chunk, behind what
    /// has gone out. Nothing read is the end of it.
    pub fn send_file_chunk(self, data: &[u8]) -> (out: (FileSender, Option<TransferMessage>))
        requires
            data@.len() <= CHUNK_SIZE,
            self.sent().len() + data@.len() <= MAX_HASHED,
        ensures
            out.0.id() == self.id(),
            out.0.sent() == self.sent() + data@,
            out.1 is None <==> data@.len() == 0,
            out.1 matches Some(message) ==> is_chunk(
                message,
                self.id(),
                self.sent().len(),
                data@,
            ),
    {
        proof {
            use_type_invariant(&self);
        }
        let len: usize = data.len();
        if len == 0 {
            assert(self.sent() + data@ =~= self.sent());
            return (self, None);
        }
        let FileSender { transfer_id, offset, hash } = self;
        let mut hash: Digest = hash;
        hash.update(data);
        let chunk: TransferMessage = TransferMessage::Chunk {
            transfer_id,
            offset,
            data: bytes::copy_all(data),
        };
        (FileSender { transfer_id, offset: offset + len as u64, hash }, Some(chunk))
    }

    /// All of the file has gone out: its hash follows, and the transfer is over.
    pub fn finish(self) -> (events: Vec<FileSendEvent>)
        ensures
            events@.len() == 2,
            events@[0] matches FileSendEvent::Send(TransferMessage::Done { transfer_id, sha256 })
                && transfer_id == self.id() && sha256@ == sha256_of(self.sent()),
            events@[1] == FileSendEvent::Done(self.id()),
    {
        proof {
            use_type_invariant(&self);
        }
        let FileSender { transfer_id, offset: _, hash } = self;
        let sha256: Sha256 = hash.finish();
        let mut events: Vec<FileSendEvent> = Vec::new();
        events.push(FileSendEvent::Send(TransferMessage::Done { transfer_id, sha256 }));
        events.push(FileSendEvent::Done(transfer_id));
        events
    }
}

/// The message carries these bytes of a file.
pub open spec fn is_chunk(
    message: TransferMessage,
    transfer_id: u64,
    offset: nat,
    data: Seq<u8>,
) -> bool {
    message matches TransferMessage::Chunk { transfer_id: id, offset: at, data: sent } && id
        == transfer_id && at == offset && sent@ == data
}

/// What a sender reports.
#[derive(Debug, Clone, PartialEq, Eq)]
pub enum FileSendEvent {
    Send(TransferMessage),
    Done(u64),
    Error(u64, String),
}

/// The message that an event puts on the wire, if it does.
pub open spec fn event_message(event: FileSendEvent) -> Option<TransferMessage> {
    match event {
        FileSendEvent::Send(message) => Some(message),
        FileSendEvent::Done(id) => None,
        FileSendEvent::Error(id, reason) => Some(TransferMessage::Cancel { transfer_id: id, reason }),
    }
}

/// The messages of events, in their order.
pub open spec fn event_messages(events: Seq<FileSendEvent>) -> Seq<TransferMessage>
    decreases events.len(),
{
    if events.len() == 0 {
        Seq::empty()
    } else {
        match event_message(events.last()) {
            Some(message) => event_messages(events.drop_last()).push(message),
            None => event_messages(events.drop_last()),
        }
    }
}

impl ServerFileTransfer {
    /// The messages to send for what senders have reported. A sender that failed
    /// calls the transfer off.
    pub fn drain_send_events(events: Vec<FileSendEvent>) -> (messages: Vec<TransferMessage>)
        ensures
            messages@ == event_messages(events@),
    {
        let ghost all = events@;
        let mut messages: Vec<TransferMessage> = Vec::new();
        assert(all.take(0) == Seq::<FileSendEvent>::empty());
        for event in it: events
            invariant
                it.seq() == all,
                messages@ == event_messages(all.take(it.index() as int)),
        {
            assert(all.take(it.index() + 1).drop_last() == all.take(it.index() as int));
            match event {
                FileSendEvent::Send(message) => {
                    messages.push(message);
                },
                FileSendEvent::Done(id) => {},
                FileSendEvent::Error(id, reason) => {
                    messages.push(TransferMessage::Cancel { transfer_id: id, reason });
                },
            }
        }
        assert(all.take(all.len() as int) == all);
        messages
    }
}

/// Where the ending of a file's name begins, dot and all. A name that has no dot,
/// or only one that it begins with, has no ending.
pub open spec fn ending_at(name: Seq<char>) -> int {
    if parse::last_place(name, '.') > 0 {
        parse::last_place(name, '.')
    } else {
        name.len() as int
    }
}

/// The name to try when the first `i` are taken.
pub open spec fn candidate(name: Seq<char>, i: nat) -> Seq<char> {
    if i == 0 {
        name
    } else {
        name.take(ending_at(name)) + " ("@ + text::decimal(i) + ")"@ + name.skip(ending_at(name))
    }
}

/// The name to try for a file when `i` names have been found taken: its own
/// first, then the name with a number before its ending.
pub fn unique_name(name: &str, i: u32) -> (next: String)
    ensures
        next@ == candidate(name@, i as nat),
{
    if i == 0 {
        return text::copy(name);
    }
    let chars: Vec<char> = text::chars_of(name);
    let total: usize = chars.len();
    let end: usize = match parse::find_last(chars.as_slice(), '.') {
        Some(dot) => if dot > 0 {
            dot
        } else {
            total
        },
        None => total,
    };
    let mut next: String = text::text_of(chars.as_slice(), 0, end);
    next.append(" (");
    text::push_decimal(&mut next, i as u64);
    next.append(")");
    let ending: String = text::text_of(chars.as_slice(), end, total);
    next.append(ending.as_str());
    next
}

/// Asked whether the name is taken, this is an answer.
pub open spec fn answers<F: Fn(&str) -> bool>(taken: F, name: Seq<char>, there: bool) -> bool {
    exists|asked: &str| asked@ == name && #[trigger] call_ensures(taken, (asked,), there)
}

/// The names with smaller numbers were found taken.
pub open spec fn taken_before<F: Fn(&str) -> bool>(taken: F, name: Seq<char>, i: nat) -> bool {
    forall|j: nat| j < i ==> answers(taken, #[trigger] candidate(name, j), true)
}

/// `free` was found not taken, and is the first of the names for the file that was.
pub open spec fn is_free_name<F: Fn(&str) -> bool>(
    taken: F,
    name: Seq<char>,
    free: Seq<char>,
) -> bool {
    exists|i: nat|
        {
            &&& free == #[trigger] candidate(name, i)
            &&& answers(taken, free, false)
            &&& taken_before(taken, name, i)
        }
}

/// Every name for the file was found taken.
pub open spec fn all_taken<F: Fn(&str) -> bool>(taken: F, name: Seq<char>) -> bool {
    taken_before(taken, name, (u32::MAX + 1) as nat)
}

/// A name for a file that is not taken: its own, or else the one with the smallest
/// number. None where all of them are.
pub fn unique_path<F: Fn(&str) -> bool>(name: &str, taken: F) -> (free: Option<String>)
    requires
        forall|asked: &str| call_requires(taken, (asked,)),
    ensures
        match free {
            Some(n) => is_free_name(taken, name@, n@),
            None => all_taken(taken, name@),
        },
{
    let mut i: u32 = 0;
    loop
        invariant
            forall|asked: &str| call_requires(taken, (asked,)),
            taken_before(taken, name@, i as nat),
        decreases u32::MAX - i,
    {
        let next: String = unique_name(name, i);
        let there: bool = taken(next.as_str());
        assert(answers(taken, candidate(name@, i as nat), there));
        if !there {
            return Some(next);
        }
        if i == u32::MAX {
            return None;
        }
        i = i + 1;
    }
}

/// Where files from viewers go.
#[derive(Debug, Clone, PartialEq, Eq)]
pub enum DownloadBase {
    /// `Downloads` of this profile or home directory.
    Within(String),
    /// This directory itself.
    Exactly(String),
}

/// The downloads of the user whose session is on the console.
pub open spec fn console_downloads(user: Seq<char>) -> Seq<char> {
    "C:\\Users\\"@ + user + "\\Downloads"@
}

/// The directory of downloads of `user`, where there is a name.
pub fn service_mode_user_downloads(user: &str) -> (dir: Option<String>)
    ensures
        dir is None <==> user@.len() == 0,
        dir matches Some(d) ==> d@ == console_downloads(user@),
{
    let chars: Vec<char> = text::chars_of(user);
    if chars.len() == 0 {
        return None;
    }
    let mut dir: String = String::from_str("C:\\Users\\");
    dir.append(user);
    dir.append("\\Downloads");
    Some(dir)
}

/// What is known about where files could go.
pub struct DownloadPlaces {
    pub windows: bool,
    pub home: Option<String>,
    pub profile: Option<String>,
    /// The downloads of the user on the console, if that directory exists.
    pub console: Option<String>,
    /// The directory of downloads that all users share exists.
    pub public_exists: bool,
}

/// A profile of a user, and not the one that services run with.
pub open spec fn is_user_profile(profile: Option<String>) -> bool {
    profile matches Some(p) && !text::occurs(p@, "systemprofile"@)
}

/// Where files go. On Windows the user's profile comes first; a service has none
/// of its own and asks whose session is on the console, and failing that takes
/// the directory that all users share. Elsewhere it is the home directory.
pub fn download_base(places: &DownloadPlaces) -> (base: DownloadBase)
    ensures
        places.windows && is_user_profile(places.profile) ==> (base matches DownloadBase::Within(p)
            && p@ == places.profile->0@),
        places.windows && !is_user_profile(places.profile) && places.console is Some ==> (
        base matches DownloadBase::Exactly(d) && d@ == places.console->0@),
        places.windows && !is_user_profile(places.profile) && places.console is None
            && places.public_exists ==> (base matches DownloadBase::Exactly(d) && d@
            == "C:\\Users\\Public\\Downloads"@),
        (!places.windows || !is_user_profile(places.profile) && places.console is None
            && !places.public_exists) ==> (base matches DownloadBase::Within(h) && h@ == (
        match places.home {
            Some(home) => home@,
            None => match places.profile {
                Some(profile) => profile@,
                None => "/tmp"@,
            },
        })),
{
    if places.windows {
        if let Some(profile) = &places.profile {
            if !text::contains(profile.as_str(), "systemprofile") {
                return DownloadBase::Within(text::copy(profile.as_str()));
            }
        }
        if let Some(console) = &places.console {
            return DownloadBase::Exactly(text::copy(console.as_str()));
        }
        if places.public_exists {
            return DownloadBase::Exactly(String::from_str("C:\\Users\\Public\\Downloads"));
        }
    }
    if let Some(home) = &places.home {
        return DownloadBase::Within(text::copy(home.as_str()));
    }
    match &places.profile {
        Some(profile) => DownloadBase::Within(text::copy(profile.as_str())),
        None => DownloadBase::Within(String::from_str("/tmp")),
    }
}

/// How many bytes there are in the first `k` reads of a file.
pub open spec fn bytes_before(reads: Seq<Seq<u8>>, k: int) -> int
    decreases k,
{
    if k <= 0 {
        0
    } else {
        bytes_before(reads, k - 1) + reads[k - 1].len()
    }
}

/// What there is of a file after `k` chunks with the offsets that a sender gives them:
/// nothing if the receiver refused one of them.
pub open spec fn received_after(file: IncomingFile, reads: Seq<Seq<u8>>, k: int) -> Option<
    IncomingFile,
>
    decreases k,
{
    if k <= 0 {
        Some(file)
    } else {
        match received_after(file, reads, k - 1) {
            Some(before) => if before.written.len() == bytes_before(reads, k - 1) {
                Some(grown(before, reads[k - 1]))
            } else {
                None
            },
            None => None,
        }
    }
}

/// The reads of a file one after the other.
pub open spec fn content(reads: Seq<Seq<u8>>, k: int) -> Seq<u8>
    decreases k,
{
    if k <= 0 {
        Seq::empty()
    } else {
        content(reads, k - 1) + reads[k - 1]
    }
}

/// A file arrives as it was read: a receiver takes every chunk that a sender makes,
/// in the order in which it makes them, and writes what the sender read. What is
/// written has the hash that the sender announces.
pub proof fn law_file_arrives(file: IncomingFile, reads: Seq<Seq<u8>>, k: int)
    requires
        0 <= k <= reads.len(),
        file.written == Seq::<u8>::empty(),
    ensures
        received_after(file, reads, k) == Some(
            IncomingFile { written: content(reads, k), ..file },
        ),
        content(reads, k).len() == bytes_before(reads, k),
        has_hash(received_after(file, reads, k)->0, sha256_of(content(reads, k))),
    decreases k,
{
    if k > 0 {
        law_file_arrives(file, reads, k - 1);
    }
}

/// What follows the last place of a character does not hold it.
proof fn lemma_after_last_place(path: Seq<char>, c: char)
    ensures
        -1 <= parse::last_place(path, c) < path.len() as int,
        !path.skip(parse::last_place(path, c) + 1).contains(c),
    decreases path.len(),
{
    if path.len() > 0 && path.last() != c {
        lemma_after_last_place(path.drop_last(), c);
        let tail = path.skip(parse::last_place(path, c) + 1);
        let before = path.drop_last().skip(parse::last_place(path, c) + 1);
        assert(tail =~= before.push(path.last()));
        assert forall|i: int| 0 <= i < tail.len() implies tail[i] != c by {
            if i < before.len() {
                assert(before.contains(before[i]));
            }
        }
    }
}

/// The last component of a path is a name within its directory.
proof fn lemma_last_name(path: Seq<char>)
    ensures
        last_name(path) matches Some(n) ==> is_plain(n),
    decreases path.len(),
{
    lemma_after_last_place(path, '/');
    let cut = parse::last_place(path, '/');
    if cut >= 0 {
        lemma_last_name(path.take(cut));
    }
}

/// Whatever the last component of an offered path is, the file lands in the directory
/// for it, under either of its names.
pub proof fn law_offered_file_stays_inside(
    found: Option<Seq<char>>,
    transfer_id: u64,
    drives: bool,
)
    ensures
        stays_inside(name_of(found, transfer_id, drives), drives),
        is_plain(temp_of(name_of(found, transfer_id, drives))),
        temp_of(name_of(found, transfer_id, drives))[0] == '.',
{
    text::lemma_decimal_is_digits(transfer_id as nat);
    reveal_strlit("file_");
    reveal_strlit(".");
    reveal_strlit("..");
    reveal_strlit(".phantom_tmp");
    let digits = text::decimal(transfer_id as nat);
    let made = stand_in(transfer_id);
    assert forall|i: int| 0 <= i < made.len() implies made[i] != '/' by {
        if i >= 5 {
            assert(made[i] == digits[i - 5]);
        }
    }
    assert(made[0] == 'f');
    assert(made[1] == 'i');
    assert(!made.contains('/'));
    let name = name_of(found, transfer_id, drives);
    assert(is_plain(name));
    let temp = temp_of(name);
    assert forall|i: int| 0 <= i < temp.len() implies temp[i] != '/' by {
        if 1 <= i < 1 + name.len() {
            assert(temp[i] == name[i - 1]);
            assert(name.contains(name[i - 1]));
        } else if i >= 1 + name.len() {
            assert(temp[i] == ".phantom_tmp"@[i - 1 - name.len()]);
        }
    }
    assert(!temp.contains('/'));
    assert(".phantom_tmp"@.len() == 12 && "."@.len() == 1 && ".."@.len() == 2);
    assert(temp.len() >= 13);
    assert(temp[0] == "."@[0]);
}

/// A path that ends in a name keeps it, but for one that a system with drives takes for
/// a drive's: only where there is no such name it is made of the number of the transfer.
pub proof fn law_offered_name_is_kept(path: Seq<char>, transfer_id: u64, drives: bool)
    ensures
        name_of(last_name(path), transfer_id, drives) == (match last_name(path) {
            Some(n) => if drives && names_drive(n) {
                stand_in(transfer_id)
            } else {
                n
            },
            None => stand_in(transfer_id),
        }),
{
    lemma_last_name(path);
}

/// Where looking twice for a name gives the same answer, the name that a file gets is
/// not taken, and every name for it with a smaller number is: nothing is written over,
/// and the file's own name is used where it can be.
pub proof fn law_first_free_name<F: Fn(&str) -> bool>(
    taken: F,
    there: spec_fn(Seq<char>) -> bool,
    name: Seq<char>,
    free: Seq<char>,
)
    requires
        forall|asked: &str, answer: bool| #[trigger]
            call_ensures(taken, (asked,), answer) ==> answer == there(asked@),
        is_free_name(taken, name, free),
    ensures
        !there(free),
        !there(name) ==> free == name,
        exists|i: nat|
            free == #[trigger] candidate(name, i) && forall|j: nat|
                j < i ==> there(#[trigger] candidate(name, j)),
{
    let i = choose|i: nat|
        {
            &&& free == #[trigger] candidate(name, i)
            &&& answers(taken, free, false)
            &&& taken_before(taken, name, i)
        };
    assert(forall|j: nat| j < i ==> there(#[trigger] candidate(name, j)));
    if i > 0 {
        assert(there(candidate(name, 0)));
    }
}

/// Every number gives another name, so that looking for one that is free ends as
/// soon as there are fewer files than names tried.
pub proof fn law_candidates_differ(name: Seq<char>, i: nat, j: nat)
    requires
        i != j,
    ensures
        candidate(name, i) != candidate(name, j),
{
    reveal_strlit(" (");
    reveal_strlit(")");
    parse::lemma_last_place(name, '.');
    let end = ending_at(name);
    let a = candidate(name, i);
    let b = candidate(name, j);
    if a == b {
        if i == 0 || j == 0 {
            assert(a.len() != b.len());
        } else {
            let da = text::decimal(i);
            let db = text::decimal(j);
            assert(a.len() == name.len() + 3 + da.len());
            assert(b.len() == name.len() + 3 + db.len());
            assert(a.subrange(end + 2, end + 2 + da.len()) == da);
            assert(b.subrange(end + 2, end + 2 + db.len()) == db);
            text::lemma_decimal_injective(i, j);
        }
    }
}

/// A name with a number keeps its ending, so that the file still opens as before.
pub proof fn law_ending_is_kept(name: Seq<char>, i: nat)
    ensures
        candidate(name, i).len() >= name.len(),
        candidate(name, i).skip(
            candidate(name, i).len() - (name.len() - ending_at(name)),
        ) == name.skip(ending_at(name)),
        candidate(name, i).take(ending_at(name)) == name.take(ending_at(name)),
{
    parse::lemma_last_place(name, '.');
}

/// A path's last component is what follows its last slash; what comes before does not
/// matter, a slash at the end does not either, and neither does a dot.
pub proof fn law_name_follows_the_last_slash(dir: Seq<char>, name: Seq<char>)
    requires
        is_plain(name),
    ensures
        last_name(name) == Some(name),
        last_name(dir + "/"@ + name) == Some(name),
        last_name(dir + "/"@ + name + "/"@) == Some(name),
        last_name(dir + "/.."@) is None,
{
    reveal_strlit("/");
    reveal_strlit("/..");
    reveal_strlit("..");
    reveal_strlit(".");
    lemma_no_place(name, '/');
    assert(name.skip(0) =~= name);
    let path = dir + "/"@ + name;
    lemma_place_before(dir.push('/'), name, '/', dir.len() as int);
    assert(path =~= dir.push('/') + name);
    assert(path.skip(dir.len() as int + 1) =~= name);
    let slashed = path + "/"@;
    assert(slashed.last() == '/');
    assert(slashed.skip(slashed.len() as int).len() == 0);
    assert(slashed.take(slashed.len() - 1) =~= path);
    let up = dir + "/.."@;
    assert(up =~= dir.push('/') + ".."@);
    lemma_place_before(dir.push('/'), ".."@, '/', dir.len() as int);
    assert(up.skip(dir.len() as int + 1) =~= ".."@);
}

proof fn lemma_no_place(text: Seq<char>, c: char)
    requires
        !text.contains(c),
    ensures
        parse::last_place(text, c) == -1,
    decreases text.len(),
{
    if text.len() > 0 {
        assert(text[text.len() - 1] != c);
        let init = text.drop_last();
        assert forall|i: int| 0 <= i < init.len() implies init[i] != c by {
            assert(init[i] == text[i]);
        }
        lemma_no_place(init, c);
    }
}

proof fn lemma_place_before(head: Seq<char>, tail: Seq<char>, c: char, at: int)
    requires
        head.len() > 0,
        head.last() == c,
        at == head.len() - 1,
        forall|i: int| 0 <= i < tail.len() ==> tail[i] != c,
    ensures
        parse::last_place(head + tail, c) == at,
    decreases tail.len(),
{
    if tail.len() == 0 {
        assert(head + tail =~= head);
    } else {
        assert((head + tail).last() == tail.last());
        assert((head + tail).drop_last() =~= head + tail.drop_last());
        lemma_place_before(head, tail.drop_last(), c, at);
    }
}

/// A name with a number keeps what stands before its ending and the ending, and the first
/// name to try is the name itself; a dot that a name begins with starts no ending.
pub proof fn law_number_goes_before_the_ending(
    stem: Seq<char>,
    ending: Seq<char>,
    name: &str,
    i: u32,
    next: String,
)
    requires
        call_ensures(unique_name, (name, i), next),
        stem.len() > 0,
        !ending.contains('.'),
    ensures
        i == 0 ==> next@ == name@,
        i > 0 && name@ == stem + "."@ + ending ==> next@ == stem + " ("@ + text::decimal(i as nat)
            + ")."@ + ending,
        i > 0 && !name@.contains('.') ==> next@ == name@ + " ("@ + text::decimal(i as nat) + ")"@,
        i > 0 && name@ == "."@ + ending ==> next@ == name@ + " ("@ + text::decimal(i as nat)
            + ")"@,
{
    reveal_strlit(".");
    reveal_strlit(")");
    reveal_strlit(").");
    if name@ == stem + "."@ + ending {
        assert forall|k: int| 0 <= k < ending.len() implies ending[k] != '.' by {}
        assert(name@ =~= stem.push('.') + ending);
        lemma_place_before(stem.push('.'), ending, '.', stem.len() as int);
        assert(name@.take(stem.len() as int) =~= stem);
        assert(name@.skip(stem.len() as int) =~= "."@ + ending);
        if i > 0 {
            assert(next@ =~= stem + " ("@ + text::decimal(i as nat) + ")."@ + ending);
        }
    }
    if !name@.contains('.') {
        lemma_no_place(name@, '.');
        assert(name@.take(name@.len() as int) =~= name@);
        assert(name@.skip(name@.len() as int) =~= Seq::<char>::empty());
        if i > 0 {
            assert(next@ =~= name@ + " ("@ + text::decimal(i as nat) + ")"@);
        }
    }
    if name@ == "."@ + ending {
        assert forall|k: int| 0 <= k < ending.len() implies ending[k] != '.' by {}
        let dot = Seq::<char>::empty().push('.');
        assert(name@ =~= dot + ending);
        lemma_place_before(dot, ending, '.', 0);
        assert(name@.take(name@.len() as int) =~= name@);
        assert(name@.skip(name@.len() as int) =~= Seq::<char>::empty());
        if i > 0 {
            assert(next@ =~= name@ + " ("@ + text::decimal(i as nat) + ")"@);
        }
    }
}

/// A chunk is written exactly if its transfer is known and it begins where the last one
/// ended; it is refused where it does not, and ignored where the transfer is not known.
pub proof fn law_chunks_follow_each_other(
    t: ServerFileTransfer,
    id: u64,
    offset: u64,
    r: Result<bool, String>,
)
    requires
        call_ensures(ServerFileTransfer::check_chunk, (&t, id, offset), r),
    ensures
        !t.incoming().contains_key(id) ==> r == Ok::<bool, String>(false),
        t.incoming().contains_key(id) && t.incoming()[id].written.len() == offset ==> r == Ok::<
            bool,
            String,
        >(true),
        t.incoming().contains_key(id) && t.incoming()[id].written.len() != offset ==> r is Err,
{
}

/// An offer is accepted under its number, with nothing written and as many bytes to come
/// as were announced; written bytes follow what is there; a transfer that is called off is
/// gone; and none of these touches another transfer.
pub proof fn law_transfers_do_not_touch_each_other(
    id: u64,
    other: u64,
    path: &str,
    size: u64,
    data: &[u8],
)
    requires
        id != other,
    ensures
        forall|t: &mut ServerFileTransfer, reply: TransferMessage| #[trigger]
            call_ensures(ServerFileTransfer::on_file_offer, (t, id, path, size), reply) ==> {
                let (before, after) = ((*t).incoming(), (*final(t)).incoming());
                &&& reply == (TransferMessage::Accept { transfer_id: id })
                &&& after.contains_key(id) && after[id].written.len() == 0 && after[id].expected
                    == size
                &&& before.contains_key(other) ==> after.contains_key(other) && after[other]
                    == before[other]
                &&& after.contains_key(other) ==> before.contains_key(other)
            },
        forall|t: &mut ServerFileTransfer, out: ()|
            ((*t).incoming().contains_key(id) ==> (*t).incoming()[id].written.len() + data@.len()
                <= MAX_HASHED) && #[trigger] call_ensures(
                ServerFileTransfer::on_written,
                (t, id, data),
                out,
            ) ==> {
                let (before, after) = ((*t).incoming(), (*final(t)).incoming());
                &&& before.contains_key(id) ==> after[id].written == before[id].written + data@
                    && after[id].final_name == before[id].final_name && after[id].expected
                    == before[id].expected
                &&& !before.contains_key(id) ==> after == before
                &&& before.contains_key(other) ==> after.contains_key(other) && after[other]
                    == before[other]
            },
        forall|t: &mut ServerFileTransfer, delete: Option<String>| #[trigger]
            call_ensures(ServerFileTransfer::on_file_cancel, (t, id), delete) ==> {
                let (before, after) = ((*t).incoming(), (*final(t)).incoming());
                &&& delete is Some <==> before.contains_key(id)
                &&& delete matches Some(d) ==> d@ == before[id].temp_name
                &&& !after.contains_key(id)
                &&& before.contains_key(other) ==> after.contains_key(other) && after[other]
                    == before[other]
            },
{
    assert forall|t: &mut ServerFileTransfer, reply: TransferMessage| #[trigger]
        call_ensures(ServerFileTransfer::on_file_offer, (t, id, path, size), reply) implies {
        let (before, after) = ((*t).incoming(), (*final(t)).incoming());
        &&& reply == (TransferMessage::Accept { transfer_id: id })
        &&& after.contains_key(id) && after[id].written.len() == 0 && after[id].expected == size
        &&& before.contains_key(other) ==> after.contains_key(other) && after[other]
            == before[other]
        &&& after.contains_key(other) ==> before.contains_key(other)
    } by {
        let (before, after) = ((*t).incoming(), (*final(t)).incoming());
        assert(after.remove(id) == before.remove(id));
        assert(before.contains_key(other) == before.remove(id).contains_key(other));
        assert(after.contains_key(other) == after.remove(id).contains_key(other));
        if before.contains_key(other) {
            assert(before.remove(id)[other] == before[other]);
            assert(after.remove(id)[other] == after[other]);
        }
    }
}

/// An offer to the viewer waits until it is taken, and is taken once.
pub proof fn law_offer_is_taken_once(id: u64, found: Option<String>, size: u64)
    ensures
        forall|t: &mut ServerFileTransfer, offer: TransferMessage| #[trigger]
            call_ensures(ServerFileTransfer::offer_file, (t, id, found, size), offer) ==> {
                &&& (*final(t)).awaited().contains(id)
                &&& offer matches TransferMessage::Offer { transfer_id, name, size: n }
                    && transfer_id == id && n == size
                &&& found matches Some(f) ==> offer->name@ == f@
                &&& found is None ==> offer->name@ == "file"@
                &&& (*final(t)).incoming() == (*t).incoming()
            },
        forall|t: &mut ServerFileTransfer, start: bool| #[trigger]
            call_ensures(ServerFileTransfer::on_file_accept, (t, id), start) ==> {
                &&& start <==> (*t).awaited().contains(id)
                &&& !(*final(t)).awaited().contains(id)
                &&& forall|k: u64| k != id && (*t).awaited().contains(k) ==> #[trigger] (*final(t)).awaited().contains(k)
                &&& (*final(t)).incoming() == (*t).incoming()
            },
{
}

/// Sending begins only once the offer was taken; each read goes out behind what has gone
/// out, and the end of a file is announced with the hash of all of it.
pub proof fn law_file_goes_out_in_order(
    wait: AcceptWait,
    accepted: Result<(), String>,
    id: u64,
    fresh: FileSender,
    sender: FileSender,
    data: &[u8],
    out: (FileSender, Option<TransferMessage>),
    offset: u64,
    events: Vec<FileSendEvent>,
)
    requires
        call_ensures(check_accepted, (wait,), accepted),
        call_ensures(FileSender::new, (id,), fresh),
        data@.len() <= CHUNK_SIZE,
        sender.sent().len() + data@.len() <= MAX_HASHED,
        call_ensures(FileSender::send_file_chunk, (sender, data), out),
        call_ensures(FileSender::offset, (&sender,), offset),
        call_ensures(FileSender::finish, (sender,), events),
    ensures
        accepted is Ok <==> wait is Accepted,
        fresh.sent().len() == 0 && fresh.id() == id,
        out.0.sent().len() == sender.sent().len() + data@.len(),
        out.0.id() == sender.id(),
        data@.len() == 0 ==> out.1 is None,
        data@.len() > 0 ==> (out.1 matches Some(TransferMessage::Chunk {
            transfer_id,
            offset: at,
            data: sent,
        }) && transfer_id == sender.id() && at == offset && sent@ == data@),
        events@.len() == 2,
        events@[0] matches FileSendEvent::Send(TransferMessage::Done { transfer_id, sha256 })
            && transfer_id == sender.id() && sha256@ == sha256_of(sender.sent()),
        CHUNK_SIZE == 0x4_0000,
{
}

proof fn lemma_messages(events: Seq<FileSendEvent>, event: FileSendEvent)
    ensures
        event matches FileSendEvent::Send(m) ==> event_messages(events.push(event))
            == event_messages(events).push(m),
        event is Done ==> event_messages(events.push(event)) == event_messages(events),
        event matches FileSendEvent::Error(id, reason) ==> event_messages(events.push(event))
            == event_messages(events).push(TransferMessage::Cancel { transfer_id: id, reason }),
{
    assert(events.push(event).drop_last() =~= events);
}

/// What senders report goes on in its order: what they send, and a cancellation for each
/// that failed, under its number and with its reason; the end of one says nothing.
pub proof fn law_reports_go_on_in_order(
    events: Vec<FileSendEvent>,
    before: Seq<FileSendEvent>,
    last: FileSendEvent,
    messages: Vec<TransferMessage>,
)
    requires
        call_ensures(ServerFileTransfer::drain_send_events, (events,), messages),
        events@ == before.push(last),
    ensures
        last matches FileSendEvent::Send(m) ==> messages@ == event_messages(before).push(m),
        last is Done ==> messages@ == event_messages(before),
        last matches FileSendEvent::Error(id, reason) ==> messages@ == event_messages(before).push(
            TransferMessage::Cancel { transfer_id: id, reason },
        ),
        event_messages(Seq::<FileSendEvent>::empty()).len() == 0,
{
    lemma_messages(before, last);
}

/// On Windows files go to the user's own downloads, then to those of whoever is at the
/// console, then to those that all share; elsewhere to those of the home directory.
pub proof fn law_downloads_go_to_the_user(places: DownloadPlaces, base: DownloadBase)
    requires
        call_ensures(download_base, (&places,), base),
    ensures
        places.windows && is_user_profile(places.profile) ==> (base matches DownloadBase::Within(p)
            && p@ == places.profile->0@),
        places.windows && places.profile is None && places.console is Some ==> (
        base matches DownloadBase::Exactly(d) && d@ == places.console->0@),
        places.windows && places.profile is None && places.console is None && places.public_exists
            ==> (base matches DownloadBase::Exactly(d) && d@ == "C:\\Users\\Public\\Downloads"@),
        places.windows && places.profile is None && places.console is None && !places.public_exists
            && places.home is Some ==> (base matches DownloadBase::Within(h) && h@
            == places.home->0@),
        !places.windows && places.home is Some ==> (base matches DownloadBase::Within(h) && h@
            == places.home->0@),
        !places.windows && places.home is None && places.profile is Some ==> (
        base matches DownloadBase::Within(h) && h@ == places.profile->0@),
        !places.windows && places.home is None && places.profile is None ==> (
        base matches DownloadBase::Within(h) && h@ == "/tmp"@),
{
}

/// On a system with drives a name whose second character is a colon is not used, nor on
/// any system one with a slash or one that stands for a directory; any other is.
pub proof fn law_names_of_drives_are_not_used(
    found: Option<String>,
    id: u64,
    drives: bool,
    name: String,
)
    requires
        call_ensures(safe_name, (found, id, drives), name),
    ensures
        found is None ==> name@ == "file_"@ + text::decimal(id as nat),
        found matches Some(f) ==> {
            let drive = f@.len() >= 2 && f@[1] == ':';
            let plain = f@.len() > 0 && !f@.contains('/') && f@ != "."@ && f@ != ".."@;
            &&& !plain || drives && drive ==> name@ == "file_"@ + text::decimal(id as nat)
            &&& plain && !(drives && drive) ==> name@ == f@
        },
        ACCEPT_TIMEOUT_S == 30,
{
}

} // verus!
