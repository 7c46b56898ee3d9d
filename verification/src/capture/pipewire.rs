//! Wayland capture through the desktop portal and PipeWire.

use crate::bytes;
use crate::clock::{self, SEC};
use crate::text;
use vstd::prelude::*;
use vstd::string::StringExecFns;

verus! {

/// A value of a portal response. One value may answer to more than one of
/// these: a variant around a number is both a number and a list of one.
#[derive(Debug)]
pub struct PortalValue {
    pub number: Option<u64>,
    pub text: Option<String>,
    pub items: Option<Vec<PortalValue>>,
}

/// Why the portal gave no stream.
#[derive(Debug, Clone, Copy, PartialEq, Eq, Structural)]
pub enum PortalError {
    /// The portal answered with this code: 1 is cancelled, 2 is other.
    Refused { code: u32 },
    /// No node is named in the response.
    NoNode,
    /// The response holds no list of streams.
    NoStreams,
    /// No answer came in time.
    Timeout,
    /// The stream did not start in time.
    NotStarted,
}

/// The stream that the portal offers.
#[derive(Debug, Clone, Copy, PartialEq, Eq, Structural)]
pub struct PortalStream {
    pub node_id: u32,
    pub width: u32,
    pub height: u32,
}

/// What was found of the stream so far.
#[derive(Debug, Clone, Copy, PartialEq, Eq, Structural)]
pub struct StreamSearch {
    pub node_id: Option<u32>,
    pub width: u32,
    pub height: u32,
}

/// The low 32 bits of a number.
pub open spec fn low32(n: u64) -> u32 {
    (n % 0x1_0000_0000) as u32
}

/// The members of a value, where it has any.
pub open spec fn members(v: PortalValue) -> Seq<PortalValue> {
    match v.items {
        Some(items) => items@,
        None => Seq::empty(),
    }
}

/// The size that the property gives: it is a pair of the key "size" and a pair
/// of numbers.
pub open spec fn size_of(property: PortalValue) -> Option<(u32, u32)> {
    let kv = members(property);
    if kv.len() >= 2 && kv[0].text is Some && kv[0].text->0@ == "size"@ {
        let pair = members(kv[1]);
        if pair.len() >= 2 && pair[0].number is Some && pair[1].number is Some {
            Some((low32(pair[0].number->0), low32(pair[1].number->0)))
        } else {
            None
        }
    } else {
        None
    }
}

/// The search after the first `n` properties of a stream: the last size counts.
pub open spec fn after_properties(s: StreamSearch, properties: Seq<PortalValue>, n: nat) -> StreamSearch
    decreases n,
{
    if n == 0 {
        s
    } else {
        let before = after_properties(s, properties, (n - 1) as nat);
        match size_of(properties[n - 1]) {
            Some((width, height)) => StreamSearch { width, height, ..before },
            None => before,
        }
    }
}

/// The search after one entry of the list of streams. An entry is the number
/// of a node, or a pair of one and its properties; once a node is found the
/// rest is passed over.
pub open spec fn after_entry(s: StreamSearch, entry: PortalValue) -> StreamSearch {
    if s.node_id is Some {
        s
    } else if entry.number is Some {
        StreamSearch { node_id: Some(low32(entry.number->0)), ..s }
    } else {
        let pair = members(entry);
        if pair.len() == 0 {
            s
        } else {
            let named = if pair[0].number is Some {
                StreamSearch { node_id: Some(low32(pair[0].number->0)), ..s }
            } else {
                s
            };
            if pair.len() >= 2 {
                after_properties(named, members(pair[1]), members(pair[1]).len())
            } else {
                named
            }
        }
    }
}

/// The search after the first `n` entries.
pub open spec fn after_entries(entries: Seq<PortalValue>, n: nat) -> StreamSearch
    decreases n,
{
    if n == 0 {
        StreamSearch { node_id: None, width: 1920, height: 1080 }
    } else {
        after_entry(after_entries(entries, (n - 1) as nat), entries[n - 1])
    }
}

/// The low 32 bits of a number.
fn to_u32(n: u64) -> (low: u32)
    ensures
        low == low32(n),
{
    (n % 0x1_0000_0000) as u32
}

/// The size that a property gives, if it is the size.
fn read_size(property: &PortalValue) -> (size: Option<(u32, u32)>)
    ensures
        size == size_of(*property),
{
    let kv = match &property.items {
        Some(kv) => kv,
        None => return None,
    };
    if kv.len() < 2 {
        return None;
    }
    match &kv[0].text {
        Some(key) => {
            if !text::same(key.as_str(), "size") {
                return None;
            }
        },
        None => return None,
    }
    let pair = match &kv[1].items {
        Some(pair) => pair,
        None => return None,
    };
    if pair.len() < 2 {
        return None;
    }
    match (pair[0].number, pair[1].number) {
        (Some(w), Some(h)) => Some((to_u32(w), to_u32(h))),
        _ => None,
    }
}

/// Take in one entry of the list of streams.
fn read_entry(s: StreamSearch, entry: &PortalValue) -> (out: StreamSearch)
    ensures
        out == after_entry(s, *entry),
{
    if s.node_id.is_some() {
        return s;
    }
    let mut found = s;
    if let Some(n) = entry.number {
        found.node_id = Some(to_u32(n));
        return found;
    }
    let pair = match &entry.items {
        Some(pair) => pair,
        None => return s,
    };
    if pair.len() == 0 {
        return s;
    }
    if let Some(n) = pair[0].number {
        found.node_id = Some(to_u32(n));
    }
    if pair.len() < 2 {
        return found;
    }
    let properties = match &pair[1].items {
        Some(properties) => properties,
        None => return found,
    };
    let ghost named = found;
    let mut i: usize = 0;
    while i < properties.len()
        invariant
            i <= properties@.len(),
            found == after_properties(named, properties@, i as nat),
        decreases properties@.len() - i,
    {
        if let Some((width, height)) = read_size(&properties[i]) {
            found.width = width;
            found.height = height;
        }
        i += 1;
    }
    found
}

/// The stream that a `Start` response offers: the first node that it names,
/// and the size that comes with it, 1920 by 1080 where none does.
pub fn parse_streams(streams: &PortalValue) -> (out: Result<PortalStream, PortalError>)
    ensures
        match out {
            Ok(stream) => {
                let s = after_entries(streams.items->0@, streams.items->0@.len());
                &&& streams.items is Some
                &&& s.node_id == Some(stream.node_id)
                &&& stream.width == s.width
                &&& stream.height == s.height
            },
            Err(e) => if streams.items is None {
                e == PortalError::NoStreams
            } else {
                &&& e == PortalError::NoNode
                &&& after_entries(streams.items->0@, streams.items->0@.len()).node_id is None
            },
        },
{
    let entries = match &streams.items {
        Some(entries) => entries,
        None => return Err(PortalError::NoStreams),
    };
    let mut s = StreamSearch { node_id: None, width: 1920, height: 1080 };
    let mut i: usize = 0;
    while i < entries.len()
        invariant
            i <= entries@.len(),
            s == after_entries(entries@, i as nat),
        decreases entries@.len() - i,
    {
        s = read_entry(s, &entries[i]);
        i += 1;
    }
    match s.node_id {
        Some(node_id) => Ok(PortalStream { node_id, width: s.width, height: s.height }),
        None => Err(PortalError::NoNode),
    }
}

/// Once a node is found, nothing that follows in the list changes the stream.
pub proof fn law_first_node_wins(entries: Seq<PortalValue>, n: nat, m: nat)
    requires
        n <= m <= entries.len(),
        after_entries(entries, n).node_id is Some,
    ensures
        after_entries(entries, m) == after_entries(entries, n),
    decreases m,
{
    if n < m {
        law_first_node_wins(entries, n, (m - 1) as nat);
    }
}

/// The token of a request of the process `pid`.
pub fn request_token(pid: u32) -> (token: String)
    ensures
        token@ == "phantom_"@ + text::decimal(pid as nat),
{
    let mut token = text::copy("phantom_");
    text::push_decimal(&mut token, pid as u64);
    token
}

/// The token of the session of the process `pid`.
pub fn session_token(pid: u32) -> (token: String)
    ensures
        token@ == "phantom_session_"@ + text::decimal(pid as nat),
{
    let mut token = text::copy("phantom_session_");
    text::push_decimal(&mut token, pid as u64);
    token
}

/// The text without the colons at its start.
pub open spec fn without_colons(name: Seq<char>) -> Seq<char>
    decreases name.len(),
{
    if name.len() > 0 && name[0] == ':' {
        without_colons(name.skip(1))
    } else {
        name
    }
}

/// The name of a connection, as it stands in a session's path.
pub open spec fn path_name(name: Seq<char>) -> Seq<char> {
    without_colons(name).map_values(
        |c: char|
            if c == '.' {
                '_'
            } else {
                c
            },
    )
}

/// The path that a session has where the portal does not name one.
pub fn default_session_path(unique_name: &str, token: &str) -> (path: String)
    ensures
        path@ == "/org/freedesktop/portal/desktop/session/"@ + path_name(unique_name@) + "/"@
            + token@,
{
    let chars = text::chars_of(unique_name);
    let mut path = text::copy("/org/freedesktop/portal/desktop/session/");
    let ghost root = path@;
    let mut i: usize = 0;
    assert(chars@.skip(0) =~= chars@);
    while i < chars.len() && chars[i] == ':'
        invariant
            i <= chars@.len(),
            without_colons(chars@) == without_colons(chars@.skip(i as int)),
        decreases chars@.len() - i,
    {
        assert(chars@.skip(i as int).skip(1) =~= chars@.skip(i + 1));
        i += 1;
    }
    let ghost name = without_colons(unique_name@);
    assert(name == chars@.skip(i as int));
    let ghost from = i as int;
    assert(path@ =~= root + path_name(unique_name@).take(0));
    while i < chars.len()
        invariant
            0 <= from <= i <= chars@.len(),
            chars@ == unique_name@,
            name == without_colons(unique_name@),
            name == chars@.skip(from),
            path@ == root + path_name(unique_name@).take(i - from),
        decreases chars@.len() - i,
    {
        assert(path_name(unique_name@).len() == name.len());
        path.push(
            if chars[i] == '.' {
                '_'
            } else {
                chars[i]
            },
        );
        assert(name[i - from] == chars@[i as int]);
        i += 1;
        assert(path@ =~= root + path_name(unique_name@).take(i - from));
    }
    assert(path_name(unique_name@).take(i - from) =~= path_name(unique_name@));
    path.append("/");
    path.append(token);
    path
}

/// Whether a signal is the answer to a request.
pub fn is_response(interface: &str, member: &str) -> (yes: bool)
    ensures
        yes == (interface@ == "org.freedesktop.portal.Request"@ && member@ == "Response"@),
{
    text::same(interface, "org.freedesktop.portal.Request") && text::same(member, "Response")
}

/// Whether the answer grants the request.
pub fn check_response(code: u32) -> (out: Result<(), PortalError>)
    ensures
        out == if code == 0 {
            Ok::<(), PortalError>(())
        } else {
            Err(PortalError::Refused { code })
        },
{
    if code == 0 {
        Ok(())
    } else {
        Err(PortalError::Refused { code })
    }
}

/// How long the user may take to answer.
pub const RESPONSE_LIMIT: u64 = 60 * SEC;

/// How long the stream may take to start.
pub const START_LIMIT: u64 = 5 * SEC;

/// Whether to go on waiting for an answer.
pub fn response_wait(asked: u64, now: u64) -> (out: Result<(), PortalError>)
    ensures
        out == if clock::span(asked, now) > RESPONSE_LIMIT {
            Err::<(), PortalError>(PortalError::Timeout)
        } else {
            Ok(())
        },
{
    if clock::elapsed(asked, now) > RESPONSE_LIMIT {
        Err(PortalError::Timeout)
    } else {
        Ok(())
    }
}

/// Whether the stream is there: `None` while it may still start.
pub fn start_wait(running: bool, asked: u64, now: u64) -> (out: Option<Result<(), PortalError>>)
    ensures
        out == if running {
            Some(Ok::<(), PortalError>(()))
        } else if clock::span(asked, now) >= START_LIMIT {
            Some(Err(PortalError::NotStarted))
        } else {
            None
        },
{
    if running {
        Some(Ok(()))
    } else if clock::elapsed(asked, now) >= START_LIMIT {
        Some(Err(PortalError::NotStarted))
    } else {
        None
    }
}

/// A picture of a PipeWire stream.
#[derive(Debug)]
pub struct StreamFrame {
    pub data: Vec<u8>,
    pub width: u32,
    pub height: u32,
}

/// The rows of a picture that lie in it whole, up to the first `rows`.
pub open spec fn whole_rows(
    frame: Seq<u8>,
    stride: nat,
    row_bytes: nat,
    rows: nat,
) -> Seq<u8>
    decreases rows,
{
    if rows == 0 {
        Seq::empty()
    } else {
        let before = whole_rows(frame, stride, row_bytes, (rows - 1) as nat);
        let at = (rows - 1) * stride;
        if at + row_bytes <= frame.len() {
            before + frame.subrange(at as int, (at + row_bytes) as int)
        } else {
            before
        }
    }
}

/// How the four bytes of a pixel come.
#[derive(Debug, Clone, Copy, PartialEq, Eq, Structural)]
pub enum PixelFormat {
    Bgrx,
    Bgra,
    Rgbx,
    Rgba,
}

/// Red comes first.
pub open spec fn is_red_first(format: PixelFormat) -> bool {
    format == PixelFormat::Rgbx || format == PixelFormat::Rgba
}

/// Pixels that come in this format, with blue first: the first and the third byte
/// of every whole pixel change places where red comes first.
pub open spec fn blue_first(data: Seq<u8>, format: PixelFormat) -> Seq<u8> {
    if is_red_first(format) {
        Seq::new(
            data.len(),
            |i: int|
                if i - i % 4 + 4 <= data.len() && i % 4 == 0 {
                    data[i + 2]
                } else if i - i % 4 + 4 <= data.len() && i % 4 == 2 {
                    data[i - 2]
                } else {
                    data[i]
                },
        )
    } else {
        data
    }
}

/// Put blue first in every pixel.
fn put_blue_first(data: Vec<u8>, format: PixelFormat) -> (out: Vec<u8>)
    ensures
        out@ == blue_first(data@, format),
{
    match format {
        PixelFormat::Bgrx | PixelFormat::Bgra => return data,
        PixelFormat::Rgbx | PixelFormat::Rgba => {},
    }
    let len: usize = data.len();
    let mut out: Vec<u8> = Vec::new();
    let mut i: usize = 0;
    while i < len
        invariant
            i <= len == data@.len(),
            is_red_first(format),
            out@.len() == i,
            forall|j: int| 0 <= j < i ==> #[trigger] out@[j] == blue_first(data@, format)[j],
        decreases len - i,
    {
        let at: usize = i % 4;
        let byte: u8 = if len - (i - at) < 4 {
            data[i]
        } else if at == 0 {
            data[i + 2]
        } else if at == 2 {
            data[i - 2]
        } else {
            data[i]
        };
        out.push(byte);
        i = i + 1;
    }
    assert(out@ =~= blue_first(data@, format));
    out
}

/// The distance between two rows, in bytes. One below zero counts as the machine's
/// address size has it, which no buffer holds.
pub open spec fn row_step(stride: i32) -> int {
    if stride >= 0 {
        stride as int
    } else {
        usize::MAX + 1 + stride
    }
}

fn step_of(stride: i32) -> (step: usize)
    ensures
        step == row_step(stride),
{
    if stride >= 0 {
        stride as usize
    } else {
        usize::MAX - (-(stride + 1)) as usize
    }
}

/// The picture in a buffer of `chunk_size` bytes whose rows begin every
/// `stride` bytes, four bytes to a pixel, with blue first whatever the format.
/// None where the size cannot be told.
pub fn stream_frame(buffer: &[u8], chunk_size: u32, stride: i32, format: PixelFormat) -> (out: Option<
    StreamFrame,
>)
    ensures
        out is None <==> chunk_size == 0 || row_step(stride) < 4,
        match out {
            Some(frame) => {
                let used = buffer@.take(
                    if chunk_size < buffer@.len() {
                        chunk_size as int
                    } else {
                        buffer@.len() as int
                    },
                );
                let step = row_step(stride);
                let (width, rows) = ((step / 4) % 0x1_0000_0000, chunk_size as int / step);
                &&& frame.width == width
                &&& frame.height == rows
                &&& frame.data@ == blue_first(
                    if width * 4 == step {
                        used
                    } else {
                        whole_rows(used, step as nat, (width * 4) as nat, rows as nat)
                    },
                    format,
                )
            },
            None => true,
        },
{
    let step: usize = step_of(stride);
    if chunk_size == 0 || step < 4 {
        return None;
    }
    let len: usize = if (chunk_size as usize) < buffer.len() {
        chunk_size as usize
    } else {
        buffer.len()
    };
    let used = vstd::slice::slice_subrange(buffer, 0, len);
    assert(used@ =~= buffer@.take(len as int));
    let width: u32 = ((step as u64 / 4) % 0x1_0000_0000) as u32;
    let height: u32 = (chunk_size as u64 / step as u64) as u32;
    let row_bytes: usize = width as usize * 4;
    if row_bytes == step {
        let data = put_blue_first(bytes::copy_all(used), format);
        return Some(StreamFrame { data, width, height });
    }
    let mut data: Vec<u8> = Vec::new();
    let mut y: u32 = 0;
    while y < height
        invariant
            y <= height,
            height == chunk_size as int / step as int,
            step >= 4,
            row_bytes <= step,
            data@ == whole_rows(used@, step as nat, row_bytes as nat, y as nat),
        decreases height - y,
    {
        proof {
            let (a, b, c) = (y as int, step as int, chunk_size as int);
            assert(a * b + b <= c) by (nonlinear_arith)
                requires
                    a + 1 <= c / b,
                    b >= 1,
                    c >= 0,
            ;
            assert(a * b >= 0) by (nonlinear_arith)
                requires
                    a >= 0,
                    b >= 0,
            ;
        }
        let at: usize = y as usize * step;
        if at + row_bytes <= used.len() {
            bytes::append(&mut data, vstd::slice::slice_subrange(used, at, at + row_bytes));
        }
        y += 1;
    }
    let data = put_blue_first(data, format);
    Some(StreamFrame { data, width, height })
}

/// A pixel that comes red first is shown with its own colours: blue, green and red
/// stand where they stand in a picture that came blue first.
pub proof fn law_colours_are_kept(data: Seq<u8>, format: PixelFormat, pixel: int)
    requires
        0 <= pixel,
        4 * pixel + 4 <= data.len(),
    ensures
        ({
            let shown = blue_first(data, format);
            let at = 4 * pixel;
            &&& shown.len() == data.len()
            &&& shown[at + 1] == data[at + 1]
            &&& shown[at + 3] == data[at + 3]
            &&& if is_red_first(format) {
                shown[at] == data[at + 2] && shown[at + 2] == data[at]
            } else {
                shown[at] == data[at] && shown[at + 2] == data[at + 2]
            }
        }),
{
}

/// An answer is awaited for a minute and a stream for five seconds; a stream that runs is
/// there however long it took.
pub proof fn law_portal_waits_are_bounded(
    asked: u64,
    now: u64,
    running: bool,
    answer: Result<(), PortalError>,
    start: Option<Result<(), PortalError>>,
)
    requires
        call_ensures(response_wait, (asked, now), answer),
        call_ensures(start_wait, (running, asked, now), start),
    ensures
        answer is Ok <==> now - asked <= 60_000_000_000,
        answer is Err ==> answer == Err::<(), _>(PortalError::Timeout),
        running ==> start == Some(Ok::<(), PortalError>(())),
        !running && now - asked < 5_000_000_000 ==> start is None,
        !running && now - asked >= 5_000_000_000 ==> start == Some(
            Err::<(), _>(PortalError::NotStarted),
        ),
{
}

/// Only zero grants a request, and only the portal's own signal of that name answers it.
pub proof fn law_only_zero_grants(
    code: u32,
    out: Result<(), PortalError>,
    interface: &str,
    member: &str,
    yes: bool,
)
    requires
        call_ensures(check_response, (code,), out),
        call_ensures(is_response, (interface, member), yes),
    ensures
        out is Ok <==> code == 0,
        code != 0 ==> out == Err::<(), _>(PortalError::Refused { code }),
        yes ==> member@ == "Response"@ && interface@ == "org.freedesktop.portal.Request"@,
        member@ == "Response"@ && interface@ == "org.freedesktop.portal.Request"@ ==> yes,
{
}

/// The first entry that is a number is the node, with the usual size; one that is a pair
/// brings its size with it.
pub proof fn law_first_entry_is_the_stream(
    streams: PortalValue,
    out: Result<PortalStream, PortalError>,
)
    requires
        call_ensures(parse_streams, (&streams,), out),
    ensures
        streams.items is None ==> out == Err::<PortalStream, _>(PortalError::NoStreams),
        streams.items matches Some(items) ==> {
            &&& items@.len() == 0 ==> out == Err::<PortalStream, _>(PortalError::NoNode)
            &&& items@.len() > 0 && items@[0].number is Some ==> out == Ok::<_, PortalError>(
                PortalStream {
                    node_id: (items@[0].number->0 % 0x1_0000_0000) as u32,
                    width: 1920,
                    height: 1080,
                },
            )
            &&& items@.len() > 0 && items@[0].number is None && members(items@[0]).len() == 1
                && members(items@[0])[0].number is Some ==> out == Ok::<_, PortalError>(
                PortalStream {
                    node_id: (members(items@[0])[0].number->0 % 0x1_0000_0000) as u32,
                    width: 1920,
                    height: 1080,
                },
            )
        },
{
    if let Some(items) = streams.items {
        if items@.len() > 0 {
            assert(after_entries(items@, 0) == (StreamSearch {
                node_id: None,
                width: 1920,
                height: 1080,
            }));
            assert(after_entries(items@, 1) == after_entry(after_entries(items@, 0), items@[0]));
            if after_entries(items@, 1).node_id is Some {
                law_first_node_wins(items@, 1, items@.len());
            }
        }
    }
}

proof fn lemma_last_size_counts(s: StreamSearch, properties: Seq<PortalValue>, n: nat)
    requires
        0 < n <= properties.len(),
        size_of(properties[n - 1]) is Some,
    ensures
        after_properties(s, properties, n).node_id == s.node_id,
        (after_properties(s, properties, n).width, after_properties(s, properties, n).height)
            == size_of(properties[n - 1])->0,
{
    lemma_node_is_kept(s, properties, (n - 1) as nat);
}

proof fn lemma_node_is_kept(s: StreamSearch, properties: Seq<PortalValue>, n: nat)
    requires
        n <= properties.len(),
    ensures
        after_properties(s, properties, n).node_id == s.node_id,
    decreases n,
{
    if n > 0 {
        lemma_node_is_kept(s, properties, (n - 1) as nat);
    }
}

/// A stream whose last property is its size has that size, width first.
pub proof fn law_stream_has_its_size(
    streams: PortalValue,
    out: Result<PortalStream, PortalError>,
    node: u64,
    width: u64,
    height: u64,
)
    requires
        call_ensures(parse_streams, (&streams,), out),
        streams.items is Some,
        members(streams).len() > 0,
        members(streams)[0].number is None,
        members(members(streams)[0]).len() == 2,
        members(members(streams)[0])[0].number == Some(node),
        ({
            let properties = members(members(members(streams)[0])[1]);
            &&& properties.len() > 0
            &&& members(properties.last()).len() == 2
            &&& members(properties.last())[0].text is Some
            &&& members(properties.last())[0].text->0@ == "size"@
            &&& members(members(properties.last())[1]).len() == 2
            &&& members(members(properties.last())[1])[0].number == Some(width)
            &&& members(members(properties.last())[1])[1].number == Some(height)
        }),
        node <= u32::MAX,
        width <= u32::MAX,
        height <= u32::MAX,
    ensures
        out matches Ok(s) && s.node_id == node && s.width == width && s.height == height,
{
    let items = members(streams);
    let properties = members(members(items[0])[1]);
    assert(after_entries(items, 0) == (StreamSearch { node_id: None, width: 1920, height: 1080 }));
    let named = StreamSearch { node_id: Some(low32(node)), width: 1920, height: 1080 };
    lemma_last_size_counts(named, properties, properties.len());
    assert(after_entries(items, 1) == after_entry(after_entries(items, 0), items[0]));
    law_first_node_wins(items, 1, items.len());
}

/// A picture is a quarter as wide as its rows are long and as high as rows fit, with every
/// byte of a buffer whose rows are whole pixels, in its own order where blue comes first.
pub proof fn law_buffer_becomes_the_picture(
    buffer: &[u8],
    chunk_size: u32,
    stride: i32,
    out: Option<StreamFrame>,
)
    requires
        call_ensures(stream_frame, (buffer, chunk_size, stride, PixelFormat::Bgra), out),
        stride >= 0,
    ensures
        out is None <==> chunk_size == 0 || stride < 4,
        out matches Some(frame) ==> {
            &&& 4 * frame.width <= stride < 4 * frame.width + 4
            &&& frame.height * stride <= chunk_size < (frame.height + 1) * stride
            &&& stride % 4 == 0 && chunk_size == buffer@.len() ==> frame.data@ == buffer@
        },
{
    if let Some(frame) = out {
        let (n, s) = (chunk_size as int, stride as int);
        assert(n / s * s <= n < (n / s + 1) * s) by (nonlinear_arith)
            requires
                s >= 4,
                n >= 0,
        ;
        assert(buffer@.take(buffer@.len() as int) =~= buffer@);
    }
}

/// The colons that a connection's name begins with are not in a session's path, and its
/// dots are underscores there; everything else stays.
pub proof fn law_path_has_no_dots(name: Seq<char>)
    ensures
        path_name(name).len() <= name.len(),
        path_name(name).len() > 0 ==> path_name(name)[0] != ':',
        forall|i: int| 0 <= i < path_name(name).len() ==> #[trigger] path_name(name)[i] != '.',
        forall|i: int|
            0 <= i < path_name(name).len() ==> {
                let c = name[name.len() - path_name(name).len() + i];
                (#[trigger] path_name(name)[i]) == if c == '.' {
                    '_'
                } else {
                    c
                }
            },
    decreases name.len(),
{
    if name.len() > 0 && name[0] == ':' {
        let rest = name.skip(1);
        law_path_has_no_dots(rest);
        assert(path_name(name) =~= path_name(rest));
        assert forall|i: int| 0 <= i < path_name(name).len() implies {
            let c = name[name.len() - path_name(name).len() + i];
            (#[trigger] path_name(name)[i]) == if c == '.' {
                '_'
            } else {
                c
            }
        } by {
            assert(path_name(rest)[i] == path_name(name)[i]);
            assert(rest[rest.len() - path_name(rest).len() + i] == name[name.len() - path_name(
                name,
            ).len() + i]);
        }
        assert forall|i: int| 0 <= i < path_name(name).len() implies #[trigger] path_name(name)[i]
            != '.' by {
            assert(path_name(rest)[i] != '.');
        }
    }
}

proof fn lemma_whole_rows(frame: Seq<u8>, stride: nat, row_bytes: nat, rows: nat, x: int, y: int)
    requires
        rows * stride <= frame.len(),
        row_bytes <= stride,
    ensures
        whole_rows(frame, stride, row_bytes, rows).len() == rows * row_bytes,
        0 <= x < row_bytes && 0 <= y < rows ==> {
            &&& 0 <= y * row_bytes + x < rows * row_bytes
            &&& whole_rows(frame, stride, row_bytes, rows)[y * row_bytes + x] == frame[y * stride
                + x]
        },
    decreases rows,
{
    if rows > 0 {
        let less = (rows - 1) as nat;
        assert(less * stride + stride == rows * stride) by (nonlinear_arith)
            requires
                less == rows - 1,
        ;
        assert(less * row_bytes + row_bytes == rows * row_bytes) by (nonlinear_arith)
            requires
                less == rows - 1,
        ;
        lemma_whole_rows(frame, stride, row_bytes, less, x, y);
        if 0 <= x < row_bytes && 0 <= y < rows {
            if y == less {
                assert(y * row_bytes == less * row_bytes);
            }
        }
    }
}

/// Of a padded picture with blue first every row keeps its pixels, in order, and loses its
/// padding.
pub proof fn law_padding_of_rows_is_dropped(
    buffer: &[u8],
    chunk_size: u32,
    stride: i32,
    out: Option<StreamFrame>,
    x: int,
    y: int,
)
    requires
        call_ensures(stream_frame, (buffer, chunk_size, stride, PixelFormat::Bgrx), out),
        chunk_size == buffer@.len(),
        stride > 4,
        stride % 4 != 0,
        out is Some,
        0 <= x < 4 * out->0.width,
        0 <= y < out->0.height,
    ensures
        out->0.data@.len() == out->0.height * (4 * out->0.width),
        out->0.data@[y * (4 * out->0.width) + x] == buffer@[y * stride + x],
{
    let frame = out->0;
    let (n, s) = (chunk_size as int, stride as int);
    assert(n / s * s <= n) by (nonlinear_arith)
        requires
            s >= 4,
            n >= 0,
    ;
    assert(buffer@.take(buffer@.len() as int) =~= buffer@);
    lemma_whole_rows(
        buffer@,
        s as nat,
        (4 * frame.width) as nat,
        frame.height as nat,
        x,
        y,
    );
}

} // verus!
