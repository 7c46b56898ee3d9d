//! What the displays of a machine look like, written down for people.

use crate::display_ccd::Rect;
use crate::displays::DisplayDevice;
use crate::parse;
use crate::service::vdd::DisplaySize;
use crate::text;
use vstd::prelude::*;
use vstd::string::StringExecFns;

verus! {

/// A mode that a display offers.
#[derive(Debug, Clone, Copy, PartialEq, Eq, Structural)]
pub struct OfferedMode {
    pub width: u32,
    pub height: u32,
    pub refresh: u32,
}

/// `a` comes before `b`: by width, then by height, then by rate.
pub open spec fn before(a: OfferedMode, b: OfferedMode) -> bool {
    ||| a.width < b.width
    ||| a.width == b.width && a.height < b.height
    ||| a.width == b.width && a.height == b.height && a.refresh < b.refresh
}

/// Every mode comes before those that follow it, so that none is there twice.
pub open spec fn in_order(modes: Seq<OfferedMode>) -> bool {
    forall|i: int, j: int|
        0 <= i < j < modes.len() ==> before(#[trigger] modes[i], #[trigger] modes[j])
}

fn comes_before(a: OfferedMode, b: OfferedMode) -> (found: bool)
    ensures
        found == before(a, b),
{
    a.width < b.width || (a.width == b.width && a.height < b.height) || (a.width == b.width
        && a.height == b.height && a.refresh < b.refresh)
}

/// Puts `mode` in its place among modes that are in order, unless it is there.
fn put_in_order(modes: &mut Vec<OfferedMode>, mode: OfferedMode)
    requires
        in_order(old(modes)@),
    ensures
        in_order(final(modes)@),
        forall|m: OfferedMode| #[trigger]
            final(modes)@.contains(m) <==> old(modes)@.contains(m) || m == mode,
{
    let total: usize = modes.len();
    let mut at: usize = 0;
    while at < total && comes_before(modes[at], mode)
        invariant
            at <= total == modes@.len(),
            modes@ == old(modes)@,
            in_order(modes@),
            forall|j: int| 0 <= j < at ==> before(#[trigger] modes@[j], mode),
        decreases total - at,
    {
        at = at + 1;
    }
    if at < total && modes[at] == mode {
        assert(modes@.contains(mode)) by {
            assert(modes@[at as int] == mode);
        }
        return;
    }
    let ghost earlier = modes@;
    modes.insert(at, mode);
    proof {
        assert(modes@ == earlier.insert(at as int, mode));
        assert forall|i: int, j: int| 0 <= i < j < modes@.len() implies before(
            #[trigger] modes@[i],
            #[trigger] modes@[j],
        ) by {
            if j == at {
                assert(modes@[i] == earlier[i]);
            } else if i == at {
                assert(modes@[j] == earlier[j - 1]);
                assert(before(mode, earlier[at as int]));
                if j - 1 > at {
                    assert(before(earlier[at as int], earlier[j - 1]));
                }
            } else {
                let a = if i < at {
                    i
                } else {
                    i - 1
                };
                let b = if j < at {
                    j
                } else {
                    j - 1
                };
                assert(modes@[i] == earlier[a] && modes@[j] == earlier[b]);
                assert(before(earlier[a], earlier[b]));
            }
        }
        assert forall|m: OfferedMode| #[trigger] modes@.contains(m) <==> earlier.contains(m) || m
            == mode by {
            if modes@.contains(m) {
                let k = choose|k: int| 0 <= k < modes@.len() && modes@[k] == m;
                if k < at {
                    assert(earlier[k] == m);
                } else if k > at {
                    assert(earlier[k - 1] == m);
                }
            }
            if earlier.contains(m) {
                let k = choose|k: int| 0 <= k < earlier.len() && earlier[k] == m;
                if k < at {
                    assert(modes@[k] == m);
                } else {
                    assert(modes@[k + 1] == m);
                }
            }
            if m == mode {
                assert(modes@[at as int] == mode);
            }
        }
    }
}

/// The modes that a display offers, in order and each once. The system lists them as
/// it likes.
pub fn enumerate_device_modes(listed: &Vec<OfferedMode>) -> (modes: Vec<OfferedMode>)
    ensures
        in_order(modes@),
        forall|m: OfferedMode| #[trigger] modes@.contains(m) <==> listed@.contains(m),
{
    let total: usize = listed.len();
    let mut modes: Vec<OfferedMode> = Vec::new();
    let mut i: usize = 0;
    while i < total
        invariant
            i <= total == listed@.len(),
            in_order(modes@),
            forall|m: OfferedMode| #[trigger]
                modes@.contains(m) <==> listed@.take(i as int).contains(m),
        decreases total - i,
    {
        let ghost earlier = modes@;
        put_in_order(&mut modes, listed[i]);
        proof {
            assert forall|m: OfferedMode| #[trigger] modes@.contains(m) <==> listed@.take(
                i + 1,
            ).contains(m) by {
                let now = listed@.take(i + 1);
                let then = listed@.take(i as int);
                assert(now == then.push(listed@[i as int]));
                if then.contains(m) {
                    let k = choose|k: int| 0 <= k < then.len() && then[k] == m;
                    assert(now[k] == m);
                }
                if m == listed@[i as int] {
                    assert(now[i as int] == m);
                }
                if now.contains(m) {
                    let k = choose|k: int| 0 <= k < now.len() && now[k] == m;
                    if k < i {
                        assert(then[k] == m);
                    }
                }
            }
        }
        i = i + 1;
    }
    assert(listed@.take(total as int) == listed@);
    modes
}

/// The sizes with commas between them.
pub open spec fn size_list(sizes: Seq<DisplaySize>) -> Seq<char>
    decreases sizes.len(),
{
    if sizes.len() == 0 {
        Seq::empty()
    } else {
        let last = text::decimal(sizes.last().width as nat) + "x"@ + text::decimal(
            sizes.last().height as nat,
        );
        if sizes.len() == 1 {
            last
        } else {
            size_list(sizes.drop_last()) + ", "@ + last
        }
    }
}

fn push_sizes(out: &mut String, sizes: &Vec<DisplaySize>)
    ensures
        final(out)@ == old(out)@ + size_list(sizes@),
{
    let total: usize = sizes.len();
    let mut i: usize = 0;
    assert(sizes@.take(0) == Seq::<DisplaySize>::empty());
    assert(out@ =~= old(out)@ + size_list(sizes@.take(0)));
    while i < total
        invariant
            i <= total == sizes@.len(),
            out@ == old(out)@ + size_list(sizes@.take(i as int)),
        decreases total - i,
    {
        assert(sizes@.take(i + 1).drop_last() == sizes@.take(i as int));
        if i > 0 {
            out.append(", ");
        }
        let size: DisplaySize = sizes[i];
        text::push_decimal(out, size.width as u64);
        out.append("x");
        text::push_decimal(out, size.height as u64);
        i = i + 1;
        assert(out@ =~= old(out)@ + size_list(sizes@.take(i as int)));
    }
    assert(sizes@.take(total as int) == sizes@);
}

/// The line for one device.
pub open spec fn device_line(index: int, d: DisplayDevice) -> Seq<char> {
    "  ["@ + text::decimal(index as nat) + "] name="@ + d.name@ + " desc="@ + d.description@
        + " state=0x"@ + text::hex(d.state as nat) + "\n"@
}

/// The lines for the first `n` devices.
pub open spec fn device_lines(devices: Seq<DisplayDevice>, n: int) -> Seq<char>
    decreases n,
{
    if n <= 0 {
        Seq::empty()
    } else {
        device_lines(devices, n - 1) + device_line(n - 1, devices[n - 1])
    }
}

fn push_devices(out: &mut String, devices: &Vec<DisplayDevice>)
    ensures
        final(out)@ == old(out)@ + device_lines(devices@, devices@.len() as int),
{
    let total: usize = devices.len();
    let mut i: usize = 0;
    assert(out@ =~= old(out)@ + device_lines(devices@, 0));
    while i < total
        invariant
            i <= total == devices@.len(),
            out@ == old(out)@ + device_lines(devices@, i as int),
        decreases total - i,
    {
        let d: &DisplayDevice = &devices[i];
        out.append("  [");
        text::push_decimal(out, i as u64);
        out.append("] name=");
        out.append(d.name.as_str());
        out.append(" desc=");
        out.append(d.description.as_str());
        out.append(" state=0x");
        text::push_hex(out, d.state);
        out.append("\n");
        i = i + 1;
        assert(out@ =~= old(out)@ + device_lines(devices@, i as int));
    }
}

/// The first `n` of `lines`, each on a line of its own.
pub open spec fn indented(lines: Seq<Seq<char>>, n: int) -> Seq<char>
    decreases n,
{
    if n <= 0 {
        Seq::empty()
    } else {
        indented(lines, n - 1) + "  "@ + lines[n - 1] + "\n"@
    }
}

/// What the system says of the displays that are lit.
pub open spec fn topology_lines(topology: Result<Seq<Seq<char>>, Seq<char>>) -> Seq<char> {
    match topology {
        Ok(lines) => if lines.len() == 0 {
            "  <none>\n"@
        } else {
            indented(lines, lines.len() as int)
        },
        Err(cause) => "  error: "@ + cause + "\n"@,
    }
}

pub open spec fn topology_view(topology: Result<Vec<String>, String>) -> Result<
    Seq<Seq<char>>,
    Seq<char>,
> {
    match topology {
        Ok(lines) => Ok(parse::views(lines@)),
        Err(cause) => Err(cause@),
    }
}

fn push_topology(out: &mut String, topology: &Result<Vec<String>, String>)
    ensures
        final(out)@ == old(out)@ + topology_lines(topology_view(*topology)),
{
    match topology {
        Ok(lines) => {
            let total: usize = lines.len();
            if total == 0 {
                out.append("  <none>\n");
                return;
            }
            let ghost all = parse::views(lines@);
            let mut i: usize = 0;
            assert(out@ =~= old(out)@ + indented(all, 0));
            while i < total
                invariant
                    i <= total == lines@.len(),
                    all == parse::views(lines@),
                    out@ == old(out)@ + indented(all, i as int),
                decreases total - i,
            {
                out.append("  ");
                out.append(lines[i].as_str());
                out.append("\n");
                i = i + 1;
                assert(out@ =~= old(out)@ + indented(all, i as int));
            }
        },
        Err(cause) => {
            out.append("  error: ");
            out.append(cause.as_str());
            out.append("\n");
            assert(out@ =~= old(out)@ + topology_lines(topology_view(*topology)));
        },
    }
}

/// What is known of the virtual display.
pub struct VirtualDisplay {
    pub device: String,
    pub primary: bool,
    pub rect: Option<Rect>,
    pub modes: Vec<OfferedMode>,
}

pub open spec fn mode_line(m: OfferedMode) -> Seq<char> {
    "    "@ + text::decimal(m.width as nat) + "x"@ + text::decimal(m.height as nat) + "@"@
        + text::decimal(m.refresh as nat) + "\n"@
}

pub open spec fn mode_lines(modes: Seq<OfferedMode>, n: int) -> Seq<char>
    decreases n,
{
    if n <= 0 {
        Seq::empty()
    } else {
        mode_lines(modes, n - 1) + mode_line(modes[n - 1])
    }
}

/// Where a display lies.
pub open spec fn rect_text(rect: Option<Rect>) -> Seq<char> {
    match rect {
        Some(r) => text::decimal(r.width as nat) + "x"@ + text::decimal(r.height as nat) + " at ("@
            + text::signed_decimal(r.x as int) + ","@ + text::signed_decimal(r.y as int) + ")"@,
        None => "<unavailable>"@,
    }
}

/// The modes that a display offers.
pub open spec fn mode_section(modes: Seq<OfferedMode>) -> Seq<char> {
    if modes.len() == 0 {
        "  advertised modes: <none from EnumDisplaySettingsW>\n"@
    } else {
        "  advertised modes ("@ + text::decimal(modes.len()) + "):\n"@ + mode_lines(
            modes,
            modes.len() as int,
        )
    }
}

/// What is written of the virtual display.
pub open spec fn vdd_lines(vdd: Option<VirtualDisplay>) -> Seq<char> {
    match vdd {
        None => "  <not found>\n"@,
        Some(v) => "  device: "@ + v.device@ + "\n  primary: "@ + (if v.primary {
            "true"@
        } else {
            "false"@
        }) + "\n  rect: "@ + rect_text(v.rect) + "\n"@ + mode_section(v.modes@),
    }
}

fn push_modes(out: &mut String, modes: &Vec<OfferedMode>)
    ensures
        final(out)@ == old(out)@ + mode_lines(modes@, modes@.len() as int),
{
    let total: usize = modes.len();
    let mut i: usize = 0;
    assert(out@ =~= old(out)@ + mode_lines(modes@, 0));
    while i < total
        invariant
            i <= total == modes@.len(),
            out@ == old(out)@ + mode_lines(modes@, i as int),
        decreases total - i,
    {
        let m: OfferedMode = modes[i];
        out.append("    ");
        text::push_decimal(out, m.width as u64);
        out.append("x");
        text::push_decimal(out, m.height as u64);
        out.append("@");
        text::push_decimal(out, m.refresh as u64);
        out.append("\n");
        i = i + 1;
        assert(out@ =~= old(out)@ + mode_lines(modes@, i as int));
    }
}

fn push_rect(out: &mut String, rect: Option<Rect>)
    ensures
        final(out)@ == old(out)@ + rect_text(rect),
{
    match rect {
        Some(r) => {
            text::push_decimal(out, r.width as u64);
            out.append("x");
            text::push_decimal(out, r.height as u64);
            out.append(" at (");
            text::push_signed(out, r.x as i64);
            out.append(",");
            text::push_signed(out, r.y as i64);
            out.append(")");
            assert(out@ =~= old(out)@ + rect_text(rect));
        },
        None => {
            out.append("<unavailable>");
        },
    }
}

fn push_mode_section(out: &mut String, modes: &Vec<OfferedMode>)
    ensures
        final(out)@ == old(out)@ + mode_section(modes@),
{
    let total: usize = modes.len();
    if total == 0 {
        out.append("  advertised modes: <none from EnumDisplaySettingsW>\n");
    } else {
        out.append("  advertised modes (");
        text::push_decimal(out, total as u64);
        out.append("):\n");
        push_modes(out, modes);
        assert(out@ =~= old(out)@ + mode_section(modes@));
    }
}

fn push_vdd(out: &mut String, vdd: &Option<VirtualDisplay>)
    ensures
        final(out)@ == old(out)@ + vdd_lines(*vdd),
{
    match vdd {
        None => {
            out.append("  <not found>\n");
        },
        Some(v) => {
            out.append("  device: ");
            out.append(v.device.as_str());
            out.append("\n  primary: ");
            out.append(
                if v.primary {
                    "true"
                } else {
                    "false"
                },
            );
            out.append("\n  rect: ");
            push_rect(out, v.rect);
            out.append("\n");
            push_mode_section(out, &v.modes);
            assert(out@ =~= old(out)@ + vdd_lines(*vdd));
        },
    }
}

/// The whole report.
pub open spec fn report_of(
    bank: Seq<DisplaySize>,
    devices: Seq<DisplayDevice>,
    topology: Result<Seq<Seq<char>>, Seq<char>>,
    vdd: Option<VirtualDisplay>,
) -> Seq<char> {
    "Phantom Windows display diagnostics\n  built-in VDD mode bank ("@ + text::decimal(bank.len())
        + "): "@ + size_list(bank) + "\n\nGDI display devices:\n"@ + device_lines(
        devices,
        devices.len() as int,
    ) + "\nCCD active topology:\n"@ + topology_lines(topology) + "\nManaged VDD:\n"@ + vdd_lines(vdd)
}

/// What the displays look like: the sizes that the driver knows by itself, the
/// devices, those that are lit, and the virtual one.
pub fn print_windows_display_diagnostics(
    bank: &Vec<DisplaySize>,
    devices: &Vec<DisplayDevice>,
    topology: &Result<Vec<String>, String>,
    vdd: &Option<VirtualDisplay>,
) -> (report: String)
    ensures
        report@ == report_of(bank@, devices@, topology_view(*topology), *vdd),
{
    let mut report: String = String::from_str(
        "Phantom Windows display diagnostics\n  built-in VDD mode bank (",
    );
    text::push_decimal(&mut report, bank.len() as u64);
    report.append("): ");
    push_sizes(&mut report, bank);
    report.append("\n\nGDI display devices:\n");
    push_devices(&mut report, devices);
    report.append("\nCCD active topology:\n");
    push_topology(&mut report, topology);
    report.append("\nManaged VDD:\n");
    push_vdd(&mut report, vdd);
    report
}

/// Modes that are in order are so in one way only: whatever order the system lists
/// them in, the same list comes out.
pub proof fn law_order_is_unique(a: Seq<OfferedMode>, b: Seq<OfferedMode>)
    requires
        in_order(a),
        in_order(b),
        forall|m: OfferedMode| #[trigger] a.contains(m) <==> b.contains(m),
    ensures
        a == b,
    decreases a.len(),
{
    if a.len() == 0 {
        if b.len() > 0 {
            assert(b.contains(b[0]));
            assert(a.contains(b[0]));
        }
        assert(a == b);
    } else {
        assert(a.contains(a.last()));
        assert(b.contains(a.last()));
        let k = choose|k: int| 0 <= k < b.len() && b[k] == a.last();
        assert(b.contains(b.last()));
        assert(a.contains(b.last()));
        let j = choose|j: int| 0 <= j < a.len() && a[j] == b.last();
        if k < b.len() - 1 {
            assert(before(b[k], b[b.len() - 1]));
            if j < a.len() - 1 {
                assert(before(a[j], a[a.len() - 1]));
            }
            assert(false);
        }
        assert(a.last() == b.last());
        let a1 = a.drop_last();
        let b1 = b.drop_last();
        assert forall|m: OfferedMode| #[trigger] a1.contains(m) <==> b1.contains(m) by {
            if a1.contains(m) {
                let i = choose|i: int| 0 <= i < a1.len() && a1[i] == m;
                assert(a[i] == m);
                assert(before(a[i], a[a.len() - 1]));
                assert(a.contains(m));
                assert(b.contains(m));
                let i2 = choose|i: int| 0 <= i < b.len() && b[i] == m;
                assert(b1[i2] == m);
            }
            if b1.contains(m) {
                let i = choose|i: int| 0 <= i < b1.len() && b1[i] == m;
                assert(b[i] == m);
                assert(before(b[i], b[b.len() - 1]));
                assert(b.contains(m));
                assert(a.contains(m));
                let i2 = choose|i: int| 0 <= i < a.len() && a[i] == m;
                assert(a1[i2] == m);
            }
        }
        assert forall|i: int, j: int| 0 <= i < j < a1.len() implies before(
            #[trigger] a1[i],
            #[trigger] a1[j],
        ) by {
            assert(before(a[i], a[j]));
        }
        assert forall|i: int, j: int| 0 <= i < j < b1.len() implies before(
            #[trigger] b1[i],
            #[trigger] b1[j],
        ) by {
            assert(before(b[i], b[j]));
        }
        law_order_is_unique(a1, b1);
        assert(a == a1.push(a.last()));
        assert(b == b1.push(b.last()));
    }
}

/// The modes that come out are those that went in, by growing width, then height, then
/// rate.
pub proof fn law_modes_are_sorted(
    listed: Vec<OfferedMode>,
    modes: Vec<OfferedMode>,
    i: int,
    k: int,
)
    requires
        call_ensures(enumerate_device_modes, (&listed,), modes),
        0 <= i < modes@.len() - 1,
        0 <= k < listed@.len(),
    ensures
        modes@[i] != modes@[i + 1],
        modes@[i].width <= modes@[i + 1].width,
        modes@[i].width == modes@[i + 1].width ==> modes@[i].height <= modes@[i + 1].height,
        modes@[i].width == modes@[i + 1].width && modes@[i].height == modes@[i + 1].height
            ==> modes@[i].refresh < modes@[i + 1].refresh,
        modes@.contains(listed@[k]),
        listed@.contains(modes@[i]),
{
    assert(before(modes@[i], modes@[i + 1]));
    assert(listed@.contains(listed@[k]));
    assert(modes@.contains(modes@[i]));
}

/// Each device and each mode is listed on a line of its own, in order, and what is missing
/// is said to be.
pub proof fn law_everything_is_listed(
    devices: Seq<DisplayDevice>,
    modes: Seq<OfferedMode>,
    n: int,
)
    requires
        0 <= n,
        n < devices.len(),
        n < modes.len(),
    ensures
        device_lines(devices, 0).len() == 0,
        device_lines(devices, n + 1) == device_lines(devices, n) + ("  ["@ + text::decimal(n as nat)
            + "] name="@ + devices[n].name@ + " desc="@ + devices[n].description@ + " state=0x"@
            + text::hex(devices[n].state as nat) + "\n"@),
        mode_lines(modes, 0).len() == 0,
        mode_lines(modes, n + 1) == mode_lines(modes, n) + ("    "@ + text::decimal(
            modes[n].width as nat,
        ) + "x"@ + text::decimal(modes[n].height as nat) + "@"@ + text::decimal(
            modes[n].refresh as nat,
        ) + "\n"@),
        mode_section(Seq::<OfferedMode>::empty())
            == "  advertised modes: <none from EnumDisplaySettingsW>\n"@,
        mode_section(modes) == "  advertised modes ("@ + text::decimal(modes.len()) + "):\n"@
            + mode_lines(modes, modes.len() as int),
        rect_text(None) == "<unavailable>"@,
        vdd_lines(None) == "  <not found>\n"@,
        topology_lines(Ok(Seq::empty())) == "  <none>\n"@,
{
}

} // verus!
