//! The display devices that Windows lists, and which of them to capture.

use crate::display_ccd::Rect;
use crate::text;
use vstd::prelude::*;

verus! {

/// The device shows part of the desktop.
pub const DISPLAY_DEVICE_ATTACHED_TO_DESKTOP: u32 = 0x0000_0001;

/// The device shows the part with the taskbar.
pub const DISPLAY_DEVICE_PRIMARY_DEVICE: u32 = 0x0000_0004;

/// A display device.
#[derive(Debug)]
pub struct DisplayDevice {
    pub name: String,
    pub description: String,
    pub state: u32,
    /// Where it lies, if it is lit.
    pub rect: Option<Rect>,
}

/// The device is the virtual display.
pub open spec fn is_virtual_display(d: DisplayDevice) -> bool {
    d.description@ == "Virtual Display Driver"@
}

/// The device is the primary one and lit.
pub open spec fn is_primary(d: DisplayDevice) -> bool {
    &&& d.state & DISPLAY_DEVICE_ATTACHED_TO_DESKTOP != 0
    &&& d.state & DISPLAY_DEVICE_PRIMARY_DEVICE != 0
    &&& d.rect is Some
}

/// `i` is the first of the devices with the property.
pub open spec fn is_first(
    devices: Seq<DisplayDevice>,
    property: spec_fn(DisplayDevice) -> bool,
    i: int,
) -> bool {
    &&& 0 <= i < devices.len()
    &&& property(devices[i])
    &&& forall|j: int| 0 <= j < i ==> !property(#[trigger] devices[j])
}

/// None of the devices has the property.
pub open spec fn has_none(
    devices: Seq<DisplayDevice>,
    property: spec_fn(DisplayDevice) -> bool,
) -> bool {
    forall|j: int| 0 <= j < devices.len() ==> !property(#[trigger] devices[j])
}

/// The virtual display among the devices: the first.
pub fn find_vdd_device(devices: &[DisplayDevice]) -> (index: Option<usize>)
    ensures
        match index {
            Some(i) => is_first(devices@, |d: DisplayDevice| is_virtual_display(d), i as int),
            None => has_none(devices@, |d: DisplayDevice| is_virtual_display(d)),
        },
{
    let mut i: usize = 0;
    while i < devices.len()
        invariant
            i <= devices@.len(),
            forall|j: int| 0 <= j < i ==> !is_virtual_display(#[trigger] devices@[j]),
        decreases devices@.len() - i,
    {
        if text::same(devices[i].description.as_str(), "Virtual Display Driver") {
            return Some(i);
        }
        i += 1;
    }
    None
}

/// The primary display among the devices: the first that is lit.
pub fn find_primary_device(devices: &[DisplayDevice]) -> (index: Option<usize>)
    ensures
        match index {
            Some(i) => is_first(devices@, |d: DisplayDevice| is_primary(d), i as int),
            None => has_none(devices@, |d: DisplayDevice| is_primary(d)),
        },
{
    let mut i: usize = 0;
    while i < devices.len()
        invariant
            i <= devices@.len(),
            forall|j: int| 0 <= j < i ==> !is_primary(#[trigger] devices@[j]),
        decreases devices@.len() - i,
    {
        let d = &devices[i];
        if d.state & DISPLAY_DEVICE_ATTACHED_TO_DESKTOP != 0 && d.state
            & DISPLAY_DEVICE_PRIMARY_DEVICE != 0 && d.rect.is_some() {
            return Some(i);
        }
        i += 1;
    }
    None
}

/// The description is that of Windows' basic display adapter.
pub open spec fn is_basic(description: Seq<char>) -> bool {
    text::occurs(text::lowered(description), "basic display"@)
}

/// Whether the primary display is Windows' basic one. No primary display
/// counts as one.
pub fn primary_display_is_basic(description: Option<&str>) -> (basic: bool)
    ensures
        basic == (description is None || is_basic(description->0@)),
{
    match description {
        Some(d) => {
            let low = text::to_lowercase(d);
            text::contains(low.as_str(), "basic display")
        },
        None => true,
    }
}

/// The device says that it is virtual.
pub open spec fn says_virtual(d: DisplayDevice) -> bool {
    let low = text::lowered(d.description@);
    text::occurs(low, "indirect display"@) || text::occurs(low, "virtual display"@)
}

/// The device may be one that another display manager owns: it is lit, it is
/// neither our virtual display nor the basic one, and it says that it is
/// virtual or a manager is known to run.
pub open spec fn may_be_external(d: DisplayDevice, manager_runs: bool) -> bool {
    let low = text::lowered(d.description@);
    &&& d.rect is Some
    &&& low != "virtual display driver"@
    &&& !text::occurs(low, "basic display"@)
    &&& says_virtual(d) || manager_runs
}

/// How many pixels a lit device has.
pub open spec fn pixels(d: DisplayDevice) -> int {
    match d.rect {
        Some(r) => r.width * r.height,
        None => 0,
    }
}

/// `a` is a better candidate than `b`: it says that it is virtual and `b` does
/// not, or they say the same and it is larger.
pub open spec fn outranks(a: DisplayDevice, b: DisplayDevice) -> bool {
    if says_virtual(a) != says_virtual(b) {
        says_virtual(a)
    } else {
        pixels(a) > pixels(b)
    }
}

/// The device that another display manager owns: the best candidate, and the
/// last of those that are as good.
pub fn find_external_device(devices: &[DisplayDevice], manager_runs: bool) -> (index: Option<usize>)
    ensures
        match index {
            Some(i) => {
                &&& i < devices@.len()
                &&& may_be_external(devices@[i as int], manager_runs)
                &&& forall|j: int|
                    0 <= j < devices@.len() && may_be_external(#[trigger] devices@[j], manager_runs)
                        ==> {
                        &&& !outranks(devices@[j], devices@[i as int])
                        &&& j > i ==> outranks(devices@[i as int], devices@[j])
                    }
            },
            None => forall|j: int|
                0 <= j < devices@.len() ==> !may_be_external(#[trigger] devices@[j], manager_runs),
        },
        index is None ==> none_external(devices@, manager_runs),
        index matches Some(i) ==> is_best_external(devices@, manager_runs, i as int),
{
    let mut best: Option<usize> = None;
    let mut best_virtual = false;
    let mut best_area: u64 = 0;
    let mut i: usize = 0;
    while i < devices.len()
        invariant
            i <= devices@.len(),
            match best {
                Some(b) => {
                    &&& b < i
                    &&& may_be_external(devices@[b as int], manager_runs)
                    &&& best_virtual == says_virtual(devices@[b as int])
                    &&& best_area == pixels(devices@[b as int])
                    &&& forall|j: int|
                        0 <= j < i && may_be_external(#[trigger] devices@[j], manager_runs) ==> {
                            &&& !outranks(devices@[j], devices@[b as int])
                            &&& j > b ==> outranks(devices@[b as int], devices@[j])
                        }
                },
                None => forall|j: int|
                    0 <= j < i ==> !may_be_external(#[trigger] devices@[j], manager_runs),
            },
        decreases devices@.len() - i,
    {
        let d = &devices[i];
        if let Some(rect) = d.rect {
            let low = text::to_lowercase(d.description.as_str());
            let ours = text::same(low.as_str(), "virtual display driver") || text::contains(
                low.as_str(),
                "basic display",
            );
            let virtual_one = text::contains(low.as_str(), "indirect display") || text::contains(
                low.as_str(),
                "virtual display",
            );
            if !ours && (virtual_one || manager_runs) {
                proof {
                    let (w, h) = (rect.width as int, rect.height as int);
                    assert(0 <= w * h <= 0xffff_ffff * 0xffff_ffff) by (nonlinear_arith)
                        requires
                            0 <= w <= 0xffff_ffff,
                            0 <= h <= 0xffff_ffff,
                    ;
                }
                let area: u64 = rect.width as u64 * rect.height as u64;
                let better = best.is_none() || if virtual_one != best_virtual {
                    virtual_one
                } else {
                    area >= best_area
                };
                if better {
                    best = Some(i);
                    best_virtual = virtual_one;
                    best_area = area;
                }
            }
        }
        i += 1;
    }
    best
}

/// Whether another display manager owns the topology: one runs, or a display
/// of one is there.
pub fn external_manager_present(manager_runs: bool, target: Option<usize>) -> (present: bool)
    ensures
        present == (manager_runs || target is Some),
{
    manager_runs || target.is_some()
}

/// The monitors of a size, by their place in the list.
pub open spec fn monitors_of(monitors: Seq<Rect>, width: u32, height: u32) -> Seq<Rect> {
    monitors.filter(|r: Rect| r.width == width && r.height == height)
}

/// Where the captured display lies, told by its size: of the monitors of that
/// size the one with the display's number, or the last. The corner where there
/// is none.
pub fn get_display_origin(monitors: &[Rect], width: u32, height: u32, index: usize) -> (origin: (
    i32,
    i32,
))
    ensures
        ({
            let fitting = monitors_of(monitors@, width, height);
            if fitting.len() == 0 {
                origin == (0i32, 0i32)
            } else {
                let at = if index < fitting.len() {
                    index as int
                } else {
                    fitting.len() - 1
                };
                origin == (fitting[at].x, fitting[at].y)
            }
        }),
{
    let mut fitting: Vec<Rect> = Vec::new();
    let mut i: usize = 0;
    assert(monitors@.take(0) =~= Seq::<Rect>::empty());
    assert(monitors_of(monitors@.take(0), width, height) =~= Seq::<Rect>::empty()) by {
        reveal(Seq::filter);
    }
    while i < monitors.len()
        invariant
            i <= monitors@.len(),
            fitting@ == monitors_of(monitors@.take(i as int), width, height),
        decreases monitors@.len() - i,
    {
        let r = monitors[i];
        proof {
            let next = monitors@.take(i + 1);
            assert(next.drop_last() =~= monitors@.take(i as int));
            assert(next.last() == r);
            reveal(Seq::filter);
        }
        if r.width == width && r.height == height {
            fitting.push(r);
        }
        i += 1;
    }
    assert(monitors@.take(monitors@.len() as int) =~= monitors@);
    if fitting.len() == 0 {
        return (0, 0);
    }
    let at: usize = if index < fitting.len() {
        index
    } else {
        fitting.len() - 1
    };
    (fitting[at].x, fitting[at].y)
}

/// The virtual display is found by its description alone, and the primary one by two flags
/// and being lit; in both cases the first is taken.
pub proof fn law_devices_are_known_by(
    devices: &[DisplayDevice],
    vdd: Option<usize>,
    primary: Option<usize>,
    j: int,
)
    requires
        call_ensures(find_vdd_device, (devices,), vdd),
        call_ensures(find_primary_device, (devices,), primary),
        0 <= j < devices@.len(),
    ensures
        vdd matches Some(i) ==> i < devices@.len() && devices@[i as int].description@
            == "Virtual Display Driver"@,
        devices@[j].description@ == "Virtual Display Driver"@ ==> (vdd matches Some(i) && i <= j),
        primary matches Some(i) ==> i < devices@.len() && devices@[i as int].rect is Some
            && devices@[i as int].state & 1 != 0 && devices@[i as int].state & 4 != 0,
        devices@[j].state & 1 != 0 && devices@[j].state & 4 != 0 && devices@[j].rect is Some ==> (
        primary matches Some(i) && i <= j),
{
}

/// A display is basic where it says so, in whatever case, and where there is none.
pub proof fn law_missing_display_is_basic(description: Option<&str>, basic: bool)
    requires
        call_ensures(primary_display_is_basic, (description,), basic),
    ensures
        description is None ==> basic,
        description matches Some(d) ==> (basic <==> text::occurs(
            text::lowered(d@),
            "basic display"@,
        )),
{
}

/// None of the devices may be another manager's.
pub open spec fn none_external(devices: Seq<DisplayDevice>, manager_runs: bool) -> bool {
    forall|j: int| 0 <= j < devices.len() ==> !may_be_external(#[trigger] devices[j], manager_runs)
}

/// Device `i` is the last of the best that may be another manager's.
pub open spec fn is_best_external(
    devices: Seq<DisplayDevice>,
    manager_runs: bool,
    i: int,
) -> bool {
    &&& 0 <= i < devices.len()
    &&& may_be_external(devices[i], manager_runs)
    &&& forall|j: int|
        0 <= j < devices.len() && may_be_external(#[trigger] devices[j], manager_runs) ==> {
            &&& !outranks(devices[j], devices[i])
            &&& j > i ==> outranks(devices[i], devices[j])
        }
}

/// A lit display that says it is virtual and is neither the managed one nor the basic one
/// is another manager's; one that does not say so only while a manager runs. One that says
/// so goes before one that does not, a larger one before a smaller, and a later one before
/// one that is as good.
pub proof fn law_external_display_is_the_best(
    devices: &[DisplayDevice],
    manager_runs: bool,
    index: Option<usize>,
    present: bool,
    j: int,
)
    requires
        call_ensures(find_external_device, (devices, manager_runs), index),
        call_ensures(external_manager_present, (manager_runs, index), present),
        0 <= j < devices@.len(),
        devices@[j].rect is Some,
        text::lowered(devices@[j].description@) != "virtual display driver"@,
        !text::occurs(text::lowered(devices@[j].description@), "basic display"@),
        manager_runs || text::occurs(
            text::lowered(devices@[j].description@),
            "indirect display"@,
        ) || text::occurs(text::lowered(devices@[j].description@), "virtual display"@),
    ensures
        present,
        index matches Some(i) && i < devices@.len() && {
            let best = devices@[i as int];
            &&& best.rect is Some
            &&& says_virtual(devices@[j]) ==> says_virtual(best)
            &&& says_virtual(devices@[j]) == says_virtual(best) ==> pixels(devices@[j]) <= pixels(
                best,
            )
            &&& says_virtual(devices@[j]) == says_virtual(best) && pixels(devices@[j]) == pixels(
                best,
            ) ==> j <= i
        },
{
    assert(may_be_external(devices@[j], manager_runs));
}

/// No display that is dark, the managed one or the basic one is taken for another
/// manager's, and without a manager none that does not say that it is virtual.
pub proof fn law_own_display_is_not_external(
    devices: &[DisplayDevice],
    manager_runs: bool,
    index: Option<usize>,
)
    requires
        call_ensures(find_external_device, (devices, manager_runs), index),
    ensures
        index matches Some(i) ==> {
            let d = devices@[i as int];
            &&& d.rect is Some
            &&& text::lowered(d.description@) != "virtual display driver"@
            &&& !text::occurs(text::lowered(d.description@), "basic display"@)
            &&& manager_runs || says_virtual(d)
        },
{
}

/// A display that is the only one of its size lies where that monitor lies, whatever its
/// number; one of a size that no monitor has counts as lying at the corner.
pub proof fn law_lone_size_tells_the_place(
    monitors: &[Rect],
    width: u32,
    height: u32,
    index: usize,
    origin: (i32, i32),
)
    requires
        call_ensures(get_display_origin, (monitors, width, height, index), origin),
    ensures
        monitors_of(monitors@, width, height).len() == 0 ==> origin == (0i32, 0i32),
        monitors_of(monitors@, width, height).len() > 0 ==> exists|m: int|
            0 <= m < monitors@.len() && (#[trigger] monitors@[m]).width == width
                && monitors@[m].height == height && origin == (monitors@[m].x, monitors@[m].y),
{
    let fits = |r: Rect| r.width == width && r.height == height;
    let fitting = monitors_of(monitors@, width, height);
    if fitting.len() > 0 {
        let at = if index < fitting.len() {
            index as int
        } else {
            fitting.len() - 1
        };
        monitors@.lemma_filter_contains_rev(fits, fitting[at]);
        let m = choose|m: int| 0 <= m < monitors@.len() && monitors@[m] == fitting[at];
        assert(monitors@[m] == fitting[at]);
        assert(fits(fitting[at])) by {
            monitors@.lemma_filter_pred(fits, at);
        }
    }
}

} // verus!
