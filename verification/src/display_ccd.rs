//! The display topology of Windows: reading it, and planning changes to it.
//!
//! Who owns the topology is decided elsewhere. Here every change is planned on
//! a snapshot, touches one display only, and is never saved: a restart brings
//! the defaults back.

use crate::text;
use vstd::prelude::*;
use vstd::string::StringExecFns;

verus! {

/// The path is lit.
pub const DISPLAYCONFIG_PATH_ACTIVE: u32 = 0x0000_0001;

/// The mode index of the path has two halves.
pub const DISPLAYCONFIG_PATH_SUPPORT_VIRTUAL_MODE: u32 = 0x0000_0008;

/// No mode: let Windows choose.
pub const DISPLAYCONFIG_PATH_MODE_IDX_INVALID: u32 = 0xffff_ffff;

pub const SDC_USE_SUPPLIED_DISPLAY_CONFIG: u32 = 0x0000_0020;

pub const SDC_APPLY: u32 = 0x0000_0080;

pub const SDC_SAVE_TO_DATABASE: u32 = 0x0000_0200;

pub const SDC_ALLOW_CHANGES: u32 = 0x0000_0400;

pub const SDC_VIRTUAL_MODE_AWARE: u32 = 0x0000_8000;

/// A path from a source of pixels to a display.
#[derive(Debug)]
pub struct DisplayPath {
    pub flags: u32,
    /// Mode index of the source, as it stands in the path.
    pub source_mode_raw: u32,
    /// Mode index of the target, as it stands in the path.
    pub target_mode_raw: u32,
    pub target_available: bool,
    /// The device name of the source, such as `\\.\DISPLAY6`, or why it cannot
    /// be read.
    pub source_name: Result<String, String>,
}

/// Size and place of a source on the desktop.
#[derive(Debug, Clone, Copy, PartialEq, Eq, Structural)]
pub struct SourceMode {
    pub width: u32,
    pub height: u32,
    pub x: i32,
    pub y: i32,
}

/// One entry of the table of modes. Those that are not of a source are none of
/// our business.
#[derive(Debug, Clone, Copy, PartialEq, Eq, Structural)]
pub struct DisplayMode {
    pub source: Option<SourceMode>,
}

/// Paths and modes.
#[derive(Debug)]
pub struct Topology {
    pub paths: Vec<DisplayPath>,
    pub modes: Vec<DisplayMode>,
}

/// A rectangle on the desktop.
#[derive(Debug, Clone, Copy, PartialEq, Eq, Structural)]
pub struct Rect {
    pub x: i32,
    pub y: i32,
    pub width: u32,
    pub height: u32,
}

/// Why a change cannot be made.
#[derive(Debug, Clone, Copy, PartialEq, Eq, Structural)]
pub enum CcdError {
    /// The display is not lit.
    PathNotFound,
    /// The table has no source mode with this index.
    SourceModeMissing { index: usize },
    /// The display is not the only one that is lit.
    NotSole { active: usize },
    /// No path leads to the display.
    NoCandidate,
    /// Windows took the change and did not keep it.
    NotKept,
    /// Windows did not take the change, or did not tell how things are.
    Refused,
}

/// The path is lit.
pub open spec fn is_active(path: DisplayPath) -> bool {
    path.flags & DISPLAYCONFIG_PATH_ACTIVE != 0
}

/// The path's source has this name.
pub open spec fn is_named(path: DisplayPath, name: Seq<char>) -> bool {
    path.source_name is Ok && path.source_name->Ok_0@ == name
}

/// `i` is the first path that is lit and has this name.
pub open spec fn is_lit_path(topo: Topology, name: Seq<char>, i: int) -> bool {
    &&& 0 <= i < topo.paths@.len()
    &&& is_active(topo.paths@[i])
    &&& is_named(topo.paths@[i], name)
    &&& forall|j: int|
        0 <= j < i ==> !(is_active(#[trigger] topo.paths@[j]) && is_named(topo.paths@[j], name))
}

/// No path that is lit has this name.
pub open spec fn is_dark(topo: Topology, name: Seq<char>) -> bool {
    forall|j: int|
        0 <= j < topo.paths@.len() ==> !(is_active(#[trigger] topo.paths@[j]) && is_named(
            topo.paths@[j],
            name,
        ))
}

/// The index of a path's source mode. A path that knows virtual modes holds it
/// in its upper half.
pub open spec fn mode_index(path: DisplayPath) -> u32 {
    if path.flags & DISPLAYCONFIG_PATH_SUPPORT_VIRTUAL_MODE != 0 {
        path.source_mode_raw / 65536
    } else {
        path.source_mode_raw
    }
}

/// The source mode with this index, if there is one.
pub open spec fn mode_at(topo: Topology, index: int) -> Option<SourceMode> {
    if 0 <= index < topo.modes@.len() {
        topo.modes@[index].source
    } else {
        None
    }
}

/// Where a lit path's source lies.
pub open spec fn rect_of_path(topo: Topology, i: int) -> Option<Rect> {
    match mode_at(topo, mode_index(topo.paths@[i]) as int) {
        Some(m) => Some(Rect { x: m.x, y: m.y, width: m.width, height: m.height }),
        None => None,
    }
}

/// How many of the first `n` paths are lit.
pub open spec fn active_among(paths: Seq<DisplayPath>, n: nat) -> nat
    decreases n,
{
    if n == 0 {
        0
    } else {
        active_among(paths, (n - 1) as nat) + if is_active(paths[n - 1]) {
            1nat
        } else {
            0nat
        }
    }
}

/// The first lit path whose source has this name.
pub fn find_vdd_path_idx(topo: &Topology, name: &str) -> (index: Option<usize>)
    ensures
        match index {
            Some(i) => is_lit_path(*topo, name@, i as int),
            None => is_dark(*topo, name@),
        },
{
    let mut i: usize = 0;
    while i < topo.paths.len()
        invariant
            i <= topo.paths@.len(),
            forall|j: int|
                0 <= j < i ==> !(is_active(#[trigger] topo.paths@[j]) && is_named(
                    topo.paths@[j],
                    name@,
                )),
        decreases topo.paths@.len() - i,
    {
        let path = &topo.paths[i];
        if path.flags & DISPLAYCONFIG_PATH_ACTIVE != 0 {
            if let Ok(source) = &path.source_name {
                if text::same(source.as_str(), name) {
                    return Some(i);
                }
            }
        }
        i += 1;
    }
    None
}

/// The index of a path's source mode.
pub fn source_mode_idx(path: &DisplayPath) -> (index: usize)
    ensures
        index == mode_index(*path),
{
    if path.flags & DISPLAYCONFIG_PATH_SUPPORT_VIRTUAL_MODE != 0 {
        (path.source_mode_raw / 65536) as usize
    } else {
        path.source_mode_raw as usize
    }
}

/// The source mode with this index, if there is one.
fn source_mode(topo: &Topology, index: usize) -> (mode: Option<SourceMode>)
    ensures
        mode == mode_at(*topo, index as int),
{
    if index < topo.modes.len() {
        topo.modes[index].source
    } else {
        None
    }
}

/// Where the display with this name lies; nothing if it is dark.
pub open spec fn rect_of(topo: Topology, name: Seq<char>) -> Option<Rect> {
    if is_dark(topo, name) {
        None
    } else {
        rect_of_path(topo, choose|i: int| is_lit_path(topo, name, i))
    }
}

/// There is one first lit path with a name at most.
proof fn lemma_lit_path_unique(topo: Topology, name: Seq<char>, i: int)
    requires
        is_lit_path(topo, name, i),
    ensures
        !is_dark(topo, name),
        forall|j: int| is_lit_path(topo, name, j) ==> j == i,
        rect_of(topo, name) == rect_of_path(topo, i),
{
}

/// Whether the display is the primary one, at the corner of the desktop.
pub fn is_vdd_primary(topo: &Topology, name: &str) -> (primary: bool)
    ensures
        primary == match rect_of(*topo, name@) {
            Some(r) => r.x == 0 && r.y == 0,
            None => false,
        },
{
    match locate(topo, name) {
        Ok((_, _, m)) => m.x == 0 && m.y == 0,
        Err(_) => false,
    }
}

/// The path, the mode index and the mode of a lit display.
fn locate(topo: &Topology, name: &str) -> (out: Result<(usize, usize, SourceMode), CcdError>)
    ensures
        match out {
            Ok((i, index, m)) => {
                &&& is_lit_path(*topo, name@, i as int)
                &&& index == mode_index(topo.paths@[i as int])
                &&& mode_at(*topo, index as int) == Some(m)
                &&& rect_of(*topo, name@) == Some(
                    (Rect { x: m.x, y: m.y, width: m.width, height: m.height }),
                )
            },
            Err(CcdError::PathNotFound) => is_dark(*topo, name@) && rect_of(*topo, name@) is None,
            Err(CcdError::SourceModeMissing { index }) => {
                &&& !is_dark(*topo, name@)
                &&& rect_of(*topo, name@) is None
                &&& exists|i: int|
                    #[trigger] is_lit_path(*topo, name@, i) && index == mode_index(topo.paths@[i])
            },
            Err(_) => false,
        },
{
    let i = match find_vdd_path_idx(topo, name) {
        Some(i) => i,
        None => return Err(CcdError::PathNotFound),
    };
    proof {
        lemma_lit_path_unique(*topo, name@, i as int);
    }
    let index: usize = source_mode_idx(&topo.paths[i]);
    match source_mode(topo, index) {
        Some(m) => Ok((i, index, m)),
        None => Err(CcdError::SourceModeMissing { index }),
    }
}

/// Where a display lies on the desktop, if it is lit.
pub fn source_rect_from_topology(topo: &Topology, name: &str) -> (rect: Option<Rect>)
    ensures
        rect == rect_of(*topo, name@),
{
    match locate(topo, name) {
        Ok((_, _, m)) => Some(Rect { x: m.x, y: m.y, width: m.width, height: m.height }),
        Err(_) => None,
    }
}

/// How many displays are lit.
pub fn active_path_count(topo: &Topology) -> (count: usize)
    ensures
        count == active_among(topo.paths@, topo.paths@.len()),
{
    let mut count: usize = 0;
    let mut i: usize = 0;
    while i < topo.paths.len()
        invariant
            i <= topo.paths@.len(),
            count <= i,
            count == active_among(topo.paths@, i as nat),
        decreases topo.paths@.len() - i,
    {
        if topo.paths[i].flags & DISPLAYCONFIG_PATH_ACTIVE != 0 {
            count += 1;
        }
        i += 1;
    }
    count
}

/// Whether the display has this size.
pub fn source_resolution_matches(topo: &Topology, name: &str, width: u32, height: u32) -> (yes:
    bool)
    ensures
        yes == has_size(*topo, name@, width, height),
{
    match locate(topo, name) {
        Ok((_, _, m)) => m.width == width && m.height == height,
        Err(_) => false,
    }
}

/// The display has this size.
pub open spec fn has_size(topo: Topology, name: Seq<char>, width: u32, height: u32) -> bool {
    match rect_of(topo, name) {
        Some(r) => r.width == width && r.height == height,
        None => false,
    }
}

/// A change of one source mode. The path's target mode is given up, so that
/// Windows finds a timing for the new size.
#[derive(Debug, Clone, Copy, PartialEq, Eq, Structural)]
pub struct ResolutionEdit {
    pub path: usize,
    pub mode: usize,
    pub width: u32,
    pub height: u32,
}

/// What a wish for a resolution needs.
#[derive(Debug, Clone, Copy, PartialEq, Eq, Structural)]
pub enum ResolutionPlan {
    /// The display has it already.
    Already,
    Apply(ResolutionEdit),
}

/// The edit changes the source mode of the display with this name.
pub open spec fn is_edit_for(topo: Topology, name: Seq<char>, edit: ResolutionEdit) -> bool {
    &&& is_lit_path(topo, name, edit.path as int)
    &&& edit.mode == mode_index(topo.paths@[edit.path as int])
    &&& mode_at(topo, edit.mode as int) is Some
}

/// The wish cannot be met on this topology, and why.
pub open spec fn is_refusal(topo: Topology, name: Seq<char>, e: CcdError) -> bool {
    &&& rect_of(topo, name) is None
    &&& match e {
        CcdError::PathNotFound => is_dark(topo, name),
        CcdError::SourceModeMissing { index } => !is_dark(topo, name) && exists|i: int|
            #[trigger] is_lit_path(topo, name, i) && index == mode_index(topo.paths@[i]),
        _ => false,
    }
}

/// Plan to give a display another size. The first try lets Windows adjust the
/// rest.
pub fn plan_source_resolution(topo: &Topology, name: &str, width: u32, height: u32) -> (out: Result<
    ResolutionPlan,
    CcdError,
>)
    ensures
        match out {
            Ok(ResolutionPlan::Already) => has_size(*topo, name@, width, height),
            Ok(ResolutionPlan::Apply(edit)) => {
                &&& !has_size(*topo, name@, width, height)
                &&& is_edit_for(*topo, name@, edit)
                &&& edit.width == width
                &&& edit.height == height
            },
            Err(e) => is_refusal(*topo, name@, e),
        },
{
    match locate(topo, name) {
        Ok((path, mode, m)) => {
            if m.width == width && m.height == height {
                return Ok(ResolutionPlan::Already);
            }
            Ok(ResolutionPlan::Apply(ResolutionEdit { path, mode, width, height }))
        },
        Err(e) => Err(e),
    }
}

/// Plan the second try, on the topology as it is then. It lets Windows change
/// nothing else, and is made even if the display has the size by now.
pub fn plan_strict_retry(topo: &Topology, name: &str, width: u32, height: u32) -> (out: Result<
    ResolutionEdit,
    CcdError,
>)
    ensures
        match out {
            Ok(edit) => {
                &&& is_edit_for(*topo, name@, edit)
                &&& edit.width == width
                &&& edit.height == height
            },
            Err(e) => is_refusal(*topo, name@, e),
        },
{
    match locate(topo, name) {
        Ok((path, mode, _)) => Ok(ResolutionEdit { path, mode, width, height }),
        Err(e) => Err(e),
    }
}

/// Whether the second try worked.
pub fn check_strict_retry(topo: &Topology, name: &str, width: u32, height: u32) -> (out: Result<
    (),
    CcdError,
>)
    ensures
        out == if has_size(*topo, name@, width, height) {
            Ok::<(), CcdError>(())
        } else {
            Err(CcdError::NotKept)
        },
{
    if source_resolution_matches(topo, name, width, height) {
        Ok(())
    } else {
        Err(CcdError::NotKept)
    }
}

/// What a change of a display's size waits for.
#[derive(Debug, Clone, Copy, PartialEq, Eq, Structural)]
pub enum SourcePhase {
    /// How things are.
    Before,
    /// What the first try came to.
    Relaxed,
    /// How things are after it.
    Between,
    /// What the second try came to.
    Strict,
    Over,
}

/// What to do next to change a display's size.
#[derive(Debug, Clone, Copy, PartialEq, Eq)]
pub enum SourceStep {
    /// Make this change, and look at how things are after it.
    Apply { edit: ResolutionEdit, allow_changes: bool },
    /// Look at how things are.
    Look,
    Done { outcome: Result<(), CcdError> },
}

/// A change of a display's size: Windows may adjust the rest at the first try
/// and may not at the second.
#[derive(Debug, Clone, Copy, PartialEq, Eq, Structural)]
pub struct SourceChange {
    pub phase: SourcePhase,
}

impl SourceChange {
    /// A change that has not started. It waits for how things are.
    pub fn new() -> (change: Self)
        ensures
            change.phase == SourcePhase::Before,
    {
        SourceChange { phase: SourcePhase::Before }
    }

    fn done(&mut self, outcome: Result<(), CcdError>) -> (step: SourceStep)
        ensures
            step == (SourceStep::Done { outcome }),
            final(self).phase == SourcePhase::Over,
    {
        self.phase = SourcePhase::Over;
        SourceStep::Done { outcome }
    }

    /// The displays are like this: at the start, after a try, or before the
    /// second one.
    pub fn on_topology(&mut self, topo: &Topology, name: &str, width: u32, height: u32) -> (step:
        SourceStep)
        ensures
            match old(self).phase {
                SourcePhase::Before => if has_size(*topo, name@, width, height) {
                    &&& step == (SourceStep::Done { outcome: Ok(()) })
                    &&& final(self).phase == SourcePhase::Over
                } else {
                    is_try(*topo, name@, width, height, true, step, final(self).phase)
                },
                SourcePhase::Relaxed => if has_size(*topo, name@, width, height) {
                    &&& step == (SourceStep::Done { outcome: Ok(()) })
                    &&& final(self).phase == SourcePhase::Over
                } else {
                    step == SourceStep::Look && final(self).phase == SourcePhase::Between
                },
                SourcePhase::Between => is_try(
                    *topo,
                    name@,
                    width,
                    height,
                    false,
                    step,
                    final(self).phase,
                ),
                SourcePhase::Strict | SourcePhase::Over => {
                    &&& step == (SourceStep::Done {
                        outcome: if has_size(*topo, name@, width, height) {
                            Ok(())
                        } else {
                            Err(CcdError::NotKept)
                        },
                    })
                    &&& final(self).phase == SourcePhase::Over
                },
            },
    {
        match self.phase {
            SourcePhase::Before => match plan_source_resolution(topo, name, width, height) {
                Ok(ResolutionPlan::Already) => self.done(Ok(())),
                Ok(ResolutionPlan::Apply(edit)) => {
                    self.phase = SourcePhase::Relaxed;
                    SourceStep::Apply { edit, allow_changes: true }
                },
                Err(e) => self.done(Err(e)),
            },
            SourcePhase::Relaxed => {
                if source_resolution_matches(topo, name, width, height) {
                    return self.done(Ok(()));
                }
                self.phase = SourcePhase::Between;
                SourceStep::Look
            },
            SourcePhase::Between => match plan_strict_retry(topo, name, width, height) {
                Ok(edit) => {
                    self.phase = SourcePhase::Strict;
                    SourceStep::Apply { edit, allow_changes: false }
                },
                Err(e) => self.done(Err(e)),
            },
            SourcePhase::Strict | SourcePhase::Over => {
                let outcome = check_strict_retry(topo, name, width, height);
                self.done(outcome)
            },
        }
    }

    /// A try, or a look, failed. A first try is followed by a second one.
    pub fn on_failure(&mut self) -> (step: SourceStep)
        ensures
            old(self).phase == SourcePhase::Relaxed ==> step == SourceStep::Look
                && final(self).phase == SourcePhase::Between,
            old(self).phase != SourcePhase::Relaxed ==> step == (SourceStep::Done {
                outcome: Err(CcdError::Refused),
            }) && final(self).phase == SourcePhase::Over,
    {
        match self.phase {
            SourcePhase::Relaxed => {
                self.phase = SourcePhase::Between;
                SourceStep::Look
            },
            _ => self.done(Err(CcdError::Refused)),
        }
    }
}

/// The display is given its new size if it can be found, and the change ends
/// if not.
pub open spec fn is_try(
    topo: Topology,
    name: Seq<char>,
    width: u32,
    height: u32,
    allow_changes: bool,
    step: SourceStep,
    phase: SourcePhase,
) -> bool {
    match step {
        SourceStep::Apply { edit, allow_changes: allowed } => {
            &&& allowed == allow_changes
            &&& is_edit_for(topo, name, edit)
            &&& edit.width == width
            &&& edit.height == height
            &&& phase == if allow_changes {
                SourcePhase::Relaxed
            } else {
                SourcePhase::Strict
            }
        },
        SourceStep::Done { outcome: Err(e) } => is_refusal(topo, name, e) && phase
            == SourcePhase::Over,
        _ => false,
    }
}

/// Carry out a change of size on a snapshot.
pub fn apply_source_resolution(topo: &mut Topology, edit: ResolutionEdit)
    requires
        edit.path < old(topo).paths@.len(),
        mode_at(*old(topo), edit.mode as int) is Some,
    ensures
        final(topo).modes@ == old(topo).modes@.update(
            edit.mode as int,
            (DisplayMode {
                source: Some(
                    (SourceMode {
                        width: edit.width,
                        height: edit.height,
                        ..mode_at(*old(topo), edit.mode as int)->0
                    }),
                ),
            }),
        ),
        final(topo).paths@ == old(topo).paths@.update(
            edit.path as int,
            (DisplayPath {
                target_mode_raw: DISPLAYCONFIG_PATH_MODE_IDX_INVALID,
                ..old(topo).paths@[edit.path as int]
            }),
        ),
{
    let mut mode = topo.modes[edit.mode];
    if let Some(source) = mode.source {
        mode.source = Some(
            SourceMode { width: edit.width, height: edit.height, x: source.x, y: source.y },
        );
    }
    topo.modes.set(edit.mode, mode);
    topo.paths[edit.path].target_mode_raw = DISPLAYCONFIG_PATH_MODE_IDX_INVALID;
}

/// What moving a lone display to the corner needs.
#[derive(Debug, Clone, Copy, PartialEq, Eq, Structural)]
pub enum OriginPlan {
    /// It is there.
    Already,
    /// Move the source mode with this index.
    Move { mode: usize },
}

/// Plan to move the only lit display to the corner of the desktop. With more
/// than one display this is refused: windows would be moved about.
pub fn plan_sole_origin(topo: &Topology, name: &str) -> (out: Result<OriginPlan, CcdError>)
    ensures
        ({
            let active = active_among(topo.paths@, topo.paths@.len());
            if active != 1 {
                out == Err::<OriginPlan, CcdError>(CcdError::NotSole { active: active as usize })
            } else {
                match out {
                    Ok(OriginPlan::Already) => rect_of(*topo, name@) matches Some(r) && r.x == 0
                        && r.y == 0,
                    Ok(OriginPlan::Move { mode }) => {
                        &&& rect_of(*topo, name@) matches Some(r) && (r.x != 0 || r.y != 0)
                        &&& exists|i: int|
                            #[trigger] is_lit_path(*topo, name@, i) && mode == mode_index(
                                topo.paths@[i],
                            )
                        &&& mode_at(*topo, mode as int) is Some
                    },
                    Err(e) => is_refusal(*topo, name@, e),
                }
            }
        }),
{
    let active: usize = active_path_count(topo);
    if active != 1 {
        return Err(CcdError::NotSole { active });
    }
    match locate(topo, name) {
        Ok((_, mode, m)) => {
            if m.x == 0 && m.y == 0 {
                Ok(OriginPlan::Already)
            } else {
                Ok(OriginPlan::Move { mode })
            }
        },
        Err(e) => Err(e),
    }
}

/// Carry out a move to the corner on a snapshot.
pub fn apply_origin(topo: &mut Topology, mode: usize)
    requires
        mode_at(*old(topo), mode as int) is Some,
    ensures
        final(topo).paths == old(topo).paths,
        final(topo).modes@ == old(topo).modes@.update(
            mode as int,
            (DisplayMode {
                source: Some((SourceMode { x: 0, y: 0, ..mode_at(*old(topo), mode as int)->0 })),
            }),
        ),
{
    let mut entry = topo.modes[mode];
    if let Some(source) = entry.source {
        entry.source = Some(SourceMode { width: source.width, height: source.height, x: 0, y: 0 });
    }
    topo.modes.set(mode, entry);
}

/// The path leads to the display with this name, in whatever case.
pub open spec fn leads_to(path: DisplayPath, name: Seq<char>) -> bool {
    path.source_name is Ok && text::same_ignoring_case(path.source_name->Ok_0@, name)
}

/// No path leads to the display with this name.
pub open spec fn none_leads_to(paths: Seq<DisplayPath>, name: Seq<char>) -> bool {
    forall|j: int| 0 <= j < paths.len() ==> !leads_to(#[trigger] paths[j], name)
}

/// How good a path is as the only one: lit, then available, then any.
pub open spec fn path_rank(path: DisplayPath) -> int {
    if is_active(path) {
        2
    } else if path.target_available {
        1
    } else {
        0
    }
}

/// Of the paths to a display, the one to light alone: the first of the best.
pub fn choose_single_path(all: &Topology, name: &str) -> (out: Result<usize, CcdError>)
    ensures
        match out {
            Ok(i) => {
                &&& i < all.paths@.len()
                &&& leads_to(all.paths@[i as int], name@)
                &&& forall|j: int|
                    0 <= j < all.paths@.len() && leads_to(#[trigger] all.paths@[j], name@) ==> {
                        &&& path_rank(all.paths@[j]) <= path_rank(all.paths@[i as int])
                        &&& j < i ==> path_rank(all.paths@[j]) < path_rank(all.paths@[i as int])
                    }
            },
            Err(e) => {
                &&& e == CcdError::NoCandidate
                &&& forall|j: int|
                    0 <= j < all.paths@.len() ==> !leads_to(#[trigger] all.paths@[j], name@)
            },
        },
        out is Err ==> none_leads_to(all.paths@, name@),
{
    let mut best: Option<usize> = None;
    let mut best_rank: u8 = 0;
    let mut i: usize = 0;
    while i < all.paths.len()
        invariant
            i <= all.paths@.len(),
            match best {
                Some(b) => {
                    &&& b < i
                    &&& leads_to(all.paths@[b as int], name@)
                    &&& best_rank == path_rank(all.paths@[b as int])
                    &&& forall|j: int|
                        0 <= j < i && leads_to(#[trigger] all.paths@[j], name@) ==> {
                            &&& path_rank(all.paths@[j]) <= best_rank
                            &&& j < b ==> path_rank(all.paths@[j]) < best_rank
                        }
                },
                None => forall|j: int|
                    0 <= j < i ==> !leads_to(#[trigger] all.paths@[j], name@),
            },
        decreases all.paths@.len() - i,
    {
        let path = &all.paths[i];
        let leads = match &path.source_name {
            Ok(source) => text::eq_ignore_case(source.as_str(), name),
            Err(_) => false,
        };
        if leads {
            let rank: u8 = if path.flags & DISPLAYCONFIG_PATH_ACTIVE != 0 {
                2
            } else if path.target_available {
                1
            } else {
                0
            };
            if best.is_none() || rank > best_rank {
                best = Some(i);
                best_rank = rank;
            }
        }
        i += 1;
    }
    match best {
        Some(b) => Ok(b),
        None => Err(CcdError::NoCandidate),
    }
}

/// The numbers of the path that is lit alone: it is lit, and Windows chooses
/// both modes. They are flags, source mode and target mode.
pub fn single_path_fields(flags: u32) -> (fields: (u32, u32, u32))
    ensures
        fields == (
            flags | DISPLAYCONFIG_PATH_ACTIVE,
            DISPLAYCONFIG_PATH_MODE_IDX_INVALID,
            DISPLAYCONFIG_PATH_MODE_IDX_INVALID,
        ),
        fields.0 & DISPLAYCONFIG_PATH_ACTIVE != 0,
{
    assert((flags | 1u32) & 1u32 != 0) by (bit_vector);
    (
        flags | DISPLAYCONFIG_PATH_ACTIVE,
        DISPLAYCONFIG_PATH_MODE_IDX_INVALID,
        DISPLAYCONFIG_PATH_MODE_IDX_INVALID,
    )
}

/// Whether the display is the only one that is lit. If not, the topology from
/// before is to be restored.
pub fn check_single_display(observed: &Topology, name: &str) -> (out: Result<(), CcdError>)
    ensures
        out == if active_among(observed.paths@, observed.paths@.len()) == 1 && !is_dark(
            *observed,
            name@,
        ) {
            Ok::<(), CcdError>(())
        } else {
            Err(CcdError::NotKept)
        },
{
    if active_path_count(observed) == 1 && find_vdd_path_idx(observed, name).is_some() {
        Ok(())
    } else {
        Err(CcdError::NotKept)
    }
}

/// The flags with which a change of size is applied.
pub fn source_mode_flags(allow_changes: bool) -> (flags: u32)
    ensures
        flags == if allow_changes {
            SDC_APPLY | SDC_USE_SUPPLIED_DISPLAY_CONFIG | SDC_VIRTUAL_MODE_AWARE
                | SDC_ALLOW_CHANGES
        } else {
            SDC_APPLY | SDC_USE_SUPPLIED_DISPLAY_CONFIG | SDC_VIRTUAL_MODE_AWARE
        },
        flags & SDC_SAVE_TO_DATABASE == 0,
{
    assert((0x80u32 | 0x20u32 | 0x8000u32 | 0x400u32) & 0x200u32 == 0) by (bit_vector);
    assert((0x80u32 | 0x20u32 | 0x8000u32) & 0x200u32 == 0) by (bit_vector);
    if allow_changes {
        SDC_APPLY | SDC_USE_SUPPLIED_DISPLAY_CONFIG | SDC_VIRTUAL_MODE_AWARE | SDC_ALLOW_CHANGES
    } else {
        SDC_APPLY | SDC_USE_SUPPLIED_DISPLAY_CONFIG | SDC_VIRTUAL_MODE_AWARE
    }
}

/// The flags of the first and of the second try to apply a whole topology: the
/// second lets Windows adjust it.
pub fn apply_flags() -> (flags: (u32, u32))
    ensures
        flags.0 == SDC_APPLY | SDC_USE_SUPPLIED_DISPLAY_CONFIG | SDC_VIRTUAL_MODE_AWARE,
        flags.1 == SDC_APPLY | SDC_USE_SUPPLIED_DISPLAY_CONFIG | SDC_VIRTUAL_MODE_AWARE
            | SDC_ALLOW_CHANGES,
        flags.0 & SDC_SAVE_TO_DATABASE == 0,
        flags.1 & SDC_SAVE_TO_DATABASE == 0,
{
    (source_mode_flags(false), source_mode_flags(true))
}

/// The flags of the first and of the second try to light one display: the
/// second does without virtual modes.
pub fn auto_mode_flags() -> (flags: (u32, u32))
    ensures
        flags.0 == SDC_APPLY | SDC_USE_SUPPLIED_DISPLAY_CONFIG | SDC_VIRTUAL_MODE_AWARE
            | SDC_ALLOW_CHANGES,
        flags.1 == SDC_APPLY | SDC_USE_SUPPLIED_DISPLAY_CONFIG | SDC_ALLOW_CHANGES,
        flags.0 & SDC_SAVE_TO_DATABASE == 0,
        flags.1 & SDC_SAVE_TO_DATABASE == 0,
{
    assert((0x80u32 | 0x20u32 | 0x400u32) & 0x200u32 == 0) by (bit_vector);
    (source_mode_flags(true), SDC_APPLY | SDC_USE_SUPPLIED_DISPLAY_CONFIG | SDC_ALLOW_CHANGES)
}

/// How a path is listed.
pub open spec fn path_line(topo: Topology, i: int) -> Seq<char> {
    let path = topo.paths@[i];
    "path["@ + text::decimal(i as nat) + "] active="@ + (if is_active(path) {
        "true"@
    } else {
        "false"@
    }) + " flags=0x"@ + text::hex(path.flags as nat) + " raw_source_mode=0x"@ + text::hex(
        path.source_mode_raw as nat,
    ) + " source="@ + (match path.source_name {
        Ok(name) => name@,
        Err(e) => "<source-name: "@ + e@ + ">"@,
    }) + " "@ + match mode_at(topo, mode_index(path) as int) {
        Some(m) => text::decimal(m.width as nat) + "x"@ + text::decimal(m.height as nat)
            + " pos=("@ + text::signed_decimal(m.x as int) + ","@ + text::signed_decimal(
            m.y as int,
        ) + ")"@,
        None => "source-mode-missing idx="@ + text::decimal(mode_index(path) as nat),
    }
}

/// How a path is listed.
fn summary_line(topo: &Topology, i: usize) -> (line: String)
    requires
        i < topo.paths@.len(),
    ensures
        line@ == path_line(*topo, i as int),
{
    let path = &topo.paths[i];
    let mut line = text::copy("path[");
    text::push_decimal(&mut line, i as u64);
    line.append("] active=");
    line.append(
        if path.flags & DISPLAYCONFIG_PATH_ACTIVE != 0 {
            "true"
        } else {
            "false"
        },
    );
    line.append(" flags=0x");
    text::push_hex(&mut line, path.flags);
    line.append(" raw_source_mode=0x");
    text::push_hex(&mut line, path.source_mode_raw);
    line.append(" source=");
    let ghost head = line@;
    match &path.source_name {
        Ok(name) => line.append(name.as_str()),
        Err(e) => {
            line.append("<source-name: ");
            line.append(e.as_str());
            line.append(">");
            assert(line@ =~= head + ("<source-name: "@ + e@ + ">"@));
        },
    }
    line.append(" ");
    let ghost head = line@;
    let index: usize = source_mode_idx(path);
    match source_mode(topo, index) {
        Some(m) => {
            text::push_decimal(&mut line, m.width as u64);
            line.append("x");
            text::push_decimal(&mut line, m.height as u64);
            line.append(" pos=(");
            text::push_signed(&mut line, m.x as i64);
            line.append(",");
            text::push_signed(&mut line, m.y as i64);
            line.append(")");
            assert(line@ =~= head + (text::decimal(m.width as nat) + "x"@ + text::decimal(
                m.height as nat,
            ) + " pos=("@ + text::signed_decimal(m.x as int) + ","@ + text::signed_decimal(
                m.y as int,
            ) + ")"@));
        },
        None => {
            line.append("source-mode-missing idx=");
            text::push_decimal(&mut line, index as u64);
            assert(line@ =~= head + ("source-mode-missing idx="@ + text::decimal(index as nat)));
        },
    }
    line
}

/// The topology, one line to a path.
pub fn active_config_summary_from_topology(topo: &Topology) -> (lines: Vec<String>)
    ensures
        lines@.len() == topo.paths@.len(),
        forall|i: int|
            0 <= i < lines@.len() ==> (#[trigger] lines@[i])@ == path_line(*topo, i),
{
    let mut lines: Vec<String> = Vec::new();
    let mut i: usize = 0;
    while i < topo.paths.len()
        invariant
            i <= topo.paths@.len(),
            lines@.len() == i,
            forall|j: int| 0 <= j < i ==> (#[trigger] lines@[j])@ == path_line(*topo, j),
        decreases topo.paths@.len() - i,
    {
        lines.push(summary_line(topo, i));
        i += 1;
    }
    lines
}

/// A change of size gives the display that size, leaves it where it is, and
/// leaves every other source mode and every other path as they are.
pub proof fn law_resize_touches_one_display(
    before: Topology,
    after: Topology,
    name: Seq<char>,
    edit: ResolutionEdit,
)
    requires
        is_edit_for(before, name, edit),
        after.modes@ == before.modes@.update(
            edit.mode as int,
            (DisplayMode {
                source: Some(
                    (SourceMode {
                        width: edit.width,
                        height: edit.height,
                        ..mode_at(before, edit.mode as int)->0
                    }),
                ),
            }),
        ),
        after.paths@ == before.paths@.update(
            edit.path as int,
            (DisplayPath {
                target_mode_raw: DISPLAYCONFIG_PATH_MODE_IDX_INVALID,
                ..before.paths@[edit.path as int]
            }),
        ),
    ensures
        has_size(after, name, edit.width, edit.height),
        rect_of(after, name)->0.x == rect_of(before, name)->0.x,
        rect_of(after, name)->0.y == rect_of(before, name)->0.y,
        active_among(after.paths@, after.paths@.len()) == active_among(
            before.paths@,
            before.paths@.len(),
        ),
        forall|m: int|
            0 <= m < before.modes@.len() && m != edit.mode ==> after.modes@[m] == before.modes@[m],
        forall|p: int|
            0 <= p < before.paths@.len() && p != edit.path ==> after.paths@[p] == before.paths@[p],
{
    lemma_lit_path_unique(before, name, edit.path as int);
    assert forall|j: int| 0 <= j < edit.path implies !(is_active(#[trigger] after.paths@[j])
        && is_named(after.paths@[j], name)) by {
        assert(after.paths@[j] == before.paths@[j]);
    }
    assert(is_lit_path(after, name, edit.path as int));
    lemma_lit_path_unique(after, name, edit.path as int);
    lemma_same_activity(before.paths@, after.paths@, before.paths@.len());
}

/// Paths that are lit alike are counted alike.
proof fn lemma_same_activity(a: Seq<DisplayPath>, b: Seq<DisplayPath>, n: nat)
    requires
        n <= a.len(),
        a.len() == b.len(),
        forall|i: int| 0 <= i < a.len() ==> is_active(#[trigger] a[i]) == is_active(b[i]),
    ensures
        active_among(a, n) == active_among(b, n),
    decreases n,
{
    if n > 0 {
        lemma_same_activity(a, b, (n - 1) as nat);
        assert(is_active(a[n - 1]) == is_active(b[n - 1]));
    }
}

/// A path is lit by the lowest of its flags; its mode is found by the upper half of its
/// index where it knows virtual modes and by all of it where it does not.
pub proof fn law_flags_of_a_path(path: DisplayPath, index: usize)
    requires
        call_ensures(source_mode_idx, (&path,), index),
    ensures
        is_active(path) <==> path.flags % 2 == 1,
        (path.flags / 8) % 2 == 1 ==> index * 0x1_0000 <= path.source_mode_raw < (index + 1)
            * 0x1_0000,
        (path.flags / 8) % 2 == 0 ==> index == path.source_mode_raw,
{
    let flags = path.flags;
    assert(flags & 1 != 0 <==> flags % 2 == 1) by (bit_vector);
    assert(flags & 8 != 0 <==> (flags / 8) % 2 == 1) by (bit_vector);
}

proof fn lemma_count_of_lit(paths: Seq<DisplayPath>, n: nat)
    requires
        n <= paths.len(),
    ensures
        active_among(paths, n) <= n,
        (forall|i: int| 0 <= i < n ==> is_active(#[trigger] paths[i])) <==> active_among(paths, n)
            == n,
        (forall|i: int| 0 <= i < n ==> !is_active(#[trigger] paths[i])) <==> active_among(paths, n)
            == 0,
    decreases n,
{
    if n > 0 {
        lemma_count_of_lit(paths, (n - 1) as nat);
        assert(paths[n - 1] == paths[n - 1]);
    }
}

/// All displays are counted where all are lit, and none where none is.
pub proof fn law_lit_displays_are_counted(topo: Topology, count: usize)
    requires
        call_ensures(active_path_count, (&topo,), count),
    ensures
        count <= topo.paths@.len(),
        count == topo.paths@.len() <==> forall|i: int|
            0 <= i < topo.paths@.len() ==> is_active(#[trigger] topo.paths@[i]),
        count == 0 <==> forall|i: int|
            0 <= i < topo.paths@.len() ==> !is_active(#[trigger] topo.paths@[i]),
{
    lemma_count_of_lit(topo.paths@, topo.paths@.len());
}

/// Where a display lies and how large it is, is what the mode of its first lit path says;
/// it is the primary one exactly at the corner, and a display that is dark has no place.
pub proof fn law_display_lies_where_its_mode_says(
    topo: Topology,
    name: &str,
    rect: Option<Rect>,
    primary: bool,
    width: u32,
    height: u32,
    fits: bool,
    found: Option<usize>,
)
    requires
        call_ensures(source_rect_from_topology, (&topo, name), rect),
        call_ensures(is_vdd_primary, (&topo, name), primary),
        call_ensures(source_resolution_matches, (&topo, name, width, height), fits),
        call_ensures(find_vdd_path_idx, (&topo, name), found),
    ensures
        found is None ==> rect is None,
        found matches Some(i) ==> i < topo.paths@.len() && is_active(topo.paths@[i as int])
            && topo.paths@[i as int].source_name is Ok
            && topo.paths@[i as int].source_name->Ok_0@ == name@,
        found matches Some(i) ==> {
            let index = mode_index(topo.paths@[i as int]) as int;
            &&& index >= topo.modes@.len() ==> rect is None
            &&& index < topo.modes@.len() ==> match topo.modes@[index].source {
                Some(m) => rect == Some(Rect { x: m.x, y: m.y, width: m.width, height: m.height }),
                None => rect is None,
            }
        },
        primary <==> (rect matches Some(r) && r.x == 0 && r.y == 0),
        fits <==> (rect matches Some(r) && r.width == width && r.height == height),
{
    if let Some(i) = found {
        lemma_lit_path_unique(topo, name@, i as int);
    }
}

/// A change of size is planned exactly where the display has another size, for the mode of
/// that display and with the size that was asked for.
pub proof fn law_size_is_planned_where_it_differs(
    topo: Topology,
    name: &str,
    width: u32,
    height: u32,
    rect: Option<Rect>,
    out: Result<ResolutionPlan, CcdError>,
    strict: Result<ResolutionEdit, CcdError>,
    kept: Result<(), CcdError>,
)
    requires
        call_ensures(source_rect_from_topology, (&topo, name), rect),
        call_ensures(plan_source_resolution, (&topo, name, width, height), out),
        call_ensures(plan_strict_retry, (&topo, name, width, height), strict),
        call_ensures(check_strict_retry, (&topo, name, width, height), kept),
    ensures
        rect is None <==> out is Err,
        rect is None <==> strict is Err,
        out matches Ok(ResolutionPlan::Already) ==> rect->0.width == width && rect->0.height
            == height,
        out matches Ok(ResolutionPlan::Apply(edit)) ==> {
            &&& rect->0.width != width || rect->0.height != height
            &&& edit.width == width && edit.height == height
            &&& is_active(topo.paths@[edit.path as int])
            &&& is_named(topo.paths@[edit.path as int], name@)
            &&& edit.mode == mode_index(topo.paths@[edit.path as int])
        },
        strict matches Ok(edit) ==> edit.width == width && edit.height == height,
        kept is Ok <==> (rect matches Some(r) && r.width == width && r.height == height),
{
    if let Ok(ResolutionPlan::Apply(edit)) = out {
        lemma_lit_path_unique(topo, name@, edit.path as int);
    }
    if let Ok(edit) = strict {
        lemma_lit_path_unique(topo, name@, edit.path as int);
    }
}

/// A change of size on a snapshot gives one mode its size and leaves it where it is, lets
/// Windows choose the timing of one path, and changes nothing else.
pub proof fn law_resize_is_carried_out(edit: ResolutionEdit)
    ensures
        forall|t: &mut Topology, out: ()|
            edit.path < (*t).paths@.len() && mode_at(*t, edit.mode as int) is Some
                && #[trigger] call_ensures(apply_source_resolution, (t, edit), out) ==> {
                let (before, after) = (*t, *final(t));
                let mode = edit.mode as int;
                let path = edit.path as int;
                &&& after.modes@.len() == before.modes@.len()
                &&& after.modes@[mode].source is Some
                &&& after.modes@[mode].source->0.width == edit.width
                &&& after.modes@[mode].source->0.height == edit.height
                &&& after.modes@[mode].source->0.x == before.modes@[mode].source->0.x
                &&& after.modes@[mode].source->0.y == before.modes@[mode].source->0.y
                &&& forall|m: int|
                    0 <= m < before.modes@.len() && m != mode ==> after.modes@[m]
                        == before.modes@[m]
                &&& after.paths@[path].target_mode_raw == 0xffff_ffff
                &&& after.paths@[path].source_mode_raw == before.paths@[path].source_mode_raw
                &&& after.paths@[path].flags == before.paths@[path].flags
                &&& forall|p: int|
                    0 <= p < before.paths@.len() && p != path ==> after.paths@[p]
                        == before.paths@[p]
            },
        forall|t: &mut Topology, mode: usize, out: ()|
            mode_at(*t, mode as int) is Some && #[trigger] call_ensures(
                apply_origin,
                (t, mode),
                out,
            ) ==> {
                let (before, after) = (*t, *final(t));
                let moved = after.modes@[mode as int].source;
                &&& moved is Some && moved->0.x == 0 && moved->0.y == 0
                &&& moved->0.width == before.modes@[mode as int].source->0.width
                &&& moved->0.height == before.modes@[mode as int].source->0.height
                &&& forall|m: int|
                    0 <= m < before.modes@.len() && m != mode ==> after.modes@[m]
                        == before.modes@[m]
                &&& after.paths@ == before.paths@
            },
{
}

/// Only a display that is lit alone is moved to the corner, and only if it is elsewhere.
pub proof fn law_only_a_lone_display_moves(
    topo: Topology,
    name: &str,
    rect: Option<Rect>,
    count: usize,
    out: Result<OriginPlan, CcdError>,
)
    requires
        call_ensures(source_rect_from_topology, (&topo, name), rect),
        call_ensures(active_path_count, (&topo,), count),
        call_ensures(plan_sole_origin, (&topo, name), out),
    ensures
        count != 1 ==> out == Err::<OriginPlan, _>(CcdError::NotSole { active: count }),
        count == 1 && rect is None ==> out is Err,
        out matches Ok(OriginPlan::Already) ==> count == 1 && rect->0.x == 0 && rect->0.y == 0,
        out matches Ok(OriginPlan::Move { mode }) ==> count == 1 && (rect->0.x != 0 || rect->0.y
            != 0),
{
}

/// Of the paths to a display one that is lit is taken, then one that is available, then
/// any, whatever the case of the name; without a path there is none to take.
pub proof fn law_lit_path_is_taken_first(
    all: Topology,
    name: &str,
    out: Result<usize, CcdError>,
    j: int,
)
    requires
        call_ensures(choose_single_path, (&all, name), out),
        0 <= j < all.paths@.len(),
        all.paths@[j].source_name is Ok,
        text::same_ignoring_case(all.paths@[j].source_name->Ok_0@, name@),
    ensures
        out matches Ok(i) && i < all.paths@.len() && {
            let taken = all.paths@[i as int];
            &&& is_active(all.paths@[j]) ==> is_active(taken)
            &&& all.paths@[j].target_available ==> is_active(taken) || taken.target_available
            &&& taken.source_name is Ok && text::same_ignoring_case(
                taken.source_name->Ok_0@,
                name@,
            )
            &&& is_active(all.paths@[j]) && j < i ==> false
        },
{
    assert(leads_to(all.paths@[j], name@));
}

/// A path that is lit alone leaves both modes to Windows and keeps its other flags.
pub proof fn law_lone_path_leaves_modes_open(flags: u32, fields: (u32, u32, u32))
    requires
        call_ensures(single_path_fields, (flags,), fields),
    ensures
        fields.1 == 0xffff_ffff && fields.2 == 0xffff_ffff,
        flags % 2 == 1 ==> fields.0 == flags,
        flags % 2 == 0 ==> fields.0 == flags + 1,
{
    assert(flags % 2 == 1 ==> flags | 1 == flags) by (bit_vector);
    assert(flags % 2 == 0 ==> flags | 1 == flags + 1) by (bit_vector);
}

/// What Windows is told: apply what is given, with virtual modes unless lighting one
/// display failed with them, and with or without leave to adjust; never to save it.
pub proof fn law_flags_that_windows_gets(
    relaxed: u32,
    strict: u32,
    whole: (u32, u32),
    single: (u32, u32),
)
    requires
        call_ensures(source_mode_flags, (true,), relaxed),
        call_ensures(source_mode_flags, (false,), strict),
        call_ensures(apply_flags, (), whole),
        call_ensures(auto_mode_flags, (), single),
    ensures
        strict == 0x80a0,
        relaxed == 0x84a0,
        whole.0 == strict && whole.1 == relaxed,
        single.0 == relaxed,
        single.1 == 0x04a0,
{
    assert(0x80u32 | 0x20 | 0x8000 == 0x80a0u32) by (bit_vector);
    assert(0x80u32 | 0x20 | 0x8000 | 0x400 == 0x84a0u32) by (bit_vector);
    assert(0x80u32 | 0x20 | 0x400 == 0x04a0u32) by (bit_vector);
}

/// A change of size is tried twice: first with leave to adjust the rest, then without; it
/// ends well exactly when the display is seen with the size, and a try that Windows does
/// not take at first is followed by the second.
pub proof fn law_size_is_tried_twice(
    topo: Topology,
    name: &str,
    width: u32,
    height: u32,
    fits: bool,
    fresh: SourceChange,
)
    requires
        call_ensures(source_resolution_matches, (&topo, name, width, height), fits),
        call_ensures(SourceChange::new, (), fresh),
    ensures
        fresh.phase is Before,
        forall|c: &mut SourceChange, step: SourceStep| #[trigger]
            call_ensures(SourceChange::on_topology, (c, &topo, name, width, height), step) ==> {
                let (before, after) = ((*c).phase, (*final(c)).phase);
                &&& step matches SourceStep::Apply { edit, allow_changes } ==> {
                    &&& edit.width == width && edit.height == height
                    &&& allow_changes <==> before is Before
                    &&& !allow_changes ==> before is Between
                    &&& allow_changes ==> after is Relaxed && !fits
                    &&& !allow_changes ==> after is Strict
                }
                &&& step matches SourceStep::Done { outcome } ==> after is Over
                &&& (before is Before || before is Relaxed) && fits ==> step
                    == (SourceStep::Done { outcome: Ok(()) })
                &&& before is Relaxed && !fits ==> step is Look && after is Between
                &&& before is Strict ==> (step matches SourceStep::Done { outcome } && (
                outcome is Ok <==> fits))
            },
        forall|c: &mut SourceChange, step: SourceStep| #[trigger]
            call_ensures(SourceChange::on_failure, (c,), step) ==> {
                &&& (*c).phase is Relaxed <==> step is Look
                &&& step is Look ==> (*final(c)).phase is Between
                &&& !(step is Look) ==> step == (SourceStep::Done {
                    outcome: Err(CcdError::Refused),
                })
            },
{
}

/// A display is lit alone exactly if one path is lit and a lit path is its own.
pub proof fn law_lone_display_is_checked(
    topo: Topology,
    name: &str,
    count: usize,
    found: Option<usize>,
    out: Result<(), CcdError>,
)
    requires
        call_ensures(active_path_count, (&topo,), count),
        call_ensures(find_vdd_path_idx, (&topo, name), found),
        call_ensures(check_single_display, (&topo, name), out),
    ensures
        out is Ok <==> count == 1 && found is Some,
        out is Err ==> out == Err::<(), _>(CcdError::NotKept),
{
    if let Some(i) = found {
        lemma_lit_path_unique(topo, name@, i as int);
    }
}

} // verus!
