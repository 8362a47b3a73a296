//! The window/monitor enumeration and correlation engine.
//!
//! The operating system reports displays and top-level windows through
//! callback-driven enumeration primitives; everything those callbacks can
//! observe about one enumeration pass is captured here as plain values (a
//! [`DesktopSnapshot`]). The engine then does all the real work: it builds
//! the monitor directory, filters the window list down to user-visible
//! windows with a resolvable owning process, resolves executable paths,
//! correlates each window with its primary monitor, and flags the focused
//! window.

use vstd::prelude::*;

verus! {

/// A monitor's bounding rectangle in virtual-screen coordinates, exactly as
/// the operating system's info query reports it.
#[derive(Clone, Copy, PartialEq, Eq, Structural, Debug)]
pub struct MonitorRect {
    pub left: i32,
    pub top: i32,
    pub right: i32,
    pub bottom: i32,
}

/// Pixel dimensions of one display, together with the zero-based ordinal the
/// directory builder assigned to it. The ordinal is stable only within one
/// enumeration pass; it is not a persistent identifier.
#[derive(Clone, Copy, PartialEq, Eq, Structural, Debug)]
pub struct MonitorDimensions {
    pub width: i32,
    pub height: i32,
    pub index: i32,
}

/// What one visit of the monitor enumeration observed: the opaque platform
/// handle (a correlation key, not an owned resource) and the monitor's
/// rectangle, or `None` if the info query failed.
#[derive(Clone, Copy, PartialEq, Eq, Debug)]
pub struct MonitorProbe {
    pub handle: i64,
    pub rect: Option<MonitorRect>,
}

/// One entry of the monitor directory: a platform handle paired with the
/// descriptor built for it.
#[derive(Clone, Copy, PartialEq, Eq, Structural, Debug)]
pub struct MonitorEntry {
    pub handle: i64,
    pub dims: MonitorDimensions,
}

/// A rectangle yields a usable descriptor when both extents are positive and
/// fit the descriptor's fields.
pub open spec fn rect_usable(r: MonitorRect) -> bool {
    r.left < r.right && r.top < r.bottom && r.right - r.left <= i32::MAX
        && r.bottom - r.top <= i32::MAX
}

/// The descriptor a usable rectangle yields under a given ordinal.
pub open spec fn rect_dims(r: MonitorRect, index: i32) -> MonitorDimensions
    recommends
        rect_usable(r),
{
    MonitorDimensions {
        width: (r.right - r.left) as i32,
        height: (r.bottom - r.top) as i32,
        index,
    }
}

/// A probe contributes a directory entry iff its info query succeeded with a
/// usable rectangle.
pub open spec fn probe_usable(p: MonitorProbe) -> bool {
    p.rect matches Some(r) && rect_usable(r)
}

/// How many probes of the pass contribute directory entries.
pub open spec fn usable_count(probes: Seq<MonitorProbe>) -> int
    decreases probes.len(),
{
    if probes.len() == 0 {
        0
    } else {
        usable_count(probes.drop_last()) + if probe_usable(probes.last()) {
            1int
        } else {
            0int
        }
    }
}

/// The monitor directory of an enumeration pass: one entry per usable probe,
/// in visitation order, each carrying the ordinal of its position among the
/// usable probes.
pub open spec fn spec_monitor_directory(probes: Seq<MonitorProbe>) -> Seq<MonitorEntry>
    decreases probes.len(),
{
    if probes.len() == 0 {
        Seq::empty()
    } else {
        let rest = spec_monitor_directory(probes.drop_last());
        let p = probes.last();
        if probe_usable(p) {
            rest.push(
                MonitorEntry {
                    handle: p.handle,
                    dims: rect_dims(p.rect->Some_0, rest.len() as i32),
                },
            )
        } else {
            rest
        }
    }
}

pub proof fn lemma_usable_count_bounds(probes: Seq<MonitorProbe>)
    ensures
        0 <= usable_count(probes) <= probes.len(),
    decreases probes.len(),
{
    if probes.len() > 0 {
        lemma_usable_count_bounds(probes.drop_last());
    }
}

pub proof fn lemma_directory_len(probes: Seq<MonitorProbe>)
    ensures
        spec_monitor_directory(probes).len() == usable_count(probes),
    decreases probes.len(),
{
    if probes.len() > 0 {
        lemma_directory_len(probes.drop_last());
    }
}

/// Every monitor directory has exactly one entry per probe whose info query
/// succeeded, the entries' ordinals form the contiguous range
/// `0 .. usable_count(probes)` in visitation order, and every entry carries
/// positive pixel dimensions.
pub proof fn lemma_directory_indices_contiguous(probes: Seq<MonitorProbe>)
    requires
        probes.len() <= i32::MAX,
    ensures
        spec_monitor_directory(probes).len() == usable_count(probes),
        forall|k: int|
            0 <= k < spec_monitor_directory(probes).len()
                ==> #[trigger] spec_monitor_directory(probes)[k].dims.index == k,
        forall|k: int|
            0 <= k < spec_monitor_directory(probes).len() ==> 0
                < #[trigger] spec_monitor_directory(probes)[k].dims.width && 0
                < spec_monitor_directory(probes)[k].dims.height,
    decreases probes.len(),
{
    lemma_directory_len(probes);
    if probes.len() > 0 {
        lemma_directory_indices_contiguous(probes.drop_last());
        lemma_usable_count_bounds(probes.drop_last());
    }
}

/// Build the monitor directory of one enumeration pass. Probes whose info
/// query failed, or whose rectangle has no usable extent, are silently
/// skipped: the directory is best effort, not a strict inventory.
pub fn build_monitor_directory(probes: &Vec<MonitorProbe>) -> (dir: Vec<MonitorEntry>)
    requires
        probes@.len() <= i32::MAX,
    ensures
        dir@ == spec_monitor_directory(probes@),
        dir@.len() == usable_count(probes@),
{
    let mut dir: Vec<MonitorEntry> = Vec::new();
    let mut i: usize = 0;
    while i < probes.len()
        invariant
            i <= probes@.len() <= i32::MAX,
            dir@ == spec_monitor_directory(probes@.take(i as int)),
            dir@.len() == usable_count(probes@.take(i as int)),
            dir@.len() <= i,
        decreases probes@.len() - i,
    {
        let p = probes[i];
        proof {
            assert(probes@.take(i + 1).drop_last() =~= probes@.take(i as int));
            assert(probes@.take(i + 1).last() == probes@[i as int]);
        }
        if let Some(r) = p.rect {
            let w: i64 = r.right as i64 - r.left as i64;
            let h: i64 = r.bottom as i64 - r.top as i64;
            if 0 < w && w <= i32::MAX as i64 && 0 < h && h <= i32::MAX as i64 {
                let entry = MonitorEntry {
                    handle: p.handle,
                    dims: MonitorDimensions {
                        width: w as i32,
                        height: h as i32,
                        index: dir.len() as i32,
                    },
                };
                dir.push(entry);
            }
        }
        i = i + 1;
    }
    proof {
        assert(probes@.take(probes@.len() as int) =~= probes@);
    }
    dir
}

/// The descriptor used when a window's monitor can be resolved neither
/// through the directory nor through a direct info query.
pub open spec fn default_monitor() -> MonitorDimensions {
    MonitorDimensions { width: 1920, height: 1080, index: 0 }
}

/// The first directory entry recorded for a handle, if any.
pub open spec fn spec_find_monitor(dir: Seq<MonitorEntry>, handle: i64) -> Option<MonitorDimensions>
    decreases dir.len(),
{
    if dir.len() == 0 {
        None
    } else if dir[0].handle == handle {
        Some(dir[0].dims)
    } else {
        spec_find_monitor(dir.drop_first(), handle)
    }
}

/// Resolution of one window's primary monitor and multi-monitor flag.
///
/// `spans_monitors` is the operating system's own "no single monitor fully
/// contains this window" signal; `nearest` is the handle its never-null
/// nearest-monitor query returned; `direct` is what a direct info query on
/// that handle would report. The directory match wins; otherwise a usable
/// direct query synthesizes a descriptor with ordinal 0; otherwise the
/// hard-coded default applies and the span flag is overridden to `false`.
pub open spec fn spec_window_monitor(
    spans_monitors: bool,
    nearest: i64,
    dir: Seq<MonitorEntry>,
    direct: Option<MonitorRect>,
) -> (MonitorDimensions, bool) {
    match spec_find_monitor(dir, nearest) {
        Some(dims) => (dims, spans_monitors),
        None => match direct {
            Some(r) => if rect_usable(r) {
                (rect_dims(r, 0), spans_monitors)
            } else {
                (default_monitor(), false)
            },
            None => (default_monitor(), false),
        },
    }
}

/// A directory lookup succeeds exactly when some entry carries the handle,
/// and then yields the dimensions of the first such entry.
pub proof fn lemma_find_monitor_characterized(dir: Seq<MonitorEntry>, handle: i64)
    ensures
        spec_find_monitor(dir, handle) is Some <==> exists|j: int|
            0 <= j < dir.len() && #[trigger] dir[j].handle == handle,
        spec_find_monitor(dir, handle) matches Some(dims) ==> exists|j: int|
            0 <= j < dir.len() && #[trigger] dir[j].handle == handle && dir[j].dims == dims,
    decreases dir.len(),
{
    if dir.len() > 0 && dir[0].handle != handle {
        lemma_find_monitor_characterized(dir.drop_first(), handle);
        assert forall|j: int|
            0 <= j < dir.len() && #[trigger] dir[j].handle == handle implies spec_find_monitor(
            dir,
            handle,
        ) is Some by {
            assert(dir.drop_first()[j - 1].handle == handle);
        }
    }
}

/// An emitted window's monitor is never absent: it is a directory match, a
/// descriptor synthesized from a direct info query, or the hard-coded
/// default.
pub proof fn lemma_monitor_always_resolved(
    spans_monitors: bool,
    nearest: i64,
    dir: Seq<MonitorEntry>,
    direct: Option<MonitorRect>,
)
    ensures
        ({
            let dims = spec_window_monitor(spans_monitors, nearest, dir, direct).0;
            (exists|j: int|
                0 <= j < dir.len() && #[trigger] dir[j].handle == nearest && dir[j].dims == dims)
                || (direct matches Some(r) && rect_usable(r) && dims == rect_dims(r, 0)) || dims
                == default_monitor()
        }),
{
    lemma_find_monitor_characterized(dir, nearest);
}

/// When the directory has no entry for the nearest monitor and the direct
/// info query fails too, the multi-monitor flag reports `false` whatever the
/// operating system's span signal said.
pub proof fn lemma_fallback_overrides_span_flag(
    spans_monitors: bool,
    nearest: i64,
    dir: Seq<MonitorEntry>,
    direct: Option<MonitorRect>,
)
    requires
        forall|j: int| 0 <= j < dir.len() ==> #[trigger] dir[j].handle != nearest,
        !(direct matches Some(r) && rect_usable(r)),
    ensures
        spec_window_monitor(spans_monitors, nearest, dir, direct)
            == (default_monitor(), false),
{
    lemma_find_monitor_characterized(dir, nearest);
}

/// Resolve a window's primary monitor descriptor and multi-monitor flag.
///
/// `spans_monitors` is the operating system's "window is not fully contained
/// by a single monitor" signal, `nearest` the handle of its nearest-monitor
/// answer, and `direct` the rectangle a direct info query on that handle
/// reported (`None` if it failed). A lookup miss falls back to the direct
/// rectangle with ordinal 0; if that fails too, the hard-coded default
/// descriptor applies and the span flag is forced to `false`.
pub fn get_window_monitor_info(
    spans_monitors: bool,
    nearest: i64,
    dir: &Vec<MonitorEntry>,
    direct: &Option<MonitorRect>,
) -> (r: (MonitorDimensions, bool))
    ensures
        r == spec_window_monitor(spans_monitors, nearest, dir@, *direct),
{
    let mut j: usize = 0;
    proof {
        assert(dir@.skip(0) =~= dir@);
    }
    while j < dir.len()
        invariant
            j <= dir@.len(),
            spec_find_monitor(dir@, nearest) == spec_find_monitor(
                dir@.skip(j as int),
                nearest,
            ),
        decreases dir@.len() - j,
    {
        let entry = dir[j];
        proof {
            assert(dir@.skip(j as int)[0] == dir@[j as int]);
            assert(dir@.skip(j as int).drop_first() =~= dir@.skip(j + 1));
        }
        if entry.handle == nearest {
            return (entry.dims, spans_monitors);
        }
        j = j + 1;
    }
    if let Some(r) = *direct {
        let w: i64 = r.right as i64 - r.left as i64;
        let h: i64 = r.bottom as i64 - r.top as i64;
        if 0 < w && w <= i32::MAX as i64 && 0 < h && h <= i32::MAX as i64 {
            return (MonitorDimensions { width: w as i32, height: h as i32, index: 0 }, spans_monitors);
        }
    }
    (MonitorDimensions { width: 1920, height: 1080, index: 0 }, false)
}

/// What a UTF-16 sequence decodes to, invalid data replaced with U+FFFD.
pub uninterp spec fn utf16_lossy(units: Seq<u16>) -> Seq<char>;

/// Relies on String::from_utf16_lossy: it decodes UTF-16 code units,
/// replacing invalid data with U+FFFD; the result depends on the code units
/// alone, and an empty slice decodes to the empty string.
#[verifier::external_body]
fn utf16_to_string(units: &Vec<u16>) -> (r: String)
    ensures
        r@ == utf16_lossy(units@),
        units@.len() == 0 ==> r@.len() == 0,
{
    String::from_utf16_lossy(units.as_slice())
}

/// What fits in a bounded buffer of `cap` code units: the whole sequence, or
/// its first `cap` units when it is longer.
pub open spec fn bounded(units: Seq<u16>, cap: int) -> Seq<u16> {
    if units.len() <= cap {
        units
    } else {
        units.take(cap)
    }
}

/// Copy at most `cap` leading code units, as a bounded read buffer would.
fn take_units(units: &Vec<u16>, cap: usize) -> (r: Vec<u16>)
    ensures
        r@ == bounded(units@, cap as int),
{
    let n: usize = if units.len() < cap {
        units.len()
    } else {
        cap
    };
    let mut r: Vec<u16> = Vec::new();
    let mut i: usize = 0;
    while i < n
        invariant
            i <= n,
            n <= units@.len(),
            r@ == units@.take(i as int),
        decreases n - i,
    {
        r.push(units[i]);
        proof {
            assert(units@.take(i + 1) =~= units@.take(i as int).push(units@[i as int]));
        }
        i = i + 1;
    }
    proof {
        assert(bounded(units@, cap as int) =~= units@.take(n as int));
    }
    r
}

/// The path separators of the platform's path syntax.
pub open spec fn is_path_separator(u: u16) -> bool {
    u == 0x5Cu16 || u == 0x2Fu16
}

/// The position right after the last path separator: where the base file
/// name of a path begins (0 when the path holds no separator).
pub open spec fn basename_start(units: Seq<u16>) -> int
    decreases units.len(),
{
    if units.len() == 0 {
        0
    } else if is_path_separator(units.last()) {
        units.len() as int
    } else {
        basename_start(units.drop_last())
    }
}

pub proof fn lemma_basename_start_bounds(units: Seq<u16>)
    ensures
        0 <= basename_start(units) <= units.len(),
    decreases units.len(),
{
    if units.len() > 0 && !is_path_separator(units.last()) {
        lemma_basename_start_bounds(units.drop_last());
    }
}

fn find_basename_start(units: &Vec<u16>) -> (j: usize)
    ensures
        j == basename_start(units@),
{
    let mut j: usize = units.len();
    proof {
        assert(units@.take(units@.len() as int) =~= units@);
    }
    while j > 0
        invariant
            j <= units@.len(),
            basename_start(units@) == basename_start(units@.take(j as int)),
        decreases j,
    {
        let u = units[j - 1];
        proof {
            assert(units@.take(j as int).last() == units@[j - 1]);
        }
        if u == 0x5Cu16 || u == 0x2Fu16 {
            return j;
        }
        proof {
            assert(units@.take(j as int).drop_last() =~= units@.take(j - 1));
        }
        j = j - 1;
    }
    j
}

/// Copy the code units from `start` on.
fn skip_units(units: &Vec<u16>, start: usize) -> (r: Vec<u16>)
    requires
        start <= units@.len(),
    ensures
        r@ == units@.skip(start as int),
{
    let mut r: Vec<u16> = Vec::new();
    let mut i: usize = start;
    while i < units.len()
        invariant
            start <= i <= units@.len(),
            r@ == units@.subrange(start as int, i as int),
        decreases units@.len() - i,
    {
        r.push(units[i]);
        proof {
            assert(units@.subrange(start as int, i + 1) =~= units@.subrange(
                start as int,
                i as int,
            ).push(units@[i as int]));
        }
        i = i + 1;
    }
    r
}

/// What executable-path resolution yields: `(base file name, full path)`.
///
/// `image_path` is the owning process's image path as the operating system
/// reported it into a bounded buffer of 1024 code units, or `None` when the
/// process could not be opened or queried (it may have exited, or access was
/// denied). Every failure, and a zero-length answer, degrades to a pair of
/// empty strings; it never aborts the window.
pub open spec fn spec_exe_paths(image_path: Option<Seq<u16>>) -> (Seq<char>, Seq<char>) {
    match image_path {
        None => (Seq::empty(), Seq::empty()),
        Some(units) => {
            let cut = bounded(units, 1024);
            if cut.len() == 0 {
                (Seq::empty(), Seq::empty())
            } else {
                (utf16_lossy(cut.skip(basename_start(cut))), utf16_lossy(cut))
            }
        },
    }
}

/// The view of an optional raw code-unit buffer.
pub open spec fn opt_units(p: Option<Vec<u16>>) -> Option<Seq<u16>> {
    match p {
        Some(v) => Some(v@),
        None => None,
    }
}

/// Resolve the base file name and full path of a process's executable from
/// the raw image-path query answer, per [`spec_exe_paths`].
pub fn get_process_executable_path(image_path: &Option<Vec<u16>>) -> (r: (String, String))
    ensures
        (r.0@, r.1@) == spec_exe_paths(opt_units(*image_path)),
{
    match image_path {
        None => (String::new(), String::new()),
        Some(units) => {
            let cut = take_units(units, 1024);
            if cut.len() == 0 {
                (String::new(), String::new())
            } else {
                let start = find_basename_start(&cut);
                proof {
                    lemma_basename_start_bounds(cut@);
                }
                let base_units = skip_units(&cut, start);
                let full = utf16_to_string(&cut);
                let base = utf16_to_string(&base_units);
                (base, full)
            }
        },
    }
}

/// What one visit of the window enumeration observed about a top-level
/// window, as plain values: the handle (sign-extended bit pattern of the
/// opaque platform handle), the visibility flag, the raw title and class
/// text, the owning process id (0 when unresolvable), the raw image-path
/// query answer, and the two monitor queries described at
/// [`spec_window_monitor`].
#[derive(Clone, Debug)]
pub struct WindowProbe {
    pub hwnd: i64,
    pub visible: bool,
    pub title: Vec<u16>,
    pub class_name: Vec<u16>,
    pub pid: u32,
    pub image_path: Option<Vec<u16>>,
    pub spans_monitors: bool,
    pub nearest_monitor: i64,
    pub nearest_rect: Option<MonitorRect>,
}

/// The mathematical shape of a [`WindowProbe`].
#[verifier::ext_equal]
pub ghost struct WindowProbeView {
    pub hwnd: i64,
    pub visible: bool,
    pub title: Seq<u16>,
    pub class_name: Seq<u16>,
    pub pid: u32,
    pub image_path: Option<Seq<u16>>,
    pub spans_monitors: bool,
    pub nearest_monitor: i64,
    pub nearest_rect: Option<MonitorRect>,
}

impl View for WindowProbe {
    type V = WindowProbeView;

    open spec fn view(&self) -> WindowProbeView {
        WindowProbeView {
            hwnd: self.hwnd,
            visible: self.visible,
            title: self.title@,
            class_name: self.class_name@,
            pid: self.pid,
            image_path: opt_units(self.image_path),
            spans_monitors: self.spans_monitors,
            nearest_monitor: self.nearest_monitor,
            nearest_rect: self.nearest_rect,
        }
    }
}

/// One visible top-level window at enumeration time.
#[derive(Clone, Debug)]
pub struct WindowInfo {
    pub class_name: String,
    pub executable: String,
    pub title: String,
    pub pid: u32,
    pub product_name: Option<String>,
    pub hwnd: i64,
    pub full_exe: String,
    pub monitor_dimensions: MonitorDimensions,
    pub intersects_multiple: bool,
    pub focused: bool,
    pub arguments: Vec<String>,
}

/// The mathematical shape of a [`WindowInfo`].
#[verifier::ext_equal]
pub ghost struct WindowInfoView {
    pub class_name: Seq<char>,
    pub executable: Seq<char>,
    pub title: Seq<char>,
    pub pid: u32,
    pub product_name: Option<Seq<char>>,
    pub hwnd: i64,
    pub full_exe: Seq<char>,
    pub monitor_dimensions: MonitorDimensions,
    pub intersects_multiple: bool,
    pub focused: bool,
    pub arguments: Seq<Seq<char>>,
}

impl View for WindowInfo {
    type V = WindowInfoView;

    open spec fn view(&self) -> WindowInfoView {
        WindowInfoView {
            class_name: self.class_name@,
            executable: self.executable@,
            title: self.title@,
            pid: self.pid,
            product_name: match self.product_name {
                Some(s) => Some(s@),
                None => None,
            },
            hwnd: self.hwnd,
            full_exe: self.full_exe@,
            monitor_dimensions: self.monitor_dimensions,
            intersects_multiple: self.intersects_multiple,
            focused: self.focused,
            arguments: self.arguments@.map_values(|s: String| s@),
        }
    }
}

/// The descriptor built for one window probe (which the walk emits only when
/// the window is visible and its process id resolved to a nonzero value).
///
/// The title is read through a bounded buffer of 512 code units, the class
/// name through one of 256; both truncate silently. `product_name` is
/// reserved and always absent. `arguments` holds exactly the resolved full
/// executable path when resolution succeeded, else nothing. `focused` holds
/// iff the handle equals the foreground handle captured at enumeration
/// start.
pub open spec fn spec_window_info(
    w: WindowProbeView,
    dir: Seq<MonitorEntry>,
    foreground: i64,
) -> WindowInfoView {
    let resolved = spec_window_monitor(w.spans_monitors, w.nearest_monitor, dir, w.nearest_rect);
    let paths = spec_exe_paths(w.image_path);
    WindowInfoView {
        class_name: utf16_lossy(bounded(w.class_name, 256)),
        executable: paths.0,
        title: utf16_lossy(bounded(w.title, 512)),
        pid: w.pid,
        product_name: None,
        hwnd: w.hwnd,
        full_exe: paths.1,
        monitor_dimensions: resolved.0,
        intersects_multiple: resolved.1,
        focused: w.hwnd == foreground,
        arguments: if paths.1.len() > 0 {
            seq![paths.1]
        } else {
            Seq::empty()
        },
    }
}

/// Build the descriptor of one window probe, or skip the window: `None`
/// exactly when it is invisible or its process id is 0.
pub fn build_window_info(probe: &WindowProbe, dir: &Vec<MonitorEntry>, foreground: i64) -> (r:
    Option<WindowInfo>)
    ensures
        r is Some <==> probe.visible && probe.pid != 0,
        r matches Some(w) ==> w@ == spec_window_info(probe@, dir@, foreground),
{
    if !probe.visible {
        return None;
    }
    if probe.pid == 0 {
        return None;
    }
    let title_units = take_units(&probe.title, 512);
    let title = utf16_to_string(&title_units);
    let class_units = take_units(&probe.class_name, 256);
    let class_name = utf16_to_string(&class_units);
    let (executable, full_exe) = get_process_executable_path(&probe.image_path);
    let focused = probe.hwnd == foreground;
    let (monitor_dimensions, intersects_multiple) = get_window_monitor_info(
        probe.spans_monitors,
        probe.nearest_monitor,
        dir,
        &probe.nearest_rect,
    );
    let mut arguments: Vec<String> = Vec::new();
    if !full_exe.as_str().is_empty() {
        arguments.push(full_exe.clone());
    }
    let w = WindowInfo {
        class_name,
        executable,
        title,
        pid: probe.pid,
        product_name: None,
        hwnd: probe.hwnd,
        full_exe,
        monitor_dimensions,
        intersects_multiple,
        focused,
        arguments,
    };
    proof {
        assert(w@.arguments =~= spec_window_info(probe@, dir@, foreground).arguments);
        assert(w@ =~= spec_window_info(probe@, dir@, foreground));
    }
    Some(w)
}

/// The one failure `get_all_windows` surfaces: the window-walk primitive
/// itself could not be started. Per-window and per-field failures are
/// absorbed and degrade to documented defaults instead.
#[derive(Clone, Copy, PartialEq, Eq, Structural, Debug)]
pub enum EnumerationError {
    EnumerationStartFailure,
}

/// Everything one enumeration pass observed of the operating system, as
/// plain values: the foreground window handle captured at the very start,
/// the monitor probes in visitation order, and the window probes in
/// z-order — or `None` for the windows when the walk could not be started.
#[derive(Clone, Debug)]
pub struct DesktopSnapshot {
    pub foreground: i64,
    pub monitors: Vec<MonitorProbe>,
    pub windows: Option<Vec<WindowProbe>>,
}

/// The views of a sequence of window probes.
pub open spec fn probe_views(ws: Seq<WindowProbe>) -> Seq<WindowProbeView> {
    ws.map_values(|p: WindowProbe| p@)
}

/// The views of a sequence of window descriptors.
pub open spec fn window_views(ws: Seq<WindowInfo>) -> Seq<WindowInfoView> {
    ws.map_values(|w: WindowInfo| w@)
}

/// Whether the walk emits a descriptor for a probe: the window must be
/// visible and its owning process id must have resolved to a nonzero value.
pub open spec fn passes_filter(w: WindowProbeView) -> bool {
    w.visible && w.pid != 0
}

/// How many probes of a pass get a descriptor.
pub open spec fn passing_count(ws: Seq<WindowProbeView>) -> int
    decreases ws.len(),
{
    if ws.len() == 0 {
        0
    } else {
        passing_count(ws.drop_last()) + if passes_filter(ws.last()) {
            1int
        } else {
            0int
        }
    }
}

/// The descriptor sequence of one enumeration pass: one descriptor per
/// probe that is visible and has a nonzero process id, in visitation order.
pub open spec fn spec_windows(
    ws: Seq<WindowProbeView>,
    dir: Seq<MonitorEntry>,
    foreground: i64,
) -> Seq<WindowInfoView>
    decreases ws.len(),
{
    if ws.len() == 0 {
        Seq::empty()
    } else {
        let rest = spec_windows(ws.drop_last(), dir, foreground);
        let w = ws.last();
        if passes_filter(w) {
            rest.push(spec_window_info(w, dir, foreground))
        } else {
            rest
        }
    }
}

/// The result holds exactly the windows that pass the filter: it has one
/// descriptor per visible probe with a nonzero process id, and every
/// descriptor originates from such a probe. In particular no invisible
/// window and no window with process id 0 contributes a descriptor.
pub proof fn lemma_emitted_windows_pass_filter(
    ws: Seq<WindowProbeView>,
    dir: Seq<MonitorEntry>,
    foreground: i64,
)
    ensures
        spec_windows(ws, dir, foreground).len() == passing_count(ws),
        forall|k: int|
            0 <= k < spec_windows(ws, dir, foreground).len() ==> exists|j: int|
                0 <= j < ws.len() && ws[j].visible && ws[j].pid != 0 && #[trigger] spec_windows(
                    ws,
                    dir,
                    foreground,
                )[k] == spec_window_info(ws[j], dir, foreground),
    decreases ws.len(),
{
    if ws.len() > 0 {
        lemma_emitted_windows_pass_filter(ws.drop_last(), dir, foreground);
        let rest = spec_windows(ws.drop_last(), dir, foreground);
        assert forall|k: int|
            0 <= k < spec_windows(ws, dir, foreground).len() implies exists|j: int|
            0 <= j < ws.len() && ws[j].visible && ws[j].pid != 0 && #[trigger] spec_windows(
                ws,
                dir,
                foreground,
            )[k] == spec_window_info(ws[j], dir, foreground) by {
            if k < rest.len() {
                let j = choose|j: int|
                    0 <= j < ws.drop_last().len() && ws.drop_last()[j].visible
                        && ws.drop_last()[j].pid != 0 && rest[k] == spec_window_info(
                        ws.drop_last()[j],
                        dir,
                        foreground,
                    );
                assert(ws[j] == ws.drop_last()[j]);
                assert(spec_windows(ws, dir, foreground)[k] == rest[k]);
            } else {
                let j = ws.len() - 1;
                assert(ws[j] == ws.last());
                assert(spec_windows(ws, dir, foreground)[k] == spec_window_info(
                    ws[j],
                    dir,
                    foreground,
                ));
            }
        }
    }
}

/// Equality of two descriptors on every field but `focused`.
pub open spec fn eq_except_focused(a: WindowInfoView, b: WindowInfoView) -> bool {
    a.class_name == b.class_name && a.executable == b.executable && a.title == b.title && a.pid
        == b.pid && a.product_name == b.product_name && a.hwnd == b.hwnd && a.full_exe
        == b.full_exe && a.monitor_dimensions == b.monitor_dimensions && a.intersects_multiple
        == b.intersects_multiple && a.arguments == b.arguments
}

/// Two enumeration passes over the same probes and the same directory yield
/// element-wise equal descriptor sequences, whatever the foreground handle
/// was each time: only `focused` may differ. With the foreground unchanged
/// too, the passes agree exactly, since the result is a function of the
/// snapshot alone.
pub proof fn lemma_enumeration_stable_across_calls(
    ws: Seq<WindowProbeView>,
    dir: Seq<MonitorEntry>,
    foreground1: i64,
    foreground2: i64,
)
    ensures
        spec_windows(ws, dir, foreground1).len() == spec_windows(ws, dir, foreground2).len(),
        forall|k: int|
            0 <= k < spec_windows(ws, dir, foreground1).len() ==> eq_except_focused(
                #[trigger] spec_windows(ws, dir, foreground1)[k],
                spec_windows(ws, dir, foreground2)[k],
            ),
    decreases ws.len(),
{
    if ws.len() > 0 {
        lemma_enumeration_stable_across_calls(ws.drop_last(), dir, foreground1, foreground2);
    }
}

/// Produce the ordered window descriptors of one enumeration pass.
///
/// Fails with [`EnumerationError::EnumerationStartFailure`] exactly when the
/// window walk could not be started (zero windows found is a valid empty
/// result). Otherwise the result is [`spec_windows`] over the probes, with
/// the monitor directory built first from the monitor probes.
pub fn get_all_windows(snapshot: &DesktopSnapshot) -> (r: Result<
    Vec<WindowInfo>,
    EnumerationError,
>)
    requires
        snapshot.monitors@.len() <= i32::MAX,
    ensures
        r is Ok <==> snapshot.windows is Some,
        r matches Ok(v) ==> window_views(v@) == spec_windows(
            probe_views(snapshot.windows->Some_0@),
            spec_monitor_directory(snapshot.monitors@),
            snapshot.foreground,
        ),
        r matches Err(e) ==> e == EnumerationError::EnumerationStartFailure,
{
    let windows = match &snapshot.windows {
        None => {
            return Err(EnumerationError::EnumerationStartFailure);
        },
        Some(ws) => ws,
    };
    let dir = build_monitor_directory(&snapshot.monitors);
    let mut result: Vec<WindowInfo> = Vec::new();
    let mut i: usize = 0;
    while i < windows.len()
        invariant
            i <= windows@.len(),
            dir@ == spec_monitor_directory(snapshot.monitors@),
            window_views(result@) == spec_windows(
                probe_views(windows@.take(i as int)),
                dir@,
                snapshot.foreground,
            ),
        decreases windows@.len() - i,
    {
        let probe = &windows[i];
        let built = build_window_info(probe, &dir, snapshot.foreground);
        proof {
            assert(probe_views(windows@.take(i + 1)).drop_last() =~= probe_views(
                windows@.take(i as int),
            ));
            assert(probe_views(windows@.take(i + 1)).last() == windows@[i as int]@);
        }
        let ghost prev = result@;
        match built {
            Some(info) => {
                result.push(info);
                proof {
                    assert(window_views(result@) =~= window_views(prev).push(info@));
                }
            },
            None => {},
        }
        i = i + 1;
    }
    proof {
        assert(windows@.take(windows@.len() as int) =~= windows@);
    }
    Ok(result)
}

} // verus!
