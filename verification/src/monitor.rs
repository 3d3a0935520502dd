//! Monitor and video-mode snapshot types.
//!
//! A `MonitorHandle` is a read-only snapshot of a physical display; its
//! queries return the captured data and never fail. Two handles are treated
//! as the same monitor when they carry the same identifier, and handles are
//! totally ordered by that identifier. A `VideoMode` is a frozen value: its
//! ordering is computed from the stored fields and cannot change after
//! construction.

use core::cmp::Ordering;
use vstd::prelude::*;
use vstd::string::StringExecFns;

use crate::dpi::{PhysicalPosition, PhysicalSize};
use crate::util::{dec_digits, u64_to_string};

verus! {

/// The plain data of one fullscreen mode, without its owning monitor.
#[derive(Clone, Copy, Debug, PartialEq, Eq, Hash, Structural)]
pub struct VideoModeData {
    pub size: PhysicalSize,
    pub bit_depth: u16,
    pub refresh_rate: u16,
}

/// Handle to a monitor: an identifier plus the snapshot taken when the
/// backend enumerated displays.
#[derive(Debug)]
pub struct MonitorHandle {
    /// Stable identifier; the total order and identity of handles.
    pub id: u64,
    /// Human-readable name, absent when the monitor has disappeared.
    pub name: Option<String>,
    pub size: PhysicalSize,
    pub position: PhysicalPosition,
    /// The fullscreen modes this monitor supports.
    pub modes: Vec<VideoModeData>,
}

/// The two handles carry the same snapshot, field for field.
pub open spec fn monitor_eq(a: MonitorHandle, b: MonitorHandle) -> bool {
    &&& a.id == b.id
    &&& a.name == b.name
    &&& a.size == b.size
    &&& a.position == b.position
    &&& a.modes@ == b.modes@
}

/// The two lists carry the same monitor snapshots, position for position.
pub open spec fn monitors_seq_eq(a: Seq<MonitorHandle>, b: Seq<MonitorHandle>) -> bool {
    &&& a.len() == b.len()
    &&& forall|i: int| 0 <= i < a.len() ==> monitor_eq(#[trigger] a[i], b[i])
}

impl Clone for MonitorHandle {
    fn clone(&self) -> (r: Self)
        ensures
            monitor_eq(r, *self),
    {
        let name = match &self.name {
            Some(n) => Some(n.clone()),
            None => None,
        };
        let mut modes: Vec<VideoModeData> = Vec::new();
        let mut i: usize = 0;
        while i < self.modes.len()
            invariant
                i <= self.modes@.len(),
                modes@ == self.modes@.take(i as int),
            decreases self.modes@.len() - i,
        {
            modes.push(self.modes[i]);
            i = i + 1;
            proof {
                assert(modes@ =~= self.modes@.take(i as int));
            }
        }
        proof {
            assert(modes@ =~= self.modes@);
        }
        MonitorHandle { id: self.id, name, size: self.size, position: self.position, modes }
    }
}

impl PartialEq for MonitorHandle {
    /// Two handles are equal when they refer to the same monitor.
    fn eq(&self, other: &MonitorHandle) -> (r: bool) {
        self.id == other.id
    }
}

impl vstd::std_specs::cmp::PartialEqSpecImpl for MonitorHandle {
    open spec fn obeys_eq_spec() -> bool {
        true
    }

    open spec fn eq_spec(&self, other: &MonitorHandle) -> bool {
        self.id == other.id
    }
}

/// The three-way comparison of two integers.
pub open spec fn cmp_int(a: int, b: int) -> Ordering {
    if a < b {
        Ordering::Less
    } else if a == b {
        Ordering::Equal
    } else {
        Ordering::Greater
    }
}

/// The opposite ordering.
pub open spec fn reverse_ord(o: Ordering) -> Ordering {
    match o {
        Ordering::Less => Ordering::Greater,
        Ordering::Equal => Ordering::Equal,
        Ordering::Greater => Ordering::Less,
    }
}

/// `b` breaks the tie when `a` is `Equal`.
pub open spec fn then_ord(a: Ordering, b: Ordering) -> Ordering {
    if a is Equal {
        b
    } else {
        a
    }
}

impl PartialOrd for MonitorHandle {
    /// Handles are totally ordered by identifier.
    fn partial_cmp(&self, other: &MonitorHandle) -> (r: Option<Ordering>) {
        if self.id < other.id {
            Some(Ordering::Less)
        } else if self.id == other.id {
            Some(Ordering::Equal)
        } else {
            Some(Ordering::Greater)
        }
    }
}

impl vstd::std_specs::cmp::PartialOrdSpecImpl for MonitorHandle {
    open spec fn obeys_partial_cmp_spec() -> bool {
        true
    }

    open spec fn partial_cmp_spec(&self, other: &MonitorHandle) -> Option<Ordering> {
        Some(cmp_int(self.id as int, other.id as int))
    }
}

impl MonitorHandle {
    /// A human-readable name of the monitor, or `None` if the monitor does
    /// not exist anymore.
    pub fn name(&self) -> (r: Option<String>)
        ensures
            r == self.name,
    {
        match &self.name {
            Some(n) => Some(n.clone()),
            None => None,
        }
    }

    /// The monitor's resolution.
    pub fn size(&self) -> (r: PhysicalSize)
        ensures
            r == self.size,
    {
        self.size
    }

    /// The top-left corner position of the monitor relative to the larger
    /// full screen area.
    pub fn position(&self) -> (r: PhysicalPosition)
        ensures
            r == self.position,
    {
        self.position
    }

    /// All fullscreen video modes supported by this monitor, each bound to a
    /// handle equal to this one.
    pub fn video_modes(&self) -> (r: Vec<VideoMode>)
        ensures
            r@.len() == self.modes@.len(),
            forall|i: int|
                0 <= i < r@.len() ==> (#[trigger] r@[i]).video_mode == self.modes@[i]
                    && monitor_eq(r@[i].monitor, *self),
    {
        let mut out: Vec<VideoMode> = Vec::new();
        let mut i: usize = 0;
        while i < self.modes.len()
            invariant
                i <= self.modes@.len(),
                out@.len() == i,
                forall|j: int|
                    0 <= j < i ==> (#[trigger] out@[j]).video_mode == self.modes@[j]
                        && monitor_eq(out@[j].monitor, *self),
            decreases self.modes@.len() - i,
        {
            out.push(VideoMode { video_mode: self.modes[i], monitor: self.clone() });
            i = i + 1;
        }
        out
    }
}

/// Describes a fullscreen video mode of a monitor.
#[derive(Debug)]
pub struct VideoMode {
    pub video_mode: VideoModeData,
    pub monitor: MonitorHandle,
}

/// The documented quirk of the mode order: modes are compared first by
/// owning monitor (ascending identifier), and among modes of one monitor the
/// combined resolution/refresh-rate/bit-depth comparison is reversed, so
/// that larger resolution, then higher refresh rate, then higher bit depth
/// sorts first.
pub open spec fn video_mode_cmp(a: VideoMode, b: VideoMode) -> Ordering {
    then_ord(
        cmp_int(a.monitor.id as int, b.monitor.id as int),
        reverse_ord(
            then_ord(
                then_ord(
                    cmp_int(a.video_mode.size.width as int, b.video_mode.size.width as int),
                    cmp_int(a.video_mode.size.height as int, b.video_mode.size.height as int),
                ),
                then_ord(
                    cmp_int(a.video_mode.refresh_rate as int, b.video_mode.refresh_rate as int),
                    cmp_int(a.video_mode.bit_depth as int, b.video_mode.bit_depth as int),
                ),
            ),
        ),
    )
}

fn cmp_u64(a: u64, b: u64) -> (r: Ordering)
    ensures
        r == cmp_int(a as int, b as int),
{
    if a < b {
        Ordering::Less
    } else if a == b {
        Ordering::Equal
    } else {
        Ordering::Greater
    }
}

fn then_ord_exec(a: Ordering, b: Ordering) -> (r: Ordering)
    ensures
        r == then_ord(a, b),
{
    match a {
        Ordering::Equal => b,
        _ => a,
    }
}

fn reverse_ord_exec(o: Ordering) -> (r: Ordering)
    ensures
        r == reverse_ord(o),
{
    match o {
        Ordering::Less => Ordering::Greater,
        Ordering::Equal => Ordering::Equal,
        Ordering::Greater => Ordering::Less,
    }
}

impl Clone for VideoMode {
    fn clone(&self) -> (r: Self)
        ensures
            r.video_mode == self.video_mode,
            monitor_eq(r.monitor, self.monitor),
    {
        VideoMode { video_mode: self.video_mode, monitor: self.monitor.clone() }
    }
}

impl PartialEq for VideoMode {
    /// Two values are equal when they denote the same mode of the same
    /// monitor.
    fn eq(&self, other: &VideoMode) -> (r: bool) {
        self.video_mode == other.video_mode && self.monitor.id == other.monitor.id
    }
}

impl vstd::std_specs::cmp::PartialEqSpecImpl for VideoMode {
    open spec fn obeys_eq_spec() -> bool {
        true
    }

    open spec fn eq_spec(&self, other: &VideoMode) -> bool {
        self.video_mode == other.video_mode && self.monitor.id == other.monitor.id
    }
}

impl PartialOrd for VideoMode {
    fn partial_cmp(&self, other: &VideoMode) -> (r: Option<Ordering>) {
        let by_monitor = cmp_u64(self.monitor.id, other.monitor.id);
        let by_width = cmp_u64(self.video_mode.size.width as u64, other.video_mode.size.width as u64);
        let by_height = cmp_u64(
            self.video_mode.size.height as u64,
            other.video_mode.size.height as u64,
        );
        let by_refresh = cmp_u64(
            self.video_mode.refresh_rate as u64,
            other.video_mode.refresh_rate as u64,
        );
        let by_depth = cmp_u64(self.video_mode.bit_depth as u64, other.video_mode.bit_depth as u64);
        Some(
            then_ord_exec(
                by_monitor,
                reverse_ord_exec(
                    then_ord_exec(
                        then_ord_exec(by_width, by_height),
                        then_ord_exec(by_refresh, by_depth),
                    ),
                ),
            ),
        )
    }
}

impl vstd::std_specs::cmp::PartialOrdSpecImpl for VideoMode {
    open spec fn obeys_partial_cmp_spec() -> bool {
        true
    }

    open spec fn partial_cmp_spec(&self, other: &VideoMode) -> Option<Ordering> {
        Some(video_mode_cmp(*self, *other))
    }
}

impl VideoMode {
    /// The resolution of this video mode.
    pub fn size(&self) -> (r: PhysicalSize)
        ensures
            r == self.video_mode.size,
    {
        self.video_mode.size
    }

    /// The bit depth of this video mode, as in how many bits are available
    /// per color.
    pub fn bit_depth(&self) -> (r: u16)
        ensures
            r == self.video_mode.bit_depth,
    {
        self.video_mode.bit_depth
    }

    /// The refresh rate of this video mode, as an integer approximation.
    pub fn refresh_rate(&self) -> (r: u16)
        ensures
            r == self.video_mode.refresh_rate,
    {
        self.video_mode.refresh_rate
    }

    /// The monitor this video mode is valid for.
    pub fn monitor(&self) -> (r: MonitorHandle)
        ensures
            monitor_eq(r, self.monitor),
    {
        self.monitor.clone()
    }

    /// The mode rendered as text, e.g. a 1920 by 1080 mode at 60 Hz with 32
    /// bits per color reads "1920x1080 @ 60 Hz (32 bpp)".
    pub open spec fn display_spec(self) -> Seq<char> {
        dec_digits(self.video_mode.size.width as nat) + "x"@ + dec_digits(
            self.video_mode.size.height as nat,
        ) + " @ "@ + dec_digits(self.video_mode.refresh_rate as nat) + " Hz ("@ + dec_digits(
            self.video_mode.bit_depth as nat,
        ) + " bpp)"@
    }

    /// Renders the mode as text.
    pub fn to_display_string(&self) -> (s: String)
        ensures
            s@ == self.display_spec(),
    {
        let mut s = u64_to_string(self.video_mode.size.width as u64);
        s.append("x");
        s.append(u64_to_string(self.video_mode.size.height as u64).as_str());
        s.append(" @ ");
        s.append(u64_to_string(self.video_mode.refresh_rate as u64).as_str());
        s.append(" Hz (");
        s.append(u64_to_string(self.video_mode.bit_depth as u64).as_str());
        s.append(" bpp)");
        proof {
            assert(s@ =~= self.display_spec());
        }
        s
    }
}

/// Among two modes of the same monitor, the one with strictly larger
/// resolution sorts before (is less than) the other; for equal resolution,
/// the one with the strictly higher refresh rate sorts before.
pub proof fn lemma_video_mode_order(a: VideoMode, b: VideoMode)
    requires
        a.monitor.id == b.monitor.id,
    ensures
        a.video_mode.size.width > b.video_mode.size.width || (a.video_mode.size.width
            == b.video_mode.size.width && a.video_mode.size.height > b.video_mode.size.height)
            ==> video_mode_cmp(a, b) == Ordering::Less,
        a.video_mode.size == b.video_mode.size && a.video_mode.refresh_rate
            > b.video_mode.refresh_rate ==> video_mode_cmp(a, b) == Ordering::Less,
{
}

} // verus!
