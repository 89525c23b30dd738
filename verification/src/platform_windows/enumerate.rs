//! Display and window listings.
//!
//! The system reports outputs and top-level windows one by one; what is listed
//! of them, under which id, and which of them an id stands for, is decided
//! here.
use vstd::prelude::*;

use crate::error::{PinrayError, Result};
use crate::source::{
    bad_window_id, display_not_found, list_sources, pick_display, AudioDeviceSource, CaptureSource,
    DisplaySource, SourceId, WindowSource,
};
use crate::text::{joined, parse_isize, piece_behind_last, signed_decimal_text, strip_prefix};

verus! {

pub const SYSTEM_AUDIO_ID: &'static str = "audio:system-mix";

/// What `String::from_utf16_lossy` makes of UTF-16 code units.
pub uninterp spec fn utf16_lossy(units: Seq<u16>) -> Seq<char>;

/// Calls `String::from_utf16_lossy`, which decodes the same units to the same
/// text every time.
#[verifier::external_body]
fn decode_utf16(units: &[u16]) -> (text: String)
    ensures
        text@ == utf16_lossy(units@),
{
    String::from_utf16_lossy(units)
}

/// The units before the first zero, or all of them if there is none.
pub open spec fn before_nul(units: Seq<u16>) -> Seq<u16>
    decreases units.len(),
{
    if units.len() == 0 {
        units
    } else {
        let shorter = before_nul(units.drop_last());
        if shorter.len() < units.len() - 1 || units.last() == 0 {
            shorter
        } else {
            units
        }
    }
}

/// How many units stand before the first zero.
pub fn nul_position(units: &[u16]) -> (len: usize)
    ensures
        len <= units@.len(),
        units@.subrange(0, len as int) == before_nul(units@),
        forall|i: int| 0 <= i < len ==> units@[i] != 0,
        len < units@.len() ==> units@[len as int] == 0,
{
    let total: usize = units.len();
    let mut i: usize = 0;
    assert(units@.subrange(0, 0) =~= before_nul(units@.subrange(0, 0)));
    while i < total && units[i] != 0
        invariant
            i <= total == units@.len(),
            forall|j: int| 0 <= j < i ==> units@[j] != 0,
            before_nul(units@.subrange(0, i as int)) == units@.subrange(0, i as int),
        decreases total - i,
    {
        assert(units@.subrange(0, i + 1).drop_last() =~= units@.subrange(0, i as int));
        i += 1;
    }
    proof {
        lemma_nul_ends_the_text(units@, i as int, units@.len() as int);
        assert(units@.subrange(0, units@.len() as int) =~= units@);
    }
    i
}

/// What stands behind the first zero changes nothing.
proof fn lemma_nul_ends_the_text(units: Seq<u16>, nul: int, until: int)
    requires
        0 <= nul <= until <= units.len(),
        nul < units.len() ==> units[nul] == 0,
        before_nul(units.subrange(0, nul)) == units.subrange(0, nul),
    ensures
        before_nul(units.subrange(0, until)) == units.subrange(0, nul),
    decreases until,
{
    if nul < until {
        lemma_nul_ends_the_text(units, nul, until - 1);
        assert(units.subrange(0, until).drop_last() =~= units.subrange(0, until - 1));
    }
}

/// The text in a fixed buffer, up to its first zero unit.
pub fn utf16_to_string(buffer: &[u16]) -> (text: String)
    ensures
        text@ == utf16_lossy(before_nul(buffer@)),
{
    let len: usize = nul_position(buffer);
    decode_utf16(vstd::slice::slice_subrange(buffer, 0, len))
}

/// An output as the system describes it.
#[derive(Debug)]
pub struct OutputReport {
    /// The device name, with its buffer's padding.
    pub device_name: Vec<u16>,
    pub left: i32,
    pub top: i32,
    pub right: i32,
    pub bottom: i32,
    /// The effective resolution of the monitor in dots per inch.
    pub dpi: u32,
    pub attached_to_desktop: bool,
}

impl OutputReport {
    /// The desktop coordinates span a distance that fits its type, and so does
    /// the scale.
    pub open spec fn is_measurable(&self) -> bool {
        &&& i32::MIN <= self.right - self.left <= i32::MAX
        &&& i32::MIN <= self.bottom - self.top <= i32::MAX
        &&& self.dpi * 1000 <= u32::MAX
    }
}

/// The distance from one edge to the other, nothing for edges out of order.
pub open spec fn extent(from: i32, to: i32) -> int {
    crate::numbers::larger(to - from, 0)
}

/// How an output is listed under `name`: at 96 dots per inch the scale is one,
/// and the display at the desktop's origin is the primary one.
pub open spec fn display_listing(report: OutputReport, name: Seq<char>) -> crate::source::DisplayView {
    crate::source::DisplayView {
        id: "display:"@ + name,
        name,
        width: extent(report.left, report.right),
        height: extent(report.top, report.bottom),
        scale_factor_milli: (report.dpi as int) * 1000 / 96,
        is_primary: report.left == 0 && report.top == 0,
    }
}

/// Lists an output under the name that its device name decodes to. An output
/// outside the desktop is not listed.
pub fn display_source(report: &OutputReport) -> (source: Option<DisplaySource>)
    requires
        report.attached_to_desktop ==> report.is_measurable(),
    ensures
        source is Some <==> report.attached_to_desktop,
        source matches Some(display) ==> display@ == display_listing(
            *report,
            utf16_lossy(before_nul(report.device_name@)),
        ),
{
    if !report.attached_to_desktop {
        return None;
    }
    let name: String = utf16_to_string(report.device_name.as_slice());
    Some(named_display(report, name))
}

/// Lists an output of the desktop under `name`.
pub fn named_display(report: &OutputReport, name: String) -> (display: DisplaySource)
    requires
        report.is_measurable(),
    ensures
        display@ == display_listing(*report, name@),
{
    let width: i32 = report.right - report.left;
    let height: i32 = report.bottom - report.top;
    let display: DisplaySource = DisplaySource {
        id: SourceId::new(joined("display:", name.as_str())),
        name,
        width: if width >= 0 { width as u32 } else { 0 },
        height: if height >= 0 { height as u32 } else { 0 },
        scale_factor_milli: report.dpi * 1000 / 96,
        is_primary: report.left == 0 && report.top == 0,
    };
    display
}

/// The outputs that are listed, by their place among the reports.
pub open spec fn desktop_outputs(reports: Seq<OutputReport>) -> Seq<int>
    decreases reports.len(),
{
    if reports.len() == 0 {
        Seq::empty()
    } else {
        let before = desktop_outputs(reports.drop_last());
        if reports.last().attached_to_desktop {
            before.push(reports.len() - 1)
        } else {
            before
        }
    }
}

/// The displays of the desktop, each beside the place of its report.
#[derive(Debug)]
pub struct DisplayTable {
    pub sources: Vec<DisplaySource>,
    pub outputs: Vec<usize>,
}

impl DisplayTable {
    /// The table lists exactly the outputs of the desktop, in the order of
    /// their reports.
    pub open spec fn lists(&self, reports: Seq<OutputReport>) -> bool {
        &&& self.sources@.len() == self.outputs@.len()
        &&& self.outputs@.len() == desktop_outputs(reports).len()
        &&& forall|i: int|
            0 <= i < self.outputs@.len() ==> {
                &&& (#[trigger] self.outputs@[i]) < reports.len()
                &&& self.outputs@[i] == desktop_outputs(reports)[i]
                &&& self.sources@[i]@ == display_listing(
                    reports[self.outputs@[i] as int],
                    utf16_lossy(before_nul(reports[self.outputs@[i] as int].device_name@)),
                )
            }
    }
}

/// Lists the displays of the desktop.
pub fn enumerate_displays(reports: &Vec<OutputReport>) -> (table: DisplayTable)
    requires
        forall|i: int|
            0 <= i < reports@.len() && (#[trigger] reports@[i]).attached_to_desktop
                ==> reports@[i].is_measurable(),
    ensures
        table.lists(reports@),
{
    let mut table: DisplayTable = DisplayTable { sources: Vec::new(), outputs: Vec::new() };
    let mut i: usize = 0;
    while i < reports.len()
        invariant
            i <= reports@.len(),
            forall|j: int|
                0 <= j < reports@.len() && (#[trigger] reports@[j]).attached_to_desktop
                    ==> reports@[j].is_measurable(),
            table.lists(reports@.subrange(0, i as int)),
        decreases reports@.len() - i,
    {
        assert(reports@.subrange(0, i + 1).drop_last() =~= reports@.subrange(0, i as int));
        if let Some(display) = display_source(&reports[i]) {
            table.sources.push(display);
            table.outputs.push(i);
        }
        i += 1;
    }
    assert(reports@.subrange(0, reports@.len() as int) =~= reports@);
    table
}

/// Resolves a display id (or `"auto"` for the primary display) to its place
/// among the displays of the desktop.
pub fn find_display(displays: &Vec<DisplaySource>, id: &SourceId) -> (reply: Result<usize>)
    ensures
        displays@.len() == 0 ==> crate::error::is_unavailable(reply, "no displays found"@),
        reply matches Ok(index) ==> crate::source::picks(displays@, id.0@, index as int),
        displays@.len() > 0 && reply is Err ==> {
            &&& forall|index: int| !crate::source::picks(displays@, id.0@, index)
            &&& crate::source::picks_nothing(displays@, id.0@)
            &&& crate::error::is_invalid_config(reply, "display source not found: "@ + id.0@)
        },
{
    if displays.len() == 0 {
        return Err(PinrayError::BackendUnavailable("no displays found".to_owned()));
    }
    match pick_display(displays, id) {
        Some(index) => Ok(index),
        None => Err(display_not_found(id)),
    }
}

/// The id of the window with this handle.
pub open spec fn window_id_text(handle: int) -> Seq<char> {
    "window:"@ + crate::text::signed_decimal(handle)
}

/// The handle that a window id carries.
pub open spec fn handle_of(id: Seq<char>) -> Option<int> {
    if crate::text::starts_with(id, "window:"@) {
        match crate::text::written_signed(crate::text::behind(id, "window:"@)) {
            Some(handle) => if isize::MIN <= handle <= isize::MAX {
                Some(handle)
            } else {
                None
            },
            None => None,
        }
    } else {
        None
    }
}

/// The id of the window with this handle.
pub fn window_id(handle: isize) -> (id: SourceId)
    ensures
        id.0@ == window_id_text(handle as int),
{
    SourceId(joined("window:", signed_decimal_text(handle as i64).as_str()))
}

/// Parses a window id of the form `window:<handle>` back into a handle.
pub fn find_window(id: &SourceId) -> (reply: Result<isize>)
    ensures
        reply matches Ok(handle) ==> handle_of(id.0@) == Some(handle as int),
        reply is Ok <==> handle_of(id.0@) is Some,
        reply is Err ==> crate::error::is_invalid_config(
            reply,
            "invalid window source id: "@ + id.0@,
        ),
{
    if let Some(digits) = strip_prefix(id.0.as_str(), "window:") {
        if let Some(handle) = parse_isize(digits.as_str()) {
            return Ok(handle);
        }
    }
    Err(bad_window_id(id))
}

/// The id that a window is listed under leads back to the window.
pub proof fn listed_windows_are_found_again(handle: isize)
    ensures
        handle_of(window_id_text(handle as int)) == Some(handle as int),
{
    crate::text::a_prefix_comes_off_again(
        "window:"@,
        crate::text::signed_decimal(handle as int),
    );
    crate::text::signed_decimal_is_read_back(handle as int);
}

/// A top-level window as the system describes it.
#[derive(Debug)]
pub struct WindowReport {
    pub handle: isize,
    pub visible: bool,
    pub cloaked: bool,
    /// The title's units, without padding; empty for a window without a title.
    pub title: Vec<u16>,
    /// The path of the program that owns the window, where the system gives it.
    pub image_path: Option<Vec<u16>>,
}

impl WindowReport {
    /// The user sees the window and can tell it by its title.
    pub open spec fn is_listed(&self) -> bool {
        self.visible && !self.cloaked && self.title@.len() > 0
    }
}

/// How a window is listed, given its decoded title and program path: the
/// program goes by the last part of its path.
pub open spec fn window_listing(
    handle: isize,
    title: Seq<char>,
    image_path: Option<Seq<char>>,
) -> crate::source::WindowView {
    crate::source::WindowView {
        id: window_id_text(handle as int),
        title,
        app_name: match image_path {
            Some(path) => Some(crate::text::last_piece(path, '\\')),
            None => None,
        },
    }
}

/// Lists a window under a decoded title and program path.
pub fn named_window(handle: isize, title: String, image_path: Option<String>) -> (window:
    WindowSource)
    ensures
        window@ == window_listing(
            handle,
            title@,
            match image_path {
                Some(path) => Some(path@),
                None => None,
            },
        ),
{
    let app_name: Option<String> = match image_path {
        Some(path) => Some(piece_behind_last(path.as_str(), '\\')),
        None => None,
    };
    WindowSource { id: window_id(handle), title, app_name }
}

/// Lists a window, unless it is hidden, cloaked or without a title.
pub fn window_source(report: &WindowReport) -> (source: Option<WindowSource>)
    ensures
        source is Some <==> report.is_listed(),
        source matches Some(window) ==> window@ == window_listing(
            report.handle,
            utf16_lossy(report.title@),
            match report.image_path {
                Some(path) => Some(utf16_lossy(path@)),
                None => None,
            },
        ),
{
    if !report.visible || report.cloaked || report.title.len() == 0 {
        return None;
    }
    let image_path: Option<String> = match &report.image_path {
        Some(path) => Some(decode_utf16(path.as_slice())),
        None => None,
    };
    Some(named_window(report.handle, decode_utf16(report.title.as_slice()), image_path))
}

/// The listing of all the windows that the system reported.
pub open spec fn window_listings(reports: Seq<WindowReport>) -> Seq<crate::source::WindowView>
    decreases reports.len(),
{
    if reports.len() == 0 {
        Seq::empty()
    } else {
        let before = window_listings(reports.drop_last());
        let last = reports.last();
        if last.is_listed() {
            before.push(
                window_listing(
                    last.handle,
                    utf16_lossy(last.title@),
                    match last.image_path {
                        Some(path) => Some(utf16_lossy(path@)),
                        None => None,
                    },
                ),
            )
        } else {
            before
        }
    }
}

/// Lists the windows that the user can see and tell apart.
pub fn enumerate_windows(reports: &Vec<WindowReport>) -> (windows: Vec<WindowSource>)
    ensures
        windows@.len() == window_listings(reports@).len(),
        forall|i: int|
            0 <= i < windows@.len() ==> (#[trigger] windows@[i])@ == window_listings(reports@)[i],
        crate::source::are_listed(windows@, window_listings(reports@)),
{
    let mut windows: Vec<WindowSource> = Vec::new();
    let mut i: usize = 0;
    while i < reports.len()
        invariant
            i <= reports@.len(),
            windows@.len() == window_listings(reports@.subrange(0, i as int)).len(),
            forall|j: int|
                0 <= j < windows@.len() ==> (#[trigger] windows@[j])@ == window_listings(
                    reports@.subrange(0, i as int),
                )[j],
        decreases reports@.len() - i,
    {
        assert(reports@.subrange(0, i + 1).drop_last() =~= reports@.subrange(0, i as int));
        if let Some(window) = window_source(&reports[i]) {
            windows.push(window);
        }
        i += 1;
    }
    assert(reports@.subrange(0, reports@.len() as int) =~= reports@);
    windows
}

/// The system's audio as it is listed.
pub open spec fn system_audio() -> crate::source::AudioDeviceView {
    crate::source::AudioDeviceView {
        id: SYSTEM_AUDIO_ID@,
        name: "System audio (WASAPI loopback)"@,
        is_default: true,
    }
}

/// Everything there is to capture: displays, then windows, then the system's
/// audio.
pub fn enumerate_all(displays: Vec<DisplaySource>, windows: Vec<WindowSource>) -> (sources: Vec<
    CaptureSource,
>)
    ensures
        crate::source::listing(sources@) == crate::source::full_listing(
            displays@,
            windows@,
            system_audio(),
        ),
{
    list_sources(
        displays,
        windows,
        AudioDeviceSource {
            id: SourceId::new(SYSTEM_AUDIO_ID),
            name: "System audio (WASAPI loopback)".to_owned(),
            is_default: true,
        },
    )
}

/// A display is as wide as its right edge lies from its left one, and as high as
/// its lower edge lies from its upper one. The one at the desktop's origin is the
/// primary one. The scale is one at 96 dots per inch, told in thousandths.
pub proof fn displays_reach_from_edge_to_edge(
    report: &OutputReport,
    name: String,
    display: DisplaySource,
)
    requires
        call_ensures(named_display, (report, name), display),
        report.left <= report.right,
        report.top <= report.bottom,
        report.dpi <= 4_000_000,
    ensures
        report.left + display.width == report.right,
        report.top + display.height == report.bottom,
        display.is_primary <==> report.left == 0 && report.top == 0,
        display.scale_factor_milli * 96 <= report.dpi * 1000 < (display.scale_factor_milli + 1)
            * 96,
        display.name@ == name@,
        display.id.0@ == "display:"@ + name@,
{
    assert(display@.width == display.width && display@.height == display.height);
    assert(display@.scale_factor_milli == display.scale_factor_milli);
}

/// An output is listed exactly if the desktop extends to it, in its size, under
/// the name that stands before the first zero of its buffer.
pub proof fn outputs_of_the_desktop_are_listed(
    report: &OutputReport,
    name: Seq<u16>,
    source: Option<DisplaySource>,
)
    requires
        call_ensures(display_source, (report,), source),
        report.left <= report.right,
        report.top <= report.bottom,
        report.device_name@.len() > name.len(),
        report.device_name@.subrange(0, name.len() as int) == name,
        report.device_name@[name.len() as int] == 0,
        !name.contains(0u16),
    ensures
        source is Some <==> report.attached_to_desktop,
        source matches Some(display) ==> {
            &&& display.name@ == utf16_lossy(name)
            &&& display.id.0@ == "display:"@ + utf16_lossy(name)
            &&& report.left + display.width == report.right
            &&& report.top + display.height == report.bottom
            &&& display.is_primary <==> report.left == 0 && report.top == 0
        },
{
    lemma_text_before_nul(report.device_name@, name);
    if let Some(display) = source {
        assert(display@.width == display.width && display@.height == display.height);
    }
}

proof fn lemma_text_before_nul(units: Seq<u16>, text: Seq<u16>)
    requires
        units.len() > text.len(),
        units.subrange(0, text.len() as int) == text,
        units[text.len() as int] == 0,
        !text.contains(0u16),
    ensures
        before_nul(units) == text,
{
    lemma_text_without_nul(text);
    lemma_nul_ends_the_text(units, text.len() as int, units.len() as int);
    assert(units.subrange(0, units.len() as int) =~= units);
}

proof fn lemma_text_without_nul(text: Seq<u16>)
    requires
        !text.contains(0u16),
    ensures
        before_nul(text) == text,
    decreases text.len(),
{
    if text.len() > 0 {
        let shorter = text.drop_last();
        assert forall|i: int| 0 <= i < shorter.len() implies shorter[i] != 0u16 by {
            assert(text.contains(text[i]));
        }
        lemma_text_without_nul(shorter);
        assert(text.contains(text.last()));
    }
}

/// The text of a buffer is what stands before its first zero, or all of it.
pub proof fn texts_end_at_the_first_zero(buffer: &[u16], text: Seq<u16>, decoded: String)
    requires
        call_ensures(utf16_to_string, (buffer,), decoded),
        !text.contains(0u16),
        buffer@ == text || buffer@.len() > text.len() && buffer@.subrange(0, text.len() as int)
            == text && buffer@[text.len() as int] == 0,
    ensures
        decoded@ == utf16_lossy(text),
{
    if buffer@ == text {
        lemma_text_without_nul(text);
    } else {
        lemma_text_before_nul(buffer@, text);
    }
}

/// The table has every output of the desktop once, in the order of the reports,
/// and no other; each is listed in the size of its report.
pub proof fn tables_list_the_desktop(
    reports: &Vec<OutputReport>,
    table: DisplayTable,
    i: int,
    j: int,
    output: int,
)
    requires
        call_ensures(enumerate_displays, (reports,), table),
        0 <= i < j < table.sources@.len(),
        0 <= output < reports@.len(),
    ensures
        table.outputs@.len() == table.sources@.len(),
        table.outputs@[i] < table.outputs@[j] < reports@.len(),
        reports@[table.outputs@[i] as int].attached_to_desktop,
        reports@[table.outputs@[j] as int].attached_to_desktop,
        reports@[output].attached_to_desktop ==> exists|k: int|
            0 <= k < table.outputs@.len() && #[trigger] table.outputs@[k] == output,
{
    lemma_desktop_outputs(reports@);
    assert(table.outputs@[i] == desktop_outputs(reports@)[i]);
    assert(table.outputs@[j] == desktop_outputs(reports@)[j]);
    if reports@[output].attached_to_desktop {
        let k = choose|k: int|
            0 <= k < desktop_outputs(reports@).len() && #[trigger] desktop_outputs(reports@)[k]
                == output;
        assert(table.outputs@[k] == output);
    }
}

/// Each display of the table is listed in the size of its own report, and as the
/// primary one exactly if it lies at the origin.
pub proof fn tables_keep_sizes(reports: &Vec<OutputReport>, table: DisplayTable, i: int)
    requires
        call_ensures(enumerate_displays, (reports,), table),
        0 <= i < table.sources@.len(),
    ensures
        table.outputs@.len() == table.sources@.len(),
        table.outputs@[i] < reports@.len(),
        ({
            let report = reports@[table.outputs@[i] as int];
            let display = table.sources@[i];
            &&& report.attached_to_desktop
            &&& report.left <= report.right ==> report.left + display.width == report.right
            &&& report.top <= report.bottom ==> report.top + display.height == report.bottom
            &&& display.is_primary <==> report.left == 0 && report.top == 0
            &&& display.id.0@ == "display:"@ + display.name@
        }),
{
    lemma_desktop_outputs(reports@);
    assert(table.outputs@[i] == desktop_outputs(reports@)[i]);
    let display = table.sources@[i];
    assert(display@.width == display.width && display@.height == display.height);
}

proof fn lemma_desktop_outputs(reports: Seq<OutputReport>)
    ensures
        forall|i: int|
            0 <= i < desktop_outputs(reports).len() ==> 0 <= #[trigger] desktop_outputs(reports)[i]
                < reports.len() && reports[desktop_outputs(reports)[i]].attached_to_desktop,
        forall|i: int, j: int|
            0 <= i < j < desktop_outputs(reports).len() ==> #[trigger] desktop_outputs(reports)[i]
                < #[trigger] desktop_outputs(reports)[j],
        forall|output: int|
            0 <= output < reports.len() && (#[trigger] reports[output]).attached_to_desktop
                ==> exists|k: int|
                0 <= k < desktop_outputs(reports).len() && #[trigger] desktop_outputs(reports)[k]
                    == output,
    decreases reports.len(),
{
    if reports.len() > 0 {
        let before = reports.drop_last();
        lemma_desktop_outputs(before);
        assert forall|i: int| 0 <= i < before.len() implies before[i] == #[trigger] reports[i] by {}
        assert(reports.last() == reports[reports.len() - 1]);
        assert forall|i: int| 0 <= i < desktop_outputs(reports).len() implies 0
            <= #[trigger] desktop_outputs(reports)[i] < reports.len()
            && reports[desktop_outputs(reports)[i]].attached_to_desktop by {
            if i < desktop_outputs(before).len() {
                assert(desktop_outputs(before)[i] == desktop_outputs(reports)[i]);
                assert(before[desktop_outputs(before)[i]]
                    == reports[desktop_outputs(before)[i]]);
            }
        }
        assert forall|i: int, j: int| 0 <= i < j < desktop_outputs(reports).len() implies
            #[trigger] desktop_outputs(reports)[i] < #[trigger] desktop_outputs(reports)[j] by {
            assert(desktop_outputs(before)[i] == desktop_outputs(reports)[i]);
            if j < desktop_outputs(before).len() {
                assert(desktop_outputs(before)[j] == desktop_outputs(reports)[j]);
            }
        }
        assert forall|output: int|
            0 <= output < reports.len() && (#[trigger] reports[output]).attached_to_desktop implies exists|
            k: int,
        |
            0 <= k < desktop_outputs(reports).len() && #[trigger] desktop_outputs(reports)[k]
                == output by {
            if output < before.len() {
                assert(before[output] == reports[output]);
                let k = choose|k: int|
                    0 <= k < desktop_outputs(before).len() && #[trigger] desktop_outputs(before)[k]
                        == output;
                assert(desktop_outputs(reports)[k] == output);
            } else {
                let k = desktop_outputs(reports).len() - 1;
                assert(desktop_outputs(reports)[k] == output);
            }
        }
    }
}

/// The display that an id stands for is the first one that is listed under it, or
/// for `auto` the first primary one, or else the first of all. It is refused only
/// if there is none.
pub proof fn ids_stand_for_displays(
    displays: &Vec<DisplaySource>,
    id: &SourceId,
    reply: Result<usize>,
)
    requires
        call_ensures(find_display, (displays, id), reply),
    ensures
        reply matches Ok(at) ==> {
            &&& at < displays@.len()
            &&& id.0@ != "auto"@ ==> displays@[at as int].id.0@ == id.0@ && forall|j: int|
                0 <= j < at ==> (#[trigger] displays@[j]).id.0@ != id.0@
            &&& id.0@ == "auto"@ ==> displays@[at as int].is_primary || at == 0
            &&& id.0@ == "auto"@ ==> forall|j: int|
                0 <= j < at ==> !(#[trigger] displays@[j]).is_primary
            &&& id.0@ == "auto"@ && !displays@[at as int].is_primary ==> forall|j: int|
                0 <= j < displays@.len() ==> !(#[trigger] displays@[j]).is_primary
        },
        reply matches Err(problem) ==> {
            &&& problem is BackendUnavailable <==> displays@.len() == 0
            &&& problem is InvalidConfig <==> displays@.len() > 0
            &&& displays@.len() > 0 ==> id.0@ != "auto"@ && forall|j: int|
                0 <= j < displays@.len() ==> (#[trigger] displays@[j]).id.0@ != id.0@
        },
{
    if reply is Err && displays@.len() > 0 {
        if id.0@ == "auto"@ {
            let i = crate::source::auto_always_picks(displays@);
            assert(crate::source::picks(displays@, id.0@, i));
        } else if exists|j: int|
            0 <= j < displays@.len() && (#[trigger] displays@[j]).id.0@ == id.0@ {
            let i = crate::source::lemma_first_named(displays@, id.0@, displays@.len() as int);
            assert(crate::source::picks(displays@, id.0@, i));
        }
    }
}

/// The id that a window is listed under is parsed back to its handle, and ids of
/// another form are refused.
pub proof fn window_ids_are_parsed_back(handle: isize, id: SourceId, reply: Result<isize>)
    requires
        call_ensures(window_id, (handle,), id),
        call_ensures(find_window, (&id,), reply),
    ensures
        reply == Ok::<isize, PinrayError>(handle),
{
    listed_windows_are_found_again(handle);
}

/// An id that does not start as window ids do names no window.
pub proof fn other_ids_name_no_window(id: &SourceId, reply: Result<isize>)
    requires
        call_ensures(find_window, (id,), reply),
    ensures
        reply is Ok ==> exists|number: Seq<char>| #[trigger] ("window:"@ + number) == id.0@,
        reply matches Err(problem) ==> problem is InvalidConfig,
{
    if reply is Ok {
        let number = crate::text::behind(id.0@, "window:"@);
        assert("window:"@ + number =~= id.0@);
    }
}

/// A window is listed exactly if it is visible, not cloaked, and has a title:
/// under the id of its handle and with that title. Its program is told only if
/// the system told it.
pub proof fn visible_titled_windows_are_listed(
    report: &WindowReport,
    id: SourceId,
    source: Option<WindowSource>,
)
    requires
        call_ensures(window_source, (report,), source),
        call_ensures(window_id, (report.handle,), id),
    ensures
        source is Some <==> report.visible && !report.cloaked && report.title@.len() > 0,
        source matches Some(window) ==> {
            &&& window.id.0@ == id.0@
            &&& window.title@ == utf16_lossy(report.title@)
            &&& window.app_name is Some <==> report.image_path is Some
        },
{
    if let Some(window) = source {
        assert(window@.title == window.title@);
        assert(window@.id == window.id.0@);
        assert(window@.app_name is Some <==> window.app_name is Some);
    }
}

/// A program goes by what stands behind the last backslash of its path.
pub proof fn programs_go_by_their_file_name(
    handle: isize,
    title: String,
    path: String,
    text: &str,
    name: String,
    window: WindowSource,
)
    requires
        call_ensures(named_window, (handle, title, Some(path)), window),
        text@ == path@,
        call_ensures(piece_behind_last, (text, '\\'), name),
    ensures
        window.app_name matches Some(app) && app@ == name@,
        window.title@ == title@,
{
    assert(window@.title == window.title@);
    assert(window@.app_name == match window.app_name {
        Some(app) => Some(app@),
        None => None,
    });
}

/// Where every window is visible and titled, every one is listed, in order.
pub proof fn windows_are_listed_in_order(reports: &Vec<WindowReport>, windows: Vec<WindowSource>)
    requires
        call_ensures(enumerate_windows, (reports,), windows),
    ensures
        windows@.len() <= reports@.len(),
        (forall|i: int|
            0 <= i < reports@.len() ==> (#[trigger] reports@[i]).visible && !reports@[i].cloaked
                && reports@[i].title@.len() > 0) ==> windows@.len() == reports@.len() && forall|i: int|
            0 <= i < reports@.len() ==> (#[trigger] windows@[i]).title@ == utf16_lossy(
                reports@[i].title@,
            ),
        (forall|i: int|
            0 <= i < reports@.len() ==> !(#[trigger] reports@[i]).visible || reports@[i].cloaked
                || reports@[i].title@.len() == 0) ==> windows@.len() == 0,
{
    lemma_listed_windows(reports@);
    assert forall|i: int|
        0 <= i < windows@.len() && windows@.len() == reports@.len() && windows@.len()
            == window_listings(reports@).len() implies (#[trigger] windows@[i]).title@
        == window_listings(reports@)[i].title by {
        assert(windows@[i]@.title == windows@[i].title@);
    }
}

proof fn lemma_listed_windows(reports: Seq<WindowReport>)
    ensures
        window_listings(reports).len() <= reports.len(),
        (forall|i: int|
            0 <= i < reports.len() ==> (#[trigger] reports[i]).visible && !reports[i].cloaked
                && reports[i].title@.len() > 0) ==> window_listings(reports).len() == reports.len()
            && forall|i: int|
            0 <= i < reports.len() ==> (#[trigger] window_listings(reports)[i]).title
                == utf16_lossy(reports[i].title@),
        (forall|i: int|
            0 <= i < reports.len() ==> !(#[trigger] reports[i]).visible || reports[i].cloaked
                || reports[i].title@.len() == 0) ==> window_listings(reports).len() == 0,
    decreases reports.len(),
{
    if reports.len() > 0 {
        let before = reports.drop_last();
        lemma_listed_windows(before);
        assert(reports.last() == reports[reports.len() - 1]);
        if forall|i: int|
            0 <= i < reports.len() ==> (#[trigger] reports[i]).visible && !reports[i].cloaked
                && reports[i].title@.len() > 0 {
            assert forall|i: int| 0 <= i < before.len() implies (#[trigger] before[i]).visible
                && !before[i].cloaked && before[i].title@.len() > 0 by {
                assert(before[i] == reports[i]);
            }
            assert(reports[reports.len() - 1].visible);
        }
        if forall|i: int|
            0 <= i < reports.len() ==> !(#[trigger] reports[i]).visible || reports[i].cloaked
                || reports[i].title@.len() == 0 {
            assert forall|i: int| 0 <= i < before.len() implies !(#[trigger] before[i]).visible
                || before[i].cloaked || before[i].title@.len() == 0 by {
                assert(before[i] == reports[i]);
            }
            assert(!reports[reports.len() - 1].visible || reports[reports.len() - 1].cloaked
                || reports[reports.len() - 1].title@.len() == 0);
        }
    }
}

/// The list has the displays and the windows as they are, in order, and behind
/// them the system's audio.
pub proof fn lists_end_with_the_audio(
    displays: Vec<DisplaySource>,
    windows: Vec<WindowSource>,
    sources: Vec<CaptureSource>,
)
    requires
        call_ensures(enumerate_all, (displays, windows), sources),
    ensures
        sources@.len() == displays@.len() + windows@.len() + 1,
        forall|i: int|
            0 <= i < displays@.len() ==> ((#[trigger] sources@[i]) matches CaptureSource::Display(
                display,
            ) && display@ == displays@[i]@),
        forall|i: int|
            displays@.len() <= i < displays@.len() + windows@.len() ==> ((
            #[trigger] sources@[i]) matches CaptureSource::Window(window) && window@ == windows@[i
                - displays@.len()]@),
        sources@.last() matches CaptureSource::SystemAudio(audio) && audio.id.0@
            == "audio:system-mix"@ && audio.is_default && audio.name@
            == "System audio (WASAPI loopback)"@,
{
    let view = crate::source::listing(sources@);
    assert(view.len() == sources@.len());
    assert forall|i: int| 0 <= i < sources@.len() implies (#[trigger] sources@[i])@ == view[i] by {}
    assert(sources@[sources@.len() - 1]@ == view[sources@.len() - 1]);
}

/// A window that is seen and titled adds one to the list, at its end; one that is
/// not adds none. The others keep their places.
pub proof fn one_more_window_is_one_more_source(
    reports: &Vec<WindowReport>,
    fewer: &Vec<WindowReport>,
    windows: Vec<WindowSource>,
    before: Vec<WindowSource>,
    listed: Option<WindowSource>,
)
    requires
        reports@.len() > 0,
        fewer@ == reports@.drop_last(),
        call_ensures(enumerate_windows, (reports,), windows),
        call_ensures(enumerate_windows, (fewer,), before),
        call_ensures(window_source, (&reports@.last(),), listed),
    ensures
        listed is None ==> windows@.len() == before@.len(),
        listed matches Some(window) ==> windows@.len() == before@.len() + 1 && windows@.last()@
            == window@,
        forall|i: int| 0 <= i < before@.len() ==> (#[trigger] windows@[i])@ == before@[i]@,
{
    let shown = window_listings(reports@);
    let earlier = window_listings(fewer@);
    assert forall|i: int| 0 <= i < before@.len() implies (#[trigger] windows@[i])@ == before@[i]@ by {
        assert(before@[i]@ == earlier[i]);
        assert(windows@[i]@ == shown[i]);
        assert(shown[i] == earlier[i]);
    }
    if windows@.len() > 0 {
        assert(windows@[windows@.len() - 1]@ == shown[windows@.len() - 1]);
    }
}

/// The program of a listed window goes by the file name of its path.
pub proof fn listed_windows_tell_their_program(
    report: &WindowReport,
    path: Vec<u16>,
    text: &str,
    name: String,
    source: Option<WindowSource>,
)
    requires
        call_ensures(window_source, (report,), source),
        report.image_path == Some(path),
        text@ == utf16_lossy(path@),
        call_ensures(piece_behind_last, (text, '\\'), name),
    ensures
        source matches Some(window) ==> (window.app_name matches Some(app) && app@ == name@),
{
    if let Some(window) = source {
        assert(window@.app_name == match window.app_name {
            Some(app) => Some(app@),
            None => None,
        });
    }
}

/// Before its first zero a buffer has no other, and behind that nothing counts.
pub proof fn texts_have_no_zeros(units: &[u16], len: usize)
    requires
        call_ensures(nul_position, (units,), len),
    ensures
        len <= units@.len(),
        len < units@.len() ==> units@[len as int] == 0,
        units@.len() > 0 && units@[0] == 0 ==> len == 0,
{
    if units@.len() > 0 && units@[0] == 0 {
        let nothing = Seq::<u16>::empty();
        assert(units@.subrange(0, 0) =~= nothing);
        lemma_text_before_nul(units@, nothing);
        assert(units@.subrange(0, len as int).len() == len);
    }
}

/// Every refusal tells why.
pub proof fn refusals_tell_why(
    displays: &Vec<DisplaySource>,
    id: &SourceId,
    display: Result<usize>,
    window: Result<isize>,
)
    requires
        call_ensures(find_display, (displays, id), display),
        call_ensures(find_window, (id,), window),
    ensures
        display matches Err(PinrayError::BackendUnavailable(message)) ==> message@
            == "no displays found"@,
        display matches Err(PinrayError::InvalidConfig(message)) ==> message@
            == "display source not found: "@ + id.0@,
        window matches Err(PinrayError::InvalidConfig(message)) ==> message@
            == "invalid window source id: "@ + id.0@,
{
}

/// A display whose edges are out of order has no extent.
pub proof fn edges_out_of_order_span_nothing(
    report: &OutputReport,
    name: String,
    display: DisplaySource,
)
    requires
        call_ensures(named_display, (report, name), display),
    ensures
        report.right <= report.left ==> display.width == 0,
        report.bottom <= report.top ==> display.height == 0,
{
    assert(display@.width == display.width && display@.height == display.height);
}

} // verus!
