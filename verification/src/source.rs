//! What can be captured.
use vstd::prelude::*;

use crate::error::PinrayError;
use crate::text::{joined, same_text};

verus! {

/// Opaque identifier for a capturable source.
///
/// Formats are platform-specific (e.g. `display:\\.\DISPLAY1`,
/// `window:1234`, `audio:system-mix`); treat them as opaque strings from
/// [`CaptureSource`] enumeration. The special value `"auto"` selects the
/// primary display without enumerating. Window ids are only valid while the
/// window exists — re-enumerate before building a session.
#[derive(Debug, Clone, PartialEq, Eq, Hash)]
pub struct SourceId(pub String);

impl SourceId {
    /// The id with the text that the value converts to.
    pub fn new<V: Into<String>>(value: V) -> (id: Self)
        ensures
            call_ensures(<V as Into<String>>::into, (value,), id.0),
    {
        SourceId(value.into())
    }
}

/// A capturable display/monitor.
#[derive(Debug, Clone, PartialEq, Eq)]
pub struct DisplaySource {
    pub id: SourceId,
    pub name: String,
    pub width: u32,
    pub height: u32,
    /// Display scale × 1000 (e.g. 2000 = 2× HiDPI). Best-effort; 1000 where
    /// the platform has no reliable per-monitor scale.
    pub scale_factor_milli: u32,
    pub is_primary: bool,
}

/// A capturable application window.
#[derive(Debug, Clone, PartialEq, Eq)]
pub struct WindowSource {
    pub id: SourceId,
    pub title: String,
    /// Owning application, when the platform exposes it.
    pub app_name: Option<String>,
}

/// A capturable audio endpoint.
#[derive(Debug, Clone, PartialEq, Eq)]
pub struct AudioDeviceSource {
    pub id: SourceId,
    pub name: String,
    pub is_default: bool,
}

/// Anything [`enumerate_sources`](crate::enumerate_sources) can return.
#[derive(Debug, Clone, PartialEq, Eq)]
pub enum CaptureSource {
    Display(DisplaySource),
    Window(WindowSource),
    SystemAudio(AudioDeviceSource),
    Microphone(AudioDeviceSource),
}

/// A display as a listing shows it.
#[verifier::ext_equal]
pub struct DisplayView {
    pub id: Seq<char>,
    pub name: Seq<char>,
    pub width: int,
    pub height: int,
    pub scale_factor_milli: int,
    pub is_primary: bool,
}

impl View for DisplaySource {
    type V = DisplayView;

    open spec fn view(&self) -> DisplayView {
        DisplayView {
            id: self.id.0@,
            name: self.name@,
            width: self.width as int,
            height: self.height as int,
            scale_factor_milli: self.scale_factor_milli as int,
            is_primary: self.is_primary,
        }
    }
}

/// A window as a listing shows it.
#[verifier::ext_equal]
pub struct WindowView {
    pub id: Seq<char>,
    pub title: Seq<char>,
    pub app_name: Option<Seq<char>>,
}

impl View for WindowSource {
    type V = WindowView;

    open spec fn view(&self) -> WindowView {
        WindowView {
            id: self.id.0@,
            title: self.title@,
            app_name: match self.app_name {
                Some(name) => Some(name@),
                None => None,
            },
        }
    }
}

/// An audio endpoint as a listing shows it.
#[verifier::ext_equal]
pub struct AudioDeviceView {
    pub id: Seq<char>,
    pub name: Seq<char>,
    pub is_default: bool,
}

impl View for AudioDeviceSource {
    type V = AudioDeviceView;

    open spec fn view(&self) -> AudioDeviceView {
        AudioDeviceView { id: self.id.0@, name: self.name@, is_default: self.is_default }
    }
}

/// A source as a listing shows it.
#[verifier::ext_equal]
pub enum CaptureSourceView {
    Display(DisplayView),
    Window(WindowView),
    SystemAudio(AudioDeviceView),
    Microphone(AudioDeviceView),
}

impl View for CaptureSource {
    type V = CaptureSourceView;

    open spec fn view(&self) -> CaptureSourceView {
        match self {
            CaptureSource::Display(display) => CaptureSourceView::Display(display@),
            CaptureSource::Window(window) => CaptureSourceView::Window(window@),
            CaptureSource::SystemAudio(device) => CaptureSourceView::SystemAudio(device@),
            CaptureSource::Microphone(device) => CaptureSourceView::Microphone(device@),
        }
    }
}

/// The listing that a vector of sources shows.
pub open spec fn listing(sources: Seq<CaptureSource>) -> Seq<CaptureSourceView> {
    Seq::new(sources.len(), |i: int| sources[i]@)
}

/// The windows are listed so, one by one.
pub open spec fn are_listed(windows: Seq<WindowSource>, listings: Seq<WindowView>) -> bool {
    &&& windows.len() == listings.len()
    &&& forall|i: int| 0 <= i < windows.len() ==> (#[trigger] windows[i])@ == listings[i]
}

/// The listing of some displays, then some windows, then the system's audio.
pub open spec fn full_listing(
    displays: Seq<DisplaySource>,
    windows: Seq<WindowSource>,
    audio: AudioDeviceView,
) -> Seq<CaptureSourceView> {
    Seq::new(displays.len(), |i: int| CaptureSourceView::Display(displays[i]@)) + Seq::new(
        windows.len(),
        |i: int| CaptureSourceView::Window(windows[i]@),
    ) + seq![CaptureSourceView::SystemAudio(audio)]
}

/// The display at `index` is the one that `id` stands for. `auto` stands for
/// the first primary display, or for the first of all if none is primary; any
/// other id for the first display that carries it.
pub open spec fn picks(displays: Seq<DisplaySource>, id: Seq<char>, index: int) -> bool {
    &&& 0 <= index < displays.len()
    &&& if id == "auto"@ {
        ||| displays[index].is_primary && forall|j: int|
            0 <= j < index ==> !(#[trigger] displays[j]).is_primary
        ||| index == 0 && forall|j: int|
            0 <= j < displays.len() ==> !(#[trigger] displays[j]).is_primary
    } else {
        displays[index].id.0@ == id && forall|j: int|
            0 <= j < index ==> (#[trigger] displays[j]).id.0@ != id
    }
}

/// No display is the one that `id` stands for.
pub open spec fn picks_nothing(displays: Seq<DisplaySource>, id: Seq<char>) -> bool {
    forall|index: int| !#[trigger] picks(displays, id, index)
}

/// The display that an id stands for, by its place in the listing.
pub fn pick_display(displays: &Vec<DisplaySource>, id: &SourceId) -> (index: Option<usize>)
    ensures
        index matches Some(at) ==> picks(displays@, id.0@, at as int),
        index is None ==> forall|at: int| !picks(displays@, id.0@, at),
        index is None ==> picks_nothing(displays@, id.0@),
{
    let auto: bool = same_text(id.0.as_str(), "auto");
    let mut i: usize = 0;
    while i < displays.len()
        invariant
            i <= displays@.len(),
            auto == (id.0@ == "auto"@),
            auto ==> forall|j: int| 0 <= j < i ==> !(#[trigger] displays@[j]).is_primary,
            !auto ==> forall|j: int| 0 <= j < i ==> (#[trigger] displays@[j]).id.0@ != id.0@,
        decreases displays@.len() - i,
    {
        let found: bool = if auto {
            displays[i].is_primary
        } else {
            displays[i].id.0 == id.0
        };
        if found {
            return Some(i);
        }
        i += 1;
    }
    if auto && displays.len() > 0 {
        assert(picks(displays@, id.0@, 0));
        return Some(0);
    }
    None
}

/// An id stands for at most one display of a listing.
pub proof fn an_id_picks_one_display(
    displays: Seq<DisplaySource>,
    id: Seq<char>,
    one: int,
    other: int,
)
    requires
        picks(displays, id, one),
        picks(displays, id, other),
    ensures
        one == other,
{
    if one < other {
        assert(displays[one].is_primary || !displays[one].is_primary);
    } else if other < one {
        assert(displays[other].is_primary || !displays[other].is_primary);
    }
}

/// As long as there is a display, `auto` finds one.
pub proof fn auto_always_picks(displays: Seq<DisplaySource>) -> (index: int)
    requires
        displays.len() > 0,
    ensures
        picks(displays, "auto"@, index),
{
    if exists|j: int| 0 <= j < displays.len() && (#[trigger] displays[j]).is_primary {
        lemma_first_primary(displays, displays.len() as int)
    } else {
        0
    }
}

proof fn lemma_first_primary(displays: Seq<DisplaySource>, until: int) -> (first: int)
    requires
        0 <= until <= displays.len(),
        exists|j: int| 0 <= j < until && (#[trigger] displays[j]).is_primary,
    ensures
        0 <= first < until,
        displays[first].is_primary,
        forall|j: int| 0 <= j < first ==> !(#[trigger] displays[j]).is_primary,
    decreases until,
{
    if exists|j: int| 0 <= j < until - 1 && (#[trigger] displays[j]).is_primary {
        lemma_first_primary(displays, until - 1)
    } else {
        until - 1
    }
}

/// The error for an id that no display carries.
pub fn display_not_found(id: &SourceId) -> (error: PinrayError)
    ensures
        error matches PinrayError::InvalidConfig(message) && message@
            == "display source not found: "@ + id.0@,
{
    PinrayError::InvalidConfig(joined("display source not found: ", id.0.as_str()))
}

/// The error for a window id that names no window.
pub fn bad_window_id(id: &SourceId) -> (error: PinrayError)
    ensures
        error matches PinrayError::InvalidConfig(message) && message@
            == "invalid window source id: "@ + id.0@,
{
    PinrayError::InvalidConfig(joined("invalid window source id: ", id.0.as_str()))
}

/// Lists displays, then windows, then the system's audio.
pub fn list_sources(
    displays: Vec<DisplaySource>,
    windows: Vec<WindowSource>,
    audio: AudioDeviceSource,
) -> (sources: Vec<CaptureSource>)
    ensures
        listing(sources@) == full_listing(displays@, windows@, audio@),
{
    let mut sources: Vec<CaptureSource> = Vec::new();
    for display in iter: displays
        invariant
            iter.seq() == displays@,
            sources@.len() == iter.index(),
            forall|j: int|
                0 <= j < iter.index() ==> (#[trigger] sources@[j])@ == CaptureSourceView::Display(
                    displays@[j]@,
                ),
    {
        sources.push(CaptureSource::Display(display));
    }
    for window in iter: windows
        invariant
            iter.seq() == windows@,
            sources@.len() == displays@.len() + iter.index(),
            forall|j: int|
                0 <= j < displays@.len() ==> (#[trigger] sources@[j])@
                    == CaptureSourceView::Display(displays@[j]@),
            forall|j: int|
                displays@.len() <= j < sources@.len() ==> (#[trigger] sources@[j])@
                    == CaptureSourceView::Window(windows@[j - displays@.len()]@),
    {
        sources.push(CaptureSource::Window(window));
    }
    sources.push(CaptureSource::SystemAudio(audio));
    assert(listing(sources@) =~= full_listing(displays@, windows@, audio@));
    sources
}

/// The display that an id stands for, told without the listing's help. `auto` is
/// a primary display if there is one, and the first of them; else the first of
/// all. Any other id is that of the display, and of none before it. Nothing is
/// found only if there is no display for `auto`, or none with the id.
pub proof fn ids_stand_for_displays(
    displays: &Vec<DisplaySource>,
    id: &SourceId,
    index: Option<usize>,
)
    requires
        call_ensures(pick_display, (displays, id), index),
    ensures
        id.0@ == "auto"@ ==> match index {
            None => displays@.len() == 0,
            Some(at) => {
                &&& at < displays@.len()
                &&& forall|j: int| 0 <= j < at ==> !(#[trigger] displays@[j]).is_primary
                &&& displays@[at as int].is_primary || at == 0
                &&& !displays@[at as int].is_primary ==> forall|j: int|
                    0 <= j < displays@.len() ==> !(#[trigger] displays@[j]).is_primary
            },
        },
        id.0@ != "auto"@ ==> match index {
            None => forall|j: int|
                0 <= j < displays@.len() ==> (#[trigger] displays@[j]).id.0@ != id.0@,
            Some(at) => {
                &&& at < displays@.len()
                &&& displays@[at as int].id.0@ == id.0@
                &&& forall|j: int| 0 <= j < at ==> (#[trigger] displays@[j]).id.0@ != id.0@
            },
        },
{
    if index is None {
        if id.0@ == "auto"@ {
            if displays@.len() > 0 {
                let at = auto_always_picks(displays@);
                assert(picks(displays@, id.0@, at));
            }
        } else if exists|j: int| 0 <= j < displays@.len() && (#[trigger] displays@[j]).id.0@ == id.0@ {
            let at = lemma_first_named(displays@, id.0@, displays@.len() as int);
            assert(picks(displays@, id.0@, at));
        }
    }
}

/// The first of the displays that carry an id.
pub proof fn lemma_first_named(displays: Seq<DisplaySource>, id: Seq<char>, until: int) -> (first: int)
    requires
        0 <= until <= displays.len(),
        exists|j: int| 0 <= j < until && (#[trigger] displays[j]).id.0@ == id,
    ensures
        0 <= first < until,
        displays[first].id.0@ == id,
        forall|j: int| 0 <= j < first ==> (#[trigger] displays[j]).id.0@ != id,
    decreases until,
{
    if exists|j: int| 0 <= j < until - 1 && (#[trigger] displays[j]).id.0@ == id {
        lemma_first_named(displays, id, until - 1)
    } else {
        until - 1
    }
}

/// A list has the displays, then the windows, then the system's audio, each in
/// the order in which they were given, and each as it was given.
pub proof fn lists_keep_every_source(
    displays: Vec<DisplaySource>,
    windows: Vec<WindowSource>,
    audio: AudioDeviceSource,
    sources: Vec<CaptureSource>,
    at: int,
)
    requires
        call_ensures(list_sources, (displays, windows, audio), sources),
        0 <= at < sources@.len(),
    ensures
        sources@.len() == displays@.len() + windows@.len() + 1,
        at < displays@.len() ==> (sources@[at] matches CaptureSource::Display(display) && {
            &&& display.id.0@ == displays@[at].id.0@
            &&& display.name@ == displays@[at].name@
            &&& display.width == displays@[at].width
            &&& display.height == displays@[at].height
            &&& display.scale_factor_milli == displays@[at].scale_factor_milli
            &&& display.is_primary == displays@[at].is_primary
        }),
        displays@.len() <= at < displays@.len() + windows@.len() ==> (
        sources@[at] matches CaptureSource::Window(window) && {
            let given = windows@[at - displays@.len()];
            &&& window.id.0@ == given.id.0@
            &&& window.title@ == given.title@
            &&& window.app_name is Some <==> given.app_name is Some
            &&& window.app_name matches Some(name) ==> name@ == given.app_name->0@
        }),
        at == displays@.len() + windows@.len() ==> (sources@[at] matches CaptureSource::SystemAudio(
            device,
        ) && device.id.0@ == audio.id.0@ && device.name@ == audio.name@ && device.is_default
            == audio.is_default),
{
    let view = listing(sources@);
    assert(view.len() == sources@.len());
    assert(view[at] == sources@[at]@);
}

/// The complaints about ids tell them.
pub proof fn complaints_tell_the_id(id: &SourceId, display: PinrayError, window: PinrayError)
    requires
        call_ensures(display_not_found, (id,), display),
        call_ensures(bad_window_id, (id,), window),
    ensures
        display matches PinrayError::InvalidConfig(message) && message@
            == "display source not found: "@ + id.0@,
        window matches PinrayError::InvalidConfig(message) && message@
            == "invalid window source id: "@ + id.0@,
{
}

} // verus!
