//! What ScreenCaptureKit offers for capture, and which of it a session means.
use vstd::prelude::*;
use vstd::string::*;

use crate::config::VideoCaptureTarget;
use crate::error::{PinrayError, Result};
use crate::source::{CaptureSource, DisplaySource, SourceId, WindowSource};
use crate::text::{decimal_text, joined, parse_u32, same_text};

verus! {

/// A display as the system describes it.
#[derive(Debug, Clone, Copy, PartialEq, Eq, Structural)]
pub struct DisplayReport {
    pub id: u32,
    pub width: u32,
    pub height: u32,
}

/// A window as the system describes it.
#[derive(Debug)]
pub struct WindowReport {
    pub id: u32,
    /// Empty for a window without a title.
    pub title: String,
    pub app_name: Option<String>,
}

/// A display as it is listed. The system has no primary display, and no scale.
pub open spec fn display_listing(report: DisplayReport) -> crate::source::DisplayView {
    crate::source::DisplayView {
        id: crate::text::decimal(report.id as nat),
        name: "Display "@ + crate::text::decimal(report.id as nat),
        width: report.width as int,
        height: report.height as int,
        scale_factor_milli: 1000,
        is_primary: false,
    }
}

/// A window as it is listed.
pub open spec fn window_listing(report: WindowReport) -> crate::source::WindowView {
    crate::source::WindowView {
        id: crate::text::decimal(report.id as nat),
        title: report.title@,
        app_name: match report.app_name {
            Some(name) => Some(name@),
            None => None,
        },
    }
}

/// The listing of the windows that have a title or belong to an application.
pub open spec fn window_listings(reports: Seq<WindowReport>) -> Seq<crate::source::CaptureSourceView>
    decreases reports.len(),
{
    if reports.len() == 0 {
        Seq::empty()
    } else {
        let before = window_listings(reports.drop_last());
        let last = reports.last();
        if last.title@.len() == 0 && last.app_name is None {
            before
        } else {
            before.push(crate::source::CaptureSourceView::Window(window_listing(last)))
        }
    }
}

/// Everything there is to capture: displays, then windows.
pub open spec fn full_listing(displays: Seq<DisplayReport>, windows: Seq<WindowReport>) -> Seq<
    crate::source::CaptureSourceView,
> {
    Seq::new(
        displays.len(),
        |i: int| crate::source::CaptureSourceView::Display(display_listing(displays[i])),
    ) + window_listings(windows)
}

/// Lists everything there is to capture.
pub fn list_content(displays: &Vec<DisplayReport>, windows: &Vec<WindowReport>) -> (sources: Vec<
    CaptureSource,
>)
    ensures
        crate::source::listing(sources@) == full_listing(displays@, windows@),
{
    let mut sources: Vec<CaptureSource> = Vec::new();
    let mut i: usize = 0;
    while i < displays.len()
        invariant
            i <= displays@.len(),
            sources@.len() == i,
            forall|j: int|
                0 <= j < i ==> (#[trigger] sources@[j])@
                    == crate::source::CaptureSourceView::Display(display_listing(displays@[j])),
        decreases displays@.len() - i,
    {
        let report: DisplayReport = displays[i];
        let id: String = decimal_text(report.id as u64);
        sources.push(
            CaptureSource::Display(
                DisplaySource {
                    name: joined("Display ", id.as_str()),
                    id: SourceId(id),
                    width: report.width,
                    height: report.height,
                    scale_factor_milli: 1000,
                    is_primary: false,
                },
            ),
        );
        i += 1;
    }
    let mut k: usize = 0;
    assert(window_listings(windows@.subrange(0, 0)) =~= Seq::empty());
    assert(crate::source::listing(sources@) =~= full_listing(
        displays@,
        windows@.subrange(0, 0),
    ));
    while k < windows.len()
        invariant
            k <= windows@.len(),
            crate::source::listing(sources@) == full_listing(
                displays@,
                windows@.subrange(0, k as int),
            ),
        decreases windows@.len() - k,
    {
        let report: &WindowReport = &windows[k];
        assert(windows@.subrange(0, k + 1).drop_last() =~= windows@.subrange(0, k as int));
        let ghost before = sources@;
        if !report.title.as_str().is_empty() || report.app_name.is_some() {
            let app_name: Option<String> = match &report.app_name {
                Some(name) => Some(name.clone()),
                None => None,
            };
            sources.push(
                CaptureSource::Window(
                    WindowSource {
                        id: SourceId(decimal_text(report.id as u64)),
                        title: report.title.clone(),
                        app_name,
                    },
                ),
            );
            assert(crate::source::listing(sources@) =~= crate::source::listing(before).push(
                crate::source::CaptureSourceView::Window(window_listing(*report)),
            ));
            assert(crate::source::listing(sources@) =~= full_listing(
                displays@,
                windows@.subrange(0, k + 1),
            ));
        }
        k += 1;
    }
    assert(windows@.subrange(0, windows@.len() as int) =~= windows@);
    sources
}

/// The display that a session names by its id, where it names one.
pub open spec fn named_display(target: Option<VideoCaptureTarget>) -> Option<Seq<char>> {
    match target {
        Some(VideoCaptureTarget::Display(id)) => if id.0@ == "auto"@ {
            None
        } else {
            Some(id.0@)
        },
        _ => None,
    }
}

/// The number that an id stands for.
pub open spec fn id_number(id: Seq<char>) -> Option<nat> {
    match crate::text::written_unsigned(id) {
        Some(number) => if number <= u32::MAX {
            Some(number)
        } else {
            None
        },
        None => None,
    }
}

/// The first display with this number stands at `index`.
pub open spec fn first_with(displays: Seq<DisplayReport>, number: nat, index: int) -> bool {
    &&& 0 <= index < displays.len()
    &&& displays[index].id == number
    &&& forall|j: int| 0 <= j < index ==> (#[trigger] displays[j]).id != number
}

/// No display has this number.
pub open spec fn none_with(displays: Seq<DisplayReport>, number: nat) -> bool {
    forall|j: int| 0 <= j < displays.len() ==> (#[trigger] displays[j]).id != number
}

/// The first window with this number stands at `index`.
pub open spec fn first_window_with(windows: Seq<WindowReport>, number: nat, index: int) -> bool {
    &&& 0 <= index < windows.len()
    &&& windows[index].id == number
    &&& forall|j: int| 0 <= j < index ==> (#[trigger] windows[j]).id != number
}

/// No window has this number.
pub open spec fn no_window_with(windows: Seq<WindowReport>, number: nat) -> bool {
    forall|j: int| 0 <= j < windows.len() ==> (#[trigger] windows[j]).id != number
}

fn position(displays: &Vec<DisplayReport>, number: u32) -> (index: Option<usize>)
    ensures
        index matches Some(at) ==> first_with(displays@, number as nat, at as int),
        index is None ==> forall|j: int|
            0 <= j < displays@.len() ==> (#[trigger] displays@[j]).id != number,
{
    let mut i: usize = 0;
    while i < displays.len()
        invariant
            i <= displays@.len(),
            forall|j: int| 0 <= j < i ==> (#[trigger] displays@[j]).id != number,
        decreases displays@.len() - i,
    {
        if displays[i].id == number {
            return Some(i);
        }
        i += 1;
    }
    None
}

/// An id in quotes behind a complaint about it.
pub open spec fn quoted(complaint: Seq<char>, id: Seq<char>) -> Seq<char> {
    complaint + id + "'"@
}

fn quote(complaint: &str, id: &str) -> (text: String)
    ensures
        text@ == quoted(complaint@, id@),
{
    let mut text: String = joined(complaint, id);
    text.append("'");
    text
}

/// The display that a session means: the one that it names, else the first.
pub fn find_display(displays: &Vec<DisplayReport>, target: &Option<VideoCaptureTarget>) -> (reply: Result<
    usize,
>)
    ensures
        match named_display(*target) {
            Some(id) => match id_number(id) {
                Some(number) => {
                    &&& reply matches Ok(index) ==> first_with(displays@, number, index as int)
                    &&& reply is Err ==> {
                        &&& forall|j: int|
                            0 <= j < displays@.len() ==> (#[trigger] displays@[j]).id != number
                        &&& none_with(displays@, number)
                        &&& crate::error::is_platform(
                            reply,
                            "display "@ + crate::text::decimal(number) + " not found"@,
                        )
                    }
                },
                None => crate::error::is_invalid_config(
                    reply,
                    quoted("invalid display id '"@, id),
                ),
            },
            None => if displays@.len() > 0 {
                reply == Ok::<usize, PinrayError>(0)
            } else {
                crate::error::is_platform(reply, "no displays via SCShareableContent"@)
            },
        },
{
    if let Some(VideoCaptureTarget::Display(id)) = target {
        if !same_text(id.0.as_str(), "auto") {
            let number: u32 = match parse_u32(id.0.as_str()) {
                Some(number) => number,
                None => {
                    return Err(
                        PinrayError::InvalidConfig(quote("invalid display id '", id.0.as_str())),
                    );
                },
            };
            return match position(displays, number) {
                Some(index) => Ok(index),
                None => {
                    let mut message: String = joined(
                        "display ",
                        decimal_text(number as u64).as_str(),
                    );
                    message.append(" not found");
                    Err(PinrayError::Platform(message))
                },
            };
        }
    }
    if displays.len() > 0 {
        Ok(0)
    } else {
        Err(PinrayError::Platform("no displays via SCShareableContent".to_owned()))
    }
}

/// The window that an id means, by its place among the windows.
pub fn find_window(windows: &Vec<WindowReport>, id: &str) -> (reply: Result<usize>)
    ensures
        match id_number(id@) {
            Some(number) => {
                &&& reply matches Ok(index) ==> index < windows@.len() && windows@[index as int].id
                    == number && forall|j: int|
                    0 <= j < index ==> (#[trigger] windows@[j]).id != number
                &&& reply matches Ok(index) ==> first_window_with(windows@, number, index as int)
                &&& reply is Err ==> {
                    &&& forall|j: int|
                        0 <= j < windows@.len() ==> (#[trigger] windows@[j]).id != number
                    &&& no_window_with(windows@, number)
                    &&& crate::error::is_platform(
                        reply,
                        "window "@ + crate::text::decimal(number) + " not found"@,
                    )
                }
            },
            None => crate::error::is_invalid_config(reply, quoted("invalid window id '"@, id@)),
        },
{
    let number: u32 = match parse_u32(id) {
        Some(number) => number,
        None => {
            return Err(PinrayError::InvalidConfig(quote("invalid window id '", id)));
        },
    };
    let mut i: usize = 0;
    while i < windows.len()
        invariant
            i <= windows@.len(),
            id_number(id@) == Some(number as nat),
            forall|j: int| 0 <= j < i ==> (#[trigger] windows@[j]).id != number,
        decreases windows@.len() - i,
    {
        if windows[i].id == number {
            return Ok(i);
        }
        i += 1;
    }
    let mut message: String = joined("window ", decimal_text(number as u64).as_str());
    message.append(" not found");
    Err(PinrayError::Platform(message))
}

/// Whatever number a source has, the id that it is listed under leads back to
/// it.
pub proof fn listed_ids_are_read_back(number: u32)
    ensures
        id_number(crate::text::decimal(number as nat)) == Some(number as nat),
{
    crate::text::decimal_is_read_back(number as nat);
}

/// The size of the display that a session means, with its scale. A display
/// that is not there counts as 1920 by 1080 at scale one; all others are taken
/// to be twice as dense.
#[derive(Debug, Clone, Copy, PartialEq, Eq, Structural)]
pub struct DisplayDimensions {
    pub width: u32,
    pub height: u32,
    pub scale: u32,
}

/// The dimensions of a display that is there.
pub open spec fn doubled(report: DisplayReport) -> DisplayDimensions {
    DisplayDimensions { width: report.width, height: report.height, scale: 2 }
}

/// The dimensions of a display that is not.
pub open spec fn assumed() -> DisplayDimensions {
    DisplayDimensions { width: 1920, height: 1080, scale: 1 }
}

/// `dimensions` are those of the first display with this number.
pub open spec fn dimensions_of(
    displays: Seq<DisplayReport>,
    number: nat,
    dimensions: DisplayDimensions,
) -> bool {
    ||| exists|index: int| #[trigger]
        first_with(displays, number, index) && dimensions == doubled(displays[index])
    ||| dimensions == assumed() && forall|j: int|
        0 <= j < displays.len() ==> (#[trigger] displays[j]).id != number
}

/// `dimensions` are those of the display that a session means. Here an id that
/// is no number means the first display.
pub open spec fn has_dimensions(
    displays: Seq<DisplayReport>,
    target: Option<VideoCaptureTarget>,
    dimensions: DisplayDimensions,
) -> bool {
    let wanted = match named_display(target) {
        Some(id) => id_number(id),
        None => None,
    };
    match wanted {
        Some(number) => dimensions_of(displays, number, dimensions),
        None => dimensions == if displays.len() > 0 {
            doubled(displays[0])
        } else {
            assumed()
        },
    }
}

/// The dimensions of the display that a session means.
pub fn display_dimensions(displays: &Vec<DisplayReport>, target: &Option<VideoCaptureTarget>) -> (dimensions:
    DisplayDimensions)
    ensures
        has_dimensions(displays@, *target, dimensions),
{
    let mut place: Option<usize> = if displays.len() > 0 {
        Some(0)
    } else {
        None
    };
    if let Some(VideoCaptureTarget::Display(id)) = target {
        if !same_text(id.0.as_str(), "auto") {
            if let Some(number) = parse_u32(id.0.as_str()) {
                place = position(displays, number);
            }
        }
    }
    match place {
        Some(index) => {
            let report: DisplayReport = displays[index];
            // Twice as dense by default; the exact scale is not known here.
            DisplayDimensions { width: report.width, height: report.height, scale: 2 }
        },
        None => DisplayDimensions { width: 1920, height: 1080, scale: 1 },
    }
}

/// What asking the system for its shareable content comes to: the content,
/// unless the system had something against it or gave nothing.
pub fn shared_content<T>(refusal: Option<String>, content: Option<T>) -> (reply: Result<T>)
    ensures
        match (refusal, content) {
            (Some(message), _) => crate::error::is_platform(
                reply,
                "SCShareableContent failed: "@ + message@,
            ),
            (None, Some(found)) => reply == Ok::<T, PinrayError>(found),
            (None, None) => crate::error::is_platform(reply, "SCShareableContent is nil"@),
        },
{
    match (refusal, content) {
        (Some(message), _) => Err(
            PinrayError::Platform(joined("SCShareableContent failed: ", message.as_str())),
        ),
        (None, Some(found)) => Ok(found),
        (None, None) => Err(PinrayError::Platform("SCShareableContent is nil".to_owned())),
    }
}

/// A number in digits is not `auto`.
pub proof fn lemma_numbers_are_not_auto(number: nat)
    ensures
        crate::text::decimal(number) != "auto"@,
{
    reveal_strlit("auto");
    crate::text::decimal_is_read_back(number);
    assert(crate::text::is_digit(crate::text::decimal(number)[0]));
    assert("auto"@[0] == 'a');
}

/// The display that a session names by the id that it is listed under is the
/// first one with that id; it is refused only if there is none.
pub proof fn displays_are_found_by_their_listed_id(
    displays: &Vec<DisplayReport>,
    number: u32,
    id: SourceId,
    reply: Result<usize>,
)
    requires
        id.0@ == crate::text::decimal(number as nat),
        call_ensures(find_display, (displays, &Some(VideoCaptureTarget::Display(id))), reply),
    ensures
        reply matches Ok(index) ==> {
            &&& index < displays@.len()
            &&& displays@[index as int].id == number
            &&& forall|j: int| 0 <= j < index ==> (#[trigger] displays@[j]).id != number
        },
        reply matches Err(problem) ==> problem is Platform && forall|j: int|
            0 <= j < displays@.len() ==> (#[trigger] displays@[j]).id != number,
{
    listed_ids_are_read_back(number);
    lemma_numbers_are_not_auto(number as nat);
}

/// A session that names no display, or `auto`, gets the first one, if there is
/// one at all.
pub proof fn the_first_display_is_the_default(
    displays: &Vec<DisplayReport>,
    target: Option<VideoCaptureTarget>,
    reply: Result<usize>,
)
    requires
        call_ensures(find_display, (displays, &target), reply),
        target matches Some(VideoCaptureTarget::Display(id)) ==> id.0@ == "auto"@,
    ensures
        displays@.len() > 0 <==> reply is Ok,
        reply matches Ok(index) ==> index == 0,
        reply matches Err(problem) ==> problem is Platform,
{
}

/// The window that a session names by the id that it is listed under is the first
/// one with that id; it is refused only if there is none.
pub proof fn windows_are_found_by_their_listed_id(
    windows: &Vec<WindowReport>,
    number: u32,
    id: &str,
    reply: Result<usize>,
)
    requires
        id@ == crate::text::decimal(number as nat),
        call_ensures(find_window, (windows, id), reply),
    ensures
        reply matches Ok(index) ==> {
            &&& index < windows@.len()
            &&& windows@[index as int].id == number
            &&& forall|j: int| 0 <= j < index ==> (#[trigger] windows@[j]).id != number
        },
        reply matches Err(problem) ==> problem is Platform && forall|j: int|
            0 <= j < windows@.len() ==> (#[trigger] windows@[j]).id != number,
{
    listed_ids_are_read_back(number);
}

/// A display that is there has its own size and twice the density; one that is
/// not is taken to be 1920 by 1080, as dense as it says.
pub proof fn displays_have_their_own_size(
    displays: &Vec<DisplayReport>,
    number: u32,
    id: SourceId,
    found: Result<usize>,
    dimensions: DisplayDimensions,
)
    requires
        id.0@ == crate::text::decimal(number as nat),
        call_ensures(find_display, (displays, &Some(VideoCaptureTarget::Display(id))), found),
        call_ensures(
            display_dimensions,
            (displays, &Some(VideoCaptureTarget::Display(id))),
            dimensions,
        ),
    ensures
        found matches Ok(index) ==> dimensions.width == displays@[index as int].width
            && dimensions.height == displays@[index as int].height && dimensions.scale == 2,
        found is Err ==> dimensions.width == 1920 && dimensions.height == 1080 && dimensions.scale
            == 1,
{
    displays_are_found_by_their_listed_id(displays, number, id, found);
    listed_ids_are_read_back(number);
    lemma_numbers_are_not_auto(number as nat);
    if let Ok(index) = found {
        assert(displays@[index as int].id == number);
        if exists|at: int| #[trigger]
            first_with(displays@, number as nat, at) && dimensions == doubled(displays@[at]) {
            let at = choose|at: int| #[trigger]
                first_with(displays@, number as nat, at) && dimensions == doubled(displays@[at]);
            assert(first_with(displays@, number as nat, at));
            if at < index {
                assert(displays@[at].id != number);
            } else if index < at {
                assert(displays@[index as int].id != number);
            }
        }
    }
}

/// Where no display is named, the first one's size counts.
pub proof fn the_first_display_gives_the_size(
    displays: &Vec<DisplayReport>,
    target: Option<VideoCaptureTarget>,
    dimensions: DisplayDimensions,
)
    requires
        call_ensures(display_dimensions, (displays, &target), dimensions),
        target matches Some(VideoCaptureTarget::Display(id)) ==> id.0@ == "auto"@,
    ensures
        displays@.len() > 0 ==> dimensions.width == displays@[0].width && dimensions.height
            == displays@[0].height && dimensions.scale == 2,
        displays@.len() == 0 ==> dimensions.width == 1920 && dimensions.height == 1080
            && dimensions.scale == 1,
{
}

/// Every display is listed, in order, under its number and in its size, and the
/// windows behind them. None is listed as the primary one.
pub proof fn displays_are_listed_in_order(
    displays: &Vec<DisplayReport>,
    windows: &Vec<WindowReport>,
    sources: Vec<CaptureSource>,
    i: int,
)
    requires
        call_ensures(list_content, (displays, windows), sources),
    ensures
        sources@.len() >= displays@.len(),
        0 <= i < displays@.len() ==> (sources@[i] matches CaptureSource::Display(display) && {
            &&& display.id.0@ == crate::text::decimal(displays@[i].id as nat)
            &&& display.name@ == "Display "@ + crate::text::decimal(displays@[i].id as nat)
            &&& display.width == displays@[i].width
            &&& display.height == displays@[i].height
            &&& display.scale_factor_milli == 1000
            &&& !display.is_primary
        }),
        displays@.len() <= i < sources@.len() ==> sources@[i] is Window,
{
    let view = crate::source::listing(sources@);
    assert(view.len() == sources@.len());
    if 0 <= i < sources@.len() {
        assert(view[i] == sources@[i]@);
    }
    lemma_only_windows(windows@);
    if displays@.len() <= i < sources@.len() {
        assert(view[i] == window_listings(windows@)[i - displays@.len()]);
        assert(window_listings(windows@)[i - displays@.len()] is Window);
    }
}

proof fn lemma_only_windows(reports: Seq<WindowReport>)
    ensures
        window_listings(reports).len() <= reports.len(),
        forall|i: int|
            0 <= i < window_listings(reports).len() ==> (#[trigger] window_listings(
                reports,
            )[i]) is Window,
    decreases reports.len(),
{
    if reports.len() > 0 {
        lemma_only_windows(reports.drop_last());
    }
}

/// A window is listed under its number, with its title and its application,
/// exactly if it has either; the others keep their places.
pub proof fn one_more_window_is_one_more_source(
    displays: &Vec<DisplayReport>,
    windows: &Vec<WindowReport>,
    fewer: &Vec<WindowReport>,
    sources: Vec<CaptureSource>,
    before: Vec<CaptureSource>,
)
    requires
        windows@.len() > 0,
        fewer@ == windows@.drop_last(),
        call_ensures(list_content, (displays, windows), sources),
        call_ensures(list_content, (displays, fewer), before),
    ensures
        ({
            let last = windows@.last();
            &&& last.title@.len() == 0 && last.app_name is None ==> sources@.len() == before@.len()
            &&& last.title@.len() > 0 || last.app_name is Some ==> {
                &&& sources@.len() == before@.len() + 1
                &&& sources@.last() matches CaptureSource::Window(window) && {
                    &&& window.id.0@ == crate::text::decimal(last.id as nat)
                    &&& window.title@ == last.title@
                    &&& window.app_name is Some <==> last.app_name is Some
                    &&& window.app_name matches Some(name) ==> name@ == last.app_name->0@
                }
            }
            &&& forall|i: int| 0 <= i < before@.len() ==> (#[trigger] sources@[i])@ == before@[i]@
        }),
{
    let view = crate::source::listing(sources@);
    let earlier = crate::source::listing(before@);
    assert(view.len() == sources@.len());
    assert(earlier.len() == before@.len());
    assert forall|i: int| 0 <= i < before@.len() implies (#[trigger] sources@[i])@ == before@[i]@ by {
        assert(view[i] == sources@[i]@);
        assert(earlier[i] == before@[i]@);
        assert(view[i] == earlier[i]);
    }
    if sources@.len() > 0 {
        assert(view[view.len() - 1] == sources@.last()@);
    }
}

/// The content is what the system gave, unless it refused.
pub proof fn refused_content_is_told<T>(
    refusal: Option<String>,
    content: Option<T>,
    reply: Result<T>,
)
    requires
        call_ensures(shared_content::<T>, (refusal, content), reply),
    ensures
        reply is Ok <==> refusal is None && content is Some,
        reply matches Ok(found) ==> content == Some(found),
        refusal matches Some(message) ==> (reply matches Err(PinrayError::Platform(told)) && told@
            == "SCShareableContent failed: "@ + message@),
{
}

/// Every refusal tells why.
pub proof fn refusals_tell_why(
    displays: &Vec<DisplayReport>,
    windows: &Vec<WindowReport>,
    number: u32,
    id: SourceId,
    text: &str,
    display: Result<usize>,
    window: Result<usize>,
    first: Result<usize>,
    missing: Result<usize>,
)
    requires
        id.0@ == crate::text::decimal(number as nat),
        text@ == id.0@,
        call_ensures(find_display, (displays, &Some(VideoCaptureTarget::Display(id))), display),
        call_ensures(find_window, (windows, text), window),
        call_ensures(find_display, (displays, &None::<VideoCaptureTarget>), first),
        call_ensures(shared_content::<usize>, (None::<String>, None::<usize>), missing),
    ensures
        display matches Err(problem) ==> (problem matches PinrayError::Platform(message)
            && message@ == "display "@ + id.0@ + " not found"@),
        window matches Err(problem) ==> (problem matches PinrayError::Platform(message) && message@
            == "window "@ + id.0@ + " not found"@),
        first matches Err(problem) ==> (problem matches PinrayError::Platform(message) && message@
            == "no displays via SCShareableContent"@),
        missing matches Err(PinrayError::Platform(message)) && message@
            == "SCShareableContent is nil"@,
{
    listed_ids_are_read_back(number);
    lemma_numbers_are_not_auto(number as nat);
}

/// An id that is no number names nothing, and is told.
pub proof fn ids_that_are_no_numbers_are_told(
    displays: &Vec<DisplayReport>,
    windows: &Vec<WindowReport>,
    id: SourceId,
    text: &str,
    number: Option<u32>,
    display: Result<usize>,
    window: Result<usize>,
)
    requires
        text@ == id.0@,
        id.0@ != "auto"@,
        call_ensures(parse_u32, (text,), number),
        call_ensures(find_display, (displays, &Some(VideoCaptureTarget::Display(id))), display),
        call_ensures(find_window, (windows, text), window),
    ensures
        number is None ==> (display matches Err(PinrayError::InvalidConfig(message)) && message@
            == "invalid display id '"@ + id.0@ + "'"@),
        number is None ==> (window matches Err(PinrayError::InvalidConfig(message)) && message@
            == "invalid window id '"@ + id.0@ + "'"@),
        number matches Some(wanted) ==> (display matches Ok(index) ==> displays@[index as int].id
            == wanted),
        number matches Some(wanted) ==> (window matches Ok(index) ==> windows@[index as int].id
            == wanted),
{
}

/// An id that is no number leaves the size to the first display.
pub proof fn ids_that_are_no_numbers_leave_the_size(
    displays: &Vec<DisplayReport>,
    id: SourceId,
    text: &str,
    dimensions: DisplayDimensions,
)
    requires
        text@ == id.0@,
        call_ensures(parse_u32, (text,), None::<u32>),
        call_ensures(
            display_dimensions,
            (displays, &Some(VideoCaptureTarget::Display(id))),
            dimensions,
        ),
        displays@.len() > 0,
    ensures
        dimensions.width == displays@[0].width,
        dimensions.height == displays@[0].height,
        dimensions.scale == 2,
{
}

} // verus!
