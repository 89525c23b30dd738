//! X11 display and window listings.
//!
//! Displays are the server's monitors (per-monitor regions of the root window,
//! primary flag included). Windows come from the window manager's list of
//! managed application windows.
use x11rb::protocol::xproto::GetPropertyReply;

use vstd::prelude::*;

use crate::error::{PinrayError, Result};
use crate::platform_linux::x11::WindowSize;
use crate::source::{
    bad_window_id, display_not_found, pick_display, DisplaySource, SourceId, WindowSource,
};
use crate::text::{decimal_text, joined, parse_u32, second_piece, strip_prefix};

verus! {

/// What `String::from_utf8_lossy` makes of bytes.
pub uninterp spec fn utf8_lossy(bytes: Seq<u8>) -> Seq<char>;

/// Calls `String::from_utf8_lossy`, which decodes the same bytes to the same
/// text every time.
#[verifier::external_body]
fn decode_utf8(bytes: &[u8]) -> (text: String)
    ensures
        text@ == utf8_lossy(bytes@),
{
    String::from_utf8_lossy(bytes).into_owned()
}

/// The number that four bytes stand for, lowest byte first.
pub open spec fn little_endian(bytes: Seq<u8>, at: int) -> int {
    bytes[at] + bytes[at + 1] * 0x100 + bytes[at + 2] * 0x1_0000 + bytes[at + 3] * 0x100_0000
}

/// The number that four bytes stand for, highest byte first.
pub open spec fn big_endian(bytes: Seq<u8>, at: int) -> int {
    bytes[at + 3] + bytes[at + 2] * 0x100 + bytes[at + 1] * 0x1_0000 + bytes[at] * 0x100_0000
}

/// `words` are the whole 32-bit words of `bytes`, all of them in one byte
/// order.
pub open spec fn are_words_of(words: Seq<u32>, bytes: Seq<u8>) -> bool {
    &&& words.len() == bytes.len() / 4
    &&& {
        ||| forall|i: int|
            0 <= i < words.len() ==> #[trigger] words[i] == little_endian(bytes, 4 * i)
        ||| forall|i: int| 0 <= i < words.len() ==> #[trigger] words[i] == big_endian(bytes, 4 * i)
    }
}

/// Calls `GetPropertyReply::value32` of the `x11rb` crate, which reads a
/// property of 32-bit items: whole words only, in the byte order of the
/// machine. A property of another format has none. Which of the two byte
/// orders it is, is not stated: that depends on the machine.
#[verifier::external_body]
fn property_words(format: u8, value: Vec<u8>) -> (words: Option<Vec<u32>>)
    ensures
        words is Some <==> format == 32,
        words matches Some(items) ==> are_words_of(items@, value@),
{
    let mut reply = GetPropertyReply::default();
    reply.format = format;
    reply.value = value;
    reply.value32().map(|items| items.collect())
}

/// The managed windows, given the format and the value of the property that
/// lists them. A property of the wrong format lists none.
pub fn client_windows(format: u8, value: Vec<u8>) -> (windows: Vec<u32>)
    ensures
        format == 32 ==> are_words_of(windows@, value@),
        format != 32 ==> windows@.len() == 0,
{
    match property_words(format, value) {
        Some(windows) => windows,
        None => Vec::new(),
    }
}

/// A monitor as the server describes it.
#[derive(Debug)]
pub struct MonitorReport {
    /// The number that stands for the monitor's name.
    pub atom: u32,
    /// The name itself, where the server gave it.
    pub name: Option<Vec<u8>>,
    pub x: i16,
    pub y: i16,
    pub width: u16,
    pub height: u16,
    pub primary: bool,
}

/// The region of the root window that a monitor occupies, needed to position
/// a capture and translate cursor coordinates.
#[derive(Debug, Clone, Copy, PartialEq, Eq, Structural)]
pub struct MonitorRegion {
    pub x: i16,
    pub y: i16,
    pub width: u16,
    pub height: u16,
}

/// The name that a monitor is listed under: its own, or its number.
pub open spec fn monitor_name(report: MonitorReport) -> Seq<char> {
    match report.name {
        Some(bytes) => utf8_lossy(bytes@),
        None => "monitor-"@ + crate::text::decimal(report.atom as nat),
    }
}

/// How a monitor is listed under `name`. There is no reliable per-monitor
/// scale; it is always one.
pub open spec fn monitor_listing(report: MonitorReport, name: Seq<char>) -> crate::source::DisplayView {
    crate::source::DisplayView {
        id: "display:"@ + name,
        name,
        width: report.width as int,
        height: report.height as int,
        scale_factor_milli: 1000,
        is_primary: report.primary,
    }
}

/// The monitors of a server: how each is listed, and where it is.
#[derive(Debug)]
pub struct MonitorTable {
    pub sources: Vec<DisplaySource>,
    pub regions: Vec<MonitorRegion>,
}

impl MonitorTable {
    /// Every listed monitor has its region.
    pub open spec fn well_formed(&self) -> bool {
        self.sources@.len() == self.regions@.len()
    }

    /// The table lists exactly the monitors of the reports, in their order.
    pub open spec fn lists(&self, reports: Seq<MonitorReport>) -> bool {
        &&& self.well_formed()
        &&& self.sources@.len() == reports.len()
        &&& forall|i: int|
            0 <= i < reports.len() ==> (#[trigger] self.sources@[i])@ == monitor_listing(
                reports[i],
                monitor_name(reports[i]),
            )
        &&& forall|i: int|
            0 <= i < reports.len() ==> #[trigger] self.regions@[i] == (MonitorRegion {
                x: reports[i].x,
                y: reports[i].y,
                width: reports[i].width,
                height: reports[i].height,
            })
    }
}

/// Lists a monitor under `name`.
pub fn named_monitor(report: &MonitorReport, name: String) -> (source: DisplaySource)
    ensures
        source@ == monitor_listing(*report, name@),
{
    DisplaySource {
        id: SourceId::new(joined("display:", name.as_str())),
        name,
        width: report.width as u32,
        height: report.height as u32,
        scale_factor_milli: 1000,
        is_primary: report.primary,
    }
}

/// Lists the monitors of a server.
pub fn enumerate_monitors(reports: &Vec<MonitorReport>) -> (table: MonitorTable)
    ensures
        table.lists(reports@),
{
    let mut table: MonitorTable = MonitorTable { sources: Vec::new(), regions: Vec::new() };
    let mut i: usize = 0;
    while i < reports.len()
        invariant
            i <= reports@.len(),
            table.lists(reports@.subrange(0, i as int)),
        decreases reports@.len() - i,
    {
        let report: &MonitorReport = &reports[i];
        let name: String = match &report.name {
            Some(bytes) => decode_utf8(bytes.as_slice()),
            None => joined("monitor-", decimal_text(report.atom as u64).as_str()),
        };
        table.sources.push(named_monitor(report, name));
        table.regions.push(
            MonitorRegion {
                x: report.x,
                y: report.y,
                width: report.width,
                height: report.height,
            },
        );
        i += 1;
    }
    assert(reports@.subrange(0, reports@.len() as int) =~= reports@);
    table
}

/// The root window as it is listed.
pub open spec fn root_listing(size: WindowSize) -> crate::source::DisplayView {
    crate::source::DisplayView {
        id: "display:root"@,
        name: "root"@,
        width: size.width as int,
        height: size.height as int,
        scale_factor_milli: 1000,
        is_primary: true,
    }
}

/// The whole root screen as the only monitor. Minimal servers may report no
/// monitors; this stands in for them.
pub fn root_monitor(size: WindowSize) -> (table: MonitorTable)
    ensures
        table.well_formed(),
        table.sources@.len() == 1,
        table.sources@[0]@ == root_listing(size),
        table.regions@[0] == (MonitorRegion {
            x: 0,
            y: 0,
            width: size.width,
            height: size.height,
        }),
{
    let mut table: MonitorTable = MonitorTable { sources: Vec::new(), regions: Vec::new() };
    table.sources.push(
        DisplaySource {
            id: SourceId::new("display:root"),
            name: "root".to_owned(),
            width: size.width as u32,
            height: size.height as u32,
            scale_factor_milli: 1000,
            is_primary: true,
        },
    );
    table.regions.push(MonitorRegion { x: 0, y: 0, width: size.width, height: size.height });
    table
}

/// The monitors that a display id can stand for.
#[derive(Debug)]
pub enum MonitorSearch {
    Found(MonitorTable),
    /// The server reports no monitors: the size of the root window is needed,
    /// which stands in for them.
    NeedsRootSize,
}

/// Looks for monitors among what a server reports.
pub fn search_monitors(reports: &Vec<MonitorReport>) -> (search: MonitorSearch)
    ensures
        match search {
            MonitorSearch::Found(table) => reports@.len() > 0 && table.lists(reports@),
            MonitorSearch::NeedsRootSize => reports@.len() == 0,
        },
{
    if reports.len() == 0 {
        MonitorSearch::NeedsRootSize
    } else {
        MonitorSearch::Found(enumerate_monitors(reports))
    }
}

/// Resolves a display id (or `"auto"` for the primary monitor) to the region
/// of its monitor.
pub fn find_monitor(table: &MonitorTable, id: &SourceId) -> (reply: Result<MonitorRegion>)
    requires
        table.well_formed(),
    ensures
        reply matches Ok(region) ==> exists|index: int| #[trigger]
            crate::source::picks(table.sources@, id.0@, index) && table.regions@[index] == region,
        reply is Err ==> {
            &&& forall|index: int| !crate::source::picks(table.sources@, id.0@, index)
            &&& crate::source::picks_nothing(table.sources@, id.0@)
            &&& crate::error::is_invalid_config(reply, "display source not found: "@ + id.0@)
        },
{
    match pick_display(&table.sources, id) {
        Some(index) => Ok(table.regions[index]),
        None => Err(display_not_found(id)),
    }
}

/// The id of the window with this number.
pub open spec fn window_id_text(window: u32) -> Seq<char> {
    "window:"@ + crate::text::decimal(window as nat)
}

/// The window number that an id carries.
pub open spec fn window_of(id: Seq<char>) -> Option<nat> {
    if crate::text::starts_with(id, "window:"@) {
        match crate::text::written_unsigned(crate::text::behind(id, "window:"@)) {
            Some(window) => if window <= u32::MAX {
                Some(window)
            } else {
                None
            },
            None => None,
        }
    } else {
        None
    }
}

/// The id of the window with this number.
pub fn window_id(window: u32) -> (id: SourceId)
    ensures
        id.0@ == window_id_text(window),
{
    SourceId(joined("window:", decimal_text(window as u64).as_str()))
}

/// Parses a window id of the form `window:<number>`.
pub fn parse_window_id(id: &SourceId) -> (reply: Result<u32>)
    ensures
        reply matches Ok(window) ==> window_of(id.0@) == Some(window as nat),
        reply is Ok <==> window_of(id.0@) is Some,
        reply is Err ==> crate::error::is_invalid_config(
            reply,
            "invalid window source id: "@ + id.0@,
        ),
{
    if let Some(digits) = strip_prefix(id.0.as_str(), "window:") {
        if let Some(window) = parse_u32(digits.as_str()) {
            return Ok(window);
        }
    }
    Err(bad_window_id(id))
}

/// The id that a window is listed under leads back to the window.
pub proof fn listed_windows_are_found_again(window: u32)
    ensures
        window_of(window_id_text(window)) == Some(window as nat),
{
    crate::text::a_prefix_comes_off_again("window:"@, crate::text::decimal(window as nat));
    crate::text::decimal_is_read_back(window as nat);
}

/// The properties of a managed window, each empty where the window has none.
#[derive(Debug)]
pub struct WindowReport {
    pub window: u32,
    /// The title that the window manager's conventions ask for, in UTF-8.
    pub net_wm_name: Vec<u8>,
    /// The title of old.
    pub wm_name: Vec<u8>,
    /// Instance and class of the window, each with a zero behind it.
    pub wm_class: Vec<u8>,
}

/// A text property: nothing where it is empty.
pub open spec fn property_text(value: Seq<u8>) -> Option<Seq<char>> {
    if value.len() == 0 {
        None
    } else {
        Some(utf8_lossy(value))
    }
}

/// Reads a text property.
fn read_string_property(value: &Vec<u8>) -> (text: Option<String>)
    ensures
        text is Some <==> property_text(value@) is Some,
        text matches Some(found) ==> Some(found@) == property_text(value@),
{
    if value.len() == 0 {
        return None;
    }
    Some(decode_utf8(value.as_slice()))
}

/// The title of a window: the modern one, else that of old, else none.
pub open spec fn title_of(
    net_wm_name: Option<Seq<char>>,
    wm_name: Option<Seq<char>>,
) -> Seq<char> {
    match net_wm_name {
        Some(title) => title,
        None => match wm_name {
            Some(title) => title,
            None => Seq::empty(),
        },
    }
}

/// How a window is listed, given its decoded properties: the class half of
/// `instance\0class\0` names the application. A window without a title is not
/// listed.
pub open spec fn window_listing(
    window: u32,
    net_wm_name: Option<Seq<char>>,
    wm_name: Option<Seq<char>>,
    wm_class: Option<Seq<char>>,
) -> Option<crate::source::WindowView> {
    let title = title_of(net_wm_name, wm_name);
    if title.len() == 0 {
        None
    } else {
        Some(
            crate::source::WindowView {
                id: window_id_text(window),
                title,
                app_name: match wm_class {
                    Some(raw) => {
                        let halves = crate::text::pieces(raw, '\0');
                        if halves.len() > 1 {
                            Some(halves[1])
                        } else {
                            None
                        }
                    },
                    None => None,
                },
            },
        )
    }
}

pub open spec fn text_of(text: Option<String>) -> Option<Seq<char>> {
    match text {
        Some(found) => Some(found@),
        None => None,
    }
}

/// Lists a window under its decoded properties.
pub fn named_window(
    window: u32,
    net_wm_name: Option<String>,
    wm_name: Option<String>,
    wm_class: Option<String>,
) -> (source: Option<WindowSource>)
    ensures
        ({
            let listing = window_listing(
                window,
                text_of(net_wm_name),
                text_of(wm_name),
                text_of(wm_class),
            );
            &&& source is Some <==> listing is Some
            &&& source matches Some(found) ==> found@ == listing->0
        }),
{
    // Prefer the UTF-8 title, fall back to the legacy one.
    let title: String = match (net_wm_name, wm_name) {
        (Some(title), _) => title,
        (None, Some(title)) => title,
        (None, None) => String::new(),
    };
    if title.as_str().is_empty() {
        return None;
    }
    let app_name: Option<String> = match wm_class {
        Some(raw) => second_piece(raw.as_str(), '\0'),
        None => None,
    };
    Some(WindowSource { id: window_id(window), title, app_name })
}

/// A window as it is listed.
pub open spec fn report_listing(report: WindowReport) -> Option<crate::source::WindowView> {
    window_listing(
        report.window,
        property_text(report.net_wm_name@),
        property_text(report.wm_name@),
        property_text(report.wm_class@),
    )
}

/// The listing of all the windows of the reports.
pub open spec fn window_listings(reports: Seq<WindowReport>) -> Seq<crate::source::WindowView>
    decreases reports.len(),
{
    if reports.len() == 0 {
        Seq::empty()
    } else {
        let before = window_listings(reports.drop_last());
        match report_listing(reports.last()) {
            Some(view) => before.push(view),
            None => before,
        }
    }
}

/// Lists the windows that have a title.
pub fn enumerate_windows(reports: &Vec<WindowReport>) -> (windows: Vec<WindowSource>)
    ensures
        windows@.len() == window_listings(reports@).len(),
        forall|i: int|
            0 <= i < windows@.len() ==> (#[trigger] windows@[i])@ == window_listings(reports@)[i],
        crate::source::are_listed(windows@, window_listings(reports@)),
{
    let mut windows: Vec<WindowSource> = Vec::new();
    let mut i: usize = 0;
    while i < reports.len()
        invariant
            i <= reports@.len(),
            windows@.len() == window_listings(reports@.subrange(0, i as int)).len(),
            forall|j: int|
                0 <= j < windows@.len() ==> (#[trigger] windows@[j])@ == window_listings(
                    reports@.subrange(0, i as int),
                )[j],
        decreases reports@.len() - i,
    {
        assert(reports@.subrange(0, i + 1).drop_last() =~= reports@.subrange(0, i as int));
        let report: &WindowReport = &reports[i];
        let listed: Option<WindowSource> = named_window(
            report.window,
            read_string_property(&report.net_wm_name),
            read_string_property(&report.wm_name),
            read_string_property(&report.wm_class),
        );
        if let Some(window) = listed {
            windows.push(window);
        }
        i += 1;
    }
    assert(reports@.subrange(0, reports@.len() as int) =~= reports@);
    windows
}

/// A monitor is listed with the size that the server reports for it, under its
/// own name or else its number, and as the primary one exactly if it is. The
/// region that is captured for it is where the server says, and of the size that
/// the listing shows.
pub proof fn monitors_are_listed_as_they_are_captured(
    reports: &Vec<MonitorReport>,
    table: MonitorTable,
    i: int,
)
    requires
        call_ensures(enumerate_monitors, (reports,), table),
        0 <= i < reports@.len(),
    ensures
        table.sources@.len() == reports@.len(),
        table.regions@.len() == reports@.len(),
        table.sources@[i].width == reports@[i].width,
        table.sources@[i].height == reports@[i].height,
        table.sources@[i].width == table.regions@[i].width,
        table.sources@[i].height == table.regions@[i].height,
        table.regions@[i].x == reports@[i].x,
        table.regions@[i].y == reports@[i].y,
        table.sources@[i].is_primary <==> reports@[i].primary,
        table.sources@[i].scale_factor_milli == 1000,
        table.sources@[i].id.0@ == "display:"@ + table.sources@[i].name@,
        reports@[i].name matches Some(bytes) ==> table.sources@[i].name@ == utf8_lossy(bytes@),
        reports@[i].name is None ==> table.sources@[i].name@ == "monitor-"@ + crate::text::decimal(
            reports@[i].atom as nat,
        ),
{
    assert(table.sources@[i]@.width == table.sources@[i].width);
    assert(table.regions@[i].width == reports@[i].width);
}

/// The same holds of a single monitor, whatever name it is listed under.
pub proof fn a_monitor_keeps_its_size(
    report: &MonitorReport,
    name: String,
    source: DisplaySource,
)
    requires
        call_ensures(named_monitor, (report, name), source),
    ensures
        source.width == report.width,
        source.height == report.height,
        source.is_primary <==> report.primary,
        source.name@ == name@,
        source.id.0@ == "display:"@ + name@,
        source.scale_factor_milli == 1000,
{
    assert(source@.width == source.width);
}

/// The root window stands in for monitors as the primary one, from its corner on
/// and in its size.
pub proof fn the_root_stands_in_as_a_whole(size: WindowSize, table: MonitorTable)
    requires
        call_ensures(root_monitor, (size,), table),
    ensures
        table.sources@.len() == 1,
        table.regions@.len() == 1,
        table.sources@[0].width == size.width,
        table.sources@[0].height == size.height,
        table.sources@[0].is_primary,
        table.sources@[0].id.0@ == "display:root"@,
        table.sources@[0].name@ == "root"@,
        table.sources@[0].scale_factor_milli == 1000,
        table.regions@[0].x == 0,
        table.regions@[0].y == 0,
        table.regions@[0].width == size.width,
        table.regions@[0].height == size.height,
{
    assert(table.sources@[0]@.width == table.sources@[0].width);
}

/// The region that a display id stands for is that of the first monitor which is
/// listed under it, or for `auto` of the first primary one, or of the first of
/// all; it is refused only if no monitor is meant.
pub proof fn ids_stand_for_regions(
    table: &MonitorTable,
    id: &SourceId,
    reply: Result<MonitorRegion>,
)
    requires
        call_ensures(find_monitor, (table, id), reply),
        table.sources@.len() == table.regions@.len(),
    ensures
        reply matches Ok(region) ==> exists|i: int|
            {
                &&& 0 <= i < table.sources@.len()
                &&& #[trigger] table.regions@[i] == region
                &&& id.0@ != "auto"@ ==> table.sources@[i].id.0@ == id.0@ && forall|j: int|
                    0 <= j < i ==> (#[trigger] table.sources@[j]).id.0@ != id.0@
                &&& id.0@ == "auto"@ ==> table.sources@[i].is_primary || i == 0 && forall|j: int|
                    0 <= j < table.sources@.len() ==> !(#[trigger] table.sources@[j]).is_primary
                &&& id.0@ == "auto"@ ==> forall|j: int|
                    0 <= j < i ==> !(#[trigger] table.sources@[j]).is_primary
            },
        reply is Err && id.0@ == "auto"@ ==> table.sources@.len() == 0,
        reply is Err && id.0@ != "auto"@ ==> forall|j: int|
            0 <= j < table.sources@.len() ==> (#[trigger] table.sources@[j]).id.0@ != id.0@,
{
    if let Ok(region) = reply {
        let i = choose|i: int| #[trigger]
            crate::source::picks(table.sources@, id.0@, i) && table.regions@[i] == region;
        assert(crate::source::picks(table.sources@, id.0@, i));
        assert(table.regions@[i] == region);
    } else {
        if id.0@ == "auto"@ {
            if table.sources@.len() > 0 {
                let i = crate::source::auto_always_picks(table.sources@);
                assert(crate::source::picks(table.sources@, id.0@, i));
            }
        } else if exists|j: int|
            0 <= j < table.sources@.len() && (#[trigger] table.sources@[j]).id.0@ == id.0@ {
            let i = crate::source::lemma_first_named(
                table.sources@,
                id.0@,
                table.sources@.len() as int,
            );
            assert(crate::source::picks(table.sources@, id.0@, i));
        }
    }
}

/// The id that a window is listed under is parsed back to the window, and ids of
/// another form, or of no 32-bit number, are refused.
pub proof fn window_ids_are_parsed_back(window: u32, id: SourceId, reply: Result<u32>)
    requires
        call_ensures(window_id, (window,), id),
        call_ensures(parse_window_id, (&id,), reply),
    ensures
        reply == Ok::<u32, PinrayError>(window),
        id.0@ == "window:"@ + crate::text::decimal(window as nat),
{
    listed_windows_are_found_again(window);
}

/// An id that does not start as window ids do names no window.
pub proof fn other_ids_name_no_window(id: &SourceId, reply: Result<u32>)
    requires
        call_ensures(parse_window_id, (id,), reply),
    ensures
        reply is Ok ==> exists|number: Seq<char>| #[trigger] ("window:"@ + number) == id.0@,
{
    if reply is Ok {
        let number = crate::text::behind(id.0@, "window:"@);
        assert("window:"@ + number =~= id.0@);
    }
}

/// A window is listed under its modern title if it has one, else under that of
/// old, and not at all if the title that counts is empty. Its application is the
/// class half of its class property.
pub proof fn windows_are_listed_under_their_titles(
    window: u32,
    net_wm_name: Option<String>,
    wm_name: Option<String>,
    wm_class: Option<String>,
    source: Option<WindowSource>,
)
    requires
        call_ensures(named_window, (window, net_wm_name, wm_name, wm_class), source),
    ensures
        net_wm_name matches Some(title) ==> (source is Some <==> title@.len() > 0),
        net_wm_name is None ==> (wm_name matches Some(title) ==> (source is Some <==> title@.len()
            > 0)),
        net_wm_name is None && wm_name is None ==> source is None,
        source matches Some(found) ==> {
            &&& net_wm_name matches Some(title) ==> found.title@ == title@
            &&& net_wm_name is None ==> found.title@ == wm_name->0@
            &&& found.id.0@ == "window:"@ + crate::text::decimal(window as nat)
            &&& wm_class is None ==> found.app_name is None
        },
{
    if let Some(found) = source {
        assert(found@.title == found.title@);
        assert(found@.id == found.id.0@);
    }
}

/// A class property of two halves, each with a zero behind it, names the
/// application by the second.
pub proof fn the_class_names_the_application(
    window: u32,
    net_wm_name: Option<String>,
    wm_name: Option<String>,
    wm_class: String,
    source: Option<WindowSource>,
    instance: Seq<char>,
    class: Seq<char>,
    text: &str,
    second: Option<String>,
)
    requires
        call_ensures(named_window, (window, net_wm_name, wm_name, Some(wm_class)), source),
        source is Some,
        wm_class@ == instance + seq!['\0'] + class + seq!['\0'],
        instance.len() > 0,
        class.len() > 0,
        !instance.contains('\0'),
        !class.contains('\0'),
        text@ == wm_class@,
        call_ensures(second_piece, (text, '\0'), second),
    ensures
        source->0.app_name matches Some(name) && name@ == class,
{
    crate::text::the_second_piece_is_the_second_half(instance, class, '\0', text, second);
    assert(source->0@.app_name == match source->0.app_name {
        Some(name) => Some(name@),
        None => None,
    });
}

/// A window is among those that are listed exactly if it has a title, and the
/// windows that are listed are in the order of their reports.
pub proof fn titled_windows_are_listed_in_order(
    reports: &Vec<WindowReport>,
    windows: Vec<WindowSource>,
)
    requires
        call_ensures(enumerate_windows, (reports,), windows),
    ensures
        windows@.len() <= reports@.len(),
        (forall|i: int| 0 <= i < reports@.len() ==> report_listing(#[trigger] reports@[i]) is Some)
            ==> windows@.len() == reports@.len() && forall|i: int|
            0 <= i < reports@.len() ==> (#[trigger] windows@[i]).id.0@ == "window:"@
                + crate::text::decimal(reports@[i].window as nat),
        (forall|i: int|
            0 <= i < reports@.len() ==> (#[trigger] reports@[i]).net_wm_name@.len() == 0
                && reports@[i].wm_name@.len() == 0) ==> windows@.len() == 0,
{
    lemma_titled(reports@);
    assert forall|i: int|
        0 <= i < windows@.len() && windows@.len() == reports@.len() && windows@.len()
            == window_listings(reports@).len() implies (#[trigger] windows@[i]).id.0@
        == window_listings(reports@)[i].id by {
        assert(windows@[i]@.id == windows@[i].id.0@);
    }
}

proof fn lemma_titled(reports: Seq<WindowReport>)
    ensures
        window_listings(reports).len() <= reports.len(),
        (forall|i: int| 0 <= i < reports.len() ==> report_listing(#[trigger] reports[i]) is Some)
            ==> window_listings(reports).len() == reports.len() && forall|i: int|
            0 <= i < reports.len() ==> (#[trigger] window_listings(reports)[i]).id == "window:"@
                + crate::text::decimal(reports[i].window as nat),
        (forall|i: int|
            0 <= i < reports.len() ==> (#[trigger] reports[i]).net_wm_name@.len() == 0
                && reports[i].wm_name@.len() == 0) ==> window_listings(reports).len() == 0,
    decreases reports.len(),
{
    if reports.len() > 0 {
        let before = reports.drop_last();
        lemma_titled(before);
        assert forall|i: int| 0 <= i < before.len() implies before[i] == #[trigger] reports[i] by {}
        assert(reports.last() == reports[reports.len() - 1]);
        if forall|i: int| 0 <= i < reports.len() ==> report_listing(#[trigger] reports[i]) is Some {
            assert forall|i: int| 0 <= i < before.len() implies report_listing(
                #[trigger] before[i],
            ) is Some by {
                assert(before[i] == reports[i]);
            }
            assert(report_listing(reports[reports.len() - 1]) is Some);
        }
        if forall|i: int|
            0 <= i < reports.len() ==> (#[trigger] reports[i]).net_wm_name@.len() == 0
                && reports[i].wm_name@.len() == 0 {
            assert forall|i: int| 0 <= i < before.len() implies (
            #[trigger] before[i]).net_wm_name@.len() == 0 && before[i].wm_name@.len() == 0 by {
                assert(before[i] == reports[i]);
            }
            assert(reports[reports.len() - 1].net_wm_name@.len() == 0);
        }
    }
}

/// A window with a title adds one to the list, at its end: under its own number,
/// with the modern title if it has that property, else with that of old. One
/// without a title adds none. The others keep their places.
pub proof fn one_more_window_is_one_more_source(
    reports: &Vec<WindowReport>,
    fewer: &Vec<WindowReport>,
    windows: Vec<WindowSource>,
    before: Vec<WindowSource>,
)
    requires
        reports@.len() > 0,
        fewer@ == reports@.drop_last(),
        call_ensures(enumerate_windows, (reports,), windows),
        call_ensures(enumerate_windows, (fewer,), before),
    ensures
        ({
            let last = reports@.last();
            let modern = last.net_wm_name@.len() > 0;
            let of_old = last.wm_name@.len() > 0;
            let title = utf8_lossy(
                if modern {
                    last.net_wm_name@
                } else {
                    last.wm_name@
                },
            );
            &&& (modern || of_old) && title.len() > 0 ==> {
                &&& windows@.len() == before@.len() + 1
                &&& windows@.last().id.0@ == "window:"@ + crate::text::decimal(last.window as nat)
                &&& windows@.last().title@ == title
                &&& last.wm_class@.len() == 0 ==> windows@.last().app_name is None
            }
            &&& !(modern || of_old) || title.len() == 0 ==> windows@.len() == before@.len()
            &&& forall|i: int| 0 <= i < before@.len() ==> (#[trigger] windows@[i])@ == before@[i]@
        }),
{
    let listed = window_listings(reports@);
    let earlier = window_listings(fewer@);
    assert forall|i: int| 0 <= i < before@.len() implies (#[trigger] windows@[i])@ == before@[i]@ by {
        assert(before@[i]@ == earlier[i]);
        assert(windows@[i]@ == listed[i]);
        assert(listed[i] == earlier[i]);
    }
    if windows@.len() > 0 {
        assert(windows@[windows@.len() - 1]@ == listed[windows@.len() - 1]);
        assert(windows@.last()@.title == windows@.last().title@);
        assert(windows@.last()@.id == windows@.last().id.0@);
        assert(windows@.last()@.app_name is Some <==> windows@.last().app_name is Some);
    }
}

/// The application of a listed window is the class half of its class property.
pub proof fn listed_windows_tell_their_application(
    reports: &Vec<WindowReport>,
    windows: Vec<WindowSource>,
    text: &str,
    class: Option<String>,
)
    requires
        reports@.len() == 1,
        call_ensures(enumerate_windows, (reports,), windows),
        windows@.len() == 1,
        reports@[0].wm_class@.len() > 0,
        text@ == utf8_lossy(reports@[0].wm_class@),
        call_ensures(second_piece, (text, '\0'), class),
    ensures
        windows@[0].app_name is Some <==> class is Some,
        windows@[0].app_name matches Some(name) ==> name@ == class->0@,
{
    assert(window_listings(reports@.drop_last()) =~= Seq::empty());
    assert(windows@[0]@ == window_listings(reports@)[0]);
    assert(windows@[0]@.app_name == match windows@[0].app_name {
        Some(name) => Some(name@),
        None => None,
    });
}

/// Monitors that are reported are all there is to search; the root stands in only
/// where there are none.
pub proof fn reported_monitors_are_searched(
    reports: &Vec<MonitorReport>,
    search: MonitorSearch,
    i: int,
)
    requires
        call_ensures(search_monitors, (reports,), search),
        0 <= i < reports@.len(),
    ensures
        search matches MonitorSearch::Found(table) && {
            &&& table.sources@.len() == reports@.len()
            &&& table.regions@.len() == reports@.len()
            &&& table.sources@[i].width == reports@[i].width
            &&& table.sources@[i].height == reports@[i].height
            &&& table.sources@[i].is_primary == reports@[i].primary
            &&& table.regions@[i].x == reports@[i].x
            &&& table.regions@[i].y == reports@[i].y
            &&& table.regions@[i].width == reports@[i].width
            &&& table.regions@[i].height == reports@[i].height
        },
{
    let table = search->Found_0;
    assert(table.sources@[i]@.width == table.sources@[i].width);
    assert(table.regions@[i].width == reports@[i].width);
}

/// The root's size is asked for exactly if no monitors are reported.
pub proof fn silent_servers_need_the_root(reports: &Vec<MonitorReport>, search: MonitorSearch)
    requires
        call_ensures(search_monitors, (reports,), search),
    ensures
        search is NeedsRootSize <==> reports@.len() == 0,
{
}

/// The managed windows are as many as the property has whole words, and none if
/// it is no list of words. A word whose bytes mirror each other is read for what
/// it is on every machine.
pub proof fn client_windows_are_the_words(format: u8, value: Vec<u8>, windows: Vec<u32>, i: int)
    requires
        call_ensures(client_windows, (format, value), windows),
    ensures
        format != 32 ==> windows@.len() == 0,
        format == 32 ==> windows@.len() == value@.len() / 4,
        format == 32 && 0 <= i < windows@.len() && value@[4 * i] == value@[4 * i + 3] && value@[4
            * i + 1] == value@[4 * i + 2] ==> windows@[i] == value@[4 * i] * 0x100_0001 + value@[4
            * i + 1] * 0x1_0100,
{
}

/// A window id is refused unless it carries a number of 32 bits.
pub proof fn refused_window_ids_are_told(id: &SourceId, reply: Result<u32>)
    requires
        call_ensures(parse_window_id, (id,), reply),
    ensures
        reply matches Err(problem) ==> (problem matches PinrayError::InvalidConfig(message)
            && message@ == "invalid window source id: "@ + id.0@),
{
}

} // verus!
