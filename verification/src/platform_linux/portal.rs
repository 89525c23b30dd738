//! The screencast portal's protocol: what to send, and what to make of the
//! answers.
//!
//! A screencast takes three requests, each answered by a signal on an object
//! of its own: a session is created, sources are selected for it, and it is
//! started. The answer to the last names the streams.
use zbus::zvariant::OwnedObjectPath;

use vstd::prelude::*;
use vstd::string::*;

use crate::error::{PinrayError, Result};
use crate::text::{chars_of, decimal_text, joined};

verus! {

/// Cursor capture mode for the XDG Desktop Portal screencast.
#[derive(Debug, Clone, Copy, PartialEq, Eq, Structural)]
pub enum CursorMode {
    /// Do not capture the cursor.
    Hidden,
    /// Render the cursor onto the captured framebuffer.
    Embedded,
}

impl CursorMode {
    pub open spec fn number(self) -> u32 {
        match self {
            CursorMode::Hidden => 1,
            CursorMode::Embedded => 2,
        }
    }

    /// The mode as the portal writes it.
    pub fn bits(self) -> (bits: u32)
        ensures
            bits == self.number(),
    {
        match self {
            CursorMode::Hidden => 1,
            CursorMode::Embedded => 2,
        }
    }
}

/// A single screen/window stream from the portal.
///
/// `node_id` is the PipeWire node id to connect to.
/// `width`/`height` are optional and may not be set by all compositors.
#[derive(Debug, Clone, Copy, PartialEq, Eq, Structural)]
pub struct ScreenCastStream {
    pub node_id: u32,
    pub width: Option<u32>,
    pub height: Option<u32>,
}

/// An active screencast session with an open PipeWire remote, `F` being what
/// the system hands the remote over as.
///
/// The D-Bus connection must outlive this object — if it is dropped, the
/// session is torn down and the remote becomes invalid, causing "no more input
/// formats" from PipeWire.
#[derive(Debug)]
pub struct ActiveScreenCast<F> {
    pub fd: F,
    pub streams: Vec<ScreenCastStream>,
    pub restore_token: Option<String>,
}

impl<F> ActiveScreenCast<F> {
    /// Consume the session and return the raw parts: remote, streams, restore
    /// token.
    pub fn into_parts(self) -> (parts: (F, Vec<ScreenCastStream>, Option<String>))
        ensures
            parts == (self.fd, self.streams, self.restore_token),
    {
        (self.fd, self.streams, self.restore_token)
    }
}

/// The token with this number.
pub open spec fn token_text(number: u64) -> Seq<char> {
    "pinray_"@ + crate::text::decimal(number as nat)
}

/// The number behind `number`; the last one is followed by zero.
pub open spec fn number_after(number: u64) -> u64 {
    if number == u64::MAX {
        0
    } else {
        (number + 1) as u64
    }
}

/// Numbers the tokens of a process.
#[derive(Debug)]
pub struct TokenCounter {
    pub next: u64,
}

impl TokenCounter {
    /// The first token has number one.
    pub fn new() -> (counter: Self)
        ensures
            counter.next == 1,
    {
        TokenCounter { next: 1 }
    }

    /// A token that was not handed out before, until the counter runs out of
    /// numbers and starts over.
    pub fn next_token(&mut self) -> (token: String)
        ensures
            token@ == token_text(old(self).next),
            final(self).next == number_after(old(self).next),
    {
        let number: u64 = self.next;
        self.next = number.wrapping_add(1);
        joined("pinray_", decimal_text(number).as_str())
    }
}

/// Tokens with different numbers are different.
pub proof fn tokens_are_distinct(one: u64, other: u64)
    requires
        one != other,
    ensures
        token_text(one) != token_text(other),
{
    if token_text(one) == token_text(other) {
        crate::text::a_prefix_comes_off_again("pinray_"@, crate::text::decimal(one as nat));
        crate::text::a_prefix_comes_off_again("pinray_"@, crate::text::decimal(other as nat));
        crate::text::decimals_are_distinct(one as nat, other as nat);
    }
}

/// `text` without the colons at its start.
pub open spec fn without_colons(text: Seq<char>) -> Seq<char>
    decreases text.len(),
{
    if text.len() > 0 && text[0] == ':' {
        without_colons(text.subrange(1, text.len() as int))
    } else {
        text
    }
}

/// `text` with underscores for dots.
pub open spec fn dots_replaced(text: Seq<char>) -> Seq<char> {
    Seq::new(
        text.len(),
        |i: int|
            if text[i] == '.' {
                '_'
            } else {
                text[i]
            },
    )
}

/// The object that a request is answered on.
pub open spec fn request_path_text(unique_name: Seq<char>, token: Seq<char>) -> Seq<char> {
    "/org/freedesktop/portal/desktop/request/"@ + dots_replaced(without_colons(unique_name))
        + "/"@ + token
}

/// The part of a connection's unique name that goes into object paths.
fn unique_identifier(unique_name: &str) -> (identifier: String)
    ensures
        identifier@ == dots_replaced(without_colons(unique_name@)),
{
    let chars: Vec<char> = chars_of(unique_name);
    let mut start: usize = 0;
    assert(chars@.subrange(0, chars@.len() as int) =~= chars@);
    while start < chars.len() && chars[start] == ':'
        invariant
            start <= chars@.len(),
            without_colons(chars@.subrange(start as int, chars@.len() as int)) == without_colons(
                chars@,
            ),
        decreases chars@.len() - start,
    {
        assert(chars@.subrange(start as int, chars@.len() as int).subrange(
            1,
            chars@.len() - start,
        ) =~= chars@.subrange(start + 1, chars@.len() as int));
        start += 1;
    }
    let mut identifier: String = String::new();
    let ghost kept = chars@.subrange(start as int, chars@.len() as int);
    let mut i: usize = start;
    while i < chars.len()
        invariant
            start <= i <= chars@.len(),
            kept == chars@.subrange(start as int, chars@.len() as int),
            identifier@ == dots_replaced(kept).subrange(0, i - start),
        decreases chars@.len() - i,
    {
        if chars[i] == '.' {
            identifier.push('_');
        } else {
            identifier.push(chars[i]);
        }
        assert(identifier@ =~= dots_replaced(kept).subrange(0, i + 1 - start));
        i += 1;
    }
    assert(dots_replaced(kept).subrange(0, kept.len() as int) =~= dots_replaced(kept));
    identifier
}

/// The object that a request with this token is answered on. A connection
/// without a unique name gets no answers.
pub fn request_path(unique_name: Option<&str>, token: &str) -> (reply: Result<String>)
    ensures
        reply is Ok <==> unique_name is Some,
        reply matches Ok(path) ==> path@ == request_path_text(unique_name->0@, token@),
        unique_name is None ==> crate::error::is_platform(reply, "missing dbus unique name"@),
{
    match unique_name {
        Some(name) => {
            let mut path: String = joined(
                "/org/freedesktop/portal/desktop/request/",
                unique_identifier(name).as_str(),
            );
            path.append("/");
            path.append(token);
            Ok(path)
        },
        None => Err(PinrayError::Platform("missing dbus unique name".to_owned())),
    }
}

/// The character may stand in the name of an object.
pub open spec fn is_name_char(character: char) -> bool {
    'a' <= character <= 'z' || 'A' <= character <= 'Z' || '0' <= character <= '9' || character
        == '_'
}

/// `text` is an object path: the root `/`, or names of letters, digits and
/// underscores, each with one slash before it.
pub open spec fn is_object_path(text: Seq<char>) -> bool {
    &&& text.len() > 0
    &&& text[0] == '/'
    &&& forall|i: int| 0 <= i < text.len() ==> is_name_char(#[trigger] text[i]) || text[i] == '/'
    &&& forall|i: int|
        0 < i < text.len() && #[trigger] text[i] == '/' ==> text[i - 1] != '/'
    &&& text.len() > 1 ==> text.last() != '/'
}

/// Calls `OwnedObjectPath::try_from` of the `zvariant` crate on a string. It
/// takes object paths, and keeps them as they are; any other string it refuses
/// as invalid.
#[verifier::external_body]
fn parse_object_path(text: String) -> (path: std::result::Result<String, String>)
    ensures
        path is Ok <==> is_object_path(text@),
        path matches Ok(kept) ==> kept@ == text@,
        path matches Err(message) ==> message@ == "Invalid object path"@,
{
    match OwnedObjectPath::try_from(text) {
        Ok(path) => Ok(path.as_str().to_owned()),
        Err(error) => Err(error.to_string()),
    }
}

/// An option of a request.
#[derive(Debug)]
pub enum PortalValue {
    Text(String),
    Number(u32),
    Flag(bool),
}

/// An option's value as it is sent.
#[verifier::ext_equal]
pub enum PortalValueView {
    Text(Seq<char>),
    Number(u32),
    Flag(bool),
}

impl View for PortalValue {
    type V = PortalValueView;

    open spec fn view(&self) -> PortalValueView {
        match self {
            PortalValue::Text(text) => PortalValueView::Text(text@),
            PortalValue::Number(number) => PortalValueView::Number(*number),
            PortalValue::Flag(flag) => PortalValueView::Flag(*flag),
        }
    }
}

/// A named option of a request.
#[derive(Debug)]
pub struct PortalOption {
    pub name: &'static str,
    pub value: PortalValue,
}

impl View for PortalOption {
    type V = (Seq<char>, PortalValueView);

    open spec fn view(&self) -> (Seq<char>, PortalValueView) {
        (self.name@, self.value@)
    }
}

/// The options that a request is sent with.
pub open spec fn options_view(options: Seq<PortalOption>) -> Seq<(Seq<char>, PortalValueView)> {
    Seq::new(options.len(), |i: int| options[i]@)
}

/// The options of a request for a session.
pub open spec fn session_options(handle_token: Seq<char>, session_token: Seq<char>) -> Seq<
    (Seq<char>, PortalValueView),
> {
    seq![
        ("handle_token"@, PortalValueView::Text(handle_token)),
        ("session_handle_token"@, PortalValueView::Text(session_token)),
    ]
}

/// The options of a request for a session, given a token for the request and
/// one for the session.
pub fn create_session(handle_token: &str, session_handle_token: &str) -> (options: Vec<PortalOption>)
    ensures
        options_view(options@) == session_options(handle_token@, session_handle_token@),
{
    let mut options: Vec<PortalOption> = Vec::new();
    options.push(
        PortalOption { name: "handle_token", value: PortalValue::Text(handle_token.to_owned()) },
    );
    options.push(
        PortalOption {
            name: "session_handle_token",
            value: PortalValue::Text(session_handle_token.to_owned()),
        },
    );
    assert(options_view(options@) =~= session_options(handle_token@, session_handle_token@));
    options
}

/// The options of a selection of sources: one screen or window, with or
/// without the cursor, to be remembered until it is revoked. A restore token
/// stands for the choice that was made earlier.
pub open spec fn selection_options(
    handle_token: Seq<char>,
    include_cursor: bool,
    restore_token: Option<Seq<char>>,
) -> Seq<(Seq<char>, PortalValueView)> {
    let common = seq![
        ("handle_token"@, PortalValueView::Text(handle_token)),
        ("types"@, PortalValueView::Number(3)),
        ("multiple"@, PortalValueView::Flag(false)),
        (
            "cursor_mode"@,
            PortalValueView::Number(
                if include_cursor {
                    2
                } else {
                    1
                },
            ),
        ),
        ("persist_mode"@, PortalValueView::Number(2)),
    ];
    match restore_token {
        Some(token) => common.push(("restore_token"@, PortalValueView::Text(token))),
        None => common,
    }
}

/// The options of a selection of sources.
pub fn select_sources(handle_token: &str, include_cursor: bool, restore_token: Option<&str>) -> (options:
    Vec<PortalOption>)
    ensures
        options_view(options@) == selection_options(
            handle_token@,
            include_cursor,
            match restore_token {
                Some(token) => Some(token@),
                None => None,
            },
        ),
{
    let cursor_mode: CursorMode = if include_cursor {
        CursorMode::Embedded
    } else {
        CursorMode::Hidden
    };
    let mut options: Vec<PortalOption> = Vec::new();
    options.push(
        PortalOption { name: "handle_token", value: PortalValue::Text(handle_token.to_owned()) },
    );
    options.push(PortalOption { name: "types", value: PortalValue::Number(3) });
    options.push(PortalOption { name: "multiple", value: PortalValue::Flag(false) });
    options.push(
        PortalOption { name: "cursor_mode", value: PortalValue::Number(cursor_mode.bits()) },
    );
    options.push(PortalOption { name: "persist_mode", value: PortalValue::Number(2) });
    if let Some(token) = restore_token {
        options.push(
            PortalOption { name: "restore_token", value: PortalValue::Text(token.to_owned()) },
        );
    }
    assert(options_view(options@) =~= selection_options(
        handle_token@,
        include_cursor,
        match restore_token {
            Some(token) => Some(token@),
            None => None,
        },
    ));
    options
}

/// The options of a start.
pub open spec fn start_options(handle_token: Seq<char>) -> Seq<(Seq<char>, PortalValueView)> {
    seq![("handle_token"@, PortalValueView::Text(handle_token))]
}

/// The options of a start.
pub fn start(handle_token: &str) -> (options: Vec<PortalOption>)
    ensures
        options_view(options@) == start_options(handle_token@),
{
    let mut options: Vec<PortalOption> = Vec::new();
    options.push(
        PortalOption { name: "handle_token", value: PortalValue::Text(handle_token.to_owned()) },
    );
    assert(options_view(options@) =~= start_options(handle_token@));
    options
}

/// The signal that answers a request, as far as it could be read.
#[derive(Debug)]
pub enum Answer<T> {
    /// The connection ended first.
    Missing,
    /// It could not be read, for the reason given.
    Unreadable(String),
    /// A response code, and what came with it.
    Response(u32, T),
}

/// What a request is granted: its answer's contents, if the code says so.
pub open spec fn granted<T>(answer: Answer<T>) -> Option<T> {
    match answer {
        Answer::Response(code, body) => if code == 0 {
            Some(body)
        } else {
            None
        },
        _ => None,
    }
}

/// `reply` tells why `answer` grants nothing. Code one says that the user
/// declined.
pub open spec fn is_declined<T, U>(answer: Answer<T>, reply: Result<U>) -> bool {
    match answer {
        Answer::Missing => crate::error::is_platform(reply, "portal response signal missing"@),
        Answer::Unreadable(error) => crate::error::is_platform(reply, error@),
        Answer::Response(code, _) => if code == 1 {
            crate::error::is_unsupported(reply, "portal request cancelled by user"@)
        } else {
            crate::error::is_platform(
                reply,
                "portal request failed with response code "@ + crate::text::decimal(code as nat),
            )
        },
    }
}

/// What comes of a request: its answer's contents if the portal granted it.
pub fn wait_response<T>(answer: Answer<T>) -> (reply: Result<T>)
    ensures
        match granted(answer) {
            Some(body) => reply == Ok::<T, PinrayError>(body),
            None => is_declined(answer, reply),
        },
{
    match answer {
        Answer::Missing => Err(
            PinrayError::Platform("portal response signal missing".to_owned()),
        ),
        Answer::Unreadable(error) => Err(PinrayError::Platform(error)),
        Answer::Response(code, body) => if code == 0 {
            Ok(body)
        } else if code == 1 {
            Err(PinrayError::Unsupported("portal request cancelled by user".to_owned()))
        } else {
            Err(
                PinrayError::Platform(
                    joined(
                        "portal request failed with response code ",
                        decimal_text(code as u64).as_str(),
                    ),
                ),
            )
        },
    }
}

/// An entry of an answer.
#[derive(Debug)]
pub enum Entry<T> {
    Absent,
    /// It is of the wrong type, for the reason given.
    Malformed(String),
    Present(T),
}

/// The session that an answer's entry names.
pub open spec fn session_named(entry: Entry<String>) -> Option<Seq<char>> {
    match entry {
        Entry::Present(handle) => if is_object_path(handle@) {
            Some(handle@)
        } else {
            None
        },
        _ => None,
    }
}

/// `reply` tells why `entry` names no session.
pub open spec fn names_no_session<U>(entry: Entry<String>, reply: Result<U>) -> bool {
    match entry {
        Entry::Absent => crate::error::is_platform(
            reply,
            "portal response missing session_handle"@,
        ),
        Entry::Malformed(error) => crate::error::is_platform(reply, error@),
        Entry::Present(_) => crate::error::is_platform(reply, "Invalid object path"@),
    }
}

/// The session that was created, from the answer's entry for it.
pub fn session_handle(entry: Entry<String>) -> (reply: Result<String>)
    ensures
        match session_named(entry) {
            Some(handle) => reply matches Ok(path) && path@ == handle,
            None => names_no_session(entry, reply),
        },
{
    match entry {
        Entry::Absent => Err(
            PinrayError::Platform("portal response missing session_handle".to_owned()),
        ),
        Entry::Malformed(error) => Err(PinrayError::Platform(error)),
        Entry::Present(handle) => match parse_object_path(handle) {
            Ok(path) => Ok(path),
            Err(error) => Err(PinrayError::Platform(error)),
        },
    }
}

/// The size that a stream was announced with, if it was.
#[derive(Debug, Clone, Copy, PartialEq, Eq, Structural)]
pub struct AnnouncedSize {
    pub width: i32,
    pub height: i32,
}

/// A stream as the portal announces it.
#[derive(Debug, Clone, Copy, PartialEq, Eq, Structural)]
pub struct StreamReport {
    pub node_id: u32,
    pub size: Option<AnnouncedSize>,
}

/// A stream as capture knows it: a size below zero counts as zero.
pub open spec fn stream_of(report: StreamReport) -> ScreenCastStream {
    ScreenCastStream {
        node_id: report.node_id,
        width: match report.size {
            Some(size) => Some(crate::numbers::larger(size.width as int, 0) as u32),
            None => None,
        },
        height: match report.size {
            Some(size) => Some(crate::numbers::larger(size.height as int, 0) as u32),
            None => None,
        },
    }
}

fn extract_size(report: &StreamReport) -> (stream: ScreenCastStream)
    ensures
        stream == stream_of(*report),
{
    match report.size {
        Some(size) => ScreenCastStream {
            node_id: report.node_id,
            width: Some(
                if size.width >= 0 {
                    size.width as u32
                } else {
                    0
                },
            ),
            height: Some(
                if size.height >= 0 {
                    size.height as u32
                } else {
                    0
                },
            ),
        },
        None => ScreenCastStream { node_id: report.node_id, width: None, height: None },
    }
}

/// What a start was answered with.
#[derive(Debug)]
pub struct StartResponse {
    pub streams: Vec<ScreenCastStream>,
    pub restore_token: Option<String>,
}

/// The entries of an answer to a start can be read.
pub open spec fn is_readable(streams: Entry<Vec<StreamReport>>, restore_token: Entry<String>) -> bool {
    streams !is Malformed && restore_token !is Malformed
}

/// `reply` tells why the entries cannot be read; the one for the streams is
/// read first.
pub open spec fn is_unreadable<U>(
    streams: Entry<Vec<StreamReport>>,
    restore_token: Entry<String>,
    reply: Result<U>,
) -> bool {
    match (streams, restore_token) {
        (Entry::Malformed(error), _) => crate::error::is_platform(reply, error@),
        (_, Entry::Malformed(error)) => crate::error::is_platform(reply, error@),
        _ => false,
    }
}

impl StartResponse {
    /// The response has what the entries say. Either may be absent.
    pub open spec fn is_read_from(
        &self,
        streams: Entry<Vec<StreamReport>>,
        restore_token: Entry<String>,
    ) -> bool {
        &&& self.restore_token == match restore_token {
            Entry::Present(token) => Some(token),
            _ => None,
        }
        &&& match streams {
            Entry::Present(reports) => {
                &&& self.streams@.len() == reports@.len()
                &&& forall|i: int|
                    0 <= i < reports@.len() ==> #[trigger] self.streams@[i] == stream_of(
                        reports@[i],
                    )
            },
            _ => self.streams@.len() == 0,
        }
    }
}

/// The streams of a screencast that was started, and the token that restores
/// it, from the answer's entries for them.
pub fn started(streams: Entry<Vec<StreamReport>>, restore_token: Entry<String>) -> (reply: Result<
    StartResponse,
>)
    ensures
        is_readable(streams, restore_token) ==> (reply matches Ok(response)
            && response.is_read_from(streams, restore_token)),
        !is_readable(streams, restore_token) ==> is_unreadable(streams, restore_token, reply),
{
    let mut found: Vec<ScreenCastStream> = Vec::new();
    match streams {
        Entry::Absent => {},
        Entry::Malformed(error) => {
            return Err(PinrayError::Platform(error));
        },
        Entry::Present(reports) => {
            let mut i: usize = 0;
            while i < reports.len()
                invariant
                    i <= reports@.len(),
                    found@.len() == i,
                    forall|j: int|
                        0 <= j < i ==> #[trigger] found@[j] == stream_of(reports@[j]),
                decreases reports@.len() - i,
            {
                found.push(extract_size(&reports[i]));
                i += 1;
            }
        },
    }
    match restore_token {
        Entry::Absent => Ok(StartResponse { streams: found, restore_token: None }),
        Entry::Malformed(error) => Err(PinrayError::Platform(error)),
        Entry::Present(token) => Ok(StartResponse { streams: found, restore_token: Some(token) }),
    }
}

/// Requests of a connection with a usual unique name are answered on a valid
/// object: behind its colons such a name has letters, digits, underscores and
/// dots.
pub proof fn requests_are_answered_on_objects(unique_name: Seq<char>, number: u64)
    requires
        without_colons(unique_name).len() > 0,
        forall|i: int|
            0 <= i < without_colons(unique_name).len() ==> is_name_char(
                #[trigger] without_colons(unique_name)[i],
            ) || without_colons(unique_name)[i] == '.',
    ensures
        is_object_path(request_path_text(unique_name, token_text(number))),
{
    reveal_strlit("/org/freedesktop/portal/desktop/request/");
    reveal_strlit("/");
    reveal_strlit("pinray_");
    crate::text::decimal_is_read_back(number as nat);
    let base = "/org/freedesktop/portal/desktop/request/"@;
    let identifier = dots_replaced(without_colons(unique_name));
    let token = token_text(number);
    let path = request_path_text(unique_name, token);
    assert forall|i: int| 0 <= i < identifier.len() implies is_name_char(
        #[trigger] identifier[i],
    ) by {
        assert(is_name_char(without_colons(unique_name)[i]) || without_colons(unique_name)[i]
            == '.');
    }
    assert forall|i: int| 0 <= i < token.len() implies is_name_char(#[trigger] token[i]) by {
        if i >= "pinray_"@.len() {
            assert(crate::text::is_digit(
                crate::text::decimal(number as nat)[i - "pinray_"@.len()],
            ));
        }
    }
    let middle = base.len() + identifier.len();
    assert forall|i: int| 0 <= i < path.len() implies is_name_char(#[trigger] path[i]) || path[i]
        == '/' by {
        if base.len() <= i < middle {
            assert(path[i] == identifier[i - base.len()]);
        } else if i > middle {
            assert(path[i] == token[i - middle - 1]);
        }
    }
    assert forall|i: int| 0 < i < path.len() && #[trigger] path[i] == '/' implies path[i - 1]
        != '/' by {
        if i == middle {
            assert(path[i - 1] == identifier[identifier.len() - 1]);
        } else if base.len() <= i < middle {
            assert(path[i] == identifier[i - base.len()]);
        } else if i > middle {
            assert(path[i] == token[i - middle - 1]);
        }
    }
    assert(path.last() == token.last());
}

/// No two requests of a connection are answered on the same object, as long as
/// their tokens have different numbers.
pub proof fn answers_do_not_mix(unique_name: Seq<char>, one: u64, other: u64)
    requires
        one != other,
    ensures
        request_path_text(unique_name, token_text(one)) != request_path_text(
            unique_name,
            token_text(other),
        ),
{
    let base = "/org/freedesktop/portal/desktop/request/"@ + dots_replaced(
        without_colons(unique_name),
    ) + "/"@;
    tokens_are_distinct(one, other);
    crate::text::a_prefix_comes_off_again(base, token_text(one));
    crate::text::a_prefix_comes_off_again(base, token_text(other));
}

/// The option at this place of a request is this text.
pub open spec fn says_text(options: Seq<PortalOption>, at: int, name: &str, text: Seq<char>) -> bool {
    &&& 0 <= at < options.len()
    &&& options[at].name@ == name@
    &&& options[at].value matches PortalValue::Text(sent) && sent@ == text
}

/// The option at this place of a request is this number.
pub open spec fn says_number(options: Seq<PortalOption>, at: int, name: &str, number: u32) -> bool {
    &&& 0 <= at < options.len()
    &&& options[at].name@ == name@
    &&& options[at].value matches PortalValue::Number(sent) && sent == number
}

/// A session is asked for with the tokens of the request and of the session.
pub proof fn sessions_are_asked_for_by_token(
    handle_token: &str,
    session_handle_token: &str,
    options: Vec<PortalOption>,
)
    requires
        call_ensures(create_session, (handle_token, session_handle_token), options),
    ensures
        options@.len() == 2,
        says_text(options@, 0, "handle_token", handle_token@),
        says_text(options@, 1, "session_handle_token", session_handle_token@),
{
    let view = options_view(options@);
    assert(view.len() == options@.len());
    assert(view[0] == options@[0]@ && view[1] == options@[1]@);
}

/// A start is asked for with the token of the request alone.
pub proof fn starts_are_asked_for_by_token(handle_token: &str, options: Vec<PortalOption>)
    requires
        call_ensures(start, (handle_token,), options),
    ensures
        options@.len() == 1,
        says_text(options@, 0, "handle_token", handle_token@),
{
    let view = options_view(options@);
    assert(view.len() == options@.len());
    assert(view[0] == options@[0]@);
}

/// One screen or window is asked for, to be remembered until it is revoked. The
/// cursor is drawn into it exactly if that is wanted. An earlier choice is asked
/// for exactly if its token is given.
pub proof fn sources_are_asked_for_as_wanted(
    handle_token: &str,
    include_cursor: bool,
    restore_token: Option<&str>,
    options: Vec<PortalOption>,
)
    requires
        call_ensures(select_sources, (handle_token, include_cursor, restore_token), options),
    ensures
        says_text(options@, 0, "handle_token", handle_token@),
        says_number(options@, 1, "types", 3),
        options@[2].name@ == "multiple"@,
        options@[2].value == PortalValue::Flag(false),
        include_cursor ==> says_number(options@, 3, "cursor_mode", 2),
        !include_cursor ==> says_number(options@, 3, "cursor_mode", 1),
        says_number(options@, 4, "persist_mode", 2),
        restore_token is None ==> options@.len() == 5,
        restore_token matches Some(token) ==> options@.len() == 6 && says_text(
            options@,
            5,
            "restore_token",
            token@,
        ),
{
    let view = options_view(options@);
    assert(view.len() == options@.len());
    assert(view[0] == options@[0]@ && view[1] == options@[1]@ && view[2] == options@[2]@ && view[3]
        == options@[3]@ && view[4] == options@[4]@);
    if restore_token is Some {
        assert(view[5] == options@[5]@);
    }
}

/// The cursor modes have the numbers that the portal knows them by.
pub proof fn cursor_modes_have_their_numbers(mode: CursorMode, bits: u32)
    requires
        call_ensures(CursorMode::bits, (mode,), bits),
    ensures
        mode == CursorMode::Hidden ==> bits == 1,
        mode == CursorMode::Embedded ==> bits == 2,
{
}

/// Tokens are numbered one after the other, from one on.
pub proof fn tokens_are_numbered_in_order(counter: &mut TokenCounter, token: String, first: TokenCounter)
    requires
        call_ensures(TokenCounter::new, (), first),
        call_ensures(TokenCounter::next_token, (counter,), token),
        old(counter).next < u64::MAX,
    ensures
        first.next == 1,
        token@ == "pinray_"@ + crate::text::decimal(old(counter).next as nat),
        final(counter).next == old(counter).next + 1,
{
}

/// A request is answered below the connection's own part of the portal: its
/// unique name without the colon before it, with underscores for dots, and the
/// token behind it.
pub proof fn answers_come_to_the_connection(
    unique_name: &str,
    identifier: Seq<char>,
    token: &str,
    reply: Result<String>,
)
    requires
        call_ensures(request_path, (Some(unique_name), token), reply),
        unique_name@ == seq![':'] + identifier,
        identifier.len() > 0,
        identifier[0] != ':',
    ensures
        reply matches Ok(path) && {
            let base = "/org/freedesktop/portal/desktop/request/"@;
            let middle = path@.subrange(base.len() as int, (base.len() + identifier.len()) as int);
            &&& path@ == base + middle + "/"@ + token@
            &&& middle.len() == identifier.len()
            &&& forall|i: int|
                0 <= i < identifier.len() ==> #[trigger] middle[i] == if identifier[i] == '.' {
                    '_'
                } else {
                    identifier[i]
                }
        },
{
    assert(unique_name@.subrange(1, unique_name@.len() as int) =~= identifier);
    assert(without_colons(identifier) == identifier);
    assert(without_colons(unique_name@) == identifier);
    let path = reply->Ok_0;
    let base = "/org/freedesktop/portal/desktop/request/"@;
    let replaced = dots_replaced(identifier);
    assert(path@ == base + replaced + "/"@ + token@);
    assert(path@.subrange(base.len() as int, (base.len() + identifier.len()) as int) =~= replaced);
}

/// A connection without a unique name is told so.
pub proof fn nameless_connections_get_no_answers(token: &str, reply: Result<String>)
    requires
        call_ensures(request_path, (None::<&str>, token), reply),
    ensures
        reply matches Err(PinrayError::Platform(message)) && message@
            == "missing dbus unique name"@,
{
}

/// A request is granted exactly by the response code zero; a user who declined
/// is told apart from every other failure.
pub proof fn only_code_zero_grants<T>(code: u32, body: T, reply: Result<T>)
    requires
        call_ensures(wait_response::<T>, (Answer::Response(code, body),), reply),
    ensures
        code == 0 <==> reply is Ok,
        reply matches Ok(given) ==> given == body,
        code == 1 <==> (reply matches Err(PinrayError::Unsupported(_))),
        code > 1 <==> (reply matches Err(PinrayError::Platform(_))),
        reply matches Err(PinrayError::Platform(message)) ==> message@
            == "portal request failed with response code "@ + crate::text::decimal(code as nat),
{
}

/// An answer that never came, or could not be read, is a failure.
pub proof fn lost_answers_fail<T>(error: String, missing: Result<T>, unreadable: Result<T>)
    requires
        call_ensures(wait_response::<T>, (Answer::Missing,), missing),
        call_ensures(wait_response::<T>, (Answer::Unreadable(error),), unreadable),
    ensures
        missing matches Err(PinrayError::Platform(message)) && message@
            == "portal response signal missing"@,
        unreadable matches Err(PinrayError::Platform(message)) && message@ == error@,
{
}

/// The session is the one that the answer names, if that is an object at all.
pub proof fn sessions_are_those_named(entry: Entry<String>, reply: Result<String>)
    requires
        call_ensures(session_handle, (entry,), reply),
    ensures
        reply matches Ok(session) ==> (entry matches Entry::Present(handle) && session@ == handle@),
        reply is Ok <==> (entry matches Entry::Present(handle) && is_object_path(handle@)),
        reply matches Err(problem) ==> problem is Platform,
        entry is Absent ==> (reply matches Err(PinrayError::Platform(message)) && message@
            == "portal response missing session_handle"@),
        entry matches Entry::Malformed(error) ==> (reply matches Err(PinrayError::Platform(message))
            && message@ == error@),
{
}

/// Every stream that the portal announces is known by its node and its size, in
/// the order of the announcement; a size below zero counts as zero. The token is
/// the one that the portal gave, if it gave one.
pub proof fn announced_streams_are_known(
    streams: Entry<Vec<StreamReport>>,
    restore_token: Entry<String>,
    response: StartResponse,
    i: int,
)
    requires
        call_ensures(started, (streams, restore_token), Ok(response)),
    ensures
        restore_token matches Entry::Present(token) ==> response.restore_token == Some(token),
        restore_token is Absent ==> response.restore_token is None,
        streams is Absent ==> response.streams@.len() == 0,
        streams matches Entry::Present(reports) ==> {
            &&& response.streams@.len() == reports@.len()
            &&& 0 <= i < reports@.len() ==> {
                let stream = response.streams@[i];
                &&& stream.node_id == reports@[i].node_id
                &&& reports@[i].size is None ==> stream.width is None && stream.height is None
                &&& reports@[i].size matches Some(size) ==> {
                    &&& stream.width matches Some(width) && (size.width >= 0 ==> width
                        == size.width) && (size.width < 0 ==> width == 0)
                    &&& stream.height matches Some(height) && (size.height >= 0 ==> height
                        == size.height) && (size.height < 0 ==> height == 0)
                }
            }
        },
{
}

/// A start is read exactly if neither of its entries is malformed; the first that
/// is tells why not.
pub proof fn malformed_starts_are_refused(
    streams: Entry<Vec<StreamReport>>,
    restore_token: Entry<String>,
    reply: Result<StartResponse>,
)
    requires
        call_ensures(started, (streams, restore_token), reply),
    ensures
        reply is Err <==> streams is Malformed || restore_token is Malformed,
        streams matches Entry::Malformed(error) ==> (reply matches Err(PinrayError::Platform(message))
            && message@ == error@),
        streams !is Malformed ==> (restore_token matches Entry::Malformed(error) ==> (
        reply matches Err(PinrayError::Platform(message)) && message@ == error@)),
{
}

/// The parts of a screencast are its own.
pub proof fn screencasts_come_apart_unchanged<F>(
    cast: ActiveScreenCast<F>,
    parts: (F, Vec<ScreenCastStream>, Option<String>),
)
    requires
        call_ensures(ActiveScreenCast::<F>::into_parts, (cast,), parts),
    ensures
        parts.0 == cast.fd,
        parts.1 == cast.streams,
        parts.2 == cast.restore_token,
{
}

/// A request that the user declined is told as that, and a session that is no
/// object as that.
pub proof fn refusals_tell_why<T>(body: T, declined: Result<T>, handle: String, named: Result<String>)
    requires
        call_ensures(wait_response::<T>, (Answer::Response(1, body),), declined),
        call_ensures(session_handle, (Entry::Present(handle),), named),
    ensures
        declined matches Err(PinrayError::Unsupported(message)) && message@
            == "portal request cancelled by user"@,
        named matches Err(problem) ==> (problem matches PinrayError::Platform(message) && message@
            == "Invalid object path"@),
{
}

/// Colons before a unique name change nothing.
pub proof fn colons_do_not_matter(
    name: &str,
    with_colon: &str,
    token: &str,
    one: String,
    other: String,
)
    requires
        with_colon@ == seq![':'] + name@,
        call_ensures(request_path, (Some(name), token), Ok(one)),
        call_ensures(request_path, (Some(with_colon), token), Ok(other)),
    ensures
        one@ == other@,
{
    assert(with_colon@.subrange(1, with_colon@.len() as int) =~= name@);
}

/// The tokens start over behind the last number.
pub proof fn tokens_start_over(counter: &mut TokenCounter, token: String)
    requires
        call_ensures(TokenCounter::next_token, (counter,), token),
        old(counter).next == u64::MAX,
    ensures
        token@ == "pinray_"@ + crate::text::decimal(u64::MAX as nat),
        final(counter).next == 0,
{
}

} // verus!
