//! The conversation with the portal that ends in a screencast.
//!
//! Three requests make it up: one creates a session, one selects what it
//! shows, and one starts it. Each is sent only once the one before was granted,
//! and each is answered on an object of its own. The PipeWire remote is opened
//! at the end.
use vstd::prelude::*;

use crate::error::{PinrayError, Result};
use crate::platform_linux::portal::{
    create_session, request_path, select_sources, session_handle, start, started, wait_response,
    ActiveScreenCast, Answer, Entry, PortalOption, PortalValue, StartResponse, StreamReport,
    TokenCounter,
};

verus! {

/// A method of the portal that is answered by a signal.
#[derive(Debug, Clone, Copy, PartialEq, Eq, Structural)]
pub enum PortalMethod {
    CreateSession,
    SelectSources,
    Start,
}

impl PortalMethod {
    /// The name of a method on the bus.
    pub open spec fn bus_name(self) -> Seq<char> {
        match self {
            PortalMethod::CreateSession => "CreateSession"@,
            PortalMethod::SelectSources => "SelectSources"@,
            PortalMethod::Start => "Start"@,
        }
    }

    /// The name of the method on the bus.
    pub fn name(self) -> (name: &'static str)
        ensures
            name@ == self.bus_name(),
    {
        match self {
            PortalMethod::CreateSession => "CreateSession",
            PortalMethod::SelectSources => "SelectSources",
            PortalMethod::Start => "Start",
        }
    }
}

/// A request to the portal.
#[derive(Debug)]
pub struct PortalRequest {
    pub method: PortalMethod,
    /// The object that answers. It has to be listened to before the request is
    /// sent, or the answer can be missed.
    pub answered_on: String,
    /// The session that the request is about, once there is one.
    pub session: Option<String>,
    pub options: Vec<PortalOption>,
}

/// What an answer of the portal carries.
#[derive(Debug)]
pub struct PortalReply {
    pub session_handle: Entry<String>,
    pub streams: Entry<Vec<StreamReport>>,
    pub restore_token: Entry<String>,
}

/// How far the conversation has come.
#[derive(Debug)]
pub enum Stage {
    /// A session is to be created.
    Create,
    /// The sources of this session are to be selected.
    Select(String),
    /// This session is to be started.
    Start(String),
    /// This session was started; its remote can be opened.
    Open(String, StartResponse),
}

impl Stage {
    /// Requests that were granted.
    pub open spec fn granted_requests(&self) -> nat {
        match self {
            Stage::Create => 0,
            Stage::Select(_) => 1,
            Stage::Start(_) => 2,
            Stage::Open(_, _) => 3,
        }
    }

    /// The session that the conversation is about, once it was created.
    pub open spec fn session(&self) -> Option<Seq<char>> {
        match self {
            Stage::Create => None,
            Stage::Select(session) => Some(session@),
            Stage::Start(session) => Some(session@),
            Stage::Open(session, _) => Some(session@),
        }
    }
}

/// A conversation about a screencast.
#[derive(Debug)]
pub struct ScreenCastRequest {
    pub include_cursor: bool,
    /// The token of an earlier screencast, whose permission is asked to be
    /// taken over.
    pub restore_token: Option<String>,
    pub stage: Stage,
}

/// Begins a conversation.
pub fn start_screen_cast(include_cursor: bool, restore_token: Option<String>) -> (cast:
    ScreenCastRequest)
    ensures
        cast == (ScreenCastRequest { include_cursor, restore_token, stage: Stage::Create }),
{
    ScreenCastRequest { include_cursor, restore_token, stage: Stage::Create }
}

impl ScreenCastRequest {
    /// The method that is called next.
    pub open spec fn next_method(&self) -> Option<PortalMethod> {
        match self.stage {
            Stage::Create => Some(PortalMethod::CreateSession),
            Stage::Select(_) => Some(PortalMethod::SelectSources),
            Stage::Start(_) => Some(PortalMethod::Start),
            Stage::Open(_, _) => None,
        }
    }

    /// The number of the next token, after this stage took its own from
    /// `number` on: a token for the request, and one for the session that it
    /// creates.
    pub open spec fn number_behind(&self, number: u64) -> u64 {
        let next = crate::platform_linux::portal::number_after(number);
        if self.stage is Create {
            crate::platform_linux::portal::number_after(next)
        } else {
            next
        }
    }

    /// The options of the request that is sent with tokens from `number` on.
    pub open spec fn next_options(&self, number: u64) -> Seq<
        (Seq<char>, crate::platform_linux::portal::PortalValueView),
    > {
        let token = crate::platform_linux::portal::token_text(number);
        match self.stage {
            Stage::Create => crate::platform_linux::portal::session_options(
                token,
                crate::platform_linux::portal::token_text(
                    crate::platform_linux::portal::number_after(number),
                ),
            ),
            Stage::Select(_) => crate::platform_linux::portal::selection_options(
                token,
                self.include_cursor,
                match self.restore_token {
                    Some(earlier) => Some(earlier@),
                    None => None,
                },
            ),
            _ => crate::platform_linux::portal::start_options(token),
        }
    }

    /// `request` is the one to send next on the connection called
    /// `unique_name`, with tokens from `number` on.
    pub open spec fn sends(
        &self,
        request: PortalRequest,
        unique_name: Seq<char>,
        number: u64,
    ) -> bool {
        &&& self.next_method() == Some(request.method)
        &&& request.answered_on@ == crate::platform_linux::portal::request_path_text(
            unique_name,
            crate::platform_linux::portal::token_text(number),
        )
        &&& match request.session {
            Some(session) => self.stage.session() == Some(session@),
            None => self.stage.session() is None,
        }
        &&& crate::platform_linux::portal::options_view(request.options@) == self.next_options(
            number,
        )
    }

    /// The request to send next, with fresh tokens; none once the session was
    /// started. A connection without a unique name gets no answers.
    pub fn request(&self, unique_name: Option<&str>, tokens: &mut TokenCounter) -> (reply: Result<
        Option<PortalRequest>,
    >)
        ensures
            self.stage is Open ==> {
                &&& reply matches Ok(None)
                &&& final(tokens).next == old(tokens).next
            },
            self.stage !is Open && unique_name is Some ==> {
                &&& reply matches Ok(Some(request))
                &&& self.sends(request, unique_name->0@, old(tokens).next)
                &&& final(tokens).next == self.number_behind(old(tokens).next)
            },
            self.stage !is Open && unique_name is None ==> {
                &&& crate::error::is_platform(reply, "missing dbus unique name"@)
                &&& final(tokens).next == crate::platform_linux::portal::number_after(
                    old(tokens).next,
                )
            },
    {
        if let Stage::Open(_, _) = &self.stage {
            return Ok(None);
        }
        let token: String = tokens.next_token();
        let answered_on: String = match request_path(unique_name, token.as_str()) {
            Ok(path) => path,
            Err(error) => {
                return Err(error);
            },
        };
        let request: PortalRequest = match &self.stage {
            Stage::Create => {
                let session_token: String = tokens.next_token();
                PortalRequest {
                    method: PortalMethod::CreateSession,
                    answered_on,
                    session: None,
                    options: create_session(token.as_str(), session_token.as_str()),
                }
            },
            Stage::Select(session) => {
                let earlier: Option<&str> = match &self.restore_token {
                    Some(earlier) => Some(earlier.as_str()),
                    None => None,
                };
                PortalRequest {
                    method: PortalMethod::SelectSources,
                    answered_on,
                    session: Some(session.clone()),
                    options: select_sources(token.as_str(), self.include_cursor, earlier),
                }
            },
            Stage::Start(session) | Stage::Open(session, _) => PortalRequest {
                method: PortalMethod::Start,
                answered_on,
                session: Some(session.clone()),
                options: start(token.as_str()),
            },
        };
        Ok(Some(request))
    }

    /// `after` is the same conversation, at a later stage.
    pub open spec fn continues_as(&self, after: &ScreenCastRequest) -> bool {
        after.include_cursor == self.include_cursor && after.restore_token == self.restore_token
    }

    /// What a granted request makes of the conversation: a session is named, its
    /// sources are selected, or it is started.
    pub open spec fn is_advanced(
        &self,
        body: PortalReply,
        reply: Result<ScreenCastRequest>,
    ) -> bool {
        match self.stage {
            Stage::Create => match crate::platform_linux::portal::session_named(
                body.session_handle,
            ) {
                Some(handle) => reply matches Ok(after) && self.continues_as(&after) && (
                after.stage matches Stage::Select(session) && session@ == handle),
                None => crate::platform_linux::portal::names_no_session(
                    body.session_handle,
                    reply,
                ),
            },
            Stage::Select(session) => reply matches Ok(after) && self.continues_as(&after)
                && after.stage == Stage::Start(session),
            Stage::Start(session) => if crate::platform_linux::portal::is_readable(
                body.streams,
                body.restore_token,
            ) {
                reply matches Ok(after) && self.continues_as(&after) && (
                after.stage matches Stage::Open(opened, response) && opened == session
                    && response.is_read_from(body.streams, body.restore_token))
            } else {
                crate::platform_linux::portal::is_unreadable(
                    body.streams,
                    body.restore_token,
                    reply,
                )
            },
            Stage::Open(_, _) => reply matches Ok(after) && after == *self,
        }
    }

    /// Takes the answer to the request that was sent. Whatever is not granted
    /// ends the conversation.
    pub fn answered(self, answer: Answer<PortalReply>) -> (reply: Result<ScreenCastRequest>)
        ensures
            match crate::platform_linux::portal::granted(answer) {
                Some(body) => self.is_advanced(body, reply),
                None => crate::platform_linux::portal::is_declined(answer, reply),
            },
    {
        let body: PortalReply = match wait_response(answer) {
            Ok(body) => body,
            Err(error) => {
                return Err(error);
            },
        };
        let stage: Stage = match self.stage {
            Stage::Create => match session_handle(body.session_handle) {
                Ok(session) => Stage::Select(session),
                Err(error) => {
                    return Err(error);
                },
            },
            Stage::Select(session) => Stage::Start(session),
            Stage::Start(session) => match started(body.streams, body.restore_token) {
                Ok(response) => Stage::Open(session, response),
                Err(error) => {
                    return Err(error);
                },
            },
            Stage::Open(session, response) => Stage::Open(session, response),
        };
        Ok(
            ScreenCastRequest {
                include_cursor: self.include_cursor,
                restore_token: self.restore_token,
                stage,
            },
        )
    }

    /// The session whose remote can be opened.
    pub fn started_session(&self) -> (session: Option<&str>)
        ensures
            session is Some <==> self.stage is Open,
            session matches Some(path) ==> Some(path@) == self.stage.session(),
    {
        match &self.stage {
            Stage::Open(session, _) => Some(session.as_str()),
            _ => None,
        }
    }

    /// The screencast, given its remote.
    pub fn opened<F>(self, fd: F) -> (cast: ActiveScreenCast<F>)
        requires
            self.stage is Open,
        ensures
            cast == (ActiveScreenCast {
                fd,
                streams: self.stage->Open_1.streams,
                restore_token: self.stage->Open_1.restore_token,
            }),
    {
        match self.stage {
            Stage::Open(_, response) => ActiveScreenCast {
                fd,
                streams: response.streams,
                restore_token: response.restore_token,
            },
            _ => ActiveScreenCast { fd, streams: Vec::new(), restore_token: None },
        }
    }
}

/// The conversation moves on by exactly one request per answer, and only if the
/// request was granted: nothing is selected in a session that was not created,
/// and nothing is started before the user could choose.
pub proof fn one_grant_is_one_step(
    before: ScreenCastRequest,
    answer: Answer<PortalReply>,
    reply: Result<ScreenCastRequest>,
)
    requires
        match crate::platform_linux::portal::granted(answer) {
            Some(body) => before.is_advanced(body, reply),
            None => crate::platform_linux::portal::is_declined(answer, reply),
        },
        before.stage !is Open,
    ensures
        reply matches Ok(after) ==> {
            &&& crate::platform_linux::portal::granted(answer) is Some
            &&& after.stage.granted_requests() == before.stage.granted_requests() + 1
        },
{
}

/// Once a session was created, the conversation is about no other.
pub proof fn the_session_stays(
    before: ScreenCastRequest,
    body: PortalReply,
    reply: Result<ScreenCastRequest>,
)
    requires
        before.is_advanced(body, reply),
        before.stage.session() is Some,
        reply is Ok,
    ensures
        reply->Ok_0.stage.session() == before.stage.session(),
{
}

/// The session that a conversation is about is an object of the bus.
pub proof fn created_sessions_are_objects(
    before: ScreenCastRequest,
    body: PortalReply,
    reply: Result<ScreenCastRequest>,
)
    requires
        before.is_advanced(body, reply),
        before.stage is Create,
        reply is Ok,
    ensures
        reply->Ok_0.stage.session() is Some,
        crate::platform_linux::portal::is_object_path(reply->Ok_0.stage.session()->0),
{
}

/// A conversation begins before its first request, with what it is begun with.
pub proof fn conversations_begin_with_a_session(
    include_cursor: bool,
    restore_token: Option<String>,
    cast: ScreenCastRequest,
)
    requires
        call_ensures(start_screen_cast, (include_cursor, restore_token), cast),
    ensures
        cast.include_cursor == include_cursor,
        cast.restore_token == restore_token,
        cast.stage is Create,
{
}

/// The methods are called on the bus by their own names.
pub proof fn methods_have_their_names(method: PortalMethod, name: &'static str)
    requires
        call_ensures(PortalMethod::name, (method,), name),
    ensures
        method == PortalMethod::CreateSession ==> name@ == "CreateSession"@,
        method == PortalMethod::SelectSources ==> name@ == "SelectSources"@,
        method == PortalMethod::Start ==> name@ == "Start"@,
{
}

/// The first request creates a session: with the next two tokens, the first for
/// itself and the second for the session. It is answered on the object of the
/// first.
pub proof fn the_first_request_creates_a_session(
    cast: &ScreenCastRequest,
    unique_name: &str,
    tokens: &mut TokenCounter,
    path: String,
    token: &str,
    reply: Result<Option<PortalRequest>>,
)
    requires
        call_ensures(ScreenCastRequest::request, (cast, Some(unique_name), tokens), reply),
        cast.stage is Create,
        old(tokens).next < u64::MAX - 1,
        token@ == "pinray_"@ + crate::text::decimal(old(tokens).next as nat),
        call_ensures(request_path, (Some(unique_name), token), Ok(path)),
    ensures
        reply matches Ok(Some(request)) && {
            &&& request.method == PortalMethod::CreateSession
            &&& request.session is None
            &&& request.answered_on@ == path@
            &&& request.options@.len() == 2
            &&& crate::platform_linux::portal::says_text(
                request.options@,
                0,
                "handle_token",
                token@,
            )
            &&& crate::platform_linux::portal::says_text(
                request.options@,
                1,
                "session_handle_token",
                "pinray_"@ + crate::text::decimal((old(tokens).next + 1) as nat),
            )
        },
        final(tokens).next == old(tokens).next + 2,
{
    let options = reply->Ok_0->0.options@;
    let view = crate::platform_linux::portal::options_view(options);
    assert(view.len() == options.len());
    assert(view[0] == options[0]@ && view[1] == options[1]@);
}

/// The second request selects the sources of the session that was created: with
/// the cursor exactly if it is wanted, and the earlier choice if there is a token
/// for it.
pub proof fn the_second_request_selects_sources(
    cast: &ScreenCastRequest,
    session: String,
    unique_name: &str,
    tokens: &mut TokenCounter,
    path: String,
    token: &str,
    reply: Result<Option<PortalRequest>>,
)
    requires
        call_ensures(ScreenCastRequest::request, (cast, Some(unique_name), tokens), reply),
        cast.stage == Stage::Select(session),
        old(tokens).next < u64::MAX,
        token@ == "pinray_"@ + crate::text::decimal(old(tokens).next as nat),
        call_ensures(request_path, (Some(unique_name), token), Ok(path)),
    ensures
        reply matches Ok(Some(request)) && {
            &&& request.method == PortalMethod::SelectSources
            &&& request.session matches Some(about) && about@ == session@
            &&& request.answered_on@ == path@
            &&& crate::platform_linux::portal::says_text(
                request.options@,
                0,
                "handle_token",
                token@,
            )
            &&& crate::platform_linux::portal::says_number(request.options@, 1, "types", 3)
            &&& request.options@[2].name@ == "multiple"@ && request.options@[2].value
                == PortalValue::Flag(false)
            &&& cast.include_cursor ==> crate::platform_linux::portal::says_number(
                request.options@,
                3,
                "cursor_mode",
                2,
            )
            &&& !cast.include_cursor ==> crate::platform_linux::portal::says_number(
                request.options@,
                3,
                "cursor_mode",
                1,
            )
            &&& crate::platform_linux::portal::says_number(request.options@, 4, "persist_mode", 2)
            &&& cast.restore_token is None ==> request.options@.len() == 5
            &&& cast.restore_token matches Some(earlier) ==> request.options@.len() == 6
                && crate::platform_linux::portal::says_text(
                request.options@,
                5,
                "restore_token",
                earlier@,
            )
        },
        final(tokens).next == old(tokens).next + 1,
{
    let options = reply->Ok_0->0.options@;
    let view = crate::platform_linux::portal::options_view(options);
    assert(view.len() == options.len());
    assert(view[0] == options[0]@ && view[1] == options[1]@ && view[2] == options[2]@ && view[3]
        == options[3]@ && view[4] == options[4]@);
    if cast.restore_token is Some {
        assert(view[5] == options[5]@);
    }
}

/// The third request starts the session that was created.
pub proof fn the_third_request_starts_the_session(
    cast: &ScreenCastRequest,
    session: String,
    unique_name: &str,
    tokens: &mut TokenCounter,
    path: String,
    token: &str,
    reply: Result<Option<PortalRequest>>,
)
    requires
        call_ensures(ScreenCastRequest::request, (cast, Some(unique_name), tokens), reply),
        cast.stage == Stage::Start(session),
        old(tokens).next < u64::MAX,
        token@ == "pinray_"@ + crate::text::decimal(old(tokens).next as nat),
        call_ensures(request_path, (Some(unique_name), token), Ok(path)),
    ensures
        reply matches Ok(Some(request)) && {
            &&& request.method == PortalMethod::Start
            &&& request.session matches Some(about) && about@ == session@
            &&& request.answered_on@ == path@
            &&& request.options@.len() == 1
            &&& crate::platform_linux::portal::says_text(
                request.options@,
                0,
                "handle_token",
                token@,
            )
        },
        final(tokens).next == old(tokens).next + 1,
{
    let options = reply->Ok_0->0.options@;
    let view = crate::platform_linux::portal::options_view(options);
    assert(view.len() == options.len());
    assert(view[0] == options[0]@);
}

/// Once the session was started, there is nothing to request, and before that
/// nothing can be requested without a unique name.
pub proof fn requests_end_with_the_start(
    cast: &ScreenCastRequest,
    unique_name: Option<&str>,
    tokens: &mut TokenCounter,
    reply: Result<Option<PortalRequest>>,
)
    requires
        call_ensures(ScreenCastRequest::request, (cast, unique_name, tokens), reply),
    ensures
        cast.stage is Open <==> (reply matches Ok(None)),
        reply is Err <==> unique_name is None && !(cast.stage is Open),
        cast.stage is Open ==> final(tokens).next == old(tokens).next,
{
}

/// An answer that grants nothing ends the conversation, and tells why.
pub proof fn refusals_end_the_conversation(
    cast: ScreenCastRequest,
    code: u32,
    body: PortalReply,
    reply: Result<ScreenCastRequest>,
)
    requires
        call_ensures(ScreenCastRequest::answered, (cast, Answer::Response(code, body)), reply),
        code != 0,
    ensures
        code == 1 ==> (reply matches Err(PinrayError::Unsupported(_))),
        code > 1 ==> (reply matches Err(PinrayError::Platform(_))),
{
}

/// A session that was granted is the one to select sources for.
pub proof fn a_granted_session_is_selected_for(
    cast: ScreenCastRequest,
    body: PortalReply,
    handle: String,
    reply: Result<ScreenCastRequest>,
)
    requires
        call_ensures(
            ScreenCastRequest::answered,
            (cast, Answer::Response(0, body)),
            reply,
        ),
        cast.stage is Create,
        body.session_handle == Entry::Present(handle),
        crate::platform_linux::portal::is_object_path(handle@),
    ensures
        reply matches Ok(after) && {
            &&& after.stage matches Stage::Select(session) && session@ == handle@
            &&& after.include_cursor == cast.include_cursor
            &&& after.restore_token == cast.restore_token
        },
{
}

/// A session whose sources were selected is the one to start.
pub proof fn a_selected_session_is_started(
    cast: ScreenCastRequest,
    session: String,
    body: PortalReply,
    reply: Result<ScreenCastRequest>,
)
    requires
        call_ensures(
            ScreenCastRequest::answered,
            (cast, Answer::Response(0, body)),
            reply,
        ),
        cast.stage == Stage::Select(session),
    ensures
        reply matches Ok(after) && {
            &&& after.stage == Stage::Start(session)
            &&& after.include_cursor == cast.include_cursor
            &&& after.restore_token == cast.restore_token
        },
{
}

/// A session that was started is the one whose remote is opened, with the streams
/// and the token of the answer.
pub proof fn a_started_session_is_opened(
    cast: ScreenCastRequest,
    session: String,
    body: PortalReply,
    reports: Vec<StreamReport>,
    after: ScreenCastRequest,
    opened: Option<&str>,
)
    requires
        call_ensures(
            ScreenCastRequest::answered,
            (cast, Answer::Response(0, body)),
            Ok(after),
        ),
        call_ensures(ScreenCastRequest::started_session, (&after,), opened),
        cast.stage == Stage::Start(session),
        body.streams == Entry::Present(reports),
    ensures
        opened matches Some(path) && path@ == session@,
        after.stage matches Stage::Open(own, response) && {
            &&& own@ == session@
            &&& response.streams@.len() == reports@.len()
            &&& forall|i: int|
                0 <= i < reports@.len() ==> (#[trigger] response.streams@[i]).node_id
                    == reports@[i].node_id
            &&& body.restore_token matches Entry::Present(token) ==> response.restore_token
                == Some(token)
            &&& body.restore_token is Absent ==> response.restore_token is None
        },
{
}

/// No session can be opened before it was started.
pub proof fn only_started_sessions_are_opened(cast: &ScreenCastRequest, opened: Option<&str>)
    requires
        call_ensures(ScreenCastRequest::started_session, (cast,), opened),
        !(cast.stage is Open),
    ensures
        opened is None,
{
}

/// The screencast has the remote that it is given, and the streams and the token
/// of its start.
pub proof fn screencasts_have_their_streams<F>(
    cast: ScreenCastRequest,
    fd: F,
    active: ActiveScreenCast<F>,
)
    requires
        call_ensures(ScreenCastRequest::opened::<F>, (cast, fd), active),
        cast.stage is Open,
    ensures
        active.fd == fd,
        cast.stage matches Stage::Open(_, response) && active.streams == response.streams
            && active.restore_token == response.restore_token,
{
}

} // verus!
