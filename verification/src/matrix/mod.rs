//! What the client knows about the homeserver session: sync state, rooms,
//! members, search hits, and the space hierarchy.
use crate::matrix::diff::VectorDiff;
use crate::matrix::spaces::copy_opt_string;
use crate::preview::PreviewEvent;
use crate::text::{contains_seq, str_contains};
use pulldown_cmark::{Options, Parser};
use vstd::prelude::*;
use vstd::string::StringExecFns;

pub mod auth;
pub mod calls;
pub mod diff;
pub mod search;
pub mod space_children;
pub mod spaces;
pub mod sync_room_data;

verus! {

/// The state of the sliding-sync connection.
#[derive(Debug, Clone, PartialEq)]
pub enum SyncStatus {
    Disconnected,
    Syncing,
    Connected,
    Error(String),
    MissingSlidingSyncSupport,
}

/// Why starting the sync (or a login that ends in starting it) failed.
#[derive(Debug, Clone, PartialEq)]
pub enum SyncError {
    MissingSlidingSyncSupport,
    Matrix(String),
    Http(String),
    Anyhow(String),
    Generic(String),
}

/// The message a [`SyncError`] displays.
pub open spec fn sync_error_text(e: SyncError) -> Seq<char> {
    match e {
        SyncError::MissingSlidingSyncSupport => "Sliding Sync (MSC4186) is not supported by the homeserver"@,
        SyncError::Matrix(s) => "Matrix error: "@ + s@,
        SyncError::Http(s) => "HTTP error: "@ + s@,
        SyncError::Anyhow(s) => "Error: "@ + s@,
        SyncError::Generic(s) => s@,
    }
}

impl SyncError {
    /// The message this error displays.
    pub fn to_message(&self) -> (text: String)
        ensures
            text@ == sync_error_text(*self),
    {
        match self {
            SyncError::MissingSlidingSyncSupport => String::from_str(
                "Sliding Sync (MSC4186) is not supported by the homeserver",
            ),
            SyncError::Matrix(s) => String::from_str("Matrix error: ").concat(s.as_str()),
            SyncError::Http(s) => String::from_str("HTTP error: ").concat(s.as_str()),
            SyncError::Anyhow(s) => String::from_str("Error: ").concat(s.as_str()),
            SyncError::Generic(s) => s.clone(),
        }
    }
}

/// Progress of the QR-code sign-in flow, as the background login task reports
/// it.  The check-code sender that comes with `QrScanned` stays with the task
/// runner; the state only records that one is held.
#[derive(Debug, PartialEq)]
pub enum QrLoginProgress {
    /// The QR code is ready to display (the raw payload bytes).
    QrReady(Vec<u8>),
    /// The other device scanned the QR code and shows a check code.
    QrScanned,
    /// Waiting for the existing device to approve the login.
    WaitingForToken { user_code: String },
    /// Transferring end-to-end encryption secrets.
    SyncingSecrets,
    /// Terminal: the signed-in user id, or why the login failed.
    Finished(Result<String, String>),
}

/// A room of the public room directory.
#[derive(Debug, Clone, PartialEq)]
pub struct PublicRoom {
    pub id: String,
    pub name: Option<String>,
    pub topic: Option<String>,
    pub canonical_alias: Option<String>,
    pub num_joined_members: u32,
    pub avatar_url: Option<String>,
    pub is_space: bool,
}

/// What the room list shows of one room.
#[derive(Debug, Clone, PartialEq)]
pub struct RoomData {
    pub id: String,
    pub name: Option<String>,
    pub last_message: Option<String>,
    pub unread_count: u32,
    pub unread_count_str: Option<String>,
    pub avatar_url: Option<String>,
    pub is_space: bool,
    pub parent_space_id: Option<String>,
    pub allowed_spaces: Vec<String>,
    pub order: Option<String>,
    pub suggested: bool,
}

/// A member of a room.
#[derive(Debug, Clone, PartialEq)]
pub struct RoomMemberInfo {
    pub user_id: String,
    pub display_name: Option<String>,
    pub avatar_url: Option<String>,
}

/// A pinned message, with its sender and body.
#[derive(Debug, Clone, PartialEq)]
pub struct PinnedEventInfo {
    pub event_id: String,
    pub sender_id: String,
    pub sender_name: String,
    pub avatar_url: Option<String>,
    pub timestamp: String,
    pub body: String,
}

/// What a pinned event holds, as far as its preview shows it.
pub enum PinnedBody {
    /// A room message, with its body.
    Message(String),
    /// Any other message-like event.
    OtherMessage,
    /// A state event.
    State,
}

/// The body a pinned event shows: a message's own body, or a label saying
/// which kind of event it is when it is no room message.
pub open spec fn pinned_body_text(body: PinnedBody) -> Seq<char> {
    match body {
        PinnedBody::Message(text) => text@,
        PinnedBody::OtherMessage => "Unsupported message event type"@,
        PinnedBody::State => "Unsupported state event type"@,
    }
}

/// The entry of the pinned-messages panel for an event: its sender's display
/// name (the user id without one), its sender's avatar, when it was sent and
/// what it says.
pub fn pinned_event_info(
    event_id: String,
    sender_id: String,
    display_name: Option<String>,
    avatar_url: Option<String>,
    timestamp: String,
    body: PinnedBody,
) -> (info: PinnedEventInfo)
    ensures
        info.event_id == event_id,
        info.sender_id == sender_id,
        info.sender_name@ == match display_name {
            Some(n) => n@,
            None => sender_id@,
        },
        info.avatar_url == avatar_url,
        info.timestamp == timestamp,
        info.body@ == pinned_body_text(body),
{
    let sender_name = match display_name {
        Some(n) => n,
        None => sender_id.clone(),
    };
    let text = match body {
        PinnedBody::Message(t) => t,
        PinnedBody::OtherMessage => String::from_str("Unsupported message event type"),
        PinnedBody::State => String::from_str("Unsupported state event type"),
    };
    PinnedEventInfo { event_id, sender_id, sender_name, avatar_url, timestamp, body: text }
}

/// One hit of a message search.
#[derive(Debug, Clone, PartialEq)]
pub struct MessageSearchResult {
    pub room_id: String,
    pub room_name: Option<String>,
    pub event_id: String,
    pub sender_id: String,
    pub body: String,
    pub timestamp: String,
    pub plain_text: Vec<PreviewEvent>,
    pub links: Vec<(String, String)>,
}

/// Which rooms a global message search looks at.
#[derive(Clone, Copy, Debug, PartialEq, Eq, Structural)]
pub enum GlobalSearchScope {
    All,
    DmsOnly,
    GroupsOnly,
}

/// The unread counter the room list shows: `(n)` for a positive count.
pub open spec fn unread_label(count: u32) -> Option<Seq<char>> {
    if count > 0 {
        Some("("@ + crate::text::decimal_digits(count as nat) + ")"@)
    } else {
        None
    }
}

/// The unread counter label of a room with `count` unread notifications.
pub fn unread_count_label(count: u32) -> (label: Option<String>)
    ensures
        crate::matrix::spaces::opt_view(label) == unread_label(count),
{
    if count > 0 {
        let digits = crate::text::u32_to_string(count);
        let label = String::from_str("(").concat(digits.as_str()).concat(")");
        Some(label)
    } else {
        None
    }
}

/// How old (in milliseconds) an event may be for a desktop notification to
/// still be raised for it: five minutes.
pub const NOTIFICATION_MAX_AGE_MS: u128 = 300_000;

/// Whether an event stamped `event_ts_ms` (milliseconds since the Unix epoch)
/// is recent enough to notify about at `now_ms`: the two are at most five
/// minutes apart, in either direction.  A current time of 0 means the clock
/// read before the epoch (a broken clock, early boot): every event then
/// counts as stale.
pub open spec fn recent_enough(now_ms: u128, event_ts_ms: u64) -> bool {
    &&& now_ms != 0
    &&& (if now_ms >= event_ts_ms {
        now_ms - event_ts_ms
    } else {
        event_ts_ms - now_ms
    }) <= NOTIFICATION_MAX_AGE_MS
}

/// Whether an event stamped `event_ts_ms` is recent enough to notify about at
/// `now_ms` (see [`recent_enough`]).
pub fn is_recent_enough_to_notify(now_ms: u128, event_ts_ms: u64) -> (recent: bool)
    ensures
        recent == recent_enough(now_ms, event_ts_ms),
        now_ms == 0 ==> !recent,
{
    if now_ms == 0 {
        return false;
    }
    let ts = event_ts_ms as u128;
    let distance = if now_ms >= ts {
        now_ms - ts
    } else {
        ts - now_ms
    };
    distance <= NOTIFICATION_MAX_AGE_MS
}

/// Whether a failed `/search` request means the homeserver does not offer the
/// endpoint: a 404 or 405 status, or, for servers that answer without a Matrix
/// error body, an error text that names one of those statuses.
pub open spec fn search_unsupported(status: Option<u16>, message: Seq<char>) -> bool {
    ||| status == Some(404u16)
    ||| status == Some(405u16)
    ||| contains_seq(message, "404 Not Found"@)
    ||| contains_seq(message, "405 Method Not Allowed"@)
}

/// Decides whether a `/search` failure means the endpoint is unsupported;
/// `status` is the HTTP status of a Matrix error response, if there was one,
/// and `message` the error's text.
pub fn is_search_unsupported(status: Option<u16>, message: &str) -> (unsupported: bool)
    ensures
        unsupported == search_unsupported(status, message@),
{
    match status {
        Some(code) => {
            if code == 404 || code == 405 {
                return true;
            }
        },
        None => {},
    }
    str_contains(message, "404 Not Found") || str_contains(message, "405 Method Not Allowed")
}

/// The HTML that `pulldown_cmark` renders for `markdown`, with strikethrough and
/// task lists enabled.
pub uninterp spec fn cmark_html(markdown: Seq<char>) -> Seq<char>;

/// Renders `markdown` to HTML with `pulldown_cmark::html::push_html`
/// (strikethrough and task lists enabled).  Trusted: the result is the named
/// rendering [`cmark_html`] of `markdown`.
#[verifier::external_body]
pub fn markdown_to_html(markdown: &str) -> (html: String)
    ensures
        html@ == cmark_html(markdown@),
{
    let parser = Parser::new_ext(markdown, Options::ENABLE_STRIKETHROUGH | Options::ENABLE_TASKLISTS);
    let mut html = String::new();
    pulldown_cmark::html::push_html(&mut html, parser);
    html
}

/// The kinds of room message a desktop notification distinguishes.
#[derive(Clone, Copy, Debug, PartialEq, Eq, Structural)]
pub enum NotifiedMessageKind {
    Text,
    Image,
    Video,
    Audio,
    File,
    Other,
}

/// The body of a desktop notification for a message of the given kind.
pub open spec fn notification_text(kind: NotifiedMessageKind, text: Seq<char>) -> Seq<char> {
    match kind {
        NotifiedMessageKind::Text => text,
        NotifiedMessageKind::Image => "📷 Image"@,
        NotifiedMessageKind::Video => "🎥 Video"@,
        NotifiedMessageKind::Audio => "🎵 Audio"@,
        NotifiedMessageKind::File => "📎 File"@,
        NotifiedMessageKind::Other => "New message"@,
    }
}

/// The body of a desktop notification: the text of a text message, a short
/// label for media, "New message" for anything else.
pub fn notification_body(kind: NotifiedMessageKind, text: &str) -> (body: String)
    ensures
        body@ == notification_text(kind, text@),
{
    match kind {
        NotifiedMessageKind::Text => text.to_owned(),
        NotifiedMessageKind::Image => String::from_str("📷 Image"),
        NotifiedMessageKind::Video => String::from_str("🎥 Video"),
        NotifiedMessageKind::Audio => String::from_str("🎵 Audio"),
        NotifiedMessageKind::File => String::from_str("📎 File"),
        NotifiedMessageKind::Other => String::from_str("New message"),
    }
}

/// Whether a message from `sender` (at `event_ts_ms`, seen at `now_ms`) is
/// notified: not when it is the signed-in user's own, nor when it is more than
/// five minutes away from now (see [`recent_enough`]).
pub open spec fn notifies(own_user: Option<Seq<char>>, sender: Seq<char>, now_ms: u128, event_ts_ms: u64) -> bool {
    &&& own_user != Some(sender)
    &&& recent_enough(now_ms, event_ts_ms)
}

/// The summary line of a notification: who wrote (the display name, or the
/// user id without one) in which room ("Unknown Room" without a name).
pub open spec fn notification_summary(sender: Seq<char>, sender_name: Option<Seq<char>>, room_name: Option<Seq<char>>) -> Seq<char> {
    let who = match sender_name {
        Some(n) => n,
        None => sender,
    };
    let room = match room_name {
        Some(r) => r,
        None => "Unknown Room"@,
    };
    who + " in "@ + room
}

/// The desktop notification for a new room message, if one is raised: its
/// summary line and its body.
pub fn message_notification(
    own_user: &Option<String>,
    sender: &String,
    sender_name: Option<String>,
    room_name: Option<String>,
    now_ms: u128,
    event_ts_ms: u64,
    kind: NotifiedMessageKind,
    text: &str,
) -> (notification: Option<(String, String)>)
    ensures
        notification is Some <==> notifies(crate::matrix::spaces::opt_view(*own_user), sender@, now_ms, event_ts_ms),
        notification is Some ==> {
            &&& notification.unwrap().0@ == notification_summary(
                sender@,
                crate::matrix::spaces::opt_view(sender_name),
                crate::matrix::spaces::opt_view(room_name),
            )
            &&& notification.unwrap().1@ == notification_text(kind, text@)
        },
{
    let own = match own_user {
        Some(u) => *u == *sender,
        None => false,
    };
    if own || !is_recent_enough_to_notify(now_ms, event_ts_ms) {
        return None;
    }
    let who = match sender_name {
        Some(n) => n,
        None => sender.clone(),
    };
    let room = match room_name {
        Some(r) => r,
        None => String::from_str("Unknown Room"),
    };
    let summary = who.concat(" in ").concat(room.as_str());
    Some((summary, notification_body(kind, text)))
}

/// What the client keeps of one timeline item: its event id (when it has
/// one), whether it is a room event at all (virtual items such as day dividers
/// are not), the thread it belongs to, the media it shows, and its message
/// body when it is a message.
#[derive(Debug, Clone, PartialEq)]
pub struct TimelineEntry {
    pub event_id: Option<String>,
    pub is_event: bool,
    pub thread_root_id: Option<String>,
    pub sender_avatar_url: Option<String>,
    pub image_url: Option<String>,
    pub message_body: Option<String>,
}

impl TimelineEntry {
    /// A field-by-field copy.
    pub fn duplicate(&self) -> (r: TimelineEntry)
        ensures
            r == *self,
    {
        TimelineEntry {
            event_id: copy_opt_string(&self.event_id),
            is_event: self.is_event,
            thread_root_id: copy_opt_string(&self.thread_root_id),
            sender_avatar_url: copy_opt_string(&self.sender_avatar_url),
            image_url: copy_opt_string(&self.image_url),
            message_body: copy_opt_string(&self.message_body),
        }
    }
}

/// What the sync loop reports to the user interface.
pub enum MatrixEvent {
    SyncStatusChanged(SyncStatus),
    SyncIndicatorChanged(bool),
    RoomDiff(VectorDiff<RoomData>),
    TimelineDiff(VectorDiff<TimelineEntry>),
    TimelineReset,
    TimelineInitFinished,
    ReactionAdded { room_id: String, event_id: String, reaction: String },
    IgnoredUsersChanged(Vec<String>),
    SpaceHierarchyChanged,
    CallParticipantsChanged { room_id: String, participants: Vec<String> },
}

} // verus!
