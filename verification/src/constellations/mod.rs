//! The state of the client's user interface and the decisions it takes: each
//! message (user input, or the answer to earlier work) changes the state and
//! asks for further work, which the runtime performs and answers with new
//! messages.
use crate::matrix::diff::VectorDiff;
use crate::matrix::{
    GlobalSearchScope, MatrixEvent, MessageSearchResult, PinnedEventInfo, PublicRoom, QrLoginProgress,
    RoomData, RoomMemberInfo, SyncError, SyncStatus, TimelineEntry,
};
use crate::preview::PreviewEvent;
use vstd::hash_map::StringHashMap;
use vstd::hash_set::StringHashSet;
use vstd::prelude::*;
use vstd::string::StringExecFns;

pub mod composer;
pub mod laws;
pub mod media;
pub mod permalinks;
pub mod rooms;
pub mod scroll;
pub mod search;
pub mod session;
pub mod subscriptions;
pub mod timeline;
pub mod update;

verus! {

/// How many older events one "load more" asks the server for.
pub const HISTORY_PAGE_SIZE: u16 = 20;

/// The steps of the QR-code sign-in flow.
#[derive(Debug, Clone, Copy, PartialEq, Eq, Structural)]
pub enum QrLoginStep {
    NotStarted,
    Initiating,
    ShowingQr,
    /// The other device scanned the QR; the two-digit check code it shows
    /// must be entered here.
    AwaitingCheckCode,
    Authenticating,
    /// Transferring end-to-end encryption secrets from the existing device.
    SyncingSecrets,
    Success,
    Error,
}

/// Which sign-in flow, if any, is in progress; two at once cannot be
/// represented.
#[derive(Debug, Clone, Copy, PartialEq, Eq, Structural)]
pub enum AuthFlow {
    Idle,
    Password,
    Oidc,
    Qr { step: QrLoginStep },
}

/// What to do with a room id once the alias being resolved is known.
#[derive(Debug, Clone, PartialEq)]
pub enum PendingAliasOp {
    /// Select the resolved room.
    OpenRoom,
    /// Join the resolved room.
    JoinRoom,
    /// Open the resolved room and focus this event.
    OpenEvent(String),
}

/// The panels of the context drawer.
#[derive(Clone, Copy, Debug, PartialEq, Eq, Structural)]
pub enum SettingsPanel {
    App,
    User,
    Room,
    Space,
    Members,
    Pinned,
    ManageRoomMembers,
    ManageSpaceRooms,
}

/// The groups of the emoji picker.
#[derive(Clone, Copy, Debug, PartialEq, Eq, Structural)]
pub enum EmojiGroup {
    SmileysAndEmotion,
    PeopleAndBody,
    AnimalsAndNature,
    FoodAndDrink,
    TravelAndPlaces,
    Activities,
    Objects,
    Symbols,
    Flags,
}

/// The entries of the application menus.
#[derive(Clone, Copy, Debug, Eq, PartialEq, Hash, Structural)]
pub enum MenuAct {
    AppSettings,
    UserSettings,
    Logout,
    OpenLink,
    CreateRoom,
    CreateSpace,
    SpaceSettings,
    SpaceInvite,
    RoomSettings,
    RoomInvite,
    ManageRoomMembers,
    ManageSpaceRooms,
}

/// What a Matrix permalink points at, as the permalink parser read it.
#[derive(Debug, Clone, PartialEq)]
pub enum PermalinkTarget {
    /// A room by id.
    Room { room: String },
    /// A room by alias.
    RoomAlias { alias: String },
    /// A user: open a direct chat with them.
    User(String),
    /// An event of a room given by id or by alias.
    Event { room: String, event: String },
    /// A room (by id or alias) to join.
    Join { room: String },
}

/// The messages the user interface answers.
pub enum Message {
    Matrix(MatrixEvent),
    RoomSelected(String),
    /// The Matrix engine was built (or not).
    EngineReady(Result<(), SyncError>),
    ComposerChanged(String),
    TogglePreview,
    SendMessage,
    MessageSent(Result<(), String>),
    MessageEdited(Result<(), String>),
    MessageRedacted(Result<(), String>),
    AttachmentsSelected(Vec<String>),
    RemoveAttachment(usize),
    AttachmentSent(String, Result<(), String>),
    ToggleReaction(String, String),
    ReactionToggled(Result<(), String>),
    OpenReactionPicker(Option<String>),
    EmojiSearchQueryChanged(String),
    ToggleComposerEmojiPicker,
    InsertEmoji(String),
    EmojiPickerSelected(String),
    LoadMoreFinished(Result<(), String>),
    UserReady(Option<String>, Result<(), SyncError>),
    FetchMedia(String),
    MediaFetched(String, Result<Vec<u8>, String>),
    MediaFetchedBatch(Vec<(String, Result<Vec<u8>, String>)>),
    CreateRoom(String),
    RoomCreated(Result<String, String>),
    CreateSpace(String),
    SpaceCreated(Result<String, String>),
    NewRoomNameChanged(String),
    ToggleCreateRoom,
    ToggleCreateSpace,
    ToggleInviteToSpace,
    InviteToSpaceIdChanged(String),
    InviteToSpace,
    SpaceUserInvited(Result<(), String>),
    ToggleInviteToRoom,
    InviteToRoomIdChanged(String),
    InviteToRoom,
    RoomUserInvited(Result<(), String>),
    DismissError,
    LoginHomeserverChanged(String),
    LoginUsernameChanged(String),
    LoginPasswordChanged(String),
    SubmitLogin,
    LoginFinished(Result<String, SyncError>),
    ToggleLoginMode,
    SubmitRegister,
    RegisterFinished(Result<String, SyncError>),
    SelectSpace(Option<String>),
    SpaceChildrenFetched(String, Result<Vec<RoomData>, String>),
    OpenThread(String),
    CloseThread,
    StartReply(String),
    CancelReply,
    StartEdit(String),
    CancelEdit,
    RedactMessage(String),
    CopyMessageLink(String),
    CopyRoomLink(String),
    CopyToClipboard(Result<String, String>),
    DmRoomResolved(Result<String, String>),
    MatrixThreadDiff(String, VectorDiff<TimelineEntry>),
    MatrixThreadReset(String),
    MatrixThreadInitFinished(String),
    SpaceFilterUpdated,
    NoOp,
    SubmitOidcLogin,
    CancelOidcLogin,
    OidcLoginStarted(Result<String, String>),
    OidcCallback(String),
    /// A Matrix link to open (from the command line, the URI scheme or the
    /// paste dialog).
    OpenMatrixLink(String),
    /// What the permalink parser made of a link: `None` when it is no
    /// Matrix permalink.
    LinkParsed(String, Option<PermalinkTarget>),
    ToggleOpenLink,
    OpenLinkTextChanged(String),
    SubmitOpenLink(String),
    RoomAliasResolved(Result<String, String>),
    StartQrLogin,
    CancelQrLogin,
    QrLoginProgress(QrLoginProgress),
    QrCheckCodeChanged(String),
    SubmitQrCheckCode,
    JoinRoom(String),
    RoomJoined(Result<String, String>),
    Logout,
    LogoutFinished,
    OpenSettings(SettingsPanel),
    CloseSettings,
    ClearMediaCache,
    AppSettingChanged,
    ToggleMembersPanel,
    MembersFetched(Result<Vec<RoomMemberInfo>, String>),
    TogglePinnedPanel,
    PinnedEventsFetched(Result<Vec<PinnedEventInfo>, String>),
    UnpinMessage(String),
    ToggleSearch,
    SearchQueryChanged(String),
    PublicSearchResults(u64, Result<Vec<PublicRoom>, String>),
    /// In-room message search results, with whether more can be had; the
    /// search generation they answer comes first.
    MessageSearchResults(u64, Result<(Vec<MessageSearchResult>, bool), String>),
    LoadMoreMessageSearch,
    MessageSearchMoreResults(Result<(Vec<MessageSearchResult>, bool), String>),
    GlobalMessageSearchResults(u64, Result<Vec<MessageSearchResult>, String>),
    SetGlobalSearchScope(GlobalSearchScope),
    OpenRoomEvent { room_id: String, event_id: String },
    SetPendingEventFocus(String),
    NewRoomIsVideoChanged(bool),
    JumpToMessage(String),
    JumpToMessageOrLoadContext(String),
    LoadEventContext(String),
    EventContextLoaded(String, Result<(), String>),
    ReturnToLive,
    JoinCall,
    LeaveCall,
    CallJoined(Result<(), String>),
    CallLeft(Result<(), String>),
    OpenUrl(String),
    /// Ask the user for files to attach.
    AddAttachment,
    /// Show another group of the emoji picker.
    SelectEmojiGroup(Option<EmojiGroup>),
    /// Show an image (by its media URL) full screen.
    OpenImage(String),
    CloseImage,
    /// Ask the desktop portal where the user is.
    ShareLocation,
    /// Where the user is (latitude and longitude, in decimal notation), or
    /// why it could not be found out.
    LocationRetrieved(Result<(String, String), String>),
}

/// Work the runtime performs for the user interface; the answer, where there
/// is one, comes back as a [`Message`].
pub enum Effect {
    /// Send this message back through the update loop.
    Dispatch(Message),
    UpdateTitle,
    /// Recompute the filtered room lists.
    UpdateFilteredRooms,
    /// Restore the saved session, start syncing, and report `UserReady`.
    RestoreSession,
    LoadIgnoredUsers,
    /// Fetch these media (by `mxc://` URL) and report `MediaFetchedBatch`.
    FetchMediaBatch(Vec<String>),
    /// Fetch one media and report `MediaFetched`.
    FetchMedia(String),
    /// Paginate a timeline backwards by `count` events (a thread's when a
    /// root is given).
    LoadMore { room_id: String, thread_root: Option<String>, count: u16 },
    FetchMembers(String),
    FetchPinnedEvents(String),
    UnpinEvent { room_id: String, event_id: String },
    TypingNotice { room_id: String, typing: bool },
    SendMessage { room_id: String, body: String, html: Option<String> },
    SendReply { room_id: String, reply_to: TimelineEntry, body: String, html: Option<String> },
    SendThreaded { room_id: String, root: String, body: String, html: Option<String> },
    EditMessage { room_id: String, item: TimelineEntry, body: String, html: Option<String> },
    SendAttachment { room_id: String, path: String },
    Redact { room_id: String, item_id: String },
    ToggleReaction { room_id: String, item_id: String, key: String },
    CopyEventLink { room_id: String, event_id: String },
    CopyRoomLink(String),
    WriteClipboard(String),
    OpenInBrowser(String),
    InviteUser { room_id: String, user_id: String },
    CreateRoom { name: String, is_video: bool },
    CreateSpace { name: String },
    UpdateRoomListFilter(Option<String>),
    FetchSpaceChildren(String),
    Login { homeserver: String, username: String, password: String },
    Register { homeserver: String, username: String, password: String },
    StartOidcLogin { homeserver: String },
    CompleteOidcLogin { callback_url: String },
    StartQrLogin { homeserver: String },
    CancelQrLogin,
    SendQrCheckCode(u8),
    Logout,
    /// Run the permalink parser on a link and report `LinkParsed`.
    ParseLink(String),
    ResolveAlias(String),
    OpenDirectMessage(String),
    BuildEventTimeline { room_id: String, event_id: String },
    DropEventTimeline { room_id: String, event_id: String },
    SearchPublicRooms { query: String, generation: u64 },
    SearchMessagesInRoom { room_id: String, query: String, generation: u64 },
    SearchMoreMessagesInRoom { room_id: String, query: String },
    SearchMessagesGlobal { query: String, scope: GlobalSearchScope, generation: u64 },
    JoinRoom(String),
    JoinCall(String),
    LeaveCall(String),
    /// Open the file picker and report `AttachmentsSelected`.
    PickAttachments,
    /// Ask the location portal for one position and report
    /// `LocationRetrieved`.
    RequestLocation,
    /// Send a location message (the body is worded by the runtime from the
    /// two coordinates).
    SendLocation { room_id: String, latitude: String, longitude: String, geo_uri: String },
    LoadUserProfile,
    LoadRoomSettings(String),
    LoadSpaceSettings(String),
    SaveConfig,
    /// Scroll a timeline to its newest item.
    SnapToEnd { thread: bool },
    /// Scroll a timeline back to the offset it was last seen at.
    ScrollToSaved { thread: bool },
    /// Scroll the main timeline so that the first of the last `unread` of
    /// `total` items is at the top: the relative offset `(total - unread) /
    /// total`.
    SnapToUnread { unread: usize, total: usize },
    /// Scroll the main timeline to the item at `index` of `total`, centred.
    ScrollToItem { index: usize, total: usize },
    /// Forget the content height and viewport height last seen of the main
    /// timeline (of the thread's when `thread` holds), also the viewport
    /// width when `width` holds, and the saved offset when `offset` holds.
    ResetScrollMetrics { thread: bool, offset: bool, width: bool },
}

/// The session: the engine, the signed-in user, sign-in forms and flows, and
/// the error shown to the user.
pub struct Session {
    /// Whether the Matrix engine is up.
    pub engine_ready: bool,
    pub sync_status: SyncStatus,
    pub user_id: Option<String>,
    pub is_initializing: bool,
    pub is_sync_indicator_active: bool,
    pub error: Option<String>,
    pub login_homeserver: String,
    pub login_username: String,
    pub login_password: String,
    pub auth_flow: AuthFlow,
    pub qr_code_bytes: Option<Vec<u8>>,
    /// Whether the QR sign-in task waits for the check code.
    pub qr_check_code_pending: bool,
    pub qr_user_code: Option<String>,
    pub qr_check_code_input: String,
    pub is_registering_mode: bool,
    pub is_registering: bool,
}

/// The rooms and spaces: the lists, the selection, and the forms that create
/// rooms or invite to them.
pub struct Rooms {
    pub room_list: Vec<RoomData>,
    pub other_rooms: Vec<RoomData>,
    pub selected_room: Option<String>,
    pub selected_space: Option<String>,
    pub joined_room_ids: StringHashSet,
    pub visited_room_ids: StringHashSet,
    pub room_name_cache: StringHashMap<String>,
    pub call_participants: StringHashMap<Vec<String>>,
    pub is_first_time_joining: bool,
    pub new_room_name: String,
    pub new_room_is_video: bool,
    pub creating_room: bool,
    pub creating_space: bool,
    pub inviting_to_space: bool,
    pub invite_to_space_id: String,
    pub inviting_to_room: bool,
    pub invite_to_room_id: String,
}

/// Where links asked to go.
pub struct Links {
    /// A permalink that arrived before sign-in, opened once the session is up.
    pub pending_link: Option<String>,
    /// An event a permalink asked to show, waiting for its room's timeline.
    pub pending_event_focus: Option<String>,
    /// The event the timeline is centred on, when it shows older messages
    /// around a permalink instead of the live timeline.
    pub active_event_focus: Option<String>,
    /// The text of the "Open link" dialog, when it is open.
    pub open_link_dialog: Option<String>,
    pub pending_alias_op: Option<PendingAliasOp>,
}

/// The main timeline and the open thread, and what their scrolling waits for.
pub struct Timeline {
    pub timeline_items: Vec<TimelineEntry>,
    pub threaded_timeline_items: Vec<TimelineEntry>,
    pub thread_counts: StringHashMap<usize>,
    pub active_thread_root: Option<String>,
    pub is_loading_more: bool,
    pub needs_initial_scroll: bool,
    pub needs_scroll_restoration: bool,
    pub needs_threaded_scroll_restoration: bool,
    pub is_timeline_at_bottom: bool,
    pub is_threaded_timeline_at_bottom: bool,
    pub is_timeline_initialized: bool,
    pub is_threaded_timeline_initialized: bool,
    pub needs_layout_scroll_restoration: bool,
    pub needs_threaded_layout_scroll_restoration: bool,
    pub needs_scroll_adjustment: bool,
    pub needs_threaded_scroll_adjustment: bool,
}

/// The message composer.
pub struct Composer {
    pub composer_text: String,
    pub composer_preview_events: Vec<PreviewEvent>,
    pub composer_is_preview: bool,
    pub composer_attachments: Vec<String>,
    pub replying_to: Option<TimelineEntry>,
    pub editing_item: Option<TimelineEntry>,
    pub active_reaction_picker: Option<String>,
    pub emoji_search_query: String,
    pub is_composer_emoji_picker_active: bool,
    /// The emoji group the picker shows.
    pub selected_emoji_group: Option<EmojiGroup>,
}

/// The search bar: its query, and the directory and message searches it runs.
pub struct Search {
    pub search_query: String,
    pub is_search_active: bool,
    pub public_search_results: Vec<PublicRoom>,
    pub is_searching_public: bool,
    pub message_search_results: Vec<MessageSearchResult>,
    pub is_searching_messages: bool,
    pub search_has_more: bool,
    pub is_searching_more_messages: bool,
    /// Counts the searches started; a result that carries another count
    /// answers a query that is no longer current.
    pub search_generation: u64,
    pub global_message_search_results: Vec<MessageSearchResult>,
    pub is_searching_global_messages: bool,
    pub global_search_scope: GlobalSearchScope,
}

/// The context drawer and the panels it shows.
pub struct Panels {
    pub current_settings_panel: Option<SettingsPanel>,
    /// Whether the context drawer is shown.
    pub show_context: bool,
    pub room_member_filter: String,
    pub space_child_filter: String,
    pub show_pinned_panel: bool,
    pub is_loading_pinned: bool,
    pub pinned_events: StringHashSet,
    pub pinned_events_details: Vec<PinnedEventInfo>,
    pub show_members_panel: bool,
    pub room_members: Vec<RoomMemberInfo>,
    pub is_loading_members: bool,
    /// The image shown full screen (its media URL), if any.
    pub fullscreen_image: Option<String>,
}

/// The user's preferences that the decisions read.
pub struct Preferences {
    pub ignored_users: Vec<String>,
    pub media_previews_enabled: bool,
    pub invite_avatars_enabled: bool,
    pub send_typing_notifications: bool,
    pub render_markdown: bool,
}

/// The state of the user interface.
pub struct Constellations {
    pub session: Session,
    pub rooms: Rooms,
    pub links: Links,
    pub timeline: Timeline,
    pub composer: Composer,
    pub search: Search,
    pub panels: Panels,
    pub prefs: Preferences,
    pub media_cache: StringHashMap<Vec<u8>>,
}

/// A list of one effect.
pub fn single(e: Effect) -> (v: Vec<Effect>)
    ensures
        v@ == seq![e],
{
    let mut v: Vec<Effect> = Vec::new();
    v.push(e);
    v
}

/// The text of an error that reports a failed action: "Failed to <action>:
/// <detail>".
pub open spec fn failure_text(action: Seq<char>, detail: Seq<char>) -> Seq<char> {
    "Failed to "@ + action + ": "@ + detail
}

/// Builds the text of a failed action.
pub fn failure_message(action: &str, detail: &str) -> (m: String)
    ensures
        m@ == failure_text(action@, detail@),
{
    String::from_str("Failed to ").concat(action).concat(": ").concat(detail)
}

/// The text shown when a Matrix link is opened while signed out.
pub open spec fn sign_in_to_open_link_text() -> Seq<char> {
    "Sign in to open Matrix links"@
}

/// The text shown when an event a link or search hit points at cannot be
/// found.
pub open spec fn message_not_found_text() -> Seq<char> {
    "Message not found"@
}

/// The text shown when the QR check code is not a number.
pub open spec fn invalid_check_code_text() -> Seq<char> {
    "Invalid check code: enter the two digits shown on the other device"@
}

/// The text shown when the homeserver offers no OAuth sign-in.
pub open spec fn oidc_not_supported_text() -> Seq<char> {
    "This homeserver does not support OAuth sign-in; sign in with a password instead"@
}

/// The error text the engine uses to report that the homeserver offers no
/// OAuth sign-in.
pub open spec fn oidc_not_supported_marker() -> Seq<char> {
    "__constellations_oidc_not_supported__"@
}

/// The message a menu entry sends.
pub open spec fn menu_message(act: MenuAct) -> Message {
    match act {
        MenuAct::AppSettings => Message::OpenSettings(SettingsPanel::App),
        MenuAct::UserSettings => Message::OpenSettings(SettingsPanel::User),
        MenuAct::Logout => Message::Logout,
        MenuAct::OpenLink => Message::ToggleOpenLink,
        MenuAct::CreateRoom => Message::ToggleCreateRoom,
        MenuAct::CreateSpace => Message::ToggleCreateSpace,
        MenuAct::SpaceSettings => Message::OpenSettings(SettingsPanel::Space),
        MenuAct::SpaceInvite => Message::ToggleInviteToSpace,
        MenuAct::RoomSettings => Message::OpenSettings(SettingsPanel::Room),
        MenuAct::RoomInvite => Message::ToggleInviteToRoom,
        MenuAct::ManageRoomMembers => Message::OpenSettings(SettingsPanel::ManageRoomMembers),
        MenuAct::ManageSpaceRooms => Message::OpenSettings(SettingsPanel::ManageSpaceRooms),
    }
}

impl MenuAct {
    /// The message this menu entry sends.
    pub fn message(&self) -> (m: Message)
        ensures
            m == menu_message(*self),
    {
        match self {
            MenuAct::AppSettings => Message::OpenSettings(SettingsPanel::App),
            MenuAct::UserSettings => Message::OpenSettings(SettingsPanel::User),
            MenuAct::Logout => Message::Logout,
            MenuAct::OpenLink => Message::ToggleOpenLink,
            MenuAct::CreateRoom => Message::ToggleCreateRoom,
            MenuAct::CreateSpace => Message::ToggleCreateSpace,
            MenuAct::SpaceSettings => Message::OpenSettings(SettingsPanel::Space),
            MenuAct::SpaceInvite => Message::ToggleInviteToSpace,
            MenuAct::RoomSettings => Message::OpenSettings(SettingsPanel::Room),
            MenuAct::RoomInvite => Message::ToggleInviteToRoom,
            MenuAct::ManageRoomMembers => Message::OpenSettings(SettingsPanel::ManageRoomMembers),
            MenuAct::ManageSpaceRooms => Message::OpenSettings(SettingsPanel::ManageSpaceRooms),
        }
    }
}

/// The state of a freshly started client: signed out, nothing loaded, the
/// homeserver field preset to matrix.org, and still initialising.
pub open spec fn is_fresh(c: Constellations) -> bool {
    &&& is_blank(c)
    &&& c.session.user_id is None
    &&& c.rooms.room_list@.len() == 0
    &&& c.session.login_homeserver@ == "https://matrix.org"@
    &&& c.session.is_initializing
}

/// Every part of the state but the user, the room list, the homeserver field
/// and the initialising flag is as in a freshly started client.
pub open spec fn is_blank(c: Constellations) -> bool {
    &&& !c.session.engine_ready
    &&& c.session.sync_status == SyncStatus::Disconnected
    &&& c.rooms.other_rooms@.len() == 0
    &&& c.rooms.selected_room is None
    &&& c.links.pending_link is None
    &&& c.links.pending_event_focus is None
    &&& c.links.active_event_focus is None
    &&& c.links.open_link_dialog is None
    &&& c.links.pending_alias_op is None
    &&& c.timeline.timeline_items@.len() == 0
    &&& c.timeline.threaded_timeline_items@.len() == 0
    &&& c.composer.composer_text@.len() == 0
    &&& c.composer.composer_preview_events@.len() == 0
    &&& !c.composer.composer_is_preview
    &&& c.composer.composer_attachments@.len() == 0
    &&& c.media_cache@ == Map::<Seq<char>, Vec<u8>>::empty()
    &&& !c.rooms.creating_room
    &&& !c.rooms.creating_space
    &&& c.rooms.new_room_name@.len() == 0
    &&& !c.rooms.inviting_to_space
    &&& c.rooms.invite_to_space_id@.len() == 0
    &&& !c.rooms.inviting_to_room
    &&& c.rooms.invite_to_room_id@.len() == 0
    &&& c.session.error is None
    &&& c.session.login_username@.len() == 0
    &&& c.session.login_password@.len() == 0
    &&& c.session.auth_flow == AuthFlow::Idle
    &&& c.session.qr_code_bytes is None
    &&& !c.session.qr_check_code_pending
    &&& c.session.qr_user_code is None
    &&& c.session.qr_check_code_input@.len() == 0
    &&& !c.session.is_registering_mode
    &&& !c.session.is_registering
    &&& !c.session.is_sync_indicator_active
    &&& !c.timeline.is_loading_more
    &&& c.search.search_query@.len() == 0
    &&& !c.search.is_search_active
    &&& c.search.public_search_results@.len() == 0
    &&& !c.search.is_searching_public
    &&& c.search.message_search_results@.len() == 0
    &&& !c.search.is_searching_messages
    &&& !c.search.search_has_more
    &&& !c.search.is_searching_more_messages
    &&& c.search.search_generation == 0
    &&& c.search.global_message_search_results@.len() == 0
    &&& !c.search.is_searching_global_messages
    &&& c.search.global_search_scope == GlobalSearchScope::All
    &&& !c.rooms.new_room_is_video
    &&& c.composer.active_reaction_picker is None
    &&& c.timeline.active_thread_root is None
    &&& c.rooms.joined_room_ids@ == Set::<Seq<char>>::empty()
    &&& c.rooms.visited_room_ids@ == Set::<Seq<char>>::empty()
    &&& !c.rooms.is_first_time_joining
    &&& !c.timeline.needs_initial_scroll
    &&& !c.timeline.needs_scroll_restoration
    &&& !c.timeline.needs_threaded_scroll_restoration
    &&& c.timeline.is_timeline_at_bottom
    &&& c.timeline.is_threaded_timeline_at_bottom
    &&& !c.timeline.is_timeline_initialized
    &&& !c.timeline.is_threaded_timeline_initialized
    &&& !c.timeline.needs_layout_scroll_restoration
    &&& !c.timeline.needs_threaded_layout_scroll_restoration
    &&& !c.timeline.needs_scroll_adjustment
    &&& !c.timeline.needs_threaded_scroll_adjustment
    &&& c.composer.replying_to is None
    &&& c.composer.editing_item is None
    &&& c.rooms.selected_space is None
    &&& c.panels.current_settings_panel is None
    &&& !c.panels.show_context
    &&& c.panels.room_member_filter@.len() == 0
    &&& c.panels.space_child_filter@.len() == 0
    &&& c.prefs.ignored_users@.len() == 0
    &&& !c.prefs.media_previews_enabled
    &&& !c.prefs.invite_avatars_enabled
    &&& !c.prefs.send_typing_notifications
    &&& !c.prefs.render_markdown
    &&& c.composer.emoji_search_query@.len() == 0
    &&& !c.composer.is_composer_emoji_picker_active
    &&& c.rooms.room_name_cache@ == Map::<Seq<char>, String>::empty()
    &&& c.timeline.thread_counts@ == Map::<Seq<char>, usize>::empty()
    &&& !c.panels.show_pinned_panel
    &&& !c.panels.is_loading_pinned
    &&& c.panels.pinned_events@ == Set::<Seq<char>>::empty()
    &&& c.panels.pinned_events_details@.len() == 0
    &&& !c.panels.show_members_panel
    &&& c.panels.room_members@.len() == 0
    &&& !c.panels.is_loading_members
    &&& c.rooms.call_participants@ == Map::<Seq<char>, Vec<String>>::empty()
    &&& c.panels.fullscreen_image is None
    &&& c.composer.selected_emoji_group is None
}

impl Constellations {
    /// A freshly started client (see [`is_fresh`]).
    pub fn mock() -> (c: Constellations)
        ensures
            is_fresh(c),
    {
        Constellations {
            session: Session {
                engine_ready: false,
                sync_status: SyncStatus::Disconnected,
                user_id: None,
                is_initializing: true,
                is_sync_indicator_active: false,
                error: None,
                login_homeserver: String::from_str("https://matrix.org"),
                login_username: String::new(),
                login_password: String::new(),
                auth_flow: AuthFlow::Idle,
                qr_code_bytes: None,
                qr_check_code_pending: false,
                qr_user_code: None,
                qr_check_code_input: String::new(),
                is_registering_mode: false,
                is_registering: false,
            },
            rooms: Rooms {
                room_list: Vec::new(),
                other_rooms: Vec::new(),
                selected_room: None,
                selected_space: None,
                joined_room_ids: StringHashSet::new(),
                visited_room_ids: StringHashSet::new(),
                room_name_cache: StringHashMap::new(),
                call_participants: StringHashMap::new(),
                is_first_time_joining: false,
                new_room_name: String::new(),
                new_room_is_video: false,
                creating_room: false,
                creating_space: false,
                inviting_to_space: false,
                invite_to_space_id: String::new(),
                inviting_to_room: false,
                invite_to_room_id: String::new(),
            },
            links: Links {
                pending_link: None,
                pending_event_focus: None,
                active_event_focus: None,
                open_link_dialog: None,
                pending_alias_op: None,
            },
            timeline: Timeline {
                timeline_items: Vec::new(),
                threaded_timeline_items: Vec::new(),
                thread_counts: StringHashMap::new(),
                active_thread_root: None,
                is_loading_more: false,
                needs_initial_scroll: false,
                needs_scroll_restoration: false,
                needs_threaded_scroll_restoration: false,
                is_timeline_at_bottom: true,
                is_threaded_timeline_at_bottom: true,
                is_timeline_initialized: false,
                is_threaded_timeline_initialized: false,
                needs_layout_scroll_restoration: false,
                needs_threaded_layout_scroll_restoration: false,
                needs_scroll_adjustment: false,
                needs_threaded_scroll_adjustment: false,
            },
            composer: Composer {
                composer_text: String::new(),
                composer_preview_events: Vec::new(),
                composer_is_preview: false,
                composer_attachments: Vec::new(),
                replying_to: None,
                editing_item: None,
                active_reaction_picker: None,
                emoji_search_query: String::new(),
                is_composer_emoji_picker_active: false,
                selected_emoji_group: None,
            },
            search: Search {
                search_query: String::new(),
                is_search_active: false,
                public_search_results: Vec::new(),
                is_searching_public: false,
                message_search_results: Vec::new(),
                is_searching_messages: false,
                search_has_more: false,
                is_searching_more_messages: false,
                search_generation: 0,
                global_message_search_results: Vec::new(),
                is_searching_global_messages: false,
                global_search_scope: GlobalSearchScope::All,
            },
            panels: Panels {
                current_settings_panel: None,
                show_context: false,
                room_member_filter: String::new(),
                space_child_filter: String::new(),
                show_pinned_panel: false,
                is_loading_pinned: false,
                pinned_events: StringHashSet::new(),
                pinned_events_details: Vec::new(),
                show_members_panel: false,
                room_members: Vec::new(),
                is_loading_members: false,
                fullscreen_image: None,
            },
            prefs: Preferences {
                ignored_users: Vec::new(),
                media_previews_enabled: false,
                invite_avatars_enabled: false,
                send_typing_notifications: false,
                render_markdown: false,
            },
            media_cache: StringHashMap::new(),
        }
    }
}

/// A signed-in client with one room, "Room 1" (`!room1:example.com`, five
/// unread messages), for exercising the scrolling decisions; also returns the
/// room's id.
pub fn setup_scroll_test_app() -> (r: (Constellations, String))
    ensures
        r.1@ == "!room1:example.com"@,
        r.0.session.user_id.is_some() && r.0.session.user_id.unwrap()@ == "@test_user:matrix.org"@,
        r.0.rooms.room_list@.len() == 1,
        r.0.rooms.room_list@[0].id@ == "!room1:example.com"@,
        r.0.rooms.room_list@[0].name.is_some() && r.0.rooms.room_list@[0].name.unwrap()@ == "Room 1"@,
        r.0.rooms.room_list@[0].unread_count == 5,
        r.0.rooms.room_list@[0].unread_count_str.is_some() && r.0.rooms.room_list@[0].unread_count_str.unwrap()@
            == "5"@,
        r.0.rooms.room_list@[0].last_message is None,
        r.0.rooms.room_list@[0].avatar_url is None,
        r.0.rooms.room_list@[0].parent_space_id is None,
        r.0.rooms.room_list@[0].allowed_spaces@.len() == 0,
        r.0.rooms.room_list@[0].order is None,
        !r.0.rooms.room_list@[0].suggested,
        !r.0.rooms.room_list@[0].is_space,
        r.0.session.login_homeserver@.len() == 0,
        !r.0.session.is_initializing,
        is_blank(r.0),
{
    let mut app = Constellations::mock();
    app.session.login_homeserver = String::new();
    app.session.is_initializing = false;
    app.session.user_id = Some(String::from_str("@test_user:matrix.org"));
    let room_id = String::from_str("!room1:example.com");
    app.rooms.room_list.push(
        RoomData {
            id: room_id.clone(),
            name: Some(String::from_str("Room 1")),
            last_message: None,
            unread_count: 5,
            unread_count_str: Some(String::from_str("5")),
            avatar_url: None,
            is_space: false,
            parent_space_id: None,
            allowed_spaces: Vec::new(),
            order: None,
            suggested: false,
        },
    );
    (app, room_id)
}

} // verus!
