//! Starting the engine, signing in and out (password, registration, OAuth and
//! QR code), and what a finished sign-in leaves behind.
use crate::constellations::{
    failure_message, failure_text, single, invalid_check_code_text, oidc_not_supported_marker,
    oidc_not_supported_text, AuthFlow, Constellations, Effect, Links, Message, QrLoginStep, Rooms,
    Session, Timeline,
};
use crate::matrix::{QrLoginProgress, RoomData, SyncError, SyncStatus};
use crate::text::{is_digit, parse_u8, parse_u8_spec, starts_with, str_starts_with, trim, trimmed};
use vstd::hash_map::StringHashMap;
use vstd::prelude::*;
use vstd::string::StringExecFns;

verus! {

/// `error` holds a message with text `text`.
pub open spec fn shows_error(error: Option<String>, text: Seq<char>) -> bool {
    error is Some && error.unwrap()@ == text
}

/// The sync status a sync error leaves: the dedicated status when sliding
/// sync is missing, else an error status with the error's message.
pub open spec fn status_after_sync_error(status: SyncStatus, e: SyncError) -> bool {
    match e {
        SyncError::MissingSlidingSyncSupport => status == SyncStatus::MissingSlidingSyncSupport,
        _ => status matches SyncStatus::Error(m) && m@ == crate::matrix::sync_error_text(e),
    }
}

/// The avatars of `rooms` that are not in the media cache, in room order.
pub open spec fn missing_room_avatars(rooms: Seq<RoomData>, cache: Map<Seq<char>, Vec<u8>>) -> Seq<Seq<char>>
    decreases rooms.len(),
{
    if rooms.len() == 0 {
        Seq::empty()
    } else {
        let rest = missing_room_avatars(rooms.drop_last(), cache);
        match rooms.last().avatar_url {
            Some(url) => if cache.contains_key(url@) {
                rest
            } else {
                rest.push(url@)
            },
            None => rest,
        }
    }
}

/// The views of a sequence of strings.
pub open spec fn string_views(v: Seq<String>) -> Seq<Seq<char>> {
    v.map_values(|s: String| s@)
}

/// The homeserver the QR sign-in starts against: the trimmed field, or
/// matrix.org when it is blank, with `https://` put in front when it names no
/// scheme.
pub open spec fn qr_homeserver(field: Seq<char>) -> Seq<char> {
    let t = trim(field);
    let h = if t.len() == 0 {
        "https://matrix.org"@
    } else {
        t
    };
    if starts_with(h, "http://"@) || starts_with(h, "https://"@) {
        h
    } else {
        "https://"@ + h
    }
}

/// The ASCII digits of `s`, in order.
pub open spec fn ascii_digits(s: Seq<char>) -> Seq<char>
    decreases s.len(),
{
    if s.len() == 0 {
        Seq::empty()
    } else if is_digit(s.last()) {
        ascii_digits(s.drop_last()).push(s.last())
    } else {
        ascii_digits(s.drop_last())
    }
}

/// What the check-code field keeps of typed text: its first two ASCII digits.
pub open spec fn check_code_input(s: Seq<char>) -> Seq<char> {
    let d = ascii_digits(s);
    if d.len() <= 2 {
        d
    } else {
        d.take(2)
    }
}

/// The QR fields of the session cleared: no QR code, no check code awaited,
/// no user code, an empty check-code field.
pub open spec fn qr_cleared(s: Session) -> bool {
    &&& s.qr_code_bytes is None
    &&& !s.qr_check_code_pending
    &&& s.qr_user_code is None
    &&& s.qr_check_code_input@.len() == 0
}

/// `handle_engine_ready`: on success the engine is up and the saved session is
/// restored; on failure the error is shown and initialising ends.
pub open spec fn engine_ready_post(
    old: Constellations,
    new: Constellations,
    res: Result<(), SyncError>,
    effects: Seq<Effect>,
) -> bool {
    match res {
        Ok(()) => {
            &&& new == (Constellations { session: Session { engine_ready: true, ..old.session }, ..old })
            &&& effects == seq![Effect::RestoreSession]
        },
        Err(e) => {
            &&& new == (Constellations {
                session: Session { error: new.session.error, is_initializing: false, ..old.session },
                ..old
            })
            &&& shows_error(
                new.session.error,
                failure_text("initialize the Matrix engine"@, crate::matrix::sync_error_text(e)),
            )
            &&& effects.len() == 0
        },
    }
}

/// `handle_user_ready`: records the user and ends initialising; for a signed-in
/// user, records a failed sync, loads the ignored users and the missing room
/// avatars when the engine is up, and opens a link that waited for sign-in.
pub open spec fn user_ready_post(
    old: Constellations,
    new: Constellations,
    user_id: Option<String>,
    sync_res: Result<(), SyncError>,
    effects: Seq<Effect>,
) -> bool {
    if user_id is None {
        &&& new == (Constellations {
            session: Session { user_id: None, is_initializing: false, ..old.session },
            ..old
        })
        &&& effects == seq![Effect::UpdateTitle]
    } else {
        let avatars = missing_room_avatars(old.rooms.room_list@, old.media_cache@);
        let loads = if old.session.engine_ready {
            if avatars.len() == 0 {
                seq![Effect::LoadIgnoredUsers]
            } else {
                seq![Effect::LoadIgnoredUsers, effects[2]]
            }
        } else {
            Seq::empty()
        };
        let replay = match old.links.pending_link {
            Some(link) => if old.session.engine_ready {
                seq![Effect::Dispatch(Message::OpenMatrixLink(link))]
            } else {
                Seq::empty()
            },
            None => Seq::empty(),
        };
        &&& new == (Constellations {
            session: Session {
                user_id: user_id,
                is_initializing: false,
                sync_status: new.session.sync_status,
                ..old.session
            },
            links: Links { pending_link: None, ..old.links },
            ..old
        })
        &&& match sync_res {
            Ok(()) => new.session.sync_status == old.session.sync_status,
            Err(e) => status_after_sync_error(new.session.sync_status, e),
        }
        &&& effects == seq![Effect::UpdateTitle] + loads + replay
        &&& (old.session.engine_ready && avatars.len() > 0) ==> (effects[2] matches Effect::FetchMediaBatch(urls)
            && string_views(urls@) == avatars)
    }
}

/// `handle_register_finished`.
pub open spec fn register_finished_post(
    old: Constellations,
    new: Constellations,
    res: Result<String, SyncError>,
    effects: Seq<Effect>,
) -> bool {
    match res {
        Ok(user_id) => {
            &&& new == (Constellations {
                session: Session {
                    is_registering: false,
                    user_id: Some(user_id),
                    login_homeserver: new.session.login_homeserver,
                    login_username: new.session.login_username,
                    login_password: new.session.login_password,
                    error: None,
                    ..old.session
                },
                ..old
            })
            &&& new.session.login_homeserver@.len() == 0
            &&& new.session.login_username@.len() == 0
            &&& new.session.login_password@.len() == 0
            &&& effects == seq![Effect::UpdateTitle]
        },
        Err(e) => {
            &&& new == (Constellations {
                session: Session { is_registering: false, error: new.session.error, ..old.session },
                ..old
            })
            &&& shows_error(new.session.error, failure_text("register"@, crate::matrix::sync_error_text(e)))
            &&& effects.len() == 0
        },
    }
}

/// `handle_login_finished`: the flow ends; the user is recorded, or a missing
/// sliding sync is recorded as the sync status, or the error is shown.
pub open spec fn login_finished_post(
    old: Constellations,
    new: Constellations,
    res: Result<String, SyncError>,
    effects: Seq<Effect>,
) -> bool {
    &&& effects.len() == 0
    &&& match res {
        Ok(user_id) => new == (Constellations {
            session: Session { auth_flow: AuthFlow::Idle, user_id: Some(user_id), ..old.session },
            ..old
        }),
        Err(SyncError::MissingSlidingSyncSupport) => new == (Constellations {
            session: Session {
                auth_flow: AuthFlow::Idle,
                sync_status: SyncStatus::MissingSlidingSyncSupport,
                ..old.session
            },
            ..old
        }),
        Err(e) => {
            &&& new == (Constellations {
                session: Session { auth_flow: AuthFlow::Idle, error: new.session.error, ..old.session },
                ..old
            })
            &&& shows_error(new.session.error, failure_text("log in"@, crate::matrix::sync_error_text(e)))
        },
    }
}

/// The state right after a sign-in form is submitted: `flow` in progress, no
/// error, disconnected, and the password field emptied.
pub open spec fn credentials_submitted(old: Constellations, new: Constellations, flow: AuthFlow) -> bool {
    &&& new == (Constellations {
        session: Session {
            auth_flow: flow,
            error: None,
            sync_status: SyncStatus::Disconnected,
            login_password: new.session.login_password,
            ..old.session
        },
        ..old
    })
    &&& new.session.login_password@.len() == 0
}

/// `handle_oidc_login_started`: the authorisation page opens in the browser,
/// or the flow ends with an error (a dedicated one when the homeserver offers
/// no OAuth sign-in).
pub open spec fn oidc_login_started_post(
    old: Constellations,
    new: Constellations,
    res: Result<String, String>,
    effects: Seq<Effect>,
) -> bool {
    match res {
        Ok(url) => new == old && effects == seq![Effect::OpenInBrowser(url)],
        Err(e) => {
            &&& new == (Constellations {
                session: Session { auth_flow: AuthFlow::Idle, error: new.session.error, ..old.session },
                ..old
            })
            &&& shows_error(
                new.session.error,
                if e@ == oidc_not_supported_marker() {
                    oidc_not_supported_text()
                } else {
                    failure_text("start the OAuth sign-in"@, e@)
                },
            )
            &&& effects.len() == 0
        },
    }
}

/// `handle_logout_finished`: everything of the session is forgotten.
pub open spec fn logout_finished_post(old: Constellations, new: Constellations, effects: Seq<Effect>) -> bool {
    &&& new == (Constellations {
        session: Session {
            user_id: None,
            engine_ready: false,
            sync_status: SyncStatus::Disconnected,
            auth_flow: AuthFlow::Idle,
            login_password: new.session.login_password,
            error: None,
            is_sync_indicator_active: false,
            ..old.session
        },
        rooms: Rooms {
            room_list: new.rooms.room_list,
            selected_room: None,
            selected_space: None,
            joined_room_ids: new.rooms.joined_room_ids,
            ..old.rooms
        },
        timeline: Timeline {
            timeline_items: new.timeline.timeline_items,
            thread_counts: new.timeline.thread_counts,
            is_loading_more: false,
            ..old.timeline
        },
        ..old
    })
    &&& new.session.login_password@.len() == 0
    &&& new.rooms.room_list@.len() == 0
    &&& new.rooms.joined_room_ids@.len() == 0
    &&& new.timeline.timeline_items@.len() == 0
    &&& new.timeline.thread_counts@ == Map::<Seq<char>, usize>::empty()
    &&& effects.len() == 0
}

/// `handle_start_qr_login`: the QR flow starts from scratch; with the engine
/// up, the sign-in task starts against [`qr_homeserver`] of the field.
pub open spec fn start_qr_login_post(old: Constellations, new: Constellations, effects: Seq<Effect>) -> bool {
    &&& new == (Constellations {
        session: Session {
            auth_flow: AuthFlow::Qr { step: QrLoginStep::Initiating },
            error: None,
            qr_code_bytes: None,
            qr_check_code_pending: false,
            qr_user_code: None,
            qr_check_code_input: new.session.qr_check_code_input,
            ..old.session
        },
        ..old
    })
    &&& new.session.qr_check_code_input@.len() == 0
    &&& if old.session.engine_ready {
        &&& effects.len() == 1
        &&& (effects[0] matches Effect::StartQrLogin { homeserver } && homeserver@ == qr_homeserver(
            old.session.login_homeserver@,
        ))
    } else {
        effects.len() == 0
    }
}

/// `handle_cancel_qr_login`: the QR flow ends and its fields are cleared.
pub open spec fn cancel_qr_login_post(old: Constellations, new: Constellations, effects: Seq<Effect>) -> bool {
    &&& new == (Constellations {
        session: Session {
            auth_flow: AuthFlow::Idle,
            qr_code_bytes: None,
            qr_check_code_pending: false,
            qr_user_code: None,
            qr_check_code_input: new.session.qr_check_code_input,
            ..old.session
        },
        ..old
    })
    &&& new.session.qr_check_code_input@.len() == 0
    &&& effects == if old.session.engine_ready {
        seq![Effect::CancelQrLogin]
    } else {
        Seq::empty()
    }
}

/// `handle_qr_login_progress`: each report moves the flow to its step; the
/// end clears the QR fields and either signs in or shows the error.
pub open spec fn qr_login_progress_post(
    old: Constellations,
    new: Constellations,
    progress: QrLoginProgress,
    effects: Seq<Effect>,
) -> bool {
    &&& effects.len() == 0
    &&& match progress {
        QrLoginProgress::QrReady(bytes) => new == (Constellations {
            session: Session {
                qr_code_bytes: Some(bytes),
                auth_flow: AuthFlow::Qr { step: QrLoginStep::ShowingQr },
                ..old.session
            },
            ..old
        }),
        QrLoginProgress::QrScanned => {
            &&& new == (Constellations {
                session: Session {
                    qr_check_code_pending: true,
                    qr_check_code_input: new.session.qr_check_code_input,
                    auth_flow: AuthFlow::Qr { step: QrLoginStep::AwaitingCheckCode },
                    ..old.session
                },
                ..old
            })
            &&& new.session.qr_check_code_input@.len() == 0
        },
        QrLoginProgress::WaitingForToken { user_code } => new == (Constellations {
            session: Session {
                qr_user_code: Some(user_code),
                auth_flow: AuthFlow::Qr { step: QrLoginStep::Authenticating },
                ..old.session
            },
            ..old
        }),
        QrLoginProgress::SyncingSecrets => new == (Constellations {
            session: Session { auth_flow: AuthFlow::Qr { step: QrLoginStep::SyncingSecrets }, ..old.session },
            ..old
        }),
        QrLoginProgress::Finished(Ok(user_id)) => {
            &&& new == (Constellations {
                session: Session {
                    qr_code_bytes: None,
                    qr_check_code_pending: false,
                    qr_user_code: None,
                    qr_check_code_input: new.session.qr_check_code_input,
                    auth_flow: AuthFlow::Idle,
                    user_id: Some(user_id),
                    ..old.session
                },
                ..old
            })
            &&& new.session.qr_check_code_input@.len() == 0
        },
        QrLoginProgress::Finished(Err(e)) => {
            &&& new == (Constellations {
                session: Session {
                    qr_code_bytes: None,
                    qr_check_code_pending: false,
                    qr_user_code: None,
                    qr_check_code_input: new.session.qr_check_code_input,
                    auth_flow: AuthFlow::Qr { step: QrLoginStep::Error },
                    error: new.session.error,
                    ..old.session
                },
                ..old
            })
            &&& new.session.qr_check_code_input@.len() == 0
            &&& shows_error(new.session.error, failure_text("sign in with the QR code"@, e@))
        },
    }
}

/// `handle_submit_qr_check_code`: without a pending check code nothing
/// happens; else the field is consumed, and a number up to 255 goes to the
/// sign-in task while anything else shows an error and returns to the QR.
pub open spec fn submit_qr_check_code_post(old: Constellations, new: Constellations, effects: Seq<Effect>) -> bool {
    if !old.session.qr_check_code_pending {
        new == old && effects.len() == 0
    } else {
        match parse_u8_spec(old.session.qr_check_code_input@) {
            Some(code) => {
                &&& new == (Constellations {
                    session: Session {
                        qr_check_code_pending: false,
                        qr_check_code_input: new.session.qr_check_code_input,
                        auth_flow: AuthFlow::Qr { step: QrLoginStep::Authenticating },
                        ..old.session
                    },
                    ..old
                })
                &&& new.session.qr_check_code_input@.len() == 0
                &&& effects == seq![Effect::SendQrCheckCode(code)]
            },
            None => {
                &&& new == (Constellations {
                    session: Session {
                        qr_check_code_pending: false,
                        qr_check_code_input: new.session.qr_check_code_input,
                        auth_flow: AuthFlow::Qr { step: QrLoginStep::ShowingQr },
                        error: new.session.error,
                        ..old.session
                    },
                    ..old
                })
                &&& new.session.qr_check_code_input@.len() == 0
                &&& shows_error(new.session.error, invalid_check_code_text())
                &&& effects.len() == 0
            },
        }
    }
}

proof fn lemma_ascii_digits_step(s: Seq<char>, i: int)
    requires
        0 <= i < s.len(),
    ensures
        ascii_digits(s.take(i + 1)) == if is_digit(s[i]) {
            ascii_digits(s.take(i)).push(s[i])
        } else {
            ascii_digits(s.take(i))
        },
{
    assert(s.take(i + 1).drop_last() =~= s.take(i));
}

/// The first two ASCII digits of `code` (see [`check_code_input`]).
pub fn filter_check_code(code: &str) -> (kept: String)
    ensures
        kept@ == check_code_input(code@),
{
    let chars = crate::text::chars_of(code);
    let mut out: Vec<char> = Vec::new();
    let mut i: usize = 0;
    while i < chars.len()
        invariant
            0 <= i <= chars.len(),
            chars@ == code@,
            out@ == check_code_input(chars@.take(i as int)),
        decreases chars.len() - i,
    {
        let c = chars[i];
        proof {
            lemma_ascii_digits_step(chars@, i as int);
        }
        if '0' <= c && c <= '9' && out.len() < 2 {
            out.push(c);
        }
        proof {
            let before = ascii_digits(chars@.take(i as int));
            let after = ascii_digits(chars@.take(i + 1));
            if is_digit(c) && before.len() >= 2 {
                assert(after.take(2) =~= before.take(2));
            }
        }
        i = i + 1;
    }
    assert(chars@.take(chars@.len() as int) =~= chars@);
    crate::text::string_from_chars(&out)
}

/// The avatars of `rooms` that are not in `cache`, in room order.
pub fn uncached_avatars(rooms: &Vec<RoomData>, cache: &StringHashMap<Vec<u8>>) -> (urls: Vec<String>)
    ensures
        string_views(urls@) == missing_room_avatars(rooms@, cache@),
{
    let mut urls: Vec<String> = Vec::new();
    let n = rooms.len();
    let mut i: usize = 0;
    while i < n
        invariant
            0 <= i <= n,
            n == rooms@.len(),
            string_views(urls@) == missing_room_avatars(rooms@.take(i as int), cache@),
        decreases n - i,
    {
        assert(rooms@.take(i + 1).drop_last() =~= rooms@.take(i as int));
        match &rooms[i].avatar_url {
            Some(url) => {
                if !cache.contains_key(url.as_str()) {
                    urls.push(url.clone());
                    assert(string_views(urls@) =~= missing_room_avatars(rooms@.take(i + 1), cache@));
                }
            },
            None => {},
        }
        i = i + 1;
    }
    assert(rooms@.take(n as int) =~= rooms@);
    urls
}

/// The homeserver to start a QR sign-in against (see [`qr_homeserver`]).
pub fn qr_login_homeserver(field: &str) -> (hs: String)
    ensures
        hs@ == qr_homeserver(field@),
{
    let t = trimmed(field);
    let h = if t.as_str().is_empty() {
        String::from_str("https://matrix.org")
    } else {
        t
    };
    let chars = crate::text::chars_of(h.as_str());
    if str_starts_with(&chars, "http://") || str_starts_with(&chars, "https://") {
        h
    } else {
        String::from_str("https://").concat(h.as_str())
    }
}

impl Session {
    /// Shows `err`, when there is one.
    pub fn report(&mut self, err: Option<String>)
        ensures
            *final(self) == (Session {
                error: if err is Some {
                    err
                } else {
                    old(self).error
                },
                ..*old(self)
            }),
    {
        match err {
            Some(m) => {
                self.error = Some(m);
            },
            None => {},
        }
    }
}

/// Switches between the sign-in and the registration form.
pub open spec fn toggle_login_mode_post(old: Constellations, new: Constellations, effects: Seq<Effect>) -> bool {
    &&& new == (Constellations {
            session: Session {
                is_registering_mode: !old.session.is_registering_mode,
                error: None,
                ..old.session
            },
            ..old
        })
    &&& effects.len() == 0
}

/// Submits the registration form.
pub open spec fn submit_register_post(old: Constellations, new: Constellations, effects: Seq<Effect>) -> bool {
    &&& if old.session.engine_ready {
            &&& new == (Constellations {
                session: Session {
                    is_registering: true,
                    error: None,
                    sync_status: SyncStatus::Disconnected,
                    login_password: new.session.login_password,
                    ..old.session
                },
                ..old
            })
            &&& new.session.login_password@.len() == 0
            &&& effects == seq![
                Effect::Register {
                    homeserver: old.session.login_homeserver,
                    username: old.session.login_username,
                    password: old.session.login_password,
                },
            ]
        } else {
            new == old && effects.len() == 0
        }
}

/// Submits the password sign-in form.
pub open spec fn submit_login_post(old: Constellations, new: Constellations, effects: Seq<Effect>) -> bool {
    &&& if old.session.engine_ready {
            &&& credentials_submitted(old, new, AuthFlow::Password)
            &&& effects == seq![
                Effect::Login {
                    homeserver: old.session.login_homeserver,
                    username: old.session.login_username,
                    password: old.session.login_password,
                },
            ]
        } else {
            new == old && effects.len() == 0
        }
}

/// Starts the OAuth sign-in.
pub open spec fn submit_oidc_login_post(old: Constellations, new: Constellations, effects: Seq<Effect>) -> bool {
    &&& if old.session.engine_ready {
            &&& new == (Constellations {
                session: Session { auth_flow: AuthFlow::Oidc, error: None, ..old.session },
                ..old
            })
            &&& effects == seq![Effect::StartOidcLogin { homeserver: old.session.login_homeserver }]
        } else {
            new == old && effects.len() == 0
        }
}

/// The browser came back to the OAuth callback URL.
pub open spec fn oidc_callback_post(old: Constellations, new: Constellations, url: String, effects: Seq<Effect>) -> bool {
    &&& if old.session.engine_ready {
            &&& new == (Constellations {
                session: Session { auth_flow: AuthFlow::Oidc, error: None, ..old.session },
                ..old
            })
            &&& effects == seq![Effect::CompleteOidcLogin { callback_url: url }]
        } else {
            new == old && effects.len() == 0
        }
}

/// Signs out, when the engine is up.
pub open spec fn logout_post(old: Constellations, new: Constellations, effects: Seq<Effect>) -> bool {
    &&& new == old
    &&& effects == if old.session.engine_ready {
            seq![Effect::Logout]
        } else {
            Seq::empty()
        }
}

/// The check-code field changed: it keeps the first two ASCII digits.
pub open spec fn qr_check_code_changed_post(old: Constellations, new: Constellations, code: String, effects: Seq<Effect>) -> bool {
    &&& new == (Constellations {
            session: Session { qr_check_code_input: new.session.qr_check_code_input, ..old.session },
            ..old
        })
    &&& new.session.qr_check_code_input@ == check_code_input(code@)
    &&& effects.len() == 0
}

impl Constellations {
    /// The Matrix engine was built, or failed to build.
    pub fn handle_engine_ready(&mut self, res: Result<(), SyncError>) -> (effects: Vec<Effect>)
        ensures
            engine_ready_post(*old(self), *final(self), res, effects@),
    {
        match res {
            Ok(()) => {
                self.session.engine_ready = true;
                single(Effect::RestoreSession)
            },
            Err(e) => {
                let detail = e.to_message();
                self.session.error = Some(failure_message("initialize the Matrix engine", detail.as_str()));
                self.session.is_initializing = false;
                Vec::new()
            },
        }
    }

    /// The session was restored (`user_id` set) or not, and the sync started
    /// or failed.
    pub fn handle_user_ready(&mut self, user_id: Option<String>, sync_res: Result<(), SyncError>) -> (effects: Vec<Effect>)
        ensures
            user_ready_post(*old(self), *final(self), user_id, sync_res, effects@),
    {
        let signed_in = user_id.is_some();
        self.session.user_id = user_id;
        self.session.is_initializing = false;
        let mut effects: Vec<Effect> = single(Effect::UpdateTitle);
        if !signed_in {
            return effects;
        }
        match sync_res {
            Ok(()) => {},
            Err(SyncError::MissingSlidingSyncSupport) => {
                self.session.sync_status = SyncStatus::MissingSlidingSyncSupport;
            },
            Err(e) => {
                self.session.sync_status = SyncStatus::Error(e.to_message());
            },
        }
        if self.session.engine_ready {
            effects.push(Effect::LoadIgnoredUsers);
            let urls = uncached_avatars(&self.rooms.room_list, &self.media_cache);
            if urls.len() > 0 {
                effects.push(Effect::FetchMediaBatch(urls));
            }
        }
        let ghost before_replay = effects@;
        let pending = self.links.pending_link.take();
        match pending {
            Some(link) => {
                if self.session.engine_ready {
                    effects.push(Effect::Dispatch(Message::OpenMatrixLink(link)));
                }
            },
            None => {},
        }
        proof {
            let avatars = missing_room_avatars(old(self).rooms.room_list@, old(self).media_cache@);
            let loads = if old(self).session.engine_ready {
                if avatars.len() == 0 {
                    seq![Effect::LoadIgnoredUsers]
                } else {
                    seq![Effect::LoadIgnoredUsers, effects@[2]]
                }
            } else {
                Seq::empty()
            };
            assert(before_replay =~= seq![Effect::UpdateTitle] + loads);
            let replay = match old(self).links.pending_link {
                Some(link) => if old(self).session.engine_ready {
                    seq![Effect::Dispatch(Message::OpenMatrixLink(link))]
                } else {
                    Seq::empty()
                },
                None => Seq::empty(),
            };
            assert(effects@ =~= seq![Effect::UpdateTitle] + loads + replay);
        }
        effects
    }

    /// Switches between the sign-in and the registration form.
    pub fn handle_toggle_login_mode(&mut self) -> (effects: Vec<Effect>)
        ensures
            toggle_login_mode_post(*old(self), *final(self), effects@),
    {
        self.session.is_registering_mode = !self.session.is_registering_mode;
        self.session.error = None;
        Vec::new()
    }

    /// Submits the registration form.
    pub fn handle_submit_register(&mut self) -> (effects: Vec<Effect>)
        ensures
            submit_register_post(*old(self), *final(self), effects@),
    {
        if !self.session.engine_ready {
            return Vec::new();
        }
        self.session.is_registering = true;
        self.session.error = None;
        self.session.sync_status = SyncStatus::Disconnected;
        let password = self.session.login_password.clone();
        self.session.login_password = String::new();
        single(Effect::Register {
                homeserver: self.session.login_homeserver.clone(),
                username: self.session.login_username.clone(),
                password,
            })
    }

    /// The registration finished.
    pub fn handle_register_finished(&mut self, res: Result<String, SyncError>) -> (effects: Vec<Effect>)
        ensures
            register_finished_post(*old(self), *final(self), res, effects@),
    {
        self.session.is_registering = false;
        match res {
            Ok(user_id) => {
                self.session.user_id = Some(user_id);
                self.session.login_homeserver = String::new();
                self.session.login_username = String::new();
                self.session.login_password = String::new();
                self.session.error = None;
                single(Effect::UpdateTitle)
            },
            Err(e) => {
                let detail = e.to_message();
                self.session.error = Some(failure_message("register", detail.as_str()));
                Vec::new()
            },
        }
    }

    /// Submits the password sign-in form.
    pub fn handle_submit_login(&mut self) -> (effects: Vec<Effect>)
        ensures
            submit_login_post(*old(self), *final(self), effects@),
    {
        if !self.session.engine_ready {
            return Vec::new();
        }
        self.session.auth_flow = AuthFlow::Password;
        self.session.error = None;
        self.session.sync_status = SyncStatus::Disconnected;
        let password = self.session.login_password.clone();
        self.session.login_password = String::new();
        single(Effect::Login {
                homeserver: self.session.login_homeserver.clone(),
                username: self.session.login_username.clone(),
                password,
            })
    }

    /// A sign-in finished (by password, OAuth or QR code).
    pub fn handle_login_finished(&mut self, res: Result<String, SyncError>) -> (effects: Vec<Effect>)
        ensures
            login_finished_post(*old(self), *final(self), res, effects@),
    {
        self.session.auth_flow = AuthFlow::Idle;
        match res {
            Ok(user_id) => {
                self.session.user_id = Some(user_id);
            },
            Err(SyncError::MissingSlidingSyncSupport) => {
                self.session.sync_status = SyncStatus::MissingSlidingSyncSupport;
            },
            Err(e) => {
                let detail = e.to_message();
                self.session.error = Some(failure_message("log in", detail.as_str()));
            },
        }
        Vec::new()
    }

    /// Starts the OAuth sign-in.
    pub fn handle_submit_oidc_login(&mut self) -> (effects: Vec<Effect>)
        ensures
            submit_oidc_login_post(*old(self), *final(self), effects@),
    {
        if !self.session.engine_ready {
            return Vec::new();
        }
        self.session.auth_flow = AuthFlow::Oidc;
        self.session.error = None;
        single(Effect::StartOidcLogin { homeserver: self.session.login_homeserver.clone() })
    }

    /// The OAuth authorisation URL is known, or the sign-in could not start.
    pub fn handle_oidc_login_started(&mut self, res: Result<String, String>) -> (effects: Vec<Effect>)
        ensures
            oidc_login_started_post(*old(self), *final(self), res, effects@),
    {
        match res {
            Ok(url) => single(Effect::OpenInBrowser(url)),
            Err(e) => {
                self.session.auth_flow = AuthFlow::Idle;
                if e.as_str().to_owned() == String::from_str("__constellations_oidc_not_supported__") {
                    self.session.error = Some(
                        String::from_str(
                            "This homeserver does not support OAuth sign-in; sign in with a password instead",
                        ),
                    );
                } else {
                    self.session.error = Some(failure_message("start the OAuth sign-in", e.as_str()));
                }
                Vec::new()
            },
        }
    }

    /// The browser came back to the OAuth callback URL.
    pub fn handle_oidc_callback(&mut self, url: String) -> (effects: Vec<Effect>)
        ensures
            oidc_callback_post(*old(self), *final(self), url, effects@),
    {
        if !self.session.engine_ready {
            return Vec::new();
        }
        self.session.auth_flow = AuthFlow::Oidc;
        self.session.error = None;
        single(Effect::CompleteOidcLogin { callback_url: url })
    }

    /// Signs out, when the engine is up.
    pub fn handle_logout(&mut self) -> (effects: Vec<Effect>)
        ensures
            logout_post(*old(self), *final(self), effects@),
    {
        if self.session.engine_ready {
            single(Effect::Logout)
        } else {
            Vec::new()
        }
    }

    /// The sign-out finished.
    pub fn handle_logout_finished(&mut self) -> (effects: Vec<Effect>)
        ensures
            logout_finished_post(*old(self), *final(self), effects@),
    {
        self.session.user_id = None;
        self.session.engine_ready = false;
        self.session.sync_status = SyncStatus::Disconnected;
        self.rooms.room_list.clear();
        self.rooms.selected_room = None;
        self.timeline.timeline_items.clear();
        self.timeline.thread_counts.clear();
        self.session.auth_flow = AuthFlow::Idle;
        self.session.login_password = String::new();
        self.session.error = None;
        self.rooms.selected_space = None;
        self.session.is_sync_indicator_active = false;
        self.timeline.is_loading_more = false;
        self.rooms.joined_room_ids.clear();
        Vec::new()
    }

    /// Starts the QR-code sign-in.
    pub fn handle_start_qr_login(&mut self) -> (effects: Vec<Effect>)
        ensures
            start_qr_login_post(*old(self), *final(self), effects@),
    {
        self.session.auth_flow = AuthFlow::Qr { step: QrLoginStep::Initiating };
        self.session.error = None;
        self.session.qr_code_bytes = None;
        self.session.qr_check_code_pending = false;
        self.session.qr_user_code = None;
        self.session.qr_check_code_input = String::new();
        if !self.session.engine_ready {
            return Vec::new();
        }
        let hs = qr_login_homeserver(self.session.login_homeserver.as_str());
        single(Effect::StartQrLogin { homeserver: hs })
    }

    /// Cancels the QR-code sign-in.
    pub fn handle_cancel_qr_login(&mut self) -> (effects: Vec<Effect>)
        ensures
            cancel_qr_login_post(*old(self), *final(self), effects@),
    {
        self.session.auth_flow = AuthFlow::Idle;
        self.session.qr_code_bytes = None;
        self.session.qr_check_code_pending = false;
        self.session.qr_user_code = None;
        self.session.qr_check_code_input = String::new();
        if self.session.engine_ready {
            single(Effect::CancelQrLogin)
        } else {
            Vec::new()
        }
    }

    /// A progress report of the QR-code sign-in.
    pub fn handle_qr_login_progress(&mut self, progress: QrLoginProgress) -> (effects: Vec<Effect>)
        ensures
            qr_login_progress_post(*old(self), *final(self), progress, effects@),
    {
        match progress {
            QrLoginProgress::QrReady(bytes) => {
                self.session.qr_code_bytes = Some(bytes);
                self.session.auth_flow = AuthFlow::Qr { step: QrLoginStep::ShowingQr };
                Vec::new()
            },
            QrLoginProgress::QrScanned => {
                self.session.qr_check_code_pending = true;
                self.session.qr_check_code_input = String::new();
                self.session.auth_flow = AuthFlow::Qr { step: QrLoginStep::AwaitingCheckCode };
                Vec::new()
            },
            QrLoginProgress::WaitingForToken { user_code } => {
                self.session.qr_user_code = Some(user_code);
                self.session.auth_flow = AuthFlow::Qr { step: QrLoginStep::Authenticating };
                Vec::new()
            },
            QrLoginProgress::SyncingSecrets => {
                self.session.auth_flow = AuthFlow::Qr { step: QrLoginStep::SyncingSecrets };
                Vec::new()
            },
            QrLoginProgress::Finished(res) => {
                self.session.qr_code_bytes = None;
                self.session.qr_check_code_pending = false;
                self.session.qr_user_code = None;
                self.session.qr_check_code_input = String::new();
                match res {
                    Ok(user_id) => {
                        self.session.auth_flow = AuthFlow::Qr { step: QrLoginStep::Success };
                        self.handle_login_finished(Ok(user_id))
                    },
                    Err(e) => {
                        self.session.auth_flow = AuthFlow::Qr { step: QrLoginStep::Error };
                        self.session.error = Some(failure_message("sign in with the QR code", e.as_str()));
                        Vec::new()
                    },
                }
            },
        }
    }

    /// The check-code field changed: it keeps the first two ASCII digits.
    pub fn handle_qr_check_code_changed(&mut self, code: String) -> (effects: Vec<Effect>)
        ensures
            qr_check_code_changed_post(*old(self), *final(self), code, effects@),
    {
        let kept = filter_check_code(code.as_str());
        self.session.qr_check_code_input = kept;
        Vec::new()
    }

    /// Submits the check code to the QR sign-in task.
    pub fn handle_submit_qr_check_code(&mut self) -> (effects: Vec<Effect>)
        ensures
            submit_qr_check_code_post(*old(self), *final(self), effects@),
    {
        if !self.session.qr_check_code_pending {
            return Vec::new();
        }
        self.session.qr_check_code_pending = false;
        let code_str = self.session.qr_check_code_input.clone();
        self.session.qr_check_code_input = String::new();
        match parse_u8(code_str.as_str()) {
            Some(code) => {
                self.session.auth_flow = AuthFlow::Qr { step: QrLoginStep::Authenticating };
                single(Effect::SendQrCheckCode(code))
            },
            None => {
                self.session.error = Some(
                    String::from_str("Invalid check code: enter the two digits shown on the other device"),
                );
                self.session.auth_flow = AuthFlow::Qr { step: QrLoginStep::ShowingQr };
                Vec::new()
            },
        }
    }
}

} // verus!
