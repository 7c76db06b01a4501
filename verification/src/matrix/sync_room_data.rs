//! What the room list shows of a room's latest message, and whether a
//! homeserver can serve the sliding sync the client relies on.
use crate::matrix::{RoomData, RoomMemberInfo, SyncError};
use crate::text::{
    chars_of, copy_range, string_from_chars, trim, trim_bounds, trim_start,
};
use vstd::prelude::*;
use vstd::string::StringExecFns;

verus! {

/// Where the first line feed of `s` is (the length of `s` without one).
pub open spec fn first_newline(s: Seq<char>) -> nat
    decreases s.len(),
{
    if s.len() == 0 {
        0
    } else if s[0] == '\n' {
        0
    } else {
        1 + first_newline(s.drop_first())
    }
}

/// A line without the carriage return of a `\r\n` ending.
pub open spec fn strip_cr(line: Seq<char>) -> Seq<char> {
    if line.len() > 0 && line.last() == '\r' {
        line.drop_last()
    } else {
        line
    }
}

/// `str::lines`: the lines of `s`, split at `\n` or `\r\n`; a final line
/// ending does not start another line.
pub open spec fn lines_of(s: Seq<char>) -> Seq<Seq<char>>
    decreases s.len(),
{
    if s.len() == 0 {
        Seq::empty()
    } else {
        let k = first_newline(s);
        if k >= s.len() {
            seq![s]
        } else {
            seq![strip_cr(s.take(k as int))] + lines_of(s.skip(k as int + 1))
        }
    }
}

/// The first line of a reply body that is not quoted: lines starting with
/// `>` (after indentation) are the quoted message, and blank lines after a
/// quote are skipped too.
pub open spec fn unquoted_line(lines: Seq<Seq<char>>, in_quote: bool) -> Option<Seq<char>>
    decreases lines.len(),
{
    if lines.len() == 0 {
        None
    } else {
        let t = trim_start(lines[0]);
        if t.len() > 0 && t[0] == '>' {
            unquoted_line(lines.drop_first(), true)
        } else if in_quote && t.len() == 0 {
            unquoted_line(lines.drop_first(), in_quote)
        } else {
            Some(lines[0])
        }
    }
}

/// A message body without the quoted message of a reply: its first unquoted
/// line, trimmed; when every line is quoted, the first line, trimmed.
pub open spec fn reply_stripped(body: Seq<char>) -> Seq<char> {
    match unquoted_line(lines_of(body), false) {
        Some(line) => trim(line),
        None => trim(body.take(first_newline(body) as int)),
    }
}

/// A line that quotes the replied-to message: after its indentation it
/// starts with `>`.
pub open spec fn is_quoted_line(line: Seq<char>) -> bool {
    trim_start(line).len() > 0 && trim_start(line)[0] == '>'
}

/// A line with nothing but whitespace.
pub open spec fn is_blank_line(line: Seq<char>) -> bool {
    trim_start(line).len() == 0
}

proof fn lemma_quoted_lines_skipped(quoted: Seq<Seq<char>>, tail: Seq<Seq<char>>, in_quote: bool)
    requires
        quoted.len() > 0,
        forall|i: int| 0 <= i < quoted.len() ==> is_quoted_line(#[trigger] quoted[i]),
    ensures
        unquoted_line(quoted + tail, in_quote) == unquoted_line(tail, true),
    decreases quoted.len(),
{
    let all = quoted + tail;
    assert(all[0] == quoted[0]);
    assert(is_quoted_line(quoted[0]));
    assert(all.drop_first() =~= quoted.drop_first() + tail);
    if quoted.len() > 1 {
        assert forall|i: int| 0 <= i < quoted.drop_first().len() implies is_quoted_line(
            #[trigger] quoted.drop_first()[i],
        ) by {
            assert(quoted.drop_first()[i] == quoted[i + 1]);
        }
        lemma_quoted_lines_skipped(quoted.drop_first(), tail, true);
    } else {
        assert(quoted.drop_first() + tail =~= tail);
    }
}

proof fn lemma_blank_lines_skipped(blanks: Seq<Seq<char>>, tail: Seq<Seq<char>>)
    requires
        forall|i: int| 0 <= i < blanks.len() ==> is_blank_line(#[trigger] blanks[i]),
    ensures
        unquoted_line(blanks + tail, true) == unquoted_line(tail, true),
    decreases blanks.len(),
{
    if blanks.len() > 0 {
        let all = blanks + tail;
        assert(all[0] == blanks[0]);
        assert(is_blank_line(blanks[0]));
        assert(all.drop_first() =~= blanks.drop_first() + tail);
        assert forall|i: int| 0 <= i < blanks.drop_first().len() implies is_blank_line(
            #[trigger] blanks.drop_first()[i],
        ) by {
            assert(blanks.drop_first()[i] == blanks[i + 1]);
        }
        lemma_blank_lines_skipped(blanks.drop_first(), tail);
    } else {
        assert(blanks + tail =~= tail);
    }
}

/// The quote of a reply is skipped however many lines it has: when a body's
/// lines are one or more quoted lines, then any number of blank lines, then a
/// line that is neither blank nor quoted (and then anything), the room list
/// shows that line, trimmed.
pub proof fn lemma_reply_quote_skipped(
    body: Seq<char>,
    quoted: Seq<Seq<char>>,
    blanks: Seq<Seq<char>>,
    line: Seq<char>,
    rest: Seq<Seq<char>>,
)
    requires
        lines_of(body) == quoted + blanks + seq![line] + rest,
        quoted.len() > 0,
        forall|i: int| 0 <= i < quoted.len() ==> is_quoted_line(#[trigger] quoted[i]),
        forall|i: int| 0 <= i < blanks.len() ==> is_blank_line(#[trigger] blanks[i]),
        !is_quoted_line(line),
        !is_blank_line(line),
    ensures
        reply_stripped(body) == trim(line),
{
    let tail = seq![line] + rest;
    assert(quoted + blanks + seq![line] + rest =~= quoted + (blanks + tail));
    lemma_quoted_lines_skipped(quoted, blanks + tail, false);
    lemma_blank_lines_skipped(blanks, tail);
    assert(tail[0] == line);
}

proof fn lemma_first_newline(s: Seq<char>, m: int)
    requires
        0 <= m <= s.len(),
        forall|j: int| 0 <= j < m ==> #[trigger] s[j] != '\n',
        m == s.len() || s[m] == '\n',
    ensures
        first_newline(s) == m,
    decreases m,
{
    if m > 0 {
        let t = s.drop_first();
        assert forall|j: int| 0 <= j < m - 1 implies #[trigger] t[j] != '\n' by {
            assert(t[j] == s[j + 1]);
        }
        if m - 1 < t.len() {
            assert(t[m - 1] == s[m]);
        }
        lemma_first_newline(t, m - 1);
    }
}

/// The position of the first line feed at or after `from` (`s.len()`
/// without one).
fn find_newline(s: &Vec<char>, from: usize) -> (k: usize)
    requires
        from <= s.len(),
    ensures
        from <= k <= s.len(),
        k - from == first_newline(s@.skip(from as int)),
        k < s.len() ==> s@[k as int] == '\n',
{
    let mut k = from;
    while k < s.len() && s[k] != '\n'
        invariant
            from <= k <= s.len(),
            forall|j: int| from <= j < k ==> #[trigger] s@[j] != '\n',
        decreases s.len() - k,
    {
        k = k + 1;
    }
    proof {
        let t = s@.skip(from as int);
        assert forall|j: int| 0 <= j < k - from implies #[trigger] t[j] != '\n' by {
            assert(t[j] == s@[from + j]);
        }
        if k < s.len() {
            assert(t[k - from] == s@[k as int]);
        }
        lemma_first_newline(t, k - from);
    }
    k
}

/// The part of a reply body that the room list shows: the first unquoted
/// line, trimmed.
pub fn strip_reply_quote(body: &str) -> (line: String)
    ensures
        line@ == reply_stripped(body@),
{
    let chars = chars_of(body);
    let n = chars.len();
    let mut pos: usize = 0;
    let mut in_quote = false;
    assert(body@.skip(0) =~= body@);
    while pos < n
        invariant
            chars@ == body@,
            n == chars.len(),
            pos <= n,
            unquoted_line(lines_of(body@), false) == unquoted_line(
                lines_of(body@.skip(pos as int)),
                in_quote,
            ),
        decreases n - pos,
    {
        let ghost t = body@.skip(pos as int);
        let k = find_newline(&chars, pos);
        let mut end = k;
        if k < n && k > pos && chars[k - 1] == '\r' {
            end = k - 1;
        }
        let ghost line = chars@.subrange(pos as int, end as int);
        proof {
            if k < n {
                assert(t.take(k - pos) =~= chars@.subrange(pos as int, k as int));
                assert(line =~= strip_cr(t.take(k - pos)));
                assert(t.skip(k - pos + 1) =~= body@.skip(k + 1));
                assert(lines_of(t) == seq![line] + lines_of(body@.skip(k + 1)));
            } else {
                assert(line =~= t);
                assert(lines_of(t) == seq![line]);
                assert(body@.skip(n as int) =~= Seq::<char>::empty());
            }
            assert(lines_of(t)[0] == line);
            assert(lines_of(t).drop_first() =~= if k < n {
                lines_of(body@.skip(k + 1))
            } else {
                Seq::<Seq<char>>::empty()
            });
        }
        let (a, b) = trim_bounds(&chars, pos, end);
        assert(trim_start(line) =~= chars@.subrange(a as int, end as int));
        if a < end && chars[a] == '>' {
            in_quote = true;
        } else if in_quote && a == end {
        } else {
            let part = copy_range(&chars, a, b);
            return string_from_chars(&part);
        }
        if k < n {
            pos = k + 1;
        } else {
            pos = n;
        }
    }
    assert(body@.skip(pos as int) =~= Seq::<char>::empty());
    let k = find_newline(&chars, 0);
    assert(chars@.skip(0) =~= chars@);
    let (a, b) = trim_bounds(&chars, 0, k);
    assert(chars@.subrange(0, k as int) =~= body@.take(k as int));
    let part = copy_range(&chars, a, b);
    string_from_chars(&part)
}

/// How many bytes `c` takes in UTF-8.
pub open spec fn utf8_width(c: char) -> nat {
    if (c as u32) < 0x80 {
        1
    } else if (c as u32) < 0x800 {
        2
    } else if (c as u32) < 0x10000 {
        3
    } else {
        4
    }
}

/// How many bytes `s` takes in UTF-8 (`str::len`).
pub open spec fn utf8_len(s: Seq<char>) -> nat
    decreases s.len(),
{
    if s.len() == 0 {
        0
    } else {
        utf8_len(s.drop_last()) + utf8_width(s.last())
    }
}

/// The longest a room-list message line may be, in bytes, before it is cut.
pub const LAST_MESSAGE_MAX_BYTES: usize = 30;

/// Where a too long message line is cut, in bytes; `...` follows the cut.
pub const LAST_MESSAGE_CUT_BYTES: usize = 26;

/// `s` can be cut after its first `count` characters so that exactly
/// `bytes` bytes remain.
pub open spec fn cut_at(s: Seq<char>, count: int, bytes: nat) -> bool {
    0 <= count <= s.len() && utf8_len(s.take(count)) == bytes
}

/// A line longer than the limit can be cut where the room list cuts it: a
/// character ends exactly at the cut (as `String::truncate` demands).
pub open spec fn cuttable(line: Seq<char>) -> bool {
    utf8_len(line) > LAST_MESSAGE_MAX_BYTES ==> exists|count: int|
        cut_at(line, count, LAST_MESSAGE_CUT_BYTES as nat)
}

/// The line as the room list shows it: unchanged when it fits, otherwise cut
/// after its first [`LAST_MESSAGE_CUT_BYTES`] bytes, with `...` appended.
pub open spec fn shortened(line: Seq<char>, shown: Seq<char>) -> bool {
    if utf8_len(line) > LAST_MESSAGE_MAX_BYTES {
        exists|count: int|
            cut_at(line, count, LAST_MESSAGE_CUT_BYTES as nat) && shown == line.take(count) + "..."@
    } else {
        shown == line
    }
}

proof fn lemma_utf8_len_monotonic(s: Seq<char>, i: int, j: int)
    requires
        0 <= i <= j <= s.len(),
    ensures
        utf8_len(s.take(i)) + (j - i) <= utf8_len(s.take(j)),
    decreases j - i,
{
    if i < j {
        lemma_utf8_len_monotonic(s, i, j - 1);
        assert(s.take(j).drop_last() =~= s.take(j - 1));
    }
}

/// The width in bytes of `c` in UTF-8.
fn char_utf8_width(c: char) -> (w: usize)
    ensures
        w == utf8_width(c),
{
    let code = c as u32;
    if code < 0x80 {
        1
    } else if code < 0x800 {
        2
    } else if code < 0x10000 {
        3
    } else {
        4
    }
}

/// The latest message as the room list shows it: the reply quote stripped,
/// and the line cut to [`LAST_MESSAGE_CUT_BYTES`] bytes followed by `...`
/// when it is longer than [`LAST_MESSAGE_MAX_BYTES`] bytes.
pub fn last_message_line(body: &str) -> (shown: String)
    requires
        cuttable(reply_stripped(body@)),
    ensures
        shortened(reply_stripped(body@), shown@),
{
    let line = strip_reply_quote(body);
    let chars = chars_of(line.as_str());
    let ghost s = chars@;
    let mut bytes: usize = 0;
    let mut count: usize = 0;
    let mut cut: usize = 0;
    let mut cut_found = false;
    while count < chars.len() && bytes <= LAST_MESSAGE_MAX_BYTES
        invariant
            s == chars@,
            s == line@,
            count <= chars.len(),
            bytes == utf8_len(s.take(count as int)),
            bytes <= LAST_MESSAGE_MAX_BYTES + 4,
            cut_found ==> cut_at(s, cut as int, LAST_MESSAGE_CUT_BYTES as nat),
            !cut_found ==> forall|i: int|
                0 <= i <= count ==> !(#[trigger] cut_at(s, i, LAST_MESSAGE_CUT_BYTES as nat)),
        decreases chars.len() - count,
    {
        assert(s.take(count + 1).drop_last() =~= s.take(count as int));
        let w = char_utf8_width(chars[count]);
        bytes = bytes + w;
        count = count + 1;
        if !cut_found && bytes == LAST_MESSAGE_CUT_BYTES {
            cut_found = true;
            cut = count;
        }
    }
    if bytes > LAST_MESSAGE_MAX_BYTES {
        proof {
            lemma_utf8_len_monotonic(s, count as int, s.len() as int);
            assert(s.take(s.len() as int) =~= s);
            if !cut_found {
                let c = choose|c: int| cut_at(s, c, LAST_MESSAGE_CUT_BYTES as nat);
                if c > count {
                    lemma_utf8_len_monotonic(s, count as int, c);
                }
                assert(cut_at(s, c, LAST_MESSAGE_CUT_BYTES as nat));
            }
        }
        let kept = copy_range(&chars, 0, cut);
        assert(kept@ =~= s.take(cut as int));
        let head = string_from_chars(&kept);
        let shown = head.concat("...");
        assert(shown@ =~= s.take(cut as int) + "..."@);
        shown
    } else {
        assert(s.take(count as int) =~= s);
        line
    }
}

/// A homeserver offers sliding sync when it advertises the
/// `org.matrix.msc4186` unstable feature or supports spec version `v1.11`.
pub open spec fn offers_sliding_sync(unstable_features: Seq<Seq<char>>, versions: Seq<Seq<char>>) -> bool {
    ||| unstable_features.contains("org.matrix.msc4186"@)
    ||| versions.contains("v1.11"@)
}

/// Whether `names` holds `wanted`.
fn holds_name(names: &Vec<String>, wanted: &str) -> (found: bool)
    ensures
        found == names@.map_values(|n: String| n@).contains(wanted@),
{
    let ghost views = names@.map_values(|n: String| n@);
    let w = wanted.to_owned();
    let mut i: usize = 0;
    while i < names.len()
        invariant
            i <= names.len(),
            views == names@.map_values(|n: String| n@),
            w@ == wanted@,
            forall|j: int| 0 <= j < i ==> views[j] != wanted@,
        decreases names.len() - i,
    {
        if names[i] == w {
            assert(views[i as int] == wanted@);
            return true;
        }
        i = i + 1;
    }
    proof {
        if views.contains(wanted@) {
            let j = choose|j: int| 0 <= j < views.len() && views[j] == wanted@;
            assert(views[j] != wanted@);
        }
    }
    false
}

/// Decides, from the homeserver's answer to the supported-versions request
/// (the names of its unstable features and its spec versions), whether the
/// sync can start: it fails with [`SyncError::MissingSlidingSyncSupport`]
/// exactly when the server does not offer sliding sync.
pub fn check_sliding_sync_support(unstable_features: &Vec<String>, versions: &Vec<String>) -> (res: Result<(), SyncError>)
    ensures
        res is Ok <==> offers_sliding_sync(
            unstable_features@.map_values(|n: String| n@),
            versions@.map_values(|n: String| n@),
        ),
        res is Err ==> res == Err::<(), SyncError>(SyncError::MissingSlidingSyncSupport),
{
    if holds_name(unstable_features, "org.matrix.msc4186") || holds_name(versions, "v1.11") {
        Ok(())
    } else {
        Err(SyncError::MissingSlidingSyncSupport)
    }
}

/// A rule of a room's join rule that lets people in.
pub enum AllowRule {
    /// Members of this room (a space) may join.
    RoomMembership(String),
    /// Any other kind of rule.
    Other,
}

/// A room's join rule, as far as the room list reads it.
pub enum JoinRule {
    Restricted(Vec<AllowRule>),
    KnockRestricted(Vec<AllowRule>),
    /// Public, invite-only, knocking, private, or anything else.
    Other,
}

/// The rooms whose members the rules let in, in order.
pub open spec fn membership_rooms(rules: Seq<AllowRule>) -> Seq<Seq<char>>
    decreases rules.len(),
{
    if rules.len() == 0 {
        Seq::empty()
    } else {
        let init = membership_rooms(rules.drop_last());
        match rules.last() {
            AllowRule::RoomMembership(room) => init.push(room@),
            AllowRule::Other => init,
        }
    }
}

/// The spaces whose members may join a room under `rule`: those of its
/// membership rules when the rule is restricted (or knock-restricted), none
/// otherwise.
pub open spec fn allowed_spaces_of(rule: JoinRule) -> Seq<Seq<char>> {
    match rule {
        JoinRule::Restricted(rules) => membership_rooms(rules@),
        JoinRule::KnockRestricted(rules) => membership_rooms(rules@),
        JoinRule::Other => Seq::empty(),
    }
}

/// The rooms of the membership rules among `rules`.
fn membership_rooms_of(rules: &Vec<AllowRule>) -> (rooms: Vec<String>)
    ensures
        crate::matrix::spaces::views_of(rooms@) == membership_rooms(rules@),
{
    let mut rooms: Vec<String> = Vec::new();
    let mut i: usize = 0;
    while i < rules.len()
        invariant
            i <= rules.len(),
            crate::matrix::spaces::views_of(rooms@) == membership_rooms(rules@.take(i as int)),
        decreases rules.len() - i,
    {
        assert(rules@.take(i + 1).drop_last() =~= rules@.take(i as int));
        let ghost before = rooms@;
        match &rules[i] {
            AllowRule::RoomMembership(room) => {
                rooms.push(room.clone());
                assert(crate::matrix::spaces::views_of(rooms@) =~= crate::matrix::spaces::views_of(before).push(
                    room@,
                ));
            },
            AllowRule::Other => {},
        }
        i = i + 1;
    }
    assert(rules@.take(i as int) =~= rules@);
    rooms
}

/// The spaces whose members may join a room with this join rule.
pub fn extract_allowed_spaces_from_join_rule(rule: &JoinRule) -> (spaces: Vec<String>)
    ensures
        crate::matrix::spaces::views_of(spaces@) == allowed_spaces_of(*rule),
{
    match rule {
        JoinRule::Restricted(rules) => membership_rooms_of(rules),
        JoinRule::KnockRestricted(rules) => membership_rooms_of(rules),
        JoinRule::Other => {
            let none: Vec<String> = Vec::new();
            assert(crate::matrix::spaces::views_of(none@) =~= Seq::<Seq<char>>::empty());
            none
        },
    }
}

/// The first member of `members` who is not `me`.
pub open spec fn first_other_member(members: Seq<RoomMemberInfo>, me: Seq<char>) -> Option<RoomMemberInfo>
    decreases members.len(),
{
    if members.len() == 0 {
        None
    } else if members[0].user_id@ != me {
        Some(members[0])
    } else {
        first_other_member(members.drop_first(), me)
    }
}

/// The avatar the room list shows for a room of two: the other member's,
/// when that member has one; the room's own otherwise.
pub open spec fn two_member_avatar(
    room_avatar: Option<String>,
    members: Seq<RoomMemberInfo>,
    me: Seq<char>,
) -> Option<String> {
    match first_other_member(members, me) {
        Some(m) => if m.avatar_url is Some {
            m.avatar_url
        } else {
            room_avatar
        },
        None => room_avatar,
    }
}

/// The avatar to show for a room of two members (a direct chat), given the
/// room's own avatar, the signed-in user and the room's members.
pub fn dm_room_avatar(room_avatar: Option<String>, me: &String, members: &Vec<RoomMemberInfo>) -> (avatar: Option<String>)
    ensures
        avatar == two_member_avatar(room_avatar, members@, me@),
{
    let mut i: usize = 0;
    assert(members@.skip(0) =~= members@);
    while i < members.len()
        invariant
            i <= members.len(),
            first_other_member(members@, me@) == first_other_member(members@.skip(i as int), me@),
        decreases members.len() - i,
    {
        assert(members@.skip(i as int).drop_first() =~= members@.skip(i + 1));
        assert(members@.skip(i as int)[0] == members@[i as int]);
        if members[i].user_id != *me {
            return match &members[i].avatar_url {
                Some(url) => Some(url.clone()),
                None => room_avatar,
            };
        }
        i = i + 1;
    }
    room_avatar
}

/// What the sync knows of a room, gathered for its room-list entry.
pub struct RoomFacts {
    pub id: String,
    /// The room's name, if it has one.
    pub name: Option<String>,
    /// The name computed from its members, if known.
    pub cached_display_name: Option<String>,
    pub last_message: Option<String>,
    pub unread_count: u32,
    pub avatar_url: Option<String>,
    pub is_space: bool,
    /// One parent space, and the order and flag it gives the room.
    pub placement: (Option<String>, Option<String>, bool),
    pub allowed_spaces: Vec<String>,
}

/// The room-list entry for a room: its name (or, without one, the name
/// computed from its members), the unread label for its count, and the rest
/// as gathered.
pub open spec fn room_data_from(f: RoomFacts, r: RoomData) -> bool {
    &&& r.id == f.id
    &&& r.name == (if f.name is Some {
        f.name
    } else {
        f.cached_display_name
    })
    &&& r.last_message == f.last_message
    &&& r.unread_count == f.unread_count
    &&& crate::matrix::spaces::opt_view(r.unread_count_str) == crate::matrix::unread_label(f.unread_count)
    &&& r.avatar_url == f.avatar_url
    &&& r.is_space == f.is_space
    &&& r.parent_space_id == f.placement.0
    &&& r.order == f.placement.1
    &&& r.suggested == f.placement.2
    &&& r.allowed_spaces == f.allowed_spaces
}

/// The room-list entry for a room.
pub fn room_data(facts: RoomFacts) -> (r: RoomData)
    ensures
        room_data_from(facts, r),
{
    let ghost f = facts;
    let RoomFacts {
        id,
        name,
        cached_display_name,
        last_message,
        unread_count,
        avatar_url,
        is_space,
        placement,
        allowed_spaces,
    } = facts;
    let name = match name {
        Some(n) => Some(n),
        None => cached_display_name,
    };
    let (parent_space_id, order, suggested) = placement;
    RoomData {
        id,
        name,
        last_message,
        unread_count,
        unread_count_str: crate::matrix::unread_count_label(unread_count),
        avatar_url,
        is_space,
        parent_space_id,
        allowed_spaces,
        order,
        suggested,
    }
}

} // verus!
