//! The administrative log of a chat: what one page of it holds, and the
//! rows that its events become.

use crate::db::AdminAction;
use crate::text::{
    chars_of, lemma_texts_push, parse_i64, parsed_i64, pieces, split, string_of, texts, trim,
    trimmed,
};
use vstd::prelude::*;

verus! {

/// One of the names that a user or channel goes by.
#[derive(Clone, Debug, PartialEq, Eq)]
pub struct Username {
    pub username: String,
    pub active: bool,
}

/// A user that a page of the log brings along.
#[derive(Clone, Debug, PartialEq, Eq)]
pub enum UserEntry {
    /// A user of which only the id is known.
    Empty,
    User {
        id: i64,
        first_name: Option<String>,
        last_name: Option<String>,
        username: Option<String>,
        usernames: Option<Vec<Username>>,
    },
}

/// A chat that a page of the log brings along.
#[derive(Clone, Debug, PartialEq, Eq)]
#[allow(inconsistent_fields)]
pub enum ChatEntry {
    Channel { id: i64, title: String, username: Option<String>, usernames: Option<Vec<Username>> },
    Chat { id: i64, title: String },
    /// Any other kind of chat; the log's rows take nothing from it.
    Other,
}

/// A message as the log quotes it.
#[derive(Clone, Debug, PartialEq, Eq)]
pub enum LoggedMessage {
    /// An ordinary message, with its text.
    Message { text: String },
    /// An empty or service message.
    Other,
}

/// What an event of the log did, as far as its row depends on it.
#[derive(Clone, Debug, PartialEq, Eq)]
pub enum ActionKind {
    EditMessage { prev: LoggedMessage, new: LoggedMessage },
    DeleteMessage {
        message: LoggedMessage,
        /// The deleted message in the transport's debug notation.
        message_debug: String,
    },
    ParticipantJoin,
    ParticipantLeave,
    Other,
}

/// The action of one event.
#[derive(Clone, Debug, PartialEq, Eq)]
pub struct AuditAction {
    pub kind: ActionKind,
    /// The action in the transport's debug notation: the name of its kind,
    /// then its fields.
    pub debug: String,
    /// The action, serialised.
    pub json: String,
}

/// One event of the log.
#[derive(Clone, Debug, PartialEq, Eq)]
pub struct AuditEvent {
    pub id: i64,
    pub date: i32,
    pub user_id: i64,
    pub action: AuditAction,
}

/// One page of the log: its events, newest first, and the users and chats
/// that they mention.
#[derive(Clone, Debug, PartialEq, Eq)]
pub struct AdminLogPage {
    pub events: Vec<AuditEvent>,
    pub users: Vec<UserEntry>,
    pub chats: Vec<ChatEntry>,
}

/// Whether a name ends at `c`: at an opening bracket or a space.
pub open spec fn ends_name(c: char) -> bool {
    c == '(' || c == ' '
}

/// The length of the name that `s` starts with.
pub open spec fn name_len(s: Seq<char>) -> nat
    decreases s.len(),
{
    if s.len() == 0 || ends_name(s[0]) {
        0
    } else {
        1 + name_len(s.drop_first())
    }
}

/// The name of an action's kind: its debug notation up to the first
/// opening bracket or space.
pub open spec fn type_name_of(debug: Seq<char>) -> Seq<char> {
    debug.take(name_len(debug) as int)
}

proof fn lemma_name_len(s: Seq<char>, k: int)
    requires
        0 <= k <= s.len(),
        forall|j: int| 0 <= j < k ==> !ends_name(s[j]),
        k < s.len() ==> ends_name(s[k]),
    ensures
        name_len(s) == k,
    decreases s.len(),
{
    if s.len() == 0 || k == 0 {
    } else {
        let rest = s.drop_first();
        assert forall|j: int| 0 <= j < k - 1 implies !ends_name(rest[j]) by {
            assert(rest[j] == s[j + 1]);
        }
        lemma_name_len(rest, k - 1);
    }
}

/// The name of the kind of an action, from the action's debug notation.
pub fn action_type_name(debug: &str) -> (out: String)
    ensures
        out@ == type_name_of(debug@),
{
    let cs = chars_of(debug);
    let mut i: usize = 0;
    while i < cs.len() && !(cs[i] == '(' || cs[i] == ' ')
        invariant
            i <= cs.len(),
            forall|j: int| 0 <= j < i ==> !ends_name(cs@[j]),
        decreases cs.len() - i,
    {
        i = i + 1;
    }
    proof {
        lemma_name_len(cs@, i as int);
    }
    string_of(&cs, 0, i)
}

/// The text of a quoted message; empty where it has none.
pub open spec fn message_text_of(message: LoggedMessage) -> Seq<char> {
    match message {
        LoggedMessage::Message { text } => text@,
        LoggedMessage::Other => Seq::empty(),
    }
}

/// The text of a quoted message.
pub fn message_text(message: &LoggedMessage) -> (out: String)
    ensures
        out@ == message_text_of(*message),
{
    match message {
        LoggedMessage::Message { text } => text.clone(),
        LoggedMessage::Other => String::new(),
    }
}

/// The display name of a user: first and last name with a space between,
/// the first name alone where there is no last name, nothing without a
/// first name.
pub open spec fn user_title_of(first: Option<String>, last: Option<String>) -> Seq<char> {
    match first {
        Some(f) => match last {
            Some(l) => if l@.len() > 0 {
                f@ + seq![' '] + l@
            } else {
                f@
            },
            None => f@,
        },
        None => Seq::empty(),
    }
}

/// The names among `names` that are active, in order.
pub open spec fn active_names(names: Seq<Username>) -> Seq<Seq<char>>
    decreases names.len(),
{
    if names.len() == 0 {
        Seq::empty()
    } else if names.last().active {
        active_names(names.drop_last()).push(names.last().username@)
    } else {
        active_names(names.drop_last())
    }
}

/// The names that a user or channel goes by: the main one, then the active
/// ones of the list.
pub open spec fn names_of(username: Option<String>, usernames: Option<Vec<Username>>) -> Seq<
    Seq<char>,
> {
    (match username {
        Some(name) => seq![name@],
        None => Seq::empty(),
    }) + (match usernames {
        Some(list) => active_names(list@),
        None => Seq::empty(),
    })
}

fn collect_names(username: &Option<String>, usernames: &Option<Vec<Username>>) -> (out: Vec<String>)
    ensures
        texts(out@) == names_of(*username, *usernames),
{
    let mut out: Vec<String> = Vec::new();
    assert(texts(out@) =~= Seq::<Seq<char>>::empty());
    if let Some(name) = username {
        let copy = name.clone();
        proof {
            lemma_texts_push(out@, copy);
        }
        out.push(copy);
    }
    let ghost main = texts(out@);
    assert(main =~= (match *username {
        Some(name) => seq![name@],
        None => Seq::empty(),
    }));
    if let Some(list) = usernames {
        let mut i: usize = 0;
        assert(list@.take(0) =~= Seq::<Username>::empty());
        while i < list.len()
            invariant
                i <= list.len(),
                texts(out@) == main + active_names(list@.take(i as int)),
            decreases list.len() - i,
        {
            proof {
                assert(list@.take(i + 1).drop_last() == list@.take(i as int));
            }
            if list[i].active {
                let copy = list[i].username.clone();
                proof {
                    lemma_texts_push(out@, copy);
                    assert(texts(out@).push(copy@) =~= main + active_names(list@.take(i + 1)));
                }
                out.push(copy);
            }
            i = i + 1;
        }
        assert(list@.take(list.len() as int) == list@);
    } else {
        assert(main + Seq::<Seq<char>>::empty() =~= main);
    }
    out
}

/// The display name and the names of the first of `users` with id
/// `user_id`; both empty where there is none.
pub open spec fn user_info_of(users: Seq<UserEntry>, user_id: i64) -> (Seq<char>, Seq<Seq<char>>)
    decreases users.len(),
{
    if users.len() == 0 {
        (Seq::empty(), Seq::empty())
    } else {
        match users[0] {
            UserEntry::User { id, first_name, last_name, username, usernames } if id == user_id => (
                user_title_of(first_name, last_name),
                names_of(username, usernames),
            ),
            _ => user_info_of(users.drop_first(), user_id),
        }
    }
}

fn user_title(first: &Option<String>, last: &Option<String>) -> (out: String)
    ensures
        out@ == user_title_of(*first, *last),
{
    match first {
        Some(f) => {
            let mut out = f.clone();
            if let Some(l) = last {
                if !l.as_str().is_empty() {
                    out.push(' ');
                    out.append(l.as_str());
                }
            }
            out
        },
        None => String::new(),
    }
}

/// The display name and the names of the user `user_id`, from the users
/// that a page brings along.
pub fn extract_user_info(users: &Vec<UserEntry>, user_id: i64) -> (out: (String, Vec<String>))
    ensures
        (out.0@, texts(out.1@)) == user_info_of(users@, user_id),
{
    let mut i: usize = 0;
    assert(users@.skip(0) == users@);
    while i < users.len()
        invariant
            i <= users.len(),
            user_info_of(users@, user_id) == user_info_of(users@.skip(i as int), user_id),
        decreases users.len() - i,
    {
        proof {
            assert(users@.skip(i as int).drop_first() == users@.skip(i + 1));
            assert(users@.skip(i as int)[0] == users@[i as int]);
        }
        match &users[i] {
            UserEntry::User { id, first_name, last_name, username, usernames } => {
                if *id == user_id {
                    let title = user_title(first_name, last_name);
                    let names = collect_names(username, usernames);
                    return (title, names);
                }
            },
            UserEntry::Empty => {},
        }
        i = i + 1;
    }
    let names: Vec<String> = Vec::new();
    assert(texts(names@) =~= Seq::<Seq<char>>::empty());
    (String::new(), names)
}

/// The title and the names of the first of `chats` with id `chat_id`; both
/// empty where there is none.
pub open spec fn chat_info_of(chats: Seq<ChatEntry>, chat_id: i64) -> (Seq<char>, Seq<Seq<char>>)
    decreases chats.len(),
{
    if chats.len() == 0 {
        (Seq::empty(), Seq::empty())
    } else {
        match chats[0] {
            ChatEntry::Channel { id, title, username, usernames } if id == chat_id => (
                title@,
                names_of(username, usernames),
            ),
            ChatEntry::Chat { id, title } if id == chat_id => (title@, Seq::empty()),
            _ => chat_info_of(chats.drop_first(), chat_id),
        }
    }
}

/// The title and the names of the chat `chat_id`, from the chats that a
/// page brings along.
pub fn extract_chat_info(chats: &Vec<ChatEntry>, chat_id: i64) -> (out: (String, Vec<String>))
    ensures
        (out.0@, texts(out.1@)) == chat_info_of(chats@, chat_id),
{
    let mut i: usize = 0;
    assert(chats@.skip(0) == chats@);
    while i < chats.len()
        invariant
            i <= chats.len(),
            chat_info_of(chats@, chat_id) == chat_info_of(chats@.skip(i as int), chat_id),
        decreases chats.len() - i,
    {
        proof {
            assert(chats@.skip(i as int).drop_first() == chats@.skip(i + 1));
            assert(chats@.skip(i as int)[0] == chats@[i as int]);
        }
        match &chats[i] {
            ChatEntry::Channel { id, title, username, usernames } => {
                if *id == chat_id {
                    let names = collect_names(username, usernames);
                    return (title.clone(), names);
                }
            },
            ChatEntry::Chat { id, title } => {
                if *id == chat_id {
                    let names: Vec<String> = Vec::new();
                    assert(texts(names@) =~= Seq::<Seq<char>>::empty());
                    return (title.clone(), names);
                }
            },
            ChatEntry::Other => {},
        }
        i = i + 1;
    }
    let names: Vec<String> = Vec::new();
    assert(texts(names@) =~= Seq::<Seq<char>>::empty());
    (String::new(), names)
}

/// One piece of a line diff: a line that only the left text has, a line that
/// both have, or a line that only the right text has.
#[derive(Clone, Debug, PartialEq, Eq)]
pub enum Hunk<T> {
    Left(T),
    Both(T, T),
    Right(T),
}

/// A piece of a diff with its lines as character sequences.
pub open spec fn hunk_text(hunk: Hunk<String>) -> Hunk<Seq<char>> {
    match hunk {
        Hunk::Left(l) => Hunk::Left(l@),
        Hunk::Both(l, r) => Hunk::Both(l@, r@),
        Hunk::Right(r) => Hunk::Right(r@),
    }
}

/// The pieces of a diff with their lines as character sequences.
pub open spec fn hunk_texts(hunks: Seq<Hunk<String>>) -> Seq<Hunk<Seq<char>>> {
    hunks.map_values(|h: Hunk<String>| hunk_text(h))
}

/// The line diff that `diff::lines` computes for two texts.
pub uninterp spec fn line_diff(left: Seq<char>, right: Seq<char>) -> Seq<Hunk<Seq<char>>>;

/// The number of cells that the line diff may use for its table.
pub open spec fn max_diff_cells() -> int {
    usize::MAX as int / 8
}

/// Whether two texts can be handed to the line diff. The diff keeps a table
/// with a cell for every pair of a line of the one and a line of the other
/// text, and one row and one column more; the table has to fit in memory
/// that can be addressed. A text has no more lines than characters.
pub open spec fn diffable(left: Seq<char>, right: Seq<char>) -> bool {
    (left.len() + 1) * (right.len() + 1) <= max_diff_cells()
}

/// `diff::lines` of the crate `diff`: the diff between the lines of the two
/// texts, as a sequence of pieces. Its result depends on the two texts
/// alone; the contract gives it the name `line_diff` and says no more of it.
#[verifier::external_body]
fn diff_lines(left: &str, right: &str) -> (out: Vec<Hunk<String>>)
    requires
        diffable(left@, right@),
    ensures
        hunk_texts(out@) == line_diff(left@, right@),
{
    diff::lines(left, right)
        .into_iter()
        .map(
            |hunk| match hunk {
                diff::Result::Left(l) => Hunk::Left(l.to_string()),
                diff::Result::Both(l, r) => Hunk::Both(l.to_string(), r.to_string()),
                diff::Result::Right(r) => Hunk::Right(r.to_string()),
            },
        )
        .collect()
}

/// One piece of a diff as a line of output: the line behind `-` where only
/// the left text has it, behind `+` where only the right one has it, behind
/// a space where both have it; then a line feed.
pub open spec fn rendered_hunk(hunk: Hunk<Seq<char>>) -> Seq<char> {
    match hunk {
        Hunk::Left(l) => seq!['-'] + l + seq!['\n'],
        Hunk::Both(b, _) => seq![' '] + b + seq!['\n'],
        Hunk::Right(r) => seq!['+'] + r + seq!['\n'],
    }
}

/// The pieces of a diff as lines of output, one after the other.
pub open spec fn rendered(hunks: Seq<Hunk<Seq<char>>>) -> Seq<char>
    decreases hunks.len(),
{
    if hunks.len() == 0 {
        Seq::empty()
    } else {
        rendered(hunks.drop_last()) + rendered_hunk(hunks.last())
    }
}

/// A diff as it is logged: two header lines, then the pieces.
pub open spec fn rendered_diff(hunks: Seq<Hunk<Seq<char>>>) -> Seq<char> {
    "--- \n+++ \n"@ + rendered(hunks)
}

/// Writes a diff out as it is logged.
pub fn render_hunks(hunks: &Vec<Hunk<String>>) -> (out: String)
    ensures
        out@ == rendered_diff(hunk_texts(hunks@)),
{
    let mut out = String::new();
    out.append("--- \n+++ \n");
    let ghost head = out@;
    assert(head =~= "--- \n+++ \n"@);
    let mut i: usize = 0;
    assert(hunk_texts(hunks@).take(0) =~= Seq::empty());
    assert(head + rendered(Seq::empty()) =~= head);
    while i < hunks.len()
        invariant
            i <= hunks.len(),
            head == "--- \n+++ \n"@,
            out@ == head + rendered(hunk_texts(hunks@).take(i as int)),
        decreases hunks.len() - i,
    {
        let ghost before = out@;
        match &hunks[i] {
            Hunk::Left(l) => {
                out.push('-');
                out.append(l.as_str());
            },
            Hunk::Both(b, _) => {
                out.push(' ');
                out.append(b.as_str());
            },
            Hunk::Right(r) => {
                out.push('+');
                out.append(r.as_str());
            },
        }
        out.push('\n');
        proof {
            let all = hunk_texts(hunks@);
            assert(all.take(i + 1).drop_last() == all.take(i as int));
            assert(all.take(i + 1).last() == hunk_text(hunks@[i as int]));
            assert(out@ =~= before + rendered_hunk(hunk_text(hunks@[i as int])));
            assert(out@ =~= head + rendered(all.take(i + 1)));
        }
        i = i + 1;
    }
    assert(hunk_texts(hunks@).take(hunks.len() as int) == hunk_texts(hunks@));
    out
}

/// Whether the action can be written out: the texts of an edit are short
/// enough to be diffed.
pub open spec fn can_log(action: AuditAction) -> bool {
    match action.kind {
        ActionKind::EditMessage { prev, new } => diffable(
            message_text_of(prev),
            message_text_of(new),
        ),
        _ => true,
    }
}

/// What is logged for an action: for an edit, the diff of the two texts, or
/// nothing where the text did not change; for a deletion, the deleted text,
/// or the message in debug notation where it had none; nothing for joining
/// and leaving; for anything else the action in debug notation.
pub open spec fn log_output_of(action: AuditAction) -> Seq<char> {
    match action.kind {
        ActionKind::EditMessage { prev, new } => {
            let before = message_text_of(prev);
            let after = message_text_of(new);
            if before == after {
                Seq::empty()
            } else {
                rendered_diff(line_diff(before, after))
            }
        },
        ActionKind::DeleteMessage { message, message_debug } => {
            let content = message_text_of(message);
            if content.len() > 0 {
                content
            } else {
                message_debug@
            }
        },
        ActionKind::ParticipantJoin => Seq::empty(),
        ActionKind::ParticipantLeave => Seq::empty(),
        ActionKind::Other => action.debug@,
    }
}

/// Whether the two texts can be handed to the line diff.
pub fn is_diffable(left: &str, right: &str) -> (ok: bool)
    ensures
        ok == diffable(left@, right@),
{
    let limit: usize = usize::MAX / 8;
    let a = left.unicode_len();
    let b = right.unicode_len();
    if a > limit || b > limit {
        assert((a + 1) * (b + 1) > limit) by (nonlinear_arith)
            requires
                a > limit || b > limit,
                a >= 0,
                b >= 0,
        ;
        return false;
    }
    assert((a + 1) * (b + 1) <= (limit + 1) * (limit + 1)) by (nonlinear_arith)
        requires
            0 <= a <= limit,
            0 <= b <= limit,
    ;
    assert((limit + 1) * (limit + 1) <= 0x2000_0000_0000_0000 * 0x2000_0000_0000_0000)
        by (nonlinear_arith)
        requires
            0 <= limit < 0x2000_0000_0000_0000,
    ;
    let cells: u128 = (a as u128 + 1) * (b as u128 + 1);
    cells <= limit as u128
}

/// Whether the action can be written out.
pub fn action_can_be_logged(action: &AuditAction) -> (ok: bool)
    ensures
        ok == can_log(*action),
{
    match &action.kind {
        ActionKind::EditMessage { prev, new } => {
            let before = message_text(prev);
            let after = message_text(new);
            is_diffable(before.as_str(), after.as_str())
        },
        _ => true,
    }
}

/// What is logged for an action.
pub fn format_log_output(action: &AuditAction) -> (out: String)
    requires
        can_log(*action),
    ensures
        out@ == log_output_of(*action),
{
    match &action.kind {
        ActionKind::EditMessage { prev, new } => {
            let before = message_text(prev);
            let after = message_text(new);
            if before == after {
                return String::new();
            }
            let hunks = diff_lines(before.as_str(), after.as_str());
            render_hunks(&hunks)
        },
        ActionKind::DeleteMessage { message, message_debug } => {
            let content = message_text(message);
            if !content.as_str().is_empty() {
                return content;
            }
            message_debug.clone()
        },
        ActionKind::ParticipantJoin => String::new(),
        ActionKind::ParticipantLeave => String::new(),
        ActionKind::Other => action.debug.clone(),
    }
}

/// Whether `row` is the row of `event` in the log of chat `chat_id`, with
/// the names taken from `users` and `chats`.
pub open spec fn is_admin_row(
    row: AdminAction,
    event: AuditEvent,
    users: Seq<UserEntry>,
    chats: Seq<ChatEntry>,
    chat_id: i64,
) -> bool {
    &&& row.date == event.date as u32
    &&& row.event_id == event.id as u64
    &&& row.chat_id == chat_id as u64
    &&& row.action_type@ == type_name_of(event.action.debug@)
    &&& row.user_id == event.user_id as u64
    &&& row.message@ == event.action.json@
    &&& row.log_output@ == log_output_of(event.action)
    &&& (row.user_title@, texts(row.usernames@)) == user_info_of(users, event.user_id)
    &&& (row.chat_title@, texts(row.chat_usernames@)) == chat_info_of(chats, chat_id)
}

/// The row of one event.
pub fn admin_row(
    event: &AuditEvent,
    users: &Vec<UserEntry>,
    chats: &Vec<ChatEntry>,
    chat_id: i64,
) -> (row: AdminAction)
    requires
        can_log(event.action),
    ensures
        is_admin_row(row, *event, users@, chats@, chat_id),
{
    let (user_title, usernames) = extract_user_info(users, event.user_id);
    let (chat_title, chat_usernames) = extract_chat_info(chats, chat_id);
    AdminAction {
        date: #[verifier::truncate] (event.date as u32),
        event_id: #[verifier::truncate] (event.id as u64),
        chat_id: #[verifier::truncate] (chat_id as u64),
        action_type: action_type_name(event.action.debug.as_str()),
        user_id: #[verifier::truncate] (event.user_id as u64),
        message: event.action.json.clone(),
        log_output: format_log_output(&event.action),
        usernames,
        chat_usernames,
        chat_title,
        user_title,
    }
}

/// Whether every event of the page can be written out.
pub open spec fn page_can_be_logged(page: AdminLogPage) -> bool {
    forall|i: int| 0 <= i < page.events@.len() ==> can_log(#[trigger] page.events@[i].action)
}

/// Whether `rows` are the rows of the events of `page`, in order.
pub open spec fn are_admin_rows(rows: Seq<AdminAction>, page: AdminLogPage, chat_id: i64) -> bool {
    &&& rows.len() == page.events@.len()
    &&& forall|i: int|
        0 <= i < rows.len() ==> is_admin_row(
            #[trigger] rows[i],
            page.events@[i],
            page.users@,
            page.chats@,
            chat_id,
        )
}

/// Whether every event of `page` can be written out.
pub fn can_log_page(page: &AdminLogPage) -> (ok: bool)
    ensures
        ok == page_can_be_logged(*page),
{
    let mut i: usize = 0;
    while i < page.events.len()
        invariant
            i <= page.events.len(),
            forall|j: int| 0 <= j < i ==> can_log(#[trigger] page.events@[j].action),
        decreases page.events.len() - i,
    {
        if !action_can_be_logged(&page.events[i].action) {
            return false;
        }
        i = i + 1;
    }
    true
}

/// The rows of the events of `page`, in order.
pub fn admin_rows(page: &AdminLogPage, chat_id: i64) -> (rows: Vec<AdminAction>)
    requires
        page_can_be_logged(*page),
    ensures
        are_admin_rows(rows@, *page, chat_id),
{
    let mut rows: Vec<AdminAction> = Vec::new();
    let mut i: usize = 0;
    while i < page.events.len()
        invariant
            i <= page.events.len(),
            page_can_be_logged(*page),
            rows@.len() == i,
            forall|j: int|
                0 <= j < i ==> is_admin_row(
                    #[trigger] rows@[j],
                    page.events@[j],
                    page.users@,
                    page.chats@,
                    chat_id,
                ),
        decreases page.events.len() - i,
    {
        let row = admin_row(&page.events[i], &page.users, &page.chats, chat_id);
        rows.push(row);
        i = i + 1;
    }
    rows
}

/// The chat ids among `entries`: each entry without the white space around
/// it, read as a number; entries that are no number are left out.
pub open spec fn chat_ids_of(entries: Seq<Seq<char>>) -> Seq<i64>
    decreases entries.len(),
{
    if entries.len() == 0 {
        Seq::empty()
    } else {
        match parsed_i64(trimmed(entries.last())) {
            Some(id) => chat_ids_of(entries.drop_last()).push(id),
            None => chat_ids_of(entries.drop_last()),
        }
    }
}

/// The chats named by a setting: a list of chat ids with commas between.
pub open spec fn monitored(setting: Seq<char>) -> Seq<i64> {
    chat_ids_of(pieces(setting, ','))
}

/// The chats whose log is read, from the setting that lists them.
pub fn monitored_chats(setting: &str) -> (out: Vec<i64>)
    ensures
        out@ == monitored(setting@),
{
    let entries = split(setting, ',');
    let mut out: Vec<i64> = Vec::new();
    let mut i: usize = 0;
    assert(texts(entries@).take(0) =~= Seq::<Seq<char>>::empty());
    while i < entries.len()
        invariant
            i <= entries.len(),
            out@ == chat_ids_of(texts(entries@).take(i as int)),
        decreases entries.len() - i,
    {
        proof {
            let all = texts(entries@);
            assert(all.take(i + 1).drop_last() == all.take(i as int));
            assert(all.take(i + 1).last() == entries@[i as int]@);
        }
        let entry = trim(entries[i].as_str());
        if let Some(id) = parse_i64(entry.as_str()) {
            out.push(id);
        }
        i = i + 1;
    }
    assert(texts(entries@).take(entries.len() as int) == texts(entries@));
    out
}

} // verus!
