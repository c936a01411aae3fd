use vstd::prelude::*;
use vstd::string::StringExecFns;

use crate::files::FileResponse;
use crate::jwt::{hs256_claims, validate_jwt, validation_outcome};
use crate::models::{FileTypeStat, UserBroadcast, WSClientCommand, WsEvent};

verus! {

/// Whether a broadcast event goes out on a socket: only to the sockets of the
/// user it is meant for.
pub fn should_forward(event_user_id: i64, socket_user_id: i64) -> (res: bool)
    ensures
        res == (event_user_id == socket_user_id),
{
    event_user_id == socket_user_id
}

/// Authenticates a dashboard socket by the session token of its first message:
/// the user the token names, when the token is valid now. A user is returned
/// only when the token validates at the time the clock reads.
pub fn authenticate_socket(token: &str, jwt_secret: &str) -> (res: Result<i64, ()>)
    ensures
        res matches Ok(id) ==> exists|now: u64|
            #![trigger validation_outcome(token@, jwt_secret@, now)]
            (validation_outcome(token@, jwt_secret@, now) matches Ok(c) && c.0 == id),
        res matches Ok(id) ==> (hs256_claims(token@, jwt_secret@) matches Some(Some(c)) && c.0
            == id),
        !(hs256_claims(token@, jwt_secret@) matches Some(Some(_))) ==> res is Err,
{
    match validate_jwt(token, jwt_secret) {
        Ok(claims) => Ok(claims.sub),
        Err(_) => Err(()),
    }
}

/// What a socket command asks the server to look up.
#[derive(Debug)]
pub enum SocketRequest {
    Stats,
    Uploads { cursor: Option<String>, limit: Option<i64> },
}

/// Routes a socket command to the lookup that answers it.
pub fn dispatch(cmd: WSClientCommand) -> (res: SocketRequest)
    ensures
        cmd is GetStats ==> res is Stats,
        cmd matches WSClientCommand::GetUploads { cursor, limit } ==> (res matches SocketRequest::Uploads {
            cursor: c,
            limit: l,
        } && c == cursor && l == limit),
{
    match cmd {
        WSClientCommand::GetStats => SocketRequest::Stats,
        WSClientCommand::GetUploads { cursor, limit } => SocketRequest::Uploads { cursor, limit },
    }
}

/// The reply to a message that is no known command.
pub fn unrecognized_command() -> (res: WsEvent)
    ensures
        res matches WsEvent::Error(m) && m@ == "unrecognized command"@,
{
    WsEvent::Error(String::from_str("unrecognized command"))
}

/// What happened on a dashboard socket, as the socket loop sees it.
#[derive(Debug)]
pub enum SocketEvent {
    /// A broadcast arrived on the server's event channel.
    Broadcast(UserBroadcast),
    /// Broadcasts were missed because the socket fell behind.
    Lagged,
    /// The event channel was closed.
    ChannelClosed,
    /// The client went away, or reading from it failed.
    Disconnected,
    /// The client sent something other than text.
    NonText,
    /// The client sent text that is no known command.
    Unrecognized,
    /// The client sent a command.
    Command(WSClientCommand),
}

/// What the socket loop does next.
#[derive(Debug)]
pub enum SocketAction {
    /// Nothing; wait for the next event.
    Wait,
    /// End the connection.
    Close,
    /// Send the event; when sending fails, end the connection if `close_on_failure`.
    Send { event: WsEvent, close_on_failure: bool },
    /// Look up what the command asks for and send it; end the connection when
    /// sending fails.
    Answer(SocketRequest),
}

/// One step of an authenticated dashboard socket of user `user_id`: broadcasts
/// for this user are passed on, others and missed ones are skipped; a closed
/// channel or a gone client ends the connection; non-text messages are
/// skipped; unknown text is answered with an error (a failed send of it is
/// ignored); a command is answered with its lookup.
pub fn socket_step(user_id: i64, event: SocketEvent) -> (res: SocketAction)
    ensures
        match event {
            SocketEvent::Broadcast(b) => if b.user_id == user_id {
                res matches SocketAction::Send { event: e, close_on_failure: true } && e == b.event
            } else {
                res is Wait
            },
            SocketEvent::Lagged => res is Wait,
            SocketEvent::ChannelClosed => res is Close,
            SocketEvent::Disconnected => res is Close,
            SocketEvent::NonText => res is Wait,
            SocketEvent::Unrecognized => res matches SocketAction::Send {
                event: WsEvent::Error(m),
                close_on_failure: false,
            } && m@ == "unrecognized command"@,
            SocketEvent::Command(WSClientCommand::GetStats) => res matches SocketAction::Answer(
                SocketRequest::Stats,
            ),
            SocketEvent::Command(WSClientCommand::GetUploads { cursor, limit }) => res matches SocketAction::Answer(
                SocketRequest::Uploads { cursor: c, limit: l },
            ) && c == cursor && l == limit,
        },
{
    match event {
        SocketEvent::Broadcast(b) => if should_forward(b.user_id, user_id) {
            SocketAction::Send { event: b.event, close_on_failure: true }
        } else {
            SocketAction::Wait
        },
        SocketEvent::Lagged => SocketAction::Wait,
        SocketEvent::ChannelClosed => SocketAction::Close,
        SocketEvent::Disconnected => SocketAction::Close,
        SocketEvent::NonText => SocketAction::Wait,
        SocketEvent::Unrecognized => SocketAction::Send {
            event: unrecognized_command(),
            close_on_failure: false,
        },
        SocketEvent::Command(cmd) => SocketAction::Answer(dispatch(cmd)),
    }
}

/// The figures the statistics query reads for a user.
#[derive(Debug)]
pub struct StatsRow {
    pub total_files: i64,
    pub total_files_trend: Option<i64>,
    pub storage_used_bytes: Option<i64>,
    pub storage_used_bytes_trend: Option<i64>,
    /// Files whose content type is `image/...`.
    pub images_count: Option<i64>,
    /// Files whose content type is `video/...`.
    pub videos_count: Option<i64>,
    /// Files whose content type is `audio/...`.
    pub audio_count: Option<i64>,
    /// Files whose content type is `text/...`, `application/pdf`,
    /// `application/msword` or `application/vnd.*`.
    pub documents_count: Option<i64>,
}

/// The files of a user by kind: images, videos, audio, documents, and the
/// rest as "Other".
pub open spec fn file_type_breakdown(r: StatsRow) -> Seq<(Seq<char>, int)> {
    let i = or_zero(r.images_count) as int;
    let v = or_zero(r.videos_count) as int;
    let a = or_zero(r.audio_count) as int;
    let d = or_zero(r.documents_count) as int;
    seq![
        ("Images"@, i),
        ("Videos"@, v),
        ("Audio"@, a),
        ("Documents"@, d),
        ("Other"@, r.total_files - (i + v + a + d)),
    ]
}

/// The number of files of one kind, by the name the dashboard shows for it:
/// the row's count for images, videos, audio and documents (zero when
/// missing), and the files of no such kind for "Other".
pub open spec fn count_of_kind(r: StatsRow, name: Seq<char>) -> int {
    let kinds = or_zero(r.images_count) + or_zero(r.videos_count) + or_zero(r.audio_count)
        + or_zero(r.documents_count);
    if name == "Images"@ {
        or_zero(r.images_count) as int
    } else if name == "Videos"@ {
        or_zero(r.videos_count) as int
    } else if name == "Audio"@ {
        or_zero(r.audio_count) as int
    } else if name == "Documents"@ {
        or_zero(r.documents_count) as int
    } else {
        r.total_files - kinds
    }
}

/// The sum of the amounts of a breakdown.
pub open spec fn total_amount(b: Seq<(Seq<char>, int)>) -> int
    decreases b.len(),
{
    if b.len() == 0 {
        0
    } else {
        total_amount(b.drop_last()) + b.last().1
    }
}

/// The file-kind breakdown of the dashboard lists the five kinds Images,
/// Videos, Audio, Documents and Other once each; each kind's amount is the
/// row's count of files of that kind (so videos are never counted as documents
/// or the other way round), and the amounts add up to the user's number of files.
pub proof fn lemma_breakdown_counts_each_kind(r: StatsRow)
    ensures
        file_type_breakdown(r).len() == 5,
        forall|i: int|
            0 <= i < 5 ==> #[trigger] file_type_breakdown(r)[i].1 == count_of_kind(
                r,
                file_type_breakdown(r)[i].0,
            ),
        forall|i: int, j: int|
            0 <= i < 5 && 0 <= j < 5 && i != j ==> #[trigger] file_type_breakdown(r)[i].0
                != #[trigger] file_type_breakdown(r)[j].0,
        file_type_breakdown(r).map_values(|e: (Seq<char>, int)| e.0) == seq![
            "Images"@,
            "Videos"@,
            "Audio"@,
            "Documents"@,
            "Other"@,
        ],
        total_amount(file_type_breakdown(r)) == r.total_files,
{
    reveal_strlit("Images");
    reveal_strlit("Videos");
    reveal_strlit("Audio");
    reveal_strlit("Documents");
    reveal_strlit("Other");
    let b = file_type_breakdown(r);
    // The five names differ in their first letter.
    assert("Images"@[0] == 'I' && "Videos"@[0] == 'V' && "Audio"@[0] == 'A' && "Documents"@[0]
        == 'D' && "Other"@[0] == 'O');
    assert(b.map_values(|e: (Seq<char>, int)| e.0) =~= seq![
        "Images"@,
        "Videos"@,
        "Audio"@,
        "Documents"@,
        "Other"@,
    ]);
    assert(b.drop_last().drop_last().drop_last().drop_last().drop_last().len() == 0);
    reveal_with_fuel(total_amount, 6);
}

/// The kinds of files the statistics read can be counted without overflow.
pub open spec fn breakdown_fits(r: StatsRow) -> bool {
    let i = or_zero(r.images_count) as int;
    let v = or_zero(r.videos_count) as int;
    let a = or_zero(r.audio_count) as int;
    let d = or_zero(r.documents_count) as int;
    &&& i64::MIN <= i + v <= i64::MAX
    &&& i64::MIN <= i + v + a <= i64::MAX
    &&& i64::MIN <= i + v + a + d <= i64::MAX
    &&& i64::MIN <= r.total_files - (i + v + a + d) <= i64::MAX
}

/// The views of the file-kind counts of an event.
pub open spec fn stat_views(s: Seq<FileTypeStat>) -> Seq<(Seq<char>, int)> {
    s.map_values(|f: FileTypeStat| (f.name@, f.amount as int))
}

fn breakdown(r: &StatsRow) -> (res: Vec<FileTypeStat>)
    requires
        breakdown_fits(*r),
    ensures
        stat_views(res@) == file_type_breakdown(*r),
{
    let i = match r.images_count { Some(x) => x, None => 0 };
    let v = match r.videos_count { Some(x) => x, None => 0 };
    let a = match r.audio_count { Some(x) => x, None => 0 };
    let d = match r.documents_count { Some(x) => x, None => 0 };
    let other = r.total_files - (i + v + a + d);
    let res = vec![
        FileTypeStat { name: String::from_str("Images"), amount: i },
        FileTypeStat { name: String::from_str("Videos"), amount: v },
        FileTypeStat { name: String::from_str("Audio"), amount: a },
        FileTypeStat { name: String::from_str("Documents"), amount: d },
        FileTypeStat { name: String::from_str("Other"), amount: other },
    ];
    proof {
        reveal_strlit("Images");
        reveal_strlit("Videos");
        reveal_strlit("Audio");
        reveal_strlit("Documents");
        reveal_strlit("Other");
        assert(stat_views(res@) =~= file_type_breakdown(*r));
    }
    res
}

/// A missing sum counts as zero.
pub open spec fn or_zero(v: Option<i64>) -> i64 {
    match v {
        Some(x) => x,
        None => 0,
    }
}

/// Division rounding toward zero, as integer division in Rust does, for a
/// positive divisor.
pub open spec fn truncating_div(a: int, b: int) -> int {
    if a >= 0 {
        a / b
    } else {
        -((-a) / b)
    }
}

/// The dashboard statistics of a user, or an error event when the query
/// failed. The average file size is the number of bytes per file, rounded
/// toward zero (zero without files); views are not counted yet. The files are
/// also counted by kind: images, videos, audio, documents and the rest.
pub fn get_stats(row: Result<StatsRow, ()>) -> (res: WsEvent)
    requires
        row matches Ok(r) ==> breakdown_fits(r),
    ensures
        row is Err ==> (res matches WsEvent::Error(m) && m@ == "failed to fetch dashboard stats"@),
        row matches Ok(r) ==> (res matches WsEvent::DashboardStats {
            total_files,
            total_files_trend,
            storage_used_bytes,
            storage_used_bytes_trend,
            average_file_size_bytes,
            views,
            file_types,
        } && stat_views(file_types@) == file_type_breakdown(r) && total_files == r.total_files && total_files_trend == or_zero(r.total_files_trend)
            && storage_used_bytes == or_zero(r.storage_used_bytes) && storage_used_bytes_trend
            == or_zero(r.storage_used_bytes_trend) && average_file_size_bytes == (if r.total_files
            > 0 {
            truncating_div(or_zero(r.storage_used_bytes) as int, r.total_files as int)
        } else {
            0
        }) && views == 0),
{
    match row {
        Err(_) => WsEvent::Error(String::from_str("failed to fetch dashboard stats")),
        Ok(r) => {
            let storage = match r.storage_used_bytes {
                Some(s) => s,
                None => 0,
            };
            let file_types = breakdown(&r);
            let average = if r.total_files > 0 {
                storage / r.total_files
            } else {
                0
            };
            WsEvent::DashboardStats {
                total_files: r.total_files,
                total_files_trend: match r.total_files_trend {
                    Some(t) => t,
                    None => 0,
                },
                storage_used_bytes: storage,
                storage_used_bytes_trend: match r.storage_used_bytes_trend {
                    Some(t) => t,
                    None => 0,
                },
                average_file_size_bytes: average,
                views: 0,
                file_types,
            }
        },
    }
}

/// The reply to an uploads request: the page, or the reason it failed.
pub fn uploads_event(page: Result<FileResponse, String>) -> (res: WsEvent)
    ensures
        page matches Ok(p) ==> (res matches WsEvent::UploadsList { items, next_cursor } && items
            == p.items && next_cursor == p.next_cursor),
        page matches Err(m) ==> (res matches WsEvent::Error(e) && e == m),
{
    match page {
        Ok(p) => WsEvent::UploadsList { items: p.items, next_cursor: p.next_cursor },
        Err(m) => WsEvent::Error(m),
    }
}

} // verus!
