//! The HTTP interface: who may ask, and what each request is answered.
//!
//! Every handler is a short conversation with the database. The functions
//! here make each decision; the caller performs the lookup that a step asks
//! for and hands its result to the next function.
use vstd::prelude::*;
use std::time::{Duration, SystemTime, SystemTimeError};
use crate::ser_config::{Player, Players, UserData, UserDataPerm};
use crate::server::mysql_util::DbError;
use crate::text::{parse_i128, same_text, spec_parse_i128};
use crate::yml_util::{decrypt_name_t, expected_token};

verus! {

/// The body of a short answer: a status code and a word.
#[derive(Debug, Clone, PartialEq, Eq)]
pub struct Response {
    pub code: u32,
    pub message: String,
}

/// What an answer carries: a short [`Response`], one player, or all players.
#[derive(Debug, Clone, PartialEq, Eq)]
pub enum ReplyBody {
    Message(Response),
    Player(Player),
    Players(Players),
}

/// An answer to an HTTP request: the HTTP status and the JSON body.
#[derive(Debug, Clone, PartialEq, Eq)]
pub struct HttpGetResponder {
    pub status: u16,
    pub body: ReplyBody,
}

impl HttpGetResponder {
    /// A short answer with this status, the same code in the body, and
    /// this word.
    pub open spec fn is_message(self, status: u16, text: Seq<char>) -> bool {
        &&& self.status == status
        &&& self.body matches ReplyBody::Message(m)
        &&& m.code == status
        &&& m.message@ == text
    }

    /// The body agrees with the status: a short answer carries the status
    /// as its code, and records are only sent with status 200.
    pub open spec fn consistent(self) -> bool {
        match self.body {
            ReplyBody::Message(m) => m.code == self.status,
            _ => self.status == 200,
        }
    }
}

fn message_reply(status: u16, text: &str) -> (r: HttpGetResponder)
    ensures
        r.is_message(status, text@),
        r.consistent(),
{
    HttpGetResponder {
        status,
        body: ReplyBody::Message(Response { code: status as u32, message: text.to_owned() }),
    }
}

/// The answer when the requested record does not exist: 404, `null`.
pub fn null_404_http_get_responder() -> (r: HttpGetResponder)
    ensures
        r.is_message(404, "null"@),
        r.consistent(),
{
    message_reply(404, "null")
}

/// The answer to a request whose token is wrong or whose rights do not
/// suffice: 403, `false`.
pub fn null_403_http_get_responder() -> (r: HttpGetResponder)
    ensures
        r.is_message(403, "false"@),
        r.consistent(),
{
    message_reply(403, "false")
}

/// The answer to a change that was carried out: 200, `true`.
pub fn null_200_http_get_responder() -> (r: HttpGetResponder)
    ensures
        r.is_message(200, "true"@),
        r.consistent(),
{
    message_reply(200, "true")
}

/// The answer when the server could not carry out the request: 500, `null`.
pub fn null_500_http_get_responder() -> (r: HttpGetResponder)
    ensures
        r.is_message(500, "null"@),
        r.consistent(),
{
    message_reply(500, "null")
}

/// The answer to a request whose timestamp is too far from the server's
/// clock: 401, `unauthorized`.
pub fn null_401_http_get_responder() -> (r: HttpGetResponder)
    ensures
        r.is_message(401, "unauthorized"@),
        r.consistent(),
{
    message_reply(401, "unauthorized")
}

/// The text of the page shown for a path that no handler serves.
pub open spec fn not_found_text(uri: Seq<char>) -> Seq<char> {
    "Sorry, \n'"@ + uri + "' is not a valid path.\n"@
        + "默认  文档地址：https://github.com/banchen19/SynchronizerMC/blob/master/book.md"@
}

/// The page shown for a path that no handler serves, naming the path and
/// where the interface is documented.
pub fn not_found(uri: &str) -> (page: String)
    ensures
        page@ == not_found_text(uri@),
{
    let mut page = "Sorry, \n'".to_owned();
    page.append(uri);
    page.append("' is not a valid path.\n");
    page.append("默认  文档地址：https://github.com/banchen19/SynchronizerMC/blob/master/book.md");
    page
}

/// The answer to a request for a player's permission group: the group's
/// name with status 200 when the player is known, else 404.
pub fn get_permissions(lookup: Result<Option<Player>, DbError>) -> (r: HttpGetResponder)
    ensures
        r.consistent(),
        match lookup {
            Ok(Some(p)) => r.is_message(200, p.permission_name@),
            _ => r.is_message(404, "null"@),
        },
{
    match lookup {
        Ok(Some(p)) => HttpGetResponder {
            status: 200,
            body: ReplyBody::Message(Response { code: 200, message: p.permission_name }),
        },
        _ => null_404_http_get_responder(),
    }
}

// ------------------------------------------------------------------------
// Who may ask
// ------------------------------------------------------------------------

/// How far, in milliseconds, a request's timestamp may lie from the
/// server's clock, exclusive.
pub const TIMESTAMP_WINDOW: i128 = 60000;

/// The outcome of checking a request's credentials.
#[derive(Debug, Clone, Copy, PartialEq, Eq)]
pub enum AuthVerdict {
    /// The timestamp is too far from the server's clock.
    Unauthorized,
    /// The timestamp is fresh but the token is wrong.
    Forbidden,
    /// Fresh timestamp, right token.
    Granted,
}

/// The absolute value of `x`.
pub open spec fn spec_abs(x: int) -> int {
    if x < 0 {
        -x
    } else {
        x
    }
}

/// Whether a request stamped `t` is fresh at time `now`.
pub open spec fn fresh(now: int, t: int) -> bool {
    spec_abs(now - t) < TIMESTAMP_WINDOW
}

/// The verdict on a request stamped `t` carrying `token`, at time `now`,
/// when the right token is `expected`: staleness is checked first.
pub open spec fn spec_verdict(now: int, t: int, token: Seq<char>, expected: Seq<char>) -> AuthVerdict {
    if !fresh(now, t) {
        AuthVerdict::Unauthorized
    } else if expected == token {
        AuthVerdict::Granted
    } else {
        AuthVerdict::Forbidden
    }
}

/// Whether the timestamp text reads as a number and its distance from
/// `now` can be computed in 128 bits; on other inputs a request is not
/// answered at all.
pub open spec fn timestamp_usable(t: Seq<char>, now: i128) -> bool {
    &&& spec_parse_i128(t) is Some
    &&& i128::MIN < now - spec_parse_i128(t).unwrap() <= i128::MAX
}

/// The verdict on credentials, given the request's timestamp `t`, the
/// server's time `now`, the token sent and the token expected.
pub fn verdict(now: i128, t: i128, token: &String, expected: &String) -> (v: AuthVerdict)
    requires
        i128::MIN < now - t <= i128::MAX,
    ensures
        v == spec_verdict(now as int, t as int, token@, expected@),
{
    let diff: i128 = now - t;
    let gap: i128 = if diff < 0 { -diff } else { diff };
    if gap >= TIMESTAMP_WINDOW {
        AuthVerdict::Unauthorized
    } else if *expected == *token {
        AuthVerdict::Granted
    } else {
        AuthVerdict::Forbidden
    }
}

/// The verdict on a player's credentials at time `now`: the token must be
/// the one derived from the name and the timestamp, and the timestamp must
/// lie less than a minute from `now`.
pub fn check_credentials(name: &String, t: &String, token: &String, now: i128) -> (v: AuthVerdict)
    requires
        timestamp_usable(t@, now),
    ensures
        v == spec_verdict(
            now as int,
            spec_parse_i128(t@).unwrap() as int,
            token@,
            expected_token(name@, t@),
        ),
{
    let expected = decrypt_name_t(name.clone(), t.clone());
    let stamp = parse_i128(t.as_str());
    match stamp {
        Some(ts) => verdict(now, ts, token, &expected),
        // The precondition rules this out.
        None => AuthVerdict::Unauthorized,
    }
}

/// A request whose timestamp lies a minute or more from the server's clock
/// is refused as unauthorized, whatever token it carries.
pub proof fn stale_requests_are_unauthorized(now: int, t: int, token: Seq<char>, expected: Seq<char>)
    requires
        !fresh(now, t),
    ensures
        spec_verdict(now, t, token, expected) == AuthVerdict::Unauthorized,
{
}

/// Access is granted exactly to fresh requests that carry the expected
/// token; a fresh request with another token is forbidden.
pub proof fn granted_exactly_when_fresh_and_signed(now: int, t: int, token: Seq<char>, expected: Seq<char>)
    ensures
        (spec_verdict(now, t, token, expected) == AuthVerdict::Granted) <==> (fresh(now, t) && token == expected),
        (spec_verdict(now, t, token, expected) == AuthVerdict::Forbidden) <==> (fresh(now, t) && token != expected),
{
}

/// The window is symmetric: a timestamp ahead of the clock is judged like
/// one behind it by the same amount.
pub proof fn window_is_symmetric(now: int, d: int)
    ensures
        fresh(now, now + d) == fresh(now, now - d),
{
}

/// The answer that a verdict calls for before any lookup: 401 for a stale
/// request, 403 for a wrong token, nothing when access is granted.
pub open spec fn gate_reply(v: AuthVerdict, r: Option<HttpGetResponder>) -> bool {
    match v {
        AuthVerdict::Unauthorized => r matches Some(x) && x.is_message(401, "unauthorized"@),
        AuthVerdict::Forbidden => r matches Some(x) && x.is_message(403, "false"@),
        AuthVerdict::Granted => r is None,
    }
}

fn gate(v: AuthVerdict) -> (r: Option<HttpGetResponder>)
    ensures
        gate_reply(v, r),
        r matches Some(x) ==> x.consistent(),
{
    match v {
        AuthVerdict::Unauthorized => Some(null_401_http_get_responder()),
        AuthVerdict::Forbidden => Some(null_403_http_get_responder()),
        AuthVerdict::Granted => None,
    }
}

/// The largest number of whole milliseconds a `Duration` can hold: its
/// seconds are a `u64` and its fraction is below one second.
pub open spec fn max_duration_millis() -> int {
    18446744073709551615int * 1000 + 999
}

/// The server's clock in whole milliseconds since the Unix epoch, or nothing
/// when the clock reads earlier than the epoch (where there is no such
/// count to give). Which reading comes back rests on the clock alone.
pub fn getnewcurrent_timestamp() -> (now: Option<i128>)
    ensures
        now matches Some(x) ==> 0 <= x <= max_duration_millis(),
{
    let clock = system_time_now();
    match since_unix_epoch(&clock) {
        Ok(elapsed) => Some(duration_millis(&elapsed) as i128),
        Err(_) => None,
    }
}

#[verifier::external_type_specification]
#[verifier::external_body]
pub struct ExSystemTime(SystemTime);

#[verifier::external_type_specification]
#[verifier::external_body]
pub struct ExSystemTimeError(SystemTimeError);

/// `SystemTime::now`: the clock's reading, of which nothing is stated.
#[verifier::external_body]
fn system_time_now() -> SystemTime {
    SystemTime::now()
}

/// `SystemTime::duration_since(UNIX_EPOCH)`: the time elapsed since the
/// epoch, or an error when `t` lies before it. Nothing more is stated.
#[verifier::external_body]
fn since_unix_epoch(t: &SystemTime) -> Result<Duration, SystemTimeError> {
    t.duration_since(std::time::UNIX_EPOCH)
}

/// `Duration::as_millis`: the whole milliseconds of `d`. A `Duration` is
/// opaque here, so only the bound that its make-up gives is stated: whole
/// seconds that fit a `u64`, plus a fraction below one second.
#[verifier::external_body]
fn duration_millis(d: &Duration) -> (ms: u128)
    ensures
        ms <= max_duration_millis(),
{
    d.as_millis()
}

// ------------------------------------------------------------------------
// The handlers
// ------------------------------------------------------------------------

/// The next step of a request to `/getLoginChat`.
#[derive(Debug, Clone, PartialEq, Eq)]
pub enum LoginStep {
    /// Answer the request now.
    Reply(HttpGetResponder),
    /// Look up the player of this name and hand the result to
    /// [`login_chat_reply`].
    FetchPlayer(String),
}

/// The first step of `/getLoginChat` at time `now`: a stale or wrongly
/// signed request is answered at once; a granted one looks up the player.
pub fn get_login_chat(user: UserData, now: i128) -> (step: LoginStep)
    requires
        timestamp_usable(user.t@, now),
    ensures
        ({
            let v = spec_verdict(
                now as int,
                spec_parse_i128(user.t@).unwrap() as int,
                user.token@,
                expected_token(user.name@, user.t@),
            );
            match step {
                LoginStep::Reply(r) => v != AuthVerdict::Granted && gate_reply(v, Some(r))
                    && r.consistent(),
                LoginStep::FetchPlayer(name) => v == AuthVerdict::Granted && name@ == user.name@,
            }
        }),
{
    let v = check_credentials(&user.name, &user.t, &user.token, now);
    match gate(v) {
        Some(r) => LoginStep::Reply(r),
        None => LoginStep::FetchPlayer(user.name),
    }
}

/// The answer to a granted `/getLoginChat` request, given the lookup of the
/// player: the player's record, 404 when there is none, 500 when the
/// database failed.
pub fn login_chat_reply(lookup: Result<Option<Player>, DbError>) -> (r: HttpGetResponder)
    ensures
        r.consistent(),
        match lookup {
            Ok(Some(p)) => r.status == 200 && r.body == ReplyBody::Player(p),
            Ok(None) => r.is_message(404, "null"@),
            Err(_) => r.is_message(500, "null"@),
        },
{
    match lookup {
        Ok(Some(p)) => HttpGetResponder { status: 200, body: ReplyBody::Player(p) },
        Ok(None) => null_404_http_get_responder(),
        Err(_) => null_500_http_get_responder(),
    }
}

/// The next step of a request to `/getplayerall`.
#[derive(Debug, Clone, PartialEq, Eq)]
pub enum PlayerAllStep {
    /// Answer the request now.
    Reply(HttpGetResponder),
    /// Look up the requesting player and hand the result to
    /// [`getplayerall_player`].
    FetchPlayer(String),
    /// Load all players and hand the result to [`getplayerall_reply`].
    FetchAll,
}

/// The first step of `/getplayerall` at time `now`: a stale or wrongly
/// signed request is answered at once; a granted one looks up the player.
pub fn getplayerall(user: UserData, now: i128) -> (step: PlayerAllStep)
    requires
        timestamp_usable(user.t@, now),
    ensures
        ({
            let v = spec_verdict(
                now as int,
                spec_parse_i128(user.t@).unwrap() as int,
                user.token@,
                expected_token(user.name@, user.t@),
            );
            match step {
                PlayerAllStep::Reply(r) => v != AuthVerdict::Granted && gate_reply(v, Some(r))
                    && r.consistent(),
                PlayerAllStep::FetchPlayer(name) => v == AuthVerdict::Granted && name@ == user.name@,
                PlayerAllStep::FetchAll => false,
            }
        }),
{
    let v = check_credentials(&user.name, &user.t, &user.token, now);
    match gate(v) {
        Some(r) => PlayerAllStep::Reply(r),
        None => PlayerAllStep::FetchPlayer(user.name),
    }
}

/// The second step of `/getplayerall`, given the lookup of the requesting
/// player: only a known player may see the list; an unknown one gets 404,
/// and a failing database 500.
pub fn getplayerall_player(lookup: Result<Option<Player>, DbError>) -> (step: PlayerAllStep)
    ensures
        match lookup {
            Ok(Some(_)) => step == PlayerAllStep::FetchAll,
            Ok(None) => step matches PlayerAllStep::Reply(r) && r.is_message(404, "null"@),
            Err(_) => step matches PlayerAllStep::Reply(r) && r.is_message(500, "null"@),
        },
{
    match lookup {
        Ok(Some(_)) => PlayerAllStep::FetchAll,
        Ok(None) => PlayerAllStep::Reply(null_404_http_get_responder()),
        Err(_) => PlayerAllStep::Reply(null_500_http_get_responder()),
    }
}

/// The answer to `/getplayerall`, given the list of all players: the list,
/// 404 when it is empty, 500 when it could not be read.
pub fn getplayerall_reply(list: Result<Option<Players>, DbError>) -> (r: HttpGetResponder)
    ensures
        r.consistent(),
        match list {
            Ok(Some(all)) => r.status == 200 && r.body == ReplyBody::Players(all),
            Ok(None) => r.is_message(404, "null"@),
            Err(_) => r.is_message(500, "null"@),
        },
{
    match list {
        Ok(Some(all)) => HttpGetResponder { status: 200, body: ReplyBody::Players(all) },
        Ok(None) => null_404_http_get_responder(),
        Err(_) => null_500_http_get_responder(),
    }
}

/// The next step of a request to `/perm_mg`.
#[derive(Debug, Clone, PartialEq, Eq)]
pub enum PermStep {
    /// Answer the request now.
    Reply(HttpGetResponder),
    /// Look up the permission level of the player of this name and hand
    /// the result to [`perm_mg_grade`].
    FetchGrade(String),
    /// The player may make the change: read the request body again and
    /// hand it to [`perm_type_mg`].
    Dispatch,
    /// Add this permission level; hand the outcome to [`perm_db_reply`].
    Insert(UserDataPerm),
    /// Delete this permission level; hand the outcome to [`perm_db_reply`].
    Delete(UserDataPerm),
    /// Rename this permission level; hand the outcome to [`perm_db_reply`].
    Update(UserDataPerm),
}

/// What [`perm_mg`] answers for `user` at time `now`.
pub open spec fn perm_mg_post(user: UserDataPerm, now: i128, step: PermStep) -> bool {
    let v = spec_verdict(
        now as int,
        spec_parse_i128(user.t@).unwrap() as int,
        user.token@,
        expected_token(user.name@, user.t@),
    );
    match step {
        PermStep::Reply(r) => v != AuthVerdict::Granted && gate_reply(v, Some(r)) && r.consistent(),
        PermStep::FetchGrade(name) => v == AuthVerdict::Granted && name@ == user.name@,
        _ => false,
    }
}

/// What [`perm_mg_grade`] answers for the requester's level `grade` and the
/// level `perm_int` to be managed.
pub open spec fn perm_mg_grade_post(grade: Result<Option<u128>, DbError>, perm_int: u128, step: PermStep) -> bool {
    match grade {
        Ok(Some(g)) => if perm_int < g {
            step == PermStep::Dispatch
        } else {
            step matches PermStep::Reply(r) && r.is_message(403, "false"@)
        },
        Ok(None) => step matches PermStep::Reply(r) && r.is_message(404, "null"@),
        Err(_) => step matches PermStep::Reply(r) && r.is_message(500, "null"@),
    }
}

/// What [`perm_type_mg`] answers for the body read again and the kind of
/// change.
pub open spec fn perm_type_mg_post(data: Option<UserDataPerm>, typestr: Seq<char>, step: PermStep) -> bool {
    match data {
        None => step matches PermStep::Reply(r) && r.is_message(500, "null"@),
        Some(d) => if typestr == "add"@ {
            step == PermStep::Insert(d)
        } else if typestr == "remove"@ {
            step == PermStep::Delete(d)
        } else if typestr == "updata"@ {
            step == PermStep::Update(d)
        } else {
            step matches PermStep::Reply(r) && r.is_message(500, "null"@)
        },
    }
}

/// What [`perm_db_reply`] answers once the change was tried.
pub open spec fn perm_db_reply_post(outcome: Result<(), DbError>, r: HttpGetResponder) -> bool {
    &&& r.consistent()
    &&& match outcome {
        Ok(()) => r.is_message(200, "true"@),
        Err(_) => r.is_message(500, "null"@),
    }
}

/// Over a `/perm_mg` request, every answer given before a change is tried
/// is a refusal (not 200), and the final answer is 200 exactly when the
/// database carried the change out: a request that is not answered 200
/// leaves the permission table as it was.
pub proof fn perm_answered_ok_only_after_a_change(
    user: UserDataPerm,
    now: i128,
    grade: Result<Option<u128>, DbError>,
    data: Option<UserDataPerm>,
    typestr: Seq<char>,
    outcome: Result<(), DbError>,
    step: PermStep,
    r: HttpGetResponder,
)
    ensures
        (perm_mg_post(user, now, step) || perm_mg_grade_post(grade, user.perm_int, step)
            || perm_type_mg_post(data, typestr, step)) && step == PermStep::Reply(r) ==> r.status != 200,
        perm_db_reply_post(outcome, r) ==> (r.status == 200 <==> outcome is Ok),
{
}

/// A permission level is only ever changed on a granted request of a
/// player whose own level lies strictly above it, and the change carries
/// exactly the request body that was read again.
pub proof fn perm_changes_only_lower_levels(
    user: UserDataPerm,
    now: i128,
    name: String,
    grade: Result<Option<u128>, DbError>,
    data: Option<UserDataPerm>,
    typestr: Seq<char>,
    change: PermStep,
)
    requires
        perm_mg_post(user, now, PermStep::FetchGrade(name)),
        perm_mg_grade_post(grade, user.perm_int, PermStep::Dispatch),
        perm_type_mg_post(data, typestr, change),
        change matches PermStep::Insert(_) || change matches PermStep::Delete(_)
            || change matches PermStep::Update(_),
    ensures
        spec_verdict(
            now as int,
            spec_parse_i128(user.t@).unwrap() as int,
            user.token@,
            expected_token(user.name@, user.t@),
        ) == AuthVerdict::Granted,
        name@ == user.name@,
        grade matches Ok(Some(g)) && user.perm_int < g,
        data matches Some(d) && (change == PermStep::Insert(d) || change == PermStep::Delete(d)
            || change == PermStep::Update(d)),
{
}

/// A fresh request that carries the expected token always goes on to the
/// requester's level, under the requester's name, whatever kind of change
/// (`add`, `remove`, `updata` or another) and whatever level it names; only
/// a stale or wrongly signed request is answered before that, with 401 or
/// 403.
pub proof fn signed_permission_requests_reach_the_level_check(user: UserDataPerm, now: i128, step: PermStep)
    requires
        perm_mg_post(user, now, step),
    ensures
        fresh(now as int, spec_parse_i128(user.t@).unwrap() as int)
            && user.token@ == expected_token(user.name@, user.t@)
            ==> (step matches PermStep::FetchGrade(name) && name@ == user.name@),
        !fresh(now as int, spec_parse_i128(user.t@).unwrap() as int)
            ==> (step matches PermStep::Reply(r) && r.is_message(401, "unauthorized"@)),
        fresh(now as int, spec_parse_i128(user.t@).unwrap() as int)
            && user.token@ != expected_token(user.name@, user.t@)
            ==> (step matches PermStep::Reply(r) && r.is_message(403, "false"@)),
{
}

/// Once a player may make a change, the change named by the request is the
/// one made, with the request exactly as read: `add` inserts, `remove`
/// deletes and `updata` renames that level.
pub proof fn permission_changes_follow_their_kind(data: Option<UserDataPerm>, typestr: Seq<char>, step: PermStep)
    requires
        perm_type_mg_post(data, typestr, step),
        data is Some,
    ensures
        typestr == "add"@ ==> step == PermStep::Insert(data.unwrap()),
        typestr == "remove"@ ==> step == PermStep::Delete(data.unwrap()),
        typestr == "updata"@ ==> step == PermStep::Update(data.unwrap()),
{
    reveal_strlit("add");
    reveal_strlit("remove");
    reveal_strlit("updata");
    assert("add"@.len() != "remove"@.len());
    assert("add"@.len() != "updata"@.len());
    assert("remove"@[0] != "updata"@[0]);
}

/// A player may manage exactly the levels strictly below its own: with a
/// known level `g`, the change goes ahead when `perm_int < g` and is
/// refused 403 otherwise.
pub proof fn only_lower_levels_go_ahead(grade: Result<Option<u128>, DbError>, perm_int: u128, step: PermStep)
    requires
        perm_mg_grade_post(grade, perm_int, step),
    ensures
        forall|g: u128| grade == Ok::<Option<u128>, DbError>(Some(g)) ==> ((step == PermStep::Dispatch) <==> perm_int < g),
        forall|g: u128| grade == Ok::<Option<u128>, DbError>(Some(g)) && g <= perm_int
            ==> (step matches PermStep::Reply(r) && r.is_message(403, "false"@)),
{
}

/// The first step of `/perm_mg` at time `now`: a stale or wrongly signed
/// request is answered at once; a granted one looks up the player's level.
pub fn perm_mg(user: UserDataPerm, now: i128) -> (step: PermStep)
    requires
        timestamp_usable(user.t@, now),
    ensures
        perm_mg_post(user, now, step),
{
    let v = check_credentials(&user.name, &user.t, &user.token, now);
    match gate(v) {
        Some(r) => PermStep::Reply(r),
        None => PermStep::FetchGrade(user.name),
    }
}

/// The second step of `/perm_mg`, given the requesting player's level: a
/// player may only manage levels strictly below its own (403 otherwise);
/// an unknown player gets 404 and a failing database 500.
pub fn perm_mg_grade(grade: Result<Option<u128>, DbError>, perm_int: u128) -> (step: PermStep)
    ensures
        perm_mg_grade_post(grade, perm_int, step),
{
    match grade {
        Ok(Some(g)) => {
            if perm_int < g {
                PermStep::Dispatch
            } else {
                PermStep::Reply(null_403_http_get_responder())
            }
        },
        Ok(None) => PermStep::Reply(null_404_http_get_responder()),
        Err(_) => PermStep::Reply(null_500_http_get_responder()),
    }
}

/// The change that `/perm_mg` asks for, given the request body read again
/// (nothing when it does not parse) and the kind of change from the first
/// reading: `add`, `remove` or `updata`; anything else is answered 500.
pub fn perm_type_mg(data: Option<UserDataPerm>, typestr: &str) -> (step: PermStep)
    ensures
        perm_type_mg_post(data, typestr@, step),
{
    match data {
        None => PermStep::Reply(null_500_http_get_responder()),
        Some(d) => {
            if same_text(typestr, "add") {
                PermStep::Insert(d)
            } else if same_text(typestr, "remove") {
                PermStep::Delete(d)
            } else if same_text(typestr, "updata") {
                PermStep::Update(d)
            } else {
                PermStep::Reply(null_500_http_get_responder())
            }
        },
    }
}

/// The answer to `/perm_mg` once the change was tried: 200 when it was
/// carried out, 500 when the database refused it.
pub fn perm_db_reply(outcome: Result<(), DbError>) -> (r: HttpGetResponder)
    ensures
        perm_db_reply_post(outcome, r),
{
    match outcome {
        Ok(()) => null_200_http_get_responder(),
        Err(_) => null_500_http_get_responder(),
    }
}

} // verus!
