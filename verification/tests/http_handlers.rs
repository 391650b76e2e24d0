use synchronizer::http_server::{
    check_credentials, get_login_chat, get_permissions, getnewcurrent_timestamp, getplayerall,
    getplayerall_player, getplayerall_reply, login_chat_reply, not_found, null_200_http_get_responder,
    null_401_http_get_responder, null_403_http_get_responder, null_404_http_get_responder,
    null_500_http_get_responder, perm_db_reply, perm_mg, perm_mg_grade, perm_type_mg, verdict,
    AuthVerdict, HttpGetResponder, LoginStep, PermStep, PlayerAllStep, ReplyBody, Response,
};
use synchronizer::ser_config::{Player, Players, UserData, UserDataPerm};
use synchronizer::server::mysql_util::DbError;

fn message(status: u16, text: &str) -> HttpGetResponder {
    HttpGetResponder {
        status,
        body: ReplyBody::Message(Response { code: status as u32, message: text.to_string() }),
    }
}

fn player(name: &str, perm: &str) -> Player {
    Player {
        pl_xuid: "2535447156610197".to_string(),
        pl_name: name.to_string(),
        pl_llmoney: 18889699,
        pl_ip: "127.0.0.1:19137".to_string(),
        pl_online: 1,
        pl_server_name: "server-1".to_string(),
        pl_device: "Win10".to_string(),
        permission_name: perm.to_string(),
        online_time: 0,
    }
}

fn user(name: &str, t: &str, token: &str) -> UserData {
    UserData { name: name.to_string(), t: t.to_string(), token: token.to_string() }
}

const ALICE_TOKEN: &str = "53fd7b9198fce6b606fdab5d95aa310d";

#[test]
fn fixed_replies_carry_status_and_word() {
    assert_eq!(null_404_http_get_responder(), message(404, "null"));
    assert_eq!(null_403_http_get_responder(), message(403, "false"));
    assert_eq!(null_200_http_get_responder(), message(200, "true"));
    assert_eq!(null_500_http_get_responder(), message(500, "null"));
    assert_eq!(null_401_http_get_responder(), message(401, "unauthorized"));
}

#[test]
fn not_found_names_the_path() {
    let page = not_found("/nowhere");
    assert_eq!(
        page,
        "Sorry, \n'/nowhere' is not a valid path.\n默认  文档地址：https://github.com/banchen19/SynchronizerMC/blob/master/book.md"
    );
}

#[test]
fn permissions_of_known_player() {
    let r = get_permissions(Ok(Some(player("banchen21", "bds"))));
    assert_eq!(r, message(200, "bds"));
}

#[test]
fn permissions_of_unknown_player_or_failure() {
    assert_eq!(get_permissions(Ok(None)), message(404, "null"));
    assert_eq!(get_permissions(Err(DbError)), message(404, "null"));
}

#[test]
fn verdict_on_timestamps_and_tokens() {
    let tok = "abc".to_string();
    let other = "abd".to_string();
    assert_eq!(verdict(100_000, 0, &tok, &tok), AuthVerdict::Unauthorized);
    assert_eq!(verdict(0, 100_000, &tok, &tok), AuthVerdict::Unauthorized);
    assert_eq!(verdict(60_000, 0, &tok, &tok), AuthVerdict::Unauthorized);
    assert_eq!(verdict(59_999, 0, &tok, &tok), AuthVerdict::Granted);
    assert_eq!(verdict(0, 59_999, &tok, &tok), AuthVerdict::Granted);
    assert_eq!(verdict(10, 0, &other, &tok), AuthVerdict::Forbidden);
    assert_eq!(verdict(100_000, 0, &other, &tok), AuthVerdict::Unauthorized);
}

#[test]
fn credentials_use_the_md5_of_name_and_timestamp() {
    let name = "alice".to_string();
    let t = "1000".to_string();
    assert_eq!(check_credentials(&name, &t, &ALICE_TOKEN.to_string(), 1000), AuthVerdict::Granted);
    assert_eq!(check_credentials(&name, &t, &"wrong".to_string(), 1000), AuthVerdict::Forbidden);
    assert_eq!(check_credentials(&name, &t, &ALICE_TOKEN.to_string(), 70_000), AuthVerdict::Unauthorized);
}

#[test]
fn signed_timestamp_text_is_read_with_its_sign() {
    let name = "alice".to_string();
    let t = "+1000".to_string();
    let token = "638d473fa87d71f4a9029f0a54d035b0".to_string();
    assert_eq!(check_credentials(&name, &t, &token, 1500), AuthVerdict::Granted);
    assert_eq!(check_credentials(&name, &"-1000".to_string(), &token, 1500), AuthVerdict::Forbidden);
}

#[test]
fn login_chat_steps() {
    assert_eq!(
        get_login_chat(user("alice", "1000", ALICE_TOKEN), 2000),
        LoginStep::FetchPlayer("alice".to_string())
    );
    assert_eq!(get_login_chat(user("alice", "1000", "nope"), 2000), LoginStep::Reply(message(403, "false")));
    assert_eq!(
        get_login_chat(user("alice", "1000", ALICE_TOKEN), 1_000_000),
        LoginStep::Reply(message(401, "unauthorized"))
    );
    let p = player("alice", "bds");
    assert_eq!(
        login_chat_reply(Ok(Some(p.clone()))),
        HttpGetResponder { status: 200, body: ReplyBody::Player(p) }
    );
    assert_eq!(login_chat_reply(Ok(None)), message(404, "null"));
    assert_eq!(login_chat_reply(Err(DbError)), message(500, "null"));
}

#[test]
fn player_list_steps() {
    assert_eq!(
        getplayerall(user("alice", "1000", ALICE_TOKEN), 1000),
        PlayerAllStep::FetchPlayer("alice".to_string())
    );
    assert_eq!(getplayerall(user("alice", "1000", "x"), 1000), PlayerAllStep::Reply(message(403, "false")));
    assert_eq!(getplayerall_player(Ok(Some(player("alice", "bds")))), PlayerAllStep::FetchAll);
    assert_eq!(getplayerall_player(Ok(None)), PlayerAllStep::Reply(message(404, "null")));
    assert_eq!(getplayerall_player(Err(DbError)), PlayerAllStep::Reply(message(500, "null")));
    let all = Players { players: vec![player("xiao", "bds"), player("banchen21", "root")] };
    assert_eq!(
        getplayerall_reply(Ok(Some(all.clone()))),
        HttpGetResponder { status: 200, body: ReplyBody::Players(all) }
    );
    assert_eq!(getplayerall_reply(Ok(None)), message(404, "null"));
    assert_eq!(getplayerall_reply(Err(DbError)), message(500, "null"));
}

fn perm_request(typestr: &str, level: u128) -> UserDataPerm {
    UserDataPerm {
        name: "alice".to_string(),
        t: "1000".to_string(),
        token: ALICE_TOKEN.to_string(),
        typestr: typestr.to_string(),
        perm_int: level,
        perm_str: "chat".to_string(),
    }
}

#[test]
fn permission_management_steps() {
    assert_eq!(perm_mg(perm_request("add", 2), 1000), PermStep::FetchGrade("alice".to_string()));
    let mut bad = perm_request("add", 2);
    bad.token = "bad".to_string();
    assert_eq!(perm_mg(bad, 1000), PermStep::Reply(message(403, "false")));
    assert_eq!(perm_mg(perm_request("add", 2), -100_000), PermStep::Reply(message(401, "unauthorized")));
}

#[test]
fn only_lower_levels_can_be_managed() {
    assert_eq!(perm_mg_grade(Ok(Some(99)), 2), PermStep::Dispatch);
    assert_eq!(perm_mg_grade(Ok(Some(2)), 2), PermStep::Reply(message(403, "false")));
    assert_eq!(perm_mg_grade(Ok(Some(1)), 2), PermStep::Reply(message(403, "false")));
    assert_eq!(perm_mg_grade(Ok(None), 2), PermStep::Reply(message(404, "null")));
    assert_eq!(perm_mg_grade(Err(DbError), 2), PermStep::Reply(message(500, "null")));
}

#[test]
fn kinds_of_permission_change() {
    let d = perm_request("add", 2);
    assert_eq!(perm_type_mg(Some(d.clone()), "add"), PermStep::Insert(d.clone()));
    assert_eq!(perm_type_mg(Some(d.clone()), "remove"), PermStep::Delete(d.clone()));
    assert_eq!(perm_type_mg(Some(d.clone()), "updata"), PermStep::Update(d.clone()));
    assert_eq!(perm_type_mg(Some(d.clone()), "update"), PermStep::Reply(message(500, "null")));
    assert_eq!(perm_type_mg(None, "add"), PermStep::Reply(message(500, "null")));
    assert_eq!(perm_db_reply(Ok(())), message(200, "true"));
    assert_eq!(perm_db_reply(Err(DbError)), message(500, "null"));
}

#[test]
fn clock_reads_after_the_epoch() {
    let now = getnewcurrent_timestamp().expect("clock before the epoch");
    assert!(now > 1_600_000_000_000);
}
