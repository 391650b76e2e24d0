use synchronizer::ser_config::{Player, WsData};
use synchronizer::server::mysql_util::DbError;
use synchronizer::server::ws_server::{
    join_broadcast, on_chat, on_chat_payload, on_join_insert, on_join_payload, on_leave_payload, on_message,
    ChatData, Connections, DataChat, Person, WsStep,
};

fn msg(key: &str, typestr: &str, data: &str) -> Option<WsData> {
    Some(WsData { key: key.to_string(), typestr: typestr.to_string(), data: data.to_string() })
}

fn player(name: &str, perm: &str) -> Player {
    Player {
        pl_xuid: "1".to_string(),
        pl_name: name.to_string(),
        pl_llmoney: 0,
        pl_ip: "127.0.0.1".to_string(),
        pl_online: 1,
        pl_server_name: "s".to_string(),
        pl_device: "Win10".to_string(),
        permission_name: perm.to_string(),
        online_time: 0,
    }
}

#[test]
fn connections_open_and_close() {
    let mut c: Connections<&str> = Connections::new();
    c.on_open(1, "a");
    c.on_open(2, "b");
    c.on_open(1, "c");
    c.on_open(3, "d");
    assert_eq!(c.len(), 4);
    c.on_close(1);
    assert_eq!(c.entries(), &vec![(2, "b"), (3, "d")]);
    c.on_close(1);
    assert_eq!(c.entries(), &vec![(2, "b"), (3, "d")]);
    c.on_close(9);
    assert_eq!(c.len(), 2);
    c.on_close(2);
    c.on_close(3);
    assert_eq!(c.len(), 0);
}

#[test]
fn messages_with_a_wrong_key_close_the_connection() {
    let key = "secret".to_string();
    assert_eq!(on_message(msg("other", "chat", "{}"), &key), WsStep::Close);
    assert_eq!(on_message(None, &key), WsStep::Close);
}

#[test]
fn messages_are_routed_by_kind() {
    let key = "secret".to_string();
    assert_eq!(on_message(msg("secret", "chat", "c"), &key), WsStep::DecodeChat("c".to_string()));
    assert_eq!(on_message(msg("secret", "onJoin_player", "j"), &key), WsStep::DecodeJoin("j".to_string()));
    assert_eq!(on_message(msg("secret", "updata", "u"), &key), WsStep::DecodeLeave("u".to_string()));
    assert_eq!(on_message(msg("secret", "bogus", "x"), &key), WsStep::Close);
}

#[test]
fn payload_steps() {
    let chat = DataChat { player_name: "alice".to_string(), perm: "null".to_string(), chat: "hi".to_string() };
    assert_eq!(on_chat_payload(None), WsStep::Close);
    assert_eq!(on_chat_payload(Some(chat.clone())), WsStep::FetchSender(chat));
    assert_eq!(on_join_payload(None), WsStep::Close);
    assert_eq!(on_join_payload(Some(player("a", "bds"))), WsStep::InsertPlayer(player("a", "bds")));
    assert_eq!(on_leave_payload(None), WsStep::Ignore);
    assert_eq!(on_leave_payload(Some(player("a", "bds"))), WsStep::LeftUpdate(player("a", "bds")));
    assert_eq!(on_join_insert(Ok(()), player("a", "bds")), WsStep::Ignore);
    assert_eq!(on_join_insert(Err(DbError), player("a", "bds")), WsStep::UpdateAndFetch(player("a", "bds")));
}

#[test]
fn broadcasts() {
    let chat = DataChat { player_name: "alice".to_string(), perm: "null".to_string(), chat: "hi".to_string() };
    assert_eq!(
        on_chat(Ok(Some(player("alice", "root"))), chat.clone()),
        Person { typestr: "chat".to_string(), perm: "root".to_string(), data: ChatData::Text("hi".to_string()) }
    );
    assert_eq!(
        on_chat(Ok(None), chat.clone()),
        Person { typestr: "chat".to_string(), perm: "null".to_string(), data: ChatData::Text("hi".to_string()) }
    );
    assert_eq!(
        on_chat(Err(DbError), chat),
        Person { typestr: "chat".to_string(), perm: "null".to_string(), data: ChatData::Text("hi".to_string()) }
    );
    assert_eq!(
        join_broadcast(Ok(Some(player("a", "bds")))),
        Person { typestr: "updata".to_string(), perm: "null".to_string(), data: ChatData::Record(player("a", "bds")) }
    );
    assert_eq!(
        join_broadcast(Err(DbError)),
        Person { typestr: "updata".to_string(), perm: "null".to_string(), data: ChatData::Text("null".to_string()) }
    );
}
