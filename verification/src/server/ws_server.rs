//! The WebSocket protocol with the game servers: who is connected, which
//! messages are accepted, and what is broadcast in answer.
//!
//! The caller owns the sockets and the database; the functions here decide,
//! step by step, what to do with each message.
use vstd::prelude::*;
use crate::ser_config::{Player, WsData};
use crate::server::mysql_util::DbError;
use crate::text::same_text;

verus! {

/// The open connections, each under its connection id, in the order in
/// which they were opened.
pub struct Connections<T> {
    entries: Vec<(u32, T)>,
}

/// Whether an entry does not belong to connection `id`.
pub open spec fn other_than<T>(id: u32) -> spec_fn((u32, T)) -> bool {
    |e: (u32, T)| e.0 != id
}

impl<T> View for Connections<T> {
    type V = Seq<(u32, T)>;

    closed spec fn view(&self) -> Seq<(u32, T)> {
        self.entries@
    }
}

impl<T> Connections<T> {
    /// No connection yet.
    pub fn new() -> (c: Self)
        ensures
            c@ == Seq::<(u32, T)>::empty(),
    {
        Connections { entries: Vec::new() }
    }

    /// Records a newly opened connection after the others.
    pub fn on_open(&mut self, id: u32, conn: T)
        ensures
            final(self)@ == old(self)@.push((id, conn)),
    {
        self.entries.push((id, conn));
    }

    /// Forgets every entry of the closed connection `id`, keeping the
    /// others in their order.
    pub fn on_close(&mut self, id: u32)
        ensures
            final(self)@ == old(self)@.filter(other_than::<T>(id)),
    {
        let ghost orig = self.entries@;
        let mut rest: Vec<(u32, T)> = Vec::new();
        std::mem::swap(&mut rest, &mut self.entries);
        let mut kept: Vec<(u32, T)> = Vec::new();
        let ghost mut k: int = 0;
        assert(orig.take(0) =~= Seq::<(u32, T)>::empty());
        assert(orig.skip(0) =~= orig);
        proof {
            reveal(Seq::filter);
        }
        while rest.len() > 0
            invariant
                0 <= k <= orig.len(),
                rest@ == orig.skip(k),
                kept@ == orig.take(k).filter(other_than::<T>(id)),
            decreases rest.len(),
        {
            let e = rest.remove(0);
            proof {
                assert(e == orig[k]);
                assert(orig.take(k + 1) =~= orig.take(k).push(orig[k]));
                orig.take(k).lemma_filter_push(orig[k], other_than::<T>(id));
                assert(orig.skip(k + 1) =~= orig.skip(k).remove(0));
                k = k + 1;
            }
            if e.0 != id {
                kept.push(e);
            }
        }
        assert(orig.take(k) =~= orig);
        self.entries = kept;
    }

    /// The open connections, in the order in which they were opened.
    pub fn entries(&self) -> (r: &Vec<(u32, T)>)
        ensures
            r@ == self@,
    {
        &self.entries
    }

    /// The number of open connections.
    pub fn len(&self) -> (n: usize)
        ensures
            n == self@.len(),
    {
        self.entries.len()
    }
}

/// Closing a connection forgets it entirely: no entry of connection `id`
/// is left after `on_close(id)`.
pub proof fn closed_connection_is_gone<T>(s: Seq<(u32, T)>, id: u32)
    ensures
        forall|i: int|
            0 <= i < s.filter(other_than::<T>(id)).len()
                ==> (#[trigger] s.filter(other_than::<T>(id))[i]).0 != id,
{
    assert forall|i: int| 0 <= i < s.filter(other_than::<T>(id)).len() implies
        (#[trigger] s.filter(other_than::<T>(id))[i]).0 != id by {
        s.lemma_filter_pred(other_than::<T>(id), i);
    }
}

/// Closing a connection keeps every other one: an entry of another
/// connection is still there after `on_close(id)`.
pub proof fn other_connections_stay<T>(s: Seq<(u32, T)>, id: u32, i: int)
    requires
        0 <= i < s.len(),
        s[i].0 != id,
    ensures
        s.filter(other_than::<T>(id)).contains(s[i]),
{
    s.lemma_filter_contains(other_than::<T>(id), i);
}

/// Opening a connection under an id that is not in use and closing it again
/// leaves the connections as they were.
pub proof fn open_then_close_restores<T>(s: Seq<(u32, T)>, id: u32, conn: T)
    requires
        forall|i: int| 0 <= i < s.len() ==> (#[trigger] s[i]).0 != id,
    ensures
        s.push((id, conn)).filter(other_than::<T>(id)) == s,
{
    s.lemma_filter_push((id, conn), other_than::<T>(id));
    filter_keeps_all(s, id);
}

/// Closing the same connection twice is the same as closing it once.
pub proof fn close_is_idempotent<T>(s: Seq<(u32, T)>, id: u32)
    ensures
        s.filter(other_than::<T>(id)).filter(other_than::<T>(id)) == s.filter(other_than::<T>(id)),
{
    closed_connection_is_gone(s, id);
    filter_keeps_all(s.filter(other_than::<T>(id)), id);
}

proof fn filter_keeps_all<T>(s: Seq<(u32, T)>, id: u32)
    requires
        forall|i: int| 0 <= i < s.len() ==> (#[trigger] s[i]).0 != id,
    ensures
        s.filter(other_than::<T>(id)) == s,
    decreases s.len(),
{
    if s.len() > 0 {
        let init = s.drop_last();
        assert forall|i: int| 0 <= i < init.len() implies (#[trigger] init[i]).0 != id by {
            assert(init[i] == s[i]);
        }
        filter_keeps_all(init, id);
        assert(s =~= init.push(s.last()));
        init.lemma_filter_push(s.last(), other_than::<T>(id));
    } else {
        reveal(Seq::filter);
    }
}

/// An opening or a closing of a connection, as the registry sees it.
pub enum ConnEvent<T> {
    Open(u32, T),
    Closed(u32),
}

/// What a registry made with [`Connections::new`] holds after `events`
/// were handed, in order, to [`Connections::on_open`] and
/// [`Connections::on_close`].
pub open spec fn registry_after<T>(events: Seq<ConnEvent<T>>) -> Seq<(u32, T)>
    decreases events.len(),
{
    if events.len() == 0 {
        Seq::empty()
    } else {
        let before = registry_after(events.drop_last());
        match events.last() {
            ConnEvent::Open(id, conn) => before.push((id, conn)),
            ConnEvent::Closed(id) => before.filter(other_than::<T>(id)),
        }
    }
}

/// A broadcast reaches every game server that is connected: a connection
/// opened and not closed since is among the registry's entries, to each of
/// which a broadcast is sent.
pub proof fn open_connections_are_reached<T>(events: Seq<ConnEvent<T>>, i: int, id: u32, conn: T)
    requires
        0 <= i < events.len(),
        events[i] == ConnEvent::Open(id, conn),
        forall|j: int| i < j < events.len() ==> !(#[trigger] events[j] matches ConnEvent::Closed(k) && k == id),
    ensures
        registry_after(events).contains((id, conn)),
    decreases events.len(),
{
    let init = events.drop_last();
    if i == events.len() - 1 {
        assert(registry_after(events) == registry_after(init).push((id, conn)));
        assert(registry_after(events)[registry_after(init).len() as int] == (id, conn));
    } else {
        assert forall|j: int| i < j < init.len() implies !(#[trigger] init[j] matches ConnEvent::Closed(k) && k == id) by {
            assert(init[j] == events[j]);
        }
        assert(init[i] == events[i]);
        open_connections_are_reached(init, i, id, conn);
        let before = registry_after(init);
        let k = choose|k: int| 0 <= k < before.len() && before[k] == (id, conn);
        match events.last() {
            ConnEvent::Open(id2, conn2) => {
                assert(registry_after(events) == before.push((id2, conn2)));
                assert(registry_after(events)[k] == (id, conn));
            },
            ConnEvent::Closed(id2) => {
                assert(events[events.len() - 1] == events.last());
                assert(id2 != id);
                assert(registry_after(events) == before.filter(other_than::<T>(id2)));
                other_connections_stay(before, id2, k);
            },
        }
    }
}

/// A chat line sent by a game server: who said it, the group the game
/// server believes the speaker is in, and what was said.
#[derive(Debug, Clone, PartialEq, Eq)]
pub struct DataChat {
    pub player_name: String,
    pub perm: String,
    pub chat: String,
}

/// The payload of a broadcast: plain text, or a player's record.
#[derive(Debug, Clone, PartialEq, Eq)]
pub enum ChatData {
    Text(String),
    Record(Player),
}

/// A broadcast to every connected game server: its kind, the permission
/// group of the player concerned, and the payload.
#[derive(Debug, Clone, PartialEq, Eq)]
pub struct Person {
    pub typestr: String,
    pub perm: String,
    pub data: ChatData,
}

/// What to do next with a message from a game server.
#[derive(Debug, Clone, PartialEq, Eq)]
pub enum WsStep {
    /// Close the sender's connection with code 404.
    Close,
    /// Nothing more to do.
    Ignore,
    /// Decode this payload as a [`DataChat`] and hand it to [`on_chat_payload`].
    DecodeChat(String),
    /// Decode this payload as a [`Player`] and hand it to [`on_join_payload`].
    DecodeJoin(String),
    /// Decode this payload as a [`Player`] and hand it to [`on_leave_payload`].
    DecodeLeave(String),
    /// Look up the permission group of the sender and hand it, with the
    /// line, to [`on_chat`].
    FetchSender(DataChat),
    /// Insert this new player and hand the outcome to [`on_join_insert`].
    InsertPlayer(Player),
    /// Update this player's record, look the player up by name, and hand
    /// the lookup to [`join_broadcast`].
    UpdateAndFetch(Player),
    /// Store this player's state at leaving.
    LeftUpdate(Player),
}

/// The first step for a message from a game server (see [`on_message`]).
pub open spec fn spec_on_message(msg: Option<WsData>, key: Seq<char>) -> WsStep {
    match msg {
        None => WsStep::Close,
        Some(m) => if m.key@ != key {
            WsStep::Close
        } else if m.typestr@ == "chat"@ {
            WsStep::DecodeChat(m.data)
        } else if m.typestr@ == "onJoin_player"@ {
            WsStep::DecodeJoin(m.data)
        } else if m.typestr@ == "updata"@ {
            WsStep::DecodeLeave(m.data)
        } else {
            WsStep::Close
        },
    }
}

/// The step after decoding a chat payload (see [`on_chat_payload`]).
pub open spec fn spec_on_chat_payload(chat: Option<DataChat>) -> WsStep {
    match chat {
        None => WsStep::Close,
        Some(c) => WsStep::FetchSender(c),
    }
}

/// The step after decoding a joining player (see [`on_join_payload`]).
pub open spec fn spec_on_join_payload(player: Option<Player>) -> WsStep {
    match player {
        None => WsStep::Close,
        Some(p) => WsStep::InsertPlayer(p),
    }
}

/// The step after decoding a leaving player (see [`on_leave_payload`]).
pub open spec fn spec_on_leave_payload(player: Option<Player>) -> WsStep {
    match player {
        None => WsStep::Ignore,
        Some(p) => WsStep::LeftUpdate(p),
    }
}

/// The step after inserting a joining player (see [`on_join_insert`]).
pub open spec fn spec_on_join_insert(inserted: Result<(), DbError>, player: Player) -> WsStep {
    match inserted {
        Ok(()) => WsStep::Ignore,
        Err(_) => WsStep::UpdateAndFetch(player),
    }
}

/// What carrying out a step does to the outside world.
#[derive(Debug, Clone, Copy, PartialEq, Eq)]
pub enum WsEffect {
    /// The sender's connection is closed.
    Close,
    /// A message is sent to every open connection.
    Broadcast,
    /// A player is inserted into the database.
    InsertPlayer,
    /// A player's record is updated.
    UpdatePlayer,
    /// A leaving player's state is stored.
    StoreLeaving,
}

/// How many decisions may still follow a step.
pub open spec fn step_rank(step: WsStep) -> nat {
    match step {
        WsStep::DecodeChat(_) => 2,
        WsStep::DecodeJoin(_) => 2,
        WsStep::DecodeLeave(_) => 2,
        WsStep::InsertPlayer(_) => 1,
        _ => 0,
    }
}

/// The effects, in order, of carrying out `step` and the steps after it,
/// when a chat payload decodes to `chat`, a player payload to `player`, and
/// inserting a player ends in `inserted`.
pub open spec fn follow(
    step: WsStep,
    chat: Option<DataChat>,
    player: Option<Player>,
    inserted: Result<(), DbError>,
) -> Seq<WsEffect>
    decreases step_rank(step),
{
    match step {
        WsStep::Close => seq![WsEffect::Close],
        WsStep::Ignore => Seq::empty(),
        WsStep::DecodeChat(_) => follow(spec_on_chat_payload(chat), chat, player, inserted),
        WsStep::DecodeJoin(_) => follow(spec_on_join_payload(player), chat, player, inserted),
        WsStep::DecodeLeave(_) => follow(spec_on_leave_payload(player), chat, player, inserted),
        WsStep::FetchSender(_) => seq![WsEffect::Broadcast],
        WsStep::InsertPlayer(p) => seq![WsEffect::InsertPlayer] + follow(
            spec_on_join_insert(inserted, p),
            chat,
            player,
            inserted,
        ),
        WsStep::UpdateAndFetch(_) => seq![WsEffect::UpdatePlayer, WsEffect::Broadcast],
        WsStep::LeftUpdate(_) => seq![WsEffect::StoreLeaving],
    }
}

/// The effects of handling one message `msg` on a server whose key is `key`.
pub open spec fn message_run(
    msg: Option<WsData>,
    key: Seq<char>,
    chat: Option<DataChat>,
    player: Option<Player>,
    inserted: Result<(), DbError>,
) -> Seq<WsEffect> {
    follow(spec_on_message(msg, key), chat, player, inserted)
}

/// Handling a message closes the connection at most once, and a message
/// that closes it does nothing else: nothing is stored and nothing is sent.
pub proof fn a_closing_message_does_nothing_else(
    msg: Option<WsData>,
    key: Seq<char>,
    chat: Option<DataChat>,
    player: Option<Player>,
    inserted: Result<(), DbError>,
)
    ensures
        message_run(msg, key, chat, player, inserted).contains(WsEffect::Close)
            ==> message_run(msg, key, chat, player, inserted) == seq![WsEffect::Close],
{
    reveal_with_fuel(follow, 3);
    let run = message_run(msg, key, chat, player, inserted);
    let first = spec_on_message(msg, key);
    if run.contains(WsEffect::Close) {
        let i = choose|i: int| 0 <= i < run.len() && run[i] == WsEffect::Close;
        match first {
            WsStep::DecodeJoin(_) => {
                if let Some(p) = player {
                    match inserted {
                        Ok(()) => {
                            assert(run =~= seq![WsEffect::InsertPlayer]);
                        },
                        Err(_) => {
                            assert(run =~= seq![
                                WsEffect::InsertPlayer,
                                WsEffect::UpdatePlayer,
                                WsEffect::Broadcast,
                            ]);
                        },
                    }
                }
            },
            _ => {},
        }
    }
}

/// A message that does not decode, or that carries a key other than the
/// server's, only closes its connection.
pub proof fn a_foreign_message_only_closes(
    msg: Option<WsData>,
    key: Seq<char>,
    chat: Option<DataChat>,
    player: Option<Player>,
    inserted: Result<(), DbError>,
)
    requires
        msg matches Some(m) ==> m.key@ != key,
    ensures
        message_run(msg, key, chat, player, inserted) == seq![WsEffect::Close],
{
}

/// A message carrying the server's key and one of the three known kinds
/// never closes its connection: its payload is handed on, untouched, to be
/// decoded as what that kind carries (a chat line for `chat`, a player's
/// record for `onJoin_player` and `updata`), whatever the payload holds.
pub proof fn known_messages_are_decoded(m: WsData, key: Seq<char>)
    requires
        m.key@ == key,
    ensures
        m.typestr@ == "chat"@ ==> spec_on_message(Some(m), key) == WsStep::DecodeChat(m.data),
        m.typestr@ == "onJoin_player"@ ==> spec_on_message(Some(m), key) == WsStep::DecodeJoin(m.data),
        m.typestr@ == "updata"@ ==> spec_on_message(Some(m), key) == WsStep::DecodeLeave(m.data),
        (m.typestr@ == "chat"@ || m.typestr@ == "onJoin_player"@ || m.typestr@ == "updata"@)
            ==> spec_on_message(Some(m), key) != WsStep::Close,
{
    reveal_strlit("chat");
    reveal_strlit("onJoin_player");
    reveal_strlit("updata");
    assert("chat"@.len() != "onJoin_player"@.len());
    assert("chat"@.len() != "updata"@.len());
    assert("onJoin_player"@.len() != "updata"@.len());
}

/// A message is closed only when it did not decode, carries another key,
/// or names an unknown kind.
pub proof fn only_foreign_or_unknown_messages_close(msg: Option<WsData>, key: Seq<char>)
    ensures
        spec_on_message(msg, key) == WsStep::Close <==> match msg {
            None => true,
            Some(m) => m.key@ != key || !(m.typestr@ == "chat"@ || m.typestr@ == "onJoin_player"@
                || m.typestr@ == "updata"@),
        },
{
    if let Some(m) = msg {
        if m.key@ == key {
            known_messages_are_decoded(m, key);
        }
    }
}

/// A decoded chat line goes on to the sender lookup and broadcast exactly
/// as it was sent: same speaker, same group, same words; a line that does
/// not decode closes the connection.
pub proof fn chat_lines_are_passed_on_unchanged(chat: Option<DataChat>)
    ensures
        forall|c: DataChat| chat == Some(c) ==> spec_on_chat_payload(chat) == WsStep::FetchSender(c),
        spec_on_chat_payload(chat) matches WsStep::FetchSender(c) ==> chat == Some(c)
            && c.chat@ == chat.unwrap().chat@,
        chat is None ==> spec_on_chat_payload(chat) == WsStep::Close,
{
}

/// A decoded joining player is inserted exactly as the game server sent it
/// (balance, address, server, device and time included); a record that
/// does not decode closes the connection.
pub proof fn joining_players_are_inserted_as_sent(player: Option<Player>)
    ensures
        forall|p: Player| player == Some(p) ==> spec_on_join_payload(player) == WsStep::InsertPlayer(p),
        spec_on_join_payload(player) matches WsStep::InsertPlayer(q) ==> player == Some(q),
        player is None ==> spec_on_join_payload(player) == WsStep::Close,
{
}

/// A decoded leaving player is stored exactly as the game server sent it;
/// a record that does not decode is ignored and nothing is stored.
pub proof fn leaving_players_are_stored_as_sent(player: Option<Player>)
    ensures
        forall|p: Player| player == Some(p) ==> spec_on_leave_payload(player) == WsStep::LeftUpdate(p),
        spec_on_leave_payload(player) matches WsStep::LeftUpdate(q) ==> player == Some(q),
        player is None ==> spec_on_leave_payload(player) == WsStep::Ignore,
{
}

/// A known player whose insertion failed is updated with exactly the
/// record that was sent; a successful insertion needs nothing more.
pub proof fn known_players_are_updated_as_sent(inserted: Result<(), DbError>, p: Player)
    ensures
        inserted is Err ==> spec_on_join_insert(inserted, p) == WsStep::UpdateAndFetch(p),
        inserted is Ok ==> spec_on_join_insert(inserted, p) == WsStep::Ignore,
{
}

/// A chat line with the server's key whose payload decodes is broadcast
/// exactly once, and nothing else happens.
pub proof fn a_chat_line_is_broadcast_once(
    m: WsData,
    key: Seq<char>,
    chat: DataChat,
    player: Option<Player>,
    inserted: Result<(), DbError>,
)
    requires
        m.key@ == key,
        m.typestr@ == "chat"@,
    ensures
        message_run(Some(m), key, Some(chat), player, inserted) == seq![WsEffect::Broadcast],
{
    reveal_with_fuel(follow, 2);
}

/// The first step for a message from a game server: a message that could
/// not be decoded, or that carries a key other than the server's, closes
/// the connection; otherwise its kind (`chat`, `onJoin_player`, `updata`)
/// says how to decode its payload, and any other kind closes the connection.
pub fn on_message(msg: Option<WsData>, key: &String) -> (step: WsStep)
    ensures
        step == spec_on_message(msg, key@),
{
    match msg {
        None => WsStep::Close,
        Some(m) => {
            if !(m.key == *key) {
                WsStep::Close
            } else if same_text(m.typestr.as_str(), "chat") {
                WsStep::DecodeChat(m.data)
            } else if same_text(m.typestr.as_str(), "onJoin_player") {
                WsStep::DecodeJoin(m.data)
            } else if same_text(m.typestr.as_str(), "updata") {
                WsStep::DecodeLeave(m.data)
            } else {
                WsStep::Close
            }
        },
    }
}

/// A chat payload that does not decode closes the connection; a decoded
/// one asks for the sender's permission group.
pub fn on_chat_payload(chat: Option<DataChat>) -> (step: WsStep)
    ensures
        step == spec_on_chat_payload(chat),
{
    match chat {
        None => WsStep::Close,
        Some(c) => WsStep::FetchSender(c),
    }
}

/// A joining player's record that does not decode closes the connection;
/// a decoded one is inserted.
pub fn on_join_payload(player: Option<Player>) -> (step: WsStep)
    ensures
        step == spec_on_join_payload(player),
{
    match player {
        None => WsStep::Close,
        Some(p) => WsStep::InsertPlayer(p),
    }
}

/// A leaving player's record that does not decode is ignored; a decoded
/// one is stored.
pub fn on_leave_payload(player: Option<Player>) -> (step: WsStep)
    ensures
        step == spec_on_leave_payload(player),
{
    match player {
        None => WsStep::Ignore,
        Some(p) => WsStep::LeftUpdate(p),
    }
}

/// After inserting a joining player: a new player needs nothing more; a
/// player already known is updated instead and its record broadcast.
pub fn on_join_insert(inserted: Result<(), DbError>, player: Player) -> (step: WsStep)
    ensures
        step == spec_on_join_insert(inserted, player),
{
    match inserted {
        Ok(()) => WsStep::Ignore,
        Err(_) => WsStep::UpdateAndFetch(player),
    }
}

/// The broadcast after a known player joined: kind `updata`, group `null`,
/// and the player's record, or the text `null` when it could not be read.
pub fn join_broadcast(lookup: Result<Option<Player>, DbError>) -> (b: Person)
    ensures
        b.typestr@ == "updata"@,
        b.perm@ == "null"@,
        match lookup {
            Ok(Some(p)) => b.data == ChatData::Record(p),
            _ => b.data matches ChatData::Text(t) && t@ == "null"@,
        },
{
    let data = match lookup {
        Ok(Some(p)) => ChatData::Record(p),
        _ => ChatData::Text("null".to_owned()),
    };
    Person { typestr: "updata".to_owned(), perm: "null".to_owned(), data }
}

/// The broadcast of a chat line: kind `chat`, the sender's permission group
/// (`null` when the sender is unknown or the lookup failed), and the line.
pub fn on_chat(lookup: Result<Option<Player>, DbError>, chat: DataChat) -> (b: Person)
    ensures
        b.typestr@ == "chat"@,
        b.data == ChatData::Text(chat.chat),
        match lookup {
            Ok(Some(p)) => b.perm@ == p.permission_name@,
            _ => b.perm@ == "null"@,
        },
{
    let perm = match lookup {
        Ok(Some(p)) => p.permission_name,
        _ => "null".to_owned(),
    };
    Person { typestr: "chat".to_owned(), perm, data: ChatData::Text(chat.chat) }
}

} // verus!
