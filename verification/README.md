# synchronizer

Keeps players, permission groups and chat in step between game servers.
Game servers connect over WebSocket with a shared key; clients use a small
HTTP interface signed with an MD5 token and a timestamp; a MySQL database
holds the players and permission groups.

- `src/` is the verified library (Verus): the records, the request
  checks and the answers of every HTTP route, the WebSocket protocol and the
  registry of open connections, the generated key, and the start-up
  configuration and addresses.
- `app/` is the program around it: configuration file, database pool and
  statements, the Rocket routes and the WebSocket server, and the JSON
  encodings.
- `tests/` exercises the library on concrete requests and messages.
