# terraria_server

A small web panel for a Terraria dedicated server: it edits the server's
`config.txt`, starts and stops the server process, relays console commands and
output (HTTP and websocket), and guards its API with a token.

- `src/` is the verified library (Verus): the API's answers (`web::model`,
  `web::handle`), the token check (`web::middleware`), the websocket relay step
  (`web::websocket`), the rendering of `config.txt` and the answers to file
  stores (`infra::conf`), the game state with its console channels
  (`infra::game`), and decimal text and substring search (`text`).
- `app/` is the program around it: the axum router and handlers, file I/O and
  JSON, the server process and the threads that pump its console.
- `tests/` runs the library on concrete values.
