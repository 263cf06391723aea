# tg

The decisions of a Telegram bot process that runs on a message-passing
runtime, proved with Verus: who is subscribed, how the polling offset
advances, how Bot API calls are framed, what is pushed to the websocket, and
which handler each incoming message goes to.

- `src/` — the verified library. `state` and `laws` hold the bot's state and
  what every operation keeps; `bot` and `http` decide what to do with each
  message; `helpers` and `api` frame Bot API calls; `text` writes integers in
  decimal; `outside` holds the contracts of the calls into `url`,
  `serde_json` and `frankenstein`.
- `app/` — the process around it: receiving and sending messages, HTTP,
  saving the state, and the serde forms of the messages.
- `tests/` — tests of the library on concrete values.
