# rara_channels

The decision logic of the rara chat channels, written in Verus and proved
against its contracts.

- `src/` is the verified library. `text` holds the string machinery the
  rest is built on (trimming, splitting, decimal rendering, UTF-8 lengths)
  with its specifications; `telegram` holds the Telegram rendering
  (Markdown to HTML, LaTeX to Unicode, chunking), the state machines that
  stream a reply and keep the progress card, the routing of updates and
  callbacks, and the replies of every bot command (`telegram::commands`);
  `web` and `web_reply_buffer` hold the Web channel's authentication
  helpers, event mapping and per-session replay buffer; `terminal` the CLI
  event mapping.
- Laws that relate several operations are public proof functions named
  `law_*`, next to the functions they speak of.
- Calls into outside crates (`regex`, `uuid`, `rand`, `chrono`, `base64`,
  `tokio` broadcast channels) go through
  a few small trusted wrappers whose doc comments say what is assumed.
- `app/` holds what the library leaves to its host: labels rendered with
  floating point, the `governor` rate limiter, thread-safe handles and
  conversions from JSON values.
- `tests/` exercises the library on concrete values.
