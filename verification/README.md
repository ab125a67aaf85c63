# urlguard

The logic of a Discord moderation bot that removes messages linking to
unsafe sites, as a library whose behaviour is stated in contracts and proved
with Verus.

* `src/` — the library.
  * `store` — the deny list of URL origins in a `sled` database, with the
    big-endian time encoding of `codec` and the clock of `clock`.
  * `safebrowsing` — the cache of transparency-report verdicts and the
    reading of a report (`json`).
  * `safe` — verdicts (`SafeData`), keys of URLs (`urls`) and the two-step
    safety check around the report request.
  * `commands`, `legacy`, `preparer` — the slash commands, the message
    commands (`+deny`, `+allow`, `+denied`, through `links` and
    `twilight_command_parser`) and the verdict on a message's links.
* `app/` — the bot itself: gateway, HTTP client, event loop, report
  requests, replies.
* `tests/` — tests of the library against the real outside crates.
