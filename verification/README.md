# bidibip

Bidibip is the Discord bot of a French game-development community: moderation
(sanctions and their history, an anti-spam guard, private threads with the
moderators), logs of edited and deleted messages, welcome messages, a member
counter, reposts of forum posts with votes, the rules channel, and a form that
builds job ads before moderators publish them.

- `src/` is the library, verified with Verus: the decisions of the modules, the
  texts the bot writes and the state each module keeps, with contracts over
  mathematical models (`Seq`, `Map`, `nat`) and the laws that tie operations
  together (a custom id whose parts hold no `::` is read back as written, a
  freed button id is the next one handed out, switching a module off and on
  again, votes, anti-spam, a published ad is read back by its edition, ...).
  A few small decisions that only arrange Discord messages stay in `app/`.
  The few calls into outside crates (chrono for dates, rand for the welcome
  sentence, serenity for the full permission set) stand behind trusted items
  whose doc comments say what is assumed.
- `app/` is the Discord side, in ordinary Rust: it reads the configuration and
  module files (serde), talks to Discord (serenity, tokio), logs (tracing), and
  hands plain values to the library.
- `tests/` runs the library on concrete values.
