# disco_rs

A Discord music bot whose decisions and reply texts are a verified Verus
library, driven by a thin program around Discord, voice and HTTP.

- `src/` — the verified library:
  - `voice`: which voice channel a command's author and the bot are in
    (`check_vc`, `voice_target`);
  - `source`: recognizing Spotify and YouTube links (`QueryPatterns`) and the
    state machine that resolves a play query to an audio source
    (`SourceStage`), with its laws;
  - `search`: choosing a YouTube video among search results by shared title
    words;
  - `handlers`: the gateway handler's decisions and the idle timer of a call;
  - `reply`: the text and embeds of every reply;
  - `admin`: the owner check of the `register` command;
  - `text`: decimal and clock rendering;
  - `pattern`: regular expressions of the `regex` crate, behind trusted
    wrappers.
- `app/` — the bot: poise commands, the serenity and songbird event handlers,
  the Spotify client and the YouTube Data API request, each handing plain
  values to the library and acting on what it returns.
- `tests/` — tests of the library on concrete values.

Environment: `DISCORD_TOKEN`, `OWNER_ID`, `YT_API_KEY`, `SPOTIFY_ID`,
`SPOTIFY_SECRET`; logging follows `RUST_LOG`.
