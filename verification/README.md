# dotsong

The logic of dotsong, a tray application that scrobbles what the computer is
playing to ListenBrainz, Last.fm and Libre.fm and shows it as a Discord
presence, as a library whose functions carry contracts proved by Verus.

- `src/` — the verified library:
  - `media_center.rs`: which player reports make a new track, the position
    ticker, and the scrobbling task's transition (with its laws);
  - `deezer_api.rs`: the Deezer search query, the choice among search results
    and the enrichment of a track;
  - `source.rs`: the track model of media interface events;
  - `models.rs`: the track and cover artwork model;
  - `listenbrainz.rs`, `config.rs`, `lastfm_auth.rs`, `scrobblers.rs`:
    submissions and settings;
  - `presence.rs`: the tray label and the Discord presence;
  - `text.rs`: the text operations all of these are stated with.
- `app/` — the running application around it (network, files, the media
  interface, the Discord client, async tasks).
- `tests/` — tests of the library on concrete values.
