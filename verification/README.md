# videodownloaderbackend

An HTTP service that resolves links to media on TikTok, YouTube, Instagram,
Twitter/X, Facebook, Pinterest, CapCut, Telegram, Spotify and SoundCloud,
stores each request, and serves the downloaded media.

- `src/` is the verified library (Verus): configuration parsing, provider
  detection, URL and request validation, the `yt-dlp` arguments and the
  reading of its reports, the provider fallbacks' requests and answers, the
  resolve and download steps as state machines, and the answers the API gives.
  Calls into `reqwest`'s URL parser, `axum`'s header validation, `uuid` and a
  few std path functions stand behind trusted wrappers whose contracts are
  written next to them.
- `app/` is the program around it: the `axum` server, the `sqlx` database
  access, running `yt-dlp`, the HTTP requests of the fallbacks, and the files
  of the download directories. It performs the actions that the library's
  state machines choose and hands back what came of them.
- `tests/` runs the library on concrete values.

## Behaviour chosen for this service

Some rules are this service's own choices rather than something an outside
tool dictates; they are written down here so they can be reviewed:

- API errors answer with a status per class (400, 404, 422, 500, 503) and the
  JSON body `{"error": {"code": ..., "message": ...}}`.
- The domains of YouTube (`youtube.com`, `youtu.be`), Instagram
  (`instagram.com`), Facebook (`facebook.com`, `fb.watch`), CapCut
  (`capcut.com`), Telegram (`t.me`, `telegram.me`), Spotify (`spotify.com`) and
  SoundCloud (`soundcloud.com`), each with its subdomains.
- How a `yt-dlp` failure is classified, by words in its message: `drm`
  (DRM-protected); `sign in`, `login`, `log in`, `cookies`, `authentication`
  (authentication required); `unsupported url` (unsupported); `video
  unavailable`, `private`, `removed`, `not available`, `does not exist`
  (unavailable); anything else is temporary.
- The provider fallback settings are optional: `TIKTOK_FALLBACK_ENABLED` and
  `INSTAGRAM_OEMBED_FALLBACK_ENABLED` default to `true` (a value other than
  `true`/`false` counts as unset), and `TIKTOK_FALLBACK_API_URL` defaults to
  `https://www.tikwm.com/api/`.
- An event that does not fit the stage of a resolve or download finishes with
  an internal error.
- Migrations are read from `./migrations` when the service starts.
