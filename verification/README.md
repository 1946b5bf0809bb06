# pubkycore

The parts of a Pubky client that decide something, written in Verus and proved.

- `auth`, `deep_link`, `types`, `base64url`: what an auth URL or another deep link asks for. The
  text is parsed by the `pubky` crate; what is told of the link is proved.
- `session_cache`: imported sessions are kept and reused. A call whose kept session is refused is
  made once more with a fresh one, and only a refused session is reported as such.
- `grant_resume`: a pending grant sign-in rejoins its relay channel when the poll dies, for as long
  as that can help.
- `failure`: what a request failed with, as far as the two modules above need to know.
- `text`: comparing, splitting and trimming text.

The library does no I/O and reads no clock: callers hand in what the network answered and what
time it is, and are told what to do next. `app/` does that around a live client: it holds the
global state, makes the requests, waits, and writes JSON.

Functions that call an outside crate are marked `external_body`. Each says above it which outside
function it calls and what is believed of it.
