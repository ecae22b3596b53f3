# printer_monitor

Watches a 3D printer for failed prints. Every ten seconds it asks the printer for its status over
PrusaLink, takes a frame from an RTSP camera, has the Obico detection service look at it, smooths
what comes back over time, and then reports a print that goes wrong in a Telegram chat, or pauses
it. It also switches the printer's stealth mode on and off by a schedule, and takes commands in the
chat.

The decisions are a library that is verified with Verus; talking to the world is a thin program
around it.

## Layout

- `src/` is the library. Each function states in its contract what it returns and changes, and the
  properties that span functions are proof functions whose names begin with `law_`.
  - `monitor`: what is remembered from cycle to cycle, alert levels, pausing, and the cycle as a
    state machine
  - `detection`, `scalar`: verdicts on scored frames; numbers carried as the bits of doubles
  - `bot`, `messages`: what commands and buttons ask for, and what is answered
  - `schedule`, `settings`, `config`: the stealth schedule, what outlives a restart, and the
    environment variables
  - `prusalink`, `obico`, `server`, `rtsp_capture`, `snapshot`: the printer's interface, the
    detection service, the image server, and frames out of a video stream
  - `text`: reading and writing text
- `app/` is the program: HTTP, RTSP, the chat, files, signals, and floating-point arithmetic.
- `tests/` runs the library on concrete values.

## What is trusted

The library calls a few functions of other crates through wrappers whose contracts are taken on
trust: `chrono::NaiveTime::from_hms_opt`, `url::Url::parse`, `jpeg_encoder::Encoder::encode`,
`new` and `decode` of `openh264::decoder::Decoder`, and `write_rgb8` of the frames that it decodes,
with the accessors for their sizes. The doc comment of each says what is claimed of it.

## Settings

The switches and the schedule live in `settings.toml`, which is created with these defaults:

```toml
monitoring_enabled = true
auto_pause = true

[stealth_schedule]
enabled = false
off_at = "08:00"
on_at = "20:00"
```

Times are written `HH:MM`, with one or two digits for the hour and two for the minute.
