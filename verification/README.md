# flm-daemon

The Linux side of FLM (Free Linux Monitor on Android): it captures an X11
virtual monitor, encodes it as H.264 and sends it over RTP/UDP to an Android
device, which is used as an extra screen. A tray icon starts and stops the
stream, picks the monitor and its resolution and switches between the Wi-Fi
and USB targets.

## Layout

- `src/` — the library, verified with Verus:
  - `config.rs`: the settings model, the active target's IP and the location
    of the settings file;
  - `control.rs`: the control-channel line `FLM/1 <w>x<h>\n`, with proofs that
    it is ASCII and that it determines the resolution;
  - `dialog.rs`: `zenity` command lines and how an answer is read;
  - `randr.rs`: monitor labels, the virtual-monitor heuristic, monitor lookup,
    the modes of an output (once per resolution, stably ordered by descending
    area), `xrandr` arguments and the choice of providers to attach;
  - `stream.rs`: the even capture size, the encoder (VAAPI when `vah264enc`
    is available, x264 otherwise), the pipeline description, and the bus
    watcher, whose recorded error is written at most once;
  - `tray.rs`: the tray state machine — each menu action and each completion
    as a function from state (and outcome) to next state and effect, and the
    start sequence (look up the monitor, announce its resolution, then start
    the pipeline);
  - `text.rs`: decimal and hexadecimal numerals, Unicode trimming, ASCII case
    folding.
- `app/` — the program around it: X11 requests, `xrandr`, `zenity`, the TCP
  control connection, GStreamer, the StatusNotifierItem tray and reading and
  writing the TOML settings.
- `tests/` — tests of the library on concrete values.
