//! Streaming session: the capture → H.264 → RTP/UDP pipeline.
//!
//! GStreamer builds and runs the pipeline outside the library, and a thread
//! watches its bus for errors. What is decided here: the capture rectangle,
//! the encoder and the pipeline description, and what the bus watcher does
//! with each message and records.

use vstd::prelude::*;
use crate::randr::Region;
use crate::text::{debug_quoted, decimal, push_decimal, push_signed_decimal, signed_decimal, str_debug};

verus! {

/// UDP port of the RTP/H.264 media.
pub const UDP_PORT: u32 = 5000;

/// `n` rounded down to an even number: H.264 needs even dimensions.
pub open spec fn even_floor(n: u16) -> int {
    n - n % 2
}

fn clear_low_bit(n: u16) -> (r: u16)
    ensures
        r == even_floor(n),
{
    let r = n & !1u16;
    assert(n & !1u16 == n - n % 2) by (bit_vector);
    r
}

/// The dimensions that are captured and announced for `region`: width and
/// height rounded down to even numbers, so the encoder does not fail caps
/// negotiation on an odd-sized monitor.
pub fn even_dimensions(region: Region) -> (r: (u16, u16))
    ensures
        r.0 == even_floor(region.width),
        r.1 == even_floor(region.height),
        r.0 % 2 == 0 && r.1 % 2 == 0,
        region.width - 1 <= r.0 <= region.width,
        region.height - 1 <= r.1 <= region.height,
{
    (clear_low_bit(region.width), clear_low_bit(region.height))
}

/// The H.264 encoder of a session.
#[derive(Debug, Clone, Copy, PartialEq, Eq, Structural)]
pub enum Encoder {
    /// Hardware encoding through VAAPI (`vah264enc`).
    Vaapi,
    /// Software encoding with x264 (`x264enc`), the fallback.
    X264,
}

impl Encoder {
    /// How the encoder is named to the user.
    pub open spec fn label_view(self) -> Seq<char> {
        match self {
            Encoder::Vaapi => "VAAPI (vah264enc, hardware)"@,
            Encoder::X264 => "x264 (x264enc, software)"@,
        }
    }

    pub fn label(self) -> (r: &'static str)
        ensures
            r@ == self.label_view(),
    {
        match self {
            Encoder::Vaapi => "VAAPI (vah264enc, hardware)",
            Encoder::X264 => "x264 (x264enc, software)",
        }
    }
}

/// The encoder used: the hardware VAAPI one when `vah264enc` is available,
/// otherwise x264.
pub open spec fn chosen_encoder(vaapi_disponivel: bool) -> Encoder {
    if vaapi_disponivel {
        Encoder::Vaapi
    } else {
        Encoder::X264
    }
}

/// The conversion and encoding part of the pipeline.
///
/// Both convert to a 4:2:0 format (phone hardware decoders only take 4:2:0),
/// keep at most two frames queued, send a keyframe every `framerate` frames
/// and use no B-frames. VAAPI takes NV12; x264 takes I420, with
/// `tune=zerolatency` and `threads=1`, because sliced threads produce
/// several slices per frame that phone decoders mishandle.
pub open spec fn encoder_chain(encoder: Encoder, framerate: nat) -> Seq<char> {
    match encoder {
        Encoder::Vaapi => "video/x-raw,format=NV12 ! queue max-size-buffers=2 leaky=downstream ! vah264enc key-int-max="@
            + decimal(framerate) + " b-frames=0"@,
        Encoder::X264 => "video/x-raw,format=I420 ! queue max-size-buffers=2 leaky=downstream ! x264enc tune=zerolatency speed-preset=ultrafast key-int-max="@
            + decimal(framerate) + " threads=1"@,
    }
}

/// The pipeline description: capture the inclusive rectangle
/// `(startx, starty)`–`(endx, endy)` at `framerate`, convert and encode with
/// `encoder` (see `encoder_chain`), and send RTP to `host` on `UDP_PORT`.
pub open spec fn pipeline_text(
    host: Seq<char>,
    startx: int,
    starty: int,
    endx: int,
    endy: int,
    framerate: nat,
    encoder: Encoder,
) -> Seq<char> {
    "ximagesrc use-damage=0 startx="@ + signed_decimal(startx) + " starty="@ + signed_decimal(
        starty,
    ) + " endx="@ + signed_decimal(endx) + " endy="@ + signed_decimal(endy)
        + " ! video/x-raw,framerate="@ + decimal(framerate) + "/1 ! videoconvert ! "@
        + encoder_chain(encoder, framerate) + " ! rtph264pay config-interval=1 pt=96 ! udpsink host="@
        + host + " port="@ + decimal(UDP_PORT as nat)
}

/// The capture source: `ximagesrc` over the inclusive rectangle
/// `(startx, starty)`–`(endx, endy)`.
pub open spec fn capture_source(startx: int, starty: int, endx: int, endy: int) -> Seq<char> {
    "ximagesrc use-damage=0 startx="@ + signed_decimal(startx) + " starty="@ + signed_decimal(
        starty,
    ) + " endx="@ + signed_decimal(endx) + " endy="@ + signed_decimal(endy)
}

/// The caps that fix the capture rate at `framerate` frames per second,
/// followed by the conversion.
pub open spec fn capture_caps(framerate: nat) -> Seq<char> {
    " ! video/x-raw,framerate="@ + decimal(framerate) + "/1 ! videoconvert ! "@
}

/// The pipeline begins with the capture source of the requested rectangle,
/// and right after it come the caps carrying the requested framerate: the
/// rate is the argument, whatever the encoder.
pub proof fn lemma_pipeline_captures_at_framerate(
    host: Seq<char>,
    startx: int,
    starty: int,
    endx: int,
    endy: int,
    framerate: nat,
    encoder: Encoder,
)
    ensures
        ({
            let t = pipeline_text(host, startx, starty, endx, endy, framerate, encoder);
            let src = capture_source(startx, starty, endx, endy);
            let caps = capture_caps(framerate);
            &&& src.len() + caps.len() <= t.len()
            &&& t.subrange(0, src.len() as int) == src
            &&& t.subrange(src.len() as int, (src.len() + caps.len()) as int) == caps
        }),
{
    let t = pipeline_text(host, startx, starty, endx, endy, framerate, encoder);
    let src = capture_source(startx, starty, endx, endy);
    let caps = capture_caps(framerate);
    let rest = encoder_chain(encoder, framerate) + " ! rtph264pay config-interval=1 pt=96 ! udpsink host="@
        + host + " port="@ + decimal(UDP_PORT as nat);
    assert(t =~= src + caps + rest);
    assert((src + caps + rest).subrange(0, src.len() as int) =~= src);
    assert((src + caps + rest).subrange(src.len() as int, (src.len() + caps.len()) as int) =~= caps);
}

/// Distinct framerates give distinct capture caps.
pub proof fn lemma_capture_caps_injective(f1: nat, f2: nat)
    requires
        capture_caps(f1) == capture_caps(f2),
    ensures
        f1 == f2,
{
    let pre = " ! video/x-raw,framerate="@;
    let post = "/1 ! videoconvert ! "@;
    let c1 = capture_caps(f1);
    let c2 = capture_caps(f2);
    assert(c1 =~= pre + decimal(f1) + post);
    assert(c2 =~= pre + decimal(f2) + post);
    assert(decimal(f1).len() == decimal(f2).len());
    let a: int = pre.len() as int;
    assert(c1.subrange(a, a + decimal(f1).len()) =~= decimal(f1));
    assert(c2.subrange(a, a + decimal(f2).len()) =~= decimal(f2));
    crate::text::lemma_decimal_injective(f1, f2);
}

/// The framerate reaches the description: the same rectangle, encoder and
/// host at two different framerates give two different pipelines.
pub proof fn lemma_pipeline_framerate_matters(
    host: Seq<char>,
    startx: int,
    starty: int,
    endx: int,
    endy: int,
    f1: nat,
    f2: nat,
    encoder: Encoder,
)
    requires
        f1 != f2,
    ensures
        pipeline_text(host, startx, starty, endx, endy, f1, encoder) != pipeline_text(
            host,
            startx,
            starty,
            endx,
            endy,
            f2,
            encoder,
        ),
{
    lemma_pipeline_captures_at_framerate(host, startx, starty, endx, endy, f1, encoder);
    lemma_pipeline_captures_at_framerate(host, startx, starty, endx, endy, f2, encoder);
    if pipeline_text(host, startx, starty, endx, endy, f1, encoder) == pipeline_text(
        host,
        startx,
        starty,
        endx,
        endy,
        f2,
        encoder,
    ) {
        let src = capture_source(startx, starty, endx, endy);
        let t = pipeline_text(host, startx, starty, endx, endy, f1, encoder);
        let n1 = capture_caps(f1).len();
        let n2 = capture_caps(f2).len();
        assert(capture_caps(f1) =~= " ! video/x-raw,framerate="@ + decimal(f1)
            + "/1 ! videoconvert ! "@);
        assert(capture_caps(f2) =~= " ! video/x-raw,framerate="@ + decimal(f2)
            + "/1 ! videoconvert ! "@);
        if n1 == n2 {
            lemma_capture_caps_injective(f1, f2);
        } else {
            // The caps segments end where the numeral ends; the shorter one
            // ends in the `"/1 ..."` tail, the longer one is still a digit
            // at that place, which no tail character is.
            crate::text::lemma_decimal_digits(f1);
            crate::text::lemma_decimal_digits(f2);
            reveal_strlit(" ! video/x-raw,framerate=");
            reveal_strlit("/1 ! videoconvert ! ");
            let p: int = " ! video/x-raw,framerate="@.len() as int;
            let d1: int = decimal(f1).len() as int;
            let d2: int = decimal(f2).len() as int;
            if d1 < d2 {
                assert(t[src.len() as int + p + d1] == capture_caps(f1)[p + d1]);
                assert(capture_caps(f1)[p + d1] == '/');
                assert(t[src.len() as int + p + d1] == capture_caps(f2)[p + d1]);
                assert(capture_caps(f2)[p + d1] == decimal(f2)[d1]);
            } else {
                assert(t[src.len() as int + p + d2] == capture_caps(f2)[p + d2]);
                assert(capture_caps(f2)[p + d2] == '/');
                assert(t[src.len() as int + p + d2] == capture_caps(f1)[p + d2]);
                assert(capture_caps(f1)[p + d2] == decimal(f1)[d2]);
            }
        }
    }
}

/// What the pipeline is made from.
#[derive(Debug, Clone)]
pub struct PipelinePlan {
    /// Captured and encoded width (even).
    pub width: u16,
    /// Captured and encoded height (even).
    pub height: u16,
    /// The encoder the description uses.
    pub encoder: Encoder,
    /// The `gst-launch` style description of the pipeline.
    pub descricao: String,
}

/// Why a session cannot start.
#[derive(Debug, Clone, PartialEq, Eq)]
pub enum StreamError {
    /// The monitor is too small to capture once rounded to even dimensions;
    /// `width` and `height` are the monitor's own.
    InvalidGeometry { monitor: String, width: u16, height: u16 },
}

impl StreamError {
    /// The message shown to the user for this error.
    pub open spec fn mensagem_view(&self) -> Seq<char> {
        match self {
            StreamError::InvalidGeometry { monitor, width, height } => "monitor "@ + str_debug(
                monitor@,
            ) + " tem geometria inválida para captura: "@ + decimal(*width as nat) + "x"@ + decimal(
                *height as nat,
            ),
        }
    }

    pub fn mensagem(&self) -> (r: String)
        ensures
            r@ == self.mensagem_view(),
    {
        match self {
            StreamError::InvalidGeometry { monitor, width, height } => {
                let mut r = String::from_str("monitor ");
                r.append(debug_quoted(monitor.as_str()).as_str());
                r.append(" tem geometria inválida para captura: ");
                push_decimal(&mut r, *width as u32);
                r.append("x");
                push_decimal(&mut r, *height as u32);
                r
            },
        }
    }
}

fn push_encoder_chain(d: &mut String, encoder: Encoder, framerate: u32)
    ensures
        final(d)@ == old(d)@ + encoder_chain(encoder, framerate as nat),
{
    match encoder {
        Encoder::Vaapi => {
            d.append(
                "video/x-raw,format=NV12 ! queue max-size-buffers=2 leaky=downstream ! vah264enc key-int-max=",
            );
            push_decimal(d, framerate);
            d.append(" b-frames=0");
        },
        Encoder::X264 => {
            d.append(
                "video/x-raw,format=I420 ! queue max-size-buffers=2 leaky=downstream ! x264enc tune=zerolatency speed-preset=ultrafast key-int-max=",
            );
            push_decimal(d, framerate);
            d.append(" threads=1");
        },
    }
}

/// Plans the capture of `region` of `monitor`, sent to `host`, encoded by
/// VAAPI when `vaapi_disponivel` (the machine has `vah264enc`) and by x264
/// otherwise.
///
/// The capture source takes inclusive end coordinates, so the rectangle ends
/// at `start + size - 1`.
pub fn pipeline_plan(
    host: &str,
    monitor: &str,
    region: Region,
    framerate: u32,
    vaapi_disponivel: bool,
) -> (r: Result<PipelinePlan, StreamError>)
    ensures
        (even_floor(region.width) < 2 || even_floor(region.height) < 2) ==> (r matches Err(
            StreamError::InvalidGeometry { monitor: m, width: w, height: h },
        ) && m@ == monitor@ && w == region.width && h == region.height),
        (even_floor(region.width) >= 2 && even_floor(region.height) >= 2) ==> (r matches Ok(p)
            && p.width == even_floor(region.width) && p.height == even_floor(region.height)
            && p.encoder == chosen_encoder(vaapi_disponivel) && p.descricao@ == pipeline_text(
            host@,
            region.x as int,
            region.y as int,
            region.x + p.width - 1,
            region.y + p.height - 1,
            framerate as nat,
            chosen_encoder(vaapi_disponivel),
        ) && ({
            let src = capture_source(
                region.x as int,
                region.y as int,
                region.x + p.width - 1,
                region.y + p.height - 1,
            );
            let caps = capture_caps(framerate as nat);
            &&& src.len() + caps.len() <= p.descricao@.len()
            &&& p.descricao@.subrange(0, src.len() as int) == src
            &&& p.descricao@.subrange(src.len() as int, (src.len() + caps.len()) as int) == caps
        })),
{
    let (width, height) = even_dimensions(region);
    if width < 2 || height < 2 {
        return Err(
            StreamError::InvalidGeometry {
                monitor: String::from_str(monitor),
                width: region.width,
                height: region.height,
            },
        );
    }
    let encoder = if vaapi_disponivel {
        Encoder::Vaapi
    } else {
        Encoder::X264
    };
    let startx = region.x as i32;
    let starty = region.y as i32;
    let endx = startx + width as i32 - 1;
    let endy = starty + height as i32 - 1;

    let mut d = String::from_str("ximagesrc use-damage=0 startx=");
    push_signed_decimal(&mut d, startx);
    d.append(" starty=");
    push_signed_decimal(&mut d, starty);
    d.append(" endx=");
    push_signed_decimal(&mut d, endx);
    d.append(" endy=");
    push_signed_decimal(&mut d, endy);
    d.append(" ! video/x-raw,framerate=");
    push_decimal(&mut d, framerate);
    d.append("/1 ! videoconvert ! ");
    push_encoder_chain(&mut d, encoder, framerate);
    d.append(" ! rtph264pay config-interval=1 pt=96 ! udpsink host=");
    d.append(host);
    d.append(" port=");
    push_decimal(&mut d, UDP_PORT);
    proof {
        lemma_pipeline_captures_at_framerate(
            host@,
            startx as int,
            starty as int,
            endx as int,
            endy as int,
            framerate as nat,
            encoder,
        );
    }
    Ok(PipelinePlan { width, height, encoder, descricao: d })
}

/// What is running: the values the session was started with.
#[derive(Debug, Clone)]
pub struct SessionInfo {
    pub host: String,
    pub monitor: String,
    pub width: u16,
    pub height: u16,
    /// The encoder of the running pipeline.
    pub encoder: Encoder,
}

/// A message taken from the pipeline's bus (or none within the wait).
#[derive(Debug, Clone)]
pub enum BusEvent {
    /// Nothing arrived within the wait.
    Timeout,
    /// End of stream.
    Eos,
    /// An element failed; the text describes the failure.
    Error(String),
    /// Any other message.
    Other,
}

/// What the bus watcher does next.
#[derive(Debug, Clone)]
pub enum WatchStep {
    /// Keep waiting for messages.
    Continue,
    /// Stop watching, record `erro`, and set the pipeline to `Null` when
    /// `reset` holds.
    Stop { erro: String, reset: bool },
}

/// The decision of the bus watcher for one message: an unexpected end of
/// stream or an element error stops the watch and records why (an error
/// also tears the pipeline down); anything else keeps watching.
pub fn watch_step(event: BusEvent) -> (r: WatchStep)
    ensures
        match event {
            BusEvent::Eos => r matches WatchStep::Stop { erro, reset } && erro@
                == "fim de stream inesperado"@ && !reset,
            BusEvent::Error(e) => r matches WatchStep::Stop { erro, reset } && erro@ == e@
                && reset,
            _ => r is Continue,
        },
{
    match event {
        BusEvent::Eos => WatchStep::Stop {
            erro: String::from_str("fim de stream inesperado"),
            reset: false,
        },
        BusEvent::Error(e) => WatchStep::Stop { erro: e, reset: true },
        _ => WatchStep::Continue,
    }
}

/// The error a bus message records, when it stops the watch: an end of
/// stream is unexpected, an element error is reported as is.
pub open spec fn stop_text(event: BusEvent) -> Option<Seq<char>> {
    match event {
        BusEvent::Eos => Some("fim de stream inesperado"@),
        BusEvent::Error(e) => Some(e@),
        _ => None,
    }
}

/// The error recorded after `event`, from `state`: a recorded error stays.
pub open spec fn watch_next(state: Option<Seq<char>>, event: BusEvent) -> Option<Seq<char>> {
    match state {
        Some(e) => Some(e),
        None => stop_text(event),
    }
}

/// The error recorded after `events`, in order, from `state`.
pub open spec fn watch_run(state: Option<Seq<char>>, events: Seq<BusEvent>) -> Option<Seq<char>>
    decreases events.len(),
{
    if events.len() == 0 {
        state
    } else {
        watch_run(watch_next(state, events[0]), events.drop_first())
    }
}

/// Once the watcher has recorded an error, no later message changes it.
pub proof fn lemma_watch_error_kept(state: Option<Seq<char>>, events: Seq<BusEvent>)
    requires
        state is Some,
    ensures
        watch_run(state, events) == state,
    decreases events.len(),
{
    if events.len() > 0 {
        lemma_watch_error_kept(watch_next(state, events[0]), events.drop_first());
    }
}

/// From a fresh watcher, an error is recorded only by an end of stream or
/// an element error, and it is the text of the first such message.
pub proof fn lemma_watch_error_source(events: Seq<BusEvent>)
    ensures
        (watch_run(None, events) is None) <==> (forall|k: int|
            0 <= k < events.len() ==> stop_text(#[trigger] events[k]) is None),
        watch_run(None, events) is Some ==> exists|k: int|
            0 <= k < events.len() && watch_run(None, events) == stop_text(#[trigger] events[k])
                && forall|j: int| 0 <= j < k ==> stop_text(#[trigger] events[j]) is None,
    decreases events.len(),
{
    if events.len() > 0 {
        let rest = events.drop_first();
        match stop_text(events[0]) {
            Some(e) => {
                lemma_watch_error_kept(Some(e), rest);
                assert(watch_run(None, events) == stop_text(events[0]));
            },
            None => {
                lemma_watch_error_source(rest);
                assert forall|k: int| 1 <= k < events.len() implies #[trigger] events[k] == rest[k
                    - 1] by {}
                if watch_run(None, events) is Some {
                    let k = choose|k: int|
                        0 <= k < rest.len() && watch_run(None, rest) == stop_text(#[trigger] rest[k])
                            && forall|j: int| 0 <= j < k ==> stop_text(#[trigger] rest[j]) is None;
                    assert(events[k + 1] == rest[k]);
                    assert forall|j: int| 0 <= j < k + 1 implies stop_text(#[trigger] events[j]) is None by {
                        if j > 0 {
                            assert(events[j] == rest[j - 1]);
                        }
                    }
                } else {
                    assert forall|k: int| 0 <= k < events.len() implies stop_text(#[trigger] events[k]) is None by {
                        if k > 0 {
                            assert(events[k] == rest[k - 1]);
                        }
                    }
                }
                if forall|k: int| 0 <= k < events.len() ==> stop_text(#[trigger] events[k]) is None {
                    assert forall|k: int| 0 <= k < rest.len() implies stop_text(#[trigger] rest[k]) is None by {
                        assert(rest[k] == events[k + 1]);
                    }
                }
            },
        }
    }
}

/// The state of the bus watcher: the error it has recorded, if any. It is
/// written at most once; the watch ends when it is set.
pub struct BusWatch {
    erro: Option<String>,
}

impl View for BusWatch {
    type V = Option<Seq<char>>;

    closed spec fn view(&self) -> Option<Seq<char>> {
        match self.erro {
            Some(e) => Some(e@),
            None => None,
        }
    }
}

impl BusWatch {
    /// A watcher that has recorded nothing.
    pub fn new() -> (r: Self)
        ensures
            r@ is None,
    {
        BusWatch { erro: None }
    }

    /// Takes one message from the bus. The result says whether the pipeline
    /// must be set to `Null` (an element error, the first time).
    pub fn observar(&mut self, event: BusEvent) -> (reset: bool)
        ensures
            final(self)@ == watch_next(old(self)@, event),
            reset == (old(self)@ is None && event is Error),
    {
        if self.erro.is_some() {
            return false;
        }
        match watch_step(event) {
            WatchStep::Stop { erro, reset } => {
                self.erro = Some(erro);
                reset
            },
            WatchStep::Continue => false,
        }
    }

    /// The watch is over: an error has been recorded.
    pub fn parado(&self) -> (r: bool)
        ensures
            r == self@ is Some,
    {
        self.erro.is_some()
    }

    /// The recorded error.
    pub fn erro(&self) -> (r: Option<String>)
        ensures
            match r {
                Some(e) => self@ == Some(e@),
                None => self@ is None,
            },
    {
        match &self.erro {
            Some(e) => Some(e.clone()),
            None => None,
        }
    }
}

} // verus!
