//! The tray's state machine.
//!
//! The tray icon (StatusNotifierItem over D-Bus), the dialogs, RandR, the
//! control connection and the pipeline all live outside the library, and
//! every slow operation runs on a separate thread so that menu callbacks
//! never block. What is here is every decision the tray makes: each menu
//! action takes the state and says what to do next (`Inicio`, `TrocaModo`,
//! ...), and each `..._concluido` method takes the outcome of that work and
//! gives the next state and, where the user must be told, the text of the
//! error dialog.
//!
//! `ocupado` keeps two long operations from running at once (for example a
//! double click on "Iniciar" creating two pipelines to the same target).

use vstd::prelude::*;
use crate::config::{Config, TargetMode};
use crate::control::CONTROL_PORT;
use crate::dialog::views;
use crate::randr::{dims_text, MonitorInfo, Mode, Region};
use crate::stream::{even_dimensions, even_floor, SessionInfo, UDP_PORT};
use crate::text::{decimal, push_decimal, str_eq};

verus! {

/// The `WxH` text of a mode.
pub open spec fn mode_text(m: Mode) -> Seq<char> {
    dims_text(m.width as nat, m.height as nat)
}

fn mode_string(m: Mode) -> (r: String)
    ensures
        r@ == mode_text(m),
{
    m.to_text()
}

/// Index of the first monitor called `name`, or `ms.len()` when none is.
pub open spec fn named_index(ms: Seq<MonitorInfo>, name: Seq<char>) -> int
    decreases ms.len(),
{
    if ms.len() == 0 {
        0
    } else if ms[0].name@ == name {
        0
    } else {
        1 + named_index(ms.drop_first(), name)
    }
}

/// Index of the first mode with the given dimensions, or `ms.len()` when
/// none has them.
pub open spec fn mode_index(ms: Seq<Mode>, width: u16, height: u16) -> int
    decreases ms.len(),
{
    if ms.len() == 0 {
        0
    } else if ms[0].width == width && ms[0].height == height {
        0
    } else {
        1 + mode_index(ms.drop_first(), width, height)
    }
}

proof fn lemma_named_index(ms: Seq<MonitorInfo>, name: Seq<char>, i: int)
    requires
        0 <= i <= ms.len(),
        forall|k: int| 0 <= k < i ==> (#[trigger] ms[k]).name@ != name,
        i == ms.len() || ms[i].name@ == name,
    ensures
        named_index(ms, name) == i,
    decreases i,
{
    if i > 0 {
        let t = ms.drop_first();
        assert forall|k: int| 0 <= k < i - 1 implies (#[trigger] t[k]).name@ != name by {
            assert(t[k] == ms[k + 1]);
        }
        if i < ms.len() {
            assert(t[i - 1] == ms[i]);
        }
        lemma_named_index(t, name, i - 1);
    }
}

proof fn lemma_mode_index(ms: Seq<Mode>, width: u16, height: u16, i: int)
    requires
        0 <= i <= ms.len(),
        forall|k: int|
            0 <= k < i ==> !((#[trigger] ms[k]).width == width && ms[k].height == height),
        i == ms.len() || (ms[i].width == width && ms[i].height == height),
    ensures
        mode_index(ms, width, height) == i,
    decreases i,
{
    if i > 0 {
        let t = ms.drop_first();
        assert forall|k: int| 0 <= k < i - 1 implies !((#[trigger] t[k]).width == width && t[k].height
            == height) by {
            assert(t[k] == ms[k + 1]);
        }
        if i < ms.len() {
            assert(t[i - 1] == ms[i]);
        }
        lemma_mode_index(t, width, height, i - 1);
    }
}

fn find_named(ms: &Vec<MonitorInfo>, name: &str) -> (r: usize)
    ensures
        r == named_index(ms@, name@),
        r <= ms.len(),
{
    let mut i: usize = 0;
    while i < ms.len() && !str_eq(ms[i].name.as_str(), name)
        invariant
            i <= ms.len(),
            forall|k: int| 0 <= k < i ==> (#[trigger] ms@[k]).name@ != name@,
        decreases ms.len() - i,
    {
        i = i + 1;
    }
    proof {
        lemma_named_index(ms@, name@, i as int);
    }
    i
}

fn find_mode(ms: &Vec<Mode>, width: u16, height: u16) -> (r: usize)
    ensures
        r == mode_index(ms@, width, height),
        r <= ms.len(),
{
    let mut i: usize = 0;
    while i < ms.len() && !(ms[i].width == width && ms[i].height == height)
        invariant
            i <= ms.len(),
            forall|k: int|
                0 <= k < i ==> !((#[trigger] ms@[k]).width == width && ms@[k].height == height),
        decreases ms.len() - i,
    {
        i = i + 1;
    }
    proof {
        lemma_mode_index(ms@, width, height, i as int);
    }
    i
}

/// `(não definido)` for an empty value, otherwise the value.
pub open spec fn or_unset(s: Seq<char>) -> Seq<char> {
    if s.len() == 0 {
        "(não definido)"@
    } else {
        s
    }
}

/// The value, or `(não definido)` when it is empty.
pub fn se_vazio(s: &str) -> (r: &str)
    ensures
        r@ == or_unset(s@),
{
    if s.is_empty() {
        "(não definido)"
    } else {
        s
    }
}

/// What starting the stream calls for.
#[derive(Debug, Clone)]
pub enum Inicio {
    /// Nothing: a long operation is running or the stream is already on.
    Nada,
    /// Show this error; nothing starts.
    Erro(String),
    /// Locate the monitor, announce its resolution to `ip` and start the
    /// pipeline, then report with `inicio_concluido`.
    Iniciar { ip: String, monitor: String, framerate: u32 },
}

/// What choosing a monitor calls for.
#[derive(Debug, Clone)]
pub enum EscolhaMonitor {
    /// Nothing changed.
    Nada,
    /// The chosen monitor changed: save the settings, list the modes of
    /// `output` (none when it is `None`) and report with `monitor_escolhido`.
    Escolhido { output: Option<String> },
}

/// What choosing a resolution calls for.
#[derive(Debug, Clone)]
pub enum TrocaModo {
    /// Nothing: no such mode, or a long operation is running.
    Nada,
    /// The current monitor has no RandR output whose mode could change.
    SemOutput,
    /// Stop the running session if `estava_rodando`, apply `modo` to
    /// `output`, start again with `ip`, `monitor` and `framerate` when the
    /// mode was applied and the stream was on, then report with
    /// `modo_concluido`.
    Aplicar {
        modo: Mode,
        output: String,
        estava_rodando: bool,
        ip: String,
        monitor: String,
        framerate: u32,
    },
}

/// The text entry to show when the user sets an IP.
#[derive(Debug, Clone)]
pub struct PedidoIp {
    pub titulo: String,
    pub texto: String,
    pub atual: String,
}

/// What a radio group of the menu shows.
#[derive(Debug, Clone)]
pub struct Escolhas {
    /// The options; when empty, the menu shows `vazio` instead.
    pub rotulos: Vec<String>,
    /// Index of the selected option, `usize::MAX` when none is.
    pub selecionado: usize,
    /// The disabled line shown when there is no option.
    pub vazio: String,
}

/// Everything the menu shows that depends on the state.
#[derive(Debug, Clone)]
pub struct MenuModelo {
    /// First status line: what is running, or the status.
    pub linha_status: String,
    /// Second status line: the monitor.
    pub detalhe: String,
    /// Third status line: the connection.
    pub conexao: String,
    /// Label and icon of the start/stop item, and whether it stops.
    pub rotulo_iniciar_parar: String,
    pub icone_iniciar_parar: String,
    pub parar: bool,
    /// Whether the start/stop item, the vkms item and the resolution menu
    /// can be used (not while a long operation runs).
    pub habilitado: bool,
    pub monitores: Escolhas,
    pub modos: Escolhas,
    /// 0 for Wi-Fi, 1 for USB.
    pub conexao_selecionada: usize,
    pub rotulo_ip_wifi: String,
    pub rotulo_ip_usb: String,
}

/// The state of the tray.
pub struct FlmTray {
    pub config: Config,
    /// The running session, if any.
    pub session: Option<SessionInfo>,
    /// Cache of the RandR enumeration, refreshed when the menu opens.
    pub monitores: Vec<MonitorInfo>,
    pub modos: Vec<Mode>,
    pub status: String,
    /// A long operation is under way.
    pub ocupado: bool,
}

/// The outcome of the start sequence: the session, with the failure of the
/// control channel as a warning when it failed; a failure to start the
/// session is the outcome's error. The control channel is deliberately not
/// fatal: an app without the control server keeps working as long as the
/// monitor has the resolution it expects.
pub fn resultado_inicio<S>(controle: Result<(), String>, sessao: Result<S, String>) -> (r: Result<
    (S, Option<String>),
    String,
>)
    ensures
        match sessao {
            Err(e) => r == Err::<(S, Option<String>), String>(e),
            Ok(s) => r matches Ok((s2, aviso)) && s2 == s && match controle {
                Ok(_) => aviso is None,
                Err(e) => aviso == Some(e),
            },
        },
{
    match sessao {
        Err(e) => Err(e),
        Ok(s) => Ok((s, controle.err())),
    }
}

/// Where the start sequence stands.
#[derive(Debug)]
pub enum EtapaInicio {
    /// The monitor is being looked up.
    Procurando,
    /// The resolution is being announced; the capture is `region`.
    Anunciando { region: Region },
    /// The pipeline is being started; `controle` is how the announcement
    /// went.
    Subindo { controle: Result<(), String> },
    /// The sequence ended on a failed lookup.
    Encerrada,
}

/// An outcome the start sequence waits for.
#[derive(Debug)]
pub enum EventoInicio {
    /// The lookup of the monitor: its region, or why it failed.
    Monitor(Result<Region, String>),
    /// The announcement of the resolution to the app.
    Controle(Result<(), String>),
}

/// What the start sequence does next.
#[derive(Debug)]
pub enum AcaoInicio {
    /// End the sequence with this error; nothing is sent or started.
    Falhar(String),
    /// Send `FLM/1 <width>x<height>` to `ip` over the control channel.
    EnviarResolucao { ip: String, width: u16, height: u16 },
    /// Start the pipeline capturing `region` of `monitor` towards `ip`, then
    /// finish with `concluir`.
    IniciarPipeline { ip: String, monitor: String, region: Region, framerate: u32 },
    /// The event does not belong to this point of the sequence.
    Nada,
}

/// The sequence that starts a session: look up the monitor, announce its
/// resolution to the app, and only then bring up the pipeline, so the app
/// has the size before the first RTP packet.
pub struct SequenciaInicio {
    pub ip: String,
    pub monitor: String,
    pub framerate: u32,
    pub etapa: EtapaInicio,
}

impl SequenciaInicio {
    /// A sequence for `ip`, `monitor` and `framerate`, starting with the
    /// lookup of `monitor`.
    pub fn nova(ip: &str, monitor: &str, framerate: u32) -> (r: Self)
        ensures
            r.ip@ == ip@,
            r.monitor@ == monitor@,
            r.framerate == framerate,
            r.etapa is Procurando,
    {
        SequenciaInicio {
            ip: String::from_str(ip),
            monitor: String::from_str(monitor),
            framerate,
            etapa: EtapaInicio::Procurando,
        }
    }

    /// Takes the outcome of the current step and gives the next action.
    ///
    /// - A failed lookup ends the sequence with its error.
    /// - A found monitor leads to announcing its size rounded down to even
    ///   numbers, the size the pipeline encodes.
    /// - Whatever the announcement gave, the pipeline is started next with
    ///   the same ip, monitor and region; a failed announcement is only kept
    ///   as a warning.
    /// - Any other event changes nothing.
    pub fn avancar(&mut self, evento: EventoInicio) -> (r: AcaoInicio)
        ensures
            final(self).ip == old(self).ip,
            final(self).monitor == old(self).monitor,
            final(self).framerate == old(self).framerate,
            match (old(self).etapa, evento) {
                (EtapaInicio::Procurando, EventoInicio::Monitor(Err(e))) => {
                    &&& r matches AcaoInicio::Falhar(m) && m == e
                    &&& final(self).etapa is Encerrada
                },
                (EtapaInicio::Procurando, EventoInicio::Monitor(Ok(region))) => {
                    &&& r matches AcaoInicio::EnviarResolucao { ip, width, height }
                    &&& ip@ == old(self).ip@
                    &&& width == even_floor(region.width)
                    &&& height == even_floor(region.height)
                    &&& final(self).etapa == EtapaInicio::Anunciando { region }
                },
                (EtapaInicio::Anunciando { region }, EventoInicio::Controle(c)) => {
                    &&& r matches AcaoInicio::IniciarPipeline { ip, monitor, region: reg, framerate }
                    &&& ip@ == old(self).ip@
                    &&& monitor@ == old(self).monitor@
                    &&& reg == region
                    &&& framerate == old(self).framerate
                    &&& final(self).etapa == EtapaInicio::Subindo { controle: c }
                },
                _ => r is Nada && final(self).etapa == old(self).etapa,
            },
    {
        match (&self.etapa, evento) {
            (EtapaInicio::Procurando, EventoInicio::Monitor(Err(e))) => {
                self.etapa = EtapaInicio::Encerrada;
                AcaoInicio::Falhar(e)
            },
            (EtapaInicio::Procurando, EventoInicio::Monitor(Ok(region))) => {
                let (width, height) = even_dimensions(region);
                self.etapa = EtapaInicio::Anunciando { region };
                AcaoInicio::EnviarResolucao { ip: self.ip.clone(), width, height }
            },
            (EtapaInicio::Anunciando { region }, EventoInicio::Controle(c)) => {
                let region = *region;
                self.etapa = EtapaInicio::Subindo { controle: c };
                AcaoInicio::IniciarPipeline {
                    ip: self.ip.clone(),
                    monitor: self.monitor.clone(),
                    region,
                    framerate: self.framerate,
                }
            },
            _ => AcaoInicio::Nada,
        }
    }

    /// Whether the pipeline has been asked for, so `concluir` applies.
    pub fn subindo(&self) -> (r: bool)
        ensures
            r == self.etapa is Subindo,
    {
        match self.etapa {
            EtapaInicio::Subindo { .. } => true,
            _ => false,
        }
    }

    /// The outcome of the sequence, given that of starting the pipeline:
    /// see `resultado_inicio`.
    pub fn concluir<S>(self, sessao: Result<S, String>) -> (r: Result<(S, Option<String>), String>)
        requires
            self.etapa is Subindo,
        ensures
            match sessao {
                Err(e) => r == Err::<(S, Option<String>), String>(e),
                Ok(s) => r matches Ok((s2, aviso)) && s2 == s && match self.etapa->controle {
                    Ok(_) => aviso is None,
                    Err(e) => aviso == Some(e),
                },
            },
    {
        match self.etapa {
            EtapaInicio::Subindo { controle } => resultado_inicio(controle, sessao),
            _ => resultado_inicio(Ok(()), sessao),
        }
    }
}

/// After a resolution change, the stream starts again exactly when the mode
/// was applied and a session was running before.
pub fn reiniciar_apos_troca(aplicado: bool, estava_rodando: bool) -> (r: bool)
    ensures
        r == (aplicado && estava_rodando),
{
    aplicado && estava_rodando
}

/// After attaching the vkms provider, the RandR cache is read again exactly
/// when the attachment succeeded (the new monitor must show up).
pub fn atualizar_apos_anexar(resultado: &Result<String, String>) -> (r: bool)
    ensures
        r == resultado is Ok,
{
    resultado.is_ok()
}

/// Status after a failed save: `Falha ao salvar a config: <e>`.
pub open spec fn save_failed_status(e: Seq<char>) -> Seq<char> {
    "Falha ao salvar a config: "@ + e
}

/// The status after saving the settings: unchanged on success.
pub open spec fn status_after_save(status: Seq<char>, salvo: Result<(), String>) -> Seq<char> {
    match salvo {
        Ok(_) => status,
        Err(e) => save_failed_status(e@),
    }
}

impl FlmTray {
    /// The state is the same apart from the status.
    pub open spec fn same_but_status(&self, other: &Self) -> bool {
        &&& self.config == other.config
        &&& self.session == other.session
        &&& self.monitores == other.monitores
        &&& self.modos == other.modos
        &&& self.ocupado == other.ocupado
    }

    pub fn new(config: Config) -> (r: Self)
        ensures
            r.config == config,
            r.session is None,
            r.monitores@.len() == 0,
            r.modos@.len() == 0,
            r.status@ == "Parado"@,
            !r.ocupado,
    {
        FlmTray {
            config,
            session: None,
            monitores: Vec::new(),
            modos: Vec::new(),
            status: String::from_str("Parado"),
            ocupado: false,
        }
    }

    pub fn transmitindo(&self) -> (r: bool)
        ensures
            r == self.session is Some,
    {
        self.session.is_some()
    }

    /// Records the outcome of saving the settings.
    pub fn registrar_salvamento(&mut self, salvo: Result<(), String>)
        ensures
            final(self).same_but_status(old(self)),
            final(self).status@ == status_after_save(old(self).status@, salvo),
    {
        if let Err(e) = salvo {
            let mut s = String::from_str("Falha ao salvar a config: ");
            s.append(e.as_str());
            self.status = s;
        }
    }

    /// Index of the chosen monitor in the cache, `monitores.len()` when it
    /// is not there.
    pub open spec fn current_index(&self) -> int {
        named_index(self.monitores@, self.config.monitor@)
    }

    /// The chosen monitor, when the cache holds it.
    pub fn monitor_atual(&self) -> (r: Option<&MonitorInfo>)
        ensures
            self.current_index() < self.monitores@.len() ==> r == Some(
                &self.monitores@[self.current_index()],
            ),
            self.current_index() >= self.monitores@.len() ==> r is None,
    {
        let i = find_named(&self.monitores, self.config.monitor.as_str());
        if i < self.monitores.len() {
            Some(&self.monitores[i])
        } else {
            None
        }
    }

    /// The first RandR output of the chosen monitor.
    pub open spec fn current_output(&self) -> Option<Seq<char>> {
        let i = self.current_index();
        if i < self.monitores@.len() && self.monitores@[i].outputs@.len() > 0 {
            Some(self.monitores@[i].outputs@[0]@)
        } else {
            None
        }
    }

    /// The first RandR output of the chosen monitor, whose modes the
    /// resolution menu offers.
    pub fn output_atual(&self) -> (r: Option<String>)
        ensures
            match self.current_output() {
                Some(o) => r matches Some(s) && s@ == o,
                None => r is None,
            },
    {
        match self.monitor_atual() {
            Some(m) => {
                if m.outputs.len() > 0 {
                    Some(m.outputs[0].clone())
                } else {
                    None
                }
            },
            None => None,
        }
    }

    // ---- RandR refresh ----
    /// Index of the first monitor that looks virtual, `ms.len()` when none.
    pub open spec fn first_virtual(ms: Seq<MonitorInfo>) -> int
        decreases ms.len(),
    {
        if ms.len() == 0 {
            0
        } else if ms[0].is_virtual_view() {
            0
        } else {
            1 + Self::first_virtual(ms.drop_first())
        }
    }

    /// `first_virtual` is the position of the first monitor that looks
    /// virtual: every monitor before it looks real, and it is `ms.len()`
    /// exactly when none looks virtual.
    pub proof fn lemma_first_virtual(ms: Seq<MonitorInfo>)
        ensures
            0 <= Self::first_virtual(ms) <= ms.len(),
            Self::first_virtual(ms) < ms.len() ==> ms[Self::first_virtual(ms)].is_virtual_view(),
            forall|j: int| 0 <= j < Self::first_virtual(ms) ==> !(#[trigger] ms[j]).is_virtual_view(),
            Self::first_virtual(ms) == ms.len() <==> (forall|k: int|
                0 <= k < ms.len() ==> !(#[trigger] ms[k]).is_virtual_view()),
        decreases ms.len(),
    {
        if ms.len() > 0 && !ms[0].is_virtual_view() {
            let t = ms.drop_first();
            Self::lemma_first_virtual(t);
            assert forall|j: int| 0 <= j < Self::first_virtual(ms) implies !(
            #[trigger] ms[j]).is_virtual_view() by {
                if j > 0 {
                    assert(ms[j] == t[j - 1]);
                }
            }
            if Self::first_virtual(ms) != ms.len() {
                let w = Self::first_virtual(ms);
                assert(ms[w] == t[w - 1]);
            }
            if (forall|k: int| 0 <= k < ms.len() ==> !(#[trigger] ms[k]).is_virtual_view()) {
                assert forall|k: int| 0 <= k < t.len() implies !(#[trigger] t[k]).is_virtual_view() by {
                    assert(t[k] == ms[k + 1]);
                }
            }
        }
    }

    /// Takes the monitor list just read from RandR (or why it could not be
    /// read). On the first run, when no monitor is chosen yet, the first one
    /// that looks virtual is chosen, which is almost always right; the
    /// result then says the settings must be saved. On failure the cache is
    /// emptied and the status says why.
    pub fn receber_monitores(&mut self, lidos: Result<Vec<MonitorInfo>, String>) -> (salvar: bool)
        ensures
            final(self).session == old(self).session,
            final(self).modos == old(self).modos,
            final(self).ocupado == old(self).ocupado,
            final(self).config.mode == old(self).config.mode,
            final(self).config.wifi_ip == old(self).config.wifi_ip,
            final(self).config.usb_ip == old(self).config.usb_ip,
            final(self).config.framerate == old(self).config.framerate,
            match lidos {
                Ok(ms) => {
                    let v = Self::first_virtual(ms@);
                    &&& final(self).monitores == ms
                    &&& final(self).status == old(self).status
                    &&& salvar == (old(self).config.monitor@.len() == 0 && v < ms@.len())
                    &&& salvar ==> final(self).config.monitor@ == ms@[v].name@
                    &&& !salvar ==> final(self).config.monitor == old(self).config.monitor
                    &&& salvar <==> (old(self).config.monitor@.len() == 0 && exists|k: int|
                        0 <= k < ms@.len() && (#[trigger] ms@[k]).is_virtual_view())
                    &&& salvar ==> exists|k: int|
                        0 <= k < ms@.len() && (#[trigger] ms@[k]).is_virtual_view()
                            && final(self).config.monitor@ == ms@[k].name@ && forall|j: int|
                            0 <= j < k ==> !(#[trigger] ms@[j]).is_virtual_view()
                    &&& (forall|k: int| 0 <= k < ms@.len() ==> !(#[trigger] ms@[k]).is_virtual_view())
                        ==> !salvar && final(self).config.monitor == old(self).config.monitor
                },
                Err(e) => {
                    &&& final(self).monitores@.len() == 0
                    &&& final(self).status@ == "RandR indisponível: "@ + e@
                    &&& final(self).config == old(self).config
                    &&& !salvar
                },
            },
    {
        match lidos {
            Ok(ms) => {
                let mut salvar = false;
                if self.config.monitor.as_str().is_empty() {
                    let mut i: usize = 0;
                    assert(ms@.subrange(0, ms@.len() as int) =~= ms@);
                    while i < ms.len() && !ms[i].is_virtual()
                        invariant
                            i <= ms.len(),
                            Self::first_virtual(ms@) == i + Self::first_virtual(
                                ms@.subrange(i as int, ms@.len() as int),
                            ),
                        decreases ms.len() - i,
                    {
                        assert(ms@.subrange(i as int, ms@.len() as int).drop_first()
                            =~= ms@.subrange(i + 1, ms@.len() as int));
                        i = i + 1;
                    }
                    proof {
                        if i < ms.len() {
                            assert(ms@.subrange(i as int, ms@.len() as int)[0] == ms@[i as int]);
                        } else {
                            assert(ms@.subrange(i as int, ms@.len() as int).len() == 0);
                        }
                    }
                    if i < ms.len() {
                        self.config.monitor = ms[i].name.clone();
                        salvar = true;
                    }
                }
                proof {
                    Self::lemma_first_virtual(ms@);
                    let v = Self::first_virtual(ms@);
                    if v < ms@.len() {
                        assert(ms@[v].is_virtual_view());
                    }
                }
                self.monitores = ms;
                salvar
            },
            Err(e) => {
                self.monitores = Vec::new();
                let mut s = String::from_str("RandR indisponível: ");
                s.append(e.as_str());
                self.status = s;
                false
            },
        }
    }

    /// Takes the modes of the chosen monitor's output (none when it has no
    /// output or they could not be read).
    pub fn receber_modos(&mut self, modos: Option<Vec<Mode>>)
        ensures
            final(self).config == old(self).config,
            final(self).session == old(self).session,
            final(self).monitores == old(self).monitores,
            final(self).status == old(self).status,
            final(self).ocupado == old(self).ocupado,
            match modos {
                Some(v) => final(self).modos == v,
                None => final(self).modos@.len() == 0,
            },
    {
        self.modos = match modos {
            Some(v) => v,
            None => Vec::new(),
        };
    }

    /// The running pipeline reported `erro` on its own: the status says so
    /// and the session is dropped; the result says whether the pipeline must
    /// be stopped. Without a session or an error nothing changes.
    pub fn pipeline_caiu(&mut self, erro: Option<String>) -> (parar: bool)
        ensures
            parar == (old(self).session is Some && erro is Some),
            !parar ==> *final(self) == *old(self),
            parar ==> {
                &&& final(self).session is None
                &&& final(self).config == old(self).config
                &&& final(self).monitores == old(self).monitores
                &&& final(self).modos == old(self).modos
                &&& final(self).ocupado == old(self).ocupado
                &&& final(self).status@ == "Pipeline caiu: "@ + erro->0@
            },
    {
        if self.session.is_none() {
            return false;
        }
        match erro {
            Some(e) => {
                let mut s = String::from_str("Pipeline caiu: ");
                s.append(e.as_str());
                self.status = s;
                self.session = None;
                true
            },
            None => false,
        }
    }

    // ---- Start / stop ----
    /// The error shown when no IP is set for the active target.
    pub open spec fn no_ip_message(modo: TargetMode) -> Seq<char> {
        "Nenhum IP configurado para "@ + modo.label_view()
            + ".\n\nUse o menu Conexão → \"Definir IP\" para informar o endereço do dispositivo Android."@
    }

    /// The error shown when no monitor is chosen.
    pub open spec fn no_monitor_message() -> Seq<char> {
        "Nenhum monitor virtual selecionado.\n\nUse o menu \"Monitor virtual\" para escolher (normalmente Virtual-1-1).\nSe a lista estiver vazia, carregue o vkms: sudo modprobe vkms"@
    }

    /// "Iniciar streaming": refuses without an IP for the active target or
    /// without a chosen monitor, does nothing while busy or already
    /// streaming, and otherwise marks the tray busy and asks for the session.
    pub fn acao_iniciar(&mut self) -> (r: Inicio)
        ensures
            (old(self).ocupado || old(self).session is Some) ==> (r is Nada && *final(self) == *old(
                self,
            )),
            !(old(self).ocupado || old(self).session is Some) ==> {
                if old(self).config.active_ip_view().len() == 0 {
                    &&& r matches Inicio::Erro(m) && m@ == Self::no_ip_message(old(self).config.mode)
                    &&& final(self).same_but_status(old(self))
                    &&& final(self).status@ == "Defina o IP de "@ + old(self).config.mode.label_view()
                        + " antes de iniciar"@
                } else if old(self).config.monitor@.len() == 0 {
                    &&& r matches Inicio::Erro(m) && m@ == Self::no_monitor_message()
                    &&& final(self).same_but_status(old(self))
                    &&& final(self).status@ == "Escolha o monitor virtual antes de iniciar"@
                } else {
                    &&& r matches Inicio::Iniciar { ip, monitor, framerate } && ip@
                        == old(self).config.active_ip_view() && monitor@ == old(self).config.monitor@
                        && framerate == old(self).config.framerate
                    &&& final(self).ocupado
                    &&& final(self).status@ == "Iniciando…"@
                    &&& final(self).config == old(self).config
                    &&& final(self).session == old(self).session
                    &&& final(self).monitores == old(self).monitores
                    &&& final(self).modos == old(self).modos
                }
            },
    {
        if self.ocupado || self.transmitindo() {
            return Inicio::Nada;
        }
        let ip = String::from_str(self.config.active_ip());
        if ip.as_str().is_empty() {
            let modo = self.config.mode.label();
            let mut status = String::from_str("Defina o IP de ");
            status.append(modo);
            status.append(" antes de iniciar");
            self.status = status;
            let mut msg = String::from_str("Nenhum IP configurado para ");
            msg.append(modo);
            msg.append(
                ".\n\nUse o menu Conexão → \"Definir IP\" para informar o endereço do dispositivo Android.",
            );
            return Inicio::Erro(msg);
        }
        if self.config.monitor.as_str().is_empty() {
            self.status = String::from_str("Escolha o monitor virtual antes de iniciar");
            return Inicio::Erro(
                String::from_str(
                    "Nenhum monitor virtual selecionado.\n\nUse o menu \"Monitor virtual\" para escolher (normalmente Virtual-1-1).\nSe a lista estiver vazia, carregue o vkms: sudo modprobe vkms",
                ),
            );
        }
        self.ocupado = true;
        self.status = String::from_str("Iniciando…");
        Inicio::Iniciar {
            ip,
            monitor: self.config.monitor.clone(),
            framerate: self.config.framerate,
        }
    }

    /// The dialog shown when the stream started but the control channel
    /// failed with `a`.
    pub open spec fn control_warning_message(a: Seq<char>) -> Seq<char> {
        "O streaming começou, mas o canal de controle falhou:\n\n"@ + a
            + "\n\nO app Android vai continuar usando a resolução que já tinha. Se a imagem não aparecer, abra o app e reinicie o streaming."@
    }

    /// Outcome of starting a session: either the session with, perhaps, a
    /// non-fatal warning from the control channel, or the error. The tray
    /// is no longer busy; the result is the dialog to show, if any.
    pub fn inicio_concluido(&mut self, resultado: Result<(SessionInfo, Option<String>), String>) -> (r:
        Option<String>)
        ensures
            !final(self).ocupado,
            final(self).config == old(self).config,
            final(self).monitores == old(self).monitores,
            final(self).modos == old(self).modos,
            match resultado {
                Ok((sessao, aviso)) => {
                    &&& final(self).session == Some(sessao)
                    &&& match aviso {
                        Some(a) => {
                            &&& final(self).status@ == "Transmitindo (aviso: "@ + a@ + ")"@
                            &&& r matches Some(m) && m@ == Self::control_warning_message(a@)
                        },
                        None => final(self).status@ == "Transmitindo"@ && r is None,
                    }
                },
                Err(e) => {
                    &&& final(self).session == old(self).session
                    &&& final(self).status@ == "Erro ao iniciar: "@ + e@
                    &&& r matches Some(m) && m@ == "Não foi possível iniciar o streaming:\n\n"@ + e@
                },
            },
    {
        self.ocupado = false;
        match resultado {
            Ok((sessao, aviso)) => {
                self.session = Some(sessao);
                match aviso {
                    Some(a) => {
                        let mut status = String::from_str("Transmitindo (aviso: ");
                        status.append(a.as_str());
                        status.append(")");
                        self.status = status;
                        let mut m = String::from_str(
                            "O streaming começou, mas o canal de controle falhou:\n\n",
                        );
                        m.append(a.as_str());
                        m.append(
                            "\n\nO app Android vai continuar usando a resolução que já tinha. Se a imagem não aparecer, abra o app e reinicie o streaming.",
                        );
                        Some(m)
                    },
                    None => {
                        self.status = String::from_str("Transmitindo");
                        None
                    },
                }
            },
            Err(e) => {
                let mut status = String::from_str("Erro ao iniciar: ");
                status.append(e.as_str());
                self.status = status;
                let mut m = String::from_str("Não foi possível iniciar o streaming:\n\n");
                m.append(e.as_str());
                Some(m)
            },
        }
    }

    /// "Parar streaming": drops the session, whose pipeline must then be
    /// stopped (the result says so), and reports "Parando…". Without a
    /// session nothing changes.
    pub fn acao_parar(&mut self) -> (parar: bool)
        ensures
            parar == old(self).session is Some,
            !parar ==> *final(self) == *old(self),
            parar ==> {
                &&& final(self).session is None
                &&& final(self).status@ == "Parando…"@
                &&& final(self).config == old(self).config
                &&& final(self).monitores == old(self).monitores
                &&& final(self).modos == old(self).modos
                &&& final(self).ocupado == old(self).ocupado
            },
    {
        if self.session.is_none() {
            return false;
        }
        self.session = None;
        self.status = String::from_str("Parando…");
        true
    }

    /// The pipeline has stopped.
    pub fn parada_concluida(&mut self)
        ensures
            final(self).same_but_status(old(self)),
            final(self).status@ == "Parado"@,
    {
        self.status = String::from_str("Parado");
    }

    // ---- Monitor ----
    /// Choosing monitor `idx` of the menu. Nothing happens for an index out
    /// of the list or for the monitor already chosen; otherwise it becomes
    /// the chosen one, and the settings must be saved and the modes of its
    /// first output listed.
    pub fn acao_escolher_monitor(&mut self, idx: usize) -> (r: EscolhaMonitor)
        ensures
            (idx >= old(self).monitores@.len() || old(self).monitores@[idx as int].name@ == old(
                self,
            ).config.monitor@) ==> (r is Nada && *final(self) == *old(self)),
            (idx < old(self).monitores@.len() && old(self).monitores@[idx as int].name@ != old(
                self,
            ).config.monitor@) ==> {
                let m = old(self).monitores@[idx as int];
                &&& final(self).config.monitor@ == m.name@
                &&& final(self).config.mode == old(self).config.mode
                &&& final(self).config.wifi_ip == old(self).config.wifi_ip
                &&& final(self).config.usb_ip == old(self).config.usb_ip
                &&& final(self).config.framerate == old(self).config.framerate
                &&& final(self).session == old(self).session
                &&& final(self).monitores == old(self).monitores
                &&& final(self).modos == old(self).modos
                &&& final(self).ocupado == old(self).ocupado
                &&& final(self).status == old(self).status
                &&& r matches EscolhaMonitor::Escolhido { output }
                &&& if m.outputs@.len() > 0 {
                    output matches Some(o) && o@ == m.outputs@[0]@
                } else {
                    output is None
                }
            },
    {
        if idx >= self.monitores.len() {
            return EscolhaMonitor::Nada;
        }
        if self.monitores[idx].name == self.config.monitor {
            return EscolhaMonitor::Nada;
        }
        let nome = self.monitores[idx].name.clone();
        let output = if self.monitores[idx].outputs.len() > 0 {
            Some(self.monitores[idx].outputs[0].clone())
        } else {
            None
        };
        self.config.monitor = nome;
        EscolhaMonitor::Escolhido { output }
    }

    /// After choosing a monitor: the outcome of saving the settings and the
    /// modes of its output. While streaming, the status asks for a restart.
    pub fn monitor_escolhido(&mut self, salvo: Result<(), String>, modos: Option<Vec<Mode>>)
        ensures
            final(self).config == old(self).config,
            final(self).session == old(self).session,
            final(self).monitores == old(self).monitores,
            final(self).ocupado == old(self).ocupado,
            match modos {
                Some(v) => final(self).modos == v,
                None => final(self).modos@.len() == 0,
            },
            old(self).session is Some ==> final(self).status@
                == "Monitor alterado — reinicie o streaming"@,
            old(self).session is None ==> final(self).status@ == status_after_save(
                old(self).status@,
                salvo,
            ),
    {
        self.registrar_salvamento(salvo);
        self.receber_modos(modos);
        if self.transmitindo() {
            self.status = String::from_str("Monitor alterado — reinicie o streaming");
        }
    }

    // ---- Resolution ----
    /// Choosing mode `idx`. With the stream on, this takes the full cycle:
    /// stop the pipeline, apply the mode, announce the new resolution (the
    /// decoder does not renegotiate dimensions) and start again.
    pub fn acao_escolher_modo(&mut self, idx: usize) -> (r: TrocaModo)
        ensures
            idx >= old(self).modos@.len() ==> (r is Nada && *final(self) == *old(self)),
            idx < old(self).modos@.len() && old(self).current_output() is None ==> (r is SemOutput
                && final(self).same_but_status(old(self)) && final(self).status@
                == "Este monitor não tem output RandR para trocar de modo"@),
            idx < old(self).modos@.len() && old(self).current_output() is Some && old(self).ocupado
                ==> (r is Nada && *final(self) == *old(self)),
            idx < old(self).modos@.len() && old(self).current_output() is Some && !old(
                self,
            ).ocupado ==> {
                let modo = old(self).modos@[idx as int];
                &&& r matches TrocaModo::Aplicar {
                    modo: m,
                    output,
                    estava_rodando,
                    ip,
                    monitor,
                    framerate,
                }
                &&& m == modo
                &&& output@ == old(self).current_output()->0
                &&& estava_rodando == old(self).session is Some
                &&& ip@ == old(self).config.active_ip_view()
                &&& monitor@ == old(self).config.monitor@
                &&& framerate == old(self).config.framerate
                &&& final(self).session is None
                &&& final(self).ocupado
                &&& final(self).status@ == "Aplicando "@ + mode_text(modo) + "…"@
                &&& final(self).config == old(self).config
                &&& final(self).monitores == old(self).monitores
                &&& final(self).modos == old(self).modos
            },
    {
        if idx >= self.modos.len() {
            return TrocaModo::Nada;
        }
        let modo = self.modos[idx];
        let output = match self.output_atual() {
            Some(o) => o,
            None => {
                self.status = String::from_str(
                    "Este monitor não tem output RandR para trocar de modo",
                );
                return TrocaModo::SemOutput;
            },
        };
        if self.ocupado {
            return TrocaModo::Nada;
        }
        let estava_rodando = self.transmitindo();
        self.session = None;
        let ip = String::from_str(self.config.active_ip());
        let monitor = self.config.monitor.clone();
        let framerate = self.config.framerate;
        self.ocupado = true;
        let mut status = String::from_str("Aplicando ");
        status.append(mode_string(modo).as_str());
        status.append("…");
        self.status = status;
        TrocaModo::Aplicar { modo, output, estava_rodando, ip, monitor, framerate }
    }

    /// The dialog shown when changing to `modo` went wrong with `e`.
    pub open spec fn mode_problem_message(modo: Mode, e: Seq<char>) -> Seq<char> {
        "Problema ao trocar a resolução para "@ + mode_text(modo) + ":\n\n"@ + e
    }

    /// The problem of a resolution change: the `xrandr` failure; else, when
    /// the stream had to start again, its failure or the control-channel
    /// warning; else none.
    pub open spec fn mode_change_problem(
        aplicado: Result<(), String>,
        reinicio: Option<Result<(SessionInfo, Option<String>), String>>,
    ) -> Option<Seq<char>> {
        match aplicado {
            Err(e) => Some(e@),
            Ok(_) => match reinicio {
                Some(Ok((_, Some(a)))) => Some(a@),
                Some(Err(e)) => Some(e@),
                _ => None,
            },
        }
    }

    /// A resolution change reports a problem exactly when `xrandr` failed,
    /// the stream could not start again, or it started with a warning; the
    /// problem is that failure or warning, and a stream that could not start
    /// again is reported, never passed over.
    pub proof fn lemma_mode_change_problem(
        aplicado: Result<(), String>,
        reinicio: Option<Result<(SessionInfo, Option<String>), String>>,
    )
        ensures
            aplicado matches Err(e) ==> Self::mode_change_problem(aplicado, reinicio) == Some(e@),
            aplicado is Ok ==> (reinicio matches Some(Err(e)) ==> Self::mode_change_problem(
                aplicado,
                reinicio,
            ) == Some(e@)),
            aplicado is Ok ==> (reinicio matches Some(Ok((_, Some(a)))) ==> Self::mode_change_problem(
                aplicado,
                reinicio,
            ) == Some(a@)),
            Self::mode_change_problem(aplicado, reinicio) is None <==> (aplicado is Ok && (
            reinicio is None || reinicio matches Some(Ok((_, None))))),
    {
    }

    /// The session running after a resolution change.
    pub open spec fn mode_change_session(
        aplicado: Result<(), String>,
        reinicio: Option<Result<(SessionInfo, Option<String>), String>>,
    ) -> Option<SessionInfo> {
        match aplicado {
            Err(_) => None,
            Ok(_) => match reinicio {
                Some(Ok((s, _))) => Some(s),
                _ => None,
            },
        }
    }

    /// Outcome of a resolution change: `aplicado` is the outcome of
    /// `xrandr`, `reinicio` that of starting the stream again (when it was
    /// attempted). The tray is no longer busy; the result is the dialog to
    /// show, if any.
    pub fn modo_concluido(
        &mut self,
        modo: Mode,
        aplicado: Result<(), String>,
        reinicio: Option<Result<(SessionInfo, Option<String>), String>>,
    ) -> (r: Option<String>)
        ensures
            !final(self).ocupado,
            final(self).config == old(self).config,
            final(self).monitores == old(self).monitores,
            final(self).modos == old(self).modos,
            final(self).session == Self::mode_change_session(aplicado, reinicio),
            match Self::mode_change_problem(aplicado, reinicio) {
                None => {
                    &&& r is None
                    &&& final(self).session is Some ==> final(self).status@ == "Transmitindo"@
                    &&& final(self).session is None ==> final(self).status@ == "Modo "@
                        + mode_text(modo) + " aplicado"@
                },
                Some(e) => {
                    &&& r matches Some(m) && m@ == Self::mode_problem_message(modo, e)
                    &&& final(self).status@ == "Falha ao aplicar "@ + mode_text(modo) + ": "@ + e
                },
            },
            aplicado matches Err(e) ==> {
                &&& r matches Some(m) && m@ == Self::mode_problem_message(modo, e@)
                &&& final(self).status@ == "Falha ao aplicar "@ + mode_text(modo) + ": "@ + e@
                &&& final(self).session is None
            },
            aplicado is Ok ==> match reinicio {
                Some(Err(e)) => {
                    &&& r matches Some(m) && m@ == Self::mode_problem_message(modo, e@)
                    &&& final(self).status@ == "Falha ao aplicar "@ + mode_text(modo) + ": "@ + e@
                    &&& final(self).session is None
                },
                Some(Ok((s, Some(a)))) => {
                    &&& r matches Some(m) && m@ == Self::mode_problem_message(modo, a@)
                    &&& final(self).status@ == "Falha ao aplicar "@ + mode_text(modo) + ": "@ + a@
                    &&& final(self).session == Some(s)
                },
                Some(Ok((s, None))) => {
                    &&& r is None
                    &&& final(self).status@ == "Transmitindo"@
                    &&& final(self).session == Some(s)
                },
                None => {
                    &&& r is None
                    &&& final(self).status@ == "Modo "@ + mode_text(modo) + " aplicado"@
                    &&& final(self).session is None
                },
            },
    {
        proof {
            Self::lemma_mode_change_problem(aplicado, reinicio);
        }
        self.ocupado = false;
        let mut erro: Option<String> = match aplicado {
            Err(e) => Some(e),
            Ok(_) => None,
        };
        let mut nova: Option<SessionInfo> = None;
        if erro.is_none() {
            match reinicio {
                Some(Ok((s, aviso))) => {
                    nova = Some(s);
                    erro = aviso;
                },
                Some(Err(e)) => {
                    erro = Some(e);
                },
                None => {},
            }
        }
        self.session = nova;
        let texto_modo = mode_string(modo);
        match erro {
            None => {
                if self.transmitindo() {
                    self.status = String::from_str("Transmitindo");
                } else {
                    let mut s = String::from_str("Modo ");
                    s.append(texto_modo.as_str());
                    s.append(" aplicado");
                    self.status = s;
                }
                None
            },
            Some(e) => {
                let mut s = String::from_str("Falha ao aplicar ");
                s.append(texto_modo.as_str());
                s.append(": ");
                s.append(e.as_str());
                self.status = s;
                let mut m = String::from_str("Problema ao trocar a resolução para ");
                m.append(texto_modo.as_str());
                m.append(":\n\n");
                m.append(e.as_str());
                Some(m)
            },
        }
    }

    // ---- Connection ----
    /// The saved IP of `alvo`.
    pub open spec fn ip_of(&self, alvo: TargetMode) -> Seq<char> {
        match alvo {
            TargetMode::Wifi => self.config.wifi_ip@,
            TargetMode::Usb => self.config.usb_ip@,
        }
    }

    /// The hint shown when asking for the IP of `alvo`.
    pub open spec fn ip_hint(alvo: TargetMode) -> Seq<char> {
        match alvo {
            TargetMode::Wifi => "Endereço IP do dispositivo Android na rede Wi-Fi.\nVeja em Configurações → Sobre o telefone → Status."@,
            TargetMode::Usb => "Endereço IP do dispositivo Android via tethering USB.\nCostuma ser algo como 192.168.x.1 — confira com `ip addr` na interface usb0."@,
        }
    }

    /// The entry box asking for the IP of `alvo`, prefilled with the one
    /// saved.
    pub fn acao_definir_ip(&self, alvo: TargetMode) -> (r: PedidoIp)
        ensures
            r.titulo@ == "FLM — IP via "@ + alvo.label_view(),
            r.texto@ == Self::ip_hint(alvo),
            r.atual@ == self.ip_of(alvo),
    {
        let atual = match alvo {
            TargetMode::Wifi => self.config.wifi_ip.clone(),
            TargetMode::Usb => self.config.usb_ip.clone(),
        };
        let mut titulo = String::from_str("FLM — IP via ");
        titulo.append(alvo.label());
        let texto = match alvo {
            TargetMode::Wifi => String::from_str(
                "Endereço IP do dispositivo Android na rede Wi-Fi.\nVeja em Configurações → Sobre o telefone → Status.",
            ),
            TargetMode::Usb => String::from_str(
                "Endereço IP do dispositivo Android via tethering USB.\nCostuma ser algo como 192.168.x.1 — confira com `ip addr` na interface usb0.",
            ),
        };
        PedidoIp { titulo, texto, atual }
    }

    /// Stores `novo` as the IP of `alvo`; the settings must then be saved.
    /// The other target's IP is kept.
    pub fn definir_ip(&mut self, alvo: TargetMode, novo: String)
        ensures
            final(self).ip_of(alvo) == novo@,
            alvo == TargetMode::Wifi ==> final(self).config.usb_ip == old(self).config.usb_ip,
            alvo == TargetMode::Usb ==> final(self).config.wifi_ip == old(self).config.wifi_ip,
            final(self).config.mode == old(self).config.mode,
            final(self).config.monitor == old(self).config.monitor,
            final(self).config.framerate == old(self).config.framerate,
            final(self).session == old(self).session,
            final(self).monitores == old(self).monitores,
            final(self).modos == old(self).modos,
            final(self).ocupado == old(self).ocupado,
            final(self).status == old(self).status,
    {
        match alvo {
            TargetMode::Wifi => self.config.wifi_ip = novo,
            TargetMode::Usb => self.config.usb_ip = novo,
        }
    }

    /// After setting the IP of `alvo` to `novo` and saving: when `alvo` is
    /// the active target, the status reports the new IP, or asks for a
    /// restart while streaming.
    pub fn ip_salvo(&mut self, alvo: TargetMode, novo: &str, salvo: Result<(), String>)
        ensures
            final(self).same_but_status(old(self)),
            old(self).config.mode != alvo ==> final(self).status@ == status_after_save(
                old(self).status@,
                salvo,
            ),
            old(self).config.mode == alvo && old(self).session is Some ==> final(self).status@
                == "IP alterado — reinicie o streaming"@,
            old(self).config.mode == alvo && old(self).session is None ==> final(self).status@
                == "IP de "@ + alvo.label_view() + " definido: "@ + novo@,
    {
        self.registrar_salvamento(salvo);
        if self.config.mode == alvo {
            if self.transmitindo() {
                self.status = String::from_str("IP alterado — reinicie o streaming");
            } else {
                let mut s = String::from_str("IP de ");
                s.append(alvo.label());
                s.append(" definido: ");
                s.append(novo);
                self.status = s;
            }
        }
    }

    /// Choosing connection `i` of the menu (0 Wi-Fi, anything else USB).
    /// When the target changes the settings must be saved (the result); the
    /// saved IPs stay as they were.
    pub fn escolher_conexao(&mut self, i: usize) -> (mudou: bool)
        ensures
            ({
                let novo = if i == 0 {
                    TargetMode::Wifi
                } else {
                    TargetMode::Usb
                };
                &&& mudou == (novo != old(self).config.mode)
                &&& final(self).config.mode == novo
            }),
            final(self).config.wifi_ip == old(self).config.wifi_ip,
            final(self).config.usb_ip == old(self).config.usb_ip,
            final(self).config.monitor == old(self).config.monitor,
            final(self).config.framerate == old(self).config.framerate,
            final(self).session == old(self).session,
            final(self).monitores == old(self).monitores,
            final(self).modos == old(self).modos,
            final(self).ocupado == old(self).ocupado,
            final(self).status == old(self).status,
    {
        let novo = if i == 0 {
            TargetMode::Wifi
        } else {
            TargetMode::Usb
        };
        if novo != self.config.mode {
            self.config.mode = novo;
            true
        } else {
            false
        }
    }

    /// After changing the target and saving: while streaming, the status
    /// asks for a restart.
    pub fn conexao_salva(&mut self, salvo: Result<(), String>)
        ensures
            final(self).same_but_status(old(self)),
            old(self).session is Some ==> final(self).status@
                == "Conexão alterada — reinicie o streaming"@,
            old(self).session is None ==> final(self).status@ == status_after_save(
                old(self).status@,
                salvo,
            ),
    {
        self.registrar_salvamento(salvo);
        if self.transmitindo() {
            self.status = String::from_str("Conexão alterada — reinicie o streaming");
        }
    }

    // ---- vkms ----
    /// "Anexar provider vkms": does nothing while busy (result `false`);
    /// otherwise marks the tray busy, and the attachment must be made.
    pub fn acao_anexar_vkms(&mut self) -> (anexar: bool)
        ensures
            anexar == !old(self).ocupado,
            !anexar ==> *final(self) == *old(self),
            anexar ==> {
                &&& final(self).ocupado
                &&& final(self).status@ == "Anexando provider vkms…"@
                &&& final(self).config == old(self).config
                &&& final(self).session == old(self).session
                &&& final(self).monitores == old(self).monitores
                &&& final(self).modos == old(self).modos
            },
    {
        if self.ocupado {
            return false;
        }
        self.ocupado = true;
        self.status = String::from_str("Anexando provider vkms…");
        true
    }

    /// Outcome of attaching the provider: its description, or the error.
    /// On success the RandR cache is refreshed before this is called. The
    /// tray is no longer busy; the result is the dialog to show, if any.
    pub fn vkms_concluido(&mut self, resultado: Result<String, String>) -> (r: Option<String>)
        ensures
            !final(self).ocupado,
            final(self).config == old(self).config,
            final(self).session == old(self).session,
            final(self).monitores == old(self).monitores,
            final(self).modos == old(self).modos,
            match resultado {
                Ok(d) => final(self).status@ == "Provider anexado: "@ + d@ && r is None,
                Err(e) => {
                    &&& final(self).status@ == "Falha ao anexar o provider: "@ + e@
                    &&& r matches Some(m) && m@ == "Não foi possível anexar o provider do vkms:\n\n"@
                        + e@
                },
            },
    {
        self.ocupado = false;
        match resultado {
            Ok(d) => {
                let mut s = String::from_str("Provider anexado: ");
                s.append(d.as_str());
                self.status = s;
                None
            },
            Err(e) => {
                let mut s = String::from_str("Falha ao anexar o provider: ");
                s.append(e.as_str());
                self.status = s;
                let mut m = String::from_str("Não foi possível anexar o provider do vkms:\n\n");
                m.append(e.as_str());
                Some(m)
            },
        }
    }
    // ---- What the tray shows ----
    /// The icon is highlighted (status "Active") while streaming.
    pub fn ativo(&self) -> (r: bool)
        ensures
            r == self.session is Some,
    {
        self.transmitindo()
    }

    /// The tooltip: what is being streamed, or the status.
    pub open spec fn tooltip_view(&self) -> Seq<char> {
        match self.session {
            Some(s) => "Transmitindo "@ + s.monitor@ + " ("@ + dims_text(s.width as nat, s.height as nat)
                + ") para "@ + s.host@,
            None => self.status@,
        }
    }

    pub fn descricao_dica(&self) -> (r: String)
        ensures
            r@ == self.tooltip_view(),
    {
        match &self.session {
            Some(s) => {
                let mut r = String::from_str("Transmitindo ");
                r.append(s.monitor.as_str());
                r.append(" (");
                push_decimal(&mut r, s.width as u32);
                r.append("x");
                push_decimal(&mut r, s.height as u32);
                r.append(") para ");
                r.append(s.host.as_str());
                r
            },
            None => self.status.clone(),
        }
    }

    /// The encoder the About text names: that of the running session, or
    /// none while stopped.
    pub open spec fn encoder_view(&self) -> Seq<char> {
        match self.session {
            Some(s) => s.encoder.label_view(),
            None => "(nenhum — streaming parado)"@,
        }
    }

    /// The "About" text, given the program's version and the settings file
    /// (`None` when it cannot be located).
    pub open spec fn about_view(&self, versao: Seq<char>, caminho: Option<Seq<char>>) -> Seq<char> {
        "FLM — Free Linux Monitor on Android\nv"@ + versao + "\n\nMonitor virtual: "@ + or_unset(
            self.config.monitor@,
        ) + "\nIP Wi-Fi: "@ + or_unset(self.config.wifi_ip@) + "\nIP USB: "@ + or_unset(
            self.config.usb_ip@,
        ) + "\n\nMídia: RTP/H.264 em UDP "@ + decimal(UDP_PORT as nat) + "\nCodificador: "@
            + self.encoder_view() + "\nControle: TCP "@
            + decimal(CONTROL_PORT as nat) + " (envia a resolução ao app)\n\nConfiguração: "@
            + match caminho {
            Some(c) => c,
            None => "(desconhecido)"@,
        } + "\n\nLicença GPLv3."@
    }

    pub fn texto_sobre(&self, versao: &str, caminho: Option<String>) -> (r: String)
        ensures
            r@ == self.about_view(
                versao@,
                match caminho {
                    Some(c) => Some(c@),
                    None => None,
                },
            ),
    {
        let mut r = String::from_str("FLM — Free Linux Monitor on Android\nv");
        r.append(versao);
        r.append("\n\nMonitor virtual: ");
        r.append(se_vazio(self.config.monitor.as_str()));
        r.append("\nIP Wi-Fi: ");
        r.append(se_vazio(self.config.wifi_ip.as_str()));
        r.append("\nIP USB: ");
        r.append(se_vazio(self.config.usb_ip.as_str()));
        r.append("\n\nMídia: RTP/H.264 em UDP ");
        push_decimal(&mut r, UDP_PORT);
        r.append("\nCodificador: ");
        match &self.session {
            Some(s) => r.append(s.encoder.label()),
            None => r.append("(nenhum — streaming parado)"),
        }
        r.append("\nControle: TCP ");
        push_decimal(&mut r, CONTROL_PORT as u32);
        r.append(" (envia a resolução ao app)\n\nConfiguração: ");
        match &caminho {
            Some(c) => r.append(c.as_str()),
            None => r.append("(desconhecido)"),
        }
        r.append("\n\nLicença GPLv3.");
        r
    }

    /// Second status line of the menu: the monitor being streamed, else the
    /// chosen one as RandR sees it, else that none is chosen or that the
    /// chosen one is missing.
    pub open spec fn detail_view(&self) -> Seq<char> {
        match self.session {
            Some(s) => "   Monitor: "@ + s.monitor@ + " — "@ + dims_text(s.width as nat, s.height as nat),
            None => if self.current_index() < self.monitores@.len() {
                let m = self.monitores@[self.current_index()];
                "   Monitor: "@ + m.name@ + " — "@ + dims_text(
                    m.region.width as nat,
                    m.region.height as nat,
                )
            } else if self.config.monitor@.len() == 0 {
                "   Monitor: (não escolhido)"@
            } else {
                "   Monitor: "@ + self.config.monitor@ + " (ausente!)"@
            },
        }
    }

    /// While a session runs, the detail line names the monitor and size the
    /// session captures, whatever monitor the settings name or RandR lists:
    /// two trays running the same session show the same line.
    pub proof fn lemma_detail_names_session(&self, other: &Self)
        ensures
            self.session matches Some(s) ==> self.detail_view() == "   Monitor: "@ + s.monitor@
                + " — "@ + dims_text(s.width as nat, s.height as nat),
            (self.session is Some && other.session == self.session) ==> other.detail_view()
                == self.detail_view(),
    {
    }

    /// Index of the mode matching the chosen monitor's current size, when
    /// the monitor is known and one matches.
    pub open spec fn selected_mode(&self) -> Option<int> {
        let ci = self.current_index();
        if ci < self.monitores@.len() {
            let m = self.monitores@[ci];
            let k = mode_index(self.modos@, m.region.width, m.region.height);
            if k < self.modos@.len() {
                Some(k)
            } else {
                None
            }
        } else {
            None
        }
    }

    /// Everything the menu shows that depends on the state. With the stream
    /// on, the status lines show what the session is actually using, which
    /// differs from the settings after the user edits the IP or changes the
    /// monitor without restarting.
    pub fn menu_modelo(&self) -> (r: MenuModelo)
        ensures
            r.linha_status@ == (match self.session {
                Some(s) => "● Transmitindo para "@ + s.host@,
                None => "○ "@ + self.status@,
            }),
            r.detalhe@ == self.detail_view(),
            self.session matches Some(s) ==> r.detalhe@ == "   Monitor: "@ + s.monitor@ + " — "@
                + dims_text(s.width as nat, s.height as nat),
            self.session is None ==> r.detalhe@ == (if self.current_index()
                < self.monitores@.len() {
                "   Monitor: "@ + self.monitores@[self.current_index()].name@ + " — "@ + dims_text(
                    self.monitores@[self.current_index()].region.width as nat,
                    self.monitores@[self.current_index()].region.height as nat,
                )
            } else if self.config.monitor@.len() == 0 {
                "   Monitor: (não escolhido)"@
            } else {
                "   Monitor: "@ + self.config.monitor@ + " (ausente!)"@
            }),
            r.conexao@ == "   Conexão: "@ + self.config.mode.label_view(),
            r.parar == self.session is Some,
            r.rotulo_iniciar_parar@ == (if self.session is Some {
                "Parar streaming"@
            } else {
                "Iniciar streaming"@
            }),
            r.icone_iniciar_parar@ == (if self.session is Some {
                "media-playback-stop"@
            } else {
                "media-playback-start"@
            }),
            r.habilitado == !self.ocupado,
            views(r.monitores.rotulos@) == self.monitores@.map_values(
                |m: MonitorInfo| m.label_view(),
            ),
            r.monitores.selecionado == (if self.current_index() < self.monitores@.len() {
                self.current_index()
            } else {
                usize::MAX as int
            }),
            r.monitores.vazio@ == "(nenhum monitor detectado)"@,
            views(r.modos.rotulos@) == self.modos@.map_values(|m: Mode| mode_text(m)),
            r.modos.selecionado == (match self.selected_mode() {
                Some(k) => k,
                None => usize::MAX as int,
            }),
            r.modos.vazio@ == "(sem modos — monitor sem output RandR)"@,
            r.conexao_selecionada == (match self.config.mode {
                TargetMode::Wifi => 0int,
                TargetMode::Usb => 1int,
            }),
            r.rotulo_ip_wifi@ == "Definir IP Wi-Fi… "@ + or_unset(self.config.wifi_ip@),
            r.rotulo_ip_usb@ == "Definir IP USB… "@ + or_unset(self.config.usb_ip@),
    {
        let linha_status = match &self.session {
            Some(s) => {
                let mut l = String::from_str("● Transmitindo para ");
                l.append(s.host.as_str());
                l
            },
            None => {
                let mut l = String::from_str("○ ");
                l.append(self.status.as_str());
                l
            },
        };
        let ci = find_named(&self.monitores, self.config.monitor.as_str());
        let detalhe = match &self.session {
            Some(s) => {
                let mut d = String::from_str("   Monitor: ");
                d.append(s.monitor.as_str());
                d.append(" — ");
                push_decimal(&mut d, s.width as u32);
                d.append("x");
                push_decimal(&mut d, s.height as u32);
                d
            },
            None => {
                if ci < self.monitores.len() {
                    let m = &self.monitores[ci];
                    let mut d = String::from_str("   Monitor: ");
                    d.append(m.name.as_str());
                    d.append(" — ");
                    push_decimal(&mut d, m.region.width as u32);
                    d.append("x");
                    push_decimal(&mut d, m.region.height as u32);
                    d
                } else if self.config.monitor.as_str().is_empty() {
                    String::from_str("   Monitor: (não escolhido)")
                } else {
                    let mut d = String::from_str("   Monitor: ");
                    d.append(self.config.monitor.as_str());
                    d.append(" (ausente!)");
                    d
                }
            },
        };
        let mut conexao = String::from_str("   Conexão: ");
        conexao.append(self.config.mode.label());
        let parar = self.transmitindo();
        let (rotulo_iniciar_parar, icone_iniciar_parar) = if parar {
            (String::from_str("Parar streaming"), String::from_str("media-playback-stop"))
        } else {
            (String::from_str("Iniciar streaming"), String::from_str("media-playback-start"))
        };

        let mut rotulos_monitores: Vec<String> = Vec::new();
        let mut k: usize = 0;
        while k < self.monitores.len()
            invariant
                k <= self.monitores.len(),
                views(rotulos_monitores@) == self.monitores@.take(k as int).map_values(
                    |m: MonitorInfo| m.label_view(),
                ),
            decreases self.monitores.len() - k,
        {
            rotulos_monitores.push(self.monitores[k].label());
            assert(self.monitores@.take(k + 1).map_values(|m: MonitorInfo| m.label_view())
                =~= self.monitores@.take(k as int).map_values(|m: MonitorInfo| m.label_view()).push(
                self.monitores@[k as int].label_view(),
            ));
            k = k + 1;
        }
        assert(self.monitores@.take(k as int) =~= self.monitores@);
        let monitores = Escolhas {
            rotulos: rotulos_monitores,
            selecionado: if ci < self.monitores.len() {
                ci
            } else {
                usize::MAX
            },
            vazio: String::from_str("(nenhum monitor detectado)"),
        };

        let mut rotulos_modos: Vec<String> = Vec::new();
        let mut k: usize = 0;
        while k < self.modos.len()
            invariant
                k <= self.modos.len(),
                views(rotulos_modos@) == self.modos@.take(k as int).map_values(|m: Mode| mode_text(m)),
            decreases self.modos.len() - k,
        {
            rotulos_modos.push(mode_string(self.modos[k]));
            assert(self.modos@.take(k + 1).map_values(|m: Mode| mode_text(m)) =~= self.modos@.take(
                k as int,
            ).map_values(|m: Mode| mode_text(m)).push(mode_text(self.modos@[k as int])));
            k = k + 1;
        }
        assert(self.modos@.take(k as int) =~= self.modos@);
        let modo_sel = if ci < self.monitores.len() {
            let m = &self.monitores[ci];
            let j = find_mode(&self.modos, m.region.width, m.region.height);
            if j < self.modos.len() {
                j
            } else {
                usize::MAX
            }
        } else {
            usize::MAX
        };
        let modos = Escolhas {
            rotulos: rotulos_modos,
            selecionado: modo_sel,
            vazio: String::from_str("(sem modos — monitor sem output RandR)"),
        };

        let conexao_selecionada: usize = match self.config.mode {
            TargetMode::Wifi => 0,
            TargetMode::Usb => 1,
        };
        let mut rotulo_ip_wifi = String::from_str("Definir IP Wi-Fi… ");
        rotulo_ip_wifi.append(se_vazio(self.config.wifi_ip.as_str()));
        let mut rotulo_ip_usb = String::from_str("Definir IP USB… ");
        rotulo_ip_usb.append(se_vazio(self.config.usb_ip.as_str()));

        MenuModelo {
            linha_status,
            detalhe,
            conexao,
            rotulo_iniciar_parar,
            icone_iniciar_parar,
            parar,
            habilitado: !self.ocupado,
            monitores,
            modos,
            conexao_selecionada,
            rotulo_ip_wifi,
            rotulo_ip_usb,
        }
    }
}

} // verus!
