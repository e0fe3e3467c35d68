use flm_daemon::randr::{
    available_monitors, find_monitor, list_modes, plan_vkms_attach, set_mode_args, Mode,
    ModeInfo, MonitorInfo, OutputModes, Provider, RandrError, Region, ScreenResources,
};
use flm_daemon::stream::{
    even_dimensions, pipeline_plan, watch_step, BusEvent, BusWatch, Encoder, StreamError,
    WatchStep, UDP_PORT,
};

fn monitor(name: &str, w: u16, h: u16, outputs: &[&str]) -> MonitorInfo {
    MonitorInfo {
        name: name.to_string(),
        region: Region { x: 0, y: 0, width: w, height: h },
        primary: false,
        outputs: outputs.iter().map(|s| s.to_string()).collect(),
    }
}

fn provider(id: u32, name: &str, source: bool, sink: bool) -> Provider {
    Provider { id, name: name.to_string(), source_output: source, sink_output: sink }
}

#[test]
fn monitor_label() {
    let m = monitor("Virtual-1-1", 1024, 768, &["Virtual-1-1"]);
    assert_eq!(m.label(), "Virtual-1-1 (1024x768)");
}

#[test]
fn virtual_monitor_heuristic() {
    assert!(monitor("Virtual-1-1", 1, 1, &[]).is_virtual());
    assert!(monitor("VIRTUAL1", 1, 1, &[]).is_virtual());
    assert!(monitor("FLM-0", 1, 1, &[]).is_virtual());
    assert!(monitor("flm-", 1, 1, &[]).is_virtual());
    assert!(!monitor("eDP", 1, 1, &[]).is_virtual());
    assert!(!monitor("virt", 1, 1, &[]).is_virtual());
    assert!(!monitor("HDMI-A-0", 1, 1, &[]).is_virtual());
    assert!(!monitor("flm", 1, 1, &[]).is_virtual());
}

#[test]
fn mode_text() {
    assert_eq!(Mode { width: 1920, height: 1080 }.to_text(), "1920x1080");
}

#[test]
fn find_monitor_first_match() {
    let ms = vec![
        monitor("eDP", 1920, 1080, &["eDP"]),
        monitor("Virtual-1-1", 1024, 768, &["Virtual-1-1"]),
        monitor("Virtual-1-1", 800, 600, &[]),
    ];
    let m = find_monitor(&ms, "Virtual-1-1").unwrap();
    assert_eq!(m.region.width, 1024);
    assert_eq!(m.outputs, vec!["Virtual-1-1".to_string()]);
}

#[test]
fn find_monitor_missing_lists_names() {
    let ms = vec![monitor("eDP", 1, 1, &[]), monitor("HDMI-A-0", 1, 1, &[])];
    assert_eq!(
        find_monitor(&ms, "FLM-0").unwrap_err(),
        RandrError::MonitorNotFound {
            name: "FLM-0".to_string(),
            disponiveis: "eDP, HDMI-A-0".to_string()
        }
    );
    let vazio: Vec<MonitorInfo> = Vec::new();
    assert_eq!(
        find_monitor(&vazio, "FLM-0").unwrap_err(),
        RandrError::MonitorNotFound {
            name: "FLM-0".to_string(),
            disponiveis: "(nenhum)".to_string()
        }
    );
    assert_eq!(available_monitors(&vec![monitor("a", 1, 1, &[])]), "a");
}

fn resources() -> ScreenResources {
    ScreenResources {
        modes: vec![
            ModeInfo { id: 1, width: 1024, height: 768 },
            ModeInfo { id: 2, width: 1920, height: 1080 },
            ModeInfo { id: 3, width: 1024, height: 768 },
            ModeInfo { id: 4, width: 768, height: 1024 },
            ModeInfo { id: 5, width: 800, height: 600 },
            ModeInfo { id: 2, width: 1, height: 1 },
        ],
        outputs: vec![
            OutputModes { name: "eDP".to_string(), modes: vec![2] },
            OutputModes { name: "Virtual-1-1".to_string(), modes: vec![5, 1, 99, 3, 4, 2, 1] },
            OutputModes { name: "Virtual-1-1".to_string(), modes: vec![5] },
        ],
    }
}

#[test]
fn list_modes_dedups_and_sorts_stably() {
    let modos = list_modes(&resources(), "Virtual-1-1").unwrap();
    assert_eq!(
        modos,
        vec![
            Mode { width: 1920, height: 1080 },
            Mode { width: 1024, height: 768 },
            Mode { width: 768, height: 1024 },
            Mode { width: 800, height: 600 },
        ]
    );
}

#[test]
fn list_modes_unknown_output() {
    assert_eq!(
        list_modes(&resources(), "DP-1"),
        Err(RandrError::OutputNotFound { name: "DP-1".to_string() })
    );
}

#[test]
fn list_modes_takes_first_lookup_entry() {
    let modos = list_modes(&resources(), "eDP").unwrap();
    assert_eq!(modos, vec![Mode { width: 1920, height: 1080 }]);
}

#[test]
fn xrandr_set_mode_arguments() {
    assert_eq!(
        set_mode_args("Virtual-1-1", Mode { width: 1280, height: 720 }),
        vec!["--output", "Virtual-1-1", "--mode", "1280x720"]
    );
}

#[test]
fn vkms_attach_plan() {
    let ps = vec![
        provider(0x54, "AMD Radeon Graphics", true, true),
        provider(0x425, "modesetting", false, true),
    ];
    let plan = plan_vkms_attach(&ps).unwrap();
    assert_eq!(plan.sink, 1);
    assert_eq!(plan.source, 0);
    assert_eq!(plan.args, vec!["--setprovideroutputsource", "0x425", "0x54"]);
    assert_eq!(plan.descricao, "modesetting anexado a AMD Radeon Graphics");
}

#[test]
fn vkms_attach_zero_id_and_skips_sink() {
    let ps = vec![provider(7, "vkms", false, true), provider(0, "gpu", true, false)];
    let plan = plan_vkms_attach(&ps).unwrap();
    assert_eq!(plan.args, vec!["--setprovideroutputsource", "0x7", "0x0"]);
}

#[test]
fn vkms_attach_errors() {
    let sem_sink = vec![provider(1, "gpu", true, true)];
    assert_eq!(plan_vkms_attach(&sem_sink).unwrap_err(), RandrError::NoSinkProvider);
    let sem_source = vec![provider(1, "vkms", false, true), provider(2, "x", false, false)];
    assert_eq!(plan_vkms_attach(&sem_source).unwrap_err(), RandrError::NoSourceProvider);
    assert_eq!(plan_vkms_attach(&Vec::new()).unwrap_err(), RandrError::NoSinkProvider);
}

#[test]
fn even_dimensions_round_down() {
    let r = Region { x: 0, y: 0, width: 1025, height: 767 };
    assert_eq!(even_dimensions(r), (1024, 766));
    let r = Region { x: 0, y: 0, width: 1024, height: 768 };
    assert_eq!(even_dimensions(r), (1024, 768));
}

#[test]
fn pipeline_description() {
    let r = Region { x: 3000, y: 1152, width: 1024, height: 768 };
    let p = pipeline_plan("192.168.0.42", "Virtual-1-1", r, 30, false).unwrap();
    assert_eq!(p.encoder, Encoder::X264);
    assert_eq!((p.width, p.height), (1024, 768));
    assert_eq!(
        p.descricao,
        "ximagesrc use-damage=0 startx=3000 starty=1152 endx=4023 endy=1919 \
         ! video/x-raw,framerate=30/1 ! videoconvert ! video/x-raw,format=I420 \
         ! queue max-size-buffers=2 leaky=downstream \
         ! x264enc tune=zerolatency speed-preset=ultrafast key-int-max=30 threads=1 \
         ! rtph264pay config-interval=1 pt=96 \
         ! udpsink host=192.168.0.42 port=5000"
    );
    assert_eq!(UDP_PORT, 5000);
}

#[test]
fn pipeline_negative_origin_and_odd_size() {
    let r = Region { x: -1920, y: -5, width: 801, height: 601 };
    let p = pipeline_plan("h", "m", r, 60, false).unwrap();
    assert_eq!((p.width, p.height), (800, 600));
    assert!(p.descricao.starts_with("ximagesrc use-damage=0 startx=-1920 starty=-5 endx=-1121 endy=594 "));
    assert!(p.descricao.contains("key-int-max=60 "));
}

#[test]
fn pipeline_invalid_geometry() {
    let r = Region { x: 0, y: 0, width: 1, height: 768 };
    assert_eq!(
        pipeline_plan("h", "FLM-0", r, 30, true).unwrap_err(),
        StreamError::InvalidGeometry { monitor: "FLM-0".to_string(), width: 1, height: 768 }
    );
    let r = Region { x: 0, y: 0, width: 2, height: 3 };
    assert!(pipeline_plan("h", "FLM-0", r, 30, false).is_ok());
}

#[test]
fn bus_watch_decisions() {
    assert!(matches!(watch_step(BusEvent::Timeout), WatchStep::Continue));
    assert!(matches!(watch_step(BusEvent::Other), WatchStep::Continue));
    match watch_step(BusEvent::Eos) {
        WatchStep::Stop { erro, reset } => {
            assert_eq!(erro, "fim de stream inesperado");
            assert!(!reset);
        }
        _ => panic!("EOS deve parar a vigia"),
    }
    match watch_step(BusEvent::Error("falhou".to_string())) {
        WatchStep::Stop { erro, reset } => {
            assert_eq!(erro, "falhou");
            assert!(reset);
        }
        _ => panic!("erro deve parar a vigia"),
    }
}

#[test]
fn pipeline_uses_vaapi_when_available() {
    let r = Region { x: 3000, y: 1152, width: 1024, height: 768 };
    let p = pipeline_plan("192.168.0.42", "Virtual-1-1", r, 30, true).unwrap();
    assert_eq!(p.encoder, Encoder::Vaapi);
    assert_eq!(
        p.descricao,
        "ximagesrc use-damage=0 startx=3000 starty=1152 endx=4023 endy=1919 \
         ! video/x-raw,framerate=30/1 ! videoconvert ! video/x-raw,format=NV12 \
         ! queue max-size-buffers=2 leaky=downstream \
         ! vah264enc key-int-max=30 b-frames=0 \
         ! rtph264pay config-interval=1 pt=96 \
         ! udpsink host=192.168.0.42 port=5000"
    );
    assert!(!p.descricao.contains("x264enc"));
    assert_eq!(Encoder::Vaapi.label(), "VAAPI (vah264enc, hardware)");
    assert_eq!(Encoder::X264.label(), "x264 (x264enc, software)");
}

#[test]
fn bus_watch_records_first_error_only() {
    let mut w = BusWatch::new();
    assert!(!w.parado());
    assert_eq!(w.erro(), None);
    assert!(!w.observar(BusEvent::Timeout));
    assert!(!w.observar(BusEvent::Other));
    assert_eq!(w.erro(), None);
    assert!(w.observar(BusEvent::Error("erro no elemento x".to_string())));
    assert!(w.parado());
    assert!(!w.observar(BusEvent::Eos));
    assert!(!w.observar(BusEvent::Error("outro".to_string())));
    assert_eq!(w.erro(), Some("erro no elemento x".to_string()));

    let mut w = BusWatch::new();
    assert!(!w.observar(BusEvent::Eos));
    assert_eq!(w.erro(), Some("fim de stream inesperado".to_string()));
}

#[test]
fn error_messages() {
    let e = RandrError::MonitorNotFound {
        name: "FLM-0".to_string(),
        disponiveis: "eDP, HDMI-A-0".to_string(),
    };
    assert_eq!(
        e.mensagem(),
        "monitor \"FLM-0\" não existe. Monitores disponíveis: eDP, HDMI-A-0. \
         Crie o monitor virtual antes de iniciar o streaming (ver README.md)."
    );
    assert_eq!(
        RandrError::OutputNotFound { name: "a\"b".to_string() }.mensagem(),
        "output RandR \"a\\\"b\" não encontrado"
    );
    assert_eq!(
        RandrError::NoSinkProvider.mensagem(),
        "nenhum provider com capacidade de 'Sink Output' encontrado. \
         O módulo vkms está carregado? Rode `sudo modprobe vkms` (ver README.md)."
    );
    assert_eq!(
        RandrError::NoSourceProvider.mensagem(),
        "nenhum provider com capacidade de 'Source Output' encontrado"
    );
    let s = StreamError::InvalidGeometry { monitor: "FLM-0".to_string(), width: 1, height: 768 };
    assert_eq!(s.mensagem(), "monitor \"FLM-0\" tem geometria inválida para captura: 1x768");
}
