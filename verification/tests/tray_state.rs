use flm_daemon::config::{Config, TargetMode};
use flm_daemon::randr::{Mode, MonitorInfo, Region};
use flm_daemon::stream::{Encoder, SessionInfo};
use flm_daemon::tray::{
    atualizar_apos_anexar, reiniciar_apos_troca, resultado_inicio, se_vazio, AcaoInicio,
    EscolhaMonitor, EtapaInicio, EventoInicio, FlmTray, Inicio, SequenciaInicio, TrocaModo,
};

fn monitor(name: &str, w: u16, h: u16, outputs: &[&str]) -> MonitorInfo {
    MonitorInfo {
        name: name.to_string(),
        region: Region { x: 0, y: 0, width: w, height: h },
        primary: false,
        outputs: outputs.iter().map(|s| s.to_string()).collect(),
    }
}

fn config(monitor: &str, wifi: &str) -> Config {
    Config {
        monitor: monitor.to_string(),
        mode: TargetMode::Wifi,
        wifi_ip: wifi.to_string(),
        usb_ip: String::new(),
        framerate: 30,
    }
}

fn sessao() -> SessionInfo {
    SessionInfo {
        host: "192.168.0.42".to_string(),
        monitor: "Virtual-1-1".to_string(),
        width: 1024,
        height: 768,
        encoder: Encoder::Vaapi,
    }
}

fn pronta() -> FlmTray {
    let mut t = FlmTray::new(config("Virtual-1-1", "192.168.0.42"));
    t.monitores = vec![
        monitor("eDP", 1920, 1080, &["eDP"]),
        monitor("Virtual-1-1", 1024, 768, &["Virtual-1-1"]),
    ];
    t.modos = vec![Mode { width: 1280, height: 720 }, Mode { width: 1024, height: 768 }];
    t
}

#[test]
fn new_tray_is_stopped() {
    let t = FlmTray::new(Config::default());
    assert_eq!(t.status, "Parado");
    assert!(!t.ocupado);
    assert!(t.session.is_none());
    assert!(!t.ativo());
    assert_eq!(t.descricao_dica(), "Parado");
}

#[test]
fn start_without_ip_is_refused() {
    let mut t = FlmTray::new(config("Virtual-1-1", ""));
    match t.acao_iniciar() {
        Inicio::Erro(m) => assert!(m.starts_with("Nenhum IP configurado para Wi-Fi.\n\n")),
        _ => panic!("sem IP não pode iniciar"),
    }
    assert_eq!(t.status, "Defina o IP de Wi-Fi antes de iniciar");
    assert!(!t.ocupado);
}

#[test]
fn start_without_monitor_is_refused() {
    let mut t = FlmTray::new(config("", "10.0.0.2"));
    match t.acao_iniciar() {
        Inicio::Erro(m) => assert!(m.starts_with("Nenhum monitor virtual selecionado.")),
        _ => panic!("sem monitor não pode iniciar"),
    }
    assert_eq!(t.status, "Escolha o monitor virtual antes de iniciar");
}

#[test]
fn start_marks_busy_and_ignores_second_click() {
    let mut t = pronta();
    match t.acao_iniciar() {
        Inicio::Iniciar { ip, monitor, framerate } => {
            assert_eq!(ip, "192.168.0.42");
            assert_eq!(monitor, "Virtual-1-1");
            assert_eq!(framerate, 30);
        }
        _ => panic!("deveria iniciar"),
    }
    assert!(t.ocupado);
    assert_eq!(t.status, "Iniciando…");
    assert!(matches!(t.acao_iniciar(), Inicio::Nada));
    assert!(!t.acao_anexar_vkms());
    assert!(matches!(t.acao_escolher_modo(0), TrocaModo::Nada));
    assert_eq!(t.status, "Iniciando…");
}

#[test]
fn start_outcomes() {
    let mut t = pronta();
    let _ = t.acao_iniciar();
    assert_eq!(t.inicio_concluido(Ok((sessao(), None))), None);
    assert!(!t.ocupado);
    assert_eq!(t.status, "Transmitindo");
    assert!(t.ativo());
    assert!(matches!(t.acao_iniciar(), Inicio::Nada));

    let mut t = pronta();
    let _ = t.acao_iniciar();
    let msg = t.inicio_concluido(Ok((sessao(), Some("recusada".to_string())))).unwrap();
    assert!(msg.starts_with("O streaming começou, mas o canal de controle falhou:\n\nrecusada\n\n"));
    assert_eq!(t.status, "Transmitindo (aviso: recusada)");
    assert!(t.session.is_some());

    let mut t = pronta();
    let _ = t.acao_iniciar();
    let msg = t.inicio_concluido(Err("sem X".to_string())).unwrap();
    assert_eq!(msg, "Não foi possível iniciar o streaming:\n\nsem X");
    assert_eq!(t.status, "Erro ao iniciar: sem X");
    assert!(t.session.is_none());
}

#[test]
fn stop_cycle() {
    let mut t = pronta();
    assert!(!t.acao_parar());
    t.session = Some(sessao());
    assert!(t.acao_parar());
    assert_eq!(t.status, "Parando…");
    assert!(t.session.is_none());
    t.parada_concluida();
    assert_eq!(t.status, "Parado");
}

#[test]
fn pipeline_failure_is_reported() {
    let mut t = pronta();
    assert!(!t.pipeline_caiu(Some("x".to_string())));
    t.session = Some(sessao());
    assert!(!t.pipeline_caiu(None));
    assert!(t.pipeline_caiu(Some("erro no elemento".to_string())));
    assert_eq!(t.status, "Pipeline caiu: erro no elemento");
    assert!(t.session.is_none());
}

#[test]
fn choosing_monitor() {
    let mut t = pronta();
    assert!(matches!(t.acao_escolher_monitor(1), EscolhaMonitor::Nada));
    assert!(matches!(t.acao_escolher_monitor(9), EscolhaMonitor::Nada));
    match t.acao_escolher_monitor(0) {
        EscolhaMonitor::Escolhido { output } => assert_eq!(output, Some("eDP".to_string())),
        _ => panic!("deveria escolher"),
    }
    assert_eq!(t.config.monitor, "eDP");
    t.monitor_escolhido(Err("disco cheio".to_string()), None);
    assert_eq!(t.status, "Falha ao salvar a config: disco cheio");
    assert!(t.modos.is_empty());
    // Choosing the same monitor again changes nothing.
    assert!(matches!(t.acao_escolher_monitor(0), EscolhaMonitor::Nada));

    let mut t = pronta();
    t.session = Some(sessao());
    let _ = t.acao_escolher_monitor(0);
    t.monitor_escolhido(Ok(()), Some(vec![Mode { width: 1920, height: 1080 }]));
    assert_eq!(t.status, "Monitor alterado — reinicie o streaming");
    assert_eq!(t.modos, vec![Mode { width: 1920, height: 1080 }]);
}

#[test]
fn choosing_mode_while_streaming() {
    let mut t = pronta();
    t.session = Some(sessao());
    match t.acao_escolher_modo(0) {
        TrocaModo::Aplicar { modo, output, estava_rodando, ip, monitor, framerate } => {
            assert_eq!(modo, Mode { width: 1280, height: 720 });
            assert_eq!(output, "Virtual-1-1");
            assert!(estava_rodando);
            assert_eq!(ip, "192.168.0.42");
            assert_eq!(monitor, "Virtual-1-1");
            assert_eq!(framerate, 30);
        }
        _ => panic!("deveria aplicar"),
    }
    assert!(t.ocupado);
    assert!(t.session.is_none());
    assert_eq!(t.status, "Aplicando 1280x720…");
    let m = Mode { width: 1280, height: 720 };
    let nova = SessionInfo { width: 1280, height: 720, ..sessao() };
    assert_eq!(t.modo_concluido(m, Ok(()), Some(Ok((nova, None)))), None);
    assert_eq!(t.status, "Transmitindo");
    assert!(!t.ocupado);
    assert_eq!(t.session.as_ref().unwrap().width, 1280);
}

#[test]
fn choosing_mode_outcomes() {
    let m = Mode { width: 1280, height: 720 };
    let mut t = pronta();
    let _ = t.acao_escolher_modo(0);
    assert_eq!(t.modo_concluido(m, Ok(()), None), None);
    assert_eq!(t.status, "Modo 1280x720 aplicado");

    let mut t = pronta();
    let _ = t.acao_escolher_modo(0);
    let msg = t.modo_concluido(m, Err("xrandr falhou".to_string()), None).unwrap();
    assert_eq!(msg, "Problema ao trocar a resolução para 1280x720:\n\nxrandr falhou");
    assert_eq!(t.status, "Falha ao aplicar 1280x720: xrandr falhou");
    assert!(t.session.is_none());

    let mut t = pronta();
    let _ = t.acao_escolher_modo(0);
    let msg = t.modo_concluido(m, Ok(()), Some(Ok((sessao(), Some("aviso".to_string())))));
    assert_eq!(msg, Some("Problema ao trocar a resolução para 1280x720:\n\naviso".to_string()));
    assert!(t.session.is_some());
}

#[test]
fn choosing_mode_without_output() {
    let mut t = pronta();
    t.monitores[1].outputs.clear();
    assert!(matches!(t.acao_escolher_modo(0), TrocaModo::SemOutput));
    assert_eq!(t.status, "Este monitor não tem output RandR para trocar de modo");
    assert!(matches!(t.acao_escolher_modo(5), TrocaModo::Nada));
}

#[test]
fn setting_ip() {
    let mut t = pronta();
    let p = t.acao_definir_ip(TargetMode::Usb);
    assert_eq!(p.titulo, "FLM — IP via USB (tethering)");
    assert_eq!(p.atual, "");
    assert!(p.texto.starts_with("Endereço IP do dispositivo Android via tethering USB."));
    t.definir_ip(TargetMode::Usb, "192.168.210.74".to_string());
    t.ip_salvo(TargetMode::Usb, "192.168.210.74", Ok(()));
    assert_eq!(t.config.usb_ip, "192.168.210.74");
    assert_eq!(t.config.wifi_ip, "192.168.0.42");
    assert_eq!(t.status, "Parado");

    t.definir_ip(TargetMode::Wifi, "10.0.0.9".to_string());
    t.ip_salvo(TargetMode::Wifi, "10.0.0.9", Ok(()));
    assert_eq!(t.status, "IP de Wi-Fi definido: 10.0.0.9");

    t.session = Some(sessao());
    t.ip_salvo(TargetMode::Wifi, "10.0.0.9", Ok(()));
    assert_eq!(t.status, "IP alterado — reinicie o streaming");
}

#[test]
fn switching_connection_keeps_both_ips() {
    let mut t = pronta();
    t.config.usb_ip = "192.168.210.74".to_string();
    assert!(!t.escolher_conexao(0));
    assert!(t.escolher_conexao(1));
    assert_eq!(t.config.mode, TargetMode::Usb);
    assert_eq!(t.config.active_ip(), "192.168.210.74");
    assert_eq!(t.config.wifi_ip, "192.168.0.42");
    t.conexao_salva(Ok(()));
    assert_eq!(t.status, "Parado");
    t.session = Some(sessao());
    assert!(t.escolher_conexao(0));
    t.conexao_salva(Err("ro".to_string()));
    assert_eq!(t.status, "Conexão alterada — reinicie o streaming");
    assert_eq!(t.config.active_ip(), "192.168.0.42");
}

#[test]
fn vkms_outcomes() {
    let mut t = pronta();
    assert!(t.acao_anexar_vkms());
    assert!(t.ocupado);
    assert_eq!(t.status, "Anexando provider vkms…");
    assert_eq!(t.vkms_concluido(Ok("modesetting anexado a AMD".to_string())), None);
    assert_eq!(t.status, "Provider anexado: modesetting anexado a AMD");
    assert!(!t.ocupado);
    let _ = t.acao_anexar_vkms();
    let m = t.vkms_concluido(Err("sem vkms".to_string())).unwrap();
    assert_eq!(m, "Não foi possível anexar o provider do vkms:\n\nsem vkms");
    assert_eq!(t.status, "Falha ao anexar o provider: sem vkms");
}

#[test]
fn randr_refresh_picks_virtual_on_first_run() {
    let mut t = FlmTray::new(config("", ""));
    let ms = vec![monitor("eDP", 1, 1, &[]), monitor("Virtual-1-2", 1024, 768, &["Virtual-1-2"])];
    assert!(t.receber_monitores(Ok(ms)));
    assert_eq!(t.config.monitor, "Virtual-1-2");
    assert_eq!(t.output_atual(), Some("Virtual-1-2".to_string()));
    assert!(!t.receber_monitores(Ok(vec![monitor("Virtual-9", 1, 1, &[])])));
    assert_eq!(t.config.monitor, "Virtual-1-2");
    assert!(t.monitor_atual().is_none());
    assert_eq!(t.output_atual(), None);
    assert!(!t.receber_monitores(Err("sem display".to_string())));
    assert!(t.monitores.is_empty());
    assert_eq!(t.status, "RandR indisponível: sem display");
    t.receber_modos(None);
    assert!(t.modos.is_empty());
}

#[test]
fn menu_while_stopped() {
    let t = pronta();
    let m = t.menu_modelo();
    assert_eq!(m.linha_status, "○ Parado");
    assert_eq!(m.detalhe, "   Monitor: Virtual-1-1 — 1024x768");
    assert_eq!(m.conexao, "   Conexão: Wi-Fi");
    assert_eq!(m.rotulo_iniciar_parar, "Iniciar streaming");
    assert_eq!(m.icone_iniciar_parar, "media-playback-start");
    assert!(!m.parar);
    assert!(m.habilitado);
    assert_eq!(m.monitores.rotulos, vec!["eDP (1920x1080)", "Virtual-1-1 (1024x768)"]);
    assert_eq!(m.monitores.selecionado, 1);
    assert_eq!(m.modos.rotulos, vec!["1280x720", "1024x768"]);
    assert_eq!(m.modos.selecionado, 1);
    assert_eq!(m.conexao_selecionada, 0);
    assert_eq!(m.rotulo_ip_wifi, "Definir IP Wi-Fi… 192.168.0.42");
    assert_eq!(m.rotulo_ip_usb, "Definir IP USB… (não definido)");
}

#[test]
fn menu_while_streaming_and_edge_cases() {
    let mut t = pronta();
    t.session = Some(sessao());
    t.config.mode = TargetMode::Usb;
    let m = t.menu_modelo();
    assert_eq!(m.linha_status, "● Transmitindo para 192.168.0.42");
    assert_eq!(m.detalhe, "   Monitor: Virtual-1-1 — 1024x768");
    assert_eq!(m.rotulo_iniciar_parar, "Parar streaming");
    assert_eq!(m.icone_iniciar_parar, "media-playback-stop");
    assert!(m.parar);
    assert_eq!(m.conexao_selecionada, 1);
    assert_eq!(t.descricao_dica(), "Transmitindo Virtual-1-1 (1024x768) para 192.168.0.42");
    assert!(t.ativo());

    let mut t = FlmTray::new(config("FLM-0", "x"));
    let m = t.menu_modelo();
    assert_eq!(m.detalhe, "   Monitor: FLM-0 (ausente!)");
    assert_eq!(m.monitores.selecionado, usize::MAX);
    assert_eq!(m.modos.selecionado, usize::MAX);
    assert!(m.monitores.rotulos.is_empty());
    assert_eq!(m.monitores.vazio, "(nenhum monitor detectado)");
    assert_eq!(m.modos.vazio, "(sem modos — monitor sem output RandR)");
    t.config.monitor.clear();
    assert_eq!(t.menu_modelo().detalhe, "   Monitor: (não escolhido)");
}

#[test]
fn about_text() {
    let t = pronta();
    let s = t.texto_sobre("0.1.0", Some("/home/ana/.config/flm/config.toml".to_string()));
    assert_eq!(
        s,
        "FLM — Free Linux Monitor on Android\nv0.1.0\n\n\
         Monitor virtual: Virtual-1-1\n\
         IP Wi-Fi: 192.168.0.42\nIP USB: (não definido)\n\n\
         Mídia: RTP/H.264 em UDP 5000\n\
         Codificador: (nenhum — streaming parado)\n\
         Controle: TCP 5001 (envia a resolução ao app)\n\n\
         Configuração: /home/ana/.config/flm/config.toml\n\n\
         Licença GPLv3."
    );
    assert!(t.texto_sobre("1", None).contains("Configuração: (desconhecido)\n\n"));
    assert_eq!(se_vazio(""), "(não definido)");
    assert_eq!(se_vazio("a"), "a");
}

#[test]
fn about_names_active_encoder() {
    let mut t = pronta();
    t.session = Some(sessao());
    assert!(t.texto_sobre("1", None).contains("\nCodificador: VAAPI (vah264enc, hardware)\n"));
    t.session = Some(SessionInfo { encoder: Encoder::X264, ..sessao() });
    assert!(t.texto_sobre("1", None).contains("\nCodificador: x264 (x264enc, software)\n"));
}

#[test]
fn control_failure_is_a_warning() {
    assert_eq!(resultado_inicio(Ok(()), Ok::<u8, String>(7)), Ok((7, None)));
    assert_eq!(
        resultado_inicio(Err("recusada".to_string()), Ok::<u8, String>(7)),
        Ok((7, Some("recusada".to_string())))
    );
    assert_eq!(
        resultado_inicio::<u8>(Err("recusada".to_string()), Err("sem pipeline".to_string())),
        Err("sem pipeline".to_string())
    );
}

#[test]
fn start_sequence_announces_before_starting() {
    let r = Region { x: 10, y: 20, width: 1025, height: 768 };
    let mut seq = SequenciaInicio::nova("10.0.0.2", "Virtual-1-1", 30);
    assert!(matches!(seq.avancar(EventoInicio::Controle(Ok(()))), AcaoInicio::Nada));
    assert!(!seq.subindo());
    match seq.avancar(EventoInicio::Monitor(Ok(r))) {
        AcaoInicio::EnviarResolucao { ip, width, height } => {
            assert_eq!(ip, "10.0.0.2");
            assert_eq!((width, height), (1024, 768));
        }
        _ => panic!("deveria anunciar a resolução"),
    }
    assert!(matches!(seq.etapa, EtapaInicio::Anunciando { .. }));
    match seq.avancar(EventoInicio::Controle(Err("recusada".to_string()))) {
        AcaoInicio::IniciarPipeline { ip, monitor, region, framerate } => {
            assert_eq!(ip, "10.0.0.2");
            assert_eq!(monitor, "Virtual-1-1");
            assert_eq!(region, r);
            assert_eq!(framerate, 30);
        }
        _ => panic!("deveria subir o pipeline"),
    }
    assert!(seq.subindo());
    assert_eq!(seq.concluir(Ok::<u8, String>(1)), Ok((1, Some("recusada".to_string()))));
}

#[test]
fn start_sequence_stops_on_missing_monitor() {
    let mut seq = SequenciaInicio::nova("10.0.0.2", "FLM-0", 30);
    match seq.avancar(EventoInicio::Monitor(Err("não existe".to_string()))) {
        AcaoInicio::Falhar(e) => assert_eq!(e, "não existe"),
        _ => panic!("deveria falhar"),
    }
    assert!(matches!(seq.etapa, EtapaInicio::Encerrada));
    assert!(matches!(seq.avancar(EventoInicio::Controle(Ok(()))), AcaoInicio::Nada));
    let r = Region { x: 0, y: 0, width: 2, height: 2 };
    assert!(matches!(seq.avancar(EventoInicio::Monitor(Ok(r))), AcaoInicio::Nada));
}

#[test]
fn restart_and_refresh_decisions() {
    assert!(reiniciar_apos_troca(true, true));
    assert!(!reiniciar_apos_troca(true, false));
    assert!(!reiniciar_apos_troca(false, true));
    assert!(!reiniciar_apos_troca(false, false));
    assert!(atualizar_apos_anexar(&Ok("x".to_string())));
    assert!(!atualizar_apos_anexar(&Err("y".to_string())));
}
