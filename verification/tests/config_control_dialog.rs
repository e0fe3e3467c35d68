use flm_daemon::config::{Config, ConfigError, TargetMode, DEFAULT_FRAMERATE};
use flm_daemon::control::{resolution_message, CONTROL_PORT};
use flm_daemon::dialog::{argumentos_aviso, argumentos_entrada, entrada, resposta, Aviso};
use flm_daemon::text::{str_eq, trim_str};

fn cfg(mode: TargetMode, wifi: &str, usb: &str) -> Config {
    Config {
        monitor: "Virtual-1-1".to_string(),
        mode,
        wifi_ip: wifi.to_string(),
        usb_ip: usb.to_string(),
        framerate: 30,
    }
}

#[test]
fn target_mode_labels() {
    assert_eq!(TargetMode::Wifi.label(), "Wi-Fi");
    assert_eq!(TargetMode::Usb.label(), "USB (tethering)");
    assert_eq!(TargetMode::default(), TargetMode::Wifi);
}

#[test]
fn config_default_values() {
    let c = Config::default();
    assert_eq!(c.monitor, "");
    assert_eq!(c.mode, TargetMode::Wifi);
    assert_eq!(c.wifi_ip, "");
    assert_eq!(c.usb_ip, "");
    assert_eq!(c.framerate, 30);
    assert_eq!(DEFAULT_FRAMERATE, 30);
    // An empty active IP means "not configured yet".
    assert_eq!(c.active_ip(), "");
}

#[test]
fn active_ip_follows_mode() {
    let c = cfg(TargetMode::Wifi, "192.168.0.42", "192.168.210.74");
    assert_eq!(c.active_ip(), "192.168.0.42");
    let c = cfg(TargetMode::Usb, "192.168.0.42", "192.168.210.74");
    assert_eq!(c.active_ip(), "192.168.210.74");
}

#[test]
fn config_path_prefers_absolute_xdg() {
    let p = Config::path(Some("/tmp/xdg".to_string()), Some("/home/ana".to_string()));
    assert_eq!(p, Ok("/tmp/xdg/flm/config.toml".to_string()));
    let p = Config::path(Some("/tmp/xdg/".to_string()), None);
    assert_eq!(p, Ok("/tmp/xdg/flm/config.toml".to_string()));
}

#[test]
fn config_path_ignores_relative_xdg() {
    let p = Config::path(Some("relativo".to_string()), Some("/home/ana".to_string()));
    assert_eq!(p, Ok("/home/ana/.config/flm/config.toml".to_string()));
    let p = Config::path(Some(String::new()), Some("/home/ana/".to_string()));
    assert_eq!(p, Ok("/home/ana/.config/flm/config.toml".to_string()));
}

#[test]
fn config_path_without_base() {
    assert_eq!(Config::path(None, None), Err(ConfigError::NoConfigDir));
    assert_eq!(Config::path(Some("x".to_string()), None), Err(ConfigError::NoConfigDir));
}

#[test]
fn resolution_message_format() {
    assert_eq!(resolution_message(1024, 768), "FLM/1 1024x768\n");
    assert_eq!(resolution_message(0, 7), "FLM/1 0x7\n");
    assert_eq!(resolution_message(65535, 10), "FLM/1 65535x10\n");
    assert_eq!(CONTROL_PORT, 5001);
    assert!(resolution_message(1920, 1080).is_ascii());
}

#[test]
fn resolution_messages_distinguish_resolutions() {
    assert_ne!(resolution_message(1, 11), resolution_message(11, 1));
    assert_ne!(resolution_message(10, 24), resolution_message(102, 4));
}

#[test]
fn resposta_on_cancel_is_none() {
    assert_eq!(resposta(false, b"192.168.0.5\n"), None);
}

#[test]
fn resposta_trims_output() {
    assert_eq!(resposta(true, b"  192.168.0.5 \n"), Some("192.168.0.5".to_string()));
    assert_eq!(resposta(true, b"\n"), Some(String::new()));
}

#[test]
fn resposta_replaces_invalid_utf8() {
    assert_eq!(resposta(true, b"a\xffb"), Some("a\u{fffd}b".to_string()));
}

#[test]
fn entrada_cases() {
    assert_eq!(entrada(None), None);
    assert_eq!(entrada(Some("   ".to_string())), None);
    assert_eq!(entrada(Some(String::new())), None);
    assert_eq!(entrada(Some(" 10.0.0.2\t".to_string())), Some("10.0.0.2".to_string()));
}

#[test]
fn trim_unicode_whitespace() {
    assert_eq!(trim_str("\u{3000}x y\u{a0}\u{2028}"), "x y");
    assert_eq!(trim_str("\u{200b}x"), "\u{200b}x");
    assert_eq!(trim_str(""), "");
}

#[test]
fn trim_is_idempotent_on_samples() {
    for s in ["  a  ", "\t\n", "x", " \u{85}y z\u{205f} "] {
        let once = trim_str(s);
        assert_eq!(trim_str(&once), once);
        assert_eq!(once, s.trim());
    }
}

#[test]
fn zenity_entry_arguments() {
    let a = argumentos_entrada("FLM — IP via Wi-Fi", "Endereço", "1.2.3.4");
    assert_eq!(
        a,
        vec![
            "--entry",
            "--title",
            "FLM — IP via Wi-Fi",
            "--text",
            "Endereço",
            "--entry-text",
            "1.2.3.4"
        ]
    );
}

#[test]
fn zenity_message_arguments() {
    assert_eq!(
        argumentos_aviso(Aviso::Erro, "falhou"),
        vec!["--error", "--title", "FLM", "--width", "420", "--text", "falhou"]
    );
    assert_eq!(
        argumentos_aviso(Aviso::Info, "oi"),
        vec!["--info", "--title", "FLM", "--width", "420", "--text", "oi"]
    );
}

#[test]
fn string_equality() {
    assert!(str_eq("Virtual-1-1", "Virtual-1-1"));
    assert!(!str_eq("Virtual-1-1", "Virtual-1-2"));
    assert!(!str_eq("ab", "abc"));
    assert!(str_eq("", ""));
}
