//! Persistent daemon settings (`~/.config/flm/config.toml`): the chosen
//! virtual monitor and the two network targets (Wi-Fi and USB).
//!
//! There is no automatic discovery yet, so the Android device's IP is typed
//! by hand and kept across runs. Two separate fields avoid retyping it each
//! time the user switches between Wi-Fi and cable, since USB tethering uses a
//! completely different address range from the home network.
//!
//! Reading and writing the TOML file is done outside the library; what is
//! here is the model and the location of the file.

use vstd::prelude::*;

verus! {

/// Which of the two saved targets is active.
///
/// The transport is the same (RTP/UDP) in both cases, because USB tethering
/// shows up on Linux as just another network interface. The label is for the
/// user, not for the protocol.
#[derive(Debug, Clone, Copy, PartialEq, Eq, Structural)]
pub enum TargetMode {
    Wifi,
    Usb,
}

impl TargetMode {
    /// The label shown in the tray.
    pub open spec fn label_view(self) -> Seq<char> {
        match self {
            TargetMode::Wifi => "Wi-Fi"@,
            TargetMode::Usb => "USB (tethering)"@,
        }
    }

    pub fn label(self) -> (r: &'static str)
        ensures
            r@ == self.label_view(),
    {
        match self {
            TargetMode::Wifi => "Wi-Fi",
            TargetMode::Usb => "USB (tethering)",
        }
    }
}

impl Default for TargetMode {
    fn default() -> (r: Self)
        ensures
            r == TargetMode::Wifi,
    {
        TargetMode::Wifi
    }
}

/// Framerate requested from the capture source when the file does not say.
pub const DEFAULT_FRAMERATE: u32 = 30;

#[derive(Debug, Clone)]
pub struct Config {
    /// Name of the RandR monitor to capture. The real name depends on how
    /// vkms was attached (usually "Virtual-1-1"), so it is picked at runtime
    /// from the tray menu rather than fixed in the code.
    pub monitor: String,
    /// Active target: the IP that the video is sent to.
    pub mode: TargetMode,
    pub wifi_ip: String,
    pub usb_ip: String,
    /// Capture framerate.
    pub framerate: u32,
}

impl Default for Config {
    fn default() -> (r: Self)
        ensures
            r.monitor@ == Seq::<char>::empty(),
            r.mode == TargetMode::Wifi,
            r.wifi_ip@ == Seq::<char>::empty(),
            r.usb_ip@ == Seq::<char>::empty(),
            r.framerate == DEFAULT_FRAMERATE,
    {
        Config {
            monitor: String::new(),
            mode: TargetMode::Wifi,
            wifi_ip: String::new(),
            usb_ip: String::new(),
            framerate: DEFAULT_FRAMERATE,
        }
    }
}

/// Where `PathBuf::push` puts a relative component: after the base, with a
/// `/` between them unless the base is empty or already ends in one.
pub open spec fn path_join(base: Seq<char>, component: Seq<char>) -> Seq<char> {
    if base.len() == 0 || base.last() == '/' {
        base + component
    } else {
        base + seq!['/'] + component
    }
}

/// A Unix path is absolute when it starts at the root.
pub open spec fn is_absolute(p: Seq<char>) -> bool {
    p.len() > 0 && p[0] == '/'
}

/// The directory that holds the `flm` settings directory: `XDG_CONFIG_HOME`
/// when it is set to an absolute path, otherwise `$HOME/.config`.
pub open spec fn config_base(xdg: Option<Seq<char>>, home: Option<Seq<char>>) -> Option<Seq<char>> {
    match xdg {
        Some(x) if is_absolute(x) => Some(x),
        _ => match home {
            Some(h) => Some(path_join(h, ".config"@)),
            None => None,
        },
    }
}

/// Why the settings file cannot be located.
#[derive(Debug, Clone, Copy, PartialEq, Eq, Structural)]
pub enum ConfigError {
    /// Neither `XDG_CONFIG_HOME` nor `HOME` is set.
    NoConfigDir,
}

fn push_path(base: &mut String, component: &str)
    ensures
        final(base)@ == path_join(old(base)@, component@),
{
    let v = crate::text::chars_of(base.as_str());
    if v.len() > 0 && v[v.len() - 1] != '/' {
        crate::text::push_char(base, '/');
    }
    base.append(component);
}

/// Views of an optional string.
pub open spec fn opt_seq(o: Option<String>) -> Option<Seq<char>> {
    match o {
        Some(s) => Some(s@),
        None => None,
    }
}

impl Config {
    /// IP of the active target. Empty means "not configured yet".
    pub open spec fn active_ip_view(&self) -> Seq<char> {
        match self.mode {
            TargetMode::Wifi => self.wifi_ip@,
            TargetMode::Usb => self.usb_ip@,
        }
    }

    pub fn active_ip(&self) -> (r: &str)
        ensures
            r@ == self.active_ip_view(),
    {
        match self.mode {
            TargetMode::Wifi => self.wifi_ip.as_str(),
            TargetMode::Usb => self.usb_ip.as_str(),
        }
    }

    /// The settings file: `<base>/flm/config.toml`, where the base comes from
    /// the values of `XDG_CONFIG_HOME` and `HOME` (see `config_base`).
    pub open spec fn path_view(xdg: Option<Seq<char>>, home: Option<Seq<char>>) -> Option<Seq<char>> {
        match config_base(xdg, home) {
            Some(b) => Some(path_join(path_join(b, "flm"@), "config.toml"@)),
            None => None,
        }
    }

    /// Where the settings file lies when `XDG_CONFIG_HOME` is unset or not
    /// absolute: under `.config` in the home directory `home`.
    pub open spec fn home_config_file(home: Seq<char>) -> Seq<char> {
        path_join(path_join(path_join(home, ".config"@), "flm"@), "config.toml"@)
    }

    /// Location of the settings file, given the values of the
    /// `XDG_CONFIG_HOME` and `HOME` environment variables.
    pub fn path(xdg_config_home: Option<String>, home: Option<String>) -> (r: Result<String, ConfigError>)
        ensures
            match Self::path_view(opt_seq(xdg_config_home), opt_seq(home)) {
                Some(p) => r matches Ok(s) && s@ == p,
                None => r == Err::<String, ConfigError>(ConfigError::NoConfigDir),
            },
            (match xdg_config_home {
                Some(x) => !is_absolute(x@),
                None => true,
            }) ==> match home {
                Some(h) => r matches Ok(s) && s@ == Self::home_config_file(h@),
                None => r == Err::<String, ConfigError>(ConfigError::NoConfigDir),
            },
            xdg_config_home matches Some(x) ==> (is_absolute(x@) ==> (r matches Ok(s) && s@
                == path_join(path_join(x@, "flm"@), "config.toml"@))),
    {
        let xdg_absolute = match &xdg_config_home {
            Some(x) => {
                let v = crate::text::chars_of(x.as_str());
                v.len() > 0 && v[0] == '/'
            },
            None => false,
        };
        let mut base = if xdg_absolute {
            xdg_config_home.unwrap()
        } else {
            match home {
                Some(h) => {
                    let mut b = h;
                    push_path(&mut b, ".config");
                    b
                },
                None => {
                    return Err(ConfigError::NoConfigDir);
                },
            }
        };
        push_path(&mut base, "flm");
        push_path(&mut base, "config.toml");
        proof {
            lemma_path_without_xdg(opt_seq(xdg_config_home), opt_seq(home));
        }
        Ok(base)
    }
}

/// Without an absolute `XDG_CONFIG_HOME` the settings file is
/// `$HOME/.config/flm/config.toml`, the same whether the variable is unset or
/// holds a relative path; with an absolute one it is
/// `$XDG_CONFIG_HOME/flm/config.toml`; with neither there is none.
pub proof fn lemma_path_without_xdg(xdg: Option<Seq<char>>, home: Option<Seq<char>>)
    ensures
        (match xdg {
            Some(x) => !is_absolute(x),
            None => true,
        }) ==> Config::path_view(xdg, home) == match home {
            Some(h) => Some(Config::home_config_file(h)),
            None => None::<Seq<char>>,
        },
        (match xdg {
            Some(x) => !is_absolute(x),
            None => true,
        }) ==> Config::path_view(xdg, home) == Config::path_view(None, home),
        (xdg matches Some(x) && is_absolute(x)) ==> Config::path_view(xdg, home) == Some(
            path_join(path_join(xdg->0, "flm"@), "config.toml"@),
        ),
{
}

/// With a home directory `h` that is not empty and does not end in `/`, and
/// no absolute `XDG_CONFIG_HOME`, the settings file is
/// `h + "/.config/flm/config.toml"`.
pub proof fn lemma_home_config_file_text(h: Seq<char>)
    requires
        h.len() > 0,
        h.last() != '/',
    ensures
        Config::home_config_file(h) == h + "/.config/flm/config.toml"@,
{
    reveal_strlit(".config");
    reveal_strlit("flm");
    reveal_strlit("config.toml");
    reveal_strlit("/.config/flm/config.toml");
    reveal_strlit("/.config");
    reveal_strlit("/.config/flm");
    let a = path_join(h, ".config"@);
    assert(a =~= h + "/.config"@);
    let b = path_join(a, "flm"@);
    assert(b =~= h + "/.config/flm"@);
    assert(Config::home_config_file(h) =~= h + "/.config/flm/config.toml"@);
}

} // verus!
