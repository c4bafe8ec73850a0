use piko::config::{Config, DisplayConfig, LogoConfig, OutputConfig, ThemeConfig};
use piko::system_info::SystemInfo;
use piko::text::{decimal_text, find_text, text_starts_with};

fn config() -> Config {
    Config {
        layout: "default".to_string(),
        output: OutputConfig {
            info_keys: vec!["OS".to_string()],
            show_logo: None,
            logo_position: Some("right".to_string()),
            logo_size: None,
            logo_color: None,
            logo_style: None,
        },
        colors: vec![("OS".to_string(), "#112233".to_string()), ("primary".to_string(), "#000000".to_string())],
        symbols: Vec::new(),
        logo: LogoConfig::default(),
        theme: ThemeConfig::default(),
        display: DisplayConfig::default(),
    }
}

#[test]
fn uptime_under_a_day() {
    assert_eq!(SystemInfo::get_uptime_pretty(0), "00h 00m");
    assert_eq!(SystemInfo::get_uptime_pretty(3 * 3600 + 7 * 60 + 59), "03h 07m");
    assert_eq!(SystemInfo::get_uptime_pretty(23 * 3600 + 59 * 60), "23h 59m");
}

#[test]
fn uptime_over_a_day() {
    assert_eq!(SystemInfo::get_uptime_pretty(86400), "1d 00h 00m");
    assert_eq!(SystemInfo::get_uptime_pretty(12 * 86400 + 5 * 3600 + 42 * 60), "12d 05h 42m");
}

#[test]
fn display_server_choice() {
    assert_eq!(SystemInfo::get_display_server(true, true, true), "Android SurfaceFlinger");
    assert_eq!(SystemInfo::get_display_server(false, true, true), "Wayland");
    assert_eq!(SystemInfo::get_display_server(false, false, true), "Xorg");
    assert_eq!(SystemInfo::get_display_server(false, false, false), "Unknown Display Server");
}

#[test]
fn cpuinfo_fields() {
    let content = "processor\t: 0\nmodel name\t: Intel(R) Core(TM) i7 CPU @ 2.80GHz\nHardware : Qualcomm : extra\n";
    assert_eq!(
        SystemInfo::cpuinfo_field(content, "model name"),
        Some("Intel(R) Core(TM) i7 CPU @ 2.80GHz".to_string())
    );
    assert_eq!(SystemInfo::cpuinfo_field(content, "Hardware"), Some("Qualcomm".to_string()));
    assert_eq!(SystemInfo::cpuinfo_field("Hardware", "Hardware"), Some(String::new()));
    assert_eq!(SystemInfo::cpuinfo_field(content, "Processor"), None);
}

#[test]
fn gpu_from_lspci_output() {
    let out = "00:00.0 Host bridge [0600]: Intel\n00:02.0 VGA compatible controller [0300]: Intel UHD 620 \n";
    assert_eq!(SystemInfo::gpu_from_lspci(out), Some("Intel UHD 620".to_string()));
    assert_eq!(SystemInfo::gpu_from_lspci("VGA compatible controller"), Some("Unknown GPU Model".to_string()));
    assert_eq!(SystemInfo::gpu_from_lspci("nothing here"), None);
}

#[test]
fn text_search_helpers() {
    assert_eq!(find_text("abcabc", "ca"), Some(2));
    assert_eq!(find_text("abc", ""), Some(0));
    assert_eq!(find_text("abc", "d"), None);
    assert!(text_starts_with("ID=arch", "ID="));
    assert!(!text_starts_with("ID", "ID="));
    assert_eq!(decimal_text(0), "0");
    assert_eq!(decimal_text(18446744073709551615), "18446744073709551615");
}

#[test]
fn config_getters_apply_defaults() {
    let c = config();
    assert!(c.should_show_logo());
    assert_eq!(c.get_logo_position(), "right");
    assert_eq!(c.get_logo_size(), "medium");
    assert_eq!(c.get_logo_style(), "ascii");
    assert!(!c.is_compact_mode());
    assert!(!c.should_show_border());
    assert!(c.should_show_separators());
}

#[test]
fn theme_colors_override_palette() {
    let c = config();
    let colors = c.get_theme_colors();
    let get = |k: &str| colors.iter().find(|(a, _)| a == k).map(|(_, b)| b.clone());
    assert_eq!(get("primary"), Some("#FF79C6".to_string()));
    assert_eq!(get("secondary"), Some("#50FA7B".to_string()));
    assert_eq!(get("accent"), Some("#BD93F9".to_string()));
    assert_eq!(get("OS"), Some("#112233".to_string()));
}

#[test]
fn config_defaults() {
    let l = LogoConfig::default();
    assert_eq!(l.distro.as_deref(), Some("auto"));
    assert_eq!(l.padding, Some(2));
    let d = DisplayConfig::default();
    assert_eq!(d.separator_style.as_deref(), Some("dash"));
    assert_eq!(d.padding, Some(1));
    let t = ThemeConfig::default();
    assert_eq!(t.text_color.as_deref(), Some("#F8F8F2"));
    assert!(t.background_color.is_none());
}

#[test]
fn mount_filters_depend_on_platform() {
    assert!(SystemInfo::is_skipped_mount("/run/user/1000/tmpfs", false));
    assert!(SystemInfo::is_skipped_mount("/home/@snapshots", false));
    assert!(!SystemInfo::is_skipped_mount("/home", false));
    assert!(!SystemInfo::is_skipped_mount("/", false));
    assert!(SystemInfo::is_skipped_mount("/data/media", true));
    assert!(!SystemInfo::is_skipped_mount("/data/media", false));
    assert!(!SystemInfo::is_skipped_mount("/home/@x", true));
    assert!(SystemInfo::is_skipped_mount("/snap/core/overlay", false));
}

#[test]
fn android_gpu_sources() {
    let dump = "Display 0\nGLES: Qualcomm, Adreno (TM) 640, OpenGL ES 3.2\nmore";
    assert_eq!(
        SystemInfo::gpu_from_surfaceflinger(dump),
        Some("Qualcomm, Adreno (TM) 640, OpenGL ES 3.2".to_string())
    );
    assert_eq!(SystemInfo::gpu_from_surfaceflinger("x GLES: a GLES: b"), Some("a".to_string()));
    assert_eq!(SystemInfo::gpu_from_surfaceflinger("no renderer"), None);
    assert_eq!(SystemInfo::gpu_from_gpuinfo("Vendor: ARM\nGPU : Mali-G78 : r1"), Some("Mali-G78".to_string()));
    assert_eq!(SystemInfo::gpu_from_gpuinfo("GPU present"), Some("Unknown GPU".to_string()));
    assert_eq!(SystemInfo::gpu_from_gpuinfo("nothing"), None);
}
