//! The host facts that are computed rather than read: uptime text, the
//! display server, and the fields read out of probe output.
use vstd::prelude::*;
use vstd::string::*;
use crate::text::{
    decimal, decimal_text, find_line, find_text, first_line_holding, first_line_starting,
    first_occurrence, segments_of, trim_text, trimmed,
};

verus! {

/// A summary of the host.
pub struct SystemInfo {
    pub os: String,
    pub cpu: String,
    pub memory: String,
    pub disk: String,
}

/// `n` in decimal, with a leading zero below ten.
pub open spec fn two_digits(n: nat) -> Seq<char> {
    if n < 10 {
        seq!['0'] + decimal(n)
    } else {
        decimal(n)
    }
}

/// An uptime of `secs` seconds: `<d>d <hh>h <mm>m`, or `<hh>h <mm>m` under
/// a day.
pub open spec fn uptime_text(secs: nat) -> Seq<char> {
    let hours = secs / 3600;
    let minutes = (secs % 3600) / 60;
    let days = hours / 24;
    if days > 0 {
        decimal(days) + seq!['d', ' '] + two_digits(hours % 24) + seq!['h', ' '] + two_digits(
            minutes,
        ) + seq!['m']
    } else {
        two_digits(hours) + seq!['h', ' '] + two_digits(minutes) + seq!['m']
    }
}

fn two_digit_text(n: u64) -> (r: String)
    ensures
        r@ == two_digits(n as nat),
{
    if n < 10 {
        let mut r = String::from_str("0");
        r.append(decimal_text(n).as_str());
        proof {
            reveal_strlit("0");
        }
        assert(r@ =~= two_digits(n as nat));
        r
    } else {
        decimal_text(n)
    }
}

/// The text of `:` followed by nothing.
pub open spec fn colon() -> Seq<char> {
    seq![':']
}

/// The text between the first `sep` of `line` and the next one (or the
/// end); nothing where `line` holds no `sep`.
pub open spec fn field_after(line: Seq<char>, sep: Seq<char>) -> Option<Seq<char>> {
    match first_occurrence(line, sep) {
        None => None,
        Some(i) => {
            let rest = line.skip(i + sep.len());
            match first_occurrence(rest, sep) {
                None => Some(rest),
                Some(j) => Some(rest.take(j)),
            }
        },
    }
}

/// The text between the first `:` of `line` and the next one (or the end);
/// empty where `line` holds no `:`.
pub open spec fn colon_field(line: Seq<char>) -> Seq<char> {
    match field_after(line, colon()) {
        Some(f) => f,
        None => Seq::empty(),
    }
}

/// The text between the first `sep` of `line` and the next one (or the
/// end), if `line` holds `sep`.
pub fn field_after_text(line: &str, sep: &str) -> (r: Option<String>)
    ensures
        match r {
            Some(s) => Some(s@),
            None => None::<Seq<char>>,
        } == field_after(line@, sep@),
{
    let n = line.unicode_len();
    match find_text(line, sep) {
        None => None,
        Some(i) => {
            let m = sep.unicode_len();
            let rest = line.substring_char(i + m, n);
            assert(rest@ =~= line@.skip(i + sep@.len()));
            match find_text(rest, sep) {
                None => Some(String::from_str(rest)),
                Some(j) => {
                    let f = String::from_str(rest.substring_char(0, j));
                    assert(f@ =~= rest@.take(j as int));
                    Some(f)
                },
            }
        },
    }
}

/// The GPU after `GLES:` on the first line of `dumpsys SurfaceFlinger`
/// output that holds it, trimmed.
pub open spec fn gles_field(content: Seq<char>) -> Option<Seq<char>> {
    match first_line_holding(segments_of(content), "GLES:"@) {
        Some(l) => match field_after(l, "GLES:"@) {
            Some(f) => Some(trimmed(f)),
            None => Some("Unknown GPU"@),
        },
        None => None,
    }
}

/// The field after the first `:` on the first line of `/proc/gpuinfo`
/// that holds `GPU`, trimmed; `Unknown GPU` where that line has no `:`.
pub open spec fn gpuinfo_field(content: Seq<char>) -> Option<Seq<char>> {
    match first_line_holding(segments_of(content), "GPU"@) {
        Some(l) => match field_after(l, colon()) {
            Some(f) => Some(trimmed(f)),
            None => Some("Unknown GPU"@),
        },
        None => None,
    }
}

/// The value of the first line of `content` that begins with `label`: its
/// field after the first `:`, trimmed.
pub open spec fn labelled_field(content: Seq<char>, label: Seq<char>) -> Option<Seq<char>> {
    match first_line_starting(segments_of(content), label) {
        Some(l) => Some(trimmed(colon_field(l))),
        None => None,
    }
}

/// The text after the first `": "` of the first line of `content` that
/// holds `VGA compatible controller`, trimmed; where that line holds no
/// `": "`, the fallback `Unknown GPU Model`.
pub open spec fn gpu_field(content: Seq<char>) -> Option<Seq<char>> {
    match first_line_holding(segments_of(content), "VGA compatible controller"@) {
        Some(l) => match first_occurrence(l, seq![':', ' ']) {
            Some(i) => Some(trimmed(l.skip(i + 2))),
            None => Some("Unknown GPU Model"@),
        },
        None => None,
    }
}

/// The mount-point fragments that mark a mount as no physical disk: on
/// Android the system, vendor and temporary mounts, elsewhere subvolumes
/// and virtual file systems.
pub open spec fn mount_filters(android: bool) -> Seq<Seq<char>> {
    if android {
        seq![
            "/system"@,
            "/vendor"@,
            "/product"@,
            "/data"@,
            "/cache"@,
            "/mnt"@,
            "/storage"@,
            "/dev/block"@,
            "tmpfs"@,
            "proc"@,
            "sysfs"@,
            "devpts"@,
            "debugfs"@,
            "configfs"@,
            "selinuxfs"@,
            "cgroup"@,
            "pstore"@,
            "efivarfs"@,
            "fuse"@,
            "sdcardfs"@,
            "f2fs"@,
        ]
    } else {
        seq![
            "@"@,
            "tmpfs"@,
            "proc"@,
            "sysfs"@,
            "devpts"@,
            "debugfs"@,
            "configfs"@,
            "selinuxfs"@,
            "cgroup"@,
            "pstore"@,
            "efivarfs"@,
            "fuse"@,
            "squashfs"@,
            "overlay"@,
        ]
    }
}

impl SystemInfo {
    /// The uptime `uptime_seconds` as days, hours and minutes.
    pub fn get_uptime_pretty(uptime_seconds: u64) -> (r: String)
        ensures
            r@ == uptime_text(uptime_seconds as nat),
    {
        let hours = uptime_seconds / 3600;
        let minutes = (uptime_seconds % 3600) / 60;
        let days = hours / 24;
        let mut r = String::new();
        proof {
            reveal_strlit("d ");
            reveal_strlit("h ");
            reveal_strlit("m");
        }
        if days > 0 {
            r.append(decimal_text(days).as_str());
            r.append("d ");
            r.append(two_digit_text(hours % 24).as_str());
        } else {
            r.append(two_digit_text(hours).as_str());
        }
        r.append("h ");
        r.append(two_digit_text(minutes).as_str());
        r.append("m");
        assert(r@ =~= uptime_text(uptime_seconds as nat));
        r
    }

    /// The display server: the Android compositor on Android, else Wayland
    /// where `WAYLAND_DISPLAY` is set, else Xorg where `DISPLAY` is set.
    pub fn get_display_server(android: bool, wayland_display: bool, x_display: bool) -> (r: String)
        ensures
            r@ == if android {
                "Android SurfaceFlinger"@
            } else if wayland_display {
                "Wayland"@
            } else if x_display {
                "Xorg"@
            } else {
                "Unknown Display Server"@
            },
    {
        if android {
            String::from_str("Android SurfaceFlinger")
        } else if wayland_display {
            String::from_str("Wayland")
        } else if x_display {
            String::from_str("Xorg")
        } else {
            String::from_str("Unknown Display Server")
        }
    }

    /// The value of the first line of `content` (as in `/proc/cpuinfo`)
    /// that begins with `label`.
    pub fn cpuinfo_field(content: &str, label: &str) -> (r: Option<String>)
        ensures
            match r {
                Some(s) => Some(s@),
                None => None::<Seq<char>>,
            } == labelled_field(content@, label@),
    {
        match find_line(content, label, true) {
            Some(line) => {
                proof {
                    reveal_strlit(":");
                }
                assert(":"@ =~= colon());
                let field = match field_after_text(line.as_str(), ":") {
                    Some(f) => f,
                    None => String::new(),
                };
                Some(trim_text(field.as_str()))
            },
            None => None,
        }
    }

    /// The GPU named in `dumpsys SurfaceFlinger` output: the text after
    /// `GLES:` on the first line that holds it.
    pub fn gpu_from_surfaceflinger(content: &str) -> (r: Option<String>)
        ensures
            match r {
                Some(s) => Some(s@),
                None => None::<Seq<char>>,
            } == gles_field(content@),
    {
        match find_line(content, "GLES:", false) {
            Some(line) => match field_after_text(line.as_str(), "GLES:") {
                Some(f) => Some(trim_text(f.as_str())),
                None => {
                    proof {
                        reveal_strlit("Unknown GPU");
                    }
                    Some(String::from_str("Unknown GPU"))
                },
            },
            None => None,
        }
    }

    /// The GPU named in `/proc/gpuinfo`: the field after the first `:` on
    /// the first line that holds `GPU`.
    pub fn gpu_from_gpuinfo(content: &str) -> (r: Option<String>)
        ensures
            match r {
                Some(s) => Some(s@),
                None => None::<Seq<char>>,
            } == gpuinfo_field(content@),
    {
        match find_line(content, "GPU", false) {
            Some(line) => {
                proof {
                    reveal_strlit(":");
                }
                assert(":"@ =~= colon());
                match field_after_text(line.as_str(), ":") {
                    Some(f) => Some(trim_text(f.as_str())),
                    None => {
                        proof {
                            reveal_strlit("Unknown GPU");
                        }
                        Some(String::from_str("Unknown GPU"))
                    },
                }
            },
            None => None,
        }
    }

    /// The GPU named in `lspci` output, if a line names a VGA controller.
    pub fn gpu_from_lspci(content: &str) -> (r: Option<String>)
        ensures
            match r {
                Some(s) => Some(s@),
                None => None::<Seq<char>>,
            } == gpu_field(content@),
    {
        proof {
            reveal_strlit("Unknown GPU Model");
        }
        match find_line(content, "VGA compatible controller", false) {
            Some(line) => {
                let s = line.as_str();
                proof {
                    reveal_strlit(": ");
                }
                assert(": "@ =~= seq![':', ' ']);
                let n = s.unicode_len();
                match find_text(s, ": ") {
                    Some(i) => {
                        let rest = s.substring_char(i + 2, n);
                        assert(rest@ =~= s@.skip(i + 2));
                        Some(trim_text(rest))
                    },
                    None => Some(String::from_str("Unknown GPU Model")),
                }
            },
            None => None,
        }
    }

    /// Whether the mount at `mount_point` is left out of the disk summary:
    /// its path holds one of the fragments of `mount_filters(android)`.
    pub fn is_skipped_mount(mount_point: &str, android: bool) -> (r: bool)
        ensures
            r == exists|i: int|
                0 <= i < mount_filters(android).len() && first_occurrence(
                    mount_point@,
                    #[trigger] mount_filters(android)[i],
                ).is_some(),
    {
        let filters: Vec<&str> = if android {
            vec![
                "/system",
                "/vendor",
                "/product",
                "/data",
                "/cache",
                "/mnt",
                "/storage",
                "/dev/block",
                "tmpfs",
                "proc",
                "sysfs",
                "devpts",
                "debugfs",
                "configfs",
                "selinuxfs",
                "cgroup",
                "pstore",
                "efivarfs",
                "fuse",
                "sdcardfs",
                "f2fs",
            ]
        } else {
            vec![
                "@",
                "tmpfs",
                "proc",
                "sysfs",
                "devpts",
                "debugfs",
                "configfs",
                "selinuxfs",
                "cgroup",
                "pstore",
                "efivarfs",
                "fuse",
                "squashfs",
                "overlay",
            ]
        };
        let ghost fs = mount_filters(android);
        assert(filters@.map_values(|f: &str| f@) =~= fs);
        let mut i: usize = 0;
        while i < filters.len()
            invariant
                filters@.map_values(|f: &str| f@) == fs,
                fs == mount_filters(android),
                i <= filters@.len(),
                forall|j: int| 0 <= j < i ==> first_occurrence(mount_point@, #[trigger] fs[j]).is_none(),
            decreases filters@.len() - i,
        {
            let found = find_text(mount_point, filters[i]);
            assert(fs[i as int] == filters@[i as int]@);
            if found.is_some() {
                return true;
            }
            i = i + 1;
        }
        false
    }
}

} // verus!
