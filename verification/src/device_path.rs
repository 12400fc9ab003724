//! Backend-specific device path normalization: rewriting drive letters and
//! bare device names into the OS's raw-device addressing form, while passing
//! an already-fully-qualified path through unchanged.

use vstd::prelude::*;
use vstd::string::{StrSliceExecFns, StringExecFns};

verus! {

/// The prefix of a fully-qualified raw device path on the
/// command-passthrough OS: `\\.\`.
pub open spec fn spec_unc_prefix() -> Seq<char> {
    seq!['\\', '\\', '.', '\\']
}

/// Whether a path already carries the raw-device prefix `\\.\`.
pub open spec fn spec_is_unc(s: Seq<char>) -> bool {
    s.len() >= 4 && s[0] == '\\' && s[1] == '\\' && s[2] == '.' && s[3] == '\\'
}

/// Whether a character is an ASCII letter.
pub open spec fn spec_is_ascii_alpha(c: char) -> bool {
    (0x41 <= c as u32 && c as u32 <= 0x5a) || (0x61 <= c as u32 && c as u32 <= 0x7a)
}

/// Whether a path begins with a drive letter, such as `D:`.
pub open spec fn spec_is_drive(s: Seq<char>) -> bool {
    s.len() >= 2 && spec_is_ascii_alpha(s[0]) && s[1] == ':'
}

/// Whether a character matches a lowercase pattern character up to ASCII
/// case.
pub open spec fn spec_ci_eq(c: char, lower: char) -> bool {
    c == lower || (0x61 <= lower as u32 && lower as u32 <= 0x7a && c as u32 + 0x20
        == lower as u32)
}

/// Whether a path begins with `physicaldrive` in any ASCII case.
pub open spec fn spec_is_physicaldrive(s: Seq<char>) -> bool {
    s.len() >= 13 && (forall|j: int| 0 <= j < 13 ==> spec_ci_eq(s[j], "physicaldrive"@[j]))
}

/// What a caller-supplied path is rewritten to before the device is opened:
/// a fully-qualified path passes through, a drive letter keeps only its
/// first two characters behind the raw prefix, a bare `PhysicalDrive` name
/// is prefixed whole, and anything else passes through.
pub open spec fn spec_normalize_device_path(s: Seq<char>) -> Seq<char> {
    if spec_is_unc(s) {
        s
    } else if spec_is_drive(s) {
        spec_unc_prefix() + s.subrange(0, 2)
    } else if spec_is_physicaldrive(s) {
        spec_unc_prefix() + s
    } else {
        s
    }
}

/// Rewrite a caller-supplied path into the raw-device addressing form of
/// the command-passthrough OS, as `spec_normalize_device_path` describes.
pub fn normalize_device_path(raw_path: &str) -> (r: String)
    ensures
        r@ == spec_normalize_device_path(raw_path@),
{
    let n = raw_path.unicode_len();
    if n >= 4 && raw_path.get_char(0) == '\\' && raw_path.get_char(1) == '\\' && raw_path.get_char(
        2,
    ) == '.' && raw_path.get_char(3) == '\\' {
        return raw_path.to_owned();
    }
    if n >= 2 {
        let c0 = raw_path.get_char(0);
        let c1 = raw_path.get_char(1);
        let alpha = (0x41 <= c0 as u32 && c0 as u32 <= 0x5a) || (0x61 <= c0 as u32 && c0 as u32
            <= 0x7a);
        if alpha && c1 == ':' {
            let drive = raw_path.substring_char(0, 2);
            let out = String::from_str(r"\\.\").concat(drive);
            proof {
                reveal_strlit(r"\\.\");
                assert(r"\\.\"@ =~= spec_unc_prefix());
                assert(out@ =~= spec_normalize_device_path(raw_path@));
            }
            return out;
        }
    }
    let mut is_pd: bool = false;
    if n >= 13 {
        let pat: &str = "physicaldrive";
        proof {
            reveal_strlit("physicaldrive");
        }
        let mut i: usize = 0;
        let mut ok_so_far: bool = true;
        while i < 13
            invariant
                i <= 13,
                n >= 13,
                n == raw_path@.len(),
                pat@ == "physicaldrive"@,
                pat@.len() == 13,
                ok_so_far ==> (forall|j: int| 0 <= j < i ==> spec_ci_eq(raw_path@[j], pat@[j])),
                !ok_so_far ==> !spec_is_physicaldrive(raw_path@),
            decreases 13 - i,
        {
            let c = raw_path.get_char(i);
            let p = pat.get_char(i);
            let matched = c == p || ((0x61 <= p as u32 && p as u32 <= 0x7a) && (c as u32) + 0x20
                == p as u32);
            if matched {
                i += 1;
            } else {
                ok_so_far = false;
                i = 13;
            }
        }
        is_pd = ok_so_far;
    }
    if is_pd {
        let out = String::from_str(r"\\.\").concat(raw_path);
        proof {
            reveal_strlit(r"\\.\");
            assert(r"\\.\"@ =~= spec_unc_prefix());
            assert(out@ =~= spec_normalize_device_path(raw_path@));
        }
        out
    } else {
        raw_path.to_owned()
    }
}

/// The `/dev/` directory prefix of the raw-read OS's device namespace.
pub open spec fn spec_dev_prefix() -> Seq<char> {
    seq!['/', 'd', 'e', 'v', '/']
}

/// The name with a leading `/dev/` removed, if it carries one.
pub open spec fn spec_strip_dev(s: Seq<char>) -> Seq<char> {
    if s.len() >= 5 && s[0] == '/' && s[1] == 'd' && s[2] == 'e' && s[3] == 'v' && s[4] == '/' {
        s.subrange(5, s.len() as int)
    } else {
        s
    }
}

/// The raw (character) variant of a block device's path: `/dev/` plus the
/// bare name with an `r` prepended unless it already starts with one.  The
/// raw device bypasses the buffer cache, so every read reaches the
/// hardware.
pub open spec fn spec_mac_raw_device_path(s: Seq<char>) -> Seq<char> {
    let name = spec_strip_dev(s);
    if name.len() >= 1 && name[0] == 'r' {
        spec_dev_prefix() + name
    } else {
        spec_dev_prefix() + seq!['r'] + name
    }
}

/// Derive the raw-device path for a device name on the raw-read OS, as
/// `spec_mac_raw_device_path` describes.
pub fn mac_raw_device_path(bsd_name: &str) -> (r: String)
    ensures
        r@ == spec_mac_raw_device_path(bsd_name@),
{
    let n = bsd_name.unicode_len();
    let stripped: &str = if n >= 5 && bsd_name.get_char(0) == '/' && bsd_name.get_char(1) == 'd'
        && bsd_name.get_char(2) == 'e' && bsd_name.get_char(3) == 'v' && bsd_name.get_char(4)
        == '/' {
        bsd_name.substring_char(5, n)
    } else {
        bsd_name
    };
    let m = stripped.unicode_len();
    if m >= 1 && stripped.get_char(0) == 'r' {
        let out = String::from_str("/dev/").concat(stripped);
        proof {
            reveal_strlit("/dev/");
            assert(out@ =~= spec_mac_raw_device_path(bsd_name@));
        }
        out
    } else {
        let out = String::from_str("/dev/r").concat(stripped);
        proof {
            reveal_strlit("/dev/r");
            assert(out@ =~= spec_mac_raw_device_path(bsd_name@));
        }
        out
    }
}

} // verus!
