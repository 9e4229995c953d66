//! Reading the numbers and names that the driver exposes through sysfs and hwmon files.

use crate::text::{chars_of, same_chars, trim_bounds, trimmed};
use vstd::prelude::*;

verus! {

/// An ASCII decimal digit.
pub open spec fn is_digit(c: char) -> bool {
    '0' <= c <= '9'
}

/// Every character of the text is a decimal digit.
pub open spec fn all_digits(s: Seq<char>) -> bool {
    forall|i: int| 0 <= i < s.len() ==> is_digit(#[trigger] s[i])
}

/// The number that a string of decimal digits denotes.
pub open spec fn decimal_value(s: Seq<char>) -> nat
    decreases s.len(),
{
    if s.len() == 0 {
        0
    } else {
        decimal_value(s.drop_last()) * 10 + (s.last() as int - '0' as int) as nat
    }
}

pub open spec fn min_nat(a: nat, b: nat) -> nat {
    if a <= b {
        a
    } else {
        b
    }
}

/// Reads the digits `v[a..b]`, if they are all digits and denote at most `limit`.
fn decimal_digits(v: &Vec<char>, a: usize, b: usize, limit: u64) -> (r: Option<u64>)
    requires
        a <= b <= v.len(),
        limit <= 0x1_0000_0000,
    ensures
        ({
            let d = v@.subrange(a as int, b as int);
            match r {
                Some(x) => all_digits(d) && x == decimal_value(d) && x <= limit,
                None => !all_digits(d) || decimal_value(d) > limit,
            }
        }),
{
    let mut acc: u64 = 0;
    let mut k: usize = a;
    while k < b
        invariant
            a <= k <= b <= v.len(),
            limit <= 0x1_0000_0000,
            all_digits(v@.subrange(a as int, k as int)),
            acc == min_nat(decimal_value(v@.subrange(a as int, k as int)), (limit + 1) as nat),
        decreases b - k,
    {
        let c = v[k];
        if !('0' <= c && c <= '9') {
            assert(!is_digit(v@.subrange(a as int, b as int)[k - a]));
            return None;
        }
        let dv = (c as u32 - '0' as u32) as u64;
        assert(v@.subrange(a as int, k + 1).drop_last() =~= v@.subrange(a as int, k as int));
        let next = acc * 10 + dv;
        acc = if next > limit { limit + 1 } else { next };
        k = k + 1;
        assert(all_digits(v@.subrange(a as int, k as int))) by {
            assert forall|i: int| 0 <= i < k - a implies is_digit(
                #[trigger] v@.subrange(a as int, k as int)[i],
            ) by {
                if i < k - 1 - a {
                    assert(v@.subrange(a as int, k as int)[i] == v@.subrange(
                        a as int,
                        k - 1,
                    )[i]);
                }
            }
        }
    }
    if acc > limit {
        None
    } else {
        Some(acc)
    }
}

/// What `str::parse::<u32>` gives for a text: an optional `+`, then at
/// least one decimal digit, denoting a number that fits.
pub open spec fn parsed_u32(s: Seq<char>) -> Option<u32> {
    let d = if s.len() > 0 && s[0] == '+' {
        s.drop_first()
    } else {
        s
    };
    if d.len() > 0 && all_digits(d) && decimal_value(d) <= u32::MAX {
        Some(decimal_value(d) as u32)
    } else {
        None
    }
}

/// What `str::parse::<i32>` gives for a text: an optional sign, then at
/// least one decimal digit, denoting a number that fits.
pub open spec fn parsed_i32(s: Seq<char>) -> Option<i32> {
    if s.len() > 0 && s[0] == '-' {
        let d = s.drop_first();
        if d.len() > 0 && all_digits(d) && decimal_value(d) <= 0x8000_0000 {
            Some((-decimal_value(d)) as i32)
        } else {
            None
        }
    } else {
        let d = if s.len() > 0 && s[0] == '+' {
            s.drop_first()
        } else {
            s
        };
        if d.len() > 0 && all_digits(d) && decimal_value(d) <= i32::MAX {
            Some(decimal_value(d) as i32)
        } else {
            None
        }
    }
}

/// Reads an unsigned value such as a fan RPM or PWM from the contents of
/// a sysfs attribute, which may carry surrounding white space.
pub fn parse_sysfs_u32(text: &str) -> (r: Option<u32>)
    ensures
        r == parsed_u32(trimmed(text@)),
{
    let v = chars_of(text);
    let (a0, b) = trim_bounds(&v);
    let ghost t = v@.subrange(a0 as int, b as int);
    let a = if a0 < b && v[a0] == '+' {
        a0 + 1
    } else {
        a0
    };
    assert(v@.subrange(a as int, b as int) =~= (if t.len() > 0 && t[0] == '+' {
        t.drop_first()
    } else {
        t
    }));
    if a == b {
        return None;
    }
    match decimal_digits(&v, a, b, 0xffff_ffff) {
        Some(x) => Some(x as u32),
        None => None,
    }
}

/// Reads a signed value such as the current `fan_mode` from the contents
/// of a sysfs attribute, which may carry surrounding white space.
pub fn parse_sysfs_i32(text: &str) -> (r: Option<i32>)
    ensures
        r == parsed_i32(trimmed(text@)),
{
    let v = chars_of(text);
    let (a0, b) = trim_bounds(&v);
    let ghost t = v@.subrange(a0 as int, b as int);
    if a0 < b && v[a0] == '-' {
        assert(v@.subrange(a0 + 1, b as int) =~= t.drop_first());
        if a0 + 1 == b {
            return None;
        }
        match decimal_digits(&v, a0 + 1, b, 0x8000_0000) {
            Some(x) => {
                if x == 0x8000_0000 {
                    Some(i32::MIN)
                } else {
                    Some(-(x as i32))
                }
            },
            None => None,
        }
    } else {
        let a = if a0 < b && v[a0] == '+' {
            a0 + 1
        } else {
            a0
        };
        assert(v@.subrange(a as int, b as int) =~= (if t.len() > 0 && t[0] == '+' {
            t.drop_first()
        } else {
            t
        }));
        if a == b {
            return None;
        }
        match decimal_digits(&v, a, b, 0x7fff_ffff) {
            Some(x) => Some(x as i32),
            None => None,
        }
    }
}

/// The `name` attribute of the driver's hwmon device.
pub open spec fn aorus_hwmon_name() -> Seq<char> {
    "aorus_laptop"@
}

/// Whether the contents of a hwmon `name` attribute identify the AORUS
/// driver's hwmon device.
pub fn is_aorus_hwmon_name(name: &str) -> (b: bool)
    ensures
        b == (trimmed(name@) == aorus_hwmon_name()),
{
    let v = chars_of(name);
    let (a, b) = trim_bounds(&v);
    let w = chars_of("aorus_laptop");
    same_chars(&v, a, b, &w)
}

/// What the directory walk found about one entry of the hwmon directory:
/// whether it is a directory, and the contents of its `name` attribute when
/// that could be read.
#[derive(Debug, PartialEq, Eq)]
pub struct HwmonEntry {
    pub is_dir: bool,
    pub name: Option<String>,
}

/// The entry is the AORUS driver's hwmon device.
pub open spec fn is_aorus_hwmon_entry(e: HwmonEntry) -> bool {
    e.is_dir && (e.name matches Some(n) && trimmed(n@) == aorus_hwmon_name())
}

/// The first entry that is the AORUS driver's hwmon device, if any.
pub fn first_aorus_hwmon(entries: &Vec<HwmonEntry>) -> (r: Option<usize>)
    ensures
        match r {
            Some(i) => {
                &&& i < entries.len()
                &&& is_aorus_hwmon_entry(entries@[i as int])
                &&& forall|j: int| 0 <= j < i ==> !is_aorus_hwmon_entry(#[trigger] entries@[j])
            },
            None => forall|j: int|
                0 <= j < entries.len() ==> !is_aorus_hwmon_entry(#[trigger] entries@[j]),
        },
{
    let mut i: usize = 0;
    while i < entries.len()
        invariant
            i <= entries.len(),
            forall|j: int| 0 <= j < i ==> !is_aorus_hwmon_entry(#[trigger] entries@[j]),
        decreases entries.len() - i,
    {
        let entry = &entries[i];
        if entry.is_dir {
            match &entry.name {
                Some(name) => {
                    if is_aorus_hwmon_name(name.as_str()) {
                        return Some(i);
                    }
                },
                None => {},
            }
        }
        i = i + 1;
    }
    None
}

/// The platform device's directory in sysfs.
pub fn aorus_sysfs_path() -> (path: &'static str)
    ensures
        path@ == "/sys/devices/platform/aorus_laptop"@,
{
    "/sys/devices/platform/aorus_laptop"
}

/// The platform device's subdirectory that holds its hwmon devices.
pub fn hwmon_directory() -> (dir: &'static str)
    ensures
        dir@ == "hwmon"@,
{
    "hwmon"
}

/// The attribute that names a hwmon device.
pub fn hwmon_name_attribute() -> (file: &'static str)
    ensures
        file@ == "name"@,
{
    "name"
}

/// The platform device's attribute that holds the current fan mode.
pub fn fan_mode_attribute() -> (file: &'static str)
    ensures
        file@ == "fan_mode"@,
{
    "fan_mode"
}

/// The hwmon attributes that report the fans.
#[derive(Debug, Clone, Copy, PartialEq, Eq, Structural)]
pub enum FanAttribute {
    CpuFanRpm,
    GpuFanRpm,
    CpuFanPwm,
    GpuFanPwm,
}

impl FanAttribute {
    pub open spec fn spec_file_name(self) -> Seq<char> {
        match self {
            FanAttribute::CpuFanRpm => "fan1_input"@,
            FanAttribute::GpuFanRpm => "fan2_input"@,
            FanAttribute::CpuFanPwm => "pwm1"@,
            FanAttribute::GpuFanPwm => "pwm2"@,
        }
    }

    /// The attribute's file in the hwmon directory.
    pub fn file_name(&self) -> (file: &'static str)
        ensures
            file@ == self.spec_file_name(),
    {
        match self {
            FanAttribute::CpuFanRpm => "fan1_input",
            FanAttribute::GpuFanRpm => "fan2_input",
            FanAttribute::CpuFanPwm => "pwm1",
            FanAttribute::GpuFanPwm => "pwm2",
        }
    }
}

} // verus!
