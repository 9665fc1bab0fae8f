//! Version numbers as text: the API's packed version format and the
//! vendors' own driver version formats.

use vstd::prelude::*;
use vstd::string::StringExecFns;

verus! {

pub open spec fn digit_char(d: nat) -> char {
    if d == 0 {
        '0'
    } else if d == 1 {
        '1'
    } else if d == 2 {
        '2'
    } else if d == 3 {
        '3'
    } else if d == 4 {
        '4'
    } else if d == 5 {
        '5'
    } else if d == 6 {
        '6'
    } else if d == 7 {
        '7'
    } else if d == 8 {
        '8'
    } else {
        '9'
    }
}

/// Decimal digits of `n`, without leading zeros.
pub open spec fn decimal(n: nat) -> Seq<char>
    decreases n,
{
    if n < 10 {
        seq![digit_char(n)]
    } else {
        decimal(n / 10).push(digit_char(n % 10))
    }
}

/// Relies on `Display` for `u32` (through `ToString`), which writes the
/// number in decimal without leading zeros.
#[verifier::external_body]
fn decimal_string(n: u32) -> (r: String)
    ensures
        r@ == decimal(n as nat),
{
    n.to_string()
}

/// Relies on `ash::vk::api_version_major`: bits 22 to 28 of the version.
#[verifier::external_body]
fn api_version_major(version: u32) -> (r: u32)
    ensures
        r == (version >> 22u32) & 0x7fu32,
{
    ash::vk::api_version_major(version)
}

/// Relies on `ash::vk::api_version_minor`: bits 12 to 21 of the version.
#[verifier::external_body]
fn api_version_minor(version: u32) -> (r: u32)
    ensures
        r == (version >> 12u32) & 0x3ffu32,
{
    ash::vk::api_version_minor(version)
}

/// Relies on `ash::vk::api_version_patch`: bits 0 to 11 of the version.
#[verifier::external_body]
fn api_version_patch(version: u32) -> (r: u32)
    ensures
        r == version & 0xfffu32,
{
    ash::vk::api_version_patch(version)
}

/// The numbers joined by dots.
pub open spec fn dotted(parts: Seq<u32>) -> Seq<char>
    decreases parts.len(),
{
    if parts.len() == 0 {
        Seq::<char>::empty()
    } else if parts.len() == 1 {
        decimal(parts[0] as nat)
    } else {
        dotted(parts.drop_last()) + seq!['.'] + decimal(parts.last() as nat)
    }
}

fn join_dotted(parts: &Vec<u32>) -> (r: String)
    ensures
        r@ == dotted(parts@),
{
    let mut out = String::new();
    let mut k: usize = 0;
    while k < parts.len()
        invariant
            k <= parts@.len(),
            out@ == dotted(parts@.subrange(0, k as int)),
        decreases parts@.len() - k,
    {
        let ghost prefix = parts@.subrange(0, k as int + 1);
        assert(prefix.drop_last() =~= parts@.subrange(0, k as int));
        let ghost before = out@;
        if k > 0 {
            out.append(".");
        }
        let digits = decimal_string(parts[k]);
        out.append(digits.as_str());
        proof {
            reveal_strlit(".");
            assert(prefix.last() == parts@[k as int]);
            if k == 0 {
                assert(before =~= Seq::<char>::empty());
                assert(out@ =~= dotted(prefix));
            } else {
                assert(out@ =~= before + seq!['.'] + decimal(parts@[k as int] as nat));
                assert(out@ =~= dotted(prefix));
            }
        }
        k = k + 1;
    }
    assert(parts@.subrange(0, parts@.len() as int) =~= parts@);
    out
}

/// The API's packed version: major, minor and patch.
pub open spec fn api_version_parts(v: u32) -> Seq<u32> {
    seq![(v >> 22u32) & 0x7fu32, (v >> 12u32) & 0x3ffu32, v & 0xfffu32]
}

/// Formats a packed API version as `major.minor.patch`.
pub fn parse_vulkan_api_version(v: u32) -> (r: String)
    ensures
        r@ == dotted(api_version_parts(v)),
{
    let mut parts: Vec<u32> = Vec::new();
    parts.push(api_version_major(v));
    parts.push(api_version_minor(v));
    parts.push(api_version_patch(v));
    assert(parts@ =~= api_version_parts(v));
    join_dotted(&parts)
}

/// Vendors known by their id.
#[derive(Clone, Copy, Debug, PartialEq, Eq, Structural)]
pub enum Vendor {
    Nvidia,
    Amd,
    Arm,
    Intel,
    ImgTec,
    Qualcomm,
    Unknown(u32),
}

/// NVIDIA's driver version: major (10 bits), minor (8 bits), secondary
/// branch (8 bits), tertiary branch (6 bits).
pub open spec fn nvidia_version_parts(v: u32) -> Seq<u32> {
    seq![v >> 22u32, (v >> 14u32) & 0xffu32, (v >> 6u32) & 0xffu32, v & 0x3fu32]
}

impl Vendor {
    pub open spec fn from_id_spec(id: u32) -> Vendor {
        if id == 0x1002 {
            Vendor::Amd
        } else if id == 0x1010 {
            Vendor::ImgTec
        } else if id == 0x10de {
            Vendor::Nvidia
        } else if id == 0x13b5 {
            Vendor::Arm
        } else if id == 0x5143 {
            Vendor::Qualcomm
        } else if id == 0x8086 {
            Vendor::Intel
        } else {
            Vendor::Unknown(id)
        }
    }

    /// The vendor with this PCI vendor id.
    pub fn from_id(id: u32) -> (r: Self)
        ensures
            r == Self::from_id_spec(id),
    {
        if id == 0x1002 {
            Vendor::Amd
        } else if id == 0x1010 {
            Vendor::ImgTec
        } else if id == 0x10de {
            Vendor::Nvidia
        } else if id == 0x13b5 {
            Vendor::Arm
        } else if id == 0x5143 {
            Vendor::Qualcomm
        } else if id == 0x8086 {
            Vendor::Intel
        } else {
            Vendor::Unknown(id)
        }
    }

    /// Formats a driver version in the vendor's own format: NVIDIA has four
    /// fields, everyone else uses the API's packed format.
    pub fn parse_driver_version(&self, v: u32) -> (r: String)
        ensures
            r@ == (match self {
                Vendor::Nvidia => dotted(nvidia_version_parts(v)),
                _ => dotted(api_version_parts(v)),
            }),
    {
        match self {
            Vendor::Nvidia => {
                let eight_bits: u32 = 0xff;
                let six_bits: u32 = 0x3f;
                let mut parts: Vec<u32> = Vec::new();
                parts.push(v >> 22u32);
                parts.push((v >> 14u32) & eight_bits);
                parts.push((v >> 6u32) & eight_bits);
                parts.push(v & six_bits);
                assert(parts@ =~= nvidia_version_parts(v));
                join_dotted(&parts)
            },
            _ => parse_vulkan_api_version(v),
        }
    }

    /// The vendor's name; an unknown vendor shows its id.
    pub fn name(&self) -> (r: String)
        ensures
            r@ == (match self {
                Vendor::Nvidia => "NVIDIA"@,
                Vendor::Amd => "AMD"@,
                Vendor::Arm => "ARM"@,
                Vendor::Intel => "INTEL"@,
                Vendor::ImgTec => "ImgTec"@,
                Vendor::Qualcomm => "Qualcomm"@,
                Vendor::Unknown(id) => "Unknown ("@ + decimal(*id as nat) + ")"@,
            }),
    {
        match self {
            Vendor::Nvidia => String::from_str("NVIDIA"),
            Vendor::Amd => String::from_str("AMD"),
            Vendor::Arm => String::from_str("ARM"),
            Vendor::Intel => String::from_str("INTEL"),
            Vendor::ImgTec => String::from_str("ImgTec"),
            Vendor::Qualcomm => String::from_str("Qualcomm"),
            Vendor::Unknown(id) => {
                let mut out = String::from_str("Unknown (");
                let digits = decimal_string(*id);
                out.append(digits.as_str());
                out.append(")");
                out
            },
        }
    }
}

} // verus!
