//! The sysfs PWM path layout: where each control and attribute file of a chip
//! or channel lives. The tree under these paths is the only wire format the
//! protocol speaks.

use crate::codec::{encode_u32, u32_dec_spec};
use vstd::prelude::*;

verus! {

/// One per-channel attribute file.
#[derive(Clone, Copy, Debug, PartialEq, Eq, Structural)]
pub enum Attribute {
    /// `"1"` / `"0"`: whether the signal is driven.
    Enable,
    /// Period of the signal in nanoseconds, decimal.
    Period,
    /// Active time of the signal in nanoseconds, decimal.
    DutyCycle,
    /// `"normal"` / `"inversed"`.
    Polarity,
    /// Hardware-measured period and duty cycle, two whitespace-separated
    /// decimals.
    Capture,
}

/// File name of an attribute within its channel directory.
pub open spec fn attr_name_spec(a: Attribute) -> Seq<char> {
    match a {
        Attribute::Enable => "enable"@,
        Attribute::Period => "period"@,
        Attribute::DutyCycle => "duty_cycle"@,
        Attribute::Polarity => "polarity"@,
        Attribute::Capture => "capture"@,
    }
}

/// Directory of one PWM controller; its presence means the chip exists.
pub open spec fn chip_dir_spec(chip: u32) -> Seq<char> {
    "/sys/class/pwm/pwmchip"@ + u32_dec_spec(chip as nat)
}

/// The chip's channel-count attribute, a bare decimal.
pub open spec fn npwm_path_spec(chip: u32) -> Seq<char> {
    chip_dir_spec(chip) + "/npwm"@
}

/// The chip's export control file; writing a channel number here asks the OS
/// to materialize that channel's directory.
pub open spec fn export_path_spec(chip: u32) -> Seq<char> {
    chip_dir_spec(chip) + "/export"@
}

/// The chip's unexport control file, symmetric counterpart of export.
pub open spec fn unexport_path_spec(chip: u32) -> Seq<char> {
    chip_dir_spec(chip) + "/unexport"@
}

/// Directory of one channel; its presence means the channel is exported.
pub open spec fn channel_dir_spec(chip: u32, pin: u32) -> Seq<char> {
    chip_dir_spec(chip) + "/pwm"@ + u32_dec_spec(pin as nat)
}

/// One attribute file of an exported channel.
pub open spec fn attr_path_spec(chip: u32, pin: u32, a: Attribute) -> Seq<char> {
    channel_dir_spec(chip, pin) + "/"@ + attr_name_spec(a)
}

/// File name of an attribute.
pub fn attr_name(a: Attribute) -> (s: &'static str)
    ensures
        s@ == attr_name_spec(a),
{
    match a {
        Attribute::Enable => "enable",
        Attribute::Period => "period",
        Attribute::DutyCycle => "duty_cycle",
        Attribute::Polarity => "polarity",
        Attribute::Capture => "capture",
    }
}

/// Build the chip's directory path.
pub fn chip_dir_path(chip: u32) -> (p: String)
    ensures
        p@ == chip_dir_spec(chip),
{
    let mut p = String::from_str("/sys/class/pwm/pwmchip");
    let num = encode_u32(chip);
    p.append(num.as_str());
    p
}

/// Build the path of the chip's channel-count attribute.
pub fn npwm_path(chip: u32) -> (p: String)
    ensures
        p@ == npwm_path_spec(chip),
{
    let mut p = chip_dir_path(chip);
    p.append("/npwm");
    p
}

/// Build the path of the chip's export control file.
pub fn export_path(chip: u32) -> (p: String)
    ensures
        p@ == export_path_spec(chip),
{
    let mut p = chip_dir_path(chip);
    p.append("/export");
    p
}

/// Build the path of the chip's unexport control file.
pub fn unexport_path(chip: u32) -> (p: String)
    ensures
        p@ == unexport_path_spec(chip),
{
    let mut p = chip_dir_path(chip);
    p.append("/unexport");
    p
}

/// Build the directory path of one channel.
pub fn channel_dir_path(chip: u32, pin: u32) -> (p: String)
    ensures
        p@ == channel_dir_spec(chip, pin),
{
    let mut p = chip_dir_path(chip);
    p.append("/pwm");
    let num = encode_u32(pin);
    p.append(num.as_str());
    proof {
        assert(p@ =~= channel_dir_spec(chip, pin));
    }
    p
}

/// Build the path of one attribute file of a channel.
pub fn attr_path(chip: u32, pin: u32, a: Attribute) -> (p: String)
    ensures
        p@ == attr_path_spec(chip, pin, a),
{
    let mut p = channel_dir_path(chip, pin);
    p.append("/");
    p.append(attr_name(a));
    proof {
        assert(p@ =~= attr_path_spec(chip, pin, a));
    }
    p
}

} // verus!
