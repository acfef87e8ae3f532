//! Handle on one PWM output channel: the full attribute surface and the
//! scoped-export helper's decision logic.
//!
//! Every operation is phrased over plain values: a read hands in the text the
//! shell found in the attribute file, a write hands back the exact text and
//! path to write. The shell performs the file operations under whichever
//! scheduling discipline it implements (blocking the thread, or suspending
//! the task); the protocol is the same either way.

use crate::chip::PwmChip;
use crate::codec;
use crate::codec::{parse_bool_spec, parse_fields_spec, parse_polarity_spec, parse_u32_spec,
    u32_dec_spec};
use crate::common::{Error, FileWrite, Polarity};
use crate::paths;
use crate::paths::Attribute;
use vstd::prelude::*;

verus! {

/// Handle on one PWM channel. Construction validates only the chip; an
/// invalid channel number surfaces as failures on first use. The channel's
/// exported flag lives on the OS side alone and is never cached here.
#[derive(Debug)]
pub struct Pwm {
    pub chip: PwmChip,
    pub number: u32,
}

impl Pwm {
    /// Create a new Pwm with the provided chip/number. `chip_present` is the
    /// shell's probe of the chip directory. This does not export the pin.
    pub fn new(chip: u32, number: u32, chip_present: bool) -> (r: Result<Pwm, Error>)
        ensures
            chip_present ==> (r matches Ok(p) && p.chip.number == chip && p.number == number),
            !chip_present ==> r matches Err(Error::NotFound),
    {
        match PwmChip::new(chip, chip_present) {
            Ok(chip) => Ok(Pwm { chip, number }),
            Err(e) => Err(e),
        }
    }

    /// The channel's directory; the shell probes it for the exported flag.
    pub fn channel_dir(&self) -> (p: String)
        ensures
            p@ == paths::channel_dir_spec(self.chip.number, self.number),
    {
        self.chip.channel_dir(self.number)
    }

    /// The file of one attribute of this channel.
    pub fn attr_path(&self, a: Attribute) -> (p: String)
        ensures
            p@ == paths::attr_path_spec(self.chip.number, self.number, a),
    {
        paths::attr_path(self.chip.number, self.number, a)
    }

    /// One run of the export protocol for this channel; see
    /// [`PwmChip::export`].
    pub fn export(&self, channel_present: bool) -> (w: Option<FileWrite>)
        ensures
            w is Some == crate::chip::export_writes(channel_present),
            w matches Some(fw) ==> fw.path@ == paths::export_path_spec(self.chip.number)
                && fw.data@ == u32_dec_spec(self.number as nat),
    {
        self.chip.export(self.number, channel_present)
    }

    /// One run of the unexport protocol for this channel; see
    /// [`PwmChip::unexport`].
    pub fn unexport(&self, channel_present: bool) -> (w: Option<FileWrite>)
        ensures
            w is Some == crate::chip::unexport_writes(channel_present),
            w matches Some(fw) ==> fw.path@ == paths::unexport_path_spec(self.chip.number)
                && fw.data@ == u32_dec_spec(self.number as nat),
    {
        self.chip.unexport(self.number, channel_present)
    }

    /// Enable or disable the PWM signal: the write of `"1"` or `"0"` to the
    /// enable attribute.
    pub fn enable(&self, enable: bool) -> (w: FileWrite)
        ensures
            w.path@ == paths::attr_path_spec(self.chip.number, self.number, Attribute::Enable),
            w.data@ == codec::bool_text_spec(enable),
    {
        FileWrite { path: self.attr_path(Attribute::Enable), data: codec::encode_bool(enable) }
    }

    /// The enable state, decoded from the content of the enable attribute:
    /// `"1"` or `"0"` up to surrounding whitespace; anything else is a decode
    /// failure.
    pub fn get_enabled(&self, raw: &str) -> (r: Result<bool, Error>)
        ensures
            parse_bool_spec(raw@) matches Some(b) ==> r == Ok::<bool, Error>(b),
            parse_bool_spec(raw@) is None ==> (r matches Err(Error::Decode(m)) && m@ == raw@),
    {
        codec::decode_bool(raw)
    }

    /// The period of the signal in nanoseconds: the write of the value in
    /// decimal to the period attribute.
    pub fn set_period_ns(&self, period_ns: u32) -> (w: FileWrite)
        ensures
            w.path@ == paths::attr_path_spec(self.chip.number, self.number, Attribute::Period),
            w.data@ == u32_dec_spec(period_ns as nat),
    {
        FileWrite {
            path: self.attr_path(Attribute::Period),
            data: codec::encode_u32(period_ns),
        }
    }

    /// The configured period in nanoseconds, decoded from the content of the
    /// period attribute.
    pub fn get_period_ns(&self, raw: &str) -> (r: Result<u32, Error>)
        ensures
            parse_u32_spec(raw@) matches Some(v) ==> r == Ok::<u32, Error>(v),
            parse_u32_spec(raw@) is None ==> (r matches Err(Error::Decode(m)) && m@ == raw@),
    {
        codec::decode_u32(raw)
    }

    /// The active time of the signal in nanoseconds: the write of the value
    /// in decimal to the duty-cycle attribute. Keeping the value at most the
    /// current period is the OS driver's concern, not checked here; an
    /// out-of-range write surfaces as the OS rejecting it.
    pub fn set_duty_cycle_ns(&self, duty_cycle_ns: u32) -> (w: FileWrite)
        ensures
            w.path@ == paths::attr_path_spec(self.chip.number, self.number, Attribute::DutyCycle),
            w.data@ == u32_dec_spec(duty_cycle_ns as nat),
    {
        FileWrite {
            path: self.attr_path(Attribute::DutyCycle),
            data: codec::encode_u32(duty_cycle_ns),
        }
    }

    /// The configured duty cycle in nanoseconds, decoded from the content of
    /// the duty-cycle attribute.
    pub fn get_duty_cycle_ns(&self, raw: &str) -> (r: Result<u32, Error>)
        ensures
            parse_u32_spec(raw@) matches Some(v) ==> r == Ok::<u32, Error>(v),
            parse_u32_spec(raw@) is None ==> (r matches Err(Error::Decode(m)) && m@ == raw@),
    {
        codec::decode_u32(raw)
    }

    /// The polarity of the signal: the write of the exact literal to the
    /// polarity attribute.
    pub fn set_polarity(&self, polarity: Polarity) -> (w: FileWrite)
        ensures
            w.path@ == paths::attr_path_spec(self.chip.number, self.number, Attribute::Polarity),
            w.data@ == codec::polarity_text_spec(polarity),
    {
        FileWrite {
            path: self.attr_path(Attribute::Polarity),
            data: codec::encode_polarity(polarity),
        }
    }

    /// The configured polarity, decoded from the content of the polarity
    /// attribute: `"normal"` or `"inversed"` up to surrounding whitespace;
    /// any other content is a decode failure.
    pub fn get_polarity(&self, raw: &str) -> (r: Result<Polarity, Error>)
        ensures
            parse_polarity_spec(raw@) matches Some(p) ==> r == Ok::<Polarity, Error>(p),
            parse_polarity_spec(raw@) is None ==> (r matches Err(Error::Decode(m)) && m@ == raw@),
    {
        codec::decode_polarity(raw)
    }

    /// The hardware-measured capture pair, decoded from the content of the
    /// capture attribute: whitespace-split, each token decimal-parsed, and
    /// accepted only when exactly two values parsed. A ragged read (one
    /// token, three tokens, unparseable tokens leaving other than two) is a
    /// decode failure; callers needing partial results must retry.
    pub fn get_capture(&self, raw: &str) -> (r: Result<(u32, u32), Error>)
        ensures
            parse_fields_spec(raw@).len() == 2 ==> r == Ok::<(u32, u32), Error>(
                (parse_fields_spec(raw@)[0], parse_fields_spec(raw@)[1]),
            ),
            parse_fields_spec(raw@).len() != 2 ==> (r matches Err(Error::Decode(m)) && m@
                == raw@),
    {
        let t = codec::decode_u32_fields(raw);
        if t.len() == 2 {
            Ok((t[0], t[1]))
        } else {
            Err(Error::Decode(raw.to_owned()))
        }
    }
}

/// The result the scoped-export helper reports, from the outcome of the
/// caller-supplied work and of the final unexport. The work's outcome is
/// passed through unless the unexport also failed, in which case the
/// aggregate failure names both, the work's failure first; a lone unexport
/// failure after successful work is reported as the sole failure.
pub fn with_exported_outcome(work: Result<(), Error>, unexported: Result<(), Error>) -> (r: Result<
    (),
    Error,
>)
    ensures
        work is Ok && unexported is Ok ==> r is Ok,
        work is Ok && unexported is Err ==> (r matches Err(e) && e == unexported->Err_0),
        work is Err && unexported is Ok ==> (r matches Err(e) && e == work->Err_0),
        work is Err && unexported is Err ==> (r matches Err(Error::Aggregate(a, b)) && *a
            == work->Err_0 && *b == unexported->Err_0),
{
    match work {
        Ok(()) => unexported,
        Err(e) => match unexported {
            Ok(()) => Err(e),
            Err(ue) => Err(Error::Aggregate(Box::new(e), Box::new(ue))),
        },
    }
}

/// Scoped-export guarantee, state side: the helper exports, runs the work,
/// and unexports on every exit path, so whatever the work did, the channel is
/// left unexported.
pub proof fn lemma_with_exported_releases(exported_at_entry: bool)
    ensures
        crate::chip::exported_after_unexport(
            crate::chip::exported_after_export(exported_at_entry),
        ) == false,
{
}

} // verus!
