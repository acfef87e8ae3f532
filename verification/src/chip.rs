//! Handle on one PWM controller and the chip side of the export/unexport
//! lifecycle protocol.
//!
//! The OS-side exported flag of a channel is observable only as the presence
//! of the channel's directory, and it is shared with every other handle and
//! process. Each protocol operation therefore takes what the shell observed
//! (does the directory exist?) and decides what, if anything, must be written.

use crate::codec::{decode_u32, parse_u32_spec, u32_dec_spec};
use crate::common::{Error, FileWrite};
use crate::paths;
use vstd::prelude::*;

verus! {

/// Handle on one PWM controller, identified by its index in the sysfs tree.
/// Validity is checked once, at construction; the OS may later remove the
/// chip, and operations then fail when the shell performs them.
#[derive(Debug)]
pub struct PwmChip {
    pub number: u32,
}

/// Whether one run of the export protocol writes to the export control file,
/// given the exported flag it observed: only a channel that is not yet
/// present is requested.
pub open spec fn export_writes(exported: bool) -> bool {
    !exported
}

/// Whether one run of the unexport protocol writes to the unexport control
/// file: only a channel that is present is released.
pub open spec fn unexport_writes(exported: bool) -> bool {
    exported
}

/// The exported flag after the OS services an optional write of the
/// channel's number to the export control file (sysfs semantics: such a
/// write materializes the channel directory, so the flag rises; without a
/// write the flag keeps its value).
pub open spec fn flag_after_export_write(exported: bool, wrote: bool) -> bool {
    exported || wrote
}

/// The exported flag after the OS services an optional write of the
/// channel's number to the unexport control file (the write removes the
/// channel directory, so the flag falls; without a write it keeps its
/// value).
pub open spec fn flag_after_unexport_write(exported: bool, wrote: bool) -> bool {
    exported && !wrote
}

/// The OS-side exported flag once the OS has serviced one full run of the
/// export protocol that observed the flag as `exported`: a present channel is
/// left alone and the run reports success without writing; an absent one is
/// materialized by the write to the export control file.
pub open spec fn exported_after_export(exported: bool) -> bool {
    flag_after_export_write(exported, export_writes(exported))
}

/// The OS-side exported flag after one full run of the unexport protocol:
/// an absent channel is left alone; a present one is released by the write to
/// the unexport control file.
pub open spec fn exported_after_unexport(exported: bool) -> bool {
    flag_after_unexport_write(exported, unexport_writes(exported))
}

/// Idempotency of export: one run always leaves the channel exported, so a
/// second run observes a present channel, writes nothing, and leaves the same
/// observable exported state the first run left.
pub proof fn lemma_export_idempotent(exported: bool)
    ensures
        exported_after_export(exported),
        exported_after_export(exported_after_export(exported)) == exported_after_export(exported),
        !export_writes(exported_after_export(exported)),
{
}

/// Idempotency of unexport: one run always leaves the channel unexported, so
/// a second run observes an absent channel, writes nothing, and leaves the
/// same observable exported state the first run left.
pub proof fn lemma_unexport_idempotent(exported: bool)
    ensures
        !exported_after_unexport(exported),
        exported_after_unexport(exported_after_unexport(exported)) == exported_after_unexport(
            exported,
        ),
        !unexport_writes(exported_after_unexport(exported)),
{
}

impl PwmChip {
    /// Open the chip with the given index. `chip_present` is the shell's
    /// probe of the chip's directory; a chip whose directory does not exist
    /// cannot be opened.
    pub fn new(number: u32, chip_present: bool) -> (r: Result<PwmChip, Error>)
        ensures
            chip_present ==> (r matches Ok(c) && c.number == number),
            !chip_present ==> r matches Err(Error::NotFound),
    {
        if chip_present {
            Ok(PwmChip { number })
        } else {
            Err(Error::NotFound)
        }
    }

    /// The chip's directory; the shell probes it to decide existence.
    pub fn sysfs_dir(&self) -> (p: String)
        ensures
            p@ == paths::chip_dir_spec(self.number),
    {
        paths::chip_dir_path(self.number)
    }

    /// The chip's channel-count attribute file; the shell reads it and hands
    /// the content to [`Self::count`].
    pub fn npwm_path(&self) -> (p: String)
        ensures
            p@ == paths::npwm_path_spec(self.number),
    {
        paths::npwm_path(self.number)
    }

    /// The directory of channel `number`; its presence is the exported flag.
    pub fn channel_dir(&self, number: u32) -> (p: String)
        ensures
            p@ == paths::channel_dir_spec(self.number, number),
    {
        paths::channel_dir_path(self.number, number)
    }

    /// How many channels the chip offers, decoded from the content of its
    /// channel-count attribute: a bare non-negative decimal, surrounding
    /// whitespace ignored; anything else is a decode failure.
    pub fn count(&self, raw: &str) -> (r: Result<u32, Error>)
        ensures
            parse_u32_spec(raw@) matches Some(v) ==> r == Ok::<u32, Error>(v),
            parse_u32_spec(raw@) is None ==> (r matches Err(Error::Decode(m)) && m@ == raw@),
    {
        decode_u32(raw)
    }

    /// One run of the export protocol for channel `number`, given the shell's
    /// probe of the channel directory. A channel that is already present is a
    /// no-op reported as success; otherwise the returned write asks the OS to
    /// materialize it, by writing the channel number in decimal to the chip's
    /// export control file.
    pub fn export(&self, number: u32, channel_present: bool) -> (w: Option<FileWrite>)
        ensures
            w is Some == export_writes(channel_present),
            w matches Some(fw) ==> fw.path@ == paths::export_path_spec(self.number)
                && fw.data@ == u32_dec_spec(number as nat),
    {
        if channel_present {
            None
        } else {
            Some(
                FileWrite {
                    path: paths::export_path(self.number),
                    data: crate::codec::encode_u32(number),
                },
            )
        }
    }

    /// One run of the unexport protocol for channel `number`: the symmetric
    /// idempotent counterpart of export. A channel that is not present is a
    /// no-op reported as success; otherwise the returned write asks the OS to
    /// release it.
    pub fn unexport(&self, number: u32, channel_present: bool) -> (w: Option<FileWrite>)
        ensures
            w is Some == unexport_writes(channel_present),
            w matches Some(fw) ==> fw.path@ == paths::unexport_path_spec(self.number)
                && fw.data@ == u32_dec_spec(number as nat),
    {
        if channel_present {
            Some(
                FileWrite {
                    path: paths::unexport_path(self.number),
                    data: crate::codec::encode_u32(number),
                },
            )
        } else {
            None
        }
    }
}

} // verus!
