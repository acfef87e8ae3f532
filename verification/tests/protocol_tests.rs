use std::collections::{HashMap, HashSet};

use sysfs_pwm::chip::PwmChip;
use sysfs_pwm::common::{Error, Polarity};
use sysfs_pwm::paths::Attribute;
use sysfs_pwm::pwm::{with_exported_outcome, Pwm};

/// In-memory stand-in for the sysfs PWM tree, driving the library exactly as
/// the I/O shell does: probes answer directory presence, reads hand file
/// content in, writes carry the library's requests out. Writing a channel
/// number to the export control file materializes the channel directory and
/// its attribute files; the unexport control file removes them.
struct FakeSysfs {
    chip: u32,
    dirs: HashSet<String>,
    files: HashMap<String, String>,
}

impl FakeSysfs {
    fn with_chip(chip: u32) -> FakeSysfs {
        let mut dirs = HashSet::new();
        dirs.insert(format!("/sys/class/pwm/pwmchip{chip}"));
        let mut files = HashMap::new();
        files.insert(format!("/sys/class/pwm/pwmchip{chip}/npwm"), "4\n".to_string());
        FakeSysfs { chip, dirs, files }
    }

    fn dir_exists(&self, p: &str) -> bool {
        self.dirs.contains(p)
    }

    fn read(&self, p: &str) -> Result<String, Error> {
        match self.files.get(p) {
            Some(c) => Ok(c.clone()),
            None => Err(Error::Io(format!("no such file: {p}"))),
        }
    }

    fn write(&mut self, p: &str, data: &str) -> Result<(), Error> {
        let chip = self.chip;
        let chip_dir = format!("/sys/class/pwm/pwmchip{chip}");
        if p == format!("{chip_dir}/export") {
            let pin_dir = format!("{chip_dir}/pwm{data}");
            for a in ["enable", "period", "duty_cycle", "polarity", "capture"] {
                self.files.insert(format!("{pin_dir}/{a}"), "0\n".to_string());
            }
            self.files.insert(format!("{pin_dir}/polarity"), "normal\n".to_string());
            self.dirs.insert(pin_dir);
            Ok(())
        } else if p == format!("{chip_dir}/unexport") {
            let pin_dir = format!("{chip_dir}/pwm{data}");
            self.files.retain(|k, _| !k.starts_with(&format!("{pin_dir}/")));
            self.dirs.remove(&pin_dir);
            Ok(())
        } else if self.files.contains_key(p) {
            self.files.insert(p.to_string(), data.to_string());
            Ok(())
        } else {
            Err(Error::Io(format!("no such file: {p}")))
        }
    }
}

/// The shell side of the scoped-export helper, as app code runs it: export,
/// run the work, unexport on every exit path, aggregate the outcomes.
fn run_with_exported(
    fs: &mut FakeSysfs,
    pwm: &Pwm,
    work: impl FnOnce(&mut FakeSysfs) -> Result<(), Error>,
) -> Result<(), Error> {
    let present = fs.dir_exists(&pwm.channel_dir());
    if let Some(w) = pwm.export(present) {
        fs.write(&w.path, &w.data)?;
    }
    let worked = work(fs);
    let present = fs.dir_exists(&pwm.channel_dir());
    let unexported = match pwm.unexport(present) {
        Some(w) => fs.write(&w.path, &w.data),
        None => Ok(()),
    };
    with_exported_outcome(worked, unexported)
}

#[test]
fn chip_paths_follow_the_sysfs_layout() {
    let chip = PwmChip::new(0, true).unwrap();
    assert_eq!(chip.sysfs_dir(), "/sys/class/pwm/pwmchip0");
    assert_eq!(chip.npwm_path(), "/sys/class/pwm/pwmchip0/npwm");
    assert_eq!(chip.channel_dir(1), "/sys/class/pwm/pwmchip0/pwm1");
    let pwm = Pwm::new(12, 3, true).unwrap();
    assert_eq!(pwm.channel_dir(), "/sys/class/pwm/pwmchip12/pwm3");
    assert_eq!(
        pwm.attr_path(Attribute::DutyCycle),
        "/sys/class/pwm/pwmchip12/pwm3/duty_cycle"
    );
    assert_eq!(pwm.attr_path(Attribute::Enable), "/sys/class/pwm/pwmchip12/pwm3/enable");
    assert_eq!(pwm.attr_path(Attribute::Period), "/sys/class/pwm/pwmchip12/pwm3/period");
    assert_eq!(pwm.attr_path(Attribute::Polarity), "/sys/class/pwm/pwmchip12/pwm3/polarity");
    assert_eq!(pwm.attr_path(Attribute::Capture), "/sys/class/pwm/pwmchip12/pwm3/capture");
}

#[test]
fn opening_an_absent_chip_is_not_found() {
    assert!(matches!(PwmChip::new(5, false), Err(Error::NotFound)));
    assert!(matches!(Pwm::new(5, 0, false), Err(Error::NotFound)));
}

#[test]
fn count_decodes_the_channel_count() {
    let chip = PwmChip::new(0, true).unwrap();
    assert_eq!(chip.count("4\n").unwrap(), 4);
    assert_eq!(chip.count(" 16 ").unwrap(), 16);
    assert!(matches!(chip.count("many"), Err(Error::Decode(_))));
}

#[test]
fn export_is_idempotent() {
    let chip = PwmChip::new(0, true).unwrap();
    // absent channel: one write to the export control file
    let w = chip.export(2, false).unwrap();
    assert_eq!(w.path, "/sys/class/pwm/pwmchip0/export");
    assert_eq!(w.data, "2");
    // present channel: a no-op that still reports success
    assert!(chip.export(2, true).is_none());
}

#[test]
fn unexport_is_idempotent() {
    let chip = PwmChip::new(0, true).unwrap();
    let w = chip.unexport(2, true).unwrap();
    assert_eq!(w.path, "/sys/class/pwm/pwmchip0/unexport");
    assert_eq!(w.data, "2");
    assert!(chip.unexport(2, false).is_none());
}

#[test]
fn exporting_twice_equals_exporting_once() {
    let mut fs = FakeSysfs::with_chip(0);
    let pwm = Pwm::new(0, 0, fs.dir_exists("/sys/class/pwm/pwmchip0")).unwrap();
    for _ in 0..2 {
        if let Some(w) = pwm.export(fs.dir_exists(&pwm.channel_dir())) {
            fs.write(&w.path, &w.data).unwrap();
        }
        assert!(fs.dir_exists(&pwm.channel_dir()));
    }
    for _ in 0..2 {
        if let Some(w) = pwm.unexport(fs.dir_exists(&pwm.channel_dir())) {
            fs.write(&w.path, &w.data).unwrap();
        }
        assert!(!fs.dir_exists(&pwm.channel_dir()));
    }
}

#[test]
fn attribute_writes_round_trip() {
    let pwm = Pwm::new(0, 0, true).unwrap();
    let w = pwm.set_period_ns(20000);
    assert_eq!(pwm.get_period_ns(&w.data).unwrap(), 20000);
    let w = pwm.set_duty_cycle_ns(4_294_967_295);
    assert_eq!(pwm.get_duty_cycle_ns(&w.data).unwrap(), u32::MAX);
    let w = pwm.enable(true);
    assert_eq!(pwm.get_enabled(&w.data).unwrap(), true);
    let w = pwm.enable(false);
    assert_eq!(pwm.get_enabled(&w.data).unwrap(), false);
}

#[test]
fn polarity_round_trips_through_the_attribute() {
    let pwm = Pwm::new(0, 0, true).unwrap();
    let w = pwm.set_polarity(Polarity::Inverse);
    assert_eq!(w.data, "inversed");
    assert_eq!(pwm.get_polarity(&w.data).unwrap(), Polarity::Inverse);
    let w = pwm.set_polarity(Polarity::Normal);
    assert_eq!(pwm.get_polarity(&w.data).unwrap(), Polarity::Normal);
}

#[test]
fn capture_needs_exactly_two_values() {
    let pwm = Pwm::new(0, 0, true).unwrap();
    assert_eq!(pwm.get_capture("1000000 250000").unwrap(), (1000000, 250000));
    assert!(matches!(pwm.get_capture("1000000"), Err(Error::Decode(_))));
    assert!(matches!(pwm.get_capture("1000000 250000 1"), Err(Error::Decode(_))));
    assert!(matches!(pwm.get_capture(""), Err(Error::Decode(_))));
}

#[test]
fn get_enabled_rejects_other_content() {
    let pwm = Pwm::new(0, 0, true).unwrap();
    assert!(matches!(pwm.get_enabled("yes"), Err(Error::Decode(_))));
}

#[test]
fn with_exported_reports_the_work_outcome() {
    // both succeed
    assert!(with_exported_outcome(Ok(()), Ok(())).is_ok());
    // work fails, unexport succeeds: the work failure alone
    let r = with_exported_outcome(Err(Error::NotFound), Ok(()));
    assert!(matches!(r, Err(Error::NotFound)));
    // work succeeds, unexport fails: the unexport failure alone
    let r = with_exported_outcome(Ok(()), Err(Error::Io("gone".to_string())));
    assert!(matches!(r, Err(Error::Io(_))));
    // both fail: the aggregate names both, the work failure first
    let r = with_exported_outcome(
        Err(Error::Decode("bad".to_string())),
        Err(Error::Io("gone".to_string())),
    );
    match r {
        Err(Error::Aggregate(work, unexp)) => {
            assert!(matches!(*work, Error::Decode(_)));
            assert!(matches!(*unexp, Error::Io(_)));
        },
        _ => panic!("expected an aggregate failure"),
    }
}

#[test]
fn with_exported_always_releases_the_channel() {
    let mut fs = FakeSysfs::with_chip(0);
    let pwm = Pwm::new(0, 0, true).unwrap();

    // the work succeeds
    let r = run_with_exported(&mut fs, &pwm, |fs| {
        let w = pwm.set_period_ns(1000);
        fs.write(&w.path, &w.data)
    });
    assert!(r.is_ok());
    assert!(!fs.dir_exists(&pwm.channel_dir()));

    // the work fails: the channel is still released and the work's failure
    // is reported
    let r = run_with_exported(&mut fs, &pwm, |_| Err(Error::Decode("bad".to_string())));
    assert!(matches!(r, Err(Error::Decode(_))));
    assert!(!fs.dir_exists(&pwm.channel_dir()));
}

#[test]
fn configure_and_read_back_one_channel() {
    // chip 0 exists, channel 0 unexported
    let mut fs = FakeSysfs::with_chip(0);
    let pwm = Pwm::new(0, 0, fs.dir_exists("/sys/class/pwm/pwmchip0")).unwrap();
    assert!(!fs.dir_exists(&pwm.channel_dir()));

    // export succeeds
    if let Some(w) = pwm.export(fs.dir_exists(&pwm.channel_dir())) {
        fs.write(&w.path, &w.data).unwrap();
    }
    assert!(fs.dir_exists(&pwm.channel_dir()));

    // set period and duty cycle
    let w = pwm.set_period_ns(20000);
    fs.write(&w.path, &w.data).unwrap();
    let w = pwm.set_duty_cycle_ns(5000);
    fs.write(&w.path, &w.data).unwrap();

    // read the duty cycle back as a fraction of the period
    let duty = pwm
        .get_duty_cycle_ns(&fs.read(&pwm.attr_path(Attribute::DutyCycle)).unwrap())
        .unwrap();
    let period = pwm.get_period_ns(&fs.read(&pwm.attr_path(Attribute::Period)).unwrap()).unwrap();
    assert_eq!(duty as f32 / period as f32, 0.25);

    // unexport succeeds; the attribute files are gone afterwards
    if let Some(w) = pwm.unexport(fs.dir_exists(&pwm.channel_dir())) {
        fs.write(&w.path, &w.data).unwrap();
    }
    assert!(!fs.dir_exists(&pwm.channel_dir()));
    assert!(matches!(
        fs.read(&pwm.attr_path(Attribute::Period)),
        Err(Error::Io(_))
    ));
}
