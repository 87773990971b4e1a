use vstd::prelude::*;
use crate::exposure::ExposureSettings;
use crate::number::{parse_u32, spec_parse_decimal, spec_parse_u32, Decimal, ParseError};
use crate::rational::{spec_parse_rational, RationalValue};

verus! {

/// A project: where its processes live, the exposure last used, and the process
/// last selected (empty where none is).
pub struct ProjectSettings {
    pub root_path: String,
    pub last_exposure: ExposureSettings,
    pub last_processing: String,
}

impl ProjectSettings {
    /// A fresh project under `root_path`, with the starting exposure and no process.
    pub fn with_root(root_path: &str) -> (r: ProjectSettings)
        ensures
            r.root_path@ == root_path@,
            r.last_exposure.iso@ == "100"@,
            r.last_exposure.aperture_value@ == "4.0"@,
            r.last_exposure.time_value@ == "1/15"@,
            r.last_processing@.len() == 0,
    {
        ProjectSettings {
            root_path: String::from_str(root_path),
            last_exposure: ExposureSettings::new(),
            last_processing: String::new(),
        }
    }

    pub fn get_root_path(&self) -> (r: &str)
        ensures
            r@ == self.root_path@,
    {
        self.root_path.as_str()
    }

    pub fn set_root_path(&mut self, path: &str)
        ensures
            final(self).root_path@ == path@,
            final(self).last_exposure == old(self).last_exposure,
            final(self).last_processing == old(self).last_processing,
    {
        self.root_path = String::from_str(path);
    }

    /// The ISO speed, read as an unsigned integer.
    pub fn get_iso(&self) -> (r: Result<u32, ParseError>)
        ensures
            r == spec_parse_u32(self.last_exposure.iso@),
    {
        parse_u32(self.last_exposure.iso.as_str())
    }

    pub fn get_iso_as_str(&self) -> (r: &str)
        ensures
            r@ == self.last_exposure.iso@,
    {
        self.last_exposure.iso.as_str()
    }

    pub fn set_iso(&mut self, iso: &str)
        ensures
            final(self).last_exposure.iso@ == iso@,
            final(self).last_exposure.aperture_value == old(self).last_exposure.aperture_value,
            final(self).last_exposure.time_value == old(self).last_exposure.time_value,
            final(self).root_path == old(self).root_path,
            final(self).last_processing == old(self).last_processing,
    {
        self.last_exposure.iso = String::from_str(iso);
    }

    /// The f-number, read as a decimal.
    pub fn get_aperture_value(&self) -> (r: Result<Decimal, ParseError>)
        ensures
            r == spec_parse_decimal(self.last_exposure.aperture_value@),
    {
        Decimal::parse(self.last_exposure.aperture_value.as_str())
    }

    pub fn get_aperture_value_as_str(&self) -> (r: &str)
        ensures
            r@ == self.last_exposure.aperture_value@,
    {
        self.last_exposure.aperture_value.as_str()
    }

    pub fn set_aperture_value(&mut self, av: &str)
        ensures
            final(self).last_exposure.aperture_value@ == av@,
            final(self).last_exposure.iso == old(self).last_exposure.iso,
            final(self).last_exposure.time_value == old(self).last_exposure.time_value,
            final(self).root_path == old(self).root_path,
            final(self).last_processing == old(self).last_processing,
    {
        self.last_exposure.aperture_value = String::from_str(av);
    }

    /// The shutter time, read as a ratio.
    pub fn get_time_value(&self) -> (r: Result<RationalValue, ParseError>)
        ensures
            r == spec_parse_rational(self.last_exposure.time_value@),
    {
        RationalValue::parse(self.last_exposure.time_value.as_str())
    }

    pub fn get_time_value_as_str(&self) -> (r: &str)
        ensures
            r@ == self.last_exposure.time_value@,
    {
        self.last_exposure.time_value.as_str()
    }

    pub fn set_time_value(&mut self, tv: &str)
        ensures
            final(self).last_exposure.time_value@ == tv@,
            final(self).last_exposure.iso == old(self).last_exposure.iso,
            final(self).last_exposure.aperture_value == old(self).last_exposure.aperture_value,
            final(self).root_path == old(self).root_path,
            final(self).last_processing == old(self).last_processing,
    {
        self.last_exposure.time_value = String::from_str(tv);
    }

    /// Selects `process_name` as the current process where `exists` reports that it
    /// has a directory with a settings file under the root; says whether it did.
    pub fn set_last_processing(&mut self, process_name: &str, exists: bool) -> (r: bool)
        ensures
            r == exists,
            exists ==> final(self).last_processing@ == process_name@,
            !exists ==> final(self).last_processing == old(self).last_processing,
            final(self).root_path == old(self).root_path,
            final(self).last_exposure == old(self).last_exposure,
    {
        if exists {
            self.last_processing = String::from_str(process_name);
            return true;
        }
        false
    }
}

} // verus!
