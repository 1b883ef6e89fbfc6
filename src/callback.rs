use vstd::prelude::*;
use crate::config::{config_json, config_variable, config_variable_name, full_capture, SaveAnalysisConfig};

verus! {

/// Where the lifecycle callback stands in its one compilation.
#[derive(Clone, Copy, Debug, PartialEq, Eq, Structural)]
pub enum CaptureStage {
    /// Holds its output directory and file name, nothing else yet.
    Constructed,
    /// Retention of full analysis data has been switched on.
    Configured,
    /// The analysis has been handed to the serializer; nothing follows.
    Captured,
}

/// What the driver should do after a hook returns.
#[derive(Clone, Copy, Debug, PartialEq, Eq, Structural)]
pub enum Compilation {
    Stop,
    Continue,
}

/// The work the post-analysis hook asks of the driver: set `config_variable`
/// to `config_json` in the process environment, then run the analysis
/// serializer on `crate_name` with a dump handler bound to `output_dir` and
/// `output_file_name`.
#[derive(Debug)]
pub struct AnalysisDump {
    pub config_variable: String,
    pub config_json: String,
    pub crate_name: String,
    pub output_dir: String,
    pub output_file_name: String,
}

/// The hook object registered with the compiler driver for one compilation
/// unit.
#[derive(Debug)]
pub struct CallbackShim {
    pub output_dir: String,
    pub output_file_name: String,
    pub stage: CaptureStage,
}

/// A callback as `new` builds it.
pub open spec fn fresh_shim(output_dir: String, output_file_name: String) -> CallbackShim {
    CallbackShim { output_dir, output_file_name, stage: CaptureStage::Constructed }
}

/// The stage after the configuration-time hook: `Captured` is terminal.
pub open spec fn stage_after_config(s: CaptureStage) -> CaptureStage {
    match s {
        CaptureStage::Captured => CaptureStage::Captured,
        _ => CaptureStage::Configured,
    }
}

impl CallbackShim {
    /// Creates a callback that dumps the analysis under `output_dir`.
    pub fn new(output_dir: String, output_file_name: String) -> (r: Self)
        ensures
            r == fresh_shim(output_dir, output_file_name),
    {
        CallbackShim { output_dir, output_file_name, stage: CaptureStage::Constructed }
    }

    /// Configuration-time hook: forces the driver to retain its full analysis
    /// data, whatever it would otherwise have done.
    pub fn config(&mut self, save_analysis: &mut bool)
        ensures
            *final(save_analysis),
            final(self).output_dir == old(self).output_dir,
            final(self).output_file_name == old(self).output_file_name,
            final(self).stage == stage_after_config(old(self).stage),
    {
        *save_analysis = true;
        if self.stage != CaptureStage::Captured {
            self.stage = CaptureStage::Configured;
        }
    }

    /// Post-analysis hook, given the compilation unit's name: asks for the
    /// analysis to be dumped with the full-capture record, then stops the
    /// compilation before code generation.
    pub fn after_analysis(&mut self, crate_name: String) -> (r: (AnalysisDump, Compilation))
        ensures
            r.0.config_variable@ == config_variable_name(),
            r.0.config_json@ == config_json(full_capture()),
            r.0.crate_name == crate_name,
            r.0.output_dir@ == old(self).output_dir@,
            r.0.output_file_name@ == old(self).output_file_name@,
            r.1 == Compilation::Stop,
            final(self).output_dir == old(self).output_dir,
            final(self).output_file_name == old(self).output_file_name,
            final(self).stage == CaptureStage::Captured,
    {
        let record = SaveAnalysisConfig::full_capture();
        let dump = AnalysisDump {
            config_variable: config_variable(),
            config_json: record.to_json(),
            crate_name,
            output_dir: self.output_dir.clone(),
            output_file_name: self.output_file_name.clone(),
        };
        self.stage = CaptureStage::Captured;
        (dump, Compilation::Stop)
    }
}

} // verus!
