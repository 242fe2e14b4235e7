//! Naming of the result files that the benchmark runs produce: a file name
//! says which device, which direction and which implementation it holds.
use vstd::prelude::*;
use vstd::string::StringExecFns;

verus! {

/// Whether `needle` occurs in `hay` as a contiguous run of characters.
pub open spec fn has_substring(hay: Seq<char>, needle: Seq<char>) -> bool {
    exists|i: int|
        0 <= i && i + needle.len() <= hay.len() && #[trigger] hay.subrange(i, i + needle.len())
            == needle
}

/// Relies on `str::contains` with a `&str` pattern: true when `needle`
/// matches a sub-slice of `hay`.
#[verifier::external_body]
fn contains(hay: &str, needle: &str) -> (r: bool)
    ensures
        r == has_substring(hay@, needle@),
{
    hay.contains(needle)
}

/// The link a result was measured on.
#[derive(Clone, Copy, Debug, PartialEq, Eq, Structural)]
pub enum Device {
    Physical100G,
    Physical10G,
    Vale,
}

/// Which way the packets went.
#[derive(Clone, Copy, Debug, PartialEq, Eq, Structural)]
pub enum Experiment {
    Transmission,
    Reception,
}

/// Which implementation ran.
#[derive(Clone, Copy, Debug, PartialEq, Eq, Structural)]
pub enum Language {
    Cpp,
    Rust,
}

/// What a result file name says.
#[derive(Clone, Copy, Debug, PartialEq, Eq, Structural)]
pub struct ExperimentName {
    pub experiment: Experiment,
    pub device: Device,
    pub language: Language,
}

/// The part of a file name that could not be told.
#[derive(Clone, Copy, Debug, PartialEq, Eq, Structural)]
pub enum NameError {
    UnknownDevice,
    UnknownExperiment,
    UnknownLanguage,
}

/// Tells a file name apart, each part by the first marker it holds, the
/// device first: `ens`, `enp` or `vale`; then `send` or `recv`; then `cpp`
/// or `rust`.
pub open spec fn classify(s: Seq<char>) -> Result<ExperimentName, NameError> {
    let device = if has_substring(s, "ens"@) {
        Some(Device::Physical100G)
    } else if has_substring(s, "enp"@) {
        Some(Device::Physical10G)
    } else if has_substring(s, "vale"@) {
        Some(Device::Vale)
    } else {
        None
    };
    let experiment = if has_substring(s, "send"@) {
        Some(Experiment::Transmission)
    } else if has_substring(s, "recv"@) {
        Some(Experiment::Reception)
    } else {
        None
    };
    let language = if has_substring(s, "cpp"@) {
        Some(Language::Cpp)
    } else if has_substring(s, "rust"@) {
        Some(Language::Rust)
    } else {
        None
    };
    match (device, experiment, language) {
        (None, _, _) => Err(NameError::UnknownDevice),
        (Some(_), None, _) => Err(NameError::UnknownExperiment),
        (Some(_), Some(_), None) => Err(NameError::UnknownLanguage),
        (Some(d), Some(e), Some(l)) => Ok(ExperimentName { experiment: e, device: d, language: l }),
    }
}

pub open spec fn device_text(d: Device) -> Seq<char> {
    match d {
        Device::Physical100G => "physical 100G"@,
        Device::Physical10G => "physical 10G"@,
        Device::Vale => "VALE"@,
    }
}

pub open spec fn experiment_text(e: Experiment) -> Seq<char> {
    match e {
        Experiment::Transmission => "Trasmission"@,
        Experiment::Reception => "Reception"@,
    }
}

pub open spec fn language_text(l: Language) -> Seq<char> {
    match l {
        Language::Cpp => "C++"@,
        Language::Rust => "Rust"@,
    }
}

/// The display form: `<experiment> (<device>) - <language>`.
pub open spec fn name_text(n: ExperimentName) -> Seq<char> {
    experiment_text(n.experiment) + " ("@ + device_text(n.device) + ") - "@ + language_text(
        n.language,
    )
}

pub fn device_label(d: Device) -> (r: &'static str)
    ensures
        r@ == device_text(d),
{
    match d {
        Device::Physical100G => "physical 100G",
        Device::Physical10G => "physical 10G",
        Device::Vale => "VALE",
    }
}

pub fn experiment_label(e: Experiment) -> (r: &'static str)
    ensures
        r@ == experiment_text(e),
{
    match e {
        Experiment::Transmission => "Trasmission",
        Experiment::Reception => "Reception",
    }
}

pub fn language_label(l: Language) -> (r: &'static str)
    ensures
        r@ == language_text(l),
{
    match l {
        Language::Cpp => "C++",
        Language::Rust => "Rust",
    }
}

/// Tells apart what a result file name says.
pub fn classify_file_name(filename: &str) -> (r: Result<ExperimentName, NameError>)
    ensures
        r == classify(filename@),
{
    let device = if contains(filename, "ens") {
        Some(Device::Physical100G)
    } else if contains(filename, "enp") {
        Some(Device::Physical10G)
    } else if contains(filename, "vale") {
        Some(Device::Vale)
    } else {
        None
    };
    let experiment = if contains(filename, "send") {
        Some(Experiment::Transmission)
    } else if contains(filename, "recv") {
        Some(Experiment::Reception)
    } else {
        None
    };
    let language = if contains(filename, "cpp") {
        Some(Language::Cpp)
    } else if contains(filename, "rust") {
        Some(Language::Rust)
    } else {
        None
    };
    match (device, experiment, language) {
        (None, _, _) => Err(NameError::UnknownDevice),
        (Some(_), None, _) => Err(NameError::UnknownExperiment),
        (Some(_), Some(_), None) => Err(NameError::UnknownLanguage),
        (Some(d), Some(e), Some(l)) => Ok(ExperimentName { experiment: e, device: d, language: l }),
    }
}

/// The display form of a name.
pub fn name_label(n: ExperimentName) -> (r: String)
    ensures
        r@ == name_text(n),
{
    let s = String::from_str(experiment_label(n.experiment));
    let s = s.concat(" (");
    let s = s.concat(device_label(n.device));
    let s = s.concat(") - ");
    s.concat(language_label(n.language))
}

/// The display name of the experiment that a result file holds, as
/// `<experiment> (<device>) - <language>`; an error names the first part
/// that the file name does not give.
pub fn get_experiment_name(filename: &str) -> (r: Result<String, NameError>)
    ensures
        classify(filename@) matches Err(e) ==> r == Err::<String, NameError>(e),
        classify(filename@) matches Ok(n) ==> (r matches Ok(s) && s@ == name_text(n)),
{
    match classify_file_name(filename) {
        Ok(n) => Ok(name_label(n)),
        Err(e) => Err(e),
    }
}

} // verus!
