use vstd::prelude::*;
use vstd::string::StringExecFns;

verus! {

/// The configuration record read by the driver's analysis serializer.
///
/// The record never overrides the output file: where the dump lands is decided
/// by the output directory and file name handed to the dump handler, so the
/// rendered record always carries `"output_file":null`.
#[derive(Clone, Copy, Debug, PartialEq, Eq, Structural)]
pub struct SaveAnalysisConfig {
    pub full_docs: bool,
    pub pub_only: bool,
    pub reachable_only: bool,
    pub distro_crate: bool,
    pub signatures: bool,
    pub borrow_data: bool,
}

pub open spec fn bool_json(b: bool) -> Seq<char> {
    if b {
        "true"@
    } else {
        "false"@
    }
}

/// The record as a JSON object, fields in their fixed order.
pub open spec fn config_json(c: SaveAnalysisConfig) -> Seq<char> {
    "{\"output_file\":null,\"full_docs\":"@ + bool_json(c.full_docs) + ",\"pub_only\":"@
        + bool_json(c.pub_only) + ",\"reachable_only\":"@ + bool_json(c.reachable_only)
        + ",\"distro_crate\":"@ + bool_json(c.distro_crate) + ",\"signatures\":"@
        + bool_json(c.signatures) + ",\"borrow_data\":"@ + bool_json(c.borrow_data) + "}"@
}

/// Full documentation kept, no filtering by visibility or reachability, not a
/// distribution crate, no signature-only output, no borrow data.
pub open spec fn full_capture() -> SaveAnalysisConfig {
    SaveAnalysisConfig {
        full_docs: true,
        pub_only: false,
        reachable_only: false,
        distro_crate: false,
        signatures: false,
        borrow_data: false,
    }
}

/// The environment variable through which the driver's serializer reads the
/// record.
pub open spec fn config_variable_name() -> Seq<char> {
    "RUST_SAVE_ANALYSIS_CONFIG"@
}

fn append_bool(s: &mut String, b: bool)
    ensures
        final(s)@ == old(s)@ + bool_json(b),
{
    if b {
        s.append("true");
    } else {
        s.append("false");
    }
}

impl SaveAnalysisConfig {
    /// The one configuration this adapter ever sets.
    pub fn full_capture() -> (r: SaveAnalysisConfig)
        ensures
            r == full_capture(),
    {
        SaveAnalysisConfig {
            full_docs: true,
            pub_only: false,
            reachable_only: false,
            distro_crate: false,
            signatures: false,
            borrow_data: false,
        }
    }

    /// Renders the record as the JSON object the serializer parses.
    pub fn to_json(&self) -> (r: String)
        ensures
            r@ == config_json(*self),
    {
        let mut s = String::from_str("{\"output_file\":null,\"full_docs\":");
        append_bool(&mut s, self.full_docs);
        s.append(",\"pub_only\":");
        append_bool(&mut s, self.pub_only);
        s.append(",\"reachable_only\":");
        append_bool(&mut s, self.reachable_only);
        s.append(",\"distro_crate\":");
        append_bool(&mut s, self.distro_crate);
        s.append(",\"signatures\":");
        append_bool(&mut s, self.signatures);
        s.append(",\"borrow_data\":");
        append_bool(&mut s, self.borrow_data);
        s.append("}");
        s
    }
}

/// The name of the environment variable that carries the record.
pub fn config_variable() -> (r: String)
    ensures
        r@ == config_variable_name(),
{
    String::from_str("RUST_SAVE_ANALYSIS_CONFIG")
}

} // verus!
