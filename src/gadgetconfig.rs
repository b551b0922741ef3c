use vstd::prelude::*;
use std::collections::HashMap;
use crate::warning::Warning;

verus! {

/// Identity of the USB device; every field is a hex-formatted string.
#[allow(non_snake_case)]
#[derive(Debug)]
pub struct General {
    pub name: String,
    pub idVendor: String,
    pub idProduct: String,
    pub bcdDevice: String,
    pub bcdUSB: String,
}

/// The device's string descriptors.
#[derive(Debug)]
pub struct Strings {
    pub serial: String,
    pub manufacturer: String,
    pub product: String,
}

/// One USB configuration.
#[allow(non_snake_case)]
#[derive(Debug)]
pub struct UsbConfig {
    pub configuration: String,
    pub MaxPower: String,
}

/// One USB function and the configuration it belongs to.
#[derive(Debug)]
pub struct Function {
    pub config: String,
    pub foo: Option<String>,
}

/// One USB personality the unit can present: identity, strings, and its
/// configurations and functions keyed by name.
#[derive(Debug)]
pub struct GadgetConfig {
    pub general: General,
    pub strings: Strings,
    pub configs: HashMap<String, UsbConfig>,
    pub functions: HashMap<String, Function>,
}

/// What became of reading and parsing one gadget file.
#[derive(Debug)]
pub enum GadgetFile {
    Parsed(GadgetConfig),
    Unreadable { path: String, reason: String },
    Malformed { path: String, reason: String },
}

/// The outcome of one enumeration pass over the gadget directory.
#[derive(Debug)]
pub struct GadgetScan {
    pub gadgets: Vec<GadgetConfig>,
    pub warnings: Vec<Warning>,
}

/// The records of the files that parsed, in the order of the files.
pub open spec fn parsed_gadgets(files: Seq<GadgetFile>) -> Seq<GadgetConfig>
    decreases files.len(),
{
    if files.len() == 0 {
        Seq::empty()
    } else {
        let rest = parsed_gadgets(files.drop_last());
        match files.last() {
            GadgetFile::Parsed(g) => rest.push(g),
            _ => rest,
        }
    }
}

/// One warning for each file that could not be read or parsed, naming it, in
/// the order of the files.
pub open spec fn file_warnings(files: Seq<GadgetFile>) -> Seq<Warning>
    decreases files.len(),
{
    if files.len() == 0 {
        Seq::empty()
    } else {
        let rest = file_warnings(files.drop_last());
        match files.last() {
            GadgetFile::Parsed(_) => rest,
            GadgetFile::Unreadable { path, reason } => rest.push(
                Warning::GadgetUnreadable { path, reason },
            ),
            GadgetFile::Malformed { path, reason } => rest.push(
                Warning::GadgetMalformed { path, reason },
            ),
        }
    }
}

/// The file pattern that picks the gadget files directly inside `dir`.
pub open spec fn gadget_pattern_of(dir: Seq<char>) -> Seq<char> {
    dir + "/*.toml"@
}

/// The glob pattern that matches the gadget files directly inside `dir`.
pub fn gadget_pattern(dir: &str) -> (r: String)
    ensures
        r@ == gadget_pattern_of(dir@),
{
    let mut p = String::from_str(dir);
    p.append("/*.toml");
    p
}

/// Gathers the gadgets of one enumeration pass. When the directory is
/// missing, the result is empty, with one warning. Otherwise every file that
/// parsed gives its record, in the order of the files, and every file that
/// could not be read or parsed is skipped with a warning that names it.
pub fn collect_gadgets(dir_exists: bool, files: Vec<GadgetFile>) -> (r: GadgetScan)
    ensures
        !dir_exists ==> r.gadgets@.len() == 0 && r.warnings@ == seq![Warning::GadgetDirMissing],
        dir_exists ==> r.gadgets@ == parsed_gadgets(files@) && r.warnings@ == file_warnings(
            files@,
        ),
{
    let mut gadgets: Vec<GadgetConfig> = Vec::new();
    let mut warnings: Vec<Warning> = Vec::new();
    if !dir_exists {
        warnings.push(Warning::GadgetDirMissing);
        return GadgetScan { gadgets, warnings };
    }
    let ghost all = files@;
    let mut files = files;
    let total = files.len();
    let mut done: usize = 0;
    while files.len() > 0
        invariant
            all.len() == total,
            done <= all.len(),
            files@ == all.skip(done as int),
            gadgets@ == parsed_gadgets(all.take(done as int)),
            warnings@ == file_warnings(all.take(done as int)),
        decreases files@.len(),
    {
        let f = files.remove(0);
        proof {
            assert(f == all[done as int]);
            assert(all.take(done + 1 as int).drop_last() == all.take(done as int));
            assert(all.take(done + 1 as int).last() == f);
            assert(files@ == all.skip(done + 1 as int));
        }
        match f {
            GadgetFile::Parsed(g) => gadgets.push(g),
            GadgetFile::Unreadable { path, reason } => warnings.push(
                Warning::GadgetUnreadable { path, reason },
            ),
            GadgetFile::Malformed { path, reason } => warnings.push(
                Warning::GadgetMalformed { path, reason },
            ),
        }
        done = done + 1;
    }
    proof {
        assert(all.take(done as int) == all);
    }
    GadgetScan { gadgets, warnings }
}

} // verus!
