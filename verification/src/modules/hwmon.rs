//! Sensors that the kernel's hardware monitoring exposes under `/sys/class/hwmon`.

use crate::utils::files::{first_line, first_line_text};
use crate::utils::split::texts;
use crate::utils::text::{
    cat3, ends_with, erase, erased, starts_with, str_ends_with, str_starts_with,
};
use vstd::prelude::*;

verus! {

/// A file of a sensor chip as it was read.
#[derive(Debug, Clone)]
pub struct SensorFile {
    /// The file's name.
    pub name: String,
    /// Its content, `None` where it is unreadable.
    pub content: Option<String>,
}

/// One entry of `/sys/class/hwmon` as it was read.
#[derive(Debug, Clone)]
pub struct SensorChip {
    /// The entry's file name.
    pub dir_name: String,
    /// Content of its `name` file, `None` where it is missing or unreadable.
    pub name: Option<String>,
    /// Its files, in the order in which the directory lists them.
    pub files: Vec<SensorFile>,
}

/// A sensor with the first line of its input file.
pub ghost struct SensorLine {
    pub label: Seq<char>,
    pub line: Seq<char>,
}

/// How a chip is called: the first line of its `name` file, or its
/// directory's name.
pub open spec fn chip_name(chip: SensorChip) -> Seq<char> {
    match first_line_text(chip.name) {
        Some(line) => line,
        None => chip.dir_name@,
    }
}

/// Whether a file is the input of a sensor of the given kind: its name
/// begins with the kind and ends with `_input`.
pub open spec fn is_input(file: SensorFile, kind: Seq<char>) -> bool {
    starts_with(file.name@, kind) && ends_with(file.name@, "_input"@)
}

/// The inputs of the given kind among the first `n` files of a chip, each
/// labelled with the chip's name and the file's name without `_input`.
pub open spec fn chip_inputs_upto(chip: SensorChip, kind: Seq<char>, n: int) -> Seq<SensorLine>
    decreases n,
{
    if n <= 0 {
        Seq::empty()
    } else {
        let file = chip.files[n - 1];
        if is_input(file, kind) && first_line_text(file.content) is Some {
            chip_inputs_upto(chip, kind, n - 1).push(
                SensorLine {
                    label: chip_name(chip) + " "@ + erased(file.name@, "_input"@),
                    line: first_line_text(file.content)->0,
                },
            )
        } else {
            chip_inputs_upto(chip, kind, n - 1)
        }
    }
}

/// The inputs of the given kind of the first `n` chips.
pub open spec fn inputs_upto(chips: Seq<SensorChip>, kind: Seq<char>, n: int) -> Seq<SensorLine>
    decreases n,
{
    if n <= 0 {
        Seq::empty()
    } else {
        inputs_upto(chips, kind, n - 1) + chip_inputs_upto(
            chips[n - 1],
            kind,
            chips[n - 1].files.len() as int,
        )
    }
}

/// The content of a list of labelled lines.
pub open spec fn sensor_lines(v: Seq<(String, String)>) -> Seq<SensorLine> {
    v.map_values(|e: (String, String)| SensorLine { label: e.0@, line: e.1@ })
}

/// The inputs of the given kind of all chips: label and first line of each.
pub fn read_inputs(chips: &Vec<SensorChip>, kind: &str) -> (r: Vec<(String, String)>)
    ensures
        sensor_lines(r@) == inputs_upto(chips@, kind@, chips.len() as int),
{
    let mut out: Vec<(String, String)> = Vec::new();
    let mut c: usize = 0;
    assert(sensor_lines(out@) =~= inputs_upto(chips@, kind@, 0));
    while c < chips.len()
        invariant
            c <= chips.len(),
            sensor_lines(out@) == inputs_upto(chips@, kind@, c as int),
        decreases chips.len() - c,
    {
        let chip = &chips[c];
        let name = match first_line(&chip.name) {
            Some(line) => line,
            None => chip.dir_name.clone(),
        };
        let ghost start = sensor_lines(out@);
        let mut f: usize = 0;
        assert(sensor_lines(out@) =~= start + chip_inputs_upto(*chip, kind@, 0));
        while f < chip.files.len()
            invariant
                f <= chip.files.len(),
                name@ == chip_name(*chip),
                sensor_lines(out@) == start + chip_inputs_upto(*chip, kind@, f as int),
            decreases chip.files.len() - f,
        {
            let file = &chip.files[f];
            let ghost before = sensor_lines(out@);
            if str_starts_with(file.name.as_str(), kind) && str_ends_with(
                file.name.as_str(),
                "_input",
            ) {
                if let Some(line) = first_line(&file.content) {
                    let label = cat3(
                        name.as_str(),
                        " ",
                        erase(file.name.as_str(), "_input").as_str(),
                    );
                    out.push((label, line));
                    assert(sensor_lines(out@) =~= before.push(
                        SensorLine { label: label@, line: line@ },
                    ));
                }
            }
            assert(sensor_lines(out@) =~= start + chip_inputs_upto(*chip, kind@, f + 1));
            f += 1;
        }
        c += 1;
    }
    out
}

} // verus!
