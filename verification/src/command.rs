//! The two commands, `diff` and `apply`, as a sequence of stages.
//!
//! A command reads and writes files, and reads and prints patch text. None
//! of that is done here. Each stage names, by its fields, the outside work
//! that is due, takes the outcome of that work, and gives the next stage or
//! the failure that ends the command. The caller does the work between two
//! stages and prints the lines of a failure.
use crate::applier::{applied, apply};
use crate::canonical::{canonical, canonical_text};
use crate::collection::{patches, records, Patches, Records};
use crate::diff::{create, created};
use std::path::PathBuf;
use vstd::prelude::*;

verus! {

/// A path in the file system, `std::path::PathBuf`. The stages carry paths
/// through and never look into one.
#[verifier::external_type_specification]
#[verifier::external_body]
pub struct ExPathBuf(PathBuf);

/// A command and the paths that it names.
#[derive(Debug, PartialEq, Eq)]
pub enum Args {
    /// Writes to `output` the patches that lead from the records in `source`
    /// to those in `target`, with keys rendered by the labels in `labels`.
    Diff { labels: PathBuf, source: PathBuf, target: PathBuf, output: PathBuf },
    /// Writes to `output` the records in `source` with the patches in
    /// `patch` applied.
    Apply { source: PathBuf, patch: PathBuf, output: PathBuf },
}

/// Why a command ended early.
#[derive(Debug, Clone, PartialEq, Eq)]
pub enum Failure {
    /// The labels file could not be loaded.
    Labels,
    /// The source record file could not be opened or decoded.
    Source,
    /// The target record file could not be opened or decoded.
    Target,
    /// The patch file could not be read.
    PatchFile,
    /// The patch file does not hold a patch collection.
    PatchText,
    /// The patch text, held here, could not be written.
    PatchUnwritten(String),
    /// The new record file could not be written.
    RecordsUnwritten,
}

impl Failure {
    /// The lines that report the failure to the user, in order. A patch
    /// text that could not be written is itself the second line, so that it
    /// is not lost.
    pub open spec fn report(self) -> Seq<Seq<char>> {
        match self {
            Failure::Labels => seq!["Pass a valid labels file"@],
            Failure::Source => seq!["Pass a valid source motion_list.bin file"@],
            Failure::Target => seq!["Pass a valid target motion_list.bin file"@],
            Failure::PatchFile => seq!["Pass a valid patch file"@],
            Failure::PatchText => seq!["The patch file was not valid yaml!"@],
            Failure::PatchUnwritten(text) => seq!["Failed to write patch file!"@, text@],
            Failure::RecordsUnwritten => seq!["Failed to write new motion file!"@],
        }
    }

    /// The lines that report the failure to the user, in order.
    pub fn lines(self) -> (lines: Vec<String>)
        ensures
            lines@.map_values(|line: String| line@) == self.report(),
    {
        let mut lines: Vec<String> = Vec::new();
        match self {
            Failure::Labels => {
                lines.push("Pass a valid labels file".to_string());
            },
            Failure::Source => {
                lines.push("Pass a valid source motion_list.bin file".to_string());
            },
            Failure::Target => {
                lines.push("Pass a valid target motion_list.bin file".to_string());
            },
            Failure::PatchFile => {
                lines.push("Pass a valid patch file".to_string());
            },
            Failure::PatchText => {
                lines.push("The patch file was not valid yaml!".to_string());
            },
            Failure::PatchUnwritten(text) => {
                lines.push("Failed to write patch file!".to_string());
                lines.push(text);
            },
            Failure::RecordsUnwritten => {
                lines.push("Failed to write new motion file!".to_string());
            },
        }
        assert(lines@.map_values(|line: String| line@) =~= self.report());
        lines
    }
}

/// `diff`, first stage: the labels in `labels` are to be loaded.
#[derive(Debug)]
pub struct DiffLabels {
    pub labels: PathBuf,
    pub source: PathBuf,
    pub target: PathBuf,
    pub output: PathBuf,
}

/// `diff`, second stage: the records in `source` are to be opened.
#[derive(Debug)]
pub struct DiffSource {
    pub source: PathBuf,
    pub target: PathBuf,
    pub output: PathBuf,
}

/// `diff`, third stage: the records in `target` are to be opened.
#[derive(Debug)]
pub struct DiffTarget {
    pub source: Records,
    pub target: PathBuf,
    pub output: PathBuf,
}

/// `diff`, fourth stage: `patches` is to be printed as YAML, in ascending
/// key order, each key rendered as its label.
#[derive(Debug)]
pub struct DiffRender {
    pub patches: Patches,
    pub output: PathBuf,
}

/// `diff`, last stage: `text` is to be written to `output`.
#[derive(Debug)]
pub struct DiffWrite {
    pub output: PathBuf,
    pub text: String,
}

/// `apply`, first stage: the records in `source` are to be opened.
#[derive(Debug)]
pub struct ApplySource {
    pub source: PathBuf,
    pub patch: PathBuf,
    pub output: PathBuf,
}

/// `apply`, second stage: the text in `patch` is to be read.
#[derive(Debug)]
pub struct ApplyRead {
    pub records: Records,
    pub patch: PathBuf,
    pub output: PathBuf,
}

/// `apply`, third stage: `text` is to be read as a patch collection.
#[derive(Debug)]
pub struct ApplyParse {
    pub records: Records,
    pub text: String,
    pub output: PathBuf,
}

/// `apply`, last stage: `records` is to be saved to `output`.
#[derive(Debug)]
pub struct ApplySave {
    pub records: Records,
    pub output: PathBuf,
}

/// The first stage of a command.
#[derive(Debug)]
pub enum Started {
    Diff(DiffLabels),
    Apply(ApplySource),
}

impl Args {
    /// Starts the command: `diff` begins with its labels, `apply` with its
    /// source records.
    pub fn perform(self) -> (started: Started)
        ensures
            started == (match self {
                Args::Diff { labels, source, target, output } => Started::Diff(
                    DiffLabels { labels, source, target, output },
                ),
                Args::Apply { source, patch, output } => Started::Apply(
                    ApplySource { source, patch, output },
                ),
            }),
    {
        match self {
            Args::Diff { labels, source, target, output } => Started::Diff(
                DiffLabels { labels, source, target, output },
            ),
            Args::Apply { source, patch, output } => Started::Apply(
                ApplySource { source, patch, output },
            ),
        }
    }
}

impl DiffLabels {
    /// Goes on to the source records where the labels were loaded.
    pub fn loaded(self, loaded: bool) -> (next: Result<DiffSource, Failure>)
        ensures
            next == (if loaded {
                Ok::<DiffSource, Failure>(
                    DiffSource { source: self.source, target: self.target, output: self.output },
                )
            } else {
                Err(Failure::Labels)
            }),
    {
        if loaded {
            Ok(DiffSource { source: self.source, target: self.target, output: self.output })
        } else {
            Err(Failure::Labels)
        }
    }
}

impl DiffSource {
    /// Goes on to the target records where the source records were opened.
    pub fn opened(self, opened: Option<Records>) -> (next: Result<DiffTarget, Failure>)
        ensures
            next == (match opened {
                Some(source) => Ok::<DiffTarget, Failure>(
                    DiffTarget { source, target: self.target, output: self.output },
                ),
                None => Err(Failure::Source),
            }),
    {
        match opened {
            Some(source) => Ok(DiffTarget { source, target: self.target, output: self.output }),
            None => Err(Failure::Source),
        }
    }
}

impl DiffTarget {
    /// Where the target records were opened, computes the patches that lead
    /// from the source records to them.
    pub fn opened(self, opened: Option<Records>) -> (next: Result<DiffRender, Failure>)
        ensures
            opened is None ==> next == Err::<DiffRender, Failure>(Failure::Target),
            opened matches Some(target) ==> {
                &&& next matches Ok(stage)
                &&& stage.output == self.output
                &&& patches(stage.patches@) == created(records(self.source@), records(target@))
            },
    {
        match opened {
            Some(target) => Ok(
                DiffRender { patches: create(&self.source, &target), output: self.output },
            ),
            None => Err(Failure::Target),
        }
    }
}

impl DiffRender {
    /// Turns the printed patches into their canonical text.
    pub fn rendered(self, first_pass: String) -> (next: DiffWrite)
        ensures
            next.output == self.output,
            next.text@ == canonical(first_pass@),
    {
        DiffWrite { output: self.output, text: canonical_text(first_pass) }
    }
}

impl DiffWrite {
    /// Ends the command; a text that was not written goes into the failure.
    pub fn written(self, written: bool) -> (end: Result<(), Failure>)
        ensures
            end == (if written {
                Ok::<(), Failure>(())
            } else {
                Err(Failure::PatchUnwritten(self.text))
            }),
    {
        if written {
            Ok(())
        } else {
            Err(Failure::PatchUnwritten(self.text))
        }
    }
}

impl ApplySource {
    /// Goes on to the patch file where the source records were opened.
    pub fn opened(self, opened: Option<Records>) -> (next: Result<ApplyRead, Failure>)
        ensures
            next == (match opened {
                Some(records) => Ok::<ApplyRead, Failure>(
                    ApplyRead { records, patch: self.patch, output: self.output },
                ),
                None => Err(Failure::Source),
            }),
    {
        match opened {
            Some(records) => Ok(ApplyRead { records, patch: self.patch, output: self.output }),
            None => Err(Failure::Source),
        }
    }
}

impl ApplyRead {
    /// Goes on to reading the text as patches where the file was read.
    pub fn read(self, read: Option<String>) -> (next: Result<ApplyParse, Failure>)
        ensures
            next == (match read {
                Some(text) => Ok::<ApplyParse, Failure>(
                    ApplyParse { records: self.records, text, output: self.output },
                ),
                None => Err(Failure::PatchFile),
            }),
    {
        match read {
            Some(text) => Ok(ApplyParse { records: self.records, text, output: self.output }),
            None => Err(Failure::PatchFile),
        }
    }
}

impl ApplyParse {
    /// Where the text held a patch collection, applies it to the records.
    pub fn parsed(self, parsed: Option<Patches>) -> (next: Result<ApplySave, Failure>)
        ensures
            parsed is None ==> next == Err::<ApplySave, Failure>(Failure::PatchText),
            parsed matches Some(map) ==> {
                &&& next matches Ok(stage)
                &&& stage.output == self.output
                &&& records(stage.records@) == applied(patches(map@), records(self.records@))
            },
    {
        match parsed {
            Some(map) => {
                let mut records = self.records;
                apply(&map, &mut records);
                Ok(ApplySave { records, output: self.output })
            },
            None => Err(Failure::PatchText),
        }
    }
}

impl ApplySave {
    /// Ends the command.
    pub fn saved(self, saved: bool) -> (end: Result<(), Failure>)
        ensures
            end == (if saved {
                Ok::<(), Failure>(())
            } else {
                Err(Failure::RecordsUnwritten)
            }),
    {
        if saved {
            Ok(())
        } else {
            Err(Failure::RecordsUnwritten)
        }
    }
}

} // verus!
