//! How a configuration file is read and replaced.

use crate::text::{decimal, push_decimal};
use vstd::prelude::*;
use vstd::string::*;

verus! {

/// What became of an attempt to move an unreadable file out of the way.
pub enum Backup {
    /// It is kept under this path.
    Moved(String),
    /// It could not be moved, for this reason.
    Failed(String),
}

/// What was found where a configuration file should be. A file is parsed by the
/// program around the library; one that does not parse is moved out of the way, so
/// that the next save does not destroy the user's data.
pub enum FileState<T> {
    /// There is no place to look, for this reason.
    NoLocation(String),
    /// There is no file.
    Missing,
    /// There is one, but it cannot be read.
    Unreadable { path: String, error: String },
    /// It was read, but does not parse.
    Malformed { path: String, error: String, backup: Backup },
    /// It was read and parsed.
    Parsed(T),
}

/// The suffix of the file that is written before it takes the place of the real
/// one: a crash while it is written leaves the real file intact.
pub fn temporary_suffix() -> (suffix: &'static str)
    ensures
        suffix@ == ".tmp"@,
{
    ".tmp"
}

/// The suffix under which an unreadable file is kept, given the time in seconds.
pub fn quarantine_suffix(seconds: u64) -> (suffix: String)
    ensures
        suffix@ == ".corrupt-"@ + decimal(seconds as nat),
{
    let mut suffix = ".corrupt-".to_owned();
    push_decimal(&mut suffix, seconds);
    suffix
}

/// What to do next to save a file.
pub enum SaveStep {
    /// Make the directory, if the path names one.
    MakeDirectory,
    /// Turn the value into text and write that to the temporary file.
    WriteTemporary,
    /// Move the temporary file to the real path.
    Replace,
    /// Remove the temporary file; the move failed for this reason.
    RemoveTemporary(String),
    /// The file is saved.
    Saved,
    /// It is not, for this reason.
    Failed(String),
}

/// A step without the texts that it carries.
pub ghost enum SaveStage {
    MakeDirectory,
    WriteTemporary,
    Replace,
    RemoveTemporary(Seq<char>),
    Saved,
    Failed(Seq<char>),
}

impl SaveStep {
    /// What it holds.
    pub open spec fn view(&self) -> SaveStage {
        match *self {
            SaveStep::MakeDirectory => SaveStage::MakeDirectory,
            SaveStep::WriteTemporary => SaveStage::WriteTemporary,
            SaveStep::Replace => SaveStage::Replace,
            SaveStep::RemoveTemporary(e) => SaveStage::RemoveTemporary(e@),
            SaveStep::Saved => SaveStage::Saved,
            SaveStep::Failed(e) => SaveStage::Failed(e@),
        }
    }
}

/// The step after `stage`, which went well or failed for a reason. A failed removal
/// changes nothing about why the save failed.
pub open spec fn stage_after(stage: SaveStage, failure: Option<Seq<char>>) -> SaveStage {
    match (stage, failure) {
        (SaveStage::MakeDirectory, None) => SaveStage::WriteTemporary,
        (SaveStage::WriteTemporary, None) => SaveStage::Replace,
        (SaveStage::Replace, None) => SaveStage::Saved,
        (SaveStage::MakeDirectory, Some(e)) => SaveStage::Failed(e),
        (SaveStage::WriteTemporary, Some(e)) => SaveStage::Failed(e),
        (SaveStage::Replace, Some(e)) => SaveStage::RemoveTemporary(e),
        (SaveStage::RemoveTemporary(reason), _) => SaveStage::Failed(reason),
        (SaveStage::Saved, _) => SaveStage::Saved,
        (SaveStage::Failed(reason), _) => SaveStage::Failed(reason),
    }
}

/// Saving starts with the directory.
pub fn save() -> (step: SaveStep)
    ensures
        step@ == SaveStage::MakeDirectory,
{
    SaveStep::MakeDirectory
}

impl SaveStep {
    /// The step after this one, which went well or failed for a reason.
    pub fn next(self, result: Result<(), String>) -> (step: SaveStep)
        ensures
            step@ == stage_after(
                self@,
                match result {
                    Ok(_) => None,
                    Err(e) => Some(e@),
                },
            ),
    {
        match self {
            SaveStep::MakeDirectory => match result {
                Ok(_) => SaveStep::WriteTemporary,
                Err(e) => SaveStep::Failed(e),
            },
            SaveStep::WriteTemporary => match result {
                Ok(_) => SaveStep::Replace,
                Err(e) => SaveStep::Failed(e),
            },
            SaveStep::Replace => match result {
                Ok(_) => SaveStep::Saved,
                Err(e) => SaveStep::RemoveTemporary(e),
            },
            SaveStep::RemoveTemporary(reason) => SaveStep::Failed(reason),
            SaveStep::Saved => SaveStep::Saved,
            SaveStep::Failed(reason) => SaveStep::Failed(reason),
        }
    }
}

/// The stages of a save whose steps end as `failures` says, from `stage` on.
pub open spec fn stages(stage: SaveStage, failures: Seq<Option<Seq<char>>>) -> Seq<SaveStage>
    decreases failures.len(),
{
    if failures.len() == 0 {
        seq![stage]
    } else {
        let before = stages(stage, failures.drop_last());
        before.push(stage_after(before.last(), failures.last()))
    }
}

/// Every save ends within four steps, and says `Saved` exactly if the first three
/// went well: the real file is then, and only then, the new one. Wherever the move
/// fails the temporary file is removed before the failure is reported.
pub proof fn a_save_ends(failures: Seq<Option<Seq<char>>>)
    requires
        failures.len() == 4,
    ensures
        ({
            let all = stages(SaveStage::MakeDirectory, failures);
            let moved = failures[0] is None && failures[1] is None && failures[2] is None;
            &&& all.len() == 5
            &&& all.last() is Saved || all.last() is Failed
            &&& all.last() is Saved <==> moved
            &&& all[2] is Replace && failures[2] is Some ==> all[3] == SaveStage::RemoveTemporary(
                failures[2]->0,
            ) && all.last() == SaveStage::Failed(failures[2]->0)
        }),
{
    let f3 = failures.drop_last();
    let f2 = f3.drop_last();
    let f1 = f2.drop_last();
    let f0 = f1.drop_last();
    let s0 = stages(SaveStage::MakeDirectory, f0);
    let s1 = stages(SaveStage::MakeDirectory, f1);
    let s2 = stages(SaveStage::MakeDirectory, f2);
    let s3 = stages(SaveStage::MakeDirectory, f3);
    let s4 = stages(SaveStage::MakeDirectory, failures);
    assert(s0 == seq![SaveStage::MakeDirectory]);
    assert(s1 == s0.push(stage_after(s0.last(), failures[0])));
    assert(s2 == s1.push(stage_after(s1.last(), failures[1])));
    assert(s3 == s2.push(stage_after(s2.last(), failures[2])));
    assert(s4 == s3.push(stage_after(s3.last(), failures[3])));
}

} // verus!
