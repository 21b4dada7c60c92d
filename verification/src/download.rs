//! Saving a downloaded translation: where it goes, how the target file is opened, and
//! what a failure while receiving or writing it reads as.
use vstd::prelude::*;
use crate::error::{concat2, Error};
use crate::outside::{path_debug, path_debug_result, path_join, path_join_result};

verus! {

/// The path that a download named `filename` is written to: `filename` joined onto the
/// output directory, the current directory (`.`) when none is given.
pub open spec fn download_path_spec(filename: Seq<char>, output_dir: Option<Seq<char>>) -> Seq<char> {
    match output_dir {
        Some(dir) => path_join_result(dir, filename),
        None => path_join_result("."@, filename),
    }
}

/// The path that the downloaded document named `filename` is written to, and that the
/// download hands back.
pub fn download_path(filename: &str, output_dir: Option<&str>) -> (path: String)
    ensures
        path@ == download_path_spec(filename@, match output_dir {
            Some(d) => Some(d@),
            None => None,
        }),
{
    match output_dir {
        Some(dir) => path_join(dir, filename),
        None => path_join(".", filename),
    }
}

/// The steps of opening the target file of a download. The file is created anew: where
/// one is already there it is removed and creation is tried once more.
#[derive(Debug, Clone, Copy, PartialEq, Eq, Structural)]
pub enum OpenPhase {
    /// The first attempt to create the file is under way.
    FirstOpen,
    /// A file was already there; its removal is under way.
    Removing,
    /// The second attempt to create the file is under way.
    Reopening,
    /// The file is open for writing.
    Opened,
    /// Opening failed for good.
    Failed,
}

/// A failed file-system call: whether it failed because the file already exists, and
/// the text of the failure.
pub struct IoFailure {
    pub already_exists: bool,
    pub cause: String,
}

/// What the caller does next while opening the target file.
#[derive(Debug)]
pub enum OpenAction {
    /// Create the file (it must not exist yet), appending to it.
    Open,
    /// Remove the file that is already there.
    Remove,
    /// Write the document into the file that was just created.
    UseFile,
    /// Give up with this error.
    Fail(Error),
}

/// The phase after the call that `phase` waits for ended with `ok` (failing, where not
/// `ok`, because the file already exists exactly where `exists`).
pub open spec fn next_phase(phase: OpenPhase, ok: bool, exists: bool) -> OpenPhase {
    match phase {
        OpenPhase::FirstOpen => if ok {
            OpenPhase::Opened
        } else if exists {
            OpenPhase::Removing
        } else {
            OpenPhase::Failed
        },
        OpenPhase::Removing => if ok {
            OpenPhase::Reopening
        } else {
            OpenPhase::Failed
        },
        OpenPhase::Reopening => if ok {
            OpenPhase::Opened
        } else {
            OpenPhase::Failed
        },
        OpenPhase::Opened => OpenPhase::Opened,
        OpenPhase::Failed => OpenPhase::Failed,
    }
}

/// A phase in which opening has ended.
pub open spec fn is_final(phase: OpenPhase) -> bool {
    phase == OpenPhase::Opened || phase == OpenPhase::Failed
}

/// The text of the failure that a failed call in `phase` ends opening with, `path` being
/// the rendering of the target path and `cause` the failure's own text.
pub open spec fn open_failure_text(phase: OpenPhase, path: Seq<char>, cause: Seq<char>) -> Seq<char> {
    match phase {
        OpenPhase::FirstOpen => "Fail to open file "@ + path + ": "@ + cause,
        OpenPhase::Removing => "There was already a file there and it is not deletable: "@ + cause,
        _ => "Fail to open file for download document, even after retry: "@ + cause,
    }
}

/// Opening the target file of a download, one file-system call at a time.
pub struct OpenFileToWrite {
    phase: OpenPhase,
    path_text: String,
}

impl OpenFileToWrite {
    /// The phase that opening is in.
    pub closed spec fn phase_of(self) -> OpenPhase {
        self.phase
    }

    /// The rendering of the target path used in failure texts.
    pub closed spec fn path_text_of(self) -> Seq<char> {
        self.path_text@
    }

    /// Starts opening the file at `path`; the first action is always `OpenAction::Open`.
    pub fn new(path: &str) -> (opener: Self)
        ensures
            opener.phase_of() == OpenPhase::FirstOpen,
            opener.path_text_of() == path_debug_result(path@),
    {
        OpenFileToWrite { phase: OpenPhase::FirstOpen, path_text: path_debug(path) }
    }

    /// The phase that opening is in.
    pub fn phase(&self) -> (phase: OpenPhase)
        ensures
            phase == self.phase_of(),
    {
        self.phase
    }

    /// Takes in how the last requested call ended and says what to do next.
    pub fn step(&mut self, outcome: Option<IoFailure>) -> (action: OpenAction)
        requires
            !is_final(old(self).phase_of()),
        ensures
            final(self).path_text_of() == old(self).path_text_of(),
            final(self).phase_of() == next_phase(
                old(self).phase_of(),
                outcome is None,
                outcome matches Some(f) && f.already_exists,
            ),
            final(self).phase_of() == OpenPhase::Opened ==> action matches OpenAction::UseFile,
            final(self).phase_of() == OpenPhase::Removing ==> action matches OpenAction::Remove,
            final(self).phase_of() == OpenPhase::Reopening ==> action matches OpenAction::Open,
            final(self).phase_of() == OpenPhase::Failed ==> (outcome matches Some(f) && action
                matches OpenAction::Fail(Error::WriteFileError(m)) && m@ == open_failure_text(
                old(self).phase_of(),
                old(self).path_text_of(),
                f.cause@,
            )),
    {
        match outcome {
            None => {
                if self.phase == OpenPhase::Removing {
                    self.phase = OpenPhase::Reopening;
                    OpenAction::Open
                } else {
                    self.phase = OpenPhase::Opened;
                    OpenAction::UseFile
                }
            },
            Some(failure) => {
                if self.phase == OpenPhase::FirstOpen {
                    if failure.already_exists {
                        self.phase = OpenPhase::Removing;
                        OpenAction::Remove
                    } else {
                        let mut text = concat2("Fail to open file ", self.path_text.as_str());
                        text.append(": ");
                        text.append(failure.cause.as_str());
                        self.phase = OpenPhase::Failed;
                        OpenAction::Fail(Error::WriteFileError(text))
                    }
                } else if self.phase == OpenPhase::Removing {
                    self.phase = OpenPhase::Failed;
                    OpenAction::Fail(
                        Error::WriteFileError(
                            concat2(
                                "There was already a file there and it is not deletable: ",
                                failure.cause.as_str(),
                            ),
                        ),
                    )
                } else {
                    self.phase = OpenPhase::Failed;
                    OpenAction::Fail(
                        Error::WriteFileError(
                            concat2(
                                "Fail to open file for download document, even after retry: ",
                                failure.cause.as_str(),
                            ),
                        ),
                    )
                }
            },
        }
    }
}

/// The phase reached from `phase` after calls that ended as `outcomes` (each a pair of
/// "succeeded" and "failed because the file exists").
pub open spec fn run_phases(phase: OpenPhase, outcomes: Seq<(bool, bool)>) -> OpenPhase
    decreases outcomes.len(),
{
    if outcomes.len() == 0 {
        phase
    } else {
        run_phases(next_phase(phase, outcomes[0].0, outcomes[0].1), outcomes.drop_first())
    }
}

/// How many removals a run from `phase` through `outcomes` asks for.
pub open spec fn removals(phase: OpenPhase, outcomes: Seq<(bool, bool)>) -> nat
    decreases outcomes.len(),
{
    if outcomes.len() == 0 || is_final(phase) {
        0
    } else {
        let next = next_phase(phase, outcomes[0].0, outcomes[0].1);
        (if next == OpenPhase::Removing {
            1nat
        } else {
            0nat
        }) + removals(next, outcomes.drop_first())
    }
}

/// Opening the target file ends after at most three file-system calls (create, remove,
/// create again), whatever they return; it asks for at most one removal; it removes only
/// a file that the first creation found already there; and once it has ended, it stays so.
pub proof fn law_open_file_bounded(outcomes: Seq<(bool, bool)>, phase: OpenPhase, ok: bool, exists: bool)
    ensures
        outcomes.len() >= 3 ==> is_final(run_phases(OpenPhase::FirstOpen, outcomes.take(3))),
        removals(OpenPhase::FirstOpen, outcomes) <= 1,
        next_phase(phase, ok, exists) == OpenPhase::Removing ==> (phase == OpenPhase::FirstOpen
            && !ok && exists),
        is_final(phase) ==> next_phase(phase, ok, exists) == phase,
{
    if outcomes.len() >= 3 {
        let t = outcomes.take(3);
        let p1 = next_phase(OpenPhase::FirstOpen, t[0].0, t[0].1);
        let p2 = next_phase(p1, t[1].0, t[1].1);
        let p3 = next_phase(p2, t[2].0, t[2].1);
        assert(t.drop_first().drop_first().drop_first().len() == 0);
        assert(run_phases(p3, t.drop_first().drop_first().drop_first()) == p3);
        assert(run_phases(p2, t.drop_first().drop_first()) == p3);
        assert(run_phases(p1, t.drop_first()) == p3);
        assert(is_final(p3));
    }
    lemma_removals_after_first(outcomes);
}

/// Past the first call, no run asks for a removal.
proof fn lemma_no_removal_later(phase: OpenPhase, outcomes: Seq<(bool, bool)>)
    requires
        phase != OpenPhase::FirstOpen,
    ensures
        removals(phase, outcomes) == 0,
    decreases outcomes.len(),
{
    if outcomes.len() > 0 && !is_final(phase) {
        lemma_no_removal_later(next_phase(phase, outcomes[0].0, outcomes[0].1), outcomes.drop_first());
    }
}

proof fn lemma_removals_after_first(outcomes: Seq<(bool, bool)>)
    ensures
        removals(OpenPhase::FirstOpen, outcomes) <= 1,
{
    if outcomes.len() > 0 {
        let next = next_phase(OpenPhase::FirstOpen, outcomes[0].0, outcomes[0].1);
        lemma_no_removal_later(next, outcomes.drop_first());
    }
}

/// The stage of a download at which a chunk of the document failed.
#[derive(Debug, Clone, Copy, PartialEq, Eq, Structural)]
pub enum ChunkStage {
    /// Receiving the chunk from DeepL.
    Receive,
    /// Writing the chunk into the file.
    Write,
    /// Flushing the file to disk.
    Sync,
}

/// The text put before the cause of a failure at `stage`.
pub open spec fn chunk_failure_prefix(stage: ChunkStage) -> Seq<char> {
    match stage {
        ChunkStage::Receive => "fail to download translated document: "@,
        ChunkStage::Write => "fail to save the translated document: "@,
        ChunkStage::Sync => "fail to save the downloaded content: "@,
    }
}

/// The error that a failure at `stage`, whose cause reads `cause`, ends the download with.
pub fn chunk_failed(stage: ChunkStage, cause: &str) -> (err: Error)
    ensures
        err matches Error::WriteFileError(m) && m@ == chunk_failure_prefix(stage) + cause@,
{
    let prefix = match stage {
        ChunkStage::Receive => "fail to download translated document: ",
        ChunkStage::Write => "fail to save the translated document: ",
        ChunkStage::Sync => "fail to save the downloaded content: ",
    };
    Error::WriteFileError(concat2(prefix, cause))
}

/// The download goes into the given output directory, whatever it is (relative or
/// absolute), and into the current directory `.` only when none is given: the path is
/// `std::path::Path::join` of that directory and the file name.
pub proof fn law_download_path_directory(filename: Seq<char>, dir: Seq<char>)
    ensures
        download_path_spec(filename, Some(dir)) == path_join_result(dir, filename),
        download_path_spec(filename, None) == path_join_result("."@, filename),
        download_path_spec(filename, Some("."@)) == download_path_spec(filename, None),
{
}

/// Each step of opening the target file, for every outcome: a first creation that
/// succeeds opens the file, one that finds the file there removes it, any other failure
/// ends opening; a removal that succeeds leads to a second creation, which opens the file
/// or ends opening; any failed removal or second creation ends opening.
pub proof fn law_open_file_steps(ok: bool, exists: bool)
    ensures
        ok ==> next_phase(OpenPhase::FirstOpen, ok, exists) == OpenPhase::Opened,
        !ok && exists ==> next_phase(OpenPhase::FirstOpen, ok, exists) == OpenPhase::Removing,
        !ok && !exists ==> next_phase(OpenPhase::FirstOpen, ok, exists) == OpenPhase::Failed,
        ok ==> next_phase(OpenPhase::Removing, ok, exists) == OpenPhase::Reopening,
        !ok ==> next_phase(OpenPhase::Removing, ok, exists) == OpenPhase::Failed,
        ok ==> next_phase(OpenPhase::Reopening, ok, exists) == OpenPhase::Opened,
        !ok ==> next_phase(OpenPhase::Reopening, ok, exists) == OpenPhase::Failed,
        !is_final(OpenPhase::FirstOpen) && !is_final(OpenPhase::Removing) && !is_final(
            OpenPhase::Reopening,
        ),
        is_final(OpenPhase::Opened) && is_final(OpenPhase::Failed),
{
}

/// The texts of the failures that end opening, for every path rendering and cause.
pub proof fn law_open_failure_texts(path: Seq<char>, cause: Seq<char>)
    ensures
        open_failure_text(OpenPhase::FirstOpen, path, cause) == "Fail to open file "@ + path
            + ": "@ + cause,
        open_failure_text(OpenPhase::Removing, path, cause)
            == "There was already a file there and it is not deletable: "@ + cause,
        open_failure_text(OpenPhase::Reopening, path, cause)
            == "Fail to open file for download document, even after retry: "@ + cause,
{
}

/// The text before the cause of a failed chunk, for every stage.
pub proof fn law_chunk_failure_prefixes()
    ensures
        chunk_failure_prefix(ChunkStage::Receive) == "fail to download translated document: "@,
        chunk_failure_prefix(ChunkStage::Write) == "fail to save the translated document: "@,
        chunk_failure_prefix(ChunkStage::Sync) == "fail to save the downloaded content: "@,
{
}

} // verus!
