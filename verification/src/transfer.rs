//! Content transfer: copying one file into the mounted image, chunk by chunk.
//!
//! A [`TransferJob`] asks for one operation at a time and is told how it went:
//! open the source, create or truncate the destination, then read a chunk and
//! write all of it, until a read returns nothing. The first failure ends the
//! copy, classified by the operation that failed.

use crate::errno::ENOENT;
use vstd::prelude::*;

verus! {

/// The most bytes asked of one read.
pub const CHUNK_SIZE: usize = 4096;

/// Why a transfer failed. Each number is the OS error number of the
/// operation that failed.
#[derive(Clone, Copy, Debug, PartialEq, Eq)]
pub enum TransferError {
    /// The source could not be opened because there is no such file.
    SourceNotFound,
    /// The source exists, or may exist, and could not be opened for reading.
    SourceUnreadable(i32),
    /// The destination could not be created or opened for writing.
    DestinationUnwritable(i32),
    /// A read or a write failed after both files were open.
    Io(i32),
}

/// Where a copy stands. Each of the first four names the operation that is
/// asked for next and whose outcome is awaited.
#[derive(Clone, Copy, Debug, PartialEq, Eq)]
pub enum CopyStage {
    OpeningSource,
    OpeningDestination,
    Reading,
    /// The last read delivered this many bytes, which are to be written.
    Writing(usize),
    /// The source was read to its end and every chunk was written.
    Copied,
    Failed(TransferError),
}

/// One operation of a copy, asked of the caller.
#[derive(Clone, Copy, Debug, PartialEq, Eq)]
pub enum CopyRequest {
    /// Open the source file for reading.
    OpenSource,
    /// Open the destination for writing: create it if it is absent, cut it
    /// to no bytes if it is present.
    OpenDestination,
    /// Read at most `capacity` bytes from the source into the start of the
    /// buffer.
    Read { capacity: usize },
    /// Write the first `length` bytes of the buffer to the destination, all
    /// of them: a short write is continued or reported as a failure.
    WriteAll { length: usize },
    /// Nothing is left to do; this is the transfer's result.
    Finished(Result<(), TransferError>),
}

/// The classification of a failure to open the source.
pub open spec fn source_open_error(code: i32) -> TransferError {
    if code == ENOENT {
        TransferError::SourceNotFound
    } else {
        TransferError::SourceUnreadable(code)
    }
}

impl CopyStage {
    /// No further operation will be asked for.
    pub open spec fn finished(self) -> bool {
        self is Copied || self is Failed
    }

    /// A chunk that is to be written is one that a read can have delivered.
    pub open spec fn well_formed(self) -> bool {
        self matches CopyStage::Writing(length) ==> 0 < length <= CHUNK_SIZE
    }

    /// The operation asked for at this stage.
    pub open spec fn request(self) -> CopyRequest {
        match self {
            CopyStage::OpeningSource => CopyRequest::OpenSource,
            CopyStage::OpeningDestination => CopyRequest::OpenDestination,
            CopyStage::Reading => CopyRequest::Read { capacity: CHUNK_SIZE },
            CopyStage::Writing(length) => CopyRequest::WriteAll { length },
            CopyStage::Copied => CopyRequest::Finished(Ok(())),
            CopyStage::Failed(e) => CopyRequest::Finished(Err(e)),
        }
    }

    /// An outcome that can answer the operation asked for at this stage: a
    /// read delivers no more than it was asked for.
    pub open spec fn accepts(self, outcome: Result<usize, i32>) -> bool {
        self is Reading ==> (outcome matches Ok(count) ==> count <= CHUNK_SIZE)
    }

    /// The stage after the caller reported `outcome` for the operation asked
    /// for at this stage: `Ok` with the number of bytes a read delivered (the
    /// number is not looked at for other operations), or `Err` with the OS
    /// error number. A read of no bytes ends the copy.
    pub open spec fn after(self, outcome: Result<usize, i32>) -> CopyStage {
        match self {
            CopyStage::OpeningSource => match outcome {
                Ok(_) => CopyStage::OpeningDestination,
                Err(code) => CopyStage::Failed(source_open_error(code)),
            },
            CopyStage::OpeningDestination => match outcome {
                Ok(_) => CopyStage::Reading,
                Err(code) => CopyStage::Failed(TransferError::DestinationUnwritable(code)),
            },
            CopyStage::Reading => match outcome {
                Ok(count) => if count == 0 {
                    CopyStage::Copied
                } else {
                    CopyStage::Writing(count)
                },
                Err(code) => CopyStage::Failed(TransferError::Io(code)),
            },
            CopyStage::Writing(_) => match outcome {
                Ok(_) => CopyStage::Reading,
                Err(code) => CopyStage::Failed(TransferError::Io(code)),
            },
            CopyStage::Copied | CopyStage::Failed(_) => self,
        }
    }

    /// The stage after a whole run of reported outcomes, oldest first.
    pub open spec fn after_all(self, outcomes: Seq<Result<usize, i32>>) -> CopyStage
        decreases outcomes.len(),
    {
        if outcomes.len() == 0 {
            self
        } else {
            self.after_all(outcomes.drop_last()).after(outcomes.last())
        }
    }
}

/// `relative` adjoined to `directory` as a Unix path: a `relative` that
/// starts at the root stands alone, and a separator is put between the two
/// unless `directory` is empty or already ends with one.
pub open spec fn joined(directory: Seq<char>, relative: Seq<char>) -> Seq<char> {
    if relative.len() > 0 && relative[0] == '/' {
        relative
    } else if directory.len() == 0 || directory.last() == '/' {
        directory + relative
    } else {
        directory + seq!['/'] + relative
    }
}

/// The path of a file named `relative` under the mount directory.
pub fn destination_path(mount_dir: &str, relative: &str) -> (path: String)
    ensures
        path@ == joined(mount_dir@, relative@),
{
    if relative.unicode_len() > 0 && relative.get_char(0) == '/' {
        return String::from_str(relative);
    }
    let mut path = String::from_str(mount_dir);
    let dir_len = mount_dir.unicode_len();
    if dir_len > 0 && mount_dir.get_char(dir_len - 1) != '/' {
        proof {
            reveal_strlit("/");
        }
        path.append("/");
        assert(path@ =~= mount_dir@ + seq!['/']);
    }
    path.append(relative);
    path
}

/// What a [`TransferJob`] is: the two paths it was made with and its stage.
pub struct TransferJobView {
    pub source_path: Seq<char>,
    pub destination_relative_path: Seq<char>,
    pub stage: CopyStage,
}

/// One copy of a source file to a path under the mount directory.
pub struct TransferJob {
    source_path: String,
    destination_relative_path: String,
    stage: CopyStage,
}

impl View for TransferJob {
    type V = TransferJobView;

    closed spec fn view(&self) -> TransferJobView {
        TransferJobView {
            source_path: self.source_path@,
            destination_relative_path: self.destination_relative_path@,
            stage: self.stage,
        }
    }
}

impl TransferJob {
    #[verifier::type_invariant]
    spec fn inv(self) -> bool {
        self.stage.well_formed()
    }

    /// A copy of `source_path` to `destination_relative_path` under a mount
    /// directory, with nothing done yet.
    pub fn new(source_path: String, destination_relative_path: String) -> (job: TransferJob)
        ensures
            job@.source_path == source_path@,
            job@.destination_relative_path == destination_relative_path@,
            job@.stage == CopyStage::OpeningSource,
    {
        TransferJob { source_path, destination_relative_path, stage: CopyStage::OpeningSource }
    }

    /// The file to copy from.
    pub fn source_path(&self) -> (path: &str)
        ensures
            path@ == self@.source_path,
    {
        self.source_path.as_str()
    }

    /// Where to copy to, relative to the mount directory.
    pub fn destination_relative_path(&self) -> (path: &str)
        ensures
            path@ == self@.destination_relative_path,
    {
        self.destination_relative_path.as_str()
    }

    /// The file to copy to, when the image is mounted at `mount_dir`.
    pub fn destination_path(&self, mount_dir: &str) -> (path: String)
        ensures
            path@ == joined(mount_dir@, self@.destination_relative_path),
    {
        destination_path(mount_dir, self.destination_relative_path.as_str())
    }

    /// The stage this copy is in.
    pub fn stage(&self) -> (stage: CopyStage)
        ensures
            stage == self@.stage,
            stage.well_formed(),
    {
        proof {
            use_type_invariant(self);
        }
        self.stage
    }

    /// The operation to perform now, or the result once the copy is over.
    pub fn request(&self) -> (request: CopyRequest)
        ensures
            request == self@.stage.request(),
            request is Finished == self@.stage.finished(),
            request matches CopyRequest::WriteAll { length } ==> 0 < length <= CHUNK_SIZE,
    {
        proof {
            use_type_invariant(self);
        }
        match self.stage {
            CopyStage::OpeningSource => CopyRequest::OpenSource,
            CopyStage::OpeningDestination => CopyRequest::OpenDestination,
            CopyStage::Reading => CopyRequest::Read { capacity: CHUNK_SIZE },
            CopyStage::Writing(length) => CopyRequest::WriteAll { length },
            CopyStage::Copied => CopyRequest::Finished(Ok(())),
            CopyStage::Failed(e) => CopyRequest::Finished(Err(e)),
        }
    }

    /// Records how the operation last asked for went.
    pub fn advance(&mut self, outcome: Result<usize, i32>)
        requires
            old(self)@.stage.accepts(outcome),
        ensures
            final(self)@.stage == old(self)@.stage.after(outcome),
            final(self)@.source_path == old(self)@.source_path,
            final(self)@.destination_relative_path == old(self)@.destination_relative_path,
    {
        let next = match self.stage {
            CopyStage::OpeningSource => match outcome {
                Ok(_) => CopyStage::OpeningDestination,
                Err(code) => CopyStage::Failed(classify_source_open_failure(code)),
            },
            CopyStage::OpeningDestination => match outcome {
                Ok(_) => CopyStage::Reading,
                Err(code) => CopyStage::Failed(TransferError::DestinationUnwritable(code)),
            },
            CopyStage::Reading => match outcome {
                Ok(count) => {
                    if count == 0 {
                        CopyStage::Copied
                    } else {
                        CopyStage::Writing(count)
                    }
                },
                Err(code) => CopyStage::Failed(TransferError::Io(code)),
            },
            CopyStage::Writing(_) => match outcome {
                Ok(_) => CopyStage::Reading,
                Err(code) => CopyStage::Failed(TransferError::Io(code)),
            },
            stage => stage,
        };
        self.stage = next;
    }
}

/// Classifies a failure to open the source by its OS error number: a missing
/// file is told apart from every other reason.
pub fn classify_source_open_failure(code: i32) -> (error: TransferError)
    ensures
        error == source_open_error(code),
        error is SourceNotFound <==> code == ENOENT,
{
    if code == ENOENT {
        TransferError::SourceNotFound
    } else {
        TransferError::SourceUnreadable(code)
    }
}

/// The two files of a copy as its operations are taken to act on them: what
/// the source holds and how far it has been read, the bytes the last read
/// delivered, and what the destination holds. The law below is a law of this
/// model. Nothing here shows that an operating system behaves like it.
pub struct CopyModel {
    pub source: Seq<u8>,
    pub position: int,
    pub buffer: Seq<u8>,
    pub destination: Seq<u8>,
}

impl CopyModel {
    /// A read of a regular file may deliver `count` bytes here: no more than
    /// were asked for, no more than are left, and none only at the end.
    pub open spec fn may_read(self, capacity: usize, count: usize) -> bool {
        &&& count <= capacity
        &&& self.position + count <= self.source.len()
        &&& count == 0 ==> self.position == self.source.len()
    }

    /// The files after `request` succeeded, a read having delivered `count`
    /// bytes. Opening the source starts at its first byte; opening the
    /// destination leaves it empty; a write appends.
    pub open spec fn perform(self, request: CopyRequest, count: usize) -> CopyModel {
        match request {
            CopyRequest::OpenSource => CopyModel {
                source: self.source,
                position: 0,
                buffer: self.buffer,
                destination: self.destination,
            },
            CopyRequest::OpenDestination => CopyModel {
                source: self.source,
                position: self.position,
                buffer: self.buffer,
                destination: Seq::empty(),
            },
            CopyRequest::Read { capacity } => CopyModel {
                source: self.source,
                position: self.position + count,
                buffer: self.source.subrange(self.position, self.position + count),
                destination: self.destination,
            },
            CopyRequest::WriteAll { length } => CopyModel {
                source: self.source,
                position: self.position,
                buffer: self.buffer,
                destination: self.destination + self.buffer.subrange(0, length as int),
            },
            CopyRequest::Finished(_) => self,
        }
    }

    /// The files after a copy was driven through `outcomes`, oldest first:
    /// each operation that was reported successful has acted on them, and
    /// one that was reported failed is taken to have left them alone.
    pub open spec fn after_run(self, outcomes: Seq<Result<usize, i32>>) -> CopyModel
        decreases outcomes.len(),
    {
        if outcomes.len() == 0 {
            self
        } else {
            let earlier = outcomes.drop_last();
            let files = self.after_run(earlier);
            match outcomes.last() {
                Ok(count) => files.perform(
                    CopyStage::OpeningSource.after_all(earlier).request(),
                    count,
                ),
                Err(_) => files,
            }
        }
    }

    /// Every read that `outcomes` reports successful is one that the source
    /// allowed at its point of the run.
    pub open spec fn reads_faithfully(self, outcomes: Seq<Result<usize, i32>>) -> bool
        decreases outcomes.len(),
    {
        outcomes.len() == 0 || {
            let earlier = outcomes.drop_last();
            &&& self.reads_faithfully(earlier)
            &&& CopyStage::OpeningSource.after_all(earlier).request() matches CopyRequest::Read {
                capacity,
            } ==> (outcomes.last() matches Ok(count) ==> self.after_run(earlier).may_read(
                capacity,
                count,
            ))
        }
    }
}

/// What the stage of a copy says of the files when every operation reported
/// successful has acted on them.
spec fn agrees(stage: CopyStage, files: CopyModel) -> bool {
    let source = files.source;
    match stage {
        CopyStage::OpeningDestination => files.position == 0,
        CopyStage::Reading => {
            &&& 0 <= files.position <= source.len()
            &&& files.destination == source.subrange(0, files.position)
        },
        CopyStage::Writing(length) => {
            &&& 0 < length <= files.position <= source.len()
            &&& files.destination == source.subrange(0, files.position - length)
            &&& files.buffer == source.subrange(files.position - length, files.position)
        },
        CopyStage::Copied => files.destination == source,
        _ => true,
    }
}

proof fn lemma_run_agrees(initial: CopyModel, outcomes: Seq<Result<usize, i32>>)
    requires
        initial.reads_faithfully(outcomes),
    ensures
        initial.after_run(outcomes).source == initial.source,
        agrees(CopyStage::OpeningSource.after_all(outcomes), initial.after_run(outcomes)),
    decreases outcomes.len(),
{
    if outcomes.len() > 0 {
        let earlier = outcomes.drop_last();
        lemma_run_agrees(initial, earlier);
        let stage = CopyStage::OpeningSource.after_all(earlier);
        let files = initial.after_run(earlier);
        match outcomes.last() {
            Ok(count) => {
                let next = files.perform(stage.request(), count);
                match stage {
                    CopyStage::OpeningDestination => {
                        assert(next.destination =~= next.source.subrange(0, 0));
                    },
                    CopyStage::Reading => {
                        if count == 0 {
                            assert(next.destination =~= next.source);
                        }
                    },
                    CopyStage::Writing(length) => {
                        assert(files.buffer.subrange(0, length as int) =~= files.buffer);
                        assert(next.destination =~= next.source.subrange(0, next.position));
                    },
                    _ => {},
                }
            },
            Err(_) => {},
        }
    }
}

/// A copy that ends as copied leaves a destination that holds the source's
/// bytes, all of them and in order, whatever the destination held before and
/// however the reads cut the source into chunks.
pub proof fn lemma_copied_destination_equals_source(
    initial: CopyModel,
    outcomes: Seq<Result<usize, i32>>,
)
    requires
        initial.reads_faithfully(outcomes),
        CopyStage::OpeningSource.after_all(outcomes) is Copied,
    ensures
        initial.after_run(outcomes).source == initial.source,
        initial.after_run(outcomes).destination == initial.source,
{
    lemma_run_agrees(initial, outcomes);
}

} // verus!
