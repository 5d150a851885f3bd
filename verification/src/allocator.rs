//! The backing-store allocator: which file operation comes next while a
//! backing file is brought to its full size, and when the file counts as
//! allocated.
//!
//! The allocator asks for one operation at a time and is told how it went. It
//! opens the file (creating it if need be), sets its length in one step,
//! moves to the last byte, writes a zero there so that the final extent is
//! really reserved, and closes the file. The first failure ends the run.

use crate::errno::EINVAL;
use vstd::prelude::*;

verus! {

/// Why a backing file could not be allocated.
#[derive(Clone, Copy, Debug, PartialEq, Eq)]
pub enum AllocError {
    /// An operation on the file failed with this OS error number. A size that
    /// no file can have (zero, or beyond the largest file offset) is reported
    /// as `EINVAL`, as the kernel would report it.
    Io(i32),
}

/// Where an allocation stands. Each of the first five names the operation
/// that is asked for next and whose outcome is awaited.
#[derive(Clone, Copy, Debug, PartialEq, Eq)]
pub enum AllocStage {
    Opening,
    Resizing,
    Positioning,
    Writing,
    Closing,
    /// Every operation succeeded.
    Allocated,
    /// An operation failed, or the size was refused; nothing more is asked.
    Failed(AllocError),
}

/// One operation on the backing file, asked of the caller.
#[derive(Clone, Copy, Debug, PartialEq, Eq)]
pub enum FileRequest {
    /// Open the file for writing, creating it if it is absent, keeping its
    /// contents if it is present.
    Open,
    /// Set the file's length to this many bytes.
    SetLength(i64),
    /// Move the file offset to this many bytes from the start.
    SeekTo(i64),
    /// Write one zero byte at the file offset.
    WriteZeroByte,
    /// Close the file.
    Close,
    /// Nothing is left to do; this is the allocation's result.
    Finished(Result<(), AllocError>),
}

/// A size the allocator accepts: at least one byte, and no more than a file
/// offset can express.
pub open spec fn size_fits(size_bytes: u64) -> bool {
    0 < size_bytes <= i64::MAX
}

/// An allocation in progress: the size asked for and the stage reached.
pub struct Allocation {
    pub size_bytes: u64,
    pub stage: AllocStage,
}

impl Allocation {
    /// The state every allocation starts in.
    pub open spec fn start(size_bytes: u64) -> Allocation {
        Allocation { size_bytes, stage: AllocStage::Opening }
    }

    /// Past the opening stage the size is one the allocator accepts.
    pub open spec fn well_formed(self) -> bool {
        match self.stage {
            AllocStage::Opening | AllocStage::Failed(_) => true,
            _ => size_fits(self.size_bytes),
        }
    }

    /// No further operation will be asked for.
    pub open spec fn finished(self) -> bool {
        self.stage is Allocated || self.stage is Failed
    }

    /// The operation asked for in this state.
    pub open spec fn request(self) -> FileRequest {
        match self.stage {
            AllocStage::Opening => FileRequest::Open,
            AllocStage::Resizing => FileRequest::SetLength(self.size_bytes as i64),
            AllocStage::Positioning => FileRequest::SeekTo((self.size_bytes - 1) as i64),
            AllocStage::Writing => FileRequest::WriteZeroByte,
            AllocStage::Closing => FileRequest::Close,
            AllocStage::Allocated => FileRequest::Finished(Ok(())),
            AllocStage::Failed(e) => FileRequest::Finished(Err(e)),
        }
    }

    /// The stage that follows a success of the operation asked for in `stage`.
    pub open spec fn stage_after_success(self) -> AllocStage {
        match self.stage {
            AllocStage::Opening => if size_fits(self.size_bytes) {
                AllocStage::Resizing
            } else {
                AllocStage::Failed(AllocError::Io(EINVAL))
            },
            AllocStage::Resizing => AllocStage::Positioning,
            AllocStage::Positioning => AllocStage::Writing,
            AllocStage::Writing => AllocStage::Closing,
            AllocStage::Closing => AllocStage::Allocated,
            AllocStage::Allocated | AllocStage::Failed(_) => self.stage,
        }
    }

    /// The state after the caller reported `outcome` for the operation asked
    /// for in this state. A finished allocation stays as it is; otherwise a
    /// failure ends the run with the reported error number.
    pub open spec fn after(self, outcome: Result<(), i32>) -> Allocation {
        let stage = if self.finished() {
            self.stage
        } else {
            match outcome {
                Ok(_) => self.stage_after_success(),
                Err(code) => AllocStage::Failed(AllocError::Io(code)),
            }
        };
        Allocation { size_bytes: self.size_bytes, stage }
    }

    /// The state after a whole run of reported outcomes, oldest first.
    pub open spec fn after_all(self, outcomes: Seq<Result<(), i32>>) -> Allocation
        decreases outcomes.len(),
    {
        if outcomes.len() == 0 {
            self
        } else {
            self.after_all(outcomes.drop_last()).after(outcomes.last())
        }
    }
}

/// What a [`BackingImage`] is: the path of its file, and how far its
/// allocation has come.
pub struct BackingImageView {
    pub path: Seq<char>,
    pub allocation: Allocation,
}

impl BackingImageView {
    /// Every operation of the allocation has succeeded.
    pub open spec fn allocated(self) -> bool {
        self.allocation.stage is Allocated
    }
}

/// A file that serves as a disk, and the sequence of operations that brings
/// it to its size.
pub struct BackingImage {
    path: String,
    size_bytes: u64,
    stage: AllocStage,
}

impl View for BackingImage {
    type V = BackingImageView;

    closed spec fn view(&self) -> BackingImageView {
        BackingImageView {
            path: self.path@,
            allocation: Allocation { size_bytes: self.size_bytes, stage: self.stage },
        }
    }
}

impl BackingImage {
    #[verifier::type_invariant]
    spec fn inv(self) -> bool {
        self@.allocation.well_formed()
    }

    /// An image of `size_bytes` bytes at `path`, with nothing done yet. The
    /// size is judged once the file is open: the file is created whatever
    /// the size.
    pub fn new(path: String, size_bytes: u64) -> (image: BackingImage)
        ensures
            image@.path == path@,
            image@.allocation == Allocation::start(size_bytes),
    {
        BackingImage { path, size_bytes, stage: AllocStage::Opening }
    }

    /// The path of the backing file.
    pub fn path(&self) -> (path: &str)
        ensures
            path@ == self@.path,
    {
        self.path.as_str()
    }

    /// The size the image is to have.
    pub fn size_bytes(&self) -> (size_bytes: u64)
        ensures
            size_bytes == self@.allocation.size_bytes,
    {
        self.size_bytes
    }

    /// The stage the allocation is in.
    pub fn stage(&self) -> (stage: AllocStage)
        ensures
            stage == self@.allocation.stage,
            self@.allocation.well_formed(),
    {
        proof {
            use_type_invariant(self);
        }
        self.stage
    }

    /// Whether every operation has succeeded, so that the file has its full
    /// length and its last byte has been written.
    pub fn allocated(&self) -> (allocated: bool)
        ensures
            allocated == self@.allocated(),
    {
        match self.stage {
            AllocStage::Allocated => true,
            _ => false,
        }
    }

    /// The operation to perform now, or the result once the run is over.
    pub fn request(&self) -> (request: FileRequest)
        ensures
            request == self@.allocation.request(),
            request is Finished == self@.allocation.finished(),
            request matches FileRequest::SetLength(length) ==> length
                == self@.allocation.size_bytes,
            request matches FileRequest::SeekTo(offset) ==> offset == self@.allocation.size_bytes
                - 1,
    {
        proof {
            use_type_invariant(self);
        }
        match self.stage {
            AllocStage::Opening => FileRequest::Open,
            AllocStage::Resizing => FileRequest::SetLength(self.size_bytes as i64),
            AllocStage::Positioning => FileRequest::SeekTo((self.size_bytes - 1) as i64),
            AllocStage::Writing => FileRequest::WriteZeroByte,
            AllocStage::Closing => FileRequest::Close,
            AllocStage::Allocated => FileRequest::Finished(Ok(())),
            AllocStage::Failed(e) => FileRequest::Finished(Err(e)),
        }
    }

    /// Records how the operation last asked for went: `Ok` if it succeeded,
    /// `Err` with the OS error number if it failed.
    pub fn advance(&mut self, outcome: Result<(), i32>)
        ensures
            final(self)@.path == old(self)@.path,
            final(self)@.allocation == old(self)@.allocation.after(outcome),
    {
        proof {
            use_type_invariant(&*self);
        }
        let next = match self.stage {
            AllocStage::Allocated | AllocStage::Failed(_) => self.stage,
            stage => match outcome {
                Err(code) => AllocStage::Failed(AllocError::Io(code)),
                Ok(_) => match stage {
                    AllocStage::Opening => {
                        if 0 < self.size_bytes && self.size_bytes <= i64::MAX as u64 {
                            AllocStage::Resizing
                        } else {
                            AllocStage::Failed(AllocError::Io(EINVAL))
                        }
                    },
                    AllocStage::Resizing => AllocStage::Positioning,
                    AllocStage::Positioning => AllocStage::Writing,
                    AllocStage::Writing => AllocStage::Closing,
                    _ => AllocStage::Allocated,
                },
            },
        };
        self.stage = next;
    }
}

/// Tells a failed seek from a position: the C library's `lseek` returns -1
/// when it fails, and then `errno` holds the reason.
pub fn seek_result(returned: i64, errno: i32) -> (result: Result<i64, i32>)
    ensures
        returned == -1 ==> result == Err::<i64, i32>(errno),
        returned != -1 ==> result == Ok::<i64, i32>(returned),
{
    if returned == -1 {
        Err(errno)
    } else {
        Ok(returned)
    }
}

/// A regular file as the allocator's operations are taken to act on it: the
/// bytes it holds and the offset at which the next write lands. The laws
/// below are laws of this model. Nothing here shows that an operating system
/// behaves like it.
pub struct FileModel {
    pub bytes: Seq<u8>,
    pub offset: int,
}

/// `bytes` cut or padded with zeros to `length` bytes.
pub open spec fn with_length(bytes: Seq<u8>, length: int) -> Seq<u8> {
    if length <= bytes.len() {
        bytes.subrange(0, length)
    } else {
        bytes + Seq::new((length - bytes.len()) as nat, |i: int| 0u8)
    }
}

impl FileModel {
    /// The file after `request` succeeded on it. Opening keeps the contents
    /// and starts at offset zero; a write past the end grows the file.
    pub open spec fn perform(self, request: FileRequest) -> FileModel {
        match request {
            FileRequest::Open => FileModel { bytes: self.bytes, offset: 0 },
            FileRequest::SetLength(length) => FileModel {
                bytes: with_length(self.bytes, length as int),
                offset: self.offset,
            },
            FileRequest::SeekTo(offset) => FileModel { bytes: self.bytes, offset: offset as int },
            FileRequest::WriteZeroByte => {
                let grown = if self.offset < self.bytes.len() {
                    self.bytes
                } else {
                    with_length(self.bytes, self.offset + 1)
                };
                FileModel { bytes: grown.update(self.offset, 0u8), offset: self.offset + 1 }
            },
            FileRequest::Close | FileRequest::Finished(_) => self,
        }
    }

    /// The file after an allocation of `size_bytes` bytes was driven through
    /// `outcomes`, oldest first: each operation that was reported successful
    /// has acted on the file, and an operation that was reported failed is
    /// taken to have left it alone.
    pub open spec fn after_run(self, size_bytes: u64, outcomes: Seq<Result<(), i32>>) -> FileModel
        decreases outcomes.len(),
    {
        if outcomes.len() == 0 {
            self
        } else {
            let earlier = outcomes.drop_last();
            let file = self.after_run(size_bytes, earlier);
            match outcomes.last() {
                Ok(_) => file.perform(Allocation::start(size_bytes).after_all(earlier).request()),
                Err(_) => file,
            }
        }
    }

    /// The file holds exactly `size_bytes` bytes and the last of them is zero.
    pub open spec fn is_allocated(self, size_bytes: u64) -> bool {
        &&& 0 < size_bytes
        &&& self.bytes.len() == size_bytes
        &&& self.bytes[size_bytes - 1] == 0
    }
}

/// What the stage of an allocation says of the file when every operation
/// reported successful has acted on it.
spec fn agrees(state: Allocation, file: FileModel) -> bool {
    match state.stage {
        AllocStage::Positioning => file.bytes.len() == state.size_bytes,
        AllocStage::Writing => {
            &&& file.bytes.len() == state.size_bytes
            &&& file.offset == state.size_bytes - 1
        },
        AllocStage::Closing | AllocStage::Allocated => file.is_allocated(state.size_bytes),
        _ => true,
    }
}

proof fn lemma_run_agrees(size_bytes: u64, initial: FileModel, outcomes: Seq<Result<(), i32>>)
    ensures
        Allocation::start(size_bytes).after_all(outcomes).well_formed(),
        Allocation::start(size_bytes).after_all(outcomes).size_bytes == size_bytes,
        agrees(
            Allocation::start(size_bytes).after_all(outcomes),
            initial.after_run(size_bytes, outcomes),
        ),
    decreases outcomes.len(),
{
    if outcomes.len() > 0 {
        lemma_run_agrees(size_bytes, initial, outcomes.drop_last());
    }
}

/// An allocation that ends as allocated leaves a file of exactly the size
/// asked for, with a zero as its last byte, whatever the file held before and
/// however often outcomes were reported after the run was over.
pub proof fn lemma_allocated_file_has_size(
    size_bytes: u64,
    initial: FileModel,
    outcomes: Seq<Result<(), i32>>,
)
    requires
        Allocation::start(size_bytes).after_all(outcomes).stage is Allocated,
    ensures
        size_fits(size_bytes),
        initial.after_run(size_bytes, outcomes).is_allocated(size_bytes),
{
    lemma_run_agrees(size_bytes, initial, outcomes);
}

proof fn lemma_rerun_keeps_bytes(size_bytes: u64, file: FileModel, outcomes: Seq<Result<(), i32>>)
    requires
        file.is_allocated(size_bytes),
    ensures
        file.after_run(size_bytes, outcomes).bytes == file.bytes,
        Allocation::start(size_bytes).after_all(outcomes).stage is Writing
            ==> file.after_run(size_bytes, outcomes).offset == size_bytes - 1,
    decreases outcomes.len(),
{
    if outcomes.len() > 0 {
        let earlier = outcomes.drop_last();
        lemma_rerun_keeps_bytes(size_bytes, file, earlier);
        lemma_run_agrees(size_bytes, file, earlier);
        let before = file.after_run(size_bytes, earlier);
        let state = Allocation::start(size_bytes).after_all(earlier);
        if outcomes.last() is Ok {
            assert(before.perform(state.request()).bytes =~= file.bytes);
        }
    }
}

/// Running an allocation on a file that already is allocated to that size
/// changes none of its bytes, wherever the run ends.
pub proof fn lemma_allocated_file_is_kept(
    size_bytes: u64,
    file: FileModel,
    outcomes: Seq<Result<(), i32>>,
)
    requires
        file.is_allocated(size_bytes),
    ensures
        file.after_run(size_bytes, outcomes).bytes == file.bytes,
{
    lemma_rerun_keeps_bytes(size_bytes, file, outcomes);
}

/// Allocating twice with the same size leaves the file as the first
/// allocation left it: the same length, the same bytes.
pub proof fn lemma_allocation_is_idempotent(
    size_bytes: u64,
    initial: FileModel,
    first: Seq<Result<(), i32>>,
    second: Seq<Result<(), i32>>,
)
    requires
        Allocation::start(size_bytes).after_all(first).stage is Allocated,
    ensures
        initial.after_run(size_bytes, first).after_run(size_bytes, second).bytes
            == initial.after_run(size_bytes, first).bytes,
        initial.after_run(size_bytes, first).after_run(size_bytes, second).is_allocated(size_bytes),
{
    lemma_allocated_file_has_size(size_bytes, initial, first);
    lemma_allocated_file_is_kept(size_bytes, initial.after_run(size_bytes, first), second);
}

} // verus!
