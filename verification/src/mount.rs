//! The mount controller: attaching the image at a directory and detaching it
//! again, with the session's record of whether it is attached.
//!
//! A [`MountPoint`] is idle, or it is in the middle of a mount or an unmount
//! and asks for one operation at a time. A mount looks whether the directory
//! exists, creates it with its parents if it does not, and attaches the image
//! with default flags. An unmount detaches without force and without delay,
//! so that a busy mount fails instead of lingering.

use vstd::prelude::*;

verus! {

/// Why a mount or an unmount failed.
#[derive(Clone, Copy, Debug, PartialEq, Eq)]
pub enum MountError {
    /// The session has the directory recorded as mounted already.
    AlreadyMounted,
    /// The operating system refused to create the directory, to attach or
    /// to detach, with this error number.
    Os(i32),
}

/// What a mount point is busy with. Every stage but `Idle` names the
/// operation that is asked for next and whose outcome is awaited.
#[derive(Clone, Copy, Debug, PartialEq, Eq)]
pub enum MountStage {
    Idle,
    Probing,
    CreatingDirectory,
    Attaching,
    Detaching,
}

/// One operation of a mount or an unmount, asked of the caller.
#[derive(Clone, Copy, Debug, PartialEq, Eq)]
pub enum MountRequest {
    /// Find out whether the mount directory exists.
    ProbeDirectory,
    /// Create the mount directory and every missing parent.
    CreateDirectories,
    /// Attach the image's filesystem at the mount directory, with these
    /// mount flags and no filesystem-specific data.
    Attach(u64),
    /// Detach the filesystem at the mount directory, with these unmount
    /// flags.
    Detach(i32),
    /// Nothing is in progress; this is the result of the last mount or
    /// unmount, `Ok` if there was none.
    Finished(Result<(), MountError>),
}

/// How an operation went, as the caller reports it.
#[derive(Clone, Copy, Debug, PartialEq, Eq)]
pub enum MountEvent {
    /// Whether the directory was found to exist.
    Probed(bool),
    /// The directories were created, or could not be, with this error
    /// number.
    Created(Result<(), i32>),
    /// The image was attached, or the system refused with this error number.
    Attached(Result<(), i32>),
    /// The image was detached, or the system refused with this error number.
    Detached(Result<(), i32>),
}

/// The mount flags of an attach: none, so nothing restricts reading,
/// writing, executing or set-user-id on the mounted filesystem.
pub const DEFAULT_MOUNT_FLAGS: u64 = 0;

/// The unmount flags of a detach: none, so the unmount is neither forced nor
/// deferred.
pub const PLAIN_UNMOUNT_FLAGS: i32 = 0;

/// Calls `nix::mount::MsFlags::empty` and hands out the bits of what it
/// returns.
///
/// Not proved, taken from nix and bitflags: the empty flag set has no bit
/// set.
#[verifier::external_body]
fn empty_mount_flags() -> (bits: u64)
    ensures
        bits == DEFAULT_MOUNT_FLAGS,
{
    nix::mount::MsFlags::empty().bits() as u64
}

/// Calls `nix::mount::MntFlags::empty` and hands out the bits of what it
/// returns.
///
/// Not proved, taken from nix and bitflags: the empty flag set has no bit
/// set.
#[verifier::external_body]
fn empty_unmount_flags() -> (bits: i32)
    ensures
        bits == PLAIN_UNMOUNT_FLAGS,
{
    nix::mount::MntFlags::empty().bits() as i32
}

/// What a [`MountPoint`] is.
pub struct MountPointView {
    pub directory_path: Seq<char>,
    /// The directory was seen or made to exist.
    pub exists: bool,
    /// The image is attached at the directory, as far as this session knows.
    pub is_mounted: bool,
    pub stage: MountStage,
    /// The result of the last mount or unmount that came to an end.
    pub result: Result<(), MountError>,
}

impl MountPointView {
    /// A mount point that nothing has been done with.
    pub open spec fn fresh(directory_path: Seq<char>) -> MountPointView {
        MountPointView {
            directory_path,
            exists: false,
            is_mounted: false,
            stage: MountStage::Idle,
            result: Ok(()),
        }
    }

    /// A mount is under way only while nothing is attached, and whatever is
    /// attached, or about to be, has its directory.
    pub open spec fn well_formed(self) -> bool {
        &&& self.stage is Probing || self.stage is CreatingDirectory || self.stage is Attaching
            ==> !self.is_mounted
        &&& self.stage is Attaching || self.is_mounted ==> self.exists
    }

    /// The operation asked for in this state.
    pub open spec fn request(self) -> MountRequest {
        match self.stage {
            MountStage::Idle => MountRequest::Finished(self.result),
            MountStage::Probing => MountRequest::ProbeDirectory,
            MountStage::CreatingDirectory => MountRequest::CreateDirectories,
            MountStage::Attaching => MountRequest::Attach(DEFAULT_MOUNT_FLAGS),
            MountStage::Detaching => MountRequest::Detach(PLAIN_UNMOUNT_FLAGS),
        }
    }

    /// The state after a mount was called for. While an operation is in
    /// progress the call changes nothing. A mount of what is recorded as
    /// mounted ends at once as `AlreadyMounted`. Otherwise the mount starts
    /// by probing the directory.
    pub open spec fn mount_begun(self) -> MountPointView {
        if !(self.stage is Idle) {
            self
        } else if self.is_mounted {
            MountPointView { result: Err(MountError::AlreadyMounted), ..self }
        } else {
            MountPointView { stage: MountStage::Probing, ..self }
        }
    }

    /// The state after an unmount was called for. While an operation is in
    /// progress the call changes nothing. Otherwise the detach is asked for,
    /// whatever the record says: what is not mounted is for the operating
    /// system to refuse.
    pub open spec fn unmount_begun(self) -> MountPointView {
        if !(self.stage is Idle) {
            self
        } else {
            MountPointView { stage: MountStage::Detaching, ..self }
        }
    }

    /// The state in which an operation ended with `result`.
    pub open spec fn ended(self, result: Result<(), MountError>) -> MountPointView {
        MountPointView { stage: MountStage::Idle, result, ..self }
    }

    /// The state after the caller reported `event`. An event that does not
    /// answer the operation asked for changes nothing.
    pub open spec fn after(self, event: MountEvent) -> MountPointView {
        match (self.stage, event) {
            (MountStage::Probing, MountEvent::Probed(exists)) => MountPointView {
                exists,
                stage: if exists {
                    MountStage::Attaching
                } else {
                    MountStage::CreatingDirectory
                },
                ..self
            },
            (MountStage::CreatingDirectory, MountEvent::Created(Ok(_))) => MountPointView {
                exists: true,
                stage: MountStage::Attaching,
                ..self
            },
            (MountStage::CreatingDirectory, MountEvent::Created(Err(code))) => self.ended(
                Err(MountError::Os(code)),
            ),
            (MountStage::Attaching, MountEvent::Attached(Ok(_))) => MountPointView {
                is_mounted: true,
                ..self
            }.ended(Ok(())),
            (MountStage::Attaching, MountEvent::Attached(Err(code))) => self.ended(
                Err(MountError::Os(code)),
            ),
            (MountStage::Detaching, MountEvent::Detached(Ok(_))) => MountPointView {
                is_mounted: false,
                ..self
            }.ended(Ok(())),
            (MountStage::Detaching, MountEvent::Detached(Err(code))) => self.ended(
                Err(MountError::Os(code)),
            ),
            _ => self,
        }
    }
}

/// A directory at which the image is mounted, and the session's record of
/// it.
pub struct MountPoint {
    directory_path: String,
    exists: bool,
    is_mounted: bool,
    stage: MountStage,
    result: Result<(), MountError>,
}

impl View for MountPoint {
    type V = MountPointView;

    closed spec fn view(&self) -> MountPointView {
        MountPointView {
            directory_path: self.directory_path@,
            exists: self.exists,
            is_mounted: self.is_mounted,
            stage: self.stage,
            result: self.result,
        }
    }
}

impl MountPoint {
    #[verifier::type_invariant]
    spec fn inv(self) -> bool {
        self@.well_formed()
    }

    /// A mount point at `directory_path`, with nothing mounted and nothing
    /// known of the directory.
    pub fn new(directory_path: String) -> (point: MountPoint)
        ensures
            point@ == MountPointView::fresh(directory_path@),
    {
        MountPoint {
            directory_path,
            exists: false,
            is_mounted: false,
            stage: MountStage::Idle,
            result: Ok(()),
        }
    }

    /// The path of the mount directory.
    pub fn directory_path(&self) -> (path: &str)
        ensures
            path@ == self@.directory_path,
    {
        self.directory_path.as_str()
    }

    /// Whether the directory was seen or made to exist.
    pub fn directory_exists(&self) -> (found: bool)
        ensures
            found == self@.exists,
    {
        self.exists
    }

    /// Whether the image is attached, as far as this session knows.
    pub fn is_mounted(&self) -> (is_mounted: bool)
        ensures
            is_mounted == self@.is_mounted,
            is_mounted ==> self@.exists,
    {
        proof {
            use_type_invariant(self);
        }
        self.is_mounted
    }

    /// What the mount point is busy with.
    pub fn stage(&self) -> (stage: MountStage)
        ensures
            stage == self@.stage,
            self@.well_formed(),
    {
        proof {
            use_type_invariant(self);
        }
        self.stage
    }

    /// Calls for a mount. The operations to perform follow from
    /// [`MountPoint::request`].
    pub fn mount(&mut self)
        ensures
            final(self)@ == old(self)@.mount_begun(),
    {
        proof {
            use_type_invariant(&*self);
        }
        match self.stage {
            MountStage::Idle => {
                if self.is_mounted {
                    self.result = Err(MountError::AlreadyMounted);
                } else {
                    self.stage = MountStage::Probing;
                }
            },
            _ => {},
        }
    }

    /// Calls for an unmount. The operation to perform follows from
    /// [`MountPoint::request`].
    pub fn unmount(&mut self)
        ensures
            final(self)@ == old(self)@.unmount_begun(),
    {
        proof {
            use_type_invariant(&*self);
        }
        match self.stage {
            MountStage::Idle => {
                self.stage = MountStage::Detaching;
            },
            _ => {},
        }
    }

    /// The operation to perform now, or the result of the last mount or
    /// unmount when none is in progress. The image is attached only at a
    /// directory that exists, and only while the session has nothing
    /// recorded as mounted there.
    pub fn request(&self) -> (request: MountRequest)
        ensures
            request == self@.request(),
            request is Attach ==> self@.exists && !self@.is_mounted,
    {
        proof {
            use_type_invariant(self);
        }
        match self.stage {
            MountStage::Idle => MountRequest::Finished(self.result),
            MountStage::Probing => MountRequest::ProbeDirectory,
            MountStage::CreatingDirectory => MountRequest::CreateDirectories,
            MountStage::Attaching => MountRequest::Attach(empty_mount_flags()),
            MountStage::Detaching => MountRequest::Detach(empty_unmount_flags()),
        }
    }

    /// Records how the operation last asked for went.
    pub fn advance(&mut self, event: MountEvent)
        ensures
            final(self)@ == old(self)@.after(event),
    {
        proof {
            use_type_invariant(&*self);
        }
        match (self.stage, event) {
            (MountStage::Probing, MountEvent::Probed(exists)) => {
                self.exists = exists;
                self.stage = if exists {
                    MountStage::Attaching
                } else {
                    MountStage::CreatingDirectory
                };
            },
            (MountStage::CreatingDirectory, MountEvent::Created(Ok(_))) => {
                self.exists = true;
                self.stage = MountStage::Attaching;
            },
            (MountStage::CreatingDirectory, MountEvent::Created(Err(code))) => {
                self.result = Err(MountError::Os(code));
                self.stage = MountStage::Idle;
            },
            (MountStage::Attaching, MountEvent::Attached(Ok(_))) => {
                self.stage = MountStage::Idle;
                self.is_mounted = true;
                self.result = Ok(());
            },
            (MountStage::Attaching, MountEvent::Attached(Err(code))) => {
                self.result = Err(MountError::Os(code));
                self.stage = MountStage::Idle;
            },
            (MountStage::Detaching, MountEvent::Detached(Ok(_))) => {
                self.is_mounted = false;
                self.result = Ok(());
                self.stage = MountStage::Idle;
            },
            (MountStage::Detaching, MountEvent::Detached(Err(code))) => {
                self.result = Err(MountError::Os(code));
                self.stage = MountStage::Idle;
            },
            _ => {},
        }
    }
}

/// One thing that happens to a mount point: a call for a mount or an
/// unmount, or the report of how an operation went.
#[derive(Clone, Copy, Debug, PartialEq, Eq)]
pub enum MountInput {
    Mount,
    Unmount,
    Report(MountEvent),
}

impl MountPointView {
    /// The state after `input`.
    pub open spec fn on(self, input: MountInput) -> MountPointView {
        match input {
            MountInput::Mount => self.mount_begun(),
            MountInput::Unmount => self.unmount_begun(),
            MountInput::Report(event) => self.after(event),
        }
    }

    /// The state after a whole run of inputs, oldest first.
    pub open spec fn on_all(self, inputs: Seq<MountInput>) -> MountPointView
        decreases inputs.len(),
    {
        if inputs.len() == 0 {
            self
        } else {
            self.on_all(inputs.drop_last()).on(inputs.last())
        }
    }

    /// `input` reports the success of the attach or detach asked for in this
    /// state.
    pub open spec fn reports_success(self, input: MountInput) -> bool {
        ||| self.stage is Attaching && input matches MountInput::Report(
            MountEvent::Attached(Ok(_)),
        )
        ||| self.stage is Detaching && input matches MountInput::Report(
            MountEvent::Detached(Ok(_)),
        )
    }
}

/// The mount directory as the operating system is taken to have it: with the
/// image's filesystem attached, so that the directory shows the image's
/// contents, or without, so that it shows what it holds itself. The law
/// below is a law of this model. Nothing here shows that an operating system
/// behaves like it.
pub struct DirectoryModel {
    pub attached: bool,
}

impl DirectoryModel {
    /// The directory after `request` succeeded.
    pub open spec fn perform(self, request: MountRequest) -> DirectoryModel {
        match request {
            MountRequest::Attach(_) => DirectoryModel { attached: true },
            MountRequest::Detach(_) => DirectoryModel { attached: false },
            _ => self,
        }
    }

    /// The directory after a mount point that started out as `point` went
    /// through `inputs`, oldest first: each attach and detach that was asked
    /// for and reported successful has acted on the directory.
    pub open spec fn after_run(self, point: MountPointView, inputs: Seq<MountInput>) -> DirectoryModel
        decreases inputs.len(),
    {
        if inputs.len() == 0 {
            self
        } else {
            let earlier = inputs.drop_last();
            let directory = self.after_run(point, earlier);
            let state = point.on_all(earlier);
            if state.reports_success(inputs.last()) {
                directory.perform(state.request())
            } else {
                directory
            }
        }
    }
}

/// The session's record is exact: whatever is called for and reported, the
/// mount point is recorded as mounted exactly when the image is attached at
/// the directory, and it stays well formed. So a mount is never asked of a
/// directory that has the image attached, and once a detach has been
/// reported successful the directory shows what it holds itself.
pub proof fn lemma_record_follows_directory(
    point: MountPointView,
    directory: DirectoryModel,
    inputs: Seq<MountInput>,
)
    requires
        point.well_formed(),
        point.is_mounted == directory.attached,
    ensures
        point.on_all(inputs).well_formed(),
        point.on_all(inputs).is_mounted == directory.after_run(point, inputs).attached,
        point.on_all(inputs).directory_path == point.directory_path,
    decreases inputs.len(),
{
    if inputs.len() > 0 {
        lemma_record_follows_directory(point, directory, inputs.drop_last());
    }
}

} // verus!
