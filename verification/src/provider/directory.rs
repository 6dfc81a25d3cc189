//! The two directories that both provider children are launched from.
//!
//! A directory is captured once, with its descriptor, and is looked at again
//! before every use: under its path and through its descriptor it must still be
//! exactly the directory that was captured.
use vstd::prelude::*;

use crate::clock::Moment;
use crate::provider::error::ProviderLaunchError;
use crate::provider::path::{components, is_absolute, rooted, same_path};

verus! {

/// The part of a directory's metadata that counts.
#[derive(Clone, Copy, Debug, PartialEq, Eq, Structural)]
pub struct DirectoryMetadata {
    pub is_dir: bool,
    pub device: u64,
    pub inode: u64,
    pub uid: u32,
    pub mode: u32,
}

/// What identifies a captured directory.
#[derive(Clone, Copy, Debug, PartialEq, Eq, Structural)]
pub struct LaunchDirectoryIdentity {
    pub device: u64,
    pub inode: u64,
    pub uid: u32,
    pub mode: u32,
}

/// The mode bits that a launch directory must not have: none at all for others
/// where it is private, no right to write otherwise.
pub open spec fn forbidden_mode(private: bool) -> u32 {
    if private {
        0o077
    } else {
        0o022
    }
}

/// A directory of the user itself, closed to others.
pub open spec fn launchable(metadata: DirectoryMetadata, user: u32, private: bool) -> bool {
    &&& metadata.is_dir
    &&& metadata.uid == user
    &&& metadata.mode & forbidden_mode(private) == 0
}

pub open spec fn identity_of(metadata: DirectoryMetadata) -> LaunchDirectoryIdentity {
    LaunchDirectoryIdentity {
        device: metadata.device,
        inode: metadata.inode,
        uid: metadata.uid,
        mode: metadata.mode,
    }
}

/// The identity of a launchable directory.
pub fn launch_directory_identity(metadata: &DirectoryMetadata, user: u32, private: bool) -> (identity:
    Result<LaunchDirectoryIdentity, ProviderLaunchError>)
    ensures
        identity == (if launchable(*metadata, user, private) {
            Ok::<LaunchDirectoryIdentity, ProviderLaunchError>(identity_of(*metadata))
        } else {
            Err::<LaunchDirectoryIdentity, ProviderLaunchError>(ProviderLaunchError::InvalidArgument)
        }),
{
    let unsafe_mode = if private {
        metadata.mode & 0o077 != 0
    } else {
        metadata.mode & 0o022 != 0
    };
    if !metadata.is_dir || metadata.uid != user || unsafe_mode {
        return Err(ProviderLaunchError::InvalidArgument);
    }
    Ok(
        LaunchDirectoryIdentity {
            device: metadata.device,
            inode: metadata.inode,
            uid: metadata.uid,
            mode: metadata.mode,
        },
    )
}

/// The metadata is that of the captured directory.
pub open spec fn still(
    metadata: DirectoryMetadata,
    identity: LaunchDirectoryIdentity,
    user: u32,
    private: bool,
) -> bool {
    launchable(metadata, user, private) && identity_of(metadata) == identity
}

fn is_still(
    metadata: &DirectoryMetadata,
    identity: LaunchDirectoryIdentity,
    user: u32,
    private: bool,
) -> (is: bool)
    ensures
        is == still(*metadata, identity, user, private),
{
    match launch_directory_identity(metadata, user, private) {
        Ok(found) => found == identity,
        Err(_) => false,
    }
}

/// What was read of a directory under its path and through its descriptor.
/// `None` stands for a failed reading.
pub struct DirectoryReading {
    pub canonical: Option<Vec<u8>>,
    pub visible: Option<DirectoryMetadata>,
    pub opened: Option<DirectoryMetadata>,
    /// The descriptor carries no extended access list.
    pub acl_is_empty: bool,
}

/// A descriptor that was just opened or duplicated.
pub struct OpenedDirectory<D> {
    pub descriptor: D,
    pub metadata: Option<DirectoryMetadata>,
    pub acl_is_empty: bool,
}

/// A path that was looked at and may now be opened.
pub struct LaunchDirectoryCandidate {
    path: Vec<u8>,
    identity: LaunchDirectoryIdentity,
    private: bool,
}

impl LaunchDirectoryCandidate {
    pub closed spec fn path(&self) -> Seq<u8> {
        self.path@
    }

    pub closed spec fn identity(&self) -> LaunchDirectoryIdentity {
        self.identity
    }

    pub closed spec fn private(&self) -> bool {
        self.private
    }

    /// Looks at a path before it is opened: it must be absolute, lead along the
    /// same components as its canonical form, and to a launchable directory. The
    /// canonical form is kept.
    pub fn inspect(
        path: Vec<u8>,
        canonical: Option<Vec<u8>>,
        visible: Option<DirectoryMetadata>,
        user: u32,
        private: bool,
    ) -> (candidate: Result<Self, ProviderLaunchError>)
        ensures
            candidate is Ok <==> {
                &&& rooted(path@)
                &&& canonical matches Some(canonical) && components(canonical@) == components(
                    path@,
                )
                &&& visible matches Some(visible) && launchable(visible, user, private)
            },
            candidate matches Ok(candidate) ==> candidate.path() == canonical->0@
                && candidate.identity() == identity_of(visible->0) && candidate.private()
                == private,
            candidate matches Err(error) ==> error == ProviderLaunchError::InvalidArgument,
    {
        if !is_absolute(&path) {
            return Err(ProviderLaunchError::InvalidArgument);
        }
        let canonical = match canonical {
            Some(canonical) => canonical,
            None => {
                return Err(ProviderLaunchError::InvalidArgument);
            },
        };
        if !same_path(&canonical, &path) {
            return Err(ProviderLaunchError::InvalidArgument);
        }
        match visible {
            Some(visible) => match launch_directory_identity(&visible, user, private) {
                Ok(identity) => Ok(LaunchDirectoryCandidate { path: canonical, identity, private }),
                Err(error) => Err(error),
            },
            None => Err(ProviderLaunchError::InvalidArgument),
        }
    }
}

/// A captured directory with the descriptor that pins it.
pub struct VerifiedLaunchDirectory<D> {
    path: Vec<u8>,
    descriptor: D,
    identity: LaunchDirectoryIdentity,
    private: bool,
}

impl<D> VerifiedLaunchDirectory<D> {
    pub closed spec fn bytes(&self) -> Seq<u8> {
        self.path@
    }

    pub closed spec fn pinned(&self) -> D {
        self.descriptor
    }

    pub closed spec fn identity(&self) -> LaunchDirectoryIdentity {
        self.identity
    }

    pub closed spec fn private(&self) -> bool {
        self.private
    }

    /// The same directory: path, identity and strictness.
    pub open spec fn same_directory(&self, other: &Self) -> bool {
        self.bytes() == other.bytes() && self.identity() == other.identity() && self.private()
            == other.private()
    }

    /// Takes in the descriptor of a candidate: it must be the directory that was
    /// looked at.
    pub fn capture(
        candidate: LaunchDirectoryCandidate,
        opened: Option<OpenedDirectory<D>>,
        user: u32,
    ) -> (captured: Result<Self, ProviderLaunchError>)
        ensures
            captured is Ok <==> {
                &&& opened matches Some(opened)
                &&& opened.metadata matches Some(metadata)
                &&& still(metadata, candidate.identity(), user, candidate.private())
                &&& opened.acl_is_empty
            },
            captured matches Ok(directory) ==> directory.bytes() == candidate.path()
                && directory.identity() == candidate.identity() && directory.private()
                == candidate.private() && directory.pinned() == opened->0.descriptor,
            captured matches Err(error) ==> error == ProviderLaunchError::InvalidArgument,
    {
        let opened = match opened {
            Some(opened) => opened,
            None => {
                return Err(ProviderLaunchError::InvalidArgument);
            },
        };
        let LaunchDirectoryCandidate { path, identity, private } = candidate;
        let unchanged = match opened.metadata {
            Some(metadata) => is_still(&metadata, identity, user, private),
            None => false,
        };
        if !unchanged || !opened.acl_is_empty {
            return Err(ProviderLaunchError::InvalidArgument);
        }
        Ok(VerifiedLaunchDirectory { path, descriptor: opened.descriptor, identity, private })
    }

    pub fn path(&self) -> (path: &[u8])
        ensures
            path@ == self.bytes(),
    {
        self.path.as_slice()
    }

    pub fn descriptor(&self) -> (descriptor: &D)
        ensures
            *descriptor == self.pinned(),
    {
        &self.descriptor
    }

    /// The judgement on a new look at the directory. Only a descriptor that
    /// cannot be read is a storage failure, and only where the path still
    /// leads somewhere canonical.
    pub open spec fn verdict(&self, reading: DirectoryReading, user: u32) -> Result<
        (),
        ProviderLaunchError,
    > {
        let path_holds = reading.canonical matches Some(canonical) && components(canonical@)
            == components(self.bytes());
        if !path_holds || reading.visible is None {
            Err(ProviderLaunchError::SessionChanged)
        } else if reading.opened is None {
            Err(ProviderLaunchError::Storage)
        } else if still(reading.visible->0, self.identity(), user, self.private()) && still(
            reading.opened->0,
            self.identity(),
            user,
            self.private(),
        ) && reading.acl_is_empty {
            Ok(())
        } else {
            Err(ProviderLaunchError::SessionChanged)
        }
    }

    pub fn revalidate(&self, reading: &DirectoryReading, user: u32) -> (verdict: Result<
        (),
        ProviderLaunchError,
    >)
        ensures
            verdict == self.verdict(*reading, user),
    {
        match &reading.canonical {
            Some(canonical) => {
                if !same_path(canonical, &self.path) {
                    return Err(ProviderLaunchError::SessionChanged);
                }
            },
            None => {
                return Err(ProviderLaunchError::SessionChanged);
            },
        }
        let visible = match reading.visible {
            Some(visible) => visible,
            None => {
                return Err(ProviderLaunchError::SessionChanged);
            },
        };
        let opened = match reading.opened {
            Some(opened) => opened,
            None => {
                return Err(ProviderLaunchError::Storage);
            },
        };
        if !is_still(&visible, self.identity, user, self.private) || !is_still(
            &opened,
            self.identity,
            user,
            self.private,
        ) || !reading.acl_is_empty {
            return Err(ProviderLaunchError::SessionChanged);
        }
        Ok(())
    }

    /// The judgement on a duplicated descriptor, between two looks at the
    /// directory.
    pub open spec fn duplicate_verdict(
        &self,
        before: DirectoryReading,
        duplicated: Option<OpenedDirectory<D>>,
        after: DirectoryReading,
        user: u32,
    ) -> Result<(), ProviderLaunchError> {
        if self.verdict(before, user) is Err {
            self.verdict(before, user)
        } else if duplicated is None || duplicated->0.metadata is None {
            Err(ProviderLaunchError::Storage)
        } else if !(still(
            duplicated->0.metadata->0,
            self.identity(),
            user,
            self.private(),
        ) && duplicated->0.acl_is_empty) {
            Err(ProviderLaunchError::SessionChanged)
        } else {
            self.verdict(after, user)
        }
    }

    /// A second owner of the same directory, with a descriptor of its own.
    pub fn duplicate(
        &self,
        before: &DirectoryReading,
        duplicated: Option<OpenedDirectory<D>>,
        after: &DirectoryReading,
        user: u32,
    ) -> (duplicate: Result<Self, ProviderLaunchError>)
        ensures
            match duplicate {
                Ok(copy) => self.duplicate_verdict(*before, duplicated, *after, user) is Ok
                    && copy.same_directory(self) && copy.pinned() == duplicated->0.descriptor,
                Err(error) => self.duplicate_verdict(*before, duplicated, *after, user) == Err::<
                    (),
                    ProviderLaunchError,
                >(error),
            },
    {
        if let Err(error) = self.revalidate(before, user) {
            return Err(error);
        }
        let duplicated = match duplicated {
            Some(duplicated) => duplicated,
            None => {
                return Err(ProviderLaunchError::Storage);
            },
        };
        match duplicated.metadata {
            Some(metadata) => {
                if !is_still(&metadata, self.identity, user, self.private)
                    || !duplicated.acl_is_empty {
                    return Err(ProviderLaunchError::SessionChanged);
                }
            },
            None => {
                return Err(ProviderLaunchError::Storage);
            },
        }
        if let Err(error) = self.revalidate(after, user) {
            return Err(error);
        }
        let mut path: Vec<u8> = Vec::new();
        path.extend_from_slice(self.path.as_slice());
        assert(path@ =~= self.path@);
        Ok(
            VerifiedLaunchDirectory {
                path,
                descriptor: duplicated.descriptor,
                identity: self.identity,
                private: self.private,
            },
        )
    }
}

/// A look at both directories between two readings of the clock.
pub struct SessionReading {
    pub user: u32,
    pub before: Moment,
    pub codex_home: DirectoryReading,
    pub working_directory: DirectoryReading,
    pub after: Moment,
}

/// The judgement on both directories: the first failure counts, and a look that
/// was begun or ended too late is a timeout.
pub open spec fn session_verdict<D>(
    codex_home: VerifiedLaunchDirectory<D>,
    working_directory: VerifiedLaunchDirectory<D>,
    reading: SessionReading,
    deadline: Moment,
) -> Result<(), ProviderLaunchError> {
    if reading.before.reached(deadline) {
        Err(ProviderLaunchError::Timeout)
    } else if codex_home.verdict(reading.codex_home, reading.user) is Err {
        codex_home.verdict(reading.codex_home, reading.user)
    } else if working_directory.verdict(reading.working_directory, reading.user) is Err {
        working_directory.verdict(reading.working_directory, reading.user)
    } else if reading.after.reached(deadline) {
        Err(ProviderLaunchError::Timeout)
    } else {
        Ok(())
    }
}

pub fn revalidate_session_inputs<D>(
    codex_home: &VerifiedLaunchDirectory<D>,
    working_directory: &VerifiedLaunchDirectory<D>,
    reading: &SessionReading,
    deadline: Moment,
) -> (verdict: Result<(), ProviderLaunchError>)
    ensures
        verdict == session_verdict(*codex_home, *working_directory, *reading, deadline),
{
    if reading.before.has_reached(deadline) {
        return Err(ProviderLaunchError::Timeout);
    }
    if let Err(error) = codex_home.revalidate(&reading.codex_home, reading.user) {
        return Err(error);
    }
    if let Err(error) = working_directory.revalidate(&reading.working_directory, reading.user) {
        return Err(error);
    }
    if reading.after.has_reached(deadline) {
        return Err(ProviderLaunchError::Timeout);
    }
    Ok(())
}

/// A look that finds the captured directory exactly as it was passes, and one
/// that finds any part of its identity changed fails.
pub proof fn law_only_the_captured_directory_passes<D>(
    directory: VerifiedLaunchDirectory<D>,
    reading: DirectoryReading,
    user: u32,
)
    ensures
        directory.verdict(reading, user) is Ok ==> {
            &&& reading.canonical matches Some(canonical) && components(canonical@) == components(
                directory.bytes(),
            )
            &&& reading.visible matches Some(visible) && identity_of(visible)
                == directory.identity()
            &&& reading.opened matches Some(opened) && identity_of(opened) == directory.identity()
        },
        directory.verdict(reading, user) is Ok ==> directory.identity().uid == user
            && directory.identity().mode & forbidden_mode(directory.private()) == 0,
{
}

/// A directory may be launched from exactly if it is one, belongs to the user,
/// and, where it is private, gives the group and others no right at all: the last
/// six bits of its mode are zero. Otherwise only their two rights to write must
/// be missing.
pub proof fn law_launchable_directories_are_closed_to_others(
    metadata: DirectoryMetadata,
    user: u32,
)
    ensures
        launchable(metadata, user, true) <==> metadata.is_dir && metadata.uid == user
            && metadata.mode % 64 == 0,
        launchable(metadata, user, false) <==> metadata.is_dir && metadata.uid == user && (
        metadata.mode / 16) % 2 == 0 && (metadata.mode / 2) % 2 == 0,
        launchable(metadata, user, true) ==> launchable(metadata, user, false),
{
    let mode = metadata.mode;
    assert(mode & 0o077 == 0 <==> mode % 64 == 0) by (bit_vector);
    assert(mode & 0o022 == 0 <==> (mode / 16) % 2 == 0 && (mode / 2) % 2 == 0) by (bit_vector);
    assert(mode % 64 == 0 ==> (mode / 16) % 2 == 0 && (mode / 2) % 2 == 0) by (bit_vector);
}

/// Two directories have the same identity exactly if they agree in device,
/// inode, owner and mode.
pub proof fn law_identity_is_device_inode_owner_and_mode(
    left: DirectoryMetadata,
    right: DirectoryMetadata,
)
    ensures
        identity_of(left) == identity_of(right) <==> left.device == right.device && left.inode
            == right.inode && left.uid == right.uid && left.mode == right.mode,
{
}

/// A directory that is found as it was captured, under its own path and through
/// its descriptor, passes. One whose path leads elsewhere or nowhere, or that
/// differs in any part of its identity or has gained an access list, has
/// changed; and a descriptor that cannot be read is a storage failure.
pub proof fn law_directory_is_judged_by_what_is_found<D>(
    directory: VerifiedLaunchDirectory<D>,
    reading: DirectoryReading,
    visible: DirectoryMetadata,
    opened: DirectoryMetadata,
    user: u32,
)
    requires
        launchable(visible, user, directory.private()),
        identity_of(visible) == directory.identity(),
        reading.visible == Some(visible),
        reading.canonical matches Some(canonical) && components(canonical@) == components(
            directory.bytes(),
        ),
    ensures
        reading.opened is None ==> directory.verdict(reading, user) == Err::<
            (),
            ProviderLaunchError,
        >(ProviderLaunchError::Storage),
        reading.opened == Some(opened) ==> (directory.verdict(reading, user) is Ok
            <==> opened.is_dir && opened.device == visible.device && opened.inode == visible.inode
            && opened.uid == visible.uid && opened.mode == visible.mode && reading.acl_is_empty),
        reading.opened == Some(opened) && directory.verdict(reading, user) is Err
            ==> directory.verdict(reading, user) == Err::<(), ProviderLaunchError>(
            ProviderLaunchError::SessionChanged,
        ),
{
}

/// A directory that cannot be found under its path has changed, whatever else
/// was read.
pub proof fn law_lost_directory_has_changed<D>(
    directory: VerifiedLaunchDirectory<D>,
    reading: DirectoryReading,
    user: u32,
)
    requires
        reading.canonical is None || reading.visible is None || (reading.canonical matches Some(
            canonical,
        ) && components(canonical@) != components(directory.bytes())) || (
        reading.visible matches Some(visible) && reading.opened is Some && (identity_of(visible)
            != directory.identity() || !visible.is_dir || visible.uid != user)),
    ensures
        directory.verdict(reading, user) == Err::<(), ProviderLaunchError>(
            ProviderLaunchError::SessionChanged,
        ),
{
}

/// A descriptor is duplicated exactly if both looks at the directory pass and
/// the new descriptor is that of the same directory. The first look that fails
/// is what is told; a descriptor that is missing or cannot be read is a storage
/// failure, and another directory a change.
pub proof fn law_duplicate_is_the_same_directory<D>(
    directory: VerifiedLaunchDirectory<D>,
    before: DirectoryReading,
    opened: OpenedDirectory<D>,
    after: DirectoryReading,
    user: u32,
)
    ensures
        directory.verdict(before, user) matches Err(error) ==> directory.duplicate_verdict(
            before,
            Some(opened),
            after,
            user,
        ) == Err::<(), ProviderLaunchError>(error),
        directory.verdict(before, user) is Ok ==> {
            let same = opened.metadata matches Some(metadata) && launchable(
                metadata,
                user,
                directory.private(),
            ) && identity_of(metadata) == directory.identity() && opened.acl_is_empty;
            let verdict = directory.duplicate_verdict(before, Some(opened), after, user);
            &&& directory.duplicate_verdict(before, None, after, user) == Err::<
                (),
                ProviderLaunchError,
            >(ProviderLaunchError::Storage)
            &&& opened.metadata is None ==> verdict == Err::<(), ProviderLaunchError>(
                ProviderLaunchError::Storage,
            )
            &&& opened.metadata is Some && !same ==> verdict == Err::<(), ProviderLaunchError>(
                ProviderLaunchError::SessionChanged,
            )
            &&& same ==> verdict == directory.verdict(after, user)
        },
{
}

/// Both directories pass exactly if each of them does and the whole look was
/// begun and ended before the deadline. A look that began too late is a timeout
/// whatever was found; then the home counts before the working directory, and
/// both before a look that ended too late.
pub proof fn law_session_inputs_are_judged_in_order<D>(
    home: VerifiedLaunchDirectory<D>,
    workspace: VerifiedLaunchDirectory<D>,
    reading: SessionReading,
    deadline: Moment,
)
    ensures
        ({
            let verdict = session_verdict(home, workspace, reading, deadline);
            let timeout = Err::<(), ProviderLaunchError>(ProviderLaunchError::Timeout);
            let home_verdict = home.verdict(reading.codex_home, reading.user);
            let workspace_verdict = workspace.verdict(reading.working_directory, reading.user);
            let begun = reading.before.nanos < deadline.nanos;
            &&& verdict is Ok <==> begun && home_verdict is Ok && workspace_verdict is Ok
                && reading.after.nanos < deadline.nanos
            &&& !begun ==> verdict == timeout
            &&& begun && home_verdict is Err ==> verdict == home_verdict
            &&& begun && home_verdict is Ok && workspace_verdict is Err ==> verdict
                == workspace_verdict
            &&& begun && home_verdict is Ok && workspace_verdict is Ok && verdict is Err
                ==> verdict == timeout
        }),
{
}

} // verus!
