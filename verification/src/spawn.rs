//! Spawning a guest process from a binary package.
//!
//! A spawn unions the package onto the guest's file-system view, selects
//! the command's Wasm bytes, compiles them, and submits the pinned task
//! that runs the guest.  Union, compilation and submission are host
//! work; the selection of the bytes and the classification of every
//! failure are decided here, with proved contracts.

use crate::bytes;
use crate::errno::Errno;
use crate::module::CompiledModule;
use vstd::prelude::*;

verus! {

/// One command of a binary package: a name and its executable Wasm
/// bytes; at most one command is marked as the package's entrypoint.
#[derive(Debug)]
pub struct BinaryCommand {
    /// The command's name.
    pub name: Vec<u8>,
    /// The command's executable Wasm bytes.
    pub atom: Vec<u8>,
    /// Whether this command is the package's entrypoint.
    pub is_entrypoint: bool,
}

/// The mathematical view of one command.
#[verifier::ext_equal]
pub struct CommandView {
    /// The command's name.
    pub name: Seq<u8>,
    /// The command's executable Wasm bytes.
    pub atom: Seq<u8>,
    /// Whether this command is the package's entrypoint.
    pub is_entrypoint: bool,
}

impl View for BinaryCommand {
    type V = CommandView;

    open spec fn view(&self) -> CommandView {
        CommandView { name: self.name@, atom: self.atom@, is_entrypoint: self.is_entrypoint }
    }
}

/// A uniquely identified bundle of named commands, immutable after
/// construction.
#[derive(Debug)]
pub struct BinaryPackage {
    /// The package's identifier.
    pub id: Vec<u8>,
    /// The package's commands.
    pub commands: Vec<BinaryCommand>,
}

/// The mathematical view of a package.
#[verifier::ext_equal]
pub struct PackageView {
    /// The package's identifier.
    pub id: Seq<u8>,
    /// The package's commands.
    pub commands: Seq<CommandView>,
}

impl View for BinaryPackage {
    type V = PackageView;

    open spec fn view(&self) -> PackageView {
        PackageView {
            id: self.id@,
            commands: Seq::new(self.commands@.len(), |i: int| self.commands@[i]@),
        }
    }
}

/// The first command named `name`, front to back.
pub open spec fn spec_find_command(cs: Seq<CommandView>, name: Seq<u8>) -> Option<CommandView>
    decreases cs.len(),
{
    if cs.len() == 0 {
        None
    } else if cs[0].name == name {
        Some(cs[0])
    } else {
        spec_find_command(cs.drop_first(), name)
    }
}

/// The first command marked as the entrypoint, front to back.
pub open spec fn spec_find_entrypoint(cs: Seq<CommandView>) -> Option<CommandView>
    decreases cs.len(),
{
    if cs.len() == 0 {
        None
    } else if cs[0].is_entrypoint {
        Some(cs[0])
    } else {
        spec_find_entrypoint(cs.drop_first())
    }
}

/// The Wasm bytes a spawn runs: the command named `name` when the
/// package has one, else the entrypoint command, else nothing.
pub open spec fn spec_select_wasm(p: PackageView, name: Seq<u8>) -> Option<Seq<u8>> {
    match spec_find_command(p.commands, name) {
        Some(c) => Some(c.atom),
        None => match spec_find_entrypoint(p.commands) {
            Some(c) => Some(c.atom),
            None => None,
        },
    }
}

/// A spawn-time failure, surfaced to the caller as a typed error.
#[derive(Debug)]
pub enum SpawnError {
    /// The package has neither the requested command nor an entrypoint.
    MissingEntrypoint { package_id: Vec<u8> },
    /// The package could not be unioned onto the guest's file system.
    FileSystemError,
    /// The Wasm bytes did not compile.
    ModuleCompile,
    /// The task could not be submitted to the task manager.
    UnknownError,
}

/// The mathematical view of a spawn-time failure.
pub enum SpawnErrorView {
    /// The package has neither the requested command nor an entrypoint.
    MissingEntrypoint { package_id: Seq<u8> },
    /// The package could not be unioned onto the guest's file system.
    FileSystemError,
    /// The Wasm bytes did not compile.
    ModuleCompile,
    /// The task could not be submitted to the task manager.
    UnknownError,
}

impl View for SpawnError {
    type V = SpawnErrorView;

    open spec fn view(&self) -> SpawnErrorView {
        match self {
            SpawnError::MissingEntrypoint { package_id } => SpawnErrorView::MissingEntrypoint {
                package_id: package_id@,
            },
            SpawnError::FileSystemError => SpawnErrorView::FileSystemError,
            SpawnError::ModuleCompile => SpawnErrorView::ModuleCompile,
            SpawnError::UnknownError => SpawnErrorView::UnknownError,
        }
    }
}

/// Selects the Wasm bytes a spawn of `name` runs: the command of that
/// name when the package has one, else the entrypoint command, else
/// `MissingEntrypoint` carrying the package's identifier.
pub fn spawn_load_wasm<'a>(binary: &'a BinaryPackage, name: &[u8]) -> (r: Result<
    &'a Vec<u8>,
    SpawnError,
>)
    ensures
        match r {
            Ok(w) => spec_select_wasm(binary@, name@) == Some(w@),
            Err(e) => {
                &&& spec_select_wasm(binary@, name@) is None
                &&& e@ matches SpawnErrorView::MissingEntrypoint { package_id } && package_id
                    == binary@.id
            },
        },
{
    let n: usize = binary.commands.len();
    let ghost cs = binary@.commands;
    let mut i: usize = 0;
    proof {
        assert(cs.skip(0) =~= cs);
    }
    while i < n
        invariant
            i <= n,
            n == binary.commands@.len(),
            cs == binary@.commands,
            spec_find_command(cs, name@) == spec_find_command(cs.skip(i as int), name@),
        decreases n - i,
    {
        proof {
            assert(cs.skip(i as int)[0] == cs[i as int]);
            assert(cs.skip(i as int).drop_first() =~= cs.skip(i + 1));
        }
        if bytes::bytes_eq(binary.commands[i].name.as_slice(), name) {
            return Ok(&binary.commands[i].atom);
        }
        i = i + 1;
    }
    proof {
        assert(cs.skip(n as int) =~= Seq::<CommandView>::empty());
    }
    let mut j: usize = 0;
    proof {
        assert(cs.skip(0) =~= cs);
    }
    while j < n
        invariant
            j <= n,
            n == binary.commands@.len(),
            cs == binary@.commands,
            spec_find_command(cs, name@) is None,
            spec_find_entrypoint(cs) == spec_find_entrypoint(cs.skip(j as int)),
        decreases n - j,
    {
        proof {
            assert(cs.skip(j as int)[0] == cs[j as int]);
            assert(cs.skip(j as int).drop_first() =~= cs.skip(j + 1));
        }
        if binary.commands[j].is_entrypoint {
            return Ok(&binary.commands[j].atom);
        }
        j = j + 1;
    }
    proof {
        assert(cs.skip(n as int) =~= Seq::<CommandView>::empty());
    }
    Err(SpawnError::MissingEntrypoint { package_id: bytes::clone_bytes(&binary.id) })
}

/// Where one spawn stands.
#[derive(Debug)]
pub enum SpawnPhase {
    /// The package is being unioned onto the guest's file system.
    Unioning { package: BinaryPackage, name: Vec<u8> },
    /// The selected bytes are being compiled.
    Compiling,
    /// The task is being submitted to the task manager.
    Submitting,
    /// The spawn is over.
    Done,
}

/// The mathematical view of a spawn phase.
pub enum SpawnPhaseView {
    /// The package is being unioned.
    Unioning { package: PackageView, name: Seq<u8> },
    /// The selected bytes are being compiled.
    Compiling,
    /// The task is being submitted.
    Submitting,
    /// The spawn is over.
    Done,
}

impl View for SpawnPhase {
    type V = SpawnPhaseView;

    open spec fn view(&self) -> SpawnPhaseView {
        match self {
            SpawnPhase::Unioning { package, name } => SpawnPhaseView::Unioning {
                package: package@,
                name: name@,
            },
            SpawnPhase::Compiling => SpawnPhaseView::Compiling,
            SpawnPhase::Submitting => SpawnPhaseView::Submitting,
            SpawnPhase::Done => SpawnPhaseView::Done,
        }
    }
}

/// What the host must do next for a spawn.
#[derive(Debug)]
pub enum SpawnAction {
    /// Union the package onto the guest's file-system view.
    Union,
    /// Compile these Wasm bytes into a module.
    Compile { wasm: Vec<u8> },
    /// Submit the pinned guest task running this module; its join handle
    /// is the spawn's result.
    Submit { module: CompiledModule },
    /// The spawn failed: first run the guest's on-exit path with
    /// `exit_with` when it is set, then surface `error` to the caller.
    Fail { exit_with: Option<Errno>, error: SpawnError },
    /// The spawn succeeded; the join handle has been returned.
    Complete,
}

/// The mathematical view of a spawn action.
pub enum SpawnActionView {
    /// Union the package onto the guest's file-system view.
    Union,
    /// Compile these Wasm bytes.
    Compile { wasm: Seq<u8> },
    /// Submit the pinned guest task.
    Submit { module: CompiledModule },
    /// The spawn failed.
    Fail { exit_with: Option<Errno>, error: SpawnErrorView },
    /// The spawn succeeded.
    Complete,
}

impl View for SpawnAction {
    type V = SpawnActionView;

    open spec fn view(&self) -> SpawnActionView {
        match self {
            SpawnAction::Union => SpawnActionView::Union,
            SpawnAction::Compile { wasm } => SpawnActionView::Compile { wasm: wasm@ },
            SpawnAction::Submit { module } => SpawnActionView::Submit { module: *module },
            SpawnAction::Fail { exit_with, error } => SpawnActionView::Fail {
                exit_with: *exit_with,
                error: error@,
            },
            SpawnAction::Complete => SpawnActionView::Complete,
        }
    }
}

/// One spawn of a guest process: the machine that `spawn_exec` drives.
#[derive(Debug)]
pub struct SpawnSession {
    /// Where the spawn stands.
    pub phase: SpawnPhase,
}

/// Starts a spawn of the command `name` from `package`; the host must
/// first union the package onto the guest's file system.  The returned
/// session machine takes each host outcome from there.
pub fn spawn_exec(package: BinaryPackage, name: Vec<u8>) -> (r: (SpawnSession, SpawnAction))
    ensures
        r.0.phase@ == (SpawnPhaseView::Unioning { package: package@, name: name@ }),
        r.1@ == SpawnActionView::Union,
{
    (SpawnSession { phase: SpawnPhase::Unioning { package, name } }, SpawnAction::Union)
}

/// Starts a spawn of raw Wasm bytes, which skips the union and the
/// selection: the host must compile the bytes.
pub fn spawn_exec_wasm(wasm: Vec<u8>) -> (r: (SpawnSession, SpawnAction))
    ensures
        r.0.phase@ is Compiling,
        r.1@ == (SpawnActionView::Compile { wasm: wasm@ }),
{
    (SpawnSession { phase: SpawnPhase::Compiling }, SpawnAction::Compile { wasm })
}

impl SpawnSession {
    /// The union finished.  On failure the spawn fails with
    /// `FileSystemError` and no guest exit.  On success the command's
    /// bytes are selected; a package with neither the command nor an
    /// entrypoint fails with `MissingEntrypoint` after exiting the guest
    /// with the no-exec code; otherwise the host must compile the
    /// selected bytes.
    pub fn on_union(&mut self, ok: bool) -> (a: SpawnAction)
        requires
            old(self).phase@ is Unioning,
        ensures
            ({
                let package = old(self).phase@->Unioning_package;
                let name = old(self).phase@->Unioning_name;
                if !ok {
                    &&& final(self).phase@ is Done
                    &&& a@ == (SpawnActionView::Fail {
                        exit_with: None,
                        error: SpawnErrorView::FileSystemError,
                    })
                } else {
                    match spec_select_wasm(package, name) {
                        Some(wasm) => {
                            &&& final(self).phase@ is Compiling
                            &&& a@ == (SpawnActionView::Compile { wasm })
                        },
                        None => {
                            &&& final(self).phase@ is Done
                            &&& a@ == (SpawnActionView::Fail {
                                exit_with: Some(Errno::Noexec),
                                error: SpawnErrorView::MissingEntrypoint {
                                    package_id: package.id,
                                },
                            })
                        },
                    }
                }
            }),
    {
        let mut phase = SpawnPhase::Done;
        core::mem::swap(&mut phase, &mut self.phase);
        match phase {
            SpawnPhase::Unioning { package, name } => {
                if !ok {
                    SpawnAction::Fail { exit_with: None, error: SpawnError::FileSystemError }
                } else {
                    match spawn_load_wasm(&package, name.as_slice()) {
                        Ok(wasm) => {
                            let wasm = bytes::clone_bytes(wasm);
                            self.phase = SpawnPhase::Compiling;
                            SpawnAction::Compile { wasm }
                        },
                        Err(e) => {
                            SpawnAction::Fail { exit_with: Some(Errno::Noexec), error: e }
                        },
                    }
                }
            },
            _ => SpawnAction::Complete,
        }
    }

    /// Compilation finished.  Failure exits the guest with the no-exec
    /// code and fails the spawn with `ModuleCompile`; success submits
    /// the pinned task.
    pub fn on_compiled(&mut self, module: Option<CompiledModule>) -> (a: SpawnAction)
        requires
            old(self).phase@ is Compiling,
        ensures
            match module {
                Some(m) => {
                    &&& final(self).phase@ is Submitting
                    &&& a@ == (SpawnActionView::Submit { module: m })
                },
                None => {
                    &&& final(self).phase@ is Done
                    &&& a@ == (SpawnActionView::Fail {
                        exit_with: Some(Errno::Noexec),
                        error: SpawnErrorView::ModuleCompile,
                    })
                },
            },
    {
        match module {
            Some(m) => {
                self.phase = SpawnPhase::Submitting;
                SpawnAction::Submit { module: m }
            },
            None => {
                self.phase = SpawnPhase::Done;
                SpawnAction::Fail { exit_with: Some(Errno::Noexec), error: SpawnError::ModuleCompile }
            },
        }
    }

    /// Task submission finished.  Failure fails the spawn with the
    /// unknown error; success completes it: the caller holds the join
    /// handle.
    pub fn on_submitted(&mut self, ok: bool) -> (a: SpawnAction)
        requires
            old(self).phase@ is Submitting,
        ensures
            final(self).phase@ is Done,
            if ok {
                a@ == SpawnActionView::Complete
            } else {
                a@ == (SpawnActionView::Fail {
                    exit_with: None,
                    error: SpawnErrorView::UnknownError,
                })
            },
    {
        self.phase = SpawnPhase::Done;
        if ok {
            SpawnAction::Complete
        } else {
            SpawnAction::Fail { exit_with: None, error: SpawnError::UnknownError }
        }
    }
}

} // verus!
