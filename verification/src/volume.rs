//! The state of a scene volume waiting to be turned into meshes, and the rule
//! that decides, after each attempt to build it, what happens next.

use vstd::prelude::*;

verus! {

/// Global switch of the engine integration.
pub struct ShapeZSettings {
    pub enabled: bool,
}

impl Default for ShapeZSettings {
    fn default() -> (settings: Self)
        ensures
            !settings.enabled,
    {
        ShapeZSettings { enabled: false }
    }
}

/// A scene file to be meshed, and whether its meshes have been spawned.
pub struct ShapeZVolume {
    pub path: String,
    pub spawned: bool,
}

/// What one attempt to build the volume's mesh came to.
#[derive(Clone, Copy, Debug, PartialEq, Eq, Structural)]
pub enum MeshBuild {
    /// The scene file could not be parsed.
    ParseFailed,
    /// The scene parsed but did not compile.
    CompileFailed,
    /// The scene ran and produced a mesh with this many vertices and indices.
    Built { vertex_count: usize, index_count: usize },
}

/// What to do after an attempt.
#[derive(Clone, Copy, Debug, PartialEq, Eq, Structural)]
pub enum SpawnAction {
    /// Nothing; the volume is either done or tried again later.
    Nothing,
    /// Report the parse error; the volume is tried again later.
    ReportParseError,
    /// Spawn one mesh per material of the built mesh.
    SpawnMeshes,
}

/// The rule: from whether the volume has spawned and what an attempt came to,
/// whether it has spawned afterwards and what to do.
pub open spec fn spawn_step(spawned: bool, build: MeshBuild) -> (bool, SpawnAction) {
    if spawned {
        (true, SpawnAction::Nothing)
    } else {
        match build {
            MeshBuild::ParseFailed => (false, SpawnAction::ReportParseError),
            MeshBuild::CompileFailed => (false, SpawnAction::Nothing),
            MeshBuild::Built { vertex_count, index_count } => {
                if vertex_count > 0 && index_count > 0 {
                    (true, SpawnAction::SpawnMeshes)
                } else {
                    (false, SpawnAction::Nothing)
                }
            },
        }
    }
}

impl ShapeZVolume {
    /// A volume for the scene file at `path`, not spawned yet.
    pub fn new(path: String) -> (volume: Self)
        ensures
            volume.path@ == path@,
            !volume.spawned,
    {
        ShapeZVolume { path, spawned: false }
    }

    /// Whether the volume still has to be built: it has not spawned its meshes.
    pub fn needs_build(&self) -> (needed: bool)
        ensures
            needed == !self.spawned,
    {
        !self.spawned
    }

    /// Applies the rule to an attempt's outcome and records whether the volume
    /// has now spawned.
    pub fn plan_spawn(&mut self, build: MeshBuild) -> (action: SpawnAction)
        ensures
            (final(self).spawned, action) == spawn_step(old(self).spawned, build),
            final(self).path == old(self).path,
            old(self).spawned ==> final(self).spawned && action == SpawnAction::Nothing,
            !old(self).spawned && build == MeshBuild::ParseFailed ==> !final(self).spawned && action
                == SpawnAction::ReportParseError,
            !old(self).spawned && build == MeshBuild::CompileFailed ==> !final(self).spawned && action
                == SpawnAction::Nothing,
            !old(self).spawned ==> (build matches MeshBuild::Built { vertex_count, index_count } ==> (
            if vertex_count > 0 && index_count > 0 {
                final(self).spawned && action == SpawnAction::SpawnMeshes
            } else {
                !final(self).spawned && action == SpawnAction::Nothing
            })),
    {
        if self.spawned {
            return SpawnAction::Nothing;
        }
        match build {
            MeshBuild::ParseFailed => SpawnAction::ReportParseError,
            MeshBuild::CompileFailed => SpawnAction::Nothing,
            MeshBuild::Built { vertex_count, index_count } => {
                if vertex_count > 0 && index_count > 0 {
                    self.spawned = true;
                    SpawnAction::SpawnMeshes
                } else {
                    SpawnAction::Nothing
                }
            },
        }
    }
}

/// Whether the volume has spawned after a run of attempts.
pub open spec fn spawned_after(spawned: bool, builds: Seq<MeshBuild>) -> bool
    decreases builds.len(),
{
    if builds.len() == 0 {
        spawned
    } else {
        spawn_step(spawned_after(spawned, builds.drop_last()), builds.last()).0
    }
}

/// How many times a run of attempts spawns meshes.
pub open spec fn spawn_count(spawned: bool, builds: Seq<MeshBuild>) -> nat
    decreases builds.len(),
{
    if builds.len() == 0 {
        0
    } else {
        spawn_count(spawned, builds.drop_last()) + if spawn_step(
            spawned_after(spawned, builds.drop_last()),
            builds.last(),
        ).1 == SpawnAction::SpawnMeshes {
            1nat
        } else {
            0nat
        }
    }
}

/// A volume spawns its meshes at most once, whatever its attempts come to, and
/// never again once it has spawned; once spawned it stays spawned, and it has
/// spawned exactly when some attempt spawned.
pub proof fn lemma_spawns_at_most_once(spawned: bool, builds: Seq<MeshBuild>)
    ensures
        spawn_count(spawned, builds) <= 1,
        spawned ==> spawn_count(spawned, builds) == 0,
        spawned ==> spawned_after(spawned, builds),
        spawned_after(spawned, builds) <==> (spawned || spawn_count(spawned, builds) == 1),
    decreases builds.len(),
{
    if builds.len() > 0 {
        lemma_spawns_at_most_once(spawned, builds.drop_last());
    }
}

/// An unspawned volume whose attempt built a mesh with at least one vertex and
/// one index spawns that mesh and is spawned afterwards, whatever the mesh's size.
pub proof fn lemma_nonempty_build_spawns(vertex_count: usize, index_count: usize)
    requires
        vertex_count > 0,
        index_count > 0,
    ensures
        spawn_step(false, MeshBuild::Built { vertex_count, index_count }) == (true, SpawnAction::SpawnMeshes),
{
}

/// An attempt that fails or yields an empty mesh leaves an unspawned volume to be
/// tried again.
pub proof fn lemma_failed_attempt_retries(build: MeshBuild)
    requires
        !(build matches MeshBuild::Built { vertex_count, index_count } && vertex_count > 0 && index_count
            > 0),
    ensures
        !spawn_step(false, build).0,
        spawn_step(false, build).1 != SpawnAction::SpawnMeshes,
{
}

} // verus!
