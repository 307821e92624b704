//! State of the model manager: the models loaded at runtime, the selection,
//! and the load and removal requests that the panel hands to the frame loop.
//!
//! Each model keeps its placement (position, rotation, scale) as an opaque
//! payload `X`; a pending load carries the chosen file as `P`.
use vstd::prelude::*;
use crate::scene::{in_group, Scene};

verus! {

/// A model that was loaded at runtime.
pub struct LoadedModel<X> {
    pub group_id: u32,
    pub filename: String,
    pub mesh_count: usize,
    /// Position, rotation and scale edited in the panel.
    pub placement: X,
}

/// Which overlay the viewport shows in the middle of the screen.
#[derive(Debug, Clone, Copy, PartialEq, Eq, Structural)]
pub enum Overlay {
    /// A model is being parsed and uploaded.
    Loading,
    /// Nothing is loaded yet: usage instructions.
    Welcome,
    /// No overlay.
    Hidden,
}

/// Persistent state of the model manager panel.
pub struct ModelManager<X, P> {
    /// Loaded model entries (one per file, which may hold several meshes).
    pub models: Vec<LoadedModel<X>>,
    /// File pending load (set by the file picker, consumed by the frame loop).
    pub pending_load: Option<P>,
    /// Group ids pending removal (consumed by the frame loop).
    pub pending_remove: Vec<u32>,
    /// True while a model is being parsed and uploaded.
    pub is_loading: bool,
    /// Name of the file being loaded (for display).
    pub loading_filename: String,
    /// The selected model's group id, if any.
    pub selected_group_id: Option<u32>,
}

/// Index of the first model of group `group_id` in `models`, if any.
pub open spec fn first_index_of_group<X>(models: Seq<LoadedModel<X>>, group_id: u32) -> Option<int> {
    if exists|i: int| 0 <= i < models.len() && models[i].group_id == group_id {
        Some(
            choose|i: int|
                0 <= i < models.len() && models[i].group_id == group_id && forall|j: int|
                    0 <= j < i ==> models[j].group_id != group_id,
        )
    } else {
        None
    }
}

impl<X, P> ModelManager<X, P> {
    pub fn new() -> (res: Self)
        ensures
            res.models@.len() == 0,
            res.pending_load is None,
            res.pending_remove@.len() == 0,
            !res.is_loading,
            res.loading_filename@.len() == 0,
            res.selected_group_id is None,
    {
        ModelManager {
            models: Vec::new(),
            pending_load: None,
            pending_remove: Vec::new(),
            is_loading: false,
            loading_filename: String::new(),
            selected_group_id: None,
        }
    }

    /// Register a freshly loaded model so that it appears in the panel.
    pub fn register_model(&mut self, group_id: u32, filename: &str, mesh_count: usize, placement: X)
        ensures
            final(self).models@.len() == old(self).models@.len() + 1,
            final(self).models@.take(old(self).models@.len() as int) == old(self).models@,
            final(self).models@.last().group_id == group_id,
            final(self).models@.last().filename@ == filename@,
            final(self).models@.last().mesh_count == mesh_count,
            final(self).models@.last().placement == placement,
            final(self).pending_remove == old(self).pending_remove,
            final(self).selected_group_id == old(self).selected_group_id,
            final(self).is_loading == old(self).is_loading,
            final(self).pending_load == old(self).pending_load,
            final(self).loading_filename == old(self).loading_filename,
    {
        let ghost before = self.models@;
        self.models.push(
            LoadedModel { group_id, filename: filename.to_owned(), mesh_count, placement },
        );
        proof {
            assert(self.models@.take(before.len() as int) =~= before);
        }
    }

    /// Whether the upload button may open the file picker (no load running).
    pub fn can_start_load(&self) -> (res: bool)
        ensures
            res == !self.is_loading,
    {
        !self.is_loading
    }

    /// The user picked `path` (named `filename`): queue it and show the
    /// loading indicator.
    pub fn begin_load(&mut self, path: P, filename: String)
        ensures
            final(self).pending_load == Some(path),
            final(self).is_loading,
            final(self).loading_filename == filename,
            final(self).models == old(self).models,
            final(self).pending_remove == old(self).pending_remove,
            final(self).selected_group_id == old(self).selected_group_id,
    {
        self.loading_filename = filename;
        self.is_loading = true;
        self.pending_load = Some(path);
    }

    /// Hand the queued file to the frame loop, leaving none queued.
    pub fn take_pending_load(&mut self) -> (res: Option<P>)
        ensures
            res == old(self).pending_load,
            final(self).pending_load is None,
            final(self).models == old(self).models,
            final(self).pending_remove == old(self).pending_remove,
            final(self).is_loading == old(self).is_loading,
            final(self).selected_group_id == old(self).selected_group_id,
            final(self).loading_filename == old(self).loading_filename,
    {
        self.pending_load.take()
    }

    /// The frame loop is done with the queued file (loaded or failed).
    pub fn finish_load(&mut self)
        ensures
            !final(self).is_loading,
            final(self).models == old(self).models,
            final(self).pending_load == old(self).pending_load,
            final(self).pending_remove == old(self).pending_remove,
            final(self).selected_group_id == old(self).selected_group_id,
            final(self).loading_filename == old(self).loading_filename,
    {
        self.is_loading = false;
    }

    /// The Remove button of the model at `index`: drop it from the list and
    /// queue its group for removal from the scene.
    pub fn remove_model(&mut self, index: usize)
        requires
            index < old(self).models@.len(),
        ensures
            final(self).models@ == old(self).models@.remove(index as int),
            final(self).pending_remove@ == old(self).pending_remove@.push(
                old(self).models@[index as int].group_id,
            ),
            final(self).selected_group_id == old(self).selected_group_id,
            final(self).pending_load == old(self).pending_load,
            final(self).is_loading == old(self).is_loading,
            final(self).loading_filename == old(self).loading_filename,
    {
        let group_id = self.models[index].group_id;
        self.pending_remove.push(group_id);
        self.models.remove(index);
    }

    /// Hand the queued removals to the frame loop, in the order queued.
    pub fn take_pending_removals(&mut self) -> (res: Vec<u32>)
        ensures
            res@ == old(self).pending_remove@,
            final(self).pending_remove@.len() == 0,
            final(self).models == old(self).models,
            final(self).pending_load == old(self).pending_load,
            final(self).is_loading == old(self).is_loading,
            final(self).selected_group_id == old(self).selected_group_id,
            final(self).loading_filename == old(self).loading_filename,
    {
        let mut out: Vec<u32> = Vec::new();
        std::mem::swap(&mut out, &mut self.pending_remove);
        out
    }

    /// Select the model of group `group_id` (header click or pick).
    pub fn select(&mut self, group_id: u32)
        ensures
            final(self).selected_group_id == Some(group_id),
            final(self).models == old(self).models,
            final(self).pending_remove == old(self).pending_remove,
            final(self).pending_load == old(self).pending_load,
            final(self).is_loading == old(self).is_loading,
            final(self).loading_filename == old(self).loading_filename,
    {
        self.selected_group_id = Some(group_id);
    }

    /// The Deselect button.
    pub fn deselect(&mut self)
        ensures
            final(self).selected_group_id is None,
            final(self).models == old(self).models,
            final(self).pending_remove == old(self).pending_remove,
            final(self).pending_load == old(self).pending_load,
            final(self).is_loading == old(self).is_loading,
            final(self).loading_filename == old(self).loading_filename,
    {
        self.selected_group_id = None;
    }

    /// Index of the first model of group `group_id`, if any.
    pub fn find_model(&self, group_id: u32) -> (res: Option<usize>)
        ensures
            match res {
                Some(i) => i < self.models@.len() && first_index_of_group(self.models@, group_id)
                    == Some(i as int),
                None => first_index_of_group(self.models@, group_id) is None,
            },
    {
        let mut i: usize = 0;
        while i < self.models.len()
            invariant
                i <= self.models@.len(),
                forall|j: int| 0 <= j < i ==> self.models@[j].group_id != group_id,
            decreases self.models@.len() - i,
        {
            if self.models[i].group_id == group_id {
                proof {
                    let w = choose|k: int|
                        0 <= k < self.models@.len() && self.models@[k].group_id == group_id
                            && forall|j: int| 0 <= j < k ==> self.models@[j].group_id != group_id;
                    assert(0 <= i < self.models@.len() && self.models@[i as int].group_id
                        == group_id && forall|j: int|
                        0 <= j < i ==> self.models@[j].group_id != group_id);
                    assert(w == i);
                }
                return Some(i);
            }
            i = i + 1;
        }
        None
    }

    /// Index of the selected model, if a model is selected and still listed.
    pub fn selected_model(&self) -> (res: Option<usize>)
        ensures
            match self.selected_group_id {
                Some(g) => match res {
                    Some(i) => i < self.models@.len() && first_index_of_group(self.models@, g)
                        == Some(i as int),
                    None => first_index_of_group(self.models@, g) is None,
                },
                None => res is None,
            },
    {
        match self.selected_group_id {
            Some(g) => self.find_model(g),
            None => None,
        }
    }

    /// Whether the model at `index` is the selected one.
    pub fn is_selected(&self, index: usize) -> (res: bool)
        requires
            index < self.models@.len(),
        ensures
            res == (self.selected_group_id == Some(self.models@[index as int].group_id)),
    {
        match self.selected_group_id {
            Some(g) => g == self.models[index].group_id,
            None => false,
        }
    }

    /// The overlay to show: the loading indicator while loading, otherwise
    /// the welcome screen until a model is loaded.
    pub fn overlay(&self) -> (res: Overlay)
        ensures
            res == (if self.is_loading {
                Overlay::Loading
            } else if self.models@.len() == 0 {
                Overlay::Welcome
            } else {
                Overlay::Hidden
            }),
    {
        if self.is_loading {
            Overlay::Loading
        } else if self.models.len() == 0 {
            Overlay::Welcome
        } else {
            Overlay::Hidden
        }
    }
}

/// A model file finished loading into `meshes`: add them to the scene as one
/// new group, each with a clone of `transform`, and list the model in the
/// panel under that group with the given placement. Returns the group id.
pub fn add_loaded_model<M, T: Clone, X, P>(
    scene: &mut Scene<M, T>,
    manager: &mut ModelManager<X, P>,
    meshes: Vec<M>,
    transform: T,
    filename: &str,
    placement: X,
) -> (res: u32)
    requires
        old(scene).next_group() < u32::MAX,
    ensures
        res == old(scene).next_group(),
        final(scene).next_group() == old(scene).next_group() + 1,
        final(scene)@.len() == old(scene)@.len() + meshes@.len(),
        final(scene)@.take(old(scene)@.len() as int) == old(scene)@,
        forall|k: int|
            0 <= k < meshes@.len() ==> {
                let inst = #[trigger] final(scene)@[old(scene)@.len() + k];
                &&& inst.mesh == meshes@[k]
                &&& cloned(transform, inst.transform)
                &&& inst.material_index == 0
            },
        forall|k: int|
            old(scene)@.len() <= k < final(scene)@.len() ==> in_group(#[trigger] final(scene)@[k], res),
        old(scene).wf() ==> final(scene).wf(),
        final(manager).models@.len() == old(manager).models@.len() + 1,
        final(manager).models@.take(old(manager).models@.len() as int) == old(manager).models@,
        final(manager).models@.last().group_id == res,
        final(manager).models@.last().filename@ == filename@,
        final(manager).models@.last().mesh_count == meshes@.len(),
        final(manager).models@.last().placement == placement,
        final(manager).pending_remove == old(manager).pending_remove,
        final(manager).selected_group_id == old(manager).selected_group_id,
        final(manager).is_loading == old(manager).is_loading,
        final(manager).pending_load == old(manager).pending_load,
        final(manager).loading_filename == old(manager).loading_filename,
{
    let mesh_count = meshes.len();
    let group_id = scene.add_user_model(meshes, transform, filename);
    manager.register_model(group_id, filename, mesh_count, placement);
    group_id
}

} // verus!
