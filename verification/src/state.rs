//! The application context: the single package, the dirty and dark-mode
//! flags, the identifier counter, and the editor sessions, with the command
//! surface a front end drives.
//!
//! Every command that mutates the package sets the dirty flag; only a
//! successful save clears it.  Reading a source and writing a destination are
//! a front end's work: the commands here take the outcome of that work as a
//! plain value and perform the part that touches the document.

use vstd::prelude::*;
use crate::errors::{DocError, LoadError, SaveError};
use crate::id::{dec_seq, u64_dec_string, NanoID};
use crate::model::{
    blank_info, blank_position, clone_infos, clone_positions, clone_scenes, has_scene,
    info_views, position_views, scene_index, scene_views, upsert_scene_seq, upsert_stage_seq,
    Package, Position, PositionInfo, Scene, SceneV, Stage, StageV,
};
use crate::orchestrator::{
    has_session, session_views, EditorPayload, OpenOutcome, Orchestrator, PayloadV, SessionV,
};

verus! {

/// A freshly constructed position/metadata pair, handed out together so the
/// two sibling lists can only grow in step.
pub struct PositionPayload {
    pub position: Position,
    pub info: PositionInfo,
}

/// Returns a freshly constructed position together with its metadata record
/// (not yet attached to any scene).
pub fn make_position() -> (r: PositionPayload)
    ensures
        r.position@ == blank_position(),
        r.info@ == blank_info(),
{
    PositionPayload { position: Position::blank(), info: PositionInfo::blank() }
}

/// The stage a fresh editor window starts from when no existing stage is
/// handed to it: the scene's current position set under a new identifier.
pub open spec fn fresh_stage_of(scene: SceneV, id: Seq<char>) -> StageV {
    StageV { id, name: Seq::<char>::empty(), positions: scene.positions }
}

/// The payload handed to a stage editor for `stage` of `scene`.
pub open spec fn payload_of(scene: SceneV, stage: StageV) -> PayloadV {
    PayloadV {
        scene: scene.id,
        stage,
        positions: scene.positions,
        infos: scene.position_infos,
    }
}

/// The process-wide application context: the one package, the two flags, the
/// identifier counter and the live editor sessions.
pub struct AppState {
    pub package: Package,
    pub edited: bool,
    pub darkmode: bool,
    pub next_id: u64,
    pub editors: Orchestrator,
}

impl AppState {
    /// Context invariant: the package is well-formed and editor sessions have
    /// unique keys.
    pub open spec fn inv(self) -> bool {
        &&& self.package@.wf()
        &&& self.editors.inv()
    }

    /// A fresh context: empty untitled package, both flags clear, no editor
    /// sessions.
    pub fn new() -> (r: AppState)
        ensures
            r.package@.pack_name.len() == 0,
            r.package@.scenes.len() == 0,
            !r.edited,
            !r.darkmode,
            r.next_id == 0,
            session_views(r.editors.sessions@).len() == 0,
            r.inv(),
    {
        AppState {
            package: Package::empty(),
            edited: false,
            darkmode: false,
            next_id: 0,
            editors: Orchestrator::new(),
        }
    }

    /// Writes the dirty flag.
    pub fn set_edited(&mut self, val: bool)
        ensures
            final(self).edited == val,
            final(self).package == old(self).package,
            final(self).darkmode == old(self).darkmode,
            final(self).next_id == old(self).next_id,
            final(self).editors == old(self).editors,
    {
        self.edited = val;
    }

    /// Reads the dirty flag.
    pub fn get_edited(&self) -> (b: bool)
        ensures
            b == self.edited,
    {
        self.edited
    }

    /// Writes the dark-mode preference.
    pub fn set_darkmode(&mut self, val: bool)
        ensures
            final(self).darkmode == val,
            final(self).package == old(self).package,
            final(self).edited == old(self).edited,
            final(self).next_id == old(self).next_id,
            final(self).editors == old(self).editors,
    {
        self.darkmode = val;
    }

    /// Reads the dark-mode preference.
    pub fn get_darkmode(&self) -> (b: bool)
        ensures
            b == self.darkmode,
    {
        self.darkmode
    }

    /// Reads the dark-mode preference (the command-surface name).
    pub fn get_in_darkmode(&self) -> (b: bool)
        ensures
            b == self.darkmode,
    {
        self.get_darkmode()
    }

    /// Flips the dark-mode preference and returns the new value, to be
    /// broadcast to the UI.
    pub fn toggle_darkmode(&mut self) -> (now: bool)
        ensures
            final(self).darkmode == !old(self).darkmode,
            now == final(self).darkmode,
            final(self).package == old(self).package,
            final(self).edited == old(self).edited,
            final(self).next_id == old(self).next_id,
            final(self).editors == old(self).editors,
    {
        self.darkmode = !self.darkmode;
        self.darkmode
    }

    /// Marks the document as having unsaved changes (used when the UI detects
    /// its own local edits).
    pub fn mark_as_edited(&mut self)
        ensures
            final(self).edited,
            final(self).package == old(self).package,
            final(self).darkmode == old(self).darkmode,
            final(self).next_id == old(self).next_id,
            final(self).editors == old(self).editors,
    {
        self.edited = true;
    }

    /// Hands out a never-before-seen identifier: the decimal rendering of a
    /// strictly increasing counter.
    pub fn fresh_id(&mut self) -> (r: NanoID)
        requires
            old(self).next_id < u64::MAX,
        ensures
            r@ == dec_seq(old(self).next_id as nat),
            final(self).next_id == old(self).next_id + 1,
            final(self).package == old(self).package,
            final(self).edited == old(self).edited,
            final(self).darkmode == old(self).darkmode,
            final(self).editors == old(self).editors,
    {
        let token = u64_dec_string(self.next_id);
        self.next_id = self.next_id + 1;
        NanoID::new(token)
    }

    /// Returns a new blank scene under a fresh identifier.  The scene is not
    /// committed to the package and the dirty flag is untouched: nothing
    /// changes until the scene is saved.
    pub fn create_blank_scene(&mut self) -> (s: Scene)
        requires
            old(self).next_id < u64::MAX,
        ensures
            s@ == (SceneV {
                id: dec_seq(old(self).next_id as nat),
                name: Seq::<char>::empty(),
                positions: Seq::empty(),
                position_infos: Seq::empty(),
                stages: Seq::empty(),
            }),
            s@.wf(),
            final(self).next_id == old(self).next_id + 1,
            final(self).package == old(self).package,
            final(self).edited == old(self).edited,
            final(self).darkmode == old(self).darkmode,
            final(self).editors == old(self).editors,
    {
        let id = self.fresh_id();
        Scene::blank(id)
    }

    /// Inserts `scene` into the package or replaces the scene sharing its
    /// identifier (keeping its sequence position), and sets the dirty flag.
    pub fn save_scene(&mut self, scene: Scene)
        requires
            old(self).inv(),
            scene@.wf(),
        ensures
            final(self).inv(),
            final(self).package@.scenes == upsert_scene_seq(old(self).package@.scenes, scene@),
            final(self).package@.pack_name == old(self).package@.pack_name,
            final(self).edited,
            final(self).darkmode == old(self).darkmode,
            final(self).next_id == old(self).next_id,
            final(self).editors == old(self).editors,
    {
        self.edited = true;
        self.package.save_scene(scene);
    }

    /// Removes and returns the scene carrying `id`, setting the dirty flag.
    /// An unknown identifier yields `DocError::InvalidId` and leaves the
    /// whole context — scene list, dirty flag, everything — unchanged.
    pub fn delete_scene(&mut self, id: &NanoID) -> (r: Result<Scene, DocError>)
        requires
            old(self).inv(),
        ensures
            final(self).inv(),
            final(self).package@.pack_name == old(self).package@.pack_name,
            final(self).darkmode == old(self).darkmode,
            final(self).next_id == old(self).next_id,
            final(self).editors == old(self).editors,
            match r {
                Result::Ok(sc) => {
                    &&& has_scene(old(self).package@.scenes, id@)
                    &&& sc@ == old(self).package@.scenes[scene_index(
                        old(self).package@.scenes,
                        id@,
                    )]
                    &&& final(self).package@.scenes == old(self).package@.scenes.remove(
                        scene_index(old(self).package@.scenes, id@),
                    )
                    &&& final(self).edited
                },
                Result::Err(e) => {
                    &&& e == DocError::InvalidId
                    &&& !has_scene(old(self).package@.scenes, id@)
                    &&& final(self).package@ == old(self).package@
                    &&& final(self).edited == old(self).edited
                },
            },
    {
        match self.package.discard_scene(id) {
            Option::Some(sc) => {
                self.edited = true;
                Result::Ok(sc)
            },
            Option::None => Result::Err(DocError::InvalidId),
        }
    }

    /// "New Project": replaces the package with a fresh empty one and clears
    /// the dirty flag — a fresh project has, by definition, no unsaved
    /// changes.  Never fails.  Confirmation, when the dirty flag is set, is
    /// the caller's duty (see [`crate::gate`]): this function is
    /// unconditional.
    pub fn new_project(&mut self)
        requires
            old(self).inv(),
        ensures
            final(self).inv(),
            final(self).package@.pack_name.len() == 0,
            final(self).package@.scenes.len() == 0,
            !final(self).edited,
            final(self).darkmode == old(self).darkmode,
            final(self).next_id == old(self).next_id,
            final(self).editors == old(self).editors,
    {
        self.package.reset();
        self.edited = false;
    }

    /// "Open Project": commits the outcome of an external project read.  A
    /// loaded package replaces the current one wholesale; a read failure is
    /// passed through and the whole context, dirty flag included, is left
    /// untouched.  The dirty flag is never changed here: only a successful
    /// save clears it.
    pub fn apply_load(&mut self, loaded: Result<Package, LoadError>) -> (r: Result<(), LoadError>)
        requires
            old(self).inv(),
            match loaded {
                Result::Ok(p) => p@.wf(),
                Result::Err(_) => true,
            },
        ensures
            final(self).inv(),
            final(self).edited == old(self).edited,
            final(self).darkmode == old(self).darkmode,
            final(self).next_id == old(self).next_id,
            final(self).editors == old(self).editors,
            match loaded {
                Result::Ok(p) => final(self).package@ == p@ && r == Result::<(), LoadError>::Ok(
                    (),
                ),
                Result::Err(e) => final(self).package == old(self).package && r == Result::<
                    (),
                    LoadError,
                >::Err(e),
            },
    {
        match loaded {
            Result::Ok(p) => {
                self.package = p;
                Result::Ok(())
            },
            Result::Err(e) => Result::Err(e),
        }
    }

    /// "Save" / "Save As": commits the outcome of an external project write.
    /// A successful write clears the dirty flag; a failed one is passed
    /// through, never silently dropped, and leaves the flag as it was.  The
    /// package itself is untouched either way.
    pub fn apply_save(&mut self, outcome: Result<(), SaveError>) -> (r: Result<(), SaveError>)
        ensures
            final(self).package == old(self).package,
            final(self).darkmode == old(self).darkmode,
            final(self).next_id == old(self).next_id,
            final(self).editors == old(self).editors,
            match outcome {
                Result::Ok(_) => !final(self).edited && r == Result::<(), SaveError>::Ok(()),
                Result::Err(e) => final(self).edited == old(self).edited && r == Result::<
                    (),
                    SaveError,
                >::Err(e),
            },
    {
        match outcome {
            Result::Ok(_) => {
                self.edited = false;
                Result::Ok(())
            },
            Result::Err(e) => Result::Err(e),
        }
    }

    /// Names the package (after "Save As" chose a destination).
    pub fn set_pack_name(&mut self, name: String)
        requires
            old(self).inv(),
        ensures
            final(self).inv(),
            final(self).package@.pack_name == name@,
            final(self).package@.scenes == old(self).package@.scenes,
            final(self).edited == old(self).edited,
            final(self).darkmode == old(self).darkmode,
            final(self).next_id == old(self).next_id,
            final(self).editors == old(self).editors,
    {
        self.package.pack_name = name;
    }

    /// A full snapshot of the current scene list, for the document-changed
    /// broadcast: the UI always re-renders from a fresh copy, never from a
    /// reference into the live package.
    pub fn request_project_update(&self) -> (scenes: Vec<Scene>)
        ensures
            scene_views(scenes@) == self.package@.scenes,
    {
        clone_scenes(&self.package.scenes)
    }

    /// Registers an editor session for an already-built payload.  The
    /// document and the flags are untouched: window management is independent
    /// of the document store.
    pub fn open_stage_editor_impl(&mut self, payload: EditorPayload) -> (r: OpenOutcome)
        requires
            old(self).inv(),
        ensures
            final(self).inv(),
            final(self).package == old(self).package,
            final(self).edited == old(self).edited,
            final(self).darkmode == old(self).darkmode,
            final(self).next_id == old(self).next_id,
            r == OpenOutcome::Opened <==> !has_session(
                session_views(old(self).editors.sessions@),
                payload@.stage.id,
            ),
            r == OpenOutcome::Opened ==> session_views(final(self).editors.sessions@)
                == session_views(old(self).editors.sessions@).push(
                SessionV { payload: payload@, delivered: false },
            ),
            r == OpenOutcome::AlreadyOpen ==> final(self).editors.sessions@ == old(
                self,
            ).editors.sessions@,
    {
        self.editors.open_editor(payload)
    }

    /// Opens a stage editor for `active_scene`: for `stage` when one is
    /// handed in, else for a fresh stage synthesized from the scene under a
    /// new identifier.  The payload is registered undelivered; it is handed
    /// over only on the window's readiness signal.
    pub fn open_stage_editor(&mut self, active_scene: &Scene, stage: Option<Stage>) -> (r:
        OpenOutcome)
        requires
            old(self).inv(),
            old(self).next_id < u64::MAX,
        ensures
            final(self).inv(),
            final(self).package == old(self).package,
            final(self).edited == old(self).edited,
            final(self).darkmode == old(self).darkmode,
            ({
                let st = match stage {
                    Option::Some(s) => s@,
                    Option::None => fresh_stage_of(
                        active_scene@,
                        dec_seq(old(self).next_id as nat),
                    ),
                };
                &&& (r == OpenOutcome::Opened <==> !has_session(
                    session_views(old(self).editors.sessions@),
                    st.id,
                ))
                &&& (r == OpenOutcome::Opened ==> session_views(final(self).editors.sessions@)
                    == session_views(old(self).editors.sessions@).push(
                    SessionV { payload: payload_of(active_scene@, st), delivered: false },
                ))
                &&& (r == OpenOutcome::AlreadyOpen ==> final(self).editors.sessions@ == old(
                    self,
                ).editors.sessions@)
            }),
            match stage {
                Option::Some(_) => final(self).next_id == old(self).next_id,
                Option::None => final(self).next_id == old(self).next_id + 1,
            },
    {
        let st = match stage {
            Option::Some(s) => s,
            Option::None => {
                let id = self.fresh_id();
                Stage::from_scene(id, active_scene)
            },
        };
        let payload = EditorPayload {
            scene: active_scene.id.clone(),
            stage: st,
            positions: clone_positions(&active_scene.positions),
            infos: clone_infos(&active_scene.position_infos),
        };
        self.open_stage_editor_impl(payload)
    }

    /// Opens a stage editor seeded with a duplicate of `copy_stage`.
    pub fn open_stage_editor_from(&mut self, active_scene: &Scene, copy_stage: &Stage) -> (r:
        OpenOutcome)
        requires
            old(self).inv(),
        ensures
            final(self).inv(),
            final(self).package == old(self).package,
            final(self).edited == old(self).edited,
            final(self).darkmode == old(self).darkmode,
            final(self).next_id == old(self).next_id,
            r == OpenOutcome::Opened <==> !has_session(
                session_views(old(self).editors.sessions@),
                copy_stage@.id,
            ),
            r == OpenOutcome::Opened ==> session_views(final(self).editors.sessions@)
                == session_views(old(self).editors.sessions@).push(
                SessionV {
                    payload: payload_of(active_scene@, copy_stage@),
                    delivered: false,
                },
            ),
            r == OpenOutcome::AlreadyOpen ==> final(self).editors.sessions@ == old(
                self,
            ).editors.sessions@,
    {
        let payload = EditorPayload {
            scene: active_scene.id.clone(),
            stage: copy_stage.clone(),
            positions: clone_positions(&active_scene.positions),
            infos: clone_infos(&active_scene.position_infos),
        };
        self.open_stage_editor_impl(payload)
    }

    /// A satellite window saved: returns the payload to broadcast to the
    /// primary window and drops the calling window's session.  The document
    /// is untouched until the primary window applies the payload.
    pub fn stage_save_and_close(
        &mut self,
        scene: NanoID,
        positions: Vec<Position>,
        infos: Vec<PositionInfo>,
        stage: Stage,
    ) -> (r: EditorPayload)
        requires
            old(self).inv(),
            position_views(positions@).len() == info_views(infos@).len(),
        ensures
            final(self).inv(),
            final(self).package == old(self).package,
            final(self).edited == old(self).edited,
            final(self).darkmode == old(self).darkmode,
            final(self).next_id == old(self).next_id,
            r@ == (PayloadV {
                scene: scene@,
                stage: stage@,
                positions: position_views(positions@),
                infos: info_views(infos@),
            }),
            r@.wf(),
            !has_session(session_views(final(self).editors.sessions@), stage@.id),
    {
        let ghost old_views = session_views(old(self).editors.sessions@);
        let r = self.editors.stage_save_and_close(scene, positions, infos, stage);
        proof {
            if has_session(old_views, r@.stage.id) {
                let i = crate::orchestrator::session_index(old_views, r@.stage.id);
                let new_views = session_views(self.editors.sessions@);
                assert(new_views == old_views.remove(i));
                assert forall|j: int| 0 <= j < new_views.len() implies crate::orchestrator::session_key(
                    new_views[j],
                ) != r@.stage.id by {
                    if j < i {
                        assert(new_views[j] == old_views[j]);
                    } else {
                        assert(new_views[j] == old_views[j + 1]);
                    }
                }
            }
        }
        r
    }

    /// The primary window applies a saved stage: the stage is merged into its
    /// owning scene's stage list (replace in place by identifier, else
    /// append) and the dirty flag is set.  A payload naming an unknown scene
    /// yields `DocError::InvalidId` and changes nothing.
    pub fn apply_stage_save(&mut self, payload: EditorPayload) -> (r: Result<(), DocError>)
        requires
            old(self).inv(),
        ensures
            final(self).inv(),
            final(self).package@.pack_name == old(self).package@.pack_name,
            final(self).darkmode == old(self).darkmode,
            final(self).next_id == old(self).next_id,
            final(self).editors == old(self).editors,
            match r {
                Result::Ok(_) => {
                    &&& has_scene(old(self).package@.scenes, payload@.scene)
                    &&& ({
                        let i = scene_index(old(self).package@.scenes, payload@.scene);
                        let sc = old(self).package@.scenes[i];
                        final(self).package@.scenes == old(self).package@.scenes.update(
                            i,
                            SceneV {
                                id: sc.id,
                                name: sc.name,
                                positions: sc.positions,
                                position_infos: sc.position_infos,
                                stages: upsert_stage_seq(sc.stages, payload@.stage),
                            },
                        )
                    })
                    &&& final(self).edited
                },
                Result::Err(e) => {
                    &&& e == DocError::InvalidId
                    &&& !has_scene(old(self).package@.scenes, payload@.scene)
                    &&& final(self).package == old(self).package
                    &&& final(self).edited == old(self).edited
                },
            },
    {
        let ghost old_scenes = scene_views(old(self).package.scenes@);
        match crate::model::find_scene_index(&self.package.scenes, &payload.scene) {
            Option::Some(i) => {
                proof {
                    crate::model::lemma_scene_index_unique(old_scenes, payload@.scene, i as int);
                }
                let mut sc = self.package.scenes.remove(i);
                sc.save_stage(payload.stage);
                self.package.scenes.insert(i, sc);
                self.edited = true;
                proof {
                    let gi = scene_index(old_scenes, payload@.scene);
                    let target = old_scenes[gi];
                    assert(scene_views(self.package.scenes@) =~= old_scenes.update(
                        gi,
                        SceneV {
                            id: target.id,
                            name: target.name,
                            positions: target.positions,
                            position_infos: target.position_infos,
                            stages: upsert_stage_seq(target.stages, payload@.stage),
                        },
                    ));
                    assert(crate::model::scene_ids_unique(scene_views(self.package.scenes@)));
                    assert(self.package@.wf());
                }
                Result::Ok(())
            },
            Option::None => Result::Err(DocError::InvalidId),
        }
    }
}

} // verus!
