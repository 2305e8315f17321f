//! The document model: a `Package` of `Scene`s, each scene holding parallel
//! `Position` / `PositionInfo` lists and an ordered list of `Stage`s.

use vstd::prelude::*;
use crate::id::NanoID;

verus! {

/// Spatial offset applied to one position, in fixed-point units.
#[derive(Clone, Copy, PartialEq, Eq, Structural, Debug)]
pub struct Offset {
    pub x: i32,
    pub y: i32,
    pub z: i32,
    pub yaw: i32,
}

impl Offset {
    pub fn zero() -> (r: Offset)
        ensures
            r == (Offset { x: 0, y: 0, z: 0, yaw: 0 }),
    {
        Offset { x: 0, y: 0, z: 0, yaw: 0 }
    }
}

/// One actor slot of a scene: the canonical spatial record.
pub struct Position {
    pub race_key: String,
    pub event: String,
    pub offset: Offset,
}

/// Abstract value of a [`Position`].
#[verifier::ext_equal]
pub ghost struct PositionV {
    pub race_key: Seq<char>,
    pub event: Seq<char>,
    pub offset: Offset,
}

impl View for Position {
    type V = PositionV;

    open spec fn view(&self) -> PositionV {
        PositionV { race_key: self.race_key@, event: self.event@, offset: self.offset }
    }
}

impl Clone for Position {
    fn clone(&self) -> (r: Position)
        ensures
            r@ == self@,
    {
        Position {
            race_key: self.race_key.clone(),
            event: self.event.clone(),
            offset: self.offset,
        }
    }
}

impl Position {
    /// A freshly constructed, empty actor slot.
    pub fn blank() -> (r: Position)
        ensures
            r@ == blank_position(),
    {
        Position { race_key: String::new(), event: String::new(), offset: Offset::zero() }
    }
}

/// The value of a freshly constructed [`Position`].
pub open spec fn blank_position() -> PositionV {
    PositionV {
        race_key: Seq::<char>::empty(),
        event: Seq::<char>::empty(),
        offset: Offset { x: 0, y: 0, z: 0, yaw: 0 },
    }
}

/// Editor-facing metadata for one position, kept in a sibling list that is
/// co-indexed with the scene's position list.
pub struct PositionInfo {
    pub display_name: String,
    pub annotation: String,
}

/// Abstract value of a [`PositionInfo`].
#[verifier::ext_equal]
pub ghost struct PositionInfoV {
    pub display_name: Seq<char>,
    pub annotation: Seq<char>,
}

impl View for PositionInfo {
    type V = PositionInfoV;

    open spec fn view(&self) -> PositionInfoV {
        PositionInfoV { display_name: self.display_name@, annotation: self.annotation@ }
    }
}

impl Clone for PositionInfo {
    fn clone(&self) -> (r: PositionInfo)
        ensures
            r@ == self@,
    {
        PositionInfo {
            display_name: self.display_name.clone(),
            annotation: self.annotation.clone(),
        }
    }
}

impl PositionInfo {
    /// Freshly constructed, empty metadata.
    pub fn blank() -> (r: PositionInfo)
        ensures
            r@ == blank_info(),
    {
        PositionInfo { display_name: String::new(), annotation: String::new() }
    }
}

/// The value of a freshly constructed [`PositionInfo`].
pub open spec fn blank_info() -> PositionInfoV {
    PositionInfoV { display_name: Seq::<char>::empty(), annotation: Seq::<char>::empty() }
}

/// One editable step of a scene, edited in its own satellite window and
/// merged back into the scene's stage list on save.
pub struct Stage {
    pub id: NanoID,
    pub name: String,
    pub positions: Vec<Position>,
}

/// Abstract value of a [`Stage`].
#[verifier::ext_equal]
pub ghost struct StageV {
    pub id: Seq<char>,
    pub name: Seq<char>,
    pub positions: Seq<PositionV>,
}

impl View for Stage {
    type V = StageV;

    open spec fn view(&self) -> StageV {
        StageV { id: self.id@, name: self.name@, positions: position_views(self.positions@) }
    }
}

impl Clone for Stage {
    fn clone(&self) -> (r: Stage)
        ensures
            r@ == self@,
    {
        Stage {
            id: self.id.clone(),
            name: self.name.clone(),
            positions: clone_positions(&self.positions),
        }
    }
}

impl Stage {
    /// A fresh stage derived from a scene: it starts from the scene's current
    /// position set and an empty display name.
    pub fn from_scene(id: NanoID, scene: &Scene) -> (r: Stage)
        ensures
            r@ == (StageV {
                id: id@,
                name: Seq::<char>::empty(),
                positions: scene@.positions,
            }),
    {
        Stage { id, name: String::new(), positions: clone_positions(&scene.positions) }
    }
}

/// A named unit of content: parallel position/metadata lists plus an ordered
/// list of stages.
pub struct Scene {
    pub id: NanoID,
    pub name: String,
    pub positions: Vec<Position>,
    pub position_infos: Vec<PositionInfo>,
    pub stages: Vec<Stage>,
}

/// Abstract value of a [`Scene`].
#[verifier::ext_equal]
pub ghost struct SceneV {
    pub id: Seq<char>,
    pub name: Seq<char>,
    pub positions: Seq<PositionV>,
    pub position_infos: Seq<PositionInfoV>,
    pub stages: Seq<StageV>,
}

impl View for Scene {
    type V = SceneV;

    open spec fn view(&self) -> SceneV {
        SceneV {
            id: self.id@,
            name: self.name@,
            positions: position_views(self.positions@),
            position_infos: info_views(self.position_infos@),
            stages: stage_views(self.stages@),
        }
    }
}

impl Clone for Scene {
    fn clone(&self) -> (r: Scene)
        ensures
            r@ == self@,
    {
        Scene {
            id: self.id.clone(),
            name: self.name.clone(),
            positions: clone_positions(&self.positions),
            position_infos: clone_infos(&self.position_infos),
            stages: clone_stages(&self.stages),
        }
    }
}

impl SceneV {
    /// Scene well-formedness: the position and metadata lists are co-indexed
    /// (always the same length), and stage identifiers are unique.
    pub open spec fn wf(self) -> bool {
        &&& self.positions.len() == self.position_infos.len()
        &&& stage_ids_unique(self.stages)
    }
}

/// The project root: a display name (empty means "untitled") and an ordered
/// list of scenes.
pub struct Package {
    pub pack_name: String,
    pub scenes: Vec<Scene>,
}

/// Abstract value of a [`Package`].
#[verifier::ext_equal]
pub ghost struct PackageV {
    pub pack_name: Seq<char>,
    pub scenes: Seq<SceneV>,
}

impl View for Package {
    type V = PackageV;

    open spec fn view(&self) -> PackageV {
        PackageV { pack_name: self.pack_name@, scenes: scene_views(self.scenes@) }
    }
}

impl PackageV {
    /// Package well-formedness: scene identifiers are unique and every scene
    /// is itself well-formed.
    pub open spec fn wf(self) -> bool {
        &&& scene_ids_unique(self.scenes)
        &&& forall|i: int| 0 <= i < self.scenes.len() ==> (#[trigger] self.scenes[i]).wf()
    }
}

/// The views of a position list.
pub open spec fn position_views(s: Seq<Position>) -> Seq<PositionV> {
    s.map_values(|p: Position| p@)
}

/// The views of a metadata list.
pub open spec fn info_views(s: Seq<PositionInfo>) -> Seq<PositionInfoV> {
    s.map_values(|p: PositionInfo| p@)
}

/// The views of a stage list.
pub open spec fn stage_views(s: Seq<Stage>) -> Seq<StageV> {
    s.map_values(|st: Stage| st@)
}

/// The views of a scene list.
pub open spec fn scene_views(s: Seq<Scene>) -> Seq<SceneV> {
    s.map_values(|sc: Scene| sc@)
}

/// No two stages share an identifier.
pub open spec fn stage_ids_unique(st: Seq<StageV>) -> bool {
    forall|i: int, j: int| 0 <= i < j < st.len() ==> st[i].id != st[j].id
}

/// No two scenes share an identifier.
pub open spec fn scene_ids_unique(s: Seq<SceneV>) -> bool {
    forall|i: int, j: int| 0 <= i < j < s.len() ==> s[i].id != s[j].id
}

/// Some scene in `s` carries the identifier `id`.
pub open spec fn has_scene(s: Seq<SceneV>, id: Seq<char>) -> bool {
    exists|i: int| 0 <= i < s.len() && s[i].id == id
}

/// The index of the scene carrying `id` (meaningful only when `has_scene`).
pub open spec fn scene_index(s: Seq<SceneV>, id: Seq<char>) -> int {
    choose|i: int| 0 <= i < s.len() && s[i].id == id
}

/// Some stage in `st` carries the identifier `id`.
pub open spec fn has_stage(st: Seq<StageV>, id: Seq<char>) -> bool {
    exists|i: int| 0 <= i < st.len() && st[i].id == id
}

/// The index of the stage carrying `id` (meaningful only when `has_stage`).
pub open spec fn stage_index(st: Seq<StageV>, id: Seq<char>) -> int {
    choose|i: int| 0 <= i < st.len() && st[i].id == id
}

/// Insert-or-replace of a scene by identifier: replacement keeps the sequence
/// position, insertion appends.
pub open spec fn upsert_scene_seq(s: Seq<SceneV>, x: SceneV) -> Seq<SceneV> {
    if has_scene(s, x.id) {
        s.update(scene_index(s, x.id), x)
    } else {
        s.push(x)
    }
}

/// Insert-or-replace of a stage by identifier: replacement keeps the sequence
/// position, insertion appends.
pub open spec fn upsert_stage_seq(st: Seq<StageV>, x: StageV) -> Seq<StageV> {
    if has_stage(st, x.id) {
        st.update(stage_index(st, x.id), x)
    } else {
        st.push(x)
    }
}

/// Under unique scene identifiers, any matching index is the chosen one.
pub proof fn lemma_scene_index_unique(s: Seq<SceneV>, id: Seq<char>, i: int)
    requires
        scene_ids_unique(s),
        0 <= i < s.len(),
        s[i].id == id,
    ensures
        has_scene(s, id),
        scene_index(s, id) == i,
{
    assert(has_scene(s, id)) by {
        assert(0 <= i < s.len() && s[i].id == id);
    }
    let j = scene_index(s, id);
    assert(0 <= j < s.len() && s[j].id == id);
    if i < j {
        assert(s[i].id != s[j].id);
    } else if j < i {
        assert(s[j].id != s[i].id);
    }
}

/// Under unique stage identifiers, any matching index is the chosen one.
pub proof fn lemma_stage_index_unique(st: Seq<StageV>, id: Seq<char>, i: int)
    requires
        stage_ids_unique(st),
        0 <= i < st.len(),
        st[i].id == id,
    ensures
        has_stage(st, id),
        stage_index(st, id) == i,
{
    assert(has_stage(st, id)) by {
        assert(0 <= i < st.len() && st[i].id == id);
    }
    let j = stage_index(st, id);
    assert(0 <= j < st.len() && st[j].id == id);
    if i < j {
        assert(st[i].id != st[j].id);
    } else if j < i {
        assert(st[j].id != st[i].id);
    }
}

/// Copies a position list; the copy has the same abstract value.
pub fn clone_positions(v: &Vec<Position>) -> (r: Vec<Position>)
    ensures
        position_views(r@) == position_views(v@),
{
    let mut r: Vec<Position> = Vec::new();
    let n = v.len();
    let mut k: usize = 0;
    while k < n
        invariant
            k <= n,
            n == v@.len(),
            r@.len() == k,
            forall|j: int| 0 <= j < k ==> (#[trigger] r@[j])@ == v@[j]@,
        decreases n - k,
    {
        r.push(v[k].clone());
        k += 1;
    }
    proof {
        assert(position_views(r@) =~= position_views(v@));
    }
    r
}

/// Copies a metadata list; the copy has the same abstract value.
pub fn clone_infos(v: &Vec<PositionInfo>) -> (r: Vec<PositionInfo>)
    ensures
        info_views(r@) == info_views(v@),
{
    let mut r: Vec<PositionInfo> = Vec::new();
    let n = v.len();
    let mut k: usize = 0;
    while k < n
        invariant
            k <= n,
            n == v@.len(),
            r@.len() == k,
            forall|j: int| 0 <= j < k ==> (#[trigger] r@[j])@ == v@[j]@,
        decreases n - k,
    {
        r.push(v[k].clone());
        k += 1;
    }
    proof {
        assert(info_views(r@) =~= info_views(v@));
    }
    r
}

/// Copies a stage list; the copy has the same abstract value.
pub fn clone_stages(v: &Vec<Stage>) -> (r: Vec<Stage>)
    ensures
        stage_views(r@) == stage_views(v@),
{
    let mut r: Vec<Stage> = Vec::new();
    let n = v.len();
    let mut k: usize = 0;
    while k < n
        invariant
            k <= n,
            n == v@.len(),
            r@.len() == k,
            forall|j: int| 0 <= j < k ==> (#[trigger] r@[j])@ == v@[j]@,
        decreases n - k,
    {
        r.push(v[k].clone());
        k += 1;
    }
    proof {
        assert(stage_views(r@) =~= stage_views(v@));
    }
    r
}

/// Copies a scene list; the copy has the same abstract value.
pub fn clone_scenes(v: &Vec<Scene>) -> (r: Vec<Scene>)
    ensures
        scene_views(r@) == scene_views(v@),
{
    let mut r: Vec<Scene> = Vec::new();
    let n = v.len();
    let mut k: usize = 0;
    while k < n
        invariant
            k <= n,
            n == v@.len(),
            r@.len() == k,
            forall|j: int| 0 <= j < k ==> (#[trigger] r@[j])@ == v@[j]@,
        decreases n - k,
    {
        r.push(v[k].clone());
        k += 1;
    }
    proof {
        assert(scene_views(r@) =~= scene_views(v@));
    }
    r
}

/// The first index of `scenes` whose scene carries `id`, if any.
pub fn find_scene_index(scenes: &Vec<Scene>, id: &NanoID) -> (r: Option<usize>)
    ensures
        match r {
            Option::Some(i) => i < scenes@.len() && scene_views(scenes@)[i as int].id == id@,
            Option::None => !has_scene(scene_views(scenes@), id@),
        },
{
    let n = scenes.len();
    let mut k: usize = 0;
    while k < n
        invariant
            k <= n,
            n == scenes@.len(),
            forall|j: int| 0 <= j < k ==> scene_views(scenes@)[j].id != id@,
        decreases n - k,
    {
        if scenes[k].id.eq_id(id) {
            return Option::Some(k);
        }
        k += 1;
    }
    proof {
        assert(!has_scene(scene_views(scenes@), id@));
    }
    Option::None
}

/// The first index of `stages` whose stage carries `id`, if any.
pub fn find_stage_index(stages: &Vec<Stage>, id: &NanoID) -> (r: Option<usize>)
    ensures
        match r {
            Option::Some(i) => i < stages@.len() && stage_views(stages@)[i as int].id == id@,
            Option::None => !has_stage(stage_views(stages@), id@),
        },
{
    let n = stages.len();
    let mut k: usize = 0;
    while k < n
        invariant
            k <= n,
            n == stages@.len(),
            forall|j: int| 0 <= j < k ==> stage_views(stages@)[j].id != id@,
        decreases n - k,
    {
        if stages[k].id.eq_id(id) {
            return Option::Some(k);
        }
        k += 1;
    }
    proof {
        assert(!has_stage(stage_views(stages@), id@));
    }
    Option::None
}

impl Scene {
    /// A blank scene under the given identifier: no positions, no metadata,
    /// no stages, empty display name.
    pub fn blank(id: NanoID) -> (r: Scene)
        ensures
            r@ == (SceneV {
                id: id@,
                name: Seq::<char>::empty(),
                positions: Seq::<PositionV>::empty(),
                position_infos: Seq::<PositionInfoV>::empty(),
                stages: Seq::<StageV>::empty(),
            }),
            r@.wf(),
    {
        let r = Scene {
            id,
            name: String::new(),
            positions: Vec::new(),
            position_infos: Vec::new(),
            stages: Vec::new(),
        };
        proof {
            assert(position_views(r.positions@) =~= Seq::<PositionV>::empty());
            assert(info_views(r.position_infos@) =~= Seq::<PositionInfoV>::empty());
            assert(stage_views(r.stages@) =~= Seq::<StageV>::empty());
        }
        r
    }

    /// Insert-or-replace of `stage` in this scene's stage list, by
    /// identifier: a matching stage is replaced in place, a new one is
    /// appended.
    pub fn save_stage(&mut self, stage: Stage)
        requires
            old(self)@.wf(),
        ensures
            final(self)@.id == old(self)@.id,
            final(self)@.name == old(self)@.name,
            final(self)@.positions == old(self)@.positions,
            final(self)@.position_infos == old(self)@.position_infos,
            final(self)@.stages == upsert_stage_seq(old(self)@.stages, stage@),
            final(self)@.wf(),
    {
        let ghost old_views = stage_views(old(self).stages@);
        match find_stage_index(&self.stages, &stage.id) {
            Option::Some(i) => {
                proof {
                    lemma_stage_index_unique(old_views, stage@.id, i as int);
                }
                self.stages.set(i, stage);
                proof {
                    assert(stage_views(self.stages@) =~= old_views.update(
                        stage_index(old_views, stage@.id),
                        stage@,
                    ));
                    assert(stage_ids_unique(stage_views(self.stages@)));
                }
            },
            Option::None => {
                self.stages.push(stage);
                proof {
                    assert(stage_views(self.stages@) =~= old_views.push(stage@));
                    assert(stage_ids_unique(stage_views(self.stages@)));
                }
            },
        }
    }
}

impl Package {
    /// A fresh, empty, untitled package.
    pub fn empty() -> (r: Package)
        ensures
            r@.pack_name.len() == 0,
            r@.scenes.len() == 0,
            r@.wf(),
    {
        let r = Package { pack_name: String::new(), scenes: Vec::new() };
        proof {
            assert(scene_views(r.scenes@) =~= Seq::<SceneV>::empty());
        }
        r
    }

    /// Replaces this package with a fresh empty one, unconditionally.
    pub fn reset(&mut self)
        ensures
            final(self)@.pack_name.len() == 0,
            final(self)@.scenes.len() == 0,
            final(self)@.wf(),
    {
        *self = Package::empty();
    }

    /// Insert-or-replace of `scene` by identifier: replacement keeps the
    /// sequence position, insertion appends.
    pub fn save_scene(&mut self, scene: Scene)
        requires
            old(self)@.wf(),
            scene@.wf(),
        ensures
            final(self)@.pack_name == old(self)@.pack_name,
            final(self)@.scenes == upsert_scene_seq(old(self)@.scenes, scene@),
            final(self)@.wf(),
    {
        let ghost old_views = scene_views(old(self).scenes@);
        match find_scene_index(&self.scenes, &scene.id) {
            Option::Some(i) => {
                proof {
                    lemma_scene_index_unique(old_views, scene@.id, i as int);
                }
                self.scenes.set(i, scene);
                proof {
                    assert(scene_views(self.scenes@) =~= old_views.update(
                        scene_index(old_views, scene@.id),
                        scene@,
                    ));
                    assert(scene_ids_unique(scene_views(self.scenes@)));
                }
            },
            Option::None => {
                self.scenes.push(scene);
                proof {
                    assert(scene_views(self.scenes@) =~= old_views.push(scene@));
                    assert(scene_ids_unique(scene_views(self.scenes@)));
                }
            },
        }
    }

    /// Removes and returns the scene carrying `id`; `None` (and no change at
    /// all) when the identifier is unknown.
    pub fn discard_scene(&mut self, id: &NanoID) -> (r: Option<Scene>)
        requires
            old(self)@.wf(),
        ensures
            final(self)@.pack_name == old(self)@.pack_name,
            final(self)@.wf(),
            match r {
                Option::Some(sc) => {
                    &&& has_scene(old(self)@.scenes, id@)
                    &&& sc@ == old(self)@.scenes[scene_index(old(self)@.scenes, id@)]
                    &&& final(self)@.scenes == old(self)@.scenes.remove(
                        scene_index(old(self)@.scenes, id@),
                    )
                },
                Option::None => {
                    &&& !has_scene(old(self)@.scenes, id@)
                    &&& final(self)@ == old(self)@
                },
            },
    {
        let ghost old_views = scene_views(old(self).scenes@);
        match find_scene_index(&self.scenes, id) {
            Option::Some(i) => {
                proof {
                    lemma_scene_index_unique(old_views, id@, i as int);
                }
                let sc = self.scenes.remove(i);
                proof {
                    assert(scene_views(self.scenes@) =~= old_views.remove(i as int));
                    assert(scene_ids_unique(scene_views(self.scenes@)));
                }
                Option::Some(sc)
            },
            Option::None => Option::None,
        }
    }
}

} // verus!
