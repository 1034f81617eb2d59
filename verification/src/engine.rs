//! The promotion engine: the sweep that turns wind-eligible objects into
//! wind-affected ones, the registry of derived materials created so far, and
//! the per-frame broadcast that pushes the current wind parameters into every
//! derived material.
//!
//! The host scheduler invokes, once per frame and in this order: the
//! promotion sweep over objects tagged eligible-but-unpromoted, then the
//! broadcast update over the derived-material store.  `WindPlugin::run_frame`
//! performs exactly that sequence.

use core::marker::PhantomData;
use vstd::prelude::*;
use crate::material::WindAffectable;
use crate::texture::WindTexture;
use crate::wind::{spec_encode, Wind};

verus! {

/// A plain id referencing a mesh held by the host's asset storage.
#[derive(Clone, Copy, Debug, PartialEq, Eq, Structural)]
pub struct MeshHandle(pub usize);

/// A plain id referencing a material held in a `MaterialAssets` store.
#[derive(Clone, Copy, Debug, PartialEq, Eq, Structural)]
pub struct MaterialHandle(pub usize);

/// A store of materials of one kind, addressed by the `MaterialHandle` that
/// `add` returned; handles stay valid because materials are never removed.
pub struct MaterialAssets<T> {
    pub vec: Vec<T>,
}

impl<T> MaterialAssets<T> {
    /// An empty store.
    pub fn new() -> (r: MaterialAssets<T>)
        ensures
            r.vec@ == Seq::<T>::empty(),
    {
        MaterialAssets { vec: Vec::new() }
    }

    /// Adds a material and returns its handle.
    pub fn add(&mut self, item: T) -> (h: MaterialHandle)
        ensures
            final(self).vec@ == old(self).vec@.push(item),
            h.0 == old(self).vec@.len(),
    {
        let h = MaterialHandle(self.vec.len());
        self.vec.push(item);
        h
    }

    /// Reads the material a handle refers to.
    pub fn get(&self, h: MaterialHandle) -> (r: &T)
        requires
            h.0 < self.vec@.len(),
        ensures
            *r == self.vec@[h.0 as int],
    {
        &self.vec[h.0]
    }

    /// The number of materials stored.
    pub fn len(&self) -> (n: usize)
        ensures
            n == self.vec@.len(),
    {
        self.vec.len()
    }
}

impl<T> Default for MaterialAssets<T> {
    /// An empty store.
    fn default() -> (r: MaterialAssets<T>)
        ensures
            r.vec@ == Seq::<T>::empty(),
    {
        MaterialAssets::new()
    }
}

/// Which material an object is rendered with: its original base material, or
/// the derived wind-affected material that promotion attached.
#[derive(Clone, Copy, Debug, PartialEq, Eq, Structural)]
pub enum MaterialBinding {
    Base(MaterialHandle),
    Extended(MaterialHandle),
}

/// Whether the binding still points at a base material.
pub open spec fn spec_is_base(b: MaterialBinding) -> bool {
    b is Base
}

/// Whether the binding points at a derived wind-affected material.
pub open spec fn spec_is_extended(b: MaterialBinding) -> bool {
    b is Extended
}

/// The handle inside a binding, whichever store it points into.
pub open spec fn spec_binding_handle(b: MaterialBinding) -> MaterialHandle {
    match b {
        MaterialBinding::Base(h) => h,
        MaterialBinding::Extended(h) => h,
    }
}

/// A renderable object as the engine sees it: a mesh, a material binding,
/// and the two one-directional eligibility tags.  `wind_affected` is set by
/// the host to request wind animation; `ready` is set by the engine once the
/// derived material is attached, and is never cleared.
#[derive(Clone, Copy, Debug, PartialEq, Eq, Structural)]
pub struct SceneObject {
    pub mesh: MeshHandle,
    pub material: MaterialBinding,
    pub wind_affected: bool,
    pub ready: bool,
}

/// An object the promotion sweep must still process: tagged wind-affected
/// and not yet promoted.
pub open spec fn spec_eligible(o: SceneObject) -> bool {
    o.wind_affected && !o.ready
}

impl SceneObject {
    /// Whether the sweep must still process this object.
    pub fn is_eligible(&self) -> (r: bool)
        ensures
            r == spec_eligible(*self),
    {
        self.wind_affected && !self.ready
    }

    /// The tagging interface: the host attaches the wind-eligibility marker;
    /// the engine never infers eligibility from geometry or material content.
    pub fn tag_wind_affected(&mut self)
        ensures
            *final(self) == (SceneObject { wind_affected: true, ..*old(self) }),
    {
        self.wind_affected = true;
    }

    /// Marks an object promoted directly, bypassing the sweep: for spawned
    /// instances that are created already carrying a derived material.
    pub fn mark_ready(&mut self)
        ensures
            *final(self) == (SceneObject { ready: true, ..*old(self) }),
    {
        self.ready = true;
    }
}

/// The spawner's path into the engine: an instance created from a registry
/// prototype already carries a valid derived material, so it is marked
/// promoted directly and the sweep never processes it.
pub fn spawn_from_prototype(proto: &WindAffectedType) -> (o: SceneObject)
    ensures
        o == (SceneObject {
            mesh: proto.mesh,
            material: MaterialBinding::Extended(proto.material),
            wind_affected: true,
            ready: true,
        }),
{
    SceneObject {
        mesh: proto.mesh,
        material: MaterialBinding::Extended(proto.material),
        wind_affected: true,
        ready: true,
    }
}

/// How many of the first `n` objects are eligible.
pub open spec fn eligible_count_to(objs: Seq<SceneObject>, n: int) -> nat
    decreases n,
{
    if n <= 0 {
        0
    } else {
        eligible_count_to(objs, n - 1) + (if spec_eligible(objs[n - 1]) {
            1nat
        } else {
            0nat
        })
    }
}

/// The shape of an object after promotion: same mesh, the eligibility tag
/// kept, the promoted tag set, and the rendered material rebound to the
/// derived material stored at index `k`.
pub open spec fn spec_promoted_to(o: SceneObject, before: SceneObject, k: int) -> bool {
    &&& o.mesh == before.mesh
    &&& o.wind_affected == before.wind_affected
    &&& o.ready
    &&& spec_is_extended(o.material)
    &&& spec_binding_handle(o.material).0 == k
}

/// One registry record, appended at promotion time: the promoted object's
/// mesh, the derived material's handle, and the wind snapshot it was seeded
/// with.
#[derive(Clone, Copy, Debug, PartialEq, Eq, Structural)]
pub struct WindAffectedType {
    pub mesh: MeshHandle,
    pub material: MaterialHandle,
    pub wind: Wind,
}

/// The registry of every derived material created so far, in creation order.
/// Spawning workflows read it to find mesh-and-material prototypes; it is
/// append-only.
pub struct WindAffectedTypes {
    pub values: Vec<WindAffectedType>,
}

impl WindAffectedTypes {
    /// The records in creation order.
    pub fn get(&self) -> (r: &Vec<WindAffectedType>)
        ensures
            r@ == self.values@,
    {
        &self.values
    }
}

impl Default for WindAffectedTypes {
    /// An empty registry.
    fn default() -> (r: WindAffectedTypes)
        ensures
            r.values@ == Seq::<WindAffectedType>::empty(),
    {
        WindAffectedTypes { values: Vec::new() }
    }
}

/// A prefix with no eligible object counts zero eligible objects.
pub proof fn lemma_count_none_eligible(objs: Seq<SceneObject>, n: int)
    requires
        n <= objs.len(),
        forall|i: int| 0 <= i < n ==> !spec_eligible(#[trigger] objs[i]),
    ensures
        eligible_count_to(objs, n) == 0,
    decreases n,
{
    if n > 0 {
        lemma_count_none_eligible(objs, n - 1);
    }
}

/// A prefix whose objects are all eligible counts every one of them.
pub proof fn lemma_count_all_eligible(objs: Seq<SceneObject>, n: int)
    requires
        0 <= n <= objs.len(),
        forall|i: int| 0 <= i < n ==> spec_eligible(#[trigger] objs[i]),
    ensures
        eligible_count_to(objs, n) == n,
    decreases n,
{
    if n > 0 {
        lemma_count_all_eligible(objs, n - 1);
    }
}

/// Idempotent and exactly-once promotion.  A sweep changes an object only by
/// promoting it, and promotes exactly the eligible ones (this lemma's two
/// hypotheses restate the sweep's guarantee).  Afterwards no object is
/// eligible, so the eligible count - by which the sweep grows the registry
/// and the derived-material store - is zero, and a second sweep with no
/// newly tagged objects adds nothing and changes nothing.
pub proof fn lemma_promotion_idempotent(before: Seq<SceneObject>, after: Seq<SceneObject>)
    requires
        before.len() == after.len(),
        forall|i: int|
            0 <= i < before.len() && !spec_eligible(#[trigger] before[i]) ==> after[i] == before[i],
        forall|i: int|
            0 <= i < before.len() && spec_eligible(#[trigger] before[i]) ==> after[i].ready,
    ensures
        forall|i: int| 0 <= i < after.len() ==> !spec_eligible(#[trigger] after[i]),
        eligible_count_to(after, after.len() as int) == 0,
{
    assert forall|i: int| 0 <= i < after.len() implies !spec_eligible(#[trigger] after[i]) by {
        if spec_eligible(before[i]) {
            assert(after[i].ready);
        } else {
            assert(after[i] == before[i]);
        }
    }
    lemma_count_none_eligible(after, after.len() as int);
}

/// Exactly-once promotion: when all `N` objects are eligible before the
/// first sweep, that sweep's growth count - by which it extends the registry
/// and the derived-material store, one entry per promotion - is exactly `N`.
pub proof fn lemma_promotion_exactly_once(before: Seq<SceneObject>)
    requires
        forall|i: int| 0 <= i < before.len() ==> spec_eligible(#[trigger] before[i]),
    ensures
        eligible_count_to(before, before.len() as int) == before.len(),
{
    lemma_count_all_eligible(before, before.len() as int);
}

/// Broadcast consistency: once every derived material in the store embeds
/// the wind value `v` - which is what the broadcast update guarantees -
/// every derived material's uniform block is exactly the encoding of `v`,
/// however many derived materials exist.
pub proof fn lemma_broadcast_consistency<M, W: WindAffectable<M>>(mats: Seq<W>, v: Wind)
    requires
        forall|i: int| 0 <= i < mats.len() ==> #[trigger] mats[i].spec_wind() == v,
    ensures
        forall|i: int|
            0 <= i < mats.len() ==> spec_encode(#[trigger] mats[i].spec_wind()) == spec_encode(v),
{
}

/// Counting eligible objects over a longer prefix can only find more.
proof fn lemma_count_monotonic(objs: Seq<SceneObject>, m: int, n: int)
    requires
        m <= n,
    ensures
        eligible_count_to(objs, m) <= eligible_count_to(objs, n),
    decreases n - m,
{
    if m < n {
        lemma_count_monotonic(objs, m, n - 1);
    }
}

/// A mutable borrow of one element of a vector; the vector afterwards holds
/// whatever the borrow was left at, and nothing else moves.
fn element_at_mut<T>(v: &mut Vec<T>, i: usize) -> (m: &mut T)
    requires
        i < old(v)@.len(),
    ensures
        *m == old(v)@[i as int],
        final(v)@ == old(v)@.update(i as int, *final(m)),
{
    &mut v[i]
}

/// Promotes one eligible object: clones its base material into a new derived
/// material seeded with the current wind and the shared noise texture, adds
/// the derived material to its store, rebinds the object to it, marks the
/// object promoted, and returns the registry record for it.
pub fn create_material<M, W: WindAffectable<M>>(
    materials: &MaterialAssets<M>,
    extended_materials: &mut MaterialAssets<W>,
    object: &mut SceneObject,
    wind_noise_texture: &WindTexture,
    wind: &Wind,
) -> (r: WindAffectedType)
    requires
        spec_eligible(*old(object)),
        spec_is_base(old(object).material),
        spec_binding_handle(old(object).material).0 < materials.vec@.len(),
    ensures
        final(extended_materials).vec@.len() == old(extended_materials).vec@.len() + 1,
        forall|j: int|
            0 <= j < old(extended_materials).vec@.len() ==> final(extended_materials).vec@[j] == old(extended_materials).vec@[j],
        final(extended_materials).vec@[old(extended_materials).vec@.len() as int].spec_base() == materials.vec@[
            spec_binding_handle(old(object).material).0 as int],
        final(extended_materials).vec@[old(extended_materials).vec@.len() as int].spec_wind() == *wind,
        final(extended_materials).vec@[old(extended_materials).vec@.len() as int].spec_texture()
            == wind_noise_texture.0,
        spec_promoted_to(*final(object), *old(object), old(extended_materials).vec@.len() as int),
        r == (WindAffectedType {
            mesh: old(object).mesh,
            material: MaterialHandle(old(extended_materials).vec@.len() as usize),
            wind: *wind,
        }),
{
    let h = match object.material {
        MaterialBinding::Base(h) => h,
        MaterialBinding::Extended(h) => h,
    };
    let base = materials.get(h);
    let new_material = W::create_material(base, wind, wind_noise_texture.0);
    let material = extended_materials.add(new_material);
    object.material = MaterialBinding::Extended(material);
    object.ready = true;
    WindAffectedType { mesh: object.mesh, material, wind: *wind }
}

/// The promotion sweep: processes exactly the objects that are eligible and
/// not yet promoted, each exactly once, in scan order.  Every such object is
/// promoted to a fresh derived material seeded with the current wind and the
/// shared noise texture; one registry record is appended per promotion; no
/// other object, stored material, or record is touched.  Re-running the
/// sweep when nothing is eligible is a no-op.
#[verifier::loop_isolation(false)]
pub fn setup_wind_affected<M, W: WindAffectable<M>>(
    objects: &mut Vec<SceneObject>,
    materials: &MaterialAssets<M>,
    extended_materials: &mut MaterialAssets<W>,
    types: &mut WindAffectedTypes,
    wind_noise_texture: &WindTexture,
    wind: &Wind,
)
    requires
        forall|i: int|
            #![auto]
            0 <= i < old(objects)@.len() && spec_eligible(old(objects)@[i]) ==> spec_is_base(
                old(objects)@[i].material,
            ) && spec_binding_handle(old(objects)@[i].material).0 < materials.vec@.len(),
    ensures
        final(objects)@.len() == old(objects)@.len(),
        forall|i: int|
            0 <= i < old(objects)@.len() && !spec_eligible(old(objects)@[i]) ==> final(objects)@[i]
                == old(objects)@[i],
        forall|i: int|
            #![auto]
            0 <= i < old(objects)@.len() && spec_eligible(old(objects)@[i]) ==> spec_promoted_to(
                final(objects)@[i],
                old(objects)@[i],
                (old(extended_materials).vec@.len() + eligible_count_to(old(objects)@, i)) as int,
            ),
        final(extended_materials).vec@.len() == old(extended_materials).vec@.len() + eligible_count_to(
            old(objects)@,
            old(objects)@.len() as int,
        ),
        forall|j: int|
            0 <= j < old(extended_materials).vec@.len() ==> final(extended_materials).vec@[j] == old(extended_materials).vec@[j],
        forall|i: int|
            0 <= i < old(objects)@.len() && #[trigger] spec_eligible(old(objects)@[i]) ==> {
                let k = (old(extended_materials).vec@.len() + eligible_count_to(old(objects)@, i)) as int;
                &&& final(extended_materials).vec@[k].spec_base() == materials.vec@[spec_binding_handle(
                    old(objects)@[i].material,
                ).0 as int]
                &&& final(extended_materials).vec@[k].spec_wind() == *wind
                &&& final(extended_materials).vec@[k].spec_texture() == wind_noise_texture.0
            },
        final(types).values@.len() == old(types).values@.len() + eligible_count_to(
            old(objects)@,
            old(objects)@.len() as int,
        ),
        forall|j: int|
            0 <= j < old(types).values@.len() ==> final(types).values@[j] == old(types).values@[j],
        forall|i: int|
            0 <= i < old(objects)@.len() && #[trigger] spec_eligible(old(objects)@[i]) ==> {
                let e = final(types).values@[(old(types).values@.len() + eligible_count_to(
                    old(objects)@,
                    i,
                )) as int];
                &&& e.mesh == old(objects)@[i].mesh
                &&& e.material.0 == old(extended_materials).vec@.len() + eligible_count_to(
                    old(objects)@,
                    i,
                )
                &&& e.wind == *wind
            },
{
    let n = objects.len();
    let mut i: usize = 0;
    while i < n
        invariant
            i <= n,
            objects@.len() == n,
            forall|j: int| i <= j < n ==> objects@[j] == old(objects)@[j],
            forall|j: int|
                0 <= j < i && !spec_eligible(old(objects)@[j]) ==> objects@[j] == old(objects)@[j],
            forall|j: int|
                #![auto]
                0 <= j < i && spec_eligible(old(objects)@[j]) ==> spec_promoted_to(
                    objects@[j],
                    old(objects)@[j],
                    (old(extended_materials).vec@.len() + eligible_count_to(old(objects)@, j)) as int,
                ),
            extended_materials.vec@.len() == old(extended_materials).vec@.len() + eligible_count_to(
                old(objects)@,
                i as int,
            ),
            forall|j: int|
                0 <= j < old(extended_materials).vec@.len() ==> extended_materials.vec@[j] == old(extended_materials).vec@[j],
            forall|j: int|
                0 <= j < i && #[trigger] spec_eligible(old(objects)@[j]) ==> {
                    let k = (old(extended_materials).vec@.len() + eligible_count_to(old(objects)@, j)) as int;
                    &&& extended_materials.vec@[k].spec_base() == materials.vec@[spec_binding_handle(
                        old(objects)@[j].material,
                    ).0 as int]
                    &&& extended_materials.vec@[k].spec_wind() == *wind
                    &&& extended_materials.vec@[k].spec_texture() == wind_noise_texture.0
                },
            types.values@.len() == old(types).values@.len() + eligible_count_to(
                old(objects)@,
                i as int,
            ),
            forall|j: int|
                0 <= j < old(types).values@.len() ==> types.values@[j] == old(types).values@[j],
            forall|j: int|
                0 <= j < i && #[trigger] spec_eligible(old(objects)@[j]) ==> {
                    let e = types.values@[(old(types).values@.len() + eligible_count_to(
                        old(objects)@,
                        j,
                    )) as int];
                    &&& e.mesh == old(objects)@[j].mesh
                    &&& e.material.0 == old(extended_materials).vec@.len() + eligible_count_to(
                        old(objects)@,
                        j,
                    )
                    &&& e.wind == *wind
                },
        decreases n - i,
    {
        proof {
            assert(eligible_count_to(old(objects)@, i + 1) == eligible_count_to(
                old(objects)@,
                i as int,
            ) + (if spec_eligible(old(objects)@[i as int]) {
                1nat
            } else {
                0nat
            }));
        }
        if objects[i].is_eligible() {
            let o = element_at_mut(objects, i);
            let record = create_material(
                materials,
                extended_materials,
                o,
                wind_noise_texture,
                wind,
            );
            types.values.push(record);
        }
        proof {
            let w0 = old(extended_materials).vec@.len() as int;
            let r0 = old(types).values@.len() as int;
            assert forall|j: int|
                0 <= j < i + 1 && #[trigger] spec_eligible(old(objects)@[j]) implies {
                let k = (w0 + eligible_count_to(old(objects)@, j)) as int;
                &&& extended_materials.vec@[k].spec_base() == materials.vec@[spec_binding_handle(
                    old(objects)@[j].material,
                ).0 as int]
                &&& extended_materials.vec@[k].spec_wind() == *wind
                &&& extended_materials.vec@[k].spec_texture() == wind_noise_texture.0
                &&& types.values@[(r0 + eligible_count_to(old(objects)@, j)) as int].mesh == old(
                    objects,
                )@[j].mesh
                &&& types.values@[(r0 + eligible_count_to(old(objects)@, j)) as int].material.0 == w0
                    + eligible_count_to(old(objects)@, j)
                &&& types.values@[(r0 + eligible_count_to(old(objects)@, j)) as int].wind == *wind
            } by {
                if j < i {
                    lemma_count_monotonic(old(objects)@, j + 1, i as int);
                }
            }
        }
        i += 1;
    }
}

/// The broadcast update: overwrites the embedded wind snapshot of every
/// derived material in the store with the current wind parameters, leaving
/// base materials and texture references untouched, so that every derived
/// material observes one consistent wind value for the frame.
#[verifier::loop_isolation(false)]
pub fn update_materials<M, W: WindAffectable<M>>(materials: &mut MaterialAssets<W>, wind: &Wind)
    ensures
        final(materials).vec@.len() == old(materials).vec@.len(),
        forall|i: int|
            #![auto]
            0 <= i < old(materials).vec@.len() ==> {
                &&& final(materials).vec@[i].spec_wind() == *wind
                &&& final(materials).vec@[i].spec_base() == old(materials).vec@[i].spec_base()
                &&& final(materials).vec@[i].spec_texture() == old(materials).vec@[i].spec_texture()
            },
{
    let n = materials.vec.len();
    let mut i: usize = 0;
    while i < n
        invariant
            i <= n,
            materials.vec@.len() == n,
            forall|j: int|
                #![auto]
                0 <= j < i ==> {
                    &&& materials.vec@[j].spec_wind() == *wind
                    &&& materials.vec@[j].spec_base() == old(materials).vec@[j].spec_base()
                    &&& materials.vec@[j].spec_texture() == old(materials).vec@[j].spec_texture()
                },
            forall|j: int| i <= j < n ==> materials.vec@[j] == old(materials).vec@[j],
        decreases n - i,
    {
        let m = element_at_mut(&mut materials.vec, i);
        m.update_material(wind);
        i += 1;
    }
}

/// The per-frame driver for one base-material kind `M` and its derived kind
/// `W`.  It owns no state; the host passes the context objects into
/// `run_frame` each frame.
pub struct WindPlugin<M, W> {
    pub _marker: PhantomData<(M, W)>,
}

impl<M, W> Default for WindPlugin<M, W> {
    fn default() -> (r: WindPlugin<M, W>)
        ensures
            r == (WindPlugin::<M, W> { _marker: PhantomData }),
    {
        WindPlugin { _marker: PhantomData }
    }
}

impl<M, W: WindAffectable<M>> WindPlugin<M, W> {
    /// One frame of the wind pipeline, in the order the host scheduler owes:
    /// the promotion sweep, then the broadcast update.  Afterwards every
    /// derived material in the store - newly promoted or pre-existing -
    /// embeds the frame's wind value, the store and the registry have grown
    /// by exactly the number of objects that were eligible, and every
    /// previously eligible object is promoted.
    pub fn run_frame(
        &self,
        objects: &mut Vec<SceneObject>,
        materials: &MaterialAssets<M>,
        extended_materials: &mut MaterialAssets<W>,
        types: &mut WindAffectedTypes,
        wind_noise_texture: &WindTexture,
        wind: &Wind,
    )
        requires
            forall|i: int|
                #![auto]
                0 <= i < old(objects)@.len() && spec_eligible(old(objects)@[i]) ==> spec_is_base(
                    old(objects)@[i].material,
                ) && spec_binding_handle(old(objects)@[i].material).0 < materials.vec@.len(),
        ensures
            final(objects)@.len() == old(objects)@.len(),
            forall|i: int|
                0 <= i < old(objects)@.len() && !spec_eligible(old(objects)@[i]) ==> final(objects)@[i] == old(objects)@[i],
            forall|i: int|
                #![auto]
                0 <= i < old(objects)@.len() && spec_eligible(old(objects)@[i])
                    ==> spec_promoted_to(
                    final(objects)@[i],
                    old(objects)@[i],
                    (old(extended_materials).vec@.len() + eligible_count_to(old(objects)@, i)) as int,
                ),
            forall|i: int| 0 <= i < final(objects)@.len() ==> !spec_eligible(final(objects)@[i]),
            final(extended_materials).vec@.len() == old(extended_materials).vec@.len()
                + eligible_count_to(old(objects)@, old(objects)@.len() as int),
            forall|k: int|
                #![auto]
                0 <= k < final(extended_materials).vec@.len() ==> final(extended_materials).vec@[
                    k].spec_wind() == *wind,
            forall|j: int|
                #![auto]
                0 <= j < old(extended_materials).vec@.len() ==> final(extended_materials).vec@[
                    j].spec_base() == old(extended_materials).vec@[j].spec_base() && final(extended_materials).vec@[j].spec_texture() == old(extended_materials).vec@[j].spec_texture(),
            final(types).values@.len() == old(types).values@.len() + eligible_count_to(
                old(objects)@,
                old(objects)@.len() as int,
            ),
            forall|j: int|
                0 <= j < old(types).values@.len() ==> final(types).values@[j] == old(types).values@[j],
    {
        setup_wind_affected(objects, materials, extended_materials, types, wind_noise_texture, wind);
        update_materials(extended_materials, wind);
    }
}

} // verus!
