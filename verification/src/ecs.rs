//! The entity-component world.
//!
//! Entities are opaque, strictly increasing identifiers (zero is reserved and
//! never allocated). Components are plain-data records identified by their
//! kind, at most one instance of a kind per entity; the kind set is closed,
//! so storage is a tagged union rather than an open registry. A [`World`]
//! owns the identifier counter, the live-entity list, the per-entity
//! component storage and the registered systems, which it runs once per
//! frame, each with exclusive access to the world.

use vstd::prelude::*;
use crate::fixed::{Fx, FX_SCALE};

verus! {

/// An opaque identifier for a game object. Identifier `0` is reserved;
/// allocation starts at `1` and identifiers are never reused.
pub type Entity = u32;

/// The stable tag of a component kind.
#[derive(Clone, Copy, Debug, PartialEq, Eq, Structural)]
pub enum ComponentKind {
    Transform,
    Sprite,
    Velocity,
}

/// Position, rotation (radians) and non-uniform scale.
#[derive(Clone, Copy, Debug, PartialEq, Eq, Structural)]
pub struct Transform {
    pub x: Fx,
    pub y: Fx,
    pub rotation: Fx,
    pub scale_x: Fx,
    pub scale_y: Fx,
}

impl Transform {
    /// A transform at the given position, unrotated and unscaled.
    pub fn new(x: Fx, y: Fx) -> (r: Transform)
        ensures
            r.x == x,
            r.y == y,
            r.rotation@ == 0,
            r.scale_x@ == FX_SCALE,
            r.scale_y@ == FX_SCALE,
    {
        Transform { x, y, rotation: Fx::zero(), scale_x: Fx::one(), scale_y: Fx::one() }
    }
}

/// Size, an RGBA color with channels in `[0, 1]`, and an optional texture
/// handle.
#[derive(Clone, Copy, Debug, PartialEq, Eq)]
pub struct Sprite {
    pub width: Fx,
    pub height: Fx,
    pub color_r: Fx,
    pub color_g: Fx,
    pub color_b: Fx,
    pub color_a: Fx,
    pub texture_id: Option<u32>,
}

impl Sprite {
    /// An untextured white sprite of the given size.
    pub fn new(width: Fx, height: Fx) -> (r: Sprite)
        ensures
            r.width == width,
            r.height == height,
            r.color_r@ == FX_SCALE,
            r.color_g@ == FX_SCALE,
            r.color_b@ == FX_SCALE,
            r.color_a@ == FX_SCALE,
            r.texture_id is None,
    {
        Sprite {
            width,
            height,
            color_r: Fx::one(),
            color_g: Fx::one(),
            color_b: Fx::one(),
            color_a: Fx::one(),
            texture_id: None,
        }
    }

    /// The same sprite with the given color.
    pub fn with_color(self, r: Fx, g: Fx, b: Fx, a: Fx) -> (s: Sprite)
        ensures
            s.width == self.width,
            s.height == self.height,
            s.color_r == r,
            s.color_g == g,
            s.color_b == b,
            s.color_a == a,
            s.texture_id == self.texture_id,
    {
        Sprite { color_r: r, color_g: g, color_b: b, color_a: a, ..self }
    }
}

/// Linear velocity.
#[derive(Clone, Copy, Debug, PartialEq, Eq, Structural)]
pub struct Velocity {
    pub x: Fx,
    pub y: Fx,
}

impl Velocity {
    pub fn new(x: Fx, y: Fx) -> (r: Velocity)
        ensures
            r.x == x,
            r.y == y,
    {
        Velocity { x, y }
    }
}

/// A type-erased component: a tagged union over the closed kind set.
#[derive(Clone, Copy, Debug, PartialEq, Eq)]
pub enum ComponentValue {
    Transform(Transform),
    Sprite(Sprite),
    Velocity(Velocity),
}

impl ComponentValue {
    /// The kind tag of this value.
    pub open spec fn kind(self) -> ComponentKind {
        match self {
            ComponentValue::Transform(_) => ComponentKind::Transform,
            ComponentValue::Sprite(_) => ComponentKind::Sprite,
            ComponentValue::Velocity(_) => ComponentKind::Velocity,
        }
    }

    /// The kind tag of this value.
    pub fn kind_of(&self) -> (k: ComponentKind)
        ensures
            k == self.kind(),
    {
        match self {
            ComponentValue::Transform(_) => ComponentKind::Transform,
            ComponentValue::Sprite(_) => ComponentKind::Sprite,
            ComponentValue::Velocity(_) => ComponentKind::Velocity,
        }
    }
}

/// A concrete component type: a record that knows its place in the tagged
/// union.
pub trait Component: Sized {
    /// The tagged-union value this component stands for.
    spec fn as_value(self) -> ComponentValue;

    /// Wraps the component into the tagged union.
    fn to_value(self) -> (v: ComponentValue)
        ensures
            v == self.as_value(),
    ;
}

impl Component for Transform {
    open spec fn as_value(self) -> ComponentValue {
        ComponentValue::Transform(self)
    }

    fn to_value(self) -> (v: ComponentValue) {
        ComponentValue::Transform(self)
    }
}

impl Component for Sprite {
    open spec fn as_value(self) -> ComponentValue {
        ComponentValue::Sprite(self)
    }

    fn to_value(self) -> (v: ComponentValue) {
        ComponentValue::Sprite(self)
    }
}

impl Component for Velocity {
    open spec fn as_value(self) -> ComponentValue {
        ComponentValue::Velocity(self)
    }

    fn to_value(self) -> (v: ComponentValue) {
        ComponentValue::Velocity(self)
    }
}

/// Per-entity storage: one slot per component kind.
struct ComponentSet {
    transform: Option<ComponentValue>,
    sprite: Option<ComponentValue>,
    velocity: Option<ComponentValue>,
}

/// The slot a kind selects.
spec fn cs_get(cs: ComponentSet, k: ComponentKind) -> Option<ComponentValue> {
    match k {
        ComponentKind::Transform => cs.transform,
        ComponentKind::Sprite => cs.sprite,
        ComponentKind::Velocity => cs.velocity,
    }
}

/// Every filled slot holds a value of the slot's kind.
spec fn cs_wf(cs: ComponentSet) -> bool {
    &&& (cs.transform matches Some(v) ==> v.kind() == ComponentKind::Transform)
    &&& (cs.sprite matches Some(v) ==> v.kind() == ComponentKind::Sprite)
    &&& (cs.velocity matches Some(v) ==> v.kind() == ComponentKind::Velocity)
}

/// A unit of per-frame logic. The world hands each registered system
/// exclusive access to itself once per frame; the running system is removed
/// from the dispatch list for the duration of its own call, so no nested
/// dispatch can alias it.
pub trait System: Sized {
    fn update(&mut self, world: &mut World<Self>, delta_time: Fx);
}

/// The entity-component world: the next-identifier counter, the ordered list
/// of live entities, per-entity component storage and the registered
/// systems.
pub struct World<S> {
    next_entity_id: Entity,
    entities: Vec<Entity>,
    components: Vec<ComponentSet>,
    systems: Vec<S>,
}

impl<S> World<S> {
    /// Number of live entities.
    pub closed spec fn entity_count(self) -> int {
        self.entities@.len() as int
    }

    /// The identifier the next `create_entity` will return.
    pub closed spec fn spec_next_id(self) -> int {
        self.next_entity_id as int
    }

    /// The ordered list of live entity identifiers.
    pub closed spec fn entities_seq(self) -> Seq<Entity> {
        self.entities@
    }

    /// Number of registered systems.
    pub closed spec fn system_count(self) -> int {
        self.systems@.len() as int
    }

    /// The entity is live: identifiers run from `1` to the entity count.
    pub open spec fn has_entity(self, e: Entity) -> bool {
        1 <= e && e <= self.entity_count()
    }

    /// The component of the given kind owned by the given entity, or absent.
    pub closed spec fn component_of(self, e: Entity, k: ComponentKind) -> Option<ComponentValue> {
        if 1 <= e && e <= self.components@.len() {
            cs_get(self.components@[e as int - 1], k)
        } else {
            None
        }
    }

    /// The whole component table as one partial map from entity and kind to
    /// the stored value.
    pub closed spec fn component_map(self) -> Map<(Entity, ComponentKind), ComponentValue> {
        Map::new(
            |p: (Entity, ComponentKind)| self.component_of(p.0, p.1) is Some,
            |p: (Entity, ComponentKind)| self.component_of(p.0, p.1).unwrap(),
        )
    }

    /// The world's structural invariant: the counter is one past the live
    /// list, which counts up from `1`, each entity owning one component set
    /// whose filled slots match their kinds.
    pub closed spec fn wf(self) -> bool {
        &&& self.next_entity_id as int == self.entities@.len() + 1
        &&& self.components@.len() == self.entities@.len()
        &&& forall|i: int|
            0 <= i < self.entities@.len() ==> #[trigger] self.entities@[i] as int == i + 1
        &&& forall|i: int| 0 <= i < self.components@.len() ==> cs_wf(#[trigger] self.components@[i])
    }

    /// An empty world: no entities, no components, no systems; the first
    /// identifier to be handed out is `1`.
    pub fn new() -> (r: World<S>)
        ensures
            r.wf(),
            r.entity_count() == 0,
            r.spec_next_id() == 1,
            r.system_count() == 0,
            forall|e: Entity, k: ComponentKind| r.component_of(e, k) is None,
    {
        World { next_entity_id: 1, entities: Vec::new(), components: Vec::new(), systems: Vec::new() }
    }

    /// Allocates the next identifier, appends it to the live list with an
    /// empty component map, and returns it.
    pub fn create_entity(&mut self) -> (e: Entity)
        requires
            old(self).wf(),
            old(self).spec_next_id() < u32::MAX,
        ensures
            final(self).wf(),
            e as int == old(self).spec_next_id(),
            e as int == old(self).entity_count() + 1,
            final(self).spec_next_id() == old(self).spec_next_id() + 1,
            final(self).entity_count() == old(self).entity_count() + 1,
            final(self).entities_seq() == old(self).entities_seq().push(e),
            final(self).has_entity(e),
            final(self).system_count() == old(self).system_count(),
            forall|e2: Entity, k2: ComponentKind|
                final(self).component_of(e2, k2) == old(self).component_of(e2, k2),
    {
        let e = self.next_entity_id;
        self.next_entity_id = self.next_entity_id + 1;
        self.entities.push(e);
        self.components.push(ComponentSet { transform: None, sprite: None, velocity: None });
        e
    }

    /// Inserts or replaces the component of the value's kind for the given
    /// entity; an unknown entity leaves the world untouched.
    pub fn add_component<T: Component>(&mut self, entity: Entity, component: T)
        requires
            old(self).wf(),
        ensures
            final(self).wf(),
            final(self).entity_count() == old(self).entity_count(),
            final(self).entities_seq() == old(self).entities_seq(),
            final(self).spec_next_id() == old(self).spec_next_id(),
            final(self).system_count() == old(self).system_count(),
            forall|e2: Entity, k2: ComponentKind|
                final(self).component_of(e2, k2) == (if old(self).has_entity(entity) && e2
                    == entity && k2 == component.as_value().kind() {
                    Some(component.as_value())
                } else {
                    old(self).component_of(e2, k2)
                }),
    {
        if entity >= 1 && (entity as usize) <= self.entities.len() {
            let idx: usize = (entity - 1) as usize;
            let v = component.to_value();
            let k = v.kind_of();
            let slot = &mut self.components[idx];
            match k {
                ComponentKind::Transform => slot.transform = Some(v),
                ComponentKind::Sprite => slot.sprite = Some(v),
                ComponentKind::Velocity => slot.velocity = Some(v),
            }
        }
    }

    /// A read view of the component of the given kind, or absent when the
    /// entity is unknown or owns no such component.
    pub fn get_component(&self, entity: Entity, kind: ComponentKind) -> (r: Option<
        &ComponentValue,
    >)
        requires
            self.wf(),
        ensures
            match r {
                Some(v) => self.component_of(entity, kind) == Some(*v),
                None => self.component_of(entity, kind) is None,
            },
            !self.has_entity(entity) ==> r is None,
    {
        if entity >= 1 && (entity as usize) <= self.entities.len() {
            let idx: usize = (entity - 1) as usize;
            let cs = &self.components[idx];
            match kind {
                ComponentKind::Transform => cs.transform.as_ref(),
                ComponentKind::Sprite => cs.sprite.as_ref(),
                ComponentKind::Velocity => cs.velocity.as_ref(),
            }
        } else {
            None
        }
    }

    /// An exclusive-write view of the component of the given kind, or absent.
    /// The world stays well formed as long as the caller leaves a value of
    /// the same kind behind the handle; the contract states that condition
    /// explicitly, since the handle could also store another kind there.
    pub fn get_component_mut(&mut self, entity: Entity, kind: ComponentKind) -> (r: Option<
        &mut ComponentValue,
    >)
        requires
            old(self).wf(),
        ensures
            final(self).entity_count() == old(self).entity_count(),
            final(self).entities_seq() == old(self).entities_seq(),
            final(self).spec_next_id() == old(self).spec_next_id(),
            final(self).system_count() == old(self).system_count(),
            forall|e2: Entity, k2: ComponentKind|
                !(e2 == entity && k2 == kind) ==> final(self).component_of(e2, k2) == old(
                    self,
                ).component_of(e2, k2),
            !old(self).has_entity(entity) ==> r is None,
            old(self).component_of(entity, kind) is None ==> r is None && final(self).component_of(
                entity,
                kind,
            ) is None && final(self).wf(),
            old(self).component_of(entity, kind) is Some ==> r is Some && *r.unwrap() == old(
                self,
            ).component_of(entity, kind).unwrap() && final(self).component_of(entity, kind)
                == Some(*final(r.unwrap())) && ((*final(r.unwrap())).kind() == kind
                ==> final(self).wf()),
    {
        if entity >= 1 && (entity as usize) <= self.entities.len() {
            let idx: usize = (entity - 1) as usize;
            let cs = &mut self.components[idx];
            match kind {
                ComponentKind::Transform => cs.transform.as_mut(),
                ComponentKind::Sprite => cs.sprite.as_mut(),
                ComponentKind::Velocity => cs.velocity.as_mut(),
            }
        } else {
            None
        }
    }

    /// The ordered list of live entity identifiers.
    pub fn get_entities(&self) -> (r: &Vec<Entity>)
        ensures
            r@ == self.entities_seq(),
    {
        &self.entities
    }

    /// Appends a system to the dispatch list.
    pub fn register_system(&mut self, system: S)
        ensures
            final(self).system_count() == old(self).system_count() + 1,
            final(self).entity_count() == old(self).entity_count(),
            final(self).entities_seq() == old(self).entities_seq(),
            final(self).spec_next_id() == old(self).spec_next_id(),
            forall|e2: Entity, k2: ComponentKind|
                final(self).component_of(e2, k2) == old(self).component_of(e2, k2),
            old(self).wf() ==> final(self).wf(),
    {
        self.systems.push(system);
    }

    /// Creates an entity carrying a fresh transform at the given position and
    /// an untextured white sprite of the given size.
    pub fn create_sprite_entity(&mut self, x: Fx, y: Fx, width: Fx, height: Fx) -> (e: Entity)
        requires
            old(self).wf(),
            old(self).spec_next_id() < u32::MAX,
        ensures
            final(self).wf(),
            e as int == old(self).spec_next_id(),
            final(self).spec_next_id() == old(self).spec_next_id() + 1,
            final(self).entity_count() == old(self).entity_count() + 1,
            final(self).entities_seq() == old(self).entities_seq().push(e),
            final(self).system_count() == old(self).system_count(),
            final(self).component_of(e, ComponentKind::Transform) matches Some(
                ComponentValue::Transform(t),
            ) && t.x == x && t.y == y && t.rotation@ == 0 && t.scale_x@ == FX_SCALE && t.scale_y@
                == FX_SCALE,
            final(self).component_of(e, ComponentKind::Sprite) matches Some(
                ComponentValue::Sprite(s),
            ) && s.width == width && s.height == height && s.color_r@ == FX_SCALE && s.color_g@
                == FX_SCALE && s.color_b@ == FX_SCALE && s.color_a@ == FX_SCALE && s.texture_id
                is None,
            final(self).component_of(e, ComponentKind::Velocity) is None,
            forall|e2: Entity, k2: ComponentKind|
                e2 != e ==> final(self).component_of(e2, k2) == old(self).component_of(e2, k2),
    {
        let e = self.create_entity();
        self.add_component(e, Transform::new(x, y));
        self.add_component(e, Sprite::new(width, height));
        e
    }

    /// Moves the entity's transform to the given position; an entity without
    /// a transform (or an unknown entity) is left untouched.
    pub fn set_position(&mut self, entity: Entity, x: Fx, y: Fx)
        requires
            old(self).wf(),
        ensures
            final(self).wf(),
            final(self).entity_count() == old(self).entity_count(),
            final(self).entities_seq() == old(self).entities_seq(),
            final(self).spec_next_id() == old(self).spec_next_id(),
            final(self).system_count() == old(self).system_count(),
            forall|e2: Entity, k2: ComponentKind|
                !(e2 == entity && k2 == ComponentKind::Transform) ==> final(self).component_of(
                    e2,
                    k2,
                ) == old(self).component_of(e2, k2),
            old(self).component_of(entity, ComponentKind::Transform) is None
                ==> final(self).component_of(entity, ComponentKind::Transform) is None,
            old(self).component_of(entity, ComponentKind::Transform) matches Some(
                ComponentValue::Transform(t),
            ) ==> final(self).component_of(entity, ComponentKind::Transform) == Some(
                ComponentValue::Transform(
                    Transform {
                        x,
                        y,
                        rotation: t.rotation,
                        scale_x: t.scale_x,
                        scale_y: t.scale_y,
                    },
                ),
            ),
    {
        let r = self.get_component_mut(entity, ComponentKind::Transform);
        match r {
            Some(cv) => {
                match cv {
                    ComponentValue::Transform(t) => {
                        t.x = x;
                        t.y = y;
                    },
                    _ => {
                        // A transform slot never holds another kind.
                        proof {
                            assert(false);
                        }
                    },
                }
            },
            None => {},
        }
    }

    /// Recolors the entity's sprite; an entity without a sprite (or an
    /// unknown entity) is left untouched.
    pub fn set_color(&mut self, entity: Entity, r: Fx, g: Fx, b: Fx, a: Fx)
        requires
            old(self).wf(),
        ensures
            final(self).wf(),
            final(self).entity_count() == old(self).entity_count(),
            final(self).entities_seq() == old(self).entities_seq(),
            final(self).spec_next_id() == old(self).spec_next_id(),
            final(self).system_count() == old(self).system_count(),
            forall|e2: Entity, k2: ComponentKind|
                !(e2 == entity && k2 == ComponentKind::Sprite) ==> final(self).component_of(
                    e2,
                    k2,
                ) == old(self).component_of(e2, k2),
            old(self).component_of(entity, ComponentKind::Sprite) is None
                ==> final(self).component_of(entity, ComponentKind::Sprite) is None,
            old(self).component_of(entity, ComponentKind::Sprite) matches Some(
                ComponentValue::Sprite(s),
            ) ==> final(self).component_of(entity, ComponentKind::Sprite) == Some(
                ComponentValue::Sprite(
                    Sprite {
                        width: s.width,
                        height: s.height,
                        color_r: r,
                        color_g: g,
                        color_b: b,
                        color_a: a,
                        texture_id: s.texture_id,
                    },
                ),
            ),
    {
        let handle = self.get_component_mut(entity, ComponentKind::Sprite);
        match handle {
            Some(cv) => {
                match cv {
                    ComponentValue::Sprite(s) => {
                        s.color_r = r;
                        s.color_g = g;
                        s.color_b = b;
                        s.color_a = a;
                    },
                    _ => {
                        // A sprite slot never holds another kind.
                        proof {
                            assert(false);
                        }
                    },
                }
            },
            None => {},
        }
    }
}

impl<S: System> World<S> {
    /// Runs each registered system once, in registration order, handing it
    /// exclusive access to the world. The running system is removed from the
    /// dispatch list for the duration of its call (so a nested dispatch
    /// cannot alias it) and reinserted at its place afterwards, or appended
    /// if the system shrank the list past that place.
    pub fn update(&mut self, delta_time: Fx)
        ensures
            old(self).system_count() == 0 ==> *final(self) == *old(self),
    {
        let n = self.systems.len();
        let mut i: usize = 0;
        while i < n
            invariant
                old(self).system_count() == 0 ==> n == 0 && *self == *old(self),
            decreases n - i,
        {
            if i < self.systems.len() {
                let mut sys = self.systems.remove(i);
                sys.update(self, delta_time);
                if i <= self.systems.len() {
                    self.systems.insert(i, sys);
                } else {
                    self.systems.push(sys);
                }
            }
            i = i + 1;
        }
    }
}

/// Adding a component is exactly a map insertion on the component table:
/// the value read back under its key is the one added, a second insertion
/// under the same key replaces the first, and the table gains at most that
/// one key — nothing is duplicated and no other entry moves. The hypothesis
/// is what `add_component` ensures of the worlds before and after the call.
pub proof fn lemma_add_component_is_map_insert<S>(
    w1: World<S>,
    w2: World<S>,
    e: Entity,
    v: ComponentValue,
)
    requires
        w1.has_entity(e),
        forall|e2: Entity, k2: ComponentKind|
            w2.component_of(e2, k2) == (if e2 == e && k2 == v.kind() {
                Some(v)
            } else {
                w1.component_of(e2, k2)
            }),
    ensures
        w2.component_map() == w1.component_map().insert((e, v.kind()), v),
        w2.component_map()[(e, v.kind())] == v,
        w2.component_map().dom() == w1.component_map().dom().insert((e, v.kind())),
{
    assert(w2.component_map() =~= w1.component_map().insert((e, v.kind()), v));
    assert(w2.component_map().dom() =~= w1.component_map().dom().insert((e, v.kind())));
}

/// Nothing is ever stored under an identifier that is not live: a lookup on
/// a nonexistent entity is always absent, never a default.
pub proof fn lemma_unknown_entity_has_no_components<S>(w: World<S>, e: Entity, k: ComponentKind)
    requires
        w.wf(),
        !w.has_entity(e),
    ensures
        w.component_of(e, k) is None,
{
}

/// Entity identifiers are unique: a well-formed world's live list never
/// repeats an identifier, so after any number of creations the identifiers
/// are pairwise distinct.
pub proof fn lemma_entity_ids_unique<S>(w: World<S>, i: int, j: int)
    requires
        w.wf(),
        0 <= i < w.entity_count(),
        0 <= j < w.entity_count(),
        i != j,
    ensures
        w.entities_seq()[i] != w.entities_seq()[j],
{
}

/// Entity identifiers are strictly increasing along the live list, in the
/// order the entities were created.
pub proof fn lemma_entity_ids_increasing<S>(w: World<S>, i: int, j: int)
    requires
        w.wf(),
        0 <= i < j < w.entity_count(),
    ensures
        w.entities_seq()[i] < w.entities_seq()[j],
{
}

/// After `n` creations the set of live identifiers has exactly `n` elements:
/// no identifier is ever handed out twice.
pub proof fn lemma_entity_ids_all_distinct<S>(w: World<S>)
    requires
        w.wf(),
    ensures
        w.entities_seq().to_set().len() == w.entity_count(),
{
    assert(w.entities_seq().no_duplicates()) by {
        assert forall|i: int, j: int|
            0 <= i < w.entities_seq().len() && 0 <= j < w.entities_seq().len() && i != j
            implies w.entities_seq()[i] != w.entities_seq()[j] by {
            lemma_entity_ids_unique(w, i, j);
        }
    }
    w.entities_seq().unique_seq_to_set();
}

} // verus!
