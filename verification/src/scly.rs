//! The script layers of a room as the patches read and change them: objects with their
//! instance ids, connections and the properties that the patches look at. An object's name is
//! held as its text, without the terminating NUL.

use vstd::prelude::*;

verus! {

/// Script object states that the patches use in connections.
pub const STATE_ENTERED: u32 = 3;
pub const STATE_ZERO: u32 = 9;
pub const STATE_DEATH_RATTLE: u32 = 20;

/// Script object messages that the patches use in connections.
pub const MSG_ACTIVATE: u32 = 1;
pub const MSG_DEACTIVATE: u32 = 4;
pub const MSG_DECREMENT: u32 = 5;
pub const MSG_RESET: u32 = 10;
pub const MSG_RESET_AND_START: u32 = 11;
pub const MSG_INCREMENT: u32 = 7;
pub const MSG_SET_TO_ZERO: u32 = 13;
pub const MSG_STOP: u32 = 15;
pub const MSG_ACTION: u32 = 19;
pub const MSG_PLAY: u32 = 20;

/// The part of an instance id that identifies the object within its area (the top byte holds
/// the layer).
pub const INSTANCE_ID_MASK: u32 = 0x00FFFFFF;

/// A message sent from one script object to another when the sender enters a state.
#[derive(Copy, Clone, Debug, PartialEq, Eq, Structural)]
pub struct Connection {
    pub state: u32,
    pub message: u32,
    pub target_object_id: u32,
}

#[derive(Copy, Clone, Debug, PartialEq, Eq, Structural)]
pub struct Actor {
    pub cmdl: u32,
    pub active: u8,
    pub target_passthrough: u8,
}

#[derive(Clone, Debug)]
pub struct Trigger {
    pub name: String,
    pub active: u8,
}

#[derive(Copy, Clone, Debug, PartialEq, Eq, Structural)]
pub struct Platform {
    pub active: u8,
}

#[derive(Clone, Debug)]
pub struct Sound {
    pub name: String,
}

#[derive(Clone, Debug)]
pub struct Relay {
    pub name: String,
    pub active: u8,
}

/// A damageable trigger; of its damage vulnerabilities, the one to power bombs.
#[derive(Clone, Debug)]
pub struct DamageableTrigger {
    pub name: String,
    pub active: u8,
    pub power_bomb_vulnerability: u32,
}

/// A special function; of a layer change, also the area and layer it switches.
#[derive(Copy, Clone, Debug, PartialEq, Eq, Structural)]
pub struct SpecialFunction {
    pub type_: u32,
    pub layer_change_room_id: u32,
    pub layer_change_layer_id: u32,
}

/// The special function type that switches a layer of an area on or off.
pub const SPECIAL_FUNCTION_LAYER_CHANGE: u32 = 16;

/// The layer-change special function for layer `layer` of the area whose internal id is
/// `room_id`.
pub open spec fn layer_change(room_id: u32, layer: u32) -> SpecialFunction {
    SpecialFunction {
        type_: SPECIAL_FUNCTION_LAYER_CHANGE,
        layer_change_room_id: room_id,
        layer_change_layer_id: layer,
    }
}

impl SpecialFunction {
    /// A special function that switches layer `layer` of the area whose internal id is
    /// `room_id` when it is told to.
    pub fn layer_change_fn(room_id: u32, layer: u32) -> (r: SpecialFunction)
        ensures
            r == layer_change(room_id, layer),
    {
        SpecialFunction {
            type_: SPECIAL_FUNCTION_LAYER_CHANGE,
            layer_change_room_id: room_id,
            layer_change_layer_id: layer,
        }
    }
}

#[derive(Copy, Clone, Debug)]
pub struct PlayerHint {
    pub unknowns: [u8; 15],
}

#[derive(Copy, Clone, Debug, PartialEq, Eq, Structural)]
pub struct PointOfInterest {
    pub active: u8,
    pub scan: u32,
}

#[derive(Copy, Clone, Debug, PartialEq, Eq, Structural)]
pub struct PlayerActor {
    pub unknown0: u8,
}

/// The properties of a script object, by object type; `Other` holds the type number of an
/// object whose properties no patch reads.
#[derive(Clone, Debug)]
pub enum SclyProperty {
    Actor(Actor),
    Trigger(Trigger),
    Platform(Platform),
    Sound(Sound),
    Relay(Relay),
    DamageableTrigger(DamageableTrigger),
    Water,
    SpecialFunction(SpecialFunction),
    PlayerHint(PlayerHint),
    PointOfInterest(PointOfInterest),
    PlayerActor(PlayerActor),
    Other(u8),
}

/// The engine's type number of a script object.
pub open spec fn object_type_of(p: SclyProperty) -> u8 {
    match p {
        SclyProperty::Actor(_) => 0x00,
        SclyProperty::Trigger(_) => 0x04,
        SclyProperty::Platform(_) => 0x08,
        SclyProperty::Sound(_) => 0x09,
        SclyProperty::Relay(_) => 0x15,
        SclyProperty::DamageableTrigger(_) => 0x1A,
        SclyProperty::Water => 0x20,
        SclyProperty::SpecialFunction(_) => 0x3A,
        SclyProperty::PlayerHint(_) => 0x3E,
        SclyProperty::PointOfInterest(_) => 0x42,
        SclyProperty::PlayerActor(_) => 0x4C,
        SclyProperty::Other(t) => t,
    }
}

impl SclyProperty {
    /// The engine's type number of this object.
    pub fn object_type(&self) -> (r: u8)
        ensures
            r == object_type_of(*self),
    {
        match self {
            SclyProperty::Actor(_) => 0x00,
            SclyProperty::Trigger(_) => 0x04,
            SclyProperty::Platform(_) => 0x08,
            SclyProperty::Sound(_) => 0x09,
            SclyProperty::Relay(_) => 0x15,
            SclyProperty::DamageableTrigger(_) => 0x1A,
            SclyProperty::Water => 0x20,
            SclyProperty::SpecialFunction(_) => 0x3A,
            SclyProperty::PlayerHint(_) => 0x3E,
            SclyProperty::PointOfInterest(_) => 0x42,
            SclyProperty::PlayerActor(_) => 0x4C,
            SclyProperty::Other(t) => *t,
        }
    }
}

/// A script object.
pub struct SclyObject {
    pub instance_id: u32,
    pub connections: Vec<Connection>,
    pub property_data: SclyProperty,
}

/// One script layer of a room.
pub struct SclyLayer {
    pub objects: Vec<SclyObject>,
}

/// A resource that an area depends on.
#[derive(Copy, Clone, Debug, PartialEq, Eq, Structural)]
pub struct Dependency {
    pub asset_id: u32,
    pub asset_type: u32,
}

/// A room of a world: its script layers, which layers are active (bit `i` of `layer_flags` for
/// layer `i`), and its dependencies, one list per layer.
pub struct MlvlArea {
    pub mrea_id: u32,
    pub layers: Vec<SclyLayer>,
    pub layer_flags: u64,
    pub dependencies: Vec<Vec<Dependency>>,
}

impl MlvlArea {
    /// Appends an empty script layer and an empty dependency list for it. Whether the layer is
    /// active is left to the caller.
    pub fn add_layer(&mut self)
        ensures
            final(self).mrea_id == old(self).mrea_id,
            final(self).layer_flags == old(self).layer_flags,
            final(self).layers@.len() == old(self).layers@.len() + 1,
            forall|j: int| 0 <= j < old(self).layers@.len() ==> #[trigger] final(self).layers@[j] == old(self).layers@[j],
            final(self).layers@[old(self).layers@.len() as int].objects@.len() == 0,
            final(self).dependencies@.len() == old(self).dependencies@.len() + 1,
            forall|j: int| 0 <= j < old(self).dependencies@.len() ==> #[trigger] final(self).dependencies@[j] == old(self).dependencies@[j],
            final(self).dependencies@[old(self).dependencies@.len() as int]@.len() == 0,
    {
        self.layers.push(SclyLayer { objects: Vec::new() });
        self.dependencies.push(Vec::new());
    }
}

/// Layer `l` is active in `flags`.
pub open spec fn layer_active(flags: u64, l: u64) -> bool {
    (flags >> l) & 1 == 1
}

/// Turning on layer `l` turns on that layer alone.
pub proof fn lemma_layer_turned_on(flags: u64, l: u64, b: u64)
    requires
        l < 64,
        b < 64,
    ensures
        layer_active(flags | (1u64 << l), b) == (b == l || layer_active(flags, b)),
{
    assert(((flags | (1u64 << l)) >> b) & 1 == 1 <==> (b == l || (flags >> b) & 1 == 1)) by (bit_vector)
        requires
            l < 64,
            b < 64,
    ;
}

/// Turning off layer `l` turns off that layer alone.
pub proof fn lemma_layer_turned_off(flags: u64, l: u64, b: u64)
    requires
        l < 64,
        b < 64,
    ensures
        layer_active(flags & !(1u64 << l), b) == (b != l && layer_active(flags, b)),
{
    assert(((flags & !(1u64 << l)) >> b) & 1 == 1 <==> (b != l && (flags >> b) & 1 == 1)) by (bit_vector)
        requires
            l < 64,
            b < 64,
    ;
}

/// `new` is `old` with nothing changed but the objects of layer `l`, which are now `objects`.
pub open spec fn area_with_layer_objects(old: MlvlArea, new: MlvlArea, l: int, objects: Seq<SclyObject>) -> bool {
    &&& new.mrea_id == old.mrea_id
    &&& new.layer_flags == old.layer_flags
    &&& new.dependencies == old.dependencies
    &&& new.layers@.len() == old.layers@.len()
    &&& 0 <= l < old.layers@.len()
    &&& new.layers@[l].objects@ == objects
    &&& forall|j: int| 0 <= j < old.layers@.len() && j != l ==> #[trigger] new.layers@[j] == old.layers@[j]
}

/// `new` is `old` with every layer's objects filtered by `keep`.
pub open spec fn area_with_objects_kept(old: MlvlArea, new: MlvlArea, keep: spec_fn(SclyObject) -> bool) -> bool {
    &&& new.mrea_id == old.mrea_id
    &&& new.layer_flags == old.layer_flags
    &&& new.dependencies == old.dependencies
    &&& new.layers@.len() == old.layers@.len()
    &&& forall|j: int|
        0 <= j < old.layers@.len() ==> (#[trigger] new.layers@[j]).objects@ == old.layers@[j].objects@.filter(keep)
}

/// Keeps the objects for which `keep` holds, in order.
pub(crate) fn retain_objects<F: Fn(&SclyObject) -> bool>(
    objects: &mut Vec<SclyObject>,
    keep: &F,
    Ghost(pred): Ghost<spec_fn(SclyObject) -> bool>,
)
    requires
        forall|o: &SclyObject| #[trigger] keep.requires((o,)),
        forall|o: &SclyObject, b: bool| keep.ensures((o,), b) ==> b == pred(*o),
    ensures
        final(objects)@ == old(objects)@.filter(pred),
{
    let mut rest: Vec<SclyObject> = Vec::new();
    std::mem::swap(&mut rest, objects);
    let ghost orig = rest@;
    assert(objects@ + rest@.filter(pred) =~= orig.filter(pred));
    while rest.len() > 0
        invariant
            objects@ + rest@.filter(pred) == orig.filter(pred),
            forall|o: &SclyObject| #[trigger] keep.requires((o,)),
            forall|o: &SclyObject, b: bool| keep.ensures((o,), b) ==> b == pred(*o),
        decreases rest.len(),
    {
        let ghost before = rest@;
        let o = rest.remove(0);
        proof {
            assert(before =~= seq![o] + rest@);
            Seq::filter_distributes_over_add(seq![o], rest@, pred);
            reveal_with_fuel(Seq::filter, 2);
            assert(seq![o].drop_last() =~= Seq::<SclyObject>::empty());
        }
        let k = keep(&o);
        if k {
            let ghost acc = objects@;
            objects.push(o);
            proof {
                assert(seq![o].filter(pred) =~= seq![o]);
                assert(objects@ + rest@.filter(pred) =~= acc + (seq![o].filter(pred) + rest@.filter(pred)));
            }
        } else {
            proof {
                assert(seq![o].filter(pred) =~= Seq::<SclyObject>::empty());
                assert(seq![o].filter(pred) + rest@.filter(pred) =~= rest@.filter(pred));
            }
        }
    }
    assert(rest@.filter(pred) =~= Seq::<SclyObject>::empty()) by {
        reveal_with_fuel(Seq::filter, 1);
    }
    assert(objects@ =~= orig.filter(pred));
}

/// Keeps, in every layer of `area`, the objects for which `keep` holds.
pub(crate) fn retain_in_all_layers<F: Fn(&SclyObject) -> bool>(
    area: &mut MlvlArea,
    keep: &F,
    Ghost(pred): Ghost<spec_fn(SclyObject) -> bool>,
)
    requires
        forall|o: &SclyObject| #[trigger] keep.requires((o,)),
        forall|o: &SclyObject, b: bool| keep.ensures((o,), b) ==> b == pred(*o),
    ensures
        area_with_objects_kept(*old(area), *final(area), pred),
{
    let n = area.layers.len();
    let mut i: usize = 0;
    while i < n
        invariant
            n == area.layers@.len(),
            n == old(area).layers@.len(),
            i <= n,
            area.mrea_id == old(area).mrea_id,
            area.layer_flags == old(area).layer_flags,
            area.dependencies == old(area).dependencies,
            forall|j: int| 0 <= j < i ==> (#[trigger] area.layers@[j]).objects@ == old(area).layers@[j].objects@.filter(pred),
            forall|j: int| i <= j < n ==> #[trigger] area.layers@[j] == old(area).layers@[j],
            forall|o: &SclyObject| #[trigger] keep.requires((o,)),
            forall|o: &SclyObject, b: bool| keep.ensures((o,), b) ==> b == pred(*o),
        decreases n - i,
    {
        retain_objects(&mut area.layers[i].objects, keep, Ghost(pred));
        i = i + 1;
    }
}

/// `k` is the first index of `s` whose object satisfies `p`.
pub open spec fn first_where(s: Seq<SclyObject>, p: spec_fn(SclyObject) -> bool, k: int) -> bool {
    &&& 0 <= k < s.len()
    &&& p(s[k])
    &&& forall|j: int| 0 <= j < k ==> !p(#[trigger] s[j])
}

/// Some object of `s` satisfies `p`.
pub open spec fn any_where(s: Seq<SclyObject>, p: spec_fn(SclyObject) -> bool) -> bool {
    exists|k: int| 0 <= k < s.len() && p(#[trigger] s[k])
}

/// The first index of `s` whose object satisfies `p` (meaningful where there is one).
pub open spec fn first_index(s: Seq<SclyObject>, p: spec_fn(SclyObject) -> bool) -> int {
    choose|k: int| first_where(s, p, k)
}

/// The object has the instance id `id`.
pub open spec fn with_id(id: u32) -> spec_fn(SclyObject) -> bool {
    |o: SclyObject| o.instance_id == id
}

/// The object's instance id, without its layer byte, is `id`.
pub open spec fn with_masked_id(id: u32) -> spec_fn(SclyObject) -> bool {
    |o: SclyObject| o.instance_id & INSTANCE_ID_MASK == id
}

proof fn lemma_first_index(s: Seq<SclyObject>, p: spec_fn(SclyObject) -> bool, k: int)
    requires
        first_where(s, p, k),
    ensures
        first_index(s, p) == k,
{
    let c = first_index(s, p);
    assert(first_where(s, p, c));
    if c < k {
        assert(!p(s[c]));
    }
    if k < c {
        assert(!p(s[k]));
    }
}

/// The index of the first object with instance id `id`, if there is one.
pub(crate) fn position_of_id(objects: &Vec<SclyObject>, id: u32) -> (r: Option<usize>)
    ensures
        match r {
            Some(k) => first_where(objects@, with_id(id), k as int) && k as int == first_index(
                objects@,
                with_id(id),
            ),
            None => !any_where(objects@, with_id(id)),
        },
{
    let n = objects.len();
    let mut i: usize = 0;
    while i < n
        invariant
            n == objects@.len(),
            i <= n,
            forall|j: int| 0 <= j < i ==> !with_id(id)(#[trigger] objects@[j]),
        decreases n - i,
    {
        if objects[i].instance_id == id {
            proof {
                lemma_first_index(objects@, with_id(id), i as int);
            }
            return Some(i);
        }
        i = i + 1;
    }
    None
}

/// The index of the first object whose instance id without its layer byte is `id`, if there
/// is one.
pub(crate) fn position_of_masked_id(objects: &Vec<SclyObject>, id: u32) -> (r: Option<usize>)
    ensures
        match r {
            Some(k) => first_where(objects@, with_masked_id(id), k as int) && k as int == first_index(
                objects@,
                with_masked_id(id),
            ),
            None => !any_where(objects@, with_masked_id(id)),
        },
{
    let n = objects.len();
    let mut i: usize = 0;
    while i < n
        invariant
            n == objects@.len(),
            i <= n,
            forall|j: int| 0 <= j < i ==> !with_masked_id(id)(#[trigger] objects@[j]),
        decreases n - i,
    {
        if objects[i].instance_id & INSTANCE_ID_MASK == id {
            proof {
                lemma_first_index(objects@, with_masked_id(id), i as int);
            }
            return Some(i);
        }
        i = i + 1;
    }
    None
}

/// Whether `ids` holds `id`.
pub(crate) fn contains_id(ids: &[u32], id: u32) -> (r: bool)
    ensures
        r == ids@.contains(id),
{
    let n = ids.len();
    let mut i: usize = 0;
    while i < n
        invariant
            n == ids@.len(),
            i <= n,
            forall|j: int| 0 <= j < i ==> ids@[j] != id,
        decreases n - i,
    {
        if ids[i] == id {
            assert(ids@[i as int] == id);
            return true;
        }
        i = i + 1;
    }
    false
}

/// Layer `l` of `area` has an object satisfying `p`, and the first such object satisfies `q`.
pub open spec fn first_in_layer(area: MlvlArea, l: int, p: spec_fn(SclyObject) -> bool, q: spec_fn(SclyObject) -> bool) -> bool {
    &&& 0 <= l < area.layers@.len()
    &&& any_where(area.layers@[l].objects@, p)
    &&& q(area.layers@[l].objects@[first_index(area.layers@[l].objects@, p)])
}

/// `new` is `old` with the first object of layer `l` that satisfies `p` replaced by `f` of it.
pub open spec fn area_with_first_updated(
    old: MlvlArea,
    new: MlvlArea,
    l: int,
    p: spec_fn(SclyObject) -> bool,
    f: spec_fn(SclyObject) -> SclyObject,
) -> bool {
    let objects = old.layers@[l].objects@;
    let k = first_index(objects, p);
    area_with_layer_objects(old, new, l, objects.update(k, f(objects[k])))
}

/// The object with its `active` flag set to `v`, for the object types that have one.
pub open spec fn with_active(o: SclyObject, v: u8) -> SclyObject {
    match o.property_data {
        SclyProperty::Actor(a) => SclyObject {
            property_data: SclyProperty::Actor(Actor { active: v, ..a }),
            ..o
        },
        SclyProperty::Trigger(t) => SclyObject {
            property_data: SclyProperty::Trigger(Trigger { active: v, ..t }),
            ..o
        },
        SclyProperty::Platform(p) => SclyObject {
            property_data: SclyProperty::Platform(Platform { active: v }),
            ..o
        },
        SclyProperty::Relay(r) => SclyObject {
            property_data: SclyProperty::Relay(Relay { active: v, ..r }),
            ..o
        },
        SclyProperty::DamageableTrigger(d) => SclyObject {
            property_data: SclyProperty::DamageableTrigger(DamageableTrigger { active: v, ..d }),
            ..o
        },
        SclyProperty::PointOfInterest(p) => SclyObject {
            property_data: SclyProperty::PointOfInterest(PointOfInterest { active: v, ..p }),
            ..o
        },
        _ => o,
    }
}

/// Sets the `active` flag of an object, for the object types that have one.
pub(crate) fn set_active(obj: &mut SclyObject, v: u8)
    ensures
        *final(obj) == with_active(*old(obj), v),
{
    match &mut obj.property_data {
        SclyProperty::Actor(a) => {
            a.active = v;
        },
        SclyProperty::Trigger(t) => {
            t.active = v;
        },
        SclyProperty::Platform(p) => {
            p.active = v;
        },
        SclyProperty::Relay(r) => {
            r.active = v;
        },
        SclyProperty::DamageableTrigger(d) => {
            d.active = v;
        },
        SclyProperty::PointOfInterest(p) => {
            p.active = v;
        },
        _ => {},
    }
}

/// Replacing an object by one that `p` judges alike leaves the objects that satisfy `p`, and the
/// first of them, where they were.
pub proof fn lemma_update_keeps_first(s: Seq<SclyObject>, k: int, v: SclyObject, p: spec_fn(SclyObject) -> bool)
    requires
        0 <= k < s.len(),
        p(s[k]) == p(v),
    ensures
        any_where(s.update(k, v), p) == any_where(s, p),
        any_where(s, p) ==> first_index(s.update(k, v), p) == first_index(s, p),
{
    let t = s.update(k, v);
    if any_where(s, p) {
        let w = choose|w: int| 0 <= w < s.len() && p(#[trigger] s[w]);
        assert(p(t[w]));
        let f = first_index(s, p);
        lemma_first_exists(s, p);
        assert(first_where(t, p, f)) by {
            assert(p(t[f]));
            assert forall|j: int| 0 <= j < f implies !p(#[trigger] t[j]) by {
                assert(!p(s[j]));
            }
        }
        lemma_first_index(t, p, f);
    }
    if any_where(t, p) {
        let w = choose|w: int| 0 <= w < t.len() && p(#[trigger] t[w]);
        assert(p(s[w]));
    }
}

/// Where some object satisfies `p`, there is a first one.
pub proof fn lemma_first_exists(s: Seq<SclyObject>, p: spec_fn(SclyObject) -> bool)
    requires
        any_where(s, p),
    ensures
        first_where(s, p, first_index(s, p)),
    decreases s.len(),
{
    let w = choose|w: int| 0 <= w < s.len() && p(#[trigger] s[w]);
    if p(s[0]) {
        assert(first_where(s, p, 0));
    } else {
        let t = s.drop_first();
        assert(p(t[w - 1]));
        lemma_first_exists(t, p);
        let f = first_index(t, p);
        assert(first_where(s, p, f + 1)) by {
            assert forall|j: int| 0 <= j < f + 1 implies !p(#[trigger] s[j]) by {
                if j > 0 {
                    assert(s[j] == t[j - 1]);
                }
            }
        }
    }
}

/// `n` is `o` with `added` appended to its connections.
pub open spec fn connections_appended(o: SclyObject, n: SclyObject, added: Seq<Connection>) -> bool {
    &&& n.instance_id == o.instance_id
    &&& n.property_data == o.property_data
    &&& n.connections@ == o.connections@ + added
}

/// `new` is `old` with the first object of layer `l` that satisfies `p` given the connections
/// `added` after its own.
pub open spec fn area_with_connections_appended(
    old: MlvlArea,
    new: MlvlArea,
    l: int,
    p: spec_fn(SclyObject) -> bool,
    added: Seq<Connection>,
) -> bool {
    let objects = old.layers@[l].objects@;
    let k = first_index(objects, p);
    &&& new.mrea_id == old.mrea_id
    &&& new.layer_flags == old.layer_flags
    &&& new.dependencies == old.dependencies
    &&& new.layers@.len() == old.layers@.len()
    &&& forall|j: int| 0 <= j < old.layers@.len() && j != l ==> #[trigger] new.layers@[j] == old.layers@[j]
    &&& new.layers@[l].objects@.len() == objects.len()
    &&& forall|j: int| 0 <= j < objects.len() && j != k ==> #[trigger] new.layers@[l].objects@[j] == objects[j]
    &&& connections_appended(objects[k], new.layers@[l].objects@[k], added)
}

/// `new` is `old` with nothing changed but layer `l`, in which every object that satisfies `p`
/// has the connections `added` after its own.
pub open spec fn area_with_each_given_connections(
    old: MlvlArea,
    new: MlvlArea,
    l: int,
    p: spec_fn(SclyObject) -> bool,
    added: Seq<Connection>,
) -> bool {
    let objects = old.layers@[l].objects@;
    &&& new.mrea_id == old.mrea_id
    &&& new.layer_flags == old.layer_flags
    &&& new.dependencies == old.dependencies
    &&& new.layers@.len() == old.layers@.len()
    &&& forall|j: int| 0 <= j < old.layers@.len() && j != l ==> #[trigger] new.layers@[j] == old.layers@[j]
    &&& new.layers@[l].objects@.len() == objects.len()
    &&& forall|j: int| 0 <= j < objects.len() ==> if p(objects[j]) {
        connections_appended(objects[j], #[trigger] new.layers@[l].objects@[j], added)
    } else {
        new.layers@[l].objects@[j] == objects[j]
    }
}

/// `new` is `old` with nothing changed but layer `l`, in which the first object that satisfies
/// `p` has the connections `added` after its own, and a new object without connections, with
/// instance id `id` and properties `property`, comes after the last object.
pub open spec fn area_with_object_added_and_connected(
    old: MlvlArea,
    new: MlvlArea,
    l: int,
    p: spec_fn(SclyObject) -> bool,
    added: Seq<Connection>,
    id: u32,
    property: SclyProperty,
) -> bool {
    let objects = old.layers@[l].objects@;
    let k = first_index(objects, p);
    &&& new.mrea_id == old.mrea_id
    &&& new.layer_flags == old.layer_flags
    &&& new.dependencies == old.dependencies
    &&& new.layers@.len() == old.layers@.len()
    &&& forall|j: int| 0 <= j < old.layers@.len() && j != l ==> #[trigger] new.layers@[j] == old.layers@[j]
    &&& new.layers@[l].objects@.len() == objects.len() + 1
    &&& forall|j: int| 0 <= j < objects.len() && j != k ==> #[trigger] new.layers@[l].objects@[j] == objects[j]
    &&& connections_appended(objects[k], new.layers@[l].objects@[k], added)
    &&& new.layers@[l].objects@[objects.len() as int].instance_id == id
    &&& new.layers@[l].objects@[objects.len() as int].property_data == property
    &&& new.layers@[l].objects@[objects.len() as int].connections@.len() == 0
}

/// Keeps the connections whose target is not listed in `ids`, in order.
pub(crate) fn retain_connections_not_to(connections: &mut Vec<Connection>, ids: &[u32])
    ensures
        final(connections)@ == old(connections)@.filter(|c: Connection| !ids@.contains(c.target_object_id)),
{
    let ghost pred = |c: Connection| !ids@.contains(c.target_object_id);
    let mut rest: Vec<Connection> = Vec::new();
    std::mem::swap(&mut rest, connections);
    let ghost orig = rest@;
    assert(connections@ + rest@.filter(pred) =~= orig.filter(pred));
    while rest.len() > 0
        invariant
            connections@ + rest@.filter(pred) == orig.filter(pred),
            pred == (|c: Connection| !ids@.contains(c.target_object_id)),
        decreases rest.len(),
    {
        let ghost before = rest@;
        let c = rest.remove(0);
        proof {
            assert(before =~= seq![c] + rest@);
            Seq::filter_distributes_over_add(seq![c], rest@, pred);
            reveal_with_fuel(Seq::filter, 2);
            assert(seq![c].drop_last() =~= Seq::<Connection>::empty());
        }
        if !contains_id(ids, c.target_object_id) {
            let ghost acc = connections@;
            connections.push(c);
            proof {
                assert(seq![c].filter(pred) =~= seq![c]);
                assert(connections@ + rest@.filter(pred) =~= acc + (seq![c].filter(pred) + rest@.filter(pred)));
            }
        } else {
            proof {
                assert(seq![c].filter(pred) =~= Seq::<Connection>::empty());
                assert(seq![c].filter(pred) + rest@.filter(pred) =~= rest@.filter(pred));
            }
        }
    }
    assert(rest@.filter(pred) =~= Seq::<Connection>::empty()) by {
        reveal_with_fuel(Seq::filter, 1);
    }
    assert(connections@ =~= orig.filter(pred));
}

impl SclyObject {
    /// A copy of this object: the same instance id, connections and properties.
    pub fn duplicate(&self) -> (r: SclyObject)
        ensures
            r.instance_id == self.instance_id,
            r.connections@ == self.connections@,
            r.property_data == self.property_data,
    {
        let mut connections: Vec<Connection> = Vec::new();
        let n = self.connections.len();
        let mut i: usize = 0;
        while i < n
            invariant
                n == self.connections@.len(),
                i <= n,
                connections@ == self.connections@.subrange(0, i as int),
            decreases n - i,
        {
            connections.push(self.connections[i]);
            assert(connections@ =~= self.connections@.subrange(0, i + 1));
            i = i + 1;
        }
        assert(connections@ =~= self.connections@);
        let property_data = match &self.property_data {
            SclyProperty::Actor(a) => SclyProperty::Actor(*a),
            SclyProperty::Trigger(t) => SclyProperty::Trigger(Trigger { name: t.name.clone(), active: t.active }),
            SclyProperty::Platform(p) => SclyProperty::Platform(*p),
            SclyProperty::Sound(snd) => SclyProperty::Sound(Sound { name: snd.name.clone() }),
            SclyProperty::Relay(r) => SclyProperty::Relay(Relay { name: r.name.clone(), active: r.active }),
            SclyProperty::DamageableTrigger(d) => SclyProperty::DamageableTrigger(DamageableTrigger {
                name: d.name.clone(),
                active: d.active,
                power_bomb_vulnerability: d.power_bomb_vulnerability,
            }),
            SclyProperty::Water => SclyProperty::Water,
            SclyProperty::SpecialFunction(f) => SclyProperty::SpecialFunction(*f),
            SclyProperty::PlayerHint(h) => SclyProperty::PlayerHint(PlayerHint { unknowns: h.unknowns }),
            SclyProperty::PointOfInterest(p) => SclyProperty::PointOfInterest(*p),
            SclyProperty::PlayerActor(a) => SclyProperty::PlayerActor(*a),
            SclyProperty::Other(t) => SclyProperty::Other(*t),
        };
        SclyObject { instance_id: self.instance_id, connections, property_data }
    }
}

/// Filtering twice by the same predicate is filtering once.
pub proof fn lemma_filter_twice<A>(s: Seq<A>, p: spec_fn(A) -> bool)
    ensures
        s.filter(p).filter(p) == s.filter(p),
    decreases s.len(),
{
    reveal(Seq::filter);
    if s.len() > 0 {
        lemma_filter_twice(s.drop_last(), p);
        let f = s.drop_last().filter(p);
        if p(s.last()) {
            assert(f.push(s.last()).drop_last() =~= f);
        }
    }
}

/// A patch that keeps the objects satisfying a predicate changes nothing the second time.
pub proof fn lemma_keeping_objects_is_idempotent(a: MlvlArea, b: MlvlArea, c: MlvlArea, keep: spec_fn(SclyObject) -> bool)
    requires
        area_with_objects_kept(a, b, keep),
        area_with_objects_kept(b, c, keep),
    ensures
        c.mrea_id == b.mrea_id,
        c.layer_flags == b.layer_flags,
        c.dependencies == b.dependencies,
        c.layers@.len() == b.layers@.len(),
        forall|j: int| 0 <= j < b.layers@.len() ==> (#[trigger] c.layers@[j]).objects@ == b.layers@[j].objects@,
{
    assert forall|j: int| 0 <= j < b.layers@.len() implies (#[trigger] c.layers@[j]).objects@ == b.layers@[j].objects@ by {
        lemma_filter_twice(a.layers@[j].objects@, keep);
    }
}

/// A patch that keeps the objects satisfying a predicate keeps exactly those: every object left
/// satisfies it and was there before, and every object that satisfied it is still there.
pub proof fn lemma_keeping_objects_keeps_exactly(a: MlvlArea, b: MlvlArea, keep: spec_fn(SclyObject) -> bool, j: int)
    requires
        area_with_objects_kept(a, b, keep),
        0 <= j < a.layers@.len(),
    ensures
        forall|o: SclyObject| #[trigger] b.layers@[j].objects@.contains(o) ==> keep(o) && a.layers@[j].objects@.contains(o),
        forall|o: SclyObject| #[trigger] a.layers@[j].objects@.contains(o) && keep(o) ==> b.layers@[j].objects@.contains(o),
{
    broadcast use vstd::seq_lib::group_filter_ensures;
    let s = a.layers@[j].objects@;
    assert forall|o: SclyObject| #[trigger] b.layers@[j].objects@.contains(o) implies keep(o) && s.contains(o) by {
        s.lemma_filter_contains_rev(keep, o);
    }
    assert forall|o: SclyObject| #[trigger] s.contains(o) && keep(o) implies b.layers@[j].objects@.contains(o) by {
        let i = choose|i: int| 0 <= i < s.len() && s[i] == o;
        s.lemma_filter_contains(keep, i);
    }
}

} // verus!
