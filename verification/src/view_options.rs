//! The view options of the editor's side panel: which kinds of collision
//! surface are drawn, and how the shortcut check boxes change them.

use vstd::prelude::*;

verus! {

/// The number of kinds of collision surface.
pub const KCL_TYPE_COUNT: usize = 32;

/// A kind of collision surface; its position in this list is its index in
/// the collision model's vertex groups.
#[derive(Clone, Copy, Debug, PartialEq, Eq, Structural)]
pub enum KclFlag {
    Road1,
    SlipperyRoad1,
    WeakOffroad,
    Offroad,
    HeavyOffroad,
    SlipperyRoad2,
    BoostPanel,
    BoostRamp,
    SlowRamp,
    ItemRoad,
    SolidFall,
    MovingWater,
    Wall1,
    InvisibleWall1,
    ItemWall,
    Wall2,
    FallBoundary,
    CannonTrigger,
    ForceRecalculation,
    HalfPipeRamp,
    PlayerOnlyWall,
    MovingRoad,
    StickyRoad,
    Road2,
    SoundTrigger,
    WeakWall,
    EffectTrigger,
    ItemStateModifier,
    HalfPipeInvisibleWall,
    RotatingRoad,
    SpecialWall,
    InvisibleWall2,
}

/// The vertex group index of a kind of surface.
pub open spec fn flag_index(f: KclFlag) -> int {
    match f {
        KclFlag::Road1 => 0,
        KclFlag::SlipperyRoad1 => 1,
        KclFlag::WeakOffroad => 2,
        KclFlag::Offroad => 3,
        KclFlag::HeavyOffroad => 4,
        KclFlag::SlipperyRoad2 => 5,
        KclFlag::BoostPanel => 6,
        KclFlag::BoostRamp => 7,
        KclFlag::SlowRamp => 8,
        KclFlag::ItemRoad => 9,
        KclFlag::SolidFall => 10,
        KclFlag::MovingWater => 11,
        KclFlag::Wall1 => 12,
        KclFlag::InvisibleWall1 => 13,
        KclFlag::ItemWall => 14,
        KclFlag::Wall2 => 15,
        KclFlag::FallBoundary => 16,
        KclFlag::CannonTrigger => 17,
        KclFlag::ForceRecalculation => 18,
        KclFlag::HalfPipeRamp => 19,
        KclFlag::PlayerOnlyWall => 20,
        KclFlag::MovingRoad => 21,
        KclFlag::StickyRoad => 22,
        KclFlag::Road2 => 23,
        KclFlag::SoundTrigger => 24,
        KclFlag::WeakWall => 25,
        KclFlag::EffectTrigger => 26,
        KclFlag::ItemStateModifier => 27,
        KclFlag::HalfPipeInvisibleWall => 28,
        KclFlag::RotatingRoad => 29,
        KclFlag::SpecialWall => 30,
        KclFlag::InvisibleWall2 => 31,
    }
}

/// The names of the surface kinds, by vertex group index.
pub open spec fn kcl_type_names() -> Seq<Seq<char>> {
    seq![
        "Road1"@,
        "SlipperyRoad1"@,
        "WeakOffroad"@,
        "Offroad"@,
        "HeavyOffroad"@,
        "SlipperyRoad2"@,
        "BoostPanel"@,
        "BoostRamp"@,
        "SlowRamp"@,
        "ItemRoad"@,
        "SolidFall"@,
        "MovingWater"@,
        "Wall1"@,
        "InvisibleWall1"@,
        "ItemWall"@,
        "Wall2"@,
        "FallBoundary"@,
        "CannonTrigger"@,
        "ForceRecalculation"@,
        "HalfPipeRamp"@,
        "PlayerOnlyWall"@,
        "MovingRoad"@,
        "StickyRoad"@,
        "Road2"@,
        "SoundTrigger"@,
        "WeakWall"@,
        "EffectTrigger"@,
        "ItemStateModifier"@,
        "HalfPipeInvisibleWall"@,
        "RotatingRoad"@,
        "SpecialWall"@,
        "InvisibleWall2"@,
    ]
}

impl KclFlag {
    /// The vertex group index of this kind of surface.
    pub fn index(self) -> (r: usize)
        ensures
            r == flag_index(self),
            r < KCL_TYPE_COUNT,
    {
        match self {
            KclFlag::Road1 => 0,
            KclFlag::SlipperyRoad1 => 1,
            KclFlag::WeakOffroad => 2,
            KclFlag::Offroad => 3,
            KclFlag::HeavyOffroad => 4,
            KclFlag::SlipperyRoad2 => 5,
            KclFlag::BoostPanel => 6,
            KclFlag::BoostRamp => 7,
            KclFlag::SlowRamp => 8,
            KclFlag::ItemRoad => 9,
            KclFlag::SolidFall => 10,
            KclFlag::MovingWater => 11,
            KclFlag::Wall1 => 12,
            KclFlag::InvisibleWall1 => 13,
            KclFlag::ItemWall => 14,
            KclFlag::Wall2 => 15,
            KclFlag::FallBoundary => 16,
            KclFlag::CannonTrigger => 17,
            KclFlag::ForceRecalculation => 18,
            KclFlag::HalfPipeRamp => 19,
            KclFlag::PlayerOnlyWall => 20,
            KclFlag::MovingRoad => 21,
            KclFlag::StickyRoad => 22,
            KclFlag::Road2 => 23,
            KclFlag::SoundTrigger => 24,
            KclFlag::WeakWall => 25,
            KclFlag::EffectTrigger => 26,
            KclFlag::ItemStateModifier => 27,
            KclFlag::HalfPipeInvisibleWall => 28,
            KclFlag::RotatingRoad => 29,
            KclFlag::SpecialWall => 30,
            KclFlag::InvisibleWall2 => 31,
        }
    }
}

/// The name of the surface kind with vertex group index `i`, as its check
/// box shows it.
pub fn kcl_type_name(i: usize) -> (r: &'static str)
    requires
        i < KCL_TYPE_COUNT,
    ensures
        r@ == kcl_type_names()[i as int],
{
    match i {
            0 => "Road1",
            1 => "SlipperyRoad1",
            2 => "WeakOffroad",
            3 => "Offroad",
            4 => "HeavyOffroad",
            5 => "SlipperyRoad2",
            6 => "BoostPanel",
            7 => "BoostRamp",
            8 => "SlowRamp",
            9 => "ItemRoad",
            10 => "SolidFall",
            11 => "MovingWater",
            12 => "Wall1",
            13 => "InvisibleWall1",
            14 => "ItemWall",
            15 => "Wall2",
            16 => "FallBoundary",
            17 => "CannonTrigger",
            18 => "ForceRecalculation",
            19 => "HalfPipeRamp",
            20 => "PlayerOnlyWall",
            21 => "MovingRoad",
            22 => "StickyRoad",
            23 => "Road2",
            24 => "SoundTrigger",
            25 => "WeakWall",
            26 => "EffectTrigger",
            27 => "ItemStateModifier",
            28 => "HalfPipeInvisibleWall",
            29 => "RotatingRoad",
            30 => "SpecialWall",
        _ => "InvisibleWall2",
    }
}

/// The four shortcut check boxes of the "Collision Model" view options.
#[derive(Clone, Copy, Debug, PartialEq, Eq, Structural)]
pub struct ViewToggles {
    pub show_walls: bool,
    pub show_invisible_walls: bool,
    pub show_death_barriers: bool,
    pub show_effects_triggers: bool,
}

/// A shortcut check box.
#[derive(Clone, Copy, Debug, PartialEq, Eq, Structural)]
pub enum ViewCategory {
    Walls,
    InvisibleWalls,
    DeathBarriers,
    EffectsTriggers,
}

/// The check box that governs the vertex group with index `i`, if any:
/// walls (Wall1, Wall2, WeakWall), invisible walls (InvisibleWall1,
/// InvisibleWall2), death barriers (SolidFall, FallBoundary), and effects
/// and triggers (ItemStateModifier, EffectTrigger, SoundTrigger,
/// CannonTrigger).
pub open spec fn category_of(i: int) -> Option<ViewCategory> {
    if i == flag_index(KclFlag::Wall1) || i == flag_index(KclFlag::Wall2) || i == flag_index(
        KclFlag::WeakWall,
    ) {
        Some(ViewCategory::Walls)
    } else if i == flag_index(KclFlag::InvisibleWall1) || i == flag_index(KclFlag::InvisibleWall2) {
        Some(ViewCategory::InvisibleWalls)
    } else if i == flag_index(KclFlag::SolidFall) || i == flag_index(KclFlag::FallBoundary) {
        Some(ViewCategory::DeathBarriers)
    } else if i == flag_index(KclFlag::ItemStateModifier) || i == flag_index(KclFlag::EffectTrigger)
        || i == flag_index(KclFlag::SoundTrigger) || i == flag_index(KclFlag::CannonTrigger) {
        Some(ViewCategory::EffectsTriggers)
    } else {
        None
    }
}

/// The value of one check box.
pub open spec fn toggle_value(t: ViewToggles, c: ViewCategory) -> bool {
    match c {
        ViewCategory::Walls => t.show_walls,
        ViewCategory::InvisibleWalls => t.show_invisible_walls,
        ViewCategory::DeathBarriers => t.show_death_barriers,
        ViewCategory::EffectsTriggers => t.show_effects_triggers,
    }
}

/// The visibility of the vertex groups after the check boxes go from
/// `current` to `requested`: a group follows its check box when that box
/// changed, and keeps its visibility otherwise.
pub open spec fn spec_apply_toggles(
    current: ViewToggles,
    requested: ViewToggles,
    visible: Seq<bool>,
) -> Seq<bool> {
    Seq::new(
        visible.len(),
        |i: int|
            match category_of(i) {
                Some(c) => if toggle_value(current, c) != toggle_value(requested, c) {
                    toggle_value(requested, c)
                } else {
                    visible[i]
                },
                None => visible[i],
            },
    )
}

/// Every vertex group that a changed check box governs exists among `len`
/// groups (else applying the check boxes indexes past the end).
pub open spec fn toggles_fit(current: ViewToggles, requested: ViewToggles, len: nat) -> bool {
    forall|i: int|
        0 <= i && #[trigger] category_of(i) is Some && toggle_value(current, category_of(i)->0)
            != toggle_value(requested, category_of(i)->0) ==> i < len
}

/// Whether every vertex group that a changed check box governs exists
/// among `len` groups.
pub fn toggles_fit_len(current: ViewToggles, requested: ViewToggles, len: usize) -> (r: bool)
    ensures
        r == toggles_fit(current, requested, len as nat),
{
    let walls = requested.show_walls == current.show_walls || KclFlag::WeakWall.index() < len;
    let invisible = requested.show_invisible_walls == current.show_invisible_walls
        || KclFlag::InvisibleWall2.index() < len;
    let death = requested.show_death_barriers == current.show_death_barriers
        || KclFlag::FallBoundary.index() < len;
    let effects = requested.show_effects_triggers == current.show_effects_triggers
        || KclFlag::ItemStateModifier.index() < len;
    let r = walls && invisible && death && effects;
    if !r {
        if !walls {
            assert(category_of(25) is Some);
        } else if !invisible {
            assert(category_of(31) is Some);
        } else if !death {
            assert(category_of(16) is Some);
        } else {
            assert(category_of(27) is Some);
        }
    }
    r
}

/// Sets every group of category `c` to `v` (`groups` are its indices).
fn set_groups(visible: &mut Vec<bool>, c: ViewCategory, v: bool, groups: &[usize])
    requires
        forall|k: int| 0 <= k < groups@.len() ==> #[trigger] groups@[k] < old(visible)@.len(),
        forall|i: int|
            0 <= i < old(visible)@.len() ==> (category_of(i) == Some(c) <==> exists|k: int|
                0 <= k < groups@.len() && groups@[k] == i),
    ensures
        final(visible)@.len() == old(visible)@.len(),
        forall|i: int|
            0 <= i < old(visible)@.len() ==> #[trigger] final(visible)@[i] == if category_of(i) == Some(
                c,
            ) {
                v
            } else {
                old(visible)@[i]
            },
{
    let ghost orig = visible@;
    let mut k: usize = 0;
    while k < groups.len()
        invariant
            k <= groups@.len(),
            visible@.len() == orig.len(),
            forall|j: int| 0 <= j < groups@.len() ==> #[trigger] groups@[j] < orig.len(),
            forall|i: int|
                0 <= i < orig.len() ==> #[trigger] visible@[i] == if exists|j: int|
                    0 <= j < k && groups@[j] == i {
                    v
                } else {
                    orig[i]
                },
        decreases groups@.len() - k,
    {
        let g = groups[k];
        visible.set(g, v);
        k = k + 1;
        assert forall|i: int| 0 <= i < orig.len() implies #[trigger] visible@[i] == if exists|j: int|
            0 <= j < k && groups@[j] == i {
            v
        } else {
            orig[i]
        } by {
            if i == g as int {
                assert(groups@[k - 1] == i);
            }
        }
    }
}

/// Applies the shortcut check boxes: each box that changed from `current`
/// to `requested` shows or hides its vertex groups; `current` becomes
/// `requested`.
pub fn apply_view_toggles(current: &mut ViewToggles, requested: ViewToggles, visible: &mut Vec<bool>)
    requires
        toggles_fit(*old(current), requested, old(visible)@.len()),
    ensures
        *final(current) == requested,
        final(visible)@ == spec_apply_toggles(*old(current), requested, old(visible)@),
{
    let ghost orig = visible@;
    let ghost cur = *current;
    if requested.show_walls != current.show_walls {
        current.show_walls = requested.show_walls;
        let groups = [
            KclFlag::Wall1.index(),
            KclFlag::Wall2.index(),
            KclFlag::WeakWall.index(),
        ];
        assert(category_of(25) is Some);
        set_groups(visible, ViewCategory::Walls, requested.show_walls, &groups);
    }
    if requested.show_invisible_walls != current.show_invisible_walls {
        current.show_invisible_walls = requested.show_invisible_walls;
        let groups = [KclFlag::InvisibleWall1.index(), KclFlag::InvisibleWall2.index()];
        assert(category_of(31) is Some);
        set_groups(visible, ViewCategory::InvisibleWalls, requested.show_invisible_walls, &groups);
    }
    if requested.show_death_barriers != current.show_death_barriers {
        current.show_death_barriers = requested.show_death_barriers;
        let groups = [KclFlag::SolidFall.index(), KclFlag::FallBoundary.index()];
        assert(category_of(16) is Some);
        set_groups(visible, ViewCategory::DeathBarriers, requested.show_death_barriers, &groups);
    }
    if requested.show_effects_triggers != current.show_effects_triggers {
        current.show_effects_triggers = requested.show_effects_triggers;
        let groups = [
            KclFlag::ItemStateModifier.index(),
            KclFlag::EffectTrigger.index(),
            KclFlag::SoundTrigger.index(),
            KclFlag::CannonTrigger.index(),
        ];
        assert(category_of(27) is Some);
        set_groups(visible, ViewCategory::EffectsTriggers, requested.show_effects_triggers, &groups);
    }
    assert(visible@ =~= spec_apply_toggles(cur, requested, orig));
}

/// Shows or hides every vertex group ("Check All", "Uncheck All", and the
/// visibility part of "Reset").
pub fn set_all_visible(visible: &mut Vec<bool>, v: bool)
    ensures
        final(visible)@ == Seq::new(old(visible)@.len(), |i: int| v),
{
    let n = visible.len();
    let mut i: usize = 0;
    while i < n
        invariant
            i <= n,
            visible@.len() == n,
            forall|j: int| 0 <= j < i ==> #[trigger] visible@[j] == v,
        decreases n - i,
    {
        visible.set(i, v);
        i = i + 1;
    }
    assert(visible@ =~= Seq::new(n as nat, |i: int| v));
}

} // verus!
