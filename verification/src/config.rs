//! The two tables that steer dispatch: which action a gesture in a zone
//! triggers, and which zone changes count as a touch.

use std::collections::HashMap;
use vstd::prelude::*;
use crate::action::Action;
use crate::screen_position::{all_zones, ScreenPosition};
use crate::user_operation::{all_gestures, UserOperation};

verus! {

broadcast use vstd::std_specs::hash::group_hash_axioms;

/// The number of a zone, in declaration order.
pub open spec fn zone_code(zone: ScreenPosition) -> u64 {
    match zone {
        ScreenPosition::LeftTop => 0,
        ScreenPosition::Top1 => 1,
        ScreenPosition::Top2 => 2,
        ScreenPosition::Top3 => 3,
        ScreenPosition::RightTop => 4,
        ScreenPosition::Left1 => 5,
        ScreenPosition::Left2 => 6,
        ScreenPosition::Left3 => 7,
        ScreenPosition::Center => 8,
        ScreenPosition::Right1 => 9,
        ScreenPosition::Right2 => 10,
        ScreenPosition::Right3 => 11,
        ScreenPosition::LeftBottom => 12,
        ScreenPosition::Bottom1 => 13,
        ScreenPosition::Bottom2 => 14,
        ScreenPosition::Bottom3 => 15,
        ScreenPosition::RightBottom => 16,
    }
}

/// The number of a gesture, in declaration order.
pub open spec fn gesture_code(gesture: UserOperation) -> u64 {
    match gesture {
        UserOperation::ScrollUp => 0,
        UserOperation::ScrollDown => 1,
        UserOperation::MiddlePress => 2,
        UserOperation::MiddleRelease => 3,
        UserOperation::Touch => 4,
    }
}

/// The number of a (zone, gesture) pair. Distinct pairs have distinct
/// numbers.
pub open spec fn binding_code(zone: ScreenPosition, gesture: UserOperation) -> u64 {
    (zone_code(zone) * 5 + gesture_code(gesture)) as u64
}

fn zone_number(zone: ScreenPosition) -> (code: u64)
    ensures
        code == zone_code(zone),
{
    match zone {
        ScreenPosition::LeftTop => 0,
        ScreenPosition::Top1 => 1,
        ScreenPosition::Top2 => 2,
        ScreenPosition::Top3 => 3,
        ScreenPosition::RightTop => 4,
        ScreenPosition::Left1 => 5,
        ScreenPosition::Left2 => 6,
        ScreenPosition::Left3 => 7,
        ScreenPosition::Center => 8,
        ScreenPosition::Right1 => 9,
        ScreenPosition::Right2 => 10,
        ScreenPosition::Right3 => 11,
        ScreenPosition::LeftBottom => 12,
        ScreenPosition::Bottom1 => 13,
        ScreenPosition::Bottom2 => 14,
        ScreenPosition::Bottom3 => 15,
        ScreenPosition::RightBottom => 16,
    }
}

fn binding_number(zone: ScreenPosition, gesture: UserOperation) -> (code: u64)
    ensures
        code == binding_code(zone, gesture),
{
    let gesture_number: u64 = match gesture {
        UserOperation::ScrollUp => 0,
        UserOperation::ScrollDown => 1,
        UserOperation::MiddlePress => 2,
        UserOperation::MiddleRelease => 3,
        UserOperation::Touch => 4,
    };
    zone_number(zone) * 5 + gesture_number
}

/// A table from (zone, gesture) pairs to actions. A pair has at most one
/// action; most pairs have none.
#[derive(Debug)]
pub struct ActionTable {
    bindings: HashMap<u64, Action>,
}

impl View for ActionTable {
    type V = Map<(ScreenPosition, UserOperation), Action>;

    closed spec fn view(&self) -> Map<(ScreenPosition, UserOperation), Action> {
        Map::new(
            |pair: (ScreenPosition, UserOperation)|
                self.bindings@.contains_key(binding_code(pair.0, pair.1)),
            |pair: (ScreenPosition, UserOperation)| self.bindings@[binding_code(pair.0, pair.1)],
        )
    }
}

impl ActionTable {
    /// A table without bindings.
    pub fn new() -> (table: ActionTable)
        ensures
            table@ == Map::<(ScreenPosition, UserOperation), Action>::empty(),
    {
        let table = ActionTable { bindings: HashMap::new() };
        assert(table@ =~= Map::<(ScreenPosition, UserOperation), Action>::empty());
        table
    }

    /// Binds `gesture` in `zone` to `action`, in place of the action that
    /// the pair had, if it had one. No other pair is affected.
    pub fn bind(&mut self, zone: ScreenPosition, gesture: UserOperation, action: Action)
        ensures
            final(self)@ == old(self)@.insert((zone, gesture), action),
    {
        let code: u64 = binding_number(zone, gesture);
        self.bindings.insert(code, action);
        assert(self@ =~= old(self)@.insert((zone, gesture), action));
    }

    /// The bindings of the table as (zone, gesture, action) entries, zone by
    /// zone in declaration order, and under each zone gesture by gesture.
    pub fn bindings(&self) -> (entries: Vec<(ScreenPosition, UserOperation, Action)>)
        ensures
            entries@ == bindings_below(self@, 85),
    {
        let zones: Vec<ScreenPosition> = ScreenPosition::all();
        let gestures: Vec<UserOperation> = UserOperation::all();
        let mut entries: Vec<(ScreenPosition, UserOperation, Action)> = Vec::new();
        let mut zone_index: usize = 0;
        while zone_index < 17
            invariant
                zones@ == all_zones(),
                gestures@ == all_gestures(),
                zone_index <= 17,
                entries@ == bindings_below(self@, zone_index * 5),
            decreases 17 - zone_index,
        {
            let mut gesture_index: usize = 0;
            while gesture_index < 5
                invariant
                    zones@ == all_zones(),
                    gestures@ == all_gestures(),
                    zone_index < 17,
                    gesture_index <= 5,
                    entries@ == bindings_below(self@, zone_index * 5 + gesture_index),
                decreases 5 - gesture_index,
            {
                let zone: ScreenPosition = zones[zone_index];
                let gesture: UserOperation = gestures[gesture_index];
                proof {
                    let index = zone_index * 5 + gesture_index;
                    assert(index / 5 == zone_index && index % 5 == gesture_index);
                    assert(pair_at(index) == (zone, gesture));
                }
                match get_action(self, zone, gesture) {
                    Some(action) => {
                        entries.push((zone, gesture, action));
                    },
                    None => {},
                }
                gesture_index = gesture_index + 1;
            }
            zone_index = zone_index + 1;
        }
        entries
    }
}

/// What `table` holds for the pair: its action, or `None` where the pair is
/// not bound.
pub open spec fn action_for(
    table: Map<(ScreenPosition, UserOperation), Action>,
    zone: ScreenPosition,
    gesture: UserOperation,
) -> Option<Action> {
    if table.contains_key((zone, gesture)) {
        Some(table[(zone, gesture)])
    } else {
        None
    }
}

/// Looks up the action bound to `user_operation` in `screen_position`. A
/// pair without a binding has no action: no other zone or gesture stands in.
pub fn get_action(
    table: &ActionTable,
    screen_position: ScreenPosition,
    user_operation: UserOperation,
) -> (action: Option<Action>)
    ensures
        action == action_for(table@, screen_position, user_operation),
{
    let code: u64 = binding_number(screen_position, user_operation);
    match table.bindings.get(&code) {
        Some(action) => Some(*action),
        None => None,
    }
}

/// The pair with the given number: zones come in declaration order, and
/// under each zone the gestures in declaration order.
pub open spec fn pair_at(index: int) -> (ScreenPosition, UserOperation) {
    (all_zones()[index / 5], all_gestures()[index % 5])
}

/// The bindings of `table` among the first `count` pairs, in the order of
/// the pairs.
pub open spec fn bindings_below(
    table: Map<(ScreenPosition, UserOperation), Action>,
    count: int,
) -> Seq<(ScreenPosition, UserOperation, Action)>
    decreases count,
{
    if count <= 0 {
        Seq::empty()
    } else {
        let earlier = bindings_below(table, count - 1);
        let (zone, gesture) = pair_at(count - 1);
        match action_for(table, zone, gesture) {
            Some(action) => earlier.push((zone, gesture, action)),
            None => earlier,
        }
    }
}

/// Every pair has its number.
pub proof fn lemma_pair_numbered(zone: ScreenPosition, gesture: UserOperation)
    ensures
        0 <= binding_code(zone, gesture) < 85,
        pair_at(binding_code(zone, gesture) as int) == (zone, gesture),
{
    let code = binding_code(zone, gesture) as int;
    assert(code / 5 == zone_code(zone) && code % 5 == gesture_code(gesture));
}

proof fn lemma_bindings_below(
    table: Map<(ScreenPosition, UserOperation), Action>,
    count: int,
    entry: (ScreenPosition, UserOperation, Action),
)
    requires
        0 <= count,
    ensures
        bindings_below(table, count).contains(entry) <==> (exists|index: int|
            0 <= index < count && #[trigger] pair_at(index) == (entry.0, entry.1)) && action_for(
            table,
            entry.0,
            entry.1,
        ) == Some(entry.2),
    decreases count,
{
    if count > 0 {
        lemma_bindings_below(table, count - 1, entry);
        let earlier = bindings_below(table, count - 1);
        let (zone, gesture) = pair_at(count - 1);
        let listed = bindings_below(table, count);
        match action_for(table, zone, gesture) {
            Some(action) => {
                assert(listed == earlier.push((zone, gesture, action)));
                if earlier.contains(entry) {
                    let i = choose|i: int| 0 <= i < earlier.len() && earlier[i] == entry;
                    assert(listed[i] == entry);
                }
                if entry == (zone, gesture, action) {
                    assert(listed[earlier.len() as int] == entry);
                    assert(pair_at(count - 1) == (entry.0, entry.1));
                }
                if listed.contains(entry) {
                    let i = choose|i: int| 0 <= i < listed.len() && listed[i] == entry;
                    if i < earlier.len() {
                        assert(earlier[i] == entry);
                    }
                }
            },
            None => {},
        }
        if exists|index: int| 0 <= index < count && #[trigger] pair_at(index) == (entry.0, entry.1) {
            let index = choose|index: int|
                0 <= index < count && #[trigger] pair_at(index) == (entry.0, entry.1);
            if index < count - 1 {
                assert(pair_at(index) == (entry.0, entry.1));
            }
        }
    }
}

/// The listing of a table holds its bindings and nothing else: an entry is
/// listed exactly when the table binds its pair to its action.
pub proof fn lemma_bindings_listed(
    table: Map<(ScreenPosition, UserOperation), Action>,
    zone: ScreenPosition,
    gesture: UserOperation,
    action: Action,
)
    ensures
        bindings_below(table, 85).contains((zone, gesture, action)) <==> action_for(
            table,
            zone,
            gesture,
        ) == Some(action),
{
    lemma_bindings_below(table, 85, (zone, gesture, action));
    lemma_pair_numbered(zone, gesture);
}

/// The bindings of the default table.
pub open spec fn default_bindings() -> Map<(ScreenPosition, UserOperation), Action> {
    Map::<(ScreenPosition, UserOperation), Action>::empty()
        .insert((ScreenPosition::LeftTop, UserOperation::Touch), Action::MultiTaskView)
        .insert((ScreenPosition::Top2, UserOperation::ScrollDown), Action::CtrlTab)
        .insert((ScreenPosition::Top2, UserOperation::ScrollUp), Action::CtrlShiftTab)
        .insert((ScreenPosition::Right2, UserOperation::ScrollUp), Action::VolumeUp)
        .insert((ScreenPosition::Right2, UserOperation::ScrollDown), Action::VolumeDown)
        .insert((ScreenPosition::Right2, UserOperation::MiddlePress), Action::VolumeMute)
        .insert((ScreenPosition::Left2, UserOperation::ScrollUp), Action::PreviousDesktop)
        .insert((ScreenPosition::Left2, UserOperation::ScrollDown), Action::NextDesktop)
        .insert((ScreenPosition::Left2, UserOperation::MiddlePress), Action::MultiTaskView)
        .insert((ScreenPosition::Bottom2, UserOperation::ScrollUp), Action::AltTab)
        .insert((ScreenPosition::Bottom2, UserOperation::ScrollDown), Action::AltShiftTab)
}

/// The default table: the task view on touching the top-left corner, and
/// scroll and middle-press bindings on the middle band of each edge.
pub fn config() -> (table: ActionTable)
    ensures
        table@ == default_bindings(),
{
    let mut config = ActionTable::new();
    config.bind(ScreenPosition::LeftTop, UserOperation::Touch, Action::MultiTaskView);
    config.bind(ScreenPosition::Top2, UserOperation::ScrollDown, Action::CtrlTab);
    config.bind(ScreenPosition::Top2, UserOperation::ScrollUp, Action::CtrlShiftTab);
    config.bind(ScreenPosition::Right2, UserOperation::ScrollUp, Action::VolumeUp);
    config.bind(ScreenPosition::Right2, UserOperation::ScrollDown, Action::VolumeDown);
    config.bind(ScreenPosition::Right2, UserOperation::MiddlePress, Action::VolumeMute);
    config.bind(ScreenPosition::Left2, UserOperation::ScrollUp, Action::PreviousDesktop);
    config.bind(ScreenPosition::Left2, UserOperation::ScrollDown, Action::NextDesktop);
    config.bind(ScreenPosition::Left2, UserOperation::MiddlePress, Action::MultiTaskView);
    config.bind(ScreenPosition::Bottom2, UserOperation::ScrollUp, Action::AltTab);
    config.bind(ScreenPosition::Bottom2, UserOperation::ScrollDown, Action::AltShiftTab);
    config
}

/// The adjacency class of a zone on the boundary of the display.
#[derive(Debug, Clone, Copy, PartialEq, Eq, Structural)]
pub enum AdjacencyClass {
    /// One of the four corners.
    Corner,
    /// The first or the third band of an edge.
    EdgeNearCorner,
    /// The second band of an edge.
    EdgeNotNearCorner,
}

/// The class of `zone`, or `None` for the center.
pub open spec fn adjacency_class(zone: ScreenPosition) -> Option<AdjacencyClass> {
    match zone {
        ScreenPosition::LeftTop
        | ScreenPosition::RightTop
        | ScreenPosition::LeftBottom
        | ScreenPosition::RightBottom => Some(AdjacencyClass::Corner),
        ScreenPosition::Top1
        | ScreenPosition::Top3
        | ScreenPosition::Bottom1
        | ScreenPosition::Bottom3
        | ScreenPosition::Left1
        | ScreenPosition::Left3
        | ScreenPosition::Right1
        | ScreenPosition::Right3 => Some(AdjacencyClass::EdgeNearCorner),
        ScreenPosition::Top2
        | ScreenPosition::Bottom2
        | ScreenPosition::Left2
        | ScreenPosition::Right2 => Some(AdjacencyClass::EdgeNotNearCorner),
        ScreenPosition::Center => None,
    }
}

/// Whether moving from `from` into `to` is a touch. From a band near a
/// corner the pointer may touch a corner or a middle band; from a middle
/// band it may touch a band near a corner. A corner and the center let
/// nothing through.
pub open spec fn touch_allowed(from: ScreenPosition, to: ScreenPosition) -> bool {
    match (adjacency_class(from), adjacency_class(to)) {
        (Some(AdjacencyClass::EdgeNearCorner), Some(AdjacencyClass::Corner)) => true,
        (Some(AdjacencyClass::EdgeNearCorner), Some(AdjacencyClass::EdgeNotNearCorner)) => true,
        (Some(AdjacencyClass::EdgeNotNearCorner), Some(AdjacencyClass::EdgeNearCorner)) => true,
        _ => false,
    }
}

/// The corners, in table order.
pub open spec fn corners() -> Seq<ScreenPosition> {
    seq![
        ScreenPosition::LeftTop,
        ScreenPosition::RightTop,
        ScreenPosition::LeftBottom,
        ScreenPosition::RightBottom,
    ]
}

/// The bands next to a corner, in table order.
pub open spec fn edges_near_corner() -> Seq<ScreenPosition> {
    seq![
        ScreenPosition::Top1,
        ScreenPosition::Top3,
        ScreenPosition::Bottom1,
        ScreenPosition::Bottom3,
        ScreenPosition::Left1,
        ScreenPosition::Left3,
        ScreenPosition::Right1,
        ScreenPosition::Right3,
    ]
}

/// The middle bands, in table order.
pub open spec fn edges_not_near_corner() -> Seq<ScreenPosition> {
    seq![
        ScreenPosition::Top2,
        ScreenPosition::Bottom2,
        ScreenPosition::Left2,
        ScreenPosition::Right2,
    ]
}

/// The zones that the pointer may touch when it leaves `from`, as the touch
/// table lists them; `None` where the table has no entry for `from`.
pub open spec fn touch_targets(from: ScreenPosition) -> Option<Seq<ScreenPosition>> {
    match adjacency_class(from) {
        Some(AdjacencyClass::Corner) => Some(Seq::empty()),
        Some(AdjacencyClass::EdgeNearCorner) => Some(corners() + edges_not_near_corner()),
        Some(AdjacencyClass::EdgeNotNearCorner) => Some(edges_near_corner()),
        None => None,
    }
}

/// The three lists hold the zones of the three classes, each once.
pub proof fn lemma_class_lists(zone: ScreenPosition)
    ensures
        corners().contains(zone) <==> adjacency_class(zone) == Some(AdjacencyClass::Corner),
        edges_near_corner().contains(zone) <==> adjacency_class(zone) == Some(
            AdjacencyClass::EdgeNearCorner,
        ),
        edges_not_near_corner().contains(zone) <==> adjacency_class(zone) == Some(
            AdjacencyClass::EdgeNotNearCorner,
        ),
        corners().no_duplicates(),
        edges_near_corner().no_duplicates(),
        edges_not_near_corner().no_duplicates(),
{
    let c = corners();
    let n = edges_near_corner();
    let m = edges_not_near_corner();
    assert(c[0] == ScreenPosition::LeftTop && c[1] == ScreenPosition::RightTop);
    assert(c[2] == ScreenPosition::LeftBottom && c[3] == ScreenPosition::RightBottom);
    assert(n[0] == ScreenPosition::Top1 && n[1] == ScreenPosition::Top3);
    assert(n[2] == ScreenPosition::Bottom1 && n[3] == ScreenPosition::Bottom3);
    assert(n[4] == ScreenPosition::Left1 && n[5] == ScreenPosition::Left3);
    assert(n[6] == ScreenPosition::Right1 && n[7] == ScreenPosition::Right3);
    assert(m[0] == ScreenPosition::Top2 && m[1] == ScreenPosition::Bottom2);
    assert(m[2] == ScreenPosition::Left2 && m[3] == ScreenPosition::Right2);
}

/// A move is a touch exactly when the touch table lists its target under
/// its source.
pub proof fn lemma_touch_allowed_is_listed(from: ScreenPosition, to: ScreenPosition)
    ensures
        touch_allowed(from, to) <==> (touch_targets(from) matches Some(targets)
            && targets.contains(to)),
{
    lemma_class_lists(to);
    let c = corners();
    let m = edges_not_near_corner();
    let both = c + m;
    if c.contains(to) {
        let i = choose|i: int| 0 <= i < c.len() && c[i] == to;
        assert(both[i] == to);
    }
    if m.contains(to) {
        let i = choose|i: int| 0 <= i < m.len() && m[i] == to;
        assert(both[c.len() + i] == to);
    }
    if both.contains(to) {
        let i = choose|i: int| 0 <= i < both.len() && both[i] == to;
        if i < c.len() {
            assert(c[i] == to);
        } else {
            assert(m[i - c.len()] == to);
        }
    }
}

/// A corner lets no touch out, and neither does the center.
pub proof fn lemma_no_touch_from_corner(from: ScreenPosition, to: ScreenPosition)
    requires
        adjacency_class(from) == Some(AdjacencyClass::Corner) || adjacency_class(from) is None,
    ensures
        !touch_allowed(from, to),
{
}

/// No move within one class is a touch: not from a band near a corner to
/// another such band, and not from a middle band to another middle band.
pub proof fn lemma_no_touch_within_class(from: ScreenPosition, to: ScreenPosition)
    requires
        adjacency_class(from) == adjacency_class(to),
    ensures
        !touch_allowed(from, to),
{
}

/// The touch table: for each zone on the boundary, the zones that the
/// pointer may touch when it leaves that zone. Its content is fixed.
#[derive(Debug)]
pub struct TouchTable {
    targets: HashMap<u64, Vec<ScreenPosition>>,
}

impl View for TouchTable {
    type V = Map<ScreenPosition, Seq<ScreenPosition>>;

    closed spec fn view(&self) -> Map<ScreenPosition, Seq<ScreenPosition>> {
        Map::new(
            |zone: ScreenPosition| self.targets@.contains_key(zone_code(zone)),
            |zone: ScreenPosition| self.targets@[zone_code(zone)]@,
        )
    }
}

/// The content of the touch table.
pub open spec fn touch_table() -> Map<ScreenPosition, Seq<ScreenPosition>> {
    Map::new(
        |zone: ScreenPosition| touch_targets(zone) is Some,
        |zone: ScreenPosition| touch_targets(zone).unwrap(),
    )
}

spec fn holds_classes(
    targets: Map<u64, Vec<ScreenPosition>>,
    zone: ScreenPosition,
    corner_count: int,
    near_count: int,
    middle_count: int,
) -> bool {
    let listed = corners().take(corner_count).contains(zone) || edges_near_corner().take(
        near_count,
    ).contains(zone) || edges_not_near_corner().take(middle_count).contains(zone);
    &&& targets.contains_key(zone_code(zone)) <==> listed
    &&& listed ==> touch_targets(zone) == Some(targets[zone_code(zone)]@)
}

impl TouchTable {
    #[verifier::type_invariant]
    spec fn complete(self) -> bool {
        forall|zone: ScreenPosition| #[trigger] holds_classes(self.targets@, zone, 4, 8, 4)
    }

    /// Whether the table lists `to` under `from`.
    pub fn allows(&self, from: ScreenPosition, to: ScreenPosition) -> (allowed: bool)
        ensures
            allowed == touch_allowed(from, to),
    {
        proof {
            use_type_invariant(self);
            lemma_complete_table(self.targets@, from);
            lemma_touch_allowed_is_listed(from, to);
        }
        let code: u64 = zone_number(from);
        match self.targets.get(&code) {
            Some(targets) => contains_zone(targets, to),
            None => false,
        }
    }
}

/// A map that holds every zone of the three classes has, for each zone, the
/// entry of the touch table.
proof fn lemma_complete_table(targets: Map<u64, Vec<ScreenPosition>>, zone: ScreenPosition)
    requires
        forall|zone: ScreenPosition| #[trigger] holds_classes(targets, zone, 4, 8, 4),
    ensures
        targets.contains_key(zone_code(zone)) <==> touch_targets(zone) is Some,
        targets.contains_key(zone_code(zone)) ==> touch_targets(zone) == Some(
            targets[zone_code(zone)]@,
        ),
{
    assert(corners().take(4) =~= corners());
    assert(edges_near_corner().take(8) =~= edges_near_corner());
    assert(edges_not_near_corner().take(4) =~= edges_not_near_corner());
    assert(holds_classes(targets, zone, 4, 8, 4));
    lemma_class_lists(zone);
}

fn contains_zone(zones: &Vec<ScreenPosition>, zone: ScreenPosition) -> (found: bool)
    ensures
        found == zones@.contains(zone),
{
    let mut i: usize = 0;
    while i < zones.len()
        invariant
            i <= zones@.len(),
            forall|j: int| 0 <= j < i ==> zones@[j] != zone,
        decreases zones@.len() - i,
    {
        if zones[i] == zone {
            return true;
        }
        i = i + 1;
    }
    false
}

proof fn lemma_take_contains(zones: Seq<ScreenPosition>, count: int, zone: ScreenPosition)
    requires
        0 <= count < zones.len(),
    ensures
        zones.take(count + 1).contains(zone) <==> zones.take(count).contains(zone) || zones[count]
            == zone,
{
    let shorter = zones.take(count);
    let longer = zones.take(count + 1);
    if shorter.contains(zone) {
        let i = choose|i: int| 0 <= i < shorter.len() && shorter[i] == zone;
        assert(longer[i] == zone);
    }
    if zones[count] == zone {
        assert(longer[count] == zone);
    }
    if longer.contains(zone) {
        let i = choose|i: int| 0 <= i < longer.len() && longer[i] == zone;
        if i < count {
            assert(shorter[i] == zone);
        }
    }
}

proof fn lemma_take_none(zones: Seq<ScreenPosition>, zone: ScreenPosition)
    ensures
        !zones.take(0).contains(zone),
{
}

proof fn lemma_listed_zone(zones: Seq<ScreenPosition>, index: int)
    requires
        0 <= index < zones.len(),
    ensures
        zones.contains(zones[index]),
{
}

fn append_zones(list: &mut Vec<ScreenPosition>, zones: &Vec<ScreenPosition>)
    ensures
        final(list)@ == old(list)@ + zones@,
{
    let mut i: usize = 0;
    while i < zones.len()
        invariant
            i <= zones@.len(),
            list@ == old(list)@ + zones@.take(i as int),
        decreases zones@.len() - i,
    {
        list.push(zones[i]);
        assert(list@ =~= old(list)@ + zones@.take(i + 1));
        i = i + 1;
    }
    assert(zones@.take(zones@.len() as int) =~= zones@);
}

fn copy_zones(zones: &Vec<ScreenPosition>) -> (copy: Vec<ScreenPosition>)
    ensures
        copy@ == zones@,
{
    let mut copy: Vec<ScreenPosition> = Vec::new();
    append_zones(&mut copy, zones);
    assert(copy@ =~= zones@);
    copy
}

/// Builds the touch table: no target for a corner, the corners and the
/// middle bands for a band near a corner, the bands near a corner for a
/// middle band, and no entry for the center.
pub fn touch_config() -> (table: TouchTable)
    ensures
        table@ == touch_table(),
{
    let corner: Vec<ScreenPosition> = vec![
        ScreenPosition::LeftTop,
        ScreenPosition::RightTop,
        ScreenPosition::LeftBottom,
        ScreenPosition::RightBottom,
    ];
    let edge_near_corner: Vec<ScreenPosition> = vec![
        ScreenPosition::Top1,
        ScreenPosition::Top3,
        ScreenPosition::Bottom1,
        ScreenPosition::Bottom3,
        ScreenPosition::Left1,
        ScreenPosition::Left3,
        ScreenPosition::Right1,
        ScreenPosition::Right3,
    ];
    let edge_not_near_corner: Vec<ScreenPosition> = vec![
        ScreenPosition::Top2,
        ScreenPosition::Bottom2,
        ScreenPosition::Left2,
        ScreenPosition::Right2,
    ];
    assert(corner@ =~= corners());
    assert(edge_near_corner@ =~= edges_near_corner());
    assert(edge_not_near_corner@ =~= edges_not_near_corner());

    let mut config: HashMap<u64, Vec<ScreenPosition>> = HashMap::new();
    assert forall|zone: ScreenPosition| #[trigger] holds_classes(config@, zone, 0, 0, 0) by {
        lemma_take_none(corners(), zone);
        lemma_take_none(edges_near_corner(), zone);
        lemma_take_none(edges_not_near_corner(), zone);
    }
    // From a corner nothing can be touched.
    let mut i: usize = 0;
    while i < corner.len()
        invariant
            corner@ == corners(),
            i <= 4,
            forall|zone: ScreenPosition| #[trigger] holds_classes(config@, zone, i as int, 0, 0),
        decreases 4 - i,
    {
        let position: ScreenPosition = corner[i];
        let ghost before = config@;
        config.insert(zone_number(position), Vec::new());
        proof {
            lemma_listed_zone(corners(), i as int);
            lemma_class_lists(position);
            assert forall|zone: ScreenPosition| #[trigger]
                holds_classes(config@, zone, i + 1, 0, 0) by {
                assert(holds_classes(before, zone, i as int, 0, 0));
                lemma_take_contains(corners(), i as int, zone);
            }
        }
        i = i + 1;
    }
    let mut corner_edge_not_near_corner: Vec<ScreenPosition> = Vec::new();
    append_zones(&mut corner_edge_not_near_corner, &corner);
    append_zones(&mut corner_edge_not_near_corner, &edge_not_near_corner);
    assert(corner_edge_not_near_corner@ =~= corners() + edges_not_near_corner());
    let mut i: usize = 0;
    while i < edge_near_corner.len()
        invariant
            edge_near_corner@ == edges_near_corner(),
            corner_edge_not_near_corner@ == corners() + edges_not_near_corner(),
            i <= 8,
            forall|zone: ScreenPosition| #[trigger] holds_classes(config@, zone, 4, i as int, 0),
        decreases 8 - i,
    {
        let position: ScreenPosition = edge_near_corner[i];
        let ghost before = config@;
        config.insert(zone_number(position), copy_zones(&corner_edge_not_near_corner));
        proof {
            lemma_listed_zone(edges_near_corner(), i as int);
            lemma_class_lists(position);
            assert forall|zone: ScreenPosition| #[trigger]
                holds_classes(config@, zone, 4, i + 1, 0) by {
                assert(holds_classes(before, zone, 4, i as int, 0));
                lemma_take_contains(edges_near_corner(), i as int, zone);
            }
        }
        i = i + 1;
    }
    let mut i: usize = 0;
    while i < edge_not_near_corner.len()
        invariant
            edge_near_corner@ == edges_near_corner(),
            edge_not_near_corner@ == edges_not_near_corner(),
            i <= 4,
            forall|zone: ScreenPosition| #[trigger] holds_classes(config@, zone, 4, 8, i as int),
        decreases 4 - i,
    {
        let position: ScreenPosition = edge_not_near_corner[i];
        let ghost before = config@;
        config.insert(zone_number(position), copy_zones(&edge_near_corner));
        proof {
            lemma_listed_zone(edges_not_near_corner(), i as int);
            lemma_class_lists(position);
            assert forall|zone: ScreenPosition| #[trigger]
                holds_classes(config@, zone, 4, 8, i + 1) by {
                assert(holds_classes(before, zone, 4, 8, i as int));
                lemma_take_contains(edges_not_near_corner(), i as int, zone);
            }
        }
        i = i + 1;
    }
    let table = TouchTable { targets: config };
    proof {
        assert forall|zone: ScreenPosition|
            #[trigger] table@.dom().contains(zone) == touch_table().dom().contains(zone) by {
            lemma_complete_table(config@, zone);
        }
        assert forall|zone: ScreenPosition| #[trigger]
            table@.dom().contains(zone) implies table@[zone] == touch_table()[zone] by {
            lemma_complete_table(config@, zone);
        }
        assert(table@ =~= touch_table());
    }
    table
}

/// Whether a move of the pointer from `from` into `to` counts as a touch.
/// Builds the touch table for the one question; for many, keep the table of
/// `touch_config` and ask it.
pub fn can_touch(from: ScreenPosition, to: ScreenPosition) -> (allowed: bool)
    ensures
        allowed == touch_allowed(from, to),
{
    touch_config().allows(from, to)
}

} // verus!
