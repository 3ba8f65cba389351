//! Which of an element's style layers apply in its current interaction state,
//! and in what order they refine its base style.
use vstd::prelude::*;
use crate::interaction::{ElementClickedState, ElementHoverState};

verus! {

/// A style layer of an element; later layers refine earlier ones.
#[derive(Clone, Copy, Debug, PartialEq, Eq, Structural)]
pub enum StyleLayer {
    /// The element's own style.
    Base,
    /// While focus is within the element.
    InFocus,
    /// While the element is focused.
    Focus,
    /// While the element is focused and the last input came from the keyboard.
    FocusVisible,
    /// While the pointer is over the element's hover group.
    GroupHover,
    /// While the pointer is over the element.
    Hover,
    /// The group drag-over style at this index, while a matching drag is over its group.
    GroupDragOver(usize),
    /// The drag-over style at this index, while a matching drag is over the element.
    DragOver(usize),
    /// While the element's active group is pressed.
    GroupActive,
    /// While the element is pressed.
    Active,
}

/// The conditional styles that an element declares.
#[derive(Clone, Copy, Debug, PartialEq, Eq, Structural)]
pub struct StyleSlots {
    pub in_focus: bool,
    pub focus: bool,
    pub focus_visible: bool,
    pub group_hover: bool,
    pub hover: bool,
    pub group_active: bool,
    pub active: bool,
}

/// The focus facts that the focus styles depend on.
#[derive(Clone, Copy, Debug, PartialEq, Eq, Structural)]
pub struct FocusFacts {
    /// The element tracks a focus handle.
    pub has_handle: bool,
    /// Focus is on the element or on one of its descendants.
    pub within_focused: bool,
    /// Focus is on the element.
    pub is_focused: bool,
    /// The window's last input came from the keyboard.
    pub last_input_was_keyboard: bool,
}

/// The interaction records kept for the element across frames.
#[derive(Clone, Copy, Debug, PartialEq, Eq, Structural)]
pub struct InteractionRecords {
    pub hover: Option<ElementHoverState>,
    pub clicked: Option<ElementClickedState>,
}

/// A group drag-over style, as the current drag sees it.
#[derive(Clone, Copy, Debug, PartialEq, Eq, Structural)]
pub struct GroupDragTarget {
    /// The style is declared for the type of the dragged value.
    pub type_matches: bool,
    /// Whether the pointer is over the group's hitbox, when the group has one.
    pub group_hovered: Option<bool>,
}

/// The drag in progress, as the element sees it.
#[derive(Clone, Debug)]
pub struct ActiveDrag {
    /// The element's drop predicate accepts the dragged value (or it has none).
    pub can_drop: bool,
    /// The element's group drag-over styles, in declaration order.
    pub group_targets: Vec<GroupDragTarget>,
    /// For each of the element's drag-over styles, in declaration order,
    /// whether it is declared for the type of the dragged value.
    pub drag_over_matches: Vec<bool>,
}

/// The layers of an element's style, and whether the drag's cursor replaces
/// the element's.
#[derive(Clone, Debug)]
pub struct ComputedStyle {
    pub layers: Vec<StyleLayer>,
    pub drag_cursor: bool,
}

pub open spec fn layer_if(cond: bool, layer: StyleLayer) -> Seq<StyleLayer> {
    if cond {
        seq![layer]
    } else {
        Seq::empty()
    }
}

/// The group is hovered: by its hitbox when it has one, else by the record.
pub open spec fn group_hovered_spec(
    group_hitbox_hovered: Option<bool>,
    records: Option<InteractionRecords>,
) -> bool {
    match group_hitbox_hovered {
        Some(h) => h,
        None => match records {
            Some(r) => match r.hover {
                Some(h) => h.group,
                None => false,
            },
            None => false,
        },
    }
}

/// The element is hovered: by its hitbox when it has one, else by the record.
pub open spec fn element_hovered_spec(
    hitbox_hovered: Option<bool>,
    records: Option<InteractionRecords>,
) -> bool {
    match hitbox_hovered {
        Some(h) => h,
        None => match records {
            Some(r) => match r.hover {
                Some(h) => h.element,
                None => false,
            },
            None => false,
        },
    }
}

pub open spec fn focus_layers(slots: StyleSlots, focus: FocusFacts) -> Seq<StyleLayer> {
    if !focus.has_handle {
        Seq::empty()
    } else {
        layer_if(slots.in_focus && focus.within_focused, StyleLayer::InFocus) + layer_if(
            slots.focus && focus.is_focused,
            StyleLayer::Focus,
        ) + layer_if(
            slots.focus_visible && focus.is_focused && focus.last_input_was_keyboard,
            StyleLayer::FocusVisible,
        )
    }
}

pub open spec fn hover_layers(
    slots: StyleSlots,
    dragging: bool,
    group_hovered: bool,
    hovered: bool,
) -> Seq<StyleLayer> {
    if dragging {
        Seq::empty()
    } else {
        layer_if(slots.group_hover && group_hovered, StyleLayer::GroupHover) + layer_if(
            slots.hover && hovered,
            StyleLayer::Hover,
        )
    }
}

/// The group drag-over layers among the first `n` targets.
pub open spec fn group_drag_layers(targets: Seq<GroupDragTarget>, n: nat) -> Seq<StyleLayer>
    decreases n,
{
    if n == 0 {
        Seq::empty()
    } else {
        let i = (n - 1) as nat;
        group_drag_layers(targets, i) + layer_if(
            targets[i as int].type_matches && targets[i as int].group_hovered == Some(true),
            StyleLayer::GroupDragOver(i as usize),
        )
    }
}

/// The drag-over layers among the first `n` styles.
pub open spec fn drag_over_layers(matches: Seq<bool>, hovered: bool, n: nat) -> Seq<StyleLayer>
    decreases n,
{
    if n == 0 {
        Seq::empty()
    } else {
        let i = (n - 1) as nat;
        drag_over_layers(matches, hovered, i) + layer_if(
            matches[i as int] && hovered,
            StyleLayer::DragOver(i as usize),
        )
    }
}

pub open spec fn drag_layers(
    hitbox_hovered: Option<bool>,
    can_drop: bool,
    targets: Seq<GroupDragTarget>,
    matches: Seq<bool>,
) -> Seq<StyleLayer> {
    match hitbox_hovered {
        Some(h) => if can_drop {
            group_drag_layers(targets, targets.len()) + drag_over_layers(matches, h, matches.len())
        } else {
            Seq::empty()
        },
        None => Seq::empty(),
    }
}

pub open spec fn active_layers(slots: StyleSlots, records: Option<InteractionRecords>) -> Seq<
    StyleLayer,
> {
    match records {
        Some(r) => {
            let c = match r.clicked {
                Some(c) => c,
                None => ElementClickedState { group: false, element: false },
            };
            layer_if(c.group && slots.group_active, StyleLayer::GroupActive) + layer_if(
                slots.active && c.element,
                StyleLayer::Active,
            )
        },
        None => Seq::empty(),
    }
}

/// The drag-over layers when a drag is in progress.
pub open spec fn drag_part_spec(
    hitbox_hovered: Option<bool>,
    drag: Option<(bool, Seq<GroupDragTarget>, Seq<bool>)>,
) -> Seq<StyleLayer> {
    match drag {
        Some((can_drop, targets, matches)) => drag_layers(hitbox_hovered, can_drop, targets, matches),
        None => Seq::empty(),
    }
}

/// The layers of an element's style: its base style, then the focus styles,
/// then (unless something is being dragged) the hover styles, then (during a
/// drag over an element with a hitbox that accepts the value) the matching
/// drag-over styles, then the active styles.
#[verifier::opaque]
pub open spec fn style_layers_spec(
    slots: StyleSlots,
    focus: FocusFacts,
    group_hitbox_hovered: Option<bool>,
    hitbox_hovered: Option<bool>,
    records: Option<InteractionRecords>,
    drag: Option<(bool, Seq<GroupDragTarget>, Seq<bool>)>,
) -> Seq<StyleLayer> {
    seq![StyleLayer::Base] + focus_layers(slots, focus) + hover_layers(
        slots,
        drag is Some,
        group_hovered_spec(group_hitbox_hovered, records),
        element_hovered_spec(hitbox_hovered, records),
    ) + drag_part_spec(hitbox_hovered, drag) + active_layers(slots, records)
}

pub open spec fn drag_view(drag: Option<ActiveDrag>) -> Option<(bool, Seq<GroupDragTarget>, Seq<bool>)> {
    match drag {
        Some(d) => Some((d.can_drop, d.group_targets@, d.drag_over_matches@)),
        None => None,
    }
}

fn push_if(layers: &mut Vec<StyleLayer>, cond: bool, layer: StyleLayer)
    ensures
        final(layers)@ == old(layers)@ + layer_if(cond, layer),
{
    if cond {
        layers.push(layer);
    } else {
        assert(old(layers)@ + layer_if(cond, layer) =~= old(layers)@);
    }
}

fn hovered_from(hitbox_hovered: Option<bool>, records: &Option<InteractionRecords>, group: bool) -> (r: bool)
    ensures
        r == (if group {
            group_hovered_spec(hitbox_hovered, *records)
        } else {
            element_hovered_spec(hitbox_hovered, *records)
        }),
{
    match hitbox_hovered {
        Some(h) => h,
        None => match records {
            Some(r) => match r.hover {
                Some(h) => if group {
                    h.group
                } else {
                    h.element
                },
                None => false,
            },
            None => false,
        },
    }
}

fn push_drag_layers(layers: &mut Vec<StyleLayer>, hovered: bool, drag: &ActiveDrag)
    ensures
        final(layers)@ == old(layers)@ + drag_layers(
            Some(hovered),
            drag.can_drop,
            drag.group_targets@,
            drag.drag_over_matches@,
        ),
{
    if !drag.can_drop {
        assert(old(layers)@ + Seq::<StyleLayer>::empty() =~= old(layers)@);
        return;
    }
    let ghost start = layers@;
    let mut i: usize = 0;
    while i < drag.group_targets.len()
        invariant
            i <= drag.group_targets.len(),
            layers@ == start + group_drag_layers(drag.group_targets@, i as nat),
        decreases drag.group_targets.len() - i,
    {
        let t = drag.group_targets[i];
        let hit = match t.group_hovered {
            Some(h) => h,
            None => false,
        };
        let ghost before = layers@;
        push_if(layers, t.type_matches && hit, StyleLayer::GroupDragOver(i));
        proof {
            assert(t == drag.group_targets@[i as int]);
            assert((t.group_hovered == Some(true)) == hit);
            assert(group_drag_layers(drag.group_targets@, (i + 1) as nat) == group_drag_layers(
                drag.group_targets@,
                i as nat,
            ) + layer_if(
                t.type_matches && t.group_hovered == Some(true),
                StyleLayer::GroupDragOver(i),
            ));
            assert(layers@ =~= start + group_drag_layers(drag.group_targets@, (i + 1) as nat));
        }
        i = i + 1;
    }
    let ghost middle = layers@;
    let mut j: usize = 0;
    while j < drag.drag_over_matches.len()
        invariant
            j <= drag.drag_over_matches.len(),
            layers@ == middle + drag_over_layers(drag.drag_over_matches@, hovered, j as nat),
        decreases drag.drag_over_matches.len() - j,
    {
        let m = drag.drag_over_matches[j];
        push_if(layers, m && hovered, StyleLayer::DragOver(j));
        proof {
            assert(drag_over_layers(drag.drag_over_matches@, hovered, (j + 1) as nat)
                == drag_over_layers(drag.drag_over_matches@, hovered, j as nat) + layer_if(
                m && hovered,
                StyleLayer::DragOver(j),
            ));
            assert(layers@ =~= middle + drag_over_layers(
                drag.drag_over_matches@,
                hovered,
                (j + 1) as nat,
            ));
        }
        j = j + 1;
    }
    assert(layers@ =~= start + (group_drag_layers(
        drag.group_targets@,
        drag.group_targets@.len(),
    ) + drag_over_layers(drag.drag_over_matches@, hovered, drag.drag_over_matches@.len())));
}

fn push_focus_layers(layers: &mut Vec<StyleLayer>, slots: StyleSlots, focus: FocusFacts)
    ensures
        final(layers)@ == old(layers)@ + focus_layers(slots, focus),
{
    let ghost start = layers@;
    if focus.has_handle {
        push_if(layers, slots.in_focus && focus.within_focused, StyleLayer::InFocus);
        push_if(layers, slots.focus && focus.is_focused, StyleLayer::Focus);
        push_if(
            layers,
            slots.focus_visible && focus.is_focused && focus.last_input_was_keyboard,
            StyleLayer::FocusVisible,
        );
    }
    assert(layers@ =~= start + focus_layers(slots, focus));
}

fn push_hover_layers(
    layers: &mut Vec<StyleLayer>,
    slots: StyleSlots,
    dragging: bool,
    group_hitbox_hovered: Option<bool>,
    hitbox_hovered: Option<bool>,
    records: &Option<InteractionRecords>,
)
    ensures
        final(layers)@ == old(layers)@ + hover_layers(
            slots,
            dragging,
            group_hovered_spec(group_hitbox_hovered, *records),
            element_hovered_spec(hitbox_hovered, *records),
        ),
{
    let ghost start = layers@;
    if !dragging {
        let group_hovered = hovered_from(group_hitbox_hovered, records, true);
        let hovered = hovered_from(hitbox_hovered, records, false);
        push_if(layers, slots.group_hover && group_hovered, StyleLayer::GroupHover);
        push_if(layers, slots.hover && hovered, StyleLayer::Hover);
    }
    assert(layers@ =~= start + hover_layers(
        slots,
        dragging,
        group_hovered_spec(group_hitbox_hovered, *records),
        element_hovered_spec(hitbox_hovered, *records),
    ));
}

fn push_drag_part(layers: &mut Vec<StyleLayer>, hitbox_hovered: Option<bool>, drag: &Option<ActiveDrag>)
    ensures
        final(layers)@ == old(layers)@ + drag_part_spec(hitbox_hovered, drag_view(*drag)),
{
    match hitbox_hovered {
        Some(h) => match drag {
            Some(d) => {
                push_drag_layers(layers, h, d);
            },
            None => {
                assert(layers@ =~= layers@ + Seq::<StyleLayer>::empty());
            },
        },
        None => {
            assert(layers@ =~= layers@ + Seq::<StyleLayer>::empty());
        },
    }
}

fn push_active_layers(layers: &mut Vec<StyleLayer>, slots: StyleSlots, records: &Option<InteractionRecords>)
    ensures
        final(layers)@ == old(layers)@ + active_layers(slots, *records),
{
    let ghost start = layers@;
    match records {
        Some(r) => {
            let c = match r.clicked {
                Some(c) => c,
                None => ElementClickedState::new(),
            };
            push_if(layers, c.group && slots.group_active, StyleLayer::GroupActive);
            push_if(layers, slots.active && c.element, StyleLayer::Active);
        },
        None => {},
    }
    assert(layers@ =~= start + active_layers(slots, *records));
}

/// The layers of an element's style in its current state. `group_hitbox_hovered`
/// and `hitbox_hovered` are `None` where the group or the element has no hitbox
/// this frame, `records` is `None` where the element keeps no records, and
/// `drag` is the drag in progress, if any.
pub fn compute_style_layers(
    slots: StyleSlots,
    focus: FocusFacts,
    group_hitbox_hovered: Option<bool>,
    hitbox_hovered: Option<bool>,
    records: Option<InteractionRecords>,
    drag: &Option<ActiveDrag>,
) -> (r: ComputedStyle)
    ensures
        r.layers@ == style_layers_spec(
            slots,
            focus,
            group_hitbox_hovered,
            hitbox_hovered,
            records,
            drag_view(*drag),
        ),
        r.drag_cursor == (hitbox_hovered is Some && drag is Some),
{
    let mut layers: Vec<StyleLayer> = Vec::new();
    layers.push(StyleLayer::Base);
    push_focus_layers(&mut layers, slots, focus);
    push_hover_layers(&mut layers, slots, drag.is_some(), group_hitbox_hovered, hitbox_hovered, &records);
    push_drag_part(&mut layers, hitbox_hovered, drag);
    push_active_layers(&mut layers, slots, &records);
    proof {
        reveal(style_layers_spec);
        assert(drag_view(*drag) is Some == drag is Some);
    }
    let drag_cursor = hitbox_hovered.is_some() && drag.is_some();
    ComputedStyle { layers, drag_cursor }
}

proof fn lemma_group_drag_layers_kind(targets: Seq<GroupDragTarget>, n: nat)
    ensures
        forall|k: int|
            0 <= k < group_drag_layers(targets, n).len() ==> group_drag_layers(
                targets,
                n,
            )[k] is GroupDragOver,
    decreases n,
{
    if n > 0 {
        lemma_group_drag_layers_kind(targets, (n - 1) as nat);
    }
}

proof fn lemma_drag_over_layers_kind(matches: Seq<bool>, hovered: bool, n: nat)
    ensures
        forall|k: int|
            0 <= k < drag_over_layers(matches, hovered, n).len() ==> drag_over_layers(
                matches,
                hovered,
                n,
            )[k] is DragOver,
    decreases n,
{
    if n > 0 {
        lemma_drag_over_layers_kind(matches, hovered, (n - 1) as nat);
    }
}

proof fn lemma_drag_part_kinds(
    hitbox_hovered: Option<bool>,
    drag: Option<(bool, Seq<GroupDragTarget>, Seq<bool>)>,
)
    ensures
        forall|k: int|
            0 <= k < drag_part_spec(hitbox_hovered, drag).len() ==> (drag_part_spec(
                hitbox_hovered,
                drag,
            )[k] is GroupDragOver || drag_part_spec(hitbox_hovered, drag)[k] is DragOver),
{
    match drag {
        Some((can_drop, targets, matches)) => {
            match hitbox_hovered {
                Some(h) => {
                    if can_drop {
                        let g = group_drag_layers(targets, targets.len());
                        let d = drag_over_layers(matches, h, matches.len());
                        lemma_group_drag_layers_kind(targets, targets.len());
                        lemma_drag_over_layers_kind(matches, h, matches.len());
                        assert forall|k: int| 0 <= k < (g + d).len() implies ((g + d)[k] is GroupDragOver
                            || (g + d)[k] is DragOver) by {
                            if k < g.len() {
                                assert((g + d)[k] == g[k]);
                            } else {
                                assert((g + d)[k] == d[k - g.len()]);
                            }
                        }
                    }
                },
                None => {},
            }
        },
        None => {},
    }
}

/// The base style comes first; no hover style applies while something is being
/// dragged; and a pressed element's active style, when it applies, comes last,
/// so that it shows over its hover and drag-over looks.
pub proof fn lemma_style_layer_order(
    slots: StyleSlots,
    focus: FocusFacts,
    group_hitbox_hovered: Option<bool>,
    hitbox_hovered: Option<bool>,
    records: Option<InteractionRecords>,
    drag: Option<(bool, Seq<GroupDragTarget>, Seq<bool>)>,
)
    ensures
        ({
            let layers = style_layers_spec(
                slots,
                focus,
                group_hitbox_hovered,
                hitbox_hovered,
                records,
                drag,
            );
            &&& layers[0] == StyleLayer::Base
            &&& (drag is Some ==> !layers.contains(StyleLayer::Hover) && !layers.contains(
                StyleLayer::GroupHover,
            ))
            &&& (layers.contains(StyleLayer::Active) ==> layers.last() == StyleLayer::Active)
        }),
{
    reveal(style_layers_spec);
    let base = seq![StyleLayer::Base];
    let focus_part = focus_layers(slots, focus);
    let hovered_part = hover_layers(
        slots,
        drag is Some,
        group_hovered_spec(group_hitbox_hovered, records),
        element_hovered_spec(hitbox_hovered, records),
    );
    let drag_part = drag_part_spec(hitbox_hovered, drag);
    let active_part = active_layers(slots, records);
    let prefix = base + focus_part + hovered_part + drag_part;
    let layers = style_layers_spec(
        slots,
        focus,
        group_hitbox_hovered,
        hitbox_hovered,
        records,
        drag,
    );
    assert(layers == prefix + active_part);
    lemma_drag_part_kinds(hitbox_hovered, drag);
    let head = base + focus_part + hovered_part;
    assert(prefix == head + drag_part);
    assert forall|k: int| 0 <= k < head.len() implies head[k] != StyleLayer::Active by {
        if k >= 1 + focus_part.len() {
            assert(head[k] == hovered_part[k - 1 - focus_part.len()]);
        } else if k >= 1 {
            assert(head[k] == focus_part[k - 1]);
        }
    }
    assert forall|k: int| 0 <= k < prefix.len() implies prefix[k] != StyleLayer::Active by {
        if k >= head.len() {
            assert(prefix[k] == drag_part[k - head.len()]);
        } else {
            assert(prefix[k] == head[k]);
        }
    }
    assert(layers[0] == StyleLayer::Base);
    if drag is Some {
        assert(hovered_part.len() == 0);
        assert forall|k: int| 0 <= k < layers.len() implies layers[k] != StyleLayer::Hover
            && layers[k] != StyleLayer::GroupHover by {
            if k >= prefix.len() {
                assert(layers[k] == active_part[k - prefix.len()]);
            } else if k >= head.len() {
                assert(layers[k] == drag_part[k - head.len()]);
            } else if k >= 1 {
                assert(layers[k] == focus_part[k - 1]);
            }
        }
    }
    if layers.contains(StyleLayer::Active) {
        let k = choose|k: int| 0 <= k < layers.len() && layers[k] == StyleLayer::Active;
        assert(k >= prefix.len()) by {
            if k < prefix.len() {
                assert(layers[k] == prefix[k]);
            }
        }
        assert(active_part[k - prefix.len()] == StyleLayer::Active);
    }
}

} // verus!
