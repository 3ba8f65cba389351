//! What an element tells assistive technology: the accessible properties that
//! are set on it, and the actions it supports, in the order they are written to
//! its node in the accessibility tree.
use vstd::prelude::*;

verus! {

/// The toggle state of a control.
#[derive(Clone, Copy, Debug, PartialEq, Eq, Structural)]
pub enum Toggled {
    False,
    True,
    Mixed,
}

/// The orientation of a control.
#[derive(Clone, Copy, Debug, PartialEq, Eq, Structural)]
pub enum Orientation {
    Horizontal,
    Vertical,
}

/// The accessible properties of an element, each unset until the element sets
/// it. Numeric values are held as the bits of their IEEE-754 double, which the
/// library hands on without reading.
#[derive(Clone, Debug)]
pub struct AriaProperties {
    pub label: Option<String>,
    pub description: Option<String>,
    pub keyshortcuts: Option<String>,
    pub selected: Option<bool>,
    pub expanded: Option<bool>,
    pub toggled: Option<Toggled>,
    pub numeric_value: Option<u64>,
    pub min_numeric_value: Option<u64>,
    pub max_numeric_value: Option<u64>,
    pub numeric_value_step: Option<u64>,
    pub value: Option<String>,
    pub placeholder: Option<String>,
    pub orientation: Option<Orientation>,
    pub level: Option<usize>,
    pub position_in_set: Option<usize>,
    pub size_of_set: Option<usize>,
    pub row_index: Option<usize>,
    pub column_index: Option<usize>,
    pub row_count: Option<usize>,
    pub column_count: Option<usize>,
}

/// One property written to an element's accessibility node.
#[derive(Clone, Debug, PartialEq, Eq)]
pub enum A11yProperty {
    Label(String),
    Description(String),
    KeyboardShortcut(String),
    Selected(bool),
    Expanded(bool),
    Toggled(Toggled),
    NumericValue(u64),
    MinNumericValue(u64),
    MaxNumericValue(u64),
    NumericValueStep(u64),
    Value(String),
    Placeholder(String),
    Orientation(Orientation),
    Level(usize),
    PositionInSet(usize),
    SizeOfSet(usize),
    RowIndex(usize),
    ColumnIndex(usize),
    RowCount(usize),
    ColumnCount(usize),
}

/// An action an element's accessibility node supports.
#[derive(Clone, Copy, Debug, PartialEq, Eq, Structural)]
pub enum A11yAction {
    Click,
    Focus,
    /// The action of the element's accessibility action listener with this
    /// index, in the order the listeners were registered.
    Listener(usize),
}

/// The properties and actions written to an element's accessibility node.
#[derive(Clone, Debug)]
pub struct A11yNodeInfo {
    pub properties: Vec<A11yProperty>,
    pub actions: Vec<A11yAction>,
}

/// The texts and states: label, description, keyboard shortcut, selected,
/// expanded and toggled.
pub open spec fn states_spec(a: AriaProperties) -> Seq<A11yProperty> {
    (match a.label { Some(s) => seq![A11yProperty::Label(s)], None => Seq::empty() })
        + (match a.description { Some(s) => seq![A11yProperty::Description(s)], None => Seq::empty() })
        + (match a.keyshortcuts { Some(s) => seq![A11yProperty::KeyboardShortcut(s)], None => Seq::empty() })
        + (match a.selected { Some(b) => seq![A11yProperty::Selected(b)], None => Seq::empty() })
        + (match a.expanded { Some(b) => seq![A11yProperty::Expanded(b)], None => Seq::empty() })
        + (match a.toggled { Some(t) => seq![A11yProperty::Toggled(t)], None => Seq::empty() })
}

/// The numeric value, its bounds and its step.
pub open spec fn numbers_spec(a: AriaProperties) -> Seq<A11yProperty> {
    (match a.numeric_value { Some(x) => seq![A11yProperty::NumericValue(x)], None => Seq::empty() })
        + (match a.min_numeric_value { Some(x) => seq![A11yProperty::MinNumericValue(x)], None => Seq::empty() })
        + (match a.max_numeric_value { Some(x) => seq![A11yProperty::MaxNumericValue(x)], None => Seq::empty() })
        + (match a.numeric_value_step { Some(x) => seq![A11yProperty::NumericValueStep(x)], None => Seq::empty() })
}

/// The string value, the placeholder and the orientation.
pub open spec fn value_texts_spec(a: AriaProperties) -> Seq<A11yProperty> {
    (match a.value { Some(s) => seq![A11yProperty::Value(s)], None => Seq::empty() })
        + (match a.placeholder { Some(s) => seq![A11yProperty::Placeholder(s)], None => Seq::empty() })
        + (match a.orientation { Some(o) => seq![A11yProperty::Orientation(o)], None => Seq::empty() })
}

/// The numeric value, its bounds and step, then the string value, placeholder
/// and orientation.
pub open spec fn values_spec(a: AriaProperties) -> Seq<A11yProperty> {
    numbers_spec(a) + value_texts_spec(a)
}

/// The level and the positions in sets and tables.
pub open spec fn positions_spec(a: AriaProperties) -> Seq<A11yProperty> {
    (match a.level { Some(n) => seq![A11yProperty::Level(n)], None => Seq::empty() })
        + (match a.position_in_set { Some(n) => seq![A11yProperty::PositionInSet(n)], None => Seq::empty() })
        + (match a.size_of_set { Some(n) => seq![A11yProperty::SizeOfSet(n)], None => Seq::empty() })
        + (match a.row_index { Some(n) => seq![A11yProperty::RowIndex(n)], None => Seq::empty() })
        + (match a.column_index { Some(n) => seq![A11yProperty::ColumnIndex(n)], None => Seq::empty() })
        + (match a.row_count { Some(n) => seq![A11yProperty::RowCount(n)], None => Seq::empty() })
        + (match a.column_count { Some(n) => seq![A11yProperty::ColumnCount(n)], None => Seq::empty() })
}

/// Every set property, in the order they are written.
pub open spec fn properties_spec(a: AriaProperties) -> Seq<A11yProperty> {
    states_spec(a) + values_spec(a) + positions_spec(a)
}

/// The supported actions: a click when the element has click listeners, focus
/// when it can be focused, then the action of each of its accessibility action
/// listeners.
pub open spec fn actions_spec(has_click_listeners: bool, focusable: bool, listeners: nat) -> Seq<A11yAction> {
    (if has_click_listeners { seq![A11yAction::Click] } else { Seq::empty() })
        + (if focusable { seq![A11yAction::Focus] } else { Seq::empty() })
        + Seq::new(listeners, |i: int| A11yAction::Listener(i as usize))
}

fn states(a: &AriaProperties) -> (r: Vec<A11yProperty>)
    ensures
        r@ == states_spec(*a),
{
    let mut v: Vec<A11yProperty> = Vec::new();
    match &a.label {
        Some(s) => v.push(A11yProperty::Label(s.clone())),
        None => {},
    }
    assert(v@ =~= (match a.label { Some(s) => seq![A11yProperty::Label(s)], None => Seq::empty() }));
    let ghost before = v@;
    match &a.description {
        Some(s) => v.push(A11yProperty::Description(s.clone())),
        None => {},
    }
    assert(v@ =~= before + (match a.description { Some(s) => seq![A11yProperty::Description(s)], None => Seq::empty() }));
    let ghost before = v@;
    match &a.keyshortcuts {
        Some(s) => v.push(A11yProperty::KeyboardShortcut(s.clone())),
        None => {},
    }
    assert(v@ =~= before + (match a.keyshortcuts { Some(s) => seq![A11yProperty::KeyboardShortcut(s)], None => Seq::empty() }));
    let ghost before = v@;
    match &a.selected {
        Some(b) => v.push(A11yProperty::Selected(*b)),
        None => {},
    }
    assert(v@ =~= before + (match a.selected { Some(b) => seq![A11yProperty::Selected(b)], None => Seq::empty() }));
    let ghost before = v@;
    match &a.expanded {
        Some(b) => v.push(A11yProperty::Expanded(*b)),
        None => {},
    }
    assert(v@ =~= before + (match a.expanded { Some(b) => seq![A11yProperty::Expanded(b)], None => Seq::empty() }));
    let ghost before = v@;
    match &a.toggled {
        Some(t) => v.push(A11yProperty::Toggled(*t)),
        None => {},
    }
    assert(v@ =~= before + (match a.toggled { Some(t) => seq![A11yProperty::Toggled(t)], None => Seq::empty() }));
    v
}

fn numbers(a: &AriaProperties) -> (r: Vec<A11yProperty>)
    ensures
        r@ == numbers_spec(*a),
{
    let mut v: Vec<A11yProperty> = Vec::new();
    match &a.numeric_value {
        Some(x) => v.push(A11yProperty::NumericValue(*x)),
        None => {},
    }
    assert(v@ =~= (match a.numeric_value { Some(x) => seq![A11yProperty::NumericValue(x)], None => Seq::empty() }));
    let ghost before = v@;
    match &a.min_numeric_value {
        Some(x) => v.push(A11yProperty::MinNumericValue(*x)),
        None => {},
    }
    assert(v@ =~= before + (match a.min_numeric_value { Some(x) => seq![A11yProperty::MinNumericValue(x)], None => Seq::empty() }));
    let ghost before = v@;
    match &a.max_numeric_value {
        Some(x) => v.push(A11yProperty::MaxNumericValue(*x)),
        None => {},
    }
    assert(v@ =~= before + (match a.max_numeric_value { Some(x) => seq![A11yProperty::MaxNumericValue(x)], None => Seq::empty() }));
    let ghost before = v@;
    match &a.numeric_value_step {
        Some(x) => v.push(A11yProperty::NumericValueStep(*x)),
        None => {},
    }
    assert(v@ =~= before + (match a.numeric_value_step { Some(x) => seq![A11yProperty::NumericValueStep(x)], None => Seq::empty() }));
    v
}

fn value_texts(a: &AriaProperties) -> (r: Vec<A11yProperty>)
    ensures
        r@ == value_texts_spec(*a),
{
    let mut v: Vec<A11yProperty> = Vec::new();
    match &a.value {
        Some(s) => v.push(A11yProperty::Value(s.clone())),
        None => {},
    }
    assert(v@ =~= (match a.value { Some(s) => seq![A11yProperty::Value(s)], None => Seq::empty() }));
    let ghost before = v@;
    match &a.placeholder {
        Some(s) => v.push(A11yProperty::Placeholder(s.clone())),
        None => {},
    }
    assert(v@ =~= before + (match a.placeholder { Some(s) => seq![A11yProperty::Placeholder(s)], None => Seq::empty() }));
    let ghost before = v@;
    match &a.orientation {
        Some(o) => v.push(A11yProperty::Orientation(*o)),
        None => {},
    }
    assert(v@ =~= before + (match a.orientation { Some(o) => seq![A11yProperty::Orientation(o)], None => Seq::empty() }));
    v
}

fn values(a: &AriaProperties) -> (r: Vec<A11yProperty>)
    ensures
        r@ == values_spec(*a),
{
    let mut v = numbers(a);
    let mut rest = value_texts(a);
    v.append(&mut rest);
    v
}

#[verifier::rlimit(40)]
fn positions(a: &AriaProperties) -> (r: Vec<A11yProperty>)
    ensures
        r@ == positions_spec(*a),
{
    let mut v: Vec<A11yProperty> = Vec::new();
    match &a.level {
        Some(n) => v.push(A11yProperty::Level(*n)),
        None => {},
    }
    assert(v@ =~= (match a.level { Some(n) => seq![A11yProperty::Level(n)], None => Seq::empty() }));
    let ghost before = v@;
    match &a.position_in_set {
        Some(n) => v.push(A11yProperty::PositionInSet(*n)),
        None => {},
    }
    assert(v@ =~= before + (match a.position_in_set { Some(n) => seq![A11yProperty::PositionInSet(n)], None => Seq::empty() }));
    let ghost before = v@;
    match &a.size_of_set {
        Some(n) => v.push(A11yProperty::SizeOfSet(*n)),
        None => {},
    }
    assert(v@ =~= before + (match a.size_of_set { Some(n) => seq![A11yProperty::SizeOfSet(n)], None => Seq::empty() }));
    let ghost before = v@;
    match &a.row_index {
        Some(n) => v.push(A11yProperty::RowIndex(*n)),
        None => {},
    }
    assert(v@ =~= before + (match a.row_index { Some(n) => seq![A11yProperty::RowIndex(n)], None => Seq::empty() }));
    let ghost before = v@;
    match &a.column_index {
        Some(n) => v.push(A11yProperty::ColumnIndex(*n)),
        None => {},
    }
    assert(v@ =~= before + (match a.column_index { Some(n) => seq![A11yProperty::ColumnIndex(n)], None => Seq::empty() }));
    let ghost before = v@;
    match &a.row_count {
        Some(n) => v.push(A11yProperty::RowCount(*n)),
        None => {},
    }
    assert(v@ =~= before + (match a.row_count { Some(n) => seq![A11yProperty::RowCount(n)], None => Seq::empty() }));
    let ghost before = v@;
    match &a.column_count {
        Some(n) => v.push(A11yProperty::ColumnCount(*n)),
        None => {},
    }
    assert(v@ =~= before + (match a.column_count { Some(n) => seq![A11yProperty::ColumnCount(n)], None => Seq::empty() }));
    v
}

/// What an element writes to its accessibility node: each property it set, in
/// a fixed order, and the actions it supports — a click when it has click
/// listeners, focus when it tracks a focus handle or is focusable, then the
/// action of each of its `listener_count` accessibility action listeners.
pub fn a11y_node_info(
    aria: &AriaProperties,
    has_click_listeners: bool,
    tracks_focus: bool,
    focusable: bool,
    listener_count: usize,
) -> (r: A11yNodeInfo)
    ensures
        r.properties@ == properties_spec(*aria),
        r.actions@ == actions_spec(has_click_listeners, tracks_focus || focusable, listener_count as nat),
{
    let mut properties = states(aria);
    let mut more = values(aria);
    properties.append(&mut more);
    let mut last = positions(aria);
    properties.append(&mut last);
    let mut actions: Vec<A11yAction> = Vec::new();
    if has_click_listeners {
        actions.push(A11yAction::Click);
    }
    if tracks_focus || focusable {
        actions.push(A11yAction::Focus);
    }
    let ghost head = actions@;
    let mut i: usize = 0;
    while i < listener_count
        invariant
            i <= listener_count,
            actions@ == head + Seq::new(i as nat, |k: int| A11yAction::Listener(k as usize)),
        decreases listener_count - i,
    {
        actions.push(A11yAction::Listener(i));
        i = i + 1;
        assert(actions@ =~= head + Seq::new(i as nat, |k: int| A11yAction::Listener(k as usize)));
    }
    assert(actions@ =~= actions_spec(has_click_listeners, tracks_focus || focusable, listener_count as nat));
    A11yNodeInfo { properties, actions }
}

impl AriaProperties {
    /// No property set.
    pub fn new() -> (r: AriaProperties)
        ensures
            properties_spec(r) == Seq::<A11yProperty>::empty(),
            r.label is None,
            r.value is None,
            r.numeric_value is None,
    {
        let r = AriaProperties {
            label: None,
            description: None,
            keyshortcuts: None,
            selected: None,
            expanded: None,
            toggled: None,
            numeric_value: None,
            min_numeric_value: None,
            max_numeric_value: None,
            numeric_value_step: None,
            value: None,
            placeholder: None,
            orientation: None,
            level: None,
            position_in_set: None,
            size_of_set: None,
            row_index: None,
            column_index: None,
            row_count: None,
            column_count: None,
        };
        assert(properties_spec(r) =~= Seq::<A11yProperty>::empty());
        r
    }
}

} // verus!
