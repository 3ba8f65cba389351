use rgpui::accessibility::{a11y_node_info, A11yAction, A11yProperty, AriaProperties, Orientation, Toggled};

fn numeric(p: &A11yProperty) -> Option<f64> {
    match p {
        A11yProperty::NumericValue(bits) => Some(f64::from_bits(*bits)),
        _ => None,
    }
}

#[test]
fn test_write_a11y_info_string_and_numeric_properties() {
    let mut aria = AriaProperties::new();
    aria.label = Some("Buffer Font Size".to_string());
    aria.value = Some("15".to_string());
    aria.placeholder = Some("Search".to_string());
    aria.numeric_value = Some(15.0f64.to_bits());
    aria.min_numeric_value = Some(6.0f64.to_bits());
    aria.max_numeric_value = Some(72.0f64.to_bits());
    aria.numeric_value_step = Some(1.0f64.to_bits());

    let info = a11y_node_info(&aria, false, false, false, 0);

    assert_eq!(
        info.properties,
        vec![
            A11yProperty::Label("Buffer Font Size".to_string()),
            A11yProperty::NumericValue(15.0f64.to_bits()),
            A11yProperty::MinNumericValue(6.0f64.to_bits()),
            A11yProperty::MaxNumericValue(72.0f64.to_bits()),
            A11yProperty::NumericValueStep(1.0f64.to_bits()),
            A11yProperty::Value("15".to_string()),
            A11yProperty::Placeholder("Search".to_string()),
        ]
    );
    assert_eq!(numeric(&info.properties[1]), Some(15.0));
    assert!(info.actions.is_empty());
}

#[test]
fn a11y_node_lists_every_set_property_in_order() {
    let mut aria = AriaProperties::new();
    assert!(a11y_node_info(&aria, false, false, false, 0).properties.is_empty());
    aria.column_count = Some(4);
    aria.toggled = Some(Toggled::Mixed);
    aria.orientation = Some(Orientation::Vertical);
    aria.level = Some(2);
    aria.selected = Some(false);
    aria.description = Some("hint".to_string());
    let info = a11y_node_info(&aria, false, false, false, 0);
    assert_eq!(
        info.properties,
        vec![
            A11yProperty::Description("hint".to_string()),
            A11yProperty::Selected(false),
            A11yProperty::Toggled(Toggled::Mixed),
            A11yProperty::Orientation(Orientation::Vertical),
            A11yProperty::Level(2),
            A11yProperty::ColumnCount(4),
        ]
    );
}

#[test]
fn a11y_actions_follow_listeners_and_focus() {
    let aria = AriaProperties::new();
    let info = a11y_node_info(&aria, true, false, true, 2);
    assert_eq!(
        info.actions,
        vec![A11yAction::Click, A11yAction::Focus, A11yAction::Listener(0), A11yAction::Listener(1)]
    );
    let info = a11y_node_info(&aria, false, true, false, 0);
    assert_eq!(info.actions, vec![A11yAction::Focus]);
}
