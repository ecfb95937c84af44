use pointiv_extension_sdk::tile::{RowBuilder, TileAction, TileNode, TileTone, TileUi};

#[test]
fn builder_serializes_to_wire_format() {
    let tile = TileUi::new("Todos")
        .badge("2 open", TileTone::Warn)
        .row(RowBuilder::new("milk").action("Done", "todo done 1"))
        .footer("Refresh", "todo list");
    assert_eq!(tile.title, "Todos");
    match &tile.body[0] {
        TileNode::Badge { label, tone } => {
            assert_eq!(label, "2 open");
            assert_eq!(*tone, Some(TileTone::Warn));
        }
        other => panic!("expected a badge, got {other:?}"),
    }
    match &tile.body[1] {
        TileNode::Row { text, secondary, actions, .. } => {
            assert_eq!(text, "milk");
            assert_eq!(actions[0].command, "todo done 1");
            // Unset optionals stay unset.
            assert!(secondary.is_none());
        }
        other => panic!("expected a row, got {other:?}"),
    }
    assert_eq!(tile.footer[0].label, "Refresh");
    assert!(tile.subtitle.is_none());
}

#[test]
fn each_helper_appends_one_node() {
    let tile = TileUi::new("T")
        .subtitle("sub")
        .text("hi")
        .text_toned("quiet", TileTone::Okay, true)
        .text_toned("loud", TileTone::Danger, false)
        .progress(0.5f32.to_bits())
        .progress_labeled(1.0f32.to_bits(), "done")
        .countdown("2026-06-01T09:00:00Z")
        .countdown_labeled("2026-06-01T10:00:00Z", "ends", TileTone::Warn)
        .divider()
        .component("mui-chip", serde_json::Value::Bool(true))
        .node(TileNode::Divider);
    assert_eq!(tile.subtitle.as_deref(), Some("sub"));
    assert_eq!(tile.body.len(), 10);
    assert!(matches!(&tile.body[0], TileNode::Text { text, tone: None, muted: None } if text == "hi"));
    assert!(matches!(&tile.body[1], TileNode::Text { tone: Some(TileTone::Okay), muted: Some(true), .. }));
    assert!(matches!(&tile.body[2], TileNode::Text { tone: Some(TileTone::Danger), muted: None, .. }));
    assert!(matches!(&tile.body[3], TileNode::Progress { value, label: None } if f32::from_bits(*value) == 0.5));
    assert!(matches!(&tile.body[4], TileNode::Progress { label: Some(l), .. } if l == "done"));
    assert!(matches!(&tile.body[5], TileNode::Countdown { label: None, tone: None, .. }));
    assert!(matches!(&tile.body[6], TileNode::Countdown { label: Some(l), tone: Some(TileTone::Warn), .. } if l == "ends"));
    assert!(matches!(&tile.body[7], TileNode::Divider));
    match &tile.body[8] {
        TileNode::Component { component, props, children } => {
            assert_eq!(component, "mui-chip");
            assert!(props.is_empty());
            assert!(children.is_empty());
        }
        other => panic!("expected a component, got {other:?}"),
    }
    assert!(matches!(&tile.body[9], TileNode::Divider));
}

#[test]
fn component_keeps_object_props() {
    let mut props = serde_json::Map::new();
    props.insert("label".to_string(), serde_json::Value::String("beta".to_string()));
    props.insert("size".to_string(), serde_json::Value::String("small".to_string()));
    let tile = TileUi::new("T").component("mui-chip", serde_json::Value::Object(props.clone()));
    match &tile.body[0] {
        TileNode::Component { props: p, .. } => assert_eq!(p, &props),
        other => panic!("expected a component, got {other:?}"),
    }
}

#[test]
fn rows_keep_actions_in_order() {
    let node = RowBuilder::new("Buy milk")
        .secondary("added today")
        .badge("due", TileTone::Warn)
        .action("Done", "todo done 1")
        .action("Skip", "todo skip 1")
        .build();
    match node {
        TileNode::Row { text, secondary, badge, actions } => {
            assert_eq!(text, "Buy milk");
            assert_eq!(secondary.as_deref(), Some("added today"));
            let badge = badge.unwrap();
            assert_eq!((badge.label.as_str(), badge.tone), ("due", Some(TileTone::Warn)));
            let labels: Vec<&str> = actions.iter().map(|a| a.label.as_str()).collect();
            assert_eq!(labels, vec!["Done", "Skip"]);
        }
        other => panic!("expected a row, got {other:?}"),
    }
    let tile = TileUi::new("T").row(RowBuilder::new("r").action("A", "a")).divider();
    let copy = tile.clone();
    assert_eq!(copy.body.len(), 2);
    assert!(matches!(&copy.body[0], TileNode::Row { text, actions, .. } if text == "r" && actions[0].command == "a"));
    let a = TileAction::new("Go", "go");
    assert_eq!((a.label.as_str(), a.command.as_str()), ("Go", "go"));
    assert_eq!(TileTone::default(), TileTone::Neutral);
}
