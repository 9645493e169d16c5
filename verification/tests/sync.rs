use bevy_stroked_text::child::{count_background, CHILD_COUNT};
use bevy_stroked_text::offsets::{scale, stroke_offsets, unit_offset_table, STROKE_COPIES};
use bevy_stroked_text::sync::{
    create_children, foreground_child, refresh_node, stroke_child, update_child, update_children,
};
use bevy_stroked_text::{
    child_set_is_consistent, refresh_text_system, synchronize, Anchor, BreakLineOn, Color,
    FontHandle, JustifyText, RenderChild, Scalar, SceneMutation, StrokedText, TextNode, TextStyle,
    Vec2, Vec3,
};

const UNIT_TABLE: [(f32, f32); 8] = [
    (1.0, 1.0),
    (-1.0, -1.0),
    (1.0, -1.0),
    (-1.0, 1.0),
    (0.0, 1.0),
    (0.0, -1.0),
    (1.0, 0.0),
    (-1.0, 0.0),
];

fn num(value: f32) -> Scalar {
    Scalar::from_bits(value.to_bits())
}

fn float(s: Scalar) -> f32 {
    f32::from_bits(s.to_bits())
}

fn at(x: f32, y: f32, z: f32) -> Vec3 {
    Vec3::new(num(x), num(y), num(z))
}

fn red() -> Color {
    Color::rgb(num(1.0), num(0.0), num(0.0))
}

fn green() -> Color {
    Color::rgb(num(0.0), num(1.0), num(0.0))
}

fn hi() -> StrokedText {
    StrokedText {
        text: "Hi".to_string(),
        color: Color::white(),
        stroke_color: Color::black(),
        stroke_width: num(1.0),
        ..StrokedText::default()
    }
}

fn fancy() -> StrokedText {
    StrokedText {
        text: "Custom font".to_string(),
        color: red(),
        stroke_color: green(),
        font: FontHandle::Uuid { uuid: 0x1234_5678_9abc_def0 },
        font_size: num(48.0),
        text_anchor: Anchor::TopLeft,
        justify_text: JustifyText::Center,
        linebreak_behavior: BreakLineOn::NoWrap,
        stroke_width: num(1.5),
    }
}

fn stray(z: f32) -> RenderChild {
    RenderChild {
        text_content: "old".to_string(),
        style: TextStyle {
            font: FontHandle::Index { bits: 9 },
            font_size: num(10.0),
            color: Color::rgb(num(0.5), num(0.5), num(0.5)),
        },
        justification: JustifyText::Right,
        line_break_policy: BreakLineOn::AnyCharacter,
        local_offset: at(3.0, -4.0, z),
        anchor: Anchor::Custom(Vec2::new(num(0.1), num(0.2))),
    }
}

fn children_of(mutation: SceneMutation) -> Vec<RenderChild> {
    match mutation {
        SceneMutation::Spawn(children) => children,
        SceneMutation::Update { children, .. } => children,
    }
}

fn offsets_of(children: &[RenderChild]) -> Vec<(f32, f32, f32)> {
    children
        .iter()
        .map(|c| (float(c.local_offset.x), float(c.local_offset.y), float(c.local_offset.z)))
        .collect()
}

#[test]
fn unit_table_is_the_eight_neighbours_in_order() {
    let table = unit_offset_table();
    assert_eq!(
        table,
        vec![(1, 1), (-1, -1), (1, -1), (-1, 1), (0, 1), (0, -1), (1, 0), (-1, 0)]
    );
    assert_eq!(table.len(), STROKE_COPIES);
}

#[test]
fn a_unit_step_is_the_width_its_negation_or_zero() {
    assert_eq!(float(scale(1, num(2.5))), 2.5);
    assert_eq!(float(scale(-1, num(2.5))), -2.5);
    assert_eq!(scale(0, num(2.5)).to_bits(), 0.0f32.to_bits());
    assert_eq!(scale(-1, num(0.0)).to_bits(), (-0.0f32).to_bits());
    assert_eq!(scale(0, num(f32::NAN)).to_bits(), 0.0f32.to_bits());
}

#[test]
fn offsets_of_unit_width_are_the_table() {
    let offsets = stroke_offsets(num(1.0));
    assert_eq!(offsets.len(), 8);
    for (offset, unit) in offsets.iter().zip(UNIT_TABLE.iter()) {
        assert_eq!(offset.x.to_bits(), unit.0.to_bits());
        assert_eq!(offset.y.to_bits(), unit.1.to_bits());
        assert_eq!(offset.z.to_bits(), (-1.0f32).to_bits());
    }
}

#[test]
fn offsets_are_what_the_literal_table_gives() {
    for s in [0.0f32, 0.5, 1.0, 1.5, 2.0, 7.25, -3.0, f32::INFINITY] {
        let literal = [
            (s, s, -1.0f32),
            (-s, -s, -1.0),
            (s, -s, -1.0),
            (-s, s, -1.0),
            (0.0, s, -1.0),
            (0.0, -s, -1.0),
            (s, 0.0, -1.0),
            (-s, 0.0, -1.0),
        ];
        let offsets = stroke_offsets(num(s));
        assert_eq!(offsets.len(), literal.len());
        for (offset, expected) in offsets.iter().zip(literal.iter()) {
            assert_eq!(offset.x.to_bits(), expected.0.to_bits());
            assert_eq!(offset.y.to_bits(), expected.1.to_bits());
            assert_eq!(offset.z.to_bits(), expected.2.to_bits());
        }
    }
}

#[test]
fn offsets_normalized_by_width_are_the_table_whatever_the_declaration() {
    for declaration in [hi(), fancy(), StrokedText { stroke_width: num(0.125), ..fancy() }] {
        let width = float(declaration.stroke_width);
        let children = create_children(&declaration);
        let normalized: Vec<(f32, f32)> = children[1..]
            .iter()
            .map(|c| (float(c.local_offset.x) / width, float(c.local_offset.y) / width))
            .collect();
        assert_eq!(normalized, UNIT_TABLE.to_vec());
    }
}

#[test]
fn creation_makes_nine_children_matching_the_table() {
    let declaration = hi();
    let mutation = synchronize(&declaration, None);
    assert!(mutation.is_spawn());
    let children = match mutation {
        SceneMutation::Spawn(children) => children,
        SceneMutation::Update { .. } => panic!("a declaration without nodes gets nodes"),
    };
    assert_eq!(children.len(), 9);
    assert_eq!(
        offsets_of(&children),
        vec![
            (0.0, 0.0, 0.0),
            (1.0, 1.0, -1.0),
            (-1.0, -1.0, -1.0),
            (1.0, -1.0, -1.0),
            (-1.0, 1.0, -1.0),
            (0.0, 1.0, -1.0),
            (0.0, -1.0, -1.0),
            (1.0, 0.0, -1.0),
            (-1.0, 0.0, -1.0),
        ]
    );
    assert_eq!(children[0].style.color, Color::white());
    for child in &children[1..] {
        assert_eq!(child.style.color, Color::black());
    }
    for child in &children {
        assert_eq!(child.text_content, "Hi");
        assert_eq!(child.style.font, FontHandle::Fallback);
        assert_eq!(float(child.style.font_size), 32.0);
        assert_eq!(child.anchor, Anchor::Center);
    }
}

#[test]
fn foreground_child_mirrors_the_whole_declaration() {
    let declaration = fancy();
    let child = foreground_child(&declaration);
    assert_eq!(
        child,
        RenderChild {
            text_content: "Custom font".to_string(),
            style: TextStyle {
                font: FontHandle::Uuid { uuid: 0x1234_5678_9abc_def0 },
                font_size: num(48.0),
                color: red(),
            },
            justification: JustifyText::Center,
            line_break_policy: BreakLineOn::NoWrap,
            local_offset: at(0.0, 0.0, 0.0),
            anchor: Anchor::TopLeft,
        }
    );
}

#[test]
fn stroke_child_starts_with_default_alignment_and_wrapping() {
    let declaration = fancy();
    let child = stroke_child(&declaration, at(1.5, -1.5, -1.0));
    assert_eq!(
        child,
        RenderChild {
            text_content: "Custom font".to_string(),
            style: TextStyle {
                font: FontHandle::Uuid { uuid: 0x1234_5678_9abc_def0 },
                font_size: num(48.0),
                color: green(),
            },
            justification: JustifyText::Left,
            line_break_policy: BreakLineOn::WordBoundary,
            local_offset: at(1.5, -1.5, -1.0),
            anchor: Anchor::TopLeft,
        }
    );
}

#[test]
fn created_children_are_the_foreground_then_the_copies() {
    let declaration = fancy();
    let children = create_children(&declaration);
    assert_eq!(children.len(), CHILD_COUNT);
    assert_eq!(children[0], foreground_child(&declaration));
    let offsets = stroke_offsets(declaration.stroke_width);
    for i in 0..8 {
        assert_eq!(children[i + 1], stroke_child(&declaration, offsets[i]));
    }
}

#[test]
fn creation_is_repeatable() {
    let declaration = fancy();
    assert_eq!(synchronize(&declaration, None), synchronize(&declaration, None));
}

#[test]
fn text_change_reaches_all_nine_children() {
    let mut declaration = hi();
    let created = children_of(synchronize(&declaration, None));
    declaration.text = "Bye".to_string();
    let mutation = synchronize(&declaration, Some(created.clone()));
    assert!(!mutation.is_spawn());
    let updated = match mutation {
        SceneMutation::Update { children, intact } => {
            assert!(intact);
            children
        }
        SceneMutation::Spawn(_) => panic!("nodes that exist are never made again"),
    };
    assert_eq!(updated.len(), 9);
    for (after, before) in updated.iter().zip(created.iter()) {
        assert_eq!(after.text_content, "Bye");
        assert_eq!(after.local_offset, before.local_offset);
        assert_eq!(after.style.color, before.style.color);
    }
}

#[test]
fn fill_change_reaches_only_the_child_in_front() {
    let mut declaration = hi();
    let created = children_of(synchronize(&declaration, None));
    declaration.color = red();
    let updated = children_of(synchronize(&declaration, Some(created.clone())));
    assert_eq!(updated.len(), 9);
    let mut in_front = 0;
    for (after, before) in updated.iter().zip(created.iter()) {
        if float(after.local_offset.z) >= 0.0 {
            in_front += 1;
            assert_eq!(before.style.color, Color::white());
            assert_eq!(after.style.color, red());
        } else {
            assert_eq!(before.style.color, Color::black());
            assert_eq!(after.style.color, Color::black());
        }
    }
    assert_eq!(in_front, 1);
}

#[test]
fn double_width_doubles_every_offset() {
    let declaration = StrokedText { stroke_width: num(2.0), ..hi() };
    let children = children_of(synchronize(&declaration, None));
    assert_eq!(
        offsets_of(&children[1..]),
        vec![
            (2.0, 2.0, -1.0),
            (-2.0, -2.0, -1.0),
            (2.0, -2.0, -1.0),
            (-2.0, 2.0, -1.0),
            (0.0, 2.0, -1.0),
            (0.0, -2.0, -1.0),
            (2.0, 0.0, -1.0),
            (-2.0, 0.0, -1.0),
        ]
    );
    assert_eq!(offsets_of(&children[..1]), vec![(0.0, 0.0, 0.0)]);
}

#[test]
fn unchanged_declaration_is_never_touched() {
    let without_nodes = TextNode { changed: false, declaration: hi(), children: None };
    assert_eq!(refresh_node(without_nodes), None);
    let with_nodes =
        TextNode { changed: false, declaration: hi(), children: Some(create_children(&fancy())) };
    assert_eq!(refresh_node(with_nodes), None);
    for _tick in 0..5 {
        let nodes = vec![
            TextNode { changed: false, declaration: hi(), children: None },
            TextNode {
                changed: false,
                declaration: fancy(),
                children: Some(vec![stray(-1.0), stray(0.0)]),
            },
        ];
        assert_eq!(refresh_text_system(nodes), vec![None, None]);
    }
}

#[test]
fn a_tick_synchronizes_the_changed_and_only_them() {
    let stale = create_children(&hi());
    let nodes = vec![
        TextNode { changed: true, declaration: hi(), children: None },
        TextNode { changed: false, declaration: fancy(), children: None },
        TextNode { changed: true, declaration: fancy(), children: Some(stale.clone()) },
        TextNode { changed: false, declaration: hi(), children: Some(stale.clone()) },
    ];
    let mutations = refresh_text_system(nodes);
    assert_eq!(
        mutations,
        vec![
            Some(synchronize(&hi(), None)),
            None,
            Some(synchronize(&fancy(), Some(stale))),
            None,
        ]
    );
    assert!(mutations[0].as_ref().unwrap().is_spawn());
    assert!(!mutations[2].as_ref().unwrap().is_spawn());
}

#[test]
fn a_tick_over_no_declarations_asks_nothing() {
    assert_eq!(refresh_text_system(Vec::new()), Vec::new());
}

#[test]
fn refresh_of_a_changed_node_is_its_synchronization() {
    let node = TextNode { changed: true, declaration: fancy(), children: None };
    assert_eq!(refresh_node(node), Some(synchronize(&fancy(), None)));
    let kids = vec![stray(-2.0), stray(5.0)];
    let node = TextNode { changed: true, declaration: fancy(), children: Some(kids.clone()) };
    assert_eq!(refresh_node(node), Some(synchronize(&fancy(), Some(kids))));
}

#[test]
fn second_synchronization_changes_nothing() {
    let declaration = StrokedText {
        text: "Hello, world!".to_string(),
        color: red(),
        font_size: num(20.0),
        stroke_width: num(3.0),
        ..StrokedText::default()
    };
    let first = children_of(synchronize(&declaration, None));
    let second = synchronize(&declaration, Some(first.clone()));
    assert_eq!(second, SceneMutation::Update { children: first, intact: true });
}

#[test]
fn second_update_changes_nothing() {
    let declaration = fancy();
    let found = vec![stray(-1.0), stray(0.0), stray(2.0), stray(f32::NAN), stray(-0.0)];
    let first = children_of(synchronize(&declaration, Some(found)));
    let second = children_of(synchronize(&declaration, Some(first.clone())));
    assert_eq!(second, first);
    let created = children_of(synchronize(&declaration, None));
    let once = children_of(synchronize(&declaration, Some(created)));
    let twice = children_of(synchronize(&declaration, Some(once.clone())));
    assert_eq!(twice, once);
}

#[test]
fn copies_take_alignment_and_wrapping_at_their_first_update() {
    let declaration = fancy();
    let created = create_children(&declaration);
    assert_eq!(created[0].justification, JustifyText::Center);
    assert_eq!(created[0].line_break_policy, BreakLineOn::NoWrap);
    for child in &created[1..] {
        assert_eq!(child.justification, JustifyText::Left);
        assert_eq!(child.line_break_policy, BreakLineOn::WordBoundary);
    }
    let updated = children_of(synchronize(&declaration, Some(created.clone())));
    assert_eq!(updated[0], created[0]);
    for (after, before) in updated[1..].iter().zip(created[1..].iter()) {
        assert_eq!(after.justification, JustifyText::Center);
        assert_eq!(after.line_break_policy, BreakLineOn::NoWrap);
        let expected = RenderChild {
            justification: JustifyText::Center,
            line_break_policy: BreakLineOn::NoWrap,
            ..before.clone()
        };
        assert_eq!(*after, expected);
    }
}

#[test]
fn created_set_has_one_in_front_and_eight_behind() {
    for declaration in [hi(), fancy(), StrokedText { stroke_width: num(0.0), ..hi() }] {
        let children = create_children(&declaration);
        assert_eq!(children.len(), 9);
        assert_eq!(count_background(&children), 8);
        assert!(child_set_is_consistent(&children));
        assert!(!children[0].is_background());
        assert!(float(children[0].local_offset.z) >= 0.0);
        for child in &children[1..] {
            assert!(child.is_background());
            assert!(float(child.local_offset.z) < 0.0);
        }
    }
}

#[test]
fn update_keeps_one_in_front_and_eight_behind() {
    let created = create_children(&hi());
    let updated = children_of(synchronize(&fancy(), Some(created)));
    assert_eq!(updated.len(), 9);
    assert_eq!(count_background(&updated), 8);
    assert!(child_set_is_consistent(&updated));
    assert_eq!(updated.iter().filter(|c| float(c.local_offset.z) >= 0.0).count(), 1);
    assert_eq!(updated.iter().filter(|c| float(c.local_offset.z) < 0.0).count(), 8);
}

#[test]
fn colors_follow_depth_after_an_update() {
    let declaration = fancy();
    let depths = [-1.0f32, 0.0, -0.0, 0.5, -0.001, f32::NEG_INFINITY, f32::INFINITY, f32::NAN];
    let found: Vec<RenderChild> = depths.iter().map(|z| stray(*z)).collect();
    let updated = children_of(synchronize(&declaration, Some(found)));
    assert_eq!(updated.len(), depths.len());
    for (child, z) in updated.iter().zip(depths.iter()) {
        if *z < 0.0 {
            assert_eq!(child.style.color, green());
        } else {
            assert_eq!(child.style.color, red());
        }
    }
    assert_eq!(updated[0].style.color, green());
    assert_eq!(updated[1].style.color, red());
    assert_eq!(updated[2].style.color, red());
    assert_eq!(updated[7].style.color, red());
}

#[test]
fn colors_follow_depth_after_creation() {
    let declaration = fancy();
    for child in create_children(&declaration) {
        if child.is_background() {
            assert_eq!(child.style.color, green());
        } else {
            assert_eq!(child.style.color, red());
        }
    }
}

#[test]
fn update_sets_text_size_alignment_wrapping_and_color() {
    let declaration = fancy();
    let mut child = stray(-1.0);
    update_child(&declaration, &mut child);
    assert_eq!(
        child,
        RenderChild {
            text_content: "Custom font".to_string(),
            style: TextStyle {
                font: FontHandle::Index { bits: 9 },
                font_size: num(48.0),
                color: green(),
            },
            justification: JustifyText::Center,
            line_break_policy: BreakLineOn::NoWrap,
            local_offset: at(3.0, -4.0, -1.0),
            anchor: Anchor::Custom(Vec2::new(num(0.1), num(0.2))),
        }
    );
    let mut front = stray(0.0);
    update_child(&declaration, &mut front);
    assert_eq!(front.style.color, red());
    assert_eq!(front.text_content, "Custom font");
}

#[test]
fn update_never_moves_a_child_nor_changes_its_font_or_anchor() {
    let declaration = fancy();
    let found = vec![stray(-1.0), stray(0.0), stray(7.0)];
    let mut children = found.clone();
    update_children(&declaration, &mut children);
    assert_eq!(children.len(), found.len());
    for (after, before) in children.iter().zip(found.iter()) {
        assert_eq!(after.local_offset, before.local_offset);
        assert_eq!(after.style.font, before.style.font);
        assert_eq!(after.anchor, before.anchor);
        assert_ne!(after.text_content, before.text_content);
    }
}

#[test]
fn font_and_width_changes_do_not_reach_existing_children() {
    let mut declaration = hi();
    let created = create_children(&declaration);
    declaration.font = FontHandle::Index { bits: 42 };
    declaration.stroke_width = num(5.0);
    declaration.text_anchor = Anchor::BottomRight;
    let updated = children_of(synchronize(&declaration, Some(created.clone())));
    assert_eq!(updated, created);
}

#[test]
fn a_set_of_the_wrong_size_is_updated_and_reported() {
    let declaration = fancy();
    let found = vec![stray(-1.0), stray(0.0), stray(-1.0)];
    match synchronize(&declaration, Some(found.clone())) {
        SceneMutation::Update { children, intact } => {
            assert!(!intact);
            assert_eq!(children.len(), 3);
            for (after, before) in children.iter().zip(found.iter()) {
                let mut expected = before.clone();
                update_child(&declaration, &mut expected);
                assert_eq!(*after, expected);
            }
        }
        SceneMutation::Spawn(_) => panic!("nodes that exist are never made again"),
    }
}

#[test]
fn an_empty_set_is_left_empty_and_reported() {
    assert_eq!(
        synchronize(&hi(), Some(Vec::new())),
        SceneMutation::Update { children: Vec::new(), intact: false }
    );
}

#[test]
fn nine_children_on_the_wrong_sides_are_reported() {
    let all_behind: Vec<RenderChild> = (0..9).map(|_| stray(-1.0)).collect();
    assert_eq!(count_background(&all_behind), 9);
    assert!(!child_set_is_consistent(&all_behind));
    let two_in_front: Vec<RenderChild> =
        (0..9).map(|i| stray(if i < 2 { 0.0 } else { -1.0 })).collect();
    assert_eq!(count_background(&two_in_front), 7);
    assert!(!child_set_is_consistent(&two_in_front));
    match synchronize(&hi(), Some(two_in_front)) {
        SceneMutation::Update { children, intact } => {
            assert!(!intact);
            assert_eq!(children.len(), 9);
        }
        SceneMutation::Spawn(_) => panic!("nodes that exist are never made again"),
    }
    let front_last: Vec<RenderChild> =
        (0..9).map(|i| stray(if i == 8 { 1.0 } else { -3.0 })).collect();
    assert!(child_set_is_consistent(&front_last));
    let ten: Vec<RenderChild> = (0..10).map(|i| stray(if i == 0 { 0.0 } else { -1.0 })).collect();
    assert!(!child_set_is_consistent(&ten));
    assert!(!child_set_is_consistent(&Vec::new()));
    assert_eq!(count_background(&Vec::new()), 0);
}

#[test]
fn a_child_at_minus_zero_or_nan_depth_counts_as_in_front() {
    assert!(!stray(-0.0).is_background());
    assert!(!stray(f32::NAN).is_background());
    assert!(!stray(0.0).is_background());
    assert!(stray(-1.0e-30).is_background());
    assert!(stray(f32::NEG_INFINITY).is_background());
}

#[test]
fn an_empty_text_still_gets_nine_children() {
    let children = create_children(&StrokedText::default());
    assert_eq!(children.len(), 9);
    for child in &children {
        assert_eq!(child.text_content, "");
    }
    assert!(child_set_is_consistent(&children));
}

#[test]
fn mutation_gives_its_children() {
    let spawn = synchronize(&hi(), None);
    assert_eq!(spawn.children().len(), 9);
    assert_eq!(*spawn.children(), create_children(&hi()));
    let update = synchronize(&hi(), Some(vec![stray(1.0)]));
    assert_eq!(update.children().len(), 1);
    assert_eq!(update.children()[0].text_content, "Hi");
}
