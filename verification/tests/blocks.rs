use circuit_canvas::{
    Block, Connector, Plot, Selection, BLOCK_WIDTH, MAX_BLOCK_HEIGHT, PORT_OFFSET, PORT_RADIUS,
    PORT_SPACING,
};

#[test]
fn new_block_is_plain() {
    let block = Block::new(7, (40, -40), 2, 3).unwrap();
    assert_eq!(block.id(), 7);
    assert_eq!(block.position(), (40, -40));
    assert_eq!(block.start_pos(), (40, -40));
    assert!(!block.highlighted());
    assert_eq!(block.inputs(), 2);
    assert_eq!(block.outputs(), 3);
}

#[test]
fn block_size_follows_the_longer_row_of_ports() {
    assert_eq!(Block::new(0, (0, 0), 0, 0).unwrap().size(), (80, 40));
    assert_eq!(Block::new(0, (0, 0), 1, 0).unwrap().size(), (80, 40));
    assert_eq!(Block::new(0, (0, 0), 1, 1).unwrap().size(), (80, 40));
    assert_eq!(Block::new(0, (0, 0), 2, 1).unwrap().size(), (80, 60));
    assert_eq!(Block::new(0, (0, 0), 1, 4).unwrap().size(), (80, 100));
    assert_eq!(Block::new(0, (0, 0), 255, 3).unwrap().size(), (BLOCK_WIDTH, MAX_BLOCK_HEIGHT));
    assert_eq!(2 * PORT_OFFSET + 254 * PORT_SPACING, MAX_BLOCK_HEIGHT);
}

#[test]
fn block_must_fit_where_coordinates_reach() {
    let left = i32::MIN + PORT_RADIUS;
    let right = i32::MAX - BLOCK_WIDTH - PORT_RADIUS;
    let bottom = i32::MAX - MAX_BLOCK_HEIGHT;
    assert!(Block::fits_at((left, i32::MIN)));
    assert!(Block::fits_at((right, bottom)));
    assert!(!Block::fits_at((left - 1, 0)));
    assert!(!Block::fits_at((right + 1, 0)));
    assert!(!Block::fits_at((0, bottom + 1)));
    assert!(Block::new(0, (right, bottom), 255, 255).is_some());
    assert!(Block::new(0, (right + 1, bottom), 1, 1).is_none());
    assert!(Block::new(0, (0, i32::MAX), 1, 1).is_none());
}

#[test]
fn connectors_sit_on_the_edges() {
    let block = Block::new(0, (100, 200), 3, 2).unwrap();
    assert_eq!(block.get_connector_pos(Connector::Input(0)), (100, 220));
    assert_eq!(block.get_connector_pos(Connector::Input(1)), (100, 240));
    assert_eq!(block.get_connector_pos(Connector::Input(2)), (100, 260));
    assert_eq!(block.get_connector_pos(Connector::Output(0)), (180, 220));
    assert_eq!(block.get_connector_pos(Connector::Output(1)), (180, 240));
    let far = Block::new(0, (i32::MAX - 86, i32::MAX - 5120), 255, 255).unwrap();
    assert_eq!(far.get_connector_pos(Connector::Output(255)), (i32::MAX - 6, i32::MAX));
}

#[test]
fn a_search_that_is_not_strict_takes_outputs_only() {
    let block = Block::new(0, (100, 200), 3, 2).unwrap();
    assert_eq!(block.position_on_connection((180, 220), false), Some(0));
    assert_eq!(block.position_on_connection((180, 240), false), Some(1));
    assert_eq!(block.position_on_connection((180, 260), false), None);
    assert_eq!(block.position_on_connection((100, 220), false), None);
    assert_eq!(block.position_on_connection((100, 260), false), None);
    assert_eq!(block.position_on_connection((140, 230), false), None);
}

#[test]
fn a_strict_search_takes_inputs_and_outputs() {
    let block = Block::new(0, (100, 200), 3, 2).unwrap();
    assert_eq!(block.position_on_connection((100, 220), true), Some(0));
    assert_eq!(block.position_on_connection((100, 240), true), Some(1));
    assert_eq!(block.position_on_connection((100, 260), true), Some(2));
    assert_eq!(block.position_on_connection((100, 280), true), None);
    assert_eq!(block.position_on_connection((180, 220), true), Some(0));
    assert_eq!(block.position_on_connection((180, 240), true), Some(1));
    assert_eq!(block.position_on_connection((180, 260), true), None);
    assert_eq!(block.position_on_connection((140, 230), true), None);
}

#[test]
fn a_knob_reaches_as_far_as_its_radius() {
    let block = Block::new(0, (100, 200), 1, 2).unwrap();
    for (dx, dy) in [(-6, -6), (6, 6), (-6, 6), (6, -6), (0, 0), (3, -2)] {
        assert_eq!(block.position_on_connection((180 + dx, 240 + dy), false), Some(1));
    }
    for (dx, dy) in [(-7, 0), (7, 0), (0, 7), (0, 9), (7, 7)] {
        assert_eq!(block.position_on_connection((180 + dx, 240 + dy), false), None);
    }
    // Seven below the second anchor is thirteen above the place of a third.
    assert_eq!(block.position_on_connection((180, 233), false), None);
    assert_eq!(block.position_on_connection((180, 226), false), Some(0));
    assert_eq!(block.position_on_connection((180, 213), false), None);
    assert_eq!(block.position_on_connection((180, 214), false), Some(0));
    assert_eq!(block.position_on_connection((i32::MIN, i32::MIN), true), None);
    assert_eq!(block.position_on_connection((i32::MAX, i32::MAX), true), None);
}

#[test]
fn the_pointer_is_on_a_block_and_on_its_knobs() {
    let block = Block::new(0, (100, 200), 2, 1).unwrap();
    assert!(block.touches((100, 200)));
    assert!(block.touches((180, 260)));
    assert!(block.touches((94, 230)));
    assert!(block.touches((186, 230)));
    assert!(!block.touches((93, 230)));
    assert!(!block.touches((187, 230)));
    assert!(!block.touches((140, 199)));
    assert!(!block.touches((140, 261)));
    assert!(!block.touches((i32::MIN, i32::MAX)));
}

#[test]
fn a_rectangle_meets_a_block_from_any_corners() {
    let block = Block::new(0, (100, 200), 1, 1).unwrap();
    let meets = [((0, 0), (100, 200)), ((180, 240), (900, 900)), ((120, 210), (130, 220)),
        ((0, 220), (500, 221)), ((150, 0), (151, 500))];
    for (a, b) in meets {
        assert!(block.is_in_area(a, b));
        assert!(block.is_in_area(b, a));
        assert!(block.is_in_area((a.0, b.1), (b.0, a.1)));
        assert!(block.is_in_area((b.0, a.1), (a.0, b.1)));
    }
    let misses = [((0, 0), (99, 500)), ((181, 0), (500, 500)), ((0, 0), (500, 199)),
        ((0, 241), (500, 500))];
    for (a, b) in misses {
        assert!(!block.is_in_area(a, b));
        assert!(!block.is_in_area(b, a));
        assert!(!block.is_in_area((a.0, b.1), (b.0, a.1)));
    }
}

#[test]
fn setters_change_one_thing() {
    let mut block = Block::new(3, (1, 2), 1, 1).unwrap();
    block.set_position((10, 20));
    assert_eq!(block.position(), (10, 20));
    assert_eq!(block.start_pos(), (1, 2));
    block.set_start_pos((10, 20));
    assert_eq!(block.start_pos(), (10, 20));
    block.set_highlighted(true);
    assert!(block.highlighted());
    assert_eq!(block.id(), 3);
    assert_eq!(block.position(), (10, 20));
}

#[test]
fn a_plot_names_blocks_by_their_place() {
    let mut plot = Plot::new();
    assert_eq!(plot.len(), 0);
    assert_eq!(plot.selection(), Selection::Idle);
    assert_eq!(plot.add_block((0, 0), 1, 1), Some(0));
    assert_eq!(plot.add_block((i32::MAX, 0), 1, 1), None);
    assert_eq!(plot.add_block((500, 0), 2, 2), Some(1));
    assert_eq!(plot.len(), 2);
    assert_eq!(plot.get_block(0).unwrap().id(), 0);
    assert_eq!(plot.get_block(1).unwrap().id(), 1);
    assert_eq!(plot.get_block(1).unwrap().position(), (500, 0));
    assert!(plot.get_block(2).is_none());
    assert!(plot.get_block_mut(2).is_none());
}

#[test]
fn the_block_added_last_lies_on_top() {
    let mut plot = Plot::new();
    plot.add_block((0, 0), 1, 1);
    plot.add_block((40, 20), 1, 1);
    plot.add_block((300, 300), 1, 1);
    assert_eq!(plot.get_block_at((10, 10)), Some(0));
    assert_eq!(plot.get_block_at((50, 30)), Some(1));
    assert_eq!(plot.get_block_at((100, 50)), Some(1));
    assert_eq!(plot.get_block_at((85, 10)), Some(0));
    assert_eq!(plot.get_block_at((310, 310)), Some(2));
    assert_eq!(plot.get_block_at((200, 200)), None);
    assert_eq!(Plot::new().get_block_at((0, 0)), None);
}

#[test]
fn a_block_can_be_changed_in_place() {
    let mut plot = Plot::new();
    plot.add_block((0, 0), 1, 1);
    plot.add_block((300, 300), 1, 1);
    if let Some(block) = plot.get_block_mut(1) {
        block.set_position((10, 10));
        block.set_highlighted(true);
    }
    assert_eq!(plot.get_block(1).unwrap().position(), (10, 10));
    assert!(plot.get_block(1).unwrap().highlighted());
    assert_eq!(plot.get_block(0).unwrap().position(), (0, 0));
    assert_eq!(plot.get_block_at((20, 20)), Some(1));
}

#[test]
fn unhighlight_clears_every_block() {
    let mut plot = Plot::new();
    for i in 0..4 {
        plot.add_block((i * 100, 0), 1, 1);
    }
    plot.get_block_mut(1).unwrap().set_highlighted(true);
    plot.get_block_mut(3).unwrap().set_highlighted(true);
    plot.set_selection(Selection::Single(3));
    plot.unhighlight();
    for id in 0..4 {
        assert!(!plot.get_block(id).unwrap().highlighted());
        assert_eq!(plot.get_block(id).unwrap().position(), (id as i32 * 100, 0));
    }
    assert_eq!(plot.selection(), Selection::Single(3));
}

#[test]
fn highlight_area_adds_to_the_highlights() {
    let mut plot = Plot::new();
    for i in 0..4 {
        plot.add_block((i * 100, 0), 1, 1);
    }
    plot.get_block_mut(3).unwrap().set_highlighted(true);
    plot.set_selection(Selection::Area((150, 20), (90, 10)));
    plot.highlight_area();
    let highlighted: Vec<bool> =
        (0..4).map(|id| plot.get_block(id).unwrap().highlighted()).collect();
    assert_eq!(highlighted, vec![false, true, false, true]);
    assert_eq!(plot.selection(), Selection::Area((150, 20), (90, 10)));
}

#[test]
fn highlight_area_needs_a_rectangle() {
    let mut plot = Plot::new();
    plot.add_block((0, 0), 1, 1);
    let before = plot.clone();
    plot.highlight_area();
    assert_eq!(plot, before);
    plot.set_selection(Selection::Single(0));
    plot.highlight_area();
    assert!(!plot.get_block(0).unwrap().highlighted());
}

#[test]
fn a_plot_tells_whether_it_is_well_formed() {
    let mut plot = Plot::new();
    assert!(plot.is_well_formed());
    plot.add_block((0, 0), 1, 1);
    plot.add_block((100, 0), 1, 1);
    assert!(plot.is_well_formed());
    plot.get_block_mut(1).unwrap().set_position((i32::MAX - 86, i32::MAX - 5120));
    assert!(plot.is_well_formed());
    // A block given back under another identity spoils the plot.
    let stranger = Block::new(5, (0, 0), 1, 1).unwrap();
    *plot.get_block_mut(1).unwrap() = stranger;
    assert!(!plot.is_well_formed());
    *plot.get_block_mut(1).unwrap() = Block::new(1, (7, 7), 1, 1).unwrap();
    assert!(plot.is_well_formed());
    assert_eq!(plot.get_block(1).unwrap().position(), (7, 7));
}
