use bmg::bmg::EntryCondition;
use bmg::bmg::EntryEvent;
use bmg::bmg::EntryText;
use bmg::bmg::FLW1Entry;
use bmg::bmg::FLW1;

/// The three-node graph: node 0 = Text(message 5, successor 1), node 1 =
/// Condition(type 0, branch pair at 0), node 2 = Event(type 2, branch slot
/// at the sentinel), with branch table [2, sentinel].
fn three_node_graph() -> FLW1 {
    FLW1 {
        nodenum: 3,
        branchnodenum: 2,
        padding: 0,
        entries: vec![
            FLW1Entry::Text(EntryText {
                unk: 0,
                textid: 5,
                nexttextid: 1,
                validity: 1,
                unk2: 0,
            }),
            FLW1Entry::Condition(EntryCondition {
                unk: 0,
                conditiontype: 0,
                arg: 0,
                branchnodeid: 0,
            }),
            FLW1Entry::Event(EntryEvent { event_type: 2, branchnodeid: 0xFFFF, arg: 0 }),
        ],
        branch_nodes: vec![2, 0xFFFF],
    }
}

#[test]
fn only_the_unreferenced_text_node_is_a_flow_root() {
    let g = three_node_graph();
    assert!(g.has_flow(5));
    assert!(!g.has_flow(0));
    assert!(!g.has_flow(1));
}

#[test]
fn a_targeted_text_node_is_not_a_root() {
    let mut g = three_node_graph();
    // a second text node that names node 0 as its successor
    g.nodenum = 4;
    g.entries.push(FLW1Entry::Text(EntryText {
        unk: 0,
        textid: 9,
        nexttextid: 0,
        validity: 1,
        unk2: 0,
    }));
    assert!(!g.has_flow(5));
    assert!(g.has_flow(9));
}

#[test]
fn traversal_visits_each_node_exactly_once() {
    let g = three_node_graph();
    let mut visited = vec![false; 3];
    let trace = g.findnode(5, &mut visited);
    assert_eq!(visited, vec![true, true, true]);
    for node in ["[node:0]", "[node:1]", "[node:2]"] {
        assert_eq!(trace.matches(node).count(), 1);
    }
    assert_eq!(
        trace,
        "[node:0][type:text][messageid:5][next:1]\n\
         [node:1][type:condition][type:MultipleChoice][choice:PenguinRace][trueflow:2][falseflow:none]\n\
         [node:2][type:event][type:NextText][arg:0][next:none]\n"
    );
}

#[test]
fn a_cycle_back_to_the_root_terminates_and_visits_once() {
    let mut g = three_node_graph();
    // point the event node back at node 0 through a third branch slot
    g.branchnodenum = 3;
    g.branch_nodes = vec![2, 0xFFFF, 0];
    g.entries[2] = FLW1Entry::Event(EntryEvent { event_type: 2, branchnodeid: 2, arg: 0 });
    let mut visited = vec![false; 3];
    let trace = g.findnode(5, &mut visited);
    assert_eq!(visited, vec![true, true, true]);
    for node in ["[node:0]", "[node:1]", "[node:2]"] {
        assert_eq!(trace.matches(node).count(), 1);
    }
}

#[test]
fn rendering_twice_outputs_only_on_the_first_call() {
    let g = three_node_graph();
    let mut visited = vec![false; 3];
    let mut trace = String::new();
    g.write_flow(0, g.entries[0], &mut trace, &mut visited);
    let first = trace.clone();
    assert!(!first.is_empty());
    g.write_flow(0, g.entries[0], &mut trace, &mut visited);
    assert_eq!(trace, first);
    assert_eq!(visited, vec![true, true, true]);
}

#[test]
fn findnode_without_a_matching_message_is_empty() {
    let g = three_node_graph();
    let mut visited = vec![false; 3];
    let trace = g.findnode(77, &mut visited);
    assert!(trace.is_empty());
    assert_eq!(visited, vec![false, false, false]);
}

#[test]
fn condition_and_event_symbol_fallbacks() {
    let c = EntryCondition { unk: 0, conditiontype: 14, arg: 19, branchnodeid: 0 };
    assert_eq!(c.get_con_type(), "IsMsgLedPattern");
    assert_eq!(c.get_choice(), "LedPattern");
    let c2 = EntryCondition { unk: 0, conditiontype: 15, arg: 20, branchnodeid: 0 };
    assert_eq!(c2.get_con_type(), "15");
    assert_eq!(c2.get_choice(), "20");
    let e = EntryEvent { event_type: 7, branchnodeid: 0, arg: 0 };
    assert_eq!(e.get_event_type(), "Metamorphosis");
    let e2 = EntryEvent { event_type: 8, branchnodeid: 0, arg: 0 };
    assert_eq!(e2.get_event_type(), "8");
}

#[test]
fn condition_with_nonzero_type_renders_its_argument() {
    let g = FLW1 {
        nodenum: 1,
        branchnodenum: 2,
        padding: 0,
        entries: vec![FLW1Entry::Condition(EntryCondition {
            unk: 0,
            conditiontype: 2,
            arg: 7,
            branchnodeid: 0,
        })],
        branch_nodes: vec![0xFFFF, 0xFFFF],
    };
    let mut visited = vec![false; 1];
    let mut trace = String::new();
    g.write_flow(0, g.entries[0], &mut trace, &mut visited);
    assert_eq!(
        trace,
        "[node:0][type:condition][type:PlayerNearNpc][arg:7][trueflow:none][falseflow:none]\n"
    );
}

#[test]
fn event_branch_outside_the_table_targets_nothing() {
    // the table has two slots; an index past them yields the sentinel
    let g = three_node_graph();
    assert_eq!(g.branch_target(0), 2);
    assert_eq!(g.branch_target(1), 0xFFFF);
    assert_eq!(g.branch_target(5), 0xFFFF);
    assert_eq!(g.branch_target(0xFFFF), 0xFFFF);
}
