use grf_engine::{Action, Condition, Dialogue, DialogueChoice, DialogueManager, DialogueNode};

#[test]
fn test_dialogue_node() {
    let node = DialogueNode::new("start", "Robin", "Hello there!");
    assert_eq!(node.id.as_str(), "start");
    assert_eq!(node.speaker.as_str(), "Robin");
    assert_eq!(node.text.as_str(), "Hello there!");
    assert!(node.is_end());
}

#[test]
fn test_dialogue_with_choices() {
    let mut node = DialogueNode::new("start", "Robin", "How are you?");
    node.add_choice(DialogueChoice::new("I'm fine!", Some("response_good")));
    node.add_choice(DialogueChoice::new("Not great...", Some("response_bad")));

    assert!(node.has_choices());
    assert!(!node.is_end());
    assert_eq!(node.choices.len(), 2);
}

#[test]
fn test_dialogue_tree() {
    let mut dialogue = Dialogue::new("robin_intro", "start");

    let mut start = DialogueNode::new("start", "Robin", "Hey, welcome to town!");
    start.add_choice(DialogueChoice::new("Thanks!", Some("thanks")));
    start.add_choice(DialogueChoice::new("Who are you?", Some("who")));
    dialogue.add_node(start);

    let thanks = DialogueNode::new("thanks", "Robin", "No problem!");
    dialogue.add_node(thanks);

    let who = DialogueNode::new("who", "Robin", "I'm Robin, the carpenter.");
    dialogue.add_node(who);

    assert_eq!(dialogue.nodes.len(), 3);
    assert!(dialogue.get_start().is_some());
    assert!(dialogue.get_node(&"thanks".to_string()).is_some());
}

#[test]
fn test_dialogue_manager() {
    let mut manager = DialogueManager::new();

    let mut dialogue = Dialogue::new("test", "start");
    let mut start = DialogueNode::new("start", "NPC", "Hello!");
    start.add_choice(DialogueChoice::new("Hi!", Some("end")));
    dialogue.add_node(start);
    dialogue.add_node(DialogueNode::new("end", "NPC", "Goodbye!"));
    manager.add_dialogue(dialogue);

    assert!(manager.get_dialogue(&"test".to_string()).is_some());
}

#[test]
fn test_dialogue_navigation() {
    let mut manager = DialogueManager::new();

    let mut dialogue = Dialogue::new("test", "start");
    let mut start = DialogueNode::new("start", "NPC", "Hello!");
    start.add_choice(DialogueChoice::new("Hi!", Some("middle")));
    dialogue.add_node(start);
    dialogue.add_node(DialogueNode::new("middle", "NPC", "How are you?").with_next("end"));
    dialogue.add_node(DialogueNode::new("end", "NPC", "Goodbye!"));
    manager.add_dialogue(dialogue);

    assert!(manager.start(&"test".to_string()));
    assert!(manager.is_active());

    // Check current node
    let node = manager.current_node().unwrap();
    assert_eq!(node.id.as_str(), "start");
    assert_eq!(node.text.as_str(), "Hello!");

    // Select choice
    manager.select_choice(0);
    let node = manager.current_node().unwrap();
    assert_eq!(node.id.as_str(), "middle");

    // Continue
    manager.continue_dialogue();
    let node = manager.current_node().unwrap();
    assert_eq!(node.id.as_str(), "end");

    // Continue at end should end dialogue
    manager.continue_dialogue();
    assert!(!manager.is_active());
}

#[test]
fn test_choice_with_condition() {
    let choice = DialogueChoice::new("Give gift", Some("give"))
        .with_condition(Condition::HasItem { item_id: "diamond".to_string(), quantity: 1 })
        .with_action(Action::TakeItem { item_id: "diamond".to_string(), quantity: 1 });

    assert!(matches!(choice.condition, Condition::HasItem { .. }));
    assert!(matches!(choice.action, Action::TakeItem { .. }));
}

#[test]
fn test_dialogue_actions() {
    let mut manager = DialogueManager::new();

    let mut dialogue = Dialogue::new("test", "start");
    let mut start = DialogueNode::new("start", "NPC", "Have a gift!");
    start.add_choice(
        DialogueChoice::new("Thanks!", None).with_action(
            Action::GiveItem { item_id: "apple".to_string(), quantity: 5 },
        ),
    );
    dialogue.add_node(start);
    manager.add_dialogue(dialogue);
    manager.start(&"test".to_string());

    let action = manager.select_choice(0);
    assert!(matches!(action, Some(Action::GiveItem { .. })));
}

#[test]
fn test_choice_without_next_ends_dialogue() {
    let mut manager = DialogueManager::new();

    let mut dialogue = Dialogue::new("bye", "start");
    let mut start = DialogueNode::new("start", "NPC", "See you!");
    start.add_choice(DialogueChoice::new("Bye!", None));
    dialogue.add_node(start);
    manager.add_dialogue(dialogue);
    manager.start(&"bye".to_string());

    let action = manager.select_choice(0);
    assert!(matches!(action, Some(Action::NoAction)));
    assert!(!manager.is_active());
}

#[test]
fn test_go_back_in_history() {
    let mut manager = DialogueManager::new();

    let mut dialogue = Dialogue::new("walk", "start");
    let mut start = DialogueNode::new("start", "NPC", "One");
    start.add_choice(DialogueChoice::new("on", Some("two")));
    dialogue.add_node(start);
    dialogue.add_node(DialogueNode::new("two", "NPC", "Two"));
    manager.add_dialogue(dialogue);
    manager.start(&"walk".to_string());
    manager.select_choice(0);

    let mut state = manager.state().unwrap().clone();
    assert_eq!(state.current_node.as_str(), "two");
    assert!(state.go_back());
    assert_eq!(state.current_node.as_str(), "start");
    assert!(!state.go_back());
}

#[test]
fn test_add_node_replaces_same_id() {
    let mut dialogue = Dialogue::new("d", "start");
    dialogue.add_node(DialogueNode::new("start", "NPC", "Old text"));
    dialogue.add_node(DialogueNode::new("start", "NPC", "New text"));
    assert_eq!(dialogue.nodes.len(), 1);
    assert_eq!(dialogue.get_start().unwrap().text.as_str(), "New text");
}

#[test]
fn test_select_choice_out_of_range() {
    let mut manager = DialogueManager::new();
    let mut dialogue = Dialogue::new("d", "start");
    let mut start = DialogueNode::new("start", "NPC", "Hi");
    start.add_choice(DialogueChoice::new("only", Some("start")));
    dialogue.add_node(start);
    manager.add_dialogue(dialogue);
    manager.start(&"d".to_string());

    assert!(manager.select_choice(3).is_none());
    assert!(manager.is_active());
    assert_eq!(manager.current_node().unwrap().id.as_str(), "start");
}
