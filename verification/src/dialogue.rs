use vstd::prelude::*;

verus! {

/// A condition that must be met for a dialogue choice to be available.
#[derive(Debug, Clone, PartialEq)]
pub enum Condition {
    /// The player has at least `quantity` of an item.
    HasItem { item_id: String, quantity: u32 },
    /// The player does not have an item.
    NotHasItem { item_id: String },
    /// Friendship with an NPC is at least `level`.
    FriendshipLevel { npc_id: String, level: u32 },
    /// A flag is set.
    FlagSet { flag: String },
    /// A flag is not set.
    FlagNotSet { flag: String },
    /// Always true.
    Always,
}

impl Default for Condition {
    /// The default condition always holds.
    fn default() -> (r: Self)
        ensures
            r == Condition::Always,
    {
        Condition::Always
    }
}

/// An effect to apply when a dialogue choice is selected.
#[derive(Debug, Clone, PartialEq)]
pub enum Action {
    /// Give an item to the player.
    GiveItem { item_id: String, quantity: u32 },
    /// Take an item from the player.
    TakeItem { item_id: String, quantity: u32 },
    /// Change friendship with an NPC.
    ChangeFriendship { npc_id: String, amount: i32 },
    /// Set a flag.
    SetFlag { flag: String },
    /// Clear a flag.
    ClearFlag { flag: String },
    /// No effect.
    NoAction,
}

impl Default for Action {
    /// The default action does nothing.
    fn default() -> (r: Self)
        ensures
            r == Action::NoAction,
    {
        Action::NoAction
    }
}

/// A choice the player can make in a dialogue node.
#[derive(Debug, Clone)]
pub struct DialogueChoice {
    /// Display text for the choice.
    pub text: String,
    /// Node to go to when this choice is selected; `None` ends the dialogue.
    pub next_node: Option<String>,
    /// Condition that must be met for the choice to be shown.
    pub condition: Condition,
    /// Action to perform when selected.
    pub action: Action,
}

impl DialogueChoice {
    /// A plain choice without condition or action.
    pub fn new(text: &str, next_node: Option<&str>) -> (c: DialogueChoice)
        ensures
            c.text@ == text@,
            c.next_node is Some <==> next_node is Some,
            next_node matches Some(n) ==> c.next_node matches Some(cn) && cn@ == n@,
            c.condition == Condition::Always,
            c.action == Action::NoAction,
    {
        DialogueChoice {
            text: text.to_owned(),
            next_node: match next_node {
                Some(n) => Some(n.to_owned()),
                None => None,
            },
            condition: Condition::Always,
            action: Action::NoAction,
        }
    }

    /// This choice gated by a condition.
    pub fn with_condition(self, condition: Condition) -> (c: DialogueChoice)
        ensures
            c == (DialogueChoice { condition, ..self }),
    {
        DialogueChoice { condition, ..self }
    }

    /// This choice with an action.
    pub fn with_action(self, action: Action) -> (c: DialogueChoice)
        ensures
            c == (DialogueChoice { action, ..self }),
    {
        DialogueChoice { action, ..self }
    }
}

/// A single node in a dialogue tree.
#[derive(Debug, Clone)]
pub struct DialogueNode {
    /// Unique id of this node within its dialogue.
    pub id: String,
    /// Who is speaking (an NPC name, "player", or empty for narration).
    pub speaker: String,
    /// The dialogue text.
    pub text: String,
    /// Available choices (empty = end of dialogue or auto-continue).
    pub choices: Vec<DialogueChoice>,
    /// Node to continue to automatically when there are no choices.
    pub next: Option<String>,
    /// Action to perform on reaching this node.
    pub action: Action,
}

impl DialogueNode {
    /// Create a node with no choices, no continuation and no action.
    pub fn new(id: &str, speaker: &str, text: &str) -> (n: DialogueNode)
        ensures
            n.id@ == id@,
            n.speaker@ == speaker@,
            n.text@ == text@,
            n.choices@.len() == 0,
            n.next is None,
            n.action == Action::NoAction,
    {
        DialogueNode {
            id: id.to_owned(),
            speaker: speaker.to_owned(),
            text: text.to_owned(),
            choices: Vec::new(),
            next: None,
            action: Action::NoAction,
        }
    }

    /// Append a choice to this node.
    pub fn add_choice(&mut self, choice: DialogueChoice)
        ensures
            final(self).choices@ == old(self).choices@.push(choice),
            final(self).id == old(self).id,
            final(self).speaker == old(self).speaker,
            final(self).text == old(self).text,
            final(self).next == old(self).next,
            final(self).action == old(self).action,
    {
        self.choices.push(choice);
    }

    /// This node continuing automatically to the given node.
    pub fn with_next(self, next_id: &str) -> (n: DialogueNode)
        ensures
            n.next matches Some(nx) && nx@ == next_id@,
            n.id == self.id,
            n.speaker == self.speaker,
            n.text == self.text,
            n.choices == self.choices,
            n.action == self.action,
    {
        DialogueNode { next: Some(next_id.to_owned()), ..self }
    }

    /// Whether this node ends the dialogue: no choices and no continuation.
    pub fn is_end(&self) -> (r: bool)
        ensures
            r == (self.choices@.len() == 0 && self.next is None),
    {
        self.choices.len() == 0 && self.next.is_none()
    }

    /// Whether this node offers choices.
    pub fn has_choices(&self) -> (r: bool)
        ensures
            r == (self.choices@.len() > 0),
    {
        self.choices.len() > 0
    }
}

/// A complete dialogue tree.
#[derive(Debug, Clone)]
pub struct Dialogue {
    /// Unique id of this dialogue.
    pub id: String,
    /// Id of the starting node.
    pub start_node: String,
    /// The nodes of the dialogue; ids are unique.
    pub nodes: Vec<DialogueNode>,
}

impl Dialogue {
    /// Each node id occurs at most once.
    pub open spec fn wf(self) -> bool {
        forall|i: int, j: int|
            0 <= i < j < self.nodes@.len() ==> (#[trigger] self.nodes@[i].id@) != (
            #[trigger] self.nodes@[j].id@)
    }

    /// Whether a node with this id exists.
    pub open spec fn spec_has_node(self, id: Seq<char>) -> bool {
        exists|i: int| 0 <= i < self.nodes@.len() && (#[trigger] self.nodes@[i].id@) == id
    }

    /// The node stored under this id, if any.
    pub open spec fn spec_get_node(self, id: Seq<char>) -> Option<DialogueNode> {
        if self.spec_has_node(id) {
            Some(
                self.nodes@[choose|i: int|
                    0 <= i < self.nodes@.len() && (#[trigger] self.nodes@[i].id@) == id],
            )
        } else {
            None
        }
    }

    /// Create an empty dialogue with the given start node id.
    pub fn new(id: &str, start_node: &str) -> (d: Dialogue)
        ensures
            d.wf(),
            d.id@ == id@,
            d.start_node@ == start_node@,
            d.nodes@.len() == 0,
            forall|nid: Seq<char>| !d.spec_has_node(nid),
    {
        Dialogue { id: id.to_owned(), start_node: start_node.to_owned(), nodes: Vec::new() }
    }

    /// Add a node, replacing any previous node with the same id.
    pub fn add_node(&mut self, node: DialogueNode)
        requires
            old(self).wf(),
        ensures
            final(self).wf(),
            final(self).id == old(self).id,
            final(self).start_node == old(self).start_node,
            final(self).spec_get_node(node.id@) == Some(node),
            forall|nid: Seq<char>|
                nid != node.id@ ==> final(self).spec_get_node(nid) == old(self).spec_get_node(nid),
            final(self).nodes@.len() == old(self).nodes@.len() + (
            if old(self).spec_has_node(node.id@) {
                0int
            } else {
                1int
            }),
    {
        let ghost orig = self.nodes@;
        let mut i: usize = 0;
        while i < self.nodes.len()
            invariant
                old(self).wf(),
                self.nodes@ == orig,
                orig == old(self).nodes@,
                self.id == old(self).id,
                self.start_node == old(self).start_node,
                i <= self.nodes@.len(),
                forall|j: int| 0 <= j < i ==> (#[trigger] self.nodes@[j].id@) != node.id@,
            decreases self.nodes@.len() - i,
        {
            if self.nodes[i].id == node.id {
                self.nodes[i] = node;
                proof {
                    lemma_unique_node(*self, node.id@, i as int);
                    assert forall|nid: Seq<char>| nid != node.id@ implies final(self).spec_get_node(nid) == old(self).spec_get_node(nid) by {
                        lemma_node_unaffected(*old(self), *self, nid, i as int);
                    }
                }
                return ;
            }
            i = i + 1;
        }
        self.nodes.push(node);
        proof {
            assert(forall|j: int| 0 <= j < orig.len() ==> (#[trigger] self.nodes@[j]) == orig[j]);
            lemma_unique_node(*self, node.id@, orig.len() as int);
            assert forall|nid: Seq<char>| nid != node.id@ implies final(self).spec_get_node(nid)
                == old(self).spec_get_node(nid) by {
                lemma_node_unaffected(*old(self), *self, nid, orig.len() as int);
            }
        }
    }

    /// The starting node, if it has been added.
    pub fn get_start(&self) -> (r: Option<&DialogueNode>)
        requires
            self.wf(),
        ensures
            match r {
                Some(n) => self.spec_get_node(self.start_node@) == Some(*n),
                None => self.spec_get_node(self.start_node@) is None,
            },
    {
        let mut i: usize = 0;
        while i < self.nodes.len()
            invariant
                self.wf(),
                i <= self.nodes@.len(),
                forall|j: int| 0 <= j < i ==> (#[trigger] self.nodes@[j].id@) != self.start_node@,
            decreases self.nodes@.len() - i,
        {
            if self.nodes[i].id == self.start_node {
                proof {
                    lemma_unique_node(*self, self.start_node@, i as int);
                }
                return Some(&self.nodes[i]);
            }
            i = i + 1;
        }
        None
    }

    /// Look up a node by id.
    pub fn get_node(&self, id: &String) -> (r: Option<&DialogueNode>)
        requires
            self.wf(),
        ensures
            match r {
                Some(n) => self.spec_get_node(id@) == Some(*n),
                None => self.spec_get_node(id@) is None,
            },
    {
        let mut i: usize = 0;
        while i < self.nodes.len()
            invariant
                self.wf(),
                i <= self.nodes@.len(),
                forall|j: int| 0 <= j < i ==> (#[trigger] self.nodes@[j].id@) != id@,
            decreases self.nodes@.len() - i,
        {
            if self.nodes[i].id == *id {
                proof {
                    lemma_unique_node(*self, id@, i as int);
                }
                return Some(&self.nodes[i]);
            }
            i = i + 1;
        }
        None
    }
}

/// In a dialogue with unique node ids, an index whose node carries `id` is
/// the node `spec_get_node` denotes.
proof fn lemma_unique_node(d: Dialogue, id: Seq<char>, i: int)
    requires
        d.wf(),
        0 <= i < d.nodes@.len(),
        d.nodes@[i].id@ == id,
    ensures
        d.spec_has_node(id),
        d.spec_get_node(id) == Some(d.nodes@[i]),
{
    assert(d.spec_has_node(id));
    let w = choose|w: int| 0 <= w < d.nodes@.len() && (#[trigger] d.nodes@[w].id@) == id;
    if w != i {
        if w < i {
            assert(d.nodes@[w].id@ != d.nodes@[i].id@);
        } else {
            assert(d.nodes@[i].id@ != d.nodes@[w].id@);
        }
    }
}

/// A node lookup is unaffected by changing a node whose id differs, when the
/// node sequences agree elsewhere.
proof fn lemma_node_unaffected(a: Dialogue, b: Dialogue, id: Seq<char>, i: int)
    requires
        a.wf(),
        b.wf(),
        id != b.nodes@[i].id@,
        0 <= i < b.nodes@.len(),
        a.nodes@.len() == b.nodes@.len() || a.nodes@.len() + 1 == b.nodes@.len() && i
            == a.nodes@.len(),
        forall|j: int|
            0 <= j < b.nodes@.len() && j != i ==> (#[trigger] b.nodes@[j]) == a.nodes@[j],
        a.nodes@.len() == b.nodes@.len() ==> id != a.nodes@[i].id@,
    ensures
        b.spec_get_node(id) == a.spec_get_node(id),
{
    if b.spec_has_node(id) {
        let w = choose|w: int| 0 <= w < b.nodes@.len() && (#[trigger] b.nodes@[w].id@) == id;
        assert(w != i);
        assert(a.nodes@[w].id@ == id);
        lemma_unique_node(a, id, w);
        lemma_unique_node(b, id, w);
    } else if a.spec_has_node(id) {
        let w = choose|w: int| 0 <= w < a.nodes@.len() && (#[trigger] a.nodes@[w].id@) == id;
        assert(w != i || a.nodes@.len() == b.nodes@.len());
        assert(b.nodes@[w].id@ == id);
        assert(b.spec_has_node(id));
    }
}

/// State of one active dialogue.
#[derive(Debug, Clone)]
pub struct DialogueState {
    /// The dialogue being played.
    pub dialogue_id: String,
    /// Id of the current node.
    pub current_node: String,
    /// Visited node ids, oldest first; the current node is last.
    pub history: Vec<String>,
}

impl DialogueState {
    /// Start a dialogue at its start node.
    pub fn new(dialogue_id: &str, start_node: &str) -> (st: DialogueState)
        ensures
            st.dialogue_id@ == dialogue_id@,
            st.current_node@ == start_node@,
            st.history@.len() == 1,
            st.history@[0]@ == start_node@,
    {
        let mut history: Vec<String> = Vec::new();
        history.push(start_node.to_owned());
        DialogueState {
            dialogue_id: dialogue_id.to_owned(),
            current_node: start_node.to_owned(),
            history,
        }
    }

    /// Move to a node, recording it in the history.
    pub fn go_to(&mut self, node_id: &String)
        ensures
            final(self).dialogue_id == old(self).dialogue_id,
            final(self).current_node@ == node_id@,
            final(self).history@.len() == old(self).history@.len() + 1,
            forall|j: int|
                0 <= j < old(self).history@.len() ==> final(self).history@[j] == old(self).history@[j],
            final(self).history@.last()@ == node_id@,
    {
        self.history.push(node_id.clone());
        self.current_node = node_id.clone();
    }

    /// Step back to the previous node, if there is one.
    pub fn go_back(&mut self) -> (r: bool)
        ensures
            r == (old(self).history@.len() > 1),
            !r ==> *final(self) == *old(self),
            r ==> {
                &&& final(self).dialogue_id == old(self).dialogue_id
                &&& final(self).history@ == old(self).history@.drop_last()
                &&& final(self).current_node == old(self).history@[old(self).history@.len() - 2]
            },
    {
        if self.history.len() > 1 {
            let _ = self.history.pop();
            match self.history.last() {
                Some(prev) => {
                    self.current_node = prev.clone();
                    true
                },
                None => {
                    proof {
                        assert(false);
                    }
                    false
                },
            }
        } else {
            false
        }
    }
}

/// Holds loaded dialogues and drives the one that is active.
#[derive(Debug, Default)]
pub struct DialogueManager {
    /// Loaded dialogues; ids are unique.
    dialogues: Vec<Dialogue>,
    /// The active dialogue's state, if a dialogue is being played.
    active: Option<DialogueState>,
}

impl DialogueManager {
    /// The loaded dialogues, in insertion order.
    pub closed spec fn dialogues_view(self) -> Seq<Dialogue> {
        self.dialogues@
    }

    /// The active dialogue state, if any.
    pub closed spec fn spec_active(self) -> Option<DialogueState> {
        self.active
    }

    /// Dialogue ids are unique and every dialogue has unique node ids.
    pub closed spec fn wf(self) -> bool {
        &&& forall|i: int, j: int|
            0 <= i < j < self.dialogues@.len() ==> (#[trigger] self.dialogues@[i].id@) != (
            #[trigger] self.dialogues@[j].id@)
        &&& forall|i: int| 0 <= i < self.dialogues@.len() ==> (#[trigger] self.dialogues@[i]).wf()
    }

    /// Whether a dialogue with this id is loaded.
    pub open spec fn spec_has_dialogue(self, id: Seq<char>) -> bool {
        exists|i: int|
            0 <= i < self.dialogues_view().len() && (#[trigger] self.dialogues_view()[i].id@) == id
    }

    /// The dialogue stored under this id, if any.
    pub open spec fn spec_get_dialogue(self, id: Seq<char>) -> Option<Dialogue> {
        if self.spec_has_dialogue(id) {
            Some(
                self.dialogues_view()[choose|i: int|
                    0 <= i < self.dialogues_view().len() && (#[trigger] self.dialogues_view()[i].id@)
                        == id],
            )
        } else {
            None
        }
    }

    /// The node the active dialogue currently stands on, if a dialogue is
    /// active, its dialogue is loaded, and its current node exists.
    pub open spec fn spec_current_node(self) -> Option<DialogueNode> {
        match self.spec_active() {
            None => None,
            Some(st) => match self.spec_get_dialogue(st.dialogue_id@) {
                None => None,
                Some(d) => d.spec_get_node(st.current_node@),
            },
        }
    }

    /// Create a manager with no dialogues and nothing active.
    pub fn new() -> (m: DialogueManager)
        ensures
            m.wf(),
            m.dialogues_view().len() == 0,
            m.spec_active() is None,
            forall|id: Seq<char>| !m.spec_has_dialogue(id),
    {
        DialogueManager { dialogues: Vec::new(), active: None }
    }

    /// Add a dialogue, replacing any previous dialogue with the same id.
    pub fn add_dialogue(&mut self, dialogue: Dialogue)
        requires
            old(self).wf(),
            dialogue.wf(),
        ensures
            final(self).wf(),
            final(self).spec_active() == old(self).spec_active(),
            final(self).spec_get_dialogue(dialogue.id@) == Some(dialogue),
            forall|id: Seq<char>|
                id != dialogue.id@ ==> final(self).spec_get_dialogue(id) == old(self).spec_get_dialogue(id),
    {
        let ghost orig = self.dialogues@;
        let mut i: usize = 0;
        while i < self.dialogues.len()
            invariant
                old(self).wf(),
                dialogue.wf(),
                self.dialogues@ == orig,
                orig == old(self).dialogues@,
                self.active == old(self).active,
                i <= self.dialogues@.len(),
                forall|j: int| 0 <= j < i ==> (#[trigger] self.dialogues@[j].id@) != dialogue.id@,
            decreases self.dialogues@.len() - i,
        {
            if self.dialogues[i].id == dialogue.id {
                self.dialogues[i] = dialogue;
                proof {
                    lemma_unique_dialogue(*self, self.dialogues@[i as int].id@, i as int);
                    assert forall|id: Seq<char>| id != self.dialogues@[i as int].id@ implies final(self).spec_get_dialogue(id) == old(self).spec_get_dialogue(id) by {
                        lemma_dialogue_unaffected(*old(self), *self, id, i as int);
                    }
                }
                return ;
            }
            i = i + 1;
        }
        self.dialogues.push(dialogue);
        proof {
            assert(forall|j: int|
                0 <= j < orig.len() ==> (#[trigger] self.dialogues@[j]) == orig[j]);
            lemma_unique_dialogue(*self, self.dialogues@[orig.len() as int].id@, orig.len() as int);
            assert forall|id: Seq<char>| id != self.dialogues@[orig.len() as int].id@ implies final(self).spec_get_dialogue(id) == old(self).spec_get_dialogue(id) by {
                lemma_dialogue_unaffected(*old(self), *self, id, orig.len() as int);
            }
        }
    }

    /// Look up a loaded dialogue by id.
    pub fn get_dialogue(&self, id: &String) -> (r: Option<&Dialogue>)
        requires
            self.wf(),
        ensures
            match r {
                Some(d) => self.spec_get_dialogue(id@) == Some(*d),
                None => self.spec_get_dialogue(id@) is None,
            },
    {
        let mut i: usize = 0;
        while i < self.dialogues.len()
            invariant
                self.wf(),
                i <= self.dialogues@.len(),
                forall|j: int| 0 <= j < i ==> (#[trigger] self.dialogues@[j].id@) != id@,
            decreases self.dialogues@.len() - i,
        {
            if self.dialogues[i].id == *id {
                proof {
                    lemma_unique_dialogue(*self, id@, i as int);
                }
                return Some(&self.dialogues[i]);
            }
            i = i + 1;
        }
        None
    }

    /// Start a loaded dialogue at its start node. Returns whether the
    /// dialogue exists; an unknown id changes nothing.
    pub fn start(&mut self, dialogue_id: &String) -> (r: bool)
        requires
            old(self).wf(),
        ensures
            final(self).wf(),
            final(self).dialogues_view() == old(self).dialogues_view(),
            r == old(self).spec_has_dialogue(dialogue_id@),
            !r ==> final(self).spec_active() == old(self).spec_active(),
            r ==> (final(self).spec_active() matches Some(st) && st.dialogue_id@ == dialogue_id@
                && st.current_node@ == old(self).spec_get_dialogue(dialogue_id@)->0.start_node@
                && st.history@.len() == 1),
    {
        let start_node: String = {
            match self.get_dialogue(dialogue_id) {
                Some(d) => d.start_node.clone(),
                None => {
                    return false;
                },
            }
        };
        self.active = Some(DialogueState::new(dialogue_id.as_str(), start_node.as_str()));
        true
    }

    /// End the active dialogue, if any.
    pub fn end(&mut self)
        ensures
            final(self).dialogues_view() == old(self).dialogues_view(),
            final(self).spec_active() is None,
            old(self).wf() ==> final(self).wf(),
    {
        self.active = None;
    }

    /// Whether a dialogue is active.
    pub fn is_active(&self) -> (r: bool)
        ensures
            r == (self.spec_active() is Some),
    {
        self.active.is_some()
    }

    /// The node the active dialogue currently stands on.
    pub fn current_node(&self) -> (r: Option<&DialogueNode>)
        requires
            self.wf(),
        ensures
            match r {
                Some(n) => self.spec_current_node() == Some(*n),
                None => self.spec_current_node() is None,
            },
    {
        let state = match self.active.as_ref() {
            Some(s) => s,
            None => {
                return None;
            },
        };
        let dialogue = match self.get_dialogue(&state.dialogue_id) {
            Some(d) => d,
            None => {
                return None;
            },
        };
        dialogue.get_node(&state.current_node)
    }

    /// The choices of the current node, in order; empty when no dialogue is
    /// active or the current node is missing. (Condition checking is done by
    /// the game, which owns the state the conditions speak about.)
    pub fn current_choices(&self) -> (r: Vec<&DialogueChoice>)
        requires
            self.wf(),
        ensures
            match self.spec_current_node() {
                Some(n) => r@.len() == n.choices@.len() && forall|k: int|
                    0 <= k < r@.len() ==> *(#[trigger] r@[k]) == n.choices@[k],
                None => r@.len() == 0,
            },
    {
        let mut r: Vec<&DialogueChoice> = Vec::new();
        let node = match self.current_node() {
            Some(n) => n,
            None => {
                return r;
            },
        };
        let mut k: usize = 0;
        while k < node.choices.len()
            invariant
                self.spec_current_node() == Some(*node),
                k <= node.choices@.len(),
                r@.len() == k,
                forall|j: int| 0 <= j < k ==> *(#[trigger] r@[j]) == node.choices@[j],
            decreases node.choices@.len() - k,
        {
            r.push(&node.choices[k]);
            k = k + 1;
        }
        r
    }

    /// Select a choice of the current node by index. Returns the choice's
    /// action; the dialogue moves to the choice's next node, or ends when
    /// the choice has none. An invalid index (or no active dialogue, or a
    /// missing node) returns nothing and changes nothing.
    pub fn select_choice(&mut self, index: usize) -> (r: Option<Action>)
        requires
            old(self).wf(),
        ensures
            final(self).wf(),
            final(self).dialogues_view() == old(self).dialogues_view(),
            r is Some <==> (old(self).spec_current_node() matches Some(n) && (index as int)
                < n.choices@.len()),
            r is None ==> *final(self) == *old(self),
            old(self).spec_current_node() matches Some(n) ==> ((index as int) < n.choices@.len()
                ==> {
                let c = n.choices@[index as int];
                &&& r == Some(c.action)
                &&& c.next_node matches Some(nx) ==> {
                    &&& final(self).spec_active() matches Some(st)
                    &&& st.dialogue_id == old(self).spec_active()->0.dialogue_id
                    &&& st.current_node@ == nx@
                }
                &&& c.next_node is None ==> final(self).spec_active() is None
            }),
    {
        let (action, next): (Action, Option<String>) = {
            let state = match self.active.as_ref() {
                Some(s) => s,
                None => {
                    return None;
                },
            };
            let dialogue = match self.get_dialogue(&state.dialogue_id) {
                Some(d) => d,
                None => {
                    return None;
                },
            };
            let node = match dialogue.get_node(&state.current_node) {
                Some(n) => n,
                None => {
                    return None;
                },
            };
            if index >= node.choices.len() {
                return None;
            }
            let choice = &node.choices[index];
            (
                clone_action(&choice.action),
                match choice.next_node.as_ref() {
                    Some(n) => Some(n.clone()),
                    None => None,
                },
            )
        };

        match next {
            Some(next_id) => {
                let state = &mut self.active;
                match state.as_mut() {
                    Some(st) => {
                        st.go_to(&next_id);
                    },
                    None => {},
                }
            },
            None => {
                self.end();
            },
        }

        Some(action)
    }

    /// Continue past a node without choices: move to its `next` node when it
    /// has one (returning `true`); end the dialogue at an end node; do
    /// nothing at a node with choices, a missing node, or when no dialogue
    /// is active.
    pub fn continue_dialogue(&mut self) -> (r: bool)
        requires
            old(self).wf(),
        ensures
            final(self).wf(),
            final(self).dialogues_view() == old(self).dialogues_view(),
            r <==> (old(self).spec_current_node() matches Some(n) && n.next is Some),
            old(self).spec_current_node() is None ==> *final(self) == *old(self),
            old(self).spec_current_node() matches Some(n) ==> {
                &&& (n.choices@.len() == 0 && n.next is None) ==> final(self).spec_active() is None
                &&& n.next matches Some(nx) ==> {
                    &&& final(self).spec_active() matches Some(st)
                    &&& st.dialogue_id == old(self).spec_active()->0.dialogue_id
                    &&& st.current_node@ == nx@
                }
                &&& (n.choices@.len() > 0 && n.next is None) ==> *final(self) == *old(self)
            },
    {
        let (is_end, next): (bool, Option<String>) = {
            let state = match self.active.as_ref() {
                Some(s) => s,
                None => {
                    return false;
                },
            };
            let dialogue = match self.get_dialogue(&state.dialogue_id) {
                Some(d) => d,
                None => {
                    return false;
                },
            };
            let node = match dialogue.get_node(&state.current_node) {
                Some(n) => n,
                None => {
                    return false;
                },
            };
            (
                node.is_end(),
                match node.next.as_ref() {
                    Some(n) => Some(n.clone()),
                    None => None,
                },
            )
        };

        if is_end {
            self.end();
            return false;
        }

        match next {
            Some(next_id) => {
                let state = &mut self.active;
                match state.as_mut() {
                    Some(st) => {
                        st.go_to(&next_id);
                    },
                    None => {},
                }
                true
            },
            None => false,
        }
    }

    /// The active dialogue's state, if any.
    pub fn state(&self) -> (r: Option<&DialogueState>)
        ensures
            match r {
                Some(st) => self.spec_active() == Some(*st),
                None => self.spec_active() is None,
            },
    {
        self.active.as_ref()
    }
}

/// In a manager with unique dialogue ids, an index whose dialogue carries
/// `id` is the dialogue `spec_get_dialogue` denotes.
proof fn lemma_unique_dialogue(m: DialogueManager, id: Seq<char>, i: int)
    requires
        m.wf(),
        0 <= i < m.dialogues_view().len(),
        m.dialogues_view()[i].id@ == id,
    ensures
        m.spec_has_dialogue(id),
        m.spec_get_dialogue(id) == Some(m.dialogues_view()[i]),
{
    assert(m.spec_has_dialogue(id));
    let w = choose|w: int|
        0 <= w < m.dialogues_view().len() && (#[trigger] m.dialogues_view()[w].id@) == id;
    if w != i {
        if w < i {
            assert(m.dialogues_view()[w].id@ != m.dialogues_view()[i].id@);
        } else {
            assert(m.dialogues_view()[i].id@ != m.dialogues_view()[w].id@);
        }
    }
}

/// A dialogue lookup is unaffected by changing a dialogue whose id differs,
/// when the sequences agree elsewhere.
proof fn lemma_dialogue_unaffected(a: DialogueManager, b: DialogueManager, id: Seq<char>, i: int)
    requires
        a.wf(),
        b.wf(),
        id != b.dialogues_view()[i].id@,
        0 <= i < b.dialogues_view().len(),
        a.dialogues_view().len() == b.dialogues_view().len() || a.dialogues_view().len() + 1
            == b.dialogues_view().len() && i == a.dialogues_view().len(),
        forall|j: int|
            0 <= j < b.dialogues_view().len() && j != i ==> (#[trigger] b.dialogues_view()[j])
                == a.dialogues_view()[j],
        a.dialogues_view().len() == b.dialogues_view().len() ==> id != a.dialogues_view()[i].id@,
    ensures
        b.spec_get_dialogue(id) == a.spec_get_dialogue(id),
{
    if b.spec_has_dialogue(id) {
        let w = choose|w: int|
            0 <= w < b.dialogues_view().len() && (#[trigger] b.dialogues_view()[w].id@) == id;
        assert(w != i);
        assert(a.dialogues_view()[w].id@ == id);
        lemma_unique_dialogue(a, id, w);
        lemma_unique_dialogue(b, id, w);
    } else if a.spec_has_dialogue(id) {
        let w = choose|w: int|
            0 <= w < a.dialogues_view().len() && (#[trigger] a.dialogues_view()[w].id@) == id;
        assert(w != i || a.dialogues_view().len() == b.dialogues_view().len());
        assert(b.dialogues_view()[w].id@ == id);
        assert(b.spec_has_dialogue(id));
    }
}

/// A field-by-field copy of an action, equal to the original.
fn clone_action(a: &Action) -> (r: Action)
    ensures
        r == *a,
{
    match a {
        Action::GiveItem { item_id, quantity } => Action::GiveItem {
            item_id: item_id.clone(),
            quantity: *quantity,
        },
        Action::TakeItem { item_id, quantity } => Action::TakeItem {
            item_id: item_id.clone(),
            quantity: *quantity,
        },
        Action::ChangeFriendship { npc_id, amount } => Action::ChangeFriendship {
            npc_id: npc_id.clone(),
            amount: *amount,
        },
        Action::SetFlag { flag } => Action::SetFlag { flag: flag.clone() },
        Action::ClearFlag { flag } => Action::ClearFlag { flag: flag.clone() },
        Action::NoAction => Action::NoAction,
    }
}

/// Errors when loading dialogue data.
#[derive(Debug)]
pub enum DialogueLoadError {
    /// Reading the data source failed.
    Io { path: String, error: String },
    /// The data did not parse.
    Parse { error: String },
}

} // verus!
