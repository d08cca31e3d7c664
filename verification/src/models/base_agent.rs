use vstd::prelude::*;

verus! {

/// The stage an agent has reached in its task.
#[derive(PartialEq, Eq, Structural, Clone, Copy, Debug)]
pub enum AgentState {
    Discovery,
    Working,
    UnitTesting,
    Finished,
}

/// One chat message exchanged with the language model.
#[derive(Clone, Debug)]
pub struct Message {
    pub role: String,
    pub content: String,
}

/// The abstract content of a [`Message`].
pub ghost struct MessageView {
    pub role: Seq<char>,
    pub content: Seq<char>,
}

impl View for Message {
    type V = MessageView;

    open spec fn view(&self) -> MessageView {
        MessageView { role: self.role@, content: self.content@ }
    }
}

/// What every agent carries: its objective, its position in the team,
/// the stage it has reached and the messages it remembers.
#[derive(Debug)]
pub struct BaseAgent {
    pub objective: String,
    pub position: String,
    pub state: AgentState,
    pub memory: Vec<Message>,
}

/// The abstract content of a [`BaseAgent`].
pub ghost struct BaseAgentView {
    pub objective: Seq<char>,
    pub position: Seq<char>,
    pub state: AgentState,
    pub memory: Seq<MessageView>,
}

impl View for BaseAgent {
    type V = BaseAgentView;

    open spec fn view(&self) -> BaseAgentView {
        BaseAgentView {
            objective: self.objective@,
            position: self.position@,
            state: self.state,
            memory: self.memory@.map_values(|m: Message| m@),
        }
    }
}

impl BaseAgent {
    /// A fresh agent: it starts in `Discovery` with an empty memory.
    pub fn new(objective: String, position: String) -> (agent: BaseAgent)
        ensures
            agent@.objective == objective@,
            agent@.position == position@,
            agent@.state == AgentState::Discovery,
            agent@.memory == Seq::<MessageView>::empty(),
    {
        let agent = BaseAgent { objective, position, state: AgentState::Discovery, memory: Vec::new() };
        assert(agent@.memory =~= Seq::<MessageView>::empty());
        agent
    }

    /// Moves the agent to `new_state`; nothing else changes.
    pub fn update_state(&mut self, new_state: AgentState)
        ensures
            final(self)@ == (BaseAgentView { state: new_state, ..old(self)@ }),
    {
        self.state = new_state;
    }
}

} // verus!
