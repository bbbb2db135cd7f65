use ravenclaws::modes::{
    broadcast_preview, multi_swarm_summary, persona_label, repl_input, single_agent_messages, swarm_agent_count,
    swarm_persona_text, swarm_summary, swarm_task, ReplInput,
};

#[test]
fn single_agent_greeting() {
    let ms = single_agent_messages("sys");
    assert_eq!(ms.len(), 2);
    assert_eq!(ms[0].role, "system");
    assert_eq!(ms[1].content, "Ready. Awaiting instructions.");
}

#[test]
fn preview_is_first_500_chars() {
    let long: String = "é".repeat(600);
    assert_eq!(broadcast_preview(&long).chars().count(), 500);
    assert_eq!(broadcast_preview("short"), "short");
}

#[test]
fn swarm_personas_and_labels() {
    assert_eq!(persona_label(swarm_persona_text(0)), "You are an analytical agent");
    assert_eq!(persona_label(swarm_persona_text(1)), "You are a creative agent");
    assert_eq!(persona_label(swarm_persona_text(2)), "You are a pragmatic agent");
    assert_eq!(swarm_persona_text(5), swarm_persona_text(0));
    assert_eq!(persona_label("no dot"), "no dot");
    assert_eq!(swarm_task(), "Analyze the given task and provide your solution.");
    assert_eq!(swarm_agent_count(2), 2);
    assert_eq!(swarm_agent_count(7), 3);
}

#[test]
fn swarm_summaries() {
    let results = vec![(0usize, "abc".to_string()), (2usize, "héllo".to_string())];
    assert_eq!(swarm_summary(&results), "Swarm completed: 2 agents, results: Agent 0: 3 chars, Agent 2: 6 chars");
    assert_eq!(swarm_summary(&[]), "Swarm completed: 0 agents, results: ");
    assert_eq!(multi_swarm_summary(3), "Multi-model swarm completed: 3 agents");
}

#[test]
fn repl_inputs() {
    assert_eq!(repl_input("   "), ReplInput::Skip);
    assert_eq!(repl_input("/exit"), ReplInput::Exit);
    assert_eq!(repl_input(" /quit "), ReplInput::Exit);
    assert_eq!(repl_input("/reset"), ReplInput::Reset);
    assert_eq!(repl_input("  hello there \n"), ReplInput::Send("hello there".to_string()));
}
