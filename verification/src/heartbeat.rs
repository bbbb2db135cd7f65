//! Autonomous heartbeat: the tick-by-tick decisions of a persistent agent loop.
//!
//! Each tick assesses progress with the model, plans the next actions, carries
//! them out through the agent loop, and records what happened; the state is
//! persisted after every tick so that a heartbeat resumes where it left off.
//! The application performs the model calls, the agent loop, the file writes
//! and the sleeps; [`HeartbeatAgent`] decides what comes next.

use vstd::prelude::*;
use crate::agent::AgentLoopConfig;
use crate::clock::now_rfc3339;
use crate::error::{error_text, RavenClawsError};
use crate::llm::{first_choice_content, ChatResponse};
use crate::text::{decimal, has_substring, push_decimal, push_str, str_contains, string_from_chars};

verus! {

/// Configuration for the heartbeat agent.
#[derive(Debug)]
pub struct HeartbeatConfig {
    /// The overarching goal or mission prompt.
    pub goal: String,
    /// Interval between ticks in seconds.
    pub tick_interval_secs: u64,
    /// Maximum agent-loop iterations per tick.
    pub max_iterations_per_tick: usize,
    /// Working directory for state persistence.
    pub workdir: String,
    /// Maximum number of ticks before the heartbeat stops (0 = unlimited).
    pub max_ticks: u64,
    /// Enable tool calling during ticks.
    pub enable_tools: bool,
}

impl Default for HeartbeatConfig {
    fn default() -> (c: Self)
        ensures
            c.goal@ == Seq::<char>::empty(),
            c.tick_interval_secs == 300,
            c.max_iterations_per_tick == 5,
            c.workdir@ == "/workspace"@,
            c.max_ticks == 0,
            c.enable_tools,
    {
        HeartbeatConfig {
            goal: String::new(),
            tick_interval_secs: 300,
            max_iterations_per_tick: 5,
            workdir: String::from_str("/workspace"),
            max_ticks: 0,
            enable_tools: true,
        }
    }
}

/// The Unicode uppercase of `s`, as `str::to_uppercase` computes it.
pub uninterp spec fn uppercase(s: Seq<char>) -> Seq<char>;

/// Uppercases `s` with `str::to_uppercase`.
#[verifier::external_body]
fn to_uppercase(s: &str) -> (r: String)
    ensures
        r@ == uppercase(s@),
{
    s.to_uppercase()
}

impl Clone for HeartbeatConfig {
    fn clone(&self) -> (r: Self)
        ensures
            r == *self,
    {
        HeartbeatConfig {
            goal: self.goal.clone(),
            tick_interval_secs: self.tick_interval_secs,
            max_iterations_per_tick: self.max_iterations_per_tick,
            workdir: self.workdir.clone(),
            max_ticks: self.max_ticks,
            enable_tools: self.enable_tools,
        }
    }
}

/// Persistent state of a heartbeat agent.
#[derive(Debug, Clone)]
pub struct HeartbeatState {
    /// Unique heartbeat session id.
    pub id: String,
    /// The goal prompt.
    pub goal: String,
    /// Current tick number.
    pub tick: u64,
    /// Summary of progress so far.
    pub progress: String,
    /// Last assessment from the model.
    pub last_assessment: Option<String>,
    /// Last plan generated.
    pub last_plan: Option<String>,
    /// Last action result.
    pub last_result: Option<String>,
    /// When the heartbeat was created (RFC 3339).
    pub created_at: String,
    /// When the heartbeat was last updated (RFC 3339).
    pub updated_at: String,
    /// Whether the goal is complete.
    pub completed: bool,
}

impl HeartbeatState {
    /// A fresh state at tick 0, stamped with the current time.
    pub fn new(id: String, goal: String) -> (s: Self)
        ensures
            s.id == id,
            s.goal == goal,
            s.tick == 0,
            s.progress@ == Seq::<char>::empty(),
            s.last_assessment is None,
            s.last_plan is None,
            s.last_result is None,
            s.created_at@ == s.updated_at@,
            !s.completed,
    {
        let now = now_rfc3339();
        HeartbeatState {
            id,
            goal,
            tick: 0,
            progress: String::new(),
            last_assessment: None,
            last_plan: None,
            last_result: None,
            created_at: now.clone(),
            updated_at: now,
            completed: false,
        }
    }
}

// ── Prompts and progress texts ─────────────────────────────────────────────

/// The system prompt of every heartbeat model call.
pub open spec fn system_prompt_text(goal: Seq<char>, tick: nat) -> Seq<char> {
    "You are RavenClaws Heartbeat — an autonomous agent operating in a persistent loop.\n\nYour overarching goal: "@
        + goal
        + "\n\nYou operate in ticks. Each tick you:\n1. ASSESS your progress toward the goal\n2. PLAN the next actions to take\n3. EXECUTE those actions using available tools\n4. REPORT what was accomplished\n\nBe concise and focused. Always work toward the goal efficiently.\nWhen the goal is complete, respond with 'GOAL_COMPLETE' and a summary.\n\nCurrent tick: "@
        + decimal(tick)
}

/// The progress shown in the assessment prompt.
pub open spec fn progress_or_first(progress: Seq<char>) -> Seq<char> {
    if progress.len() == 0 { "No progress yet — this is the first tick."@ } else { progress }
}

/// The prompt asking the model to assess progress.
pub open spec fn assessment_prompt_text(goal: Seq<char>, progress: Seq<char>, tick: nat) -> Seq<char> {
    "Assess your progress toward the goal.\n\nGoal: "@ + goal + "\n\nCurrent progress so far:\n"@
        + progress_or_first(progress) + "\n\nTick number: "@ + decimal(tick)
        + "\n\nAnswer the following:\n1. What progress has been made?\n2. What obstacles remain?\n3. Is the goal complete? (If yes, say 'GOAL_COMPLETE')\n4. What should be done next?"@
}

/// The prompt asking the model for a plan.
pub open spec fn plan_prompt_text(assessment: Seq<char>, progress: Seq<char>) -> Seq<char> {
    "Based on this assessment, what specific actions should be taken next?\n\nAssessment: "@ + assessment
        + "\n\nCurrent progress: "@ + progress
        + "\n\nProvide a concise plan with specific, actionable steps. End with 'PLAN_COMPLETE' when you have finished planning."@
}

/// The prompt asking the agent loop to carry out a plan.
pub open spec fn execution_prompt_text(goal: Seq<char>, plan: Seq<char>, progress: Seq<char>) -> Seq<char> {
    "Execute the following plan step by step. Use tools as needed.\n\nGoal: "@ + goal + "\n\nPlan: "@ + plan
        + "\n\nCurrent progress: "@ + progress
        + "\n\nExecute the plan. After each action, report what was done. When finished, say 'EXECUTION_COMPLETE' and summarize the results."@
}

/// Whether an assessment declares the goal complete.
pub open spec fn declares_complete(assessment: Seq<char>) -> bool {
    has_substring(uppercase(assessment), "GOAL_COMPLETE"@) || has_substring(uppercase(assessment), "[DONE]"@)
}

/// Law: an assessment declares the goal complete exactly when its uppercase
/// form holds `GOAL_COMPLETE` or `[DONE]` somewhere, at its end or anywhere
/// before; a marker at position `i` is enough.
pub proof fn lemma_completion_marker_anywhere(assessment: Seq<char>, i: int)
    ensures
        0 <= i && i + 13 <= uppercase(assessment).len() && uppercase(assessment).subrange(i, i + 13)
            == "GOAL_COMPLETE"@ ==> declares_complete(assessment),
        0 <= i && i + 6 <= uppercase(assessment).len() && uppercase(assessment).subrange(i, i + 6) == "[DONE]"@
            ==> declares_complete(assessment),
        declares_complete(assessment) ==> (exists|k: int|
            0 <= k && k + 13 <= uppercase(assessment).len() && #[trigger] uppercase(assessment).subrange(k, k + 13)
                == "GOAL_COMPLETE"@) || (exists|k: int|
            0 <= k && k + 6 <= uppercase(assessment).len() && #[trigger] uppercase(assessment).subrange(k, k + 6)
                == "[DONE]"@),
{
    reveal_strlit("GOAL_COMPLETE");
    reveal_strlit("[DONE]");
    let u = uppercase(assessment);
    if declares_complete(assessment) {
        if has_substring(u, "GOAL_COMPLETE"@) {
            let k = choose|k: int| 0 <= k && k + 13 <= u.len() && #[trigger] u.subrange(k, k + 13) == "GOAL_COMPLETE"@;
            assert(u.subrange(k, k + 13) == "GOAL_COMPLETE"@);
        } else {
            let k = choose|k: int| 0 <= k && k + 6 <= u.len() && #[trigger] u.subrange(k, k + 6) == "[DONE]"@;
            assert(u.subrange(k, k + 6) == "[DONE]"@);
        }
    }
    if 0 <= i && i + 13 <= u.len() && u.subrange(i, i + 13) == "GOAL_COMPLETE"@ {
        assert(u.subrange(i, i + "GOAL_COMPLETE"@.len()) == "GOAL_COMPLETE"@);
    }
    if 0 <= i && i + 6 <= u.len() && u.subrange(i, i + 6) == "[DONE]"@ {
        assert(u.subrange(i, i + "[DONE]"@.len()) == "[DONE]"@);
    }
}

/// Progress once the goal is complete.
pub open spec fn completed_progress(tick: nat, assessment: Seq<char>) -> Seq<char> {
    "Goal completed at tick "@ + decimal(tick) + ".\nAssessment: "@ + assessment
}

/// Progress after a failed assessment.
pub open spec fn assessment_failed_progress(progress: Seq<char>, tick: nat, error: Seq<char>) -> Seq<char> {
    progress + "\n\n## Tick "@ + decimal(tick) + " (ASSESSMENT FAILED)\n**Error:** "@ + error
}

/// Progress after a failed planning step.
pub open spec fn planning_failed_progress(progress: Seq<char>, tick: nat, assessment: Seq<char>, error: Seq<char>) -> Seq<char> {
    progress + "\n\n## Tick "@ + decimal(tick) + " (PLANNING FAILED)\n**Assessment:** "@ + assessment
        + "\n**Error:** "@ + error
}

/// Progress after a tick without tools: the plan stands as the result.
pub open spec fn planned_progress(progress: Seq<char>, tick: nat, assessment: Seq<char>, plan: Seq<char>) -> Seq<char> {
    progress + "\n\n## Tick "@ + decimal(tick) + "\n**Assessment:** "@ + assessment + "\n**Plan:** "@ + plan
}

/// Progress after a tick whose plan was carried out.
pub open spec fn executed_progress(
    progress: Seq<char>,
    tick: nat,
    assessment: Seq<char>,
    plan: Seq<char>,
    result: Seq<char>,
) -> Seq<char> {
    planned_progress(progress, tick, assessment, plan) + "\n**Result:** "@ + result
}

/// Progress after a tick whose execution failed.
pub open spec fn execution_failed_progress(
    progress: Seq<char>,
    tick: nat,
    assessment: Seq<char>,
    plan: Seq<char>,
    error: Seq<char>,
) -> Seq<char> {
    progress + "\n\n## Tick "@ + decimal(tick) + " (FAILED)\n**Assessment:** "@ + assessment + "\n**Plan:** "@
        + plan + "\n**Error:** "@ + error
}

/// The result when the tick limit is reached.
pub open spec fn max_ticks_result(tick: nat, progress: Seq<char>) -> Seq<char> {
    "Heartbeat completed after "@ + decimal(tick) + " ticks. Final progress: "@ + progress
}

/// The name of the file that holds a heartbeat's state.
pub open spec fn state_file_name_text(id: Seq<char>) -> Seq<char> {
    "heartbeat-"@ + id + ".json"@
}

/// The name of the file that holds a heartbeat's state, inside its workdir.
pub fn state_file_name(id: &str) -> (n: String)
    ensures
        n@ == state_file_name_text(id@),
{
    let mut v: Vec<char> = Vec::new();
    push_str(&mut v, "heartbeat-");
    push_str(&mut v, id);
    push_str(&mut v, ".json");
    string_from_chars(&v)
}

// ── The agent ──────────────────────────────────────────────────────────────

/// How a tick starts.
#[derive(Debug)]
pub enum TickStart {
    /// The heartbeat is over, with this result.
    Finished(String),
    /// Ask the model for an assessment with these messages.
    Assess { system: String, prompt: String },
}

/// What follows an assessment.
#[derive(Debug)]
pub enum AfterAssessment {
    /// The goal is complete: persist the state, and the heartbeat ends with this progress.
    Complete(String),
    /// Ask the model for a plan with these messages.
    Plan { system: String, prompt: String },
    /// The tick is over: persist the state.
    EndTick,
}

/// What follows a plan.
#[derive(Debug)]
pub enum AfterPlan {
    /// Run the agent loop on this prompt with these settings.
    Execute { system: String, prompt: String, config: AgentLoopConfig },
    /// The tick is over: persist the state.
    EndTick,
}

/// The autonomous heartbeat agent: assess, plan, act, persist, sleep.
#[derive(Debug)]
pub struct HeartbeatAgent {
    /// Heartbeat configuration.
    pub config: HeartbeatConfig,
    /// Current state (persisted after every tick).
    pub state: HeartbeatState,
}

/// The text of an error as shown in progress reports.
pub open spec fn shown(e: RavenClawsError) -> Seq<char> {
    error_text(e)
}

impl HeartbeatAgent {
    /// An agent that resumes from `saved` when a saved state could be read,
    /// or starts fresh with `id` and the configured goal.
    pub fn resume_or_start(config: HeartbeatConfig, id: String, saved: Option<HeartbeatState>) -> (a: Self)
        ensures
            match saved {
                Some(s) => a.state == s,
                None => a.state.id == id && a.state.goal@ == config.goal@ && a.state.tick == 0
                    && a.state.progress@ == Seq::<char>::empty() && !a.state.completed
                    && a.state.last_assessment is None,
            },
            a.config == config,
    {
        let state = match saved {
            Some(s) => s,
            None => HeartbeatState::new(id, config.goal.clone()),
        };
        HeartbeatAgent { config, state }
    }

    /// The heartbeat session id.
    pub fn id(&self) -> (s: &str)
        ensures
            s@ == self.state.id@,
    {
        self.state.id.as_str()
    }

    /// The system prompt for the current tick.
    pub fn build_system_prompt(&self) -> (p: String)
        ensures
            p@ == system_prompt_text(self.state.goal@, self.state.tick as nat),
    {
        let mut v: Vec<char> = Vec::new();
        push_str(
            &mut v,
            "You are RavenClaws Heartbeat — an autonomous agent operating in a persistent loop.\n\nYour overarching goal: ",
        );
        push_str(&mut v, self.state.goal.as_str());
        push_str(
            &mut v,
            "\n\nYou operate in ticks. Each tick you:\n1. ASSESS your progress toward the goal\n2. PLAN the next actions to take\n3. EXECUTE those actions using available tools\n4. REPORT what was accomplished\n\nBe concise and focused. Always work toward the goal efficiently.\nWhen the goal is complete, respond with 'GOAL_COMPLETE' and a summary.\n\nCurrent tick: ",
        );
        push_decimal(&mut v, self.state.tick);
        string_from_chars(&v)
    }

    /// The assessment prompt for the current tick.
    pub fn build_assessment_prompt(&self) -> (p: String)
        ensures
            p@ == assessment_prompt_text(self.state.goal@, self.state.progress@, self.state.tick as nat),
    {
        let mut v: Vec<char> = Vec::new();
        push_str(&mut v, "Assess your progress toward the goal.\n\nGoal: ");
        push_str(&mut v, self.state.goal.as_str());
        push_str(&mut v, "\n\nCurrent progress so far:\n");
        if self.state.progress.as_str().is_empty() {
            push_str(&mut v, "No progress yet — this is the first tick.");
        } else {
            push_str(&mut v, self.state.progress.as_str());
        }
        push_str(&mut v, "\n\nTick number: ");
        push_decimal(&mut v, self.state.tick);
        push_str(
            &mut v,
            "\n\nAnswer the following:\n1. What progress has been made?\n2. What obstacles remain?\n3. Is the goal complete? (If yes, say 'GOAL_COMPLETE')\n4. What should be done next?",
        );
        string_from_chars(&v)
    }

    /// Starts a tick: the heartbeat ends at the tick limit or when the goal
    /// is complete; otherwise the tick counter advances and an assessment is
    /// requested.
    pub fn start_tick(&mut self) -> (t: TickStart)
        requires
            old(self).state.tick < u64::MAX,
        ensures
            final(self).config == old(self).config,
            if old(self).config.max_ticks > 0 && old(self).state.tick >= old(self).config.max_ticks {
                &&& t matches TickStart::Finished(r) && r@ == max_ticks_result(
                    old(self).state.tick as nat,
                    old(self).state.progress@,
                )
                &&& final(self).state == old(self).state
            } else if old(self).state.completed {
                &&& t matches TickStart::Finished(r) && r@ == old(self).state.progress@
                &&& final(self).state == old(self).state
            } else {
                &&& final(self).state == (HeartbeatState { tick: (old(self).state.tick + 1) as u64, ..old(self).state })
                &&& t matches TickStart::Assess { system, prompt } && system@ == system_prompt_text(
                    final(self).state.goal@,
                    final(self).state.tick as nat,
                ) && prompt@ == assessment_prompt_text(
                    final(self).state.goal@,
                    final(self).state.progress@,
                    final(self).state.tick as nat,
                )
            },
    {
        if self.config.max_ticks > 0 && self.state.tick >= self.config.max_ticks {
            let mut v: Vec<char> = Vec::new();
            push_str(&mut v, "Heartbeat completed after ");
            push_decimal(&mut v, self.state.tick);
            push_str(&mut v, " ticks. Final progress: ");
            push_str(&mut v, self.state.progress.as_str());
            return TickStart::Finished(string_from_chars(&v));
        }
        if self.state.completed {
            return TickStart::Finished(self.state.progress.clone());
        }
        self.state.tick = self.state.tick + 1;
        let system = self.build_system_prompt();
        let prompt = self.build_assessment_prompt();
        TickStart::Assess { system, prompt }
    }

    /// Takes the assessment reply (or the error of the model call).
    pub fn after_assessment(&mut self, reply: Result<ChatResponse, RavenClawsError>) -> (a: AfterAssessment)
        ensures
            final(self).config == old(self).config,
            match reply {
                Err(e) => a is EndTick && final(self).state == (HeartbeatState {
                    progress: final(self).state.progress,
                    ..old(self).state
                }) && final(self).state.progress@ == assessment_failed_progress(
                    old(self).state.progress@,
                    old(self).state.tick as nat,
                    shown(e),
                ),
                Ok(r) => {
                    let assessment = if r.choices@.len() > 0 {
                        r.choices@[0].message.content@
                    } else {
                        Seq::<char>::empty()
                    };
                    &&& final(self).state.last_assessment matches Some(x) && x@ == assessment
                    &&& if declares_complete(assessment) {
                        &&& final(self).state.completed
                        &&& final(self).state.progress@ == completed_progress(old(self).state.tick as nat, assessment)
                        &&& a matches AfterAssessment::Complete(p) && p@ == final(self).state.progress@
                        &&& final(self).state == (HeartbeatState {
                            progress: final(self).state.progress,
                            last_assessment: final(self).state.last_assessment,
                            completed: true,
                            ..old(self).state
                        })
                    } else {
                        &&& final(self).state == (HeartbeatState {
                            last_assessment: final(self).state.last_assessment,
                            ..old(self).state
                        })
                        &&& a matches AfterAssessment::Plan { system, prompt } && system@ == system_prompt_text(
                            old(self).state.goal@,
                            old(self).state.tick as nat,
                        ) && prompt@ == plan_prompt_text(assessment, old(self).state.progress@)
                    }
                },
            },
    {
        match reply {
            Err(e) => {
                let msg = e.message();
                let mut v: Vec<char> = Vec::new();
                push_str(&mut v, self.state.progress.as_str());
                push_str(&mut v, "\n\n## Tick ");
                push_decimal(&mut v, self.state.tick);
                push_str(&mut v, " (ASSESSMENT FAILED)\n**Error:** ");
                push_str(&mut v, msg.as_str());
                self.state.progress = string_from_chars(&v);
                AfterAssessment::EndTick
            },
            Ok(r) => {
                let assessment = first_choice_content(&r);
                self.state.last_assessment = Some(assessment.clone());
                let upper = to_uppercase(assessment.as_str());
                if str_contains(upper.as_str(), "GOAL_COMPLETE") || str_contains(upper.as_str(), "[DONE]") {
                    self.state.completed = true;
                    let mut v: Vec<char> = Vec::new();
                    push_str(&mut v, "Goal completed at tick ");
                    push_decimal(&mut v, self.state.tick);
                    push_str(&mut v, ".\nAssessment: ");
                    push_str(&mut v, assessment.as_str());
                    self.state.progress = string_from_chars(&v);
                    return AfterAssessment::Complete(self.state.progress.clone());
                }
                let system = self.build_system_prompt();
                let mut v: Vec<char> = Vec::new();
                push_str(&mut v, "Based on this assessment, what specific actions should be taken next?\n\nAssessment: ");
                push_str(&mut v, assessment.as_str());
                push_str(&mut v, "\n\nCurrent progress: ");
                push_str(&mut v, self.state.progress.as_str());
                push_str(
                    &mut v,
                    "\n\nProvide a concise plan with specific, actionable steps. End with 'PLAN_COMPLETE' when you have finished planning.",
                );
                AfterAssessment::Plan { system, prompt: string_from_chars(&v) }
            },
        }
    }

    /// Takes the plan reply (or the error of the model call) for the given
    /// assessment. With tools enabled the plan is carried out by the agent
    /// loop; without, the plan stands as the tick's result.
    pub fn after_plan(&mut self, assessment: &str, reply: Result<ChatResponse, RavenClawsError>) -> (a: AfterPlan)
        ensures
            final(self).config == old(self).config,
            match reply {
                Err(e) => a is EndTick && final(self).state == (HeartbeatState {
                    progress: final(self).state.progress,
                    ..old(self).state
                }) && final(self).state.progress@ == planning_failed_progress(
                    old(self).state.progress@,
                    old(self).state.tick as nat,
                    assessment@,
                    shown(e),
                ),
                Ok(r) => {
                    let plan = if r.choices@.len() > 0 {
                        r.choices@[0].message.content@
                    } else {
                        Seq::<char>::empty()
                    };
                    &&& final(self).state.last_plan matches Some(x) && x@ == plan
                    &&& if old(self).config.enable_tools {
                        &&& final(self).state == (HeartbeatState {
                            last_plan: final(self).state.last_plan,
                            ..old(self).state
                        })
                        &&& a matches AfterPlan::Execute { system, prompt, config } && system@ == system_prompt_text(
                            old(self).state.goal@,
                            old(self).state.tick as nat,
                        ) && prompt@ == execution_prompt_text(old(self).state.goal@, plan, old(self).state.progress@)
                            && config.max_iterations == old(self).config.max_iterations_per_tick
                            && config.enable_tools && !config.require_approval && config.prompt_injection_protection
                            && config.token_lifetime_secs == 0 && !config.no_final_required
                    } else {
                        &&& a is EndTick
                        &&& final(self).state.last_result matches Some(x) && x@ == plan
                        &&& final(self).state.progress@ == planned_progress(
                            old(self).state.progress@,
                            old(self).state.tick as nat,
                            assessment@,
                            plan,
                        )
                        &&& final(self).state == (HeartbeatState {
                            last_plan: final(self).state.last_plan,
                            last_result: final(self).state.last_result,
                            progress: final(self).state.progress,
                            ..old(self).state
                        })
                    }
                },
            },
    {
        match reply {
            Err(e) => {
                let msg = e.message();
                let mut v: Vec<char> = Vec::new();
                push_str(&mut v, self.state.progress.as_str());
                push_str(&mut v, "\n\n## Tick ");
                push_decimal(&mut v, self.state.tick);
                push_str(&mut v, " (PLANNING FAILED)\n**Assessment:** ");
                push_str(&mut v, assessment);
                push_str(&mut v, "\n**Error:** ");
                push_str(&mut v, msg.as_str());
                self.state.progress = string_from_chars(&v);
                AfterPlan::EndTick
            },
            Ok(r) => {
                let plan = first_choice_content(&r);
                self.state.last_plan = Some(plan.clone());
                if self.config.enable_tools {
                    let mut v: Vec<char> = Vec::new();
                    push_str(&mut v, "Execute the following plan step by step. Use tools as needed.\n\nGoal: ");
                    push_str(&mut v, self.state.goal.as_str());
                    push_str(&mut v, "\n\nPlan: ");
                    push_str(&mut v, plan.as_str());
                    push_str(&mut v, "\n\nCurrent progress: ");
                    push_str(&mut v, self.state.progress.as_str());
                    push_str(
                        &mut v,
                        "\n\nExecute the plan. After each action, report what was done. When finished, say 'EXECUTION_COMPLETE' and summarize the results.",
                    );
                    let config = AgentLoopConfig {
                        max_iterations: self.config.max_iterations_per_tick,
                        enable_tools: true,
                        require_approval: false,
                        prompt_injection_protection: true,
                        token_lifetime_secs: 0,
                        no_final_required: false,
                        checkpoint_dir: None,
                        session_id: None,
                    };
                    AfterPlan::Execute { system: self.build_system_prompt(), prompt: string_from_chars(&v), config }
                } else {
                    self.state.last_result = Some(plan.clone());
                    let mut v: Vec<char> = Vec::new();
                    push_str(&mut v, self.state.progress.as_str());
                    push_str(&mut v, "\n\n## Tick ");
                    push_decimal(&mut v, self.state.tick);
                    push_str(&mut v, "\n**Assessment:** ");
                    push_str(&mut v, assessment);
                    push_str(&mut v, "\n**Plan:** ");
                    push_str(&mut v, plan.as_str());
                    self.state.progress = string_from_chars(&v);
                    AfterPlan::EndTick
                }
            },
        }
    }

    /// Records the outcome of the agent loop that carried out `plan`.
    pub fn after_execution(&mut self, assessment: &str, plan: &str, outcome: Result<String, RavenClawsError>)
        ensures
            final(self).config == old(self).config,
            final(self).state == (HeartbeatState {
                last_result: final(self).state.last_result,
                progress: final(self).state.progress,
                ..old(self).state
            }),
            match outcome {
                Ok(r) => final(self).state.last_result == Some(r) && final(self).state.progress@ == executed_progress(
                    old(self).state.progress@,
                    old(self).state.tick as nat,
                    assessment@,
                    plan@,
                    r@,
                ),
                Err(e) => final(self).state.last_result matches Some(x) && x@ == "Error: "@ + shown(e)
                    && final(self).state.progress@ == execution_failed_progress(
                    old(self).state.progress@,
                    old(self).state.tick as nat,
                    assessment@,
                    plan@,
                    shown(e),
                ),
            },
    {
        let mut v: Vec<char> = Vec::new();
        push_str(&mut v, self.state.progress.as_str());
        push_str(&mut v, "\n\n## Tick ");
        push_decimal(&mut v, self.state.tick);
        match outcome {
            Ok(r) => {
                push_str(&mut v, "\n**Assessment:** ");
                push_str(&mut v, assessment);
                push_str(&mut v, "\n**Plan:** ");
                push_str(&mut v, plan);
                push_str(&mut v, "\n**Result:** ");
                push_str(&mut v, r.as_str());
                self.state.last_result = Some(r);
            },
            Err(e) => {
                let msg = e.message();
                push_str(&mut v, " (FAILED)\n**Assessment:** ");
                push_str(&mut v, assessment);
                push_str(&mut v, "\n**Plan:** ");
                push_str(&mut v, plan);
                push_str(&mut v, "\n**Error:** ");
                push_str(&mut v, msg.as_str());
                let mut w: Vec<char> = Vec::new();
                push_str(&mut w, "Error: ");
                push_str(&mut w, msg.as_str());
                self.state.last_result = Some(string_from_chars(&w));
            },
        }
        self.state.progress = string_from_chars(&v);
    }

    /// Whether to sleep before the next tick: the tick limit is not reached
    /// and the goal is not complete.
    pub fn should_sleep(&self) -> (b: bool)
        ensures
            b == ((self.config.max_ticks == 0 || self.state.tick < self.config.max_ticks) && !self.state.completed),
    {
        (self.config.max_ticks == 0 || self.state.tick < self.config.max_ticks) && !self.state.completed
    }
}

/// One tick of a heartbeat, from the state before it started to the state
/// after it ended: the tick was allowed to start (the tick limit was not
/// reached and the goal was not complete), the counter moved on by one, and
/// the configuration stayed.
pub open spec fn tick_taken(a: HeartbeatAgent, b: HeartbeatAgent) -> bool {
    &&& !(a.config.max_ticks > 0 && a.state.tick >= a.config.max_ticks)
    &&& !a.state.completed
    &&& b.state.tick == a.state.tick + 1
    &&& b.config == a.config
}

/// Law: a heartbeat with a tick limit never runs past it: over any run of
/// ticks starting at or below the limit, the counter stays at or below it.
pub proof fn lemma_ticks_bounded(hs: Seq<HeartbeatAgent>)
    requires
        hs.len() >= 1,
        hs[0].config.max_ticks > 0,
        hs[0].state.tick <= hs[0].config.max_ticks,
        forall|i: int| 0 <= i < hs.len() - 1 ==> tick_taken(#[trigger] hs[i], hs[i + 1]),
    ensures
        forall|i: int| 0 <= i < hs.len() ==> #[trigger] hs[i].state.tick == hs[0].state.tick + i
            && hs[i].config == hs[0].config && hs[i].state.tick <= hs[0].config.max_ticks,
    decreases hs.len(),
{
    if hs.len() > 1 {
        let prefix = hs.drop_last();
        assert forall|i: int| 0 <= i < prefix.len() - 1 implies tick_taken(#[trigger] prefix[i], prefix[i + 1]) by {
            assert(tick_taken(hs[i], hs[i + 1]));
        }
        lemma_ticks_bounded(prefix);
        let n = hs.len() - 1;
        assert(tick_taken(hs[n - 1], hs[n]));
        assert(prefix[n - 1] == hs[n - 1]);
        assert(hs[n - 1].state.tick == hs[0].state.tick + (n - 1) && hs[n - 1].config == hs[0].config);
        assert forall|i: int| 0 <= i < hs.len() implies #[trigger] hs[i].state.tick == hs[0].state.tick + i
            && hs[i].config == hs[0].config && hs[i].state.tick <= hs[0].config.max_ticks by {
            if i < n {
                assert(prefix[i] == hs[i]);
            }
        }
    }
}

} // verus!
