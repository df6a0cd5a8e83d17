//! MCP prompt builders: reusable workflow templates that seed an AI with the
//! right Aelm context for a task.
//!
//! Each builder returns the messages of the prompt, in order; the application
//! turns them into MCP prompt messages. Keeping the message construction here
//! makes each workflow independently checkable.
use vstd::prelude::*;

use crate::text::{owned, push_str, str_eq};
use crate::tools::docs::{topic, topic_body_list, topic_position};

verus! {

/// Who speaks a prompt message.
#[derive(Debug, Clone, Copy, PartialEq, Eq, Structural)]
pub enum PromptRole {
    User,
    Assistant,
}

/// One message of a prompt.
#[derive(Debug)]
pub struct PromptText {
    pub role: PromptRole,
    pub text: String,
}

/// What a list of messages says: each speaker with its text.
pub open spec fn said(v: Seq<PromptText>) -> Seq<(PromptRole, Seq<char>)> {
    v.map_values(|m: PromptText| (m.role, m.text@))
}

/// The body of the embedded document `key`, or nothing when there is none.
pub open spec fn doc_body(key: Seq<char>) -> Seq<char> {
    match topic_position(key) {
        Some(i) => topic_body_list()[i],
        None => Seq::empty(),
    }
}

fn user(text: String) -> (m: PromptText)
    ensures
        m.role == PromptRole::User,
        m.text@ == text@,
{
    PromptText { role: PromptRole::User, text }
}

fn assistant(text: &str) -> (m: PromptText)
    ensures
        m.role == PromptRole::Assistant,
        m.text@ == text@,
{
    PromptText { role: PromptRole::Assistant, text: owned(text) }
}

/// An embedded document body by topic key, or an empty text if missing.
pub fn doc(key: &str) -> (r: String)
    ensures
        r@ == doc_body(key@),
{
    match topic(key) {
        Some(t) => t.body,
        None => String::new(),
    }
}

/// `head` followed by the document `key`.
fn with_doc(head: &str, key: &str) -> (m: PromptText)
    ensures
        m.role == PromptRole::User,
        m.text@ == head@ + doc_body(key@),
{
    let mut t = owned(head);
    let body = doc(key);
    push_str(&mut t, body.as_str());
    user(t)
}

/// `head`, the circuit in an `aelm` code fence.
fn fenced(head: &str, source: &str) -> (r: String)
    ensures
        r@ == head@ + "\n\n```aelm\n"@ + source@ + "\n```"@,
{
    let mut t = owned(head);
    push_str(&mut t, "\n\n```aelm\n");
    push_str(&mut t, source);
    push_str(&mut t, "\n```");
    t
}

/// The opening request of `design_circuit`.
pub open spec fn design_intro(description: Seq<char>, constraints: Option<Seq<char>>) -> Seq<char> {
    "You are designing an electronic circuit in the Aelm DSL.\n\nRequirements:\n"@ + description
        + "\n"@ + match constraints {
        Some(c) => "\nConstraints:\n"@ + c + "\n"@,
        None => Seq::empty(),
    }
        + "\nWorkflow: (1) pick parts with `list_parts` / `search_parts`; (2) define the module and place the key component with absolute `place: (x, y)`, everything else pin-relative; (3) wire the connections; (4) `validate` and fix any DRC issues; (5) `render_svg` to confirm. Author every instance's placement explicitly \u{2014} Aelm does not rely on auto-layout."@
}

/// The messages of `design_circuit`.
pub open spec fn design_messages(description: Seq<char>, constraints: Option<Seq<char>>) -> Seq<
    (PromptRole, Seq<char>),
> {
    seq![
        (PromptRole::Assistant, "I'll design this Aelm circuit step by step, using the DSL reference and the parts catalog, and validate before finishing."@),
        (PromptRole::User, design_intro(description, constraints)),
        (PromptRole::User, "Aelm DSL reference:\n\n"@ + doc_body("dsl"@)),
        (PromptRole::User, "Placement and connection conventions:\n\n"@ + doc_body("patterns"@)),
    ]
}

/// `design_circuit`: guide the model from requirements to valid `.aelm`.
pub fn design_circuit(description: &str, constraints: Option<&str>) -> (r: Vec<PromptText>)
    ensures
        said(r@) == design_messages(
            description@,
            match constraints {
                Some(c) => Some(c@),
                None => None,
            },
        ),
{
    let mut intro = owned("You are designing an electronic circuit in the Aelm DSL.\n\nRequirements:\n");
    push_str(&mut intro, description);
    push_str(&mut intro, "\n");
    if let Some(c) = constraints {
        push_str(&mut intro, "\nConstraints:\n");
        push_str(&mut intro, c);
        push_str(&mut intro, "\n");
    }
    push_str(
        &mut intro,
        "\nWorkflow: (1) pick parts with `list_parts` / `search_parts`; (2) define the module and place the key component with absolute `place: (x, y)`, everything else pin-relative; (3) wire the connections; (4) `validate` and fix any DRC issues; (5) `render_svg` to confirm. Author every instance's placement explicitly \u{2014} Aelm does not rely on auto-layout.",
    );
    let ghost c = match constraints {
        Some(c) => Some(c@),
        None => None,
    };
    assert(intro@ =~= design_intro(description@, c));
    let r = vec![
        assistant(
            "I'll design this Aelm circuit step by step, using the DSL reference and the parts catalog, and validate before finishing.",
        ),
        user(intro),
        with_doc("Aelm DSL reference:\n\n", "dsl"),
        with_doc("Placement and connection conventions:\n\n", "patterns"),
    ];
    assert(said(r@) =~= design_messages(description@, c));
    r
}

/// The messages of `review_circuit`.
pub open spec fn review_messages(source: Seq<char>) -> Seq<(PromptRole, Seq<char>)> {
    seq![
        (PromptRole::Assistant, "I'll review this circuit against DRC rules and common mistakes, then suggest concrete improvements."@),
        (PromptRole::User, "Review this Aelm circuit:"@ + "\n\n```aelm\n"@ + source + "\n```"@),
        (PromptRole::User, "DRC rules:\n\n"@ + doc_body("drc"@)),
        (PromptRole::User, "Common mistakes to check for:\n\n"@ + doc_body("mistakes"@)),
    ]
}

/// `review_circuit`: review an existing circuit for issues and improvements.
pub fn review_circuit(source: &str) -> (r: Vec<PromptText>)
    ensures
        said(r@) == review_messages(source@),
{
    let r = vec![
        assistant(
            "I'll review this circuit against DRC rules and common mistakes, then suggest concrete improvements.",
        ),
        user(fenced("Review this Aelm circuit:", source)),
        with_doc("DRC rules:\n\n", "drc"),
        with_doc("Common mistakes to check for:\n\n", "mistakes"),
    ];
    assert(said(r@) =~= review_messages(source@));
    r
}

/// What `debug_drc` asks to focus on.
pub open spec fn drc_focus(error_codes: Option<Seq<char>>) -> Seq<char> {
    match error_codes {
        Some(codes) => "Focus on these DRC codes: "@ + codes + "."@,
        None => "Diagnose every DRC error and warning."@,
    }
}

/// The messages of `debug_drc`.
pub open spec fn debug_messages(source: Seq<char>, error_codes: Option<Seq<char>>) -> Seq<
    (PromptRole, Seq<char>),
> {
    seq![
        (PromptRole::Assistant, "I'll run `validate`, explain each DRC finding, and propose fixes."@),
        (PromptRole::User, "Debug the DRC issues in this circuit. "@ + drc_focus(error_codes) + "\n\n```aelm\n"@
            + source + "\n```"@),
        (PromptRole::User, "Full DRC rule reference:\n\n"@ + doc_body("drc"@)),
    ]
}

/// `debug_drc`: help fix specific DRC errors.
pub fn debug_drc(source: &str, error_codes: Option<&str>) -> (r: Vec<PromptText>)
    ensures
        said(r@) == debug_messages(
            source@,
            match error_codes {
                Some(c) => Some(c@),
                None => None,
            },
        ),
{
    let mut ask = owned("Debug the DRC issues in this circuit. ");
    match error_codes {
        Some(codes) => {
            push_str(&mut ask, "Focus on these DRC codes: ");
            push_str(&mut ask, codes);
            push_str(&mut ask, ".");
        },
        None => {
            push_str(&mut ask, "Diagnose every DRC error and warning.");
        },
    }
    let head = ask;
    let ghost c = match error_codes {
        Some(c) => Some(c@),
        None => None,
    };
    assert(head@ =~= "Debug the DRC issues in this circuit. "@ + drc_focus(c));
    let r = vec![
        assistant("I'll run `validate`, explain each DRC finding, and propose fixes."),
        user(fenced(head.as_str(), source)),
        with_doc("Full DRC rule reference:\n\n", "drc"),
    ];
    assert(said(r@) =~= debug_messages(source@, c));
    r
}

/// The messages of `select_parts`.
pub open spec fn select_messages(requirements: Seq<char>) -> Seq<(PromptRole, Seq<char>)> {
    seq![
        (PromptRole::Assistant, "I'll search the parts catalog and recommend parts that fit, with rationale."@),
        (PromptRole::User, "Recommend Aelm parts for this requirement:\n"@ + requirements
            + "\n\nUse `list_parts` / `search_parts` to ground recommendations in the actual catalog."@),
    ]
}

/// `select_parts`: help choose parts for a requirement.
pub fn select_parts(requirements: &str) -> (r: Vec<PromptText>)
    ensures
        said(r@) == select_messages(requirements@),
{
    let mut ask = owned("Recommend Aelm parts for this requirement:\n");
    push_str(&mut ask, requirements);
    push_str(
        &mut ask,
        "\n\nUse `list_parts` / `search_parts` to ground recommendations in the actual catalog.",
    );
    let r = vec![
        assistant("I'll search the parts catalog and recommend parts that fit, with rationale."),
        user(ask),
    ];
    assert(said(r@) =~= select_messages(requirements@));
    r
}

/// The level `learn_aelm` teaches at: `intermediate` and `advanced` are
/// kept, anything else is `beginner`.
pub open spec fn tutorial_level(level: Seq<char>) -> Seq<char> {
    if level == "intermediate"@ || level == "advanced"@ {
        level
    } else {
        "beginner"@
    }
}

/// The messages of `learn_aelm`.
pub open spec fn learn_messages(level: Seq<char>) -> Seq<(PromptRole, Seq<char>)> {
    let l = tutorial_level(level);
    seq![
        (PromptRole::Assistant, "I'll teach Aelm at the "@ + l
            + " level, with runnable examples you can `render_svg` to see."@),
        (PromptRole::User, "Teach me Aelm at the "@ + l + " level."@),
        (PromptRole::User, "Aelm DSL reference:\n\n"@ + doc_body("dsl"@)),
        (PromptRole::User, "Circuit patterns to learn from:\n\n"@ + doc_body("patterns"@)),
    ]
}

/// `learn_aelm`: a structured tutorial by level.
pub fn learn_aelm(level: &str) -> (r: Vec<PromptText>)
    ensures
        said(r@) == learn_messages(level@),
{
    let l: &str = if str_eq(level, "intermediate") || str_eq(level, "advanced") {
        level
    } else {
        "beginner"
    };
    let mut opening = owned("I'll teach Aelm at the ");
    push_str(&mut opening, l);
    push_str(&mut opening, " level, with runnable examples you can `render_svg` to see.");
    let mut ask = owned("Teach me Aelm at the ");
    push_str(&mut ask, l);
    push_str(&mut ask, " level.");
    let r = vec![
        PromptText { role: PromptRole::Assistant, text: opening },
        user(ask),
        with_doc("Aelm DSL reference:\n\n", "dsl"),
        with_doc("Circuit patterns to learn from:\n\n", "patterns"),
    ];
    assert(said(r@) =~= learn_messages(level@));
    r
}

/// The messages of `explain_circuit`.
pub open spec fn explain_messages(source: Seq<char>) -> Seq<(PromptRole, Seq<char>)> {
    seq![
        (PromptRole::Assistant, "I'll explain this circuit's topology and operation node by node."@),
        (PromptRole::User, "Explain how this circuit works, step by step:"@ + "\n\n```aelm\n"@ + source
            + "\n```"@),
    ]
}

/// `explain_circuit`: a step-by-step explanation of how a circuit works.
pub fn explain_circuit(source: &str) -> (r: Vec<PromptText>)
    ensures
        said(r@) == explain_messages(source@),
{
    let r = vec![
        assistant("I'll explain this circuit's topology and operation node by node."),
        user(fenced("Explain how this circuit works, step by step:", source)),
    ];
    assert(said(r@) =~= explain_messages(source@));
    r
}

/// The messages of `interactive_design`.
pub open spec fn interactive_messages(goal: Seq<char>) -> Seq<(PromptRole, Seq<char>)> {
    seq![
        (PromptRole::Assistant, "I'll work iteratively: draft, `validate`, `render_svg`, inspect, and refine \u{2014} repeating until the design meets the goal and is DRC-clean."@),
        (PromptRole::User, "Design goal:\n"@ + goal
            + "\n\nLoop each iteration: (1) edit the Aelm source; (2) `validate` and read the diagnostics; (3) `render_svg` and check the layout; (4) decide what to change next. Stop when DRC is clean and the layout matches the intent."@),
        (PromptRole::User, "Aelm DSL reference:\n\n"@ + doc_body("dsl"@)),
        (PromptRole::User, "Circuit patterns:\n\n"@ + doc_body("patterns"@)),
    ]
}

/// `interactive_design`: a multi-turn render, validate and iterate design loop.
pub fn interactive_design(goal: &str) -> (r: Vec<PromptText>)
    ensures
        said(r@) == interactive_messages(goal@),
{
    let mut ask = owned("Design goal:\n");
    push_str(&mut ask, goal);
    push_str(
        &mut ask,
        "\n\nLoop each iteration: (1) edit the Aelm source; (2) `validate` and read the diagnostics; (3) `render_svg` and check the layout; (4) decide what to change next. Stop when DRC is clean and the layout matches the intent.",
    );
    let r = vec![
        assistant(
            "I'll work iteratively: draft, `validate`, `render_svg`, inspect, and refine \u{2014} repeating until the design meets the goal and is DRC-clean.",
        ),
        user(ask),
        with_doc("Aelm DSL reference:\n\n", "dsl"),
        with_doc("Circuit patterns:\n\n", "patterns"),
    ];
    assert(said(r@) =~= interactive_messages(goal@));
    r
}

} // verus!
