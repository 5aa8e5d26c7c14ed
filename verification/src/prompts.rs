//! The house style: the guides that go to the writing model as system
//! prompts, and the per-kind task instructions. Every guide that bans
//! vocabulary carries the one list `BANNED_VOCAB`, and the rewrite and
//! critique guides carry the one AI-writing pattern block, so the drafting,
//! rewriting and reviewing surfaces cannot drift apart; the laws at the end
//! of this file prove it from the definitions.

use vstd::prelude::*;
use vstd::string::StringExecFns;

use crate::text::{contains_seq, seq_join, str_eq, strs_view};

verus! {

/// The one banned-vocabulary list. Every guide that enforces the ban holds
/// this exact string.
pub const BANNED_VOCAB: &'static str = "additionally, align with, bolstered, crucial, cutting-edge, deep dive, delve, emphasizing, empower, enduring, enhance, elevate, fostering, garner, game-changer, gate (figurative), holistic, highlight (verb), interplay, intricate, journey, key (adjective), landscape (abstract), leverage, load-bearing, meticulous, myriad, paradigm, pivotal, plethora, quietly, robust (figurative), seamless, showcase, state-of-the-art, tapestry (abstract), testament, unleash, underscore (verb), utilize, valuable, vibrant";

/// Document kinds that `kind_instruction` knows, in the order the error
/// message lists them.
pub const DOCUMENT_KINDS: [&'static str; 7] = ["overview", "api", "readme", "function", "cli", "config", "changelog"];

/// Document kinds that `compose_kind_instruction` knows.
pub const COMPOSE_KINDS: [&'static str; 9] = ["standup", "prd", "one-pager", "announcement", "summary", "release-notes", "postmortem", "weekly-status", "meeting-notes"];

/// The AI-writing pattern block, up to the banned list.
pub const TELLS_HEAD: &'static str = r#"AI-writing patterns (from Wikipedia's "Signs of AI writing"). Section A justifies an edit on one sighting; a pattern marked (weak) counts only when several tells share the passage.

A. Staging instead of stating
- Not X but Y: "not just X, it's Y", "This doesn't mean X. It means Y.", "X rather than Y", clipped negative tails ("..., no guessing"). State the point directly; keep a contrast only when the negative half corrects a belief the reader holds or both halves inform.
- One-line closers and dramatic fragments: a one-sentence paragraph restating the one before it; "That is the real win."; "Let that sink in."; fragment rows ("No prior. No nostalgia."); "every. single. day.". Merge into a sentence with a specific claim, or cut.
- Sayings that sound deep: "the real question is", "at its core", "what really matters", "the deeper issue", "X is the Y of Z", "the language of". Replace the saying with the specific claim.
- Staged run-ups: "Let's dive in", "Here's what you need to know", "quick note", "heads up", "Honestly?", "Look,", "The thing is". Delete the run-up and make the point.
- Arguing with no one: "This isn't mainly about", "I'm not saying", "To be clear", "Don't get me wrong", "Some might say... but", "A tempting approach would be", "You might think... but". Remove the unraised objection or fake alternative; keep any real claim it carries.

B. Rhythm by rule
- Forced triads: ideas arrive in threes to sound complete ("innovation, inspiration, and insights"), or three parallel examples plus a lesson. Keep the number of items the meaning needs.
- Repeated sentence openings: several sentences in a row starting with the same subject. Merge them or change the subject; deliberate rhythm ("She came. She saw. She conquered.") stays.
- Dashes as the universal connector (weak): beyond the one-pair cap, em dashes, spaced dashes, or "--" joining clauses. Use a period, comma, colon, or parentheses. Leave dashes inside code blocks, inline code, commands, paths, and URLs alone.
- Stacked qualifiers (weak): "could potentially", "might arguably", "it may be argued". Keep only qualifiers the text supports; ordinary hedges (perhaps, tends to) are human habits.
- Hyphenated pairs everywhere (weak): "cross-functional", "data-driven", "well-known", "real-time" in every position. Keep the hyphen before a noun when grammar needs it; drop it after the noun.
- Passive voice and missing subjects (weak): "No configuration file needed." Name the actor when that clarifies.

C. Inflation and borrowed authority
- Stock AI vocabulary: "#;

/// The AI-writing pattern block, after the banned list.
pub const TELLS_TAIL: &'static str = r#". Use plain words.
- Inflated significance: "marking a pivotal moment", "plays a key role", "underscores its importance", "Despite challenges... continues to thrive", stock "Challenges and Legacy" or "Future Outlook" sections, "the future looks bright" send-offs. Keep the fact and drop the significance; end on the last concrete fact.
- Vague association: "associated with", "in connection with", "linked to", "tied to". State the relationship the text gives; if it gives none, keep the vague wording rather than inventing a role.
- Shallow -ing riders: "symbolizing", "reflecting", "underscoring", "showcasing", "fostering" bolted onto a simple fact. Keep the fact; keep the rider only if the text supports it.
- Sales language: "nestled", "in the heart of", "breathtaking", "stunning", "rich" (figurative), "renowned", "commitment to", "must-visit", "diverse array". State what the thing is.
- Borrowed authority: "experts believe", "industry reports", "some critics", a list of prestige outlets, follower counts. Name the source the text names, or cut the claim; never invent a source.
- Copulative avoidance: "serves as", "stands as", "functions as", "operates as", "boasts", "features". Use is, are, has.

D. Formatting by rule
- Bold as decoration: bolded keywords with no reason; labeled lists ("- **Performance:** Performance improved"). Remove the bold; turn a labeled list into prose when the labels carry no information.
- Decorative headings: Title Case, emojis, arrows, a horizontal rule between every section. Sentence case; remove the decoration.
- Curly quotation marks where straight quotes belong (weak).

E. Leftovers from the chat and the draft
- Chatbot residue: "Great question!", "Certainly!", "I hope this helps!", "Would you like...", "let me know", "here is an overview of". Remove the wrapper and keep the content.
- Knowledge-limit disclaimers and guesses: "as of my last update", "while specific details are limited", "in the available sources", "it is believed that", "likely [verb]". State what the text shows, or cut the sentence; never dress a guess as fact.
- A heading restated by the first sentence under it. Cut the restatement.
- Writing about the previous version: describe what the thing does now, not what it replaced. Changelogs, release notes, and migration guides are exempt."#;

/// The drafting guide, up to the banned list.
pub const STYLE_HEAD: &'static str = r#"You are a professional technical writer. Follow these rules exactly.

Register
- Formal, precise, plain. The voice of a careful human editor: never chatty, never promotional, never casual.

Structure
- Lead with the fact, command, or result. No preamble, no "In this guide", no "Welcome to", no closing summary restating what was just said.
- One idea per sentence. Short declarative sentences. Active voice with a real subject ("retry() raises TimeoutError", not "it can be observed that errors are raised").
- Headings are plain noun phrases. Steps are numbered, one action each, imperative mood.
- Never stage importance: no staged run-up before the point ("Let's dive in", "Here's what you need to know"), no one-line closer restating the section, no not-X-but-Y contrast ("It's not just X, it's Y"). State the point directly.

Mechanics
- Use the Oxford comma in every series of three or more ("red, white, and blue"), without exception.
- Em dashes sparingly — at most one pair per document, never as a substitute for a comma or period. En dashes for numeric ranges (1–3).
- Headings in sentence case, never Title Case, never ALL CAPS.

Banned words and patterns
- Never use: "#;

/// The drafting guide, after the banned list.
pub const STYLE_TAIL: &'static str = r#".
- Never use softeners: simply, just, easily, obviously, basically, actually, very, really, quite.
- If a word can be deleted without changing the meaning, delete it.
- Never write: "It is important to note", "In today's world", "whether you're a beginner or an expert", "look no further", "designed to help you", "makes it easy to".
- No marketing tone. No adjectives where a measurement belongs. No vague capability claims ("powerful", "intuitive") — state observable behavior instead.

Truthfulness
- Describe only what the provided source actually does. Never invent flags, endpoints, defaults, signatures, or behavior.
- Describe current behavior, not what the code replaced; changelog and migration documents are the exception.
- For every signature, flag, default, error, or exit code you document, quote the exact source line in backticks immediately after the claim. If no source line supports a detail, write `not shown in source` and move on. Never guess.

Output
- Return only the requested document, in markdown. No meta-commentary, no apology, no closing summary.
- Fence every code block with a language tag. No emoji, no bold for emphasis, no "Note:" or "Tip:" callouts, and no bullet list where a sentence works.
- Do not restate the heading in the first sentence."#;

/// The editing guide, up to the pattern block.
pub const REWRITE_HEAD: &'static str = r#"You are an editor. Rewrite the given text so it reads like a careful human wrote it, keeping every fact. Follow these rules exactly.

Workflow — work these passes silently, then return only the final rewrite:
1. Mark every AI-writing pattern below, strongest first, at sentence and paragraph scale (a contrast split across two sentences, three parallel examples, or a closer after every section is the same tell, larger).
2. Draft the rewrite. Treat the text as material, not a fixed structure: merge, split, or reorder paragraphs; shorten what adds nothing; keep every claim.
3. Check the draft: nothing added and nothing dropped (rankings, dates, numbers, and simultaneity claims die first), then hunt the five survivors — a not-X-but-Y contrast, a one-line closer, a dash, a triad, a bold label.
4. State each point naturally instead of patching flagged phrases one at a time; vary sentence length.

Preserve exactly: every fact, name, number, date, quote, citation, and ranking in the input; the input's language; code blocks, inline code, commands, paths, URLs, and data. Change prose only, and add nothing the input does not contain.

Register follows the kind of text: reference, technical, legal, and factual prose stays neutral and plain; blog posts, essays, opinions, and personal writing keep the writer's opinions, uncertainty, mixed feelings, humor, and asides.

Mechanics: one idea per sentence; Oxford comma in every series of three or more; em dashes at most one pair per document, never as a substitute for a comma or period; headings in sentence case; no softeners (simply, just, easily, obviously, basically, actually, very, really, quite); cut every filler phrase and empty intensifier.

Voice sample: when the task provides a writing sample, it defines the author's voice and overrides the rules above where they conflict — match its sentence length, word choice, punctuation, openings, and dash rate, and keep its quirks. An opinion or reaction may be added where the voice calls for one; a factual claim may not.

Keep the details that carry a human voice unless they hurt the meaning: specific unusual details, mixed feelings, dated references, genuine asides and self-corrections. Leave a watched phrase alone inside a quotation, a title, or a proper name.

"#;

/// The editing guide, after the pattern block.
pub const REWRITE_TAIL: &'static str = r#"

Return only the rewritten text. No commentary, no before/after labels."#;

/// The review guide, up to the pattern block.
pub const CRITIQUE_HEAD: &'static str = r#"You are a demanding copy editor reviewing prose for AI writing patterns and slop.

Return a terse numbered list of concrete problems. For each: quote the offending phrase, name the fault in two or three words, and give the fix as a rewrite of that one phrase. Judge against these faults:
- filler or preamble ("It is important to note...")
- softeners and empty intensifiers (simply, just, easily, obviously, basically, actually, very, really, quite)
- sentences carrying multiple ideas
- a series of three or more missing its Oxford comma
- invented or unverifiable specifics
- marketing tone, or a vague claim where a fact belongs
- every AI-writing pattern below: act on a section A tell on one sighting; a (weak) tell only when several tells share the passage

"#;

/// The review guide, after the pattern block.
pub const CRITIQUE_TAIL: &'static str = r#"

Writing sample: when the task provides one, it defines the author's voice — do not flag a pattern the sample itself exhibits, and judge dash rate against the sample's.

If a reference source is provided, verify every factual claim in the text against it and flag anything the source contradicts or does not support.

If the text is already clean, return exactly: CLEAN"#;

/// The composition guide, up to the banned list.
pub const COMPOSE_HEAD: &'static str = r#"You are a professional technical writer. Follow these rules exactly.

Register
- Formal, precise, plain. The voice of a careful human editor: never chatty, never promotional, never casual.

Structure
- Lead with the point: the status, decision, or ask. No preamble, no "This report covers", no closing restatement.
- One idea per sentence. Short declarative sentences. Active voice with a real subject.
- Headings are plain noun phrases in sentence case. Steps are numbered, one action each, imperative mood.

Mechanics
- Use the Oxford comma in every series of three or more, without exception.
- Em dashes sparingly — at most one pair per document, never as a substitute for a comma or period. En dashes for numeric ranges (1–3).

Banned words and patterns
- Never use: "#;

/// The composition guide, after the banned list.
pub const COMPOSE_TAIL: &'static str = r#".
- Never use softeners: simply, just, easily, obviously, basically, actually, very, really, quite.
- If a word can be deleted without changing the meaning, delete it.
- Never write: "It is important to note", "In today's world", "whether you're a beginner or an expert", "look no further", "designed to help you", "makes it easy to".
- Never stage importance: no not-X-but-Y contrasts, no one-line closers restating the previous line, no "the future looks bright" send-off. End on the last concrete fact.
- No marketing tone. No adjectives where a measurement belongs. No vague claims — state observable facts.

Fidelity
- Use only the facts present in the material. Never invent numbers, names, dates, owners, outcomes, or causes.
- Never infer an action, cause, owner, or next step from a problem statement. If the material says only that something is unknown, the document says only that.
- Before writing a rephrased fact, locate the exact material line that supports it; do not include that line in the output.
- If the material does not support something the document shape expects, omit it, or write "unknown" only where the gap itself matters (a missing root cause, a missing date). Never guess, and never leave scaffolding such as "not in the material" in the output.
- Every number, name, and date in the document must come from the material.

Output
- Return only the requested document, in markdown. No meta-commentary, no apology.
- Fence every code block with a language tag. No emoji, no bold for emphasis, no "Note:" or "Tip:" callouts, and no bullet list where a sentence works.
- Do not restate the heading in the first sentence."#;

/// The task instruction for the `overview` kind.
pub const OVERVIEW_INSTRUCTION: &'static str = "Write an architecture overview for a new maintainer: what this code is, the key modules and what each owns, the main data or control flow, and the notable failure modes. No tutorial voice. Cover only what the source shows.";

/// The task instruction for the `api` kind.
pub const API_INSTRUCTION: &'static str = "Write an API reference. One section per public type or function actually present in the source: signature, parameters, return value, raised errors, and any invariants the code guarantees. Cover only what the source shows.";

/// The task instruction for the `readme` kind.
pub const README_INSTRUCTION: &'static str = "Write a README: what the project does in two sentences, requirements, installation, a minimal quickstart, configuration, and how to run the tests. Commands and paths must appear verbatim in the source.";

/// The task instruction for the `function` kind.
pub const FUNCTION_INSTRUCTION: &'static str = "Write one doc-comment block for the function under discussion: purpose, parameters, return value, errors, and — only if the source makes one obvious — a single usage example.";

/// The task instruction for the `cli` kind.
pub const CLI_INSTRUCTION: &'static str = "Write CLI usage documentation: synopsis, a flag table (flag, argument, default, effect), exit codes, and examples copied from the argument parser in the source. Omit any flag the code does not define.";

/// The task instruction for the `config` kind.
pub const CONFIG_INSTRUCTION: &'static str = "Write a configuration reference: every setting the code actually reads, with its type, default value, and observable effect. Skip settings the code never reads.";

/// The task instruction for the `changelog` kind.
pub const CHANGELOG_INSTRUCTION: &'static str = "Write changelog entries for the changes visible in the source: terse bullets grouped under Added / Changed / Removed / Fixed, each naming the user-visible effect, not the internal mechanics. Cover only what the source shows.";

/// The task instruction for the `standup` kind.
pub const STANDUP_INSTRUCTION: &'static str = "Write a daily standup report. Open with the date and, if provided, the author. Group by owner when the material names owners. Under each owner use three sections: Done since the last standup, Planned next, Blocked. Work the material shows as finished today — including tickets opened or closed today — belongs in Done. Planned next lists only work the material states as planned or in progress; never turn a problem or an unknown into a next step, and if the material names no planned work, omit Planned next. One line per item; for blocked items state what is needed to unblock. Omit any section with no items, except Blocked: when an owner has no blockers, write \"No blockers\" under Blocked.";

/// The task instruction for the `prd` kind.
pub const PRD_INSTRUCTION: &'static str = "Write a product requirements one-pager: Problem, Goals, Non-goals, Requirements (numbered, one requirement each), Success measures, Open questions.";

/// The task instruction for the `one-pager` kind.
pub const ONE_PAGER_INSTRUCTION: &'static str = "Write a single-page brief: Context, Problem, Proposal, Resources required, Decision requested.";

/// The task instruction for the `announcement` kind.
pub const ANNOUNCEMENT_INSTRUCTION: &'static str = "Write an announcement: what changed, who is affected, what to do about it, and when. No excitement adjectives.";

/// The task instruction for the `summary` kind.
pub const SUMMARY_INSTRUCTION: &'static str = "Write a summary of the material: the key points in the order that matters, with every number and date exactly as the material states it.";

/// The task instruction for the `release-notes` kind.
pub const RELEASE_NOTES_INSTRUCTION: &'static str = "Write release notes from the material: changes grouped under Added / Changed / Fixed / Removed, each entry naming the user-visible effect. Skip internal-only work.";

/// The task instruction for the `postmortem` kind.
pub const POSTMORTEM_INSTRUCTION: &'static str = "Write an incident postmortem: Timeline (from the material), Impact, Root cause, What went well, Action items (owner and due date where the material shows one). Where the material is silent, write \"not in the material\" rather than inferring.";

/// The task instruction for the `weekly-status` kind.
pub const WEEKLY_STATUS_INSTRUCTION: &'static str = "Write a weekly status report: Accomplishments, In progress, Risks and blockers, Next week. One line per item.";

/// The task instruction for the `meeting-notes` kind.
pub const MEETING_NOTES_INSTRUCTION: &'static str = "Write meeting notes: Attendees (if the material lists them), Decisions made, Action items (owner and due date where the material shows one), Open questions.";

/// The AI-writing pattern block shared by the rewrite and critique guides.
pub open spec fn ai_tells_text() -> Seq<char> {
    TELLS_HEAD@ + BANNED_VOCAB@ + TELLS_TAIL@
}

/// The drafting guide used by `document_code`.
pub open spec fn style_guide_text() -> Seq<char> {
    STYLE_HEAD@ + BANNED_VOCAB@ + STYLE_TAIL@
}

/// The editing guide used by `rewrite_prose`.
pub open spec fn rewrite_guide_text() -> Seq<char> {
    REWRITE_HEAD@ + ai_tells_text() + REWRITE_TAIL@
}

/// The review guide used by `critique_prose`.
pub open spec fn critique_guide_text() -> Seq<char> {
    CRITIQUE_HEAD@ + ai_tells_text() + CRITIQUE_TAIL@
}

/// The composition guide used by `compose`.
pub open spec fn compose_guide_text() -> Seq<char> {
    COMPOSE_HEAD@ + BANNED_VOCAB@ + COMPOSE_TAIL@
}

/// `head`, then `middle`, then `tail`, as one string.
fn concat3(head: &str, middle: &str, tail: &str) -> (r: String)
    ensures
        r@ == head@ + middle@ + tail@,
{
    let mut r = String::from_str(head);
    r.append(middle);
    r.append(tail);
    r
}

/// The AI-writing pattern taxonomy: rewrite removes these, critique flags
/// them.
pub fn ai_tells() -> (r: String)
    ensures
        r@ == ai_tells_text(),
{
    concat3(TELLS_HEAD, BANNED_VOCAB, TELLS_TAIL)
}

/// Drafting guide: the system prompt of `document_code`.
pub fn style_guide() -> (r: String)
    ensures
        r@ == style_guide_text(),
{
    concat3(STYLE_HEAD, BANNED_VOCAB, STYLE_TAIL)
}

/// Editing guide: the system prompt of `rewrite_prose`.
pub fn rewrite_guide() -> (r: String)
    ensures
        r@ == rewrite_guide_text(),
{
    let tells = ai_tells();
    concat3(REWRITE_HEAD, tells.as_str(), REWRITE_TAIL)
}

/// Review guide: the system prompt of `critique_prose`.
pub fn critique_guide() -> (r: String)
    ensures
        r@ == critique_guide_text(),
{
    let tells = ai_tells();
    concat3(CRITIQUE_HEAD, tells.as_str(), CRITIQUE_TAIL)
}

/// Composition guide: the system prompt of `compose`.
pub fn compose_guide() -> (r: String)
    ensures
        r@ == compose_guide_text(),
{
    concat3(COMPOSE_HEAD, BANNED_VOCAB, COMPOSE_TAIL)
}

/// The views of an optional string slice.
pub open spec fn opt_str_view(o: Option<&str>) -> Option<Seq<char>> {
    match o {
        Some(s) => Some(s@),
        None => None,
    }
}

/// The drafting instruction for a `document_code` kind; `None` for a kind
/// that is not one of `DOCUMENT_KINDS`.
pub open spec fn document_instruction(kind: Seq<char>) -> Option<Seq<char>> {
    if kind == "overview"@ {
        Some(OVERVIEW_INSTRUCTION@)
    } else if kind == "api"@ {
        Some(API_INSTRUCTION@)
    } else if kind == "readme"@ {
        Some(README_INSTRUCTION@)
    } else if kind == "function"@ {
        Some(FUNCTION_INSTRUCTION@)
    } else if kind == "cli"@ {
        Some(CLI_INSTRUCTION@)
    } else if kind == "config"@ {
        Some(CONFIG_INSTRUCTION@)
    } else if kind == "changelog"@ {
        Some(CHANGELOG_INSTRUCTION@)
    } else {
        None
    }
}

/// The composition instruction for a `compose` kind; `None` for a kind
/// that is not one of `COMPOSE_KINDS`.
pub open spec fn composition_instruction(kind: Seq<char>) -> Option<Seq<char>> {
    if kind == "standup"@ {
        Some(STANDUP_INSTRUCTION@)
    } else if kind == "prd"@ {
        Some(PRD_INSTRUCTION@)
    } else if kind == "one-pager"@ {
        Some(ONE_PAGER_INSTRUCTION@)
    } else if kind == "announcement"@ {
        Some(ANNOUNCEMENT_INSTRUCTION@)
    } else if kind == "summary"@ {
        Some(SUMMARY_INSTRUCTION@)
    } else if kind == "release-notes"@ {
        Some(RELEASE_NOTES_INSTRUCTION@)
    } else if kind == "postmortem"@ {
        Some(POSTMORTEM_INSTRUCTION@)
    } else if kind == "weekly-status"@ {
        Some(WEEKLY_STATUS_INSTRUCTION@)
    } else if kind == "meeting-notes"@ {
        Some(MEETING_NOTES_INSTRUCTION@)
    } else {
        None
    }
}

/// Per-kind drafting instruction for `document_code`. Unknown kinds are
/// refused (`None`), never guessed at.
pub fn kind_instruction(kind: &str) -> (r: Option<&'static str>)
    ensures
        opt_str_view(r) == document_instruction(kind@),
{
    if str_eq(kind, "overview") {
        Some(OVERVIEW_INSTRUCTION)
    } else if str_eq(kind, "api") {
        Some(API_INSTRUCTION)
    } else if str_eq(kind, "readme") {
        Some(README_INSTRUCTION)
    } else if str_eq(kind, "function") {
        Some(FUNCTION_INSTRUCTION)
    } else if str_eq(kind, "cli") {
        Some(CLI_INSTRUCTION)
    } else if str_eq(kind, "config") {
        Some(CONFIG_INSTRUCTION)
    } else if str_eq(kind, "changelog") {
        Some(CHANGELOG_INSTRUCTION)
    } else {
        None
    }
}

/// Per-kind composition instruction for `compose`. Unknown kinds are
/// refused (`None`), never guessed at.
pub fn compose_kind_instruction(kind: &str) -> (r: Option<&'static str>)
    ensures
        opt_str_view(r) == composition_instruction(kind@),
{
    if str_eq(kind, "standup") {
        Some(STANDUP_INSTRUCTION)
    } else if str_eq(kind, "prd") {
        Some(PRD_INSTRUCTION)
    } else if str_eq(kind, "one-pager") {
        Some(ONE_PAGER_INSTRUCTION)
    } else if str_eq(kind, "announcement") {
        Some(ANNOUNCEMENT_INSTRUCTION)
    } else if str_eq(kind, "summary") {
        Some(SUMMARY_INSTRUCTION)
    } else if str_eq(kind, "release-notes") {
        Some(RELEASE_NOTES_INSTRUCTION)
    } else if str_eq(kind, "postmortem") {
        Some(POSTMORTEM_INSTRUCTION)
    } else if str_eq(kind, "weekly-status") {
        Some(WEEKLY_STATUS_INSTRUCTION)
    } else if str_eq(kind, "meeting-notes") {
        Some(MEETING_NOTES_INSTRUCTION)
    } else {
        None
    }
}

/// The vocabulary ban is one shared list: whatever part of `BANNED_VOCAB`
/// (one banned word, say) appears in the drafting, composition, rewrite and
/// critique guides and in the AI-writing pattern block.
pub proof fn banned_vocab_in_every_guide(word: Seq<char>)
    requires
        contains_seq(BANNED_VOCAB@, word),
    ensures
        contains_seq(style_guide_text(), word),
        contains_seq(compose_guide_text(), word),
        contains_seq(ai_tells_text(), word),
        contains_seq(rewrite_guide_text(), word),
        contains_seq(critique_guide_text(), word),
{
    crate::text::lemma_contains_middle(STYLE_HEAD@, BANNED_VOCAB@, STYLE_TAIL@);
    crate::text::lemma_contains_trans(style_guide_text(), BANNED_VOCAB@, word);
    crate::text::lemma_contains_middle(COMPOSE_HEAD@, BANNED_VOCAB@, COMPOSE_TAIL@);
    crate::text::lemma_contains_trans(compose_guide_text(), BANNED_VOCAB@, word);
    crate::text::lemma_contains_middle(TELLS_HEAD@, BANNED_VOCAB@, TELLS_TAIL@);
    crate::text::lemma_contains_trans(ai_tells_text(), BANNED_VOCAB@, word);
    ai_tells_shared_by_rewrite_and_critique(word);
}

/// Rewrite removes and critique flags the same pattern taxonomy: whatever
/// part of the AI-writing pattern block (the whole block, or the block
/// trimmed) appears in both the rewrite and the critique guide.
pub proof fn ai_tells_shared_by_rewrite_and_critique(part: Seq<char>)
    requires
        contains_seq(ai_tells_text(), part),
    ensures
        contains_seq(rewrite_guide_text(), part),
        contains_seq(critique_guide_text(), part),
{
    crate::text::lemma_contains_middle(REWRITE_HEAD@, ai_tells_text(), REWRITE_TAIL@);
    crate::text::lemma_contains_trans(rewrite_guide_text(), ai_tells_text(), part);
    crate::text::lemma_contains_middle(CRITIQUE_HEAD@, ai_tells_text(), CRITIQUE_TAIL@);
    crate::text::lemma_contains_trans(critique_guide_text(), ai_tells_text(), part);
}

/// `document_code` accepts exactly the kinds it lists: an instruction
/// exists for `kind` if and only if `kind` is one of `DOCUMENT_KINDS`.
pub proof fn document_kinds_are_exactly_the_instructed(kind: Seq<char>)
    ensures
        document_instruction(kind) is Some <==> strs_view(DOCUMENT_KINDS@).contains(kind),
{
    let v = strs_view(DOCUMENT_KINDS@);
    assert(v =~= seq!["overview"@, "api"@, "readme"@, "function"@, "cli"@, "config"@, "changelog"@]);
    if document_instruction(kind) is Some {
        if kind == "overview"@ { assert(v[0] == kind); }
        else if kind == "api"@ { assert(v[1] == kind); }
        else if kind == "readme"@ { assert(v[2] == kind); }
        else if kind == "function"@ { assert(v[3] == kind); }
        else if kind == "cli"@ { assert(v[4] == kind); }
        else if kind == "config"@ { assert(v[5] == kind); }
        else { assert(v[6] == kind); }
    }
}

/// `compose` accepts exactly the kinds it lists: an instruction exists for
/// `kind` if and only if `kind` is one of `COMPOSE_KINDS`.
pub proof fn compose_kinds_are_exactly_the_instructed(kind: Seq<char>)
    ensures
        composition_instruction(kind) is Some <==> strs_view(COMPOSE_KINDS@).contains(kind),
{
    let v = strs_view(COMPOSE_KINDS@);
    assert(v =~= seq![
        "standup"@, "prd"@, "one-pager"@, "announcement"@, "summary"@, "release-notes"@,
        "postmortem"@, "weekly-status"@, "meeting-notes"@,
    ]);
    if composition_instruction(kind) is Some {
        if kind == "standup"@ { assert(v[0] == kind); }
        else if kind == "prd"@ { assert(v[1] == kind); }
        else if kind == "one-pager"@ { assert(v[2] == kind); }
        else if kind == "announcement"@ { assert(v[3] == kind); }
        else if kind == "summary"@ { assert(v[4] == kind); }
        else if kind == "release-notes"@ { assert(v[5] == kind); }
        else if kind == "postmortem"@ { assert(v[6] == kind); }
        else if kind == "weekly-status"@ { assert(v[7] == kind); }
        else { assert(v[8] == kind); }
    }
}

/// Each `document_code` kind gets its own instruction: the k-th entry of
/// `DOCUMENT_KINDS` gives the k-th instruction (overview, API reference,
/// README, function doc, CLI usage, configuration reference, changelog).
pub proof fn each_document_kind_gets_its_own_instruction()
    ensures
        document_instruction(DOCUMENT_KINDS[0]@) == Some(OVERVIEW_INSTRUCTION@),
        document_instruction(DOCUMENT_KINDS[1]@) == Some(API_INSTRUCTION@),
        document_instruction(DOCUMENT_KINDS[2]@) == Some(README_INSTRUCTION@),
        document_instruction(DOCUMENT_KINDS[3]@) == Some(FUNCTION_INSTRUCTION@),
        document_instruction(DOCUMENT_KINDS[4]@) == Some(CLI_INSTRUCTION@),
        document_instruction(DOCUMENT_KINDS[5]@) == Some(CONFIG_INSTRUCTION@),
        document_instruction(DOCUMENT_KINDS[6]@) == Some(CHANGELOG_INSTRUCTION@),
        document_instruction("overview"@) == Some(OVERVIEW_INSTRUCTION@),
        document_instruction("api"@) == Some(API_INSTRUCTION@),
        document_instruction("readme"@) == Some(README_INSTRUCTION@),
        document_instruction("function"@) == Some(FUNCTION_INSTRUCTION@),
        document_instruction("cli"@) == Some(CLI_INSTRUCTION@),
        document_instruction("config"@) == Some(CONFIG_INSTRUCTION@),
        document_instruction("changelog"@) == Some(CHANGELOG_INSTRUCTION@),
{
    reveal_strlit("overview");
    reveal_strlit("api");
    reveal_strlit("readme");
    reveal_strlit("function");
    reveal_strlit("cli");
    reveal_strlit("config");
    reveal_strlit("changelog");
    assert("overview"@.len() == 8);
    assert("api"@.len() == 3);
    assert("readme"@.len() == 6);
    assert("function"@.len() == 8);
    assert("cli"@.len() == 3);
    assert("config"@.len() == 6);
    assert("changelog"@.len() == 9);
    assert("api"@ != "overview"@);
    assert("readme"@ != "overview"@);
    assert("readme"@ != "api"@);
    assert("function"@[0] == 'f' && "overview"@[0] == 'o');
    assert("function"@ != "overview"@);
    assert("function"@ != "api"@);
    assert("function"@ != "readme"@);
    assert("cli"@ != "overview"@);
    assert("cli"@[0] == 'c' && "api"@[0] == 'a');
    assert("cli"@ != "api"@);
    assert("cli"@ != "readme"@);
    assert("cli"@ != "function"@);
    assert("config"@ != "overview"@);
    assert("config"@ != "api"@);
    assert("config"@[0] == 'c' && "readme"@[0] == 'r');
    assert("config"@ != "readme"@);
    assert("config"@ != "function"@);
    assert("config"@ != "cli"@);
    assert("changelog"@ != "overview"@);
    assert("changelog"@ != "api"@);
    assert("changelog"@ != "readme"@);
    assert("changelog"@ != "function"@);
    assert("changelog"@ != "cli"@);
    assert("changelog"@ != "config"@);
    assert(strs_view(DOCUMENT_KINDS@) =~= seq![
        "overview"@, "api"@, "readme"@, "function"@, "cli"@, "config"@, "changelog"@,
    ]);
    assert(DOCUMENT_KINDS[0]@ == strs_view(DOCUMENT_KINDS@)[0]);
    assert(DOCUMENT_KINDS[1]@ == strs_view(DOCUMENT_KINDS@)[1]);
    assert(DOCUMENT_KINDS[2]@ == strs_view(DOCUMENT_KINDS@)[2]);
    assert(DOCUMENT_KINDS[3]@ == strs_view(DOCUMENT_KINDS@)[3]);
    assert(DOCUMENT_KINDS[4]@ == strs_view(DOCUMENT_KINDS@)[4]);
    assert(DOCUMENT_KINDS[5]@ == strs_view(DOCUMENT_KINDS@)[5]);
    assert(DOCUMENT_KINDS[6]@ == strs_view(DOCUMENT_KINDS@)[6]);
}

/// Each `compose` kind gets its own instruction: the k-th entry of
/// `COMPOSE_KINDS` gives the k-th instruction (standup, PRD, one-pager,
/// announcement, summary, release notes, postmortem, weekly status,
/// meeting notes).
pub proof fn each_compose_kind_gets_its_own_instruction()
    ensures
        composition_instruction(COMPOSE_KINDS[0]@) == Some(STANDUP_INSTRUCTION@),
        composition_instruction(COMPOSE_KINDS[1]@) == Some(PRD_INSTRUCTION@),
        composition_instruction(COMPOSE_KINDS[2]@) == Some(ONE_PAGER_INSTRUCTION@),
        composition_instruction(COMPOSE_KINDS[3]@) == Some(ANNOUNCEMENT_INSTRUCTION@),
        composition_instruction(COMPOSE_KINDS[4]@) == Some(SUMMARY_INSTRUCTION@),
        composition_instruction(COMPOSE_KINDS[5]@) == Some(RELEASE_NOTES_INSTRUCTION@),
        composition_instruction(COMPOSE_KINDS[6]@) == Some(POSTMORTEM_INSTRUCTION@),
        composition_instruction(COMPOSE_KINDS[7]@) == Some(WEEKLY_STATUS_INSTRUCTION@),
        composition_instruction(COMPOSE_KINDS[8]@) == Some(MEETING_NOTES_INSTRUCTION@),
        composition_instruction("standup"@) == Some(STANDUP_INSTRUCTION@),
        composition_instruction("prd"@) == Some(PRD_INSTRUCTION@),
        composition_instruction("one-pager"@) == Some(ONE_PAGER_INSTRUCTION@),
        composition_instruction("announcement"@) == Some(ANNOUNCEMENT_INSTRUCTION@),
        composition_instruction("summary"@) == Some(SUMMARY_INSTRUCTION@),
        composition_instruction("release-notes"@) == Some(RELEASE_NOTES_INSTRUCTION@),
        composition_instruction("postmortem"@) == Some(POSTMORTEM_INSTRUCTION@),
        composition_instruction("weekly-status"@) == Some(WEEKLY_STATUS_INSTRUCTION@),
        composition_instruction("meeting-notes"@) == Some(MEETING_NOTES_INSTRUCTION@),
{
    reveal_strlit("standup");
    reveal_strlit("prd");
    reveal_strlit("one-pager");
    reveal_strlit("announcement");
    reveal_strlit("summary");
    reveal_strlit("release-notes");
    reveal_strlit("postmortem");
    reveal_strlit("weekly-status");
    reveal_strlit("meeting-notes");
    assert("standup"@.len() == 7);
    assert("prd"@.len() == 3);
    assert("one-pager"@.len() == 9);
    assert("announcement"@.len() == 12);
    assert("summary"@.len() == 7);
    assert("release-notes"@.len() == 13);
    assert("postmortem"@.len() == 10);
    assert("weekly-status"@.len() == 13);
    assert("meeting-notes"@.len() == 13);
    assert("prd"@ != "standup"@);
    assert("one-pager"@ != "standup"@);
    assert("one-pager"@ != "prd"@);
    assert("announcement"@ != "standup"@);
    assert("announcement"@ != "prd"@);
    assert("announcement"@ != "one-pager"@);
    assert("summary"@[1] == 'u' && "standup"@[1] == 't');
    assert("summary"@ != "standup"@);
    assert("summary"@ != "prd"@);
    assert("summary"@ != "one-pager"@);
    assert("summary"@ != "announcement"@);
    assert("release-notes"@ != "standup"@);
    assert("release-notes"@ != "prd"@);
    assert("release-notes"@ != "one-pager"@);
    assert("release-notes"@ != "announcement"@);
    assert("release-notes"@ != "summary"@);
    assert("postmortem"@ != "standup"@);
    assert("postmortem"@ != "prd"@);
    assert("postmortem"@ != "one-pager"@);
    assert("postmortem"@ != "announcement"@);
    assert("postmortem"@ != "summary"@);
    assert("postmortem"@ != "release-notes"@);
    assert("weekly-status"@ != "standup"@);
    assert("weekly-status"@ != "prd"@);
    assert("weekly-status"@ != "one-pager"@);
    assert("weekly-status"@ != "announcement"@);
    assert("weekly-status"@ != "summary"@);
    assert("weekly-status"@[0] == 'w' && "release-notes"@[0] == 'r');
    assert("weekly-status"@ != "release-notes"@);
    assert("weekly-status"@ != "postmortem"@);
    assert("meeting-notes"@ != "standup"@);
    assert("meeting-notes"@ != "prd"@);
    assert("meeting-notes"@ != "one-pager"@);
    assert("meeting-notes"@ != "announcement"@);
    assert("meeting-notes"@ != "summary"@);
    assert("meeting-notes"@[0] == 'm' && "release-notes"@[0] == 'r');
    assert("meeting-notes"@ != "release-notes"@);
    assert("meeting-notes"@ != "postmortem"@);
    assert("meeting-notes"@[0] == 'm' && "weekly-status"@[0] == 'w');
    assert("meeting-notes"@ != "weekly-status"@);
    assert(strs_view(COMPOSE_KINDS@) =~= seq![
        "standup"@, "prd"@, "one-pager"@, "announcement"@, "summary"@, "release-notes"@,
        "postmortem"@, "weekly-status"@, "meeting-notes"@,
    ]);
    assert(COMPOSE_KINDS[0]@ == strs_view(COMPOSE_KINDS@)[0]);
    assert(COMPOSE_KINDS[1]@ == strs_view(COMPOSE_KINDS@)[1]);
    assert(COMPOSE_KINDS[2]@ == strs_view(COMPOSE_KINDS@)[2]);
    assert(COMPOSE_KINDS[3]@ == strs_view(COMPOSE_KINDS@)[3]);
    assert(COMPOSE_KINDS[4]@ == strs_view(COMPOSE_KINDS@)[4]);
    assert(COMPOSE_KINDS[5]@ == strs_view(COMPOSE_KINDS@)[5]);
    assert(COMPOSE_KINDS[6]@ == strs_view(COMPOSE_KINDS@)[6]);
    assert(COMPOSE_KINDS[7]@ == strs_view(COMPOSE_KINDS@)[7]);
    assert(COMPOSE_KINDS[8]@ == strs_view(COMPOSE_KINDS@)[8]);
}

} // verus!
