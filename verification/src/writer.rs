//! The tool surface: what each of the five tools makes of its arguments.
//!
//! Every writing tool first resolves its payload (inline text or a file,
//! exactly one of them), then builds the system and user prompts for the
//! writing model, or refuses the call with a message the calling agent can
//! read. Reading files and talking to the model are the server's part;
//! this module decides everything in between and what the answer says.

use vstd::prelude::*;
use vstd::string::StringExecFns;

use crate::client::{Completion, CompletionSpec};
use crate::config::{
    clamp_temperature, clamp_temperature_bits, seq_starts_with, MAX_SOURCE_BYTES, MAX_TOKENS_CAP,
    TEMPERATURE_CEILING_BITS,
};
use crate::decode::{debug_quoted, debug_str, lossy_text, utf8_lossy};
use vstd::utf8::{decode_utf8, valid_utf8};
use crate::prompts::{
    banned_vocab_in_every_guide, compose_guide, compose_guide_text, compose_kind_instruction,
    composition_instruction, critique_guide, critique_guide_text, document_instruction,
    kind_instruction, rewrite_guide, rewrite_guide_text, style_guide, style_guide_text,
    BANNED_VOCAB, COMPOSE_KINDS, DOCUMENT_KINDS,
};
use crate::text::{
    contains_seq, decimal, join_strings, join_strs, lemma_contains_self, nonblank, nonblank_of,
    opt_view, push_decimal, seq_join, strings_view, strs_view, trim, trim_chars,
};

verus! {

/// Arguments of `document_code`.
#[derive(Debug, Clone)]
pub struct DocumentCodeArgs {
    /// The source code to document. Mutually exclusive with `path`.
    pub code: Option<String>,
    /// A file to read as the source. Mutually exclusive with `code`.
    pub path: Option<String>,
    /// Document type, one of `DOCUMENT_KINDS`. Defaults to `api`.
    pub kind: Option<String>,
    /// Who reads the document.
    pub audience: Option<String>,
    /// Extra author instructions the model must follow.
    pub notes: Option<String>,
    /// Completion budget in tokens. Defaults to 8192.
    pub max_tokens: Option<u32>,
    /// Sampling temperature, as `f32` bits. Defaults to the configuration.
    pub temperature_bits: Option<u32>,
}

/// Arguments of `rewrite_prose`.
#[derive(Debug, Clone)]
pub struct RewriteProseArgs {
    /// The prose to rewrite. Mutually exclusive with `path`.
    pub text: Option<String>,
    /// A file whose contents to rewrite. Mutually exclusive with `text`.
    pub path: Option<String>,
    /// Editorial intent.
    pub goal: Option<String>,
    /// Who reads the text.
    pub audience: Option<String>,
    /// Completion budget in tokens. Defaults to 4096.
    pub max_tokens: Option<u32>,
    /// Sampling temperature, as `f32` bits. Defaults to the configuration.
    pub temperature_bits: Option<u32>,
}

/// Arguments of `critique_prose`.
#[derive(Debug, Clone)]
pub struct CritiqueProseArgs {
    /// The prose to review. Mutually exclusive with `path`.
    pub text: Option<String>,
    /// A file whose contents to review. Mutually exclusive with `text`.
    pub path: Option<String>,
    /// Reference source the text's factual claims are checked against.
    pub source: Option<String>,
    /// Completion budget in tokens. Defaults to 4096.
    pub max_tokens: Option<u32>,
    /// Sampling temperature, as `f32` bits. Defaults to the configuration.
    pub temperature_bits: Option<u32>,
}

/// Arguments of `compose`.
#[derive(Debug, Clone)]
pub struct ComposeArgs {
    /// The raw material. Mutually exclusive with `path`.
    pub material: Option<String>,
    /// A file to read as the raw material. Mutually exclusive with
    /// `material`.
    pub path: Option<String>,
    /// Document type, one of `COMPOSE_KINDS`. Required.
    pub kind: Option<String>,
    /// Who reads the document.
    pub audience: Option<String>,
    /// The document date.
    pub date: Option<String>,
    /// The document author or team name.
    pub author: Option<String>,
    /// Target length.
    pub length: Option<String>,
    /// Section list that overrides the kind's default.
    pub sections: Option<Vec<String>>,
    /// The previous report of the same kind.
    pub previous: Option<String>,
    /// Extra author instructions the model must follow.
    pub notes: Option<String>,
    /// Completion budget in tokens. Defaults to 8192.
    pub max_tokens: Option<u32>,
    /// Sampling temperature, as `f32` bits. Defaults to the configuration.
    pub temperature_bits: Option<u32>,
}

/// One request to the writing model.
#[derive(Debug)]
pub struct Prompt {
    /// The guide that sets the house style.
    pub system: String,
    /// The task, with its payload fenced.
    pub user: String,
    /// Completion budget in tokens.
    pub max_tokens: u32,
    /// Sampling temperature, as `f32` bits.
    pub temperature_bits: u32,
}

/// The mathematical content of a `Prompt`.
pub struct PromptSpec {
    pub system: Seq<char>,
    pub user: Seq<char>,
    pub max_tokens: u32,
    pub temperature_bits: u32,
}

impl View for Prompt {
    type V = PromptSpec;

    open spec fn view(&self) -> PromptSpec {
        PromptSpec {
            system: self.system@,
            user: self.user@,
            max_tokens: self.max_tokens,
            temperature_bits: self.temperature_bits,
        }
    }
}

/// The view of a prompt result.
pub open spec fn prompt_result_view(r: Result<Prompt, String>) -> Result<PromptSpec, Seq<char>> {
    match r {
        Ok(p) => Ok(p@),
        Err(e) => Err(e@),
    }
}

/// A payload fenced with four backticks (anything shorter collides with
/// code blocks inside the payload), under a per-tool label.
pub open spec fn fenced(label: Seq<char>, body: Seq<char>) -> Seq<char> {
    label + ":\n````text\n"@ + body + "\n````"@
}

/// The user prompt: the task head, a blank line, and the fenced payload.
pub open spec fn user_prompt_spec(head: Seq<char>, label: Seq<char>, body: Seq<char>) -> Seq<char> {
    head + "\n\n"@ + fenced(label, body)
}

/// Appends `label:`, then the payload fenced with four backticks.
fn push_fenced(out: &mut String, label: &str, body: &str)
    ensures
        final(out)@ == old(out)@ + fenced(label@, body@),
{
    out.append(label);
    out.append(":\n````text\n");
    out.append(body);
    out.append("\n````");
}

/// Build the user prompt from the task head, the payload label and the
/// payload.
pub fn user_prompt(head: &str, label: &str, body: &str) -> (r: String)
    ensures
        r@ == user_prompt_spec(head@, label@, body@),
{
    let mut r = String::from_str(head);
    r.append("\n\n");
    push_fenced(&mut r, label, body);
    r
}

/// Where a tool's payload comes from.
#[derive(Debug)]
pub enum Source {
    /// Inline text, trimmed.
    Inline(String),
    /// A file path, trimmed; the server reads it.
    File(String),
}

/// The mathematical content of a `Source` choice: `Ok((true, text))` for
/// inline text, `Ok((false, path))` for a file, or the refusal.
pub open spec fn source_view(r: Result<Source, String>) -> Result<(bool, Seq<char>), Seq<char>> {
    match r {
        Ok(Source::Inline(t)) => Ok((true, t@)),
        Ok(Source::File(p)) => Ok((false, p@)),
        Err(e) => Err(e@),
    }
}

/// Exactly one of the inline payload and `path` is mandatory; each counts
/// only when it is not blank.
pub open spec fn source_spec(inline: Option<Seq<char>>, path: Option<Seq<char>>) -> Result<
    (bool, Seq<char>),
    Seq<char>,
> {
    match (nonblank(inline), nonblank(path)) {
        (Some(_), Some(_)) => Err("provide the inline argument or `path`, not both"@),
        (None, None) => Err("provide the inline argument or `path`"@),
        (Some(t), None) => Ok((true, t)),
        (None, Some(p)) => Ok((false, p)),
    }
}

/// Resolve the payload arguments of a tool into inline text or a file to
/// read.
pub fn source_choice(inline: &Option<String>, path: &Option<String>) -> (r: Result<Source, String>)
    ensures
        source_view(r) == source_spec(opt_view(*inline), opt_view(*path)),
{
    let inline = nonblank_of(inline);
    let path = nonblank_of(path);
    match (inline, path) {
        (Some(_), Some(_)) => Err(String::from_str("provide the inline argument or `path`, not both")),
        (None, None) => Err(String::from_str("provide the inline argument or `path`")),
        (Some(t), None) => Ok(Source::Inline(t)),
        (None, Some(p)) => Ok(Source::File(p)),
    }
}

/// The payload text of a file of `len` bytes whose first bytes are `head`:
/// a file larger than `MAX_SOURCE_BYTES` is cut there with a visible marker
/// naming both sizes, so that the model can report the truncation instead
/// of documenting half a file as if it were whole.
pub open spec fn file_text_spec(bytes: Seq<u8>) -> Seq<char> {
    if bytes.len() > MAX_SOURCE_BYTES {
        lossy_text(bytes.take(MAX_SOURCE_BYTES as int))
            + "\n\n[ghostwriter: source truncated at "@ + decimal(MAX_SOURCE_BYTES as nat)
            + " bytes of "@ + decimal(bytes.len()) + "; the rest was not sent to the model]\n"@
    } else {
        lossy_text(bytes)
    }
}

/// The payload text of a file read from disk, capped at
/// `MAX_SOURCE_BYTES` with a visible marker.
pub fn file_text(bytes: &[u8]) -> (r: String)
    ensures
        r@ == file_text_spec(bytes@),
{
    let n = bytes.len();
    if n > MAX_SOURCE_BYTES {
        let head = vstd::slice::slice_subrange(bytes, 0, MAX_SOURCE_BYTES);
        assert(head@ =~= bytes@.take(MAX_SOURCE_BYTES as int));
        let mut text = utf8_lossy(head);
        text.append("\n\n[ghostwriter: source truncated at ");
        push_decimal(&mut text, MAX_SOURCE_BYTES as u64);
        text.append(" bytes of ");
        push_decimal(&mut text, n as u64);
        text.append("; the rest was not sent to the model]\n");
        text
    } else {
        utf8_lossy(bytes)
    }
}

/// `reading {path} failed: {detail}`.
pub fn read_failure(path: &str, detail: &str) -> (r: String)
    ensures
        r@ == "reading "@ + path@ + " failed: "@ + detail@,
{
    let mut msg = String::from_str("reading ");
    msg.append(path);
    msg.append(" failed: ");
    msg.append(detail);
    msg
}

/// The budget sent honours the one asked for: a requested budget inside
/// `1..=MAX_TOKENS_CAP` is sent as it is, none asked for sends the tool's
/// `default`, and whatever is sent lies inside `1..=MAX_TOKENS_CAP`.
pub open spec fn sends_requested_budget(requested: Option<u32>, default: u32, sent: u32) -> bool {
    &&& (requested matches Some(t) && 1 <= t <= MAX_TOKENS_CAP) ==> sent == requested->0
    &&& requested is None ==> sent == default
    &&& 1 <= sent <= MAX_TOKENS_CAP
}

/// The temperature sent honours the one asked for: a requested temperature
/// inside `0.0..=2.0` is sent as it is, and none asked for sends the
/// configured one.
pub open spec fn sends_requested_temperature(requested: Option<u32>, configured: u32, sent: u32) -> bool {
    &&& (requested matches Some(b) && b <= TEMPERATURE_CEILING_BITS) ==> sent == requested->0
    &&& requested is None ==> sent == configured
}

/// The completion budget: the requested one or `default`, clamped into
/// `1..=MAX_TOKENS_CAP`.
pub open spec fn tokens_spec(requested: Option<u32>, default: u32) -> u32 {
    let t = match requested {
        Some(t) => t,
        None => default,
    };
    if t < 1 {
        1
    } else if t > MAX_TOKENS_CAP {
        MAX_TOKENS_CAP
    } else {
        t
    }
}

/// The completion budget for a call.
pub fn clamp_tokens(requested: Option<u32>, default: u32) -> (r: u32)
    ensures
        r == tokens_spec(requested, default),
        1 <= r <= MAX_TOKENS_CAP,
{
    let t = match requested {
        Some(t) => t,
        None => default,
    };
    if t < 1 {
        1
    } else if t > MAX_TOKENS_CAP {
        MAX_TOKENS_CAP
    } else {
        t
    }
}

/// The temperature for a call: the requested one clamped into `0.0..=2.0`,
/// or the configured one.
pub open spec fn temperature_spec(requested: Option<u32>, configured: u32) -> u32 {
    match requested {
        Some(t) => clamp_temperature_bits(t),
        None => configured,
    }
}

/// The temperature for a call, as `f32` bits.
pub fn choose_temperature(requested: Option<u32>, configured: u32) -> (r: u32)
    ensures
        r == temperature_spec(requested, configured),
{
    match requested {
        Some(t) => clamp_temperature(t),
        None => configured,
    }
}

/// `label` followed by the value of `o` when `o` is present and not blank;
/// nothing otherwise.
pub open spec fn optional_line(label: Seq<char>, o: Option<Seq<char>>) -> Seq<char> {
    match nonblank(o) {
        Some(v) => label + v,
        None => seq![],
    }
}

/// Appends `label` and the trimmed value of `o` when it is not blank.
fn push_optional(out: &mut String, label: &str, o: &Option<String>)
    ensures
        final(out)@ == old(out)@ + optional_line(label@, opt_view(*o)),
{
    match nonblank_of(o) {
        Some(v) => {
            out.append(label);
            out.append(v.as_str());
        },
        None => {
            assert(old(out)@ + Seq::<char>::empty() =~= old(out)@);
        },
    }
}

/// The refusal of an unknown kind: the kind as given (quoted) and the
/// kinds that are accepted.
pub open spec fn unknown_kind_message(kind: Seq<char>, kinds: Seq<Seq<char>>) -> Seq<char> {
    "unknown kind "@ + debug_quoted(kind) + "; expected one of: "@ + seq_join(kinds, ", "@)
}

/// `unknown kind {kind:?}; expected one of: {kinds}`.
fn unknown_kind(kind: &str, kinds: &[&str]) -> (r: String)
    ensures
        r@ == unknown_kind_message(kind@, strs_view(kinds@)),
{
    let mut msg = String::from_str("unknown kind ");
    let quoted = debug_str(kind);
    msg.append(quoted.as_str());
    msg.append("; expected one of: ");
    let list = join_strs(kinds, ", ");
    msg.append(list.as_str());
    msg
}

/// The document kind of a `document_code` call: the given one, trimmed
/// (not filtered for blankness), or `api`.
pub open spec fn document_kind(kind: Option<Seq<char>>) -> Seq<char> {
    match kind {
        Some(k) => trim_chars(k),
        None => "api"@,
    }
}

/// The `document_code` request for `args` whose payload is `body`, or the
/// refusal of an unknown kind.
pub open spec fn document_code_spec(
    kind: Option<Seq<char>>,
    audience: Option<Seq<char>>,
    notes: Option<Seq<char>>,
    max_tokens: Option<u32>,
    temperature_bits: Option<u32>,
    body: Seq<char>,
    configured_temperature: u32,
) -> Result<PromptSpec, Seq<char>> {
    let k = document_kind(kind);
    match document_instruction(k) {
        None => Err(unknown_kind_message(k, strs_view(DOCUMENT_KINDS@))),
        Some(instruction) => {
            let audience_line = match nonblank(audience) {
                Some(a) => "\nAudience: "@ + a,
                None => "\nAudience: developers who can read the source."@,
            };
            let head = "Task: "@ + instruction + audience_line + optional_line(
                "\nAuthor notes (follow them): "@,
                notes,
            );
            Ok(
                PromptSpec {
                    system: style_guide_text(),
                    user: user_prompt_spec(head, "Source"@, body),
                    max_tokens: tokens_spec(max_tokens, 8192),
                    temperature_bits: temperature_spec(temperature_bits, configured_temperature),
                },
            )
        },
    }
}

/// The request `document_code` sends for `args`, whose payload resolved to
/// `body`, with `configured_temperature` as the server's default.
pub fn document_code_prompt(args: &DocumentCodeArgs, body: &str, configured_temperature: u32) -> (r:
    Result<Prompt, String>)
    ensures
        prompt_result_view(r) == document_code_spec(
            opt_view(args.kind),
            opt_view(args.audience),
            opt_view(args.notes),
            args.max_tokens,
            args.temperature_bits,
            body@,
            configured_temperature,
        ),
        r matches Ok(p) ==> sends_requested_budget(args.max_tokens, 8192, p.max_tokens),
        r matches Ok(p) ==> sends_requested_temperature(
            args.temperature_bits,
            configured_temperature,
            p.temperature_bits,
        ),
{
    proof {
        reveal_strlit("api");
    }
    let kind = match &args.kind {
        Some(k) => trim(k.as_str()),
        None => String::from_str("api"),
    };
    let instruction = match kind_instruction(kind.as_str()) {
        Some(i) => i,
        None => {
            return Err(unknown_kind(kind.as_str(), &DOCUMENT_KINDS));
        },
    };
    let ghost k = document_kind(opt_view(args.kind));
    assert(kind@ == k);
    assert(document_instruction(k) == Some(instruction@));
    let mut head = String::from_str("Task: ");
    head.append(instruction);
    let ghost audience_line = match nonblank(opt_view(args.audience)) {
        Some(a) => "\nAudience: "@ + a,
        None => "\nAudience: developers who can read the source."@,
    };
    match nonblank_of(&args.audience) {
        Some(a) => {
            head.append("\nAudience: ");
            head.append(a.as_str());
        },
        None => {
            head.append("\nAudience: developers who can read the source.");
        },
    }
    assert(head@ =~= "Task: "@ + instruction@ + audience_line);
    push_optional(&mut head, "\nAuthor notes (follow them): ", &args.notes);
    Ok(
        Prompt {
            system: style_guide(),
            user: user_prompt(head.as_str(), "Source", body),
            max_tokens: clamp_tokens(args.max_tokens, 8192),
            temperature_bits: choose_temperature(args.temperature_bits, configured_temperature),
        },
    )
}

/// The `rewrite_prose` request for a payload `body`.
pub open spec fn rewrite_prose_spec(
    goal: Option<Seq<char>>,
    audience: Option<Seq<char>>,
    max_tokens: Option<u32>,
    temperature_bits: Option<u32>,
    body: Seq<char>,
    configured_temperature: u32,
) -> PromptSpec {
    let head = "Rewrite the text below."@ + optional_line("\nGoal: "@, goal) + optional_line(
        "\nAudience: "@,
        audience,
    );
    PromptSpec {
        system: rewrite_guide_text(),
        user: user_prompt_spec(head, "Text to rewrite"@, body),
        max_tokens: tokens_spec(max_tokens, 4096),
        temperature_bits: temperature_spec(temperature_bits, configured_temperature),
    }
}

/// The request `rewrite_prose` sends for `args`, whose payload resolved to
/// `body`.
pub fn rewrite_prose_prompt(args: &RewriteProseArgs, body: &str, configured_temperature: u32) -> (r:
    Prompt)
    ensures
        r@ == rewrite_prose_spec(
            opt_view(args.goal),
            opt_view(args.audience),
            args.max_tokens,
            args.temperature_bits,
            body@,
            configured_temperature,
        ),
        sends_requested_budget(args.max_tokens, 4096, r.max_tokens),
        sends_requested_temperature(args.temperature_bits, configured_temperature, r.temperature_bits),
{
    let mut head = String::from_str("Rewrite the text below.");
    push_optional(&mut head, "\nGoal: ", &args.goal);
    push_optional(&mut head, "\nAudience: ", &args.audience);
    Prompt {
        system: rewrite_guide(),
        user: user_prompt(head.as_str(), "Text to rewrite", body),
        max_tokens: clamp_tokens(args.max_tokens, 4096),
        temperature_bits: choose_temperature(args.temperature_bits, configured_temperature),
    }
}

/// The `critique_prose` request for a payload `body`: with a reference
/// source, the head asks for every factual claim to be verified and the
/// source follows the text, fenced the same way.
pub open spec fn critique_prose_spec(
    source: Option<Seq<char>>,
    max_tokens: Option<u32>,
    temperature_bits: Option<u32>,
    body: Seq<char>,
    configured_temperature: u32,
) -> PromptSpec {
    let head = "Review the text below."@;
    let user = match nonblank(source) {
        Some(src) => head
            + " The text makes factual claims; verify every one against the reference source."@
            + "\n\n"@ + fenced("Text to review"@, body) + "\n\n"@ + fenced(
            "Reference source"@,
            src,
        ),
        None => user_prompt_spec(head, "Text to review"@, body),
    };
    PromptSpec {
        system: critique_guide_text(),
        user,
        max_tokens: tokens_spec(max_tokens, 4096),
        temperature_bits: temperature_spec(temperature_bits, configured_temperature),
    }
}

/// The request `critique_prose` sends for `args`, whose payload resolved
/// to `body`.
pub fn critique_prose_prompt(args: &CritiqueProseArgs, body: &str, configured_temperature: u32) -> (r:
    Prompt)
    ensures
        r@ == critique_prose_spec(
            opt_view(args.source),
            args.max_tokens,
            args.temperature_bits,
            body@,
            configured_temperature,
        ),
        sends_requested_budget(args.max_tokens, 4096, r.max_tokens),
        sends_requested_temperature(args.temperature_bits, configured_temperature, r.temperature_bits),
{
    let user = match nonblank_of(&args.source) {
        Some(src) => {
            let mut u = String::from_str("Review the text below.");
            u.append(" The text makes factual claims; verify every one against the reference source.");
            u.append("\n\n");
            push_fenced(&mut u, "Text to review", body);
            u.append("\n\n");
            push_fenced(&mut u, "Reference source", src.as_str());
            u
        },
        None => user_prompt("Review the text below.", "Text to review", body),
    };
    Prompt {
        system: critique_guide(),
        user,
        max_tokens: clamp_tokens(args.max_tokens, 4096),
        temperature_bits: choose_temperature(args.temperature_bits, configured_temperature),
    }
}

/// The section override of a `compose` call: present only when the list
/// is given and not empty.
pub open spec fn sections_line(sections: Option<Seq<Seq<char>>>) -> Seq<char> {
    match sections {
        Some(list) => if list.len() > 0 {
            "\nSections (these override the kind's default sections; use exactly these, in this order): "@
                + seq_join(list, ", "@)
        } else {
            seq![]
        },
        None => seq![],
    }
}

/// The views of an optional list of strings.
pub open spec fn opt_strings_view(o: Option<Vec<String>>) -> Option<Seq<Seq<char>>> {
    match o {
        Some(v) => Some(strings_view(v@)),
        None => None,
    }
}

/// The `compose` request for `args` whose payload is `body`, or the refusal
/// of a missing or unknown kind.
pub open spec fn compose_spec(
    kind: Option<Seq<char>>,
    audience: Option<Seq<char>>,
    date: Option<Seq<char>>,
    author: Option<Seq<char>>,
    length: Option<Seq<char>>,
    sections: Option<Seq<Seq<char>>>,
    previous: Option<Seq<char>>,
    notes: Option<Seq<char>>,
    max_tokens: Option<u32>,
    temperature_bits: Option<u32>,
    body: Seq<char>,
    configured_temperature: u32,
) -> Result<PromptSpec, Seq<char>> {
    match nonblank(kind) {
        None => Err(
            "`kind` is required; expected one of: "@ + seq_join(strs_view(COMPOSE_KINDS@), ", "@),
        ),
        Some(k) => match composition_instruction(k) {
            None => Err(unknown_kind_message(k, strs_view(COMPOSE_KINDS@))),
            Some(instruction) => {
                let audience_line = match nonblank(audience) {
                    Some(a) => "\nAudience: "@ + a,
                    None => "\nAudience: the team and stakeholders named in the material."@,
                };
                let head = "Task: "@ + instruction + audience_line + optional_line(
                    "\nDate: "@,
                    date,
                ) + optional_line("\nAuthor: "@, author) + optional_line("\nLength: "@, length)
                    + sections_line(sections) + optional_line(
                    "\nAuthor notes (follow them): "@,
                    notes,
                );
                let user = match nonblank(previous) {
                    Some(prev) => head + "\n\n"@ + fenced("Material"@, body) + "\n\n"@ + fenced(
                        "Previous report"@,
                        prev,
                    ),
                    None => user_prompt_spec(head, "Material"@, body),
                };
                Ok(
                    PromptSpec {
                        system: compose_guide_text(),
                        user,
                        max_tokens: tokens_spec(max_tokens, 8192),
                        temperature_bits: temperature_spec(temperature_bits, configured_temperature),
                    },
                )
            },
        },
    }
}

/// The request `compose` sends for `args`, whose payload resolved to
/// `body`.
pub fn compose_prompt(args: &ComposeArgs, body: &str, configured_temperature: u32) -> (r: Result<
    Prompt,
    String,
>)
    ensures
        prompt_result_view(r) == compose_spec(
            opt_view(args.kind),
            opt_view(args.audience),
            opt_view(args.date),
            opt_view(args.author),
            opt_view(args.length),
            opt_strings_view(args.sections),
            opt_view(args.previous),
            opt_view(args.notes),
            args.max_tokens,
            args.temperature_bits,
            body@,
            configured_temperature,
        ),
        r matches Ok(p) ==> sends_requested_budget(args.max_tokens, 8192, p.max_tokens),
        r matches Ok(p) ==> sends_requested_temperature(
            args.temperature_bits,
            configured_temperature,
            p.temperature_bits,
        ),
{
    let kind = match nonblank_of(&args.kind) {
        Some(k) => k,
        None => {
            let mut msg = String::from_str("`kind` is required; expected one of: ");
            let list = join_strs(&COMPOSE_KINDS, ", ");
            msg.append(list.as_str());
            return Err(msg);
        },
    };
    let instruction = match compose_kind_instruction(kind.as_str()) {
        Some(i) => i,
        None => {
            return Err(unknown_kind(kind.as_str(), &COMPOSE_KINDS));
        },
    };
    let ghost k = kind@;
    assert(composition_instruction(k) == Some(instruction@));
    let mut head = String::from_str("Task: ");
    head.append(instruction);
    let ghost audience_line = match nonblank(opt_view(args.audience)) {
        Some(a) => "\nAudience: "@ + a,
        None => "\nAudience: the team and stakeholders named in the material."@,
    };
    match nonblank_of(&args.audience) {
        Some(a) => {
            head.append("\nAudience: ");
            head.append(a.as_str());
        },
        None => {
            head.append("\nAudience: the team and stakeholders named in the material.");
        },
    }
    assert(head@ =~= "Task: "@ + instruction@ + audience_line);
    push_optional(&mut head, "\nDate: ", &args.date);
    push_optional(&mut head, "\nAuthor: ", &args.author);
    push_optional(&mut head, "\nLength: ", &args.length);
    let ghost before_sections = head@;
    match &args.sections {
        Some(list) => {
            if list.len() > 0 {
                head.append(
                    "\nSections (these override the kind's default sections; use exactly these, in this order): ",
                );
                let joined = join_strings(list, ", ");
                head.append(joined.as_str());
            } else {
                assert(head@ =~= before_sections + Seq::<char>::empty());
            }
        },
        None => {
            assert(head@ =~= before_sections + Seq::<char>::empty());
        },
    }
    assert(head@ =~= before_sections + sections_line(opt_strings_view(args.sections)));
    push_optional(&mut head, "\nAuthor notes (follow them): ", &args.notes);
    let user = match nonblank_of(&args.previous) {
        Some(prev) => {
            let mut u = head;
            u.append("\n\n");
            push_fenced(&mut u, "Material", body);
            u.append("\n\n");
            push_fenced(&mut u, "Previous report", prev.as_str());
            u
        },
        None => user_prompt(head.as_str(), "Material", body),
    };
    Ok(
        Prompt {
            system: compose_guide(),
            user,
            max_tokens: clamp_tokens(args.max_tokens, 8192),
            temperature_bits: choose_temperature(args.temperature_bits, configured_temperature),
        },
    )
}

/// The payload of a tool call: the source text, or why it could not be had.
pub open spec fn payload_view(p: Result<String, String>) -> Result<Seq<char>, Seq<char>> {
    match p {
        Ok(b) => Ok(b@),
        Err(e) => Err(e@),
    }
}

/// The request `document_code` sends once its payload is resolved: a
/// payload refusal is answered first and as it stands, whatever the other
/// arguments hold, and no request is made; otherwise the request for the
/// payload text, or the refusal of an unknown kind.
pub fn document_code_request(
    args: &DocumentCodeArgs,
    payload: Result<String, String>,
    configured_temperature: u32,
) -> (r: Result<Prompt, String>)
    ensures
        prompt_result_view(r) == match payload_view(payload) {
            Err(e) => Err(e),
            Ok(body) => document_code_spec(
                opt_view(args.kind),
                opt_view(args.audience),
                opt_view(args.notes),
                args.max_tokens,
                args.temperature_bits,
                body,
                configured_temperature,
            ),
        },
{
    match payload {
        Err(e) => Err(e),
        Ok(body) => document_code_prompt(args, body.as_str(), configured_temperature),
    }
}

/// The request `rewrite_prose` sends once its payload is resolved: a
/// payload refusal is answered as it stands and no request is made.
pub fn rewrite_prose_request(
    args: &RewriteProseArgs,
    payload: Result<String, String>,
    configured_temperature: u32,
) -> (r: Result<Prompt, String>)
    ensures
        prompt_result_view(r) == match payload_view(payload) {
            Err(e) => Err(e),
            Ok(body) => Ok(
                rewrite_prose_spec(
                    opt_view(args.goal),
                    opt_view(args.audience),
                    args.max_tokens,
                    args.temperature_bits,
                    body,
                    configured_temperature,
                ),
            ),
        },
{
    match payload {
        Err(e) => Err(e),
        Ok(body) => Ok(rewrite_prose_prompt(args, body.as_str(), configured_temperature)),
    }
}

/// The request `critique_prose` sends once its payload is resolved: a
/// payload refusal is answered as it stands and no request is made.
pub fn critique_prose_request(
    args: &CritiqueProseArgs,
    payload: Result<String, String>,
    configured_temperature: u32,
) -> (r: Result<Prompt, String>)
    ensures
        prompt_result_view(r) == match payload_view(payload) {
            Err(e) => Err(e),
            Ok(body) => Ok(
                critique_prose_spec(
                    opt_view(args.source),
                    args.max_tokens,
                    args.temperature_bits,
                    body,
                    configured_temperature,
                ),
            ),
        },
{
    match payload {
        Err(e) => Err(e),
        Ok(body) => Ok(critique_prose_prompt(args, body.as_str(), configured_temperature)),
    }
}

/// The request `compose` sends once its payload is resolved. The payload
/// is checked before the kind: a payload refusal is answered as it stands,
/// whatever `kind`, `sections`, `previous`, `max_tokens` and `temperature`
/// hold, and no request is made; otherwise the request for the material,
/// or the refusal of a missing, blank or unknown kind.
pub fn compose_request(args: &ComposeArgs, payload: Result<String, String>, configured_temperature: u32) -> (r:
    Result<Prompt, String>)
    ensures
        prompt_result_view(r) == match payload_view(payload) {
            Err(e) => Err(e),
            Ok(body) => compose_spec(
                opt_view(args.kind),
                opt_view(args.audience),
                opt_view(args.date),
                opt_view(args.author),
                opt_view(args.length),
                opt_strings_view(args.sections),
                opt_view(args.previous),
                opt_view(args.notes),
                args.max_tokens,
                args.temperature_bits,
                body,
                configured_temperature,
            ),
        },
{
    match payload {
        Err(e) => Err(e),
        Ok(body) => compose_prompt(args, body.as_str(), configured_temperature),
    }
}

/// The answer text for a completion: a completion cut at `max_tokens`
/// carries a visible marker, so the caller raises `max_tokens` or shrinks
/// the source rather than shipping half a document.
pub open spec fn render_spec(text: Seq<char>, truncated: bool, max_tokens: u32) -> Seq<char> {
    if truncated {
        text + "\n\n[ghostwriter: output truncated at max_tokens="@ + decimal(max_tokens as nat)
            + " — re-call with a larger max_tokens or a smaller source]"@
    } else {
        text
    }
}

/// The text a tool answers with for `completion`, requested with
/// `max_tokens`.
pub fn render_text(completion: Completion, max_tokens: u32) -> (r: String)
    ensures
        r@ == render_spec(completion.text@, completion.truncated, max_tokens),
{
    if completion.truncated {
        let mut text = completion.text;
        text.append("\n\n[ghostwriter: output truncated at max_tokens=");
        push_decimal(&mut text, max_tokens as u64);
        text.append(" — re-call with a larger max_tokens or a smaller source]");
        text
    } else {
        completion.text
    }
}

/// What a writing tool answers: a text, flagged as an error or not. A tool
/// call always ends in such an answer; failures are reported in it, never
/// as a failure of the call itself.
#[derive(Debug)]
pub struct ToolAnswer {
    /// The text reports a refusal or a failure.
    pub is_error: bool,
    /// The rendered completion, or the refusal or failure message.
    pub text: String,
}

/// The view of what the model server gave for a request, if one was sent.
pub open spec fn completion_view(c: Option<Result<Completion, String>>) -> Option<
    Result<CompletionSpec, Seq<char>>,
> {
    match c {
        None => None,
        Some(Ok(c)) => Some(Ok(c@)),
        Some(Err(e)) => Some(Err(e@)),
    }
}

/// The answer to a tool call whose request resolved to `request` and whose
/// completion, once the request was sent, gave `completion`: a refused
/// request is answered with its refusal as an error; a failed completion
/// with its message as an error; a finished one with its rendered text.
pub open spec fn answer_spec(
    request: Result<PromptSpec, Seq<char>>,
    completion: Option<Result<CompletionSpec, Seq<char>>>,
) -> (bool, Seq<char>) {
    match request {
        Err(e) => (true, e),
        Ok(p) => match completion {
            Some(Ok(c)) => (false, render_spec(c.text, c.truncated, p.max_tokens)),
            Some(Err(e)) => (true, e),
            None => (true, seq![]),
        },
    }
}

/// The answer of a tool call: `request` is what the arguments resolved to,
/// and `completion` what the model server gave for it, present exactly
/// when the request was accepted (a refused request is never sent).
pub fn tool_answer(request: Result<Prompt, String>, completion: Option<Result<Completion, String>>) -> (r:
    ToolAnswer)
    requires
        request is Ok <==> completion is Some,
    ensures
        (r.is_error, r.text@) == answer_spec(prompt_result_view(request), completion_view(completion)),
{
    match request {
        Err(e) => ToolAnswer { is_error: true, text: e },
        Ok(prompt) => match completion {
            Some(Ok(c)) => ToolAnswer { is_error: false, text: render_text(c, prompt.max_tokens) },
            Some(Err(e)) => ToolAnswer { is_error: true, text: e },
            None => ToolAnswer { is_error: true, text: String::new() },
        },
    }
}

/// A tool call answers with an error exactly when its arguments were
/// refused or the completion failed; a refused request needs no
/// completion, and its answer is the refusal whatever the server would
/// have said.
pub proof fn tool_errors_are_refusals_or_failed_completions(
    request: Result<PromptSpec, Seq<char>>,
    completion: Option<Result<CompletionSpec, Seq<char>>>,
    other: Option<Result<CompletionSpec, Seq<char>>>,
)
    requires
        request is Ok <==> completion is Some,
    ensures
        answer_spec(request, completion).0 <==> (request is Err || completion matches Some(Err(_))),
        request is Err ==> answer_spec(request, completion) == answer_spec(request, other),
        request matches Err(e) ==> answer_spec(request, completion).1 == e,
{
}

/// What `model_health` reports about the writing-model server.
#[derive(Debug)]
pub enum Health {
    /// The server listed its models.
    Reachable {
        /// The served model ids.
        served: Vec<String>,
        /// Whether the configured model is among them.
        model_present: bool,
    },
    /// Listing the models failed.
    Unreachable {
        /// Why.
        error: String,
    },
}

/// The health report for the configured `model`, given what listing the
/// served models gave.
pub fn health(model: &str, listed: Result<Vec<String>, String>) -> (r: Health)
    ensures
        match listed {
            Ok(served) => r matches Health::Reachable { served: s, model_present } && s == served
                && model_present == strings_view(served@).contains(model@),
            Err(e) => r matches Health::Unreachable { error } && error == e,
        },
{
    match listed {
        Ok(served) => {
            let mut present = false;
            let mut i: usize = 0;
            while i < served.len()
                invariant
                    i <= served@.len(),
                    present == exists|k: int| 0 <= k < i && strings_view(served@)[k] == model@,
                decreases served@.len() - i,
            {
                assert(strings_view(served@)[i as int] == served@[i as int]@);
                if crate::text::str_eq(served[i].as_str(), model) {
                    present = true;
                }
                proof {
                    if !present {
                        assert forall|k: int| 0 <= k < i + 1 implies strings_view(served@)[k]
                            != model@ by {
                            if k < i {
                                assert(!(0 <= k < i && strings_view(served@)[k] == model@));
                            }
                        }
                    }
                }
                i = i + 1;
            }
            proof {
                if strings_view(served@).contains(model@) {
                    let k = choose|k: int|
                        0 <= k < strings_view(served@).len() && strings_view(served@)[k] == model@;
                    assert(0 <= k < i);
                }
            }
            Health::Reachable { served, model_present: present }
        },
        Err(error) => Health::Unreachable { error },
    }
}

/// Every writing tool enforces the one house style: whatever request
/// `document_code`, `rewrite_prose`, `critique_prose` or `compose` sends,
/// its system prompt states the whole banned-vocabulary list.
pub proof fn every_tool_prompt_bans_the_vocabulary(
    kind: Option<Seq<char>>,
    audience: Option<Seq<char>>,
    date: Option<Seq<char>>,
    author: Option<Seq<char>>,
    length: Option<Seq<char>>,
    sections: Option<Seq<Seq<char>>>,
    previous: Option<Seq<char>>,
    notes: Option<Seq<char>>,
    goal: Option<Seq<char>>,
    source: Option<Seq<char>>,
    max_tokens: Option<u32>,
    temperature_bits: Option<u32>,
    body: Seq<char>,
    configured_temperature: u32,
)
    ensures
        document_code_spec(kind, audience, notes, max_tokens, temperature_bits, body, configured_temperature)
            matches Ok(p) ==> contains_seq(p.system, BANNED_VOCAB@),
        contains_seq(
            rewrite_prose_spec(goal, audience, max_tokens, temperature_bits, body, configured_temperature).system,
            BANNED_VOCAB@,
        ),
        contains_seq(
            critique_prose_spec(source, max_tokens, temperature_bits, body, configured_temperature).system,
            BANNED_VOCAB@,
        ),
        compose_spec(
            kind,
            audience,
            date,
            author,
            length,
            sections,
            previous,
            notes,
            max_tokens,
            temperature_bits,
            body,
            configured_temperature,
        ) matches Ok(p) ==> contains_seq(p.system, BANNED_VOCAB@),
{
    lemma_contains_self(BANNED_VOCAB@);
    banned_vocab_in_every_guide(BANNED_VOCAB@);
}

/// Every tool sends the budget and the temperature it was asked for:
/// `rewrite_prose` and `critique_prose` always, `document_code` and
/// `compose` whenever they build a request. A requested budget inside
/// `1..=MAX_TOKENS_CAP` goes out as it is (the defaults are 4096 for the
/// prose tools and 8192 for the drafting ones), and a requested
/// temperature inside `0.0..=2.0` goes out as it is.
pub proof fn every_tool_sends_the_requested_budget(
    kind: Option<Seq<char>>,
    audience: Option<Seq<char>>,
    notes: Option<Seq<char>>,
    goal: Option<Seq<char>>,
    source: Option<Seq<char>>,
    date: Option<Seq<char>>,
    author: Option<Seq<char>>,
    length: Option<Seq<char>>,
    sections: Option<Seq<Seq<char>>>,
    previous: Option<Seq<char>>,
    max_tokens: Option<u32>,
    temperature_bits: Option<u32>,
    body: Seq<char>,
    configured_temperature: u32,
)
    ensures
        sends_requested_budget(
            max_tokens,
            4096,
            rewrite_prose_spec(goal, audience, max_tokens, temperature_bits, body, configured_temperature).max_tokens,
        ),
        sends_requested_temperature(
            temperature_bits,
            configured_temperature,
            rewrite_prose_spec(goal, audience, max_tokens, temperature_bits, body, configured_temperature).temperature_bits,
        ),
        sends_requested_budget(
            max_tokens,
            4096,
            critique_prose_spec(source, max_tokens, temperature_bits, body, configured_temperature).max_tokens,
        ),
        sends_requested_temperature(
            temperature_bits,
            configured_temperature,
            critique_prose_spec(source, max_tokens, temperature_bits, body, configured_temperature).temperature_bits,
        ),
        document_code_spec(kind, audience, notes, max_tokens, temperature_bits, body, configured_temperature)
            matches Ok(p) ==> sends_requested_budget(max_tokens, 8192, p.max_tokens)
            && sends_requested_temperature(temperature_bits, configured_temperature, p.temperature_bits),
        compose_spec(
            kind,
            audience,
            date,
            author,
            length,
            sections,
            previous,
            notes,
            max_tokens,
            temperature_bits,
            body,
            configured_temperature,
        ) matches Ok(p) ==> sends_requested_budget(max_tokens, 8192, p.max_tokens)
            && sends_requested_temperature(temperature_bits, configured_temperature, p.temperature_bits),
{
}

/// `a` followed by anything starts with `a`.
proof fn lemma_starts_with_concat(a: Seq<char>, b: Seq<char>)
    ensures
        seq_starts_with(a + b, a),
{
    assert((a + b).subrange(0, a.len() as int) =~= a);
}

/// A prefix of a prefix is a prefix.
proof fn lemma_starts_with_trans(s: Seq<char>, p: Seq<char>, q: Seq<char>)
    requires
        seq_starts_with(s, p),
        seq_starts_with(p, q),
    ensures
        seq_starts_with(s, q),
{
    assert(s.subrange(0, q.len() as int) =~= p.subrange(0, q.len() as int));
}

/// `document_code` asks the model for the document its kind names: when
/// the kind (or, with none given, `api`) has an instruction, a request is
/// built, and its user prompt opens with `Task: ` and that instruction.
/// Every other kind is refused and no request is built.
pub proof fn document_code_asks_for_its_kind(
    kind: Option<Seq<char>>,
    audience: Option<Seq<char>>,
    notes: Option<Seq<char>>,
    max_tokens: Option<u32>,
    temperature_bits: Option<u32>,
    body: Seq<char>,
    configured_temperature: u32,
)
    ensures
        kind is None ==> document_kind(kind) == "api"@,
        document_instruction(document_kind(kind)) is None ==> document_code_spec(
            kind,
            audience,
            notes,
            max_tokens,
            temperature_bits,
            body,
            configured_temperature,
        ) is Err,
        document_instruction(document_kind(kind)) matches Some(i) ==> (document_code_spec(
            kind,
            audience,
            notes,
            max_tokens,
            temperature_bits,
            body,
            configured_temperature,
        ) matches Ok(p) && seq_starts_with(p.user, "Task: "@ + i)),
{
    if let Some(i) = document_instruction(document_kind(kind)) {
        let r = document_code_spec(kind, audience, notes, max_tokens, temperature_bits, body, configured_temperature);
        let p = r->Ok_0;
        let task = "Task: "@ + i;
        let audience_line = match nonblank(audience) {
            Some(a) => "\nAudience: "@ + a,
            None => "\nAudience: developers who can read the source."@,
        };
        let head = task + audience_line + optional_line("\nAuthor notes (follow them): "@, notes);
        assert(head == task + (audience_line + optional_line("\nAuthor notes (follow them): "@, notes)));
        lemma_starts_with_concat(task, audience_line + optional_line("\nAuthor notes (follow them): "@, notes));
        lemma_starts_with_concat(head, "\n\n"@ + fenced("Source"@, body));
        assert(p.user == head + ("\n\n"@ + fenced("Source"@, body)));
        lemma_starts_with_trans(p.user, head, task);
    }
}

/// `compose` asks the model for the document its kind names: a given,
/// nonblank kind with an instruction yields a request whose user prompt
/// opens with `Task: ` and that instruction; a missing, blank or unknown
/// kind is refused and no request is built.
pub proof fn compose_asks_for_its_kind(
    kind: Option<Seq<char>>,
    audience: Option<Seq<char>>,
    date: Option<Seq<char>>,
    author: Option<Seq<char>>,
    length: Option<Seq<char>>,
    sections: Option<Seq<Seq<char>>>,
    previous: Option<Seq<char>>,
    notes: Option<Seq<char>>,
    max_tokens: Option<u32>,
    temperature_bits: Option<u32>,
    body: Seq<char>,
    configured_temperature: u32,
)
    ensures
        nonblank(kind) is None ==> compose_spec(
            kind,
            audience,
            date,
            author,
            length,
            sections,
            previous,
            notes,
            max_tokens,
            temperature_bits,
            body,
            configured_temperature,
        ) is Err,
        nonblank(kind) matches Some(k) ==> (composition_instruction(k) is None ==> compose_spec(
            kind,
            audience,
            date,
            author,
            length,
            sections,
            previous,
            notes,
            max_tokens,
            temperature_bits,
            body,
            configured_temperature,
        ) is Err),
        nonblank(kind) matches Some(k) ==> (composition_instruction(k) matches Some(i) ==> (compose_spec(
            kind,
            audience,
            date,
            author,
            length,
            sections,
            previous,
            notes,
            max_tokens,
            temperature_bits,
            body,
            configured_temperature,
        ) matches Ok(p) && seq_starts_with(p.user, "Task: "@ + i))),
{
    if let Some(k) = nonblank(kind) {
        if let Some(i) = composition_instruction(k) {
            let r = compose_spec(
                kind,
                audience,
                date,
                author,
                length,
                sections,
                previous,
                notes,
                max_tokens,
                temperature_bits,
                body,
                configured_temperature,
            );
            let p = r->Ok_0;
            let task = "Task: "@ + i;
            let audience_line = match nonblank(audience) {
                Some(a) => "\nAudience: "@ + a,
                None => "\nAudience: the team and stakeholders named in the material."@,
            };
            let rest = audience_line + optional_line("\nDate: "@, date) + optional_line("\nAuthor: "@, author)
                + optional_line("\nLength: "@, length) + sections_line(sections) + optional_line(
                "\nAuthor notes (follow them): "@,
                notes,
            );
            let head = "Task: "@ + i + audience_line + optional_line("\nDate: "@, date) + optional_line(
                "\nAuthor: "@,
                author,
            ) + optional_line("\nLength: "@, length) + sections_line(sections) + optional_line(
                "\nAuthor notes (follow them): "@,
                notes,
            );
            assert(head =~= task + rest);
            lemma_starts_with_concat(task, rest);
            let tail = match nonblank(previous) {
                Some(prev) => "\n\n"@ + fenced("Material"@, body) + "\n\n"@ + fenced("Previous report"@, prev),
                None => "\n\n"@ + fenced("Material"@, body),
            };
            assert(p.user =~= head + tail);
            lemma_starts_with_concat(head, tail);
            lemma_starts_with_trans(p.user, head, task);
        }
    }
}

/// A file payload is the file's text: valid UTF-8 up to
/// `MAX_SOURCE_BYTES` comes through exactly; a longer file is sent as the
/// text of its first `MAX_SOURCE_BYTES` bytes followed by a marker, never
/// cut silently.
pub proof fn file_payload_is_the_file_text(bytes: Seq<u8>)
    ensures
        bytes.len() <= MAX_SOURCE_BYTES && valid_utf8(bytes) ==> file_text_spec(bytes) == decode_utf8(bytes),
        bytes.len() > MAX_SOURCE_BYTES ==> seq_starts_with(
            file_text_spec(bytes),
            lossy_text(bytes.take(MAX_SOURCE_BYTES as int)),
        ),
        bytes.len() > MAX_SOURCE_BYTES ==> file_text_spec(bytes).len() > lossy_text(
            bytes.take(MAX_SOURCE_BYTES as int),
        ).len(),
{
    if bytes.len() > MAX_SOURCE_BYTES {
        let head = lossy_text(bytes.take(MAX_SOURCE_BYTES as int));
        let marker = "\n\n[ghostwriter: source truncated at "@ + decimal(MAX_SOURCE_BYTES as nat) + " bytes of "@
            + decimal(bytes.len()) + "; the rest was not sent to the model]\n"@;
        reveal_strlit("\n\n[ghostwriter: source truncated at ");
        assert(file_text_spec(bytes) =~= head + marker);
        lemma_starts_with_concat(head, marker);
    }
}

/// A completion is answered as it came, unless the server cut it at
/// `max_tokens`: then the text comes first and a marker follows, so a cut
/// answer never passes for a whole one.
pub proof fn truncated_output_is_marked(text: Seq<char>, max_tokens: u32)
    ensures
        render_spec(text, false, max_tokens) == text,
        seq_starts_with(render_spec(text, true, max_tokens), text),
        render_spec(text, true, max_tokens).len() > text.len(),
{
    let marker = "\n\n[ghostwriter: output truncated at max_tokens="@ + decimal(max_tokens as nat)
        + " — re-call with a larger max_tokens or a smaller source]"@;
    reveal_strlit("\n\n[ghostwriter: output truncated at max_tokens=");
    assert(render_spec(text, true, max_tokens) =~= text + marker);
    lemma_starts_with_concat(text, marker);
}

} // verus!
