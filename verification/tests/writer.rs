use ghostwriter::client::Completion;
use ghostwriter::config::DEFAULT_TEMPERATURE_BITS;
use ghostwriter::prompts::{BANNED_VOCAB, compose_guide, critique_guide, rewrite_guide, style_guide};
use ghostwriter::writer::{
    choose_temperature, clamp_tokens, compose_prompt, compose_request, critique_prose_prompt,
    critique_prose_request, document_code_prompt, document_code_request, file_text, health,
    read_failure, render_text, rewrite_prose_prompt, rewrite_prose_request, source_choice,
    tool_answer,
    user_prompt, ComposeArgs, CritiqueProseArgs, DocumentCodeArgs, Health, RewriteProseArgs,
    Source,
};

fn doc_args(code: Option<&str>, path: Option<&str>, kind: Option<&str>) -> DocumentCodeArgs {
    DocumentCodeArgs {
        code: code.map(String::from),
        path: path.map(String::from),
        kind: kind.map(String::from),
        audience: None,
        notes: None,
        max_tokens: None,
        temperature_bits: None,
    }
}

fn compose_args(material: Option<&str>, kind: Option<&str>) -> ComposeArgs {
    ComposeArgs {
        material: material.map(String::from),
        path: None,
        kind: kind.map(String::from),
        audience: None,
        date: None,
        author: None,
        length: None,
        sections: None,
        previous: None,
        notes: None,
        max_tokens: None,
        temperature_bits: None,
    }
}

#[test]
fn missing_source_is_an_error_result() {
    let err = source_choice(&None, &None).unwrap_err();
    assert!(err.contains("provide"));
    let err = source_choice(&Some("   ".into()), &Some("\n".into())).unwrap_err();
    assert_eq!(err, "provide the inline argument or `path`");
}

#[test]
fn both_sources_rejected() {
    let a = doc_args(Some("fn main() {}"), Some("/tmp/x.rs"), None);
    let err = source_choice(&a.code, &a.path).unwrap_err();
    assert!(err.contains("not both"));
}

#[test]
fn one_source_is_trimmed_and_taken() {
    match source_choice(&Some("  fn main() {}\n".into()), &Some(" ".into())).unwrap() {
        Source::Inline(t) => assert_eq!(t, "fn main() {}"),
        other => panic!("unexpected {other:?}"),
    }
    match source_choice(&None, &Some(" /tmp/x.rs ".into())).unwrap() {
        Source::File(p) => assert_eq!(p, "/tmp/x.rs"),
        other => panic!("unexpected {other:?}"),
    }
}

#[test]
fn unknown_kind_lists_valid_kinds() {
    let a = doc_args(Some("fn main() {}"), None, Some("poem"));
    let err = document_code_prompt(&a, "fn main() {}", DEFAULT_TEMPERATURE_BITS).unwrap_err();
    assert!(err.contains("changelog"));
    assert_eq!(
        err,
        "unknown kind \"poem\"; expected one of: overview, api, readme, function, cli, config, changelog"
    );
}

#[test]
fn document_code_builds_the_prompt() {
    let mut a = doc_args(Some("fn f() {}"), None, None);
    a.notes = Some("  keep it short ".into());
    a.max_tokens = Some(100_000);
    a.temperature_bits = Some((-1.0f32).to_bits());
    let p = document_code_prompt(&a, "fn f() {}", DEFAULT_TEMPERATURE_BITS).unwrap();
    assert_eq!(p.system, style_guide());
    let api = ghostwriter::prompts::kind_instruction("api").unwrap();
    assert_eq!(
        p.user,
        format!(
            "Task: {api}\nAudience: developers who can read the source.\nAuthor notes (follow them): keep it short\n\nSource:\n````text\nfn f() {{}}\n````"
        )
    );
    assert_eq!(p.max_tokens, 32768);
    assert_eq!(f32::from_bits(p.temperature_bits), 0.0);
    let mut a = doc_args(Some("x"), None, Some(" cli "));
    a.audience = Some("operators".into());
    let p = document_code_prompt(&a, "x", DEFAULT_TEMPERATURE_BITS).unwrap();
    assert!(p.user.contains("\nAudience: operators\n\nSource:"));
    assert_eq!(p.max_tokens, 8192);
    assert_eq!(p.temperature_bits, DEFAULT_TEMPERATURE_BITS);
    // A blank kind is not defaulted: it is an unknown kind.
    let a = doc_args(Some("x"), None, Some("  "));
    assert!(document_code_prompt(&a, "x", DEFAULT_TEMPERATURE_BITS).unwrap_err().starts_with("unknown kind \"\""));
}

#[test]
fn rewrite_prose_builds_the_prompt() {
    let a = RewriteProseArgs {
        text: Some("t".into()),
        path: None,
        goal: Some("tighten".into()),
        audience: Some(" ".into()),
        max_tokens: Some(0),
        temperature_bits: Some(1.5f32.to_bits()),
    };
    let p = rewrite_prose_prompt(&a, "Some text.", DEFAULT_TEMPERATURE_BITS);
    assert_eq!(p.system, rewrite_guide());
    assert_eq!(
        p.user,
        "Rewrite the text below.\nGoal: tighten\n\nText to rewrite:\n````text\nSome text.\n````"
    );
    assert_eq!(p.max_tokens, 1);
    assert_eq!(f32::from_bits(p.temperature_bits), 1.5);
}

#[test]
fn critique_prose_with_and_without_source() {
    let mut a = CritiqueProseArgs {
        text: Some("t".into()),
        path: None,
        source: None,
        max_tokens: None,
        temperature_bits: None,
    };
    let p = critique_prose_prompt(&a, "Claim.", DEFAULT_TEMPERATURE_BITS);
    assert_eq!(p.system, critique_guide());
    assert_eq!(p.user, "Review the text below.\n\nText to review:\n````text\nClaim.\n````");
    assert_eq!(p.max_tokens, 4096);
    a.source = Some(" the facts ".into());
    let p = critique_prose_prompt(&a, "Claim.", DEFAULT_TEMPERATURE_BITS);
    assert_eq!(
        p.user,
        "Review the text below. The text makes factual claims; verify every one against the reference source.\n\nText to review:\n````text\nClaim.\n````\n\nReference source:\n````text\nthe facts\n````"
    );
}

#[test]
fn compose_requires_material() {
    let a = compose_args(None, Some("standup"));
    let err = source_choice(&a.material, &a.path).unwrap_err();
    assert!(err.contains("provide"));
}

#[test]
fn compose_unknown_kind_lists_valid_kinds() {
    let a = compose_args(Some("- fixed the login bug"), Some("sonnet"));
    let err = compose_prompt(&a, "- fixed the login bug", DEFAULT_TEMPERATURE_BITS).unwrap_err();
    assert!(err.contains("announcement"));
    assert_eq!(
        err,
        "unknown kind \"sonnet\"; expected one of: standup, prd, one-pager, announcement, summary, release-notes, postmortem, weekly-status, meeting-notes"
    );
}

#[test]
fn compose_without_kind_is_an_error_result() {
    let a = compose_args(Some("- fixed the login bug"), None);
    let err = compose_prompt(&a, "- fixed the login bug", DEFAULT_TEMPERATURE_BITS).unwrap_err();
    assert!(err.contains("`kind` is required"));
    let a = compose_args(Some("x"), Some("   "));
    assert!(compose_prompt(&a, "x", DEFAULT_TEMPERATURE_BITS).unwrap_err().starts_with("`kind` is required; expected one of: standup, prd,"));
}

#[test]
fn compose_builds_the_prompt() {
    let mut a = compose_args(Some("m"), Some(" standup "));
    a.date = Some("2026-09-21".into());
    a.author = Some("Ada".into());
    a.length = Some("".into());
    a.sections = Some(vec!["Yesterday".into(), "Today".into(), "Blockers".into()]);
    a.notes = Some("no names".into());
    a.previous = Some(" old report ".into());
    let p = compose_prompt(&a, "- did things", DEFAULT_TEMPERATURE_BITS).unwrap();
    assert_eq!(p.system, compose_guide());
    let standup = ghostwriter::prompts::compose_kind_instruction("standup").unwrap();
    assert_eq!(
        p.user,
        format!(
            "Task: {standup}\nAudience: the team and stakeholders named in the material.\nDate: 2026-09-21\nAuthor: Ada\nSections (these override the kind's default sections; use exactly these, in this order): Yesterday, Today, Blockers\nAuthor notes (follow them): no names\n\nMaterial:\n````text\n- did things\n````\n\nPrevious report:\n````text\nold report\n````"
        )
    );
    assert_eq!(p.max_tokens, 8192);
    a.sections = Some(vec![]);
    a.previous = None;
    let p = compose_prompt(&a, "b", DEFAULT_TEMPERATURE_BITS).unwrap();
    assert!(!p.user.contains("Sections"));
    assert!(p.user.ends_with("\n\nMaterial:\n````text\nb\n````"));
}

#[test]
fn source_reads_files_with_cap() {
    assert_eq!(file_text(b"fn main() {}"), "fn main() {}");
    assert!(read_failure("/tmp/nope", "No such file or directory (os error 2)").contains("reading"));
    assert_eq!(read_failure("/p", "denied"), "reading /p failed: denied");
    let exact = vec![b'a'; 400_000];
    assert_eq!(file_text(&exact).len(), 400_000);
    let big = vec![b'a'; 400_005];
    let text = file_text(&big);
    assert!(text.starts_with(&"a".repeat(400_000)));
    assert!(text.ends_with("\n\n[ghostwriter: source truncated at 400000 bytes of 400005; the rest was not sent to the model]\n"));
    assert_eq!(file_text(&[0x66, 0xFF, 0x6F]), "f\u{FFFD}o");
}

#[test]
fn render_marks_truncated_output() {
    let t = render_text(Completion { text: "half".into(), truncated: true }, 4096);
    assert_eq!(
        t,
        "half\n\n[ghostwriter: output truncated at max_tokens=4096 — re-call with a larger max_tokens or a smaller source]"
    );
    let t = render_text(Completion { text: "whole".into(), truncated: false }, 4096);
    assert_eq!(t, "whole");
}

#[test]
fn budgets_and_temperatures() {
    assert_eq!(clamp_tokens(None, 8192), 8192);
    assert_eq!(clamp_tokens(Some(0), 8192), 1);
    assert_eq!(clamp_tokens(Some(40_000), 8192), 32768);
    assert_eq!(clamp_tokens(Some(77), 8192), 77);
    assert_eq!(choose_temperature(None, 0.7f32.to_bits()), 0.7f32.to_bits());
    assert_eq!(choose_temperature(Some(3.0f32.to_bits()), 0.7f32.to_bits()), 2.0f32.to_bits());
    assert_eq!(user_prompt("H", "L", "B"), "H\n\nL:\n````text\nB\n````");
}

#[test]
fn health_reports_model_presence() {
    match health("m", Ok(vec!["a".into(), "m".into()])) {
        Health::Reachable { served, model_present } => {
            assert_eq!(served.len(), 2);
            assert!(model_present);
        }
        other => panic!("unexpected {other:?}"),
    }
    match health("m", Ok(vec!["a".into()])) {
        Health::Reachable { model_present, .. } => assert!(!model_present),
        other => panic!("unexpected {other:?}"),
    }
    match health("m", Err("down".into())) {
        Health::Unreachable { error } => assert_eq!(error, "down"),
        other => panic!("unexpected {other:?}"),
    }
}

/// Every writing tool's system prompt carries the whole banned list.
#[test]
fn every_tool_prompt_bans_the_vocabulary() {
    let d = document_code_prompt(&doc_args(Some("x"), None, Some("readme")), "x", DEFAULT_TEMPERATURE_BITS).unwrap();
    let r = rewrite_prose_prompt(
        &RewriteProseArgs { text: Some("x".into()), path: None, goal: None, audience: None, max_tokens: None, temperature_bits: None },
        "x",
        DEFAULT_TEMPERATURE_BITS,
    );
    let c = critique_prose_prompt(
        &CritiqueProseArgs { text: Some("x".into()), path: None, source: None, max_tokens: None, temperature_bits: None },
        "x",
        DEFAULT_TEMPERATURE_BITS,
    );
    let k = compose_prompt(&compose_args(Some("x"), Some("prd")), "x", DEFAULT_TEMPERATURE_BITS).unwrap();
    for p in [d, r, c, k] {
        assert!(p.system.contains(BANNED_VOCAB));
    }
}

/// The payload is checked before the kind: a payload refusal comes back as
/// it stands, whatever the kind holds, and no request is built.
#[test]
fn payload_refusal_comes_before_the_kind() {
    let refusal = "provide the inline argument or `path`".to_string();
    for kind in [None, Some("   "), Some("sonnet"), Some("standup")] {
        let a = compose_args(None, kind);
        let r = compose_request(&a, Err(refusal.clone()), DEFAULT_TEMPERATURE_BITS);
        assert_eq!(r.unwrap_err(), refusal);
    }
    let d = doc_args(None, None, Some("sonnet"));
    assert_eq!(document_code_request(&d, Err("reading f failed: gone".into()), 0).unwrap_err(), "reading f failed: gone");
    let a = compose_args(Some("x"), Some("sonnet"));
    assert!(compose_request(&a, Ok("x".into()), 0).unwrap_err().starts_with("unknown kind \"sonnet\""));
    let a = compose_args(Some("- shipped"), Some("standup"));
    let via_request = compose_request(&a, Ok("- shipped".into()), DEFAULT_TEMPERATURE_BITS).unwrap();
    let direct = compose_prompt(&a, "- shipped", DEFAULT_TEMPERATURE_BITS).unwrap();
    assert_eq!(via_request.user, direct.user);
    assert_eq!(via_request.system, direct.system);
}

#[test]
fn prose_requests_pass_refusals_through() {
    let r = RewriteProseArgs { text: None, path: None, goal: None, audience: None, max_tokens: None, temperature_bits: None };
    assert_eq!(rewrite_prose_request(&r, Err("no".into()), 0).unwrap_err(), "no");
    let p = rewrite_prose_request(&r, Ok("Some text.".into()), 0).unwrap();
    assert_eq!(p.user, rewrite_prose_prompt(&r, "Some text.", 0).user);
    let c = CritiqueProseArgs { text: None, path: None, source: None, max_tokens: None, temperature_bits: None };
    assert_eq!(critique_prose_request(&c, Err("no".into()), 0).unwrap_err(), "no");
    let p = critique_prose_request(&c, Ok("Some text.".into()), 0).unwrap();
    assert_eq!(p.user, critique_prose_prompt(&c, "Some text.", 0).user);
}

/// A tool call answers with an error exactly when the arguments were
/// refused or the completion failed.
#[test]
fn tool_answers_flag_refusals_and_failures() {
    let a = tool_answer(Err("`kind` is required".into()), None);
    assert!(a.is_error);
    assert_eq!(a.text, "`kind` is required");
    let prompt = || compose_prompt(&compose_args(Some("- shipped"), Some("standup")), "- shipped", 0).unwrap();
    let a = tool_answer(Ok(prompt()), Some(Err("HTTP 400 from u: bad".into())));
    assert!(a.is_error);
    assert_eq!(a.text, "HTTP 400 from u: bad");
    let done = Completion { text: "Done: shipped.".into(), truncated: false };
    let a = tool_answer(Ok(prompt()), Some(Ok(done)));
    assert!(!a.is_error);
    assert_eq!(a.text, "Done: shipped.");
    let cut = Completion { text: "Done:".into(), truncated: true };
    let a = tool_answer(Ok(prompt()), Some(Ok(cut)));
    assert!(!a.is_error);
    assert!(a.text.starts_with("Done:\n\n[ghostwriter: output truncated at max_tokens=8192"), "{}", a.text);
}
