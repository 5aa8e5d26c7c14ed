use ghostwriter::prompts::{
    ai_tells, compose_guide, compose_kind_instruction, critique_guide, kind_instruction,
    rewrite_guide, style_guide, BANNED_VOCAB, COMPOSE_KINDS, DOCUMENT_KINDS,
};

/// The vocabulary ban is one shared list: every banned word appears in
/// every guide that enforces the ban.
#[test]
fn banned_vocabulary_is_identical_across_guides() {
    let style = style_guide();
    let compose = compose_guide();
    let tells = ai_tells();
    for token in BANNED_VOCAB.split(", ") {
        let word = token.trim_end_matches('.');
        assert!(style.contains(word), "{word} missing from STYLE_GUIDE");
        assert!(compose.contains(word), "{word} missing from COMPOSE_GUIDE");
        assert!(tells.contains(word), "{word} missing from AI_TELLS");
    }
}

/// Rewrite removes and critique flags the same pattern taxonomy: both
/// guides carry the shared block verbatim.
#[test]
fn ai_tells_block_is_shared_by_rewrite_and_critique() {
    let tells = ai_tells();
    let tells = tells.trim();
    assert!(
        rewrite_guide().contains(tells),
        "REWRITE_GUIDE lacks the shared AI-tells block"
    );
    assert!(
        critique_guide().contains(tells),
        "CRITIQUE_GUIDE lacks the shared AI-tells block"
    );
}

#[test]
fn guides_open_with_their_role_and_interpolate_once() {
    assert!(style_guide().starts_with("You are a professional technical writer."));
    assert!(compose_guide().starts_with("You are a professional technical writer."));
    assert!(rewrite_guide().starts_with("You are an editor."));
    assert!(critique_guide().starts_with("You are a demanding copy editor"));
    assert!(critique_guide().ends_with("If the text is already clean, return exactly: CLEAN"));
    assert!(ai_tells().starts_with("AI-writing patterns (from Wikipedia's \"Signs of AI writing\")."));
    for guide in [style_guide(), compose_guide(), rewrite_guide(), critique_guide(), ai_tells()] {
        assert!(!guide.contains("{BANNED_VOCAB}"));
        assert!(!guide.contains("{tells}"));
    }
    assert_eq!(rewrite_guide().matches(BANNED_VOCAB).count(), 1);
    assert!(style_guide().contains(&format!("- Never use: {BANNED_VOCAB}.")));
    assert!(ai_tells().contains(&format!("- Stock AI vocabulary: {BANNED_VOCAB}. Use plain words.")));
}

#[test]
fn every_listed_kind_has_an_instruction() {
    for kind in DOCUMENT_KINDS {
        assert!(kind_instruction(kind).is_some(), "{kind} has no instruction");
    }
    for kind in COMPOSE_KINDS {
        assert!(compose_kind_instruction(kind).is_some(), "{kind} has no instruction");
    }
    assert_eq!(DOCUMENT_KINDS.len(), 7);
    assert_eq!(COMPOSE_KINDS.len(), 9);
}

#[test]
fn instructions_match_their_kind() {
    assert!(kind_instruction("overview").unwrap().starts_with("Write an architecture overview"));
    assert!(kind_instruction("api").unwrap().starts_with("Write an API reference."));
    assert!(kind_instruction("changelog").unwrap().starts_with("Write changelog entries"));
    assert!(compose_kind_instruction("standup").unwrap().starts_with("Write a daily standup report."));
    assert!(compose_kind_instruction("meeting-notes").unwrap().starts_with("Write meeting notes:"));
    assert!(compose_kind_instruction("postmortem").unwrap().contains("\"not in the material\""));
}

#[test]
fn unknown_kinds_are_refused_not_guessed() {
    assert!(kind_instruction("poem").is_none());
    assert!(kind_instruction("API").is_none());
    assert!(kind_instruction(" api").is_none());
    assert!(kind_instruction("").is_none());
    assert!(compose_kind_instruction("sonnet").is_none());
    assert!(compose_kind_instruction("standup ").is_none());
    assert!(compose_kind_instruction("api").is_none());
    assert!(kind_instruction("standup").is_none());
}
