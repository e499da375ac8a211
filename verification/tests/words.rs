use devvoice::speech_text::{
    normalize_technical_text, split_into_speech_chunks, vibevoice_effective_max_tokens,
    vibevoice_max_tokens,
};
use devvoice::text;

fn visible(s: &str) -> String {
    s.chars().filter(|c| !c.is_whitespace()).collect()
}

#[test]
fn trimming_matches_the_standard_library() {
    for s in ["", "  ", " a b ", "\t\u{3000}x\u{a0}\n", "no space", "\u{2028}é\u{85}"] {
        assert_eq!(text::trim(s), s.trim());
        assert_eq!(text::trim_tail(s), s.trim_end());
        assert_eq!(text::trim(&text::trim(s)), text::trim(s));
        assert_eq!(visible(&text::trim(s)), visible(s));
        assert_eq!(text::blank(s), s.chars().all(char::is_whitespace));
    }
}

#[test]
fn words_match_the_standard_library() {
    for s in ["", " ", "one", " one  two\tthree ", "a\u{3000}b"] {
        let words = text::split_words(s);
        let expected: Vec<String> = s.split_whitespace().map(|w| w.to_owned()).collect();
        assert_eq!(words, expected);
        assert_eq!(words.concat(), visible(s));
        let spaced = text::join_spaced(&words);
        assert_eq!(spaced, expected.join(" "));
        assert_eq!(text::split_words(&spaced), words);
    }
}

#[test]
fn replacing_matches_the_standard_library() {
    for (s, from, to) in [
        ("aaa", "aa", "b"),
        ("O(n) and O(1)", "O(n)", "big O of n"),
        ("nothing here", "xyz", "q"),
        ("abab", "ab", ""),
        ("", "a", "b"),
    ] {
        assert_eq!(text::replace_all(s, from, to), s.replace(from, to));
    }
    assert_eq!(text::replace_all("unchanged", "absent", "x"), "unchanged");
}

#[test]
fn searching_matches_the_standard_library() {
    for (s, pattern) in [("abc", "bc"), ("abc", ""), ("", ""), ("", "a"), ("aab", "ab"), ("abc", "x")] {
        assert_eq!(text::contains_text(s, pattern), s.contains(pattern));
        assert_eq!(text::begins_with(s, pattern), s.starts_with(pattern));
        assert_eq!(text::same_text(s, pattern), s == pattern);
    }
}

#[test]
fn numbers_are_written_in_decimal() {
    for n in [0u128, 7, 10, 99, 100, 1_716_420_000, u128::MAX] {
        assert_eq!(text::decimal_text(n), n.to_string());
    }
}

#[test]
fn ascii_case_matches_the_standard_library() {
    for s in ["", "AbC-Z", "ÀÉ", "a1_Z"] {
        assert_eq!(text::lower_ascii(s), s.to_ascii_lowercase());
    }
    for c in ['a', 'Z', '0', '-', 'é', ' '] {
        assert_eq!(text::ascii_alnum(c), c.is_ascii_alphanumeric());
    }
}

#[test]
fn paths_join_like_the_standard_library() {
    for (dir, name) in [("/a/b", "c"), ("/a/b/", "c"), ("", "c"), ("/a", "/b"), ("a", "b/c")] {
        let expected = std::path::Path::new(dir).join(name);
        assert_eq!(text::join_path(dir, name), expected.to_string_lossy());
    }
}

#[test]
fn characters_are_counted() {
    assert_eq!(text::char_count("héllo"), 5);
    assert_eq!(text::char_count(""), 0);
}

#[test]
fn technical_terms_are_spelled_out() {
    assert_eq!(
        normalize_technical_text("Lookup is O(log n), scan is O(n), push is O(1), sort is O(n log n)"),
        "Lookup is big O of log n, scan is big O of n, push is big O of constant time, sort is big O of n log n)"
    );
    assert_eq!(
        normalize_technical_text("K8s  on EKS\tor AKS with S3,\nCRDs and a CRD"),
        "Kubernetes on E K S or A K S with S 3, C R Ds and a C R D"
    );
    assert_eq!(
        normalize_technical_text("impl Trait createdb GPU CPU CLI ElastiCache"),
        "impl trait create database G P U C P U C L I Elastic Cache"
    );
    assert_eq!(normalize_technical_text("  "), "");
}

#[test]
fn short_text_is_one_chunk() {
    assert_eq!(split_into_speech_chunks("  One. Two.  ", Some(100)), vec!["One. Two."]);
    assert_eq!(split_into_speech_chunks("", Some(10)), vec![""]);
}

#[test]
fn chunk_size_zero_keeps_the_text_whole() {
    let long = "word. ".repeat(200);
    assert_eq!(split_into_speech_chunks(&long, Some(0)), vec![long.trim().to_owned()]);
}

#[test]
fn chunks_end_at_sentences() {
    assert_eq!(
        split_into_speech_chunks("Alpha beta gamma. Delta epsilon! Zeta eta theta?", Some(10)),
        vec!["Alpha beta gamma.", "Delta epsilon!", "Zeta eta theta?"]
    );
}

#[test]
fn chunks_without_sentences_end_at_spaces() {
    assert_eq!(
        split_into_speech_chunks("aaaa bbbb cccc dddd eeee", Some(4)),
        vec!["aaaa bbbb", "cccc dddd", "eeee"]
    );
}

#[test]
fn a_short_rest_joins_the_last_chunk() {
    assert_eq!(
        split_into_speech_chunks("Alpha beta gamma delta. Hm", Some(12)),
        vec!["Alpha beta gamma delta. Hm"]
    );
}

#[test]
fn chunks_keep_every_visible_character_and_are_tidy() {
    let words = "The quick brown fox. Jumps over!  The lazy dog? And runs on without end for a while ";
    for size in [1usize, 3, 7, 20, 40] {
        let chunks = split_into_speech_chunks(words, Some(size));
        assert_eq!(visible(&chunks.concat()), visible(words));
        for chunk in &chunks {
            assert_eq!(chunk.trim(), chunk);
            assert!(!chunk.is_empty());
        }
    }
}

#[test]
fn default_chunk_size_applies() {
    let sentence = format!("{}. {}.", "a".repeat(219), "b".repeat(150));
    assert_eq!(split_into_speech_chunks(&sentence, None).len(), 2);
}

#[test]
fn token_budget_follows_the_words() {
    assert_eq!(vibevoice_max_tokens("one two"), 32);
    assert_eq!(vibevoice_max_tokens("a b c d e f g h i j"), 56);
    assert_eq!(vibevoice_max_tokens(&"w ".repeat(100)), 128);
}

#[test]
fn short_prompts_are_capped() {
    assert_eq!(vibevoice_effective_max_tokens("one two", None), 32);
    assert_eq!(vibevoice_effective_max_tokens("one two", Some(500)), 32);
    assert_eq!(vibevoice_effective_max_tokens("one two", Some(8)), 8);
    assert_eq!(vibevoice_effective_max_tokens(&"w ".repeat(30), Some(500)), 500);
    assert_eq!(vibevoice_effective_max_tokens(&"x".repeat(161), Some(500)), 500);
}

#[test]
fn no_technical_term_is_left() {
    let terms = [
        "O(", "K8s", "ElastiCache", "EKS", "AKS", "S3", "CRD", "createdb", "GPU", "CPU", "CLI",
    ];
    for s in [
        "EKS3 AKS3 S33",
        "CCRDRD CRDs CRDCRD GGPUPU",
        "OO((n) O(log n)( O(O(1)",
        "createdbcreatedb KK8s8s ElastiElastiCacheCache",
        "CLICPUGPU CCLILI\tEK S3",
    ] {
        let spoken = normalize_technical_text(s);
        for term in terms {
            assert!(!spoken.contains(term), "{term} in {spoken:?}");
        }
    }
}

#[test]
fn speaking_again_changes_nothing() {
    for s in [
        "",
        "impl Trait for EKS",
        " O( Trait O( impl Trait ",
        "an impl O(n) Trait on S3",
        "CRDs in K8s, ElastiCache on the CPU",
    ] {
        let spoken = normalize_technical_text(s);
        assert_eq!(normalize_technical_text(&spoken), spoken);
        assert!(!spoken.contains("  "));
    }
}

#[test]
fn speaking_settles_where_white_space_comes_together() {
    let once = normalize_technical_text("impl \n Trait");
    assert_eq!(once, "impl Trait");
    let twice = normalize_technical_text(&once);
    assert_eq!(twice, "impl trait");
    assert_eq!(normalize_technical_text(&twice), twice);
}
