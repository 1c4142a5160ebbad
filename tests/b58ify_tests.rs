use b58ify::{b58ify, AlphabetTable};

#[test]
fn test_b58ify() {
    assert_eq!(b58ify("hello"), Ok("heLLo".to_string()));
    assert_eq!(b58ify("HELLO"), Ok("HELLo".to_string()));
    assert_eq!(b58ify("hell0"), Err(()));
    assert_eq!(b58ify("hello, world"), Err(()));
}

#[test]
fn empty_seed_is_accepted() {
    assert_eq!(b58ify(""), Ok(String::new()));
}

#[test]
fn ambiguous_letters_are_folded() {
    assert_eq!(b58ify("OoLl"), Ok("ooLL".to_string()));
}

#[test]
fn seed_without_folded_letters_is_unchanged() {
    let seed = "abcXYZ123IL9o";
    assert_eq!(b58ify(seed), Ok(seed.to_string()));
}

#[test]
fn remapping_twice_changes_nothing_more() {
    let once = b58ify("OldLamp1").unwrap();
    assert_eq!(once, "oLdLamp1");
    assert_eq!(b58ify(&once), Ok(once.clone()));
}

#[test]
fn output_keeps_the_input_length() {
    for seed in ["a", "Ol", "hello", "QWERTYuiop123456789"] {
        let out = b58ify(seed).unwrap();
        assert_eq!(out.chars().count(), seed.chars().count());
    }
}

#[test]
fn zero_is_rejected_anywhere() {
    assert_eq!(b58ify("0"), Err(()));
    assert_eq!(b58ify("0abc"), Err(()));
    assert_eq!(b58ify("ab0c"), Err(()));
    assert_eq!(b58ify("abc0"), Err(()));
}

#[test]
fn non_alphanumeric_is_rejected() {
    for seed in [" ", "a b", "tab\there", "dot.", "dash-", "under_score", "sym$", "new\nline", "é", "ß1", "１"] {
        assert_eq!(b58ify(seed), Err(()), "{seed:?}");
    }
}

#[test]
fn table_membership() {
    let table = AlphabetTable::new();
    for c in "123456789abcdefghijklmnopqrstuvwxyzABCDEFGHIJKLMNOPQRSTUVWXYZ".chars() {
        assert!(table.contains(c), "{c:?}");
    }
    for c in ['0', ' ', ',', '@', '[', '`', '{', '/', ':', 'é', '\0'] {
        assert!(!table.contains(c), "{c:?}");
    }
}

#[test]
fn table_can_be_reused() {
    let table = AlphabetTable::new();
    table.ensure_initialized();
    table.ensure_initialized();
    assert_eq!(table.transform("hello"), Ok("heLLo".to_string()));
    assert_eq!(table.transform("Olive"), Ok("oLive".to_string()));
    assert_eq!(table.transform("hell0"), Err(()));
}
