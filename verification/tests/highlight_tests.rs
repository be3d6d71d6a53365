use synterm::{highlight, Color, StyledRun, TokenRule};

fn rule(name: &str, style: Color, pattern: &str) -> TokenRule {
    TokenRule { name: name.chars().collect(), style, pattern: pattern.chars().collect() }
}

fn run_pairs(runs: &[StyledRun]) -> Vec<(String, Color)> {
    runs.iter().map(|r| (r.text.iter().collect(), r.style)).collect()
}

#[test]
fn highlight_scenario_foo_bar_baz() {
    let rules = vec![rule("Foo", Color::Red, "foo"), rule("Bar", Color::Green, "bar")];
    let input: Vec<char> = "foo bar baz".chars().collect();
    let runs = highlight(&rules, &input);
    assert_eq!(
        run_pairs(&runs),
        vec![
            ("foo".to_string(), Color::Red),
            (" ".to_string(), Color::Plain),
            ("bar".to_string(), Color::Green),
            (" ".to_string(), Color::Plain),
            ("b".to_string(), Color::Plain),
            ("a".to_string(), Color::Plain),
            ("z".to_string(), Color::Plain),
        ]
    );
}

#[test]
fn highlight_empty_rules_gives_plain_runs() {
    let rules: Vec<TokenRule> = Vec::new();
    let input: Vec<char> = "ab".chars().collect();
    let runs = highlight(&rules, &input);
    assert_eq!(
        run_pairs(&runs),
        vec![("a".to_string(), Color::Plain), ("b".to_string(), Color::Plain)]
    );
}

#[test]
fn highlight_empty_input_gives_no_runs() {
    let rules = vec![rule("Foo", Color::Red, "foo")];
    let input: Vec<char> = Vec::new();
    assert!(highlight(&rules, &input).is_empty());
}

#[test]
fn highlight_first_declared_rule_wins() {
    let rules = vec![rule("Long", Color::Blue, "ab"), rule("Short", Color::Red, "a")];
    let input: Vec<char> = "ab".chars().collect();
    let runs = highlight(&rules, &input);
    assert_eq!(run_pairs(&runs), vec![("ab".to_string(), Color::Blue)]);

    let reversed = vec![rule("Short", Color::Red, "a"), rule("Long", Color::Blue, "ab")];
    let runs = highlight(&reversed, &input);
    assert_eq!(
        run_pairs(&runs),
        vec![("a".to_string(), Color::Red), ("b".to_string(), Color::Plain)]
    );
}

#[test]
fn highlight_concatenation_reconstructs_input() {
    let rules = vec![rule("Foo", Color::Red, "foo"), rule("Num", Color::Cyan, "42")];
    let input: Vec<char> = "say foo 42 times: foofoo".chars().collect();
    let runs = highlight(&rules, &input);
    let rebuilt: Vec<char> = runs.iter().flat_map(|r| r.text.iter().copied()).collect();
    assert_eq!(rebuilt, input);
}

#[test]
fn highlight_empty_pattern_claims_nothing() {
    let rules = vec![rule("Empty", Color::Red, "")];
    let input: Vec<char> = "x".chars().collect();
    let runs = highlight(&rules, &input);
    assert_eq!(run_pairs(&runs), vec![("x".to_string(), Color::Plain)]);
}

#[test]
fn color_codes_are_fixed() {
    assert_eq!(Color::Red.code(), 31);
    assert_eq!(Color::Green.code(), 32);
    assert_eq!(Color::Yellow.code(), 33);
    assert_eq!(Color::Blue.code(), 34);
    assert_eq!(Color::Magenta.code(), 35);
    assert_eq!(Color::White.code(), 26);
    assert_eq!(Color::Cyan.code(), 36);
    assert_eq!(Color::Plain.code(), 0);
}
