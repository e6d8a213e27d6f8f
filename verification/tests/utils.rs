use zokuzoku::text::chars_of;
use zokuzoku::text::has_at;
use zokuzoku::text::push_decimal;
use zokuzoku::text::push_range;
use zokuzoku::text::same_text;
use zokuzoku::text::string_of;
use zokuzoku::utils::expand_dollar_variables;
use zokuzoku::utils::expand_environment_variables;
use zokuzoku::utils::expand_percent_variables;
use zokuzoku::utils::game_install_candidates;
use zokuzoku::utils::get_default_game_data_dir;
use zokuzoku::utils::make_active_status_label;
use zokuzoku::utils::normalize_story_id;

fn env(pairs: &[(&str, &str)]) -> Vec<(String, String)> {
    pairs.iter().map(|(k, v)| (k.to_string(), v.to_string())).collect()
}

#[test]
fn test_normalize_story_id() {
    assert_eq!(normalize_story_id("123"), "000000123");
    assert_eq!(normalize_story_id("123456789"), "123456789");
}

#[test]
fn test_make_active_status_label() {
    assert_eq!(make_active_status_label("Test", true), "✓ Test");
    assert_eq!(make_active_status_label("Test", false), "○ Test");
}

#[test]
fn normalize_story_id_edges() {
    assert_eq!(normalize_story_id(""), "000000000");
    assert_eq!(normalize_story_id("1"), "000000001");
    assert_eq!(normalize_story_id("12345678"), "012345678");
    assert_eq!(normalize_story_id("1234567890"), "1234567890");
    assert_eq!(normalize_story_id("abc"), "000000abc");
    // Two bytes, one character: the width counts characters.
    assert_eq!(normalize_story_id("é"), "00000000é");
    // Fifteen bytes, five characters: long enough by its bytes.
    assert_eq!(normalize_story_id("あいうえお"), "あいうえお");
    // Eight bytes, four characters.
    assert_eq!(normalize_story_id("éééé"), "00000éééé");
    for id in ["", "7", "é", "éééé", "あいう", "123456789", "x y z"] {
        let expected = if id.len() < 9 { format!("{:0>9}", id) } else { id.to_string() };
        assert_eq!(normalize_story_id(id), expected);
    }
}

#[test]
fn active_status_label_edges() {
    assert_eq!(make_active_status_label("", true), "✓ ");
    assert_eq!(make_active_status_label("", false), "○ ");
    assert_eq!(make_active_status_label("辞書", true), "✓ 辞書");
}

#[test]
fn dollar_notation() {
    let vars = env(&[("HOME", "/home/u"), ("A_1", "x"), ("é", "acute"), ("EMPTY", "")]);
    assert_eq!(expand_dollar_variables("$HOME/data", &vars), "/home/u/data");
    assert_eq!(expand_dollar_variables("${HOME}/data", &vars), "/home/u/data");
    assert_eq!(expand_dollar_variables("a$A_1.b", &vars), "ax.b");
    assert_eq!(expand_dollar_variables("a${A_1}b", &vars), "axb");
    assert_eq!(expand_dollar_variables("$A_1b", &vars), "");
    assert_eq!(expand_dollar_variables("$é!", &vars), "acute!");
    assert_eq!(expand_dollar_variables("$EMPTY|", &vars), "|");
    assert_eq!(expand_dollar_variables("no variables", &vars), "no variables");
    assert_eq!(expand_dollar_variables("", &vars), "");
}

#[test]
fn dollar_notation_edges() {
    let vars = env(&[("HOME", "/h"), ("a b", "spaced"), ("X", "$HOME")]);
    // An unset variable leaves nothing.
    assert_eq!(expand_dollar_variables("[$UNSET]", &vars), "[]");
    assert_eq!(expand_dollar_variables("[${UNSET}]", &vars), "[]");
    // A lone dollar sign names the empty variable, which is never set.
    assert_eq!(expand_dollar_variables("$", &vars), "");
    assert_eq!(expand_dollar_variables("a$ b", &vars), "a b");
    assert_eq!(expand_dollar_variables("$$HOME", &vars), "/h");
    // Between braces any character belongs to the name.
    assert_eq!(expand_dollar_variables("${a b}", &vars), "spaced");
    // Without the closing brace the name runs to the end.
    assert_eq!(expand_dollar_variables("x${HOME", &vars), "x/h");
    assert_eq!(expand_dollar_variables("x${HOME/more", &vars), "x");
    assert_eq!(expand_dollar_variables("${", &vars), "");
    assert_eq!(expand_dollar_variables("${}", &vars), "");
    assert_eq!(expand_dollar_variables("${}}", &vars), "}");
    // A value is not expanded again.
    assert_eq!(expand_dollar_variables("$X", &vars), "$HOME");
    // The first variable of a name counts.
    let twice = env(&[("V", "one"), ("V", "two")]);
    assert_eq!(expand_dollar_variables("$V", &twice), "one");
    assert_eq!(expand_dollar_variables("$HOME", &Vec::new()), "");
}

#[test]
fn percent_notation() {
    let vars = env(&[("USERPROFILE", "C:\\Users\\u"), ("A", "x")]);
    assert_eq!(
        expand_percent_variables("%USERPROFILE%\\data", &vars),
        "C:\\Users\\u\\data"
    );
    assert_eq!(expand_percent_variables("%A%%A%", &vars), "xx");
    assert_eq!(expand_percent_variables("%A% and %A%", &vars), "x and x");
    assert_eq!(expand_percent_variables("%UNSET%", &vars), "%UNSET%");
    assert_eq!(expand_percent_variables("%A", &vars), "%A");
    assert_eq!(expand_percent_variables("", &vars), "");
    assert_eq!(expand_percent_variables("%A%", &Vec::new()), "%A%");
    assert_eq!(expand_percent_variables("$A ${A}", &vars), "$A ${A}");
}

#[test]
fn percent_notation_goes_through_the_variables_in_turn() {
    // The value of an earlier variable is looked through for later ones.
    let vars = env(&[("A", "%B%"), ("B", "b")]);
    assert_eq!(expand_percent_variables("%A%", &vars), "b");
    // But not for earlier ones.
    let vars = env(&[("B", "b"), ("A", "%B%")]);
    assert_eq!(expand_percent_variables("%A%", &vars), "%B%");
    // Occurrences do not overlap: the second sign of the first one is used up.
    let vars = env(&[("A", "x")]);
    assert_eq!(expand_percent_variables("%A%A%", &vars), "xA%");
    let vars = env(&[("", "e")]);
    assert_eq!(expand_percent_variables("%%%", &vars), "e%");
    for (text, vars) in [
        ("%A%A%%B%", env(&[("A", "1"), ("B", "2")])),
        ("%%A%%", env(&[("A", "%")])),
        ("é%É%é", env(&[("É", "%é%"), ("é", "!")])),
    ] {
        let mut expected = text.to_string();
        for (key, value) in &vars {
            expected = expected.replace(&format!("%{}%", key), value);
        }
        assert_eq!(expand_percent_variables(text, &vars), expected);
    }
}

#[test]
fn expansion_by_platform() {
    let vars = env(&[("HOME", "/h")]);
    assert_eq!(expand_environment_variables("$HOME %HOME%", false, &vars), "/h %HOME%");
    assert_eq!(expand_environment_variables("$HOME %HOME%", true, &vars), "$HOME /h");
}

#[test]
fn install_candidates() {
    assert_eq!(
        game_install_candidates(false, "/home/u"),
        vec![
            "/home/u/.local/share/dmmgames/umamusume".to_string(),
            "/home/u/umamusume".to_string(),
        ]
    );
    assert_eq!(
        game_install_candidates(true, "C:\\Users\\u"),
        vec![
            "C:\\Users\\u\\AppData\\Local\\DMM Games\\umamusume".to_string(),
            "C:\\Users\\u\\Desktop\\umamusume".to_string(),
            "C:\\Program Files\\DMM Games\\umamusume".to_string(),
        ]
    );
    assert_eq!(
        game_install_candidates(false, ""),
        vec!["/.local/share/dmmgames/umamusume".to_string(), "/umamusume".to_string()]
    );
}

#[test]
fn default_game_data_dir() {
    assert_eq!(get_default_game_data_dir(false, "/home/u"), "/home/u/.local/share/umamusume");
    assert_eq!(
        get_default_game_data_dir(true, "C:\\Users\\u"),
        "C:\\Users\\u\\AppData\\LocalLow\\Cygames\\umamusume"
    );
}

#[test]
fn text_conversions() {
    assert_eq!(chars_of("aé✓"), vec!['a', 'é', '✓']);
    assert_eq!(chars_of(""), Vec::<char>::new());
    assert_eq!(string_of(&vec!['a', 'é', '✓']), "aé✓");
    assert_eq!(string_of(&Vec::new()), "");
    let mut s = "x".to_string();
    push_range(&mut s, &vec!['a', 'b', 'c', 'd'], 1, 3);
    assert_eq!(s, "xbc");
    push_range(&mut s, &vec!['a', 'b'], 2, 2);
    assert_eq!(s, "xbc");
}

#[test]
fn text_comparisons() {
    assert!(same_text("", ""));
    assert!(same_text("type", "type"));
    assert!(!same_text("type", "Type"));
    assert!(!same_text("type", "typ"));
    assert!(!same_text("é", "e"));
    let text = vec!['a', 'b', 'a', 'b'];
    assert!(has_at(&text, 0, &vec!['a', 'b']));
    assert!(!has_at(&text, 1, &vec!['a', 'b']));
    assert!(has_at(&text, 2, &vec!['a', 'b']));
    assert!(!has_at(&text, 3, &vec!['a', 'b']));
    assert!(has_at(&text, 4, &Vec::new()));
    assert!(!has_at(&text, 5, &Vec::new()));
}

#[test]
fn decimal_numerals() {
    for (n, expected) in [
        (0u64, "0"),
        (7, "7"),
        (10, "10"),
        (42, "42"),
        (50433, "50433"),
        (1000000, "1000000"),
        (u64::MAX, "18446744073709551615"),
    ] {
        let mut s = String::new();
        push_decimal(&mut s, n);
        assert_eq!(s, expected);
    }
    let mut s = "n=".to_string();
    push_decimal(&mut s, 909);
    assert_eq!(s, "n=909");
}
