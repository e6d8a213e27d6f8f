use zokuzoku::ipc::HachimiCommand;
use zokuzoku::text::push_decimal;
use zokuzoku::utils::expand_dollar_variables;
use zokuzoku::utils::expand_percent_variables;
use zokuzoku::utils::normalize_story_id;

fn env(pairs: &[(&str, &str)]) -> Vec<(String, String)> {
    pairs.iter().map(|(k, v)| (k.to_string(), v.to_string())).collect()
}

fn value_of<'a>(vars: &'a [(String, String)], name: &str) -> Option<&'a str> {
    vars.iter().find(|(k, _)| k == name).map(|(_, v)| v.as_str())
}

/// The `$` notation, read with a one-character look-ahead.
fn dollar_by_scanning(path: &str, vars: &[(String, String)]) -> String {
    let mut result = String::new();
    let mut chars = path.chars().peekable();
    while let Some(ch) = chars.next() {
        if ch == '$' {
            let mut name = String::new();
            if let Some('{') = chars.peek() {
                chars.next();
                while let Some(ch) = chars.next() {
                    if ch == '}' {
                        break;
                    }
                    name.push(ch);
                }
            } else {
                while let Some(ch) = chars.peek() {
                    if ch.is_alphanumeric() || *ch == '_' {
                        name.push(chars.next().unwrap());
                    } else {
                        break;
                    }
                }
            }
            if let Some(value) = value_of(vars, &name) {
                result.push_str(value);
            }
        } else {
            result.push(ch);
        }
    }
    result
}

fn percent_by_replacing(path: &str, vars: &[(String, String)]) -> String {
    let mut result = path.to_string();
    for (key, value) in vars {
        result = result.replace(&format!("%{}%", key), value);
    }
    result
}

/// Every text of up to `max` characters over `alphabet`.
fn texts(alphabet: &[char], max: usize) -> Vec<String> {
    let mut all = vec![String::new()];
    let mut last = vec![String::new()];
    for _ in 0..max {
        let mut next = Vec::new();
        for t in &last {
            for c in alphabet {
                let mut longer = t.clone();
                longer.push(*c);
                next.push(longer);
            }
        }
        all.extend(next.iter().cloned());
        last = next;
    }
    all
}

#[test]
fn dollar_notation_on_every_short_text() {
    let vars = env(&[("A", "1"), ("A_", "2"), ("é", "3"), ("A/", "4"), ("{", "5"), ("AA", "$A")]);
    for text in texts(&['$', '{', '}', 'A', '_', '/', 'é'], 5) {
        assert_eq!(expand_dollar_variables(&text, &vars), dollar_by_scanning(&text, &vars), "{}", text);
    }
}

#[test]
fn percent_notation_on_every_short_text() {
    let vars = env(&[("A", "%B%"), ("B", "x"), ("", "y"), ("AB", "%")]);
    for text in texts(&['%', 'A', 'B'], 7) {
        assert_eq!(
            expand_percent_variables(&text, &vars),
            percent_by_replacing(&text, &vars),
            "{}",
            text
        );
    }
}

#[test]
fn story_ids_on_every_short_text() {
    for text in texts(&['0', '7', 'é', 'あ'], 6) {
        let expected = if text.len() < 9 { format!("{:0>9}", text) } else { text.clone() };
        assert_eq!(normalize_story_id(&text), expected, "{}", text);
    }
}

#[test]
fn decimal_numerals_agree_with_the_standard_library() {
    let mut n: u64 = 0;
    for step in 0..2000u64 {
        let mut s = String::new();
        push_decimal(&mut s, n);
        assert_eq!(s, n.to_string());
        n = n.wrapping_mul(6364136223846793005).wrapping_add(1442695040888963407 + step);
    }
    for n in 0..1200u64 {
        let mut s = String::new();
        push_decimal(&mut s, n);
        assert_eq!(s, n.to_string());
    }
}

#[test]
fn every_power_of_two_block_round_trips() {
    for shift in 0..32u32 {
        for incremental in [false, true] {
            for block_id in [1u32 << shift, (1u32 << shift) - 1, u32::MAX - (1u32 << shift)] {
                let cmd = HachimiCommand::StoryGotoBlock { block_id, incremental };
                let text = cmd.encode();
                assert_eq!(
                    text,
                    format!(
                        "{{\"type\":\"StoryGotoBlock\",\"block_id\":{},\"incremental\":{}}}",
                        block_id, incremental
                    )
                );
                assert_eq!(HachimiCommand::decode(text.as_bytes()), Ok(cmd));
            }
        }
    }
}
