//! Small helpers: story identifiers, status labels, variables in paths, and
//! where the game keeps its files.
//!
//! Nothing here reads the environment or the disk. What depends on them is
//! passed in: the variables as a list of names and values, the platform as
//! a flag, the home directory as text.

use crate::text::chars_of;
use crate::text::has_at;
use crate::text::occurs_at;
use crate::text::push_char;
use crate::text::push_range;
use crate::text::same_text;
use crate::text::string_of;
use vstd::prelude::*;
use vstd::utf8::encode_utf8;

verus! {

/// `n` times the digit zero.
pub open spec fn zeros(n: nat) -> Seq<char> {
    Seq::new(n, |i: int| '0')
}

/// A story identifier at its full width: one of fewer than nine bytes is
/// filled up with zeros on the left to nine characters, a longer one stays
/// as it is.
pub open spec fn normalized_story_id(story_id: Seq<char>) -> Seq<char> {
    if encode_utf8(story_id).len() < 9 {
        zeros((9 - story_id.len()) as nat) + story_id
    } else {
        story_id
    }
}

/// A text has at least as many bytes as characters.
pub proof fn lemma_chars_fit_bytes(text: Seq<char>)
    ensures
        text.len() <= encode_utf8(text).len(),
    decreases text.len(),
{
    if text.len() > 0 {
        lemma_chars_fit_bytes(text.drop_first());
    }
}

/// Fills a story identifier up with zeros on the left.
pub fn normalize_story_id(story_id: &str) -> (id: String)
    ensures
        id@ == normalized_story_id(story_id@),
{
    if story_id.as_bytes().len() < 9 {
        let count = story_id.unicode_len();
        proof {
            lemma_chars_fit_bytes(story_id@);
        }
        let mut id = String::new();
        let mut width: usize = count;
        while width < 9
            invariant
                count <= width <= 9,
                id@ == zeros((width - count) as nat),
            decreases 9 - width,
        {
            push_char(&mut id, '0');
            width += 1;
        }
        id.append(story_id);
        id
    } else {
        String::from_str(story_id)
    }
}

/// A label with its mark in front: a check mark where the dictionary
/// exists, a circle where it does not.
pub open spec fn active_status_label(label: Seq<char>, dict_exists: bool) -> Seq<char> {
    if dict_exists {
        "✓ "@ + label
    } else {
        "○ "@ + label
    }
}

/// Marks a label as active or not.
pub fn make_active_status_label(label: &str, dict_exists: bool) -> (marked: String)
    ensures
        marked@ == active_status_label(label@, dict_exists),
{
    if dict_exists {
        String::from_str("✓ ").concat(label)
    } else {
        String::from_str("○ ").concat(label)
    }
}

/// The variables of an environment, each as its name and its value.
pub open spec fn env_view(vars: Seq<(String, String)>) -> Seq<(Seq<char>, Seq<char>)> {
    Seq::new(vars.len(), |i: int| (vars[i].0@, vars[i].1@))
}

/// The value of the first variable called `name`, if there is one.
pub open spec fn variable(env: Seq<(Seq<char>, Seq<char>)>, name: Seq<char>) -> Option<Seq<char>>
    decreases env.len(),
{
    if env.len() == 0 {
        None
    } else if env[0].0 == name {
        Some(env[0].1)
    } else {
        variable(env.drop_first(), name)
    }
}

/// What stands in place of a reference to `name`: the variable's value, or
/// nothing where no such variable is set.
pub open spec fn value_or_nothing(env: Seq<(Seq<char>, Seq<char>)>, name: Seq<char>) -> Seq<char> {
    match variable(env, name) {
        Some(value) => value,
        None => Seq::empty(),
    }
}

/// Whether Unicode counts `c` as a letter or a digit: what
/// `char::is_alphanumeric` answers.
pub uninterp spec fn alphanumeric(c: char) -> bool;

/// Whether `c` is a letter or a digit.
///
/// Trusted: this is `char::is_alphanumeric` of the standard library, which
/// decides by the Unicode tables built into it. The contract only gives the
/// answer its name, [`alphanumeric`].
#[verifier::external_body]
fn is_alphanumeric(c: char) -> (yes: bool)
    ensures
        yes == alphanumeric(c),
{
    c.is_alphanumeric()
}

/// Whether `c` can stand in a variable's name after a bare `$`.
pub open spec fn name_char(c: char) -> bool {
    alphanumeric(c) || c == '_'
}

/// Where the run of name characters that starts at `from` ends.
pub open spec fn name_end(text: Seq<char>, from: int) -> int
    decreases text.len() - from,
{
    if 0 <= from < text.len() && name_char(text[from]) {
        name_end(text, from + 1)
    } else {
        from
    }
}

/// The first position at or after `from` that holds a closing brace, or the
/// end of the text where none follows.
pub open spec fn brace_end(text: Seq<char>, from: int) -> int
    decreases text.len() - from,
{
    if 0 <= from < text.len() && text[from] != '}' {
        brace_end(text, from + 1)
    } else {
        from
    }
}

/// `name_end` lies between its start and the end of the text.
pub proof fn lemma_name_end_bounds(text: Seq<char>, from: int)
    requires
        0 <= from <= text.len(),
    ensures
        from <= name_end(text, from) <= text.len(),
    decreases text.len() - from,
{
    if from < text.len() && name_char(text[from]) {
        lemma_name_end_bounds(text, from + 1);
    }
}

/// `brace_end` lies between its start and the end of the text.
pub proof fn lemma_brace_end_bounds(text: Seq<char>, from: int)
    requires
        0 <= from <= text.len(),
    ensures
        from <= brace_end(text, from) <= text.len(),
    decreases text.len() - from,
{
    if from < text.len() && text[from] != '}' {
        lemma_brace_end_bounds(text, from + 1);
    }
}

/// The text from position `from` on, with its variable references
/// replaced, in the `$` notation.
///
/// `${name}` refers to the variable whose name stands between the braces;
/// where the closing brace is missing, the name runs to the end of the text.
/// `$name` refers to the variable whose name is the longest run of letters,
/// digits and underscores after the `$`; the run may be empty. Every other
/// character stands for itself.
pub open spec fn expanded_dollar_from(
    text: Seq<char>,
    from: int,
    env: Seq<(Seq<char>, Seq<char>)>,
) -> Seq<char>
    decreases text.len() - from,
{
    if from < 0 || from >= text.len() {
        Seq::empty()
    } else if text[from] != '$' {
        seq![text[from]] + expanded_dollar_from(text, from + 1, env)
    } else if from + 1 < text.len() && text[from + 1] == '{' {
        let end = brace_end(text, from + 2);
        let next = if end < text.len() {
            end + 1
        } else {
            end
        };
        proof {
            lemma_brace_end_bounds(text, from + 2);
        }
        value_or_nothing(env, text.subrange(from + 2, end)) + expanded_dollar_from(text, next, env)
    } else {
        let end = name_end(text, from + 1);
        proof {
            lemma_name_end_bounds(text, from + 1);
        }
        value_or_nothing(env, text.subrange(from + 1, end)) + expanded_dollar_from(text, end, env)
    }
}

/// The text with its variable references replaced, in the `$` notation.
pub open spec fn expanded_dollar(text: Seq<char>, env: Seq<(Seq<char>, Seq<char>)>) -> Seq<char> {
    expanded_dollar_from(text, 0, env)
}

/// The text from position `from` on, with every occurrence of `pattern`
/// replaced by `with`. Occurrences are found from left to right and do not
/// overlap. An empty pattern occurs nowhere.
pub open spec fn replaced_from(
    text: Seq<char>,
    from: int,
    pattern: Seq<char>,
    with: Seq<char>,
) -> Seq<char>
    decreases text.len() - from,
{
    if from < 0 || from >= text.len() {
        Seq::empty()
    } else if pattern.len() > 0 && occurs_at(text, from, pattern) {
        with + replaced_from(text, from + pattern.len(), pattern, with)
    } else {
        seq![text[from]] + replaced_from(text, from + 1, pattern, with)
    }
}

/// A reference to the variable `name` in the `%` notation.
pub open spec fn percent_reference(name: Seq<char>) -> Seq<char> {
    seq!['%'] + name + seq!['%']
}

/// The text with its variable references replaced, in the `%` notation: for
/// each variable in turn, every `%name%` that the text then holds becomes
/// the variable's value.
pub open spec fn expanded_percent(text: Seq<char>, env: Seq<(Seq<char>, Seq<char>)>) -> Seq<char>
    decreases env.len(),
{
    if env.len() == 0 {
        text
    } else {
        expanded_percent(
            replaced_from(text, 0, percent_reference(env[0].0), env[0].1),
            env.drop_first(),
        )
    }
}

/// The text with its variable references replaced, in the platform's
/// notation: `%name%` on Windows, `$name` and `${name}` elsewhere.
pub open spec fn expanded(
    text: Seq<char>,
    windows: bool,
    env: Seq<(Seq<char>, Seq<char>)>,
) -> Seq<char> {
    if windows {
        expanded_percent(text, env)
    } else {
        expanded_dollar(text, env)
    }
}

/// Looks a variable up by the name `text[from..to]`.
fn find_variable<'a>(vars: &'a Vec<(String, String)>, text: &Vec<char>, from: usize, to: usize) -> (value:
    Option<&'a String>)
    requires
        from <= to <= text.len(),
    ensures
        match value {
            Some(v) => variable(env_view(vars@), text@.subrange(from as int, to as int)) == Some(v@),
            None => variable(env_view(vars@), text@.subrange(from as int, to as int)) is None,
        },
{
    let mut name = String::new();
    push_range(&mut name, text, from, to);
    let ghost env = env_view(vars@);
    let mut i: usize = 0;
    assert(env.skip(0) == env);
    while i < vars.len()
        invariant
            i <= vars.len(),
            env == env_view(vars@),
            name@ == text@.subrange(from as int, to as int),
            variable(env, name@) == variable(env.skip(i as int), name@),
        decreases vars.len() - i,
    {
        assert(env.skip(i as int)[0] == (vars@[i as int].0@, vars@[i as int].1@));
        if same_text(vars[i].0.as_str(), name.as_str()) {
            return Some(&vars[i].1);
        }
        assert(env.skip(i as int).drop_first() == env.skip(i + 1));
        i += 1;
    }
    None
}

/// Replaces the variable references of `path` in the `$` notation.
pub fn expand_dollar_variables(path: &str, vars: &Vec<(String, String)>) -> (expanded: String)
    ensures
        expanded@ == expanded_dollar(path@, env_view(vars@)),
{
    let text = chars_of(path);
    let ghost env = env_view(vars@);
    let mut out = String::new();
    let mut i: usize = 0;
    while i < text.len()
        invariant
            i <= text.len(),
            text@ == path@,
            env == env_view(vars@),
            out@ + expanded_dollar_from(text@, i as int, env) == expanded_dollar(text@, env),
        decreases text.len() - i,
    {
        let ghost before = out@;
        let ghost rest = expanded_dollar_from(text@, i as int, env);
        if text[i] != '$' {
            push_char(&mut out, text[i]);
            i += 1;
            assert(out@ + expanded_dollar_from(text@, i as int, env) == before + rest);
        } else if i + 1 < text.len() && text[i + 1] == '{' {
            let start: usize = i + 2;
            let mut end: usize = start;
            while end < text.len() && text[end] != '}'
                invariant
                    start <= end <= text.len(),
                    brace_end(text@, start as int) == brace_end(text@, end as int),
                decreases text.len() - end,
            {
                end += 1;
            }
            match find_variable(vars, &text, start, end) {
                Some(value) => out.append(value.as_str()),
                None => {},
            }
            i = if end < text.len() {
                end + 1
            } else {
                end
            };
            assert(out@ + expanded_dollar_from(text@, i as int, env) == before + rest);
        } else {
            let start: usize = i + 1;
            let mut end: usize = start;
            while end < text.len() && (is_alphanumeric(text[end]) || text[end] == '_')
                invariant
                    start <= end <= text.len(),
                    name_end(text@, start as int) == name_end(text@, end as int),
                decreases text.len() - end,
            {
                end += 1;
            }
            match find_variable(vars, &text, start, end) {
                Some(value) => out.append(value.as_str()),
                None => {},
            }
            i = end;
            assert(out@ + expanded_dollar_from(text@, i as int, env) == before + rest);
        }
    }
    out
}

/// Replaces every occurrence of `pattern` in `text` by `with`.
fn replace_all(text: &Vec<char>, pattern: &Vec<char>, with: &Vec<char>) -> (out: Vec<char>)
    requires
        pattern.len() > 0,
    ensures
        out@ == replaced_from(text@, 0, pattern@, with@),
{
    let mut out: Vec<char> = Vec::new();
    let mut i: usize = 0;
    while i < text.len()
        invariant
            i <= text.len(),
            pattern.len() > 0,
            out@ + replaced_from(text@, i as int, pattern@, with@) == replaced_from(
                text@,
                0,
                pattern@,
                with@,
            ),
        decreases text.len() - i,
    {
        let ghost before = out@;
        let ghost rest = replaced_from(text@, i as int, pattern@, with@);
        if has_at(text, i, pattern) {
            let mut k: usize = 0;
            while k < with.len()
                invariant
                    k <= with.len(),
                    out@ == before + with@.take(k as int),
                decreases with.len() - k,
            {
                out.push(with[k]);
                k += 1;
            }
            assert(with@.take(k as int) == with@);
            i += pattern.len();
            assert(out@ + replaced_from(text@, i as int, pattern@, with@) == before + rest);
        } else {
            out.push(text[i]);
            i += 1;
            assert(out@ + replaced_from(text@, i as int, pattern@, with@) == before + rest);
        }
    }
    out
}

/// Replaces the variable references of `path` in the `%` notation.
pub fn expand_percent_variables(path: &str, vars: &Vec<(String, String)>) -> (expanded: String)
    ensures
        expanded@ == expanded_percent(path@, env_view(vars@)),
{
    let mut text = chars_of(path);
    let ghost env = env_view(vars@);
    let mut i: usize = 0;
    assert(env.skip(0) == env);
    while i < vars.len()
        invariant
            i <= vars.len(),
            env == env_view(vars@),
            expanded_percent(text@, env.skip(i as int)) == expanded_percent(path@, env),
        decreases vars.len() - i,
    {
        let mut pattern: Vec<char> = Vec::new();
        pattern.push('%');
        let name = chars_of(vars[i].0.as_str());
        let mut k: usize = 0;
        while k < name.len()
            invariant
                k <= name.len(),
                pattern@ == seq!['%'] + name@.take(k as int),
            decreases name.len() - k,
        {
            pattern.push(name[k]);
            k += 1;
        }
        pattern.push('%');
        let value = chars_of(vars[i].1.as_str());
        proof {
            assert(name@.take(k as int) == name@);
            assert(pattern@ == percent_reference(vars@[i as int].0@));
            assert(env.skip(i as int)[0] == (vars@[i as int].0@, vars@[i as int].1@));
            assert(env.skip(i as int).drop_first() == env.skip(i + 1));
        }
        text = replace_all(&text, &pattern, &value);
        i += 1;
    }
    string_of(&text)
}

/// Replaces the references to environment variables in `path` by the
/// variables' values. `vars` is the environment; `windows` says which
/// notation the platform uses.
pub fn expand_environment_variables(path: &str, windows: bool, vars: &Vec<(String, String)>) -> (expanded:
    String)
    ensures
        expanded@ == self::expanded(path@, windows, env_view(vars@)),
{
    if windows {
        expand_percent_variables(path, vars)
    } else {
        expand_dollar_variables(path, vars)
    }
}

/// The directories in which an installed game is looked for, most likely
/// first. `home` is the user's home directory: `USERPROFILE` on Windows,
/// `HOME` elsewhere.
pub open spec fn install_candidates(windows: bool, home: Seq<char>) -> Seq<Seq<char>> {
    if windows {
        seq![
            home + "\\AppData\\Local\\DMM Games\\umamusume"@,
            home + "\\Desktop\\umamusume"@,
            "C:\\Program Files\\DMM Games\\umamusume"@,
        ]
    } else {
        seq![home + "/.local/share/dmmgames/umamusume"@, home + "/umamusume"@]
    }
}

/// The texts of some strings.
pub open spec fn texts(strings: Seq<String>) -> Seq<Seq<char>> {
    Seq::new(strings.len(), |i: int| strings[i]@)
}

/// Lists the directories in which an installed game is looked for. Which of
/// them exist is for the caller to find out.
pub fn game_install_candidates(windows: bool, home: &str) -> (paths: Vec<String>)
    ensures
        texts(paths@) == install_candidates(windows, home@),
{
    let mut paths: Vec<String> = Vec::new();
    if windows {
        paths.push(String::from_str(home).concat("\\AppData\\Local\\DMM Games\\umamusume"));
        paths.push(String::from_str(home).concat("\\Desktop\\umamusume"));
        paths.push(String::from_str("C:\\Program Files\\DMM Games\\umamusume"));
    } else {
        paths.push(String::from_str(home).concat("/.local/share/dmmgames/umamusume"));
        paths.push(String::from_str(home).concat("/umamusume"));
    }
    assert(texts(paths@) == install_candidates(windows, home@));
    paths
}

/// The directory in which the game keeps its data, below the home
/// directory `home`.
pub open spec fn default_game_data_dir(windows: bool, home: Seq<char>) -> Seq<char> {
    if windows {
        home + "\\AppData\\LocalLow\\Cygames\\umamusume"@
    } else {
        home + "/.local/share/umamusume"@
    }
}

/// Names the directory in which the game keeps its data.
pub fn get_default_game_data_dir(windows: bool, home: &str) -> (dir: String)
    ensures
        dir@ == default_game_data_dir(windows, home@),
{
    if windows {
        String::from_str(home).concat("\\AppData\\LocalLow\\Cygames\\umamusume")
    } else {
        String::from_str(home).concat("/.local/share/umamusume")
    }
}

} // verus!
