//! Titles for commands and their output.
use crate::requests::GenerateBlockTitleRequest;
use crate::suggest::{lemma_fences_are_taken_off, strip_code_fences, without_fences};
use crate::text::{
    blank, has_prefix, is_blank, join, joined, lemma_lines_follow, lemma_nothing_to_trim,
    lemma_trimmed_blank, lemma_trimming, lines, lines_of, opt_view, same, split_whitespace, trim,
    trim_class, trim_end_class, trim_end_of, trim_start_of, trimmed, trimmed_of, views, white,
    words_of, CharClass,
};
use crate::text::{lemma_lines_hold_no_line_feed, lemma_trimming_adds_nothing};
use vstd::prelude::*;

verus! {

/// The first line that is not blank, without the white space around it.
pub open spec fn first_line(lines: Seq<Seq<char>>) -> Option<Seq<char>>
    decreases lines.len(),
{
    if lines.len() == 0 {
        None
    } else if blank(lines[0]) {
        first_line(lines.skip(1))
    } else {
        Some(trimmed(lines[0]))
    }
}

/// The first line of a text that is not blank, without the white space around it.
pub fn find_first_line(text: &str) -> (r: Option<String>)
    ensures
        opt_view(r) == first_line(lines_of(text@)),
{
    let lines = lines(text);
    let ghost all = views(lines@);
    let mut i: usize = 0;
    assert(all.skip(0) == all);
    while i < lines.len()
        invariant
            i <= lines.len(),
            all == views(lines@),
            all == lines_of(text@),
            first_line(all.skip(i as int)) == first_line(all),
        decreases lines.len() - i,
    {
        assert(all.skip(i as int).skip(1) =~= all.skip(i + 1));
        if !is_blank(lines[i].as_str()) {
            return Some(trim(lines[i].as_str()).to_owned());
        }
        i += 1;
    }
    None
}

/// The line of a text from which a title is made.
pub open spec fn title_line(text: Seq<char>) -> Seq<char> {
    let text = trimmed_of(
        trimmed_of(trimmed(without_fences(text)), CharClass::Is('"')),
        CharClass::Is('\''),
    );
    match first_line(lines_of(text)) {
        Some(line) => line,
        None => "Terminal command"@,
    }
}

/// A text as a title: its first line that is not blank, without quotes around the text and full
/// stops at the end, cut to eighty characters, or `Terminal command` where nothing is left.
pub open spec fn title_of(text: Seq<char>) -> Seq<char> {
    let line = trimmed(trim_end_of(title_line(text), CharClass::Is('.')));
    let title = if line.len() > 80 {
        line.take(77) + "..."@
    } else {
        line
    };
    if title.len() == 0 {
        "Terminal command"@
    } else {
        title
    }
}

/// A text as a title.
pub fn clean_block_title(text: &str) -> (r: String)
    ensures
        r@ == title_of(text@),
{
    let text = trim_class(
        trim_class(trim(strip_code_fences(text)), CharClass::Is('"')),
        CharClass::Is('\''),
    );
    let line = match find_first_line(text) {
        Some(line) => line,
        None => "Terminal command".to_owned(),
    };
    let line = trim(trim_end_class(line.as_str(), CharClass::Is('.')));
    if line.unicode_len() > 80 {
        let mut title = line.substring_char(0, 77).to_owned();
        assert(title@ == line@.take(77));
        title.append("...");
        title
    } else if line.is_empty() {
        "Terminal command".to_owned()
    } else {
        line.to_owned()
    }
}

/// A title is not blank, has at most eighty characters, and is one line.
pub proof fn lemma_title_is_short(text: Seq<char>)
    ensures
        !blank(title_of(text)),
        1 <= title_of(text).len() <= 80,
        !title_of(text).contains('\n'),
{
    reveal_strlit("...");
    reveal_strlit("Terminal command");
    let inner = trimmed_of(
        trimmed_of(trimmed(without_fences(text)), CharClass::Is('"')),
        CharClass::Is('\''),
    );
    lemma_lines_hold_no_line_feed(inner);
    lemma_first_line_holds_no_line_feed(lines_of(inner));
    let line = title_line(text);
    assert(!line.contains('\n'));
    lemma_trimming_adds_nothing(line, CharClass::Is('.'), '\n');
    lemma_trimming_adds_nothing(trim_end_of(line, CharClass::Is('.')), CharClass::White, '\n');
    let cut = trimmed(trim_end_of(line, CharClass::Is('.')));
    if cut.len() > 80 {
        let title = cut.take(77) + "..."@;
        assert forall|k: int| 0 <= k < title.len() implies title[k] != '\n' by {
            if k < 77 {
                assert(title[k] == cut[k]);
            }
        }
    }
    lemma_trim_end_stops(
        trim_start_of(trim_end_of(line, CharClass::Is('.')), CharClass::White),
        CharClass::White,
    );
    let title = title_of(text);
    assert(!white(title[title.len() - 1]));
}

/// What is left after trimming does not end with a character of the class.
proof fn lemma_trim_end_stops(s: Seq<char>, class: CharClass)
    ensures
        trim_end_of(s, class).len() > 0 ==> !class.has(trim_end_of(s, class).last()),
    decreases s.len(),
{
    if s.len() > 0 && class.has(s.last()) {
        lemma_trim_end_stops(s.drop_last(), class);
    }
}

proof fn lemma_first_line_holds_no_line_feed(lines: Seq<Seq<char>>)
    requires
        forall|i: int| 0 <= i < lines.len() ==> !(#[trigger] lines[i]).contains('\n'),
    ensures
        first_line(lines) matches Some(line) ==> !line.contains('\n'),
    decreases lines.len(),
{
    if lines.len() > 0 {
        lemma_trimming_adds_nothing(lines[0], CharClass::White, '\n');
        assert forall|i: int| 0 <= i < lines.skip(1).len() implies !(
        #[trigger] lines.skip(1)[i]).contains('\n') by {
            assert(lines.skip(1)[i] == lines[i + 1]);
        }
        lemma_first_line_holds_no_line_feed(lines.skip(1));
    }
}

/// The title that the first line of a command gives.
pub open spec fn fallback_title(command: Seq<char>) -> Seq<char> {
    let lines = lines_of(command);
    title_of(
        if lines.len() == 0 || blank(lines[0]) {
            "Terminal command"@
        } else {
            trimmed(lines[0])
        },
    )
}

/// The title that the first line of a command gives.
pub fn fallback_block_title(request: &GenerateBlockTitleRequest) -> (r: String)
    ensures
        r@ == fallback_title(request@.command),
{
    let lines = lines(request.command.as_str());
    if lines.len() == 0 || is_blank(lines[0].as_str()) {
        clean_block_title("Terminal command")
    } else {
        clean_block_title(trim(lines[0].as_str()))
    }
}

/// What is known of a command by its first words, or nothing where the program is not known.
pub open spec fn known_title(words: Seq<Seq<char>>, fallback: Seq<char>) -> Option<Seq<char>> {
    let verb = if words.len() >= 2 {
        Some(words[1])
    } else {
        None
    };
    let operands = joined(words.skip(2), " "@);
    if words.len() == 0 {
        None
    } else if words[0] == "brew"@ {
        Some(
            if verb == Some("search"@) {
                "Search Homebrew for "@ + operands
            } else if verb == Some("install"@) {
                "Install "@ + operands
            } else if verb == Some("upgrade"@) {
                "Upgrade Homebrew packages"@
            } else if verb == Some("update"@) {
                "Update Homebrew"@
            } else {
                fallback
            },
        )
    } else if words[0] == "git"@ {
        Some(
            if verb == Some("status"@) {
                "Check git status"@
            } else if verb == Some("diff"@) {
                "Inspect git diff"@
            } else if verb == Some("log"@) {
                "Inspect git history"@
            } else if verb == Some("pull"@) {
                "Pull git changes"@
            } else if verb == Some("push"@) {
                "Push git changes"@
            } else if verb == Some("commit"@) {
                "Commit git changes"@
            } else {
                fallback
            },
        )
    } else if words[0] == "cargo"@ {
        Some(
            if verb == Some("test"@) {
                "Run Rust tests"@
            } else if verb == Some("check"@) {
                "Check Rust project"@
            } else if verb == Some("build"@) {
                "Build Rust project"@
            } else {
                fallback
            },
        )
    } else if words[0] == "npm"@ || words[0] == "pnpm"@ || words[0] == "yarn"@ {
        Some(
            if verb == Some("test"@) {
                "Run JavaScript tests"@
            } else if verb == Some("build"@) {
                "Build JavaScript project"@
            } else if verb == Some("install"@) {
                "Install JavaScript dependencies"@
            } else {
                fallback
            },
        )
    } else {
        None
    }
}

/// The title that needs no backend, where there is one.
pub open spec fn local_title(command: Seq<char>) -> Option<Seq<char>> {
    match known_title(words_of(trimmed(command)), fallback_title(command)) {
        Some(title) => Some(title_of(title)),
        None => None,
    }
}

/// Whether the second word is the given one.
fn verb_is(words: &Vec<String>, verb: &str) -> (r: bool)
    ensures
        r == (words@.len() >= 2 && words@[1]@ == verb@),
{
    words.len() >= 2 && same(words[1].as_str(), verb)
}

/// The words behind the second one, with a space between each two.
fn join_operands(words: &Vec<String>) -> (r: String)
    requires
        words@.len() >= 2,
    ensures
        r@ == joined(views(words@).skip(2), " "@),
{
    let mut operands: Vec<String> = Vec::new();
    let mut i: usize = 2;
    while i < words.len()
        invariant
            2 <= i <= words.len(),
            operands.len() == i - 2,
            forall|k: int| 0 <= k < i - 2 ==> (#[trigger] operands@[k])@ == words@[k + 2]@,
        decreases words.len() - i,
    {
        operands.push(words[i].clone());
        i += 1;
    }
    assert(views(operands@) =~= views(words@).skip(2));
    join(&operands, " ")
}

/// A label and the words behind the second one.
fn label_operands(label: &str, words: &Vec<String>) -> (r: String)
    requires
        words@.len() >= 2,
    ensures
        r@ == label@ + joined(views(words@).skip(2), " "@),
{
    let operands = join_operands(words);
    let mut text = label.to_owned();
    text.append(operands.as_str());
    text
}

/// The title that needs no backend, where there is one.
pub fn local_block_title(request: &GenerateBlockTitleRequest) -> (r: Option<String>)
    ensures
        opt_view(r) == local_title(request@.command),
{
    let words = split_whitespace(trim(request.command.as_str()));
    let ghost all = views(words@);
    if words.len() == 0 {
        return None;
    }
    assert(all[0] == words@[0]@);
    assert(all.len() >= 2 ==> all[1] == words@[1]@);
    let program = words[0].as_str();
    let title = if same(program, "brew") {
        if verb_is(&words, "search") {
            label_operands("Search Homebrew for ", &words)
        } else if verb_is(&words, "install") {
            label_operands("Install ", &words)
        } else if verb_is(&words, "upgrade") {
            "Upgrade Homebrew packages".to_owned()
        } else if verb_is(&words, "update") {
            "Update Homebrew".to_owned()
        } else {
            fallback_block_title(request)
        }
    } else if same(program, "git") {
        if verb_is(&words, "status") {
            "Check git status".to_owned()
        } else if verb_is(&words, "diff") {
            "Inspect git diff".to_owned()
        } else if verb_is(&words, "log") {
            "Inspect git history".to_owned()
        } else if verb_is(&words, "pull") {
            "Pull git changes".to_owned()
        } else if verb_is(&words, "push") {
            "Push git changes".to_owned()
        } else if verb_is(&words, "commit") {
            "Commit git changes".to_owned()
        } else {
            fallback_block_title(request)
        }
    } else if same(program, "cargo") {
        if verb_is(&words, "test") {
            "Run Rust tests".to_owned()
        } else if verb_is(&words, "check") {
            "Check Rust project".to_owned()
        } else if verb_is(&words, "build") {
            "Build Rust project".to_owned()
        } else {
            fallback_block_title(request)
        }
    } else if same(program, "npm") || same(program, "pnpm") || same(program, "yarn") {
        if verb_is(&words, "test") {
            "Run JavaScript tests".to_owned()
        } else if verb_is(&words, "build") {
            "Build JavaScript project".to_owned()
        } else if verb_is(&words, "install") {
            "Install JavaScript dependencies".to_owned()
        } else {
            fallback_block_title(request)
        }
    } else {
        return None;
    };
    Some(clean_block_title(title.as_str()))
}

/// Whether a text is one line without quotes, fences, a dot or white space at its ends.
pub open spec fn tidy(s: Seq<char>) -> bool {
    &&& s.len() > 0
    &&& !s.contains('\n')
    &&& !white(s[0]) && !white(s.last())
    &&& s[0] != '"' && s.last() != '"'
    &&& s[0] != '\'' && s.last() != '\''
    &&& s.last() != '.'
    &&& s[0] != '`'
}

proof fn lemma_tidy_line(s: Seq<char>)
    requires
        tidy(s),
    ensures
        without_fences(s) == s,
        trimmed(s) == s,
        title_line(s) == s,
        lines_of(s) == seq![s],
        !blank(s),
{
    lemma_nothing_to_trim(s);
    reveal_strlit("```");
    assert(!has_prefix(s, "```"@)) by {
        if has_prefix(s, "```"@) {
            assert(s.take(3)[0] == '`');
        }
    }
    assert(trimmed_of(s, CharClass::Is('"')) == s);
    assert(trimmed_of(s, CharClass::Is('\'')) == s);
    assert forall|i: int| 0 <= i < s.len() implies #[trigger] s[i] != '\n' by {
        assert(s.contains(s[i]));
    }
    lemma_lines_follow(s, s);
    if blank(s) {
        assert(white(s[0]));
    }
}

/// A tidy title of up to eighty characters is kept, and a longer one is cut; a dot at its end is no
/// part of it.
pub proof fn lemma_titles_are_kept(title: Seq<char>)
    requires
        tidy(title),
    ensures
        title.len() <= 80 ==> title_of(title) == title,
        title.len() > 80 ==> title_of(title) == title.take(77) + "..."@,
        title.len() <= 80 ==> title_of(title + seq!['.']) == title,
        title.len() <= 80 && title[0] != '"' ==> title_of(seq!['"'] + title + seq!['"']) == title,
{
    lemma_tidy_line(title);
    reveal_strlit("...");
    assert(trim_end_of(title, CharClass::Is('.')) == title);
    let dotted = title + seq!['.'];
    assert(dotted[0] == title[0]);
    assert(dotted.last() == '.');
    lemma_nothing_to_trim(dotted);
    reveal_strlit("```");
    assert(!has_prefix(dotted, "```"@)) by {
        if has_prefix(dotted, "```"@) {
            assert(dotted.take(3)[0] == '`');
        }
    }
    assert(trimmed_of(dotted, CharClass::Is('"')) == dotted);
    assert(trimmed_of(dotted, CharClass::Is('\'')) == dotted);
    assert forall|i: int| 0 <= i < dotted.len() implies #[trigger] dotted[i] != '\n' by {
        if i < title.len() {
            assert(title.contains(title[i]));
            assert(dotted[i] == title[i]);
        }
    }
    lemma_lines_follow(dotted, dotted);
    if blank(dotted) {
        assert(white(dotted[0]));
    }
    assert(dotted.drop_last() =~= title);
    let quoted = seq!['"'] + title + seq!['"'];
    assert(quoted[0] == '"' && quoted.last() == '"');
    lemma_nothing_to_trim(quoted);
    assert(!has_prefix(quoted, "```"@)) by {
        if has_prefix(quoted, "```"@) {
            assert(quoted.take(3)[0] == '`');
        }
    }
    assert(quoted.skip(1) =~= title + seq!['"']);
    assert((title + seq!['"'])[0] == title[0]);
    assert((title + seq!['"']).drop_last() =~= title);
    assert(trim_start_of(quoted, CharClass::Is('"')) == title + seq!['"']) by {
        assert(trim_start_of(title + seq!['"'], CharClass::Is('"')) == title + seq!['"']);
    }
    assert(trim_end_of(title + seq!['"'], CharClass::Is('"')) == trim_end_of(
        title,
        CharClass::Is('"'),
    ));
    assert(trimmed_of(title, CharClass::Is('\'')) == title);
}

/// The first line that is not blank counts.
pub proof fn lemma_first_line_counts(line: Seq<char>, rest: Seq<Seq<char>>)
    ensures
        blank(line) ==> first_line(seq![line] + rest) == first_line(rest),
        !blank(line) ==> first_line(seq![line] + rest) == Some(trimmed(line)),
        first_line(Seq::empty()) is None,
{
    let all = seq![line] + rest;
    assert(all[0] == line);
    assert(all.skip(1) =~= rest);
}

/// Where nothing is said, the title says so.
pub proof fn lemma_title_of_nothing()
    ensures
        title_of(Seq::empty()) == "Terminal command"@,
        fallback_title(Seq::empty()) == "Terminal command"@,
{
    let none = Seq::<char>::empty();
    lemma_trimmed_blank(none);
    assert(trimmed(none) =~= none);
    reveal_strlit("```");
    assert(without_fences(none) =~= none);
    assert(trimmed_of(none, CharClass::Is('"')) =~= none);
    assert(trimmed_of(none, CharClass::Is('\'')) =~= none);
    assert(lines_of(none).len() == 0);
    reveal_strlit("Terminal command");
    let title = "Terminal command"@;
    assert(title.len() == 16);
    assert(tidy(title)) by {
        assert(title[0] == 'T' && title.last() == 'd');
        assert(forall|i: int| 0 <= i < 16 ==> title[i] != '\n');
    }
    lemma_tidy_line(title);
    lemma_titles_are_kept(title);
    assert(trim_end_of(title, CharClass::Is('.')) == title);
}

/// A command that is not known gives its first line as its title.
pub proof fn lemma_fallback_titles(line: Seq<char>, rest: Seq<char>)
    requires
        tidy(line),
        line.len() <= 80,
    ensures
        fallback_title(line) == line,
        fallback_title(line + seq!['\n'] + rest) == line,
{
    lemma_tidy_line(line);
    lemma_titles_are_kept(line);
    assert forall|i: int| 0 <= i < line.len() implies #[trigger] line[i] != '\n' by {
        assert(line.contains(line[i]));
    }
    lemma_lines_follow(line, rest);
    assert((seq![line] + lines_of(rest))[0] == line);
}

/// Well-known commands have titles of their own, whatever their operands.
pub proof fn lemma_known_commands(operands: Seq<Seq<char>>, other: Seq<char>, fallback: Seq<char>)
    ensures
        known_title(seq!["brew"@, "search"@] + operands, fallback) == Some(
            "Search Homebrew for "@ + joined(operands, " "@),
        ),
        known_title(seq!["brew"@, "install"@] + operands, fallback) == Some(
            "Install "@ + joined(operands, " "@),
        ),
        known_title(
            seq!["brew"@, "upgrade"@] + operands,
            fallback,
        ) == Some("Upgrade Homebrew packages"@),
        known_title(seq!["brew"@, "update"@] + operands, fallback) == Some("Update Homebrew"@),
        known_title(seq!["git"@, "status"@] + operands, fallback) == Some("Check git status"@),
        known_title(seq!["git"@, "diff"@] + operands, fallback) == Some("Inspect git diff"@),
        known_title(seq!["git"@, "log"@] + operands, fallback) == Some("Inspect git history"@),
        known_title(seq!["git"@, "pull"@] + operands, fallback) == Some("Pull git changes"@),
        known_title(seq!["git"@, "push"@] + operands, fallback) == Some("Push git changes"@),
        known_title(seq!["git"@, "commit"@] + operands, fallback) == Some("Commit git changes"@),
        known_title(seq!["cargo"@, "test"@] + operands, fallback) == Some("Run Rust tests"@),
        known_title(seq!["cargo"@, "check"@] + operands, fallback) == Some("Check Rust project"@),
        known_title(seq!["cargo"@, "build"@] + operands, fallback) == Some("Build Rust project"@),
        known_title(seq!["npm"@, "test"@] + operands, fallback) == Some("Run JavaScript tests"@),
        known_title(
            seq!["npm"@, "build"@] + operands,
            fallback,
        ) == Some("Build JavaScript project"@),
        known_title(
            seq!["npm"@, "install"@] + operands,
            fallback,
        ) == Some("Install JavaScript dependencies"@),
        known_title(seq!["pnpm"@, "test"@] + operands, fallback) == Some("Run JavaScript tests"@),
        known_title(
            seq!["pnpm"@, "build"@] + operands,
            fallback,
        ) == Some("Build JavaScript project"@),
        known_title(
            seq!["pnpm"@, "install"@] + operands,
            fallback,
        ) == Some("Install JavaScript dependencies"@),
        known_title(seq!["yarn"@, "test"@] + operands, fallback) == Some("Run JavaScript tests"@),
        known_title(
            seq!["yarn"@, "build"@] + operands,
            fallback,
        ) == Some("Build JavaScript project"@),
        known_title(
            seq!["yarn"@, "install"@] + operands,
            fallback,
        ) == Some("Install JavaScript dependencies"@),
        known_title(seq!["brew"@], fallback) == Some(fallback),
        known_title(seq!["git"@], fallback) == Some(fallback),
        known_title(seq!["cargo"@], fallback) == Some(fallback),
        known_title(seq!["npm"@], fallback) == Some(fallback),
        known_title(seq!["pnpm"@], fallback) == Some(fallback),
        known_title(seq!["yarn"@], fallback) == Some(fallback),
        known_title(Seq::empty(), fallback) is None,
        (
            other != "brew"@
               
                   
                       
                           
                               
                                   
                                       
                                           
                                               
                                                   
                                                       
                                                           
                                                               
                                                                   
                                                                       
                                                                           
                                                                               
                                                                                   
                                                                                       
                                                                                           
                                                                                               
                                                                                                   
                                                                                                        && other != "git"@ && other != "cargo"@ && other != "npm"@ && other != "pnpm"@ && other != "yarn"@
        ) ==> known_title(
            seq![other] + operands,
            fallback,
        ) is None,
{
    reveal_strlit("brew");
    reveal_strlit("git");
    reveal_strlit("cargo");
    reveal_strlit("npm");
    reveal_strlit("pnpm");
    reveal_strlit("yarn");
    reveal_strlit("build");
    reveal_strlit("check");
    reveal_strlit("commit");
    reveal_strlit("diff");
    reveal_strlit("install");
    reveal_strlit("log");
    reveal_strlit("pull");
    reveal_strlit("push");
    reveal_strlit("search");
    reveal_strlit("status");
    reveal_strlit("test");
    reveal_strlit("update");
    reveal_strlit("upgrade");
    assert("brew"@.len() != "git"@.len());
    assert("brew"@.len() != "cargo"@.len());
    assert("brew"@.len() != "npm"@.len());
    assert("brew"@[0] != "pnpm"@[0]);
    assert("brew"@[0] != "yarn"@[0]);
    assert("git"@.len() != "cargo"@.len());
    assert("git"@[0] != "npm"@[0]);
    assert("git"@.len() != "pnpm"@.len());
    assert("git"@.len() != "yarn"@.len());
    assert("cargo"@.len() != "npm"@.len());
    assert("cargo"@.len() != "pnpm"@.len());
    assert("cargo"@.len() != "yarn"@.len());
    assert("npm"@.len() != "pnpm"@.len());
    assert("npm"@.len() != "yarn"@.len());
    assert("pnpm"@[0] != "yarn"@[0]);
    assert("search"@.len() != "install"@.len());
    assert("search"@.len() != "upgrade"@.len());
    assert("search"@[0] != "update"@[0]);
    assert("install"@[0] != "upgrade"@[0]);
    assert("install"@.len() != "update"@.len());
    assert("upgrade"@.len() != "update"@.len());
    assert("status"@.len() != "diff"@.len());
    assert("status"@.len() != "log"@.len());
    assert("status"@.len() != "pull"@.len());
    assert("status"@.len() != "push"@.len());
    assert("status"@[0] != "commit"@[0]);
    assert("diff"@.len() != "log"@.len());
    assert("diff"@[0] != "pull"@[0]);
    assert("diff"@[0] != "push"@[0]);
    assert("diff"@.len() != "commit"@.len());
    assert("log"@.len() != "pull"@.len());
    assert("log"@.len() != "push"@.len());
    assert("log"@.len() != "commit"@.len());
    assert("pull"@[2] != "push"@[2]);
    assert("pull"@.len() != "commit"@.len());
    assert("push"@.len() != "commit"@.len());
    assert("test"@.len() != "check"@.len());
    assert("test"@.len() != "build"@.len());
    assert("check"@[0] != "build"@[0]);
    assert("test"@.len() != "build"@.len());
    assert("test"@.len() != "install"@.len());
    assert("build"@.len() != "install"@.len());
    lemma_two_words("brew"@, "upgrade"@, operands);
    lemma_two_words("brew"@, "update"@, operands);
    lemma_two_words("brew"@, "search"@, operands);
    lemma_two_words("brew"@, "install"@, operands);
    lemma_two_words("git"@, "status"@, operands);
    lemma_two_words("git"@, "diff"@, operands);
    lemma_two_words("git"@, "log"@, operands);
    lemma_two_words("git"@, "pull"@, operands);
    lemma_two_words("git"@, "push"@, operands);
    lemma_two_words("git"@, "commit"@, operands);
    lemma_two_words("cargo"@, "test"@, operands);
    lemma_two_words("cargo"@, "check"@, operands);
    lemma_two_words("cargo"@, "build"@, operands);
    lemma_two_words("npm"@, "test"@, operands);
    lemma_two_words("npm"@, "build"@, operands);
    lemma_two_words("npm"@, "install"@, operands);
    lemma_two_words("pnpm"@, "test"@, operands);
    lemma_two_words("pnpm"@, "build"@, operands);
    lemma_two_words("pnpm"@, "install"@, operands);
    lemma_two_words("yarn"@, "test"@, operands);
    lemma_two_words("yarn"@, "build"@, operands);
    lemma_two_words("yarn"@, "install"@, operands);
    assert((seq![other] + operands)[0] == other);
}

proof fn lemma_two_words(first: Seq<char>, second: Seq<char>, operands: Seq<Seq<char>>)
    ensures
        (seq![first, second] + operands)[0] == first,
        (seq![first, second] + operands)[1] == second,
        (seq![first, second] + operands).skip(2) == operands,
{
    assert((seq![first, second] + operands).skip(2) =~= operands);
}

/// The title of a known command is tidied; other commands have none.
pub proof fn lemma_titles_of_commands(command: Seq<char>, title: Seq<char>)
    ensures
        known_title(words_of(trimmed(command)), fallback_title(command)) == Some(title)
            ==> local_title(command) == Some(title_of(title)),
        known_title(words_of(trimmed(command)), fallback_title(command)) is None ==> local_title(
            command,
        ) is None,
{
}

/// Quotes and fences around a title, and what stands below it, are no part of it.
pub proof fn lemma_what_stands_around_titles(title: Seq<char>, rest: Seq<char>)
    requires
        tidy(title),
        title.len() <= 80,
        rest.len() > 0,
        !white(rest.last()),
        rest.last() != '"',
        rest.last() != '\'',
    ensures
        title_of(seq!['\''] + title + seq!['\'']) == title,
        title_of("```\n"@ + title + "\n```"@) == title,
        title_of(seq![' '] + title + seq!['\n']) == title,
        title_of(title + seq!['\n'] + rest) == title,
{
    lemma_tidy_line(title);
    lemma_titles_are_kept(title);
    lemma_fences_are_taken_off(title);
    lemma_trimming(seq![' '], title, seq!['\n']);
    reveal_strlit("```");
    let spaced = seq![' '] + title + seq!['\n'];
    assert(trim_end_of(title, CharClass::Is('.')) == title);
    assert(title_line(spaced) == title_line(title));
    assert(title_line("```\n"@ + title + "\n```"@) == title_line(title));
    let quoted = seq!['\''] + title + seq!['\''];
    assert(quoted[0] == '\'' && quoted.last() == '\'');
    lemma_nothing_to_trim(quoted);
    assert(!has_prefix(quoted, "```"@)) by {
        if has_prefix(quoted, "```"@) {
            assert(quoted.take(3)[0] == '`');
        }
    }
    assert(trimmed_of(quoted, CharClass::Is('"')) == quoted);
    assert(quoted.skip(1) =~= title + seq!['\'']);
    assert((title + seq!['\''])[0] == title[0]);
    assert((title + seq!['\'']).drop_last() =~= title);
    assert(trim_start_of(quoted, CharClass::Is('\'')) == title + seq!['\'']) by {
        assert(trim_start_of(title + seq!['\''], CharClass::Is('\'')) == title + seq!['\'']);
    }
    assert(trim_end_of(title + seq!['\''], CharClass::Is('\'')) == trim_end_of(
        title,
        CharClass::Is('\''),
    ));
    assert(trim_end_of(title, CharClass::Is('\'')) == title);
    let all = title + seq!['\n'] + rest;
    assert(all[0] == title[0]);
    assert(all.last() == rest.last());
    lemma_nothing_to_trim(all);
    assert(!has_prefix(all, "```"@)) by {
        if has_prefix(all, "```"@) {
            assert(all.take(3)[0] == '`');
        }
    }
    assert(trimmed_of(all, CharClass::Is('"')) == all);
    assert(trimmed_of(all, CharClass::Is('\'')) == all);
    assert forall|i: int| 0 <= i < title.len() implies #[trigger] title[i] != '\n' by {
        assert(title.contains(title[i]));
    }
    lemma_lines_follow(title, rest);
    assert((seq![title] + lines_of(rest))[0] == title);
}

/// A known command with a verb that is not known has the title of a command that is not known.
pub proof fn lemma_other_verbs(verb: Seq<char>, operands: Seq<Seq<char>>, fallback: Seq<char>)
    ensures
        verb != "search"@ && verb != "install"@ && verb != "upgrade"@ && verb != "update"@
            ==> known_title(seq!["brew"@, verb] + operands, fallback) == Some(fallback),
        verb != "status"@ && verb != "diff"@ && verb != "log"@ && verb != "pull"@ && verb != "push"@
            && verb != "commit"@ ==> known_title(seq!["git"@, verb] + operands, fallback) == Some(
            fallback,
        ),
        verb != "test"@ && verb != "check"@ && verb != "build"@ ==> known_title(
            seq!["cargo"@, verb] + operands,
            fallback,
        ) == Some(fallback),
        verb != "test"@ && verb != "build"@ && verb != "install"@ ==> known_title(
            seq!["npm"@, verb] + operands,
            fallback,
        ) == Some(fallback),
{
    reveal_strlit("brew");
    reveal_strlit("git");
    reveal_strlit("cargo");
    reveal_strlit("npm");
    assert("brew"@.len() != "git"@.len());
    assert("brew"@.len() != "cargo"@.len());
    assert("brew"@.len() != "npm"@.len());
    assert("git"@.len() != "cargo"@.len());
    assert("git"@[0] != "npm"@[0]);
    assert("cargo"@.len() != "npm"@.len());
    lemma_two_words("brew"@, verb, operands);
    lemma_two_words("git"@, verb, operands);
    lemma_two_words("cargo"@, verb, operands);
    lemma_two_words("npm"@, verb, operands);
}

} // verus!
