//! The text codec of the configuration record. The format is line based:
//! blank lines and `#` comments are skipped, every other line must be a
//! `key = value` entry, keys other than `theme` are ignored, and the one
//! `theme` entry carries a double-quoted theme name. Writing always uses
//! the canonical name; reading also accepts the legacy aliases.

use vstd::prelude::*;
use vstd::string::StrSliceExecFns;
use vstd::string::StringExecFns;

use crate::config::Config;
use crate::textscan::{
    find_char, find_char_in, lemma_find_char_at, split_lines, str_eq, trim, trim_back,
    trim_front, trim_str,
};
use crate::theme::{theme_from_name, theme_from_name_spec, theme_name_spec, Theme};

verus! {

/// Why a configuration text was rejected.
#[derive(Debug, Clone, Copy, PartialEq, Eq, Structural)]
pub enum ParseError {
    /// A line is neither blank, nor a comment, nor a `key = value` entry,
    /// or the `theme` value is not a double-quoted string.
    Malformed,
    /// The `theme` value is neither a canonical theme name nor a
    /// recognized legacy alias.
    UnknownTheme,
    /// The `theme` key occurs more than once.
    DuplicateTheme,
}

/// The diagnostic text of each rejection.
pub open spec fn parse_error_message_spec(e: ParseError) -> Seq<char> {
    match e {
        ParseError::Malformed => "malformed entry"@,
        ParseError::UnknownTheme => "unknown theme name"@,
        ParseError::DuplicateTheme => "duplicate theme entry"@,
    }
}

impl ParseError {
    /// The diagnostic text of the rejection.
    pub fn message(&self) -> (r: &'static str)
        ensures
            r@ == parse_error_message_spec(*self),
    {
        match self {
            ParseError::Malformed => "malformed entry",
            ParseError::UnknownTheme => "unknown theme name",
            ParseError::DuplicateTheme => "duplicate theme entry",
        }
    }
}

/// What one line of the configuration text is.
pub enum LineClass {
    /// Blank, or a comment.
    Blank,
    /// An entry under a key other than `theme`; ignored.
    Other,
    /// A `theme` entry, with the name its quoted value holds.
    ThemeName(Seq<char>),
    /// Not an entry at all, or a `theme` entry whose value is not a
    /// double-quoted string.
    Bad,
}

/// What a line is: after trimming, the empty line and the `#` comment are
/// blank; everything else must hold a `=`; the key is what stands trimmed
/// before the first `=`, the value what stands trimmed after it; a `theme`
/// entry's value must be double-quoted with no further quote inside.
pub open spec fn classify(l: Seq<char>) -> LineClass {
    let t = trim(l);
    if t.len() == 0 {
        LineClass::Blank
    } else if t[0] == '#' {
        LineClass::Blank
    } else {
        let j = find_char(t, '=');
        if j == t.len() {
            LineClass::Bad
        } else {
            let key = trim(t.take(j));
            let val = trim(t.skip(j + 1));
            if key == "theme"@ {
                if val.len() >= 2 && val[0] == '"' && val[val.len() - 1] == '"' && find_char(
                    val.subrange(1, val.len() - 1),
                    '"',
                ) == val.len() - 2 {
                    LineClass::ThemeName(val.subrange(1, val.len() - 1))
                } else {
                    LineClass::Bad
                }
            } else {
                LineClass::Other
            }
        }
    }
}

/// The reading of a sequence of lines, continuing from an already seen
/// theme entry: the theme of the single `theme` entry, `None` when there
/// is none, or the first rejection.
pub open spec fn parse_lines(lines: Seq<Seq<char>>, acc: Option<Theme>) -> Result<
    Option<Theme>,
    ParseError,
>
    decreases lines.len(),
{
    if lines.len() == 0 {
        Ok(acc)
    } else {
        match classify(lines.first()) {
            LineClass::Blank => parse_lines(lines.drop_first(), acc),
            LineClass::Other => parse_lines(lines.drop_first(), acc),
            LineClass::ThemeName(n) => {
                if acc is Some {
                    Err(ParseError::DuplicateTheme)
                } else {
                    match theme_from_name_spec(n) {
                        Some(t) => parse_lines(lines.drop_first(), Some(t)),
                        None => Err(ParseError::UnknownTheme),
                    }
                }
            },
            LineClass::Bad => Err(ParseError::Malformed),
        }
    }
}

/// The configuration a text denotes, or why it denotes none.
pub open spec fn parse_spec(s: Seq<char>) -> Result<Config, ParseError> {
    match parse_lines(split_lines(s), None) {
        Ok(th) => Ok(Config { theme: th }),
        Err(e) => Err(e),
    }
}

/// The text a configuration is written as: the one `theme` entry in
/// canonical form, or nothing when no theme is recorded.
pub open spec fn serialize_spec(c: Config) -> Seq<char> {
    match c.theme {
        Some(t) => "theme = \""@ + theme_name_spec(t) + "\"\n"@,
        None => Seq::<char>::empty(),
    }
}

/// What handling one line does to the parse.
enum LineAction {
    Skip,
    SetTheme(Theme),
    Unknown,
    Bad,
}

/// Handles one line: skips blanks, comments and foreign keys, resolves a
/// `theme` entry's name, and rejects everything else.
fn process_line(line: &str) -> (r: LineAction)
    ensures
        (match classify(line@) {
            LineClass::Blank => r == LineAction::Skip,
            LineClass::Other => r == LineAction::Skip,
            LineClass::ThemeName(n) => (match theme_from_name_spec(n) {
                Some(t) => r == LineAction::SetTheme(t),
                None => r == LineAction::Unknown,
            }),
            LineClass::Bad => r == LineAction::Bad,
        }),
{
    let t = trim_str(line);
    let tn = t.unicode_len();
    if tn == 0 {
        return LineAction::Skip;
    }
    if t.get_char(0) == '#' {
        return LineAction::Skip;
    }
    let j = find_char_in(t, 0, '=');
    proof {
        lemma_find_char_at(t@, '=', j as int);
    }
    if j == tn {
        return LineAction::Bad;
    }
    let key = trim_str(t.substring_char(0, j));
    let val = trim_str(t.substring_char(j + 1, tn));
    proof {
        assert(t@.subrange(0, j as int) =~= t@.take(j as int));
        assert(t@.subrange(j + 1, tn as int) =~= t@.skip(j + 1));
    }
    if !str_eq(key, "theme") {
        return LineAction::Skip;
    }
    let vn = val.unicode_len();
    if vn < 2 {
        return LineAction::Bad;
    }
    if val.get_char(0) != '"' || val.get_char(vn - 1) != '"' {
        return LineAction::Bad;
    }
    let inner = val.substring_char(1, vn - 1);
    let q = find_char_in(inner, 0, '"');
    proof {
        lemma_find_char_at(inner@, '"', q as int);
    }
    if q < vn - 2 {
        return LineAction::Bad;
    }
    match theme_from_name(inner) {
        Some(th) => LineAction::SetTheme(th),
        None => LineAction::Unknown,
    }
}

/// Reads the text from character position `i` on, line by line, carrying
/// the theme entry seen so far.
fn parse_from(contents: &str, i: usize, acc: Option<Theme>) -> (r: Result<
    Option<Theme>,
    ParseError,
>)
    requires
        i <= contents@.len(),
    ensures
        r == parse_lines(split_lines(contents@.skip(i as int)), acc),
    decreases contents@.len() - i,
{
    let n = contents.unicode_len();
    let j = find_char_in(contents, i, '\n');
    let line = contents.substring_char(i, j);
    proof {
        reveal_with_fuel(parse_lines, 3);
        let rest = contents@.skip(i as int);
        assert(forall|k: int| 0 <= k < rest.len() ==> rest[k] == contents@[k + i]);
        lemma_find_char_at(rest, '\n', j - i);
        assert(line@ =~= rest.take(j - i));
        if j < n {
            assert(rest.skip(j - i + 1) =~= contents@.skip(j + 1));
            assert(split_lines(rest) == seq![line@] + split_lines(contents@.skip(j + 1)));
            assert((seq![line@] + split_lines(contents@.skip(j + 1))).first() == line@);
            assert((seq![line@] + split_lines(contents@.skip(j + 1))).drop_first() =~= split_lines(
                contents@.skip(j + 1),
            ));
        } else {
            assert(rest.take(j - i) =~= rest);
            assert(split_lines(rest) == seq![line@]);
            assert(seq![line@].first() == line@);
            assert(seq![line@].drop_first() =~= Seq::<Seq<char>>::empty());
        }
    }
    match process_line(line) {
        LineAction::Skip => {
            if j < n {
                parse_from(contents, j + 1, acc)
            } else {
                Ok(acc)
            }
        },
        LineAction::SetTheme(t) => {
            if acc.is_some() {
                Err(ParseError::DuplicateTheme)
            } else if j < n {
                parse_from(contents, j + 1, Some(t))
            } else {
                Ok(Some(t))
            }
        },
        LineAction::Unknown => {
            if acc.is_some() {
                Err(ParseError::DuplicateTheme)
            } else {
                Err(ParseError::UnknownTheme)
            }
        },
        LineAction::Bad => Err(ParseError::Malformed),
    }
}

/// Reads a configuration from its text: `Ok` exactly when every line is
/// blank, a comment or a `key = value` entry, and at most one `theme`
/// entry appears, holding a quoted known name; otherwise the first
/// rejection, as `parse_spec` states it.
pub fn parse_config(contents: &str) -> (r: Result<Config, ParseError>)
    ensures
        r == parse_spec(contents@),
{
    proof {
        assert(contents@.skip(0) =~= contents@);
    }
    match parse_from(contents, 0, None) {
        Ok(th) => Ok(Config { theme: th }),
        Err(e) => Err(e),
    }
}

/// Writes a configuration in canonical form: the one `theme` entry, or
/// the empty text when no theme is recorded.
pub fn serialize_config(c: &Config) -> (r: String)
    ensures
        r@ == serialize_spec(*c),
{
    match c.theme {
        Some(t) => {
            let mut s = String::from_str("theme = \"");
            s.append(t.name());
            s.append("\"\n");
            s
        },
        None => String::new(),
    }
}

/// A single serialized `theme` entry parses back to exactly the theme its
/// quoted name denotes, for every name free of newlines and quotes.
proof fn lemma_parse_theme_line(n: Seq<char>)
    requires
        forall|j: int| 0 <= j < n.len() ==> n[j] != '\n',
        forall|j: int| 0 <= j < n.len() ==> n[j] != '"',
    ensures
        parse_spec("theme = \""@ + n + "\"\n"@) == (match theme_from_name_spec(n) {
            Some(t) => Ok::<Config, ParseError>(Config { theme: Some(t) }),
            None => Err::<Config, ParseError>(ParseError::UnknownTheme),
        }),
{
    reveal_strlit("theme = \"");
    reveal_strlit("\"\n");
    reveal_strlit("theme ");
    reveal_strlit("theme");
    let pre = "theme = \""@;
    let suf = "\"\n"@;
    let doc = pre + n + suf;
    let ln = n.len() as int;
    assert(pre.len() == 9);
    assert(suf.len() == 2);
    assert(doc.len() == ln + 11);
    assert(forall|j: int| 0 <= j < 9 ==> doc[j] == pre[j]);
    assert(forall|j: int| 9 <= j < 9 + ln ==> doc[j] == n[j - 9]);
    assert(doc[9 + ln] == '"');
    assert(doc[10 + ln] == '\n');

    // the one newline stands at the very end, so the text splits into
    // the entry line and one trailing empty line
    assert forall|j: int| 0 <= j < 10 + ln implies doc[j] != '\n' by {
        if j < 9 {
            assert(doc[j] == pre[j]);
        } else if j < 9 + ln {
            assert(doc[j] == n[j - 9]);
        } else {
            assert(doc[j] == '"');
        }
    }
    lemma_find_char_at(doc, '\n', 10 + ln);
    let line = doc.take(10 + ln);
    assert(doc.skip(11 + ln) =~= Seq::<char>::empty());
    assert(split_lines(Seq::<char>::empty()) == seq![Seq::<char>::empty()]);
    assert(split_lines(doc) == seq![line] + split_lines(Seq::<char>::empty()));

    // the line: `theme = "` then the name then `"`, untouched by trim
    assert(line.len() == 10 + ln);
    assert(forall|j: int| 0 <= j < 9 ==> line[j] == pre[j]);
    assert(forall|j: int| 9 <= j < 9 + ln ==> line[j] == n[j - 9]);
    assert(line[9 + ln] == '"');
    assert(line[0] == 't');
    assert(trim_front(line) == line);
    assert(trim_back(line) == line);
    assert(trim(line) == line);

    // the first `=` stands at position 6
    assert(line[6] == '=');
    assert forall|j: int| 0 <= j < 6 implies line[j] != '=' by {
        assert(line[j] == pre[j]);
    }
    lemma_find_char_at(line, '=', 6);

    // the key trims to `theme`
    assert(line.take(6) =~= "theme "@);
    assert(trim_front("theme "@) == "theme "@);
    assert("theme "@.take(5) =~= "theme"@);
    assert(trim_back("theme"@) == "theme"@);
    assert(trim_back("theme "@) == trim_back("theme"@));
    assert(trim("theme "@) == "theme"@);

    // the value trims to the quoted name
    let valraw = line.skip(7);
    let quoted = line.skip(8);
    assert(valraw.len() == 3 + ln);
    assert(valraw[0] == ' ');
    assert(valraw.skip(1) =~= quoted);
    assert(quoted.len() == 2 + ln);
    assert(quoted[0] == '"');
    assert(quoted[1 + ln] == '"');
    assert(trim_front(valraw) == trim_front(quoted));
    assert(trim_front(quoted) == quoted);
    assert(trim_back(quoted) == quoted);
    assert(trim(valraw) == quoted);

    // the quotes hold exactly the name, which holds no quote of its own
    assert(quoted.subrange(1, 1 + ln) =~= n);
    lemma_find_char_at(n, '"', ln);
    assert(classify(line) == LineClass::ThemeName(n));

    // the trailing empty line is blank
    assert(trim(Seq::<char>::empty()) == Seq::<char>::empty());
    assert(classify(Seq::<char>::empty()) == LineClass::Blank);

    // fold the two lines
    reveal_with_fuel(parse_lines, 4);
    let lines = seq![line] + split_lines(Seq::<char>::empty());
    assert(lines.first() == line);
    assert(lines.drop_first() =~= seq![Seq::<char>::empty()]);
    assert(seq![Seq::<char>::empty()].drop_first() =~= Seq::<Seq<char>>::empty());
    match theme_from_name_spec(n) {
        Some(t) => {
            assert(parse_lines(seq![Seq::<char>::empty()], Some(t)) == Ok::<
                Option<Theme>,
                ParseError,
            >(Some(t)));
            assert(parse_lines(lines, None) == Ok::<Option<Theme>, ParseError>(Some(t)));
        },
        None => {
            assert(parse_lines(lines, None) == Err::<Option<Theme>, ParseError>(
                ParseError::UnknownTheme,
            ));
        },
    }
}

/// Every canonical theme name is free of newlines and quotes, and reads
/// back to its own theme.
proof fn lemma_theme_name_wf(t: Theme)
    ensures
        forall|j: int| 0 <= j < theme_name_spec(t).len() ==> theme_name_spec(t)[j] != '\n',
        forall|j: int| 0 <= j < theme_name_spec(t).len() ==> theme_name_spec(t)[j] != '"',
        theme_from_name_spec(theme_name_spec(t)) == Some(t),
{
    reveal_strlit("mango");
    reveal_strlit("forest");
    reveal_strlit("night");
    reveal_strlit("gruvbox-dark");
    reveal_strlit("gruvbox");
    reveal_strlit("gruvbox-light");
    reveal_strlit("catppuccin");
    reveal_strlit("catpuccin");
    reveal_strlit("light");
    reveal_strlit("dark");
    reveal_strlit("matrix");
    match t {
        Theme::Mango => {
            assert(theme_name_spec(t) == "mango"@);
            assert forall|j: int| 0 <= j < "mango"@.len() implies "mango"@[j] != '\n' by {}
            assert forall|j: int| 0 <= j < "mango"@.len() implies "mango"@[j] != '"' by {}
            assert(theme_from_name_spec("mango"@) == Some(Theme::Mango));
        },
        Theme::Forest => {
            assert(theme_name_spec(t) == "forest"@);
            assert forall|j: int| 0 <= j < "forest"@.len() implies "forest"@[j] != '\n' by {}
            assert forall|j: int| 0 <= j < "forest"@.len() implies "forest"@[j] != '"' by {}
            assert(theme_from_name_spec("forest"@) == Some(Theme::Forest));
        },
        Theme::Night => {
            assert("night"@[0] != "mango"@[0]);
            assert(theme_name_spec(t) == "night"@);
            assert forall|j: int| 0 <= j < "night"@.len() implies "night"@[j] != '\n' by {}
            assert forall|j: int| 0 <= j < "night"@.len() implies "night"@[j] != '"' by {}
            assert(theme_from_name_spec("night"@) == Some(Theme::Night));
        },
        Theme::GruvboxDark => {
            assert(theme_name_spec(t) == "gruvbox-dark"@);
            assert forall|j: int| 0 <= j < "gruvbox-dark"@.len() implies "gruvbox-dark"@[j] != '\n' by {}
            assert forall|j: int| 0 <= j < "gruvbox-dark"@.len() implies "gruvbox-dark"@[j] != '"' by {}
            assert(theme_from_name_spec("gruvbox-dark"@) == Some(Theme::GruvboxDark));
        },
        Theme::GruvboxLight => {
            assert(theme_name_spec(t) == "gruvbox-light"@);
            assert forall|j: int| 0 <= j < "gruvbox-light"@.len() implies "gruvbox-light"@[j] != '\n' by {}
            assert forall|j: int| 0 <= j < "gruvbox-light"@.len() implies "gruvbox-light"@[j] != '"' by {}
            assert(theme_from_name_spec("gruvbox-light"@) == Some(Theme::GruvboxLight));
        },
        Theme::Catppuccin => {
            assert(theme_name_spec(t) == "catppuccin"@);
            assert forall|j: int| 0 <= j < "catppuccin"@.len() implies "catppuccin"@[j] != '\n' by {}
            assert forall|j: int| 0 <= j < "catppuccin"@.len() implies "catppuccin"@[j] != '"' by {}
            assert(theme_from_name_spec("catppuccin"@) == Some(Theme::Catppuccin));
        },
        Theme::Light => {
            assert("light"@[0] != "mango"@[0]);
            assert("light"@[0] != "night"@[0]);
            assert(theme_name_spec(t) == "light"@);
            assert forall|j: int| 0 <= j < "light"@.len() implies "light"@[j] != '\n' by {}
            assert forall|j: int| 0 <= j < "light"@.len() implies "light"@[j] != '"' by {}
            assert(theme_from_name_spec("light"@) == Some(Theme::Light));
        },
        Theme::Dark => {
            assert(theme_name_spec(t) == "dark"@);
            assert forall|j: int| 0 <= j < "dark"@.len() implies "dark"@[j] != '\n' by {}
            assert forall|j: int| 0 <= j < "dark"@.len() implies "dark"@[j] != '"' by {}
            assert(theme_from_name_spec("dark"@) == Some(Theme::Dark));
        },
        Theme::Matrix => {
            assert("matrix"@[0] != "forest"@[0]);
            assert(theme_name_spec(t) == "matrix"@);
            assert forall|j: int| 0 <= j < "matrix"@.len() implies "matrix"@[j] != '\n' by {}
            assert forall|j: int| 0 <= j < "matrix"@.len() implies "matrix"@[j] != '"' by {}
            assert(theme_from_name_spec("matrix"@) == Some(Theme::Matrix));
        },
    }
}

/// Round-trip law: writing a configuration that records a theme and
/// reading the text back yields exactly that configuration, for every
/// theme.
pub proof fn lemma_config_round_trip(t: Theme)
    ensures
        parse_spec(serialize_spec(Config { theme: Some(t) })) == Ok::<Config, ParseError>(
            Config { theme: Some(t) },
        ),
{
    lemma_theme_name_wf(t);
    lemma_parse_theme_line(theme_name_spec(t));
}

/// Alias law: a record written with a recognized legacy alias for a theme
/// reads back to the same canonical theme as the canonically written
/// record.
pub proof fn lemma_alias_round_trip()
    ensures
        parse_spec("theme = \""@ + "gruvbox"@ + "\"\n"@) == parse_spec(
            serialize_spec(Config { theme: Some(Theme::GruvboxDark) }),
        ),
        parse_spec("theme = \""@ + "catpuccin"@ + "\"\n"@) == parse_spec(
            serialize_spec(Config { theme: Some(Theme::Catppuccin) }),
        ),
{
    reveal_strlit("mango");
    reveal_strlit("forest");
    reveal_strlit("night");
    reveal_strlit("gruvbox-dark");
    reveal_strlit("gruvbox");
    reveal_strlit("gruvbox-light");
    reveal_strlit("catppuccin");
    reveal_strlit("catpuccin");
    assert(theme_from_name_spec("gruvbox"@) == Some(Theme::GruvboxDark));
    assert(theme_from_name_spec("catpuccin"@) == Some(Theme::Catppuccin));
    assert forall|j: int| 0 <= j < "gruvbox"@.len() implies "gruvbox"@[j] != '\n' by {}
    assert forall|j: int| 0 <= j < "gruvbox"@.len() implies "gruvbox"@[j] != '"' by {}
    assert forall|j: int| 0 <= j < "catpuccin"@.len() implies "catpuccin"@[j] != '\n' by {}
    assert forall|j: int| 0 <= j < "catpuccin"@.len() implies "catpuccin"@[j] != '"' by {}
    lemma_parse_theme_line("gruvbox"@);
    lemma_parse_theme_line("catpuccin"@);
    lemma_config_round_trip(Theme::GruvboxDark);
    lemma_config_round_trip(Theme::Catppuccin);
}

} // verus!
