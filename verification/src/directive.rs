//! The inclusion directive: a line that asks for a fragment by name.

use vstd::prelude::*;

verus! {

/// The regular expression that finds a directive in a line. Its one group
/// is the fragment's name.
pub const DIRECTIVE_PATTERN: &'static str = "<!-- template: (.+?) -->";

/// What the regex engine finds when `pattern` is searched for in `text`:
/// `None` where it rejects the pattern; otherwise the text that the first
/// group of the leftmost match covers, or `None` where nothing matches or the
/// group took no part in the match.
pub uninterp spec fn first_group(pattern: Seq<char>, text: Seq<char>) -> Option<Option<Seq<char>>>;

/// Calls `regex::Regex::new` on `pattern`, then `Regex::captures` on `text`
/// and `Captures::get(1)` on the match. Nothing is proved of the search: the
/// result is only given the name [`first_group`], which claims that it
/// depends on the two strings alone.
#[verifier::external_body]
fn capture_first_group(pattern: &str, text: &str) -> (found: Option<Option<String>>)
    ensures
        first_group(pattern@, text@) == match found {
            Some(Some(s)) => Some(Some(s@)),
            Some(None) => Some(None),
            None => None,
        },
{
    let re = match regex::Regex::new(pattern) {
        Ok(re) => re,
        Err(_) => return None,
    };
    match re.captures(text) {
        Some(caps) => match caps.get(1) {
            Some(m) => Some(Some(m.as_str().to_owned())),
            None => Some(None),
        },
        None => Some(None),
    }
}

/// A line of a markup page after it was searched for a directive.
#[derive(Debug, Clone)]
pub enum Line {
    /// A line without a directive.
    Text(String),
    /// A line that holds a directive for the fragment `name`.
    Include { text: String, name: String },
}

/// The mathematical value of a [`Line`].
pub enum LineView {
    Text(Seq<char>),
    Include { text: Seq<char>, name: Seq<char> },
}

impl View for Line {
    type V = LineView;

    open spec fn view(&self) -> LineView {
        match self {
            Line::Text(text) => LineView::Text(text@),
            Line::Include { text, name } => LineView::Include { text: text@, name: name@ },
        }
    }
}

/// The engine rejected the directive pattern, so no line can be searched.
#[derive(Debug, Clone, Copy, PartialEq, Eq, Structural)]
pub struct PatternRejected;

/// The line that `text` is, given what the search for the directive pattern
/// found in it.
pub open spec fn classified(text: Seq<char>, found: Option<Seq<char>>) -> LineView {
    match found {
        Some(name) => LineView::Include { text, name },
        None => LineView::Text(text),
    }
}

/// The line that `text` is when directives are found by `pattern`, where
/// the engine accepts the pattern.
pub open spec fn searched(pattern: Seq<char>, text: Seq<char>) -> Option<LineView> {
    match first_group(pattern, text) {
        Some(found) => Some(classified(text, found)),
        None => None,
    }
}

/// Whether the engine accepts the directive pattern when it searches `text`.
pub open spec fn searchable(text: Seq<char>) -> bool {
    searched(DIRECTIVE_PATTERN@, text) is Some
}

/// The line that `text` is. Meaningful where `searchable(text)`.
pub open spec fn scanned(text: Seq<char>) -> LineView {
    match searched(DIRECTIVE_PATTERN@, text) {
        Some(line) => line,
        None => LineView::Text(text),
    }
}

/// Turns the outcome of a search in `text` into a line: a directive for the
/// captured name, or plain text.
pub fn classify(text: &str, found: Option<String>) -> (line: Line)
    ensures
        line@ == classified(text@, match found {
            Some(name) => Some(name@),
            None => None,
        }),
{
    match found {
        Some(name) => Line::Include { text: text.to_owned(), name },
        None => Line::Text(text.to_owned()),
    }
}

/// Searches `text` for a directive in the syntax that `pattern` gives: the
/// first group of the pattern is the fragment's name. Fails where the engine
/// rejects the pattern.
pub fn search(pattern: &str, text: &str) -> (r: Result<Line, PatternRejected>)
    ensures
        match r {
            Ok(line) => searched(pattern@, text@) == Some(line@),
            Err(_) => searched(pattern@, text@) is None,
        },
{
    match capture_first_group(pattern, text) {
        Some(found) => Ok(classify(text, found)),
        None => Err(PatternRejected),
    }
}

/// Searches `text` for a directive.
pub fn scan_line(text: &str) -> (r: Result<Line, PatternRejected>)
    ensures
        r is Ok <==> searchable(text@),
        r matches Ok(line) ==> line@ == scanned(text@),
{
    search(DIRECTIVE_PATTERN, text)
}

/// The views of a sequence of lines, in order.
pub open spec fn lines_view(lines: Seq<Line>) -> Seq<LineView> {
    lines.map_values(|l: Line| l@)
}

/// The lines that `texts` are, in order.
pub open spec fn scanned_all(texts: Seq<String>) -> Seq<LineView> {
    texts.map_values(|t: String| scanned(t@))
}

/// Searches every line of a page for a directive. Fails only where the
/// engine rejects the directive pattern.
pub fn scan(texts: &Vec<String>) -> (r: Result<Vec<Line>, PatternRejected>)
    ensures
        r is Ok <==> forall|i: int| 0 <= i < texts.len() ==> searchable(#[trigger] texts[i]@),
        r matches Ok(lines) ==> lines_view(lines@) == scanned_all(texts@),
{
    let mut lines: Vec<Line> = Vec::new();
    let mut i: usize = 0;
    while i < texts.len()
        invariant
            i <= texts.len(),
            lines.len() == i,
            forall|j: int| 0 <= j < i ==> searchable(#[trigger] texts[j]@),
            forall|j: int| 0 <= j < i ==> (#[trigger] lines[j])@ == scanned(texts[j]@),
        decreases texts.len() - i,
    {
        match scan_line(texts[i].as_str()) {
            Ok(line) => lines.push(line),
            Err(e) => {
                return Err(e);
            },
        }
        i += 1;
    }
    proof {
        assert(lines_view(lines@) =~= scanned_all(texts@));
    }
    Ok(lines)
}

/// A directive as it was found: the fragment it names, the file that holds
/// it, and its line there, counted from one.
#[derive(Debug, Clone)]
pub struct Directive {
    pub name: String,
    pub file: String,
    pub line: usize,
}

/// The mathematical value of a [`Directive`].
pub struct DirectiveView {
    pub name: Seq<char>,
    pub file: Seq<char>,
    pub line: nat,
}

impl View for Directive {
    type V = DirectiveView;

    open spec fn view(&self) -> DirectiveView {
        DirectiveView { name: self.name@, file: self.file@, line: self.line as nat }
    }
}

/// The views of a sequence of directives, in order.
pub open spec fn directives_view(items: Seq<Directive>) -> Seq<DirectiveView> {
    items.map_values(|d: Directive| d@)
}

/// The directives of the page `lines` held by `file`, in the order of the
/// lines.
pub open spec fn page_directives(file: Seq<char>, lines: Seq<LineView>) -> Seq<DirectiveView>
    decreases lines.len(),
{
    if lines.len() == 0 {
        seq![]
    } else {
        let before = page_directives(file, lines.drop_last());
        match lines.last() {
            LineView::Include { text, name } => before.push(DirectiveView { name, file, line: lines.len() }),
            LineView::Text(_) => before,
        }
    }
}

/// Lists the directives of a page whose lines have been searched: the
/// fragments to look for before the page is rendered.
pub fn directives(file: &str, lines: &Vec<Line>) -> (found: Vec<Directive>)
    ensures
        directives_view(found@) == page_directives(file@, lines_view(lines@)),
{
    let ghost lv = lines_view(lines@);
    let mut found: Vec<Directive> = Vec::new();
    let mut i: usize = 0;
    proof {
        assert(directives_view(found@) =~= page_directives(file@, lv.take(0)));
    }
    while i < lines.len()
        invariant
            i <= lines.len(),
            lv == lines_view(lines@),
            directives_view(found@) == page_directives(file@, lv.take(i as int)),
        decreases lines.len() - i,
    {
        proof {
            assert(lv.take(i + 1).drop_last() =~= lv.take(i as int));
            assert(lv.take(i + 1).last() == lines[i as int]@);
        }
        match &lines[i] {
            Line::Include { text, name } => {
                found.push(Directive { name: name.clone(), file: file.to_owned(), line: i + 1 });
            },
            Line::Text(_) => {},
        }
        proof {
            assert(directives_view(found@) =~= page_directives(file@, lv.take(i + 1)));
        }
        i += 1;
    }
    proof {
        assert(lv.take(lines.len() as int) =~= lv);
    }
    found
}

} // verus!
