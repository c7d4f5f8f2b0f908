//! Rewriting one markup page: every directive whose fragment is at hand is
//! replaced by the fragment's content, once and without looking into it.

use vstd::prelude::*;
use crate::context::RunContext;
use crate::diagnostic::{Diagnostic, DiagnosticView, missing_fragment};
use crate::directive::{Line, LineView, PatternRejected, lines_view, scan, scanned_all, searchable};

verus! {

/// A fragment that exists: the name by which directives ask for it, the path
/// of its file and the file's content.
#[derive(Debug, Clone)]
pub struct Fragment {
    pub name: String,
    pub path: String,
    pub content: String,
}

/// The mathematical value of a [`Fragment`].
pub struct FragmentView {
    pub name: Seq<char>,
    pub path: Seq<char>,
    pub content: Seq<char>,
}

impl View for Fragment {
    type V = FragmentView;

    open spec fn view(&self) -> FragmentView {
        FragmentView { name: self.name@, path: self.path@, content: self.content@ }
    }
}

/// The views of a sequence of fragments, in order.
pub open spec fn fragments_view(store: Seq<Fragment>) -> Seq<FragmentView> {
    store.map_values(|f: Fragment| f@)
}

/// The first fragment of `store`, from position `start` on, that is called
/// `name`.
pub open spec fn lookup_from(store: Seq<FragmentView>, name: Seq<char>, start: int) -> Option<FragmentView>
    decreases store.len() - start,
{
    if start < 0 || start >= store.len() {
        None
    } else if store[start].name == name {
        Some(store[start])
    } else {
        lookup_from(store, name, start + 1)
    }
}

/// The first fragment of `store` that is called `name`.
pub open spec fn lookup(store: Seq<FragmentView>, name: Seq<char>) -> Option<FragmentView> {
    lookup_from(store, name, 0)
}

/// What one line contributes to the output: a fragment's content as it
/// stands in place of a directive that finds it, and otherwise the line
/// itself and a newline.
pub open spec fn line_output(line: LineView, store: Seq<FragmentView>) -> Seq<char> {
    match line {
        LineView::Text(text) => text.push('\n'),
        LineView::Include { text, name } => match lookup(store, name) {
            Some(fragment) => fragment.content,
            None => text.push('\n'),
        },
    }
}

/// The diagnostics that one line gives rise to: one where it is a directive
/// whose fragment is missing. `number` counts lines from one.
pub open spec fn line_diagnostics(
    path: Seq<char>,
    number: nat,
    line: LineView,
    store: Seq<FragmentView>,
) -> Seq<DiagnosticView> {
    match line {
        LineView::Include { text, name } if lookup(store, name) is None => seq![
            missing_fragment(path, number, name),
        ],
        _ => seq![],
    }
}

/// The paths of the fragments that one line consumes.
pub open spec fn line_consumed(line: LineView, store: Seq<FragmentView>) -> Seq<Seq<char>> {
    match line {
        LineView::Include { text, name } => match lookup(store, name) {
            Some(fragment) => seq![fragment.path],
            None => seq![],
        },
        LineView::Text(_) => seq![],
    }
}

/// The text of the rewritten page.
pub open spec fn page_output(lines: Seq<LineView>, store: Seq<FragmentView>) -> Seq<char>
    decreases lines.len(),
{
    if lines.len() == 0 {
        seq![]
    } else {
        page_output(lines.drop_last(), store) + line_output(lines.last(), store)
    }
}

/// The diagnostics of the page at `path`, in the order of its lines.
pub open spec fn page_diagnostics(
    path: Seq<char>,
    lines: Seq<LineView>,
    store: Seq<FragmentView>,
) -> Seq<DiagnosticView>
    decreases lines.len(),
{
    if lines.len() == 0 {
        seq![]
    } else {
        page_diagnostics(path, lines.drop_last(), store) + line_diagnostics(
            path,
            lines.len(),
            lines.last(),
            store,
        )
    }
}

/// The paths of the fragments that the page consumes, in the order of its
/// directives.
pub open spec fn page_consumed(lines: Seq<LineView>, store: Seq<FragmentView>) -> Seq<Seq<char>>
    decreases lines.len(),
{
    if lines.len() == 0 {
        seq![]
    } else {
        page_consumed(lines.drop_last(), store) + line_consumed(lines.last(), store)
    }
}

/// The lines of a page, each followed by a newline.
pub open spec fn joined(lines: Seq<LineView>) -> Seq<char>
    decreases lines.len(),
{
    if lines.len() == 0 {
        seq![]
    } else {
        joined(lines.drop_last()) + line_text(lines.last()).push('\n')
    }
}

/// The text of a line as it was read.
pub open spec fn line_text(line: LineView) -> Seq<char> {
    match line {
        LineView::Text(text) => text,
        LineView::Include { text, name } => text,
    }
}

/// Whether `after` is `before` with the page `lines` at `path` rendered into
/// it: the page's diagnostics follow those that were there, and the fragments
/// that the page consumes count as handled.
pub open spec fn rendered_into(
    before: RunContext,
    after: RunContext,
    path: Seq<char>,
    lines: Seq<LineView>,
    store: Seq<FragmentView>,
) -> bool {
    &&& after.recorded() == before.recorded() + page_diagnostics(path, lines, store)
    &&& after.processed_set() == before.processed_set() + page_consumed(lines, store).to_set()
}

/// Finds the first fragment of `store` that is called `name`, and gives its
/// position.
pub fn find_fragment(store: &Vec<Fragment>, name: &String) -> (found: Option<usize>)
    ensures
        match found {
            Some(k) => {
                &&& k < store.len()
                &&& store[k as int].name@ == name@
                &&& forall|j: int| 0 <= j < k ==> (#[trigger] store[j]).name@ != name@
                &&& lookup(fragments_view(store@), name@) == Some(store[k as int]@)
            },
            None => {
                &&& forall|j: int| 0 <= j < store.len() ==> (#[trigger] store[j]).name@ != name@
                &&& lookup(fragments_view(store@), name@) is None
            },
        },
{
    let ghost sv = fragments_view(store@);
    let mut k: usize = 0;
    while k < store.len()
        invariant
            k <= store.len(),
            sv == fragments_view(store@),
            lookup_from(sv, name@, k as int) == lookup(sv, name@),
            forall|j: int| 0 <= j < k ==> (#[trigger] store[j]).name@ != name@,
        decreases store.len() - k,
    {
        if store[k].name == *name {
            return Some(k);
        }
        k += 1;
    }
    None
}

/// Rewrites the page at `path`, whose lines have been searched for
/// directives, with the fragments of `store`, and returns the text to write.
/// A directive whose fragment is in `store` gives way to the fragment's
/// content, written as it is, and the fragment counts as handled; one whose
/// fragment is not there stays, and a diagnostic names the line. Every other
/// line stays, followed by a newline.
pub fn render(path: &str, lines: &Vec<Line>, store: &Vec<Fragment>, ctx: &mut RunContext) -> (output: String)
    ensures
        output@ == page_output(lines_view(lines@), fragments_view(store@)),
        rendered_into(*old(ctx), *final(ctx), path@, lines_view(lines@), fragments_view(store@)),
{
    let ghost lv = lines_view(lines@);
    let ghost sv = fragments_view(store@);
    let mut output = String::new();
    let mut i: usize = 0;
    proof {
        assert(ctx.recorded() =~= old(ctx).recorded() + page_diagnostics(path@, lv.take(0), sv));
        assert(ctx.processed_set() =~= old(ctx).processed_set() + page_consumed(lv.take(0), sv).to_set());
    }
    while i < lines.len()
        invariant
            i <= lines.len(),
            lv == lines_view(lines@),
            sv == fragments_view(store@),
            output@ == page_output(lv.take(i as int), sv),
            rendered_into(*old(ctx), *ctx, path@, lv.take(i as int), sv),
        decreases lines.len() - i,
    {
        let ghost before = *ctx;
        let ghost done = lv.take(i as int);
        proof {
            assert(lv.take(i + 1).drop_last() =~= done);
            assert(lv.take(i + 1).last() == lines[i as int]@);
        }
        match &lines[i] {
            Line::Text(text) => {
                output.append(text.as_str());
                output.append("\n");
            },
            Line::Include { text, name } => match find_fragment(store, name) {
                Some(k) => {
                    output.append(store[k].content.as_str());
                    ctx.mark_processed(store[k].path.as_str());
                    proof {
                        page_consumed(done, sv).lemma_push_to_set_commute(store[k as int]@.path);
                        assert(page_consumed(lv.take(i + 1), sv) =~= page_consumed(done, sv).push(
                            store[k as int]@.path,
                        ));
                    }
                },
                None => {
                    output.append(text.as_str());
                    output.append("\n");
                    ctx.record(Diagnostic::missing(path, i + 1, name.as_str()));
                },
            },
        }
        proof {
            reveal_strlit("\n");
            assert("\n"@ =~= seq!['\n']);
            assert(output@ =~= page_output(lv.take(i + 1), sv));
            assert(ctx.recorded() =~= old(ctx).recorded() + page_diagnostics(path@, lv.take(i + 1), sv));
            assert(page_consumed(lv.take(i + 1), sv) =~= page_consumed(done, sv) + line_consumed(
                lines[i as int]@,
                sv,
            ));
            assert(ctx.processed_set() =~= old(ctx).processed_set() + page_consumed(
                lv.take(i + 1),
                sv,
            ).to_set());
        }
        i += 1;
    }
    proof {
        assert(lv.take(lines.len() as int) =~= lv);
    }
    output
}

/// Rewrites the page at `path` from its lines as they were read: searches
/// each for a directive, then renders. Fails, and leaves `ctx` as it was,
/// only where the engine rejects the directive pattern.
pub fn resolve(path: &str, texts: &Vec<String>, store: &Vec<Fragment>, ctx: &mut RunContext) -> (r: Result<
    String,
    PatternRejected,
>)
    ensures
        r is Ok <==> forall|i: int| 0 <= i < texts.len() ==> searchable(#[trigger] texts[i]@),
        r matches Ok(output) ==> {
            &&& output@ == page_output(scanned_all(texts@), fragments_view(store@))
            &&& rendered_into(*old(ctx), *final(ctx), path@, scanned_all(texts@), fragments_view(store@))
        },
        r is Err ==> *final(ctx) == *old(ctx),
{
    match scan(texts) {
        Ok(lines) => Ok(render(path, &lines, store, ctx)),
        Err(e) => Err(e),
    }
}

/// A page without a directive comes out as it went in, each line followed
/// by a newline, whatever the fragments at hand; it gives no diagnostic and
/// consumes no fragment.
pub proof fn lemma_plain_page_verbatim(path: Seq<char>, lines: Seq<LineView>, store: Seq<FragmentView>)
    requires
        forall|i: int| 0 <= i < lines.len() ==> #[trigger] lines[i] is Text,
    ensures
        page_output(lines, store) == joined(lines),
        page_diagnostics(path, lines, store) == Seq::<DiagnosticView>::empty(),
        page_consumed(lines, store) == Seq::<Seq<char>>::empty(),
    decreases lines.len(),
{
    if lines.len() > 0 {
        lemma_plain_page_verbatim(path, lines.drop_last(), store);
        assert(lines.last() is Text);
        assert(page_diagnostics(path, lines, store) =~= Seq::<DiagnosticView>::empty());
        assert(page_consumed(lines, store) =~= Seq::<Seq<char>>::empty());
    }
}

/// A fragment is written as it stands: a directive in the fragment's own
/// content is not looked at, and no newline follows the content.
pub proof fn lemma_fragment_written_verbatim(
    done: Seq<LineView>,
    text: Seq<char>,
    name: Seq<char>,
    store: Seq<FragmentView>,
)
    requires
        lookup(store, name) is Some,
    ensures
        page_output(done.push(LineView::Include { text, name }), store) == page_output(done, store) + lookup(
            store,
            name,
        ).unwrap().content,
{
    let lines = done.push(LineView::Include { text, name });
    assert(lines.drop_last() =~= done);
}

/// Rendering is a function of the page and the fragments: two runs that
/// start afresh on the same page with the same fragments record the same
/// diagnostics and handle the same files. The text is the same by the
/// contract of `render`, which names it.
pub proof fn lemma_render_repeatable(
    first: RunContext,
    first_after: RunContext,
    second: RunContext,
    second_after: RunContext,
    path: Seq<char>,
    lines: Seq<LineView>,
    store: Seq<FragmentView>,
)
    requires
        first.recorded() == second.recorded(),
        first.processed_set() == second.processed_set(),
        rendered_into(first, first_after, path, lines, store),
        rendered_into(second, second_after, path, lines, store),
    ensures
        first_after.recorded() == second_after.recorded(),
        first_after.processed_set() == second_after.processed_set(),
{
}

/// The fragment that the directive on line `i` finds is among the page's
/// consumed fragments.
pub proof fn lemma_consumed_holds_fragment(lines: Seq<LineView>, store: Seq<FragmentView>, i: int)
    requires
        0 <= i < lines.len(),
        lines[i] is Include,
        lookup(store, lines[i]->name) is Some,
    ensures
        page_consumed(lines, store).contains(lookup(store, lines[i]->name).unwrap().path),
    decreases lines.len(),
{
    let fragment_path = lookup(store, lines[i]->name).unwrap().path;
    let head = page_consumed(lines.drop_last(), store);
    let tail = line_consumed(lines.last(), store);
    if i == lines.len() - 1 {
        assert(tail[0] == fragment_path);
        assert((head + tail)[head.len() as int] == fragment_path);
    } else {
        lemma_consumed_holds_fragment(lines.drop_last(), store, i);
        let k = choose|k: int| 0 <= k < head.len() && head[k] == fragment_path;
        assert((head + tail)[k] == fragment_path);
    }
}

/// A directive whose fragment is missing is reported with its line, counted
/// from one.
pub proof fn lemma_missing_fragment_is_reported(
    path: Seq<char>,
    lines: Seq<LineView>,
    store: Seq<FragmentView>,
    i: int,
)
    requires
        0 <= i < lines.len(),
        lines[i] is Include,
        lookup(store, lines[i]->name) is None,
    ensures
        page_diagnostics(path, lines, store).contains(missing_fragment(path, (i + 1) as nat, lines[i]->name)),
    decreases lines.len(),
{
    let wanted = missing_fragment(path, (i + 1) as nat, lines[i]->name);
    let head = page_diagnostics(path, lines.drop_last(), store);
    let tail = line_diagnostics(path, lines.len(), lines.last(), store);
    if i == lines.len() - 1 {
        assert(tail[0] == wanted);
        assert((head + tail)[head.len() as int] == wanted);
    } else {
        lemma_missing_fragment_is_reported(path, lines.drop_last(), store, i);
        let k = choose|k: int| 0 <= k < head.len() && head[k] == wanted;
        assert((head + tail)[k] == wanted);
    }
}

} // verus!
