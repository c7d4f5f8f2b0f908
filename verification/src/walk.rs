//! Walking the source tree: what to do with each directory entry, and what
//! the run remembers once it is done.

use vstd::prelude::*;
use crate::context::RunContext;
use crate::diagnostic::{DiagnosticView, file_failure};
use crate::directive::LineView;
use crate::resolve::{FragmentView, lemma_consumed_holds_fragment, lookup, rendered_into};

verus! {

/// What a directory entry is.
#[derive(Debug, Clone, Copy, PartialEq, Eq, Structural)]
pub enum EntryKind {
    Directory,
    File,
}

/// What the walk does with a directory entry.
#[derive(Debug, Clone, Copy, PartialEq, Eq, Structural)]
pub enum EntryAction {
    /// Create the directory in the output tree and walk the entries below it.
    Descend,
    /// Leave the file alone: it was handled earlier in this run.
    Skip,
    /// Rewrite the file as a markup page.
    Resolve,
    /// Copy the file byte for byte.
    Copy,
}

/// How an action on a file ended.
#[derive(Debug, Clone)]
pub enum Outcome {
    Done,
    Failed(String),
}

/// Whether a file with this extension is a markup page.
pub open spec fn markup_extension(extension: Option<Seq<char>>) -> bool {
    extension == Some("html"@)
}

/// The action for the entry at `path`, given the files handled so far.
pub open spec fn planned(
    processed: Set<Seq<char>>,
    path: Seq<char>,
    kind: EntryKind,
    extension: Option<Seq<char>>,
) -> EntryAction {
    if kind == EntryKind::Directory {
        EntryAction::Descend
    } else if processed.contains(path) {
        EntryAction::Skip
    } else if markup_extension(extension) {
        EntryAction::Resolve
    } else {
        EntryAction::Copy
    }
}

/// The view of an extension that may be absent.
pub open spec fn extension_view(extension: Option<&str>) -> Option<Seq<char>> {
    match extension {
        Some(e) => Some(e@),
        None => None,
    }
}

/// Whether a file with this extension is a markup page.
pub fn is_markup(extension: Option<&str>) -> (markup: bool)
    ensures
        markup == markup_extension(extension_view(extension)),
{
    match extension {
        Some(e) => e.to_owned() == "html".to_owned(),
        None => false,
    }
}

/// Decides what to do with the entry at `path`: a directory is descended
/// into; a file handled earlier in this run is skipped; any other file is
/// rewritten where its extension marks it as a markup page, and copied where
/// it does not.
pub fn plan_entry(ctx: &RunContext, path: &str, kind: EntryKind, extension: Option<&str>) -> (action: EntryAction)
    ensures
        action == planned(ctx.processed_set(), path@, kind, extension_view(extension)),
{
    match kind {
        EntryKind::Directory => EntryAction::Descend,
        EntryKind::File => {
            if ctx.is_processed(path) {
                EntryAction::Skip
            } else if is_markup(extension) {
                EntryAction::Resolve
            } else {
                EntryAction::Copy
            }
        },
    }
}

/// The diagnostics after `action` on the entry at `path` ended in `outcome`:
/// a failed rewrite or copy adds one for the file, anything else adds none.
pub open spec fn recorded_after(
    before: RunContext,
    path: Seq<char>,
    action: EntryAction,
    outcome: Outcome,
) -> Seq<DiagnosticView> {
    let on_file = action == EntryAction::Resolve || action == EntryAction::Copy;
    match outcome {
        Outcome::Failed(message) if on_file => before.recorded().push(file_failure(path, message@)),
        _ => before.recorded(),
    }
}

/// The handled files after `action` on the entry at `path`: every file
/// counts as handled, whether it was rewritten, copied or skipped, and
/// whether or not that went well.
pub open spec fn processed_after(before: RunContext, path: Seq<char>, action: EntryAction) -> Set<Seq<char>> {
    if action == EntryAction::Descend {
        before.processed_set()
    } else {
        before.processed_set().insert(path)
    }
}

/// Takes note of how `action` on the entry at `path` ended. A failure on a
/// file becomes a diagnostic and does not stop the walk.
pub fn settle(ctx: &mut RunContext, path: &str, action: EntryAction, outcome: &Outcome)
    ensures
        final(ctx).recorded() == recorded_after(*old(ctx), path@, action, *outcome),
        final(ctx).processed_set() == processed_after(*old(ctx), path@, action),
{
    match action {
        EntryAction::Descend => {},
        EntryAction::Skip => {
            ctx.mark_processed(path);
        },
        EntryAction::Resolve | EntryAction::Copy => {
            match outcome {
                Outcome::Failed(message) => {
                    ctx.record_failure(path, message.as_str());
                },
                Outcome::Done => {},
            }
            ctx.mark_processed(path);
        },
    }
}

/// A run forgets what an earlier run handled: at the start of a run no file
/// is skipped, whatever was consumed as a fragment before.
pub proof fn lemma_fresh_run_skips_nothing(ctx: RunContext, path: Seq<char>, kind: EntryKind, extension: Option<Seq<char>>)
    requires
        ctx.processed_set() == Set::<Seq<char>>::empty(),
    ensures
        planned(ctx.processed_set(), path, kind, extension) != EntryAction::Skip,
{
}

/// Within a run, a file that was handled is skipped from then on.
pub proof fn lemma_handled_file_is_skipped(
    before: RunContext,
    path: Seq<char>,
    action: EntryAction,
    extension: Option<Seq<char>>,
)
    requires
        action != EntryAction::Descend,
    ensures
        planned(processed_after(before, path, action), path, EntryKind::File, extension) == EntryAction::Skip,
{
}

/// A fragment that a page consumed is not emitted on its own: once the page
/// is rendered, the walk skips the fragment's file for the rest of the run,
/// whatever its extension.
pub proof fn lemma_consumed_fragment_is_skipped(
    before: RunContext,
    after: RunContext,
    path: Seq<char>,
    lines: Seq<LineView>,
    store: Seq<FragmentView>,
    i: int,
    extension: Option<Seq<char>>,
)
    requires
        rendered_into(before, after, path, lines, store),
        0 <= i < lines.len(),
        lines[i] is Include,
        lookup(store, lines[i]->name) is Some,
    ensures
        planned(
            after.processed_set(),
            lookup(store, lines[i]->name).unwrap().path,
            EntryKind::File,
            extension,
        ) == EntryAction::Skip,
{
    lemma_consumed_holds_fragment(lines, store, i);
}

} // verus!
