//! Which changes in a watched directory count, and which directories to watch.

use crate::paths::{WatchRoots, WatchRootsModel};
use crate::text::texts;
use vstd::prelude::*;

verus! {

/// What happened to a file in a watched directory.
#[derive(Clone, Copy, Debug, PartialEq, Eq)]
pub enum ChangeKind {
    /// A file or directory came into being.
    Created,
    /// The content of a file changed.
    DataModified,
    /// Something about a file changed, and the platform does not say what.
    Modified,
    /// Only times, permissions or other metadata changed.
    MetadataModified,
    /// A file got another name.
    Renamed,
    /// A file or directory went away.
    Removed,
    /// A file was read or opened.
    Accessed,
    /// Anything else.
    Other,
}

/// What to do with the watches when the directories to watch may have changed.
#[derive(Clone, Debug, PartialEq, Eq)]
pub struct WatchPlan {
    /// Watched directories to let go.
    pub drop: Vec<String>,
    /// Watched directories to go on watching.
    pub keep: Vec<String>,
    /// Directories to start watching.
    pub add: Vec<String>,
}

/// The mathematical value of a [`WatchPlan`].
pub struct WatchPlanModel {
    pub drop: Seq<Seq<char>>,
    pub keep: Seq<Seq<char>>,
    pub add: Seq<Seq<char>>,
}

impl View for WatchPlan {
    type V = WatchPlanModel;

    open spec fn view(&self) -> WatchPlanModel {
        WatchPlanModel { drop: texts(self.drop@), keep: texts(self.keep@), add: texts(self.add@) }
    }
}

/// Whether a change is worth a reload: a creation, or a modification that may have
/// touched content.
pub open spec fn is_relevant(kind: ChangeKind) -> bool {
    kind is Created || kind is DataModified || kind is Modified
}

/// The directories that `roots` asks for: the configuration directory, and then the
/// note's directory if there is one and it is another.
pub open spec fn wanted_dirs(roots: WatchRootsModel) -> Seq<Seq<char>> {
    match roots.note_dir {
        Some(dir) => if dir == roots.config_dir {
            seq![roots.config_dir]
        } else {
            seq![roots.config_dir, dir]
        },
        None => seq![roots.config_dir],
    }
}

/// Those of `items`, in order, that occur in `others` (for `present`) or that do not
/// (for `!present`).
pub open spec fn chosen(items: Seq<Seq<char>>, others: Seq<Seq<char>>, present: bool) -> Seq<
    Seq<char>,
>
    decreases items.len(),
{
    if items.len() == 0 {
        Seq::empty()
    } else if others.contains(items.last()) == present {
        chosen(items.drop_last(), others, present).push(items.last())
    } else {
        chosen(items.drop_last(), others, present)
    }
}

/// The plan that takes the watches from `watched` to what `roots` asks for: what is
/// watched and no longer wanted is let go, what is watched and wanted stays, and what is
/// wanted and not watched is added.
pub open spec fn watch_plan(watched: Seq<Seq<char>>, roots: WatchRootsModel) -> WatchPlanModel {
    WatchPlanModel {
        drop: chosen(watched, wanted_dirs(roots), false),
        keep: chosen(watched, wanted_dirs(roots), true),
        add: chosen(wanted_dirs(roots), watched, false),
    }
}

/// Whether a change of this kind sends a signal to the reload loop.
pub fn should_signal(kind: ChangeKind) -> (signal: bool)
    ensures
        signal == is_relevant(kind),
{
    match kind {
        ChangeKind::Created => true,
        ChangeKind::DataModified => true,
        ChangeKind::Modified => true,
        _ => false,
    }
}

/// Whether `item` occurs in `list`.
pub fn contains_text(list: &Vec<String>, item: &String) -> (found: bool)
    ensures
        found == texts(list@).contains(item@),
{
    let mut i: usize = 0;
    while i < list.len()
        invariant
            i <= list.len(),
            forall|j: int| 0 <= j < i ==> texts(list@)[j] != item@,
        decreases list.len() - i,
    {
        if list[i] == *item {
            assert(texts(list@)[i as int] == item@);
            return true;
        }
        i += 1;
    }
    false
}

/// Those of `items` that occur in `others`, or those that do not.
fn choose_dirs(items: &Vec<String>, others: &Vec<String>, present: bool) -> (out: Vec<String>)
    ensures
        texts(out@) == chosen(texts(items@), texts(others@), present),
{
    let mut out: Vec<String> = Vec::new();
    let mut i: usize = 0;
    while i < items.len()
        invariant
            i <= items.len(),
            texts(out@) == chosen(texts(items@).take(i as int), texts(others@), present),
        decreases items.len() - i,
    {
        proof {
            let now = texts(items@).take(i + 1);
            assert(now.drop_last() == texts(items@).take(i as int));
            assert(now.last() == items[i as int]@);
        }
        if contains_text(others, &items[i]) == present {
            let item = items[i].clone();
            assert(texts(out@.push(item)) == texts(out@).push(item@));
            out.push(item);
        }
        i += 1;
    }
    assert(texts(items@).take(items.len() as int) == texts(items@));
    out
}

/// The directories that `roots` asks for.
pub fn wanted(roots: &WatchRoots) -> (dirs: Vec<String>)
    ensures
        texts(dirs@) == wanted_dirs(roots@),
{
    let mut dirs: Vec<String> = Vec::new();
    dirs.push(roots.config_dir.clone());
    match &roots.note_dir {
        Some(dir) => {
            if *dir != roots.config_dir {
                dirs.push(dir.clone());
            }
        },
        None => {},
    }
    assert(texts(dirs@) == wanted_dirs(roots@));
    dirs
}

/// Plans the watches: `watched` is what is watched now, `roots` what should be.
pub fn plan_watches(watched: &Vec<String>, roots: &WatchRoots) -> (plan: WatchPlan)
    ensures
        plan@ == watch_plan(texts(watched@), roots@),
{
    let dirs = wanted(roots);
    WatchPlan {
        drop: choose_dirs(watched, &dirs, false),
        keep: choose_dirs(watched, &dirs, true),
        add: choose_dirs(&dirs, watched, false),
    }
}

/// What is chosen from `items` are the items that occur in `others`, or that do not.
pub proof fn lemma_chosen(
    items: Seq<Seq<char>>,
    others: Seq<Seq<char>>,
    present: bool,
    dir: Seq<char>,
)
    ensures
        chosen(items, others, present).contains(dir) <==> items.contains(dir) && others.contains(
            dir,
        ) == present,
    decreases items.len(),
{
    if items.len() > 0 {
        let head = items.drop_last();
        lemma_chosen(head, others, present, dir);
        let picked = chosen(items, others, present);
        if items.contains(dir) && others.contains(dir) == present {
            let i = choose|i: int| 0 <= i < items.len() && items[i] == dir;
            if i < items.len() - 1 {
                assert(head[i] == dir);
                let k = choose|k: int|
                    0 <= k < chosen(head, others, present).len() && chosen(head, others, present)[k]
                        == dir;
                assert(picked[k] == dir);
            } else {
                assert(picked.last() == dir);
            }
        }
        if picked.contains(dir) {
            let k = choose|k: int| 0 <= k < picked.len() && picked[k] == dir;
            if k < chosen(head, others, present).len() {
                assert(chosen(head, others, present)[k] == dir);
                let i = choose|i: int| 0 <= i < head.len() && head[i] == dir;
                assert(items[i] == dir);
            } else {
                assert(items[items.len() - 1] == dir);
            }
        }
    }
}

/// A plan loses nothing and watches nothing twice over: a directory is kept or added
/// exactly when it is wanted, none is both, and none that is let go is wanted.
pub proof fn plan_reaches_wanted(watched: Seq<Seq<char>>, roots: WatchRootsModel, dir: Seq<char>)
    ensures
        ({
            let plan = watch_plan(watched, roots);
            &&& plan.keep.contains(dir) || plan.add.contains(dir) <==> wanted_dirs(roots).contains(
                dir,
            )
            &&& !(plan.keep.contains(dir) && plan.add.contains(dir))
            &&& plan.drop.contains(dir) ==> !wanted_dirs(roots).contains(dir)
        }),
{
    lemma_chosen(watched, wanted_dirs(roots), false, dir);
    lemma_chosen(watched, wanted_dirs(roots), true, dir);
    lemma_chosen(wanted_dirs(roots), watched, false, dir);
}

} // verus!
