//! The bounded search of an accessibility element tree: depth first, in
//! pre-order, children left to right, inspecting no element deeper than the
//! deepest inspected level and no more than the per-level limit of children
//! of any element, and stopping at the first element with a nonempty
//! selection.
use vstd::prelude::*;
use crate::ax::{children_to_search, search_limit, MAX_CHILDREN_PER_LEVEL, MAX_TREE_DEPTH};
use crate::error::GetTextError;

verus! {

/// Marks a level whose element has not had its children counted yet.
pub const UNOPENED: usize = 16;

/// Where a tree search stands.
#[derive(Debug, Clone, Copy, PartialEq, Eq)]
pub enum TreePhase {
    /// Waiting for the current element's reading.
    Inspecting,
    /// Waiting for the current element's child count.
    Counting,
    /// Waiting for the child that was asked for.
    Fetching,
    /// Waiting for the move back to the parent.
    Ascending,
    Finished,
}

/// What a tree search asks of the tree.
#[derive(Debug, PartialEq, Eq)]
pub enum TreeRequest {
    /// Read the current element's selection and context.
    Extract,
    /// Count the current element's children.
    CountChildren,
    /// Move to the current element's child at this index.
    Child(usize),
    /// Move back to the current element's parent.
    Parent,
    /// Stop with this result.
    Finish(Option<(String, Option<String>)>),
}

/// What the tree reports back.
#[derive(Debug, PartialEq, Eq)]
pub enum TreeReport {
    Reading(Result<(String, Option<String>), GetTextError>),
    Count(Option<usize>),
    /// Whether the asked-for child could be had.
    Child(bool),
    Done,
}

/// A tree search. `left[k]` and `limit[k]` count, for the open element at
/// depth `k`, the children still to visit and those to visit in all; `depth`
/// is the number of open elements.
#[derive(Debug)]
pub struct TreeWalk {
    pub phase: TreePhase,
    pub depth: usize,
    pub left: Vec<usize>,
    pub limit: Vec<usize>,
    pub found: Option<(String, Option<String>)>,
}

/// The number of levels the search keeps counts for.
pub open spec fn levels() -> int {
    MAX_TREE_DEPTH as int + 1
}

impl TreeWalk {
    pub open spec fn wf(&self) -> bool {
        &&& self.left@.len() == levels()
        &&& self.limit@.len() == levels()
        &&& self.depth <= levels()
        &&& forall|k: int|
            0 <= k < self.depth ==> #[trigger] self.left@[k] <= self.limit@[k]
                <= MAX_CHILDREN_PER_LEVEL
        &&& forall|k: int| 0 <= k < self.depth && #[trigger] self.limit@[k] > 0 ==> k < MAX_TREE_DEPTH
        &&& (self.phase == TreePhase::Inspecting || self.phase == TreePhase::Counting) ==> self.depth
            <= MAX_TREE_DEPTH && self.left@[self.depth as int] == UNOPENED
        &&& self.phase == TreePhase::Fetching ==> 1 <= self.depth <= MAX_TREE_DEPTH
            && self.left@[self.depth as int] == UNOPENED
        &&& self.phase == TreePhase::Ascending ==> 1 <= self.depth
    }
}

/// The step after the current element's children were counted or one of
/// them was done with: from the open elements `depth`, `left`, `limit`, the
/// next unvisited child of the deepest open element is asked for; where it
/// has none left, it is closed, and the search moves back to its parent, or
/// finishes without a selection where it was the root.
pub open spec fn tree_advance(
    depth: int,
    left: Seq<usize>,
    limit: Seq<usize>,
    t: TreeWalk,
    r: TreeRequest,
) -> bool {
    let k = depth - 1;
    if left[k] > 0 {
        &&& t.phase == TreePhase::Fetching
        &&& t.depth == depth
        &&& t.left@ == left.update(k, (left[k] - 1) as usize).update(k + 1, UNOPENED)
        &&& t.limit@ == limit
        &&& r == TreeRequest::Child((limit[k] - left[k]) as usize)
    } else if k == 0 {
        &&& t.phase == TreePhase::Finished
        &&& t.depth == 0
        &&& t.left@ == left
        &&& t.limit@ == limit
        &&& t.found == None::<(String, Option<String>)>
        &&& r == TreeRequest::Finish(None)
    } else {
        &&& t.phase == TreePhase::Ascending
        &&& t.depth == k
        &&& t.left@ == left
        &&& t.limit@ == limit
        &&& r == TreeRequest::Parent
    }
}

/// One step of a tree search from `s` on report `e`, to `t`, asking for `r`.
/// A report that the phase does not expect counts as a failed reading, a
/// count that could not be read, or a child that could not be had.
pub open spec fn tree_step(s: TreeWalk, e: TreeReport, t: TreeWalk, r: TreeRequest) -> bool {
    match s.phase {
        TreePhase::Inspecting => match e {
            TreeReport::Reading(Ok((sel, c))) if sel@.len() > 0 => {
                &&& t.phase == TreePhase::Finished
                &&& t.depth == s.depth
                &&& t.left@ == s.left@
                &&& t.limit@ == s.limit@
                &&& t.found == Some((sel, c))
                &&& r == TreeRequest::Finish(Some((sel, c)))
            },
            _ => {
                &&& t.phase == TreePhase::Counting
                &&& t.depth == s.depth
                &&& t.left@ == s.left@
                &&& t.limit@ == s.limit@
                &&& r == TreeRequest::CountChildren
            },
        },
        TreePhase::Counting => {
            let n = match e {
                TreeReport::Count(n) => n,
                _ => None,
            };
            let d = s.depth as int;
            let lim = search_limit(d, n) as usize;
            tree_advance(d + 1, s.left@.update(d, lim), s.limit@.update(d, lim), t, r)
        },
        TreePhase::Fetching => match e {
            TreeReport::Child(true) => {
                &&& t.phase == TreePhase::Inspecting
                &&& t.depth == s.depth
                &&& t.left@ == s.left@
                &&& t.limit@ == s.limit@
                &&& r == TreeRequest::Extract
            },
            _ => tree_advance(s.depth as int, s.left@, s.limit@, t, r),
        },
        TreePhase::Ascending => tree_advance(s.depth as int, s.left@, s.limit@, t, r),
        TreePhase::Finished => {
            &&& t == s
            &&& r == TreeRequest::Finish(s.found)
        },
    }
}

/// The rank of a phase within one position of the search.
pub open spec fn tree_phase_rank(p: TreePhase) -> int {
    match p {
        TreePhase::Fetching => 3,
        TreePhase::Inspecting => 2,
        TreePhase::Counting => 1,
        _ => 0,
    }
}

/// The search's progress: what is left to visit at each level, then depth and phase.
pub open spec fn tree_progress(w: TreeWalk) -> int {
    4 * w.depth + tree_phase_rank(w.phase)
}

/// `t` is nearer the end of the search than `s`, in the order of `left`
/// level by level, then of depth and phase.
pub open spec fn tree_before(t: TreeWalk, s: TreeWalk) -> bool {
    ||| t.left@[0] < s.left@[0]
    ||| t.left@[0] == s.left@[0] && t.left@[1] < s.left@[1]
    ||| t.left@[0] == s.left@[0] && t.left@[1] == s.left@[1] && t.left@[2] < s.left@[2]
    ||| t.left@[0] == s.left@[0] && t.left@[1] == s.left@[1] && t.left@[2] == s.left@[2]
        && t.left@[3] < s.left@[3]
    ||| t.left@[0] == s.left@[0] && t.left@[1] == s.left@[1] && t.left@[2] == s.left@[2]
        && t.left@[3] == s.left@[3] && t.left@[4] < s.left@[4]
    ||| t.left@[0] == s.left@[0] && t.left@[1] == s.left@[1] && t.left@[2] == s.left@[2]
        && t.left@[3] == s.left@[3] && t.left@[4] == s.left@[4] && t.left@[5] < s.left@[5]
    ||| t.left@[0] == s.left@[0] && t.left@[1] == s.left@[1] && t.left@[2] == s.left@[2]
        && t.left@[3] == s.left@[3] && t.left@[4] == s.left@[4] && t.left@[5] == s.left@[5]
        && t.left@[6] < s.left@[6]
    ||| t.left@[0] == s.left@[0] && t.left@[1] == s.left@[1] && t.left@[2] == s.left@[2]
        && t.left@[3] == s.left@[3] && t.left@[4] == s.left@[4] && t.left@[5] == s.left@[5]
        && t.left@[6] == s.left@[6] && tree_progress(t) < tree_progress(s)
}

impl TreeWalk {
    /// A search whose root is the current element; it first asks for the
    /// root's reading.
    pub fn new() -> (r: (TreeWalk, TreeRequest))
        ensures
            r.0.phase == TreePhase::Inspecting,
            r.0.depth == 0,
            r.0.wf(),
            r.1 == TreeRequest::Extract,
    {
        let mut left: Vec<usize> = Vec::new();
        let mut limit: Vec<usize> = Vec::new();
        let mut i: usize = 0;
        while i < MAX_TREE_DEPTH + 1
            invariant
                i <= MAX_TREE_DEPTH + 1,
                left@.len() == i,
                limit@.len() == i,
                forall|k: int| 0 <= k < i ==> #[trigger] left@[k] == UNOPENED,
            decreases MAX_TREE_DEPTH + 1 - i,
        {
            left.push(UNOPENED);
            limit.push(0);
            i = i + 1;
        }
        (
            TreeWalk { phase: TreePhase::Inspecting, depth: 0, left, limit, found: None },
            TreeRequest::Extract,
        )
    }

    fn advance(&mut self) -> (r: TreeRequest)
        requires
            old(self).left@.len() == levels(),
            old(self).limit@.len() == levels(),
            1 <= old(self).depth <= levels(),
            old(self).left@[old(self).depth - 1] <= old(self).limit@[old(self).depth - 1],
            old(self).left@[old(self).depth - 1] > 0 ==> old(self).depth < levels(),
        ensures
            tree_advance(old(self).depth as int, old(self).left@, old(self).limit@, *final(self), r),
            final(self).found == old(self).found || r == TreeRequest::Finish(None),
    {
        let k = self.depth - 1;
        let remaining = self.left[k];
        if remaining > 0 {
            let index = self.limit[k] - remaining;
            self.left.set(k, remaining - 1);
            self.left.set(k + 1, UNOPENED);
            self.phase = TreePhase::Fetching;
            TreeRequest::Child(index)
        } else if k == 0 {
            self.depth = 0;
            self.phase = TreePhase::Finished;
            self.found = None;
            TreeRequest::Finish(None)
        } else {
            self.depth = k;
            self.phase = TreePhase::Ascending;
            TreeRequest::Parent
        }
    }

    /// Advances the search on the tree's report.
    pub fn step(&mut self, e: TreeReport) -> (r: TreeRequest)
        requires
            old(self).wf(),
        ensures
            tree_step(*old(self), e, *final(self), r),
            final(self).wf(),
            old(self).phase != TreePhase::Finished ==> tree_before(*final(self), *old(self)),
            r is Child ==> r->Child_0 < MAX_CHILDREN_PER_LEVEL && final(self).depth <= MAX_TREE_DEPTH,
    {
        match self.phase {
            TreePhase::Inspecting => {
                if let TreeReport::Reading(Ok((sel, c))) = e {
                    if !sel.as_str().is_empty() {
                        self.phase = TreePhase::Finished;
                        let found = (sel.clone(), copy_context(&c));
                        self.found = Some(found);
                        return TreeRequest::Finish(Some((sel, c)));
                    }
                }
                self.phase = TreePhase::Counting;
                TreeRequest::CountChildren
            },
            TreePhase::Counting => {
                let n = match e {
                    TreeReport::Count(n) => n,
                    _ => None,
                };
                let d = self.depth;
                let lim = children_to_search(d, n);
                self.left.set(d, lim);
                self.limit.set(d, lim);
                self.depth = d + 1;
                self.advance()
            },
            TreePhase::Fetching => match e {
                TreeReport::Child(true) => {
                    self.phase = TreePhase::Inspecting;
                    TreeRequest::Extract
                },
                _ => self.advance(),
            },
            TreePhase::Ascending => self.advance(),
            TreePhase::Finished => TreeRequest::Finish(copy_found(&self.found)),
        }
    }
}

/// The search stays within its limits: every element it asks to inspect
/// lies at most at the deepest inspected level, every child it asks for is
/// among the first per-level limit of children of its parent, and a search
/// finishes with a selection only where that selection is not empty.
pub proof fn lemma_tree_walk_bounds(s: TreeWalk, e: TreeReport, t: TreeWalk, r: TreeRequest)
    requires
        s.wf(),
        tree_step(s, e, t, r),
    ensures
        r == TreeRequest::Extract ==> t.depth <= MAX_TREE_DEPTH,
        r is Child ==> r->Child_0 < MAX_CHILDREN_PER_LEVEL && t.depth <= MAX_TREE_DEPTH,
        r matches TreeRequest::Finish(Some(f)) ==> f.0@.len() > 0 || s.phase == TreePhase::Finished,
{
}

fn copy_context(c: &Option<String>) -> (r: Option<String>)
    ensures
        r == *c,
{
    match c {
        Some(s) => Some(s.clone()),
        None => None,
    }
}

fn copy_found(f: &Option<(String, Option<String>)>) -> (r: Option<(String, Option<String>)>)
    ensures
        r == *f,
{
    match f {
        Some((s, c)) => Some((s.clone(), copy_context(c))),
        None => None,
    }
}

/// An accessibility element tree, as the tree search reads it.
pub trait AxTree {
    type Element;

    /// The selection and context that one element offers.
    fn extract(&mut self, element: &Self::Element) -> Result<(String, Option<String>), GetTextError>;

    /// How many children the element has, where that can be read.
    fn child_count(&mut self, element: &Self::Element) -> Option<usize>;

    /// The element's child at `index`, where it can be had.
    fn child(&mut self, element: &Self::Element, index: usize) -> Option<Self::Element>;
}

/// A run of a tree search: `walks[i]`, on `reports[i]`, steps to
/// `walks[i + 1]` and asks for `requests[i + 1]`.
pub open spec fn tree_run(walks: Seq<TreeWalk>, reports: Seq<TreeReport>, requests: Seq<TreeRequest>) -> bool {
    &&& walks.len() == reports.len() + 1
    &&& requests.len() == walks.len()
    &&& forall|i: int|
        0 <= i < reports.len() ==> #[trigger] tree_step(walks[i], reports[i], walks[i + 1], requests[i + 1])
}

/// `r` is what a tree search finished with on the reports `reports`: a run
/// from a fresh search of the root that asked first for the root's reading
/// and last to finish with `r`.
pub open spec fn tree_finished_with(reports: Seq<TreeReport>, r: Option<(String, Option<String>)>) -> bool {
    exists|walks: Seq<TreeWalk>, requests: Seq<TreeRequest>|
        #[trigger] tree_run(walks, reports, requests) && walks[0].phase == TreePhase::Inspecting
            && walks[0].depth == 0 && walks[0].wf() && requests[0] == TreeRequest::Extract
            && requests.last() == TreeRequest::Finish(r)
}

/// Searches the tree under `root` with a `TreeWalk`: each request of the
/// walk is put to the tree and each answer handed back, so the result is the
/// first element in pre-order, within the limits, whose reading has a
/// nonempty selection, or `None` where the walk met none.
pub fn traverse_ui_tree<T: AxTree>(tree: &mut T, root: T::Element) -> (r: Option<
    (String, Option<String>),
>)
    ensures
        r is Some ==> r->Some_0.0@.len() > 0,
        exists|reports: Seq<TreeReport>| tree_finished_with(reports, r),
{
    let (mut walk, mut request) = TreeWalk::new();
    let mut stack: Vec<T::Element> = Vec::new();
    stack.push(root);
    let ghost mut walks = seq![walk];
    let ghost mut reports = Seq::<TreeReport>::empty();
    let ghost mut requests = seq![request];
    loop
        invariant
            tree_run(walks, reports, requests),
            walks.last() == walk,
            requests.last() == request,
            walks[0].phase == TreePhase::Inspecting,
            walks[0].depth == 0,
            walks[0].wf(),
            requests[0] == TreeRequest::Extract,
            walk.wf(),
            (request is Extract) == (walk.phase == TreePhase::Inspecting),
            (request is CountChildren) == (walk.phase == TreePhase::Counting),
            (request is Child) == (walk.phase == TreePhase::Fetching),
            (request is Parent) == (walk.phase == TreePhase::Ascending),
            (request is Finish) == (walk.phase == TreePhase::Finished),
            request matches TreeRequest::Finish(Some(f)) ==> f.0@.len() > 0,
            (walk.phase == TreePhase::Inspecting || walk.phase == TreePhase::Counting
                || walk.phase == TreePhase::Ascending) ==> stack@.len() == walk.depth + 1,
            walk.phase == TreePhase::Fetching ==> stack@.len() == walk.depth,
        decreases
            walk.left@[0],
            walk.left@[1],
            walk.left@[2],
            walk.left@[3],
            walk.left@[4],
            walk.left@[5],
            walk.left@[6],
            tree_progress(walk),
    {
        let report = match request {
            TreeRequest::Finish(r) => {
                assert(tree_finished_with(reports, r));
                return r;
            },
            TreeRequest::Extract => {
                let top = stack.len() - 1;
                TreeReport::Reading(tree.extract(&stack[top]))
            },
            TreeRequest::CountChildren => {
                let top = stack.len() - 1;
                TreeReport::Count(tree.child_count(&stack[top]))
            },
            TreeRequest::Child(i) => {
                let top = stack.len() - 1;
                match tree.child(&stack[top], i) {
                    Some(child) => {
                        stack.push(child);
                        TreeReport::Child(true)
                    },
                    None => TreeReport::Child(false),
                }
            },
            TreeRequest::Parent => {
                stack.pop();
                TreeReport::Done
            },
        };
        let ghost before = walk;
        let ghost reported = report;
        request = walk.step(report);
        proof {
            let old_walks = walks;
            let old_reports = reports;
            let old_requests = requests;
            walks = old_walks.push(walk);
            reports = old_reports.push(reported);
            requests = old_requests.push(request);
            assert forall|i: int| 0 <= i < reports.len() implies #[trigger] tree_step(
                walks[i],
                reports[i],
                walks[i + 1],
                requests[i + 1],
            ) by {
                if i < old_reports.len() {
                    assert(tree_step(old_walks[i], old_reports[i], old_walks[i + 1], old_requests[i + 1]));
                }
            }
        }
    }
}

} // verus!
