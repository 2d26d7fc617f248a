use vstd::prelude::*;
use vstd::string::StringExecFns;
use crate::error::Error;

verus! {

/// One window of a hierarchy snapshot: its handle, its title if one is set,
/// and its direct children, oldest first.
pub struct WindowNode {
    /// The opaque handle the windowing system knows the window by.
    pub id: u64,
    /// The window's title at the time of the snapshot, if it has one.
    pub title: Option<String>,
    /// The window's direct children, in the order the system lists them.
    pub children: Vec<WindowNode>,
}

/// Whether a fetched title is present and exactly equal, character for
/// character and case-sensitively, to the target.
pub open spec fn title_matches(title: Option<String>, target: Seq<char>) -> bool {
    title matches Some(s) && s@ == target
}

/// The handle the stack-disciplined search returns on the subtree `t`: `t`'s
/// own handle if its title matches, otherwise the first match among its
/// children, visited most-recently-stacked first, that is, last child first.
pub open spec fn first_match(t: WindowNode, target: Seq<char>) -> Option<u64>
    decreases t, 1int,
{
    if title_matches(t.title, target) {
        Some(t.id)
    } else {
        first_match_among(t.children@, t.children@.len() as int, target)
    }
}

/// The first match found among the subtrees `cs[i-1], cs[i-2], ..., cs[0]`,
/// searched in that order.
pub open spec fn first_match_among(cs: Seq<WindowNode>, i: int, target: Seq<char>) -> Option<u64>
    decreases cs, i,
{
    if i <= 0 || i > cs.len() {
        None::<u64>
    } else {
        match first_match(cs[i - 1], target) {
            Some(w) => Some(w),
            None => first_match_among(cs, i - 1, target),
        }
    }
}

/// The number of windows in the subtree rooted at `t`.
spec fn node_size(t: WindowNode) -> nat
    decreases t, 1int,
{
    1 + among_size(t.children@, t.children@.len() as int)
}

/// The number of windows in the subtrees `cs[0], ..., cs[i-1]` together.
spec fn among_size(cs: Seq<WindowNode>, i: int) -> nat
    decreases cs, i,
{
    if i <= 0 || i > cs.len() {
        0
    } else {
        among_size(cs, i - 1) + node_size(cs[i - 1])
    }
}

/// The outcome of searching the stacked subtrees, topmost (last) first.
spec fn search_stack(s: Seq<&WindowNode>, target: Seq<char>) -> Option<u64>
    decreases s.len(),
{
    if s.len() == 0 {
        None::<u64>
    } else {
        match first_match(*s.last(), target) {
            Some(w) => Some(w),
            None => search_stack(s.drop_last(), target),
        }
    }
}

/// The number of windows in all stacked subtrees together.
spec fn stack_size(s: Seq<&WindowNode>) -> nat
    decreases s.len(),
{
    if s.len() == 0 {
        0
    } else {
        node_size(*s.last()) + stack_size(s.drop_last())
    }
}

/// Whether a fetched title is present and exactly equal to the target.
pub fn title_found(title: &Option<String>, target: &String) -> (r: bool)
    ensures
        r == title_matches(*title, target@),
{
    match title.as_ref() {
        Some(name) => *name == *target,
        None => false,
    }
}

/// The message a failed resolution reports, before the requested title.
pub open spec fn not_found_prefix() -> Seq<char> {
    "Not found application: "@
}

/// Resolve `target` to a window handle in the snapshot rooted at `root`.
///
/// The work stack starts with the root alone. Repeatedly the most recently
/// stacked window is removed; if its title is present and exactly equal to
/// `target` its handle is returned at once, and no further window is visited.
/// Otherwise its children are stacked and the search goes on. When the stack
/// empties without a match, the search fails with a resolution error naming
/// the requested title.
#[verifier::loop_isolation(false)]
pub fn resolve(root: &WindowNode, target: &String) -> (r: Result<u64, Error>)
    ensures
        match r {
            Ok(w) => first_match(*root, target@) == Some(w),
            Err(e) => {
                &&& first_match(*root, target@) is None
                &&& e matches Error::Resolution(m) && m@ == not_found_prefix() + target@
            },
        },
{
    let mut stack: Vec<&WindowNode> = Vec::new();
    stack.push(root);
    proof {
        reveal_with_fuel(search_stack, 2);
        assert(stack@.drop_last() =~= Seq::<&WindowNode>::empty());
        assert(search_stack(stack@, target@) == first_match(*root, target@));
    }
    while stack.len() != 0
        invariant
            search_stack(stack@, target@) == first_match(*root, target@),
        decreases stack_size(stack@),
    {
        let ghost popped = stack@;
        let current: &WindowNode = stack.pop().unwrap();
        let ghost rest = stack@;
        proof {
            assert(popped.last() == current);
            assert(popped.drop_last() =~= rest);
        }
        if title_found(&current.title, target) {
            proof {
                assert(first_match(*current, target@) == Some(current.id));
            }
            return Ok(current.id);
        }
        proof {
            assert(!title_matches(current.title, target@));
            assert(first_match(*current, target@) == first_match_among(
                current.children@,
                current.children@.len() as int,
                target@,
            ));
        }
        let n = current.children.len();
        let mut i: usize = 0;
        while i < n
            invariant
                i <= n,
                n == current.children@.len(),
                search_stack(stack@, target@) == (match first_match_among(
                    current.children@,
                    i as int,
                    target@,
                ) {
                    Some(w) => Some(w),
                    None => search_stack(rest, target@),
                }),
                stack_size(stack@) == stack_size(rest) + among_size(
                    current.children@,
                    i as int,
                ),
            decreases n - i,
        {
            let ghost before = stack@;
            stack.push(&current.children[i]);
            proof {
                assert(stack@.last() == &current.children@[i as int]);
                assert(stack@.drop_last() =~= before);
            }
            i = i + 1;
        }
    }
    proof {
        assert(first_match(*root, target@) is None);
    }
    let mut message = "Not found application: ".to_owned();
    message.append(target.as_str());
    Err(Error::Resolution(message))
}

/// The pending work of a live resolution against the display binding, which
/// queries each window's title and children only when the window is examined.
/// The caller removes one handle at a time with `next_window`, fetches its
/// title, and on a miss stacks the window's children; the discipline is the
/// same most-recently-stacked-first order `resolve` follows.
pub struct ResolverState {
    stack: Vec<u64>,
}

impl ResolverState {
    /// The handles discovered but not yet examined; the search examines the
    /// last element next.
    pub closed spec fn pending(&self) -> Seq<u64> {
        self.stack@
    }

    /// A search begins with only the root window pending.
    pub fn start(root: u64) -> (s: Self)
        ensures
            s.pending() == seq![root],
    {
        let mut stack: Vec<u64> = Vec::new();
        stack.push(root);
        proof {
            assert(stack@ =~= seq![root]);
        }
        ResolverState { stack }
    }

    /// Remove and return the most recently stacked handle; `None` once the
    /// hierarchy is exhausted, at which point the search has failed.
    pub fn next_window(&mut self) -> (r: Option<u64>)
        ensures
            old(self).pending().len() == 0 ==> r is None
                && final(self).pending() == old(self).pending(),
            old(self).pending().len() > 0 ==> r == Some(old(self).pending().last())
                && final(self).pending() == old(self).pending().drop_last(),
    {
        self.stack.pop()
    }

    /// Stack the children of a window whose title missed, in the order the
    /// binding lists them, so the youngest child is examined next.
    pub fn stack_children(&mut self, children: &Vec<u64>)
        ensures
            final(self).pending() == old(self).pending() + children@,
    {
        let n = children.len();
        let mut i: usize = 0;
        while i < n
            invariant
                i <= n,
                n == children@.len(),
                self.stack@ == old(self).stack@ + children@.subrange(0, i as int),
            decreases n - i,
        {
            self.stack.push(children[i]);
            proof {
                let ghost base = old(self).stack@;
                assert(base + children@.subrange(0, i as int + 1) =~= (base + children@.subrange(
                    0,
                    i as int,
                )).push(children@[i as int]));
            }
            i = i + 1;
        }
        proof {
            assert(children@.subrange(0, n as int) =~= children@);
        }
    }
}

/// Whether some window in the subtree rooted at `t` has handle `w` and a
/// title that matches the target.
pub open spec fn matching_window_in(t: WindowNode, target: Seq<char>, w: u64) -> bool
    decreases t, 1int,
{
    (title_matches(t.title, target) && t.id == w) || matching_window_among(
        t.children@,
        t.children@.len() as int,
        target,
        w,
    )
}

/// Whether some window in the subtrees `cs[0], ..., cs[i-1]` has handle `w`
/// and a matching title.
pub open spec fn matching_window_among(cs: Seq<WindowNode>, i: int, target: Seq<char>, w: u64) -> bool
    decreases cs, i,
{
    if i <= 0 || i > cs.len() {
        false
    } else {
        matching_window_in(cs[i - 1], target, w) || matching_window_among(cs, i - 1, target, w)
    }
}

/// Law: the search is sound and complete. A returned handle always belongs to
/// a window of the hierarchy whose title matches the target, and the search
/// comes back empty only when no window of the hierarchy matches.
pub proof fn lemma_first_match_sound_complete(t: WindowNode, target: Seq<char>)
    ensures
        match first_match(t, target) {
            Some(w) => matching_window_in(t, target, w),
            None => forall|w: u64| !matching_window_in(t, target, w),
        },
    decreases t, 1int,
{
    lemma_among_sound_complete(t.children@, t.children@.len() as int, target);
    if first_match(t, target) is None {
        assert forall|w: u64| !matching_window_in(t, target, w) by {
            assert(!matching_window_among(t.children@, t.children@.len() as int, target, w));
        }
    }
}

/// The same law, over the subtrees `cs[0], ..., cs[i-1]`.
proof fn lemma_among_sound_complete(cs: Seq<WindowNode>, i: int, target: Seq<char>)
    ensures
        match first_match_among(cs, i, target) {
            Some(w) => matching_window_among(cs, i, target, w),
            None => forall|w: u64| !matching_window_among(cs, i, target, w),
        },
    decreases cs, i,
{
    if 0 < i <= cs.len() {
        lemma_first_match_sound_complete(cs[i - 1], target);
        lemma_among_sound_complete(cs, i - 1, target);
        if first_match_among(cs, i, target) is None {
            assert forall|w: u64| !matching_window_among(cs, i, target, w) by {
                assert(!matching_window_in(cs[i - 1], target, w));
                assert(!matching_window_among(cs, i - 1, target, w));
            }
        }
    } else {
        assert forall|w: u64| !matching_window_among(cs, i, target, w) by {
            assert(i <= 0 || i > cs.len());
        }
    }
}

/// Law: a hierarchy whose root window has no title and no children never
/// resolves; the search always fails.
pub proof fn lemma_empty_hierarchy_fails(root: WindowNode, target: Seq<char>)
    requires
        root.title is None,
        root.children@.len() == 0,
    ensures
        first_match(root, target) is None,
{
}

/// Law: resolution is a function of the hierarchy and the target alone, so
/// running it twice against an unchanged hierarchy returns the same outcome.
pub proof fn lemma_resolve_idempotent(
    root: WindowNode,
    target: Seq<char>,
    r1: Option<u64>,
    r2: Option<u64>,
)
    requires
        r1 == first_match(root, target),
        r2 == first_match(root, target),
    ensures
        r1 == r2,
{
}

} // verus!
