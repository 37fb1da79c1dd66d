//! Reading the directory that `static_host` is given.
use crate::types::error_types::internal_server_error::{InternalServerError, ServerErrorView};
use crate::types::error_types::internal_server_result::InternalServerResult;
use crate::utils::text::{lemma_split_nonempty, split, split_str, str_eq};
use vstd::prelude::*;

verus! {

/// One step of a relative path: up to the parent, or down into a child.
pub enum PathStep {
    Parent,
    Child(String),
}

/// The abstract value of a step.
pub enum PathStepView {
    Parent,
    Child(Seq<char>),
}

impl View for PathStep {
    type V = PathStepView;

    open spec fn view(&self) -> PathStepView {
        match self {
            PathStep::Parent => PathStepView::Parent,
            PathStep::Child(name) => PathStepView::Child(name@),
        }
    }
}

/// The `/`-separated parts of a path, without the empty part before a leading `/`.
pub open spec fn path_parts(path: Seq<char>) -> Seq<Seq<char>> {
    let parts = split(path, "/"@);
    if parts[0] == Seq::<char>::empty() {
        parts.drop_first()
    } else {
        parts
    }
}

/// The step a part of a path stands for.
pub open spec fn step_for(part: Seq<char>) -> PathStepView {
    if part == ".."@ {
        PathStepView::Parent
    } else {
        PathStepView::Child(part)
    }
}

pub open spec fn empty_dir_error() -> ServerErrorView {
    ServerErrorView::EmptyInputError("dir in `staic_host` function"@)
}

/// The directory to host must be named.
pub fn check_static_dir(dir: &str) -> (r: InternalServerResult<()>)
    ensures
        dir@.len() == 0 ==> (r matches Err(e) && e@ == empty_dir_error()),
        dir@.len() != 0 ==> r is Ok,
{
    if dir.is_empty() {
        return Err(InternalServerError::EmptyInputError(
            String::from_str("dir in `staic_host` function"),
        ));
    }
    Ok(())
}

/// The steps that lead from the working directory to the directory named by
/// the relative `path`: one per `/`-separated part, `..` going up.
pub fn static_dir_steps(path: &str) -> (steps: Vec<PathStep>)
    ensures
        steps@.len() == path_parts(path@).len(),
        forall|i: int| 0 <= i < steps@.len() ==> #[trigger] steps@[i]@ == step_for(path_parts(path@)[i]),
{
    proof {
        reveal_strlit("/");
        lemma_split_nonempty(path@, "/"@);
    }
    let parts = split_str(path, "/");
    let first: usize = if parts[0].is_empty() { 1 } else { 0 };
    let ghost wanted = path_parts(path@);
    let ghost pieces = split(path@, "/"@);
    assert(parts@[0]@ == pieces[0]);
    assert(parts@[0]@.len() == 0 <==> pieces[0] =~= Seq::<char>::empty());
    assert forall|i: int| 0 <= i < wanted.len() implies wanted[i] == parts@[i + first]@ by {
        assert(parts@[i + first]@ == pieces[i + first]);
    }
    let mut steps: Vec<PathStep> = Vec::new();
    let n = parts.len();
    let mut i = first;
    while i < n
        invariant
            n == parts@.len(),
            first <= i <= n,
            wanted.len() == n - first,
            forall|k: int| 0 <= k < wanted.len() ==> wanted[k] == parts@[k + first]@,
            steps@.len() == i - first,
            forall|k: int| 0 <= k < steps@.len() ==> #[trigger] steps@[k]@ == step_for(wanted[k]),
        decreases n - i,
    {
        let part = parts[i];
        if str_eq(part, "..") {
            steps.push(PathStep::Parent);
        } else {
            steps.push(PathStep::Child(String::from_str(part)));
        }
        i = i + 1;
    }
    steps
}


pub open spec fn parent_dir_error() -> ServerErrorView {
    ServerErrorView::ParseError("`StaticDir`, couldn't visit parent dir"@)
}

/// The components of a directory after one step, `None` once a step has
/// gone above the root. A child named `` or `.` names the directory itself.
pub open spec fn step_applied(dir: Option<Seq<Seq<char>>>, step: PathStepView) -> Option<
    Seq<Seq<char>>,
> {
    match dir {
        None => None,
        Some(d) => match step {
            PathStepView::Parent => if d.len() == 0 {
                None
            } else {
                Some(d.drop_last())
            },
            PathStepView::Child(name) => if name.len() == 0 || name == "."@ {
                Some(d)
            } else {
                Some(d.push(name))
            },
        },
    }
}

/// The components of the directory reached from `base` by `steps`, taken in
/// order; `None` when one of them goes above the root.
pub open spec fn steps_applied(base: Seq<Seq<char>>, steps: Seq<PathStepView>) -> Option<
    Seq<Seq<char>>,
>
    decreases steps.len(),
{
    if steps.len() == 0 {
        Some(base)
    } else {
        step_applied(steps_applied(base, steps.drop_last()), steps.last())
    }
}

/// The names of directory components.
pub open spec fn names_of(v: Seq<String>) -> Seq<Seq<char>> {
    v.map_values(|c: String| c@)
}

/// The abstract values of steps.
pub open spec fn step_views(v: Seq<PathStep>) -> Seq<PathStepView> {
    v.map_values(|s: PathStep| s@)
}

/// Once a step has gone above the root, no later step comes back.
proof fn lemma_steps_stay_failed(base: Seq<Seq<char>>, steps: Seq<PathStepView>, i: int, j: int)
    requires
        0 <= i <= j <= steps.len(),
        steps_applied(base, steps.take(i)) is None,
    ensures
        steps_applied(base, steps.take(j)) is None,
    decreases j - i,
{
    if i < j {
        lemma_steps_stay_failed(base, steps, i, j - 1);
        assert(steps.take(j).drop_last() =~= steps.take(j - 1));
    }
}

/// Walks `steps` from the directory whose components, from the root down,
/// are `base`: each `Parent` drops the last component, failing when none is
/// left; each `Child` appends its name.
#[verifier::loop_isolation(false)]
pub fn apply_dir_steps(base: Vec<String>, steps: &Vec<PathStep>) -> (r: InternalServerResult<
    Vec<String>,
>)
    ensures
        match steps_applied(
            names_of(base@),
            step_views(steps@),
        ) {
            Some(d) => r matches Ok(v) && names_of(v@) == d,
            None => r matches Err(e) && e@ == parent_dir_error(),
        },
{
    let ghost start = names_of(base@);
    let ghost all = step_views(steps@);
    let mut dir = base;
    let n = steps.len();
    let mut i: usize = 0;
    assert(all.take(0) =~= Seq::<PathStepView>::empty());
    while i < n
        invariant
            n == steps@.len(),
            all == step_views(steps@),
            i <= n,
            steps_applied(start, all.take(i as int)) == Some(names_of(dir@)),
        decreases n - i,
    {
        let ghost prev = names_of(dir@);
        assert(all.take(i + 1).drop_last() =~= all.take(i as int));
        assert(all.take(i + 1).last() == steps@[i as int]@);
        match &steps[i] {
            PathStep::Parent => {
                if dir.len() == 0 {
                    proof {
                        assert(steps_applied(start, all.take(i + 1)) is None);
                        lemma_steps_stay_failed(start, all, i + 1, n as int);
                        assert(all.take(n as int) =~= all);
                    }
                    return Err(InternalServerError::ParseError(
                        String::from_str("`StaticDir`, couldn't visit parent dir"),
                    ));
                }
                dir.pop();
                assert(names_of(dir@) =~= prev.drop_last());
            },
            PathStep::Child(name) => {
                proof {
                    reveal_strlit(".");
                }
                if name.as_str().is_empty() || str_eq(name.as_str(), ".") {
                } else {
                    dir.push(String::from_str(name.as_str()));
                    assert(names_of(dir@) =~= prev.push(name@));
                }
            },
        }
        i = i + 1;
    }
    assert(all.take(n as int) =~= all);
    Ok(dir)
}

} // verus!
