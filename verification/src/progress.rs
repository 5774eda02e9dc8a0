use vstd::prelude::*;

verus! {

/// The processing phase the engine reports progress for. A caller-supplied
/// progress closure receives one of these together with a percentage on every
/// invocation.
#[derive(Clone, Copy, Debug, PartialEq, Eq, Structural)]
pub enum ProgressCategory {
    AddMesh,
    ComputeCharts,
    PackCharts,
    BuildOutputMeshes,
}

/// The engine's integer tag for a progress category. The phases are numbered
/// in the order a full generation passes through them: mesh addition, chart
/// computation, chart packing, output-mesh building.
pub open spec fn spec_category_code(c: ProgressCategory) -> int {
    match c {
        ProgressCategory::AddMesh => 0,
        ProgressCategory::ComputeCharts => 1,
        ProgressCategory::PackCharts => 2,
        ProgressCategory::BuildOutputMeshes => 3,
    }
}

/// Translates the engine's progress tag into the structured category.
///
/// Tags outside the closed set 0 through 3 cannot occur under the engine's
/// documented contract; such a tag would be an internal-invariant violation,
/// so it is excluded here rather than handled.
pub fn progress_category_from_code(code: u32) -> (r: ProgressCategory)
    requires
        code <= 3,
    ensures
        spec_category_code(r) == code,
{
    match code {
        0 => ProgressCategory::AddMesh,
        1 => ProgressCategory::ComputeCharts,
        2 => ProgressCategory::PackCharts,
        _ => ProgressCategory::BuildOutputMeshes,
    }
}

/// The rank of a category in the order the generation phases run. It equals
/// the engine's tag for the category.
pub fn category_rank(c: &ProgressCategory) -> (r: u32)
    ensures
        r == spec_category_code(*c),
{
    match c {
        ProgressCategory::AddMesh => 0,
        ProgressCategory::ComputeCharts => 1,
        ProgressCategory::PackCharts => 2,
        ProgressCategory::BuildOutputMeshes => 3,
    }
}

/// Whether a recorded trace of progress categories never steps back to an
/// earlier phase: each reported category ranks at or above the one before it.
pub open spec fn spec_phase_ordered(s: Seq<ProgressCategory>) -> bool {
    forall|i: int|
        0 <= i && i + 1 < s.len() ==> spec_category_code(#[trigger] s[i]) <= spec_category_code(
            s[i + 1],
        )
}

/// Law: in a phase-ordered trace the order is global, not merely between
/// neighbours: every report ranks at or above every earlier one, so a later
/// phase is never followed by an earlier one anywhere in the trace.
pub proof fn lemma_phase_order_is_global(s: Seq<ProgressCategory>, i: int, j: int)
    requires
        spec_phase_ordered(s),
        0 <= i <= j < s.len(),
    ensures
        spec_category_code(s[i]) <= spec_category_code(s[j]),
    decreases j - i,
{
    if i < j {
        lemma_phase_order_is_global(s, i, j - 1);
        assert(spec_category_code(s[j - 1]) <= spec_category_code(s[j]));
    }
}

/// Checks that a recorded progress trace visits the phases in ascending
/// order, as a single generation reports them.
pub fn categories_in_order(trace: &Vec<ProgressCategory>) -> (r: bool)
    ensures
        r == spec_phase_ordered(trace@),
{
    let n = trace.len();
    if n == 0 {
        return true;
    }
    let mut i: usize = 0;
    while i < n - 1
        invariant
            n == trace@.len(),
            1 <= n,
            i <= n - 1,
            forall|j: int|
                0 <= j < i ==> spec_category_code(#[trigger] trace@[j]) <= spec_category_code(
                    trace@[j + 1],
                ),
        decreases n - 1 - i,
    {
        let here = category_rank(&trace[i]);
        let next = category_rank(&trace[i + 1]);
        if here > next {
            return false;
        }
        i += 1;
    }
    true
}

} // verus!
