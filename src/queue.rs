use vstd::prelude::*;

verus! {

/// What one queue family of a physical device can do for the renderer.
#[derive(Clone, Copy, Debug, PartialEq, Eq, Structural)]
pub struct QueueFamilyCaps {
    /// The family accepts graphics work.
    pub graphics: bool,
    /// The family can present to the target surface.
    pub present: bool,
}

/// Indices of the queue families chosen for drawing and for presenting; `-1` stands for
/// "not found".
#[derive(Clone, Copy, Debug, PartialEq, Eq, Structural)]
pub struct QueueFamilyIndices {
    pub graphics_family: i32,
    pub present_family: i32,
}

/// The largest index below `end` of a family that accepts graphics work, or `-1`.
pub open spec fn last_graphics(families: Seq<QueueFamilyCaps>, end: int) -> int
    decreases end,
{
    if end <= 0 {
        -1
    } else if families[end - 1].graphics {
        end - 1
    } else {
        last_graphics(families, end - 1)
    }
}

/// The largest index below `end` of a family that can present, or `-1`.
pub open spec fn last_present(families: Seq<QueueFamilyCaps>, end: int) -> int
    decreases end,
{
    if end <= 0 {
        -1
    } else if families[end - 1].present {
        end - 1
    } else {
        last_present(families, end - 1)
    }
}

/// Among the first `end` families there is one for each role.
pub open spec fn both_found(families: Seq<QueueFamilyCaps>, end: int) -> bool {
    last_graphics(families, end) >= 0 && last_present(families, end) >= 0
}

/// How many families the search looks at, starting after the first `start`: it stops at the
/// first prefix that holds a family for each role, or at the end of the list.
pub open spec fn scan_length(families: Seq<QueueFamilyCaps>, start: int) -> int
    decreases families.len() - start,
{
    if start >= families.len() {
        families.len() as int
    } else if both_found(families, start + 1) {
        start + 1
    } else {
        scan_length(families, start + 1)
    }
}

/// The indices that the search over `families` settles on: within the families it looked
/// at, the last one for each role.
pub open spec fn chosen_families(families: Seq<QueueFamilyCaps>) -> QueueFamilyIndices {
    let end = scan_length(families, 0);
    QueueFamilyIndices {
        graphics_family: last_graphics(families, end) as i32,
        present_family: last_present(families, end) as i32,
    }
}

proof fn lemma_last_graphics_bounds(families: Seq<QueueFamilyCaps>, end: int)
    ensures
        -1 <= last_graphics(families, end) < end || (end <= 0 && last_graphics(families, end) == -1),
        last_graphics(families, end) >= 0 ==> families[last_graphics(families, end)].graphics,
    decreases end,
{
    if end > 0 {
        lemma_last_graphics_bounds(families, end - 1);
    }
}

proof fn lemma_last_present_bounds(families: Seq<QueueFamilyCaps>, end: int)
    ensures
        -1 <= last_present(families, end) < end || (end <= 0 && last_present(families, end) == -1),
        last_present(families, end) >= 0 ==> families[last_present(families, end)].present,
    decreases end,
{
    if end > 0 {
        lemma_last_present_bounds(families, end - 1);
    }
}

/// A family for a role appears among the first `end` exactly when one has an index below it.
proof fn lemma_found_iff_exists(families: Seq<QueueFamilyCaps>, end: int)
    requires
        0 <= end <= families.len(),
    ensures
        last_graphics(families, end) >= 0 <==> exists|i: int|
            0 <= i < end && #[trigger] families[i].graphics,
        last_present(families, end) >= 0 <==> exists|i: int|
            0 <= i < end && #[trigger] families[i].present,
    decreases end,
{
    lemma_last_graphics_bounds(families, end);
    lemma_last_present_bounds(families, end);
    if end > 0 {
        lemma_found_iff_exists(families, end - 1);
    }
}

/// The search stops within the list, and it finds both roles exactly when the whole list
/// offers both.
proof fn lemma_scan_length(families: Seq<QueueFamilyCaps>, start: int)
    requires
        0 <= start <= families.len(),
    ensures
        start <= scan_length(families, start) <= families.len(),
        both_found(families, start) ==> both_found(families, families.len() as int),
        both_found(families, scan_length(families, start)) == both_found(
            families,
            families.len() as int,
        ),
    decreases families.len() - start,
{
    lemma_found_iff_exists(families, start);
    lemma_found_iff_exists(families, families.len() as int);
    if start < families.len() {
        lemma_scan_length(families, start + 1);
    }
}

impl QueueFamilyIndices {
    /// Both families unknown.
    pub fn new() -> (r: Self)
        ensures
            r.graphics_family == -1,
            r.present_family == -1,
    {
        QueueFamilyIndices { graphics_family: -1, present_family: -1 }
    }

    pub open spec fn complete(&self) -> bool {
        self.graphics_family >= 0 && self.present_family >= 0
    }

    /// Whether a family was found for both roles.
    pub fn is_complete(&self) -> (r: bool)
        ensures
            r == self.complete(),
    {
        self.graphics_family >= 0 && self.present_family >= 0
    }
}

/// Picks the queue families for drawing and presenting. The families are examined in order,
/// each one that accepts graphics work (or can present) replacing the previous choice for
/// that role, until both roles have a family.
pub fn find_queue_families(families: &Vec<QueueFamilyCaps>) -> (r: QueueFamilyIndices)
    requires
        families.len() <= i32::MAX,
    ensures
        r == chosen_families(families@),
        r.complete() <==> (exists|i: int| 0 <= i < families.len() && #[trigger] families@[i].graphics)
            && (exists|i: int| 0 <= i < families.len() && #[trigger] families@[i].present),
        r.graphics_family >= 0 ==> r.graphics_family < families.len()
            && families@[r.graphics_family as int].graphics,
        r.present_family >= 0 ==> r.present_family < families.len()
            && families@[r.present_family as int].present,
{
    let mut indices = QueueFamilyIndices::new();
    let mut i: usize = 0;
    proof {
        lemma_scan_length(families@, 0);
        lemma_found_iff_exists(families@, families.len() as int);
    }
    while i < families.len()
        invariant_except_break
            i <= families.len(),
            families.len() <= i32::MAX,
            indices.graphics_family == last_graphics(families@, i as int),
            indices.present_family == last_present(families@, i as int),
            scan_length(families@, 0) == scan_length(families@, i as int),
        ensures
            indices == chosen_families(families@),
        decreases families.len() - i,
    {
        if families[i].graphics {
            indices.graphics_family = i as i32;
        }
        if families[i].present {
            indices.present_family = i as i32;
        }
        if indices.is_complete() {
            break;
        }
        i = i + 1;
    }
    proof {
        let end = scan_length(families@, 0);
        lemma_scan_length(families@, 0);
        lemma_last_graphics_bounds(families@, end);
        lemma_last_present_bounds(families@, end);
    }
    indices
}

/// The distinct queue families to open queues on: the graphics family first, then the
/// present family when it is another one.
pub fn unique_queue_families(indices: &QueueFamilyIndices) -> (r: Vec<u32>)
    requires
        indices.complete(),
    ensures
        indices.graphics_family == indices.present_family ==> r@ == seq![
            indices.graphics_family as u32,
        ],
        indices.graphics_family != indices.present_family ==> r@ == seq![
            indices.graphics_family as u32,
            indices.present_family as u32,
        ],
{
    let mut r: Vec<u32> = Vec::new();
    r.push(indices.graphics_family as u32);
    if indices.present_family != indices.graphics_family {
        r.push(indices.present_family as u32);
    }
    r
}

} // verus!
