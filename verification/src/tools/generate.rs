//! Scaffold generation: build an `.aelm` skeleton from a part list.
//!
//! This is a pure template engine; the application validates the result with
//! the CLI. Placement follows the Aelm convention: the first instance is
//! anchored at an absolute `place: (0, 0)` and the rest are laid out on a row
//! relative to it, four grid units apart.
use vstd::prelude::*;

use crate::text::{decimal, occurs_at, owned, push_decimal, push_str};

verus! {

/// One instance request for the scaffold.
#[derive(Debug, Clone)]
pub struct ScaffoldPart {
    pub name: String,
    pub part_type: String,
}

/// The line declaring instance `i` of `parts`: the first one placed at the
/// origin, every later one at `4 * i` grid units to the right of the first.
pub open spec fn instance_line(parts: Seq<ScaffoldPart>, i: int) -> Seq<char> {
    if i == 0 {
        "        "@ + parts[i].name@ + ": "@ + parts[i].part_type@ + " place: (0, 0)\n"@
    } else {
        "        "@ + parts[i].name@ + ": "@ + parts[i].part_type@ + " place: "@ + parts[0].name@
            + "("@ + decimal((4 * i) as nat) + ", 0)\n"@
    }
}

/// The declaration lines of the first `k` instances.
pub open spec fn instance_lines(parts: Seq<ScaffoldPart>, k: int) -> Seq<char>
    decreases k,
{
    if k <= 0 {
        Seq::empty()
    } else {
        instance_lines(parts, k - 1) + instance_line(parts, k - 1)
    }
}

/// The skeleton source: a version header, then the module with one
/// `instances` block declaring every part in order.
pub open spec fn skeleton_text(module: Seq<char>, parts: Seq<ScaffoldPart>) -> Seq<char> {
    "# aelm-version: 0.5.0\n"@ + "module "@ + module + " {\n"@ + "    instances {\n"@ + instance_lines(
        parts,
        parts.len() as int,
    ) + "    }\n"@ + "}\n"@
}

/// Build the `.aelm` skeleton text (no validation).
pub fn build_skeleton(module: &str, parts: &[ScaffoldPart]) -> (out: String)
    requires
        parts@.len() <= 536870912,
    ensures
        out@ == skeleton_text(module@, parts@),
{
    let mut out = owned("# aelm-version: 0.5.0\n");
    push_str(&mut out, "module ");
    push_str(&mut out, module);
    push_str(&mut out, " {\n");
    push_str(&mut out, "    instances {\n");
    let ghost head = out@;
    let n = parts.len();
    let mut i: usize = 0;
    while i < n
        invariant
            n == parts@.len(),
            n <= 536870912,
            0 <= i <= n,
            out@ == head + instance_lines(parts@, i as int),
        decreases n - i,
    {
        let ghost before = out@;
        push_str(&mut out, "        ");
        push_str(&mut out, parts[i].name.as_str());
        push_str(&mut out, ": ");
        push_str(&mut out, parts[i].part_type.as_str());
        if i == 0 {
            push_str(&mut out, " place: (0, 0)\n");
        } else {
            push_str(&mut out, " place: ");
            push_str(&mut out, parts[0].name.as_str());
            push_str(&mut out, "(");
            let dx: u64 = (i as u64) * 4;
            push_decimal(&mut out, dx);
            push_str(&mut out, ", 0)\n");
        }
        assert(out@ =~= before + instance_line(parts@, i as int));
        assert(instance_lines(parts@, i + 1) == instance_lines(parts@, i as int) + instance_line(
            parts@,
            i as int,
        ));
        assert(out@ =~= head + instance_lines(parts@, i + 1));
        i = i + 1;
    }
    push_str(&mut out, "    }\n");
    push_str(&mut out, "}\n");
    assert(out@ =~= skeleton_text(module@, parts@));
    out
}

/// What `scaffold_circuit` does before validating: refuse an empty part list
/// with a message, else produce the skeleton.
pub fn scaffold_source(module: &str, parts: &[ScaffoldPart]) -> (r: Result<String, String>)
    requires
        parts@.len() <= 536870912,
    ensures
        parts@.len() == 0 ==> (r matches Err(m) && m@ == "scaffold_circuit requires at least one part"@),
        parts@.len() > 0 ==> (r matches Ok(s) && s@ == skeleton_text(module@, parts@)),
{
    if parts.len() == 0 {
        Err(owned("scaffold_circuit requires at least one part"))
    } else {
        Ok(build_skeleton(module, parts))
    }
}

/// The skeleton up to its instance lines: the version header and the
/// openings of the module and of its `instances` block.
pub open spec fn skeleton_head(module: Seq<char>) -> Seq<char> {
    "# aelm-version: 0.5.0\n"@ + "module "@ + module + " {\n"@ + "    instances {\n"@
}

proof fn lemma_lines_prefix(parts: Seq<ScaffoldPart>, i: int, k: int)
    requires
        0 <= i < k,
    ensures
        instance_lines(parts, i).len() + instance_line(parts, i).len() <= instance_lines(parts, k).len(),
        instance_lines(parts, k).subrange(
            instance_lines(parts, i).len() as int,
            (instance_lines(parts, i).len() + instance_line(parts, i).len()) as int,
        ) == instance_line(parts, i),
    decreases k - i,
{
    if k == i + 1 {
        assert(instance_lines(parts, k) == instance_lines(parts, i) + instance_line(parts, i));
    } else {
        lemma_lines_prefix(parts, i, k - 1);
        assert(instance_lines(parts, k) == instance_lines(parts, k - 1) + instance_line(parts, k - 1));
    }
}

proof fn lemma_line_in_skeleton(module: Seq<char>, parts: Seq<ScaffoldPart>, i: int)
    requires
        0 <= i < parts.len(),
    ensures
        occurs_at(
            skeleton_text(module, parts),
            instance_line(parts, i),
            (skeleton_head(module).len() + instance_lines(parts, i).len()) as int,
        ),
{
    let h = skeleton_head(module);
    let ls = instance_lines(parts, parts.len() as int);
    lemma_lines_prefix(parts, i, parts.len() as int);
    let p = instance_lines(parts, i).len() as int;
    let l = instance_line(parts, i);
    assert(skeleton_text(module, parts) == h + ls + "    }\n"@ + "}\n"@);
    assert(skeleton_text(module, parts).subrange(h.len() + p, h.len() + p + l.len()) =~= ls.subrange(
        p,
        p + l.len(),
    ));
}

/// Law: the skeleton declares the first instance, just after the opening of
/// the `instances` block, placed absolutely at the origin.
pub proof fn law_first_instance_at_origin(module: Seq<char>, parts: Seq<ScaffoldPart>)
    requires
        parts.len() > 0,
    ensures
        occurs_at(
            skeleton_text(module, parts),
            "        "@ + parts[0].name@ + ": "@ + parts[0].part_type@ + " place: (0, 0)\n"@,
            skeleton_head(module).len() as int,
        ),
{
    lemma_line_in_skeleton(module, parts, 0);
}

/// Law: the skeleton declares every later instance `i`, right after the
/// lines of the instances before it, placed relative to the first instance
/// on a row, `4 * i` grid units to its right.
pub proof fn law_later_instances_relative(module: Seq<char>, parts: Seq<ScaffoldPart>, i: int)
    requires
        0 < i < parts.len(),
    ensures
        occurs_at(
            skeleton_text(module, parts),
            "        "@ + parts[i].name@ + ": "@ + parts[i].part_type@ + " place: "@ + parts[0].name@ + "("@
                + decimal((4 * i) as nat) + ", 0)\n"@,
            (skeleton_head(module).len() + instance_lines(parts, i).len()) as int,
        ),
{
    lemma_line_in_skeleton(module, parts, i);
}

} // verus!
