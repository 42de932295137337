//! What holds of the deployments that the status output describes,
//! whatever the output.

use crate::backend::system_status::{
    closed, deployments_of, field_value, fresh, has_field_label, has_marker, is_skipped,
    looks_like_deployment, scan_line, scan_lines, split_name, with_field, DeploymentView, Scan,
};
use crate::text::{has_prefix, lines_of, same_ignoring_ascii_case, trimmed};
use vstd::prelude::*;

verus! {

/// Whether the deployments of `st` are numbered by their position.
pub open spec fn numbered(st: Scan) -> bool {
    &&& forall|i: int| 0 <= i < st.done.len() ==> (#[trigger] st.done[i]).index == i
    &&& match st.open {
        Some(d) => d.index == st.done.len(),
        None => true,
    }
}

/// Whether `line` starts, after its indentation, with a marker glyph.
pub open spec fn is_marked(line: Seq<char>) -> bool {
    has_marker(trimmed(line))
}

/// The number of lines among `lines` that start with a marker glyph.
pub open spec fn marked_count(lines: Seq<Seq<char>>) -> nat
    decreases lines.len(),
{
    if lines.len() == 0 {
        0
    } else {
        marked_count(lines.drop_last()) + if is_marked(lines.last()) {
            1nat
        } else {
            0nat
        }
    }
}

/// Whether `line` carries no deployment data: a blank line, the overall
/// state line, or the header of the deployments section.
pub open spec fn is_skipped_line(line: Seq<char>) -> bool {
    is_skipped(trimmed(line))
}

/// Whether no line among `lines` opens a deployment without a marker
/// glyph: every line that is not skipped and has no marker glyph does not
/// look like a deployment. Skipped lines, such as the header of the
/// deployments section, may stand anywhere.
pub open spec fn only_marked_open(lines: Seq<Seq<char>>) -> bool {
    forall|i: int|
        0 <= i < lines.len() && !is_skipped_line(#[trigger] lines[i]) && !is_marked(lines[i])
            ==> !looks_like_deployment(lines[i])
}

proof fn lemma_marker_not_skipped(t: Seq<char>)
    requires
        has_marker(t),
    ensures
        !is_skipped(t),
{
    reveal_strlit("State:");
    reveal_strlit("Deployments:");
    if has_prefix(t, "State:"@) {
        assert(t.take("State:"@.len() as int)[0] == 'S');
    }
    if has_prefix(t, "Deployments:"@) {
        assert(t.take("Deployments:"@.len() as int)[0] == 'D');
    }
}

proof fn lemma_scan_line_numbered(st: Scan, line: Seq<char>)
    requires
        numbered(st),
    ensures
        numbered(scan_line(st, line)),
{
}

proof fn lemma_scan_lines_numbered(lines: Seq<Seq<char>>)
    ensures
        numbered(scan_lines(lines)),
    decreases lines.len(),
{
    if lines.len() > 0 {
        lemma_scan_lines_numbered(lines.drop_last());
        lemma_scan_line_numbered(scan_lines(lines.drop_last()), lines.last());
    }
}

proof fn lemma_scan_lines_count(lines: Seq<Seq<char>>)
    requires
        only_marked_open(lines),
    ensures
        closed(scan_lines(lines)).len() == marked_count(lines),
    decreases lines.len(),
{
    if lines.len() > 0 {
        let before = lines.drop_last();
        assert forall|i: int|
            0 <= i < before.len() && !is_skipped_line(#[trigger] before[i]) && !is_marked(
                before[i],
            ) implies !looks_like_deployment(before[i]) by {
            assert(before[i] == lines[i]);
        }
        lemma_scan_lines_count(before);
        let line = lines.last();
        assert(line == lines[lines.len() - 1]);
        if is_marked(line) {
            lemma_marker_not_skipped(trimmed(line));
        }
    }
}

/// The deployments of any status output are numbered by their position:
/// the first has index 0, the next index 1, and so on.
pub proof fn lemma_indices_follow_order(text: Seq<char>)
    ensures
        forall|i: int|
            0 <= i < deployments_of(text).len() ==> (#[trigger] deployments_of(text)[i]).index == i,
{
    lemma_scan_lines_numbered(lines_of(text));
}

/// Status output in which only lines with a marker glyph open a
/// deployment, whatever headers and blank lines stand among them, describes
/// exactly as many deployments as it has marked lines, numbered from zero
/// in the order of the output.
pub proof fn lemma_one_deployment_per_marker(text: Seq<char>)
    requires
        only_marked_open(lines_of(text)),
    ensures
        deployments_of(text).len() == marked_count(lines_of(text)),
        forall|i: int|
            0 <= i < marked_count(lines_of(text)) ==> (#[trigger] deployments_of(text)[i]).index
                == i,
{
    lemma_scan_lines_count(lines_of(text));
    lemma_indices_follow_order(text);
}

/// Status output without a line that opens a deployment, by a marker glyph
/// or by its look, describes no deployment: each of its lines is skipped,
/// or has no marker glyph and does not look like a deployment.
pub proof fn lemma_no_opening_line_no_deployment(text: Seq<char>)
    requires
        forall|i: int|
            0 <= i < lines_of(text).len() ==> is_skipped_line(#[trigger] lines_of(text)[i]) || (
            !is_marked(lines_of(text)[i]) && !looks_like_deployment(lines_of(text)[i])),
    ensures
        deployments_of(text).len() == 0,
{
    let lines = lines_of(text);
    assert forall|i: int| 0 <= i < lines.len() implies !is_marked(#[trigger] lines[i]) by {
        if is_marked(lines[i]) {
            lemma_marker_not_skipped(trimmed(lines[i]));
        }
    }
    lemma_scan_lines_count(lines);
    lemma_marked_count_zero(lines);
}

proof fn lemma_marked_count_zero(lines: Seq<Seq<char>>)
    requires
        forall|i: int| 0 <= i < lines.len() ==> !is_marked(#[trigger] lines[i]),
    ensures
        marked_count(lines) == 0,
    decreases lines.len(),
{
    if lines.len() > 0 {
        let before = lines.drop_last();
        assert forall|i: int| 0 <= i < before.len() implies !is_marked(#[trigger] before[i]) by {
            assert(before[i] == lines[i]);
        }
        lemma_marked_count_zero(before);
        assert(lines.last() == lines[lines.len() - 1]);
    }
}

/// The references of the marked lines among `lines`, in order: what
/// follows the marker glyph on each, trimmed.
pub open spec fn marked_references(lines: Seq<Seq<char>>) -> Seq<Seq<char>>
    decreases lines.len(),
{
    if lines.len() == 0 {
        Seq::empty()
    } else if is_marked(lines.last()) {
        marked_references(lines.drop_last()).push(trimmed(trimmed(lines.last()).skip(1)))
    } else {
        marked_references(lines.drop_last())
    }
}

/// Whether `deployments` has one deployment for each of `references`, in
/// order, named as the reference says wherever the reference holds a name.
pub open spec fn named_after(deployments: Seq<DeploymentView>, references: Seq<Seq<char>>) -> bool {
    &&& deployments.len() == references.len()
    &&& forall|i: int|
        0 <= i < references.len() && split_name(#[trigger] references[i]).0.len() > 0
            ==> deployments[i].name == split_name(references[i]).0
}

proof fn lemma_scan_lines_named(lines: Seq<Seq<char>>)
    requires
        only_marked_open(lines),
    ensures
        named_after(closed(scan_lines(lines)), marked_references(lines)),
        marked_references(lines).len() == marked_count(lines),
    decreases lines.len(),
{
    if lines.len() > 0 {
        let before = lines.drop_last();
        assert forall|i: int|
            0 <= i < before.len() && !is_skipped_line(#[trigger] before[i]) && !is_marked(
                before[i],
            ) implies !looks_like_deployment(before[i]) by {
            assert(before[i] == lines[i]);
        }
        lemma_scan_lines_named(before);
        let line = lines.last();
        assert(line == lines[lines.len() - 1]);
        let st = scan_lines(before);
        let refs = marked_references(before);
        let t = trimmed(line);
        if is_marked(line) {
            lemma_marker_not_skipped(t);
            let reference = trimmed(t.skip(1));
            let after = closed(scan_line(st, line));
            assert(after == closed(st).push(fresh(reference, closed(st).len())));
            assert forall|i: int|
                0 <= i < refs.push(reference).len() && split_name(
                    #[trigger] refs.push(reference)[i],
                ).0.len() > 0 implies after[i].name == split_name(refs.push(reference)[i]).0 by {
                if i < refs.len() {
                    assert(refs.push(reference)[i] == refs[i]);
                }
            }
        } else if !is_skipped(t) {
            match st.open {
                None => {},
                Some(d) => {
                    let after = closed(scan_line(st, line));
                    assert(after.len() == closed(st).len());
                    assert forall|i: int|
                        0 <= i < refs.len() && split_name(#[trigger] refs[i]).0.len()
                            > 0 implies after[i].name == split_name(refs[i]).0 by {
                        assert(closed(st)[i].name == split_name(refs[i]).0);
                        if i < st.done.len() {
                            assert(after[i] == closed(st)[i]);
                        }
                    }
                },
            }
        }
    }
}

/// In status output in which only lines with a marker glyph open a
/// deployment, the deployments follow the marked lines in order: there is
/// one for each marked line, named by the reference on that line wherever
/// the reference holds a name.
pub proof fn lemma_deployments_follow_markers(text: Seq<char>)
    requires
        only_marked_open(lines_of(text)),
    ensures
        named_after(deployments_of(text), marked_references(lines_of(text))),
{
    lemma_scan_lines_named(lines_of(text));
}

/// The first character of a line that starts with `label`, a label that
/// is not empty, is the first character of `label`.
proof fn lemma_first_of_prefix(t: Seq<char>, label: Seq<char>)
    requires
        has_prefix(t, label),
        label.len() > 0,
    ensures
        t.len() > 0,
        t[0] == label[0],
{
    assert(t.take(label.len() as int)[0] == label[0]);
}

/// A line that starts with the label of a field starts with no other
/// label, has no marker glyph and is not skipped.
proof fn lemma_labels_apart(t: Seq<char>)
    requires
        has_field_label(t),
    ensures
        !is_skipped(t),
        !has_marker(t),
        has_prefix(t, "Pinned:"@) ==> !has_prefix(t, "Version:"@) && !has_prefix(
            t,
            "BaseCommit:"@,
        ) && !has_prefix(t, "Digest:"@) && !has_prefix(t, "GPGSignature:"@) && !has_prefix(
            t,
            "LayeredPackages:"@,
        ),
        has_prefix(t, "LayeredPackages:"@) ==> !has_prefix(t, "Version:"@) && !has_prefix(
            t,
            "BaseCommit:"@,
        ) && !has_prefix(t, "Digest:"@) && !has_prefix(t, "GPGSignature:"@),
{
    reveal_strlit("Version:");
    reveal_strlit("BaseCommit:");
    reveal_strlit("Digest:");
    reveal_strlit("GPGSignature:");
    reveal_strlit("LayeredPackages:");
    reveal_strlit("Pinned:");
    reveal_strlit("State:");
    reveal_strlit("Deployments:");
    if has_prefix(t, "Version:"@) {
        lemma_first_of_prefix(t, "Version:"@);
    }
    if has_prefix(t, "BaseCommit:"@) {
        lemma_first_of_prefix(t, "BaseCommit:"@);
    }
    if has_prefix(t, "Digest:"@) {
        lemma_first_of_prefix(t, "Digest:"@);
        assert(t.take("Digest:"@.len() as int)[1] == 'i');
    }
    if has_prefix(t, "GPGSignature:"@) {
        lemma_first_of_prefix(t, "GPGSignature:"@);
    }
    if has_prefix(t, "LayeredPackages:"@) {
        lemma_first_of_prefix(t, "LayeredPackages:"@);
    }
    if has_prefix(t, "Pinned:"@) {
        lemma_first_of_prefix(t, "Pinned:"@);
    }
    if has_prefix(t, "State:"@) {
        lemma_first_of_prefix(t, "State:"@);
    }
    if has_prefix(t, "Deployments:"@) {
        lemma_first_of_prefix(t, "Deployments:"@);
        assert(t.take("Deployments:"@.len() as int)[1] == 'e');
    }
}

/// While a deployment is open, a line that starts with the label of a
/// field is read as a field of that deployment: it opens none and closes none.
pub proof fn lemma_field_line(st: Scan, line: Seq<char>)
    requires
        st.open is Some,
        has_field_label(trimmed(line)),
    ensures
        scan_line(st, line) == (Scan {
            done: st.done,
            open: Some(with_field(st.open->0, trimmed(line))),
        }),
{
    lemma_labels_apart(trimmed(line));
}

/// A `Pinned:` line pins the deployment exactly when its value is `yes`,
/// in any case of the letters, and changes nothing else.
pub proof fn lemma_pinned_field(d: DeploymentView, t: Seq<char>)
    requires
        has_prefix(t, "Pinned:"@),
    ensures
        with_field(d, t) == (DeploymentView {
            is_pinned: same_ignoring_ascii_case(field_value(t, "Pinned:"@), "yes"@),
            ..d
        }),
{
    lemma_labels_apart(t);
}

/// A `LayeredPackages:` line with an empty value gives the deployment the
/// text `None` in place of a list of packages; with any other value the
/// line gives that value. Nothing else changes.
pub proof fn lemma_layered_packages_field(d: DeploymentView, t: Seq<char>)
    requires
        has_prefix(t, "LayeredPackages:"@),
    ensures
        with_field(d, t) == (DeploymentView {
            layered_packages: if field_value(t, "LayeredPackages:"@).len() == 0 {
                "None"@
            } else {
                field_value(t, "LayeredPackages:"@)
            },
            ..d
        }),
{
    lemma_labels_apart(t);
}

/// Whether no deployment of `st` is pinned.
pub open spec fn none_pinned(st: Scan) -> bool {
    &&& forall|i: int| 0 <= i < st.done.len() ==> !(#[trigger] st.done[i]).is_pinned
    &&& match st.open {
        Some(d) => !d.is_pinned,
        None => true,
    }
}

proof fn lemma_scan_lines_unpinned(lines: Seq<Seq<char>>)
    requires
        forall|i: int| 0 <= i < lines.len() ==> !has_prefix(trimmed(#[trigger] lines[i]), "Pinned:"@),
    ensures
        none_pinned(scan_lines(lines)),
    decreases lines.len(),
{
    if lines.len() > 0 {
        let before = lines.drop_last();
        assert forall|i: int| 0 <= i < before.len() implies !has_prefix(
            trimmed(#[trigger] before[i]),
            "Pinned:"@,
        ) by {
            assert(before[i] == lines[i]);
        }
        lemma_scan_lines_unpinned(before);
        assert(lines.last() == lines[lines.len() - 1]);
    }
}

/// Status output without a `Pinned:` line describes no pinned deployment.
pub proof fn lemma_unpinned_without_label(text: Seq<char>)
    requires
        forall|i: int|
            0 <= i < lines_of(text).len() ==> !has_prefix(
                trimmed(#[trigger] lines_of(text)[i]),
                "Pinned:"@,
            ),
    ensures
        forall|i: int|
            0 <= i < deployments_of(text).len() ==> !(#[trigger] deployments_of(text)[i]).is_pinned,
{
    lemma_scan_lines_unpinned(lines_of(text));
}

} // verus!
