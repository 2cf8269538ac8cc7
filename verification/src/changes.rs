use vstd::prelude::*;

use crate::change::{Change, ChangeView, appended, law_append_concat, new_change_view};
use crate::commit::{Commit, CommitView};
use crate::change_type::{ChangeType, DeltaStatus, change_type_of};
use crate::delta_file_ref::{DeltaFileRef, DiffFileInfo, file_ref_of};
use crate::text::{char_to_string, string_from_utf8_lossy, utf8_lossy};

verus! {

/// One entry of a diff: its status and its two sides.
pub struct DiffDeltaInfo {
    pub status: DeltaStatus,
    pub old_file: DiffFileInfo,
    pub new_file: DiffFileInfo,
}

/// One line of a diff printed as a patch: its origin marker (`'+'`, `'-'`,
/// `' '`, ...) and its raw bytes.
pub struct PatchLine {
    pub origin: char,
    pub content: Vec<u8>,
}

/// The text one patch line adds to a change: its origin marker, then its
/// contents decoded lossily.
pub open spec fn patch_line_text(line: PatchLine) -> Seq<char> {
    seq![line.origin] + utf8_lossy(line.content@)
}

/// The text of a whole patch: the texts of its lines, in order.
pub open spec fn patch_text(lines: Seq<PatchLine>) -> Seq<char>
    decreases lines.len(),
{
    if lines.len() == 0 {
        Seq::empty()
    } else {
        patch_text(lines.drop_last()) + patch_line_text(lines.last())
    }
}

/// The changes one diff entry gives, with `text` the patch text of the whole
/// diff: none for statuses that are not followed or when a needed side is
/// missing; for a rename whose size changed, a modification (with the patch
/// text) followed by the rename (without it).
pub open spec fn diff_changes(delta: DiffDeltaInfo, text: Seq<char>) -> Option<(ChangeView, Option<ChangeView>)> {
    let new_file = file_ref_of(delta.new_file);
    let old_file = file_ref_of(delta.old_file);
    match delta.status {
        DeltaStatus::Added | DeltaStatus::Copied => match new_file {
            Some(nf) => Some((appended(new_change_view(DeltaStatus::Added, Some(nf.size), None, None, Some(nf.path)), text), None)),
            None => None,
        },
        DeltaStatus::Modified => match (new_file, old_file) {
            (Some(nf), Some(of)) => Some((appended(new_change_view(DeltaStatus::Modified, Some(of.size), Some(of.size), Some(of.path), Some(nf.path)), text), None)),
            _ => None,
        },
        DeltaStatus::Deleted => match old_file {
            Some(of) => Some((appended(new_change_view(DeltaStatus::Deleted, Some(of.size), None, Some(of.path), None), text), None)),
            None => None,
        },
        DeltaStatus::Renamed => match (new_file, old_file) {
            (Some(nf), Some(of)) => {
                let renamed = new_change_view(DeltaStatus::Renamed, Some(of.size), Some(nf.size), Some(of.path), Some(nf.path));
                if of.size != nf.size {
                    Some((appended(new_change_view(DeltaStatus::Modified, Some(of.size), Some(nf.size), Some(of.path), Some(nf.path)), text), Some(renamed)))
                } else {
                    Some((renamed, None))
                }
            },
            _ => None,
        },
        DeltaStatus::Unmodified
        | DeltaStatus::Ignored
        | DeltaStatus::Untracked
        | DeltaStatus::Typechange
        | DeltaStatus::Unreadable
        | DeltaStatus::Conflicted => None,
    }
}

/// The changes of a pair, in order.
pub open spec fn pair_changes(p: Option<(ChangeView, Option<ChangeView>)>) -> Seq<ChangeView> {
    match p {
        Some((first, Some(second))) => seq![first, second],
        Some((first, None)) => seq![first],
        None => Seq::empty(),
    }
}

/// All changes of a run of diff entries, in order.
pub open spec fn changes_of(deltas: Seq<DiffDeltaInfo>, text: Seq<char>) -> Seq<ChangeView>
    decreases deltas.len(),
{
    if deltas.len() == 0 {
        Seq::empty()
    } else {
        pair_changes(diff_changes(deltas[0], text)) + changes_of(deltas.drop_first(), text)
    }
}

/// The view of an optional pair of changes.
pub open spec fn pair_view(p: Option<(Change, Option<Change>)>) -> Option<(ChangeView, Option<ChangeView>)> {
    match p {
        Some((first, Some(second))) => Some((first@, Some(second@))),
        Some((first, None)) => Some((first@, None)),
        None => None,
    }
}

/// Adds the text of every patch line to `change`.
fn append_patch(change: &mut Change, patch: &Vec<PatchLine>)
    ensures
        final(change)@ == appended(old(change)@, patch_text(patch@)),
{
    let ghost start = change@;
    let n: usize = patch.len();
    for i in 0..n
        invariant
            n == patch@.len(),
            change@ == appended(start, patch_text(patch@.take(i as int))),
    {
        let ghost before = change@;
        let line = &patch[i];
        let origin = char_to_string(line.origin);
        let contents = string_from_utf8_lossy(line.content.as_slice());
        let _ = change.append_line_contents(origin.as_str());
        let _ = change.append_line_contents(contents.as_str());
        proof {
            law_append_concat(before, seq![line.origin], utf8_lossy(line.content@));
            law_append_concat(start, patch_text(patch@.take(i as int)), patch_line_text(patch@[i as int]));
            assert(patch@.take(i + 1).drop_last() =~= patch@.take(i as int));
            assert(patch@.take(i + 1).last() == patch@[i as int]);
            assert(patch_text(patch@.take(i + 1)) =~= patch_text(patch@.take(i as int))
                + patch_line_text(patch@[i as int]));
        }
    }
    assert(patch@.take(n as int) =~= patch@);
}

/// A change with the whole patch text as its contents.
fn change_with_patch(
    status: DeltaStatus,
    old_file_size: Option<usize>,
    new_file_size: Option<usize>,
    old_file_path: Option<String>,
    new_file_path: Option<String>,
    patch: &Vec<PatchLine>,
) -> (r: Change)
    ensures
        r@ == appended(
            new_change_view(status, old_file_size, new_file_size, crate::change::opt_text(old_file_path), crate::change::opt_text(new_file_path)),
            patch_text(patch@),
        ),
{
    let mut change = Change::new(status, old_file_size, new_file_size, old_file_path, new_file_path);
    append_patch(&mut change, patch);
    change
}

/// The changes of one diff entry (see `diff_changes`).
fn get_diff_changes(delta: &DiffDeltaInfo, patch: &Vec<PatchLine>) -> (r: Result<Option<(Change, Option<Change>)>, git2::Error>)
    ensures
        r matches Ok(p) && pair_view(p) == diff_changes(*delta, patch_text(patch@)),
{
    let new_file = DeltaFileRef::new(&delta.new_file);
    let old_file = DeltaFileRef::new(&delta.old_file);

    match delta.status {
        DeltaStatus::Added | DeltaStatus::Copied => {
            let Some(new_file) = new_file else {
                return Ok(None);
            };
            let change = change_with_patch(
                DeltaStatus::Added,
                Some(new_file.size()),
                None,
                None,
                Some(String::from_str(new_file.get_path())),
                patch,
            );
            Ok(Some((change, None)))
        },
        DeltaStatus::Modified => {
            let Some(new_file) = new_file else {
                return Ok(None);
            };
            let Some(old_file) = old_file else {
                return Ok(None);
            };
            let change = change_with_patch(
                DeltaStatus::Modified,
                Some(old_file.size()),
                Some(old_file.size()),
                Some(String::from_str(old_file.get_path())),
                Some(String::from_str(new_file.get_path())),
                patch,
            );
            Ok(Some((change, None)))
        },
        DeltaStatus::Deleted => {
            let Some(old_file) = old_file else {
                return Ok(None);
            };
            let change = change_with_patch(
                DeltaStatus::Deleted,
                Some(old_file.size()),
                None,
                Some(String::from_str(old_file.get_path())),
                None,
                patch,
            );
            Ok(Some((change, None)))
        },
        DeltaStatus::Renamed => {
            let Some(new_file) = new_file else {
                return Ok(None);
            };
            let Some(old_file) = old_file else {
                return Ok(None);
            };
            let change_renamed = Change::new(
                DeltaStatus::Renamed,
                Some(old_file.size()),
                Some(new_file.size()),
                Some(String::from_str(old_file.get_path())),
                Some(String::from_str(new_file.get_path())),
            );
            if old_file.size() != new_file.size() {
                let change_modified = change_with_patch(
                    DeltaStatus::Modified,
                    Some(old_file.size()),
                    Some(new_file.size()),
                    Some(String::from_str(old_file.get_path())),
                    Some(String::from_str(new_file.get_path())),
                    patch,
                );
                Ok(Some((change_modified, Some(change_renamed))))
            } else {
                Ok(Some((change_renamed, None)))
            }
        },
        DeltaStatus::Unmodified
        | DeltaStatus::Ignored
        | DeltaStatus::Untracked
        | DeltaStatus::Typechange
        | DeltaStatus::Unreadable
        | DeltaStatus::Conflicted => Ok(None),
    }
}

/// The text of a patch with one more line is the text of the patch so far,
/// then that line's origin marker, then its contents decoded lossily.
pub proof fn law_patch_text_one_more_line(lines: Seq<PatchLine>, line: PatchLine)
    ensures
        patch_text(lines.push(line)) == patch_text(lines) + seq![line.origin] + utf8_lossy(line.content@),
        patch_text(Seq::<PatchLine>::empty()) == Seq::<char>::empty(),
{
    assert(lines.push(line).drop_last() =~= lines);
    assert(patch_text(lines.push(line)) =~= patch_text(lines) + seq![line.origin] + utf8_lossy(line.content@));
}

/// The side of a diff entry resolves exactly when the file exists, has a
/// path and has a blob.
pub open spec fn side_resolves(f: DiffFileInfo) -> bool {
    f.exists && f.path is Some && f.blob_size is Some
}

/// A change with these fields.
pub open spec fn change_with(
    contents: Seq<char>,
    change_type: ChangeType,
    old_file_size: Option<usize>,
    new_file_size: Option<usize>,
    old_file_path: Option<Seq<char>>,
    new_file_path: Option<Seq<char>>,
) -> ChangeView {
    ChangeView { line_contents: Some(contents), change_type, old_file_size, new_file_size, old_file_path, new_file_path }
}

/// What each kind of diff entry gives, field by field, in terms of the entry's
/// two sides: an addition or copy records the new file's size (as the old
/// size) and path; a modification records the old file's size twice and both
/// paths; a deletion records the old file's size and path; a rename records
/// both sizes and both paths, preceded by a modification holding the patch
/// text when the sizes differ. Every change but a rename holds the whole patch
/// text; nothing comes from a side that does not resolve or from any other
/// status.
pub proof fn law_diff_changes_fields(delta: DiffDeltaInfo, text: Seq<char>)
    ensures
        ({
            let o = delta.old_file;
            let n = delta.new_file;
            let r = diff_changes(delta, text);
            &&& (delta.status == DeltaStatus::Added || delta.status == DeltaStatus::Copied) ==> {
                &&& (r is Some <==> side_resolves(n))
                &&& side_resolves(n) ==> r == Some((change_with(text, ChangeType::Added, Some(n.blob_size->0), None, None, Some(n.path->0@)), None::<ChangeView>))
            }
            &&& delta.status == DeltaStatus::Modified ==> {
                &&& (r is Some <==> side_resolves(n) && side_resolves(o))
                &&& side_resolves(n) && side_resolves(o) ==> r == Some((change_with(text, ChangeType::Modified, Some(o.blob_size->0), Some(o.blob_size->0), Some(o.path->0@), Some(n.path->0@)), None::<ChangeView>))
            }
            &&& delta.status == DeltaStatus::Deleted ==> {
                &&& (r is Some <==> side_resolves(o))
                &&& side_resolves(o) ==> r == Some((change_with(text, ChangeType::Deleted, Some(o.blob_size->0), None, Some(o.path->0@), None), None::<ChangeView>))
            }
            &&& delta.status == DeltaStatus::Renamed ==> {
                let renamed = change_with(Seq::empty(), ChangeType::Renamed, Some(o.blob_size->0), Some(n.blob_size->0), Some(o.path->0@), Some(n.path->0@));
                &&& (r is Some <==> side_resolves(n) && side_resolves(o))
                &&& side_resolves(n) && side_resolves(o) && o.blob_size->0 != n.blob_size->0 ==> r == Some((change_with(text, ChangeType::Modified, Some(o.blob_size->0), Some(n.blob_size->0), Some(o.path->0@), Some(n.path->0@)), Some(renamed)))
                &&& side_resolves(n) && side_resolves(o) && o.blob_size->0 == n.blob_size->0 ==> r == Some((renamed, None::<ChangeView>))
            }
            &&& (delta.status != DeltaStatus::Added && delta.status != DeltaStatus::Copied
                && delta.status != DeltaStatus::Modified && delta.status != DeltaStatus::Deleted
                && delta.status != DeltaStatus::Renamed) ==> r is None
        }),
{
    assert(Seq::<char>::empty() + text =~= text);
}

/// The changes of a single entry are those that entry gives, in order.
pub proof fn law_changes_of_one_entry(delta: DiffDeltaInfo, text: Seq<char>)
    ensures
        changes_of(seq![delta], text) == pair_changes(diff_changes(delta, text)),
        changes_of(Seq::<DiffDeltaInfo>::empty(), text) == Seq::<ChangeView>::empty(),
{
    assert(seq![delta].drop_first() =~= Seq::<DiffDeltaInfo>::empty());
    assert(seq![delta][0] == delta);
    assert(changes_of(Seq::<DiffDeltaInfo>::empty(), text) =~= Seq::<ChangeView>::empty());
    assert(pair_changes(diff_changes(delta, text)) + Seq::<ChangeView>::empty() =~= pair_changes(diff_changes(delta, text)));
    assert(changes_of(seq![delta], text) =~= pair_changes(diff_changes(delta, text)));
}

/// Every change a diff gives is of a tracked kind: never `Unmapped`.
pub proof fn law_changes_are_tracked(deltas: Seq<DiffDeltaInfo>, text: Seq<char>)
    ensures
        forall|i: int| 0 <= i < changes_of(deltas, text).len()
            ==> (#[trigger] changes_of(deltas, text)[i]).change_type != ChangeType::Unmapped,
    decreases deltas.len(),
{
    if deltas.len() > 0 {
        law_changes_are_tracked(deltas.drop_first(), text);
        let head = pair_changes(diff_changes(deltas[0], text));
        let tail = changes_of(deltas.drop_first(), text);
        assert forall|i: int| 0 <= i < changes_of(deltas, text).len()
            implies (#[trigger] changes_of(deltas, text)[i]).change_type != ChangeType::Unmapped by {
            if i < head.len() {
                assert(changes_of(deltas, text)[i] == head[i]);
            } else {
                assert(changes_of(deltas, text)[i] == tail[i - head.len()]);
            }
        }
    }
}

/// A diff gives at most two changes per entry.
pub proof fn law_at_most_two_changes_per_entry(deltas: Seq<DiffDeltaInfo>, text: Seq<char>)
    ensures
        changes_of(deltas, text).len() <= 2 * deltas.len(),
    decreases deltas.len(),
{
    if deltas.len() > 0 {
        law_at_most_two_changes_per_entry(deltas.drop_first(), text);
    }
}

/// The changes of two runs of entries, one after the other, are the changes
/// of the first run followed by those of the second.
pub proof fn law_changes_of_concat(a: Seq<DiffDeltaInfo>, b: Seq<DiffDeltaInfo>, text: Seq<char>)
    ensures
        changes_of(a + b, text) == changes_of(a, text) + changes_of(b, text),
    decreases a.len(),
{
    if a.len() == 0 {
        assert(a + b =~= b);
        assert(changes_of(a, text) + changes_of(b, text) =~= changes_of(b, text));
    } else {
        assert((a + b).drop_first() =~= a.drop_first() + b);
        assert((a + b)[0] == a[0]);
        law_changes_of_concat(a.drop_first(), b, text);
        assert(changes_of(a + b, text) =~= changes_of(a, text) + changes_of(b, text));
    }
}

/// Every change a diff gives holds the whole patch text as its contents,
/// except a rename, which holds none.
pub proof fn law_change_contents(deltas: Seq<DiffDeltaInfo>, text: Seq<char>)
    ensures
        forall|i: int| 0 <= i < changes_of(deltas, text).len() ==> {
            let c = #[trigger] changes_of(deltas, text)[i];
            ||| c.line_contents == Some(text)
            ||| c.change_type == ChangeType::Renamed && c.line_contents == Some(Seq::<char>::empty())
        },
    decreases deltas.len(),
{
    if deltas.len() > 0 {
        law_change_contents(deltas.drop_first(), text);
        let head = pair_changes(diff_changes(deltas[0], text));
        let tail = changes_of(deltas.drop_first(), text);
        assert(Seq::<char>::empty() + text =~= text);
        assert forall|i: int| 0 <= i < changes_of(deltas, text).len() implies {
            let c = #[trigger] changes_of(deltas, text)[i];
            ||| c.line_contents == Some(text)
            ||| c.change_type == ChangeType::Renamed && c.line_contents == Some(Seq::<char>::empty())
        } by {
            if i < head.len() {
                assert(changes_of(deltas, text)[i] == head[i]);
            } else {
                assert(changes_of(deltas, text)[i] == tail[i - head.len()]);
            }
        }
    }
}

/// An entry gives two changes exactly when it is a rename whose two sides
/// both resolve and differ in size: first the modification, then the rename.
pub proof fn law_two_changes_only_for_resized_renames(delta: DiffDeltaInfo, text: Seq<char>)
    ensures
        pair_changes(diff_changes(delta, text)).len() == 2 <==> {
            &&& delta.status == DeltaStatus::Renamed
            &&& file_ref_of(delta.old_file) is Some
            &&& file_ref_of(delta.new_file) is Some
            &&& file_ref_of(delta.old_file)->0.size != file_ref_of(delta.new_file)->0.size
        },
        pair_changes(diff_changes(delta, text)).len() == 2 ==> {
            &&& pair_changes(diff_changes(delta, text))[0].change_type == ChangeType::Modified
            &&& pair_changes(diff_changes(delta, text))[1].change_type == ChangeType::Renamed
        },
{
}

/// The changes of a commit's diff, handed out one at a time.
///
/// It holds the commit the diff belongs to, the diff's entries, the diff
/// printed as a patch, the position of the next entry to look at, and a change
/// that an entry gave but that has not been handed out yet.
pub struct Changes {
    commit: Commit,
    deltas: Vec<DiffDeltaInfo>,
    patch: Vec<PatchLine>,
    idx_delta: usize,
    next_change: Option<Change>,
}

impl Changes {
    #[verifier::type_invariant]
    spec fn position_within_entries(self) -> bool {
        self.idx_delta <= self.deltas@.len()
    }

    /// The commit these changes belong to.
    pub closed spec fn source(&self) -> CommitView {
        self.commit@
    }

    /// The diff's entries.
    pub closed spec fn entries(&self) -> Seq<DiffDeltaInfo> {
        self.deltas@
    }

    /// The diff printed as a patch.
    pub closed spec fn patch_lines(&self) -> Seq<PatchLine> {
        self.patch@
    }

    /// The position of the next entry to look at.
    pub closed spec fn position(&self) -> nat {
        self.idx_delta as nat
    }

    /// The change an entry gave that has not been handed out yet, if any.
    pub closed spec fn pending(&self) -> Option<ChangeView> {
        match self.next_change {
            Some(c) => Some(c@),
            None => None,
        }
    }

    /// The changes still to be handed out, in order: the pending one, then
    /// those of the entries from the position on.
    pub open spec fn remaining(&self) -> Seq<ChangeView> {
        let pending = match self.pending() {
            Some(c) => seq![c],
            None => Seq::empty(),
        };
        pending + changes_of(self.entries().skip(self.position() as int), patch_text(self.patch_lines()))
    }

    /// The changes of `commit`'s diff, with these entries, printed as this
    /// patch: iteration starts at the first entry with nothing pending.
    pub fn from_diff(commit: Commit, deltas: Vec<DiffDeltaInfo>, patch: Vec<PatchLine>) -> (r: Self)
        ensures
            r.source() == commit@,
            r.entries() == deltas@,
            r.patch_lines() == patch@,
            r.position() == 0,
            r.pending() is None,
            r.remaining() == changes_of(deltas@, patch_text(patch@)),
    {
        let r = Changes { commit, deltas, patch, idx_delta: 0, next_change: None };
        assert(r.deltas@.skip(0) =~= r.deltas@);
        assert(r.remaining() =~= changes_of(r.deltas@, patch_text(r.patch@)));
        r
    }

    /// The commit these changes belong to.
    pub fn commit(&self) -> (r: &Commit)
        ensures
            r@ == self.source(),
    {
        &self.commit
    }

    /// The next change, or `None` once all have been handed out. The commit,
    /// the entries and the patch stay as they are, and the position only moves
    /// forward, within the entries.
    pub fn next(&mut self) -> (r: Option<Result<Change, git2::Error>>)
        ensures
            final(self).source() == old(self).source(),
            final(self).entries() == old(self).entries(),
            final(self).patch_lines() == old(self).patch_lines(),
            old(self).position() <= final(self).position() <= final(self).entries().len(),
            old(self).remaining().len() == 0 ==> r is None && final(self).remaining() == old(self).remaining(),
            old(self).remaining().len() > 0 ==> {
                &&& r matches Some(Ok(c))
                &&& c@ == old(self).remaining()[0]
                &&& final(self).remaining() == old(self).remaining().drop_first()
            },
    {
        proof {
            use_type_invariant(&*self);
        }
        let ghost text = patch_text(self.patch@);
        if let Some(change) = &self.next_change {
            let out = change.duplicate();
            self.next_change = None;
            assert(old(self).remaining() =~= seq![out@] + self.remaining());
            return Some(Ok(out));
        }
        loop
            invariant
                self.idx_delta <= self.deltas@.len(),
                old(self).idx_delta <= self.idx_delta,
                self.next_change is None,
                self.commit == old(self).commit,
                self.deltas == old(self).deltas,
                self.patch == old(self).patch,
                text == patch_text(self.patch@),
                self.remaining() == old(self).remaining(),
            decreases self.deltas@.len() - self.idx_delta,
        {
            if self.idx_delta >= self.deltas.len() {
                assert(self.deltas@.skip(self.idx_delta as int) =~= Seq::<DiffDeltaInfo>::empty());
                return None;
            }
            let idx: usize = self.idx_delta;
            let ghost rest = self.deltas@.skip(idx as int);
            assert(rest.drop_first() =~= self.deltas@.skip(idx + 1));
            assert(rest[0] == self.deltas@[idx as int]);
            let got = get_diff_changes(&self.deltas[idx], &self.patch);
            self.idx_delta = idx + 1;
            match got {
                Ok(Some((change, next_change))) => {
                    self.next_change = next_change;
                    assert(old(self).remaining() =~= seq![change@] + self.remaining());
                    return Some(Ok(change));
                },
                Ok(None) => {
                    assert(self.remaining() =~= old(self).remaining());
                },
                Err(err) => {
                    return Some(Err(err));
                },
            }
        }
    }

    /// All the changes still to be handed out, in order.
    pub fn into_changes(self) -> (r: Vec<Change>)
        ensures
            r@.map_values(|c: Change| c@) == self.remaining(),
    {
        let ghost all = self.remaining();
        let mut rest = self;
        let mut out: Vec<Change> = Vec::new();
        loop
            invariant
                out@.map_values(|c: Change| c@) + rest.remaining() == all,
            ensures
                out@.map_values(|c: Change| c@) == all,
            decreases rest.remaining().len(),
        {
            let ghost before = rest.remaining();
            match rest.next() {
                Some(Ok(c)) => {
                    let ghost done = out@.map_values(|c: Change| c@);
                    out.push(c);
                    assert(out@.map_values(|c: Change| c@) =~= done.push(c@));
                    assert(done.push(c@) + rest.remaining() =~= done + before);
                },
                Some(Err(_)) => {
                    assert(false);
                    break;
                },
                None => {
                    assert(out@.map_values(|c: Change| c@) =~= all);
                    break;
                },
            }
        }
        out
    }
}

/// The changes still to be handed out number at most one (the pending one)
/// plus two per entry from the position on; so a `Changes` hands out at most
/// that many changes before `next` returns `None`.
pub proof fn law_remaining_bound(changes: &Changes)
    requires
        changes.position() <= changes.entries().len(),
    ensures
        changes.remaining().len() <= 1 + 2 * (changes.entries().len() - changes.position()),
{
    law_at_most_two_changes_per_entry(
        changes.entries().skip(changes.position() as int),
        patch_text(changes.patch_lines()),
    );
}

} // verus!
