//! What `git` prints for known facts, and that reading it gives the facts back.
use vstd::prelude::*;

use crate::porcelain::{
    change_of_letter, has_orig, name_status_entries, name_status_entry, scan_line, scan_lines,
    status_entries, status_entry, status_of, tracked_changes, untracked_files, worktrees_on,
    StatusDiffModel, StatusEntryModel, WorktreeModel, WorktreeScan,
};
use crate::text::{
    after_prefix, is_white_space, law_after_prefix, law_first_line, law_first_piece, law_one_piece,
    law_trimmed_kept, lines_of, pieces, trimmed, trimmed_end,
};

verus! {

// ---------------------------------------------------------------------------
// git status --porcelain -z
// ---------------------------------------------------------------------------

/// Whether a letter announces a second path.
pub open spec fn announces_path(c: char) -> bool {
    c == 'R' || c == 'C'
}

/// Whether `git status` can print an entry: its letters are bytes, its paths are not empty and hold
/// no zero byte, and there is an original path exactly for renames and copies.
pub open spec fn is_printable(e: StatusEntryModel) -> bool {
    &&& 0 < e.staged as u32
    &&& e.staged as u32 <= 255
    &&& 0 < e.unstaged as u32
    &&& e.unstaged as u32 <= 255
    &&& e.path.len() > 0
    &&& !e.path.contains(0u8)
    &&& e.is_untracked == (e.staged == '?' && e.unstaged == '?')
    &&& e.orig_path is Some <==> announces_path(e.staged) || announces_path(e.unstaged)
    &&& e.orig_path matches Some(p) ==> p.len() > 0 && !p.contains(0u8)
}

/// The two letters of an entry, a space, and its path.
pub open spec fn printed_part(e: StatusEntryModel) -> Seq<u8> {
    seq![e.staged as u8, e.unstaged as u8, ' ' as u8] + e.path
}

/// How `git status` prints an entry.
pub open spec fn printed_entry(e: StatusEntryModel) -> Seq<u8> {
    match e.orig_path {
        Some(p) => printed_part(e).push(0u8) + p.push(0u8),
        None => printed_part(e).push(0u8),
    }
}

/// How `git status` prints some entries.
pub open spec fn printed_status(entries: Seq<StatusEntryModel>) -> Seq<u8>
    decreases entries.len(),
{
    if entries.len() == 0 {
        seq![]
    } else {
        printed_entry(entries[0]) + printed_status(entries.skip(1))
    }
}

proof fn lemma_part(e: StatusEntryModel)
    requires
        is_printable(e),
    ensures
        !printed_part(e).contains(0u8),
        printed_part(e).len() >= 4,
        has_orig(printed_part(e)) <==> e.orig_path is Some,
        status_entry(printed_part(e), e.orig_path) == e,
{
    let part = printed_part(e);
    assert(part[0] == e.staged as u8 && part[1] == e.unstaged as u8 && part[2] == ' ' as u8);
    assert forall|i: int| 0 <= i < part.len() implies part[i] != 0u8 by {
        if i >= 3 {
            assert(part[i] == e.path[i - 3]);
            assert(e.path.contains(e.path[i - 3]));
        }
    }
    assert(part.skip(3) =~= e.path);
}

/// Reading what `git status` prints gives the entries back.
pub proof fn law_status_read_back(entries: Seq<StatusEntryModel>)
    requires
        forall|i: int| 0 <= i < entries.len() ==> is_printable(#[trigger] entries[i]),
    ensures
        status_of(printed_status(entries)).entries == entries,
    decreases entries.len(),
{
    if entries.len() == 0 {
        let none = Seq::<u8>::empty();
        law_one_piece(none, 0u8);
        assert(printed_status(entries) =~= none);
        assert(seq![none].skip(1) =~= Seq::<Seq<u8>>::empty());
        assert(status_entries(seq![none].skip(1)) =~= Seq::<StatusEntryModel>::empty());
        assert(status_entries(seq![none]) =~= entries);
    } else {
        let e = entries[0];
        let rest = entries.skip(1);
        assert forall|i: int| 0 <= i < rest.len() implies is_printable(#[trigger] rest[i]) by {
            assert(rest[i] == entries[i + 1]);
        }
        law_status_read_back(rest);
        lemma_part(e);
        let part = printed_part(e);
        let tail = printed_status(rest);
        let tail_parts = pieces(tail, 0u8);
        match e.orig_path {
            None => {
                law_first_piece(part, tail, 0u8);
                let parts = seq![part] + tail_parts;
                assert(parts.skip(1) =~= tail_parts);
                assert(status_entries(parts) == seq![e] + status_entries(tail_parts));
            },
            Some(p) => {
                law_first_piece(p, tail, 0u8);
                law_first_piece(part, p.push(0u8) + tail, 0u8);
                assert(printed_entry(e) + tail =~= part.push(0u8) + (p.push(0u8) + tail));
                let parts = seq![part] + (seq![p] + tail_parts);
                assert(parts.skip(2) =~= tail_parts);
                assert(parts[1] == p);
                assert(status_entries(parts) == seq![e] + status_entries(tail_parts));
            },
        }
        assert(seq![e] + rest =~= entries);
    }
}

/// Each entry counts once at most, as a change of a tracked file or as an untracked file; all of
/// them count where no entry has two blanks for letters.
pub proof fn law_status_counts(entries: Seq<StatusEntryModel>)
    ensures
        0 <= tracked_changes(entries),
        0 <= untracked_files(entries),
        tracked_changes(entries) + untracked_files(entries) <= entries.len(),
        (forall|i: int|
            0 <= i < entries.len() ==> (#[trigger] entries[i]).staged != ' '
                || entries[i].unstaged != ' ' || entries[i].is_untracked) ==> tracked_changes(
            entries,
        ) + untracked_files(entries) == entries.len(),
    decreases entries.len(),
{
    if entries.len() > 0 {
        let before = entries.drop_last();
        law_status_counts(before);
        if forall|i: int|
            0 <= i < entries.len() ==> (#[trigger] entries[i]).staged != ' ' || entries[i].unstaged
                != ' ' || entries[i].is_untracked {
            assert forall|i: int| 0 <= i < before.len() implies (#[trigger] before[i]).staged != ' '
                || before[i].unstaged != ' ' || before[i].is_untracked by {
                assert(before[i] == entries[i]);
            }
            assert(entries.last() == entries[entries.len() - 1]);
        }
    }
}

// ---------------------------------------------------------------------------
// git diff --name-status
// ---------------------------------------------------------------------------

/// Whether `git diff` can print a path as it is, at the end of a line.
pub open spec fn is_plain_path(p: Seq<char>) -> bool {
    p.len() > 0 && !p.contains('\t') && !is_white_space(p.last())
}

/// Whether a line tells an entry: a letter for the change, which a score may follow, and the path
/// or paths, with tabs between them.
pub open spec fn is_line_for(line: Seq<char>, letter: char, score: Seq<char>, e: StatusDiffModel) ->
    bool {
    &&& e.change == change_of_letter(letter)
    &&& letter != '\t'
    &&& !score.contains('\t')
    &&& is_plain_path(e.path)
    &&& if e.change is Renamed || e.change is Copied {
        &&& e.old_path is Some
        &&& !e.old_path->0.contains('\t')
        &&& line == (seq![letter] + score).push('\t') + (e.old_path->0.push('\t') + e.path)
    } else {
        &&& e.old_path is None
        &&& line == (seq![letter] + score).push('\t') + e.path
    }
}

/// Reading a line of `git diff --name-status` gives the entry back, whatever score follows the
/// letter.
pub proof fn law_name_status_read_back(
    line: Seq<char>,
    letter: char,
    score: Seq<char>,
    e: StatusDiffModel,
)
    requires
        is_line_for(line, letter, score, e),
    ensures
        name_status_entry(line) == Some(e),
{
    let code = seq![letter] + score;
    assert forall|i: int| 0 <= i < code.len() implies code[i] != '\t' by {
        if i > 0 {
            assert(code[i] == score[i - 1]);
            assert(score.contains(score[i - 1]));
        }
    }
    assert(line.len() > 0);
    assert(line.last() == e.path.last());
    assert(trimmed_end(line) == line);
    law_one_piece(e.path, '\t');
    assert(code[0] == letter);
    if e.change is Renamed || e.change is Copied {
        let old_path = e.old_path->0;
        law_first_piece(old_path, e.path, '\t');
        law_first_piece(code, old_path.push('\t') + e.path, '\t');
        let fields = pieces(line, '\t');
        assert(fields =~= seq![code, old_path, e.path]);
    } else {
        law_first_piece(code, e.path, '\t');
        let fields = pieces(line, '\t');
        assert(fields =~= seq![code, e.path]);
    }
}

/// Reading the lines of `git diff --name-status` gives all entries back, in order.
pub proof fn law_name_status_lines_read_back(
    lines: Seq<Seq<char>>,
    letters: Seq<char>,
    scores: Seq<Seq<char>>,
    entries: Seq<StatusDiffModel>,
)
    requires
        lines.len() == entries.len(),
        letters.len() == entries.len(),
        scores.len() == entries.len(),
        forall|i: int|
            0 <= i < entries.len() ==> is_line_for(
                #[trigger] lines[i],
                letters[i],
                scores[i],
                entries[i],
            ),
    ensures
        name_status_entries(lines) == entries,
    decreases entries.len(),
{
    if entries.len() > 0 {
        let last = entries.len() - 1;
        assert forall|i: int| 0 <= i < last implies is_line_for(
            #[trigger] lines.drop_last()[i],
            letters.drop_last()[i],
            scores.drop_last()[i],
            entries.drop_last()[i],
        ) by {
            assert(lines.drop_last()[i] == lines[i]);
        }
        law_name_status_lines_read_back(
            lines.drop_last(),
            letters.drop_last(),
            scores.drop_last(),
            entries.drop_last(),
        );
        assert(lines.last() == lines[last]);
        law_name_status_read_back(lines[last], letters[last], scores[last], entries[last]);
        assert(entries.drop_last().push(entries[last]) =~= entries);
    } else {
        assert(name_status_entries(lines) =~= entries);
    }
}

// ---------------------------------------------------------------------------
// git worktree list --porcelain
// ---------------------------------------------------------------------------

/// Whether a text can stand at the end of a line and be read back.
pub open spec fn ends_line(s: Seq<char>) -> bool {
    s.len() > 0 && !is_white_space(s.last()) && !s.contains('\n')
}

/// Whether `git worktree list` can print a worktree: its path, its branch, and the id of the commit
/// that it is at.
pub open spec fn is_printable_worktree(w: WorktreeModel, id: Seq<char>) -> bool {
    &&& ends_line(w.path)
    &&& ends_line(id)
    &&& w.branch matches Some(b) ==> ends_line(b)
}

/// The line for the branch of a worktree.
pub open spec fn branch_line(branch: Option<Seq<char>>) -> Seq<char> {
    match branch {
        Some(b) => "branch "@ + ("refs/heads/"@ + b),
        None => "detached"@,
    }
}

/// The lines for a worktree.
pub open spec fn worktree_lines(w: WorktreeModel, id: Seq<char>) -> Seq<Seq<char>> {
    seq!["worktree "@ + w.path, "HEAD "@ + id, branch_line(w.branch), Seq::<char>::empty()]
}

/// The lines for some worktrees.
pub open spec fn worktree_list(ws: Seq<WorktreeModel>, ids: Seq<Seq<char>>) -> Seq<Seq<char>>
    decreases ws.len(),
{
    if ws.len() == 0 {
        seq![]
    } else {
        worktree_list(ws.drop_last(), ids.drop_last()) + worktree_lines(ws.last(), ids.last())
    }
}

/// A text of which each line ends in a line feed.
pub open spec fn text_of_lines(lines: Seq<Seq<char>>) -> Seq<char>
    decreases lines.len(),
{
    if lines.len() == 0 {
        seq![]
    } else {
        lines[0].push('\n') + text_of_lines(lines.skip(1))
    }
}

/// A text that was put together of lines has these lines.
pub proof fn law_lines_read_back(lines: Seq<Seq<char>>)
    requires
        forall|i: int|
            0 <= i < lines.len() ==> !(#[trigger] lines[i]).contains('\n') && (lines[i].len() > 0
                ==> lines[i].last() != '\r'),
    ensures
        lines_of(text_of_lines(lines)) == lines,
    decreases lines.len(),
{
    if lines.len() > 0 {
        let rest = lines.skip(1);
        assert forall|i: int| 0 <= i < rest.len() implies !(#[trigger] rest[i]).contains('\n') && (
        rest[i].len() > 0 ==> rest[i].last() != '\r') by {
            assert(rest[i] == lines[i + 1]);
        }
        law_lines_read_back(rest);
        law_first_line(lines[0], text_of_lines(rest));
        assert(seq![lines[0]] + rest =~= lines);
    } else {
        assert(lines_of(text_of_lines(lines)) =~= lines);
    }
}

proof fn lemma_scan_push(lines: Seq<Seq<char>>, line: Seq<char>)
    ensures
        scan_lines(lines.push(line)) == scan_line(scan_lines(lines), line),
{
    assert(lines.push(line).drop_last() =~= lines);
}

proof fn lemma_worktree_line_facts(w: WorktreeModel, id: Seq<char>, s: WorktreeScan)
    requires
        is_printable_worktree(w, id),
    ensures
        scan_line(s, "worktree "@ + w.path) == (WorktreeScan { path: Some(w.path), ..s }),
        scan_line(s, "HEAD "@ + id) == (WorktreeScan { has_head: true, ..s }),
        s.branch is None ==> scan_line(s, branch_line(w.branch)) == (WorktreeScan {
            branch: w.branch,
            ..s
        }),
{
    reveal_strlit("worktree ");
    reveal_strlit("HEAD ");
    reveal_strlit("branch ");
    reveal_strlit("refs/heads/");
    reveal_strlit("detached");
    let a = "worktree "@ + w.path;
    assert(a[0] == 'w' && a.last() == w.path.last());
    law_trimmed_kept(a);
    law_after_prefix("worktree "@, w.path);
    let b = "HEAD "@ + id;
    assert(b[0] == 'H' && b.last() == id.last());
    law_trimmed_kept(b);
    law_after_prefix("HEAD "@, id);
    assert(after_prefix(b, "worktree "@) is None) by {
        assert("worktree "@[0] == 'w');
    }
    let c = branch_line(w.branch);
    match w.branch {
        Some(name) => {
            let refname = "refs/heads/"@ + name;
            assert(c[0] == 'b' && c.last() == name.last());
            law_trimmed_kept(c);
            law_after_prefix("branch "@, refname);
            law_after_prefix("refs/heads/"@, name);
        },
        None => {
            assert(c[0] == 'd' && c.last() == 'd');
            law_trimmed_kept(c);
            assert("branch "@[0] == 'b');
        },
    }
    assert("worktree "@[0] == 'w' && "HEAD "@[0] == 'H');
    assert(after_prefix(c, "worktree "@) is None);
    assert(after_prefix(c, "HEAD "@) is None);
}

proof fn lemma_scan_worktrees(ws: Seq<WorktreeModel>, ids: Seq<Seq<char>>)
    requires
        ids.len() == ws.len(),
        forall|i: int| 0 <= i < ws.len() ==> is_printable_worktree(#[trigger] ws[i], ids[i]),
    ensures
        scan_lines(worktree_list(ws, ids)) == (WorktreeScan {
            path: None,
            has_head: false,
            branch: None,
            complete: ws,
        }),
    decreases ws.len(),
{
    if ws.len() > 0 {
        let before = ws.drop_last();
        let before_ids = ids.drop_last();
        let w = ws.last();
        let id = ids.last();
        assert forall|i: int| 0 <= i < before.len() implies is_printable_worktree(
            #[trigger] before[i],
            before_ids[i],
        ) by {
            assert(before[i] == ws[i]);
        }
        assert(is_printable_worktree(ws[ws.len() - 1], ids[ws.len() - 1]));
        lemma_scan_worktrees(before, before_ids);
        let l0 = worktree_list(before, before_ids);
        let l1 = l0.push("worktree "@ + w.path);
        let l2 = l1.push("HEAD "@ + id);
        let l3 = l2.push(branch_line(w.branch));
        let l4 = l3.push(Seq::<char>::empty());
        assert(worktree_list(ws, ids) =~= l4);
        lemma_scan_push(l0, "worktree "@ + w.path);
        lemma_scan_push(l1, "HEAD "@ + id);
        lemma_scan_push(l2, branch_line(w.branch));
        lemma_scan_push(l3, Seq::<char>::empty());
        lemma_worktree_line_facts(w, id, scan_lines(l0));
        lemma_worktree_line_facts(w, id, scan_lines(l1));
        lemma_worktree_line_facts(w, id, scan_lines(l2));
        assert(trimmed(Seq::<char>::empty()).len() == 0);
        assert(before.push(w) =~= ws);
    } else {
        assert(scan_lines(worktree_list(ws, ids)).complete =~= ws);
    }
}

proof fn lemma_list_lines_plain(ws: Seq<WorktreeModel>, ids: Seq<Seq<char>>)
    requires
        ids.len() == ws.len(),
        forall|i: int| 0 <= i < ws.len() ==> is_printable_worktree(#[trigger] ws[i], ids[i]),
    ensures
        forall|i: int|
            0 <= i < worktree_list(ws, ids).len() ==> !(#[trigger] worktree_list(
                ws,
                ids,
            )[i]).contains('\n') && (worktree_list(ws, ids)[i].len() > 0 ==> worktree_list(
                ws,
                ids,
            )[i].last() != '\r'),
    decreases ws.len(),
{
    if ws.len() > 0 {
        let before = ws.drop_last();
        let before_ids = ids.drop_last();
        let w = ws.last();
        let id = ids.last();
        assert forall|i: int| 0 <= i < before.len() implies is_printable_worktree(
            #[trigger] before[i],
            before_ids[i],
        ) by {
            assert(before[i] == ws[i]);
        }
        assert(is_printable_worktree(ws[ws.len() - 1], ids[ws.len() - 1]));
        lemma_list_lines_plain(before, before_ids);
        reveal_strlit("worktree ");
        reveal_strlit("HEAD ");
        reveal_strlit("branch ");
        reveal_strlit("refs/heads/");
        reveal_strlit("detached");
        let front = worktree_list(before, before_ids);
        let back = worktree_lines(w, id);
        let all = worktree_list(ws, ids);
        assert forall|i: int| 0 <= i < all.len() implies !(#[trigger] all[i]).contains('\n') && (
        all[i].len() > 0 ==> all[i].last() != '\r') by {
            if i < front.len() {
                assert(all[i] == front[i]);
            } else {
                let k = i - front.len();
                assert(all[i] == back[k]);
                lemma_no_feed("worktree "@, w.path);
                lemma_no_feed("HEAD "@, id);
                if let Some(b) = w.branch {
                    lemma_no_feed("refs/heads/"@, b);
                    lemma_no_feed("branch "@, "refs/heads/"@ + b);
                }
            }
        }
    }
}

proof fn lemma_no_feed(a: Seq<char>, b: Seq<char>)
    requires
        !a.contains('\n'),
        !b.contains('\n'),
        b.len() > 0,
    ensures
        !(a + b).contains('\n'),
        (a + b).last() == b.last(),
{
    assert forall|i: int| 0 <= i < (a + b).len() implies (a + b)[i] != '\n' by {
        if i < a.len() {
            assert(a.contains(a[i]));
        } else {
            assert(b.contains(b[i - a.len()]));
        }
    }
}

/// Reading what `git worktree list` prints gives the worktrees back.
pub proof fn law_worktrees_read_back(ws: Seq<WorktreeModel>, ids: Seq<Seq<char>>)
    requires
        ids.len() == ws.len(),
        forall|i: int| 0 <= i < ws.len() ==> is_printable_worktree(#[trigger] ws[i], ids[i]),
    ensures
        worktrees_on(lines_of(text_of_lines(worktree_list(ws, ids)))) == ws,
{
    lemma_scan_worktrees(ws, ids);
    lemma_list_lines_plain(ws, ids);
    law_lines_read_back(worktree_list(ws, ids));
}

/// The last worktree of a list is read whether or not an empty line follows it.
pub proof fn law_last_worktree_read(ws: Seq<WorktreeModel>, ids: Seq<Seq<char>>)
    requires
        ids.len() == ws.len(),
        ws.len() > 0,
        forall|i: int| 0 <= i < ws.len() ==> is_printable_worktree(#[trigger] ws[i], ids[i]),
    ensures
        worktrees_on(lines_of(text_of_lines(worktree_list(ws, ids).drop_last()))) == ws,
{
    let lines = worktree_list(ws, ids);
    let own = worktree_lines(ws.last(), ids.last());
    lemma_scan_worktrees(ws, ids);
    lemma_list_lines_plain(ws, ids);
    assert forall|i: int| 0 <= i < lines.drop_last().len() implies !(#[trigger] lines.drop_last()[i])
        .contains('\n') && (lines.drop_last()[i].len() > 0 ==> lines.drop_last()[i].last() != '\r') by {
        assert(lines.drop_last()[i] == lines[i]);
    }
    law_lines_read_back(lines.drop_last());
    assert(lines.last() == own[3]);
    assert(lines.last() =~= Seq::<char>::empty());
}

/// A worktree of which no HEAD is told, such as a bare one, is not in the list.
pub proof fn law_worktree_without_head_left_out(
    ws: Seq<WorktreeModel>,
    ids: Seq<Seq<char>>,
    w: WorktreeModel,
    id: Seq<char>,
)
    requires
        ids.len() == ws.len(),
        forall|i: int| 0 <= i < ws.len() ==> is_printable_worktree(#[trigger] ws[i], ids[i]),
        is_printable_worktree(w, id),
    ensures
        worktrees_on(worktree_list(ws, ids).push("worktree "@ + w.path)) == ws,
        worktrees_on(
            worktree_list(ws, ids).push("worktree "@ + w.path).push(Seq::<char>::empty()),
        ) == ws,
{
    let l0 = worktree_list(ws, ids);
    let l1 = l0.push("worktree "@ + w.path);
    lemma_scan_worktrees(ws, ids);
    lemma_scan_push(l0, "worktree "@ + w.path);
    lemma_scan_push(l1, Seq::<char>::empty());
    lemma_worktree_line_facts(w, id, scan_lines(l0));
    assert(trimmed(Seq::<char>::empty()).len() == 0);
}

} // verus!
