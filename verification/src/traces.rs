//! What operations ask, one request after the other, and what they come to.
use vstd::prelude::*;

use crate::dialogue::{accepted, explained, passed_on, told, Turn};
use crate::errors::{cli_error_text, CliErrorModel, GitError, ServiceErrorModel};
use crate::model::Model;
use crate::porcelain::{excludes_of, filled_specs, with_filter};
use crate::raw::{strict_text, utf8};
use crate::records::RunEnd;
use crate::service::ServiceTurn;
use crate::text::{ascii_lowered, trimmed};

pub mod checkouts;
pub mod differences;
pub mod merges;
pub mod positions;
pub mod pushes;
pub mod repositories;

verus! {

/// Whether a command ended well: with the exit code zero, and with all its input written.
pub open spec fn ended_well(end: RunEnd) -> bool {
    end.code == Some(0i32) && end.stdin_error is None
}

/// Whether some arguments are these, followed by a pathspec for each directory that leaves it out
/// wherever it is; two dashes stand between them where there is a directory.
pub open spec fn leaves_out(args: Seq<Seq<u8>>, front: Seq<Seq<u8>>, dirs: Seq<Seq<char>>) -> bool {
    if dirs.len() == 0 {
        args == front
    } else {
        &&& args.len() == front.len() + 1 + dirs.len()
        &&& forall|i: int| 0 <= i < front.len() ==> #[trigger] args[i] == front[i]
        &&& args[front.len() as int] == utf8("--"@)
        &&& forall|i: int|
            0 <= i < dirs.len() ==> args[front.len() + 1 + i] == utf8(
                ":(glob,exclude)**/"@ + #[trigger] dirs[i] + "/"@,
            )
    }
}

pub(crate) proof fn lemma_left_out(args: Seq<Seq<u8>>, front: Seq<Seq<u8>>, dirs: Seq<Seq<char>>)
    ensures
        leaves_out(args, front, dirs) <==> args == with_filter(front, dirs, None),
{
    let all = with_filter(front, dirs, None);
    if dirs.len() > 0 {
        assert(leaves_out(all, front, dirs)) by {
            assert forall|i: int| 0 <= i < dirs.len() implies all[front.len() + 1 + i] == utf8(
                ":(glob,exclude)**/"@ + #[trigger] dirs[i] + "/"@,
            ) by {}
        }
        if leaves_out(args, front, dirs) {
            assert forall|i: int| 0 <= i < args.len() implies #[trigger] args[i] == all[i] by {
                if i > front.len() {
                    let j = i - front.len() - 1;
                    assert(dirs[j] == dirs[j]);
                    assert(args[front.len() + 1 + j] == all[front.len() + 1 + j]);
                }
            }
            assert(args =~= all);
        }
    }
}

/// The pathspecs that some paths make, but for blank ones.
pub open spec fn given_paths(filter: Option<Seq<Seq<char>>>) -> Seq<Seq<u8>> {
    if filter is Some {
        filter->0.filter(|s: Seq<char>| trimmed(s).len() > 0).map_values(|s: Seq<char>| utf8(s))
    } else {
        seq![]
    }
}

/// Whether some arguments are these, followed by what leaves out the directories and then by the
/// paths of a filter; two dashes stand before the first of these, where there is one.
pub open spec fn limits_to(
    args: Seq<Seq<u8>>,
    front: Seq<Seq<u8>>,
    dirs: Seq<Seq<char>>,
    filter: Option<Seq<Seq<char>>>,
) -> bool {
    let paths = given_paths(filter);
    if dirs.len() > 0 {
        &&& args.len() == front.len() + 1 + dirs.len() + paths.len()
        &&& leaves_out(args.take(front.len() + 1int + dirs.len()), front, dirs)
        &&& args.skip(front.len() + 1int + dirs.len()) == paths
    } else if paths.len() > 0 {
        args == front.push(utf8("--"@)) + paths
    } else {
        args == front
    }
}

proof fn lemma_filled(specs: Seq<Seq<char>>)
    ensures
        filled_specs(specs) == given_paths(Some(specs)),
    decreases specs.len(),
{
    reveal(Seq::filter);
    let keep = |s: Seq<char>| trimmed(s).len() > 0;
    let encode = |s: Seq<char>| utf8(s);
    if specs.len() > 0 {
        lemma_filled(specs.drop_last());
        let before = specs.drop_last().filter(keep);
        if trimmed(specs.last()).len() > 0 {
            assert(specs.filter(keep) == before.push(specs.last()));
            assert(before.push(specs.last()).map_values(encode) =~= before.map_values(encode).push(
                encode(specs.last()),
            ));
        }
    }
    assert(filled_specs(specs) =~= specs.filter(keep).map_values(encode));
}

pub(crate) proof fn lemma_limited(
    args: Seq<Seq<u8>>,
    front: Seq<Seq<u8>>,
    dirs: Seq<Seq<char>>,
    filter: Option<Seq<Seq<char>>>,
)
    requires
        limits_to(args, front, dirs, filter),
    ensures
        args == with_filter(front, dirs, filter),
{
    let paths = given_paths(filter);
    let own = excludes_of(dirs);
    assert(own.len() == dirs.len());
    if filter is Some {
        lemma_filled(filter->0);
    }
    assert(filter is None ==> own + paths =~= own);
    if dirs.len() > 0 {
        let cut: int = front.len() + 1int + dirs.len();
        lemma_left_out(args.take(cut), front, dirs);
        assert(args =~= args.take(cut) + args.skip(cut));
        assert(args =~= with_filter(front, dirs, filter));
    } else {
        assert(own + paths =~= paths);
    }
}

/// Arguments that are limited to some paths leave out the directories, and then name these paths in
/// order, but for blank ones.
pub proof fn law_limited_to_paths(
    front: Seq<Seq<u8>>,
    dirs: Seq<Seq<char>>,
    filter: Option<Seq<Seq<char>>>,
)
    ensures
        limits_to(with_filter(front, dirs, filter), front, dirs, filter),
{
    let args = with_filter(front, dirs, filter);
    let paths = given_paths(filter);
    let own = excludes_of(dirs);
    assert(own.len() == dirs.len());
    if filter is Some {
        lemma_filled(filter->0);
    }
    if dirs.len() > 0 {
        let cut: int = front.len() + 1int + dirs.len();
        assert(args.take(cut) =~= with_filter(front, dirs, None));
        lemma_left_out(args.take(cut), front, dirs);
        assert(args.skip(cut) =~= paths);
    } else {
        assert(own + paths =~= paths);
        assert(own =~= Seq::<Seq<u8>>::empty());
    }
}

/// Failures are passed on with what they say: those of libgit2 and of the `git` command as they
/// are, or after some words.
pub proof fn law_failures_passed_on<A>(e: CliErrorModel, words: Seq<char>, g: GitError, n: int)
    ensures
        passed_on(Turn::<A, CliErrorModel>::Failed(e, n)) == ServiceTurn::<A>::Failed(
            ServiceErrorModel::GitCLI(e),
            n,
        ),
        told(Turn::<A, CliErrorModel>::Failed(e, n)) == ServiceTurn::<A>::Failed(
            ServiceErrorModel::InvalidRepository(cli_error_text(e)),
            n,
        ),
        explained(Turn::<A, CliErrorModel>::Failed(e, n), words) == ServiceTurn::<A>::Failed(
            ServiceErrorModel::InvalidRepository(words + cli_error_text(e)),
            n,
        ),
        accepted(ServiceTurn::<Result<A, GitError>>::Done(Err(g), n)) == ServiceTurn::<A>::Failed(
            ServiceErrorModel::Git(g.model()),
            n,
        ),
{
}

/// Text that was encoded is read back as it was.
pub proof fn law_encoded_text_read_back(s: Seq<char>)
    ensures
        strict_text(utf8(s)) == Some(s),
{
    vstd::utf8::encode_utf8_valid_utf8(s);
    vstd::utf8::encode_utf8_decode_utf8(s);
}

/// Lower case changes the letters from `A` to `Z`, and nothing else.
pub proof fn law_lower_case(s: Seq<char>, i: int)
    requires
        0 <= i < s.len(),
    ensures
        ascii_lowered(s).len() == s.len(),
        65 <= s[i] as int <= 90 ==> ascii_lowered(s)[i] as int == s[i] as int + 32,
        !(65 <= s[i] as int <= 90) ==> ascii_lowered(s)[i] == s[i],
{
}

} // verus!
