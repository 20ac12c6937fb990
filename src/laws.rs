use vstd::prelude::*;

use crate::bootstrap::{
    after_round, after_rounds, path_of_round, round_path, writes, writes_in_rounds, BootstrapView,
    RoundOutcome,
};
use crate::command::joined;

verus! {

/// Once a path is cached, no request changes the state, writes, or returns
/// another path, whatever the system answers.
pub proof fn lemma_cached_is_final(v: BootstrapView, os: Seq<RoundOutcome>)
    requires
        v.cached is Some,
    ensures
        after_rounds(v, os) == v,
        writes_in_rounds(v, os) == 0,
        forall|k: int| 0 <= k < os.len() ==> #[trigger] path_of_round(v, os, k) == v.cached,
    decreases os.len(),
{
    if os.len() > 0 {
        assert(after_round(v, os[0]) == v);
        lemma_cached_is_final(v, os.drop_first());
        assert forall|k: int| 0 <= k < os.len() implies #[trigger] path_of_round(v, os, k) == v.cached by {
            lemma_cached_is_final(v, os.take(k));
        }
    }
}

/// Over any sequence of requests on a state with nothing cached whose first
/// request succeeds, the file is written exactly once and every request
/// returns the same path: the working directory joined with the file name.
pub proof fn lemma_written_once(v: BootstrapView, os: Seq<RoundOutcome>)
    requires
        v.cached is None,
        os.len() >= 1,
        os[0].write_ok,
        os[0].dir is Some,
    ensures
        writes_in_rounds(v, os) == 1,
        forall|k: int|
            0 <= k < os.len() ==> #[trigger] path_of_round(v, os, k) == Some(
                joined(os[0].dir->Some_0, v.file_name),
            ),
{
    let p = joined(os[0].dir->Some_0, v.file_name);
    let v1 = after_round(v, os[0]);
    assert(v1.cached == Some(p));
    lemma_cached_is_final(v1, os.drop_first());
    assert forall|k: int| 0 <= k < os.len() implies #[trigger] path_of_round(v, os, k) == Some(p) by {
        if k == 0 {
            assert(os.take(0) =~= Seq::<RoundOutcome>::empty());
        } else {
            let t = os.take(k);
            assert(t[0] == os[0]);
            assert(t.drop_first() =~= os.drop_first().take(k - 1));
            lemma_cached_is_final(v1, t.drop_first());
        }
    }
}

/// A state with nothing cached, as every new bootstrapper has, writes the
/// payload on its next request, whatever an earlier run left on disk, and a
/// successful request caches the path that it returns.
pub proof fn lemma_fresh_state_writes(v: BootstrapView, o: RoundOutcome)
    requires
        v.cached is None,
    ensures
        writes(v),
        after_round(v, o).cached == round_path(v, o),
        after_round(v, o).payload == v.payload,
        after_round(v, o).file_name == v.file_name,
        o.write_ok && o.dir is Some ==> round_path(v, o) == Some(joined(o.dir->Some_0, v.file_name)),
{
}

/// The path that a successful request returns is the one then cached, which
/// is the path the launch command runs.
pub proof fn lemma_command_uses_returned_path(v: BootstrapView, o: RoundOutcome)
    requires
        round_path(v, o) is Some,
    ensures
        after_round(v, o).cached == round_path(v, o),
{
}

/// A request whose working directory cannot be resolved fails and leaves
/// nothing cached; the next request, with the directory back, succeeds.
pub proof fn lemma_dir_failure_then_retry(v: BootstrapView, dir: Seq<char>)
    requires
        v.cached is None,
    ensures
        round_path(v, RoundOutcome { write_ok: true, dir: None }) is None,
        after_round(v, RoundOutcome { write_ok: true, dir: None }) == v,
        round_path(
            after_round(v, RoundOutcome { write_ok: true, dir: None }),
            RoundOutcome { write_ok: true, dir: Some(dir) },
        ) == Some(joined(dir, v.file_name)),
{
}

/// A request whose write fails leaves nothing cached, whatever the working
/// directory; the next request, with the write allowed, succeeds and caches
/// its path.
pub proof fn lemma_write_failure_then_retry(v: BootstrapView, o: RoundOutcome, dir: Seq<char>)
    requires
        v.cached is None,
        !o.write_ok,
    ensures
        round_path(v, o) is None,
        after_round(v, o) == v,
        after_round(after_round(v, o), RoundOutcome { write_ok: true, dir: Some(dir) }).cached == Some(
            joined(dir, v.file_name),
        ),
{
}

} // verus!
