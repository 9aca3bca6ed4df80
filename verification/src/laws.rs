//! Laws of the rotating sink, proved over its abstract state.

use vstd::prelude::*;
use crate::error::{Error, IoOperation};
use crate::formatter::{decimal_digits, lemma_decimal_digits_injective, Formatter};
use crate::record::RecordView;
use crate::rotating_file_sink::RotatingSinkView;
use crate::rotation::RotationPolicy;

verus! {

/// Total byte count of a set of files.
pub open spec fn total_bytes(files: Seq<Seq<u8>>) -> nat
    decreases files.len(),
{
    if files.len() == 0 {
        0
    } else {
        total_bytes(files.drop_last()) + files.last().len()
    }
}

/// Every file a sink holds: the rotated ones in order, then the open one.
pub open spec fn all_files(v: RotatingSinkView) -> Seq<Seq<u8>> {
    match v.current {
        Option::Some(data) => v.archived.push(data),
        Option::None => v.archived,
    }
}

proof fn lemma_total_bytes_push(files: Seq<Seq<u8>>, file: Seq<u8>)
    ensures
        total_bytes(files.push(file)) == total_bytes(files) + file.len(),
{
    assert(files.push(file).drop_last() =~= files);
}

/// A record the filter rejects leaves the sink untouched, and the call
/// succeeds: filtering costs nothing and corrupts nothing.
pub proof fn lemma_rejected_record_changes_nothing(v: RotatingSinkView, rec: RecordView)
    requires
        !v.level_filter.accepts(rec.level),
    ensures
        v.log_post(rec) == v,
        v.log_result(rec) == Result::<(), Error>::Ok(()),
{
}

/// Swapping in a new formatter returns the old one, and swapping the returned
/// formatter back restores the sink exactly.
pub proof fn lemma_swap_formatter_round_trip(v: RotatingSinkView, formatter: Formatter)
    ensures
        v.swap_formatter_post(formatter).swap_formatter_result(v.swap_formatter_result(formatter))
            == formatter,
        v.swap_formatter_post(formatter).swap_formatter_post(v.swap_formatter_result(formatter))
            == v,
{
    assert(v.swap_formatter_post(formatter).swap_formatter_post(
        v.swap_formatter_result(formatter),
    ) =~= v);
}

/// With a size policy, a write that fills the open file to exactly the limit
/// still goes to that file; the first write that would push past the limit
/// closes the file into the archive and lands, whole, in the fresh file.
pub proof fn lemma_size_rotation(v: RotatingSinkView, rec: RecordView, max_size: u64)
    requires
        v.policy == RotationPolicy::FileSize(max_size),
        v.accepts(rec),
        v.pending_open_failures == 0,
        v.current is Some,
        v.current->Some_0.len() > 0,
    ensures
        v.log_result(rec) == Result::<(), Error>::Ok(()),
        v.current->Some_0.len() + v.formatter.format_spec(rec).len() <= max_size ==> v.log_post(
            rec,
        ) == (RotatingSinkView {
            current: Option::Some(v.current->Some_0 + v.formatter.format_spec(rec)),
            ..v
        }),
        v.current->Some_0.len() + v.formatter.format_spec(rec).len() > max_size ==> v.log_post(
            rec,
        ) == (RotatingSinkView {
            archived: v.archived.push(v.current->Some_0),
            current: Option::Some(v.formatter.format_spec(rec)),
            open_time: rec.time,
            ..v
        }),
{
    let bytes = v.formatter.format_spec(rec);
    if v.current->Some_0.len() + bytes.len() <= max_size {
        assert(v.log_post(rec) =~= (RotatingSinkView {
            current: Option::Some(v.current->Some_0 + bytes),
            ..v
        }));
    } else {
        assert(v.log_post(rec) =~= (RotatingSinkView {
            archived: v.archived.push(v.current->Some_0),
            current: Option::Some(bytes),
            open_time: rec.time,
            ..v
        }));
    }
}

/// A single record larger than the size limit is still written whole: a sink
/// with no open file, or with an empty one, accepts it without rotating.
pub proof fn lemma_oversized_record_written_whole(
    v: RotatingSinkView,
    rec: RecordView,
    max_size: u64,
)
    requires
        v.policy == RotationPolicy::FileSize(max_size),
        v.accepts(rec),
        v.pending_open_failures == 0,
        v.needs_open() || v.current->Some_0.len() == 0,
    ensures
        v.log_result(rec) == Result::<(), Error>::Ok(()),
        v.log_post(rec).archived == v.archived,
        v.log_post(rec).current == Option::Some(v.formatter.format_spec(rec)),
{
    let bytes = v.formatter.format_spec(rec);
    if !v.needs_open() {
        assert(v.current->Some_0 + bytes =~= bytes);
    }
}

/// With a period policy, a record stamped inside the window in which the open
/// file was opened appends to it; the first record stamped in another window
/// causes exactly one rotation — the archive grows by exactly the closed file
/// — and opens the new window's file.
pub proof fn lemma_period_rotation(v: RotatingSinkView, rec: RecordView, period: u64)
    requires
        v.policy == RotationPolicy::Period(period),
        period > 0,
        v.accepts(rec),
        v.pending_open_failures == 0,
        v.current is Some,
        v.current->Some_0.len() > 0,
    ensures
        v.log_result(rec) == Result::<(), Error>::Ok(()),
        rec.time as nat / period as nat == v.open_time as nat / period as nat ==> v.log_post(rec)
            == (RotatingSinkView {
            current: Option::Some(v.current->Some_0 + v.formatter.format_spec(rec)),
            ..v
        }),
        rec.time as nat / period as nat != v.open_time as nat / period as nat ==> v.log_post(rec)
            == (RotatingSinkView {
            archived: v.archived.push(v.current->Some_0),
            current: Option::Some(v.formatter.format_spec(rec)),
            open_time: rec.time,
            ..v
        }),
{
    let bytes = v.formatter.format_spec(rec);
    if rec.time as nat / period as nat == v.open_time as nat / period as nat {
        assert(v.log_post(rec) =~= (RotatingSinkView {
            current: Option::Some(v.current->Some_0 + bytes),
            ..v
        }));
    } else {
        assert(v.log_post(rec) =~= (RotatingSinkView {
            archived: v.archived.push(v.current->Some_0),
            current: Option::Some(bytes),
            open_time: rec.time,
            ..v
        }));
    }
}

/// A log call never touches the sink's configuration, and a sink with no
/// injected failures keeps none.
pub proof fn lemma_log_preserves_config(v: RotatingSinkView, rec: RecordView)
    ensures
        v.log_post(rec).level_filter == v.level_filter,
        v.log_post(rec).formatter == v.formatter,
        v.log_post(rec).policy == v.policy,
        v.pending_open_failures == 0 ==> v.log_post(rec).pending_open_failures == 0,
{
}

/// One log call neither loses nor duplicates bytes: an accepted, successful
/// write grows the file set by exactly the formatted record, and any other
/// call leaves the total untouched.
pub proof fn lemma_log_conserves_bytes(v: RotatingSinkView, rec: RecordView)
    ensures
        v.accepts(rec) && v.log_result(rec) == Result::<(), Error>::Ok(()) ==> total_bytes(
            all_files(v.log_post(rec)),
        ) == total_bytes(all_files(v)) + v.formatter.format_spec(rec).len(),
        !(v.accepts(rec) && v.log_result(rec) == Result::<(), Error>::Ok(())) ==> total_bytes(
            all_files(v.log_post(rec)),
        ) == total_bytes(all_files(v)),
{
    let bytes = v.formatter.format_spec(rec);
    if !v.accepts(rec) {
    } else {
        let base = if v.wants_rotation(rec) {
            v.closed()
        } else {
            v
        };
        if v.wants_rotation(rec) {
            lemma_total_bytes_push(v.archived, v.current->Some_0);
        }
        if base.needs_open() {
            if base.pending_open_failures > 0 {
                assert(all_files(v.log_post(rec)) == base.archived);
            } else {
                lemma_total_bytes_push(base.archived, bytes);
            }
        } else {
            lemma_total_bytes_push(base.archived, base.current->Some_0 + bytes);
            lemma_total_bytes_push(base.archived, base.current->Some_0);
            assert(all_files(base) == base.archived.push(base.current->Some_0));
        }
    }
}

/// The sink state after logging each record of `recs`, oldest first.
pub open spec fn run(v: RotatingSinkView, recs: Seq<RecordView>) -> RotatingSinkView
    decreases recs.len(),
{
    if recs.len() == 0 {
        v
    } else {
        run(v, recs.drop_last()).log_post(recs.last())
    }
}

/// Sum of the sizes of `recs` as formatter `formatter` renders them.
pub open spec fn total_formatted(formatter: Formatter, recs: Seq<RecordView>) -> nat
    decreases recs.len(),
{
    if recs.len() == 0 {
        0
    } else {
        total_formatted(formatter, recs.drop_last()) + formatter.format_spec(recs.last()).len()
    }
}

/// A batch of records that all pass the filter, logged on a sink with no
/// failure pending, lands in full: however many rotations the run crosses,
/// the files afterwards hold exactly the old bytes plus every formatted
/// record — none lost, none duplicated.
pub proof fn lemma_run_conserves_bytes(v: RotatingSinkView, recs: Seq<RecordView>)
    requires
        forall|i: int| 0 <= i < recs.len() ==> v.level_filter.accepts(#[trigger] recs[i].level),
        v.pending_open_failures == 0,
    ensures
        total_bytes(all_files(run(v, recs))) == total_bytes(all_files(v)) + total_formatted(
            v.formatter,
            recs,
        ),
        run(v, recs).level_filter == v.level_filter,
        run(v, recs).formatter == v.formatter,
        run(v, recs).policy == v.policy,
        run(v, recs).pending_open_failures == 0,
    decreases recs.len(),
{
    if recs.len() > 0 {
        let prefix = recs.drop_last();
        assert(forall|i: int|
            0 <= i < prefix.len() ==> v.level_filter.accepts(#[trigger] prefix[i].level)) by {
            assert(forall|i: int| 0 <= i < prefix.len() ==> prefix[i] == recs[i]);
        }
        lemma_run_conserves_bytes(v, prefix);
        let mid = run(v, prefix);
        lemma_log_conserves_bytes(mid, recs.last());
        lemma_log_preserves_config(mid, recs.last());
        assert(mid.accepts(recs.last()));
        assert(mid.log_result(recs.last()) == Result::<(), Error>::Ok(()));
    }
}

/// A run of log calls never touches the sink's configuration.
pub proof fn lemma_run_preserves_config(v: RotatingSinkView, recs: Seq<RecordView>)
    ensures
        run(v, recs).level_filter == v.level_filter,
        run(v, recs).formatter == v.formatter,
        run(v, recs).policy == v.policy,
    decreases recs.len(),
{
    if recs.len() > 0 {
        lemma_run_preserves_config(v, recs.drop_last());
        lemma_log_preserves_config(run(v, recs.drop_last()), recs.last());
    }
}

/// Every file the sink holds is at most `max_size` bytes long.
pub open spec fn files_within(v: RotatingSinkView, max_size: u64) -> bool {
    forall|k: int| 0 <= k < all_files(v).len() ==> #[trigger] all_files(v)[k].len() <= max_size
}

/// Under a size policy, the limit is honoured: when no single record formats
/// to more than the limit, no file the sink holds ever outgrows it.
pub proof fn lemma_size_limit_respected(v: RotatingSinkView, rec: RecordView, max_size: u64)
    requires
        v.policy == RotationPolicy::FileSize(max_size),
        files_within(v, max_size),
        v.formatter.format_spec(rec).len() <= max_size,
    ensures
        files_within(v.log_post(rec), max_size),
{
    let bytes = v.formatter.format_spec(rec);
    let post = v.log_post(rec);
    if v.accepts(rec) {
        let base = if v.wants_rotation(rec) {
            v.closed()
        } else {
            v
        };
        assert forall|k: int|
            0 <= k < base.archived.len() implies #[trigger] base.archived[k].len()
            <= max_size by {
            assert(all_files(v)[k] == base.archived[k]);
        }
        if base.needs_open() {
            assert forall|k: int|
                0 <= k < all_files(post).len() implies #[trigger] all_files(post)[k].len()
                <= max_size by {
                if k < base.archived.len() {
                    assert(all_files(post)[k] == base.archived[k]);
                }
            }
        } else {
            // no rotation was wanted, so the append stays within the limit
            let data = base.current->Some_0;
            if data.len() > 0 {
                assert(!base.policy.rotate_spec(data.len(), base.open_time, bytes.len(), rec.time));
                assert(data.len() + bytes.len() <= max_size);
            } else {
                assert(data + bytes =~= bytes);
            }
            assert(all_files(v)[v.archived.len() as int] == data);
            assert forall|k: int|
                0 <= k < all_files(post).len() implies #[trigger] all_files(post)[k].len()
                <= max_size by {
                if k < base.archived.len() {
                    assert(all_files(post)[k] == base.archived[k]);
                } else {
                    assert(all_files(post)[k] == data + bytes);
                }
            }
        }
    }
}

/// Under a size policy, however many records a run writes, every file stays
/// within the limit as long as every single record does.
pub proof fn lemma_run_respects_size_limit(
    v: RotatingSinkView,
    recs: Seq<RecordView>,
    max_size: u64,
)
    requires
        v.policy == RotationPolicy::FileSize(max_size),
        files_within(v, max_size),
        forall|i: int|
            0 <= i < recs.len() ==> v.formatter.format_spec(#[trigger] recs[i]).len() <= max_size,
    ensures
        files_within(run(v, recs), max_size),
    decreases recs.len(),
{
    if recs.len() > 0 {
        let prefix = recs.drop_last();
        assert(forall|i: int|
            0 <= i < prefix.len() ==> v.formatter.format_spec(#[trigger] prefix[i]).len()
                <= max_size) by {
            assert(forall|i: int| 0 <= i < prefix.len() ==> prefix[i] == recs[i]);
        }
        lemma_run_respects_size_limit(v, prefix, max_size);
        lemma_run_preserves_config(v, prefix);
        lemma_size_limit_respected(run(v, prefix), recs.last(), max_size);
    }
}

/// A log call that must open a file — initially, or to rotate — while a
/// failure is pending reports the open failure and loses only that record:
/// the sink is left with no file open, and the next accepted record, once the
/// failure condition is cleared, opens a file and is written in full.
pub proof fn lemma_open_failure_and_recovery(
    v: RotatingSinkView,
    rec1: RecordView,
    rec2: RecordView,
)
    requires
        v.accepts(rec1),
        v.accepts(rec2),
        v.pending_open_failures == 1,
        v.needs_open() || v.wants_rotation(rec1),
    ensures
        v.log_result(rec1) == Result::<(), Error>::Err(Error::Io(IoOperation::Open)),
        v.log_post(rec1).needs_open(),
        v.log_post(rec1).pending_open_failures == 0,
        total_bytes(all_files(v.log_post(rec1))) == total_bytes(all_files(v)),
        v.log_post(rec1).log_result(rec2) == Result::<(), Error>::Ok(()),
        v.log_post(rec1).log_post(rec2).current == Option::Some(
            v.formatter.format_spec(rec2),
        ),
{
    lemma_log_conserves_bytes(v, rec1);
}

/// Within one rotating set, file names never collide: distinct indices give
/// distinct names, whatever the base name.
pub proof fn lemma_rotated_names_collision_free(base: Seq<u8>, i: nat, j: nat)
    requires
        i != j,
    ensures
        base + seq![46u8] + decimal_digits(i) != base + seq![46u8] + decimal_digits(j),
{
    if decimal_digits(i) == decimal_digits(j) {
        lemma_decimal_digits_injective(i, j);
    }
    let prefix = base + seq![46u8];
    if prefix + decimal_digits(i) == prefix + decimal_digits(j) {
        assert((prefix + decimal_digits(i)).len() == prefix.len() + decimal_digits(i).len());
        assert((prefix + decimal_digits(j)).len() == prefix.len() + decimal_digits(j).len());
        assert(decimal_digits(i).len() == decimal_digits(j).len());
        assert forall|k: int|
            0 <= k < decimal_digits(i).len() implies decimal_digits(i)[k] == decimal_digits(
            j,
        )[k] by {
            assert((prefix + decimal_digits(i))[prefix.len() + k] == decimal_digits(i)[k]);
            assert((prefix + decimal_digits(j))[prefix.len() + k] == decimal_digits(j)[k]);
        }
        assert(decimal_digits(i) =~= decimal_digits(j));
    }
}

} // verus!
