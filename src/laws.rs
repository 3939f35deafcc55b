use vstd::prelude::*;

use crate::store::MessageView;

verus! {

/// The log after a series of calls to `add_message`, each given as the entry it
/// adds, applied from first to last.
pub open spec fn replay(log: Seq<MessageView>, entries: Seq<MessageView>) -> Seq<MessageView>
    decreases entries.len(),
{
    if entries.len() == 0 {
        log
    } else {
        replay(log, entries.drop_last()).push(entries.last())
    }
}

/// After any series of calls to `add_message`, the log is the log before them
/// followed by exactly the entries those calls added, in the order of the calls.
pub proof fn lemma_append_visibility(log: Seq<MessageView>, entries: Seq<MessageView>)
    ensures
        replay(log, entries) == log + entries,
    decreases entries.len(),
{
    if entries.len() == 0 {
        assert(log + entries =~= log);
    } else {
        lemma_append_visibility(log, entries.drop_last());
        assert((log + entries.drop_last()).push(entries.last()) =~= log + entries);
    }
}

/// No series of calls removes, reorders or changes an entry already in the log:
/// the log before is a prefix of the log after, which is longer by one entry per call.
pub proof fn lemma_append_only(log: Seq<MessageView>, entries: Seq<MessageView>)
    ensures
        replay(log, entries).len() == log.len() + entries.len(),
        replay(log, entries).len() >= log.len(),
        replay(log, entries).subrange(0, log.len() as int) == log,
{
    lemma_append_visibility(log, entries);
    assert((log + entries).subrange(0, log.len() as int) =~= log);
}

} // verus!
