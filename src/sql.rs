use vstd::prelude::*;

verus! {

/// The items joined with `", "` between each two neighbours.
pub open spec fn comma_join(items: Seq<Seq<char>>) -> Seq<char>
    decreases items.len(),
{
    if items.len() == 0 {
        Seq::empty()
    } else if items.len() == 1 {
        items[0]
    } else {
        comma_join(items.drop_last()) + ", "@ + items.last()
    }
}

/// Appends the next item of a comma separated list to its first `done` items.
pub(crate) fn append_listed(out: &mut String, item: &str, Ghost(items): Ghost<Seq<Seq<char>>>, done: usize)
    requires
        0 <= done < items.len(),
        items[done as int] == item@,
        old(out)@ == comma_join(items.take(done as int)),
    ensures
        final(out)@ == comma_join(items.take(done + 1)),
{
    let ghost before = out@;
    if done > 0 {
        out.append(", ");
    }
    out.append(item);
    assert(items.take(done + 1).drop_last() =~= items.take(done as int));
    if done == 0 {
        assert(out@ =~= before + item@);
    }
}

} // verus!
